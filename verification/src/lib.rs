//! Keyboard-layout switcher core: the decisions behind the global hotkey,
//! the layout cycle, the on-screen indicator and the tray menu.
pub mod layout;
pub mod hook;
pub mod caret;
pub mod theme;
pub mod osd;
pub mod tray;
