# langswitch

A keyboard-layout switcher for Windows: a global Ctrl+Shift / Shift+Alt hotkey
cycles through the installed layouts, and a small on-screen indicator near the
text caret shows the new language.

- `src/` is the verified library (Verus): the hotkey state machine (`hook`),
  the layout cycle and language names (`layout`), the caret lookup protocol
  (`caret`), the theme decoding (`theme`), the indicator's colours, position and
  window style (`osd`), and the tray menu and icon decoding (`tray`).
- `app/` is the Windows program around it: the Win32 hook and message loops,
  registry reads, the Slint window and the tray icon.
- `tests/` runs the library on concrete inputs.
