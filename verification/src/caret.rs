use vstd::prelude::*;

verus! {

/// A point in screen coordinates.
#[derive(Clone, Copy, Debug, PartialEq, Eq, Structural)]
pub struct ScreenPoint {
    pub x: i32,
    pub y: i32,
}

/// The caret as the GUI thread of the active window reports it.
#[derive(Clone, Copy, Debug, PartialEq, Eq, Structural)]
pub struct GuiCaret {
    /// The thread has a window that owns the caret.
    pub has_caret_window: bool,
    /// Left edge of the caret rectangle, in that window's client coordinates.
    pub left: i32,
    /// Bottom edge of the caret rectangle, in that window's client coordinates.
    pub bottom: i32,
}

/// The next question the caret lookup asks of the system, or its answer.
#[derive(Clone, Copy, Debug, PartialEq, Eq, Structural)]
pub enum CaretQuery {
    /// Which window is in the foreground?
    ForegroundWindow,
    /// Which thread owns that window?
    WindowThread,
    /// Where is that thread's caret?
    GuiThreadInfo,
    /// Where on the screen is this client point of the caret window?
    CaretToScreen { x: i32, y: i32 },
    /// The lookup is over: the screen point found, if any.
    Done(Option<ScreenPoint>),
}

/// The system's answer to a `CaretQuery`.
#[derive(Clone, Copy, Debug, PartialEq, Eq, Structural)]
pub enum CaretReply {
    ForegroundWindow { is_null: bool },
    WindowThread { thread_id: u32 },
    /// `None` when the thread info could not be read.
    GuiThreadInfo(Option<GuiCaret>),
    /// `None` when the point could not be converted.
    CaretToScreen(Option<ScreenPoint>),
}

/// `reply` answers `query`.
pub open spec fn answers(query: CaretQuery, reply: CaretReply) -> bool {
    match query {
        CaretQuery::ForegroundWindow => reply is ForegroundWindow,
        CaretQuery::WindowThread => reply is WindowThread,
        CaretQuery::GuiThreadInfo => reply is GuiThreadInfo,
        CaretQuery::CaretToScreen { .. } => reply is CaretToScreen,
        CaretQuery::Done(_) => false,
    }
}

/// The question that follows `query` once `reply` has answered it.
pub open spec fn caret_next(query: CaretQuery, reply: CaretReply) -> CaretQuery {
    match reply {
        CaretReply::ForegroundWindow { is_null } => if is_null {
            CaretQuery::Done(None)
        } else {
            CaretQuery::WindowThread
        },
        CaretReply::WindowThread { thread_id } => if thread_id == 0 {
            CaretQuery::Done(None)
        } else {
            CaretQuery::GuiThreadInfo
        },
        CaretReply::GuiThreadInfo(info) => match info {
            Some(g) => if g.has_caret_window {
                CaretQuery::CaretToScreen { x: g.left, y: g.bottom }
            } else {
                CaretQuery::Done(None)
            },
            None => CaretQuery::Done(None),
        },
        CaretReply::CaretToScreen(point) => CaretQuery::Done(point),
    }
}

/// How many questions at most remain to be asked.
pub open spec fn remaining_queries(query: CaretQuery) -> nat {
    match query {
        CaretQuery::ForegroundWindow => 4,
        CaretQuery::WindowThread => 3,
        CaretQuery::GuiThreadInfo => 2,
        CaretQuery::CaretToScreen { .. } => 1,
        CaretQuery::Done(_) => 0,
    }
}

/// Everything the system would answer during one lookup.
#[derive(Clone, Copy, Debug, PartialEq, Eq, Structural)]
pub struct CaretWorld {
    pub foreground_is_null: bool,
    pub thread_id: u32,
    pub gui: Option<GuiCaret>,
    pub caret_on_screen: Option<ScreenPoint>,
}

/// The answer `world` gives to `query`.
pub open spec fn reply_from(world: CaretWorld, query: CaretQuery) -> CaretReply {
    match query {
        CaretQuery::ForegroundWindow => CaretReply::ForegroundWindow {
            is_null: world.foreground_is_null,
        },
        CaretQuery::WindowThread => CaretReply::WindowThread { thread_id: world.thread_id },
        CaretQuery::GuiThreadInfo => CaretReply::GuiThreadInfo(world.gui),
        _ => CaretReply::CaretToScreen(world.caret_on_screen),
    }
}

/// Where the text cursor is: the bottom-left of the caret on the screen when
/// the foreground window's thread has a caret window and the point converts;
/// nothing otherwise (no foreground window, no thread, no caret, or a program
/// that draws its own caret).
pub open spec fn caret_position(world: CaretWorld) -> Option<ScreenPoint> {
    if world.foreground_is_null || world.thread_id == 0 {
        None
    } else if world.gui matches Some(g) && g.has_caret_window {
        world.caret_on_screen
    } else {
        None
    }
}

/// The lookup after at most `steps` questions answered by `world`.
pub open spec fn caret_run(query: CaretQuery, world: CaretWorld, steps: nat) -> CaretQuery
    decreases steps,
{
    if steps == 0 || query is Done {
        query
    } else {
        caret_run(caret_next(query, reply_from(world, query)), world, (steps - 1) as nat)
    }
}

impl CaretQuery {
    /// The first question of a lookup.
    pub fn start() -> (query: CaretQuery)
        ensures
            query == CaretQuery::ForegroundWindow,
    {
        CaretQuery::ForegroundWindow
    }
}

/// Advances the search for the text cursor by one answer: gives up without a
/// foreground window, its thread or a caret window, and otherwise answers with
/// the caret's bottom-left point on the screen, if it converts.
pub fn get_caret_pos_step(query: CaretQuery, reply: CaretReply) -> (next: CaretQuery)
    requires
        answers(query, reply),
    ensures
        next == caret_next(query, reply),
        remaining_queries(next) < remaining_queries(query),
{
    match reply {
        CaretReply::ForegroundWindow { is_null } => {
            if is_null {
                CaretQuery::Done(None)
            } else {
                CaretQuery::WindowThread
            }
        },
        CaretReply::WindowThread { thread_id } => {
            if thread_id == 0 {
                CaretQuery::Done(None)
            } else {
                CaretQuery::GuiThreadInfo
            }
        },
        CaretReply::GuiThreadInfo(info) => match info {
            Some(g) => {
                if g.has_caret_window {
                    CaretQuery::CaretToScreen { x: g.left, y: g.bottom }
                } else {
                    CaretQuery::Done(None)
                }
            },
            None => CaretQuery::Done(None),
        },
        CaretReply::CaretToScreen(point) => CaretQuery::Done(point),
    }
}

/// Every answer the system can give to a pending question is one that answers it.
pub proof fn lemma_world_answers(world: CaretWorld, query: CaretQuery)
    requires
        !(query is Done),
    ensures
        answers(query, reply_from(world, query)),
{
}

/// A lookup started from the first question ends within four answers, with
/// the position that `caret_position` describes.
pub proof fn lemma_lookup_finds_caret_position(world: CaretWorld)
    ensures
        caret_run(CaretQuery::ForegroundWindow, world, 4) == CaretQuery::Done(
            caret_position(world),
        ),
{
    reveal_with_fuel(caret_run, 5);
}

/// The lookup answers with a point exactly when the foreground window exists,
/// its thread is known, the thread reports a caret window and the caret's
/// bottom-left converts to the screen, and the point is that converted one;
/// the conversion is asked for the caret rectangle's left and bottom.
pub proof fn lemma_lookup_answers_converted_caret(world: CaretWorld)
    ensures
        (caret_run(CaretQuery::ForegroundWindow, world, 4) is Done),
        ({
            let found = !world.foreground_is_null && world.thread_id != 0 && world.gui is Some
                && world.gui.unwrap().has_caret_window && world.caret_on_screen is Some;
            &&& found ==> caret_run(CaretQuery::ForegroundWindow, world, 4) == CaretQuery::Done(
                world.caret_on_screen,
            )
            &&& !found ==> caret_run(CaretQuery::ForegroundWindow, world, 4) == CaretQuery::Done(None)
        }),
        world.gui is Some && world.gui.unwrap().has_caret_window ==> caret_next(
            CaretQuery::GuiThreadInfo,
            CaretReply::GuiThreadInfo(world.gui),
        ) == (CaretQuery::CaretToScreen { x: world.gui.unwrap().left, y: world.gui.unwrap().bottom }),
{
    reveal_with_fuel(caret_run, 5);
}

} // verus!
