//! Geometry of a tab's region and the contract that every tab meets.

pub mod directory;

use crate::actions::{Action, ActionReturn, Outcome};
use crate::terminal::Frame;
use vstd::prelude::*;

verus! {

/// The top left cell of a tab's region, in terminal cells.
#[derive(Clone, Copy, Debug, PartialEq, Eq, Structural)]
pub struct Pos {
    pub x: u16,
    pub y: u16,
}

/// The extent of a region, in terminal cells.
#[derive(Clone, Copy, Debug, PartialEq, Eq, Structural)]
pub struct Size {
    pub width: u16,
    pub height: u16,
}

/// Where the terminal's cursor stands, relative to the region of the tab that
/// owns it.
#[derive(Clone, Copy, Debug, PartialEq, Eq, Structural)]
pub struct Cursor {
    pub x: u16,
    pub y: u16,
}

/// The smaller of two lengths.
pub open spec fn least(a: int, b: int) -> int {
    if a <= b {
        a
    } else {
        b
    }
}

/// Whether the region at `pos` of extent `size` lies wholly on a terminal of
/// the given dimensions.
pub open spec fn fits(pos: Pos, size: Size, terminal: Size) -> bool {
    pos.x + size.width <= terminal.width && pos.y + size.height <= terminal.height
}

/// Whether the region at `pos` of extent `size` has a cell on a terminal of
/// the given dimensions.
pub open spec fn intersects(pos: Pos, size: Size, terminal: Size) -> bool {
    size.width > 0 && size.height > 0 && pos.x < terminal.width && pos.y < terminal.height
}

/// Where a region at `pos` starts once it is cut down to the terminal: a
/// region that starts beyond an edge is moved onto that edge.
pub open spec fn clipped_pos(pos: Pos, terminal: Size) -> Pos {
    Pos {
        x: least(pos.x as int, terminal.width as int) as u16,
        y: least(pos.y as int, terminal.height as int) as u16,
    }
}

/// The extent of the part of a region that lies on the terminal.
pub open spec fn clipped_size(pos: Pos, size: Size, terminal: Size) -> Size {
    let start = clipped_pos(pos, terminal);
    Size {
        width: least(size.width as int, terminal.width - start.x) as u16,
        height: least(size.height as int, terminal.height - start.y) as u16,
    }
}

/// Cuts a region down to the part of it that lies on the terminal. A region
/// that fits is left as it is.
pub fn clip(pos: Pos, size: Size, terminal: Size) -> (region: (Pos, Size))
    ensures
        region.0 == clipped_pos(pos, terminal),
        region.1 == clipped_size(pos, size, terminal),
        fits(region.0, region.1, terminal),
        fits(pos, size, terminal) ==> region == (pos, size),
{
    let x: u16 = if pos.x <= terminal.width {
        pos.x
    } else {
        terminal.width
    };
    let y: u16 = if pos.y <= terminal.height {
        pos.y
    } else {
        terminal.height
    };
    let width: u16 = if size.width <= terminal.width - x {
        size.width
    } else {
        terminal.width - x
    };
    let height: u16 = if size.height <= terminal.height - y {
        size.height
    } else {
        terminal.height - y
    };
    (Pos { x, y }, Size { width, height })
}

/// Says whether a region has a cell on the terminal.
pub fn overlaps(pos: Pos, size: Size, terminal: Size) -> (shown: bool)
    ensures
        shown == intersects(pos, size, terminal),
{
    size.width > 0 && size.height > 0 && pos.x < terminal.width && pos.y < terminal.height
}

/// What every kind of tab offers to the host.
///
/// A tab owns its state and its region. It draws with coordinates relative to
/// its region and leaves the placement on the screen to the frame. Its state
/// changes only in `process_action`; its region changes only when the
/// terminal is resized.
pub trait Tab: Sized {
    /// Whether the tab's state is valid.
    spec fn wf(&self) -> bool;

    /// The top left cell of the tab's region.
    spec fn pos(&self) -> Pos;

    /// The extent of the tab's region.
    spec fn size(&self) -> Size;

    /// The name that a tab bar shows.
    spec fn name(&self) -> Seq<char>;

    /// Where the cursor stands in the tab, if it has one.
    spec fn cursor(&self) -> Option<Cursor>;

    /// What the tab queues when it draws its state into a frame with the
    /// given origin and bounds.
    spec fn rendering(&self, origin: Pos, bounds: Size) -> Seq<char>;

    /// Whether this kind of tab reacts to the action. Every kind reacts to a
    /// resize.
    spec fn recognizes(&self, action: Action) -> bool;

    /// The tab after one action.
    spec fn after(&self, action: Action) -> Self;

    /// What the tab answers to one action.
    spec fn answer(&self, action: Action) -> Seq<Outcome>;

    /// No action makes a valid tab invalid.
    proof fn lemma_valid_stays_valid(&self, action: Action)
        requires
            self.wf(),
        ensures
            self.after(action).wf(),
    ;

    /// An action that the tab does not recognize leaves it as it was and is
    /// answered with `Good`.
    proof fn lemma_unrecognized_is_ignored(&self, action: Action)
        requires
            !self.recognizes(action),
        ensures
            self.after(action) == *self,
            self.answer(action) == seq![Outcome::Good],
    ;

    /// Every tab recognizes a resize: it cuts its region down to the part
    /// that lies on the new terminal, and answers with `Good`.
    proof fn lemma_resize_clips(&self, terminal: Size)
        ensures
            self.recognizes(Action::Resize(terminal)),
            self.after(Action::Resize(terminal)).pos() == clipped_pos(self.pos(), terminal),
            self.after(Action::Resize(terminal)).size() == clipped_size(
                self.pos(),
                self.size(),
                terminal,
            ),
            self.answer(Action::Resize(terminal)) == seq![Outcome::Good],
    ;

    /// Nothing but a resize touches the region.
    proof fn lemma_region_is_kept(&self, action: Action)
        requires
            !(action is Resize),
        ensures
            self.after(action).pos() == self.pos(),
            self.after(action).size() == self.size(),
    ;

    /// Draws the tab's state into the frame. What is queued depends on the
    /// tab's state and on where the frame places it, and on nothing else.
    fn render(&self, frame: &mut Frame)
        ensures
            final(frame).origin == old(frame).origin,
            final(frame).bounds == old(frame).bounds,
            final(frame).output@ == old(frame).output@ + self.rendering(
                old(frame).origin,
                old(frame).bounds,
            ),
    ;

    /// Where the cursor stands, relative to the tab's region; `None` where
    /// the tab has no cursor to show.
    fn get_cursor(&self) -> (cursor: Option<Cursor>)
        ensures
            cursor == self.cursor(),
    ;

    /// The name of the tab, for a tab bar.
    fn get_name(&self) -> (name: String)
        ensures
            name@ == self.name(),
    ;

    /// The top left cell of the tab's region.
    fn get_pos(&self) -> (pos: Pos)
        ensures
            pos == self.pos(),
    ;

    /// The extent of the tab's region.
    fn get_size(&self) -> (size: Size)
        ensures
            size == self.size(),
    ;

    /// Updates the tab for one action and reports what came of it, as
    /// `after` and `answer` say.
    fn process_action(&mut self, action: &Action) -> (outcomes: Vec<ActionReturn>)
        ensures
            *final(self) == old(self).after(*action),
            outcomes.deep_view() == old(self).answer(*action),
            old(self).wf() ==> final(self).wf(),
            !old(self).recognizes(*action) ==> *final(self) == *old(self)
                && outcomes.deep_view() == seq![Outcome::Good],
    ;
}

/// The tab after a sequence of actions, the first of them first.
pub open spec fn after_all<T: Tab>(tab: T, actions: Seq<Action>) -> T
    decreases actions.len(),
{
    if actions.len() == 0 {
        tab
    } else {
        after_all(tab.after(actions[0]), actions.drop_first())
    }
}

/// No sequence of actions makes a valid tab invalid.
pub proof fn lemma_valid_after_all<T: Tab>(tab: T, actions: Seq<Action>)
    requires
        tab.wf(),
    ensures
        after_all(tab, actions).wf(),
    decreases actions.len(),
{
    if actions.len() > 0 {
        tab.lemma_valid_stays_valid(actions[0]);
        lemma_valid_after_all(tab.after(actions[0]), actions.drop_first());
    }
}

/// An action that a tab does not recognize is answered with `Good` alone, and
/// what the tab shows of itself stays as it was: its name, its position, its
/// size, its cursor, and what it draws into any frame.
pub proof fn lemma_unrecognized_changes_nothing<T: Tab>(
    tab: T,
    action: Action,
    origin: Pos,
    bounds: Size,
)
    requires
        !tab.recognizes(action),
    ensures
        tab.answer(action) == seq![Outcome::Good],
        tab.after(action).name() == tab.name(),
        tab.after(action).pos() == tab.pos(),
        tab.after(action).size() == tab.size(),
        tab.after(action).cursor() == tab.cursor(),
        tab.after(action).rendering(origin, bounds) == tab.rendering(origin, bounds),
{
    tab.lemma_unrecognized_is_ignored(action);
}

/// After a resize a tab's region is the part of its former region that lies
/// on the new terminal, and so does not reach beyond it.
pub proof fn lemma_resized_region_fits<T: Tab>(tab: T, terminal: Size)
    ensures
        tab.after(Action::Resize(terminal)).pos() == clipped_pos(tab.pos(), terminal),
        tab.after(Action::Resize(terminal)).size() == clipped_size(
            tab.pos(),
            tab.size(),
            terminal,
        ),
        fits(
            tab.after(Action::Resize(terminal)).pos(),
            tab.after(Action::Resize(terminal)).size(),
            terminal,
        ),
{
    tab.lemma_resize_clips(terminal);
}

} // verus!
