//! The host of the tabs: it owns them, knows which one has the focus, hands
//! each action to that one, and draws them all into one frame.

use crate::actions::{Action, ActionReturn, Outcome};
use crate::tab::{
    clipped_pos, clipped_size, fits, intersects, lemma_resized_region_fits, overlaps, Size, Tab,
};
use crate::terminal::{cursor_shown, hide_sequence, Frame};
use vstd::prelude::*;

verus! {

/// Whether one of the outcomes asks for the tab to be closed.
pub open spec fn asks_to_close(outcomes: Seq<Outcome>) -> bool {
    exists|k: int| 0 <= k < outcomes.len() && outcomes[k] is CloseTab
}

/// Whether the host hands the outcome on to its caller: a tab to spawn needs
/// a listing that only the caller can get, and an error is for the user.
pub open spec fn is_handed_on(outcome: Outcome) -> bool {
    outcome is SpawnTab || outcome is Error
}

/// The outcomes that the host hands on, in the order in which the tab gave
/// them.
pub open spec fn handed_on(outcomes: Seq<Outcome>) -> Seq<Outcome> {
    outcomes.filter(|outcome: Outcome| is_handed_on(outcome))
}

/// Sorts what a tab answered: says whether the tab asks to be closed, and
/// returns what is handed on to the caller. `Good` is absorbed.
pub fn interpret(outcomes: Vec<ActionReturn>) -> (verdict: (bool, Vec<ActionReturn>))
    ensures
        verdict.0 == asks_to_close(outcomes.deep_view()),
        verdict.1.deep_view() == handed_on(outcomes.deep_view()),
{
    let ghost answer = outcomes.deep_view();
    let mut pending: Vec<ActionReturn> = Vec::new();
    let mut closes = false;
    assert(answer.take(0) =~= Seq::<Outcome>::empty());
    assert(pending.deep_view() =~= handed_on(answer.take(0))) by {
        reveal(Seq::filter);
    }
    for outcome in it: outcomes
        invariant
            it.seq().len() == answer.len(),
            forall|k: int| 0 <= k < answer.len() ==> (#[trigger] it.seq()[k])@ == answer[k],
            closes == asks_to_close(answer.take(it.index() as int)),
            pending.deep_view() == handed_on(answer.take(it.index() as int)),
    {
        let ghost seen = answer.take(it.index() as int);
        let ghost next = answer.take(it.index() + 1);
        assert(next.drop_last() =~= seen);
        assert(next.last() == outcome@);
        proof {
            reveal(Seq::filter);
        }
        match outcome {
            ActionReturn::Good => {},
            ActionReturn::CloseTab => {
                closes = true;
            },
            ActionReturn::SpawnTab(target) => {
                pending.push(ActionReturn::SpawnTab(target));
            },
            ActionReturn::Error(reason) => {
                pending.push(ActionReturn::Error(reason));
            },
        }
        assert(pending.deep_view() =~= handed_on(next));
        assert(closes == asks_to_close(next)) by {
            if asks_to_close(seen) {
                let k = choose|k: int| 0 <= k < seen.len() && seen[k] is CloseTab;
                assert(next[k] is CloseTab);
            }
            if outcome@ is CloseTab {
                assert(next[next.len() - 1] is CloseTab);
            } else if asks_to_close(next) {
                let k = choose|k: int| 0 <= k < next.len() && next[k] is CloseTab;
                assert(seen[k] is CloseTab);
            }
        }
    }
    assert(answer.take(answer.len() as int) =~= answer);
    (closes, pending)
}

/// The tabs of one terminal, in order, and the index of the one that has the
/// focus.
pub struct TabHost<T: Tab> {
    pub tabs: Vec<T>,
    pub focus: usize,
    pub terminal: Size,
}

impl<T: Tab> TabHost<T> {
    /// Whether the host is in order: the focus is on one of the tabs, or is 0
    /// where there is none; every tab is valid; and no tab's region reaches
    /// beyond the terminal.
    pub open spec fn wf(&self) -> bool {
        &&& if self.tabs@.len() == 0 {
            self.focus == 0
        } else {
            self.focus < self.tabs@.len()
        }
        &&& forall|i: int| 0 <= i < self.tabs@.len() ==> (#[trigger] self.tabs@[i]).wf()
        &&& forall|i: int|
            0 <= i < self.tabs@.len() ==> fits(
                (#[trigger] self.tabs@[i]).pos(),
                self.tabs@[i].size(),
                self.terminal,
            )
    }

    /// The tabs after every one of them got the new dimensions of the
    /// terminal.
    pub open spec fn tabs_resized(&self, terminal: Size) -> Seq<T> {
        Seq::new(self.tabs@.len(), |i: int| self.tabs@[i].after(Action::Resize(terminal)))
    }

    /// What the host has to interpret after the action: what the tab that has
    /// the focus answers. There is nothing to interpret after a resize, which
    /// every tab answers with `Good`, nor where no tab has the focus.
    pub open spec fn answer(&self, action: Action) -> Seq<Outcome> {
        if !(action is Resize) && self.focus < self.tabs@.len() {
            self.tabs@[self.focus as int].answer(action)
        } else {
            Seq::empty()
        }
    }

    /// The tabs after the action. A resize reaches every tab. Any other
    /// action reaches the tab that has the focus and no other; that tab is
    /// removed where it asks for it.
    pub open spec fn tabs_after(&self, action: Action) -> Seq<T> {
        match action {
            Action::Resize(terminal) => self.tabs_resized(terminal),
            _ => if self.focus < self.tabs@.len() {
                if asks_to_close(self.answer(action)) {
                    self.tabs@.remove(self.focus as int)
                } else {
                    self.tabs@.update(
                        self.focus as int,
                        self.tabs@[self.focus as int].after(action),
                    )
                }
            } else {
                self.tabs@
            },
        }
    }

    /// The focus after the action: where the focused tab was closed, the
    /// focus goes to the tab before it.
    pub open spec fn focus_after(&self, action: Action) -> usize {
        if asks_to_close(self.answer(action)) && self.focus > 0 {
            (self.focus - 1) as usize
        } else {
            self.focus
        }
    }

    /// What the first `count` tabs queue: each tab that has a cell on the
    /// terminal draws itself with the frame's origin at its own position.
    pub open spec fn tabs_drawn(&self, count: nat) -> Seq<char>
        decreases count,
    {
        if count == 0 {
            Seq::empty()
        } else {
            let tab = self.tabs@[count - 1];
            self.tabs_drawn((count - 1) as nat) + if intersects(
                tab.pos(),
                tab.size(),
                self.terminal,
            ) {
                tab.rendering(tab.pos(), self.terminal)
            } else {
                Seq::empty()
            }
        }
    }

    /// What is queued for the cursor: it is shown where the focused tab has
    /// it, and hidden where that tab has none or no tab has the focus.
    pub open spec fn cursor_drawn(&self) -> Seq<char> {
        if self.focus < self.tabs@.len() {
            let tab = self.tabs@[self.focus as int];
            match tab.cursor() {
                Some(cursor) => cursor_shown(tab.pos(), self.terminal, cursor.x, cursor.y),
                None => hide_sequence(),
            }
        } else {
            hide_sequence()
        }
    }

    /// What one render pass queues: all tabs in order, then the cursor.
    pub open spec fn rendering(&self) -> Seq<char> {
        self.tabs_drawn(self.tabs@.len()) + self.cursor_drawn()
    }

    /// After the terminal was resized, every tab's region is the part of its
    /// former region that lies on the new terminal, and none reaches beyond
    /// it.
    pub proof fn lemma_resized_tabs_fit(&self, terminal: Size)
        ensures
            self.tabs_resized(terminal).len() == self.tabs@.len(),
            forall|i: int|
                0 <= i < self.tabs@.len() ==> {
                    let tab = #[trigger] self.tabs_resized(terminal)[i];
                    &&& tab.pos() == clipped_pos(self.tabs@[i].pos(), terminal)
                    &&& tab.size() == clipped_size(
                        self.tabs@[i].pos(),
                        self.tabs@[i].size(),
                        terminal,
                    )
                    &&& fits(tab.pos(), tab.size(), terminal)
                },
    {
        assert forall|i: int| 0 <= i < self.tabs@.len() implies {
            let tab = #[trigger] self.tabs_resized(terminal)[i];
            &&& tab.pos() == clipped_pos(self.tabs@[i].pos(), terminal)
            &&& tab.size() == clipped_size(self.tabs@[i].pos(), self.tabs@[i].size(), terminal)
            &&& fits(tab.pos(), tab.size(), terminal)
        } by {
            lemma_resized_region_fits(self.tabs@[i], terminal);
        }
    }

    /// A host without tabs for a terminal of the given dimensions.
    pub fn new(terminal: Size) -> (host: Self)
        ensures
            host.tabs@.len() == 0,
            host.focus == 0,
            host.terminal == terminal,
            host.wf(),
    {
        TabHost { tabs: Vec::new(), focus: 0, terminal }
    }

    /// Takes a tab in: it is told the dimensions of the terminal, put behind
    /// the others, and given the focus.
    pub fn add_tab(&mut self, tab: T)
        ensures
            final(self).tabs@ == old(self).tabs@.push(
                tab.after(Action::Resize(old(self).terminal)),
            ),
            final(self).focus == old(self).tabs@.len(),
            final(self).terminal == old(self).terminal,
            old(self).wf() && tab.wf() ==> final(self).wf(),
    {
        let mut tab = tab;
        proof {
            tab.lemma_resize_clips(self.terminal);
        }
        let _ = tab.process_action(&Action::Resize(self.terminal));
        self.focus = self.tabs.len();
        self.tabs.push(tab);
    }

    /// Tells every tab the new dimensions of the terminal. Afterwards each
    /// tab's region is the part of its former region that lies on the
    /// terminal, so none reaches beyond it.
    pub fn resize(&mut self, terminal: Size)
        ensures
            final(self).tabs@ == old(self).tabs_resized(terminal),
            final(self).focus == old(self).focus,
            final(self).terminal == terminal,
            forall|i: int|
                0 <= i < final(self).tabs@.len() ==> fits(
                    (#[trigger] final(self).tabs@[i]).pos(),
                    final(self).tabs@[i].size(),
                    terminal,
                ),
            old(self).wf() ==> final(self).wf(),
    {
        let ghost before = self.tabs@;
        let action = Action::Resize(terminal);
        let count: usize = self.tabs.len();
        let mut i: usize = 0;
        while i < count
            invariant
                i <= count,
                count == before.len(),
                self.tabs@.len() == count,
                action == Action::Resize(terminal),
                self.focus == old(self).focus,
                before == old(self).tabs@,
                forall|j: int| 0 <= j < i ==> self.tabs@[j] == (#[trigger] before[j]).after(action),
                forall|j: int| i <= j < count ==> self.tabs@[j] == #[trigger] before[j],
                forall|j: int|
                    0 <= j < i ==> fits(
                        (#[trigger] self.tabs@[j]).pos(),
                        self.tabs@[j].size(),
                        terminal,
                    ),
                forall|j: int| 0 <= j < i && before[j].wf() ==> (#[trigger] self.tabs@[j]).wf(),
            decreases count - i,
        {
            proof {
                before[i as int].lemma_resize_clips(terminal);
            }
            let _ = self.tabs[i].process_action(&action);
            i = i + 1;
        }
        self.terminal = terminal;
        assert(self.tabs@ =~= old(self).tabs_resized(terminal));
    }

    /// Routes one action. A resize goes to every tab. Any other action goes
    /// to the tab that has the focus: `Good` is absorbed, a tab that asks to
    /// be closed is removed, and requests to spawn a tab and errors are
    /// returned to the caller, none of them dropped.
    pub fn dispatch(&mut self, action: &Action) -> (pending: Vec<ActionReturn>)
        ensures
            final(self).tabs@ == old(self).tabs_after(*action),
            final(self).focus == old(self).focus_after(*action),
            final(self).terminal == match *action {
                Action::Resize(terminal) => terminal,
                _ => old(self).terminal,
            },
            pending.deep_view() == handed_on(old(self).answer(*action)),
            old(self).wf() ==> final(self).wf(),
    {
        let outcomes: Vec<ActionReturn> = match action {
            Action::Resize(terminal) => {
                self.resize(*terminal);
                Vec::new()
            },
            _ => if self.focus < self.tabs.len() {
                proof {
                    self.tabs@[self.focus as int].lemma_region_is_kept(*action);
                }
                self.tabs[self.focus].process_action(action)
            } else {
                Vec::new()
            },
        };
        assert(outcomes.deep_view() =~= old(self).answer(*action));
        let (closes, pending) = interpret(outcomes);
        if closes {
            let _ = self.tabs.remove(self.focus);
            if self.focus > 0 {
                self.focus = self.focus - 1;
            }
        }
        pending
    }

    /// Draws one frame: every tab that has a cell on the terminal, in order,
    /// each placed at its own position; then the cursor of the tab that has
    /// the focus, or the command that hides the cursor where there is none.
    /// Returns what is to be written to the terminal.
    pub fn render(&self) -> (output: String)
        ensures
            output@ == self.rendering(),
    {
        let mut frame = Frame::new(self.terminal);
        let count: usize = self.tabs.len();
        let mut i: usize = 0;
        assert(frame.output@ =~= self.tabs_drawn(0));
        while i < count
            invariant
                i <= count,
                count == self.tabs@.len(),
                frame.bounds == self.terminal,
                frame.output@ == self.tabs_drawn(i as nat),
            decreases count - i,
        {
            let tab = &self.tabs[i];
            let pos = tab.get_pos();
            if overlaps(pos, tab.get_size(), self.terminal) {
                frame.origin = pos;
                tab.render(&mut frame);
            }
            i = i + 1;
            assert(frame.output@ =~= self.tabs_drawn(i as nat));
        }
        if self.focus < count {
            let tab = &self.tabs[self.focus];
            match tab.get_cursor() {
                Some(cursor) => {
                    frame.origin = tab.get_pos();
                    frame.show_cursor(cursor.x, cursor.y);
                },
                None => {
                    frame.hide_cursor();
                },
            }
        } else {
            frame.hide_cursor();
        }
        frame.output
    }
}

} // verus!
