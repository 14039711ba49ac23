use vstd::prelude::*;

use crate::grid::App;

verus! {

/// An event that the host hands to the game.
#[derive(Clone, Copy, Debug, PartialEq, Eq, Structural)]
pub enum Msg {
    /// The periodic timer fired.
    Tick,
    /// The start/stop control was pressed.
    StartStop,
    /// The cell at this linear index was clicked.
    Click(usize),
}

/// What the host is to do with its periodic timer after an event.
#[derive(Clone, Copy, Debug, PartialEq, Eq, Structural)]
pub enum TimerAction {
    /// Leave the timer as it is.
    Keep,
    /// Create a new timer.
    Start,
    /// Drop the running timer.
    Stop,
}

impl App {
    /// Handles one event: a tick advances one generation, a click flips the
    /// clicked cell, and start/stop asks the host to stop the timer when
    /// `running` and to start one otherwise.
    pub fn update(&mut self, msg: Msg, running: bool) -> (action: TimerAction)
        requires
            msg matches Msg::Click(idx) ==> idx < old(self)@.cells.len(),
        ensures
            msg is Tick ==> final(self)@ == old(self)@.next(),
            msg is StartStop ==> *final(self) == *old(self),
            msg matches Msg::Click(idx) ==> final(self)@ == old(self)@.toggled(
                idx as int / old(self)@.width as int,
                idx as int % old(self)@.width as int,
            ),
            action == match msg {
                Msg::StartStop => if running {
                    TimerAction::Stop
                } else {
                    TimerAction::Start
                },
                _ => TimerAction::Keep,
            },
    {
        match msg {
            Msg::Tick => {
                self.tick();
                TimerAction::Keep
            },
            Msg::StartStop => {
                if running {
                    TimerAction::Stop
                } else {
                    TimerAction::Start
                }
            },
            Msg::Click(idx) => {
                let width = self.width() as usize;
                let height = self.height();
                proof {
                    use_type_invariant(&*self);
                    crate::grid::lemma_row_in_bounds(self@.width, height as nat, idx as int);
                }
                self.toggle((idx / width) as u32, (idx % width) as u32);
                TimerAction::Keep
            },
        }
    }
}

} // verus!
