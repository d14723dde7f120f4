use vstd::prelude::*;

verus! {

/// Period of the blink timer, in milliseconds.
pub const PERIOD_MS: u64 = 1000;

/// What the button interrupt asks of the hardware, in this order.
#[derive(Clone, Copy, Debug, PartialEq, Eq, Structural)]
pub enum ButtonAction {
    /// The button is not the pending source: touch nothing.
    Ignore,
    /// Acknowledge the button, stop the timer, drive the LED low.
    Stop,
    /// Acknowledge the button, start the timer with `PERIOD_MS`, drive the LED high.
    Start,
}

/// The action taken on a button interrupt, given the running flag before it
/// and whether the button is the pending source.
pub open spec fn button_action(was_running: bool, pending: bool) -> ButtonAction {
    if !pending {
        ButtonAction::Ignore
    } else if was_running {
        ButtonAction::Stop
    } else {
        ButtonAction::Start
    }
}

/// The running flag shared between the interrupt handlers: true exactly
/// while the blink timer runs.
#[derive(Clone, Copy, Debug, PartialEq, Eq, Structural)]
pub struct Controller {
    pub running: bool,
}

impl Controller {
    /// The state after power-on: not running.
    pub fn new() -> (r: Controller)
        ensures
            !r.running,
    {
        Controller { running: false }
    }

    /// Decides the button interrupt. When the button is the pending source the
    /// running flag is inverted and the action follows its old value;
    /// otherwise nothing changes.
    pub fn on_button_edge(&mut self, pending: bool) -> (a: ButtonAction)
        ensures
            a == button_action(old(self).running, pending),
            final(self).running == (old(self).running != pending),
    {
        if !pending {
            return ButtonAction::Ignore;
        }
        let was_running = self.running;
        self.running = !was_running;
        if was_running {
            ButtonAction::Stop
        } else {
            ButtonAction::Start
        }
    }
}

} // verus!
