use vstd::prelude::*;

use crate::control::{ButtonAction, Controller, PERIOD_MS};
use crate::level::Level;

verus! {

/// The whole system on one core: the running flag, the LED, the button's
/// pending flag, the periodic timer, and whether protected access is held
/// (interrupts globally masked).
///
/// Interrupts that arrive while masked stay pending and are handled when
/// protected access ends, timer first; each handler runs to completion.
#[derive(Clone, Copy, Debug, PartialEq, Eq, Structural)]
pub struct Board {
    pub control: Controller,
    pub led: Level,
    pub button_pending: bool,
    pub timer_running: bool,
    pub timer_pending: bool,
    /// Milliseconds counted since the timer was started or last expired.
    pub timer_count_ms: u64,
    pub masked: bool,
}

impl Board {
    /// The invariant the handlers keep: the running flag mirrors the timer,
    /// and the count stays below one period.
    pub open spec fn sound(self) -> bool {
        &&& self.control.running == self.timer_running
        &&& self.timer_count_ms < PERIOD_MS
    }

    /// `sound`, and nothing is left pending outside protected access.
    pub open spec fn wf(self) -> bool {
        &&& self.sound()
        &&& !self.masked ==> !self.button_pending && !self.timer_pending
    }

    /// Idle: not running, timer stopped, LED low.
    pub open spec fn idle(self) -> bool {
        &&& !self.control.running
        &&& !self.timer_running
        &&& self.led == Level::Low
    }

    /// Active: running, timer running.
    pub open spec fn active(self) -> bool {
        self.control.running && self.timer_running
    }

    /// The board right after initialisation.
    pub open spec fn initial() -> Board {
        Board {
            control: Controller { running: false },
            led: Level::Low,
            button_pending: false,
            timer_running: false,
            timer_pending: false,
            timer_count_ms: 0,
            masked: false,
        }
    }

    /// The same board with the timer's count set to `c`.
    pub open spec fn with_count(self, c: u64) -> Board {
        Board { timer_count_ms: c, ..self }
    }

    /// After protected access is taken.
    pub open spec fn after_enter(self) -> Board {
        Board { masked: true, ..self }
    }

    /// After the button handler's body.
    pub open spec fn after_button_body(self) -> Board {
        if !self.button_pending {
            self
        } else if self.control.running {
            Board {
                control: Controller { running: false },
                button_pending: false,
                timer_running: false,
                led: Level::Low,
                ..self
            }
        } else {
            Board {
                control: Controller { running: true },
                button_pending: false,
                timer_running: true,
                timer_count_ms: 0,
                led: Level::High,
                ..self
            }
        }
    }

    /// After the timer handler's body.
    pub open spec fn after_timer_body(self) -> Board {
        Board { timer_pending: false, led: self.led.flipped(), ..self }
    }

    /// After protected access is released: the pending handlers have run,
    /// timer first, and interrupts are unmasked.
    pub open spec fn after_leave(self) -> Board {
        let a = if self.timer_pending {
            self.after_timer_body()
        } else {
            self
        };
        let b = if a.button_pending {
            a.after_button_body()
        } else {
            a
        };
        Board { masked: false, ..b }
    }

    /// After a falling edge on the button: its flag is latched, and handled
    /// at once unless protected access is held.
    pub open spec fn after_button_edge(self) -> Board {
        let l = Board { button_pending: true, ..self };
        if self.masked {
            l
        } else {
            l.after_enter().after_leave()
        }
    }

    /// After the timer reaches its period: a stopped timer raises nothing;
    /// a running one latches its flag, handled at once unless protected
    /// access is held.
    pub open spec fn after_expiry(self) -> Board {
        if !self.timer_running {
            self
        } else {
            let l = Board { timer_pending: true, ..self };
            if self.masked {
                l
            } else {
                l.after_enter().after_leave()
            }
        }
    }

    /// After `n` expiries in a row.
    pub open spec fn after_expiries(self, n: nat) -> Board
        decreases n,
    {
        if n == 0 {
            self
        } else {
            self.after_expiry().after_expiries((n - 1) as nat)
        }
    }

    /// After `ms` milliseconds: a running timer expires once for each full
    /// period reached, counting from `timer_count_ms`.
    pub open spec fn after_elapse(self, ms: nat) -> Board {
        if !self.timer_running {
            self
        } else {
            let total: nat = self.timer_count_ms as nat + ms;
            self.with_count((total % (PERIOD_MS as nat)) as u64).after_expiries(
                total / (PERIOD_MS as nat),
            )
        }
    }

    /// The board after initialisation: idle, nothing pending, unmasked.
    pub fn new() -> (r: Board)
        ensures
            r == Board::initial(),
            r.wf(),
            r.idle(),
    {
        Board {
            control: Controller::new(),
            led: Level::Low,
            button_pending: false,
            timer_running: false,
            timer_pending: false,
            timer_count_ms: 0,
            masked: false,
        }
    }

    /// Takes protected access: interrupts are masked until `leave_protected`.
    pub fn enter_protected(&mut self)
        requires
            old(self).wf(),
            !old(self).masked,
        ensures
            *final(self) == old(self).after_enter(),
            final(self).wf(),
    {
        self.masked = true;
    }

    /// Releases protected access, then runs each handler whose interrupt
    /// arrived meanwhile.
    pub fn leave_protected(&mut self)
        requires
            old(self).sound(),
            old(self).masked,
        ensures
            *final(self) == old(self).after_leave(),
            final(self).wf(),
    {
        if self.timer_pending {
            self.timer_handler();
        }
        if self.button_pending {
            self.button_handler();
        }
        self.masked = false;
    }

    /// Body of the button interrupt handler, run under protected access.
    /// A spurious call (button not pending) changes nothing; otherwise the
    /// button is acknowledged and the flag, timer and LED change together.
    pub fn button_handler(&mut self)
        requires
            old(self).sound(),
            old(self).masked,
        ensures
            *final(self) == old(self).after_button_body(),
            final(self).sound(),
            !old(self).button_pending ==> *final(self) == *old(self),
            old(self).button_pending ==> {
                &&& !final(self).button_pending
                &&& final(self).control.running == !old(self).control.running
                &&& final(self).control.running ==> final(self).led == Level::High
                &&& !final(self).control.running ==> final(self).led == Level::Low
            },
    {
        let action = self.control.on_button_edge(self.button_pending);
        match action {
            ButtonAction::Ignore => {},
            ButtonAction::Stop => {
                self.button_pending = false;
                self.timer_running = false;
                self.led = Level::Low;
            },
            ButtonAction::Start => {
                self.button_pending = false;
                self.timer_running = true;
                self.timer_count_ms = 0;
                self.led = Level::High;
            },
        }
    }

    /// Body of the timer interrupt handler, run under protected access:
    /// acknowledges the expiry and toggles the LED.
    pub fn timer_handler(&mut self)
        requires
            old(self).sound(),
            old(self).masked,
        ensures
            *final(self) == old(self).after_timer_body(),
            final(self).sound(),
            final(self).led == old(self).led.flipped(),
    {
        self.timer_pending = false;
        self.led = self.led.toggled();
    }

    /// A falling edge on the button.
    pub fn button_edge(&mut self)
        requires
            old(self).wf(),
        ensures
            *final(self) == old(self).after_button_edge(),
            final(self).wf(),
    {
        self.button_pending = true;
        if !self.masked {
            self.masked = true;
            self.leave_protected();
        }
    }

    /// The timer reaching its period.
    fn expire(&mut self)
        requires
            old(self).wf(),
        ensures
            *final(self) == old(self).after_expiry(),
            final(self).wf(),
    {
        if self.timer_running {
            self.timer_pending = true;
            if !self.masked {
                self.masked = true;
                self.leave_protected();
            }
        }
    }

    /// Lets `ms` milliseconds pass.
    pub fn elapse(&mut self, ms: u64)
        requires
            old(self).wf(),
        ensures
            *final(self) == old(self).after_elapse(ms as nat),
            final(self).wf(),
    {
        if !self.timer_running {
            return;
        }
        let mut left: u64 = ms;
        while left >= PERIOD_MS - self.timer_count_ms
            invariant
                self.wf(),
                self.timer_running,
                self.after_elapse(left as nat) == old(self).after_elapse(ms as nat),
            decreases left,
        {
            proof {
                self.lemma_elapse_one_period(left as nat);
            }
            left = left - (PERIOD_MS - self.timer_count_ms);
            self.timer_count_ms = 0;
            self.expire();
        }
        self.timer_count_ms = self.timer_count_ms + left;
    }

    /// Expiries leave the count, the running flag and the timer's state, and
    /// whether protected access is held, as they were.
    pub proof fn lemma_expiries_keep(self, n: nat)
        requires
            self.wf(),
        ensures
            self.after_expiries(n).timer_count_ms == self.timer_count_ms,
            self.after_expiries(n).timer_running == self.timer_running,
            self.after_expiries(n).control == self.control,
            self.after_expiries(n).masked == self.masked,
            self.after_expiries(n).wf(),
        decreases n,
    {
        if n > 0 {
            self.after_expiry().lemma_expiries_keep((n - 1) as nat);
        }
    }

    /// Splitting off the first full period of `ms`.
    proof fn lemma_elapse_one_period(self, ms: nat)
        requires
            self.wf(),
            self.timer_running,
            ms >= PERIOD_MS - self.timer_count_ms,
        ensures
            self.with_count(0).after_expiry().after_elapse(
                (ms - (PERIOD_MS - self.timer_count_ms)) as nat,
            ) == self.after_elapse(ms),
    {
        let total: nat = self.timer_count_ms as nat + ms;
        let rest = (ms - (PERIOD_MS - self.timer_count_ms)) as nat;
        assert(total / 1000 == rest / 1000 + 1);
        assert(total % 1000 == rest % 1000);
        let z = self.with_count(0).after_expiry();
        let r = self.with_count((total % 1000) as u64);
        assert(z.with_count((rest % 1000) as u64) == r.after_expiry());
    }
}

} // verus!
