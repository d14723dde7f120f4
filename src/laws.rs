use vstd::prelude::*;

use crate::board::Board;
use crate::control::{Controller, PERIOD_MS};
use crate::level::{flipped_times, Level};

verus! {

/// One thing that happens to the system from outside.
#[derive(Clone, Copy, Debug, PartialEq, Eq, Structural)]
pub enum Stimulus {
    /// The button is pressed (a falling edge).
    Press,
    /// Time passes, in milliseconds.
    Elapse(u64),
}

/// The board after one stimulus.
pub open spec fn after_stimulus(b: Board, s: Stimulus) -> Board {
    match s {
        Stimulus::Press => b.after_button_edge(),
        Stimulus::Elapse(ms) => b.after_elapse(ms as nat),
    }
}

/// The board after a sequence of stimuli, in order.
pub open spec fn after_stimuli(b: Board, ss: Seq<Stimulus>) -> Board
    decreases ss.len(),
{
    if ss.len() == 0 {
        b
    } else {
        after_stimulus(after_stimuli(b, ss.drop_last()), ss.last())
    }
}

/// How many presses a sequence of stimuli holds.
pub open spec fn presses(ss: Seq<Stimulus>) -> nat
    decreases ss.len(),
{
    if ss.len() == 0 {
        0
    } else {
        presses(ss.drop_last()) + if ss.last() is Press {
            1nat
        } else {
            0nat
        }
    }
}

/// Outside protected access with nothing pending, and the LED low whenever
/// the system is not running.
pub open spec fn settled(b: Board) -> bool {
    &&& b.wf()
    &&& !b.masked
    &&& !b.control.running ==> b.led == Level::Low
}

proof fn lemma_stimulus_keeps_settled(b: Board, s: Stimulus)
    requires
        settled(b),
    ensures
        settled(after_stimulus(b, s)),
        after_stimulus(b, s).control.running == (b.control.running != (s is Press)),
{
    match s {
        Stimulus::Press => {},
        Stimulus::Elapse(ms) => {
            if b.timer_running {
                let total: nat = b.timer_count_ms as nat + ms as nat;
                b.with_count((total % (PERIOD_MS as nat)) as u64).lemma_expiries_keep(
                    total / (PERIOD_MS as nat),
                );
            }
        },
    }
}

/// Starting idle, the running flag after any mix of presses and elapsed time
/// is set exactly when the number of presses is odd; after an even number
/// of presses the system is idle again.
pub proof fn lemma_press_parity(b: Board, ss: Seq<Stimulus>)
    requires
        b.wf(),
        !b.masked,
        b.idle(),
    ensures
        after_stimuli(b, ss).control.running == (presses(ss) % 2 == 1),
        presses(ss) % 2 == 0 ==> after_stimuli(b, ss).idle(),
        settled(after_stimuli(b, ss)),
    decreases ss.len(),
{
    if ss.len() > 0 {
        lemma_press_parity(b, ss.drop_last());
        lemma_stimulus_keeps_settled(after_stimuli(b, ss.drop_last()), ss.last());
    }
}

/// The button handler run when the button is not the pending source, in its
/// own protected access, leaves the whole system as it was.
pub proof fn lemma_spurious_button_interrupt(b: Board)
    requires
        b.wf(),
        !b.masked,
    ensures
        b.after_enter().after_button_body().after_leave() == b,
{
}

/// While active, each full period of elapsed time gives exactly one timer
/// expiry, and its handler toggles the LED and changes nothing else.
pub proof fn lemma_one_toggle_per_period(b: Board)
    requires
        b.wf(),
        !b.masked,
        b.active(),
    ensures
        b.after_elapse(PERIOD_MS as nat) == b.after_expiries(1),
        b.after_expiry() == (Board { led: b.led.flipped(), ..b }),
{
    assert(b.after_elapse(PERIOD_MS as nat) == b.after_expiry().after_expiries(0));
}

/// While active, after `ms` milliseconds the LED has toggled once for each
/// full period reached, and the timer's count has moved on by the rest.
pub proof fn lemma_toggles_follow_time(b: Board, ms: nat)
    requires
        b.wf(),
        !b.masked,
        b.active(),
    ensures
        b.after_elapse(ms) == (Board {
            led: flipped_times(b.led, (b.timer_count_ms + ms) as nat / (PERIOD_MS as nat)),
            timer_count_ms: ((b.timer_count_ms + ms) % (PERIOD_MS as int)) as u64,
            ..b
        }),
{
    let total: nat = b.timer_count_ms as nat + ms;
    lemma_expiries_toggle(b.with_count((total % (PERIOD_MS as nat)) as u64), total / (PERIOD_MS as nat));
}

proof fn lemma_expiries_toggle(b: Board, n: nat)
    requires
        b.wf(),
        !b.masked,
        b.active(),
    ensures
        b.after_expiries(n) == (Board { led: flipped_times(b.led, n), ..b }),
    decreases n,
{
    if n > 0 {
        let a = b.after_expiry();
        lemma_expiries_toggle(a, (n - 1) as nat);
        assert(flipped_times(a.led, (n - 1) as nat) == flipped_times(b.led, n));
    }
}

/// Elapsed time may be cut anywhere: no expiry is lost or duplicated.
pub proof fn lemma_elapse_additive(b: Board, x: nat, y: nat)
    requires
        b.wf(),
        !b.masked,
    ensures
        b.after_elapse(x).after_elapse(y) == b.after_elapse(x + y),
{
    if b.timer_running {
        lemma_toggles_follow_time(b, x);
        let a = b.after_elapse(x);
        lemma_toggles_follow_time(a, y);
        lemma_toggles_follow_time(b, x + y);
        let c = b.timer_count_ms as nat;
        let p = PERIOD_MS as nat;
        assert((c + x + y) / p == (c + x) / p + ((c + x) % p + y) / p);
        assert((c + x + y) % p == ((c + x) % p + y) % p);
    }
}

/// While the timer is stopped, time passing changes nothing.
pub proof fn lemma_no_toggle_while_stopped(b: Board, ms: nat)
    requires
        !b.timer_running,
    ensures
        b.after_elapse(ms) == b,
{
}

/// A press from idle turns the LED high and starts the timer, and a press
/// while active turns it low and stops the timer, each in the one handler
/// run; after it the running flag, the timer and the LED agree.
pub proof fn lemma_press_switches_state(b: Board)
    requires
        settled(b),
    ensures
        b.idle() ==> b.after_button_edge().active() && b.after_button_edge().led == Level::High
            && b.after_button_edge().timer_count_ms == 0,
        b.active() ==> b.after_button_edge().idle(),
        settled(b.after_button_edge()),
{
}

/// A timer expiry that arrives while the button handler holds protected
/// access stays pending through the handler's body and runs once after
/// access is released: the result is the button handler's, followed by
/// exactly one LED toggle.
pub proof fn lemma_expiry_deferred_during_button_handler(b: Board)
    requires
        b.wf(),
        !b.masked,
        b.timer_running,
    ensures
        ({
            let m = b.after_enter().after_button_edge();
            let t = m.after_expiry();
            let h = t.after_button_body();
            &&& t == (Board { timer_pending: true, ..m })
            &&& h.timer_pending
            &&& h.led == m.after_button_body().led
            &&& h.after_leave() == (Board {
                led: m.after_button_body().after_leave().led.flipped(),
                ..m.after_button_body().after_leave()
            })
        }),
{
}

} // verus!
