use vstd::prelude::*;

use crate::parse::parse_signed;
use crate::session::{first_phase, Action, Event, Outcome, Session};
use crate::update::{clamp, reading, requested, Update};
use crate::Error;

verus! {

/// An absolute request within `[0, max]` writes exactly the requested value.
pub proof fn lemma_absolute_in_range(u: Update, current: nat, max: nat)
    requires
        !u.relative,
        0 <= u.value <= max,
    ensures
        u.target(current, max) == u.value,
{
}

/// A relative request writes the current brightness plus the delta, clamped
/// to `[0, max]`.
pub proof fn lemma_relative_clamps(u: Update, current: nat, max: nat)
    requires
        u.relative,
    ensures
        u.target(current, max) == clamp(current + u.value, max as int),
        0 <= u.target(current, max) <= max,
{
}

/// Applying the same absolute request twice leaves the brightness where the
/// first application put it.
pub proof fn lemma_absolute_idempotent(u: Update, current: nat, max: nat)
    requires
        !u.relative,
    ensures
        u.target(u.target(current, max), max) == u.target(current, max),
{
}

/// A target above the maximum writes the maximum; a target below zero,
/// absolute or reached by a relative request, writes zero.
pub proof fn lemma_clamp_boundaries(u: Update, current: nat, max: nat)
    ensures
        u.raw_target(current) >= max ==> u.target(current, max) == max,
        u.raw_target(current) <= 0 ==> u.target(current, max) == 0,
        !u.relative && u.value == max + 100 ==> u.target(current, max) == max,
        !u.relative && u.value == -100 ==> u.target(current, max) == 0,
        u.relative && u.value < 0 && current < -u.value ==> u.target(current, max) == 0,
{
}

/// Lowering by the number in `a` is the same request as raising by the number
/// in `b` when `b` writes the negation of `a`'s number.
pub proof fn lemma_dec_is_negated_inc(a: Seq<char>, b: Seq<char>)
    requires
        parse_signed(a) is Some,
        parse_signed(b) == Some(-parse_signed(a)->0),
    ensures
        requested(true, -1, a) == requested(true, 1, b),
        requested(true, -1, a) is Ok,
{
}

/// The session on one device after its attribute files read `cur` and `max`:
/// a relative request reads both, an absolute one only the maximum.
pub open spec fn after_reads(s: Session, cur: Seq<char>, max: Seq<char>) -> Session {
    let read = if s.update.relative {
        s.next(None, false, Some(cur))
    } else {
        s
    };
    read.next(None, false, Some(max))
}

/// On each device, once its readings parse, the session writes the clamped
/// target computed from that device's readings alone, and after the write it
/// goes on to the next device, or completes after the last.
pub proof fn lemma_device_round(s: Session, cur: Seq<char>, max: Seq<char>)
    requires
        s.wf(),
        s.phase == first_phase(s.update),
        reading(cur) is Ok,
        reading(max) is Ok,
    ensures
        after_reads(s, cur, max).action() == Action::WriteBrightness(
            s.index,
            s.update.target(
                if s.update.relative {
                    reading(cur)->Ok_0 as nat
                } else {
                    0
                },
                reading(max)->Ok_0 as nat,
            ) as u32,
        ),
        after_reads(s, cur, max).next(None, true, None) == s.advance(),
        s.index + 1 == s.devices ==> s.advance().action() == Action::Finish(Outcome::Completed),
        s.index + 1 < s.devices ==> s.advance().index == s.index + 1 && s.advance().phase
            == first_phase(s.update),
{
}

/// The session after the events `events`, in order.
pub open spec fn run(s: Session, events: Seq<Event>) -> Session
    decreases events.len(),
{
    if events.len() == 0 {
        s
    } else {
        run(s.after(&events[0]), events.drop_first())
    }
}

/// A finished session stays as it is, whatever comes after.
pub proof fn lemma_finished_stays(s: Session, events: Seq<Event>)
    requires
        s.is_finished(),
    ensures
        run(s, events) == s,
    decreases events.len(),
{
    if events.len() > 0 {
        lemma_finished_stays(s.after(&events[0]), events.drop_first());
    }
}

/// Once a read or write fails, the session finishes with that error and asks
/// for nothing more: no later device is touched.
pub proof fn lemma_fail_fast(s: Session, err: Error, events: Seq<Event>)
    requires
        s.wf(),
        !s.is_finished(),
    ensures
        run(s.after(&Event::Failed(err)), events).action() == Action::Finish(Outcome::Failed(err)),
        forall|k: int|
            0 <= k <= events.len() ==> #[trigger] run(
                s.after(&Event::Failed(err)),
                events.take(k),
            ).action() == Action::Finish(Outcome::Failed(err)),
{
    let f = s.after(&Event::Failed(err));
    lemma_finished_stays(f, events);
    assert forall|k: int| 0 <= k <= events.len() implies #[trigger] run(f, events.take(k)).action()
        == Action::Finish(Outcome::Failed(err)) by {
        lemma_finished_stays(f, events.take(k));
    }
}

} // verus!
