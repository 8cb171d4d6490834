//! The fortune selector: bounded rejection sampling over a sparse
//! identifier space.
//!
//! Each round draws a uniformly random identifier below the effective
//! maximum-identifier bound and asks storage for that entry. A miss (a gap
//! in the identifier space, or a failed read — the two are deliberately
//! not distinguished) triggers a retry with a freshly queried bound. The
//! retry count is bounded so that an empty collection surfaces a clear
//! "no content" outcome instead of looping forever.
//!
//! Storage reads block on I/O, so the selector is a state machine: the
//! caller performs each query and feeds the outcome back in, and the
//! selector decides the next step. Its decisions are verified for every
//! possible query outcome.

use rand::Rng;
use vstd::prelude::*;

use crate::storage::{effective_max_id, effective_max_spec, Entry};

verus! {

/// What the selector asks its driver to do after learning the
/// maximum-identifier bound.
pub enum Probe {
    /// Ask storage for the entry with this identifier.
    Fetch(i64),
    /// Stop: no attempts remain, or no identifier can be drawn.
    NoContent,
}

/// What the selector decides after a storage probe comes back.
pub enum Outcome {
    /// The probe hit: this entry is the selected fortune.
    Yield(Entry),
    /// The probe missed: query a fresh bound and try again.
    Retry,
    /// The probe missed and no attempts remain.
    NoContent,
}

/// The selector's whole state: how many probes it may still make.
pub struct Selector {
    pub attempts_left: u64,
}

/// What a correct reaction to a maximum-identifier outcome looks like:
/// with attempts remaining and a positive bound, one attempt is consumed
/// and some identifier in `[0, bound)` is probed; otherwise the selector
/// stops unchanged. The probed identifier itself is random, so this is a
/// relation, not a function.
pub open spec fn probe_step_ok(
    pre: Selector,
    raw: Option<Option<i32>>,
    fallback: i64,
    post: Selector,
    p: Probe,
) -> bool {
    let bound = effective_max_spec(raw, fallback);
    if pre.attempts_left == 0 || bound <= 0 {
        p == Probe::NoContent && post == pre
    } else {
        post.attempts_left == pre.attempts_left - 1 && (p matches Probe::Fetch(id)
            && 0 <= id < bound)
    }
}

/// The selector's reaction to a storage probe outcome: a hit is yielded
/// as it came back, a miss retries while attempts remain and otherwise
/// gives up.
pub open spec fn fetch_step(s: Selector, result: Option<Entry>) -> Outcome {
    match result {
        Some(e) => Outcome::Yield(e),
        None => if s.attempts_left > 0 {
            Outcome::Retry
        } else {
            Outcome::NoContent
        },
    }
}

/// Relies on rand::Rng::gen_range over `0..max` on rand::thread_rng: it
/// returns a uniformly distributed value in the half-open range
/// `[0, max)`, and panics only when the range is empty.
#[verifier::external_body]
fn draw_below(max: i64) -> (r: i64)
    requires
        max > 0,
    ensures
        0 <= r < max,
{
    rand::thread_rng().gen_range(0..max)
}

impl Selector {
    /// A fresh selector that may probe storage at most `max_attempts`
    /// times before reporting that no content is available.
    pub fn new(max_attempts: u64) -> (s: Selector)
        ensures
            s.attempts_left == max_attempts,
    {
        Selector { attempts_left: max_attempts }
    }

    /// React to the outcome of a maximum-identifier query (`raw`, with
    /// `fallback` substituted for a failed or empty aggregate): draw a
    /// random identifier below the effective bound and ask for it, or
    /// stop when no attempts remain or the bound admits no identifier.
    pub fn on_max_id(&mut self, raw: Option<Option<i32>>, fallback: i64) -> (p: Probe)
        ensures
            probe_step_ok(*old(self), raw, fallback, *final(self), p),
    {
        let bound = effective_max_id(raw, fallback);
        if self.attempts_left == 0 || bound <= 0 {
            Probe::NoContent
        } else {
            self.attempts_left = self.attempts_left - 1;
            Probe::Fetch(draw_below(bound))
        }
    }

    /// React to the outcome of a storage probe: yield a hit exactly as
    /// storage returned it, retry a miss while attempts remain, and
    /// otherwise report that no content is available.
    pub fn on_fetch(&mut self, result: Option<Entry>) -> (o: Outcome)
        ensures
            *final(self) == *old(self),
            o == fetch_step(*old(self), result),
    {
        match result {
            Some(e) => Outcome::Yield(e),
            None => if self.attempts_left > 0 {
                Outcome::Retry
            } else {
                Outcome::NoContent
            },
        }
    }
}

/// Law: the selector never fabricates or withholds an entry. It yields an
/// entry exactly when the storage probe returned one, and then yields
/// precisely that entry — a miss is never surfaced as a selection.
pub proof fn lemma_yield_iff_hit(s: Selector, result: Option<Entry>)
    ensures
        (fetch_step(s, result) matches Outcome::Yield(e) ==> result == Some(e)),
        (result matches Some(e) ==> fetch_step(s, result) == Outcome::Yield(e)),
{
}

/// Law: every identifier the selector probes lies in `[0, bound)` for the
/// effective bound of the round that drew it.
pub proof fn lemma_probe_in_range(
    pre: Selector,
    raw: Option<Option<i32>>,
    fallback: i64,
    post: Selector,
    p: Probe,
)
    requires
        probe_step_ok(pre, raw, fallback, post, p),
    ensures
        (p matches Probe::Fetch(id) ==> 0 <= id < effective_max_spec(raw, fallback)),
{
}

/// Law: a selector whose attempts are exhausted stops with a definite
/// "no content" answer — it cannot loop silently, whatever the bound
/// query returned.
pub proof fn lemma_exhausted_selector_stops(
    pre: Selector,
    raw: Option<Option<i32>>,
    fallback: i64,
    post: Selector,
    p: Probe,
)
    requires
        pre.attempts_left == 0,
        probe_step_ok(pre, raw, fallback, post, p),
    ensures
        p == Probe::NoContent,
        post == pre,
{
}

/// Law: every probe consumes an attempt, so a driver that feeds the
/// selector faithfully makes at most `max_attempts` storage probes before
/// it must see `NoContent` or a yield.
pub proof fn lemma_probe_consumes_attempt(
    pre: Selector,
    raw: Option<Option<i32>>,
    fallback: i64,
    post: Selector,
    p: Probe,
)
    requires
        probe_step_ok(pre, raw, fallback, post, p),
        p matches Probe::Fetch(id),
    ensures
        post.attempts_left < pre.attempts_left,
{
}

} // verus!
