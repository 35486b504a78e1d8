use vstd::prelude::*;
use vstd::string::StringExecFns;

use crate::digest::DigestView;
use crate::session::{drained, step, CommandView, SessionView};
use crate::types::{FetchError, InputKey};

verus! {

/// The first step of a launched fetch: with empty location text no
/// service is called and the unit of work fails at once.
pub fn plan_fetch(location: &str) -> (r: Result<(), FetchError>)
    ensures
        location@.len() == 0 ==> (r matches Err(e) && e matches FetchError::NoLocationSet),
        location@.len() > 0 ==> r is Ok,
{
    if location.unicode_len() == 0 {
        Err(FetchError::NoLocationSet)
    } else {
        Ok(())
    }
}

/// The session loop together with its handoff channel and the launched
/// unit of work, as one abstract state.
pub struct CoordinatorView {
    /// The session state the loop owns.
    pub session: SessionView,
    /// Whether a launched unit of work is still running, its one
    /// message not yet posted.
    pub worker_running: bool,
    /// Messages posted on the handoff channel and not yet drained.
    pub pending_messages: nat,
}

/// One thing that can happen to the arrangement.
pub enum CoordinatorEvent {
    /// The loop dispatches a keystroke through the mode state machine
    /// and launches a unit of work where the step commands one.
    Key(InputKey),
    /// The running unit of work posts its one message and ends.
    Post,
    /// The loop's drain step consumes one message, if one waits.
    Drain(Result<DigestView, FetchError>),
}

/// The transition relation of the whole arrangement.
pub open spec fn coordinator_step(c: CoordinatorView, ev: CoordinatorEvent) -> CoordinatorView {
    match ev {
        CoordinatorEvent::Key(key) => CoordinatorView {
            session: step(c.session, key).0,
            worker_running: c.worker_running || step(c.session, key).1 matches CommandView::Fetch(
                _,
            ),
            ..c
        },
        CoordinatorEvent::Post => if c.worker_running {
            CoordinatorView {
                worker_running: false,
                pending_messages: c.pending_messages + 1,
                ..c
            }
        } else {
            c
        },
        CoordinatorEvent::Drain(outcome) => if c.pending_messages > 0 {
            CoordinatorView {
                session: drained(c.session, outcome),
                pending_messages: (c.pending_messages - 1) as nat,
                ..c
            }
        } else {
            c
        },
    }
}

/// The coordination invariant: the in-flight flag counts the one
/// outstanding fetch, whether it is still running or already posted.
pub open spec fn coordinator_inv(c: CoordinatorView) -> bool {
    (if c.worker_running {
        1nat
    } else {
        0nat
    }) + c.pending_messages == (if c.session.is_fetch_in_flight {
        1nat
    } else {
        0nat
    })
}

/// A fresh arrangement satisfies the coordination invariant.
pub proof fn lemma_coordinator_init(c: CoordinatorView)
    requires
        !c.session.is_fetch_in_flight,
        !c.worker_running,
        c.pending_messages == 0,
    ensures
        coordinator_inv(c),
{
}

/// Single-fetch law, first half: while a fetch is in flight, no
/// keystroke yields a launch command, so a second concurrent unit of
/// work is never started.
pub proof fn lemma_no_second_launch(v: SessionView, key: InputKey)
    requires
        v.is_fetch_in_flight,
    ensures
        !(step(v, key).1 matches CommandView::Fetch(_)),
{
}

/// Single-fetch law, second half: every event preserves the
/// coordination invariant, so the arrangement never holds more than
/// one outstanding fetch.
pub proof fn lemma_coordinator_step_preserves(c: CoordinatorView, ev: CoordinatorEvent)
    requires
        coordinator_inv(c),
    ensures
        coordinator_inv(coordinator_step(c, ev)),
{
    match ev {
        CoordinatorEvent::Key(key) => {
            if step(c.session, key).1 matches CommandView::Fetch(_) {
                lemma_launch_takes_flag(c.session, key);
            } else {
                lemma_flag_stable_without_launch(c.session, key);
            }
        },
        CoordinatorEvent::Post => {},
        CoordinatorEvent::Drain(outcome) => {},
    }
}

/// At most one message is ever pending on the handoff channel, and
/// none while a launched unit of work is still running.
pub proof fn lemma_at_most_one_pending(c: CoordinatorView)
    requires
        coordinator_inv(c),
    ensures
        c.pending_messages <= 1,
        c.worker_running ==> c.pending_messages == 0,
{
}

proof fn lemma_launch_takes_flag(v: SessionView, key: InputKey)
    requires
        step(v, key).1 matches CommandView::Fetch(_),
    ensures
        !v.is_fetch_in_flight,
        step(v, key).0.is_fetch_in_flight,
{
}

proof fn lemma_flag_stable_without_launch(v: SessionView, key: InputKey)
    requires
        !(step(v, key).1 matches CommandView::Fetch(_)),
    ensures
        step(v, key).0.is_fetch_in_flight == v.is_fetch_in_flight,
{
}

} // verus!
