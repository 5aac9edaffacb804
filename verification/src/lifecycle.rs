//! The life of a session, as a sequence of events.
//!
//! Between `new` and the end of its life a session sees three kinds of
//! events: the answer to its allocation, the status of a call, and a release.
//! This module says what any sequence of them does to a session and which
//! `Destroy` calls it gives out, and proves that a native state which a
//! session ever held is given out exactly once, and nothing else ever is.

use crate::call::Call;
use crate::error::spec_is_known_status;
use crate::state::StateView;
use vstd::prelude::*;

verus! {

/// Something that happens to a session.
pub enum Event {
    /// The engine answered `Init` with `handle`: `State::attach`.
    Attach { handle: usize },
    /// The engine answered `call` with `status`: `State::complete`.
    Complete { call: Call, status: i32 },
    /// The session was released: `State::release`.
    Release,
}

impl StateView {
    /// Whether the session is in a state in which `event` may happen: the
    /// precondition of the operation the event stands for.
    pub open spec fn allows(self, event: Event) -> bool {
        match event {
            Event::Attach { .. } => self.phase is Pending,
            Event::Complete { status, .. } => spec_is_known_status(status),
            Event::Release => true,
        }
    }

    /// The session after `event`.
    pub open spec fn step(self, event: Event) -> StateView {
        match event {
            Event::Attach { handle } => self.attach(handle),
            Event::Complete { call, status } => self.complete(call, status),
            Event::Release => self.release(),
        }
    }

    /// The `Destroy` call that `event` gives out, if it gives one out.
    pub open spec fn gives_out(self, event: Event) -> Option<Call> {
        match event {
            Event::Release => self.release_call(),
            _ => None,
        }
    }

    /// The session after all of `events`, in order.
    pub open spec fn run(self, events: Seq<Event>) -> StateView
        decreases events.len(),
    {
        if events.len() == 0 {
            self
        } else {
            self.run(events.drop_last()).step(events.last())
        }
    }

    /// Whether each of `events` may happen at its turn.
    pub open spec fn allows_all(self, events: Seq<Event>) -> bool
        decreases events.len(),
    {
        events.len() > 0 ==> self.allows_all(events.drop_last()) && self.run(
            events.drop_last(),
        ).allows(events.last())
    }

    /// The `Destroy` calls that `events` give out, in order.
    pub open spec fn destroys(self, events: Seq<Event>) -> Seq<Call>
        decreases events.len(),
    {
        if events.len() == 0 {
            Seq::empty()
        } else {
            let before = self.destroys(events.drop_last());
            match self.run(events.drop_last()).gives_out(events.last()) {
                Some(call) => before.push(call),
                None => before,
            }
        }
    }

    /// Whether the session is live at the start or after one of `events`.
    pub open spec fn ever_live(self, events: Seq<Event>) -> bool
        decreases events.len(),
    {
        if events.len() == 0 {
            self.is_live()
        } else {
            self.ever_live(events.drop_last()) || self.run(events).is_live()
        }
    }
}

/// Whatever happens to a session, its native state is given out for
/// destruction at most once.
///
/// While the session is live nothing has been given out. Once its handle has
/// been given out the session is closed, and the one `Destroy` call named the
/// handle the session was live with, which is not null. A failed allocation
/// or a failing call in between changes none of this.
pub proof fn lemma_destroyed_at_most_once(state: StateView, events: Seq<Event>)
    requires
        state.wf(),
        state.allows_all(events),
    ensures
        state.run(events).wf(),
        state.destroys(events).len() <= 1,
        state.run(events).is_live() ==> state.destroys(events).len() == 0,
        state.destroys(events).len() == 1 ==> {
            &&& state.run(events).phase is Closed
            &&& state.run(events).handle != 0
            &&& state.destroys(events)[0] == (Call::Destroy { handle: state.run(events).handle })
        },
        state.run(events).mode == state.mode,
    decreases events.len(),
{
    if events.len() > 0 {
        lemma_destroyed_at_most_once(state, events.drop_last());
    }
}

/// A closed session stays closed and gives out nothing: after the release no
/// operation that needs a live session can be invoked again.
pub proof fn lemma_closed_is_final(state: StateView, events: Seq<Event>)
    requires
        state.phase is Closed,
        state.allows_all(events),
    ensures
        state.run(events).phase is Closed,
        state.destroys(events).len() == 0,
    decreases events.len(),
{
    if events.len() > 0 {
        lemma_closed_is_final(state, events.drop_last());
    }
}

/// A native state that a session ever held is given out for destruction
/// exactly once, by the first release after the session became live: at any
/// time the session has given out one `Destroy` call if it has been live and
/// is not live any more, and none otherwise.
pub proof fn lemma_destroyed_exactly_once(state: StateView, events: Seq<Event>)
    requires
        state.wf(),
        state.allows_all(events),
    ensures
        state.destroys(events).len() == if state.ever_live(events) && !state.run(events).is_live() {
            1nat
        } else {
            0nat
        },
        state.run(events).phase is Pending ==> !state.ever_live(events),
        state.run(events).phase is Live ==> state.ever_live(events),
    decreases events.len(),
{
    if events.len() > 0 {
        lemma_destroyed_exactly_once(state, events.drop_last());
    }
}

/// A release settles the life of a session. Whatever happened before, the
/// session is closed after it and has given out one `Destroy` call if it was
/// ever live and none if it was not; the release itself gives out the call
/// for the session's handle if the session was live until then.
pub proof fn lemma_release_settles(state: StateView, events: Seq<Event>)
    requires
        state.wf(),
        state.allows_all(events),
    ensures
        state.allows_all(events.push(Event::Release)),
        state.run(events.push(Event::Release)).phase is Closed,
        state.destroys(events.push(Event::Release)).len() == if state.ever_live(events) {
            1nat
        } else {
            0nat
        },
        state.run(events).is_live() ==> state.destroys(events.push(Event::Release)) == seq![
            Call::Destroy { handle: state.run(events).handle },
        ],
        !state.run(events).is_live() ==> state.destroys(events.push(Event::Release))
            == state.destroys(events),
{
    let all = events.push(Event::Release);
    assert(all.drop_last() == events);
    assert(all.last() == Event::Release);
    lemma_destroyed_at_most_once(state, events);
    lemma_destroyed_exactly_once(state, events);
}

/// A session whose allocation failed never gives out anything to destroy.
pub proof fn lemma_failed_allocation_destroys_nothing(state: StateView, events: Seq<Event>)
    requires
        state.phase is Pending,
        state.attach(0).allows_all(events),
    ensures
        state.attach(0).phase is Closed,
        state.attach(0).destroys(events).len() == 0,
        !state.attach(0).run(events).is_live(),
{
    lemma_closed_is_final(state.attach(0), events);
}

} // verus!
