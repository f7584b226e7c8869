//! The bootstrap readiness barrier: after the three tasks are spawned, the
//! startup path polls the network stack until the link is up, then until
//! an IPv4 lease is bound, and only then proceeds. This module holds that
//! sequencing as a step function; the polling delays and the two driver
//! queries are performed by the startup task.

use vstd::prelude::*;

verus! {

/// Milliseconds between two readiness polls.
pub const POLL_INTERVAL_MS: u64 = 500;

/// A bound IPv4 lease, as the readiness barrier reads it: the four address
/// octets granted by the address-assignment protocol, most significant
/// first.
#[derive(Clone, Copy, PartialEq, Eq, Structural, Debug)]
pub struct Ipv4Address {
    pub o0: u8,
    pub o1: u8,
    pub o2: u8,
    pub o3: u8,
}

/// Where the startup path stands while it waits for the network.
#[derive(Clone, Copy, PartialEq, Eq, Structural, Debug)]
pub enum BootPhase {
    /// Asking whether the link is up.
    PollLink,
    /// The link was down; waiting one poll interval before asking again.
    LinkDelay,
    /// The link is up; asking whether an IPv4 lease is bound.
    PollLease,
    /// No lease yet; waiting one poll interval before asking again.
    LeaseDelay,
    /// Link up and lease bound: startup may proceed.
    Ready { address: Ipv4Address },
}

/// What the startup task observes.
#[derive(Clone, Copy, PartialEq, Eq, Structural, Debug)]
pub enum BootEvent {
    /// The answer to a link query.
    LinkIs { up: bool },
    /// The answer to a lease query.
    LeaseIs { lease: Option<Ipv4Address> },
    /// A poll delay has elapsed.
    DelayElapsed,
}

/// What the startup task is asked to do next.
#[derive(Clone, Copy, PartialEq, Eq, Structural, Debug)]
pub enum BootAction {
    /// Ask the stack whether the link is up.
    QueryLink,
    /// Ask the stack for its bound IPv4 configuration.
    QueryLease,
    /// Wait one poll interval.
    Delay { ms: u64 },
    /// Both conditions hold: hand control back, reporting the address.
    Proceed { address: Ipv4Address },
}

/// The action a phase is waiting on; re-issued if the startup task hands
/// back an event that does not answer it.
pub open spec fn boot_pending_spec(p: BootPhase) -> BootAction {
    match p {
        BootPhase::PollLink => BootAction::QueryLink,
        BootPhase::LinkDelay => BootAction::Delay { ms: POLL_INTERVAL_MS },
        BootPhase::PollLease => BootAction::QueryLease,
        BootPhase::LeaseDelay => BootAction::Delay { ms: POLL_INTERVAL_MS },
        BootPhase::Ready { address } => BootAction::Proceed { address },
    }
}

/// One step of the readiness barrier.
pub open spec fn boot_step_spec(p: BootPhase, e: BootEvent) -> (BootPhase, BootAction) {
    match (p, e) {
        (BootPhase::PollLink, BootEvent::LinkIs { up }) => {
            if up {
                (BootPhase::PollLease, BootAction::QueryLease)
            } else {
                (BootPhase::LinkDelay, BootAction::Delay { ms: POLL_INTERVAL_MS })
            }
        },
        (BootPhase::LinkDelay, BootEvent::DelayElapsed) => (
            BootPhase::PollLink,
            BootAction::QueryLink,
        ),
        (BootPhase::PollLease, BootEvent::LeaseIs { lease }) => {
            match lease {
                Some(address) => (BootPhase::Ready { address }, BootAction::Proceed { address }),
                None => (BootPhase::LeaseDelay, BootAction::Delay { ms: POLL_INTERVAL_MS }),
            }
        },
        (BootPhase::LeaseDelay, BootEvent::DelayElapsed) => (
            BootPhase::PollLease,
            BootAction::QueryLease,
        ),
        _ => (p, boot_pending_spec(p)),
    }
}

/// The action a phase is waiting on.
pub fn boot_pending(p: BootPhase) -> (a: BootAction)
    ensures
        a == boot_pending_spec(p),
{
    match p {
        BootPhase::PollLink => BootAction::QueryLink,
        BootPhase::LinkDelay => BootAction::Delay { ms: POLL_INTERVAL_MS },
        BootPhase::PollLease => BootAction::QueryLease,
        BootPhase::LeaseDelay => BootAction::Delay { ms: POLL_INTERVAL_MS },
        BootPhase::Ready { address } => BootAction::Proceed { address },
    }
}

/// Take one step of the readiness barrier. The barrier lifts — the action
/// becomes `Proceed` — only on a lease answer that carries an address,
/// and lease queries are only reached once a link query answered up.
pub fn boot_step(p: BootPhase, e: BootEvent) -> (r: (BootPhase, BootAction))
    ensures
        r == boot_step_spec(p, e),
{
    match (p, e) {
        (BootPhase::PollLink, BootEvent::LinkIs { up }) => {
            if up {
                (BootPhase::PollLease, BootAction::QueryLease)
            } else {
                (BootPhase::LinkDelay, BootAction::Delay { ms: POLL_INTERVAL_MS })
            }
        },
        (BootPhase::LinkDelay, BootEvent::DelayElapsed) => (
            BootPhase::PollLink,
            BootAction::QueryLink,
        ),
        (BootPhase::PollLease, BootEvent::LeaseIs { lease }) => {
            match lease {
                Some(address) => (BootPhase::Ready { address }, BootAction::Proceed { address }),
                None => (BootPhase::LeaseDelay, BootAction::Delay { ms: POLL_INTERVAL_MS }),
            }
        },
        (BootPhase::LeaseDelay, BootEvent::DelayElapsed) => (
            BootPhase::PollLease,
            BootAction::QueryLease,
        ),
        (other, _) => {
            let a = boot_pending(other);
            (other, a)
        },
    }
}

/// The phase the barrier stands in after a sequence of observed events.
pub open spec fn boot_final(p: BootPhase, events: Seq<BootEvent>) -> BootPhase
    decreases events.len(),
{
    if events.len() == 0 {
        p
    } else {
        boot_final(boot_step_spec(p, events[0]).0, events.drop_first())
    }
}

/// An event sequence that never reports the link up.
pub open spec fn never_link_up(events: Seq<BootEvent>) -> bool {
    forall|i: int|
        0 <= i < events.len() ==> !((#[trigger] events[i]) matches BootEvent::LinkIs { up: true })
}

/// An event sequence that never reports a bound lease.
pub open spec fn never_lease_bound(events: Seq<BootEvent>) -> bool {
    forall|i: int|
        0 <= i < events.len() ==> !((#[trigger] events[i]) matches BootEvent::LeaseIs {
            lease: Some(_),
        })
}

/// While the link has never been reported up, the barrier stays in its two
/// link-polling phases: a bound lease alone cannot open it, and it cannot
/// even start asking for one.
pub proof fn lemma_not_ready_until_link_up(p: BootPhase, events: Seq<BootEvent>)
    requires
        p is PollLink || p is LinkDelay,
        never_link_up(events),
    ensures
        boot_final(p, events) is PollLink || boot_final(p, events) is LinkDelay,
    decreases events.len(),
{
    if events.len() > 0 {
        lemma_not_ready_until_link_up(boot_step_spec(p, events[0]).0, events.drop_first());
    }
}

/// While no bound lease has been reported, the barrier never lifts: a link
/// that is up is not by itself sufficient.
pub proof fn lemma_not_ready_until_lease_bound(p: BootPhase, events: Seq<BootEvent>)
    requires
        !(p is Ready),
        never_lease_bound(events),
    ensures
        !(boot_final(p, events) is Ready),
    decreases events.len(),
{
    if events.len() > 0 {
        lemma_not_ready_until_lease_bound(boot_step_spec(p, events[0]).0, events.drop_first());
    }
}

/// The barrier lifts only on a bound lease observed while polling for
/// one: any step whose next phase is `Ready` consumed a `LeaseIs` event
/// carrying an address, and the address reported is the one the lease
/// carried.
pub proof fn lemma_ready_only_on_bound_lease(p: BootPhase, e: BootEvent)
    requires
        !(p is Ready),
        boot_step_spec(p, e).0 is Ready,
    ensures
        p is PollLease,
        e matches BootEvent::LeaseIs { lease: Some(a) }
            && boot_step_spec(p, e).0 == (BootPhase::Ready { address: a })
            && boot_step_spec(p, e).1 == (BootAction::Proceed { address: a }),
{
}

} // verus!
