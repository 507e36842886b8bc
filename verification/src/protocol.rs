//! The pairing protocol around the registry: what a waiting creator does
//! when its wait is resolved.
//!
//! A room is VACANT while the registry holds no entry for its id, WAITING
//! while it holds one, and PAIRED only as two live connections mid-handoff —
//! the entry is already gone by then. While WAITING, the creator races the
//! fulfilment of its handoff slot against the end of its own connection;
//! whichever resolves first decides the outcome here.

use vstd::prelude::*;
use crate::registry::Registry;
use crate::registry::cancel_steps;

verus! {

/// What resolved a creator's WAITING state first.
#[derive(Clone, Copy, Debug, PartialEq, Eq, Structural)]
pub enum WaitEvent {
    /// A joiner claimed the registration and delivered its connection
    /// through the handoff slot.
    HandoffDelivered,
    /// The registration was claimed, but the slot was dropped before a
    /// connection arrived: the joiner vanished between claim and delivery.
    HandoffAbandoned,
    /// The creator's own connection produced a terminal signal while it was
    /// waiting. Payload received while waiting is discarded; it only serves
    /// as a liveness signal.
    ConnectionEnded,
}

/// Whether a wait event carries a peer connection: only a delivered handoff
/// lets the session proceed to the relay.
pub open spec fn wait_pairs(ev: WaitEvent) -> bool {
    ev == WaitEvent::HandoffDelivered
}

/// Resolves the WAITING race for the creator of `id`, registered under
/// `slot`. A delivered handoff pairs the room and leaves the registry alone
/// (the joiner's claim already removed the entry). Any other resolution ends
/// the session with no relay and cancels the creator's own registration —
/// and only its own: an entry meanwhile claimed by a joiner, or re-created
/// under another slot handle, is left in place.
pub fn resolve_wait(reg: &mut Registry, id: &String, slot: u64, ev: WaitEvent) -> (paired: bool)
    ensures
        paired == wait_pairs(ev),
        paired ==> final(reg)@ == old(reg)@,
        !paired ==> cancel_steps(old(reg)@, final(reg)@, id@, slot),
{
    match ev {
        WaitEvent::HandoffDelivered => true,
        WaitEvent::HandoffAbandoned | WaitEvent::ConnectionEnded => {
            reg.remove_if_present(id, slot);
            false
        },
    }
}

} // verus!
