//! Laws of the engine, stated over its transition relations and
//! proved once for every state and input.

use vstd::prelude::*;
use crate::engine::BshGeneric;

verus! {

/// Uniqueness: whenever one successful initiation happens after
/// another — with any number of other operations between them, none
/// of which ever lowers the counter — the second allocated sequence
/// number is strictly greater than the first.  Allocated numbers are
/// therefore distinct and strictly increasing.
pub proof fn lemma_sequence_numbers_strictly_increase(
    a: BshGeneric,
    b: BshGeneric,
    c: BshGeneric,
    d: BshGeneric,
    s1: u64,
    s2: u64,
)
    requires
        BshGeneric::allocates(a, b, s1),
        b.serial_no <= c.serial_no,
        BshGeneric::allocates(c, d, s2),
    ensures
        s2 > s1,
{
}

/// Ledger consistency: in a well-formed engine the pending count
/// always equals the number of ledger entries, and every ledger key
/// was produced by the allocator — it lies strictly below the
/// counter.
pub proof fn lemma_ledger_consistency(e: BshGeneric)
    requires
        e.wf(),
    ensures
        e.num_of_pending_requests == e.requests@.len(),
        forall|sn: u64| #[trigger] e.requests@.contains_key(sn) ==> sn < e.serial_no,
{
}

/// Exactly-once resolution: a resolution removes its entry, so right
/// after it the sequence number is no longer pending, and by the
/// contract of `handle_response_service` a second attempt with the
/// same number must fail with `UnknownSequence`.
pub proof fn lemma_resolution_is_exactly_once(
    pre: BshGeneric,
    post: BshGeneric,
    sn: u64,
    code: u64,
    message: Seq<char>,
)
    requires
        BshGeneric::resolves(pre, post, sn, code, message),
    ensures
        !post.requests@.contains_key(sn),
{
}

/// Resolve-before-event ordering: in a well-formed engine no
/// `TransferEnd` event exists for a sequence number that the ledger
/// still holds — an observer never sees the end of a transfer that
/// is still pending.
pub proof fn lemma_transfer_end_only_after_removal(e: BshGeneric, i: int, sn: u64)
    requires
        e.wf(),
        0 <= i < e.events@.len(),
        e.events@[i]@.is_transfer_end_of(sn),
    ensures
        !e.requests@.contains_key(sn),
{
}

} // verus!
