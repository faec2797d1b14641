//! Laws the ledger's operations obey, stated over the mapping model.

use vstd::prelude::*;

verus! {

use crate::ledger::balance_of;
use crate::ledger::withdraw_map;
use crate::ledger::withdraw_outcome;
use crate::ledger::Outcome;
use crate::ledger::RejectReason;

/// After a deposit of `a` under `k`, the balance read for `k` is exactly `a`.
pub proof fn lemma_deposit_then_read(m: Map<Seq<char>, u128>, k: Seq<char>, a: u128)
    ensures
        balance_of(m.insert(k, a), k) == a,
{
}

/// A key never deposited reads as zero.
pub proof fn lemma_unknown_key_reads_zero(m: Map<Seq<char>, u128>, k: Seq<char>)
    requires
        !m.contains_key(k),
    ensures
        balance_of(m, k) == 0,
{
}

/// A withdrawal under a key holding a positive balance `a` pays exactly `a`
/// and leaves the key's balance at zero.
pub proof fn lemma_withdraw_pays_full_and_zeroes(m: Map<Seq<char>, u128>, k: Seq<char>, a: u128)
    requires
        balance_of(m, k) == a,
        a > 0,
    ensures
        withdraw_outcome(m, k) == Outcome::Paid(a),
        balance_of(withdraw_map(m, k), k) == 0,
{
}

/// No double payout: whatever the first withdrawal under `k` did, a second
/// withdrawal under `k` is rejected and changes nothing, so two successive
/// withdrawals pay at most once.
pub proof fn lemma_no_double_payout(m: Map<Seq<char>, u128>, k: Seq<char>)
    ensures
        withdraw_outcome(withdraw_map(m, k), k) is Rejected,
        withdraw_map(withdraw_map(m, k), k) == withdraw_map(m, k),
{
}

/// A withdrawal under a never-deposited key is rejected for the unknown key
/// and is a no-op: no entry is created and no value is released.
pub proof fn lemma_unknown_key_withdraw_is_noop(m: Map<Seq<char>, u128>, k: Seq<char>)
    requires
        !m.contains_key(k),
    ensures
        withdraw_outcome(m, k) == Outcome::Rejected(RejectReason::UnknownKey),
        withdraw_map(m, k) == m,
{
}

/// A withdrawal under `k` never touches the balance of any other key.
pub proof fn lemma_withdraw_frames_other_keys(
    m: Map<Seq<char>, u128>,
    k: Seq<char>,
    other: Seq<char>,
)
    requires
        other != k,
    ensures
        balance_of(withdraw_map(m, k), other) == balance_of(m, other),
{
}

/// A deposit under `k` never touches the balance of any other key.
pub proof fn lemma_deposit_frames_other_keys(
    m: Map<Seq<char>, u128>,
    k: Seq<char>,
    a: u128,
    other: Seq<char>,
)
    requires
        other != k,
    ensures
        balance_of(m.insert(k, a), other) == balance_of(m, other),
{
}

} // verus!
