//! The keyed balance store and its operations.

use vstd::prelude::*;

verus! {

use vstd::hash_map::StringHashMap;
use vstd::string::StringExecFns;

/// Why a withdrawal was rejected: the key has never been deposited, or its
/// balance is already zero (paid out, or never funded beyond zero).
#[derive(Clone, Copy, Debug, PartialEq, Eq, Structural)]
pub enum RejectReason {
    UnknownKey,
    ZeroBalance,
}

/// The result of a withdrawal attempt: `Paid` carries the full amount that
/// was held and must now be transferred to the claimant; `Rejected` means no
/// value moved and the mapping is unchanged.
#[derive(Clone, Copy, Debug, PartialEq, Eq, Structural)]
pub enum Outcome {
    Paid(u128),
    Rejected(RejectReason),
}

/// Why a deposit was rejected: adding the attached amount to the held balance
/// would overflow the amount type.
#[derive(Clone, Copy, Debug, PartialEq, Eq, Structural)]
pub enum DepositError {
    ArithmeticOverflow,
}

impl RejectReason {
    /// A human-readable diagnostic for the rejection, for the caller to hand
    /// to whatever sink collects them.
    pub fn message(&self) -> (text: String)
        ensures
            *self is UnknownKey ==> text@ == "Wrong key"@,
            *self is ZeroBalance ==> text@ == "Missing deposit"@,
    {
        match self {
            RejectReason::UnknownKey => String::from_str("Wrong key"),
            RejectReason::ZeroBalance => String::from_str("Missing deposit"),
        }
    }
}

/// The outcome a withdrawal under `k` must have in state `m`: the full stored
/// amount is paid when the key holds a positive balance, otherwise the attempt
/// is rejected with the reason that applies.
pub open spec fn withdraw_outcome(m: Map<Seq<char>, u128>, k: Seq<char>) -> Outcome {
    if !m.contains_key(k) {
        Outcome::Rejected(RejectReason::UnknownKey)
    } else if m[k] == 0 {
        Outcome::Rejected(RejectReason::ZeroBalance)
    } else {
        Outcome::Paid(m[k])
    }
}

/// The state of the mapping after a withdrawal under `k` from state `m`: the
/// entry is zeroed exactly when the withdrawal pays out, and nothing else
/// changes; a rejected withdrawal leaves the mapping untouched.
pub open spec fn withdraw_map(m: Map<Seq<char>, u128>, k: Seq<char>) -> Map<Seq<char>, u128> {
    if m.contains_key(k) && m[k] > 0 {
        m.insert(k, 0)
    } else {
        m
    }
}

/// The balance a key holds in a given state of the mapping: the stored amount,
/// or zero for a key that is not present. Absent keys and keys explicitly set
/// to zero read alike, by design.
pub open spec fn balance_of(m: Map<Seq<char>, u128>, k: Seq<char>) -> u128 {
    if m.contains_key(k) {
        m[k]
    } else {
        0
    }
}

/// A keyed custody ledger: each key holds a non-negative amount, mutated only
/// by `deposit` (record an amount) and `withdraw` (release the full amount and
/// zero the entry).
pub struct Welcome {
    records: StringHashMap<u128>,
}

impl View for Welcome {
    type V = Map<Seq<char>, u128>;

    closed spec fn view(&self) -> Map<Seq<char>, u128> {
        self.records@
    }
}

impl Welcome {
    /// Creates a ledger with no recorded deposits.
    pub fn new() -> (ledger: Self)
        ensures
            ledger@ == Map::<Seq<char>, u128>::empty(),
    {
        Welcome { records: StringHashMap::new() }
    }

    /// Records `amount` as the balance held under `hash`. A second deposit
    /// under the same key replaces the recorded amount rather than adding to
    /// it; see `deposit_accumulate` for the summing alternative.
    pub fn deposit(&mut self, hash: String, amount: u128)
        ensures
            final(self)@ == old(self)@.insert(hash@, amount),
    {
        self.records.insert(hash, amount);
    }

    /// Returns the balance held under `hash`, zero if the key was never
    /// deposited. A pure read, open to any caller.
    pub fn get_deposit(&self, hash: String) -> (amount: u128)
        ensures
            amount == balance_of(self@, hash@),
    {
        match self.records.get(hash.as_str()) {
            Some(deposit) => *deposit,
            None => 0,
        }
    }

    /// Adds `amount` to the balance held under `hash` (a never-deposited key
    /// counts as holding zero), rejecting the deposit unchanged if the sum
    /// would overflow the amount type.
    pub fn deposit_accumulate(&mut self, hash: String, amount: u128) -> (result: Result<
        (),
        DepositError,
    >)
        ensures
            result is Ok ==> balance_of(old(self)@, hash@) + amount <= u128::MAX
                && final(self)@ == old(self)@.insert(
                hash@,
                (balance_of(old(self)@, hash@) + amount) as u128,
            ),
            result is Err ==> result == Result::<(), DepositError>::Err(
                DepositError::ArithmeticOverflow,
            ) && balance_of(old(self)@, hash@) + amount > u128::MAX && final(self)@ == old(self)@,
    {
        let held: u128 = match self.records.get(hash.as_str()) {
            Some(deposit) => *deposit,
            None => 0,
        };
        if amount <= u128::MAX - held {
            self.records.insert(hash, held + amount);
            Ok(())
        } else {
            Err(DepositError::ArithmeticOverflow)
        }
    }

    /// Releases the full balance held under `hash`: if the key holds a
    /// positive amount, that entry is zeroed and the amount is returned in
    /// `Paid` for the caller to transfer to the claimant; a key that is absent
    /// or already zeroed yields `Rejected` and leaves the mapping unchanged,
    /// so at most one withdrawal per deposit cycle ever pays.
    pub fn withdraw(&mut self, hash: String) -> (outcome: Outcome)
        ensures
            outcome == withdraw_outcome(old(self)@, hash@),
            final(self)@ == withdraw_map(old(self)@, hash@),
    {
        let held: Option<u128> = match self.records.get(hash.as_str()) {
            Some(deposit) => Some(*deposit),
            None => None,
        };
        match held {
            Some(amount) => {
                if amount == 0 {
                    Outcome::Rejected(RejectReason::ZeroBalance)
                } else {
                    self.records.insert(hash, 0);
                    Outcome::Paid(amount)
                }
            },
            None => Outcome::Rejected(RejectReason::UnknownKey),
        }
    }
}

impl Default for Welcome {
    /// A fresh ledger with no recorded deposits.
    fn default() -> (ledger: Self)
        ensures
            ledger@ == Map::<Seq<char>, u128>::empty(),
    {
        Welcome::new()
    }
}

} // verus!
