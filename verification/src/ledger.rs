//! The allowance ledger: one counter record per (guard, allowance key),
//! created lazily on first use and consumed one unit at a time, with the
//! limit check happening strictly before the increment.

use vstd::prelude::*;
use vstd::pervasive::VecAdditionalExecFns;

use crate::config::TokenGuard;
use crate::derive::{allowance_address_of, derive_allowance_address};
use crate::errors::ErrorCode;
use crate::keys::{key_eq, KeyBytes};

verus! {

/// The persisted size of an allowance record: an eight-byte record tag and
/// the counter byte. The record is never resized.
pub const ALLOWANCE_ACCOUNT_SIZE: usize = 9;

/// The eight-byte tag that opens every persisted allowance record, the
/// sha256 prefix of the record type's name; external clients read records
/// by this layout, so it must stay stable.
pub const ALLOWANCE_ACCOUNT_TAG: [u8; 8] = [179, 205, 71, 104, 34, 14, 237, 22];

/// One persisted allowance record: a single counter byte.
///
/// The record is fixed-size and never resized, which caps a guard's
/// allowance limit at 255.
pub struct AllowanceAccount {
    /// How many exchanges have succeeded under this record's key.
    pub amount: u8,
}

impl AllowanceAccount {
    /// The record's stable persisted form: the tag, then the counter.
    pub open spec fn spec_bytes(self) -> Seq<u8> {
        ALLOWANCE_ACCOUNT_TAG@.push(self.amount)
    }

    /// Serializes the record into its fixed nine-byte layout.
    pub fn to_bytes(&self) -> (r: Vec<u8>)
        ensures
            r@ == self.spec_bytes(),
            r@.len() == ALLOWANCE_ACCOUNT_SIZE,
    {
        let mut data: Vec<u8> = Vec::new();
        let mut i: usize = 0;
        while i < 8
            invariant
                i <= 8,
                data@ =~= ALLOWANCE_ACCOUNT_TAG@.take(i as int),
            decreases 8 - i,
        {
            data.push(ALLOWANCE_ACCOUNT_TAG[i]);
            assert(data@ =~= ALLOWANCE_ACCOUNT_TAG@.take(i as int + 1));
            i += 1;
        }
        assert(data@ =~= ALLOWANCE_ACCOUNT_TAG@);
        data.push(self.amount);
        data
    }

    /// Deserializes a record from its persisted form: exactly nine bytes
    /// opening with the record tag.
    pub fn from_bytes(data: &Vec<u8>) -> (r: Option<AllowanceAccount>)
        ensures
            (match r {
                Some(record) => data@ == record.spec_bytes(),
                None => forall|record: AllowanceAccount| data@ != record.spec_bytes(),
            }),
    {
        if data.len() != 9 {
            assert forall|record: AllowanceAccount| data@ != record.spec_bytes() by {
                assert(record.spec_bytes().len() == 9);
            }
            return None;
        }
        let mut i: usize = 0;
        while i < 8
            invariant
                i <= 8,
                data@.len() == 9,
                forall|j: int| 0 <= j < i ==> data@[j] == ALLOWANCE_ACCOUNT_TAG@[j],
            decreases 8 - i,
        {
            if data[i] != ALLOWANCE_ACCOUNT_TAG[i] {
                assert forall|record: AllowanceAccount| data@ != record.spec_bytes() by {
                    assert(record.spec_bytes()[i as int] == ALLOWANCE_ACCOUNT_TAG@[i as int]);
                }
                return None;
            }
            i += 1;
        }
        let record = AllowanceAccount { amount: data[8] };
        proof {
            assert(data@ =~= record.spec_bytes());
        }
        Some(record)
    }
}

/// The persisted allowance layout is lossless: a record always reads back
/// from its own bytes as itself.
pub proof fn lemma_allowance_record_round_trip(record: AllowanceAccount)
    ensures
        record.spec_bytes().len() == ALLOWANCE_ACCOUNT_SIZE,
        forall|other: AllowanceAccount|
            record.spec_bytes() == other.spec_bytes() ==> record == other,
{
    assert forall|other: AllowanceAccount|
        record.spec_bytes() == other.spec_bytes() implies record == other by {
        assert(record.spec_bytes()[8] == record.amount);
        assert(other.spec_bytes()[8] == other.amount);
    }
}

/// The record store the engine receives as a collaborator: allowance
/// records addressed by their derived 32-byte address.
///
/// Its view is the sequence of (address, count) pairs in insertion order;
/// lookups find the first pair with a matching address.
pub struct LedgerStore {
    entries: Vec<(KeyBytes, AllowanceAccount)>,
}

/// The first counter recorded under `addr`, if any.
pub open spec fn ledger_get(l: Seq<(Seq<u8>, u8)>, addr: Seq<u8>) -> Option<u8>
    decreases l.len(),
{
    if l.len() == 0 {
        None
    } else if l[0].0 == addr {
        Some(l[0].1)
    } else {
        ledger_get(l.skip(1), addr)
    }
}

/// `l` with the first counter recorded under `addr` replaced by `value`;
/// unchanged if no record for `addr` exists.
pub open spec fn ledger_set(l: Seq<(Seq<u8>, u8)>, addr: Seq<u8>, value: u8) -> Seq<
    (Seq<u8>, u8),
>
    decreases l.len(),
{
    if l.len() == 0 {
        l
    } else if l[0].0 == addr {
        seq![(addr, value)] + l.skip(1)
    } else {
        seq![l[0]] + ledger_set(l.skip(1), addr, value)
    }
}

/// The counter recorded under `addr`, counting an absent record as zero.
pub open spec fn count_of(l: Seq<(Seq<u8>, u8)>, addr: Seq<u8>) -> int {
    match ledger_get(l, addr) {
        Some(c) => c as int,
        None => 0,
    }
}

impl View for LedgerStore {
    type V = Seq<(Seq<u8>, u8)>;

    closed spec fn view(&self) -> Seq<(Seq<u8>, u8)> {
        self.entries@.map_values(|e: (KeyBytes, AllowanceAccount)| (e.0@, e.1.amount))
    }
}

impl LedgerStore {
    /// An empty store: no key has been used yet.
    pub fn new() -> (s: Self)
        ensures
            s@ == Seq::<(Seq<u8>, u8)>::empty(),
    {
        LedgerStore { entries: Vec::new() }
    }

    /// Reads the counter recorded under `addr`, if a record exists.
    pub fn get(&self, addr: &KeyBytes) -> (r: Option<u8>)
        ensures
            r == ledger_get(self@, addr@),
    {
        let mut i: usize = 0;
        assert(self@.skip(0) =~= self@);
        while i < self.entries.len()
            invariant
                i <= self.entries.len(),
                ledger_get(self@, addr@) == ledger_get(self@.skip(i as int), addr@),
            decreases self.entries.len() - i,
        {
            if key_eq(&self.entries[i].0, addr) {
                assert(self@.skip(i as int)[0] == self@[i as int]);
                return Some(self.entries[i].1.amount);
            }
            assert(self@.skip(i as int).skip(1) =~= self@.skip(i as int + 1));
            assert(self@.skip(i as int)[0] == self@[i as int]);
            i += 1;
        }
        assert(self@.skip(i as int) =~= Seq::<(Seq<u8>, u8)>::empty());
        None
    }

    /// Replaces the counter of the existing record under `addr`.
    fn set(&mut self, addr: &KeyBytes, value: u8)
        requires
            ledger_get(old(self)@, addr@) is Some,
        ensures
            final(self)@ == ledger_set(old(self)@, addr@, value),
    {
        let mut i: usize = 0;
        while i < self.entries.len()
            invariant
                self@ == old(self)@,
                self.entries.len() == old(self)@.len(),
                i <= self.entries.len(),
                forall|j: int| 0 <= j < i ==> old(self)@[j].0 != addr@,
                ledger_get(old(self)@, addr@) is Some,
            decreases self.entries.len() - i,
        {
            if key_eq(&self.entries[i].0, addr) {
                proof {
                    assert(old(self)@[i as int].0 == addr@);
                    lemma_ledger_set_at_first(old(self)@, i as int, addr@, value);
                }
                let e = (*addr, AllowanceAccount { amount: value });
                self.entries.set(i, e);
                proof {
                    assert forall|j: int| 0 <= j < self@.len() implies self@[j] == old(self)@.update(
                        i as int,
                        (addr@, value),
                    )[j] by {
                        assert(self@[j] == (self.entries@[j].0@, self.entries@[j].1.amount));
                    }
                    assert(self@ =~= old(self)@.update(i as int, (addr@, value)));
                }
                return ;
            }
            i += 1;
        }
        proof {
            lemma_ledger_get_absent(old(self)@, addr@);
        }
    }

    /// Appends a fresh record under `addr`.
    fn push(&mut self, addr: &KeyBytes, value: u8)
        ensures
            final(self)@ == old(self)@.push((addr@, value)),
    {
        self.entries.push((*addr, AllowanceAccount { amount: value }));
        proof {
            assert(self@ =~= old(self)@.push((addr@, value)));
        }
    }
}

/// One allowance consumption at `addr` under `limit`, as a pure transition:
/// the result of the check and the ledger afterwards.
///
/// A `limit` of zero means unlimited allowance and leaves the ledger alone.
/// Otherwise the recorded counter is held against the limit strictly before
/// the increment, so exactly `limit` consumptions can ever succeed under one
/// address; an absent record may only be created when the caller's
/// derivation proof matched (`creation_ok`), and starts at one.
pub open spec fn allowance_step(
    l: Seq<(Seq<u8>, u8)>,
    addr: Seq<u8>,
    creation_ok: bool,
    limit: u8,
) -> (Result<(), ErrorCode>, Seq<(Seq<u8>, u8)>) {
    if limit == 0 {
        (Ok(()), l)
    } else {
        match ledger_get(l, addr) {
            Some(c) => if c >= limit {
                (Err(ErrorCode::AllowanceExceeded), l)
            } else {
                (Ok(()), ledger_set(l, addr, (c + 1) as u8))
            },
            None => if creation_ok {
                (Ok(()), l.push((addr, 1u8)))
            } else {
                (Err(ErrorCode::DerivationMismatch), l)
            },
        }
    }
}

/// Whether the caller-supplied record address and bump are exactly what the
/// deterministic derivation yields for (guard, key).
pub open spec fn derivation_matches(
    guard_key: Seq<u8>,
    derive_key: Seq<u8>,
    addr: Seq<u8>,
    bump: u8,
) -> bool {
    allowance_address_of(guard_key, derive_key) == Some((addr, bump))
}

/// Consumes one unit of the guard's allowance for `derive_key`, creating the
/// record on first use.
///
/// `allowance_account_key` and `allowance_account_bump` are the
/// caller-supplied derivation proof for the record's address; they are held
/// against the deterministic derivation only when the record does not exist
/// yet, mirroring that creation alone must prove the address.
pub fn check_and_update_allowance(
    store: &mut LedgerStore,
    allowance_account_bump: u8,
    token_guard: &TokenGuard,
    token_guard_key: &KeyBytes,
    allowance_account_key: &KeyBytes,
    derive_key: &KeyBytes,
) -> (r: Result<(), ErrorCode>)
    ensures
        ({
            let step = allowance_step(
                old(store)@,
                allowance_account_key@,
                derivation_matches(
                    token_guard_key@,
                    derive_key@,
                    allowance_account_key@,
                    allowance_account_bump,
                ),
                token_guard.allowance,
            );
            r == step.0 && final(store)@ == step.1
        }),
{
    if token_guard.allowance == 0 {
        return Ok(());
    }
    match store.get(allowance_account_key) {
        Some(count) => {
            if count >= token_guard.allowance {
                Err(ErrorCode::AllowanceExceeded)
            } else {
                store.set(allowance_account_key, count + 1);
                Ok(())
            }
        },
        None => {
            let derived = derive_allowance_address(token_guard_key, derive_key);
            let matches = match &derived {
                Some(p) => key_eq(&p.0, allowance_account_key) && p.1 == allowance_account_bump,
                None => false,
            };
            if matches {
                store.push(allowance_account_key, 1);
                Ok(())
            } else {
                Err(ErrorCode::DerivationMismatch)
            }
        },
    }
}

/// If every key of `l` differs from `addr`, no record for `addr` exists.
proof fn lemma_ledger_get_absent(l: Seq<(Seq<u8>, u8)>, addr: Seq<u8>)
    requires
        forall|j: int| 0 <= j < l.len() ==> l[j].0 != addr,
    ensures
        ledger_get(l, addr) is None,
    decreases l.len(),
{
    if l.len() > 0 {
        assert(forall|j: int| 0 <= j < l.skip(1).len() ==> l.skip(1)[j] == l[j + 1]);
        lemma_ledger_get_absent(l.skip(1), addr);
    }
}

/// Replacing the first record under `addr` in place is the same as the
/// pointwise update at its index.
proof fn lemma_ledger_set_at_first(l: Seq<(Seq<u8>, u8)>, i: int, addr: Seq<u8>, value: u8)
    requires
        0 <= i < l.len(),
        l[i].0 == addr,
        forall|j: int| 0 <= j < i ==> l[j].0 != addr,
    ensures
        ledger_set(l, addr, value) == l.update(i, (addr, value)),
    decreases i,
{
    if i == 0 {
        assert(ledger_set(l, addr, value) =~= l.update(0, (addr, value)));
    } else {
        assert(forall|j: int| 0 <= j < l.skip(1).len() ==> l.skip(1)[j] == l[j + 1]);
        lemma_ledger_set_at_first(l.skip(1), i - 1, addr, value);
        assert(seq![l[0]] + l.skip(1).update(i - 1, (addr, value)) =~= l.update(i, (addr, value)));
    }
}

/// What a replacement under `addr` does to lookups: the record under `addr`
/// now holds `value` (if it existed), every other address is untouched.
pub proof fn lemma_ledger_get_set(l: Seq<(Seq<u8>, u8)>, addr: Seq<u8>, value: u8, q: Seq<u8>)
    ensures
        ledger_get(ledger_set(l, addr, value), q) == (if q == addr {
            match ledger_get(l, addr) {
                Some(_) => Some(value),
                None => None,
            }
        } else {
            ledger_get(l, q)
        }),
    decreases l.len(),
{
    if l.len() > 0 {
        if l[0].0 == addr {
            let s = seq![(addr, value)] + l.skip(1);
            assert(s[0] == (addr, value));
            assert(s.skip(1) =~= l.skip(1));
        } else {
            let s = seq![l[0]] + ledger_set(l.skip(1), addr, value);
            assert(s[0] == l[0]);
            assert(s.skip(1) =~= ledger_set(l.skip(1), addr, value));
            lemma_ledger_get_set(l.skip(1), addr, value, q);
        }
    }
}

/// What appending a fresh record does to lookups: an address that already
/// had a record keeps its counter; the appended address gains one.
pub proof fn lemma_ledger_get_push(l: Seq<(Seq<u8>, u8)>, e: (Seq<u8>, u8), q: Seq<u8>)
    ensures
        ledger_get(l.push(e), q) == (match ledger_get(l, q) {
            Some(c) => Some(c),
            None => if e.0 == q {
                Some(e.1)
            } else {
                None
            },
        }),
    decreases l.len(),
{
    if l.len() == 0 {
        assert(l.push(e)[0] == e);
        assert(l.push(e).skip(1) =~= Seq::<(Seq<u8>, u8)>::empty());
        assert(ledger_get(l.push(e).skip(1), q) is None);
        assert(ledger_get(l, q) is None);
    } else {
        assert(l.push(e)[0] == l[0]);
        assert(l.push(e).skip(1) =~= l.skip(1).push(e));
        lemma_ledger_get_push(l.skip(1), e, q);
        assert(ledger_get(l.push(e), q) == (if l[0].0 == q {
            Some(l[0].1)
        } else {
            ledger_get(l.skip(1).push(e), q)
        }));
    }
}

/// One consumption never touches any other address's counter.
pub proof fn lemma_allowance_step_frame(
    l: Seq<(Seq<u8>, u8)>,
    addr: Seq<u8>,
    creation_ok: bool,
    limit: u8,
    other: Seq<u8>,
)
    requires
        other != addr,
    ensures
        ledger_get(allowance_step(l, addr, creation_ok, limit).1, other) == ledger_get(l, other),
{
    if limit != 0 {
        match ledger_get(l, addr) {
            Some(c) => {
                if c < limit {
                    lemma_ledger_get_set(l, addr, (c + 1) as u8, other);
                }
            },
            None => {
                if creation_ok {
                    lemma_ledger_get_push(l, (addr, 1u8), other);
                }
            },
        }
    }
}

/// A successful consumption raises the consumed address's counter by exactly
/// one and never past the limit; a failed one leaves the ledger untouched.
pub proof fn lemma_allowance_step_count(
    l: Seq<(Seq<u8>, u8)>,
    addr: Seq<u8>,
    creation_ok: bool,
    limit: u8,
)
    requires
        limit > 0,
        count_of(l, addr) <= limit,
    ensures
        allowance_step(l, addr, creation_ok, limit).0 is Ok ==> count_of(
            allowance_step(l, addr, creation_ok, limit).1,
            addr,
        ) == count_of(l, addr) + 1 && count_of(l, addr) < limit,
        allowance_step(l, addr, creation_ok, limit).0 is Err ==> allowance_step(
            l,
            addr,
            creation_ok,
            limit,
        ).1 == l,
{
    match ledger_get(l, addr) {
        Some(c) => {
            if c < limit {
                lemma_ledger_get_set(l, addr, (c + 1) as u8, addr);
            }
        },
        None => {
            if creation_ok {
                lemma_ledger_get_push(l, (addr, 1u8), addr);
            }
        },
    }
}

/// The ledger after `n` consecutive consumptions at `addr` (each with a
/// matching derivation proof), paired with how many of them succeeded.
pub open spec fn allowance_run(l: Seq<(Seq<u8>, u8)>, addr: Seq<u8>, limit: u8, n: nat) -> (Seq<
    (Seq<u8>, u8),
>, nat)
    decreases n,
{
    if n == 0 {
        (l, 0)
    } else {
        let prev = allowance_run(l, addr, limit, (n - 1) as nat);
        let step = allowance_step(prev.0, addr, true, limit);
        (step.1, prev.1 + if step.0 is Ok {
            1nat
        } else {
            0nat
        })
    }
}

/// However many consumptions are attempted at one address, at most
/// `limit - count` of them ever succeed, where `count` is the counter the
/// address started with — so a fresh key admits exactly `limit` successes
/// and the attempt after that fails without mutating the ledger.
pub proof fn lemma_allowance_bounded(l: Seq<(Seq<u8>, u8)>, addr: Seq<u8>, limit: u8, n: nat)
    requires
        limit > 0,
        count_of(l, addr) <= limit,
    ensures
        ({
            let run = allowance_run(l, addr, limit, n);
            run.1 <= limit - count_of(l, addr) && count_of(run.0, addr) == count_of(l, addr)
                + run.1
        }),
    decreases n,
{
    if n > 0 {
        lemma_allowance_bounded(l, addr, limit, (n - 1) as nat);
        let prev = allowance_run(l, addr, limit, (n - 1) as nat);
        lemma_allowance_step_count(prev.0, addr, true, limit);
    }
}

/// Creation demands the derivation proof: with no record yet, a
/// consumption whose caller-supplied address and bump do not match the
/// derived ones is rejected without mutation, and one whose proof matches
/// succeeds.
pub proof fn lemma_creation_requires_proof(l: Seq<(Seq<u8>, u8)>, addr: Seq<u8>, limit: u8)
    requires
        limit > 0,
        ledger_get(l, addr) is None,
    ensures
        allowance_step(l, addr, false, limit) == (
            Result::<(), ErrorCode>::Err(ErrorCode::DerivationMismatch),
            l,
        ),
        allowance_step(l, addr, true, limit).0 is Ok,
{
}

/// With a limit of zero the allowance never blocks: every one of the `n`
/// attempts succeeds and the ledger is never touched.
pub proof fn lemma_zero_limit_never_blocks(l: Seq<(Seq<u8>, u8)>, addr: Seq<u8>, n: nat)
    ensures
        allowance_run(l, addr, 0u8, n) == (l, n),
    decreases n,
{
    if n > 0 {
        lemma_zero_limit_never_blocks(l, addr, (n - 1) as nat);
    }
}

} // verus!
