//! The durable state of the handler: the balance ledger and the two
//! idempotency tables (one per command type), with the transitions the
//! handlers perform on them.
//!
//! The store is modelled by [`StoreModel`]: plain sequences of row models and
//! a logical clock that stamps `created_at` / `updated_at`. Every mutating
//! operation is specified as a function of the model, so that idempotency,
//! the overdraft invariant and conservation can be stated and proved of the
//! transitions themselves.
//!
//! Within one call the idempotency lookup and the mutation happen under one
//! exclusive borrow, so a caller that shares a store across workers and
//! serializes access to it gets at most one committed execution per command
//! identifier.

use vstd::prelude::*;
use vstd::string::StringExecFns;

use crate::account::all_digits;
use crate::account::usable_source_spec;
use crate::account::valid_open_iban_spec;
use crate::account::invalid_from;
use crate::account::new_iban;
use crate::account::new_token;
use crate::account::valid_open_iban;
use crate::decode::str_eq;
use crate::events::ConfirmMoneyTransfer;
use crate::events::Uuid;
use crate::events::uuid_eq;

verus! {

/// A ledger row: one account's funds and its overdraft limit.
#[derive(Debug)]
pub struct Balance {
    pub iban: String,
    pub token: String,
    pub amount: i64,
    pub type_: String,
    pub lmt: i64,
    pub created_at: u64,
    pub updated_at: u64,
}

/// The mathematical model of a ledger row.
#[verifier::ext_equal]
pub ghost struct BalanceModel {
    pub iban: Seq<char>,
    pub token: Seq<char>,
    pub amount: int,
    pub type_: Seq<char>,
    pub lmt: int,
    pub created_at: int,
    pub updated_at: int,
}

impl View for Balance {
    type V = BalanceModel;

    open spec fn view(&self) -> BalanceModel {
        BalanceModel {
            iban: self.iban@,
            token: self.token@,
            amount: self.amount as int,
            type_: self.type_@,
            lmt: self.lmt as int,
            created_at: self.created_at as int,
            updated_at: self.updated_at as int,
        }
    }
}

impl Clone for Balance {
    fn clone(&self) -> (r: Self)
        ensures
            r@ == self@,
    {
        Balance {
            iban: self.iban.clone(),
            token: self.token.clone(),
            amount: self.amount,
            type_: self.type_.clone(),
            lmt: self.lmt,
            created_at: self.created_at,
            updated_at: self.updated_at,
        }
    }
}

/// The fields of a ledger row to be created; the store stamps the times.
#[derive(Debug)]
pub struct NewBalance {
    pub iban: String,
    pub token: String,
    pub amount: i64,
    pub type_: String,
    pub lmt: i64,
}

/// An idempotency record for a creation command: either the created
/// account's coordinates or the failure reason.
#[derive(Debug)]
pub struct Cac {
    pub uuid: Uuid,
    pub iban: Option<String>,
    pub token: Option<String>,
    pub type_: Option<String>,
    pub reason: Option<String>,
    pub created_at: u64,
}

/// The mathematical model of a creation record.
#[verifier::ext_equal]
pub ghost struct CacModel {
    pub uuid: Seq<u8>,
    pub iban: Option<Seq<char>>,
    pub token: Option<Seq<char>>,
    pub type_: Option<Seq<char>>,
    pub reason: Option<Seq<char>>,
    pub created_at: int,
}

/// The view of an optional string.
pub open spec fn opt_str_view(o: Option<String>) -> Option<Seq<char>> {
    match o {
        Some(s) => Some(s@),
        None => None,
    }
}

impl View for Cac {
    type V = CacModel;

    open spec fn view(&self) -> CacModel {
        CacModel {
            uuid: self.uuid@,
            iban: opt_str_view(self.iban),
            token: opt_str_view(self.token),
            type_: opt_str_view(self.type_),
            reason: opt_str_view(self.reason),
            created_at: self.created_at as int,
        }
    }
}

/// Clone an optional string.
fn clone_opt_string(o: &Option<String>) -> (r: Option<String>)
    ensures
        opt_str_view(r) == opt_str_view(*o),
{
    match o {
        Some(s) => Some(s.clone()),
        None => None,
    }
}

impl Clone for Cac {
    fn clone(&self) -> (r: Self)
        ensures
            r@ == self@,
    {
        Cac {
            uuid: self.uuid,
            iban: clone_opt_string(&self.iban),
            token: clone_opt_string(&self.token),
            type_: clone_opt_string(&self.type_),
            reason: clone_opt_string(&self.reason),
            created_at: self.created_at,
        }
    }
}

/// The fields of a creation record to be written; the store stamps the time.
#[derive(Debug)]
pub struct NewCac {
    pub uuid: Uuid,
    pub iban: Option<String>,
    pub token: Option<String>,
    pub type_: Option<String>,
    pub reason: Option<String>,
}

/// An idempotency record for a transfer command: the failure reason, absent
/// when the transfer succeeded.
#[derive(Debug)]
pub struct Cmt {
    pub uuid: Uuid,
    pub reason: Option<String>,
    pub created_at: u64,
}

/// The mathematical model of a transfer record.
#[verifier::ext_equal]
pub ghost struct CmtModel {
    pub uuid: Seq<u8>,
    pub reason: Option<Seq<char>>,
    pub created_at: int,
}

impl View for Cmt {
    type V = CmtModel;

    open spec fn view(&self) -> CmtModel {
        CmtModel {
            uuid: self.uuid@,
            reason: opt_str_view(self.reason),
            created_at: self.created_at as int,
        }
    }
}

impl Clone for Cmt {
    fn clone(&self) -> (r: Self)
        ensures
            r@ == self@,
    {
        Cmt { uuid: self.uuid, reason: clone_opt_string(&self.reason), created_at: self.created_at }
    }
}

/// The fields of a transfer record to be written; the store stamps the time.
#[derive(Debug)]
pub struct NewCmt {
    pub uuid: Uuid,
    pub reason: Option<String>,
}

/// Why a ledger operation could not be applied.
#[derive(Debug, PartialEq, Eq, Structural, Clone, Copy)]
pub enum LedgerError {
    /// A row with this account identifier already exists.
    DuplicateAccount,
    /// No row with this account identifier exists.
    AccountNotFound,
    /// The mutation would take an amount outside the 64-bit signed range.
    AmountOverflow,
}

/// The in-memory store: the ledger, the two idempotency tables, and the
/// logical clock that stamps rows.
pub struct Store {
    balances: Vec<Balance>,
    cacs: Vec<Cac>,
    cmts: Vec<Cmt>,
    clock: u64,
}

/// The mathematical model of the whole store.
#[verifier::ext_equal]
pub ghost struct StoreModel {
    pub balances: Seq<BalanceModel>,
    pub cacs: Seq<CacModel>,
    pub cmts: Seq<CmtModel>,
    pub clock: int,
}

impl View for Store {
    type V = StoreModel;

    closed spec fn view(&self) -> StoreModel {
        StoreModel {
            balances: self.balances@.map_values(|b: Balance| b@),
            cacs: self.cacs@.map_values(|c: Cac| c@),
            cmts: self.cmts@.map_values(|c: Cmt| c@),
            clock: self.clock as int,
        }
    }
}

/// The next value of the logical clock; it saturates at the largest stamp.
pub open spec fn tick(c: int) -> int {
    if c < u64::MAX {
        c + 1
    } else {
        c
    }
}

/// The first ledger row with this identifier, searching from position `i`.
pub open spec fn find_balance_from(s: Seq<BalanceModel>, iban: Seq<char>, i: int) -> Option<
    BalanceModel,
>
    decreases s.len() - i,
{
    if i < 0 || i >= s.len() {
        None
    } else if s[i].iban == iban {
        Some(s[i])
    } else {
        find_balance_from(s, iban, i + 1)
    }
}

/// The ledger row with this identifier, if any.
pub open spec fn find_balance(s: Seq<BalanceModel>, iban: Seq<char>) -> Option<BalanceModel> {
    find_balance_from(s, iban, 0)
}

/// The first creation record with this command identifier, from position `i`.
pub open spec fn find_cac_from(s: Seq<CacModel>, id: Seq<u8>, i: int) -> Option<CacModel>
    decreases s.len() - i,
{
    if i < 0 || i >= s.len() {
        None
    } else if s[i].uuid == id {
        Some(s[i])
    } else {
        find_cac_from(s, id, i + 1)
    }
}

/// The creation record with this command identifier, if any.
pub open spec fn find_cac(s: Seq<CacModel>, id: Seq<u8>) -> Option<CacModel> {
    find_cac_from(s, id, 0)
}

/// The first transfer record with this command identifier, from position `i`.
pub open spec fn find_cmt_from(s: Seq<CmtModel>, id: Seq<u8>, i: int) -> Option<CmtModel>
    decreases s.len() - i,
{
    if i < 0 || i >= s.len() {
        None
    } else if s[i].uuid == id {
        Some(s[i])
    } else {
        find_cmt_from(s, id, i + 1)
    }
}

/// The transfer record with this command identifier, if any.
pub open spec fn find_cmt(s: Seq<CmtModel>, id: Seq<u8>) -> Option<CmtModel> {
    find_cmt_from(s, id, 0)
}

/// A row after a mutation of its amount.
pub open spec fn adjusted(b: BalanceModel, delta: int, now: int) -> BalanceModel {
    BalanceModel { amount: b.amount + delta, updated_at: now, ..b }
}

/// The ledger after adding `delta` to the row with this identifier.
pub open spec fn apply_delta(s: Seq<BalanceModel>, iban: Seq<char>, delta: int, now: int) -> Seq<
    BalanceModel,
> {
    Seq::new(
        s.len(),
        |i: int|
            if s[i].iban == iban {
                adjusted(s[i], delta, now)
            } else {
                s[i]
            },
    )
}

/// No two ledger rows share an identifier.
pub open spec fn unique_ibans(s: Seq<BalanceModel>) -> bool {
    forall|i: int, j: int|
        0 <= i < j < s.len() ==> (#[trigger] s[i]).iban != (#[trigger] s[j]).iban
}

/// No two creation records share a command identifier.
pub open spec fn unique_cac_uuids(s: Seq<CacModel>) -> bool {
    forall|i: int, j: int|
        0 <= i < j < s.len() ==> (#[trigger] s[i]).uuid != (#[trigger] s[j]).uuid
}

/// No two transfer records share a command identifier.
pub open spec fn unique_cmt_uuids(s: Seq<CmtModel>) -> bool {
    forall|i: int, j: int|
        0 <= i < j < s.len() ==> (#[trigger] s[i]).uuid != (#[trigger] s[j]).uuid
}

/// Every committed ledger row respects its overdraft limit.
pub open spec fn overdraft_ok(s: Seq<BalanceModel>) -> bool {
    forall|i: int| 0 <= i < s.len() ==> (#[trigger] s[i]).amount >= s[i].lmt
}

/// Every ledger row's stamps lie within the clock, and its numbers fit the
/// machine.
pub open spec fn balances_bounded(s: Seq<BalanceModel>, clock: int) -> bool {
    forall|i: int|
        0 <= i < s.len() ==> {
            &&& 0 <= (#[trigger] s[i]).created_at <= clock
            &&& 0 <= s[i].updated_at <= clock
            &&& i64::MIN <= s[i].amount <= i64::MAX
            &&& i64::MIN <= s[i].lmt <= i64::MAX
        }
}

/// Every row's stamps lie within the clock, and amounts fit the machine.
pub open spec fn rows_bounded(m: StoreModel) -> bool {
    &&& balances_bounded(m.balances, m.clock)
    &&& forall|i: int| 0 <= i < m.cacs.len() ==> 0 <= (#[trigger] m.cacs[i]).created_at <= m.clock
    &&& forall|i: int| 0 <= i < m.cmts.len() ==> 0 <= (#[trigger] m.cmts[i]).created_at <= m.clock
}

/// The store's invariant: unique keys in all three tables, the overdraft
/// invariant on the ledger, and stamps within the clock.
pub open spec fn store_wf(m: StoreModel) -> bool {
    &&& 0 <= m.clock <= u64::MAX
    &&& unique_ibans(m.balances)
    &&& unique_cac_uuids(m.cacs)
    &&& unique_cmt_uuids(m.cmts)
    &&& overdraft_ok(m.balances)
    &&& rows_bounded(m)
}

// ---------------------------------------------------------------------------
// Relating the recursive lookups to index-wise facts.
// ---------------------------------------------------------------------------

/// Searching from `i` equals searching from the start when no earlier row
/// matches.
pub proof fn lemma_find_balance_skip(s: Seq<BalanceModel>, iban: Seq<char>, i: int)
    requires
        0 <= i <= s.len(),
        forall|j: int| 0 <= j < i ==> (#[trigger] s[j]).iban != iban,
    ensures
        find_balance(s, iban) == find_balance_from(s, iban, i),
    decreases i,
{
    if i > 0 {
        lemma_find_balance_skip(s, iban, i - 1);
    }
}

/// What a lookup result says of the rows.
pub proof fn lemma_find_balance_from_props(s: Seq<BalanceModel>, iban: Seq<char>, i: int)
    requires
        0 <= i <= s.len(),
    ensures
        match find_balance_from(s, iban, i) {
            Some(b) => exists|j: int|
                i <= j < s.len() && s[j] == b && (#[trigger] s[j]).iban == iban,
            None => forall|j: int| i <= j < s.len() ==> (#[trigger] s[j]).iban != iban,
        },
    decreases s.len() - i,
{
    if i < s.len() {
        lemma_find_balance_from_props(s, iban, i + 1);
    }
}

/// Looking a row up after one is appended.
pub proof fn lemma_find_balance_push(s: Seq<BalanceModel>, r: BalanceModel, iban: Seq<char>, i: int)
    requires
        0 <= i <= s.len(),
    ensures
        find_balance_from(s.push(r), iban, i) == (match find_balance_from(s, iban, i) {
            Some(b) => Some(b),
            None => {
                if r.iban == iban {
                    Some(r)
                } else {
                    None
                }
            },
        }),
    decreases s.len() - i,
{
    if i < s.len() {
        assert(s.push(r)[i] == s[i]);
        lemma_find_balance_push(s, r, iban, i + 1);
    } else {
        assert(s.push(r)[s.len() as int] == r);
        assert(find_balance_from(s.push(r), iban, s.len() as int + 1) is None);
    }
}

/// Looking a row up after a delta is applied: the touched identifier reads
/// back adjusted; every other identifier reads back unchanged.
pub proof fn lemma_find_balance_apply_delta(
    s: Seq<BalanceModel>,
    iban: Seq<char>,
    delta: int,
    now: int,
    key: Seq<char>,
    i: int,
)
    requires
        0 <= i <= s.len(),
    ensures
        find_balance_from(apply_delta(s, iban, delta, now), key, i) == (
        if key == iban {
            match find_balance_from(s, key, i) {
                Some(b) => Some(adjusted(b, delta, now)),
                None => None,
            }
        } else {
            find_balance_from(s, key, i)
        }),
    decreases s.len() - i,
{
    if i < s.len() {
        lemma_find_balance_apply_delta(s, iban, delta, now, key, i + 1);
    }
}

/// With unique identifiers, applying a delta to the row at a known index is
/// a point update.
pub proof fn lemma_apply_delta_update(
    s: Seq<BalanceModel>,
    iban: Seq<char>,
    delta: int,
    now: int,
    i: int,
)
    requires
        unique_ibans(s),
        0 <= i < s.len(),
        s[i].iban == iban,
    ensures
        apply_delta(s, iban, delta, now) =~= s.update(i, adjusted(s[i], delta, now)),
{
    assert forall|j: int| 0 <= j < s.len() && j != i implies (#[trigger] s[j]).iban != iban by {
        if j < i {
            assert(s[j].iban != s[i].iban);
        } else {
            assert(s[i].iban != s[j].iban);
        }
    }
}

/// Searching the creation records from `i` equals searching from the start
/// when no earlier record matches.
pub proof fn lemma_find_cac_skip(s: Seq<CacModel>, id: Seq<u8>, i: int)
    requires
        0 <= i <= s.len(),
        forall|j: int| 0 <= j < i ==> (#[trigger] s[j]).uuid != id,
    ensures
        find_cac(s, id) == find_cac_from(s, id, i),
    decreases i,
{
    if i > 0 {
        lemma_find_cac_skip(s, id, i - 1);
    }
}

/// Looking a creation record up after one is appended.
pub proof fn lemma_find_cac_push(s: Seq<CacModel>, r: CacModel, id: Seq<u8>, i: int)
    requires
        0 <= i <= s.len(),
    ensures
        find_cac_from(s.push(r), id, i) == (match find_cac_from(s, id, i) {
            Some(c) => Some(c),
            None => {
                if r.uuid == id {
                    Some(r)
                } else {
                    None
                }
            },
        }),
    decreases s.len() - i,
{
    if i < s.len() {
        assert(s.push(r)[i] == s[i]);
        lemma_find_cac_push(s, r, id, i + 1);
    } else {
        assert(s.push(r)[s.len() as int] == r);
        assert(find_cac_from(s.push(r), id, s.len() as int + 1) is None);
    }
}

/// Searching the transfer records from `i` equals searching from the start
/// when no earlier record matches.
pub proof fn lemma_find_cmt_skip(s: Seq<CmtModel>, id: Seq<u8>, i: int)
    requires
        0 <= i <= s.len(),
        forall|j: int| 0 <= j < i ==> (#[trigger] s[j]).uuid != id,
    ensures
        find_cmt(s, id) == find_cmt_from(s, id, i),
    decreases i,
{
    if i > 0 {
        lemma_find_cmt_skip(s, id, i - 1);
    }
}

/// Looking a transfer record up after one is appended.
pub proof fn lemma_find_cmt_push(s: Seq<CmtModel>, r: CmtModel, id: Seq<u8>, i: int)
    requires
        0 <= i <= s.len(),
    ensures
        find_cmt_from(s.push(r), id, i) == (match find_cmt_from(s, id, i) {
            Some(c) => Some(c),
            None => {
                if r.uuid == id {
                    Some(r)
                } else {
                    None
                }
            },
        }),
    decreases s.len() - i,
{
    if i < s.len() {
        assert(s.push(r)[i] == s[i]);
        lemma_find_cmt_push(s, r, id, i + 1);
    } else {
        assert(s.push(r)[s.len() as int] == r);
        assert(find_cmt_from(s.push(r), id, s.len() as int + 1) is None);
    }
}


// ---------------------------------------------------------------------------
// The command transitions, as functions of the model.
// ---------------------------------------------------------------------------

/// The transfer-relevant view of an inbound transfer command.
#[verifier::ext_equal]
pub ghost struct TransferModel {
    pub token: Seq<char>,
    pub amount: int,
    pub from: Seq<char>,
    pub to: Seq<char>,
}

/// The model of a transfer command.
pub open spec fn transfer_view(c: ConfirmMoneyTransfer) -> TransferModel {
    TransferModel { token: c.token@, amount: c.amount as int, from: c.from@, to: c.to@ }
}

/// The reason recorded when a freshly generated identifier collides.
pub open spec fn reason_duplicate_iban() -> Seq<char> {
    "generated iban already exists, try again"@
}

/// The reason recorded when the source is neither special nor well formed.
pub open spec fn reason_invalid_from() -> Seq<char> {
    "from is invalid"@
}

/// The reason recorded when source and target are the same string.
pub open spec fn reason_same_account() -> Seq<char> {
    "from and to can't be same for transfer"@
}

/// The reason recorded when the command's token does not match the row's.
pub open spec fn reason_invalid_token() -> Seq<char> {
    "invalid token"@
}

/// The reason recorded when the debit would pass the overdraft limit.
pub open spec fn reason_insufficient_funds() -> Seq<char> {
    "insufficient funds"@
}

/// A generated identifier and token are well formed: a valid identifier and
/// twenty decimal digits.
pub open spec fn gen_ok(gi: Seq<char>, gt: Seq<char>) -> bool {
    valid_open_iban_spec(gi) && gt.len() == 20 && all_digits(gt)
}

/// One execution of a creation command against the model, given the
/// generated identifier and token. A recorded command identifier returns its
/// record unchanged; a colliding generated identifier records a permanent
/// failure and leaves the ledger alone; otherwise a zero-amount row with the
/// standard overdraft limit is created and recorded.
pub open spec fn cac_step(
    m: StoreModel,
    id: Seq<u8>,
    tp: Seq<char>,
    gen_iban: Seq<char>,
    gen_token: Seq<char>,
) -> (StoreModel, CacModel) {
    match find_cac(m.cacs, id) {
        Some(rec) => (m, rec),
        None => {
            let now = tick(m.clock);
            if find_balance(m.balances, gen_iban) is Some {
                let rec = CacModel {
                    uuid: id,
                    iban: None,
                    token: None,
                    type_: None,
                    reason: Some(reason_duplicate_iban()),
                    created_at: now,
                };
                (StoreModel { cacs: m.cacs.push(rec), clock: now, ..m }, rec)
            } else {
                let b = BalanceModel {
                    iban: gen_iban,
                    token: gen_token,
                    amount: 0,
                    type_: tp,
                    lmt: -50000,
                    created_at: now,
                    updated_at: now,
                };
                let rec = CacModel {
                    uuid: id,
                    iban: Some(gen_iban),
                    token: Some(gen_token),
                    type_: Some(tp),
                    reason: None,
                    created_at: now,
                };
                (
                    StoreModel {
                        balances: m.balances.push(b),
                        cacs: m.cacs.push(rec),
                        clock: now,
                        ..m
                    },
                    rec,
                )
            }
        },
    }
}

/// The debit half of a transfer: a well-formed source with a row is checked
/// for authorization and overdraft and debited; the special source, and a
/// well-formed source without a row, debit nothing and fail nothing.
pub open spec fn debit_step(s: Seq<BalanceModel>, c: TransferModel, now: int) -> (
    Option<Seq<char>>,
    Option<BalanceModel>,
    Seq<BalanceModel>,
) {
    if valid_open_iban_spec(c.from) {
        match find_balance(s, c.from) {
            Some(b) => {
                if b.token != c.token {
                    (Some(reason_invalid_token()), None, s)
                } else if b.amount - c.amount < b.lmt {
                    (Some(reason_insufficient_funds()), None, s)
                } else {
                    (
                        None,
                        Some(adjusted(b, -c.amount, now)),
                        apply_delta(s, c.from, -c.amount, now),
                    )
                }
            },
            None => (None, None, s),
        }
    } else {
        (None, None, s)
    }
}

/// The credit half of a transfer: a well-formed target with a row is
/// credited; anything else is skipped silently.
pub open spec fn credit_step(s: Seq<BalanceModel>, c: TransferModel, now: int) -> (
    Option<BalanceModel>,
    Seq<BalanceModel>,
) {
    if valid_open_iban_spec(c.to) {
        match find_balance(s, c.to) {
            Some(b) => (Some(adjusted(b, c.amount, now)), apply_delta(s, c.to, c.amount, now)),
            None => (None, s),
        }
    } else {
        (None, s)
    }
}

/// A whole transfer against the ledger: the debit, then, only when the debit
/// produced no failure, the credit. The result is the failure reason, the
/// two snapshots of the rows actually mutated, and the new ledger.
pub open spec fn transfer_step(s: Seq<BalanceModel>, c: TransferModel, now: int) -> (
    Option<Seq<char>>,
    Option<BalanceModel>,
    Option<BalanceModel>,
    Seq<BalanceModel>,
) {
    let (reason, b_from, s1) = debit_step(s, c, now);
    if reason is None {
        let (b_to, s2) = credit_step(s1, c, now);
        (reason, b_from, b_to, s2)
    } else {
        (reason, b_from, None, s1)
    }
}

/// The credited amount stays in the 64-bit signed range; the debited amount
/// always does, as the overdraft check bounds it below and a non-negative
/// transfer amount bounds it above.
pub open spec fn transfer_fits(s: Seq<BalanceModel>, c: TransferModel, now: int) -> bool {
    let (reason, b_from, s1) = debit_step(s, c, now);
    reason is Some || (match credit_step(s1, c, now).0 {
        Some(b) => i64::MIN <= b.amount <= i64::MAX,
        None => true,
    })
}

/// One execution of a transfer command against the model. A recorded command
/// identifier returns its record, mutating and snapshotting nothing; a
/// failing validation rule records its reason and leaves the ledger alone;
/// otherwise the transfer runs and its outcome is recorded.
pub open spec fn cmt_step(m: StoreModel, id: Seq<u8>, c: TransferModel) -> (
    StoreModel,
    CmtModel,
    Option<BalanceModel>,
    Option<BalanceModel>,
) {
    match find_cmt(m.cmts, id) {
        Some(rec) => (m, rec, None, None),
        None => {
            let now = tick(m.clock);
            if !usable_source_spec(c.from) {
                let rec = CmtModel {
                    uuid: id,
                    reason: Some(reason_invalid_from()),
                    created_at: now,
                };
                (StoreModel { cmts: m.cmts.push(rec), clock: now, ..m }, rec, None, None)
            } else if c.from == c.to {
                let rec = CmtModel {
                    uuid: id,
                    reason: Some(reason_same_account()),
                    created_at: now,
                };
                (StoreModel { cmts: m.cmts.push(rec), clock: now, ..m }, rec, None, None)
            } else {
                let (reason, b_from, b_to, s2) = transfer_step(m.balances, c, now);
                let rec = CmtModel { uuid: id, reason, created_at: now };
                (
                    StoreModel { balances: s2, cmts: m.cmts.push(rec), clock: now, ..m },
                    rec,
                    b_from,
                    b_to,
                )
            }
        },
    }
}

/// The execution of this transfer command stays within the machine's range.
pub open spec fn cmt_fits(m: StoreModel, id: Seq<u8>, c: TransferModel) -> bool {
    match find_cmt(m.cmts, id) {
        Some(_) => true,
        None => {
            if !usable_source_spec(c.from) || c.from == c.to {
                true
            } else {
                transfer_fits(m.balances, c, tick(m.clock))
            }
        },
    }
}

/// What a creation-record lookup result says of the records.
pub proof fn lemma_find_cac_from_props(s: Seq<CacModel>, id: Seq<u8>, i: int)
    requires
        0 <= i <= s.len(),
    ensures
        match find_cac_from(s, id, i) {
            Some(c) => exists|j: int| i <= j < s.len() && s[j] == c && (#[trigger] s[j]).uuid == id,
            None => forall|j: int| i <= j < s.len() ==> (#[trigger] s[j]).uuid != id,
        },
    decreases s.len() - i,
{
    if i < s.len() {
        lemma_find_cac_from_props(s, id, i + 1);
    }
}

/// What a transfer-record lookup result says of the records.
pub proof fn lemma_find_cmt_from_props(s: Seq<CmtModel>, id: Seq<u8>, i: int)
    requires
        0 <= i <= s.len(),
    ensures
        match find_cmt_from(s, id, i) {
            Some(c) => exists|j: int| i <= j < s.len() && s[j] == c && (#[trigger] s[j]).uuid == id,
            None => forall|j: int| i <= j < s.len() ==> (#[trigger] s[j]).uuid != id,
        },
    decreases s.len() - i,
{
    if i < s.len() {
        lemma_find_cmt_from_props(s, id, i + 1);
    }
}

/// A transfer that fits the machine preserves the ledger's shape: unique
/// identifiers, the overdraft invariant, and bounded rows stamped no later
/// than `now`.
pub proof fn lemma_transfer_step_wf(s: Seq<BalanceModel>, c: TransferModel, now: int)
    requires
        unique_ibans(s),
        overdraft_ok(s),
        balances_bounded(s, now),
        0 <= now,
        c.amount >= 0,
        transfer_fits(s, c, now),
    ensures
        ({
            let (reason, b_from, b_to, s2) = transfer_step(s, c, now);
            &&& s2.len() == s.len()
            &&& unique_ibans(s2)
            &&& overdraft_ok(s2)
            &&& balances_bounded(s2, now)
            &&& forall|i: int| 0 <= i < s2.len() ==> (#[trigger] s2[i]).iban == s[i].iban
        }),
{
    let (reason, b_from, s1) = debit_step(s, c, now);
    assert(forall|i: int| 0 <= i < s1.len() ==> (#[trigger] s1[i]).iban == s[i].iban);
    assert(unique_ibans(s1));
    if reason is None {
        if valid_open_iban_spec(c.from) && find_balance(s, c.from) is Some {
            let b = find_balance(s, c.from)->Some_0;
            lemma_find_balance_from_props(s, c.from, 0);
            let j = choose|j: int|
                0 <= j < s.len() && s[j] == b && (#[trigger] s[j]).iban == c.from;
            assert(b.amount - c.amount >= b.lmt);
            assert forall|i: int| 0 <= i < s1.len() implies (#[trigger] s1[i]).amount
                >= s1[i].lmt && 0 <= s1[i].created_at <= now && 0 <= s1[i].updated_at <= now
                && i64::MIN <= s1[i].amount <= i64::MAX && i64::MIN <= s1[i].lmt <= i64::MAX by {
                if s[i].iban == c.from {
                    if i != j {
                        if i < j {
                            assert(s[i].iban != s[j].iban);
                        } else {
                            assert(s[j].iban != s[i].iban);
                        }
                    }
                    assert(s[i] == b);
                    assert(s1[i] == adjusted(b, -c.amount, now));
                } else {
                    assert(s1[i] == s[i]);
                }
            }
        }
        assert(overdraft_ok(s1));
        assert(balances_bounded(s1, now));
        let (b_to, s2) = credit_step(s1, c, now);
        assert(forall|i: int| 0 <= i < s2.len() ==> (#[trigger] s2[i]).iban == s1[i].iban);
        assert(unique_ibans(s2));
        if valid_open_iban_spec(c.to) && find_balance(s1, c.to) is Some {
            let b = find_balance(s1, c.to)->Some_0;
            lemma_find_balance_from_props(s1, c.to, 0);
            let j = choose|j: int|
                0 <= j < s1.len() && s1[j] == b && (#[trigger] s1[j]).iban == c.to;
            assert(i64::MIN <= b.amount + c.amount <= i64::MAX);
            assert forall|i: int| 0 <= i < s2.len() implies (#[trigger] s2[i]).amount
                >= s2[i].lmt && 0 <= s2[i].created_at <= now && 0 <= s2[i].updated_at <= now
                && i64::MIN <= s2[i].amount <= i64::MAX && i64::MIN <= s2[i].lmt <= i64::MAX by {
                if s1[i].iban == c.to {
                    if i != j {
                        if i < j {
                            assert(s1[i].iban != s1[j].iban);
                        } else {
                            assert(s1[j].iban != s1[i].iban);
                        }
                    }
                    assert(s1[i] == b);
                    assert(s2[i] == adjusted(b, c.amount, now));
                } else {
                    assert(s2[i] == s1[i]);
                }
            }
            assert(overdraft_ok(s2));
            assert(balances_bounded(s2, now));
        }
    }
}


/// Appending a fresh transfer record and advancing the clock to the stamp of
/// everything written in this step keeps the store well formed.
pub proof fn lemma_commit_preserves_wf(pre: StoreModel, post: StoreModel, rec: CmtModel, id: Seq<u8>)
    requires
        store_wf(pre),
        find_cmt(pre.cmts, id) is None,
        rec.uuid == id,
        rec.created_at == tick(pre.clock),
        post.clock == tick(pre.clock),
        post.cacs == pre.cacs,
        post.cmts == pre.cmts.push(rec),
        unique_ibans(post.balances),
        overdraft_ok(post.balances),
        balances_bounded(post.balances, post.clock),
    ensures
        store_wf(post),
{
    lemma_find_cmt_from_props(pre.cmts, id, 0);
    assert forall|i: int, j: int| 0 <= i < j < post.cmts.len() implies (
    #[trigger] post.cmts[i]).uuid != (#[trigger] post.cmts[j]).uuid by {
        if j < pre.cmts.len() {
            assert(pre.cmts[i].uuid != pre.cmts[j].uuid);
        }
    }
}

// ---------------------------------------------------------------------------
// The store's executable interface.
// ---------------------------------------------------------------------------

/// The view of an optional row.
pub open spec fn opt_balance_view(o: Option<Balance>) -> Option<BalanceModel> {
    match o {
        Some(b) => Some(b@),
        None => None,
    }
}

impl Store {
    /// An empty store.
    pub fn new() -> (r: Store)
        ensures
            r@.balances =~= Seq::<BalanceModel>::empty(),
            r@.cacs =~= Seq::<CacModel>::empty(),
            r@.cmts =~= Seq::<CmtModel>::empty(),
            r@.clock == 0,
            store_wf(r@),
    {
        Store { balances: Vec::new(), cacs: Vec::new(), cmts: Vec::new(), clock: 0 }
    }

    /// The index of the ledger row with this identifier.
    fn find_balance_index(&self, iban: &str) -> (r: Option<usize>)
        ensures
            match r {
                Some(i) => i < self@.balances.len() && self@.balances[i as int].iban == iban@
                    && find_balance(self@.balances, iban@) == Some(self@.balances[i as int]),
                None => find_balance(self@.balances, iban@) is None,
            },
    {
        let n = self.balances.len();
        let mut i: usize = 0;
        while i < n
            invariant
                i <= n,
                n == self@.balances.len(),
                self@.balances.len() == self.balances@.len(),
                forall|j: int| 0 <= j < i ==> (#[trigger] self@.balances[j]).iban != iban@,
            decreases n - i,
        {
            if str_eq(self.balances[i].iban.as_str(), iban) {
                proof {
                    lemma_find_balance_skip(self@.balances, iban@, i as int);
                }
                return Some(i);
            }
            i = i + 1;
        }
        proof {
            lemma_find_balance_skip(self@.balances, iban@, i as int);
        }
        None
    }

    /// Point lookup of a ledger row; no side effects.
    pub fn get_balance_by_iban(&self, iban: &str) -> (r: Option<Balance>)
        ensures
            opt_balance_view(r) == find_balance(self@.balances, iban@),
    {
        match self.find_balance_index(iban) {
            Some(i) => Some(self.balances[i].clone()),
            None => None,
        }
    }

    /// Insert a new ledger row, stamped with the next clock value. Fails
    /// with `DuplicateAccount`, changing nothing, when a row with the same
    /// identifier exists.
    pub fn create_balance(&mut self, row: NewBalance) -> (r: Result<Balance, LedgerError>)
        requires
            store_wf(old(self)@),
            row.amount >= row.lmt,
        ensures
            store_wf(final(self)@),
            match r {
                Ok(b) => {
                    &&& find_balance(old(self)@.balances, row.iban@) is None
                    &&& b@ == (BalanceModel {
                        iban: row.iban@,
                        token: row.token@,
                        amount: row.amount as int,
                        type_: row.type_@,
                        lmt: row.lmt as int,
                        created_at: tick(old(self)@.clock),
                        updated_at: tick(old(self)@.clock),
                    })
                    &&& final(self)@ == (StoreModel {
                        balances: old(self)@.balances.push(b@),
                        clock: tick(old(self)@.clock),
                        ..old(self)@
                    })
                },
                Err(e) => {
                    &&& e == LedgerError::DuplicateAccount
                    &&& find_balance(old(self)@.balances, row.iban@) is Some
                    &&& final(self)@ == old(self)@
                },
            },
    {
        if self.find_balance_index(row.iban.as_str()).is_some() {
            return Err(LedgerError::DuplicateAccount);
        }
        let now = if self.clock < u64::MAX {
            self.clock + 1
        } else {
            self.clock
        };
        let b = Balance {
            iban: row.iban,
            token: row.token,
            amount: row.amount,
            type_: row.type_,
            lmt: row.lmt,
            created_at: now,
            updated_at: now,
        };
        let snapshot = b.clone();
        let ghost pre = self@;
        self.balances.push(b);
        self.clock = now;
        proof {
            assert(self@.balances =~= pre.balances.push(snapshot@));
            assert(self@ == (StoreModel {
                balances: pre.balances.push(snapshot@),
                clock: tick(pre.clock),
                ..pre
            }));
            lemma_find_balance_from_props(pre.balances, snapshot@.iban, 0);
            assert forall|i: int, j: int| 0 <= i < j < self@.balances.len() implies (
            #[trigger] self@.balances[i]).iban != (#[trigger] self@.balances[j]).iban by {
                if j < pre.balances.len() {
                    assert(pre.balances[i].iban != pre.balances[j].iban);
                }
            }
        }
        Ok(snapshot)
    }

    /// Atomically add `delta` to the row with this identifier and return the
    /// post-mutation snapshot. Fails, changing nothing, when the row is
    /// missing or the new amount would leave the 64-bit signed range.
    pub fn adjust(&mut self, iban: &str, delta: i64) -> (r: Result<Balance, LedgerError>)
        requires
            unique_ibans(old(self)@.balances),
        ensures
            match r {
                Ok(b) => {
                    &&& match find_balance(old(self)@.balances, iban@) {
                        Some(pre) => i64::MIN <= pre.amount + delta <= i64::MAX && b@ == adjusted(
                            pre,
                            delta as int,
                            tick(old(self)@.clock),
                        ),
                        None => false,
                    }
                    &&& final(self)@ == (StoreModel {
                        balances: apply_delta(
                            old(self)@.balances,
                            iban@,
                            delta as int,
                            tick(old(self)@.clock),
                        ),
                        clock: tick(old(self)@.clock),
                        ..old(self)@
                    })
                },
                Err(e) => {
                    &&& final(self)@ == old(self)@
                    &&& match e {
                        LedgerError::AccountNotFound => find_balance(
                            old(self)@.balances,
                            iban@,
                        ) is None,
                        LedgerError::AmountOverflow => match find_balance(
                            old(self)@.balances,
                            iban@,
                        ) {
                            Some(pre) => !(i64::MIN <= pre.amount + delta <= i64::MAX),
                            None => false,
                        },
                        _ => false,
                    }
                },
            },
    {
        let i = match self.find_balance_index(iban) {
            Some(i) => i,
            None => {
                return Err(LedgerError::AccountNotFound);
            },
        };
        let amount = self.balances[i].amount;
        let wide: i128 = amount as i128 + delta as i128;
        if wide < i64::MIN as i128 || wide > i64::MAX as i128 {
            return Err(LedgerError::AmountOverflow);
        }
        let now = if self.clock < u64::MAX {
            self.clock + 1
        } else {
            self.clock
        };
        let ghost pre = self@;
        let mut b = self.balances[i].clone();
        b.amount = amount + delta;
        b.updated_at = now;
        let snapshot = b.clone();
        self.balances.set(i, b);
        self.clock = now;
        proof {
            lemma_apply_delta_update(pre.balances, iban@, delta as int, tick(pre.clock), i as int);
            assert(self@.balances =~= pre.balances.update(
                i as int,
                adjusted(pre.balances[i as int], delta as int, tick(pre.clock)),
            ));
            assert(self@ == (StoreModel {
                balances: apply_delta(pre.balances, iban@, delta as int, tick(pre.clock)),
                clock: tick(pre.clock),
                ..pre
            }));
        }
        Ok(snapshot)
    }

    /// The index of the creation record with this command identifier.
    fn find_cac_index(&self, id: &Uuid) -> (r: Option<usize>)
        ensures
            match r {
                Some(i) => i < self@.cacs.len() && self@.cacs[i as int].uuid == id@ && find_cac(
                    self@.cacs,
                    id@,
                ) == Some(self@.cacs[i as int]),
                None => find_cac(self@.cacs, id@) is None,
            },
    {
        let n = self.cacs.len();
        let mut i: usize = 0;
        while i < n
            invariant
                i <= n,
                n == self@.cacs.len(),
                self@.cacs.len() == self.cacs@.len(),
                forall|j: int| 0 <= j < i ==> (#[trigger] self@.cacs[j]).uuid != id@,
            decreases n - i,
        {
            if uuid_eq(&self.cacs[i].uuid, id) {
                proof {
                    lemma_find_cac_skip(self@.cacs, id@, i as int);
                }
                return Some(i);
            }
            i = i + 1;
        }
        proof {
            lemma_find_cac_skip(self@.cacs, id@, i as int);
        }
        None
    }

    /// The index of the transfer record with this command identifier.
    fn find_cmt_index(&self, id: &Uuid) -> (r: Option<usize>)
        ensures
            match r {
                Some(i) => i < self@.cmts.len() && self@.cmts[i as int].uuid == id@ && find_cmt(
                    self@.cmts,
                    id@,
                ) == Some(self@.cmts[i as int]),
                None => find_cmt(self@.cmts, id@) is None,
            },
    {
        let n = self.cmts.len();
        let mut i: usize = 0;
        while i < n
            invariant
                i <= n,
                n == self@.cmts.len(),
                self@.cmts.len() == self.cmts@.len(),
                forall|j: int| 0 <= j < i ==> (#[trigger] self@.cmts[j]).uuid != id@,
            decreases n - i,
        {
            if uuid_eq(&self.cmts[i].uuid, id) {
                proof {
                    lemma_find_cmt_skip(self@.cmts, id@, i as int);
                }
                return Some(i);
            }
            i = i + 1;
        }
        proof {
            lemma_find_cmt_skip(self@.cmts, id@, i as int);
        }
        None
    }

    /// Execute a creation command once: a second delivery of a recorded
    /// command identifier returns the stored record and changes nothing.
    pub fn get_cac(&mut self, id: Uuid, tp: &str) -> (r: Cac)
        requires
            store_wf(old(self)@),
        ensures
            store_wf(final(self)@),
            match find_cac(old(self)@.cacs, id@) {
                Some(rec) => r@ == rec && final(self)@ == old(self)@,
                None => exists|gi: Seq<char>, gt: Seq<char>|
                    {
                        &&& #[trigger] gen_ok(gi, gt)
                        &&& final(self)@ == cac_step(old(self)@, id@, tp@, gi, gt).0
                        &&& r@ == cac_step(old(self)@, id@, tp@, gi, gt).1
                    },
            },
    {
        match self.find_cac_index(&id) {
            Some(i) => self.cacs[i].clone(),
            None => self.create_cac(id, tp),
        }
    }

    /// Generate an identifier, create the ledger row unless the identifier
    /// collides, and record the outcome.
    fn create_cac(&mut self, id: Uuid, tp: &str) -> (r: Cac)
        requires
            store_wf(old(self)@),
            find_cac(old(self)@.cacs, id@) is None,
        ensures
            store_wf(final(self)@),
            exists|gi: Seq<char>, gt: Seq<char>|
                {
                    &&& #[trigger] gen_ok(gi, gt)
                    &&& final(self)@ == cac_step(old(self)@, id@, tp@, gi, gt).0
                    &&& r@ == cac_step(old(self)@, id@, tp@, gi, gt).1
                },
    {
        let iban = new_iban();
        let now = if self.clock < u64::MAX {
            self.clock + 1
        } else {
            self.clock
        };
        let ghost pre = self@;
        if self.find_balance_index(iban.as_str()).is_some() {
            let row = NewCac {
                uuid: id,
                iban: None,
                token: None,
                type_: None,
                reason: Some(String::from_str("generated iban already exists, try again")),
            };
            let rec = Cac {
                uuid: row.uuid,
                iban: row.iban,
                token: row.token,
                type_: row.type_,
                reason: row.reason,
                created_at: now,
            };
            let snapshot = rec.clone();
            self.cacs.push(rec);
            self.clock = now;
            proof {
                let ghost gt = Seq::new(20, |i: int| '0');
                assert(crate::account::is_digit('0'));
                assert(gen_ok(iban@, gt));
                assert(self@.cacs =~= pre.cacs.push(snapshot@));
                assert(self@ =~= cac_step(pre, id@, tp@, iban@, gt).0);
                lemma_find_cac_from_props(pre.cacs, id@, 0);
                assert forall|i: int, j: int| 0 <= i < j < self@.cacs.len() implies (
                #[trigger] self@.cacs[i]).uuid != (#[trigger] self@.cacs[j]).uuid by {
                    if j < pre.cacs.len() {
                        assert(pre.cacs[i].uuid != pre.cacs[j].uuid);
                    }
                }
            }
            snapshot
        } else {
            let token = new_token();
            let row = NewBalance {
                iban: iban.clone(),
                token: token.clone(),
                amount: 0,
                type_: String::from_str(tp),
                lmt: -50000,
            };
            // the identifier was just seen absent, so the insert cannot collide
            let created = self.create_balance(row);
            proof {
                assert(created is Ok);
            }
            let record_row = NewCac {
                uuid: id,
                iban: Some(iban),
                token: Some(token),
                type_: Some(String::from_str(tp)),
                reason: None,
            };
            let rec = Cac {
                uuid: record_row.uuid,
                iban: record_row.iban,
                token: record_row.token,
                type_: record_row.type_,
                reason: record_row.reason,
                created_at: now,
            };
            let snapshot = rec.clone();
            let ghost mid = self@;
            self.cacs.push(rec);
            self.clock = now;
            proof {
                assert(gen_ok(snapshot@.iban->Some_0, snapshot@.token->Some_0));
                assert(self@.cacs =~= pre.cacs.push(snapshot@));
                assert(self@.balances =~= mid.balances);
                assert(self@ =~= cac_step(pre, id@, tp@, iban@, token@).0);
                lemma_find_cac_from_props(pre.cacs, id@, 0);
                assert forall|i: int, j: int| 0 <= i < j < self@.cacs.len() implies (
                #[trigger] self@.cacs[i]).uuid != (#[trigger] self@.cacs[j]).uuid by {
                    if j < pre.cacs.len() {
                        assert(pre.cacs[i].uuid != pre.cacs[j].uuid);
                    }
                }
            }
            snapshot
        }
    }

    /// Append a transfer record stamped `now` and advance the clock to it.
    fn commit_cmt_record(&mut self, row: NewCmt, now: u64) -> (r: Cmt)
        requires
            now as int == tick(old(self)@.clock),
        ensures
            r@ == (CmtModel {
                uuid: row.uuid@,
                reason: opt_str_view(row.reason),
                created_at: now as int,
            }),
            final(self)@ == (StoreModel {
                cmts: old(self)@.cmts.push(r@),
                clock: now as int,
                ..old(self)@
            }),
    {
        let rec = Cmt { uuid: row.uuid, reason: row.reason, created_at: now };
        let snapshot = rec.clone();
        let ghost pre = self@;
        self.cmts.push(rec);
        self.clock = now;
        proof {
            assert(self@.cmts =~= pre.cmts.push(snapshot@));
            assert(self@ =~= (StoreModel { cmts: pre.cmts.push(snapshot@), clock: now as int, ..pre }));
        }
        snapshot
    }

    /// Run the debit and credit of a transfer whose source is usable and
    /// differs from its target, mutating nothing when the credited amount
    /// would leave the machine's range.
    #[verifier::rlimit(60)]
    fn transfer(&mut self, cmt: &ConfirmMoneyTransfer, now: u64) -> (r: Result<
        (Option<&'static str>, Option<Balance>, Option<Balance>),
        LedgerError,
    >)
        requires
            store_wf(old(self)@),
            cmt.amount >= 0,
            usable_source_spec(cmt.from@),
            cmt.from@ != cmt.to@,
            now as int == tick(old(self)@.clock),
        ensures
            match r {
                Ok((reason, b_from, b_to)) => {
                    let step = transfer_step(old(self)@.balances, transfer_view(*cmt), now as int);
                    &&& transfer_fits(old(self)@.balances, transfer_view(*cmt), now as int)
                    &&& (match reason {
                        Some(s) => Some(s@),
                        None => None,
                    }) == step.0
                    &&& opt_balance_view(b_from) == step.1
                    &&& opt_balance_view(b_to) == step.2
                    &&& final(self)@ == (StoreModel { balances: step.3, ..old(self)@ })
                },
                Err(e) => {
                    &&& e == LedgerError::AmountOverflow
                    &&& !transfer_fits(old(self)@.balances, transfer_view(*cmt), now as int)
                    &&& final(self)@ == old(self)@
                },
            },
    {
        let ghost tv = transfer_view(*cmt);
        let ghost s0 = self@.balances;
        let from_valid = valid_open_iban(cmt.from.as_str());
        let mut debit_idx: Option<usize> = None;
        if from_valid {
            match self.find_balance_index(cmt.from.as_str()) {
                Some(i) => {
                    if !str_eq(self.balances[i].token.as_str(), cmt.token.as_str()) {
                        return Ok((Some("invalid token"), None, None));
                    }
                    let wide: i128 = self.balances[i].amount as i128 - cmt.amount as i128;
                    if wide < self.balances[i].lmt as i128 {
                        return Ok((Some("insufficient funds"), None, None));
                    }
                    debit_idx = Some(i);
                },
                None => {
                    // a well-formed source without a row: skipped, not failed
                },
            }
        }
        let mut credit_idx: Option<usize> = None;
        if valid_open_iban(cmt.to.as_str()) {
            credit_idx = self.find_balance_index(cmt.to.as_str());
        }
        match credit_idx {
            Some(j) => {
                let wide: i128 = self.balances[j].amount as i128 + cmt.amount as i128;
                if wide > i64::MAX as i128 {
                    proof {
                        lemma_find_balance_apply_delta(
                            s0,
                            tv.from,
                            -tv.amount,
                            now as int,
                            tv.to,
                            0,
                        );
                    }
                    return Err(LedgerError::AmountOverflow);
                }
            },
            None => {},
        }
        let b_from: Option<Balance>;
        match debit_idx {
            Some(i) => {
                let mut b = self.balances[i].clone();
                b.amount = b.amount - cmt.amount;
                b.updated_at = now;
                let snap = b.clone();
                self.balances.set(i, b);
                b_from = Some(snap);
                proof {
                    lemma_apply_delta_update(s0, tv.from, -tv.amount, now as int, i as int);
                    assert(self@.balances =~= apply_delta(s0, tv.from, -tv.amount, now as int));
                }
            },
            None => {
                b_from = None;
            },
        }
        let ghost s1 = debit_step(s0, tv, now as int).2;
        proof {
            assert(self@.balances =~= s1);
        }
        let b_to: Option<Balance>;
        match credit_idx {
            Some(j) => {
                proof {
                    lemma_find_balance_apply_delta(s0, tv.from, -tv.amount, now as int, tv.to, 0);
                    assert(find_balance(s1, tv.to) == Some(s0[j as int]));
                    assert(forall|k: int| 0 <= k < s1.len() ==> (#[trigger] s1[k]).iban == s0[k].iban);
                    assert(unique_ibans(s1));
                    assert(s1[j as int] == s0[j as int]);
                }
                let mut b = self.balances[j].clone();
                b.amount = b.amount + cmt.amount;
                b.updated_at = now;
                let snap = b.clone();
                self.balances.set(j, b);
                b_to = Some(snap);
                proof {
                    lemma_apply_delta_update(s1, tv.to, tv.amount, now as int, j as int);
                    assert(self@.balances =~= apply_delta(s1, tv.to, tv.amount, now as int));
                }
            },
            None => {
                b_to = None;
            },
        }
        proof {
            lemma_find_balance_apply_delta(s0, tv.from, -tv.amount, now as int, tv.to, 0);
            let step = transfer_step(s0, tv, now as int);
            assert(self@.balances =~= step.3);
            assert(self@ =~= (StoreModel { balances: step.3, ..old(self)@ }));
        }
        Ok((None, b_from, b_to))
    }

    /// Validate and run a transfer that has no record yet, and record its
    /// outcome. Nothing is recorded or mutated when the credited amount
    /// would leave the machine's range.
    fn create_cmt(&mut self, id: Uuid, cmt: &ConfirmMoneyTransfer) -> (r: Result<
        (Cmt, Option<Balance>, Option<Balance>),
        LedgerError,
    >)
        requires
            store_wf(old(self)@),
            cmt.amount >= 0,
            find_cmt(old(self)@.cmts, id@) is None,
        ensures
            store_wf(final(self)@),
            match r {
                Ok((rec, b_from, b_to)) => {
                    let step = cmt_step(old(self)@, id@, transfer_view(*cmt));
                    &&& cmt_fits(old(self)@, id@, transfer_view(*cmt))
                    &&& final(self)@ == step.0
                    &&& rec@ == step.1
                    &&& opt_balance_view(b_from) == step.2
                    &&& opt_balance_view(b_to) == step.3
                },
                Err(e) => {
                    &&& e == LedgerError::AmountOverflow
                    &&& !cmt_fits(old(self)@, id@, transfer_view(*cmt))
                    &&& final(self)@ == old(self)@
                },
            },
    {
        let ghost pre = self@;
        let ghost tv = transfer_view(*cmt);
        let now = if self.clock < u64::MAX {
            self.clock + 1
        } else {
            self.clock
        };
        if invalid_from(cmt.from.as_str()) {
            let rec = self.commit_cmt_record(
                NewCmt { uuid: id, reason: Some(String::from_str("from is invalid")) },
                now,
            );
            proof {
                assert(self@ =~= cmt_step(pre, id@, tv).0);
                lemma_commit_preserves_wf(pre, self@, rec@, id@);
            }
            return Ok((rec, None, None));
        }
        if str_eq(cmt.from.as_str(), cmt.to.as_str()) {
            let rec = self.commit_cmt_record(
                NewCmt {
                    uuid: id,
                    reason: Some(String::from_str("from and to can't be same for transfer")),
                },
                now,
            );
            proof {
                assert(self@ =~= cmt_step(pre, id@, tv).0);
                lemma_commit_preserves_wf(pre, self@, rec@, id@);
            }
            return Ok((rec, None, None));
        }
        let (reason, b_from, b_to) = match self.transfer(cmt, now) {
            Ok(t) => t,
            Err(e) => {
                return Err(e);
            },
        };
        let reason_string = match reason {
            Some(s) => Some(String::from_str(s)),
            None => None,
        };
        let ghost mid = self@;
        let rec = self.commit_cmt_record(NewCmt { uuid: id, reason: reason_string }, now);
        proof {
            let step = cmt_step(pre, id@, tv);
            assert(self@ =~= step.0);
            lemma_transfer_step_wf(pre.balances, tv, now as int);
            lemma_commit_preserves_wf(pre, self@, rec@, id@);
        }
        Ok((rec, b_from, b_to))
    }

    /// Execute a transfer command once: a second delivery of a recorded
    /// command identifier returns the stored record, mutates no balance and
    /// reports no snapshots.
    pub fn get_cmt(&mut self, id: Uuid, cmt: &ConfirmMoneyTransfer) -> (r: Result<
        (Cmt, Option<Balance>, Option<Balance>),
        LedgerError,
    >)
        requires
            store_wf(old(self)@),
            cmt.amount >= 0,
        ensures
            store_wf(final(self)@),
            match r {
                Ok((rec, b_from, b_to)) => {
                    let step = cmt_step(old(self)@, id@, transfer_view(*cmt));
                    &&& cmt_fits(old(self)@, id@, transfer_view(*cmt))
                    &&& final(self)@ == step.0
                    &&& rec@ == step.1
                    &&& opt_balance_view(b_from) == step.2
                    &&& opt_balance_view(b_to) == step.3
                },
                Err(e) => {
                    &&& e == LedgerError::AmountOverflow
                    &&& !cmt_fits(old(self)@, id@, transfer_view(*cmt))
                    &&& final(self)@ == old(self)@
                },
            },
    {
        match self.find_cmt_index(&id) {
            Some(i) => Ok((self.cmts[i].clone(), None, None)),
            None => self.create_cmt(id, cmt),
        }
    }
}

} // verus!
