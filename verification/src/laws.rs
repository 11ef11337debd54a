//! The global guarantees of the command engine, proved of the model
//! transitions themselves: idempotency of both command types, preservation
//! of the overdraft invariant over any sequence of transfers, and
//! conservation of the transferred amount.

use vstd::prelude::*;

use crate::account::valid_open_iban_spec;
use crate::store::BalanceModel;
use crate::store::StoreModel;
use crate::store::TransferModel;
use crate::store::adjusted;
use crate::store::cac_step;
use crate::store::cmt_fits;
use crate::store::cmt_step;
use crate::store::find_balance;
use crate::store::find_cac;
use crate::store::find_cmt;
use crate::store::lemma_commit_preserves_wf;
use crate::store::lemma_find_balance_apply_delta;
use crate::store::lemma_find_cac_push;
use crate::store::lemma_find_cmt_push;
use crate::store::lemma_find_cac_from_props;
use crate::store::lemma_transfer_step_wf;
use crate::store::overdraft_ok;
use crate::store::store_wf;
use crate::store::tick;
use crate::store::transfer_step;
use crate::store::unique_ibans;

verus! {

/// Idempotency of account creation: once a creation command has executed,
/// executing the same command identifier again — with whatever identifier
/// and token the generator happens to draw — returns the very record the
/// first execution stored and changes nothing.
pub proof fn lemma_creation_idempotent(
    m: StoreModel,
    id: Seq<u8>,
    tp: Seq<char>,
    gi1: Seq<char>,
    gt1: Seq<char>,
    gi2: Seq<char>,
    gt2: Seq<char>,
)
    ensures
        ({
            let (m1, r1) = cac_step(m, id, tp, gi1, gt1);
            let (m2, r2) = cac_step(m1, id, tp, gi2, gt2);
            m2 == m1 && r2 == r1
        }),
{
    let (m1, r1) = cac_step(m, id, tp, gi1, gt1);
    match find_cac(m.cacs, id) {
        Some(rec) => {},
        None => {
            lemma_find_cac_push(m.cacs, r1, id, 0);
            assert(find_cac(m1.cacs, id) == Some(r1));
        },
    }
}

/// Idempotency of transfers: once a transfer command has executed,
/// executing the same command identifier again returns the very record the
/// first execution stored, mutates no balance, and reports no snapshots.
pub proof fn lemma_transfer_idempotent(m: StoreModel, id: Seq<u8>, c: TransferModel)
    ensures
        ({
            let (m1, r1, _, _) = cmt_step(m, id, c);
            let (m2, r2, bf2, bt2) = cmt_step(m1, id, c);
            m2 == m1 && r2 == r1 && bf2 is None && bt2 is None
        }),
{
    let (m1, r1, _, _) = cmt_step(m, id, c);
    match find_cmt(m.cmts, id) {
        Some(rec) => {},
        None => {
            lemma_find_cmt_push(m.cmts, r1, id, 0);
            assert(find_cmt(m1.cmts, id) == Some(r1));
        },
    }
}

/// One transfer execution that fits the machine keeps the store well
/// formed; in particular every committed balance still respects its
/// overdraft limit.
pub proof fn lemma_transfer_preserves_overdraft(m: StoreModel, id: Seq<u8>, c: TransferModel)
    requires
        store_wf(m),
        c.amount >= 0,
        cmt_fits(m, id, c),
    ensures
        store_wf(cmt_step(m, id, c).0),
        overdraft_ok(cmt_step(m, id, c).0.balances),
{
    let (m1, rec, bf, bt) = cmt_step(m, id, c);
    match find_cmt(m.cmts, id) {
        Some(_) => {},
        None => {
            let now = tick(m.clock);
            if !crate::account::usable_source_spec(c.from) || c.from == c.to {
                lemma_commit_preserves_wf(m, m1, rec, id);
            } else {
                lemma_transfer_step_wf(m.balances, c, now);
                lemma_commit_preserves_wf(m, m1, rec, id);
            }
        },
    }
}

/// Creation preserves the store's well-formedness, whatever identifier and
/// token were drawn — in particular the fresh row starts at zero, within
/// its overdraft limit.
pub proof fn lemma_creation_preserves_wf(
    m: StoreModel,
    id: Seq<u8>,
    tp: Seq<char>,
    gi: Seq<char>,
    gt: Seq<char>,
)
    requires
        store_wf(m),
    ensures
        store_wf(cac_step(m, id, tp, gi, gt).0),
{
    let (m1, rec) = cac_step(m, id, tp, gi, gt);
    match find_cac(m.cacs, id) {
        Some(_) => {},
        None => {
            let now = tick(m.clock);
            lemma_find_cac_from_props(m.cacs, id, 0);
            assert forall|i: int, j: int| 0 <= i < j < m1.cacs.len() implies (
            #[trigger] m1.cacs[i]).uuid != (#[trigger] m1.cacs[j]).uuid by {
                if j < m.cacs.len() {
                    assert(m.cacs[i].uuid != m.cacs[j].uuid);
                }
            }
            if find_balance(m.balances, gi) is None {
                crate::store::lemma_find_balance_from_props(m.balances, gi, 0);
                assert forall|i: int, j: int| 0 <= i < j < m1.balances.len() implies (
                #[trigger] m1.balances[i]).iban != (#[trigger] m1.balances[j]).iban by {
                    if j < m.balances.len() {
                        assert(m.balances[i].iban != m.balances[j].iban);
                    }
                }
            }
        },
    }
}

/// A batch of transfer commands: each is executed in turn when it is
/// non-negative and fits the machine, and is refused without effect
/// otherwise.
pub open spec fn run_transfers(m: StoreModel, cmds: Seq<(Seq<u8>, TransferModel)>) -> StoreModel
    decreases cmds.len(),
{
    if cmds.len() == 0 {
        m
    } else {
        let m1 = if cmds[0].1.amount >= 0 && cmt_fits(m, cmds[0].0, cmds[0].1) {
            cmt_step(m, cmds[0].0, cmds[0].1).0
        } else {
            m
        };
        run_transfers(m1, cmds.drop_first())
    }
}

/// The overdraft invariant over whole histories: after any sequence of
/// transfer commands against a well-formed store, every committed balance
/// still respects its overdraft limit.
pub proof fn lemma_overdraft_all_transfers(m: StoreModel, cmds: Seq<(Seq<u8>, TransferModel)>)
    requires
        store_wf(m),
    ensures
        store_wf(run_transfers(m, cmds)),
        overdraft_ok(run_transfers(m, cmds).balances),
    decreases cmds.len(),
{
    if cmds.len() > 0 {
        let m1 = if cmds[0].1.amount >= 0 && cmt_fits(m, cmds[0].0, cmds[0].1) {
            cmt_step(m, cmds[0].0, cmds[0].1).0
        } else {
            m
        };
        if cmds[0].1.amount >= 0 && cmt_fits(m, cmds[0].0, cmds[0].1) {
            lemma_transfer_preserves_overdraft(m, cmds[0].0, cmds[0].1);
        }
        lemma_overdraft_all_transfers(m1, cmds.drop_first());
    }
}

/// Conservation: a fresh transfer between two distinct, well-formed,
/// existing accounts, with the right token and sufficient funds, succeeds
/// and moves exactly the commanded amount — the target gains what the
/// source loses.
pub proof fn lemma_transfer_conservation(m: StoreModel, id: Seq<u8>, c: TransferModel)
    requires
        store_wf(m),
        c.amount >= 0,
        find_cmt(m.cmts, id) is None,
        valid_open_iban_spec(c.from),
        valid_open_iban_spec(c.to),
        c.from != c.to,
        match find_balance(m.balances, c.from) {
            Some(bf) => bf.token == c.token && bf.amount - c.amount >= bf.lmt,
            None => false,
        },
        find_balance(m.balances, c.to) is Some,
        cmt_fits(m, id, c),
    ensures
        ({
            let bf0 = find_balance(m.balances, c.from)->Some_0;
            let bt0 = find_balance(m.balances, c.to)->Some_0;
            let (m1, rec, obf, obt) = cmt_step(m, id, c);
            &&& rec.reason is None
            &&& obf == Some(adjusted(bf0, -c.amount, tick(m.clock)))
            &&& obt == Some(adjusted(bt0, c.amount, tick(m.clock)))
            &&& obt->Some_0.amount - bt0.amount == c.amount
            &&& bt0.amount - obt->Some_0.amount == obf->Some_0.amount - bf0.amount
            &&& find_balance(m1.balances, c.from) == obf
            &&& find_balance(m1.balances, c.to) == obt
        }),
{
    let now = tick(m.clock);
    let bf0 = find_balance(m.balances, c.from)->Some_0;
    let bt0 = find_balance(m.balances, c.to)->Some_0;
    let (reason, obf, s1) = crate::store::debit_step(m.balances, c, now);
    assert(reason is None);
    lemma_find_balance_apply_delta(m.balances, c.from, -c.amount, now, c.to, 0);
    assert(find_balance(s1, c.to) == Some(bt0));
    let (obt, s2) = crate::store::credit_step(s1, c, now);
    lemma_find_balance_apply_delta(s1, c.to, c.amount, now, c.from, 0);
    lemma_find_balance_apply_delta(s1, c.to, c.amount, now, c.to, 0);
    lemma_find_balance_apply_delta(m.balances, c.from, -c.amount, now, c.from, 0);
    assert(find_balance(s1, c.from) == Some(adjusted(bf0, -c.amount, now)));
    assert(find_balance(s2, c.from) == Some(adjusted(bf0, -c.amount, now)));
    assert(find_balance(s2, c.to) == Some(adjusted(bt0, c.amount, now)));
}

} // verus!
