//! From inbound commands to outbound events: each handler executes its
//! command against the store exactly once per command identifier and maps
//! the recorded outcome to the feedback event, plus one side-effect event
//! per ledger row actually mutated.

use vstd::prelude::*;
use vstd::string::StringExecFns;

use crate::events::AccountCreationConfirmed;
use crate::events::AccountCreationFailed;
use crate::events::Atype;
use crate::events::AvroData;
use crate::events::BalanceChanged;
use crate::events::ConfirmAccountCreation;
use crate::events::ConfirmMoneyTransfer;
use crate::events::MoneyTransferConfirmed;
use crate::events::MoneyTransferFailed;
use crate::store::Balance;
use crate::store::BalanceModel;
use crate::store::CacModel;
use crate::store::CmtModel;
use crate::store::LedgerError;
use crate::store::Store;
use crate::store::cac_step;
use crate::store::cmt_fits;
use crate::store::cmt_step;
use crate::store::find_cac;
use crate::store::gen_ok;
use crate::store::store_wf;
use crate::store::transfer_view;

verus! {

/// One outbound message: the topic, the partition key, and the payload.
pub struct ProducerData {
    pub topic: &'static str,
    pub key: String,
    pub value: AvroData,
}

/// A consumer of decoded inbound messages; the transport drives it with one
/// call per message.
pub trait Processor {
    fn process(&mut self, key: String, value: AvroData);
}

/// The string form of an account kind.
pub open spec fn atype_str(a: Atype) -> Seq<char> {
    match a {
        Atype::Auto => "AUTO"@,
        Atype::Manual => "MANUAL"@,
    }
}

/// A sequence from an optional one, or empty.
pub open spec fn opt_or_empty(o: Option<Seq<char>>) -> Seq<char> {
    match o {
        Some(s) => s,
        None => Seq::<char>::empty(),
    }
}

/// The feedback event a creation record maps to: success carries the new
/// account's coordinates, failure carries the reason; both carry the
/// command's identifier.
pub open spec fn cac_event_ok(input: ConfirmAccountCreation, rec: CacModel, value: AvroData) -> bool {
    match rec.reason {
        None => match value {
            AvroData::ACC(acc) => {
                &&& acc.id@ == input.id@
                &&& acc.iban@ == opt_or_empty(rec.iban)
                &&& acc.token@ == opt_or_empty(rec.token)
                &&& acc.a_type == input.a_type
            },
            _ => false,
        },
        Some(reason) => match value {
            AvroData::ACF(acf) => acf.id@ == input.id@ && acf.reason@ == reason,
            _ => false,
        },
    }
}

/// The feedback event a transfer record maps to.
pub open spec fn cmt_event_ok(input: ConfirmMoneyTransfer, rec: CmtModel, value: AvroData) -> bool {
    match rec.reason {
        None => match value {
            AvroData::MTC(m) => m.id@ == input.id@,
            _ => false,
        },
        Some(reason) => match value {
            AvroData::MTF(m) => m.id@ == input.id@ && m.reason@ == reason,
            _ => false,
        },
    }
}

/// The side-effect event a mutated row maps to: keyed by the row's
/// identifier, carrying the post-mutation amount, the signed change, and the
/// counterparty (the target for the debited side, the source for the
/// credited side).
pub open spec fn bc_event_ok(
    is_from: bool,
    cmt: ConfirmMoneyTransfer,
    b: BalanceModel,
    pd: ProducerData,
) -> bool {
    &&& pd.topic@ == "balance_changed"@
    &&& pd.key@ == b.iban
    &&& match pd.value {
        AvroData::BC(bc) => {
            &&& bc.iban@ == b.iban
            &&& bc.new_balance as int == b.amount
            &&& bc.changed_by as int == (if is_from {
                -(cmt.amount as int)
            } else {
                cmt.amount as int
            })
            &&& bc.from_to@ == (if is_from {
                cmt.to@
            } else {
                cmt.from@
            })
            &&& bc.description@ == cmt.description@
        },
        _ => false,
    }
}

/// Build the side-effect event for one mutated row.
pub fn send_bc(is_from: bool, cmt: &ConfirmMoneyTransfer, balance: Balance) -> (r: ProducerData)
    requires
        cmt.amount >= 0,
    ensures
        bc_event_ok(is_from, *cmt, balance@, r),
{
    let changed_by = if is_from {
        -cmt.amount
    } else {
        cmt.amount
    };
    let from_to = if is_from {
        cmt.to.clone()
    } else {
        cmt.from.clone()
    };
    let value = AvroData::BC(
        BalanceChanged {
            iban: balance.iban.clone(),
            new_balance: balance.amount,
            changed_by,
            from_to,
            description: cmt.description.clone(),
        },
    );
    ProducerData { topic: "balance_changed", key: balance.iban, value }
}

/// Handle a creation command: execute it against the store exactly once per
/// command identifier and return the feedback event for its recorded
/// outcome.
pub fn handle_cac(key: String, input: &ConfirmAccountCreation, store: &mut Store) -> (r:
    ProducerData)
    requires
        store_wf(old(store)@),
    ensures
        store_wf(final(store)@),
        r.topic@ == "account_creation_feedback"@,
        r.key@ == key@,
        match find_cac(old(store)@.cacs, input.id@) {
            Some(rec) => final(store)@ == old(store)@ && cac_event_ok(*input, rec, r.value),
            None => exists|gi: Seq<char>, gt: Seq<char>|
                {
                    &&& #[trigger] gen_ok(gi, gt)
                    &&& final(store)@ == cac_step(
                        old(store)@,
                        input.id@,
                        atype_str(input.a_type),
                        gi,
                        gt,
                    ).0
                    &&& cac_event_ok(
                        *input,
                        cac_step(old(store)@, input.id@, atype_str(input.a_type), gi, gt).1,
                        r.value,
                    )
                },
        },
{
    let tp: &str = match input.a_type {
        Atype::Auto => "AUTO",
        Atype::Manual => "MANUAL",
    };
    let cac = store.get_cac(input.id, tp);
    let value = match cac.reason {
        None => AvroData::ACC(
            AccountCreationConfirmed {
                id: input.id,
                iban: match cac.iban {
                    Some(s) => s,
                    None => String::new(),
                },
                token: match cac.token {
                    Some(s) => s,
                    None => String::new(),
                },
                a_type: input.a_type,
            },
        ),
        Some(v) => AvroData::ACF(AccountCreationFailed { id: input.id, reason: v }),
    };
    ProducerData { topic: "account_creation_feedback", key, value }
}

/// Handle a transfer command: execute it against the store exactly once per
/// command identifier and return, in order, the feedback event for its
/// recorded outcome and one side-effect event per row actually mutated —
/// none on replay, on a validation failure, or for a side without a row.
pub fn handle_cmt(key: String, input: &ConfirmMoneyTransfer, store: &mut Store) -> (r: Result<
    Vec<ProducerData>,
    LedgerError,
>)
    requires
        store_wf(old(store)@),
        input.amount >= 0,
    ensures
        store_wf(final(store)@),
        match r {
            Ok(events) => {
                let step = cmt_step(old(store)@, input.id@, transfer_view(*input));
                &&& cmt_fits(old(store)@, input.id@, transfer_view(*input))
                &&& final(store)@ == step.0
                &&& events@.len() == 1 + (if step.2 is Some {
                    1int
                } else {
                    0int
                }) + (if step.3 is Some {
                    1int
                } else {
                    0int
                })
                &&& events@[0].topic@ == "money_transfer_feedback"@
                &&& events@[0].key@ == key@
                &&& cmt_event_ok(*input, step.1, events@[0].value)
                &&& match step.2 {
                    Some(b) => bc_event_ok(true, *input, b, events@[1]),
                    None => true,
                }
                &&& match step.3 {
                    Some(b) => bc_event_ok(false, *input, b, events@[events@.len() - 1]),
                    None => true,
                }
            },
            Err(e) => {
                &&& e == LedgerError::AmountOverflow
                &&& !cmt_fits(old(store)@, input.id@, transfer_view(*input))
                &&& final(store)@ == old(store)@
            },
        },
{
    let (cmt_rec, b_from, b_to) = match store.get_cmt(input.id, input) {
        Ok(t) => t,
        Err(e) => {
            return Err(e);
        },
    };
    let value = match cmt_rec.reason {
        None => AvroData::MTC(MoneyTransferConfirmed { id: input.id }),
        Some(v) => AvroData::MTF(MoneyTransferFailed { id: input.id, reason: v }),
    };
    let mut events: Vec<ProducerData> = Vec::new();
    events.push(ProducerData { topic: "money_transfer_feedback", key, value });
    match b_from {
        Some(v) => events.push(send_bc(true, input, v)),
        None => {},
    }
    match b_to {
        Some(v) => events.push(send_bc(false, input, v)),
        None => {},
    }
    Ok(events)
}

/// Drain the outbound queue, returning its contents in emission order; the
/// caller publishes each element to the bus in turn.
pub fn send_loop(queue: &mut Vec<ProducerData>) -> (r: Vec<ProducerData>)
    ensures
        r@ == old(queue)@,
        final(queue)@.len() == 0,
{
    let mut out: Vec<ProducerData> = Vec::new();
    while queue.len() > 0
        invariant
            out@ + queue@ == old(queue)@,
        decreases queue@.len(),
    {
        let first = queue.remove(0);
        out.push(first);
        proof {
            assert(out@ + queue@ =~= old(queue)@);
        }
    }
    proof {
        assert(out@ =~= old(queue)@);
    }
    out
}

} // verus!
