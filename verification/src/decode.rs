//! Mapping decoded, schema-tagged generic values to typed command and event
//! payloads. The transport hands the handler a schema name and a generic
//! record; anything malformed or unknown maps to `None` and is dropped by the
//! caller rather than crashing it.

use vstd::prelude::*;
use vstd::string::StrSliceExecFns;

use crate::events::AccountCreationConfirmed;
use crate::events::AccountCreationFailed;
use crate::events::Atype;
use crate::events::AvroData;
use crate::events::BalanceChanged;
use crate::events::ConfirmAccountCreation;
use crate::events::ConfirmMoneyTransfer;
use crate::events::MoneyTransferConfirmed;
use crate::events::MoneyTransferFailed;
use crate::events::Uuid;
use crate::events::zero_uuid;

verus! {

/// A decoded generic value, as the wire decoder delivers it: only the shapes
/// the command schemas use are distinguished; everything else is `Other`.
#[derive(Debug)]
pub enum AvroValue {
    /// A record: named fields in schema order.
    Record(Vec<(String, AvroValue)>),
    /// A string value.
    Str(String),
    /// A 64-bit integer value.
    Long(i64),
    /// A fixed-size byte value.
    Fixed(Vec<u8>),
    /// An enum symbol: position and name.
    Symbol(i32, String),
    /// Any other shape; never matches a command field.
    Other,
}

/// A decoded schema name: the bare name and its namespace, if any.
#[derive(Debug)]
pub struct AvroName {
    pub name: String,
    pub namespace: Option<String>,
}

/// The identifier a field decodes to: the first 16 bytes of a fixed value of
/// at least that size, or the all-zero identifier.
pub open spec fn spec_uuid_of(v: AvroValue) -> Seq<u8> {
    match v {
        AvroValue::Fixed(b) => {
            if b@.len() >= 16 {
                b@.take(16)
            } else {
                zero_uuid()
            }
        },
        _ => zero_uuid(),
    }
}

/// The string a field decodes to: its value, or empty.
pub open spec fn spec_str_of(v: AvroValue) -> Seq<char> {
    match v {
        AvroValue::Str(s) => s@,
        _ => Seq::<char>::empty(),
    }
}

/// The integer a field decodes to: its value, or zero.
pub open spec fn spec_long_of(v: AvroValue) -> i64 {
    match v {
        AvroValue::Long(x) => x,
        _ => 0,
    }
}

/// The account kind a field decodes to: the symbol in position one is
/// `Manual`; everything else is `Auto`.
pub open spec fn spec_atype_of(v: AvroValue) -> Atype {
    match v {
        AvroValue::Symbol(i, _) => {
            if i == 1 {
                Atype::Manual
            } else {
                Atype::Auto
            }
        },
        _ => Atype::Auto,
    }
}

/// Compare two strings character by character.
pub fn str_eq(a: &str, b: &str) -> (r: bool)
    ensures
        r == (a@ == b@),
{
    let alen = a.unicode_len();
    if alen != b.unicode_len() {
        return false;
    }
    let mut i: usize = 0;
    while i < alen
        invariant
            i <= alen,
            alen == a@.len(),
            alen == b@.len(),
            forall|j: int| 0 <= j < i ==> a@[j] == b@[j],
        decreases alen - i,
    {
        if a.get_char(i) != b.get_char(i) {
            return false;
        }
        i = i + 1;
    }
    proof {
        assert(a@ =~= b@);
    }
    true
}

/// The first 16 bytes of a decoded identifier field.
pub fn to_uuid(bytes: &[u8]) -> (r: Uuid)
    requires
        bytes@.len() >= 16,
    ensures
        r@ =~= bytes@.take(16),
{
    let mut arr: Uuid = [0u8; 16];
    let mut i: usize = 0;
    while i < 16
        invariant
            i <= 16,
            bytes@.len() >= 16,
            forall|j: int| 0 <= j < i ==> arr@[j] == bytes@[j],
        decreases 16 - i,
    {
        arr.set(i, bytes[i]);
        i = i + 1;
    }
    arr
}

/// Decode an identifier field.
fn uuid_field(v: &AvroValue) -> (r: Uuid)
    ensures
        r@ =~= spec_uuid_of(*v),
{
    match v {
        AvroValue::Fixed(b) => {
            if b.len() >= 16 {
                to_uuid(b.as_slice())
            } else {
                [0u8; 16]
            }
        },
        _ => [0u8; 16],
    }
}

/// Decode a string field.
fn str_field(v: &AvroValue) -> (r: String)
    ensures
        r@ == spec_str_of(*v),
{
    match v {
        AvroValue::Str(s) => s.clone(),
        _ => String::new(),
    }
}

/// Decode an integer field.
fn long_field(v: &AvroValue) -> (r: i64)
    ensures
        r == spec_long_of(*v),
{
    match v {
        AvroValue::Long(x) => *x,
        _ => 0,
    }
}

/// Decode an account-kind field.
fn atype_field(v: &AvroValue) -> (r: Atype)
    ensures
        r == spec_atype_of(*v),
{
    match v {
        AvroValue::Symbol(i, _) => {
            if *i == 1 {
                Atype::Manual
            } else {
                Atype::Auto
            }
        },
        _ => Atype::Auto,
    }
}

/// What decoding a creation command yields: a record of at least two fields
/// (identifier, kind) decodes; anything else is dropped.
pub open spec fn cac_decode(value: AvroValue, r: Option<AvroData>) -> bool {
    match value {
        AvroValue::Record(values) => {
            if values@.len() >= 2 {
                match r {
                    Some(AvroData::CAC(c)) => c.id@ == spec_uuid_of(values@[0].1) && c.a_type
                        == spec_atype_of(values@[1].1),
                    _ => false,
                }
            } else {
                r is None
            }
        },
        _ => r is None,
    }
}

/// Decode a creation command record.
pub fn to_cac(value: &AvroValue) -> (r: Option<AvroData>)
    ensures
        cac_decode(*value, r),
{
    match value {
        AvroValue::Record(values) => {
            if values.len() < 2 {
                return None;
            }
            let id = uuid_field(&values[0].1);
            let a_type = atype_field(&values[1].1);
            Some(AvroData::CAC(ConfirmAccountCreation { id, a_type }))
        },
        _ => None,
    }
}

/// What decoding a creation-confirmed event yields.
pub open spec fn acc_decode(value: AvroValue, r: Option<AvroData>) -> bool {
    match value {
        AvroValue::Record(values) => {
            if values@.len() >= 4 {
                match r {
                    Some(AvroData::ACC(c)) => c.id@ == spec_uuid_of(values@[0].1) && c.iban@
                        == spec_str_of(values@[1].1) && c.token@ == spec_str_of(values@[2].1)
                        && c.a_type == spec_atype_of(values@[3].1),
                    _ => false,
                }
            } else {
                r is None
            }
        },
        _ => r is None,
    }
}

/// Decode a creation-confirmed event record.
pub fn to_acc(value: &AvroValue) -> (r: Option<AvroData>)
    ensures
        acc_decode(*value, r),
{
    match value {
        AvroValue::Record(values) => {
            if values.len() < 4 {
                return None;
            }
            let id = uuid_field(&values[0].1);
            let iban = str_field(&values[1].1);
            let token = str_field(&values[2].1);
            let a_type = atype_field(&values[3].1);
            Some(AvroData::ACC(AccountCreationConfirmed { id, iban, token, a_type }))
        },
        _ => None,
    }
}

/// What decoding a creation-failed event yields.
pub open spec fn acf_decode(value: AvroValue, r: Option<AvroData>) -> bool {
    match value {
        AvroValue::Record(values) => {
            if values@.len() >= 2 {
                match r {
                    Some(AvroData::ACF(c)) => c.id@ == spec_uuid_of(values@[0].1) && c.reason@
                        == spec_str_of(values@[1].1),
                    _ => false,
                }
            } else {
                r is None
            }
        },
        _ => r is None,
    }
}

/// Decode a creation-failed event record.
pub fn to_acf(value: &AvroValue) -> (r: Option<AvroData>)
    ensures
        acf_decode(*value, r),
{
    match value {
        AvroValue::Record(values) => {
            if values.len() < 2 {
                return None;
            }
            let id = uuid_field(&values[0].1);
            let reason = str_field(&values[1].1);
            Some(AvroData::ACF(AccountCreationFailed { id, reason }))
        },
        _ => None,
    }
}

/// What decoding a transfer command yields: identifier, token, amount,
/// source, target and description, in schema order.
pub open spec fn cmt_decode(value: AvroValue, r: Option<AvroData>) -> bool {
    match value {
        AvroValue::Record(values) => {
            if values@.len() >= 6 {
                match r {
                    Some(AvroData::CMT(c)) => c.id@ == spec_uuid_of(values@[0].1) && c.token@
                        == spec_str_of(values@[1].1) && c.amount == spec_long_of(values@[2].1)
                        && c.from@ == spec_str_of(values@[3].1) && c.to@ == spec_str_of(
                        values@[4].1,
                    ) && c.description@ == spec_str_of(values@[5].1),
                    _ => false,
                }
            } else {
                r is None
            }
        },
        _ => r is None,
    }
}

/// Decode a transfer command record.
pub fn to_cmt(value: &AvroValue) -> (r: Option<AvroData>)
    ensures
        cmt_decode(*value, r),
{
    match value {
        AvroValue::Record(values) => {
            if values.len() < 6 {
                return None;
            }
            let id = uuid_field(&values[0].1);
            let token = str_field(&values[1].1);
            let amount = long_field(&values[2].1);
            let from = str_field(&values[3].1);
            let to = str_field(&values[4].1);
            let description = str_field(&values[5].1);
            Some(AvroData::CMT(ConfirmMoneyTransfer { id, token, amount, from, to, description }))
        },
        _ => None,
    }
}

/// What decoding a transfer-confirmed event yields.
pub open spec fn mtc_decode(value: AvroValue, r: Option<AvroData>) -> bool {
    match value {
        AvroValue::Record(values) => {
            if values@.len() >= 1 {
                match r {
                    Some(AvroData::MTC(c)) => c.id@ == spec_uuid_of(values@[0].1),
                    _ => false,
                }
            } else {
                r is None
            }
        },
        _ => r is None,
    }
}

/// Decode a transfer-confirmed event record.
pub fn to_mtc(value: &AvroValue) -> (r: Option<AvroData>)
    ensures
        mtc_decode(*value, r),
{
    match value {
        AvroValue::Record(values) => {
            if values.len() < 1 {
                return None;
            }
            let id = uuid_field(&values[0].1);
            Some(AvroData::MTC(MoneyTransferConfirmed { id }))
        },
        _ => None,
    }
}

/// What decoding a transfer-failed event yields.
pub open spec fn mtf_decode(value: AvroValue, r: Option<AvroData>) -> bool {
    match value {
        AvroValue::Record(values) => {
            if values@.len() >= 2 {
                match r {
                    Some(AvroData::MTF(c)) => c.id@ == spec_uuid_of(values@[0].1) && c.reason@
                        == spec_str_of(values@[1].1),
                    _ => false,
                }
            } else {
                r is None
            }
        },
        _ => r is None,
    }
}

/// Decode a transfer-failed event record.
pub fn to_mtf(value: &AvroValue) -> (r: Option<AvroData>)
    ensures
        mtf_decode(*value, r),
{
    match value {
        AvroValue::Record(values) => {
            if values.len() < 2 {
                return None;
            }
            let id = uuid_field(&values[0].1);
            let reason = str_field(&values[1].1);
            Some(AvroData::MTF(MoneyTransferFailed { id, reason }))
        },
        _ => None,
    }
}

/// What decoding a balance-changed event yields.
pub open spec fn bc_decode(value: AvroValue, r: Option<AvroData>) -> bool {
    match value {
        AvroValue::Record(values) => {
            if values@.len() >= 5 {
                match r {
                    Some(AvroData::BC(c)) => c.iban@ == spec_str_of(values@[0].1) && c.new_balance
                        == spec_long_of(values@[1].1) && c.changed_by == spec_long_of(
                        values@[2].1,
                    ) && c.from_to@ == spec_str_of(values@[3].1) && c.description@ == spec_str_of(
                        values@[4].1,
                    ),
                    _ => false,
                }
            } else {
                r is None
            }
        },
        _ => r is None,
    }
}

/// Decode a balance-changed event record.
pub fn to_bc(value: &AvroValue) -> (r: Option<AvroData>)
    ensures
        bc_decode(*value, r),
{
    match value {
        AvroValue::Record(values) => {
            if values.len() < 5 {
                return None;
            }
            let iban = str_field(&values[0].1);
            let new_balance = long_field(&values[1].1);
            let changed_by = long_field(&values[2].1);
            let from_to = str_field(&values[3].1);
            let description = str_field(&values[4].1);
            Some(AvroData::BC(BalanceChanged { iban, new_balance, changed_by, from_to, description }))
        },
        _ => None,
    }
}

/// What dispatching on a schema name yields, given the decoded record.
pub open spec fn avro_data_decode(name: AvroName, value: AvroValue, r: Option<AvroData>) -> bool {
    match name.namespace {
        Some(ns) => {
            if ns@ == "nl.openweb.data"@ {
                if name.name@ == "ConfirmAccountCreation"@ {
                    cac_decode(value, r)
                } else if name.name@ == "AccountCreationConfirmed"@ {
                    acc_decode(value, r)
                } else if name.name@ == "AccountCreationFailed"@ {
                    acf_decode(value, r)
                } else if name.name@ == "ConfirmMoneyTransfer"@ {
                    cmt_decode(value, r)
                } else if name.name@ == "MoneyTransferConfirmed"@ {
                    mtc_decode(value, r)
                } else if name.name@ == "MoneyTransferFailed"@ {
                    mtf_decode(value, r)
                } else if name.name@ == "BalanceChanged"@ {
                    bc_decode(value, r)
                } else {
                    r is None
                }
            } else {
                r is None
            }
        },
        None => r is None,
    }
}

/// Map a decoded schema name and generic value to a typed payload. An
/// unexpected namespace, an unknown schema name or a malformed record maps to
/// `None`: the message is dropped, never applied.
pub fn get_avro_data(name: &AvroName, value: &AvroValue) -> (r: Option<AvroData>)
    ensures
        avro_data_decode(*name, *value, r),
{
    match &name.namespace {
        Some(ns) => {
            if !str_eq(ns.as_str(), "nl.openweb.data") {
                return None;
            }
            if str_eq(name.name.as_str(), "ConfirmAccountCreation") {
                to_cac(value)
            } else if str_eq(name.name.as_str(), "AccountCreationConfirmed") {
                to_acc(value)
            } else if str_eq(name.name.as_str(), "AccountCreationFailed") {
                to_acf(value)
            } else if str_eq(name.name.as_str(), "ConfirmMoneyTransfer") {
                to_cmt(value)
            } else if str_eq(name.name.as_str(), "MoneyTransferConfirmed") {
                to_mtc(value)
            } else if str_eq(name.name.as_str(), "MoneyTransferFailed") {
                to_mtf(value)
            } else if str_eq(name.name.as_str(), "BalanceChanged") {
                to_bc(value)
            } else {
                None
            }
        },
        None => None,
    }
}

} // verus!
