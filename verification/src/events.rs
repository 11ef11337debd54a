//! The typed command and event payloads the handler consumes and emits, and
//! the schema names under which they travel on the bus.

use vstd::prelude::*;
use vstd::string::StringExecFns;

verus! {

/// A 16-byte command identifier, assigned by the caller.
pub type Uuid = [u8; 16];

/// The all-zero identifier, the default when a record carries none.
pub open spec fn zero_uuid() -> Seq<u8> {
    Seq::new(16, |i: int| 0u8)
}

/// Compare two command identifiers byte for byte.
pub fn uuid_eq(a: &Uuid, b: &Uuid) -> (r: bool)
    ensures
        r == (a@ =~= b@),
{
    let mut i: usize = 0;
    while i < 16
        invariant
            i <= 16,
            forall|j: int| 0 <= j < i ==> a@[j] == b@[j],
        decreases 16 - i,
    {
        if a[i] != b[i] {
            return false;
        }
        i = i + 1;
    }
    proof {
        assert(a@ =~= b@);
    }
    true
}

/// A payload knows the schema name it is registered under.
pub trait SchemaName {
    /// The schema name, without its namespace.
    spec fn spec_schema_name(&self) -> Seq<char>;

    /// The schema name, qualified by its namespace.
    spec fn spec_full_schema_name(&self) -> Seq<char>;

    fn get_full_schema_name(&self) -> (r: String)
        ensures
            r@ == self.spec_full_schema_name(),
    ;

    fn get_schema_name(&self) -> (r: &'static str)
        ensures
            r@ == self.spec_schema_name(),
    ;
}

/// The kind of account asked for at creation.
#[derive(Debug, PartialEq, Eq, Structural, Hash, PartialOrd, Ord, Clone, Copy)]
pub enum Atype {
    Auto,
    Manual,
}

impl Default for Atype {
    fn default() -> (d: Self)
        ensures
            d == Atype::Auto,
    {
        Atype::Auto
    }
}

/// Inbound command: create an account of the given kind.
#[derive(Debug, PartialEq, Clone)]
pub struct ConfirmAccountCreation {
    pub id: Uuid,
    pub a_type: Atype,
}

impl Default for ConfirmAccountCreation {
    fn default() -> (d: Self)
        ensures
            d.id@ =~= zero_uuid(),
            d.a_type == Atype::Auto,
    {
        ConfirmAccountCreation { id: [0u8; 16], a_type: Atype::Auto }
    }
}

impl SchemaName for ConfirmAccountCreation {
    open spec fn spec_schema_name(&self) -> Seq<char> {
        "ConfirmAccountCreation"@
    }

    open spec fn spec_full_schema_name(&self) -> Seq<char> {
        "nl.openweb.data.ConfirmAccountCreation"@
    }

    fn get_full_schema_name(&self) -> (r: String) {
        String::from_str("nl.openweb.data.ConfirmAccountCreation")
    }

    fn get_schema_name(&self) -> (r: &'static str) {
        "ConfirmAccountCreation"
    }
}

/// Outbound event: the account was created.
#[derive(Debug, PartialEq, Clone)]
pub struct AccountCreationConfirmed {
    pub id: Uuid,
    pub iban: String,
    pub token: String,
    pub a_type: Atype,
}

impl Default for AccountCreationConfirmed {
    fn default() -> (d: Self)
        ensures
            d.id@ =~= zero_uuid(),
            d.iban@ == Seq::<char>::empty(),
            d.token@ == Seq::<char>::empty(),
            d.a_type == Atype::Auto,
    {
        AccountCreationConfirmed {
            id: [0u8; 16],
            iban: String::new(),
            token: String::new(),
            a_type: Atype::Auto,
        }
    }
}

impl SchemaName for AccountCreationConfirmed {
    open spec fn spec_schema_name(&self) -> Seq<char> {
        "AccountCreationConfirmed"@
    }

    open spec fn spec_full_schema_name(&self) -> Seq<char> {
        "nl.openweb.data.AccountCreationConfirmed"@
    }

    fn get_full_schema_name(&self) -> (r: String) {
        String::from_str("nl.openweb.data.AccountCreationConfirmed")
    }

    fn get_schema_name(&self) -> (r: &'static str) {
        "AccountCreationConfirmed"
    }
}

/// Outbound event: the account could not be created.
#[derive(Debug, PartialEq, Clone)]
pub struct AccountCreationFailed {
    pub id: Uuid,
    pub reason: String,
}

impl Default for AccountCreationFailed {
    fn default() -> (d: Self)
        ensures
            d.id@ =~= zero_uuid(),
            d.reason@ == Seq::<char>::empty(),
    {
        AccountCreationFailed { id: [0u8; 16], reason: String::new() }
    }
}

impl SchemaName for AccountCreationFailed {
    open spec fn spec_schema_name(&self) -> Seq<char> {
        "AccountCreationFailed"@
    }

    open spec fn spec_full_schema_name(&self) -> Seq<char> {
        "nl.openweb.data.AccountCreationFailed"@
    }

    fn get_full_schema_name(&self) -> (r: String) {
        String::from_str("nl.openweb.data.AccountCreationFailed")
    }

    fn get_schema_name(&self) -> (r: &'static str) {
        "AccountCreationFailed"
    }
}

/// Inbound command: move an amount between two sources.
#[derive(Debug, PartialEq, Clone)]
pub struct ConfirmMoneyTransfer {
    pub id: Uuid,
    pub token: String,
    pub amount: i64,
    pub from: String,
    pub to: String,
    pub description: String,
}

impl Default for ConfirmMoneyTransfer {
    fn default() -> (d: Self)
        ensures
            d.id@ =~= zero_uuid(),
            d.token@ == Seq::<char>::empty(),
            d.amount == 0,
            d.from@ == Seq::<char>::empty(),
            d.to@ == Seq::<char>::empty(),
            d.description@ == Seq::<char>::empty(),
    {
        ConfirmMoneyTransfer {
            id: [0u8; 16],
            token: String::new(),
            amount: 0,
            from: String::new(),
            to: String::new(),
            description: String::new(),
        }
    }
}

impl SchemaName for ConfirmMoneyTransfer {
    open spec fn spec_schema_name(&self) -> Seq<char> {
        "ConfirmMoneyTransfer"@
    }

    open spec fn spec_full_schema_name(&self) -> Seq<char> {
        "nl.openweb.data.ConfirmMoneyTransfer"@
    }

    fn get_full_schema_name(&self) -> (r: String) {
        String::from_str("nl.openweb.data.ConfirmMoneyTransfer")
    }

    fn get_schema_name(&self) -> (r: &'static str) {
        "ConfirmMoneyTransfer"
    }
}

/// Outbound event: the transfer was applied.
#[derive(Debug, PartialEq, Clone)]
pub struct MoneyTransferConfirmed {
    pub id: Uuid,
}

impl Default for MoneyTransferConfirmed {
    fn default() -> (d: Self)
        ensures
            d.id@ =~= zero_uuid(),
    {
        MoneyTransferConfirmed { id: [0u8; 16] }
    }
}

impl SchemaName for MoneyTransferConfirmed {
    open spec fn spec_schema_name(&self) -> Seq<char> {
        "MoneyTransferConfirmed"@
    }

    open spec fn spec_full_schema_name(&self) -> Seq<char> {
        "nl.openweb.data.MoneyTransferConfirmed"@
    }

    fn get_full_schema_name(&self) -> (r: String) {
        String::from_str("nl.openweb.data.MoneyTransferConfirmed")
    }

    fn get_schema_name(&self) -> (r: &'static str) {
        "MoneyTransferConfirmed"
    }
}

/// Outbound event: the transfer was rejected, with the reason.
#[derive(Debug, PartialEq, Clone)]
pub struct MoneyTransferFailed {
    pub id: Uuid,
    pub reason: String,
}

impl Default for MoneyTransferFailed {
    fn default() -> (d: Self)
        ensures
            d.id@ =~= zero_uuid(),
            d.reason@ == Seq::<char>::empty(),
    {
        MoneyTransferFailed { id: [0u8; 16], reason: String::new() }
    }
}

impl SchemaName for MoneyTransferFailed {
    open spec fn spec_schema_name(&self) -> Seq<char> {
        "MoneyTransferFailed"@
    }

    open spec fn spec_full_schema_name(&self) -> Seq<char> {
        "nl.openweb.data.MoneyTransferFailed"@
    }

    fn get_full_schema_name(&self) -> (r: String) {
        String::from_str("nl.openweb.data.MoneyTransferFailed")
    }

    fn get_schema_name(&self) -> (r: &'static str) {
        "MoneyTransferFailed"
    }
}

/// Outbound side-effect event: a ledger row's amount changed.
#[derive(Debug, PartialEq, Clone)]
pub struct BalanceChanged {
    pub iban: String,
    pub new_balance: i64,
    pub changed_by: i64,
    pub from_to: String,
    pub description: String,
}

impl Default for BalanceChanged {
    fn default() -> (d: Self)
        ensures
            d.iban@ == Seq::<char>::empty(),
            d.new_balance == 0,
            d.changed_by == 0,
            d.from_to@ == Seq::<char>::empty(),
            d.description@ == Seq::<char>::empty(),
    {
        BalanceChanged {
            iban: String::new(),
            new_balance: 0,
            changed_by: 0,
            from_to: String::new(),
            description: String::new(),
        }
    }
}

impl SchemaName for BalanceChanged {
    open spec fn spec_schema_name(&self) -> Seq<char> {
        "BalanceChanged"@
    }

    open spec fn spec_full_schema_name(&self) -> Seq<char> {
        "nl.openweb.data.BalanceChanged"@
    }

    fn get_full_schema_name(&self) -> (r: String) {
        String::from_str("nl.openweb.data.BalanceChanged")
    }

    fn get_schema_name(&self) -> (r: &'static str) {
        "BalanceChanged"
    }
}

/// Any payload the handler consumes or emits, tagged by schema.
#[derive(Debug, PartialEq, Clone)]
pub enum AvroData {
    CAC(ConfirmAccountCreation),
    ACC(AccountCreationConfirmed),
    ACF(AccountCreationFailed),
    CMT(ConfirmMoneyTransfer),
    MTC(MoneyTransferConfirmed),
    MTF(MoneyTransferFailed),
    BC(BalanceChanged),
}

impl SchemaName for AvroData {
    open spec fn spec_schema_name(&self) -> Seq<char> {
        match self {
            AvroData::CAC(v) => v.spec_schema_name(),
            AvroData::ACC(v) => v.spec_schema_name(),
            AvroData::ACF(v) => v.spec_schema_name(),
            AvroData::CMT(v) => v.spec_schema_name(),
            AvroData::MTC(v) => v.spec_schema_name(),
            AvroData::MTF(v) => v.spec_schema_name(),
            AvroData::BC(v) => v.spec_schema_name(),
        }
    }

    open spec fn spec_full_schema_name(&self) -> Seq<char> {
        match self {
            AvroData::CAC(v) => v.spec_full_schema_name(),
            AvroData::ACC(v) => v.spec_full_schema_name(),
            AvroData::ACF(v) => v.spec_full_schema_name(),
            AvroData::CMT(v) => v.spec_full_schema_name(),
            AvroData::MTC(v) => v.spec_full_schema_name(),
            AvroData::MTF(v) => v.spec_full_schema_name(),
            AvroData::BC(v) => v.spec_full_schema_name(),
        }
    }

    fn get_full_schema_name(&self) -> (r: String) {
        match self {
            AvroData::CAC(v) => v.get_full_schema_name(),
            AvroData::ACC(v) => v.get_full_schema_name(),
            AvroData::ACF(v) => v.get_full_schema_name(),
            AvroData::CMT(v) => v.get_full_schema_name(),
            AvroData::MTC(v) => v.get_full_schema_name(),
            AvroData::MTF(v) => v.get_full_schema_name(),
            AvroData::BC(v) => v.get_full_schema_name(),
        }
    }

    fn get_schema_name(&self) -> (r: &'static str) {
        match self {
            AvroData::CAC(v) => v.get_schema_name(),
            AvroData::ACC(v) => v.get_schema_name(),
            AvroData::ACF(v) => v.get_schema_name(),
            AvroData::CMT(v) => v.get_schema_name(),
            AvroData::MTC(v) => v.get_schema_name(),
            AvroData::MTF(v) => v.get_schema_name(),
            AvroData::BC(v) => v.get_schema_name(),
        }
    }
}

} // verus!
