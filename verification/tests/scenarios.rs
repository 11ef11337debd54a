use command_handler::events::Atype;
use command_handler::events::AvroData;
use command_handler::events::ConfirmAccountCreation;
use command_handler::events::ConfirmMoneyTransfer;
use command_handler::handlers::handle_cac;
use command_handler::handlers::handle_cmt;
use command_handler::store::LedgerError;
use command_handler::store::NewBalance;
use command_handler::store::Store;

fn uuid(n: u8) -> [u8; 16] {
    [n; 16]
}

/// Create an account and hand back its identifier and token.
fn create_account(store: &mut Store, id: [u8; 16]) -> (String, String) {
    let cac = store.get_cac(id, "AUTO");
    assert!(cac.reason.is_none());
    (cac.iban.unwrap(), cac.token.unwrap())
}

fn transfer_cmd(
    id: [u8; 16],
    token: &str,
    amount: i64,
    from: &str,
    to: &str,
) -> ConfirmMoneyTransfer {
    ConfirmMoneyTransfer {
        id,
        token: token.to_string(),
        amount,
        from: from.to_string(),
        to: to.to_string(),
        description: "paying my debts".to_string(),
    }
}

#[test]
fn create_account_auto_and_replay() {
    let mut store = Store::new();
    let input = ConfirmAccountCreation { id: uuid(1), a_type: Atype::Auto };
    let first = handle_cac("key-1".to_string(), &input, &mut store);
    assert_eq!("account_creation_feedback", first.topic);
    assert_eq!("key-1", first.key);
    let (iban, token) = match &first.value {
        AvroData::ACC(acc) => {
            assert_eq!(uuid(1), acc.id);
            assert_eq!(18, acc.iban.len());
            assert!(acc.iban.starts_with("NL"));
            assert_eq!(20, acc.token.len());
            assert!(acc.token.bytes().all(|b| b.is_ascii_digit()));
            assert_eq!(Atype::Auto, acc.a_type);
            (acc.iban.clone(), acc.token.clone())
        },
        other => panic!("expected AccountCreationConfirmed, got {:?}", other),
    };
    // the row exists with amount 0 and the standard limit
    let row = store.get_balance_by_iban(&iban).unwrap();
    assert_eq!(0, row.amount);
    assert_eq!(-50000, row.lmt);
    assert_eq!("AUTO", row.type_);
    // a second delivery of the same command returns the identical coordinates
    let second = handle_cac("key-2".to_string(), &input, &mut store);
    match &second.value {
        AvroData::ACC(acc) => {
            assert_eq!(iban, acc.iban);
            assert_eq!(token, acc.token);
        },
        other => panic!("expected AccountCreationConfirmed, got {:?}", other),
    }
}

#[test]
fn transfer_between_two_accounts() {
    let mut store = Store::new();
    let (a, token_a) = create_account(&mut store, uuid(1));
    let (b, _token_b) = create_account(&mut store, uuid(2));
    store.adjust(&a, 500).unwrap();
    let cmd = transfer_cmd(uuid(3), &token_a, 100, &a, &b);
    let events = handle_cmt("k".to_string(), &cmd, &mut store).unwrap();
    assert_eq!(3, events.len());
    assert_eq!("money_transfer_feedback", events[0].topic);
    assert!(matches!(&events[0].value, AvroData::MTC(m) if m.id == uuid(3)));
    match &events[1].value {
        AvroData::BC(bc) => {
            assert_eq!(a, bc.iban);
            assert_eq!(400, bc.new_balance);
            assert_eq!(-100, bc.changed_by);
            assert_eq!(b, bc.from_to);
        },
        other => panic!("expected BalanceChanged, got {:?}", other),
    }
    match &events[2].value {
        AvroData::BC(bc) => {
            assert_eq!(b, bc.iban);
            assert_eq!(100, bc.new_balance);
            assert_eq!(100, bc.changed_by);
            assert_eq!(a, bc.from_to);
        },
        other => panic!("expected BalanceChanged, got {:?}", other),
    }
    assert_eq!(400, store.get_balance_by_iban(&a).unwrap().amount);
    assert_eq!(100, store.get_balance_by_iban(&b).unwrap().amount);
}

#[test]
fn transfer_same_account_fails() {
    let mut store = Store::new();
    let (a, token_a) = create_account(&mut store, uuid(1));
    store.adjust(&a, 500).unwrap();
    let cmd = transfer_cmd(uuid(3), &token_a, 100, &a, &a);
    let events = handle_cmt("k".to_string(), &cmd, &mut store).unwrap();
    assert_eq!(1, events.len());
    match &events[0].value {
        AvroData::MTF(m) => {
            assert_eq!("from and to can't be same for transfer", m.reason);
        },
        other => panic!("expected MoneyTransferFailed, got {:?}", other),
    }
    assert_eq!(500, store.get_balance_by_iban(&a).unwrap().amount);
}

#[test]
fn transfer_wrong_token_fails() {
    let mut store = Store::new();
    let (a, _token_a) = create_account(&mut store, uuid(1));
    let (b, _token_b) = create_account(&mut store, uuid(2));
    store.adjust(&a, 500).unwrap();
    let cmd = transfer_cmd(uuid(3), "11111111112222222222", 100, &a, &b);
    let events = handle_cmt("k".to_string(), &cmd, &mut store).unwrap();
    assert_eq!(1, events.len());
    match &events[0].value {
        AvroData::MTF(m) => assert_eq!("invalid token", m.reason),
        other => panic!("expected MoneyTransferFailed, got {:?}", other),
    }
    assert_eq!(500, store.get_balance_by_iban(&a).unwrap().amount);
    assert_eq!(0, store.get_balance_by_iban(&b).unwrap().amount);
}

#[test]
fn transfer_from_cash() {
    let mut store = Store::new();
    let (b, _token_b) = create_account(&mut store, uuid(2));
    let cmd = transfer_cmd(uuid(3), "", 50, "cash", &b);
    let events = handle_cmt("k".to_string(), &cmd, &mut store).unwrap();
    assert_eq!(2, events.len());
    assert!(matches!(&events[0].value, AvroData::MTC(m) if m.id == uuid(3)));
    match &events[1].value {
        AvroData::BC(bc) => {
            assert_eq!(b, bc.iban);
            assert_eq!(50, bc.new_balance);
            assert_eq!(50, bc.changed_by);
            assert_eq!("cash", bc.from_to);
        },
        other => panic!("expected BalanceChanged, got {:?}", other),
    }
    assert_eq!(50, store.get_balance_by_iban(&b).unwrap().amount);
}

#[test]
fn transfer_invalid_source_fails() {
    let mut store = Store::new();
    let (b, _token_b) = create_account(&mut store, uuid(2));
    let cmd = transfer_cmd(uuid(3), "", 50, "bla", &b);
    let events = handle_cmt("k".to_string(), &cmd, &mut store).unwrap();
    assert_eq!(1, events.len());
    match &events[0].value {
        AvroData::MTF(m) => assert_eq!("from is invalid", m.reason),
        other => panic!("expected MoneyTransferFailed, got {:?}", other),
    }
    assert_eq!(0, store.get_balance_by_iban(&b).unwrap().amount);
}

#[test]
fn transfer_insufficient_funds_fails() {
    let mut store = Store::new();
    let (a, token_a) = create_account(&mut store, uuid(1));
    let (b, _token_b) = create_account(&mut store, uuid(2));
    let cmd = transfer_cmd(uuid(3), &token_a, 50001, &a, &b);
    let events = handle_cmt("k".to_string(), &cmd, &mut store).unwrap();
    match &events[0].value {
        AvroData::MTF(m) => assert_eq!("insufficient funds", m.reason),
        other => panic!("expected MoneyTransferFailed, got {:?}", other),
    }
    // a debit down to the limit itself is allowed
    let cmd2 = transfer_cmd(uuid(4), &token_a, 50000, &a, &b);
    let events2 = handle_cmt("k".to_string(), &cmd2, &mut store).unwrap();
    assert!(matches!(&events2[0].value, AvroData::MTC(_)));
    assert_eq!(-50000, store.get_balance_by_iban(&a).unwrap().amount);
    assert_eq!(50000, store.get_balance_by_iban(&b).unwrap().amount);
}

#[test]
fn transfer_replay_mutates_once() {
    let mut store = Store::new();
    let (a, token_a) = create_account(&mut store, uuid(1));
    let (b, _token_b) = create_account(&mut store, uuid(2));
    store.adjust(&a, 500).unwrap();
    let cmd = transfer_cmd(uuid(3), &token_a, 100, &a, &b);
    let first = handle_cmt("k".to_string(), &cmd, &mut store).unwrap();
    assert_eq!(3, first.len());
    let second = handle_cmt("k".to_string(), &cmd, &mut store).unwrap();
    // the replay returns the identical feedback event and no side effects
    assert_eq!(1, second.len());
    assert_eq!(first[0].value, second[0].value);
    assert_eq!(400, store.get_balance_by_iban(&a).unwrap().amount);
    assert_eq!(100, store.get_balance_by_iban(&b).unwrap().amount);
}

#[test]
fn missing_counterparty_is_skipped() {
    // a well-formed target without a ledger row: the transfer still succeeds
    // and only the debited side reports a change
    let mut store = Store::new();
    let (a, token_a) = create_account(&mut store, uuid(1));
    store.adjust(&a, 500).unwrap();
    let cmd = transfer_cmd(uuid(3), &token_a, 100, &a, "NL66OPEN0000000000");
    let events = handle_cmt("k".to_string(), &cmd, &mut store).unwrap();
    assert_eq!(2, events.len());
    assert!(matches!(&events[0].value, AvroData::MTC(_)));
    match &events[1].value {
        AvroData::BC(bc) => assert_eq!(a, bc.iban),
        other => panic!("expected BalanceChanged, got {:?}", other),
    }
    assert_eq!(400, store.get_balance_by_iban(&a).unwrap().amount);
}

#[test]
fn create_balance_duplicate_refused() {
    let mut store = Store::new();
    let row = NewBalance {
        iban: "NL66OPEN0000000000".to_string(),
        token: "11111111112222222222".to_string(),
        amount: 0,
        type_: "AUTO".to_string(),
        lmt: -50000,
    };
    let created = store.create_balance(row).unwrap();
    assert_eq!("NL66OPEN0000000000", created.iban);
    let again = NewBalance {
        iban: "NL66OPEN0000000000".to_string(),
        token: "33333333334444444444".to_string(),
        amount: 0,
        type_: "AUTO".to_string(),
        lmt: -50000,
    };
    assert_eq!(Err(LedgerError::DuplicateAccount), store.create_balance(again).map(|_| ()));
}

#[test]
fn adjust_missing_account_refused() {
    let mut store = Store::new();
    assert_eq!(
        Err(LedgerError::AccountNotFound),
        store.adjust("NL66OPEN0000000000", 5).map(|_| ())
    );
}

#[test]
fn adjust_overflow_refused() {
    let mut store = Store::new();
    let (a, _token_a) = create_account(&mut store, uuid(1));
    store.adjust(&a, i64::MAX).unwrap();
    assert_eq!(Err(LedgerError::AmountOverflow), store.adjust(&a, 1).map(|_| ()));
}

#[test]
fn transfer_overflow_refused() {
    let mut store = Store::new();
    let (b, _token_b) = create_account(&mut store, uuid(2));
    store.adjust(&b, i64::MAX).unwrap();
    let cmd = transfer_cmd(uuid(3), "", 50, "cash", &b);
    let refused = handle_cmt("k".to_string(), &cmd, &mut store);
    assert!(matches!(refused, Err(LedgerError::AmountOverflow)));
    // nothing was recorded: the command can be retried after the state shrinks
    store.adjust(&b, -100).unwrap();
    let events = handle_cmt("k".to_string(), &cmd, &mut store).unwrap();
    assert!(matches!(&events[0].value, AvroData::MTC(_)));
}

#[test]
fn creation_updates_timestamps() {
    let mut store = Store::new();
    let (a, token_a) = create_account(&mut store, uuid(1));
    let (b, _token_b) = create_account(&mut store, uuid(2));
    let before = store.get_balance_by_iban(&a).unwrap();
    assert!(before.updated_at >= before.created_at);
    store.adjust(&a, 500).unwrap();
    let cmd = transfer_cmd(uuid(3), &token_a, 100, &a, &b);
    handle_cmt("k".to_string(), &cmd, &mut store).unwrap();
    let after = store.get_balance_by_iban(&a).unwrap();
    assert!(after.updated_at > before.updated_at);
}
