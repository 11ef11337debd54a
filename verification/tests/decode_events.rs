use command_handler::config::get_ssl_options;
use command_handler::decode::AvroName;
use command_handler::decode::AvroValue;
use command_handler::decode::get_avro_data;
use command_handler::decode::str_eq;
use command_handler::decode::to_cac;
use command_handler::decode::to_cmt;
use command_handler::decode::to_uuid;
use command_handler::events::Atype;
use command_handler::events::AvroData;
use command_handler::events::BalanceChanged;
use command_handler::events::ConfirmAccountCreation;
use command_handler::events::MoneyTransferConfirmed;
use command_handler::events::SchemaName;
use command_handler::handlers::ProducerData;
use command_handler::handlers::send_loop;

fn name(n: &str) -> AvroName {
    AvroName { name: n.to_string(), namespace: Some("nl.openweb.data".to_string()) }
}

fn cac_record(id: [u8; 16], symbol: i32) -> AvroValue {
    AvroValue::Record(vec![
        ("id".to_string(), AvroValue::Fixed(id.to_vec())),
        ("a_type".to_string(), AvroValue::Symbol(symbol, "MANUAL".to_string())),
    ])
}

#[test]
fn decode_creation_command() {
    let id = [7u8; 16];
    let decoded = get_avro_data(&name("ConfirmAccountCreation"), &cac_record(id, 1));
    match decoded {
        Some(AvroData::CAC(c)) => {
            assert_eq!(id, c.id);
            assert_eq!(Atype::Manual, c.a_type);
        },
        other => panic!("expected ConfirmAccountCreation, got {:?}", other),
    }
    let auto = to_cac(&cac_record(id, 0));
    assert!(matches!(auto, Some(AvroData::CAC(c)) if c.a_type == Atype::Auto));
}

#[test]
fn decode_transfer_command() {
    let id = [9u8; 16];
    let record = AvroValue::Record(vec![
        ("id".to_string(), AvroValue::Fixed(id.to_vec())),
        ("token".to_string(), AvroValue::Str("11111111112222222222".to_string())),
        ("amount".to_string(), AvroValue::Long(250)),
        ("from".to_string(), AvroValue::Str("cash".to_string())),
        ("to".to_string(), AvroValue::Str("NL66OPEN0000000000".to_string())),
        ("description".to_string(), AvroValue::Str("rent".to_string())),
    ]);
    match to_cmt(&record) {
        Some(AvroData::CMT(c)) => {
            assert_eq!(id, c.id);
            assert_eq!("11111111112222222222", c.token);
            assert_eq!(250, c.amount);
            assert_eq!("cash", c.from);
            assert_eq!("NL66OPEN0000000000", c.to);
            assert_eq!("rent", c.description);
        },
        other => panic!("expected ConfirmMoneyTransfer, got {:?}", other),
    }
    assert!(matches!(
        get_avro_data(&name("ConfirmMoneyTransfer"), &record),
        Some(AvroData::CMT(_))
    ));
}

#[test]
fn decode_rejects_unknown_and_malformed() {
    let id = [7u8; 16];
    // unknown schema name
    assert!(get_avro_data(&name("SomethingElse"), &cac_record(id, 1)).is_none());
    // wrong namespace
    let wrong_ns = AvroName {
        name: "ConfirmAccountCreation".to_string(),
        namespace: Some("org.elsewhere".to_string()),
    };
    assert!(get_avro_data(&wrong_ns, &cac_record(id, 1)).is_none());
    // no namespace at all
    let no_ns = AvroName { name: "ConfirmAccountCreation".to_string(), namespace: None };
    assert!(get_avro_data(&no_ns, &cac_record(id, 1)).is_none());
    // a record with too few fields
    let short = AvroValue::Record(vec![("id".to_string(), AvroValue::Fixed(id.to_vec()))]);
    assert!(get_avro_data(&name("ConfirmAccountCreation"), &short).is_none());
    // not a record
    assert!(get_avro_data(&name("ConfirmAccountCreation"), &AvroValue::Long(1)).is_none());
}

#[test]
fn decode_defaults_malformed_fields() {
    // a too-short fixed value and a non-symbol kind decode to the defaults
    let record = AvroValue::Record(vec![
        ("id".to_string(), AvroValue::Fixed(vec![1, 2, 3])),
        ("a_type".to_string(), AvroValue::Str("MANUAL".to_string())),
    ]);
    match to_cac(&record) {
        Some(AvroData::CAC(c)) => {
            assert_eq!([0u8; 16], c.id);
            assert_eq!(Atype::Auto, c.a_type);
        },
        other => panic!("expected ConfirmAccountCreation, got {:?}", other),
    }
}

#[test]
fn to_uuid_takes_first_sixteen_bytes() {
    let bytes: Vec<u8> = (1..=20).collect();
    let id = to_uuid(&bytes);
    let expected: Vec<u8> = (1..=16).collect();
    assert_eq!(expected.as_slice(), &id[..]);
}

#[test]
fn schema_names() {
    let cac = ConfirmAccountCreation::default();
    assert_eq!("ConfirmAccountCreation", cac.get_schema_name());
    assert_eq!("nl.openweb.data.ConfirmAccountCreation", cac.get_full_schema_name());
    let data = AvroData::MTC(MoneyTransferConfirmed::default());
    assert_eq!("MoneyTransferConfirmed", data.get_schema_name());
    assert_eq!("nl.openweb.data.MoneyTransferConfirmed", data.get_full_schema_name());
    let bc = BalanceChanged::default();
    assert_eq!("BalanceChanged", bc.get_schema_name());
    assert_eq!("nl.openweb.data.BalanceChanged", bc.get_full_schema_name());
}

#[test]
fn defaults() {
    let cac = ConfirmAccountCreation::default();
    assert_eq!([0u8; 16], cac.id);
    assert_eq!(Atype::Auto, cac.a_type);
    let bc = BalanceChanged::default();
    assert_eq!("", bc.iban);
    assert_eq!(0, bc.new_balance);
    assert_eq!(0, bc.changed_by);
}

#[test]
fn str_eq_compares_contents() {
    assert!(str_eq("nl.openweb.data", "nl.openweb.data"));
    assert!(!str_eq("nl.openweb.data", "nl.openweb.dat"));
    assert!(!str_eq("abc", "abd"));
    assert!(str_eq("", ""));
}

#[test]
fn send_loop_drains_in_order() {
    let mut queue: Vec<ProducerData> = Vec::new();
    queue.push(ProducerData {
        topic: "balance_changed",
        key: "a".to_string(),
        value: AvroData::BC(BalanceChanged::default()),
    });
    queue.push(ProducerData {
        topic: "money_transfer_feedback",
        key: "b".to_string(),
        value: AvroData::MTC(MoneyTransferConfirmed::default()),
    });
    let drained = send_loop(&mut queue);
    assert_eq!(0, queue.len());
    assert_eq!(2, drained.len());
    assert_eq!("a", drained[0].key);
    assert_eq!("balance_changed", drained[0].topic);
    assert_eq!("b", drained[1].key);
}

#[test]
fn ssl_options_need_all_three() {
    let full = get_ssl_options(
        Some("ca.pem".to_string()),
        Some("cert.pem".to_string()),
        Some("key.pem".to_string()),
    );
    let opts = full.unwrap();
    assert_eq!("ca.pem", opts.ca_location);
    assert_eq!("cert.pem", opts.cert_location);
    assert_eq!("key.pem", opts.key_location);
    assert!(get_ssl_options(None, Some("cert.pem".to_string()), Some("key.pem".to_string()))
        .is_none());
    assert!(get_ssl_options(Some("ca.pem".to_string()), None, Some("key.pem".to_string()))
        .is_none());
    assert!(get_ssl_options(Some("ca.pem".to_string()), Some("cert.pem".to_string()), None)
        .is_none());
}
