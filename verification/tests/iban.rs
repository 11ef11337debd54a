use command_handler::account::get_check_nr;
use command_handler::account::invalid_from;
use command_handler::account::new_iban;
use command_handler::account::new_token;
use command_handler::account::open_iban;
use command_handler::account::valid_open_iban;

#[test]
fn test_new_iban() {
    let nib = new_iban();
    println!("Iban: {}", nib);
    assert_eq!(18, nib.len());
}

#[test]
fn test_new_token() {
    let tkn = new_token();
    println!("Token: {}", tkn);
    assert_eq!(20, tkn.len());
}

#[test]
fn test_invalid_from() {
    let nib = new_iban();
    println!("Iban: {}", nib);
    assert_eq!(false, invalid_from(&nib));
    assert_eq!(true, invalid_from(&String::from("bla")));
    assert_eq!(true, invalid_from(&String::from("NL83OPEN0104642752")));
    assert_eq!(false, invalid_from(&String::from("NL66OPEN0000000000")));
}

#[test]
fn check_nr_exact_values() {
    assert_eq!("66", get_check_nr("0000000000"));
    assert_eq!("70", get_check_nr("0104642752"));
    assert_eq!("80", get_check_nr("0123456789"));
}

#[test]
fn open_iban_assembles_and_validates() {
    let iban = open_iban("0104642752");
    assert_eq!("NL70OPEN0104642752", iban);
    assert!(valid_open_iban(&iban));
}

#[test]
fn generated_iban_is_valid() {
    for _ in 0..20 {
        let nib = new_iban();
        assert!(valid_open_iban(&nib));
        assert!(nib.starts_with("NL"));
        assert_eq!(nib.as_bytes()[8], b'0');
    }
}

#[test]
fn token_is_all_digits() {
    let tkn = new_token();
    assert!(tkn.bytes().all(|b| b.is_ascii_digit()));
}

#[test]
fn checksum_substitution_invalidates() {
    // every substitution of either embedded checksum digit breaks validity
    let valid = "NL66OPEN0000000000";
    assert!(valid_open_iban(valid));
    for pos in [2usize, 3usize] {
        for d in b'0'..=b'9' {
            let mut bytes = valid.as_bytes().to_vec();
            if bytes[pos] == d {
                continue;
            }
            bytes[pos] = d;
            let changed = String::from_utf8(bytes).unwrap();
            assert!(!valid_open_iban(&changed), "{} should be invalid", changed);
        }
    }
}

#[test]
fn malformed_identifiers_are_invalid() {
    assert!(!valid_open_iban(""));
    assert!(!valid_open_iban("NL66OPEN000000000"));
    assert!(!valid_open_iban("NL66OPEN00000000000"));
    assert!(!valid_open_iban("XX66OPEN0000000000"));
    assert!(!valid_open_iban("NL66OPEXX000000000"));
    assert!(!valid_open_iban("NL66OPENabcdefghij"));
    assert!(!valid_open_iban("cash"));
}
