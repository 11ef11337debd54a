//! Account identifiers and authorization tokens.
//!
//! An account identifier is an 18-character string `"NL" ∥ cc ∥ "OPEN" ∥ body`,
//! where `body` is ten decimal digits and `cc` is a two-digit checksum over the
//! body: `98 − n mod 97`, `n` being the number whose decimal digits are
//! `"24251423" ∥ body ∥ "232100"` (the numeric form of the two letter blocks).
//! An authorization token is twenty decimal digits with no checksum.

use vstd::prelude::*;
use vstd::string::StrSliceExecFns;
use vstd::string::StringExecFns;

verus! {

/// Numeric value of a decimal digit character.
pub open spec fn digit_val(c: char) -> int {
    c as int - 48
}

/// The character is a decimal digit.
pub open spec fn is_digit(c: char) -> bool {
    48 <= c as int <= 57
}

/// Every character of the sequence is a decimal digit.
pub open spec fn all_digits(s: Seq<char>) -> bool {
    forall|i: int| 0 <= i < s.len() ==> is_digit(#[trigger] s[i])
}

/// The number denoted by a sequence of decimal digit characters.
pub open spec fn digits_val(s: Seq<char>) -> int
    decreases s.len(),
{
    if s.len() == 0 {
        0
    } else {
        digits_val(s.drop_last()) * 10 + digit_val(s.last())
    }
}

/// Ten to the n-th power.
pub open spec fn pow10(n: nat) -> int
    decreases n,
{
    if n == 0 {
        1
    } else {
        10 * pow10((n - 1) as nat)
    }
}

/// The number whose decimal digits are `"24251423"`, then the ten digits of
/// `body`, then `"232100"`.
pub open spec fn check_input_val(body: Seq<char>) -> int {
    (24251423 * pow10(10) + digits_val(body)) * 1000000 + 232100
}

/// The two-digit checksum a well-formed identifier embeds for `body`.
pub open spec fn check_of(body: Seq<char>) -> int {
    98 - check_input_val(body) % 97
}

/// The ten-digit body of an 18-character identifier.
pub open spec fn iban_body(s: Seq<char>) -> Seq<char> {
    s.subrange(8, 18)
}

/// The string is a well-formed account identifier: 18 characters,
/// `"NL" ∥ cc ∥ "OPEN" ∥ body` with a ten-digit body, and the two checksum
/// digits `cc` re-derivable from the body.
pub open spec fn valid_open_iban_spec(s: Seq<char>) -> bool {
    &&& s.len() == 18
    &&& s[0] == 'N'
    &&& s[1] == 'L'
    &&& is_digit(s[2])
    &&& is_digit(s[3])
    &&& s[4] == 'O'
    &&& s[5] == 'P'
    &&& s[6] == 'E'
    &&& s[7] == 'N'
    &&& all_digits(iban_body(s))
    &&& digit_val(s[2]) * 10 + digit_val(s[3]) == check_of(iban_body(s))
}

/// The string names a source funds may be drawn from: either the special
/// unlimited source `"cash"`, which no ledger row backs, or a well-formed
/// account identifier.
pub open spec fn usable_source_spec(s: Seq<char>) -> bool {
    s =~= seq!['c', 'a', 's', 'h'] || valid_open_iban_spec(s)
}

/// Powers of ten are positive.
pub proof fn lemma_pow10_pos(n: nat)
    ensures
        pow10(n) >= 1,
    decreases n,
{
    if n > 0 {
        lemma_pow10_pos((n - 1) as nat);
    }
}

/// Powers of ten grow with the exponent.
pub proof fn lemma_pow10_mono(a: nat, b: nat)
    requires
        a <= b,
    ensures
        pow10(a) <= pow10(b),
    decreases b,
{
    if a < b {
        lemma_pow10_mono(a, (b - 1) as nat);
        lemma_pow10_pos((b - 1) as nat);
    }
}

/// The ninth and tenth powers of ten, written out.
pub proof fn lemma_pow10_10()
    ensures
        pow10(9) == 1000000000,
        pow10(10) == 10000000000,
{
    assert(pow10(0) == 1);
    assert(pow10(1) == 10);
    assert(pow10(2) == 100);
    assert(pow10(3) == 1000);
    assert(pow10(4) == 10000);
    assert(pow10(5) == 100000);
    assert(pow10(6) == 1000000);
    assert(pow10(7) == 10000000);
    assert(pow10(8) == 100000000);
    assert(pow10(9) == 1000000000);
}

/// A digit sequence denotes a value in `[0, 10^len)`.
pub proof fn lemma_digits_val_bounds(s: Seq<char>)
    requires
        all_digits(s),
    ensures
        0 <= digits_val(s) < pow10(s.len()),
    decreases s.len(),
{
    if s.len() > 0 {
        assert(all_digits(s.drop_last()));
        lemma_digits_val_bounds(s.drop_last());
        assert(digits_val(s.drop_last()) <= pow10((s.len() - 1) as nat) - 1);
        assert(is_digit(s.last()));
    }
}

/// Decimal digit characters with equal values are equal.
pub proof fn lemma_digit_char_inj(a: char, b: char)
    requires
        is_digit(a),
        is_digit(b),
        digit_val(a) == digit_val(b),
    ensures
        a == b,
{
    vstd::utf8::char_u32_cast(a, a as u32);
    vstd::utf8::char_u32_cast(b, b as u32);
}

/// Changing one of the two embedded checksum digits of a well-formed
/// identifier, and nothing else, always breaks well-formedness.
pub proof fn lemma_checksum_substitution(s: Seq<char>, t: Seq<char>, i: int)
    requires
        valid_open_iban_spec(s),
        t.len() == s.len(),
        2 <= i <= 3,
        t[i] != s[i],
        forall|j: int| 0 <= j < s.len() && j != i ==> t[j] == s[j],
    ensures
        !valid_open_iban_spec(t),
{
    if valid_open_iban_spec(t) {
        assert(iban_body(t) =~= iban_body(s));
        assert(check_of(iban_body(t)) == check_of(iban_body(s)));
        assert(digit_val(t[2]) * 10 + digit_val(t[3]) == digit_val(s[2]) * 10 + digit_val(s[3]));
        assert(0 <= digit_val(t[2]) <= 9 && 0 <= digit_val(t[3]) <= 9);
        assert(0 <= digit_val(s[2]) <= 9 && 0 <= digit_val(s[3]) <= 9);
        assert(digit_val(t[2]) == digit_val(s[2]) && digit_val(t[3]) == digit_val(s[3]));
        lemma_digit_char_inj(t[2], s[2]);
        lemma_digit_char_inj(t[3], s[3]);
    }
}

/// Relies on `rand::random_range`: a value drawn uniformly from the given
/// range; for `0..10` the result is a decimal digit value.
#[verifier::external_body]
fn random_digit() -> (d: u8)
    ensures
        d < 10,
{
    rand::random_range(0..10u8)
}

/// A one-character string for a digit value.
fn digit_str(d: u8) -> (s: &'static str)
    requires
        d < 10,
    ensures
        s@.len() == 1,
        is_digit(s@[0]),
        digit_val(s@[0]) == d as int,
{
    proof {
        reveal_strlit("0");
        reveal_strlit("1");
        reveal_strlit("2");
        reveal_strlit("3");
        reveal_strlit("4");
        reveal_strlit("5");
        reveal_strlit("6");
        reveal_strlit("7");
        reveal_strlit("8");
        reveal_strlit("9");
    }
    match d {
        0 => "0",
        1 => "1",
        2 => "2",
        3 => "3",
        4 => "4",
        5 => "5",
        6 => "6",
        7 => "7",
        8 => "8",
        _ => "9",
    }
}

/// The digit value of a character, or `None` if it is not a decimal digit.
fn char_digit(c: char) -> (r: Option<u8>)
    ensures
        match r {
            Some(d) => is_digit(c) && d as int == digit_val(c),
            None => !is_digit(c),
        },
{
    let u = c as u32;
    if 48 <= u && u <= 57 {
        Some((u - 48) as u8)
    } else {
        None
    }
}

/// The value of the digits of `s` in positions `[from, to)`, or `None` if a
/// character there is not a decimal digit.
fn digits_value(s: &str, from: usize, to: usize) -> (r: Option<u64>)
    requires
        from <= to <= s@.len(),
        to - from <= 10,
    ensures
        match r {
            Some(v) => all_digits(s@.subrange(from as int, to as int)) && v as int == digits_val(
                s@.subrange(from as int, to as int),
            ),
            None => !all_digits(s@.subrange(from as int, to as int)),
        },
{
    let mut v: u64 = 0;
    let ghost whole = s@.subrange(from as int, to as int);
    let mut i: usize = from;
    while i < to
        invariant
            from <= i <= to <= s@.len(),
            to - from <= 10,
            whole == s@.subrange(from as int, to as int),
            all_digits(s@.subrange(from as int, i as int)),
            v as int == digits_val(s@.subrange(from as int, i as int)),
            v < pow10((i - from) as nat),
        decreases to - i,
    {
        let c = s.get_char(i);
        match char_digit(c) {
            None => {
                proof {
                    assert(whole[i - from] == c);
                    assert(!all_digits(whole));
                }
                return None;
            },
            Some(d) => {
                proof {
                    lemma_pow10_10();
                    lemma_pow10_mono((i - from) as nat, 9);
                    assert(pow10(((i + 1) - from) as nat) == 10 * pow10((i - from) as nat));
                    assert(s@.subrange(from as int, (i + 1) as int).drop_last() =~= s@.subrange(
                        from as int,
                        i as int,
                    ));
                    assert(s@.subrange(from as int, (i + 1) as int).last() == c);
                }
                v = v * 10 + (d as u64);
                i = i + 1;
            },
        }
    }
    proof {
        assert(s@.subrange(from as int, i as int) =~= whole);
    }
    Some(v)
}

/// The checksum for a body whose digits denote `v`.
fn check_nr_value(v: u64) -> (nr: u8)
    requires
        v < 10000000000,
    ensures
        nr as int == 98 - ((24251423 * pow10(10) + v as int) * 1000000 + 232100) % 97,
        2 <= nr <= 98,
{
    proof {
        lemma_pow10_10();
    }
    let n: u128 = (242514230000000000u128 + v as u128) * 1000000 + 232100;
    let m = n % 97;
    (98 - m) as u8
}

/// The two-digit checksum string for a ten-digit body, zero-padded.
pub fn get_check_nr(digits: &str) -> (r: String)
    requires
        digits@.len() == 10,
        all_digits(digits@),
    ensures
        r@.len() == 2,
        is_digit(r@[0]),
        is_digit(r@[1]),
        digit_val(r@[0]) * 10 + digit_val(r@[1]) == check_of(digits@),
{
    proof {
        assert(digits@.subrange(0, 10) =~= digits@);
    }
    let v = match digits_value(digits, 0, 10) {
        Some(v) => v,
        None => {
            proof {
                assert(false);
            }
            0
        },
    };
    proof {
        lemma_digits_val_bounds(digits@);
        lemma_pow10_10();
    }
    let nr = check_nr_value(v);
    let tens = digit_str(nr / 10);
    let ones = digit_str(nr % 10);
    let mut r = String::from_str(tens);
    r.append(ones);
    proof {
        assert(r@ =~= tens@ + ones@);
        assert(r@[0] == tens@[0]);
        assert(r@[1] == ones@[0]);
    }
    r
}

/// Assemble `"NL" ∥ cc ∥ "OPEN" ∥ body` for a ten-digit body.
pub fn open_iban(digits: &str) -> (r: String)
    requires
        digits@.len() == 10,
        all_digits(digits@),
    ensures
        valid_open_iban_spec(r@),
        iban_body(r@) =~= digits@,
{
    let check = get_check_nr(digits);
    let mut r = String::from_str("NL");
    r.append(check.as_str());
    r.append("OPEN");
    r.append(digits);
    proof {
        reveal_strlit("NL");
        reveal_strlit("OPEN");
        assert(r@ =~= "NL"@ + check@ + "OPEN"@ + digits@);
        assert(r@.len() == 18);
        assert(r@[0] == 'N' && r@[1] == 'L');
        assert(r@[2] == check@[0] && r@[3] == check@[1]);
        assert(r@[4] == 'O' && r@[5] == 'P' && r@[6] == 'E' && r@[7] == 'N');
        assert(iban_body(r@) =~= digits@);
        assert(check_of(iban_body(r@)) == check_of(digits@));
    }
    r
}

/// Generate a fresh account identifier: a zero, nine random digits, and the
/// embedded checksum. Collisions with existing identifiers are possible; the
/// caller handles them.
pub fn new_iban() -> (r: String)
    ensures
        valid_open_iban_spec(r@),
        r@.len() == 18,
        iban_body(r@)[0] == '0',
{
    let mut digits = String::from_str("0");
    proof {
        reveal_strlit("0");
    }
    let mut i: usize = 0;
    while i < 9
        invariant
            i <= 9,
            digits@.len() == 1 + i,
            digits@[0] == '0',
            all_digits(digits@),
        decreases 9 - i,
    {
        let d = random_digit();
        digits.append(digit_str(d));
        i = i + 1;
    }
    open_iban(digits.as_str())
}

/// Generate a fresh authorization token: twenty random decimal digits, with
/// no checksum and no uniqueness guarantee.
pub fn new_token() -> (r: String)
    ensures
        r@.len() == 20,
        all_digits(r@),
{
    let mut digits = String::new();
    let mut i: usize = 0;
    while i < 20
        invariant
            i <= 20,
            digits@.len() == i,
            all_digits(digits@),
        decreases 20 - i,
    {
        let d = random_digit();
        digits.append(digit_str(d));
        i = i + 1;
    }
    digits
}

/// Decide whether a string is a well-formed account identifier.
pub fn valid_open_iban(iban: &str) -> (r: bool)
    ensures
        r == valid_open_iban_spec(iban@),
{
    if iban.unicode_len() != 18 {
        return false;
    }
    if iban.get_char(0) != 'N' || iban.get_char(1) != 'L' {
        return false;
    }
    if iban.get_char(4) != 'O' || iban.get_char(5) != 'P' || iban.get_char(6) != 'E'
        || iban.get_char(7) != 'N' {
        return false;
    }
    let d2 = match char_digit(iban.get_char(2)) {
        Some(d) => d,
        None => {
            return false;
        },
    };
    let d3 = match char_digit(iban.get_char(3)) {
        Some(d) => d,
        None => {
            return false;
        },
    };
    let v = match digits_value(iban, 8, 18) {
        Some(v) => v,
        None => {
            return false;
        },
    };
    proof {
        lemma_digits_val_bounds(iban@.subrange(8, 18));
        lemma_pow10_10();
    }
    let nr = check_nr_value(v);
    (d2 as u64) * 10 + (d3 as u64) == (nr as u64)
}

/// Decide whether a string may not serve as the source of a transfer:
/// it is neither the special source `"cash"` nor a well-formed identifier.
pub fn invalid_from(from: &str) -> (r: bool)
    ensures
        r == !usable_source_spec(from@),
{
    let is_cash = from.unicode_len() == 4 && from.get_char(0) == 'c' && from.get_char(1) == 'a'
        && from.get_char(2) == 's' && from.get_char(3) == 'h';
    proof {
        if is_cash {
            assert(from@ =~= seq!['c', 'a', 's', 'h']);
        } else {
            assert(!(from@ =~= seq!['c', 'a', 's', 'h']));
        }
    }
    if is_cash {
        false
    } else {
        !valid_open_iban(from)
    }
}

} // verus!
