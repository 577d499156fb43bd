//! Decimal text encoding for persisted counters.
//!
//! Durable records hold unsigned integers as base-10 ASCII text. Encoding is
//! canonical (no leading zeros, one digit for zero); decoding accepts any
//! non-empty digit string whose value fits in a `u64` and rejects everything
//! else, so a malformed record reads as absent.
use vstd::prelude::*;

verus! {

/// The ten decimal digit characters, in order of value.
pub open spec fn char_of_digit(d: nat) -> char {
    if d == 0 {
        '0'
    } else if d == 1 {
        '1'
    } else if d == 2 {
        '2'
    } else if d == 3 {
        '3'
    } else if d == 4 {
        '4'
    } else if d == 5 {
        '5'
    } else if d == 6 {
        '6'
    } else if d == 7 {
        '7'
    } else if d == 8 {
        '8'
    } else {
        '9'
    }
}

pub open spec fn is_digit_char(c: char) -> bool {
    c == '0' || c == '1' || c == '2' || c == '3' || c == '4' || c == '5' || c == '6' || c == '7'
        || c == '8' || c == '9'
}

/// Numeric value of a decimal digit character.
pub open spec fn digit_of_char(c: char) -> nat {
    if c == '0' {
        0
    } else if c == '1' {
        1
    } else if c == '2' {
        2
    } else if c == '3' {
        3
    } else if c == '4' {
        4
    } else if c == '5' {
        5
    } else if c == '6' {
        6
    } else if c == '7' {
        7
    } else if c == '8' {
        8
    } else {
        9
    }
}

/// Canonical base-10 rendering of `v`, most significant digit first.
pub open spec fn dec_digits(v: nat) -> Seq<char>
    decreases v,
{
    if v < 10 {
        seq![char_of_digit(v)]
    } else {
        dec_digits(v / 10).push(char_of_digit(v % 10))
    }
}

pub open spec fn all_digits(s: Seq<char>) -> bool {
    forall|i: int| 0 <= i < s.len() ==> is_digit_char(s[i])
}

/// Value of a digit string, read most significant digit first.
pub open spec fn dec_value(s: Seq<char>) -> nat
    decreases s.len(),
{
    if s.len() == 0 {
        0
    } else {
        dec_value(s.drop_last()) * 10 + digit_of_char(s.last())
    }
}

/// What decoding a durable record yields: a value for every non-empty digit
/// string that fits in a `u64`, absence for everything else.
pub open spec fn parse_spec(s: Seq<char>) -> Option<u64> {
    if s.len() > 0 && all_digits(s) && dec_value(s) <= u64::MAX {
        Some(dec_value(s) as u64)
    } else {
        None
    }
}

/// The canonical rendering is made of digits.
pub proof fn lemma_dec_digits_all_digits(v: nat)
    ensures
        all_digits(dec_digits(v)),
        dec_digits(v).len() >= 1,
    decreases v,
{
    if v < 10 {
    } else {
        lemma_dec_digits_all_digits(v / 10);
        assert forall|i: int| 0 <= i < dec_digits(v).len() implies is_digit_char(
            dec_digits(v)[i],
        ) by {
            if i < dec_digits(v / 10).len() {
                assert(dec_digits(v)[i] == dec_digits(v / 10)[i]);
            }
        }
    }
}

/// Decoding inverts encoding: the digits of `v` read back as `v`.
pub proof fn lemma_dec_value_of_digits(v: nat)
    ensures
        dec_value(dec_digits(v)) == v,
    decreases v,
{
    if v < 10 {
        let s = dec_digits(v);
        assert(s.drop_last() =~= Seq::<char>::empty());
        assert(s.last() == char_of_digit(v));
        assert(digit_of_char(char_of_digit(v)) == v);
        assert(dec_value(s.drop_last()) == 0);
        assert(dec_value(s) == v);
    } else {
        lemma_dec_value_of_digits(v / 10);
        let s = dec_digits(v);
        assert(s.drop_last() =~= dec_digits(v / 10));
        assert(s.last() == char_of_digit(v % 10));
        assert(digit_of_char(char_of_digit(v % 10)) == v % 10);
        assert(dec_value(s) == dec_value(s.drop_last()) * 10 + digit_of_char(s.last()));
        assert(dec_value(s) == (v / 10) * 10 + v % 10);
        assert((v / 10) * 10 + v % 10 == v) by (nonlinear_arith);
        assert(dec_value(s) == v);
    }
}

/// Round trip: encoding a representable value and decoding it yields the
/// value back.
pub proof fn lemma_round_trip(v: u64)
    ensures
        parse_spec(dec_digits(v as nat)) == Some(v),
{
    lemma_dec_digits_all_digits(v as nat);
    lemma_dec_value_of_digits(v as nat);
}

/// The value of a digit-string prefix never exceeds the value of the whole.
pub proof fn lemma_dec_value_prefix(s: Seq<char>, i: int)
    requires
        all_digits(s),
        0 <= i <= s.len(),
    ensures
        dec_value(s.subrange(0, i)) <= dec_value(s),
    decreases s.len() - i,
{
    if i == s.len() {
        assert(s.subrange(0, i) =~= s);
    } else {
        let p = s.subrange(0, i);
        let q = s.subrange(0, i + 1);
        assert(q.drop_last() =~= p);
        assert(q.last() == s[i]);
        assert(dec_value(q) == dec_value(p) * 10 + digit_of_char(s[i]));
        assert(dec_value(p) * 10 >= dec_value(p)) by (nonlinear_arith);
        lemma_dec_value_prefix(s, i + 1);
    }
}

fn digit_of(c: char) -> (r: Option<u64>)
    ensures
        r is Some <==> is_digit_char(c),
        r is Some ==> r->0 == digit_of_char(c) && r->0 < 10,
{
    match c {
        '0' => Some(0),
        '1' => Some(1),
        '2' => Some(2),
        '3' => Some(3),
        '4' => Some(4),
        '5' => Some(5),
        '6' => Some(6),
        '7' => Some(7),
        '8' => Some(8),
        '9' => Some(9),
        _ => None,
    }
}

/// Decode base-10 ASCII text; yields `None` on an empty string, a non-digit
/// character, or a value that does not fit in a `u64`.
pub fn decode_u64(s: &str) -> (r: Option<u64>)
    ensures
        r == parse_spec(s@),
{
    let len = s.unicode_len();
    if len == 0 {
        return None;
    }
    let mut acc: u64 = 0;
    let mut i: usize = 0;
    proof {
        assert(s@.subrange(0, 0) =~= Seq::<char>::empty());
    }
    while i < len
        invariant
            0 < len == s@.len() <= usize::MAX,
            0 <= i <= len,
            all_digits(s@.subrange(0, i as int)),
            acc == dec_value(s@.subrange(0, i as int)),
        decreases len - i,
    {
        let c = s.get_char(i);
        let ghost p = s@.subrange(0, i as int);
        let ghost q = s@.subrange(0, i as int + 1);
        proof {
            assert(q.drop_last() =~= p);
            assert(q.last() == s@[i as int]);
        }
        match digit_of(c) {
            None => {
                assert(!is_digit_char(s@[i as int]));
                return None;
            },
            Some(d) => {
                proof {
                    assert(all_digits(q)) by {
                        assert(forall|j: int| 0 <= j < i ==> q[j] == p[j]);
                    }
                    assert(dec_value(q) == acc * 10 + digit_of_char(s@[i as int]));
                    if acc * 10 + d > u64::MAX {
                        if all_digits(s@) {
                            lemma_dec_value_prefix(s@, i as int + 1);
                        }
                        assert(parse_spec(s@) is None);
                    }
                }
                match acc.checked_mul(10) {
                    None => {
                        return None;
                    },
                    Some(t) => {
                        match t.checked_add(d) {
                            None => {
                                return None;
                            },
                            Some(n) => {
                                acc = n;
                            },
                        }
                    },
                }
            },
        }
        i = i + 1;
    }
    proof {
        assert(s@.subrange(0, len as int) =~= s@);
    }
    Some(acc)
}

fn digit_str(d: u64) -> (s: &'static str)
    requires
        d < 10,
    ensures
        s@ =~= seq![char_of_digit(d as nat)],
{
    proof {
        reveal_strlit("0");
        reveal_strlit("1");
        reveal_strlit("2");
        reveal_strlit("3");
        reveal_strlit("4");
        reveal_strlit("5");
        reveal_strlit("6");
        reveal_strlit("7");
        reveal_strlit("8");
        reveal_strlit("9");
    }
    match d {
        0 => "0",
        1 => "1",
        2 => "2",
        3 => "3",
        4 => "4",
        5 => "5",
        6 => "6",
        7 => "7",
        8 => "8",
        _ => "9",
    }
}

/// Encode `v` as base-10 ASCII text.
pub fn encode_u64(v: u64) -> (s: String)
    ensures
        s@ == dec_digits(v as nat),
    decreases v,
{
    if v < 10 {
        let s = String::from_str(digit_str(v));
        assert(s@ =~= dec_digits(v as nat));
        s
    } else {
        let mut s = encode_u64(v / 10);
        s.append(digit_str(v % 10));
        assert(s@ =~= dec_digits(v as nat));
        s
    }
}

} // verus!
