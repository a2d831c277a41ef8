//! Small text helpers: string equality, UTF-8 decoding, and decimal
//! rendering of integers, with exact specifications.

use vstd::prelude::*;

verus! {

use vstd::string::StringExecFns;

/// Relies on `str`'s `PartialEq`: equality of string slices is equality of
/// their text.
#[verifier::external_body]
pub(crate) fn str_eq(a: &str, b: &str) -> (r: bool)
    ensures
        r == (a@ == b@),
{
    a == b
}

/// Relies on `String::from_utf8`: it succeeds exactly on valid UTF-8 and
/// yields its decoding. `vstd::utf8` states what valid UTF-8 and its
/// decoding are.
#[verifier::external_body]
pub(crate) fn string_from_utf8(bytes: Vec<u8>) -> (r: Option<String>)
    ensures
        match r {
            Some(s) => vstd::utf8::valid_utf8(bytes@) && s@ == vstd::utf8::decode_utf8(bytes@),
            None => !vstd::utf8::valid_utf8(bytes@),
        },
{
    match String::from_utf8(bytes) {
        Ok(s) => Some(s),
        Err(_) => None,
    }
}

/// The decimal digit characters, in value order.
pub open spec fn dec_digits() -> Seq<char> {
    seq!['0', '1', '2', '3', '4', '5', '6', '7', '8', '9']
}

/// The decimal rendering of `n`, most significant digit first, without
/// leading zeros (`0` renders as `"0"`).
pub open spec fn dec_string_of(n: nat) -> Seq<char>
    decreases n,
{
    if n < 10 {
        seq![dec_digits()[n as int]]
    } else {
        dec_string_of(n / 10).push(dec_digits()[(n % 10) as int])
    }
}

/// The one-character string for the decimal digit `d`.
fn dec_digit_str(d: u64) -> (r: &'static str)
    requires
        d < 10,
    ensures
        r@ =~= seq![dec_digits()[d as int]],
{
    proof {
        reveal_strlit("0");
        reveal_strlit("1");
        reveal_strlit("2");
        reveal_strlit("3");
        reveal_strlit("4");
        reveal_strlit("5");
        reveal_strlit("6");
        reveal_strlit("7");
        reveal_strlit("8");
        reveal_strlit("9");
    }
    match d {
        0 => "0",
        1 => "1",
        2 => "2",
        3 => "3",
        4 => "4",
        5 => "5",
        6 => "6",
        7 => "7",
        8 => "8",
        _ => "9",
    }
}

/// The rendering of the tail of `ds` from `i` starts with the digit at `i`.
proof fn lemma_digits_rendered_head(ds: Seq<u64>, i: int)
    requires
        0 <= i < ds.len(),
    ensures
        digits_rendered(ds.skip(i)) == seq![dec_digits()[ds[i] as int]] + digits_rendered(
            ds.skip(i + 1),
        ),
{
    let s = ds.skip(i);
    assert(s[0] == ds[i]);
    assert(s.drop_first() =~= ds.skip(i + 1));
}

/// Renders `n` in decimal.
pub fn u64_to_dec_string(n: u64) -> (r: String)
    ensures
        r@ == dec_string_of(n as nat),
{
    let mut rest = n;
    // Digits of `n` below the leading one, most significant first.
    let mut digits: Vec<u64> = Vec::new();
    proof {
        assert(dec_string_of(n as nat) + digits_rendered(digits@) =~= dec_string_of(n as nat));
    }
    while rest >= 10
        invariant
            forall|i: int| 0 <= i < digits@.len() ==> #[trigger] digits@[i] < 10,
            dec_string_of(n as nat) == dec_string_of(rest as nat) + digits_rendered(digits@),
        decreases rest,
    {
        let d = rest % 10;
        proof {
            let s2 = digits@.insert(0, d);
            assert(s2.drop_first() =~= digits@);
            assert(s2[0] == d);
            assert(dec_string_of(rest as nat) == dec_string_of((rest / 10) as nat).push(
                dec_digits()[(rest % 10) as int],
            ));
            assert(dec_string_of((rest / 10) as nat) + digits_rendered(s2) =~= dec_string_of(
                rest as nat,
            ) + digits_rendered(digits@));
        }
        digits.insert(0, d);
        rest = rest / 10;
    }
    let first = dec_digit_str(rest);
    let mut out = String::from_str(first);
    proof {
        assert(digits@.skip(0) =~= digits@);
        assert(out@ + digits_rendered(digits@.skip(0)) =~= dec_string_of(rest as nat)
            + digits_rendered(digits@));
    }
    let mut i: usize = 0;
    while i < digits.len()
        invariant
            forall|j: int| 0 <= j < digits@.len() ==> #[trigger] digits@[j] < 10,
            i <= digits@.len(),
            dec_string_of(n as nat) == out@ + digits_rendered(digits@.skip(i as int)),
        decreases digits@.len() - i,
    {
        let d = digits[i];
        proof {
            lemma_digits_rendered_head(digits@, i as int);
        }
        out.append(dec_digit_str(d));
        i += 1;
    }
    proof {
        assert(digits@.skip(digits@.len() as int) =~= Seq::<u64>::empty());
        assert(out@ + digits_rendered(Seq::<u64>::empty()) =~= out@);
    }
    out
}

/// The rendering of a list of digit values, most significant first.
pub open spec fn digits_rendered(ds: Seq<u64>) -> Seq<char>
    decreases ds.len(),
{
    if ds.len() == 0 {
        Seq::empty()
    } else {
        seq![dec_digits()[ds[0] as int]] + digits_rendered(ds.drop_first())
    }
}

} // verus!
