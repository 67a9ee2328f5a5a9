use vstd::prelude::*;
use vstd::string::StringExecFns;

verus! {

/// The character for one decimal digit.
pub open spec fn digit_char(d: int) -> char {
    if d == 0 { '0' }
    else if d == 1 { '1' }
    else if d == 2 { '2' }
    else if d == 3 { '3' }
    else if d == 4 { '4' }
    else if d == 5 { '5' }
    else if d == 6 { '6' }
    else if d == 7 { '7' }
    else if d == 8 { '8' }
    else { '9' }
}

/// The decimal rendering of a non-negative integer, most significant digit
/// first, with no leading zeros (a lone `'0'` for zero).
pub open spec fn dec_digits(n: nat) -> Seq<char>
    decreases n,
{
    if n < 10 {
        seq![digit_char(n as int)]
    } else {
        dec_digits(n / 10) + seq![digit_char((n % 10) as int)]
    }
}

/// The decimal rendering of a signed integer: a minus sign before the
/// digits when negative.
pub open spec fn dec_int(v: int) -> Seq<char> {
    if v < 0 {
        seq!['-'] + dec_digits((-v) as nat)
    } else {
        dec_digits(v as nat)
    }
}

/// The digit characters of `ds` in reverse order: the first collected
/// (least significant) digit comes out last.
spec fn rev_chars(ds: Seq<u64>) -> Seq<char>
    decreases ds.len(),
{
    if ds.len() == 0 {
        Seq::empty()
    } else {
        rev_chars(ds.drop_first()) + seq![digit_char(ds.first() as int)]
    }
}

proof fn lemma_rev_chars_push(ds: Seq<u64>, d: u64)
    ensures
        rev_chars(ds.push(d)) == seq![digit_char(d as int)] + rev_chars(ds),
    decreases ds.len(),
{
    assert(ds.push(d)[ds.len() as int] == d);
    if ds.len() == 0 {
        assert(ds.push(d).first() == d);
        assert(ds.push(d).drop_first() =~= Seq::<u64>::empty());
        assert(rev_chars(ds.push(d)) == rev_chars(ds.push(d).drop_first())
            + seq![digit_char(ds.push(d).first() as int)]);
        assert(rev_chars(Seq::<u64>::empty()) == Seq::<char>::empty());
        assert(rev_chars(ds) == Seq::<char>::empty());
        assert(rev_chars(ds.push(d)) =~= seq![digit_char(d as int)] + rev_chars(ds));
    } else {
        assert(ds.push(d)[0] == ds[0]);
        assert(ds.push(d).first() == ds.first());
        assert(ds.push(d).drop_first() =~= ds.drop_first().push(d));
        lemma_rev_chars_push(ds.drop_first(), d);
        assert(rev_chars(ds.push(d)) =~= seq![digit_char(d as int)] + rev_chars(ds));
    }
}

/// A one-character string for one decimal digit.
fn digit_str(d: u64) -> (s: &'static str)
    requires
        d < 10,
    ensures
        s@ == seq![digit_char(d as int)],
{
    proof {
        reveal_strlit("0");
        reveal_strlit("1");
        reveal_strlit("2");
        reveal_strlit("3");
        reveal_strlit("4");
        reveal_strlit("5");
        reveal_strlit("6");
        reveal_strlit("7");
        reveal_strlit("8");
        reveal_strlit("9");
    }
    if d == 0 { proof { assert("0"@ =~= seq![digit_char(0)]); } "0" }
    else if d == 1 { proof { assert("1"@ =~= seq![digit_char(1)]); } "1" }
    else if d == 2 { proof { assert("2"@ =~= seq![digit_char(2)]); } "2" }
    else if d == 3 { proof { assert("3"@ =~= seq![digit_char(3)]); } "3" }
    else if d == 4 { proof { assert("4"@ =~= seq![digit_char(4)]); } "4" }
    else if d == 5 { proof { assert("5"@ =~= seq![digit_char(5)]); } "5" }
    else if d == 6 { proof { assert("6"@ =~= seq![digit_char(6)]); } "6" }
    else if d == 7 { proof { assert("7"@ =~= seq![digit_char(7)]); } "7" }
    else if d == 8 { proof { assert("8"@ =~= seq![digit_char(8)]); } "8" }
    else { proof { assert("9"@ =~= seq![digit_char(9)]); } "9" }
}

/// Render an unsigned integer in decimal.
pub fn u64_to_string(n: u64) -> (s: String)
    ensures
        s@ == dec_digits(n as nat),
{
    let mut digits: Vec<u64> = Vec::new();
    if n == 0 {
        digits.push(0);
        proof {
            assert(digits@ =~= seq![0u64]);
            assert(digits@.first() == 0u64);
            assert(digits@.drop_first() =~= Seq::<u64>::empty());
            assert(rev_chars(digits@) == rev_chars(digits@.drop_first())
                + seq![digit_char(digits@.first() as int)]);
            assert(rev_chars(Seq::<u64>::empty()) == Seq::<char>::empty());
            assert(dec_digits(0) == seq![digit_char(0)]);
            assert(rev_chars(digits@) =~= dec_digits(n as nat));
        }
    } else {
        let mut m: u64 = n;
        while m > 0
            invariant
                m <= n,
                forall|i: int| 0 <= i < digits@.len() ==> digits@[i] < 10,
                if m > 0 {
                    dec_digits(n as nat) == dec_digits(m as nat) + rev_chars(digits@)
                } else {
                    dec_digits(n as nat) == rev_chars(digits@)
                },
            decreases m,
        {
            let ghost old_m = m as nat;
            let ghost old_digits = digits@;
            let d = m % 10;
            digits.push(d);
            m = m / 10;
            proof {
                lemma_rev_chars_push(old_digits, (old_m % 10) as u64);
                if old_m >= 10 {
                    assert(dec_digits(old_m) == dec_digits(old_m / 10)
                        + seq![digit_char((old_m % 10) as int)]);
                    assert(dec_digits(n as nat) =~= dec_digits((old_m / 10) as nat)
                        + rev_chars(digits@));
                } else {
                    assert(dec_digits(old_m) == seq![digit_char(old_m as int)]);
                    assert(dec_digits(n as nat) =~= rev_chars(digits@));
                }
            }
        }
    }
    let mut s = String::new();
    let mut i: usize = digits.len();
    assert(digits@.skip(i as int) =~= Seq::<u64>::empty());
    while i > 0
        invariant
            i <= digits@.len(),
            forall|j: int| 0 <= j < digits@.len() ==> digits@[j] < 10,
            s@ == rev_chars(digits@.skip(i as int)),
        decreases i,
    {
        let ghost old_i = i as int;
        i = i - 1;
        let part = digit_str(digits[i]);
        s.append(part);
        proof {
            assert(digits@.skip(old_i - 1).drop_first() =~= digits@.skip(old_i));
            assert(digits@.skip(old_i - 1).first() == digits@[old_i - 1]);
        }
    }
    assert(digits@.skip(0) =~= digits@);
    s
}

/// Render a signed integer in decimal, with a leading minus sign when
/// negative.
pub fn i64_to_string(v: i64) -> (s: String)
    ensures
        s@ == dec_int(v as int),
{
    if v < 0 {
        let mut s = "-".to_owned();
        proof {
            reveal_strlit("-");
            assert("-"@ =~= seq!['-']);
        }
        let magnitude: u64 = (-(v + 1)) as u64 + 1;
        assert(magnitude as nat == (-(v as int)) as nat);
        let rest = u64_to_string(magnitude);
        s.append(rest.as_str());
        s
    } else {
        u64_to_string(v as u64)
    }
}

} // verus!
