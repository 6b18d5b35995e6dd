//! The mathematical model of a JSON document, and the decimal-text form of
//! integers that the wire format carries.
//!
//! A JSON value is modelled as the ghost tree `JVal`.  Numbers are kept as
//! their decimal text: the model never interprets a number unless a record
//! field asks for an integer, in which case `spec_parse_i64` says exactly
//! which texts denote which values.

use vstd::prelude::*;

verus! {

/// A JSON value, as mathematics.  Contracts and proofs speak of this tree;
/// numbers are carried as their decimal text.
pub ghost enum JVal {
    Null,
    Bool(bool),
    Num(Seq<char>),
    Str(Seq<char>),
    Arr(Seq<JVal>),
    Obj(Seq<(Seq<char>, JVal)>),
}

/// The value under `name` in a field list, front to back.
pub open spec fn field_lookup(fields: Seq<(Seq<char>, JVal)>, name: Seq<char>) -> Option<JVal>
    decreases fields.len(),
{
    if fields.len() == 0 {
        None
    } else if fields[0].0 == name {
        Some(fields[0].1)
    } else {
        field_lookup(fields.skip(1), name)
    }
}

/// The value under `name` when `j` is an object; `None` otherwise.
pub open spec fn json_field(j: JVal, name: Seq<char>) -> Option<JVal> {
    match j {
        JVal::Obj(fields) => field_lookup(fields, name),
        _ => None,
    }
}

// ------------------------------------------------------------------
// Decimal text of integers.
// ------------------------------------------------------------------

pub open spec fn is_digit(c: char) -> bool {
    48 <= c as int <= 57
}

pub open spec fn digit_val(c: char) -> int {
    c as int - 48
}

/// The value of a digit string, most significant digit first.
pub open spec fn digits_val(s: Seq<char>) -> int
    decreases s.len(),
{
    if s.len() == 0 {
        0
    } else {
        digits_val(s.drop_last()) * 10 + digit_val(s.last())
    }
}

pub open spec fn all_digits(s: Seq<char>) -> bool {
    forall|i: int| 0 <= i < s.len() ==> is_digit(#[trigger] s[i])
}

/// Digit text as a JSON integer writes it: at least one digit, and no
/// leading zero unless the text is "0" itself.
pub open spec fn is_canonical_digits(s: Seq<char>) -> bool {
    s.len() > 0 && all_digits(s) && (s.len() > 1 ==> s[0] != '0')
}

/// Which decimal texts denote which `i64` values: an optional minus sign,
/// then canonical digits, with "-0" excluded; `None` when the text is not of
/// that shape or the value does not fit.
pub open spec fn spec_parse_i64(s: Seq<char>) -> Option<i64> {
    if is_canonical_digits(s) {
        if digits_val(s) <= i64::MAX {
            Some(digits_val(s) as i64)
        } else {
            None
        }
    } else if s.len() > 1 && s[0] == '-' {
        let d = s.skip(1);
        if is_canonical_digits(d) && d[0] != '0' {
            if -digits_val(d) >= i64::MIN {
                Some((-digits_val(d)) as i64)
            } else {
                None
            }
        } else {
            None
        }
    } else {
        None
    }
}

pub proof fn lemma_digits_val_nonneg(s: Seq<char>)
    requires
        all_digits(s),
    ensures
        digits_val(s) >= 0,
    decreases s.len(),
{
    if s.len() > 0 {
        assert(forall|i: int| 0 <= i < s.drop_last().len() ==> is_digit(#[trigger] s.drop_last()[i]));
        lemma_digits_val_nonneg(s.drop_last());
    }
}

/// A digit string is worth at least any of its prefixes.
pub proof fn lemma_digits_val_prefix(s: Seq<char>, j: int)
    requires
        all_digits(s),
        0 <= j <= s.len(),
    ensures
        digits_val(s.take(j)) <= digits_val(s),
    decreases s.len(),
{
    if j == s.len() {
        assert(s.take(j) =~= s);
    } else {
        let s1 = s.drop_last();
        assert(forall|i: int| 0 <= i < s1.len() ==> is_digit(#[trigger] s1[i]));
        lemma_digits_val_nonneg(s1);
        lemma_digits_val_prefix(s1, j);
        assert(s.take(j) =~= s1.take(j));
        assert(digits_val(s) == digits_val(s1) * 10 + digit_val(s.last()));
        assert(digit_val(s.last()) >= 0);
    }
}

/// Reads an `i64` from its decimal text; agrees exactly with
/// `spec_parse_i64`.
pub fn parse_i64(s: &str) -> (r: Option<i64>)
    ensures
        r == spec_parse_i64(s@),
{
    let n = s.unicode_len();
    if n == 0 {
        return None;
    }
    let neg = s.get_char(0) == '-';
    let start: usize = if neg { 1 } else { 0 };
    if start == n {
        return None;
    }
    if s.get_char(start) == '0' {
        if neg || n - start > 1 {
            // "-0" and texts with a leading zero are not canonical.
            assert(neg ==> !is_canonical_digits(s@) && (s@.skip(1))[0] == '0');
            assert(!neg && n > 1 ==> s@.len() > 1 && s@[0] == '0' && !is_canonical_digits(s@));
            return None;
        }
        assert(s@ =~= seq![s@[0]]);
        assert(digits_val(s@) == digits_val(s@.drop_last()) * 10 + digit_val(s@.last()));
        assert(is_canonical_digits(s@));
        return Some(0);
    }
    // The largest magnitude that still fits, by sign.
    let limit: u128 = if neg {
        9223372036854775808u128
    } else {
        9223372036854775807u128
    };
    let mut acc: u128 = 0;
    let mut i: usize = start;
    while i < n
        invariant
            start <= i <= n,
            n == s@.len(),
            start == if neg { 1int } else { 0int },
            neg ==> s@[0] == '-',
            !neg ==> s@[0] != '0' && s@[0] != '-',
            neg ==> s@[1] != '0',
            s@[start as int] != '0',
            limit == if neg { 9223372036854775808u128 } else { 9223372036854775807u128 },
            all_digits(s@.subrange(start as int, i as int)),
            acc == digits_val(s@.subrange(start as int, i as int)),
            acc <= limit,
        decreases n - i,
    {
        let c = s.get_char(i);
        let cv = c as u32;
        if cv < 48 || cv > 57 {
            proof {
                let whole = s@.subrange(start as int, n as int);
                assert(whole[i - start as int] == s@[i as int]);
                assert(!is_digit(s@[i as int]));
                assert(!all_digits(whole));
                if !neg {
                    assert(whole =~= s@);
                } else {
                    assert(whole =~= s@.skip(1));
                    assert(!is_digit(s@[0]));
                }
            }
            return None;
        }
        let d = (cv - 48) as u128;
        let next = acc * 10 + d;
        proof {
            let pre = s@.subrange(start as int, i as int);
            let pre1 = s@.subrange(start as int, i + 1 as int);
            assert(pre1.drop_last() =~= pre);
            assert(pre1.last() == s@[i as int]);
            assert(digits_val(pre1) == digits_val(pre) * 10 + digit_val(s@[i as int]));
            assert(forall|k: int| 0 <= k < pre1.len() ==> is_digit(#[trigger] pre1[k]));
        }
        if next > limit {
            proof {
                let whole = s@.subrange(start as int, n as int);
                let pre1 = s@.subrange(start as int, i + 1 as int);
                if all_digits(whole) {
                    assert(pre1 =~= whole.take(i + 1 - start as int));
                    lemma_digits_val_prefix(whole, i + 1 - start as int);
                    assert(digits_val(whole) >= next > limit);
                }
                if !neg {
                    assert(whole =~= s@);
                    if all_digits(s@) {
                        assert(digits_val(s@) > i64::MAX);
                    }
                } else {
                    assert(whole =~= s@.skip(1));
                    if all_digits(whole) {
                        assert(-digits_val(whole) < i64::MIN);
                    }
                    assert(!is_canonical_digits(s@));
                }
            }
            return None;
        }
        acc = next;
        i = i + 1;
    }
    proof {
        let whole = s@.subrange(start as int, n as int);
        assert(whole =~= s@.subrange(start as int, i as int));
        assert(is_canonical_digits(whole));
        if !neg {
            assert(whole =~= s@);
        } else {
            assert(whole =~= s@.skip(1));
            assert(!is_canonical_digits(s@));
        }
    }
    if neg {
        if acc == 9223372036854775808u128 {
            Some(i64::MIN)
        } else {
            Some(-(acc as i64))
        }
    } else {
        Some(acc as i64)
    }
}

// ------------------------------------------------------------------
// Writing integers as decimal text.
// ------------------------------------------------------------------

pub open spec fn digit_char(d: int) -> char {
    if d == 0 {
        '0'
    } else if d == 1 {
        '1'
    } else if d == 2 {
        '2'
    } else if d == 3 {
        '3'
    } else if d == 4 {
        '4'
    } else if d == 5 {
        '5'
    } else if d == 6 {
        '6'
    } else if d == 7 {
        '7'
    } else if d == 8 {
        '8'
    } else {
        '9'
    }
}

/// The canonical digit text of a nonnegative value.
pub open spec fn nat_digits(m: nat) -> Seq<char>
    decreases m,
{
    if m < 10 {
        seq![digit_char(m as int)]
    } else {
        nat_digits(m / 10).push(digit_char((m % 10) as int))
    }
}

/// The canonical decimal text of an integer.
pub open spec fn int_text(v: int) -> Seq<char> {
    if v < 0 {
        seq!['-'] + nat_digits((-v) as nat)
    } else {
        nat_digits(v as nat)
    }
}

pub proof fn lemma_nat_digits(m: nat)
    ensures
        nat_digits(m).len() >= 1,
        all_digits(nat_digits(m)),
        digits_val(nat_digits(m)) == m,
        m >= 1 ==> nat_digits(m)[0] != '0',
        m == 0 ==> nat_digits(m) =~= seq!['0'],
    decreases m,
{
    if m < 10 {
        let s = nat_digits(m);
        assert(s =~= seq![digit_char(m as int)]);
        assert(digits_val(s) == digits_val(s.drop_last()) * 10 + digit_val(s.last()));
        assert(s.drop_last() =~= Seq::<char>::empty());
    } else {
        assert(m / 10 < m && m / 10 >= 1) by (nonlinear_arith)
            requires m >= 10,
        ;
        lemma_nat_digits(m / 10);
        let hi = nat_digits(m / 10);
        let s = nat_digits(m);
        assert(s =~= hi.push(digit_char((m % 10) as int)));
        assert(s.drop_last() =~= hi);
        assert(digits_val(s) == digits_val(hi) * 10 + digit_val(s.last()));
        assert(s.last() == digit_char((m % 10) as int));
        assert(digit_val(digit_char((m % 10) as int)) == m % 10);
        assert((m / 10) * 10 + m % 10 == m) by (nonlinear_arith);
        assert(forall|i: int| 0 <= i < s.len() ==> is_digit(#[trigger] s[i]));
        assert(s[0] == hi[0]);
    }
}

/// Parsing the canonical text of an `i64` gives that value back.
pub proof fn lemma_parse_int_text(v: i64)
    ensures
        spec_parse_i64(int_text(v as int)) == Some(v),
{
    if v >= 0 {
        lemma_nat_digits(v as nat);
        let s = int_text(v as int);
        assert(s == nat_digits(v as nat));
        if v == 0 {
            assert(s =~= seq!['0']);
            assert(is_canonical_digits(s));
        } else {
            assert(is_canonical_digits(s));
        }
    } else {
        let m = (-(v as int)) as nat;
        lemma_nat_digits(m);
        let d = nat_digits(m);
        let s = int_text(v as int);
        assert(s == seq!['-'] + d);
        assert(s.len() == 1 + d.len());
        assert(s[0] == '-');
        assert(!is_digit('-'));
        assert(!is_canonical_digits(s));
        assert(s.skip(1) =~= d);
        assert(d[0] != '0');
        assert(is_canonical_digits(d));
        assert(-digits_val(d) == v as int);
    }
}

/// Appends the canonical digit text of `v` to `out`.
fn push_u64_digits(out: &mut String, v: u64)
    ensures
        final(out)@ == old(out)@ + nat_digits(v as nat),
    decreases v,
{
    if v >= 10 {
        push_u64_digits(out, v / 10);
    }
    let d = (v % 10) as usize;
    proof {
        reveal_strlit("0123456789");
    }
    let piece = "0123456789".substring_ascii(d, d + 1);
    assert(piece@ =~= seq![digit_char(v as int % 10)]);
    out.append(piece);
    proof {
        if v < 10 {
            assert(nat_digits(v as nat) =~= seq![digit_char(v as int)]);
            assert(out@ =~= old(out)@ + nat_digits(v as nat));
        } else {
            assert(nat_digits(v as nat) == nat_digits((v as nat) / 10).push(digit_char(((v as nat) % 10) as int)));
            assert(out@ =~= old(out)@ + nat_digits(v as nat));
        }
    }
}

/// The canonical decimal text of an `i64`.
pub fn i64_to_string(v: i64) -> (r: String)
    ensures
        r@ == int_text(v as int),
{
    let mut out = String::new();
    if v >= 0 {
        push_u64_digits(&mut out, v as u64);
        assert(out@ =~= int_text(v as int));
    } else {
        out.append("-");
        proof {
            reveal_strlit("-");
            assert(out@ =~= seq!['-']);
        }
        let mag: u64 = if v == i64::MIN {
            9223372036854775808u64
        } else {
            (-v) as u64
        };
        assert(mag as nat == (-(v as int)) as nat);
        push_u64_digits(&mut out, mag);
        assert(out@ =~= int_text(v as int));
    }
    out
}

} // verus!
