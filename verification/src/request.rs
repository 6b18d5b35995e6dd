//! Building request URLs: paths with the period and location written in, and
//! query values carried percent-encoded.

use vstd::prelude::*;
use vstd::utf8::encode_utf8;
use crate::json::{int_text, i64_to_string};

verus! {

/// The bytes a query value may carry as they are: letters, digits, and
/// `- . _ ~`.  Every other byte travels as `%` and two hex digits.
pub open spec fn is_unreserved(b: u8) -> bool {
    (48 <= b && b <= 57) || (65 <= b && b <= 90) || (97 <= b && b <= 122) || b == 45 || b == 46
        || b == 95 || b == 126
}

pub open spec fn hex_upper(d: int) -> char {
    if d == 0 {
        '0'
    } else if d == 1 {
        '1'
    } else if d == 2 {
        '2'
    } else if d == 3 {
        '3'
    } else if d == 4 {
        '4'
    } else if d == 5 {
        '5'
    } else if d == 6 {
        '6'
    } else if d == 7 {
        '7'
    } else if d == 8 {
        '8'
    } else if d == 9 {
        '9'
    } else if d == 10 {
        'A'
    } else if d == 11 {
        'B'
    } else if d == 12 {
        'C'
    } else if d == 13 {
        'D'
    } else if d == 14 {
        'E'
    } else {
        'F'
    }
}

/// The percent-encoding of one byte.
pub open spec fn encoded_byte(b: u8) -> Seq<char> {
    if is_unreserved(b) {
        seq![b as char]
    } else {
        seq!['%', hex_upper(b as int / 16), hex_upper(b as int % 16)]
    }
}

/// The percent-encoding of a byte string.
pub open spec fn urlencoded(bytes: Seq<u8>) -> Seq<char>
    decreases bytes.len(),
{
    if bytes.len() == 0 {
        Seq::<char>::empty()
    } else {
        encoded_byte(bytes[0]) + urlencoded(bytes.drop_first())
    }
}

pub proof fn lemma_urlencoded_concat(a: Seq<u8>, b: Seq<u8>)
    ensures
        urlencoded(a + b) == urlencoded(a) + urlencoded(b),
    decreases a.len(),
{
    if a.len() == 0 {
        assert(a + b =~= b);
        assert(urlencoded(a) + urlencoded(b) =~= urlencoded(b));
    } else {
        assert((a + b).drop_first() =~= a.drop_first() + b);
        lemma_urlencoded_concat(a.drop_first(), b);
        assert(urlencoded(a + b) =~= urlencoded(a) + urlencoded(b));
    }
}

/// Percent-encodes a text's UTF-8 bytes for use as a query value.
pub fn urlencode(s: &str) -> (r: String)
    ensures
        r@ == urlencoded(encode_utf8(s@)),
{
    let bytes = s.as_bytes();
    let mut out = String::new();
    let mut i: usize = 0;
    while i < bytes.len()
        invariant
            i <= bytes.len(),
            bytes@ == encode_utf8(s@),
            out@ == urlencoded(bytes@.take(i as int)),
        decreases bytes.len() - i,
    {
        let b = bytes[i];
        if (48 <= b && b <= 57) || (65 <= b && b <= 90) || (97 <= b && b <= 122) || b == 45
            || b == 46 || b == 95 || b == 126 {
            let idx: usize = if 48 <= b && b <= 57 {
                (b - 48) as usize
            } else if 65 <= b && b <= 90 {
                (b - 55) as usize
            } else if 97 <= b && b <= 122 {
                (b - 61) as usize
            } else if b == 45 {
                62
            } else if b == 46 {
                63
            } else if b == 95 {
                64
            } else {
                65
            };
            proof {
                reveal_strlit("0123456789ABCDEFGHIJKLMNOPQRSTUVWXYZabcdefghijklmnopqrstuvwxyz-._~");
            }
            let piece = "0123456789ABCDEFGHIJKLMNOPQRSTUVWXYZabcdefghijklmnopqrstuvwxyz-._~"
                .substring_ascii(idx, idx + 1);
            assert(piece@ =~= encoded_byte(b));
            out.append(piece);
        } else {
            let hi = (b / 16) as usize;
            let lo = (b % 16) as usize;
            proof {
                reveal_strlit("%");
                reveal_strlit("0123456789ABCDEF");
            }
            out.append("%");
            let h = "0123456789ABCDEF".substring_ascii(hi, hi + 1);
            assert(h@ =~= seq![hex_upper(b as int / 16)]);
            out.append(h);
            let l = "0123456789ABCDEF".substring_ascii(lo, lo + 1);
            assert(l@ =~= seq![hex_upper(b as int % 16)]);
            out.append(l);
            assert(out@ =~= urlencoded(bytes@.take(i as int)) + encoded_byte(b));
        }
        proof {
            assert(bytes@.take(i + 1) =~= bytes@.take(i as int) + seq![bytes@[i as int]]);
            lemma_urlencoded_concat(bytes@.take(i as int), seq![bytes@[i as int]]);
            assert(seq![bytes@[i as int]].drop_first() =~= Seq::<u8>::empty());
            assert(seq![bytes@[i as int]][0] == bytes@[i as int]);
            assert(urlencoded(seq![bytes@[i as int]]) == encoded_byte(bytes@[i as int])
                + urlencoded(seq![bytes@[i as int]].drop_first()));
            assert(encoded_byte(b) + Seq::<char>::empty() =~= encoded_byte(b));
            assert(urlencoded(seq![bytes@[i as int]]) =~= encoded_byte(b));
            assert(out@ =~= urlencoded(bytes@.take(i + 1)));
        }
        i = i + 1;
    }
    proof {
        assert(bytes@.take(bytes@.len() as int) =~= bytes@);
    }
    out
}

/// The URL of an hourly-forecast request.
pub open spec fn spec_hourly_url(base: Seq<char>, period: i8, loc: i32, key: Seq<char>) -> Seq<
    char,
> {
    base + "/forecasts/v1/hourly/"@ + int_text(period as int) + "hour/"@ + int_text(loc as int)
        + "?apikey="@ + urlencoded(encode_utf8(key)) + "&details=true&metric=true"@
}

/// The URL of a daily-forecast request.
pub open spec fn spec_daily_url(base: Seq<char>, period: i8, loc: i32, key: Seq<char>) -> Seq<
    char,
> {
    base + "/forecasts/v1/daily/"@ + int_text(period as int) + "day/"@ + int_text(loc as int)
        + "?apikey="@ + urlencoded(encode_utf8(key)) + "&details=true&metric=true"@
}

/// The URL of a current-conditions request.
pub open spec fn spec_current_url(base: Seq<char>, loc: i32, key: Seq<char>) -> Seq<char> {
    base + "/currentconditions/v1/"@ + int_text(loc as int) + "?apikey="@ + urlencoded(
        encode_utf8(key),
    ) + "&details=true&language=en-us"@
}

/// Writes the hourly-forecast URL.
pub fn build_hourly_url(base: &String, period: i8, loc: i32, key: &String) -> (r: String)
    ensures
        r@ == spec_hourly_url(base@, period, loc, key@),
{
    let mut url = base.clone();
    url.append("/forecasts/v1/hourly/");
    let p = i64_to_string(period as i64);
    url.append(p.as_str());
    url.append("hour/");
    let l = i64_to_string(loc as i64);
    url.append(l.as_str());
    url.append("?apikey=");
    let k = urlencode(key.as_str());
    url.append(k.as_str());
    url.append("&details=true&metric=true");
    assert(url@ =~= spec_hourly_url(base@, period, loc, key@));
    url
}

/// Writes the daily-forecast URL.
pub fn build_daily_url(base: &String, period: i8, loc: i32, key: &String) -> (r: String)
    ensures
        r@ == spec_daily_url(base@, period, loc, key@),
{
    let mut url = base.clone();
    url.append("/forecasts/v1/daily/");
    let p = i64_to_string(period as i64);
    url.append(p.as_str());
    url.append("day/");
    let l = i64_to_string(loc as i64);
    url.append(l.as_str());
    url.append("?apikey=");
    let k = urlencode(key.as_str());
    url.append(k.as_str());
    url.append("&details=true&metric=true");
    assert(url@ =~= spec_daily_url(base@, period, loc, key@));
    url
}

/// Writes the current-conditions URL.
pub fn build_current_url(base: &String, loc: i32, key: &String) -> (r: String)
    ensures
        r@ == spec_current_url(base@, loc, key@),
{
    let mut url = base.clone();
    url.append("/currentconditions/v1/");
    let l = i64_to_string(loc as i64);
    url.append(l.as_str());
    url.append("?apikey=");
    let k = urlencode(key.as_str());
    url.append(k.as_str());
    url.append("&details=true&language=en-us");
    assert(url@ =~= spec_current_url(base@, loc, key@));
    url
}

} // verus!
