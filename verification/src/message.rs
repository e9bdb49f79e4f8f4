//! The token service's notification message.
//!
//! The service reports an inbound transfer with an opaque text carrying
//! `{order_id, order_amount}`, the amount written as a decimal string. The
//! JSON reading is done by serde_json behind one trusted wrapper; turning the
//! amount string into a number is verified here, mirroring `u128::from_str`.

use crate::OrderId;
use vstd::prelude::*;
use vstd::string::StringSliceAdditionalSpecFns;
use vstd::utf8::encode_utf8;

verus! {

/// What serde_json extracts from a notification message: the `order_id` and
/// `order_amount` string fields of the JSON object the text denotes, if the
/// text is such an object and both fields are strings.
pub uninterp spec fn json_message_fields(s: Seq<char>) -> Option<(Seq<char>, Seq<char>)>;

/// Relies on `serde_json::from_str::<Value>`, `Value::get` and
/// `Value::as_str`: reads the message as a JSON object and takes its
/// `order_id` and `order_amount` string fields. The result is a function of
/// the text alone.
#[verifier::external_body]
fn extract_message_fields(msg: &str) -> (r: Option<(String, String)>)
    ensures
        r is Some <==> json_message_fields(msg@) is Some,
        (r matches Some(p) ==> json_message_fields(msg@) == Some((p.0@, p.1@))),
{
    let value: serde_json::Value = match serde_json::from_str(msg) {
        Ok(v) => v,
        Err(_) => return None,
    };
    let order_id = value.get("order_id")?.as_str()?.to_owned();
    let order_amount = value.get("order_amount")?.as_str()?.to_owned();
    Some((order_id, order_amount))
}

/// An ASCII decimal digit byte.
pub open spec fn is_ascii_digit(b: u8) -> bool {
    48 <= b && b <= 57
}

pub open spec fn all_ascii_digits(bs: Seq<u8>) -> bool {
    forall|i: int| 0 <= i < bs.len() ==> is_ascii_digit(#[trigger] bs[i])
}

/// Number a big-endian sequence of decimal digit bytes denotes.
pub open spec fn decimal_value(bs: Seq<u8>) -> int
    decreases bs.len(),
{
    if bs.len() == 0 {
        0
    } else {
        decimal_value(bs.drop_last()) * 10 + (bs.last() - 48)
    }
}

/// The number a byte string denotes under the rules of `u128::from_str`: an
/// optional leading `+`, then one or more decimal digits, and a value that
/// fits in the type.
pub open spec fn spec_parse_u128(bs: Seq<u8>) -> Option<u128> {
    let digits = if bs.len() > 0 && bs[0] == 43 {
        bs.skip(1)
    } else {
        bs
    };
    if digits.len() > 0 && all_ascii_digits(digits) && decimal_value(digits) <= u128::MAX {
        Some(decimal_value(digits) as u128)
    } else {
        None
    }
}

proof fn lemma_decimal_value_nonneg(bs: Seq<u8>)
    requires
        all_ascii_digits(bs),
    ensures
        decimal_value(bs) >= 0,
    decreases bs.len(),
{
    if bs.len() > 0 {
        assert forall|i: int| 0 <= i < bs.drop_last().len() implies is_ascii_digit(
            #[trigger] bs.drop_last()[i],
        ) by {
            assert(bs.drop_last()[i] == bs[i]);
        }
        lemma_decimal_value_nonneg(bs.drop_last());
        assert(is_ascii_digit(bs.last()));
    }
}

/// A decimal number is at least the number its first digits denote.
proof fn lemma_decimal_value_prefix(bs: Seq<u8>, j: int)
    requires
        all_ascii_digits(bs),
        0 <= j <= bs.len(),
    ensures
        decimal_value(bs.take(j)) <= decimal_value(bs),
    decreases bs.len(),
{
    if j == bs.len() {
        assert(bs.take(j) =~= bs);
    } else {
        let pre = bs.drop_last();
        assert forall|i: int| 0 <= i < pre.len() implies is_ascii_digit(#[trigger] pre[i]) by {
            assert(pre[i] == bs[i]);
        }
        assert(bs.take(j) =~= pre.take(j));
        lemma_decimal_value_prefix(pre, j);
        lemma_decimal_value_nonneg(pre);
        assert(is_ascii_digit(bs.last()));
        assert(decimal_value(bs) == decimal_value(pre) * 10 + (bs.last() - 48));
    }
}

/// Parses a decimal amount exactly as `u128::from_str` reads one.
pub fn parse_u128_decimal(s: &str) -> (r: Option<u128>)
    ensures
        r == spec_parse_u128(s.spec_bytes()),
{
    let bytes = s.as_bytes();
    let start: usize = if bytes.len() > 0 && bytes[0] == 43 {
        1
    } else {
        0
    };
    let ghost digits = bytes@.skip(start as int);
    proof {
        assert(bytes@.skip(0) =~= bytes@);
    }
    if bytes.len() == start {
        proof {
            assert(spec_parse_u128(s.spec_bytes()) is None);
        }
        return None;
    }
    let mut acc: u128 = 0;
    let mut i: usize = start;
    while i < bytes.len()
        invariant
            start <= i <= bytes@.len(),
            start == 0 || start == 1,
            bytes@ == s.spec_bytes(),
            digits == bytes@.skip(start as int),
            start == 0 ==> digits == bytes@,
            digits.len() > 0,
            (start == 1) <==> (bytes@.len() > 0 && bytes@[0] == 43),
            all_ascii_digits(bytes@.subrange(start as int, i as int)),
            acc == decimal_value(bytes@.subrange(start as int, i as int)),
        decreases bytes@.len() - i,
    {
        let b = bytes[i];
        if b < 48 || b > 57 {
            proof {
                assert(digits[i - start] == bytes@[i as int]);
                assert(!all_ascii_digits(digits));
                assert(spec_parse_u128(s.spec_bytes()) is None);
            }
            return None;
        }
        let ghost prefix = bytes@.subrange(start as int, i as int);
        let ghost extended = bytes@.subrange(start as int, i as int + 1);
        proof {
            assert(extended.drop_last() =~= prefix);
            assert(extended.last() == bytes@[i as int]);
            assert forall|k: int| 0 <= k < extended.len() implies is_ascii_digit(
                #[trigger] extended[k],
            ) by {
                if k < prefix.len() {
                    assert(extended[k] == prefix[k]);
                }
            }
            assert(decimal_value(extended) == acc * 10 + (b - 48));
        }
        let d = (b - 48) as u128;
        let acc10 = match acc.checked_mul(10) {
            Some(v) => v,
            None => {
                proof {
                    lemma_overflow_means_no_parse(bytes@, start as int, i as int);
                }
                return None;
            },
        };
        acc = match acc10.checked_add(d) {
            Some(v) => v,
            None => {
                proof {
                    lemma_overflow_means_no_parse(bytes@, start as int, i as int);
                }
                return None;
            },
        };
        i = i + 1;
    }
    proof {
        assert(bytes@.subrange(start as int, i as int) =~= digits);
    }
    Some(acc)
}

/// When the digits read so far already denote more than `u128::MAX`, the whole
/// string denotes no `u128`.
proof fn lemma_overflow_means_no_parse(bs: Seq<u8>, start: int, i: int)
    requires
        0 <= start <= i < bs.len(),
        start == 0 || start == 1,
        (start == 1) <==> (bs.len() > 0 && bs[0] == 43),
        all_ascii_digits(bs.subrange(start, i + 1)),
        decimal_value(bs.subrange(start, i + 1)) > u128::MAX,
    ensures
        spec_parse_u128(bs) is None,
{
    let digits = if bs.len() > 0 && bs[0] == 43 {
        bs.skip(1)
    } else {
        bs
    };
    assert(digits =~= bs.skip(start));
    if all_ascii_digits(digits) {
        assert(bs.subrange(start, i + 1) =~= digits.take(i + 1 - start));
        lemma_decimal_value_prefix(digits, i + 1 - start);
    }
}

/// Parse of the notification payload: the JSON fields, then the amount read
/// as a decimal number.
pub open spec fn spec_parse_message(s: Seq<char>) -> Option<(Seq<char>, u128)> {
    match json_message_fields(s) {
        Some(fields) => match spec_parse_u128(encode_utf8(fields.1)) {
            Some(v) => Some((fields.0, v)),
            None => None,
        },
        None => None,
    }
}

/// Parses a notification message into its order key and order amount.
pub fn parse_payment_message(msg: &str) -> (r: Option<(OrderId, u128)>)
    ensures
        r is Some <==> spec_parse_message(msg@) is Some,
        (r matches Some(m) ==> spec_parse_message(msg@) == Some((m.0@, m.1))),
{
    match extract_message_fields(msg) {
        Some(fields) => match parse_u128_decimal(fields.1.as_str()) {
            Some(v) => Some((fields.0, v)),
            None => None,
        },
        None => None,
    }
}

} // verus!
