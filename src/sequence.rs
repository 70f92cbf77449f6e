use vstd::prelude::*;

use crate::error::CreateError;
use crate::text::append_decimal;

verus! {

/// The member under which the node reports an account's sequence number.
/// The node writes the number as a string of decimal digits.
pub const SEQUENCE_MEMBER: &'static str = "sequence_number";

/// The string held by member `key` of the JSON object `body`, if `body` is
/// JSON, is an object, and that member holds a string.
pub uninterp spec fn json_text_member(body: Seq<char>, key: Seq<char>) -> Option<Seq<char>>;

/// The non-negative integer held by member `key` of the JSON object `body`,
/// if `body` is JSON, is an object, and that member holds such a number.
pub uninterp spec fn json_unsigned_member(body: Seq<char>, key: Seq<char>) -> Option<u64>;

/// Relies on `serde_json::from_str` into a `Value`, then `Value::get` and
/// `Value::as_str`: the string that member `key` holds, if any.
#[verifier::external_body]
fn text_member(body: &str, key: &str) -> (r: Option<String>)
    ensures
        match r {
            Some(t) => json_text_member(body@, key@) == Some(t@),
            None => json_text_member(body@, key@) is None,
        },
{
    let v: serde_json::Value = match serde_json::from_str(body) {
        Ok(v) => v,
        Err(_) => return None,
    };
    match v.get(key).and_then(serde_json::Value::as_str) {
        Some(t) => Some(t.to_string()),
        None => None,
    }
}

/// Relies on `serde_json::from_str` into a `Value`, then `Value::get` and
/// `Value::as_u64`: the non-negative integer that member `key` holds, if any.
#[verifier::external_body]
fn unsigned_member(body: &str, key: &str) -> (r: Option<u64>)
    ensures
        r == json_unsigned_member(body@, key@),
{
    let v: serde_json::Value = match serde_json::from_str(body) {
        Ok(v) => v,
        Err(_) => return None,
    };
    v.get(key).and_then(serde_json::Value::as_u64)
}

pub open spec fn is_digit(c: char) -> bool {
    '0' <= c && c <= '9'
}

pub open spec fn all_digits(s: Seq<char>) -> bool {
    forall|i: int| 0 <= i < s.len() ==> is_digit(#[trigger] s[i])
}

/// The number that a string of decimal digits denotes.
pub open spec fn digits_value(s: Seq<char>) -> nat
    decreases s.len(),
{
    if s.len() == 0 {
        0
    } else {
        (digits_value(s.drop_last()) * 10 + (s.last() as int - '0' as int)) as nat
    }
}

/// The unsigned 64-bit number that `s` spells in decimal digits alone, if any.
pub open spec fn digits_u64(s: Seq<char>) -> Option<u64> {
    if s.len() > 0 && all_digits(s) && digits_value(s) <= u64::MAX {
        Some(digits_value(s) as u64)
    } else {
        None
    }
}

/// The unsigned 64-bit number that `s` spells: decimal digits, after at
/// most one leading `+`.
pub open spec fn decimal_u64(s: Seq<char>) -> Option<u64> {
    if s.len() > 0 && s[0] == '+' {
        digits_u64(s.drop_first())
    } else {
        digits_u64(s)
    }
}

proof fn lemma_prefix_value_le(s: Seq<char>, k: int)
    requires
        all_digits(s),
        0 <= k <= s.len(),
    ensures
        digits_value(s.subrange(0, k)) <= digits_value(s),
    decreases s.len(),
{
    if k < s.len() {
        let t = s.drop_last();
        assert(all_digits(t)) by {
            assert forall|i: int| 0 <= i < t.len() implies is_digit(#[trigger] t[i]) by {
                assert(t[i] == s[i]);
            }
        }
        lemma_prefix_value_le(t, k);
        assert(t.subrange(0, k) =~= s.subrange(0, k));
        assert(is_digit(s[s.len() - 1]));
    } else {
        assert(s.subrange(0, k) =~= s);
    }
}

/// Reads a string of decimal digits, after at most one leading `+`, as an
/// unsigned 64-bit number.
pub fn parse_decimal(s: &str) -> (r: Option<u64>)
    ensures
        r == decimal_u64(s@),
{
    let n = s.unicode_len();
    if n > 0 && s.get_char(0) == '+' {
        let rest = s.substring_char(1, n);
        assert(rest@ =~= s@.drop_first());
        parse_digits(rest)
    } else {
        parse_digits(s)
    }
}

fn parse_digits(s: &str) -> (r: Option<u64>)
    ensures
        r == digits_u64(s@),
{
    let n = s.unicode_len();
    if n == 0 {
        return None;
    }
    let mut v: u64 = 0;
    let mut i: usize = 0;
    while i < n
        invariant
            n == s@.len(),
            i <= n,
            all_digits(s@.subrange(0, i as int)),
            v as nat == digits_value(s@.subrange(0, i as int)),
        decreases n - i,
    {
        let c = s.get_char(i);
        let ghost next = s@.subrange(0, i + 1);
        proof {
            assert(next.drop_last() =~= s@.subrange(0, i as int));
            assert(next.last() == c);
        }
        if !('0' <= c && c <= '9') {
            assert(!is_digit(s@[i as int]));
            return None;
        }
        proof {
            assert forall|j: int| 0 <= j < next.len() implies is_digit(#[trigger] next[j]) by {
                if j < i {
                    assert(next[j] == s@.subrange(0, i as int)[j]);
                }
            }
        }
        let d = (c as u32 - '0' as u32) as u64;
        match v.checked_mul(10) {
            Some(m) => match m.checked_add(d) {
                Some(w) => {
                    v = w;
                },
                None => {
                    proof {
                        if all_digits(s@) {
                            lemma_prefix_value_le(s@, i + 1);
                        }
                    }
                    return None;
                },
            },
            None => {
                proof {
                    if all_digits(s@) {
                        lemma_prefix_value_le(s@, i + 1);
                    }
                }
                return None;
            },
        }
        i = i + 1;
    }
    assert(s@.subrange(0, n as int) =~= s@);
    Some(v)
}

/// The sequence number that the node's account record gives, from what its
/// member holds: a decimal string, or else a native number.
pub open spec fn sequence_from_members(text: Option<Seq<char>>, number: Option<u64>) -> Result<
    u64,
    CreateError,
> {
    match text {
        Some(t) => match decimal_u64(t) {
            Some(n) => Ok(n),
            None => Err(CreateError::Parse),
        },
        None => match number {
            Some(n) => Ok(n),
            None => Err(CreateError::Parse),
        },
    }
}

/// The sequence number of an account record whose member held `text` as a
/// string or `number` as a number.
pub fn sequence_number_from_members(text: Option<String>, number: Option<u64>) -> (r: Result<
    u64,
    CreateError,
>)
    ensures
        r == sequence_from_members(
            match text {
                Some(t) => Some(t@),
                None => None,
            },
            number,
        ),
{
    match text {
        Some(t) => match parse_decimal(t.as_str()) {
            Some(n) => Ok(n),
            None => Err(CreateError::Parse),
        },
        None => match number {
            Some(n) => Ok(n),
            None => Err(CreateError::Parse),
        },
    }
}

/// The sequence number in the body of the node's account record.
pub open spec fn sequence_in_body(body: Seq<char>) -> Result<u64, CreateError> {
    sequence_from_members(
        json_text_member(body, SEQUENCE_MEMBER@),
        json_unsigned_member(body, SEQUENCE_MEMBER@),
    )
}

/// Reads the sequence number out of the body of the node's account record.
pub fn sequence_number_from_body(body: &str) -> (r: Result<u64, CreateError>)
    ensures
        r == sequence_in_body(body@),
{
    let text = text_member(body, SEQUENCE_MEMBER);
    let number = unsigned_member(body, SEQUENCE_MEMBER);
    sequence_number_from_members(text, number)
}

/// HTTP status of a found record.
pub const STATUS_OK: u16 = 200;

/// HTTP status of a missing record.
pub const STATUS_NOT_FOUND: u16 = 404;

/// Reads the node's reply to a request for an account record: 404 means the
/// account does not exist, 200 carries the record, anything else is a
/// network error that names the status.
pub fn sequence_number_from_reply(status: u16, body: &str) -> (r: Result<u64, CreateError>)
    ensures
        status == STATUS_NOT_FOUND ==> r == Err::<u64, CreateError>(CreateError::NotFound),
        status == STATUS_OK ==> r == sequence_in_body(body@),
        status != STATUS_OK && status != STATUS_NOT_FOUND ==> r is Err && r->Err_0 is Network
            && r->Err_0->Network_0@ == "unexpected status "@ + crate::text::decimal_of(
            status as nat,
        ),
{
    if status == STATUS_NOT_FOUND {
        Err(CreateError::NotFound)
    } else if status == STATUS_OK {
        sequence_number_from_body(body)
    } else {
        let mut m = String::from_str("unexpected status ");
        append_decimal(&mut m, status as u64);
        Err(CreateError::Network(m))
    }
}

} // verus!
