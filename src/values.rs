use vstd::prelude::*;
use crate::json::{field, get_field, integer_of, number_of, parse_number, JsonValue};

verus! {

/// A type that can be read from a JSON value. `decodes(v, x)` says that `x`
/// is what `v` holds; `decode` finds that value, or reports that there is none.
pub trait Decode: Sized {
    spec fn decodes(v: JsonValue, x: Self) -> bool;

    fn decode(v: &JsonValue) -> (r: Option<Self>)
        ensures
            r matches Some(x) ==> Self::decodes(*v, x),
            r is None ==> forall|x: Self| !#[trigger] Self::decodes(*v, x);
}

/// A required member: present, and holding `x`.
pub open spec fn required<T: Decode>(v: JsonValue, key: Seq<char>, x: T) -> bool {
    field(v, key) matches Some(j) && T::decodes(j, x)
}

/// An optional member: absent or `null` give `None`, anything else must decode.
pub open spec fn optional<T: Decode>(v: JsonValue, key: Seq<char>, x: Option<T>) -> bool {
    match field(v, key) {
        None => x is None,
        Some(JsonValue::Null) => x is None,
        Some(j) => x matches Some(y) && T::decodes(j, y),
    }
}

/// Decodes the required member `key` of an object.
pub fn take_required<T: Decode>(v: &JsonValue, key: &str) -> (r: Option<T>)
    ensures
        r matches Some(x) ==> required(*v, key@, x),
        r is None ==> forall|x: T| !#[trigger] required(*v, key@, x),
{
    match get_field(v, key) {
        Some(j) => T::decode(j),
        None => None,
    }
}

/// Decodes the optional member `key` of an object; `None` when it is present
/// and does not decode.
pub fn take_optional<T: Decode>(v: &JsonValue, key: &str) -> (r: Option<Option<T>>)
    ensures
        r matches Some(x) ==> optional(*v, key@, x),
        r is None ==> forall|x: Option<T>| !#[trigger] optional(*v, key@, x),
{
    match get_field(v, key) {
        None => Some(None),
        Some(JsonValue::Null) => Some(None),
        Some(j) => match T::decode(j) {
            Some(y) => Some(Some(y)),
            None => None,
        },
    }
}

/// One of two shapes of payload, told apart by which one it matches.
#[derive(Debug)]
pub enum Union<L, R> {
    Left(L),
    Right(R),
}

/// The left shape is tried first; the right one is taken only where the left
/// one does not match.
impl<L: Decode, R: Decode> Decode for Union<L, R> {
    open spec fn decodes(v: JsonValue, x: Self) -> bool {
        match x {
            Union::Left(a) => L::decodes(v, a),
            Union::Right(b) => (forall|a: L| !#[trigger] L::decodes(v, a)) && R::decodes(v, b),
        }
    }

    fn decode(v: &JsonValue) -> (r: Option<Self>) {
        match L::decode(v) {
            Some(a) => Some(Union::Left(a)),
            None => match R::decode(v) {
                Some(b) => Some(Union::Right(b)),
                None => None,
            },
        }
    }
}

impl<T: Decode> Decode for Vec<T> {
    open spec fn decodes(v: JsonValue, x: Self) -> bool {
        v matches JsonValue::Array(items) && items@.len() == x@.len() && forall|i: int|
            0 <= i < x@.len() ==> T::decodes(#[trigger] items@[i], x@[i])
    }

    fn decode(v: &JsonValue) -> (r: Option<Self>) {
        match v {
            JsonValue::Array(items) => {
                let mut out: Vec<T> = Vec::new();
                let mut i: usize = 0;
                while i < items.len()
                    invariant
                        *v == JsonValue::Array(*items),
                        i <= items@.len(),
                        out@.len() == i,
                        forall|k: int| 0 <= k < i ==> T::decodes(#[trigger] items@[k], out@[k]),
                    decreases items@.len() - i,
                {
                    match T::decode(&items[i]) {
                        Some(x) => out.push(x),
                        None => {
                            assert forall|xs: Vec<T>| !#[trigger] Self::decodes(*v, xs) by {
                                if Self::decodes(*v, xs) {
                                    assert(T::decodes(items@[i as int], xs@[i as int]));
                                }
                            }
                            return None;
                        },
                    }
                    i = i + 1;
                }
                Some(out)
            },
            _ => None,
        }
    }
}

impl Decode for String {
    open spec fn decodes(v: JsonValue, x: Self) -> bool {
        v == JsonValue::Str(x)
    }

    fn decode(v: &JsonValue) -> (r: Option<Self>) {
        match v {
            JsonValue::Str(s) => Some(s.clone()),
            _ => None,
        }
    }
}

impl Decode for bool {
    open spec fn decodes(v: JsonValue, x: Self) -> bool {
        v == JsonValue::Bool(x)
    }

    fn decode(v: &JsonValue) -> (r: Option<Self>) {
        match v {
            JsonValue::Bool(b) => Some(*b),
            _ => None,
        }
    }
}

/// Reads the integer that a number holds, if it has no fraction and lies in
/// `lo..=hi`.
fn integer_in(v: &JsonValue, lo: i128, hi: i128) -> (r: Option<i128>)
    requires
        -(u64::MAX as int) <= lo <= hi <= u64::MAX,
    ensures
        r matches Some(n) ==> v matches JsonValue::Number(t) && integer_of(t@) == Some(
            n as int,
        ) && lo <= n <= hi,
        r is None ==> !(v matches JsonValue::Number(t) && integer_of(t@) matches Some(n) && lo
            <= n <= hi),
{
    match v {
        JsonValue::Number(t) => match parse_number(t.as_str()) {
            Some((neg, m, k)) => {
                if k != 0 || m > u64::MAX as u128 {
                    return None;
                }
                let n: i128 = if neg { -(m as i128) } else { m as i128 };
                if n < lo || n > hi {
                    return None;
                }
                Some(n)
            },
            None => None,
        },
        _ => None,
    }
}

impl Decode for u64 {
    open spec fn decodes(v: JsonValue, x: Self) -> bool {
        v matches JsonValue::Number(t) && integer_of(t@) == Some(x as int)
    }

    fn decode(v: &JsonValue) -> (r: Option<Self>) {
        match integer_in(v, 0, u64::MAX as i128) {
            Some(n) => Some(n as u64),
            None => None,
        }
    }
}

impl Decode for u8 {
    open spec fn decodes(v: JsonValue, x: Self) -> bool {
        v matches JsonValue::Number(t) && integer_of(t@) == Some(x as int)
    }

    fn decode(v: &JsonValue) -> (r: Option<Self>) {
        match integer_in(v, 0, u8::MAX as i128) {
            Some(n) => Some(n as u8),
            None => None,
        }
    }
}

/// A moment written on the wire as whole seconds since the Unix epoch,
/// within the years -9999 to 9999.
#[derive(Clone, Copy, Debug, PartialEq, Eq, Structural)]
pub struct Timestamp {
    pub seconds: i64,
}

/// Whether `time` can represent the moment `n` seconds after the Unix epoch:
/// from the first second of year -9999 to the last second of year 9999.
pub open spec fn unix_in_range(n: int) -> bool {
    -377705116800 <= n <= 253402300799
}

/// Relies on `time::OffsetDateTime::from_unix_timestamp`, which succeeds
/// exactly for the seconds from `Date::MIN` at midnight to `Date::MAX` at
/// 23:59:59 in UTC.
#[verifier::external_body]
fn unix_representable(n: i64) -> (r: bool)
    ensures
        r == unix_in_range(n as int),
{
    time::OffsetDateTime::from_unix_timestamp(n).is_ok()
}

impl Decode for Timestamp {
    open spec fn decodes(v: JsonValue, x: Self) -> bool {
        &&& v matches JsonValue::Number(t) && integer_of(t@) == Some(x.seconds as int)
        &&& unix_in_range(x.seconds as int)
    }

    fn decode(v: &JsonValue) -> (r: Option<Self>) {
        match integer_in(v, i64::MIN as i128, i64::MAX as i128) {
            Some(n) => {
                if unix_representable(n as i64) {
                    Some(Timestamp { seconds: n as i64 })
                } else {
                    None
                }
            },
            None => None,
        }
    }
}

/// An exact decimal number: `mantissa / 10^scale`, negated when `negative`.
#[derive(Clone, Copy, Debug, PartialEq, Eq, Structural)]
pub struct Decimal {
    pub negative: bool,
    pub mantissa: u128,
    pub scale: u32,
}

/// The number that `v` writes, as a JSON number or as a string of digits.
pub open spec fn decimal_text(v: JsonValue) -> Option<Seq<char>> {
    match v {
        JsonValue::Number(t) => Some(t@),
        JsonValue::Str(t) => Some(t@),
        _ => None,
    }
}

impl Decode for Decimal {
    open spec fn decodes(v: JsonValue, x: Self) -> bool {
        decimal_text(v) matches Some(t) && number_of(t) == Some(
            (x.negative, x.mantissa as nat, x.scale as nat),
        )
    }

    fn decode(v: &JsonValue) -> (r: Option<Self>) {
        let t = match v {
            JsonValue::Number(t) => t,
            JsonValue::Str(t) => t,
            _ => return None,
        };
        match parse_number(t.as_str()) {
            Some((negative, mantissa, scale)) => Some(Decimal { negative, mantissa, scale }),
            None => None,
        }
    }
}

pub open spec fn is_upper(c: char) -> bool {
    'A' <= c && c <= 'Z'
}

/// An ISO 3166-1 alpha-2 country code, such as `US`.
#[derive(Clone, Debug, PartialEq, Eq)]
pub struct CountryCode {
    pub code: String,
}

impl CountryCode {
    pub open spec fn valid(s: Seq<char>) -> bool {
        s.len() == 2 && is_upper(s[0]) && is_upper(s[1])
    }
}

impl Decode for CountryCode {
    open spec fn decodes(v: JsonValue, x: Self) -> bool {
        v matches JsonValue::Str(s) && CountryCode::valid(s@) && x.code@ == s@
    }

    fn decode(v: &JsonValue) -> (r: Option<Self>) {
        match v {
            JsonValue::Str(s) => {
                let t = s.as_str();
                if t.unicode_len() != 2 {
                    return None;
                }
                let a = t.get_char(0);
                let b = t.get_char(1);
                if 'A' <= a && a <= 'Z' && 'A' <= b && b <= 'Z' {
                    Some(CountryCode { code: s.clone() })
                } else {
                    None
                }
            },
            _ => None,
        }
    }
}

} // verus!
