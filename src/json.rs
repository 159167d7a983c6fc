use vstd::prelude::*;
use vstd::string::*;

verus! {

/// A parsed JSON document. Numbers keep the text they were written with,
/// so that integers and decimals are read without any rounding.
#[derive(Debug)]
pub enum JsonValue {
    Null,
    Bool(bool),
    Number(String),
    Str(String),
    Array(Vec<JsonValue>),
    Object(Vec<(String, JsonValue)>),
}

/// The value stored under `key` among `members`, the first one if the key repeats.
pub open spec fn member(members: Seq<(String, JsonValue)>, key: Seq<char>) -> Option<JsonValue>
    decreases members.len(),
{
    if members.len() == 0 {
        None
    } else if members[0].0@ == key {
        Some(members[0].1)
    } else {
        member(members.drop_first(), key)
    }
}

/// The member `key` of `v`, if `v` is an object that has it.
pub open spec fn field(v: JsonValue, key: Seq<char>) -> Option<JsonValue> {
    match v {
        JsonValue::Object(members) => member(members@, key),
        _ => None,
    }
}

proof fn lemma_member_skip(members: Seq<(String, JsonValue)>, key: Seq<char>, i: int)
    requires
        0 <= i < members.len(),
        members[i].0@ != key,
    ensures
        member(members.subrange(i, members.len() as int), key) == member(
            members.subrange(i + 1, members.len() as int),
            key,
        ),
{
    assert(members.subrange(i, members.len() as int).drop_first() =~= members.subrange(
        i + 1,
        members.len() as int,
    ));
}

/// Looks up the member `key` of an object.
pub fn get_field<'a>(v: &'a JsonValue, key: &str) -> (r: Option<&'a JsonValue>)
    ensures
        r matches Some(x) ==> field(*v, key@) == Some(*x),
        r is None ==> field(*v, key@) is None,
{
    match v {
        JsonValue::Object(members) => {
            let k = key.to_owned();
            let n = members.len();
            let mut i: usize = 0;
            assert(members@.subrange(0, n as int) =~= members@);
            while i < n
                invariant
                    *v == JsonValue::Object(*members),
                    n == members@.len(),
                    i <= n,
                    k@ == key@,
                    member(members@, key@) == member(members@.subrange(i as int, n as int), key@),
                decreases n - i,
            {
                if members[i].0 == k {
                    assert(members@.subrange(i as int, n as int)[0] == members@[i as int]);
                    return Some(&members[i].1);
                }
                proof {
                    lemma_member_skip(members@, key@, i as int);
                }
                i = i + 1;
            }
            None
        },
        _ => None,
    }
}

pub open spec fn is_digit(c: char) -> bool {
    '0' <= c && c <= '9'
}

pub open spec fn digit_value(c: char) -> nat {
    (c as nat - '0' as nat) as nat
}

/// Reads a run of digits with at most one inner decimal point, left to right:
/// the digits as one integer, how many come after the point, and whether a
/// point was seen.
pub open spec fn scan(s: Seq<char>) -> Option<(nat, nat, bool)>
    decreases s.len(),
{
    if s.len() == 0 {
        Some((0, 0, false))
    } else {
        match scan(s.drop_last()) {
            None => None,
            Some((m, k, dot)) => {
                let c = s.last();
                if c == '.' {
                    if dot || s.len() == 1 {
                        None
                    } else {
                        Some((m, k, true))
                    }
                } else if is_digit(c) {
                    Some((m * 10 + digit_value(c), if dot { k + 1 } else { k }, dot))
                } else {
                    None
                }
            },
        }
    }
}

/// The number written as `t`: its sign, its digits read as one integer, and
/// the count of digits after the decimal point. `-12.50` is `(true, 1250, 2)`.
pub open spec fn number_of(t: Seq<char>) -> Option<(bool, nat, nat)> {
    let neg = t.len() > 0 && t[0] == '-';
    let body = if neg { t.drop_first() } else { t };
    match scan(body) {
        Some((m, k, dot)) => if body.len() > 0 && body.last() != '.' {
            Some((neg, m, k))
        } else {
            None
        },
        None => None,
    }
}

/// The integer written as `t`, if `t` has no decimal point.
pub open spec fn integer_of(t: Seq<char>) -> Option<int> {
    match number_of(t) {
        Some((neg, m, k)) => if k == 0 {
            Some(if neg { -(m as int) } else { m as int })
        } else {
            None
        },
        None => None,
    }
}

spec fn scan_digits(r: Option<(nat, nat, bool)>) -> nat {
    match r {
        Some((m, _, _)) => m,
        None => 0,
    }
}

spec fn scan_scale(r: Option<(nat, nat, bool)>) -> nat {
    match r {
        Some((_, k, _)) => k,
        None => 0,
    }
}

proof fn lemma_scan_prefix(s: Seq<char>, i: int)
    requires
        0 <= i <= s.len(),
        scan(s) is Some,
    ensures
        scan(s.take(i)) is Some,
        scan_digits(scan(s.take(i))) <= scan_digits(scan(s)),
        scan_scale(scan(s.take(i))) <= scan_scale(scan(s)),
    decreases s.len() - i,
{
    if i < s.len() {
        lemma_scan_prefix(s.drop_last(), i);
        assert(s.drop_last().take(i) =~= s.take(i));
    } else {
        assert(s.take(i) =~= s);
    }
}

/// Reads number text into sign, digits and scale; `None` where the text is no
/// number, or has more digits than fit in 128 bits.
pub fn parse_number(t: &str) -> (r: Option<(bool, u128, u32)>)
    ensures
        r matches Some((neg, m, k)) ==> number_of(t@) == Some((neg, m as nat, k as nat)),
        r is None ==> number_of(t@) is None || (number_of(t@) matches Some((_, m, k)) && (m > u128::MAX || k > u32::MAX)),
{
    let len = t.unicode_len();
    let neg = len > 0 && t.get_char(0) == '-';
    let start: usize = if neg { 1 } else { 0 };
    let ghost body = if neg { t@.drop_first() } else { t@ };
    if start >= len {
        return None;
    }
    assert(body =~= t@.subrange(start as int, len as int));
    let mut m: u128 = 0;
    let mut k: u32 = 0;
    let mut dot = false;
    let mut i: usize = start;
    assert(body.take(0) =~= Seq::<char>::empty());
    while i < len
        invariant
            start <= i <= len,
            len == t@.len(),
            body =~= t@.subrange(start as int, len as int),
            body == (if neg { t@.drop_first() } else { t@ }),
            neg == (t@.len() > 0 && t@[0] == '-'),
            start == (if neg { 1usize } else { 0usize }),
            scan(body.take(i - start)) == Some((m as nat, k as nat, dot)),
        decreases len - i,
    {
        let c = t.get_char(i);
        let ghost pre = body.take(i - start);
        let ghost cur = body.take(i + 1 - start);
        assert(cur.drop_last() =~= pre);
        assert(cur.last() == c);
        if c == '.' {
            if dot || i == start {
                assert(scan(cur) is None);
                proof {
                    if scan(body) is Some {
                        lemma_scan_prefix(body, i + 1 - start);
                    }
                    assert(scan(body) is None);
                    assert(number_of(t@) is None);
                }
                return None;
            }
            dot = true;
        } else if '0' <= c && c <= '9' {
            let d = (c as u32 - '0' as u32) as u128;
            if m > (u128::MAX - d) / 10 || (dot && k == u32::MAX) {
                proof {
                    assert(is_digit(c) && digit_value(c) == d);
                    assert(scan(cur) == Some(
                        ((m * 10 + d) as nat, if dot { (k + 1) as nat } else { k as nat }, dot),
                    ));
                    if m > (u128::MAX - d) / 10 {
                        assert(m * 10 + d > u128::MAX) by (nonlinear_arith)
                            requires
                                m > (u128::MAX - d) / 10,
                                d <= 9,
                        ;
                    }
                    if scan(body) is Some {
                        lemma_scan_prefix(body, i + 1 - start);
                    }
                }
                return None;
            }
            m = m * 10 + d;
            if dot {
                k = k + 1;
            }
        } else {
            assert(scan(cur) is None);
            proof {
                if scan(body) is Some {
                    lemma_scan_prefix(body, i + 1 - start);
                }
                assert(scan(body) is None);
                assert(number_of(t@) is None);
            }
            return None;
        }
        i = i + 1;
    }
    assert(body.take(len - start) =~= body);
    assert(body.len() > 0 && body.last() == t@[len - 1]);
    if t.get_char(len - 1) == '.' {
        return None;
    }
    Some((neg, m, k))
}

} // verus!
