use vstd::prelude::*;
use reqwest::header::{HeaderMap, HeaderValue};

verus! {

#[verifier::external_type_specification]
#[verifier::external_body]
pub struct ExHeaderValue(HeaderValue);

#[verifier::external_type_specification]
#[verifier::external_body]
#[verifier::reject_recursive_types(T)]
pub struct ExHeaderMap<T>(HeaderMap<T>);

/// Whether `c` may stand in an HTTP header value: visible ASCII, space, tab,
/// or any non-ASCII character (whose UTF-8 bytes are all 0x80 or above).
pub open spec fn header_char(c: char) -> bool {
    (c >= ' ' && c != '\x7f') || c == '\t'
}

pub open spec fn header_safe(s: Seq<char>) -> bool {
    forall|i: int| 0 <= i < s.len() ==> header_char(#[trigger] s[i])
}

/// What a header value holds: the text whose bytes it carries, and whether
/// it is marked sensitive.
pub uninterp spec fn value_parts(v: HeaderValue) -> (Seq<char>, bool);

/// What a header map holds: each header name, in lower case, with its first
/// value's text and sensitive mark.
pub uninterp spec fn header_entries(h: HeaderMap) -> Map<Seq<char>, (Seq<char>, bool)>;

/// Relies on `HeaderValue::from_str`, which refuses a string exactly when one
/// of its bytes is below 32 (but for tab) or is 127, and otherwise copies the
/// bytes into a value not marked sensitive.
#[verifier::external_body]
fn header_value(s: &str) -> (r: Option<HeaderValue>)
    ensures
        r is Some <==> header_safe(s@),
        r matches Some(v) ==> value_parts(v) == (s@, false),
{
    HeaderValue::from_str(s).ok()
}

/// `HeaderValue::set_sensitive` sets the sensitive mark and keeps the bytes.
pub assume_specification[ HeaderValue::set_sensitive ](v: &mut HeaderValue, val: bool)
    ensures
        value_parts(*final(v)) == (value_parts(*old(v)).0, val),
;

/// `HeaderMap::new` makes an empty map.
pub assume_specification[ HeaderMap::<HeaderValue>::new ]() -> (r: HeaderMap)
    ensures
        header_entries(r).is_empty(),
;

/// Relies on `HeaderMap::insert` under the `authorization` name, which
/// replaces any value already there. On an empty map it cannot reach the
/// map's size limit.
#[verifier::external_body]
fn insert_authorization(h: &mut HeaderMap, v: HeaderValue)
    requires
        header_entries(*old(h)).is_empty(),
    ensures
        header_entries(*final(h)) == header_entries(*old(h)).insert("authorization"@, value_parts(v)),
{
    h.insert(reqwest::header::AUTHORIZATION, v);
}

/// The value of the `Authorization` header that carries `token`.
pub open spec fn bearer(token: Seq<char>) -> Seq<char> {
    "Bearer "@ + token
}

pub fn is_header_safe(s: &str) -> (r: bool)
    ensures
        r == header_safe(s@),
{
    let n = s.unicode_len();
    let mut i: usize = 0;
    while i < n
        invariant
            n == s@.len(),
            i <= n,
            forall|j: int| 0 <= j < i ==> header_char(#[trigger] s@[j]),
        decreases n - i,
    {
        let c = s.get_char(i);
        if !((c >= ' ' && c != '\x7f') || c == '\t') {
            return false;
        }
        i = i + 1;
    }
    true
}

/// Writes the bearer value for `token`.
pub fn bearer_value(token: &str) -> (r: String)
    ensures
        r@ == bearer(token@),
{
    let mut v = String::from_str("Bearer ");
    v.append(token);
    v
}

proof fn lemma_bearer_safe(token: Seq<char>)
    ensures
        header_safe(bearer(token)) <==> header_safe(token),
{
    reveal_strlit("Bearer ");
    let b = bearer(token);
    assert(b.len() == 7 + token.len());
    if header_safe(token) {
        assert forall|i: int| 0 <= i < b.len() implies header_char(#[trigger] b[i]) by {
            if i >= 7 {
                assert(b[i] == token[i - 7]);
            }
        }
    }
    if header_safe(b) {
        assert forall|i: int| 0 <= i < token.len() implies header_char(#[trigger] token[i]) by {
            assert(b[i + 7] == token[i]);
        }
    }
}

/// The headers that authorize a request with `token`: one `authorization`
/// header holding the bearer value, marked sensitive.
pub open spec fn authorization_only(token: Seq<char>) -> Map<Seq<char>, (Seq<char>, bool)> {
    map!["authorization"@ => (bearer(token), true)]
}

/// Builds the headers that authorize a request with `token`; `None` where the
/// token holds a character that no header value may hold.
pub fn oauth_header(token: &str) -> (r: Option<HeaderMap>)
    ensures
        r is Some <==> header_safe(token@),
        r matches Some(h) ==> header_entries(h) == authorization_only(token@),
{
    let value = bearer_value(token);
    proof {
        lemma_bearer_safe(token@);
    }
    match header_value(value.as_str()) {
        Some(hv) => {
            let mut auth = hv;
            auth.set_sensitive(true);
            let mut headers = HeaderMap::new();
            insert_authorization(&mut headers, auth);
            assert(header_entries(headers) =~= authorization_only(token@));
            Some(headers)
        },
        None => None,
    }
}

} // verus!
