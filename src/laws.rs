use vstd::prelude::*;
use crate::client::{Client, Endpoint};
use crate::json::{field, integer_of, JsonValue};
use crate::records::{AccreditationDocument, IdentityDocument};
use crate::kinds::Scope;
use crate::values::{Decode, Union};

verus! {

/// Every scope is written as its lower snake case name, and reading that
/// text gives the same scope back; any text that reads as a scope is that
/// scope's name.
pub proof fn scope_text_round_trip(s: Scope, t: Seq<char>)
    ensures
        Scope::parse(s.wire()) == Some(s),
        s == Scope::Profile ==> s.wire() == "profile"@,
        s == Scope::AccreditationStatus ==> s.wire() == "accreditation_status"@,
        s == Scope::Identity ==> s.wire() == "identity"@,
        Scope::parse(t) matches Some(u) ==> u.wire() == t,
{
    Scope::lemma_wire_round_trip(s);
    Scope::lemma_parse_exact(t);
}

/// Each endpoint but the dependency lookup needs exactly one scope, and a
/// client without it is refused whatever the token.
pub proof fn scope_gate(c: Client, e: Endpoint, s: Scope)
    requires
        e.required_scope() == Some(s),
        !c.granted().contains(s),
    ensures
        !c.allows(e),
        e is Profile ==> s == Scope::Profile,
        e is Accreditations ==> s == Scope::AccreditationStatus,
        e is Identity ==> s == Scope::Identity,
        !(e is DependencyIdentity),
{
}

/// A payload that matches neither shape of a union does not decode as it.
pub proof fn union_rejects_neither<L: Decode, R: Decode>(v: JsonValue)
    requires
        forall|a: L| !#[trigger] L::decodes(v, a),
        forall|b: R| !#[trigger] R::decodes(v, b),
    ensures
        forall|u: Union<L, R>| !#[trigger] Union::<L, R>::decodes(v, u),
{
    assert forall|u: Union<L, R>| !#[trigger] Union::<L, R>::decodes(v, u) by {
        match u {
            Union::Left(a) => assert(!L::decodes(v, a)),
            Union::Right(b) => assert(!R::decodes(v, b)),
        }
    }
}

/// Where a payload matches the first shape of a union, that shape is taken,
/// even if it matches the second one too.
pub proof fn union_prefers_first<L: Decode, R: Decode>(v: JsonValue, a: L)
    requires
        L::decodes(v, a),
    ensures
        forall|u: Union<L, R>| #[trigger] Union::<L, R>::decodes(v, u) ==> u is Left,
{
}

/// A document's download expiry is the number of seconds written in the
/// payload, as it stands: no clock is read and nothing is added to it.
pub proof fn document_expiry_is_seconds(
    v: JsonValue,
    a: AccreditationDocument,
    w: JsonValue,
    b: IdentityDocument,
)
    requires
        AccreditationDocument::decodes(v, a),
        IdentityDocument::decodes(w, b),
    ensures
        field(v, "download_url_expires"@) matches Some(JsonValue::Number(t)) && integer_of(t@)
            == Some(a.download_url_expires as int),
        field(w, "download_url_expires"@) matches Some(JsonValue::Number(t)) && integer_of(t@)
            == Some(b.download_url_expires as int),
{
}

} // verus!
