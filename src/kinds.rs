use vstd::prelude::*;
use crate::json::JsonValue;
use crate::text::str_eq;
use crate::values::Decode;

verus! {

/// An authorization scope negotiated with the API; each endpoint needs one.
#[derive(Clone, Copy, Debug, PartialEq, Eq, Structural)]
pub enum Scope {
    Profile,
    AccreditationStatus,
    Identity,
}

impl Scope {
    /// The exact string that stands for this value on the wire.
    pub open spec fn wire(self) -> Seq<char> {
        match self {
            Scope::Profile => "profile"@,
            Scope::AccreditationStatus => "accreditation_status"@,
            Scope::Identity => "identity"@,
        }
    }

    /// The value that a wire string stands for, if any.
    pub open spec fn parse(s: Seq<char>) -> Option<Self> {
        if s == "profile"@ {
            Some(Scope::Profile)
        } else if s == "accreditation_status"@ {
            Some(Scope::AccreditationStatus)
        } else if s == "identity"@ {
            Some(Scope::Identity)
        } else {
            None
        }
    }

    /// The wire string of this value.
    pub fn as_str(&self) -> (r: &'static str)
        ensures
            r@ == self.wire(),
    {
        match self {
            Scope::Profile => "profile",
            Scope::AccreditationStatus => "accreditation_status",
            Scope::Identity => "identity",
        }
    }

    /// Reads a wire string; any string that stands for no value is refused.
    pub fn from_wire(s: &str) -> (r: Option<Self>)
        ensures
            r == Self::parse(s@),
    {
        if str_eq(s, "profile") {
            Some(Scope::Profile)
        } else if str_eq(s, "accreditation_status") {
            Some(Scope::AccreditationStatus)
        } else if str_eq(s, "identity") {
            Some(Scope::Identity)
        } else {
            None
        }
    }

    /// Reading the wire string of a value gives that value back.
    pub proof fn lemma_wire_round_trip(x: Self)
        ensures
            Self::parse(x.wire()) == Some(x),
    {
        reveal_strlit("profile");
        reveal_strlit("accreditation_status");
        reveal_strlit("identity");
        match x {
            Scope::Profile => {},
            Scope::AccreditationStatus => {
                assert("accreditation_status"@.len() != "profile"@.len());
            },
            Scope::Identity => {
                assert("identity"@.len() != "profile"@.len());
                assert("identity"@.len() != "accreditation_status"@.len());
            },
        }
    }

    /// A string that reads as a value is that value's wire string.
    pub proof fn lemma_parse_exact(s: Seq<char>)
        ensures
            Self::parse(s) matches Some(x) ==> x.wire() == s,
    {
    }
}

impl Decode for Scope {
    open spec fn decodes(v: JsonValue, x: Self) -> bool {
        v matches JsonValue::Str(s) && Self::parse(s@) == Some(x)
    }

    fn decode(v: &JsonValue) -> (r: Option<Self>) {
        match v {
            JsonValue::Str(s) => Self::from_wire(s.as_str()),
            _ => None,
        }
    }
}

/// The legal form of a business.
#[derive(Clone, Copy, Debug, PartialEq, Eq, Structural)]
pub enum BusinessType {
    /// A public charity as defined in Section 501(c)(3) of the Internal Revenue Code
    PublicCharity,
    /// A private foundation as defined in Section 501(c)(3) of the Internal Revenue Code
    PrivateFoundation,
    /// A S-Corp as defined in Subchapter S of Chapter 1 of the Internal Revenue Code
    SCorporation,
    /// A C-Corp as defined in the Internal Revenue Code
    CCorporation,
    /// Any irrevocable business or personal trust described in Section 501(a) of the Securities Act of 1933, as amended.
    IrrevocableTrust,
    /// Any revocable business or personal trust described in Section 501(a) of the Securities Act of 1933, as amended.
    RevocableTrust,
    /// A partnership organized as a limited liability company under the laws of its state of formation
    PartnershipLLC,
    /// A partnership organized as a limited partnership under the laws of its state of formation
    PartnershipLP,
    /// A family office as defined in Rule 202(a)(11)(G)-1 under the Investment Advisers Act of 1940
    FamilyOffice,
}

impl BusinessType {
    /// The exact string that stands for this value on the wire.
    pub open spec fn wire(self) -> Seq<char> {
        match self {
            BusinessType::PublicCharity => "Public Charity"@,
            BusinessType::PrivateFoundation => "Private Foundation"@,
            BusinessType::SCorporation => "S Corporation"@,
            BusinessType::CCorporation => "C Corporation"@,
            BusinessType::IrrevocableTrust => "Irrevocable Trust"@,
            BusinessType::RevocableTrust => "Revocable Trust"@,
            BusinessType::PartnershipLLC => "Partnership LLC"@,
            BusinessType::PartnershipLP => "Partnership LP"@,
            BusinessType::FamilyOffice => "Family Office"@,
        }
    }

    /// The value that a wire string stands for, if any.
    pub open spec fn parse(s: Seq<char>) -> Option<Self> {
        if s == "Public Charity"@ {
            Some(BusinessType::PublicCharity)
        } else if s == "Private Foundation"@ {
            Some(BusinessType::PrivateFoundation)
        } else if s == "S Corporation"@ {
            Some(BusinessType::SCorporation)
        } else if s == "C Corporation"@ {
            Some(BusinessType::CCorporation)
        } else if s == "Irrevocable Trust"@ {
            Some(BusinessType::IrrevocableTrust)
        } else if s == "Revocable Trust"@ {
            Some(BusinessType::RevocableTrust)
        } else if s == "Partnership LLC"@ {
            Some(BusinessType::PartnershipLLC)
        } else if s == "Partnership LP"@ {
            Some(BusinessType::PartnershipLP)
        } else if s == "Family Office"@ {
            Some(BusinessType::FamilyOffice)
        } else {
            None
        }
    }

    /// The wire string of this value.
    pub fn as_str(&self) -> (r: &'static str)
        ensures
            r@ == self.wire(),
    {
        match self {
            BusinessType::PublicCharity => "Public Charity",
            BusinessType::PrivateFoundation => "Private Foundation",
            BusinessType::SCorporation => "S Corporation",
            BusinessType::CCorporation => "C Corporation",
            BusinessType::IrrevocableTrust => "Irrevocable Trust",
            BusinessType::RevocableTrust => "Revocable Trust",
            BusinessType::PartnershipLLC => "Partnership LLC",
            BusinessType::PartnershipLP => "Partnership LP",
            BusinessType::FamilyOffice => "Family Office",
        }
    }

    /// Reads a wire string; any string that stands for no value is refused.
    pub fn from_wire(s: &str) -> (r: Option<Self>)
        ensures
            r == Self::parse(s@),
    {
        if str_eq(s, "Public Charity") {
            Some(BusinessType::PublicCharity)
        } else if str_eq(s, "Private Foundation") {
            Some(BusinessType::PrivateFoundation)
        } else if str_eq(s, "S Corporation") {
            Some(BusinessType::SCorporation)
        } else if str_eq(s, "C Corporation") {
            Some(BusinessType::CCorporation)
        } else if str_eq(s, "Irrevocable Trust") {
            Some(BusinessType::IrrevocableTrust)
        } else if str_eq(s, "Revocable Trust") {
            Some(BusinessType::RevocableTrust)
        } else if str_eq(s, "Partnership LLC") {
            Some(BusinessType::PartnershipLLC)
        } else if str_eq(s, "Partnership LP") {
            Some(BusinessType::PartnershipLP)
        } else if str_eq(s, "Family Office") {
            Some(BusinessType::FamilyOffice)
        } else {
            None
        }
    }

    /// Reading the wire string of a value gives that value back.
    pub proof fn lemma_wire_round_trip(x: Self)
        ensures
            Self::parse(x.wire()) == Some(x),
    {
        reveal_strlit("Public Charity");
        reveal_strlit("Private Foundation");
        reveal_strlit("S Corporation");
        reveal_strlit("C Corporation");
        reveal_strlit("Irrevocable Trust");
        reveal_strlit("Revocable Trust");
        reveal_strlit("Partnership LLC");
        reveal_strlit("Partnership LP");
        reveal_strlit("Family Office");
        match x {
            BusinessType::PublicCharity => {},
            BusinessType::PrivateFoundation => {
                assert("Private Foundation"@.len() != "Public Charity"@.len());
            },
            BusinessType::SCorporation => {
                assert("S Corporation"@.len() != "Public Charity"@.len());
                assert("S Corporation"@.len() != "Private Foundation"@.len());
            },
            BusinessType::CCorporation => {
                assert("C Corporation"@.len() != "Public Charity"@.len());
                assert("C Corporation"@.len() != "Private Foundation"@.len());
                assert("C Corporation"@[0] != "S Corporation"@[0]);
            },
            BusinessType::IrrevocableTrust => {
                assert("Irrevocable Trust"@.len() != "Public Charity"@.len());
                assert("Irrevocable Trust"@.len() != "Private Foundation"@.len());
                assert("Irrevocable Trust"@.len() != "S Corporation"@.len());
                assert("Irrevocable Trust"@.len() != "C Corporation"@.len());
            },
            BusinessType::RevocableTrust => {
                assert("Revocable Trust"@.len() != "Public Charity"@.len());
                assert("Revocable Trust"@.len() != "Private Foundation"@.len());
                assert("Revocable Trust"@.len() != "S Corporation"@.len());
                assert("Revocable Trust"@.len() != "C Corporation"@.len());
                assert("Revocable Trust"@.len() != "Irrevocable Trust"@.len());
            },
            BusinessType::PartnershipLLC => {
                assert("Partnership LLC"@.len() != "Public Charity"@.len());
                assert("Partnership LLC"@.len() != "Private Foundation"@.len());
                assert("Partnership LLC"@.len() != "S Corporation"@.len());
                assert("Partnership LLC"@.len() != "C Corporation"@.len());
                assert("Partnership LLC"@.len() != "Irrevocable Trust"@.len());
                assert("Partnership LLC"@[0] != "Revocable Trust"@[0]);
            },
            BusinessType::PartnershipLP => {
                assert("Partnership LP"@[1] != "Public Charity"@[1]);
                assert("Partnership LP"@.len() != "Private Foundation"@.len());
                assert("Partnership LP"@.len() != "S Corporation"@.len());
                assert("Partnership LP"@.len() != "C Corporation"@.len());
                assert("Partnership LP"@.len() != "Irrevocable Trust"@.len());
                assert("Partnership LP"@.len() != "Revocable Trust"@.len());
                assert("Partnership LP"@.len() != "Partnership LLC"@.len());
            },
            BusinessType::FamilyOffice => {
                assert("Family Office"@.len() != "Public Charity"@.len());
                assert("Family Office"@.len() != "Private Foundation"@.len());
                assert("Family Office"@[0] != "S Corporation"@[0]);
                assert("Family Office"@[0] != "C Corporation"@[0]);
                assert("Family Office"@.len() != "Irrevocable Trust"@.len());
                assert("Family Office"@.len() != "Revocable Trust"@.len());
                assert("Family Office"@.len() != "Partnership LLC"@.len());
                assert("Family Office"@.len() != "Partnership LP"@.len());
            },
        }
    }

    /// A string that reads as a value is that value's wire string.
    pub proof fn lemma_parse_exact(s: Seq<char>)
        ensures
            Self::parse(s) matches Some(x) ==> x.wire() == s,
    {
    }
}

impl Decode for BusinessType {
    open spec fn decodes(v: JsonValue, x: Self) -> bool {
        v matches JsonValue::Str(s) && Self::parse(s@) == Some(x)
    }

    fn decode(v: &JsonValue) -> (r: Option<Self>) {
        match v {
            JsonValue::Str(s) => Self::from_wire(s.as_str()),
            _ => None,
        }
    }
}

/// The kind of an accreditation document.
#[derive(Clone, Copy, Debug, PartialEq, Eq, Structural)]
pub enum DocumentType {
    CertificationLetter,
}

impl DocumentType {
    /// The exact string that stands for this value on the wire.
    pub open spec fn wire(self) -> Seq<char> {
        match self {
            DocumentType::CertificationLetter => "certification-letter"@,
        }
    }

    /// The value that a wire string stands for, if any.
    pub open spec fn parse(s: Seq<char>) -> Option<Self> {
        if s == "certification-letter"@ {
            Some(DocumentType::CertificationLetter)
        } else {
            None
        }
    }

    /// The wire string of this value.
    pub fn as_str(&self) -> (r: &'static str)
        ensures
            r@ == self.wire(),
    {
        match self {
            DocumentType::CertificationLetter => "certification-letter",
        }
    }

    /// Reads a wire string; any string that stands for no value is refused.
    pub fn from_wire(s: &str) -> (r: Option<Self>)
        ensures
            r == Self::parse(s@),
    {
        if str_eq(s, "certification-letter") {
            Some(DocumentType::CertificationLetter)
        } else {
            None
        }
    }

    /// Reading the wire string of a value gives that value back.
    pub proof fn lemma_wire_round_trip(x: Self)
        ensures
            Self::parse(x.wire()) == Some(x),
    {
        reveal_strlit("certification-letter");
        match x {
            DocumentType::CertificationLetter => {},
        }
    }

    /// A string that reads as a value is that value's wire string.
    pub proof fn lemma_parse_exact(s: Seq<char>)
        ensures
            Self::parse(s) matches Some(x) ==> x.wire() == s,
    {
    }
}

impl Decode for DocumentType {
    open spec fn decodes(v: JsonValue, x: Self) -> bool {
        v matches JsonValue::Str(s) && Self::parse(s@) == Some(x)
    }

    fn decode(v: &JsonValue) -> (r: Option<Self>) {
        match v {
            JsonValue::Str(s) => Self::from_wire(s.as_str()),
            _ => None,
        }
    }
}

/// The state of an accreditation as the server reports it.
#[derive(Clone, Copy, Debug, PartialEq, Eq, Structural)]
pub enum AccreditationStatus {
    /// Accreditation is currently valid
    Current,
    /// Accreditation application is being evaluated
    Pending,
    /// Accreditation application is awaiting documentation from a third party evaluator
    ThirdPartyPending,
    /// Accreditation has expired and is no longer valid
    Expired,
    /// Accreditation attempt was unsuccessful due to a failure to meet requirements
    Rejected,
}

impl AccreditationStatus {
    /// The exact string that stands for this value on the wire.
    pub open spec fn wire(self) -> Seq<char> {
        match self {
            AccreditationStatus::Current => "current"@,
            AccreditationStatus::Pending => "pending"@,
            AccreditationStatus::ThirdPartyPending => "third_party_pending"@,
            AccreditationStatus::Expired => "expired"@,
            AccreditationStatus::Rejected => "rejected"@,
        }
    }

    /// The value that a wire string stands for, if any.
    pub open spec fn parse(s: Seq<char>) -> Option<Self> {
        if s == "current"@ {
            Some(AccreditationStatus::Current)
        } else if s == "pending"@ {
            Some(AccreditationStatus::Pending)
        } else if s == "third_party_pending"@ {
            Some(AccreditationStatus::ThirdPartyPending)
        } else if s == "expired"@ {
            Some(AccreditationStatus::Expired)
        } else if s == "rejected"@ {
            Some(AccreditationStatus::Rejected)
        } else {
            None
        }
    }

    /// The wire string of this value.
    pub fn as_str(&self) -> (r: &'static str)
        ensures
            r@ == self.wire(),
    {
        match self {
            AccreditationStatus::Current => "current",
            AccreditationStatus::Pending => "pending",
            AccreditationStatus::ThirdPartyPending => "third_party_pending",
            AccreditationStatus::Expired => "expired",
            AccreditationStatus::Rejected => "rejected",
        }
    }

    /// Reads a wire string; any string that stands for no value is refused.
    pub fn from_wire(s: &str) -> (r: Option<Self>)
        ensures
            r == Self::parse(s@),
    {
        if str_eq(s, "current") {
            Some(AccreditationStatus::Current)
        } else if str_eq(s, "pending") {
            Some(AccreditationStatus::Pending)
        } else if str_eq(s, "third_party_pending") {
            Some(AccreditationStatus::ThirdPartyPending)
        } else if str_eq(s, "expired") {
            Some(AccreditationStatus::Expired)
        } else if str_eq(s, "rejected") {
            Some(AccreditationStatus::Rejected)
        } else {
            None
        }
    }

    /// Reading the wire string of a value gives that value back.
    pub proof fn lemma_wire_round_trip(x: Self)
        ensures
            Self::parse(x.wire()) == Some(x),
    {
        reveal_strlit("current");
        reveal_strlit("pending");
        reveal_strlit("third_party_pending");
        reveal_strlit("expired");
        reveal_strlit("rejected");
        match x {
            AccreditationStatus::Current => {},
            AccreditationStatus::Pending => {
                assert("pending"@[0] != "current"@[0]);
            },
            AccreditationStatus::ThirdPartyPending => {
                assert("third_party_pending"@.len() != "current"@.len());
                assert("third_party_pending"@.len() != "pending"@.len());
            },
            AccreditationStatus::Expired => {
                assert("expired"@[0] != "current"@[0]);
                assert("expired"@[0] != "pending"@[0]);
                assert("expired"@.len() != "third_party_pending"@.len());
            },
            AccreditationStatus::Rejected => {
                assert("rejected"@.len() != "current"@.len());
                assert("rejected"@.len() != "pending"@.len());
                assert("rejected"@.len() != "third_party_pending"@.len());
                assert("rejected"@.len() != "expired"@.len());
            },
        }
    }

    /// A string that reads as a value is that value's wire string.
    pub proof fn lemma_parse_exact(s: Seq<char>)
        ensures
            Self::parse(s) matches Some(x) ==> x.wire() == s,
    {
    }
}

impl Decode for AccreditationStatus {
    open spec fn decodes(v: JsonValue, x: Self) -> bool {
        v matches JsonValue::Str(s) && Self::parse(s@) == Some(x)
    }

    fn decode(v: &JsonValue) -> (r: Option<Self>) {
        match v {
            JsonValue::Str(s) => Self::from_wire(s.as_str()),
            _ => None,
        }
    }
}

/// What a business accreditation rests on.
#[derive(Clone, Copy, Debug, PartialEq, Eq, Structural)]
pub enum BusinessAssertionType {
    /// Accreditation is based on worth (only used for businesses)
    Worth,
    /// Accreditation is based on a third party evaluation (CPA, lawyer, or broker dealer verified accreditation status)
    EvaluatorAssertion,
    /// Accreditation is based on all owners being accredited
    AccreditedOwners,
}

impl BusinessAssertionType {
    /// The exact string that stands for this value on the wire.
    pub open spec fn wire(self) -> Seq<char> {
        match self {
            BusinessAssertionType::Worth => "worth"@,
            BusinessAssertionType::EvaluatorAssertion => "evaluator-assertion"@,
            BusinessAssertionType::AccreditedOwners => "accredited-owners"@,
        }
    }

    /// The value that a wire string stands for, if any.
    pub open spec fn parse(s: Seq<char>) -> Option<Self> {
        if s == "worth"@ {
            Some(BusinessAssertionType::Worth)
        } else if s == "evaluator-assertion"@ {
            Some(BusinessAssertionType::EvaluatorAssertion)
        } else if s == "accredited-owners"@ {
            Some(BusinessAssertionType::AccreditedOwners)
        } else {
            None
        }
    }

    /// The wire string of this value.
    pub fn as_str(&self) -> (r: &'static str)
        ensures
            r@ == self.wire(),
    {
        match self {
            BusinessAssertionType::Worth => "worth",
            BusinessAssertionType::EvaluatorAssertion => "evaluator-assertion",
            BusinessAssertionType::AccreditedOwners => "accredited-owners",
        }
    }

    /// Reads a wire string; any string that stands for no value is refused.
    pub fn from_wire(s: &str) -> (r: Option<Self>)
        ensures
            r == Self::parse(s@),
    {
        if str_eq(s, "worth") {
            Some(BusinessAssertionType::Worth)
        } else if str_eq(s, "evaluator-assertion") {
            Some(BusinessAssertionType::EvaluatorAssertion)
        } else if str_eq(s, "accredited-owners") {
            Some(BusinessAssertionType::AccreditedOwners)
        } else {
            None
        }
    }

    /// Reading the wire string of a value gives that value back.
    pub proof fn lemma_wire_round_trip(x: Self)
        ensures
            Self::parse(x.wire()) == Some(x),
    {
        reveal_strlit("worth");
        reveal_strlit("evaluator-assertion");
        reveal_strlit("accredited-owners");
        match x {
            BusinessAssertionType::Worth => {},
            BusinessAssertionType::EvaluatorAssertion => {
                assert("evaluator-assertion"@.len() != "worth"@.len());
            },
            BusinessAssertionType::AccreditedOwners => {
                assert("accredited-owners"@.len() != "worth"@.len());
                assert("accredited-owners"@.len() != "evaluator-assertion"@.len());
            },
        }
    }

    /// A string that reads as a value is that value's wire string.
    pub proof fn lemma_parse_exact(s: Seq<char>)
        ensures
            Self::parse(s) matches Some(x) ==> x.wire() == s,
    {
    }
}

impl Decode for BusinessAssertionType {
    open spec fn decodes(v: JsonValue, x: Self) -> bool {
        v matches JsonValue::Str(s) && Self::parse(s@) == Some(x)
    }

    fn decode(v: &JsonValue) -> (r: Option<Self>) {
        match v {
            JsonValue::Str(s) => Self::from_wire(s.as_str()),
            _ => None,
        }
    }
}

/// What an individual accreditation rests on.
#[derive(Clone, Copy, Debug, PartialEq, Eq, Structural)]
pub enum IndividualAssertionType {
    /// Accreditation is based on the income test
    Income,
    /// Accreditation is based on the net-worth test
    NetWorth,
    /// Accreditation is based on a third party evaluation (CPA, lawyer, or broker dealer verified accreditation status)
    EvaluatorAssertion,
    /// The person holds a professional license that qualifies them for accreditation
    ProfessionalLicense,
}

impl IndividualAssertionType {
    /// The exact string that stands for this value on the wire.
    pub open spec fn wire(self) -> Seq<char> {
        match self {
            IndividualAssertionType::Income => "income"@,
            IndividualAssertionType::NetWorth => "net-worth"@,
            IndividualAssertionType::EvaluatorAssertion => "evaluator-assertion"@,
            IndividualAssertionType::ProfessionalLicense => "professional-license"@,
        }
    }

    /// The value that a wire string stands for, if any.
    pub open spec fn parse(s: Seq<char>) -> Option<Self> {
        if s == "income"@ {
            Some(IndividualAssertionType::Income)
        } else if s == "net-worth"@ {
            Some(IndividualAssertionType::NetWorth)
        } else if s == "evaluator-assertion"@ {
            Some(IndividualAssertionType::EvaluatorAssertion)
        } else if s == "professional-license"@ {
            Some(IndividualAssertionType::ProfessionalLicense)
        } else {
            None
        }
    }

    /// The wire string of this value.
    pub fn as_str(&self) -> (r: &'static str)
        ensures
            r@ == self.wire(),
    {
        match self {
            IndividualAssertionType::Income => "income",
            IndividualAssertionType::NetWorth => "net-worth",
            IndividualAssertionType::EvaluatorAssertion => "evaluator-assertion",
            IndividualAssertionType::ProfessionalLicense => "professional-license",
        }
    }

    /// Reads a wire string; any string that stands for no value is refused.
    pub fn from_wire(s: &str) -> (r: Option<Self>)
        ensures
            r == Self::parse(s@),
    {
        if str_eq(s, "income") {
            Some(IndividualAssertionType::Income)
        } else if str_eq(s, "net-worth") {
            Some(IndividualAssertionType::NetWorth)
        } else if str_eq(s, "evaluator-assertion") {
            Some(IndividualAssertionType::EvaluatorAssertion)
        } else if str_eq(s, "professional-license") {
            Some(IndividualAssertionType::ProfessionalLicense)
        } else {
            None
        }
    }

    /// Reading the wire string of a value gives that value back.
    pub proof fn lemma_wire_round_trip(x: Self)
        ensures
            Self::parse(x.wire()) == Some(x),
    {
        reveal_strlit("income");
        reveal_strlit("net-worth");
        reveal_strlit("evaluator-assertion");
        reveal_strlit("professional-license");
        match x {
            IndividualAssertionType::Income => {},
            IndividualAssertionType::NetWorth => {
                assert("net-worth"@.len() != "income"@.len());
            },
            IndividualAssertionType::EvaluatorAssertion => {
                assert("evaluator-assertion"@.len() != "income"@.len());
                assert("evaluator-assertion"@.len() != "net-worth"@.len());
            },
            IndividualAssertionType::ProfessionalLicense => {
                assert("professional-license"@.len() != "income"@.len());
                assert("professional-license"@.len() != "net-worth"@.len());
                assert("professional-license"@.len() != "evaluator-assertion"@.len());
            },
        }
    }

    /// A string that reads as a value is that value's wire string.
    pub proof fn lemma_parse_exact(s: Seq<char>)
        ensures
            Self::parse(s) matches Some(x) ==> x.wire() == s,
    {
    }
}

impl Decode for IndividualAssertionType {
    open spec fn decodes(v: JsonValue, x: Self) -> bool {
        v matches JsonValue::Str(s) && Self::parse(s@) == Some(x)
    }

    fn decode(v: &JsonValue) -> (r: Option<Self>) {
        match v {
            JsonValue::Str(s) => Self::from_wire(s.as_str()),
            _ => None,
        }
    }
}

/// Whether a subject is a person or a business.
#[derive(Clone, Copy, Debug, PartialEq, Eq, Structural)]
pub enum EntityType {
    Individual,
    Business,
}

impl EntityType {
    /// The exact string that stands for this value on the wire.
    pub open spec fn wire(self) -> Seq<char> {
        match self {
            EntityType::Individual => "individual"@,
            EntityType::Business => "business"@,
        }
    }

    /// The value that a wire string stands for, if any.
    pub open spec fn parse(s: Seq<char>) -> Option<Self> {
        if s == "individual"@ {
            Some(EntityType::Individual)
        } else if s == "business"@ {
            Some(EntityType::Business)
        } else {
            None
        }
    }

    /// The wire string of this value.
    pub fn as_str(&self) -> (r: &'static str)
        ensures
            r@ == self.wire(),
    {
        match self {
            EntityType::Individual => "individual",
            EntityType::Business => "business",
        }
    }

    /// Reads a wire string; any string that stands for no value is refused.
    pub fn from_wire(s: &str) -> (r: Option<Self>)
        ensures
            r == Self::parse(s@),
    {
        if str_eq(s, "individual") {
            Some(EntityType::Individual)
        } else if str_eq(s, "business") {
            Some(EntityType::Business)
        } else {
            None
        }
    }

    /// Reading the wire string of a value gives that value back.
    pub proof fn lemma_wire_round_trip(x: Self)
        ensures
            Self::parse(x.wire()) == Some(x),
    {
        reveal_strlit("individual");
        reveal_strlit("business");
        match x {
            EntityType::Individual => {},
            EntityType::Business => {
                assert("business"@.len() != "individual"@.len());
            },
        }
    }

    /// A string that reads as a value is that value's wire string.
    pub proof fn lemma_parse_exact(s: Seq<char>)
        ensures
            Self::parse(s) matches Some(x) ==> x.wire() == s,
    {
    }
}

impl Decode for EntityType {
    open spec fn decodes(v: JsonValue, x: Self) -> bool {
        v matches JsonValue::Str(s) && Self::parse(s@) == Some(x)
    }

    fn decode(v: &JsonValue) -> (r: Option<Self>) {
        match v {
            JsonValue::Str(s) => Self::from_wire(s.as_str()),
            _ => None,
        }
    }
}

/// The kind of an identity document.
#[derive(Clone, Copy, Debug, PartialEq, Eq, Structural)]
pub enum IdentityDocumentType {
    DriversLicense,
    StateIdCard,
    Passport,
}

impl IdentityDocumentType {
    /// The exact string that stands for this value on the wire.
    pub open spec fn wire(self) -> Seq<char> {
        match self {
            IdentityDocumentType::DriversLicense => "drivers-license"@,
            IdentityDocumentType::StateIdCard => "state-id-card"@,
            IdentityDocumentType::Passport => "passport"@,
        }
    }

    /// The value that a wire string stands for, if any.
    pub open spec fn parse(s: Seq<char>) -> Option<Self> {
        if s == "drivers-license"@ {
            Some(IdentityDocumentType::DriversLicense)
        } else if s == "state-id-card"@ {
            Some(IdentityDocumentType::StateIdCard)
        } else if s == "passport"@ {
            Some(IdentityDocumentType::Passport)
        } else {
            None
        }
    }

    /// The wire string of this value.
    pub fn as_str(&self) -> (r: &'static str)
        ensures
            r@ == self.wire(),
    {
        match self {
            IdentityDocumentType::DriversLicense => "drivers-license",
            IdentityDocumentType::StateIdCard => "state-id-card",
            IdentityDocumentType::Passport => "passport",
        }
    }

    /// Reads a wire string; any string that stands for no value is refused.
    pub fn from_wire(s: &str) -> (r: Option<Self>)
        ensures
            r == Self::parse(s@),
    {
        if str_eq(s, "drivers-license") {
            Some(IdentityDocumentType::DriversLicense)
        } else if str_eq(s, "state-id-card") {
            Some(IdentityDocumentType::StateIdCard)
        } else if str_eq(s, "passport") {
            Some(IdentityDocumentType::Passport)
        } else {
            None
        }
    }

    /// Reading the wire string of a value gives that value back.
    pub proof fn lemma_wire_round_trip(x: Self)
        ensures
            Self::parse(x.wire()) == Some(x),
    {
        reveal_strlit("drivers-license");
        reveal_strlit("state-id-card");
        reveal_strlit("passport");
        match x {
            IdentityDocumentType::DriversLicense => {},
            IdentityDocumentType::StateIdCard => {
                assert("state-id-card"@.len() != "drivers-license"@.len());
            },
            IdentityDocumentType::Passport => {
                assert("passport"@.len() != "drivers-license"@.len());
                assert("passport"@.len() != "state-id-card"@.len());
            },
        }
    }

    /// A string that reads as a value is that value's wire string.
    pub proof fn lemma_parse_exact(s: Seq<char>)
        ensures
            Self::parse(s) matches Some(x) ==> x.wire() == s,
    {
    }
}

impl Decode for IdentityDocumentType {
    open spec fn decodes(v: JsonValue, x: Self) -> bool {
        v matches JsonValue::Str(s) && Self::parse(s@) == Some(x)
    }

    fn decode(v: &JsonValue) -> (r: Option<Self>) {
        match v {
            JsonValue::Str(s) => Self::from_wire(s.as_str()),
            _ => None,
        }
    }
}

/// Marital status of an individual.
#[derive(Clone, Copy, Debug, PartialEq, Eq, Structural)]
pub enum MaritalStatus {
    Single,
    Married,
    Separated,
    Divorced,
}

impl MaritalStatus {
    /// The exact string that stands for this value on the wire.
    pub open spec fn wire(self) -> Seq<char> {
        match self {
            MaritalStatus::Single => "single"@,
            MaritalStatus::Married => "married"@,
            MaritalStatus::Separated => "separated"@,
            MaritalStatus::Divorced => "divorced"@,
        }
    }

    /// The value that a wire string stands for, if any.
    pub open spec fn parse(s: Seq<char>) -> Option<Self> {
        if s == "single"@ {
            Some(MaritalStatus::Single)
        } else if s == "married"@ {
            Some(MaritalStatus::Married)
        } else if s == "separated"@ {
            Some(MaritalStatus::Separated)
        } else if s == "divorced"@ {
            Some(MaritalStatus::Divorced)
        } else {
            None
        }
    }

    /// The wire string of this value.
    pub fn as_str(&self) -> (r: &'static str)
        ensures
            r@ == self.wire(),
    {
        match self {
            MaritalStatus::Single => "single",
            MaritalStatus::Married => "married",
            MaritalStatus::Separated => "separated",
            MaritalStatus::Divorced => "divorced",
        }
    }

    /// Reads a wire string; any string that stands for no value is refused.
    pub fn from_wire(s: &str) -> (r: Option<Self>)
        ensures
            r == Self::parse(s@),
    {
        if str_eq(s, "single") {
            Some(MaritalStatus::Single)
        } else if str_eq(s, "married") {
            Some(MaritalStatus::Married)
        } else if str_eq(s, "separated") {
            Some(MaritalStatus::Separated)
        } else if str_eq(s, "divorced") {
            Some(MaritalStatus::Divorced)
        } else {
            None
        }
    }

    /// Reading the wire string of a value gives that value back.
    pub proof fn lemma_wire_round_trip(x: Self)
        ensures
            Self::parse(x.wire()) == Some(x),
    {
        reveal_strlit("single");
        reveal_strlit("married");
        reveal_strlit("separated");
        reveal_strlit("divorced");
        match x {
            MaritalStatus::Single => {},
            MaritalStatus::Married => {
                assert("married"@.len() != "single"@.len());
            },
            MaritalStatus::Separated => {
                assert("separated"@.len() != "single"@.len());
                assert("separated"@.len() != "married"@.len());
            },
            MaritalStatus::Divorced => {
                assert("divorced"@.len() != "single"@.len());
                assert("divorced"@.len() != "married"@.len());
                assert("divorced"@.len() != "separated"@.len());
            },
        }
    }

    /// A string that reads as a value is that value's wire string.
    pub proof fn lemma_parse_exact(s: Seq<char>)
        ensures
            Self::parse(s) matches Some(x) ==> x.wire() == s,
    {
    }
}

impl Decode for MaritalStatus {
    open spec fn decodes(v: JsonValue, x: Self) -> bool {
        v matches JsonValue::Str(s) && Self::parse(s@) == Some(x)
    }

    fn decode(v: &JsonValue) -> (r: Option<Self>) {
        match v {
            JsonValue::Str(s) => Self::from_wire(s.as_str()),
            _ => None,
        }
    }
}

/// On whose behalf the authenticated user shares information.
#[derive(Clone, Copy, Debug, PartialEq, Eq, Structural)]
pub enum ProvidingFor {
    /// The user has authenticated as themselves and is sharing their own information
    AsSelf,
    /// The user has authenticated as a business and is sharing that business' information.
    ControlledBusiness,
    /// The user has authenticated on behalf of another person and is sharing that person's information (this option is only possible with the identity scope)
    OtherIndividual,
}

impl ProvidingFor {
    /// The exact string that stands for this value on the wire.
    pub open spec fn wire(self) -> Seq<char> {
        match self {
            ProvidingFor::AsSelf => "self"@,
            ProvidingFor::ControlledBusiness => "controlled-business"@,
            ProvidingFor::OtherIndividual => "other-individual"@,
        }
    }

    /// The value that a wire string stands for, if any.
    pub open spec fn parse(s: Seq<char>) -> Option<Self> {
        if s == "self"@ {
            Some(ProvidingFor::AsSelf)
        } else if s == "controlled-business"@ {
            Some(ProvidingFor::ControlledBusiness)
        } else if s == "other-individual"@ {
            Some(ProvidingFor::OtherIndividual)
        } else {
            None
        }
    }

    /// The wire string of this value.
    pub fn as_str(&self) -> (r: &'static str)
        ensures
            r@ == self.wire(),
    {
        match self {
            ProvidingFor::AsSelf => "self",
            ProvidingFor::ControlledBusiness => "controlled-business",
            ProvidingFor::OtherIndividual => "other-individual",
        }
    }

    /// Reads a wire string; any string that stands for no value is refused.
    pub fn from_wire(s: &str) -> (r: Option<Self>)
        ensures
            r == Self::parse(s@),
    {
        if str_eq(s, "self") {
            Some(ProvidingFor::AsSelf)
        } else if str_eq(s, "controlled-business") {
            Some(ProvidingFor::ControlledBusiness)
        } else if str_eq(s, "other-individual") {
            Some(ProvidingFor::OtherIndividual)
        } else {
            None
        }
    }

    /// Reading the wire string of a value gives that value back.
    pub proof fn lemma_wire_round_trip(x: Self)
        ensures
            Self::parse(x.wire()) == Some(x),
    {
        reveal_strlit("self");
        reveal_strlit("controlled-business");
        reveal_strlit("other-individual");
        match x {
            ProvidingFor::AsSelf => {},
            ProvidingFor::ControlledBusiness => {
                assert("controlled-business"@.len() != "self"@.len());
            },
            ProvidingFor::OtherIndividual => {
                assert("other-individual"@.len() != "self"@.len());
                assert("other-individual"@.len() != "controlled-business"@.len());
            },
        }
    }

    /// A string that reads as a value is that value's wire string.
    pub proof fn lemma_parse_exact(s: Seq<char>)
        ensures
            Self::parse(s) matches Some(x) ==> x.wire() == s,
    {
    }
}

impl Decode for ProvidingFor {
    open spec fn decodes(v: JsonValue, x: Self) -> bool {
        v matches JsonValue::Str(s) && Self::parse(s@) == Some(x)
    }

    fn decode(v: &JsonValue) -> (r: Option<Self>) {
        match v {
            JsonValue::Str(s) => Self::from_wire(s.as_str()),
            _ => None,
        }
    }
}

/// Who revoked access to a subject's data.
#[derive(Clone, Copy, Debug, PartialEq, Eq, Structural)]
pub enum RevokeType {
    /// The subject (or an associated individual) requested to revoke access to the subject's data
    Subject,
    /// You (or an associated individual) requested to revoke your own access to the subject's data
    Partner,
    /// Access to this subject's data was revoked by our internal systems
    System,
}

impl RevokeType {
    /// The exact string that stands for this value on the wire.
    pub open spec fn wire(self) -> Seq<char> {
        match self {
            RevokeType::Subject => "subject"@,
            RevokeType::Partner => "partner"@,
            RevokeType::System => "system"@,
        }
    }

    /// The value that a wire string stands for, if any.
    pub open spec fn parse(s: Seq<char>) -> Option<Self> {
        if s == "subject"@ {
            Some(RevokeType::Subject)
        } else if s == "partner"@ {
            Some(RevokeType::Partner)
        } else if s == "system"@ {
            Some(RevokeType::System)
        } else {
            None
        }
    }

    /// The wire string of this value.
    pub fn as_str(&self) -> (r: &'static str)
        ensures
            r@ == self.wire(),
    {
        match self {
            RevokeType::Subject => "subject",
            RevokeType::Partner => "partner",
            RevokeType::System => "system",
        }
    }

    /// Reads a wire string; any string that stands for no value is refused.
    pub fn from_wire(s: &str) -> (r: Option<Self>)
        ensures
            r == Self::parse(s@),
    {
        if str_eq(s, "subject") {
            Some(RevokeType::Subject)
        } else if str_eq(s, "partner") {
            Some(RevokeType::Partner)
        } else if str_eq(s, "system") {
            Some(RevokeType::System)
        } else {
            None
        }
    }

    /// Reading the wire string of a value gives that value back.
    pub proof fn lemma_wire_round_trip(x: Self)
        ensures
            Self::parse(x.wire()) == Some(x),
    {
        reveal_strlit("subject");
        reveal_strlit("partner");
        reveal_strlit("system");
        match x {
            RevokeType::Subject => {},
            RevokeType::Partner => {
                assert("partner"@[0] != "subject"@[0]);
            },
            RevokeType::System => {
                assert("system"@.len() != "subject"@.len());
                assert("system"@.len() != "partner"@.len());
            },
        }
    }

    /// A string that reads as a value is that value's wire string.
    pub proof fn lemma_parse_exact(s: Seq<char>)
        ensures
            Self::parse(s) matches Some(x) ==> x.wire() == s,
    {
    }
}

impl Decode for RevokeType {
    open spec fn decodes(v: JsonValue, x: Self) -> bool {
        v matches JsonValue::Str(s) && Self::parse(s@) == Some(x)
    }

    fn decode(v: &JsonValue) -> (r: Option<Self>) {
        match v {
            JsonValue::Str(s) => Self::from_wire(s.as_str()),
            _ => None,
        }
    }
}

/// The event that a webhook notification reports.
#[derive(Clone, Copy, Debug, PartialEq, Eq, Structural)]
pub enum EventType {
    /// Accreditation scope: an entity's accreditation status changed. Identity scope: new identity information was submitted for the entity.
    DataUpdate,
    /// Access revocation has been scheduled and API access will expire after a period of time.
    AccessRevocationScheduled,
    /// The entity appears as a possible match in monitored media sources linking it to serious crime
    AdverseMediaRiskMonitorMatch,
    /// The entity appears as a possible match in any monitored sanctions datasets
    CurrentlySanctionedRiskMonitorMatch,
    /// The entity appears as a possible match in any monitored disqualified directors datasets
    DisqualifiedDirectorRiskMonitorMatch,
    /// The entity appears as a possible match in any monitored financial regulator datasets
    FinancialRegulatorRiskMonitorMatch,
    /// The entity appears as a possible match in any monitored insolvency datasets
    InsolventRiskMonitorMatch,
    /// The entity appears as a possible match in any monitored law enforcement datasets
    LawEnforcementRiskMonitorMatch,
    /// The entity is possibly considered a Politically Exposed Person
    PepRiskMonitorMatch,
}

impl EventType {
    /// The exact string that stands for this value on the wire.
    pub open spec fn wire(self) -> Seq<char> {
        match self {
            EventType::DataUpdate => "data_update"@,
            EventType::AccessRevocationScheduled => "access_revocation_scheduled"@,
            EventType::AdverseMediaRiskMonitorMatch => "adverse_media_risk_monitor_match"@,
            EventType::CurrentlySanctionedRiskMonitorMatch => "currently_sanctioned_risk_monitor_match"@,
            EventType::DisqualifiedDirectorRiskMonitorMatch => "disqualified_director_risk_monitor_match"@,
            EventType::FinancialRegulatorRiskMonitorMatch => "financial_regulator_risk_monitor_match"@,
            EventType::InsolventRiskMonitorMatch => "insolvent_risk_monitor_match"@,
            EventType::LawEnforcementRiskMonitorMatch => "law_enforcement_risk_monitor_match"@,
            EventType::PepRiskMonitorMatch => "pep_risk_monitor_match"@,
        }
    }

    /// The value that a wire string stands for, if any.
    pub open spec fn parse(s: Seq<char>) -> Option<Self> {
        if s == "data_update"@ {
            Some(EventType::DataUpdate)
        } else if s == "access_revocation_scheduled"@ {
            Some(EventType::AccessRevocationScheduled)
        } else if s == "adverse_media_risk_monitor_match"@ {
            Some(EventType::AdverseMediaRiskMonitorMatch)
        } else if s == "currently_sanctioned_risk_monitor_match"@ {
            Some(EventType::CurrentlySanctionedRiskMonitorMatch)
        } else if s == "disqualified_director_risk_monitor_match"@ {
            Some(EventType::DisqualifiedDirectorRiskMonitorMatch)
        } else if s == "financial_regulator_risk_monitor_match"@ {
            Some(EventType::FinancialRegulatorRiskMonitorMatch)
        } else if s == "insolvent_risk_monitor_match"@ {
            Some(EventType::InsolventRiskMonitorMatch)
        } else if s == "law_enforcement_risk_monitor_match"@ {
            Some(EventType::LawEnforcementRiskMonitorMatch)
        } else if s == "pep_risk_monitor_match"@ {
            Some(EventType::PepRiskMonitorMatch)
        } else {
            None
        }
    }

    /// The wire string of this value.
    pub fn as_str(&self) -> (r: &'static str)
        ensures
            r@ == self.wire(),
    {
        match self {
            EventType::DataUpdate => "data_update",
            EventType::AccessRevocationScheduled => "access_revocation_scheduled",
            EventType::AdverseMediaRiskMonitorMatch => "adverse_media_risk_monitor_match",
            EventType::CurrentlySanctionedRiskMonitorMatch => "currently_sanctioned_risk_monitor_match",
            EventType::DisqualifiedDirectorRiskMonitorMatch => "disqualified_director_risk_monitor_match",
            EventType::FinancialRegulatorRiskMonitorMatch => "financial_regulator_risk_monitor_match",
            EventType::InsolventRiskMonitorMatch => "insolvent_risk_monitor_match",
            EventType::LawEnforcementRiskMonitorMatch => "law_enforcement_risk_monitor_match",
            EventType::PepRiskMonitorMatch => "pep_risk_monitor_match",
        }
    }

    /// Reads a wire string; any string that stands for no value is refused.
    pub fn from_wire(s: &str) -> (r: Option<Self>)
        ensures
            r == Self::parse(s@),
    {
        if str_eq(s, "data_update") {
            Some(EventType::DataUpdate)
        } else if str_eq(s, "access_revocation_scheduled") {
            Some(EventType::AccessRevocationScheduled)
        } else if str_eq(s, "adverse_media_risk_monitor_match") {
            Some(EventType::AdverseMediaRiskMonitorMatch)
        } else if str_eq(s, "currently_sanctioned_risk_monitor_match") {
            Some(EventType::CurrentlySanctionedRiskMonitorMatch)
        } else if str_eq(s, "disqualified_director_risk_monitor_match") {
            Some(EventType::DisqualifiedDirectorRiskMonitorMatch)
        } else if str_eq(s, "financial_regulator_risk_monitor_match") {
            Some(EventType::FinancialRegulatorRiskMonitorMatch)
        } else if str_eq(s, "insolvent_risk_monitor_match") {
            Some(EventType::InsolventRiskMonitorMatch)
        } else if str_eq(s, "law_enforcement_risk_monitor_match") {
            Some(EventType::LawEnforcementRiskMonitorMatch)
        } else if str_eq(s, "pep_risk_monitor_match") {
            Some(EventType::PepRiskMonitorMatch)
        } else {
            None
        }
    }

    /// Reading the wire string of a value gives that value back.
    pub proof fn lemma_wire_round_trip(x: Self)
        ensures
            Self::parse(x.wire()) == Some(x),
    {
        reveal_strlit("data_update");
        reveal_strlit("access_revocation_scheduled");
        reveal_strlit("adverse_media_risk_monitor_match");
        reveal_strlit("currently_sanctioned_risk_monitor_match");
        reveal_strlit("disqualified_director_risk_monitor_match");
        reveal_strlit("financial_regulator_risk_monitor_match");
        reveal_strlit("insolvent_risk_monitor_match");
        reveal_strlit("law_enforcement_risk_monitor_match");
        reveal_strlit("pep_risk_monitor_match");
        match x {
            EventType::DataUpdate => {},
            EventType::AccessRevocationScheduled => {
                assert("access_revocation_scheduled"@.len() != "data_update"@.len());
            },
            EventType::AdverseMediaRiskMonitorMatch => {
                assert("adverse_media_risk_monitor_match"@.len() != "data_update"@.len());
                assert("adverse_media_risk_monitor_match"@.len() != "access_revocation_scheduled"@.len());
            },
            EventType::CurrentlySanctionedRiskMonitorMatch => {
                assert("currently_sanctioned_risk_monitor_match"@.len() != "data_update"@.len());
                assert("currently_sanctioned_risk_monitor_match"@.len() != "access_revocation_scheduled"@.len());
                assert("currently_sanctioned_risk_monitor_match"@.len() != "adverse_media_risk_monitor_match"@.len());
            },
            EventType::DisqualifiedDirectorRiskMonitorMatch => {
                assert("disqualified_director_risk_monitor_match"@.len() != "data_update"@.len());
                assert("disqualified_director_risk_monitor_match"@.len() != "access_revocation_scheduled"@.len());
                assert("disqualified_director_risk_monitor_match"@.len() != "adverse_media_risk_monitor_match"@.len());
                assert("disqualified_director_risk_monitor_match"@.len() != "currently_sanctioned_risk_monitor_match"@.len());
            },
            EventType::FinancialRegulatorRiskMonitorMatch => {
                assert("financial_regulator_risk_monitor_match"@.len() != "data_update"@.len());
                assert("financial_regulator_risk_monitor_match"@.len() != "access_revocation_scheduled"@.len());
                assert("financial_regulator_risk_monitor_match"@.len() != "adverse_media_risk_monitor_match"@.len());
                assert("financial_regulator_risk_monitor_match"@.len() != "currently_sanctioned_risk_monitor_match"@.len());
                assert("financial_regulator_risk_monitor_match"@.len() != "disqualified_director_risk_monitor_match"@.len());
            },
            EventType::InsolventRiskMonitorMatch => {
                assert("insolvent_risk_monitor_match"@.len() != "data_update"@.len());
                assert("insolvent_risk_monitor_match"@.len() != "access_revocation_scheduled"@.len());
                assert("insolvent_risk_monitor_match"@.len() != "adverse_media_risk_monitor_match"@.len());
                assert("insolvent_risk_monitor_match"@.len() != "currently_sanctioned_risk_monitor_match"@.len());
                assert("insolvent_risk_monitor_match"@.len() != "disqualified_director_risk_monitor_match"@.len());
                assert("insolvent_risk_monitor_match"@.len() != "financial_regulator_risk_monitor_match"@.len());
            },
            EventType::LawEnforcementRiskMonitorMatch => {
                assert("law_enforcement_risk_monitor_match"@.len() != "data_update"@.len());
                assert("law_enforcement_risk_monitor_match"@.len() != "access_revocation_scheduled"@.len());
                assert("law_enforcement_risk_monitor_match"@.len() != "adverse_media_risk_monitor_match"@.len());
                assert("law_enforcement_risk_monitor_match"@.len() != "currently_sanctioned_risk_monitor_match"@.len());
                assert("law_enforcement_risk_monitor_match"@.len() != "disqualified_director_risk_monitor_match"@.len());
                assert("law_enforcement_risk_monitor_match"@.len() != "financial_regulator_risk_monitor_match"@.len());
                assert("law_enforcement_risk_monitor_match"@.len() != "insolvent_risk_monitor_match"@.len());
            },
            EventType::PepRiskMonitorMatch => {
                assert("pep_risk_monitor_match"@.len() != "data_update"@.len());
                assert("pep_risk_monitor_match"@.len() != "access_revocation_scheduled"@.len());
                assert("pep_risk_monitor_match"@.len() != "adverse_media_risk_monitor_match"@.len());
                assert("pep_risk_monitor_match"@.len() != "currently_sanctioned_risk_monitor_match"@.len());
                assert("pep_risk_monitor_match"@.len() != "disqualified_director_risk_monitor_match"@.len());
                assert("pep_risk_monitor_match"@.len() != "financial_regulator_risk_monitor_match"@.len());
                assert("pep_risk_monitor_match"@.len() != "insolvent_risk_monitor_match"@.len());
                assert("pep_risk_monitor_match"@.len() != "law_enforcement_risk_monitor_match"@.len());
            },
        }
    }

    /// A string that reads as a value is that value's wire string.
    pub proof fn lemma_parse_exact(s: Seq<char>)
        ensures
            Self::parse(s) matches Some(x) ==> x.wire() == s,
    {
    }
}

impl Decode for EventType {
    open spec fn decodes(v: JsonValue, x: Self) -> bool {
        v matches JsonValue::Str(s) && Self::parse(s@) == Some(x)
    }

    fn decode(v: &JsonValue) -> (r: Option<Self>) {
        match v {
            JsonValue::Str(s) => Self::from_wire(s.as_str()),
            _ => None,
        }
    }
}

} // verus!
