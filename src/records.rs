use vstd::prelude::*;
use crate::dates::{Date, DateTime};
use crate::json::JsonValue;
use crate::kinds::{
    AccreditationStatus, BusinessAssertionType, BusinessType, DocumentType, EntityType, EventType,
    IdentityDocumentType, IndividualAssertionType, MaritalStatus, ProvidingFor, RevokeType, Scope,
};
use crate::values::{optional, required, take_optional, take_required, CountryCode, Decimal, Decode, Timestamp, Union};

verus! {

/// Identifies a business or a person.
pub type EntityId = String;

/// A postal address.
#[derive(Debug)]
pub struct Location {
    pub address_one: String,
    pub address_two: String,
    pub city: String,
    pub region: Option<String>,
    pub postal_code: String,
    pub state: Option<String>,
    pub country: CountryCode,
}

impl Decode for Location {
    open spec fn decodes(v: JsonValue, x: Self) -> bool {
        &&& required(v, "address_one"@, x.address_one)
        &&& required(v, "address_two"@, x.address_two)
        &&& required(v, "city"@, x.city)
        &&& optional(v, "region"@, x.region)
        &&& required(v, "postal_code"@, x.postal_code)
        &&& optional(v, "state"@, x.state)
        &&& required(v, "country"@, x.country)
    }

    fn decode(v: &JsonValue) -> (r: Option<Self>) {
        let address_one = match take_required(v, "address_one") {
            Some(x) => x,
            None => return None,
        };
        let address_two = match take_required(v, "address_two") {
            Some(x) => x,
            None => return None,
        };
        let city = match take_required(v, "city") {
            Some(x) => x,
            None => return None,
        };
        let region = match take_optional(v, "region") {
            Some(x) => x,
            None => return None,
        };
        let postal_code = match take_required(v, "postal_code") {
            Some(x) => x,
            None => return None,
        };
        let state = match take_optional(v, "state") {
            Some(x) => x,
            None => return None,
        };
        let country = match take_required(v, "country") {
            Some(x) => x,
            None => return None,
        };
        Some(Location { address_one, address_two, city, region, postal_code, state, country })
    }
}

/// How the user submitted linked information.
#[derive(Debug)]
pub struct UserSession {
    /// False if the user did not use an anonymizing proxy (e.g. TOR, Public VPN) when submitting linked information
    pub maybe_anonymizing_proxy: bool,
}

impl Decode for UserSession {
    open spec fn decodes(v: JsonValue, x: Self) -> bool {
        &&& required(v, "maybe_anonymizing_proxy"@, x.maybe_anonymizing_proxy)
    }

    fn decode(v: &JsonValue) -> (r: Option<Self>) {
        let maybe_anonymizing_proxy = match take_required(v, "maybe_anonymizing_proxy") {
            Some(x) => x,
            None => return None,
        };
        Some(UserSession { maybe_anonymizing_proxy })
    }
}

/// The profile of a business.
#[derive(Debug)]
pub struct BusinessProfile {
    pub name: String,
    pub business_type: BusinessType,
    pub primary_contact: Option<IndividualProfile>,
}

impl Decode for BusinessProfile {
    open spec fn decodes(v: JsonValue, x: Self) -> bool {
        &&& required(v, "name"@, x.name)
        &&& required(v, "business_type"@, x.business_type)
        &&& optional(v, "primary_contact"@, x.primary_contact)
    }

    fn decode(v: &JsonValue) -> (r: Option<Self>) {
        let name = match take_required(v, "name") {
            Some(x) => x,
            None => return None,
        };
        let business_type = match take_required(v, "business_type") {
            Some(x) => x,
            None => return None,
        };
        let primary_contact = match take_optional(v, "primary_contact") {
            Some(x) => x,
            None => return None,
        };
        Some(BusinessProfile { name, business_type, primary_contact })
    }
}

/// The profile of a person.
#[derive(Debug)]
pub struct IndividualProfile {
    pub first_name: String,
    pub last_name: String,
    pub email: Option<String>,
}

impl Decode for IndividualProfile {
    open spec fn decodes(v: JsonValue, x: Self) -> bool {
        &&& required(v, "first_name"@, x.first_name)
        &&& required(v, "last_name"@, x.last_name)
        &&& optional(v, "email"@, x.email)
    }

    fn decode(v: &JsonValue) -> (r: Option<Self>) {
        let first_name = match take_required(v, "first_name") {
            Some(x) => x,
            None => return None,
        };
        let last_name = match take_required(v, "last_name") {
            Some(x) => x,
            None => return None,
        };
        let email = match take_optional(v, "email") {
            Some(x) => x,
            None => return None,
        };
        Some(IndividualProfile { first_name, last_name, email })
    }
}

/// A document backing an accreditation, downloadable for a limited time.
#[derive(Debug)]
pub struct AccreditationDocument {
    pub download_url: String,
    /// Number of seconds until expiration
    pub download_url_expires: u64,
    pub document_type: DocumentType,
}

impl Decode for AccreditationDocument {
    open spec fn decodes(v: JsonValue, x: Self) -> bool {
        &&& required(v, "download_url"@, x.download_url)
        &&& required(v, "download_url_expires"@, x.download_url_expires)
        &&& required(v, "type"@, x.document_type)
    }

    fn decode(v: &JsonValue) -> (r: Option<Self>) {
        let download_url = match take_required(v, "download_url") {
            Some(x) => x,
            None => return None,
        };
        let download_url_expires = match take_required(v, "download_url_expires") {
            Some(x) => x,
            None => return None,
        };
        let document_type = match take_required(v, "type") {
            Some(x) => x,
            None => return None,
        };
        Some(AccreditationDocument { download_url, download_url_expires, document_type })
    }
}

/// An accreditation of a business.
#[derive(Debug)]
pub struct BusinessAccreditation {
    pub id: String,
    pub status: AccreditationStatus,
    pub expires_at: Option<Timestamp>,
    pub assertion_type: BusinessAssertionType,
    pub created_at: Timestamp,
    pub certified_at: Option<Timestamp>,
    pub name: String,
    pub documents: Vec<AccreditationDocument>,
}

impl Decode for BusinessAccreditation {
    open spec fn decodes(v: JsonValue, x: Self) -> bool {
        &&& required(v, "id"@, x.id)
        &&& required(v, "status"@, x.status)
        &&& optional(v, "expires_at"@, x.expires_at)
        &&& required(v, "assertion_type"@, x.assertion_type)
        &&& required(v, "created_at"@, x.created_at)
        &&& optional(v, "certified_at"@, x.certified_at)
        &&& required(v, "name"@, x.name)
        &&& required(v, "documents"@, x.documents)
    }

    fn decode(v: &JsonValue) -> (r: Option<Self>) {
        let id = match take_required(v, "id") {
            Some(x) => x,
            None => return None,
        };
        let status = match take_required(v, "status") {
            Some(x) => x,
            None => return None,
        };
        let expires_at = match take_optional(v, "expires_at") {
            Some(x) => x,
            None => return None,
        };
        let assertion_type = match take_required(v, "assertion_type") {
            Some(x) => x,
            None => return None,
        };
        let created_at = match take_required(v, "created_at") {
            Some(x) => x,
            None => return None,
        };
        let certified_at = match take_optional(v, "certified_at") {
            Some(x) => x,
            None => return None,
        };
        let name = match take_required(v, "name") {
            Some(x) => x,
            None => return None,
        };
        let documents = match take_required(v, "documents") {
            Some(x) => x,
            None => return None,
        };
        Some(
            BusinessAccreditation {
                id,
                status,
                expires_at,
                assertion_type,
                created_at,
                certified_at,
                name,
                documents,
            },
        )
    }
}

/// An accreditation of a person.
#[derive(Debug)]
pub struct IndividualAccreditation {
    pub id: String,
    pub status: AccreditationStatus,
    pub expires_at: Option<Timestamp>,
    pub assertion_type: IndividualAssertionType,
    pub created_at: Timestamp,
    pub certified_at: Option<Timestamp>,
    pub first_name: String,
    pub last_name: String,
    pub documents: Vec<AccreditationDocument>,
}

impl Decode for IndividualAccreditation {
    open spec fn decodes(v: JsonValue, x: Self) -> bool {
        &&& required(v, "id"@, x.id)
        &&& required(v, "status"@, x.status)
        &&& optional(v, "expires_at"@, x.expires_at)
        &&& required(v, "assertion_type"@, x.assertion_type)
        &&& required(v, "created_at"@, x.created_at)
        &&& optional(v, "certified_at"@, x.certified_at)
        &&& required(v, "first_name"@, x.first_name)
        &&& required(v, "last_name"@, x.last_name)
        &&& required(v, "documents"@, x.documents)
    }

    fn decode(v: &JsonValue) -> (r: Option<Self>) {
        let id = match take_required(v, "id") {
            Some(x) => x,
            None => return None,
        };
        let status = match take_required(v, "status") {
            Some(x) => x,
            None => return None,
        };
        let expires_at = match take_optional(v, "expires_at") {
            Some(x) => x,
            None => return None,
        };
        let assertion_type = match take_required(v, "assertion_type") {
            Some(x) => x,
            None => return None,
        };
        let created_at = match take_required(v, "created_at") {
            Some(x) => x,
            None => return None,
        };
        let certified_at = match take_optional(v, "certified_at") {
            Some(x) => x,
            None => return None,
        };
        let first_name = match take_required(v, "first_name") {
            Some(x) => x,
            None => return None,
        };
        let last_name = match take_required(v, "last_name") {
            Some(x) => x,
            None => return None,
        };
        let documents = match take_required(v, "documents") {
            Some(x) => x,
            None => return None,
        };
        Some(
            IndividualAccreditation {
                id,
                status,
                expires_at,
                assertion_type,
                created_at,
                certified_at,
                first_name,
                last_name,
                documents,
            },
        )
    }
}

/// A direct beneficial owner of a business.
#[derive(Debug)]
pub struct BeneficialOwnerReference {
    pub id: Option<String>,
    pub reference_type: EntityType,
    pub ownership_percent: Decimal,
    pub profile: Union<BusinessProfile, IndividualProfile>,
}

impl Decode for BeneficialOwnerReference {
    open spec fn decodes(v: JsonValue, x: Self) -> bool {
        &&& optional(v, "id"@, x.id)
        &&& required(v, "type"@, x.reference_type)
        &&& required(v, "ownership_percent"@, x.ownership_percent)
        &&& required(v, "profile"@, x.profile)
    }

    fn decode(v: &JsonValue) -> (r: Option<Self>) {
        let id = match take_optional(v, "id") {
            Some(x) => x,
            None => return None,
        };
        let reference_type = match take_required(v, "type") {
            Some(x) => x,
            None => return None,
        };
        let ownership_percent = match take_required(v, "ownership_percent") {
            Some(x) => x,
            None => return None,
        };
        let profile = match take_required(v, "profile") {
            Some(x) => x,
            None => return None,
        };
        Some(BeneficialOwnerReference { id, reference_type, ownership_percent, profile })
    }
}

/// A person who controls a business.
#[derive(Debug)]
pub struct ControlPersonReference {
    pub id: Option<String>,
    /// Only ever `Individual`
    pub reference_type: EntityType,
    pub title: String,
    pub profile: IndividualProfile,
}

impl Decode for ControlPersonReference {
    open spec fn decodes(v: JsonValue, x: Self) -> bool {
        &&& optional(v, "id"@, x.id)
        &&& required(v, "type"@, x.reference_type)
        &&& required(v, "title"@, x.title)
        &&& required(v, "profile"@, x.profile)
    }

    fn decode(v: &JsonValue) -> (r: Option<Self>) {
        let id = match take_optional(v, "id") {
            Some(x) => x,
            None => return None,
        };
        let reference_type = match take_required(v, "type") {
            Some(x) => x,
            None => return None,
        };
        let title = match take_required(v, "title") {
            Some(x) => x,
            None => return None,
        };
        let profile = match take_required(v, "profile") {
            Some(x) => x,
            None => return None,
        };
        Some(ControlPersonReference { id, reference_type, title, profile })
    }
}

/// An identity document, downloadable for a limited time.
#[derive(Debug)]
pub struct IdentityDocument {
    pub download_url: String,
    /// Number of seconds until expiration
    pub download_url_expires: u64,
    pub document_type: IdentityDocumentType,
}

impl Decode for IdentityDocument {
    open spec fn decodes(v: JsonValue, x: Self) -> bool {
        &&& required(v, "download_url"@, x.download_url)
        &&& required(v, "download_url_expires"@, x.download_url_expires)
        &&& required(v, "type"@, x.document_type)
    }

    fn decode(v: &JsonValue) -> (r: Option<Self>) {
        let download_url = match take_required(v, "download_url") {
            Some(x) => x,
            None => return None,
        };
        let download_url_expires = match take_required(v, "download_url_expires") {
            Some(x) => x,
            None => return None,
        };
        let document_type = match take_required(v, "type") {
            Some(x) => x,
            None => return None,
        };
        Some(IdentityDocument { download_url, download_url_expires, document_type })
    }
}

/// A possible match of a business against monitored datasets.
#[derive(Debug)]
pub struct BusinessRiskMonitorMatch {
    /// True if the matched entity appears in searched media sources linking it to serious crime (e.g. fraud, money laundering, terrorism, etc.)
    pub adverse_media: bool,
    /// True if the matched entity appears in any monitored sanctions datasets
    pub currently_sanctioned: bool,
    /// True if the matched entity appears in any searched disqualified directors datasets
    pub disqualified_director: bool,
    /// True if the matched entity appears in any searched financial regulator datasets
    pub financial_regulator: bool,
    /// True if the matched entity appears in any insolvency datasets
    pub insolvent: bool,
    /// True if the matched entity appears in any law enforcement datasets
    pub law_enforcement: bool,
    /// The name of the matched entity (likely the same or similar to the business name)
    pub name: String,
    /// True if the matched entity is considered a Politically Exposed Person
    pub pep: bool,
    /// True if the matched entity was sanctioned in the past
    pub previously_sanctioned: bool,
    /// Entity match score 1-100. Higher numbers indicate higher confidence in a positive match
    pub score: u8,
    /// The matched entity's website
    pub website: String,
}

impl Decode for BusinessRiskMonitorMatch {
    open spec fn decodes(v: JsonValue, x: Self) -> bool {
        &&& required(v, "adverse_media"@, x.adverse_media)
        &&& required(v, "currently_sanctioned"@, x.currently_sanctioned)
        &&& required(v, "disqualified_director"@, x.disqualified_director)
        &&& required(v, "financial_regulator"@, x.financial_regulator)
        &&& required(v, "insolvent"@, x.insolvent)
        &&& required(v, "law_enforcement"@, x.law_enforcement)
        &&& required(v, "name"@, x.name)
        &&& required(v, "pep"@, x.pep)
        &&& required(v, "previously_sanctioned"@, x.previously_sanctioned)
        &&& required(v, "score"@, x.score)
        &&& required(v, "website"@, x.website)
    }

    fn decode(v: &JsonValue) -> (r: Option<Self>) {
        let adverse_media = match take_required(v, "adverse_media") {
            Some(x) => x,
            None => return None,
        };
        let currently_sanctioned = match take_required(v, "currently_sanctioned") {
            Some(x) => x,
            None => return None,
        };
        let disqualified_director = match take_required(v, "disqualified_director") {
            Some(x) => x,
            None => return None,
        };
        let financial_regulator = match take_required(v, "financial_regulator") {
            Some(x) => x,
            None => return None,
        };
        let insolvent = match take_required(v, "insolvent") {
            Some(x) => x,
            None => return None,
        };
        let law_enforcement = match take_required(v, "law_enforcement") {
            Some(x) => x,
            None => return None,
        };
        let name = match take_required(v, "name") {
            Some(x) => x,
            None => return None,
        };
        let pep = match take_required(v, "pep") {
            Some(x) => x,
            None => return None,
        };
        let previously_sanctioned = match take_required(v, "previously_sanctioned") {
            Some(x) => x,
            None => return None,
        };
        let score = match take_required(v, "score") {
            Some(x) => x,
            None => return None,
        };
        let website = match take_required(v, "website") {
            Some(x) => x,
            None => return None,
        };
        Some(
            BusinessRiskMonitorMatch {
                adverse_media,
                currently_sanctioned,
                disqualified_director,
                financial_regulator,
                insolvent,
                law_enforcement,
                name,
                pep,
                previously_sanctioned,
                score,
                website,
            },
        )
    }
}

/// A possible match of a person against monitored datasets.
#[derive(Debug)]
pub struct IndividualRiskMonitorMatch {
    /// True if the matched individual appears in searched media sources linking them to serious crime (e.g. fraud, money laundering, terrorism, etc.)
    pub adverse_media: bool,
    pub birth_date: Date,
    /// True if the matched individual is currently listed as a sanctioned business by OFAC
    pub currently_sanctioned: bool,
    /// True if the matched individual is deceased
    pub deceased: bool,
    /// True if the matched individual appears in any searched disqualified director datasets
    pub disqualified_director: bool,
    /// True if the matched individual appears in any searched financial regulator datasets
    pub financial_regulator: bool,
    /// True if the matched individual appears in any insolvency datasets
    pub insolvent: bool,
    pub first_name: String,
    pub middle_name: String,
    pub last_name: String,
    /// True if the matched individual appears in any law enforcement datasets
    pub law_enforcement: bool,
    /// A description of the matched individual's nationality
    pub nationality: String,
    /// True if the matched individual is considered a Politically Exposed Person
    pub pep: bool,
    /// True if the matched individual was sanctioned in the past
    pub previously_sanctioned: bool,
    /// Entity match score 1-100. Higher numbers indicate higher confidence in a positive match
    pub score: u8,
}

impl Decode for IndividualRiskMonitorMatch {
    open spec fn decodes(v: JsonValue, x: Self) -> bool {
        &&& required(v, "adverse_media"@, x.adverse_media)
        &&& required(v, "birth_date"@, x.birth_date)
        &&& required(v, "currently_sanctioned"@, x.currently_sanctioned)
        &&& required(v, "deceased"@, x.deceased)
        &&& required(v, "disqualified_director"@, x.disqualified_director)
        &&& required(v, "financial_regulator"@, x.financial_regulator)
        &&& required(v, "insolvent"@, x.insolvent)
        &&& required(v, "first_name"@, x.first_name)
        &&& required(v, "middle_name"@, x.middle_name)
        &&& required(v, "last_name"@, x.last_name)
        &&& required(v, "law_enforcement"@, x.law_enforcement)
        &&& required(v, "nationality"@, x.nationality)
        &&& required(v, "pep"@, x.pep)
        &&& required(v, "previously_sanctioned"@, x.previously_sanctioned)
        &&& required(v, "score"@, x.score)
    }

    fn decode(v: &JsonValue) -> (r: Option<Self>) {
        let adverse_media = match take_required(v, "adverse_media") {
            Some(x) => x,
            None => return None,
        };
        let birth_date = match take_required(v, "birth_date") {
            Some(x) => x,
            None => return None,
        };
        let currently_sanctioned = match take_required(v, "currently_sanctioned") {
            Some(x) => x,
            None => return None,
        };
        let deceased = match take_required(v, "deceased") {
            Some(x) => x,
            None => return None,
        };
        let disqualified_director = match take_required(v, "disqualified_director") {
            Some(x) => x,
            None => return None,
        };
        let financial_regulator = match take_required(v, "financial_regulator") {
            Some(x) => x,
            None => return None,
        };
        let insolvent = match take_required(v, "insolvent") {
            Some(x) => x,
            None => return None,
        };
        let first_name = match take_required(v, "first_name") {
            Some(x) => x,
            None => return None,
        };
        let middle_name = match take_required(v, "middle_name") {
            Some(x) => x,
            None => return None,
        };
        let last_name = match take_required(v, "last_name") {
            Some(x) => x,
            None => return None,
        };
        let law_enforcement = match take_required(v, "law_enforcement") {
            Some(x) => x,
            None => return None,
        };
        let nationality = match take_required(v, "nationality") {
            Some(x) => x,
            None => return None,
        };
        let pep = match take_required(v, "pep") {
            Some(x) => x,
            None => return None,
        };
        let previously_sanctioned = match take_required(v, "previously_sanctioned") {
            Some(x) => x,
            None => return None,
        };
        let score = match take_required(v, "score") {
            Some(x) => x,
            None => return None,
        };
        Some(
            IndividualRiskMonitorMatch {
                adverse_media,
                birth_date,
                currently_sanctioned,
                deceased,
                disqualified_director,
                financial_regulator,
                insolvent,
                first_name,
                middle_name,
                last_name,
                law_enforcement,
                nationality,
                pep,
                previously_sanctioned,
                score,
            },
        )
    }
}

/// Identity details of a business.
#[derive(Debug)]
pub struct BusinessIdentityDetails {
    pub business_type: BusinessType,
    pub completed_at: DateTime,
    pub control_persons: Vec<ControlPersonReference>,
    pub created_by: IndividualProfile,
    pub direct_beneficial_owners: Vec<BeneficialOwnerReference>,
    pub expires_at: DateTime,
    pub foreign_tax_id: Option<String>,
    pub identity_files: Vec<IdentityDocument>,
    pub incorporation_country: CountryCode,
    pub incorporation_state: Option<String>,
    pub name: String,
    pub primary_contact: IndividualProfile,
    pub principal_location: Location,
    pub risk_monitor_matches: Vec<BusinessRiskMonitorMatch>,
    pub us_tax_id: String,
    pub user_session: UserSession,
}

impl Decode for BusinessIdentityDetails {
    open spec fn decodes(v: JsonValue, x: Self) -> bool {
        &&& required(v, "business_type"@, x.business_type)
        &&& required(v, "completed_at"@, x.completed_at)
        &&& required(v, "control_persons"@, x.control_persons)
        &&& required(v, "created_by"@, x.created_by)
        &&& required(v, "direct_beneficial_owners"@, x.direct_beneficial_owners)
        &&& required(v, "expires_at"@, x.expires_at)
        &&& optional(v, "foreign_tax_id"@, x.foreign_tax_id)
        &&& required(v, "identity_files"@, x.identity_files)
        &&& required(v, "incorporation_country"@, x.incorporation_country)
        &&& optional(v, "incorporation_state"@, x.incorporation_state)
        &&& required(v, "name"@, x.name)
        &&& required(v, "primary_contact"@, x.primary_contact)
        &&& required(v, "principal_location"@, x.principal_location)
        &&& required(v, "risk_monitor_matches"@, x.risk_monitor_matches)
        &&& required(v, "us_tax_id"@, x.us_tax_id)
        &&& required(v, "user_session"@, x.user_session)
    }

    fn decode(v: &JsonValue) -> (r: Option<Self>) {
        let business_type = match take_required(v, "business_type") {
            Some(x) => x,
            None => return None,
        };
        let completed_at = match take_required(v, "completed_at") {
            Some(x) => x,
            None => return None,
        };
        let control_persons = match take_required(v, "control_persons") {
            Some(x) => x,
            None => return None,
        };
        let created_by = match take_required(v, "created_by") {
            Some(x) => x,
            None => return None,
        };
        let direct_beneficial_owners = match take_required(v, "direct_beneficial_owners") {
            Some(x) => x,
            None => return None,
        };
        let expires_at = match take_required(v, "expires_at") {
            Some(x) => x,
            None => return None,
        };
        let foreign_tax_id = match take_optional(v, "foreign_tax_id") {
            Some(x) => x,
            None => return None,
        };
        let identity_files = match take_required(v, "identity_files") {
            Some(x) => x,
            None => return None,
        };
        let incorporation_country = match take_required(v, "incorporation_country") {
            Some(x) => x,
            None => return None,
        };
        let incorporation_state = match take_optional(v, "incorporation_state") {
            Some(x) => x,
            None => return None,
        };
        let name = match take_required(v, "name") {
            Some(x) => x,
            None => return None,
        };
        let primary_contact = match take_required(v, "primary_contact") {
            Some(x) => x,
            None => return None,
        };
        let principal_location = match take_required(v, "principal_location") {
            Some(x) => x,
            None => return None,
        };
        let risk_monitor_matches = match take_required(v, "risk_monitor_matches") {
            Some(x) => x,
            None => return None,
        };
        let us_tax_id = match take_required(v, "us_tax_id") {
            Some(x) => x,
            None => return None,
        };
        let user_session = match take_required(v, "user_session") {
            Some(x) => x,
            None => return None,
        };
        Some(
            BusinessIdentityDetails {
                business_type,
                completed_at,
                control_persons,
                created_by,
                direct_beneficial_owners,
                expires_at,
                foreign_tax_id,
                identity_files,
                incorporation_country,
                incorporation_state,
                name,
                primary_contact,
                principal_location,
                risk_monitor_matches,
                us_tax_id,
                user_session,
            },
        )
    }
}

/// Identity details of a person.
#[derive(Debug)]
pub struct IndividualIdentityDetails {
    pub birth_date: Date,
    pub citizenship_country: CountryCode,
    pub completed_at: DateTime,
    pub created_by: IndividualProfile,
    pub domicile_location: Location,
    pub email: String,
    pub expires_at: DateTime,
    pub first_name: String,
    pub last_name: String,
    pub identity_files: Vec<IdentityDocument>,
    pub marital_status: MaritalStatus,
    /// Phone number is in E.164 format
    pub phone: String,
    pub residence_location: Location,
    pub risk_monitor_matches: Vec<IndividualRiskMonitorMatch>,
    pub us_tax_id: String,
    pub foreign_tax_id: Option<String>,
    pub user_session: UserSession,
}

impl Decode for IndividualIdentityDetails {
    open spec fn decodes(v: JsonValue, x: Self) -> bool {
        &&& required(v, "birth_date"@, x.birth_date)
        &&& required(v, "citizenship_country"@, x.citizenship_country)
        &&& required(v, "completed_at"@, x.completed_at)
        &&& required(v, "created_by"@, x.created_by)
        &&& required(v, "domicile_location"@, x.domicile_location)
        &&& required(v, "email"@, x.email)
        &&& required(v, "expires_at"@, x.expires_at)
        &&& required(v, "first_name"@, x.first_name)
        &&& required(v, "last_name"@, x.last_name)
        &&& required(v, "identity_files"@, x.identity_files)
        &&& required(v, "marital_status"@, x.marital_status)
        &&& required(v, "phone"@, x.phone)
        &&& required(v, "residence_location"@, x.residence_location)
        &&& required(v, "risk_monitor_matches"@, x.risk_monitor_matches)
        &&& required(v, "us_tax_id"@, x.us_tax_id)
        &&& optional(v, "foreign_tax_id"@, x.foreign_tax_id)
        &&& required(v, "user_session"@, x.user_session)
    }

    fn decode(v: &JsonValue) -> (r: Option<Self>) {
        let birth_date = match take_required(v, "birth_date") {
            Some(x) => x,
            None => return None,
        };
        let citizenship_country = match take_required(v, "citizenship_country") {
            Some(x) => x,
            None => return None,
        };
        let completed_at = match take_required(v, "completed_at") {
            Some(x) => x,
            None => return None,
        };
        let created_by = match take_required(v, "created_by") {
            Some(x) => x,
            None => return None,
        };
        let domicile_location = match take_required(v, "domicile_location") {
            Some(x) => x,
            None => return None,
        };
        let email = match take_required(v, "email") {
            Some(x) => x,
            None => return None,
        };
        let expires_at = match take_required(v, "expires_at") {
            Some(x) => x,
            None => return None,
        };
        let first_name = match take_required(v, "first_name") {
            Some(x) => x,
            None => return None,
        };
        let last_name = match take_required(v, "last_name") {
            Some(x) => x,
            None => return None,
        };
        let identity_files = match take_required(v, "identity_files") {
            Some(x) => x,
            None => return None,
        };
        let marital_status = match take_required(v, "marital_status") {
            Some(x) => x,
            None => return None,
        };
        let phone = match take_required(v, "phone") {
            Some(x) => x,
            None => return None,
        };
        let residence_location = match take_required(v, "residence_location") {
            Some(x) => x,
            None => return None,
        };
        let risk_monitor_matches = match take_required(v, "risk_monitor_matches") {
            Some(x) => x,
            None => return None,
        };
        let us_tax_id = match take_required(v, "us_tax_id") {
            Some(x) => x,
            None => return None,
        };
        let foreign_tax_id = match take_optional(v, "foreign_tax_id") {
            Some(x) => x,
            None => return None,
        };
        let user_session = match take_required(v, "user_session") {
            Some(x) => x,
            None => return None,
        };
        Some(
            IndividualIdentityDetails {
                birth_date,
                citizenship_country,
                completed_at,
                created_by,
                domicile_location,
                email,
                expires_at,
                first_name,
                last_name,
                identity_files,
                marital_status,
                phone,
                residence_location,
                risk_monitor_matches,
                us_tax_id,
                foreign_tax_id,
                user_session,
            },
        )
    }
}

/// The answer of the profile endpoint.
#[derive(Debug)]
pub struct ProfileResponse {
    pub id: EntityId,
    pub entity_type: EntityType,
    pub profile: Union<IndividualProfile, BusinessProfile>,
    pub user_id: String,
    pub user_profile: IndividualProfile,
    pub user_providing_for: ProvidingFor,
    pub access_expires_at: Option<DateTime>,
    pub access_revoked_by: Option<RevokeType>,
}

impl Decode for ProfileResponse {
    open spec fn decodes(v: JsonValue, x: Self) -> bool {
        &&& required(v, "id"@, x.id)
        &&& required(v, "type"@, x.entity_type)
        &&& required(v, "profile"@, x.profile)
        &&& required(v, "user_id"@, x.user_id)
        &&& required(v, "user_profile"@, x.user_profile)
        &&& required(v, "user_providing_for"@, x.user_providing_for)
        &&& optional(v, "access_expires_at"@, x.access_expires_at)
        &&& optional(v, "access_revoked_by"@, x.access_revoked_by)
    }

    fn decode(v: &JsonValue) -> (r: Option<Self>) {
        let id = match take_required(v, "id") {
            Some(x) => x,
            None => return None,
        };
        let entity_type = match take_required(v, "type") {
            Some(x) => x,
            None => return None,
        };
        let profile = match take_required(v, "profile") {
            Some(x) => x,
            None => return None,
        };
        let user_id = match take_required(v, "user_id") {
            Some(x) => x,
            None => return None,
        };
        let user_profile = match take_required(v, "user_profile") {
            Some(x) => x,
            None => return None,
        };
        let user_providing_for = match take_required(v, "user_providing_for") {
            Some(x) => x,
            None => return None,
        };
        let access_expires_at = match take_optional(v, "access_expires_at") {
            Some(x) => x,
            None => return None,
        };
        let access_revoked_by = match take_optional(v, "access_revoked_by") {
            Some(x) => x,
            None => return None,
        };
        Some(
            ProfileResponse {
                id,
                entity_type,
                profile,
                user_id,
                user_profile,
                user_providing_for,
                access_expires_at,
                access_revoked_by,
            },
        )
    }
}

/// The answer of the accreditations endpoint.
#[derive(Debug)]
pub struct AccreditationsResponse {
    pub id: EntityId,
    pub entity_type: EntityType,
    pub user_id: String,
    pub indicated_unaccredited: Option<Timestamp>,
    pub accreditations: Union<Vec<IndividualAccreditation>, Vec<BusinessAccreditation>>,
}

impl Decode for AccreditationsResponse {
    open spec fn decodes(v: JsonValue, x: Self) -> bool {
        &&& required(v, "id"@, x.id)
        &&& required(v, "type"@, x.entity_type)
        &&& required(v, "user_id"@, x.user_id)
        &&& optional(v, "indicated_unaccredited"@, x.indicated_unaccredited)
        &&& required(v, "accreditations"@, x.accreditations)
    }

    fn decode(v: &JsonValue) -> (r: Option<Self>) {
        let id = match take_required(v, "id") {
            Some(x) => x,
            None => return None,
        };
        let entity_type = match take_required(v, "type") {
            Some(x) => x,
            None => return None,
        };
        let user_id = match take_required(v, "user_id") {
            Some(x) => x,
            None => return None,
        };
        let indicated_unaccredited = match take_optional(v, "indicated_unaccredited") {
            Some(x) => x,
            None => return None,
        };
        let accreditations = match take_required(v, "accreditations") {
            Some(x) => x,
            None => return None,
        };
        Some(
            AccreditationsResponse {
                id,
                entity_type,
                user_id,
                indicated_unaccredited,
                accreditations,
            },
        )
    }
}

/// The answer of the identity endpoint.
#[derive(Debug)]
pub struct IdentityResponse {
    pub id: EntityId,
    pub entity_type: EntityType,
    pub identity_details: Union<BusinessIdentityDetails, IndividualIdentityDetails>,
    pub user_id: String,
    pub user_providing_for: ProvidingFor,
    pub access_expires_at: Option<DateTime>,
    pub access_revoked_by: Option<RevokeType>,
}

impl Decode for IdentityResponse {
    open spec fn decodes(v: JsonValue, x: Self) -> bool {
        &&& required(v, "id"@, x.id)
        &&& required(v, "type"@, x.entity_type)
        &&& required(v, "identity_details"@, x.identity_details)
        &&& required(v, "user_id"@, x.user_id)
        &&& required(v, "user_providing_for"@, x.user_providing_for)
        &&& optional(v, "access_expires_at"@, x.access_expires_at)
        &&& optional(v, "access_revoked_by"@, x.access_revoked_by)
    }

    fn decode(v: &JsonValue) -> (r: Option<Self>) {
        let id = match take_required(v, "id") {
            Some(x) => x,
            None => return None,
        };
        let entity_type = match take_required(v, "type") {
            Some(x) => x,
            None => return None,
        };
        let identity_details = match take_required(v, "identity_details") {
            Some(x) => x,
            None => return None,
        };
        let user_id = match take_required(v, "user_id") {
            Some(x) => x,
            None => return None,
        };
        let user_providing_for = match take_required(v, "user_providing_for") {
            Some(x) => x,
            None => return None,
        };
        let access_expires_at = match take_optional(v, "access_expires_at") {
            Some(x) => x,
            None => return None,
        };
        let access_revoked_by = match take_optional(v, "access_revoked_by") {
            Some(x) => x,
            None => return None,
        };
        Some(
            IdentityResponse {
                id,
                entity_type,
                identity_details,
                user_id,
                user_providing_for,
                access_expires_at,
                access_revoked_by,
            },
        )
    }
}

/// The answer of the identity endpoint for a control person or beneficial owner.
#[derive(Debug)]
pub struct DependencyIdentityResponse {
    pub id: EntityId,
    pub entity_type: EntityType,
    pub identity_details: Union<BusinessIdentityDetails, IndividualIdentityDetails>,
    pub user_id: String,
    pub access_expires_at: Option<DateTime>,
    /// Only ever `Subject`
    pub access_revoked_by: Option<RevokeType>,
}

impl Decode for DependencyIdentityResponse {
    open spec fn decodes(v: JsonValue, x: Self) -> bool {
        &&& required(v, "id"@, x.id)
        &&& required(v, "type"@, x.entity_type)
        &&& required(v, "identity_details"@, x.identity_details)
        &&& required(v, "user_id"@, x.user_id)
        &&& optional(v, "access_expires_at"@, x.access_expires_at)
        &&& optional(v, "access_revoked_by"@, x.access_revoked_by)
    }

    fn decode(v: &JsonValue) -> (r: Option<Self>) {
        let id = match take_required(v, "id") {
            Some(x) => x,
            None => return None,
        };
        let entity_type = match take_required(v, "type") {
            Some(x) => x,
            None => return None,
        };
        let identity_details = match take_required(v, "identity_details") {
            Some(x) => x,
            None => return None,
        };
        let user_id = match take_required(v, "user_id") {
            Some(x) => x,
            None => return None,
        };
        let access_expires_at = match take_optional(v, "access_expires_at") {
            Some(x) => x,
            None => return None,
        };
        let access_revoked_by = match take_optional(v, "access_revoked_by") {
            Some(x) => x,
            None => return None,
        };
        Some(
            DependencyIdentityResponse {
                id,
                entity_type,
                identity_details,
                user_id,
                access_expires_at,
                access_revoked_by,
            },
        )
    }
}

/// The subject that a notification is about.
#[derive(Debug)]
pub struct EntityIdentification {
    pub id: EntityId,
    pub entity_type: EntityType,
}

impl Decode for EntityIdentification {
    open spec fn decodes(v: JsonValue, x: Self) -> bool {
        &&& required(v, "id"@, x.id)
        &&& required(v, "type"@, x.entity_type)
    }

    fn decode(v: &JsonValue) -> (r: Option<Self>) {
        let id = match take_required(v, "id") {
            Some(x) => x,
            None => return None,
        };
        let entity_type = match take_required(v, "type") {
            Some(x) => x,
            None => return None,
        };
        Some(EntityIdentification { id, entity_type })
    }
}

/// A notification that the API sends out of band.
#[derive(Debug)]
pub struct WebhookData {
    pub entity: EntityIdentification,
    pub event: EventType,
    pub scope: Scope,
    pub connecting_business_id: Option<String>,
}

impl Decode for WebhookData {
    open spec fn decodes(v: JsonValue, x: Self) -> bool {
        &&& required(v, "entity"@, x.entity)
        &&& required(v, "event"@, x.event)
        &&& required(v, "scope"@, x.scope)
        &&& optional(v, "connecting_business_id"@, x.connecting_business_id)
    }

    fn decode(v: &JsonValue) -> (r: Option<Self>) {
        let entity = match take_required(v, "entity") {
            Some(x) => x,
            None => return None,
        };
        let event = match take_required(v, "event") {
            Some(x) => x,
            None => return None,
        };
        let scope = match take_required(v, "scope") {
            Some(x) => x,
            None => return None,
        };
        let connecting_business_id = match take_optional(v, "connecting_business_id") {
            Some(x) => x,
            None => return None,
        };
        Some(WebhookData { entity, event, scope, connecting_business_id })
    }
}

} // verus!
