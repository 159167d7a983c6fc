mod client;
mod dates;
mod error;
mod header;
mod json;
mod kinds;
mod laws;
mod records;
mod text;
mod values;

pub use client::{
    decode_response, Client, Endpoint, OAuth2Settings, Request, AUTHORIZE_PATH, REFRESH_PATH,
    TOKEN_PATH,
};
pub use dates::{Date, DateTime};
pub use error::{ClientError, Error, ErrorKind, Result};
pub use header::{authorization_only, bearer, bearer_value, header_entries, is_header_safe, oauth_header};
pub use json::{get_field, parse_number, JsonValue};
pub use kinds::{
    AccreditationStatus, BusinessAssertionType, BusinessType, DocumentType, EntityType, EventType,
    IdentityDocumentType, IndividualAssertionType, MaritalStatus, ProvidingFor, RevokeType, Scope,
};
pub use laws::{document_expiry_is_seconds, scope_gate, scope_text_round_trip, union_prefers_first, union_rejects_neither};
pub use records::{
    AccreditationDocument, AccreditationsResponse, BeneficialOwnerReference, BusinessAccreditation,
    BusinessIdentityDetails, BusinessProfile, BusinessRiskMonitorMatch, ControlPersonReference,
    DependencyIdentityResponse, EntityId, EntityIdentification, IdentityDocument, IdentityResponse,
    IndividualAccreditation, IndividualIdentityDetails, IndividualProfile, IndividualRiskMonitorMatch,
    Location, ProfileResponse, UserSession, WebhookData,
};
pub use text::str_eq;
pub use values::{take_optional, take_required, CountryCode, Decimal, Decode, Timestamp, Union};
