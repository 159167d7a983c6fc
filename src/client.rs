use vstd::prelude::*;
use reqwest::header::HeaderMap;
use crate::error::{ClientError, Error, ErrorKind, Result};
use crate::header::{authorization_only, bearer, header_entries, header_safe, oauth_header};
use crate::json::JsonValue;
use crate::kinds::Scope;
use crate::values::Decode;

verus! {

pub const AUTHORIZE_PATH: &'static str = "oauth/authorize";

pub const TOKEN_PATH: &'static str = "oauth/token";

pub const REFRESH_PATH: &'static str = "oauth/refresh";

/// What the OAuth2 transport is configured with. Client credentials go in the
/// request body.
pub struct OAuth2Settings {
    pub client_id: String,
    pub client_secret: String,
    pub authorize_path: String,
    pub token_path: String,
    pub refresh_path: String,
    pub redirect_url: String,
    pub scopes: Vec<String>,
}

/// A client for the API, holding the scopes it was granted. The scopes are
/// fixed when it is made.
pub struct Client {
    api_url: String,
    client_id: String,
    client_secret: String,
    redirect_url: String,
    scopes: Vec<Scope>,
}

/// The endpoints of the API.
#[derive(Debug)]
pub enum Endpoint {
    Profile,
    Accreditations,
    Identity,
    /// The identity of a control person or beneficial owner, by the id that an
    /// earlier identity answer gave for it.
    DependencyIdentity(String),
}

impl Endpoint {
    /// The scope that the client must hold to call the endpoint. The server
    /// alone authorizes a dependency lookup.
    pub open spec fn required_scope(self) -> Option<Scope> {
        match self {
            Endpoint::Profile => Some(Scope::Profile),
            Endpoint::Accreditations => Some(Scope::AccreditationStatus),
            Endpoint::Identity => Some(Scope::Identity),
            Endpoint::DependencyIdentity(_) => None,
        }
    }

    /// The path of the endpoint, relative to the API's base URL.
    pub open spec fn path_of(self) -> Seq<char> {
        match self {
            Endpoint::Profile => "me"@,
            Endpoint::Accreditations => "accreditations"@,
            Endpoint::Identity => "identity"@,
            Endpoint::DependencyIdentity(id) => "identity/"@ + id@,
        }
    }

    pub fn required(&self) -> (r: Option<Scope>)
        ensures
            r == self.required_scope(),
    {
        match self {
            Endpoint::Profile => Some(Scope::Profile),
            Endpoint::Accreditations => Some(Scope::AccreditationStatus),
            Endpoint::Identity => Some(Scope::Identity),
            Endpoint::DependencyIdentity(_) => None,
        }
    }

    pub fn path(&self) -> (r: String)
        ensures
            r@ == self.path_of(),
    {
        match self {
            Endpoint::Profile => String::from_str("me"),
            Endpoint::Accreditations => String::from_str("accreditations"),
            Endpoint::Identity => String::from_str("identity"),
            Endpoint::DependencyIdentity(id) => {
                let mut p = String::from_str("identity/");
                p.append(id.as_str());
                p
            },
        }
    }
}

/// A GET request that may be sent: its path and its authorization headers,
/// which hold the `Authorization` header alone.
pub struct Request {
    pub path: String,
    /// The value of the `Authorization` header, also held in `headers`.
    pub authorization: String,
    pub headers: HeaderMap,
}

impl Client {
    pub closed spec fn granted(&self) -> Seq<Scope> {
        self.scopes@
    }

    pub closed spec fn api_url_of(&self) -> Seq<char> {
        self.api_url@
    }

    pub closed spec fn client_id_of(&self) -> Seq<char> {
        self.client_id@
    }

    pub closed spec fn client_secret_of(&self) -> Seq<char> {
        self.client_secret@
    }

    pub closed spec fn redirect_url_of(&self) -> Seq<char> {
        self.redirect_url@
    }

    /// Makes a client that holds exactly the scopes `scopes`.
    pub fn new(
        api_url: &str,
        client_id: &str,
        client_secret: &str,
        redirect_url: &str,
        scopes: &[Scope],
    ) -> (r: Client)
        ensures
            r.granted() == scopes@,
            r.api_url_of() == api_url@,
            r.client_id_of() == client_id@,
            r.client_secret_of() == client_secret@,
            r.redirect_url_of() == redirect_url@,
    {
        let mut kept: Vec<Scope> = Vec::new();
        let mut i: usize = 0;
        while i < scopes.len()
            invariant
                i <= scopes@.len(),
                kept@ == scopes@.take(i as int),
            decreases scopes@.len() - i,
        {
            kept.push(scopes[i]);
            i = i + 1;
            assert(kept@ =~= scopes@.take(i as int));
        }
        assert(scopes@.take(scopes@.len() as int) =~= scopes@);
        Client {
            api_url: api_url.to_owned(),
            client_id: client_id.to_owned(),
            client_secret: client_secret.to_owned(),
            redirect_url: redirect_url.to_owned(),
            scopes: kept,
        }
    }

    pub fn api_url(&self) -> (r: &str)
        ensures
            r@ == self.api_url_of(),
    {
        self.api_url.as_str()
    }

    pub fn scopes(&self) -> (r: &[Scope])
        ensures
            r@ == self.granted(),
    {
        self.scopes.as_slice()
    }

    /// The OAuth2 settings for the transport: the credentials, the fixed
    /// authorize, token and refresh paths, and the granted scopes by name.
    pub fn oauth2_settings(&self) -> (r: OAuth2Settings)
        ensures
            r.client_id@ == self.client_id_of(),
            r.client_secret@ == self.client_secret_of(),
            r.authorize_path@ == AUTHORIZE_PATH@,
            r.token_path@ == TOKEN_PATH@,
            r.refresh_path@ == REFRESH_PATH@,
            r.redirect_url@ == self.redirect_url_of(),
            r.scopes@.len() == self.granted().len(),
            forall|i: int| 0 <= i < r.scopes@.len() ==> #[trigger] r.scopes@[i]@ == self.granted()[i].wire(),
    {
        let mut names: Vec<String> = Vec::new();
        let mut i: usize = 0;
        while i < self.scopes.len()
            invariant
                i <= self.scopes@.len(),
                names@.len() == i,
                forall|j: int| 0 <= j < i ==> #[trigger] names@[j]@ == self.scopes@[j].wire(),
            decreases self.scopes@.len() - i,
        {
            names.push(String::from_str(self.scopes[i].as_str()));
            i = i + 1;
        }
        OAuth2Settings {
            client_id: self.client_id.clone(),
            client_secret: self.client_secret.clone(),
            authorize_path: String::from_str(AUTHORIZE_PATH),
            token_path: String::from_str(TOKEN_PATH),
            refresh_path: String::from_str(REFRESH_PATH),
            redirect_url: self.redirect_url.clone(),
            scopes: names,
        }
    }

    /// Succeeds exactly when the client holds `scope`.
    pub fn ensure_scope(&self, scope: Scope) -> (r: Result<()>)
        ensures
            r is Ok <==> self.granted().contains(scope),
            r is Err ==> r == Err::<(), Error>(Error::ApiError(ErrorKind::ScopeNotEnabled(scope))),
    {
        let mut i: usize = 0;
        while i < self.scopes.len()
            invariant
                i <= self.scopes@.len(),
                forall|j: int| 0 <= j < i ==> self.scopes@[j] != scope,
            decreases self.scopes@.len() - i,
        {
            if self.scopes[i] == scope {
                assert(self.scopes@[i as int] == scope);
                return Ok(());
            }
            i = i + 1;
        }
        Err(Error::ApiError(ErrorKind::ScopeNotEnabled(scope)))
    }

    /// Whether the client holds what `endpoint` needs.
    pub open spec fn allows(&self, endpoint: Endpoint) -> bool {
        match endpoint.required_scope() {
            Some(s) => self.granted().contains(s),
            None => true,
        }
    }

    /// Prepares the GET request for `endpoint` with the access token `token`.
    /// A missing scope is reported before anything else, and then no request
    /// exists to be sent.
    pub fn request(&self, endpoint: &Endpoint, token: &str) -> (r: Result<Request>)
        ensures
            !self.allows(*endpoint) ==> r == Err::<Request, Error>(
                Error::ApiError(ErrorKind::ScopeNotEnabled(endpoint.required_scope()->0)),
            ),
            self.allows(*endpoint) && !header_safe(token@) ==> (r matches Err(
                Error::ClientError(ClientError::InvalidToken),
            )),
            self.allows(*endpoint) && header_safe(token@) ==> (r matches Ok(q) && q.path@
                == endpoint.path_of() && q.authorization@ == bearer(token@) && header_entries(q.headers)
                == authorization_only(token@)),
    {
        match endpoint.required() {
            Some(s) => {
                match self.ensure_scope(s) {
                    Ok(()) => {},
                    Err(e) => return Err(e),
                }
            },
            None => {},
        }
        let headers = match oauth_header(token) {
            Some(h) => h,
            None => return Err(Error::ClientError(ClientError::InvalidToken)),
        };
        Ok(Request { path: endpoint.path(), authorization: crate::header::bearer_value(token), headers })
    }
}

/// Reads an answer of the API into its typed form; a body of any other
/// shape is a decode failure.
pub fn decode_response<T: Decode>(body: &JsonValue) -> (r: Result<T>)
    ensures
        r matches Ok(x) ==> T::decodes(*body, x),
        r is Err ==> (forall|x: T| !#[trigger] T::decodes(*body, x)) && r matches Err(
            Error::ClientError(ClientError::Decode),
        ),
{
    match T::decode(body) {
        Some(x) => Ok(x),
        None => Err(Error::ClientError(ClientError::Decode)),
    }
}

} // verus!
