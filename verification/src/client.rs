use vstd::prelude::*;

use crate::account::{DocumentSubType, UploadDocument};
use crate::amount::{dec_digits, usize_to_string};
use crate::common::{document_type_token, DocumentType};
use crate::environment::{
    spec_parse_environment, Environment, EnvironmentParseError,
};
use crate::error::{ApiError, Error, TransportError};
use crate::srn::{srn_text, SrnView, SystemResourceName};
use crate::text::{lower_chars, trimmed};
use crate::user::{user_field_id_token, user_scope_token, UserFieldId, UserScope};

verus! {

/// The HTTP method of a planned request.
#[derive(Debug, Copy, Clone, PartialEq, Eq, Structural)]
pub enum HttpMethod {
    /// An HTTP GET.
    Get,
    /// An HTTP POST.
    Post,
}

/// One fully planned API request: everything the HTTP shell needs except
/// the body, which travels beside the plan in its typed form. The bearer
/// token authenticating the call is the API secret, never the key.
#[derive(Debug, Clone)]
pub struct HttpRequest {
    /// The HTTP method.
    pub method: HttpMethod,
    /// The full request URL: environment base, versioned path, and path
    /// parameters.
    pub url: String,
    /// The query parameters, in order.
    pub query: Vec<(String, String)>,
    /// The bearer token to authenticate with.
    pub bearer_token: String,
    /// The content type of the raw body, for the document uploads.
    pub content_type: Option<String>,
}

/// The texts of a query-parameter list.
pub open spec fn pair_texts(q: Seq<(String, String)>) -> Seq<(Seq<char>, Seq<char>)> {
    Seq::new(q.len(), |i: int| (q[i].0@, q[i].1@))
}

/// The view of an optional reference argument.
pub open spec fn opt_srn_view(m: Option<SystemResourceName>) -> Option<SrnView> {
    match m {
        Some(srn) => Some(srn@),
        None => None,
    }
}

/// The masquerade query value: the acting sub-account's reference in
/// textual form, or the empty string when none is given. The empty
/// string is sent, not an omitted parameter.
pub open spec fn spec_masquerade_text(m: Option<SrnView>) -> Seq<char> {
    match m {
        Some(v) => srn_text(v),
        None => Seq::empty(),
    }
}

/// Writes the masquerade query value.
fn masquerade_text(m: &Option<SystemResourceName>) -> (r: String)
    ensures
        r@ == spec_masquerade_text(opt_srn_view(*m)),
{
    match m {
        Some(srn) => srn.to_string(),
        None => String::new(),
    }
}

/// The query of a sub-account-scoped request: the one masquerade pair.
pub open spec fn masquerade_query(m: Option<SrnView>) -> Seq<(Seq<char>, Seq<char>)> {
    seq![("masqueradeAs"@, spec_masquerade_text(m))]
}

/// Builds the one-pair masquerade query.
fn masquerade_query_vec(m: &Option<SystemResourceName>) -> (r: Vec<(String, String)>)
    ensures
        pair_texts(r@) == masquerade_query(opt_srn_view(*m)),
{
    let mut q: Vec<(String, String)> = Vec::new();
    q.push((String::from_str("masqueradeAs"), masquerade_text(m)));
    proof {
        assert(pair_texts(q@) =~= masquerade_query(opt_srn_view(*m)));
    }
    q
}

/// A client for the API: the environment to talk to and the credentials
/// to present. It holds only immutable state, so any number of requests
/// may be planned from it concurrently. Each operation has a builder
/// here that plans the request; the HTTP shell dispatches the plan and
/// hands what came back to `settle_response`. It holds credentials, so
/// it deliberately has no debug form.
#[derive(Clone)]
pub struct Client {
    environment: Environment,
    api_key: String,
    api_secret: String,
}

impl Client {
    /// Which API host the client talks to.
    pub closed spec fn env(&self) -> Environment {
        self.environment
    }

    /// The API key the client holds. It is retained but not presented
    /// by any planned operation.
    pub closed spec fn key_text(&self) -> Seq<char> {
        self.api_key@
    }

    /// The API secret the client holds; every planned operation presents
    /// it as the bearer token.
    pub closed spec fn secret_text(&self) -> Seq<char> {
        self.api_secret@
    }

    /// Creates a new client.
    pub fn new(api_key: String, api_secret: String, environment: Environment) -> (r: Client)
        ensures
            r.env() == environment,
            r.key_text() == api_key@,
            r.secret_text() == api_secret@,
    {
        Client { environment, api_key, api_secret }
    }

    /// Creates a client from configuration values, typically the three
    /// environment variables naming the key, the secret, and the
    /// environment. Each missing or malformed value fails with its own
    /// enumerated error, checked in that order.
    pub fn from_env_values(
        api_key: Option<String>,
        api_secret: Option<String>,
        environment: Option<String>,
    ) -> (r: Result<Client, ClientFromEnvironmentError>)
        ensures
            api_key is None ==> r == Err::<Client, ClientFromEnvironmentError>(
                ClientFromEnvironmentError::MissingApiKey,
            ),
            api_key is Some && api_secret is None ==> r == Err::<
                Client,
                ClientFromEnvironmentError,
            >(ClientFromEnvironmentError::MissingApiSecret),
            api_key is Some && api_secret is Some && environment is None ==> r == Err::<
                Client,
                ClientFromEnvironmentError,
            >(ClientFromEnvironmentError::MissingEnvironment),
            api_key is Some && api_secret is Some && environment is Some ==> match spec_parse_environment(
                environment->0@,
            ) {
                Some(env) => (r matches Ok(c) && c.env() == env && c.key_text()
                    == api_key->0@ && c.secret_text() == api_secret->0@),
                None => (r matches Err(ClientFromEnvironmentError::EnvironmentParseError(e))
                    && e.0@ == lower_chars(trimmed(environment->0@))),
            },
    {
        let key = match api_key {
            Some(k) => k,
            None => {
                return Err(ClientFromEnvironmentError::MissingApiKey);
            },
        };
        let secret = match api_secret {
            Some(s) => s,
            None => {
                return Err(ClientFromEnvironmentError::MissingApiSecret);
            },
        };
        let env_name = match environment {
            Some(e) => e,
            None => {
                return Err(ClientFromEnvironmentError::MissingEnvironment);
            },
        };
        match Environment::from_str(env_name.as_str()) {
            Ok(env) => Ok(Client::new(key, secret, env)),
            Err(e) => Err(ClientFromEnvironmentError::EnvironmentParseError(e)),
        }
    }

    /// Clones the secret for use as a bearer token.
    fn bearer(&self) -> (r: String)
        ensures
            r@ == self.secret_text(),
    {
        self.api_secret.clone()
    }

    /// Plans the request that fetches the master account.
    pub fn get_master_account_request(&self) -> (r: HttpRequest)
        ensures
            r.method == HttpMethod::Get,
            r.url@ == self.env().base_url() + "/v2/account"@,
            r.query@.len() == 0,
            r.bearer_token@ == self.secret_text(),
            r.content_type is None,
    {
        HttpRequest {
            method: HttpMethod::Get,
            url: String::from_str(self.environment.api_url()).concat("/v2/account"),
            query: Vec::new(),
            bearer_token: self.bearer(),
            content_type: None,
        }
    }

    /// Plans the request that creates an account; the typed body travels
    /// beside the plan.
    pub fn create_account_request(&self) -> (r: HttpRequest)
        ensures
            r.method == HttpMethod::Post,
            r.url@ == self.env().base_url() + "/v3/accounts"@,
            r.query@.len() == 0,
            r.bearer_token@ == self.secret_text(),
            r.content_type is None,
    {
        HttpRequest {
            method: HttpMethod::Post,
            url: String::from_str(self.environment.api_url()).concat("/v3/accounts"),
            query: Vec::new(),
            bearer_token: self.bearer(),
            content_type: None,
        }
    }

    /// Plans the request that fetches an account.
    pub fn get_account_request(
        &self,
        account_id: &str,
        masquerade: &Option<SystemResourceName>,
    ) -> (r: HttpRequest)
        ensures
            r.method == HttpMethod::Get,
            r.url@ == self.env().base_url() + "/v3/accounts/"@ + account_id@,
            pair_texts(r.query@) == masquerade_query(opt_srn_view(*masquerade)),
            r.bearer_token@ == self.secret_text(),
            r.content_type is None,
    {
        HttpRequest {
            method: HttpMethod::Get,
            url: String::from_str(self.environment.api_url()).concat("/v3/accounts/").concat(
                account_id,
            ),
            query: masquerade_query_vec(masquerade),
            bearer_token: self.bearer(),
            content_type: None,
        }
    }

    /// Plans the request that updates an account's KYC fields; the typed
    /// body travels beside the plan.
    pub fn update_account_request(
        &self,
        account_id: &str,
        masquerade: &Option<SystemResourceName>,
    ) -> (r: HttpRequest)
        ensures
            r.method == HttpMethod::Post,
            r.url@ == self.env().base_url() + "/v3/accounts/"@ + account_id@,
            pair_texts(r.query@) == masquerade_query(opt_srn_view(*masquerade)),
            r.bearer_token@ == self.secret_text(),
            r.content_type is None,
    {
        HttpRequest {
            method: HttpMethod::Post,
            url: String::from_str(self.environment.api_url()).concat("/v3/accounts/").concat(
                account_id,
            ),
            query: masquerade_query_vec(masquerade),
            bearer_token: self.bearer(),
            content_type: None,
        }
    }
}

/// The query of a document upload: the optional document kind and side,
/// each omitted when absent, and the masquerade pair, also omitted when
/// absent (unlike the other scoped operations, which send it empty).
pub open spec fn upload_document_query(
    dt: Option<DocumentType>,
    dst: Option<DocumentSubType>,
    m: Option<SrnView>,
) -> Seq<(Seq<char>, Seq<char>)> {
    (match dt {
        Some(d) => seq![("documentType"@, document_type_token(d))],
        None => Seq::empty(),
    }) + (match dst {
        Some(d) => seq![("documentSubType"@, crate::account::document_sub_type_token(d))],
        None => Seq::empty(),
    }) + (match m {
        Some(v) => seq![("masqueradeAs"@, srn_text(v))],
        None => Seq::empty(),
    })
}

/// A binary document upload against a user record.
#[derive(Debug, Clone)]
pub struct UserDocumentUpload<D> {
    /// The user field the uploaded document belongs to.
    pub field_id: UserFieldId,
    /// The kind of identity document.
    pub doc_type: DocumentType,
    /// The content type of the document, e.g. `image/jpeg`.
    pub content_type: String,
    /// The document body to upload.
    pub document: D,
}

/// The URL at which a user completes higher-limit KYC onboarding.
#[derive(Debug, Clone, PartialEq, Eq)]
pub struct OnboardingUrl {
    /// The onboarding URL itself.
    pub url: String,
}

impl Client {
    /// Plans the request that uploads an identity document against an
    /// account field. The document body itself travels beside the plan,
    /// raw, under the plan's content type.
    pub fn upload_document_request<D>(
        &self,
        account_id: &str,
        document: &UploadDocument<D>,
        masquerade: &Option<SystemResourceName>,
    ) -> (r: HttpRequest)
        ensures
            r.method == HttpMethod::Post,
            r.url@ == self.env().base_url() + "/v3/accounts/"@ + account_id@ + "/"@
                + crate::account::profile_field_id_token(document.field_id),
            pair_texts(r.query@) == upload_document_query(
                document.document_type,
                document.document_sub_type,
                opt_srn_view(*masquerade),
            ),
            r.bearer_token@ == self.secret_text(),
            r.content_type matches Some(c) && c@ == document.content_type@,
    {
        let mut q: Vec<(String, String)> = Vec::new();
        match &document.document_type {
            Some(d) => q.push((String::from_str("documentType"), d.token())),
            None => (),
        }
        match &document.document_sub_type {
            Some(d) => q.push((String::from_str("documentSubType"), d.token())),
            None => (),
        }
        match masquerade {
            Some(srn) => q.push((String::from_str("masqueradeAs"), srn.to_string())),
            None => (),
        }
        proof {
            assert(pair_texts(q@) =~= upload_document_query(
                document.document_type,
                document.document_sub_type,
                opt_srn_view(*masquerade),
            ));
        }
        HttpRequest {
            method: HttpMethod::Post,
            url: String::from_str(self.environment.api_url()).concat("/v3/accounts/").concat(
                account_id,
            ).concat("/").concat(document.field_id.token().as_str()),
            query: q,
            bearer_token: self.bearer(),
            content_type: Some(document.content_type.clone()),
        }
    }

    /// Plans the request that creates an ACH payment method; the typed
    /// body travels beside the plan.
    pub fn create_ach_payment_method_request(
        &self,
        masquerade: &Option<SystemResourceName>,
    ) -> (r: HttpRequest)
        ensures
            r.method == HttpMethod::Post,
            r.url@ == self.env().base_url() + "/v2/paymentMethods"@,
            pair_texts(r.query@) == masquerade_query(opt_srn_view(*masquerade)),
            r.bearer_token@ == self.secret_text(),
            r.content_type is None,
    {
        HttpRequest {
            method: HttpMethod::Post,
            url: String::from_str(self.environment.api_url()).concat("/v2/paymentMethods"),
            query: masquerade_query_vec(masquerade),
            bearer_token: self.bearer(),
            content_type: None,
        }
    }

    /// Plans the request that lists payment methods, one page at a time.
    pub fn get_payment_methods_request(
        &self,
        masquerade: &Option<SystemResourceName>,
        offset: usize,
        limit: usize,
    ) -> (r: HttpRequest)
        ensures
            r.method == HttpMethod::Get,
            r.url@ == self.env().base_url() + "/v2/paymentMethods"@,
            pair_texts(r.query@) == seq![
                ("offset"@, dec_digits(offset as nat)),
                ("limit"@, dec_digits(limit as nat)),
                ("masqueradeAs"@, spec_masquerade_text(opt_srn_view(*masquerade))),
            ],
            r.bearer_token@ == self.secret_text(),
            r.content_type is None,
    {
        let mut q: Vec<(String, String)> = Vec::new();
        q.push((String::from_str("offset"), usize_to_string(offset)));
        q.push((String::from_str("limit"), usize_to_string(limit)));
        q.push((String::from_str("masqueradeAs"), masquerade_text(masquerade)));
        proof {
            assert(pair_texts(q@) =~= seq![
                ("offset"@, dec_digits(offset as nat)),
                ("limit"@, dec_digits(limit as nat)),
                ("masqueradeAs"@, spec_masquerade_text(opt_srn_view(*masquerade))),
            ]);
        }
        HttpRequest {
            method: HttpMethod::Get,
            url: String::from_str(self.environment.api_url()).concat("/v2/paymentMethods"),
            query: q,
            bearer_token: self.bearer(),
            content_type: None,
        }
    }

    /// Plans the request that creates a transfer; the typed body travels
    /// beside the plan.
    pub fn create_transfer_request(&self, masquerade: &Option<SystemResourceName>) -> (r:
        HttpRequest)
        ensures
            r.method == HttpMethod::Post,
            r.url@ == self.env().base_url() + "/v3/transfers"@,
            pair_texts(r.query@) == masquerade_query(opt_srn_view(*masquerade)),
            r.bearer_token@ == self.secret_text(),
            r.content_type is None,
    {
        HttpRequest {
            method: HttpMethod::Post,
            url: String::from_str(self.environment.api_url()).concat("/v3/transfers"),
            query: masquerade_query_vec(masquerade),
            bearer_token: self.bearer(),
            content_type: None,
        }
    }

    /// Plans the request that fetches a transfer.
    pub fn get_transfer_request(
        &self,
        transfer_id: &str,
        masquerade: &Option<SystemResourceName>,
    ) -> (r: HttpRequest)
        ensures
            r.method == HttpMethod::Get,
            r.url@ == self.env().base_url() + "/v3/transfers/"@ + transfer_id@,
            pair_texts(r.query@) == masquerade_query(opt_srn_view(*masquerade)),
            r.bearer_token@ == self.secret_text(),
            r.content_type is None,
    {
        HttpRequest {
            method: HttpMethod::Get,
            url: String::from_str(self.environment.api_url()).concat("/v3/transfers/").concat(
                transfer_id,
            ),
            query: masquerade_query_vec(masquerade),
            bearer_token: self.bearer(),
            content_type: None,
        }
    }

    /// Plans the request that creates a user; the typed body travels
    /// beside the plan.
    pub fn create_user_request(&self) -> (r: HttpRequest)
        ensures
            r.method == HttpMethod::Post,
            r.url@ == self.env().base_url() + "/v3/users"@,
            r.query@.len() == 0,
            r.bearer_token@ == self.secret_text(),
            r.content_type is None,
    {
        HttpRequest {
            method: HttpMethod::Post,
            url: String::from_str(self.environment.api_url()).concat("/v3/users"),
            query: Vec::new(),
            bearer_token: self.bearer(),
            content_type: None,
        }
    }

    /// Plans the request that fetches a user under a scope. The
    /// masquerade should be the user's own reference.
    pub fn get_user_request(
        &self,
        user_id: &str,
        scope: &UserScope,
        masquerade: &Option<SystemResourceName>,
    ) -> (r: HttpRequest)
        ensures
            r.method == HttpMethod::Get,
            r.url@ == self.env().base_url() + "/v3/users/"@ + user_id@,
            pair_texts(r.query@) == seq![
                ("masqueradeAs"@, spec_masquerade_text(opt_srn_view(*masquerade))),
                ("scopes"@, user_scope_token(*scope)),
            ],
            r.bearer_token@ == self.secret_text(),
            r.content_type is None,
    {
        let mut q: Vec<(String, String)> = Vec::new();
        q.push((String::from_str("masqueradeAs"), masquerade_text(masquerade)));
        q.push((String::from_str("scopes"), scope.to_string()));
        proof {
            assert(pair_texts(q@) =~= seq![
                ("masqueradeAs"@, spec_masquerade_text(opt_srn_view(*masquerade))),
                ("scopes"@, user_scope_token(*scope)),
            ]);
        }
        HttpRequest {
            method: HttpMethod::Get,
            url: String::from_str(self.environment.api_url()).concat("/v3/users/").concat(user_id),
            query: q,
            bearer_token: self.bearer(),
            content_type: None,
        }
    }

    /// Plans the request that updates a user; the typed body travels
    /// beside the plan. The masquerade should be the user's own
    /// reference.
    pub fn update_user_request(
        &self,
        user_id: &str,
        masquerade: &Option<SystemResourceName>,
    ) -> (r: HttpRequest)
        ensures
            r.method == HttpMethod::Post,
            r.url@ == self.env().base_url() + "/v3/users/"@ + user_id@,
            pair_texts(r.query@) == masquerade_query(opt_srn_view(*masquerade)),
            r.bearer_token@ == self.secret_text(),
            r.content_type is None,
    {
        HttpRequest {
            method: HttpMethod::Post,
            url: String::from_str(self.environment.api_url()).concat("/v3/users/").concat(user_id),
            query: masquerade_query_vec(masquerade),
            bearer_token: self.bearer(),
            content_type: None,
        }
    }

    /// Plans the request that fetches the URL for a user's higher-limit
    /// KYC onboarding.
    pub fn get_kyc_onboarding_url_request(
        &self,
        user_id: &str,
        country_code: &Option<String>,
    ) -> (r: HttpRequest)
        ensures
            r.method == HttpMethod::Get,
            r.url@ == self.env().base_url() + "/v3/users/"@ + user_id@ + "/onboarding"@,
            pair_texts(r.query@) == seq![
                (
                    "countryCode"@,
                    match country_code {
                        Some(c) => c@,
                        None => Seq::<char>::empty(),
                    },
                ),
            ],
            r.bearer_token@ == self.secret_text(),
            r.content_type is None,
    {
        let cc = match country_code {
            Some(c) => c.clone(),
            None => String::new(),
        };
        let mut q: Vec<(String, String)> = Vec::new();
        q.push((String::from_str("countryCode"), cc));
        proof {
            assert(pair_texts(q@) =~= seq![
                (
                    "countryCode"@,
                    match country_code {
                        Some(c) => c@,
                        None => Seq::<char>::empty(),
                    },
                ),
            ]);
        }
        HttpRequest {
            method: HttpMethod::Get,
            url: String::from_str(self.environment.api_url()).concat("/v3/users/").concat(
                user_id,
            ).concat("/onboarding"),
            query: q,
            bearer_token: self.bearer(),
            content_type: None,
        }
    }

    /// Plans the request that uploads an identity document against a
    /// user field. The document body itself travels beside the plan,
    /// raw, under the plan's content type.
    pub fn update_user_document_request<D>(
        &self,
        user_id: &str,
        req: &UserDocumentUpload<D>,
    ) -> (r: HttpRequest)
        ensures
            r.method == HttpMethod::Post,
            r.url@ == self.env().base_url() + "/v3/users/"@ + user_id@ + "/"@
                + user_field_id_token(req.field_id),
            pair_texts(r.query@) == seq![("docType"@, document_type_token(req.doc_type))],
            r.bearer_token@ == self.secret_text(),
            r.content_type matches Some(c) && c@ == req.content_type@,
    {
        let mut q: Vec<(String, String)> = Vec::new();
        q.push((String::from_str("docType"), req.doc_type.token()));
        proof {
            assert(pair_texts(q@) =~= seq![("docType"@, document_type_token(req.doc_type))]);
        }
        HttpRequest {
            method: HttpMethod::Post,
            url: String::from_str(self.environment.api_url()).concat("/v3/users/").concat(
                user_id,
            ).concat("/").concat(req.field_id.token().as_str()),
            query: q,
            bearer_token: self.bearer(),
            content_type: Some(req.content_type.clone()),
        }
    }
}

/// The error received when constructing a client from configuration
/// values.
#[derive(Debug, Clone, PartialEq, Eq)]
pub enum ClientFromEnvironmentError {
    /// The API-key variable is missing.
    MissingApiKey,
    /// The API-secret variable is missing.
    MissingApiSecret,
    /// The environment variable is missing.
    MissingEnvironment,
    /// The environment variable did not match an expected value.
    EnvironmentParseError(EnvironmentParseError),
}

/// Settles what an API operation returns once the HTTP shell has the
/// status code and has tried to decode the body both ways: a 200 with a
/// well-formed success body succeeds; any other status with a
/// well-formed error body is the server's own failure, carried through
/// unchanged (kind and transience included); a body that fits neither
/// schema is a protocol-level transport failure, never a default value.
pub fn settle_response<T>(
    status: u16,
    success_body: Option<T>,
    error_body: Option<ApiError>,
) -> (r: Result<T, Error>)
    ensures
        status == 200 && success_body is Some ==> (r matches Ok(v) && v == success_body->0),
        status == 200 && success_body is None ==> (r matches Err(Error::Transport(
            TransportError::Protocol { .. },
        ))),
        status != 200 && error_body is Some ==> (r matches Err(Error::Api(e)) && e
            == error_body->0),
        status != 200 && error_body is None ==> (r matches Err(Error::Transport(
            TransportError::Protocol { .. },
        ))),
{
    if status == 200 {
        match success_body {
            Some(v) => Ok(v),
            None => Err(
                Error::Transport(
                    TransportError::Protocol {
                        message: String::from_str(
                            "the response body did not match the success schema",
                        ),
                    },
                ),
            ),
        }
    } else {
        match error_body {
            Some(e) => Err(Error::Api(e)),
            None => Err(
                Error::Transport(
                    TransportError::Protocol {
                        message: String::from_str(
                            "the response body did not match the error schema",
                        ),
                    },
                ),
            ),
        }
    }
}

} // verus!
