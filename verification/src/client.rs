//! The client: where the service is, and how requests are authorised.

use crate::endpoint::{url_join, url_parse, url_text};
use crate::entities::comma_joined;
use crate::error::{AuthFailure, ClientError, DecodeError, PaddleError};
use crate::json::{json_model, json_parse, Json};
use crate::query::{form_urlencoded, push_pair, with_pair, QueryPair, EMBED};
use crate::request::{
    header_value_accepted, header_value_ok, path_with_query, with_query, Header, Method,
    Request, RequestView,
};
use crate::text::{followed_by, join};
use vstd::prelude::*;
use vstd::string::*;

verus! {

/// Where the service is and how to authenticate, as a deployment or a test
/// run supplies it from outside. The identifier of a product of the account
/// can be carried along for operations that need one.
#[derive(Clone, Debug, PartialEq, Eq)]
pub struct Config {
    pub url: String,
    pub auth: String,
    product_id: Option<String>,
}

/// What a [`Config`] holds.
pub ghost struct ConfigView {
    pub url: Seq<char>,
    pub auth: Seq<char>,
    pub product_id: Option<Seq<char>>,
}

impl View for Config {
    type V = ConfigView;

    closed spec fn view(&self) -> ConfigView {
        ConfigView { url: self.url@, auth: self.auth@, product_id: self.product_id.deep_view() }
    }
}

impl Config {
    /// A configuration without a product.
    pub fn new(url: &str, auth: &str) -> (r: Config)
        ensures
            r@ == (ConfigView { url: url@, auth: auth@, product_id: None }),
    {
        Config { url: url.to_owned(), auth: auth.to_owned(), product_id: None }
    }

    /// Carries the identifier of a product along.
    pub fn set_product_id(self, product_id: String) -> (r: Config)
        ensures
            r@ == (ConfigView { product_id: Some(product_id@), ..self@ }),
    {
        let mut config = self;
        config.product_id = Some(product_id);
        config
    }

    /// The identifier of the product that is carried along.
    pub fn product_id(&self) -> (r: Option<&str>)
        ensures
            r.deep_view() == self@.product_id,
    {
        crate::entities::opt_str(&self.product_id)
    }
}

/// Paddle API client.
///
/// The client holds the configuration only. Its operations build the
/// requests to send and read the responses that came back; sending is left
/// to the caller.
#[derive(Debug)]
pub struct Client {
    auth: String,
    url: url::Url,
    paddle_version: Option<String>,
}

/// What a [`Client`] holds.
pub ghost struct ClientView {
    /// The bearer token.
    pub auth: Seq<char>,
    /// The text of the base address.
    pub url: Seq<char>,
    /// The API version to ask for, if one was set.
    pub paddle_version: Option<Seq<char>>,
}

/// Why no request can be built.
pub ghost enum Refusal {
    /// The reference does not resolve against the base address.
    Url,
    /// The value of the header with this name cannot be sent.
    Header(Seq<char>),
}

impl ClientView {
    /// The value of the `Authorization` header.
    pub open spec fn authorization(self) -> Seq<char> {
        "Bearer "@ + self.auth
    }

    /// The headers of every request: content type, authorisation, and the
    /// API version where one was set.
    pub open spec fn headers(self) -> Seq<(Seq<char>, Seq<char>)> {
        let standard = seq![
            ("Content-Type"@, "application/json"@),
            ("Authorization"@, self.authorization()),
        ];
        match self.paddle_version {
            Some(version) => standard.push(("Paddle-Version"@, version)),
            None => standard,
        }
    }

    /// The first header whose value cannot be sent, if there is one.
    pub open spec fn refused_header(self) -> Option<Seq<char>> {
        if !header_value_ok(self.authorization()) {
            Some("Authorization"@)
        } else {
            match self.paddle_version {
                Some(version) => if header_value_ok(version) {
                    None
                } else {
                    Some("Paddle-Version"@)
                },
                None => None,
            }
        }
    }

    /// The request for a reference, or why there is none. The address is
    /// resolved first, then the headers are built.
    pub open spec fn plan(self, method: Method, reference: Seq<char>, body: Option<Seq<char>>)
        -> Result<RequestView, Refusal> {
        match url_join(self.url, reference) {
            None => Err(Refusal::Url),
            Some(address) => match self.refused_header() {
                Some(name) => Err(Refusal::Header(name)),
                None => Ok(RequestView { method, url: address, headers: self.headers(), body }),
            },
        }
    }
}

/// Whether the outcome of building a request is the planned one.
pub open spec fn agrees(plan: Result<RequestView, Refusal>, r: Result<Request, ClientError>)
    -> bool {
    match plan {
        Ok(request) => r matches Ok(built) && built@ == request,
        Err(Refusal::Url) => r matches Err(ClientError::Url(_)),
        Err(Refusal::Header(name)) => r matches Err(e) && e.is_header(name),
    }
}

/// The path of one entity of a collection.
pub open spec fn item_path(collection: Seq<char>, id: Seq<char>) -> Seq<char> {
    collection + "/"@ + id
}

/// The query string that asks for related entities to be embedded: one
/// parameter with the names joined by commas, or nothing where no names are
/// given.
pub open spec fn embed_query(related: Option<Seq<Seq<char>>>) -> Seq<char> {
    form_urlencoded(with_pair(Seq::empty(), EMBED@, comma_joined(related)))
}

/// What the answer to the authentication probe must look like: a `data`
/// array with at least one item, and a `meta` member.
pub open spec fn probe_outcome(doc: Json) -> Result<(), AuthFailure> {
    match doc.member("data"@) {
        None => Err(AuthFailure::DataMissing),
        Some(Json::Array(items)) => if items.len() == 0 {
            Err(AuthFailure::DataEmpty)
        } else if doc.member("meta"@) is None {
            Err(AuthFailure::MetaMissing)
        } else {
            Ok(())
        },
        Some(_) => Err(AuthFailure::DataNotCollection),
    }
}

/// What a body that was read as the answer to the authentication probe
/// stands for, given the outcome of parsing it.
pub open spec fn probe_result_matches(parsed: Option<Json>, r: Result<(), ClientError>) -> bool {
    match parsed {
        None => r matches Err(e) && e.is_syntax(),
        Some(doc) => match probe_outcome(doc) {
            Ok(()) => r is Ok,
            Err(failure) => r matches Err(ClientError::AuthenticationFailed(f)) && f == failure,
        },
    }
}

impl View for Client {
    type V = ClientView;

    closed spec fn view(&self) -> ClientView {
        ClientView {
            auth: self.auth@,
            url: url_text(self.url),
            paddle_version: self.paddle_version.deep_view(),
        }
    }
}

impl Client {
    /// Creates a client.
    ///
    /// `url` is the base address of the API; references are resolved against
    /// it, so it should end with a slash if it has a path. `auth` is the
    /// bearer token. No API version is asked for until one is set.
    pub fn new(url: &str, auth: &str) -> (r: Result<Client, ClientError>)
        ensures
            match r {
                Ok(client) => url_parse(url@) == Some(client@.url) && client@.auth == auth@
                    && client@.paddle_version is None,
                Err(e) => url_parse(url@) is None && e is Url,
            },
    {
        match crate::endpoint::parse(url) {
            Ok(base) => Ok(Client { auth: auth.to_owned(), url: base, paddle_version: None }),
            Err(e) => Err(ClientError::Url(e)),
        }
    }

    /// Creates a client from a configuration.
    pub fn from_config(config: &Config) -> (r: Result<Client, ClientError>)
        ensures
            match r {
                Ok(client) => url_parse(config@.url) == Some(client@.url) && client@.auth
                    == config@.auth && client@.paddle_version is None,
                Err(e) => url_parse(config@.url) is None && e is Url,
            },
    {
        Client::new(config.url.as_str(), config.auth.as_str())
    }

    /// Sets the Paddle API version to ask for.
    pub fn set_paddle_version(&mut self, version: &str)
        ensures
            final(self)@ == (ClientView { paddle_version: Some(version@), ..old(self)@ }),
    {
        self.paddle_version = Some(version.to_owned());
    }

    /// The bearer token.
    pub fn auth(&self) -> (r: &str)
        ensures
            r@ == self@.auth,
    {
        self.auth.as_str()
    }

    /// The base address.
    pub fn url(&self) -> (r: &str)
        ensures
            r@ == self@.url,
    {
        crate::endpoint::as_str(&self.url)
    }

    /// The API version that is asked for.
    pub fn paddle_version(&self) -> (r: Option<&str>)
        ensures
            r.deep_view() == self@.paddle_version,
    {
        crate::entities::opt_str(&self.paddle_version)
    }

    /// The headers of every request. A token or a version that holds a
    /// character which no header value may hold is refused.
    pub fn default_headers(&self) -> (r: Result<Vec<Header>, ClientError>)
        ensures
            match r {
                Ok(headers) => self@.refused_header() is None && headers.deep_view()
                    == self@.headers(),
                Err(e) => self@.refused_header() matches Some(name) && e.is_header(name),
            },
    {
        let mut headers: Vec<Header> = Vec::new();
        headers.push(("Content-Type".to_owned(), "application/json".to_owned()));
        let authorization = followed_by("Bearer ", self.auth.as_str());
        if !header_value_accepted(authorization.as_str()) {
            return Err(ClientError::Header("Authorization".to_owned()));
        }
        headers.push(("Authorization".to_owned(), authorization));
        match &self.paddle_version {
            Some(version) => {
                if !header_value_accepted(version.as_str()) {
                    return Err(ClientError::Header("Paddle-Version".to_owned()));
                }
                headers.push(("Paddle-Version".to_owned(), version.clone()));
            },
            None => {},
        }
        assert(headers.deep_view() =~= self@.headers());
        Ok(headers)
    }

    /// Builds the request for a reference: resolves the address, then
    /// attaches the standard headers and the body.
    pub fn request(&self, method: Method, reference: &str, body: Option<String>) -> (r: Result<
        Request,
        ClientError,
    >)
        ensures
            agrees(self@.plan(method, reference@, body.deep_view()), r),
    {
        let address = match crate::endpoint::join(&self.url, reference) {
            Ok(address) => address,
            Err(e) => {
                return Err(ClientError::Url(e));
            },
        };
        let headers = self.default_headers()?;
        Ok(Request { method, url: crate::endpoint::as_str(&address).to_owned(), headers, body })
    }

    /// The request for one entity of a collection: `GET` on the path of the
    /// entity, with the related entities to embed as the query string.
    pub fn get(&self, collection: &str, id: &str, related: Option<Vec<String>>) -> (r: Result<
        Request,
        ClientError,
    >)
        ensures
            agrees(
                self@.plan(
                    Method::Get,
                    with_query(item_path(collection@, id@), embed_query(related.deep_view())),
                    None,
                ),
                r,
            ),
    {
        let mut path = followed_by(collection, "/");
        path.append(id);
        let mut pairs: Vec<QueryPair> = Vec::new();
        assert(pairs.deep_view() =~= Seq::<(Seq<char>, Seq<char>)>::empty());
        push_pair(
            &mut pairs,
            EMBED,
            match &related {
                Some(names) => Some(join(names, ",")),
                None => None,
            },
        );
        let query = crate::query::serialize(&pairs);
        let reference = path_with_query(path.as_str(), query.as_str());
        self.request(Method::Get, reference.as_str(), None)
    }

    /// The request for a page of a collection: `GET` on the collection, with
    /// the given query string.
    pub fn list(&self, collection: &str, query: &str) -> (r: Result<Request, ClientError>)
        ensures
            agrees(self@.plan(Method::Get, with_query(collection@, query@), None), r),
    {
        let reference = path_with_query(collection, query);
        self.request(Method::Get, reference.as_str(), None)
    }

    /// The request that creates an entity: `POST` on the collection, with
    /// the entity as the body.
    pub fn create(&self, collection: &str, body: String) -> (r: Result<Request, ClientError>)
        ensures
            agrees(self@.plan(Method::Post, collection@, Some(body@)), r),
    {
        self.request(Method::Post, collection, Some(body))
    }

    /// The request that changes an entity: `PATCH` on the path of the
    /// entity, with the attributes to change as the body.
    pub fn update(&self, collection: &str, id: &str, body: String) -> (r: Result<
        Request,
        ClientError,
    >)
        ensures
            agrees(self@.plan(Method::Patch, item_path(collection@, id@), Some(body@)), r),
    {
        let mut path = followed_by(collection, "/");
        path.append(id);
        self.request(Method::Patch, path.as_str(), Some(body))
    }

    /// The request that tests the token: it asks for the list of event
    /// types, which exists on every account.
    pub fn test_authentication(&self) -> (r: Result<Request, ClientError>)
        ensures
            agrees(self@.plan(Method::Get, "event-types"@, None), r),
    {
        self.request(Method::Get, "event-types", None)
    }

    /// Checks that a document looks like the answer to an accepted token: it
    /// has a `data` array that is not empty, and a `meta` member.
    pub fn check_data_meta(doc: &serde_json::Value) -> (r: Result<(), AuthFailure>)
        ensures
            r == probe_outcome(json_model(*doc)),
    {
        match crate::json::get(doc, "data") {
            Some(data) => match crate::json::as_array(data) {
                Some(items) => {
                    if items.len() == 0 {
                        return Err(AuthFailure::DataEmpty);
                    }
                },
                None => {
                    return Err(AuthFailure::DataNotCollection);
                },
            },
            None => {
                return Err(AuthFailure::DataMissing);
            },
        }
        if crate::json::get(doc, "meta").is_none() {
            return Err(AuthFailure::MetaMissing);
        }
        Ok(())
    }

    /// Reads the body of a successful answer to the authentication probe.
    /// Success of the request alone proves nothing: the service also
    /// answers with success and no data.
    pub fn include_data_meta(body: String) -> (r: Result<(), ClientError>)
        ensures
            probe_result_matches(json_parse(body@), r),
    {
        match crate::json::parse(body.as_str()) {
            Ok(doc) => match Client::check_data_meta(&doc) {
                Ok(()) => Ok(()),
                Err(failure) => Err(ClientError::AuthenticationFailed(failure)),
            },
            Err(e) => Err(ClientError::Decode(DecodeError::Syntax(e))),
        }
    }

    /// Reads the answer to the authentication probe: an error status gives
    /// the error of the service, and a body of the wrong shape gives an
    /// authentication failure.
    pub fn authentication_outcome(status: u16, body: String) -> (r: Result<(), ClientError>)
        ensures
            if PaddleError::is_error_status(status) {
                r matches Err(e) && PaddleError::failure_matches(json_parse(body@), e)
            } else {
                probe_result_matches(json_parse(body@), r)
            },
    {
        let body = PaddleError::handle_response(status, body)?;
        Client::include_data_meta(body)
    }
}

} // verus!
