//! Everything that can go wrong between building a request and reading its
//! response. Each kind of failure has its own variant; none is folded into
//! another.

use crate::decode::{
    decode_each, lemma_decode_each_failure, lemma_decode_each_step, optional_array,
    read_optional_array, read_required_object, read_required_text, required_object,
    required_text, shape,
};
use crate::entities::{Meta, MetaView};
use crate::json::{json_model, json_models, json_parse, Json};
use vstd::prelude::*;

verus! {

/// Why a response body could not be read.
#[derive(Debug)]
pub enum DecodeError {
    /// The body is not a JSON document.
    Syntax(serde_json::Error),
    /// The body is a JSON document, but the member with this name is
    /// missing where one is required, or holds something else than
    /// expected.
    Shape(String),
}

impl DecodeError {
    /// Whether this is the shape error that names `member`.
    pub open spec fn is_shape(self, member: Seq<char>) -> bool {
        self matches DecodeError::Shape(name) && name@ == member
    }
}

/// Why a successful answer to the authentication probe does not prove that
/// the token is accepted.
#[derive(Clone, Copy, Debug, PartialEq, Eq, Structural)]
pub enum AuthFailure {
    /// The body has no `data` member.
    DataMissing,
    /// The `data` member is not an array.
    DataNotCollection,
    /// The `data` array has no items.
    DataEmpty,
    /// The body has no `meta` member.
    MetaMissing,
}

impl AuthFailure {
    /// The reason in words.
    pub open spec fn reason(self) -> Seq<char> {
        match self {
            AuthFailure::DataMissing => "Data is missing"@,
            AuthFailure::DataNotCollection => "Data is not a collection"@,
            AuthFailure::DataEmpty => "Data is empty"@,
            AuthFailure::MetaMissing => "Meta is missing"@,
        }
    }

    /// The reason in words.
    pub fn as_str(&self) -> (r: &'static str)
        ensures
            r@ == self.reason(),
    {
        match self {
            AuthFailure::DataMissing => "Data is missing",
            AuthFailure::DataNotCollection => "Data is not a collection",
            AuthFailure::DataEmpty => "Data is empty",
            AuthFailure::MetaMissing => "Meta is missing",
        }
    }
}

/// One complaint of the service about one field of a request.
#[derive(Clone, Debug, PartialEq, Eq)]
pub struct ValidationError {
    pub field: String,
    pub message: String,
}

/// What a [`ValidationError`] holds.
pub ghost struct ValidationErrorView {
    pub field: Seq<char>,
    pub message: Seq<char>,
}

impl View for ValidationError {
    type V = ValidationErrorView;

    open spec fn view(&self) -> ValidationErrorView {
        ValidationErrorView { field: self.field@, message: self.message@ }
    }
}

impl DeepView for ValidationError {
    type V = ValidationErrorView;

    open spec fn deep_view(&self) -> ValidationErrorView {
        self@
    }
}

/// What the service says about a request that it refused.
#[derive(Clone, Debug, PartialEq, Eq)]
pub struct ErrorDetail {
    /// Kind of error, such as `request_error`.
    pub e_type: String,
    /// Short code that identifies the error.
    pub code: String,
    /// The error in words.
    pub detail: String,
    /// Where the error is documented.
    pub documentation_url: String,
    /// Complaints about single fields, for validation errors.
    pub errors: Option<Vec<ValidationError>>,
}

/// What an [`ErrorDetail`] holds.
pub ghost struct ErrorDetailView {
    pub e_type: Seq<char>,
    pub code: Seq<char>,
    pub detail: Seq<char>,
    pub documentation_url: Seq<char>,
    pub errors: Option<Seq<ValidationErrorView>>,
}

impl View for ErrorDetail {
    type V = ErrorDetailView;

    open spec fn view(&self) -> ErrorDetailView {
        ErrorDetailView {
            e_type: self.e_type@,
            code: self.code@,
            detail: self.detail@,
            documentation_url: self.documentation_url@,
            errors: self.errors.deep_view(),
        }
    }
}

/// The body of a response with a 4xx or 5xx status.
#[derive(Debug)]
pub struct PaddleError {
    pub error: ErrorDetail,
    pub meta: Meta,
}

/// What a [`PaddleError`] holds.
pub ghost struct PaddleErrorView {
    pub error: ErrorDetailView,
    pub meta: MetaView,
}

impl View for PaddleError {
    type V = PaddleErrorView;

    open spec fn view(&self) -> PaddleErrorView {
        PaddleErrorView { error: self.error@, meta: self.meta@ }
    }
}

/// A failed operation.
#[derive(Debug)]
pub enum ClientError {
    /// The request could not be delivered or no response came back. The
    /// text says what the transport reported.
    Transport(String),
    /// The address of the request could not be built.
    Url(url::ParseError),
    /// The value of the header with this name holds characters that no
    /// header value may hold.
    Header(String),
    /// The response body could not be read.
    Decode(DecodeError),
    /// The service answered with an error of its own.
    Api(PaddleError),
    /// The service answered the authentication probe with success, but the
    /// answer does not look like one to an accepted token.
    AuthenticationFailed(AuthFailure),
}

impl ClientError {
    /// Whether this is the decode error for a body that is a JSON document
    /// of the wrong shape at `member`.
    pub open spec fn is_shape(self, member: Seq<char>) -> bool {
        self matches ClientError::Decode(e) && e.is_shape(member)
    }

    /// Whether this is the decode error for a body that is no JSON document.
    pub open spec fn is_syntax(self) -> bool {
        self matches ClientError::Decode(DecodeError::Syntax(_))
    }

    /// Whether this is the header error that names `header`.
    pub open spec fn is_header(self, header: Seq<char>) -> bool {
        self matches ClientError::Header(name) && name@ == header
    }
}

impl ValidationErrorView {
    /// What a validation error object holds. Both members are required.
    pub open spec fn decode(doc: Json) -> Result<ValidationErrorView, Seq<char>> {
        let field = required_text(doc, "field"@);
        let message = required_text(doc, "message"@);
        if field is Err {
            Err(field->Err_0)
        } else if message is Err {
            Err(message->Err_0)
        } else {
            Ok(ValidationErrorView { field: field->Ok_0, message: message->Ok_0 })
        }
    }

    /// What an array of validation error objects holds.
    pub open spec fn decode_list(items: Seq<Json>) -> Result<
        Seq<ValidationErrorView>,
        Seq<char>,
    > {
        decode_each(items, |item: Json| ValidationErrorView::decode(item))
    }
}

impl ValidationError {
    /// Reads a validation error object.
    pub fn from_json(doc: &serde_json::Value) -> (r: Result<ValidationError, DecodeError>)
        ensures
            match r {
                Ok(error) => ValidationErrorView::decode(json_model(*doc)) == Ok::<
                    ValidationErrorView,
                    Seq<char>,
                >(error@),
                Err(e) => ValidationErrorView::decode(json_model(*doc)) matches Err(name)
                    && e.is_shape(name),
            },
    {
        let field = read_required_text(doc, "field")?;
        let message = read_required_text(doc, "message")?;
        Ok(ValidationError { field, message })
    }

    /// Reads an array of validation error objects.
    pub fn list_from_json(items: &Vec<serde_json::Value>) -> (r: Result<
        Vec<ValidationError>,
        DecodeError,
    >)
        ensures
            match r {
                Ok(errors) => ValidationErrorView::decode_list(json_models(items@)) == Ok::<
                    Seq<ValidationErrorView>,
                    Seq<char>,
                >(errors.deep_view()),
                Err(e) => ValidationErrorView::decode_list(json_models(items@)) matches Err(name)
                    && e.is_shape(name),
            },
    {
        let ghost docs = json_models(items@);
        let ghost decode = |item: Json| ValidationErrorView::decode(item);
        let mut errors: Vec<ValidationError> = Vec::new();
        let mut i: usize = 0;
        assert(docs.take(0) =~= Seq::<Json>::empty());
        assert(errors.deep_view() =~= Seq::<ValidationErrorView>::empty());
        while i < items.len()
            invariant
                i <= items.len(),
                docs == json_models(items@),
                decode == (|item: Json| ValidationErrorView::decode(item)),
                decode_each(docs.take(i as int), decode) == Ok::<
                    Seq<ValidationErrorView>,
                    Seq<char>,
                >(errors.deep_view()),
            decreases items.len() - i,
        {
            proof {
                lemma_decode_each_step(docs, decode, i as int);
            }
            match ValidationError::from_json(&items[i]) {
                Ok(error) => {
                    let ghost before = errors.deep_view();
                    errors.push(error);
                    assert(errors.deep_view() =~= before.push(error@));
                },
                Err(e) => {
                    proof {
                        lemma_decode_each_failure(docs, decode, i + 1);
                    }
                    return Err(e);
                },
            }
            i += 1;
        }
        assert(docs.take(i as int) =~= docs);
        Ok(errors)
    }
}

impl ErrorDetailView {
    /// What an error object holds. The list of validation errors may be
    /// absent; the other four members are required.
    pub open spec fn decode(doc: Json) -> Result<ErrorDetailView, Seq<char>> {
        let e_type = required_text(doc, "type"@);
        let code = required_text(doc, "code"@);
        let detail = required_text(doc, "detail"@);
        let documentation_url = required_text(doc, "documentation_url"@);
        let errors = optional_array(doc, "errors"@);
        if e_type is Err {
            Err(e_type->Err_0)
        } else if code is Err {
            Err(code->Err_0)
        } else if detail is Err {
            Err(detail->Err_0)
        } else if documentation_url is Err {
            Err(documentation_url->Err_0)
        } else if errors is Err {
            Err(errors->Err_0)
        } else {
            let known = ErrorDetailView {
                e_type: e_type->Ok_0,
                code: code->Ok_0,
                detail: detail->Ok_0,
                documentation_url: documentation_url->Ok_0,
                errors: None,
            };
            match errors->Ok_0 {
                None => Ok(known),
                Some(items) => match ValidationErrorView::decode_list(items) {
                    Ok(list) => Ok(ErrorDetailView { errors: Some(list), ..known }),
                    Err(name) => Err(name),
                },
            }
        }
    }
}

impl ErrorDetail {
    /// Reads an error object.
    pub fn from_json(doc: &serde_json::Value) -> (r: Result<ErrorDetail, DecodeError>)
        ensures
            match r {
                Ok(error) => ErrorDetailView::decode(json_model(*doc)) == Ok::<
                    ErrorDetailView,
                    Seq<char>,
                >(error@),
                Err(e) => ErrorDetailView::decode(json_model(*doc)) matches Err(name) && e.is_shape(
                    name,
                ),
            },
    {
        let e_type = read_required_text(doc, "type")?;
        let code = read_required_text(doc, "code")?;
        let detail = read_required_text(doc, "detail")?;
        let documentation_url = read_required_text(doc, "documentation_url")?;
        let errors = match read_optional_array(doc, "errors")? {
            Some(items) => Some(ValidationError::list_from_json(items)?),
            None => None,
        };
        Ok(ErrorDetail { e_type, code, detail, documentation_url, errors })
    }
}

impl PaddleErrorView {
    /// What an error envelope holds: an `error` object and a `meta` object.
    pub open spec fn decode(doc: Json) -> Result<PaddleErrorView, Seq<char>> {
        let error = required_object(doc, "error"@);
        let meta = required_object(doc, "meta"@);
        if error is Err {
            Err(error->Err_0)
        } else if meta is Err {
            Err(meta->Err_0)
        } else {
            match ErrorDetailView::decode(error->Ok_0) {
                Err(name) => Err(name),
                Ok(detail) => match MetaView::decode(meta->Ok_0) {
                    Err(name) => Err(name),
                    Ok(about) => Ok(PaddleErrorView { error: detail, meta: about }),
                },
            }
        }
    }

    /// The code of a decoded error is the text of the `code` member of the
    /// `error` object of the body, and the other texts are taken from their
    /// members in the same way.
    pub proof fn lemma_error_taken_from_body(doc: Json)
        requires
            PaddleErrorView::decode(doc) is Ok,
        ensures
            doc.member("error"@) matches Some(error) && {
                let decoded = PaddleErrorView::decode(doc)->Ok_0.error;
                &&& error.member("code"@) == Some(Json::String(decoded.code))
                &&& error.member("type"@) == Some(Json::String(decoded.e_type))
                &&& error.member("detail"@) == Some(Json::String(decoded.detail))
                &&& error.member("documentation_url"@) == Some(
                    Json::String(decoded.documentation_url),
                )
            },
            doc.member("meta"@) matches Some(meta) && meta.member("request_id"@) == Some(
                Json::String(PaddleErrorView::decode(doc)->Ok_0.meta.request_id),
            ),
    {
    }
}

impl PaddleError {
    /// Reads an error envelope.
    pub fn from_json(doc: &serde_json::Value) -> (r: Result<PaddleError, DecodeError>)
        ensures
            match r {
                Ok(envelope) => PaddleErrorView::decode(json_model(*doc)) == Ok::<
                    PaddleErrorView,
                    Seq<char>,
                >(envelope@),
                Err(e) => PaddleErrorView::decode(json_model(*doc)) matches Err(name) && e.is_shape(
                    name,
                ),
            },
    {
        let error = read_required_object(doc, "error")?;
        let meta = read_required_object(doc, "meta")?;
        let error = ErrorDetail::from_json(error)?;
        let meta = Meta::from_json(meta)?;
        Ok(PaddleError { error, meta })
    }

    /// Whether a status code reports a client error (4xx) or a server error
    /// (5xx).
    pub open spec fn is_error_status(status: u16) -> bool {
        400 <= status <= 599
    }

    /// What a response with an error status stands for, given the outcome
    /// of parsing its body: the decoded API error, or the reason why the
    /// body could not be decoded.
    pub open spec fn failure_matches(parsed: Option<Json>, e: ClientError) -> bool {
        match parsed {
            None => e.is_syntax(),
            Some(doc) => match PaddleErrorView::decode(doc) {
                Ok(envelope) => e matches ClientError::Api(api) && api@ == envelope,
                Err(name) => e.is_shape(name),
            },
        }
    }

    /// Turns a parsed error body into the error that the caller sees.
    pub fn api_error(body: Result<serde_json::Value, serde_json::Error>) -> (e: ClientError)
        ensures
            PaddleError::failure_matches(
                match body {
                    Ok(doc) => Some(json_model(doc)),
                    Err(_) => None,
                },
                e,
            ),
    {
        match body {
            Ok(doc) => match PaddleError::from_json(&doc) {
                Ok(envelope) => ClientError::Api(envelope),
                Err(e) => ClientError::Decode(e),
            },
            Err(e) => ClientError::Decode(DecodeError::Syntax(e)),
        }
    }

    /// What a body that cannot be read as the expected document stands
    /// for, given the outcome of parsing it and of decoding the parsed
    /// document.
    pub open spec fn unreadable<V>(
        parsed: Option<Json>,
        decode: spec_fn(Json) -> Result<V, Seq<char>>,
        e: ClientError,
    ) -> bool {
        match parsed {
            None => e.is_syntax(),
            Some(doc) => decode(doc) matches Err(name) && e.is_shape(name),
        }
    }

    /// What reading a response gives: with an error status the error of
    /// the service, otherwise the decoded document, or the reason why the
    /// body cannot be read as one.
    pub open spec fn reading<V>(
        status: u16,
        parsed: Option<Json>,
        decode: spec_fn(Json) -> Result<V, Seq<char>>,
        r: Result<V, ClientError>,
    ) -> bool {
        match r {
            Ok(value) => !PaddleError::is_error_status(status) && parsed is Some && decode(
                parsed->Some_0,
            ) == Ok::<V, Seq<char>>(value),
            Err(e) => if PaddleError::is_error_status(status) {
                PaddleError::failure_matches(parsed, e)
            } else {
                PaddleError::unreadable(parsed, decode, e)
            },
        }
    }

    /// Sorts a response by its status code and parses the body of a
    /// response that is no error.
    pub fn document(status: u16, body: String) -> (r: Result<serde_json::Value, ClientError>)
        ensures
            match r {
                Ok(doc) => !PaddleError::is_error_status(status) && json_parse(body@) == Some(
                    json_model(doc),
                ),
                Err(e) => if PaddleError::is_error_status(status) {
                    PaddleError::failure_matches(json_parse(body@), e)
                } else {
                    json_parse(body@) is None && e.is_syntax()
                },
            },
    {
        let body = PaddleError::handle_response(status, body)?;
        match crate::json::parse(body.as_str()) {
            Ok(doc) => Ok(doc),
            Err(e) => Err(ClientError::Decode(DecodeError::Syntax(e))),
        }
    }

    /// Sorts a response by its status code. With a 4xx or 5xx status the
    /// body is read as an error envelope and the result is an error: the
    /// API error, or a decode error where the body is no such envelope.
    /// With any other status the body is handed back untouched.
    pub fn handle_response(status: u16, body: String) -> (r: Result<String, ClientError>)
        ensures
            match r {
                Ok(same) => !PaddleError::is_error_status(status) && same == body,
                Err(e) => PaddleError::is_error_status(status) && PaddleError::failure_matches(
                    json_parse(body@),
                    e,
                ),
            },
    {
        if status >= 400 && status <= 599 {
            Err(PaddleError::api_error(crate::json::parse(body.as_str())))
        } else {
            Ok(body)
        }
    }
}

} // verus!

