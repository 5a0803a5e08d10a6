//! Errors as an API shows them to its caller.

use vstd::prelude::*;
use vstd::string::*;
use crate::text::{append_two_digits, two_digit_text};

verus! {

/// `reqwest::StatusCode`, the status of an HTTP response. The library
/// carries such a value and never looks into it.
#[verifier::external_type_specification]
#[verifier::external_body]
pub struct ExStatusCode(reqwest::StatusCode);

/// `serde_json::Value`, any JSON value. The library carries such a value and
/// knows nothing of what it holds.
#[verifier::external_type_specification]
#[verifier::external_body]
pub struct ExJsonValue(serde_json::Value);

/// `serde_json::Value::clone`. Taken on trust: the copy equals the value it
/// was made of.
pub assume_specification[ <serde_json::Value as Clone>::clone ](value: &serde_json::Value) -> (copy:
    serde_json::Value)
    ensures
        copy == *value,
;

/// Broad class of an error.
#[derive(Clone, Copy, Debug, PartialEq, Eq, Structural)]
pub enum ErrorType {
    InvalidRequestError,
    RouterError,
    ConnectorError,
}

/// What an error says beyond its message.
#[derive(Debug)]
pub struct Extra {
    pub payment_id: Option<String>,
    pub data: Option<serde_json::Value>,
    pub connector: Option<String>,
    pub reason: Option<String>,
    pub connector_transaction_id: Option<String>,
    pub fields: Option<String>,
}

/// Mathematical model of an [`Extra`].
pub struct ExtraView {
    pub payment_id: Option<Seq<char>>,
    pub data: Option<serde_json::Value>,
    pub connector: Option<Seq<char>>,
    pub reason: Option<Seq<char>>,
    pub connector_transaction_id: Option<Seq<char>>,
    pub fields: Option<Seq<char>>,
}

impl DeepView for Extra {
    type V = ExtraView;

    open spec fn deep_view(&self) -> ExtraView {
        ExtraView {
            payment_id: self.payment_id.deep_view(),
            data: self.data,
            connector: self.connector.deep_view(),
            reason: self.reason.deep_view(),
            connector_transaction_id: self.connector_transaction_id.deep_view(),
            fields: self.fields.deep_view(),
        }
    }
}

impl View for Extra {
    type V = ExtraView;

    open spec fn view(&self) -> ExtraView {
        self.deep_view()
    }
}

/// A copy of a text that may be absent.
fn copy_text(text: &Option<String>) -> (copy: Option<String>)
    ensures
        copy.deep_view() == text.deep_view(),
{
    match text {
        Some(t) => Some(t.clone()),
        None => None,
    }
}

impl Default for Extra {
    fn default() -> (extra: Extra)
        ensures
            extra@ == (ExtraView {
                payment_id: None,
                data: None,
                connector: None,
                reason: None,
                connector_transaction_id: None,
                fields: None,
            }),
    {
        Extra {
            payment_id: None,
            data: None,
            connector: None,
            reason: None,
            connector_transaction_id: None,
            fields: None,
        }
    }
}

impl Clone for Extra {
    fn clone(&self) -> (copy: Extra)
        ensures
            copy@ == self@,
    {
        Extra {
            payment_id: copy_text(&self.payment_id),
            data: match &self.data {
                Some(value) => Some(value.clone()),
                None => None,
            },
            connector: copy_text(&self.connector),
            reason: copy_text(&self.reason),
            connector_transaction_id: copy_text(&self.connector_transaction_id),
            fields: copy_text(&self.fields),
        }
    }
}

/// A copy of what an error says beyond its message, where it says anything.
fn copy_extra(extra: &Option<Extra>) -> (copy: Option<Extra>)
    ensures
        copy.deep_view() == extra.deep_view(),
{
    match extra {
        Some(e) => Some(e.clone()),
        None => None,
    }
}

/// An error with its code and message.
#[derive(Debug)]
pub struct ApiError {
    pub sub_code: &'static str,
    pub error_identifier: u16,
    pub error_message: String,
    pub extra: Option<Extra>,
}

/// Mathematical model of an [`ApiError`].
pub struct ApiErrorView {
    pub sub_code: Seq<char>,
    pub error_identifier: u16,
    pub error_message: Seq<char>,
    pub extra: Option<ExtraView>,
}

impl DeepView for ApiError {
    type V = ApiErrorView;

    open spec fn deep_view(&self) -> ApiErrorView {
        ApiErrorView {
            sub_code: self.sub_code@,
            error_identifier: self.error_identifier,
            error_message: self.error_message@,
            extra: self.extra.deep_view(),
        }
    }
}

impl View for ApiError {
    type V = ApiErrorView;

    open spec fn view(&self) -> ApiErrorView {
        self.deep_view()
    }
}

impl ApiErrorView {
    /// The code of the error: its sub code, an underscore, and its identifier
    /// in at least two digits.
    pub open spec fn code(self) -> Seq<char> {
        self.sub_code + "_"@ + two_digit_text(self.error_identifier as nat)
    }
}

impl ApiError {
    /// An error with the given code, message and further details.
    pub fn new(
        sub_code: &'static str,
        error_identifier: u16,
        error_message: &str,
        extra: Option<Extra>,
    ) -> (error: ApiError)
        ensures
            error@ == (ApiErrorView {
                sub_code: sub_code@,
                error_identifier,
                error_message: error_message@,
                extra: extra.deep_view(),
            }),
    {
        ApiError {
            sub_code,
            error_identifier,
            error_message: String::from_str(error_message),
            extra,
        }
    }

    /// The code of the error: its sub code, an underscore, and its identifier
    /// in at least two digits.
    pub fn code(&self) -> (code: String)
        ensures
            code@ == self@.code(),
    {
        let mut code = String::from_str(self.sub_code);
        code.append("_");
        append_two_digits(&mut code, self.error_identifier as u64);
        code
    }
}

impl Clone for ApiError {
    fn clone(&self) -> (copy: ApiError)
        ensures
            copy@ == self@,
    {
        ApiError {
            sub_code: self.sub_code,
            error_identifier: self.error_identifier,
            error_message: self.error_message.clone(),
            extra: copy_extra(&self.extra),
        }
    }
}

/// An error as it is written into the body of a response.
#[derive(Debug)]
pub struct ErrorResponse {
    pub error_type: &'static str,
    pub message: String,
    pub code: String,
    pub extra: Option<Extra>,
}

/// Mathematical model of an [`ErrorResponse`].
pub struct ErrorResponseView {
    pub error_type: Seq<char>,
    pub message: Seq<char>,
    pub code: Seq<char>,
    pub extra: Option<ExtraView>,
}

impl DeepView for ErrorResponse {
    type V = ErrorResponseView;

    open spec fn deep_view(&self) -> ErrorResponseView {
        ErrorResponseView {
            error_type: self.error_type@,
            message: self.message@,
            code: self.code@,
            extra: self.extra.deep_view(),
        }
    }
}

impl View for ErrorResponse {
    type V = ErrorResponseView;

    open spec fn view(&self) -> ErrorResponseView {
        self.deep_view()
    }
}

/// An error of an API, by the status that the response to it has.
#[derive(Debug)]
pub enum ApiErrorResponse {
    Unauthorized(ApiError),
    ForbiddenCommonResource(ApiError),
    ForbiddenPrivateResource(ApiError),
    Conflict(ApiError),
    Gone(ApiError),
    Unprocessable(ApiError),
    InternalServerError(ApiError),
    NotImplemented(ApiError),
    ConnectorError(ApiError, reqwest::StatusCode),
    NotFound(ApiError),
    MethodNotAllowed(ApiError),
    BadRequest(ApiError),
    DomainError(ApiError),
}

impl ApiErrorResponse {
    /// The error that the response carries.
    pub open spec fn internal(self) -> ApiError {
        match self {
            ApiErrorResponse::Unauthorized(i) => i,
            ApiErrorResponse::ForbiddenCommonResource(i) => i,
            ApiErrorResponse::ForbiddenPrivateResource(i) => i,
            ApiErrorResponse::Conflict(i) => i,
            ApiErrorResponse::Gone(i) => i,
            ApiErrorResponse::Unprocessable(i) => i,
            ApiErrorResponse::InternalServerError(i) => i,
            ApiErrorResponse::NotImplemented(i) => i,
            ApiErrorResponse::ConnectorError(i, _) => i,
            ApiErrorResponse::NotFound(i) => i,
            ApiErrorResponse::MethodNotAllowed(i) => i,
            ApiErrorResponse::BadRequest(i) => i,
            ApiErrorResponse::DomainError(i) => i,
        }
    }

    /// The same kind of response, carrying another error.
    pub open spec fn with_internal(self, error: ApiError) -> ApiErrorResponse {
        match self {
            ApiErrorResponse::Unauthorized(_) => ApiErrorResponse::Unauthorized(error),
            ApiErrorResponse::ForbiddenCommonResource(_) => ApiErrorResponse::ForbiddenCommonResource(
                error,
            ),
            ApiErrorResponse::ForbiddenPrivateResource(_) => ApiErrorResponse::ForbiddenPrivateResource(
                error,
            ),
            ApiErrorResponse::Conflict(_) => ApiErrorResponse::Conflict(error),
            ApiErrorResponse::Gone(_) => ApiErrorResponse::Gone(error),
            ApiErrorResponse::Unprocessable(_) => ApiErrorResponse::Unprocessable(error),
            ApiErrorResponse::InternalServerError(_) => ApiErrorResponse::InternalServerError(error),
            ApiErrorResponse::NotImplemented(_) => ApiErrorResponse::NotImplemented(error),
            ApiErrorResponse::ConnectorError(_, status) => ApiErrorResponse::ConnectorError(
                error,
                status,
            ),
            ApiErrorResponse::NotFound(_) => ApiErrorResponse::NotFound(error),
            ApiErrorResponse::MethodNotAllowed(_) => ApiErrorResponse::MethodNotAllowed(error),
            ApiErrorResponse::BadRequest(_) => ApiErrorResponse::BadRequest(error),
            ApiErrorResponse::DomainError(_) => ApiErrorResponse::DomainError(error),
        }
    }

    /// The name of the type of the error: `api` for an internal error,
    /// `blocked` for one of the domain, `connector` for one of a connector,
    /// `invalid_request` for every other.
    pub open spec fn type_text(self) -> Seq<char> {
        match self {
            ApiErrorResponse::InternalServerError(_) => "api"@,
            ApiErrorResponse::DomainError(_) => "blocked"@,
            ApiErrorResponse::ConnectorError(_, _) => "connector"@,
            _ => "invalid_request"@,
        }
    }

    /// What is written into the body of the response to the error: the name
    /// of its type, its message, its code, and what it says beyond them.
    pub open spec fn response(self) -> ErrorResponseView {
        ErrorResponseView {
            error_type: self.type_text(),
            message: self.internal()@.error_message,
            code: self.internal()@.code(),
            extra: self.internal()@.extra,
        }
    }

    /// The error that the response carries.
    pub fn get_internal_error(&self) -> (error: &ApiError)
        ensures
            *error == self.internal(),
    {
        match self {
            Self::Unauthorized(i)
            | Self::ForbiddenCommonResource(i)
            | Self::ForbiddenPrivateResource(i)
            | Self::Conflict(i)
            | Self::Gone(i)
            | Self::Unprocessable(i)
            | Self::InternalServerError(i)
            | Self::NotImplemented(i)
            | Self::NotFound(i)
            | Self::MethodNotAllowed(i)
            | Self::BadRequest(i)
            | Self::DomainError(i)
            | Self::ConnectorError(i, _) => i,
        }
    }

    /// The error that the response carries, to be changed in place. The kind
    /// of the response stays as it is.
    pub fn get_internal_error_mut(&mut self) -> (error: &mut ApiError)
        ensures
            *error == old(self).internal(),
            *final(self) == old(self).with_internal(*final(error)),
    {
        match self {
            Self::Unauthorized(i) => i,
            Self::ForbiddenCommonResource(i) => i,
            Self::ForbiddenPrivateResource(i) => i,
            Self::Conflict(i) => i,
            Self::Gone(i) => i,
            Self::Unprocessable(i) => i,
            Self::InternalServerError(i) => i,
            Self::NotImplemented(i) => i,
            Self::NotFound(i) => i,
            Self::MethodNotAllowed(i) => i,
            Self::BadRequest(i) => i,
            Self::DomainError(i) => i,
            Self::ConnectorError(i, _) => i,
        }
    }

    /// The name of the type of the error.
    pub fn error_type(&self) -> (name: &'static str)
        ensures
            name@ == self.type_text(),
    {
        match self {
            Self::Unauthorized(_)
            | Self::ForbiddenCommonResource(_)
            | Self::ForbiddenPrivateResource(_)
            | Self::Conflict(_)
            | Self::Gone(_)
            | Self::Unprocessable(_)
            | Self::NotImplemented(_)
            | Self::MethodNotAllowed(_)
            | Self::NotFound(_)
            | Self::BadRequest(_) => "invalid_request",
            Self::InternalServerError(_) => "api",
            Self::DomainError(_) => "blocked",
            Self::ConnectorError(_, _) => "connector",
        }
    }
}

impl Clone for ApiErrorResponse {
    fn clone(&self) -> (copy: ApiErrorResponse)
        ensures
            copy.internal()@ == self.internal()@,
            copy == self.with_internal(copy.internal()),
    {
        let inner = self.get_internal_error().clone();
        match self {
            Self::Unauthorized(_) => Self::Unauthorized(inner),
            Self::ForbiddenCommonResource(_) => Self::ForbiddenCommonResource(inner),
            Self::ForbiddenPrivateResource(_) => Self::ForbiddenPrivateResource(inner),
            Self::Conflict(_) => Self::Conflict(inner),
            Self::Gone(_) => Self::Gone(inner),
            Self::Unprocessable(_) => Self::Unprocessable(inner),
            Self::InternalServerError(_) => Self::InternalServerError(inner),
            Self::NotImplemented(_) => Self::NotImplemented(inner),
            Self::ConnectorError(_, status) => Self::ConnectorError(inner, *status),
            Self::NotFound(_) => Self::NotFound(inner),
            Self::MethodNotAllowed(_) => Self::MethodNotAllowed(inner),
            Self::BadRequest(_) => Self::BadRequest(inner),
            Self::DomainError(_) => Self::DomainError(inner),
        }
    }
}

impl From<&ApiErrorResponse> for ErrorResponse {
    /// What is written into the body of the response to an error: the name of
    /// its type, its message, its code, and what it says beyond them.
    fn from(value: &ApiErrorResponse) -> (response: ErrorResponse)
        ensures
            response@ == value.response(),
    {
        let error_info = value.get_internal_error();
        let error_type = value.error_type();
        ErrorResponse {
            code: error_info.code(),
            message: error_info.error_message.clone(),
            error_type,
            extra: copy_extra(&error_info.extra),
        }
    }
}

impl vstd::std_specs::convert::FromSpecImpl<&ApiErrorResponse> for ErrorResponse {
    /// The response is stated by its model, in the contract of `from`: a
    /// response holds texts, which no spec function can build.
    open spec fn obeys_from_spec() -> bool {
        false
    }

    open spec fn from_spec(value: &ApiErrorResponse) -> ErrorResponse {
        arbitrary()
    }
}

} // verus!
