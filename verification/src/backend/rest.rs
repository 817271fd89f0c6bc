//! The REST protocol of the tracking server: what is sent for each
//! operation, and what its answer means.

use vstd::prelude::*;
use crate::api::client::{Answered, Call, Client, ViewType};
use crate::api::error::{
    BatchError, BatchErrorView, CreateError, CreateErrorView, DeleteError, GetError, GetErrorView,
    StorageError, StorageErrorView, UpdateError,
};
use crate::api::experiment::{Experiment, ExperimentView};
use crate::api::id::{ExperimentId, RunId};
use crate::api::limits::{batch_violation, check_batch};
use crate::api::run::{
    Metric, MetricView, Param, Run, RunInfo, RunInfoView, RunStatus, RunTag, RunView,
};
use crate::api::search::{RunList, RunListView, Search, SearchView};
use crate::backend::payload::{Payload, PayloadView};
use crate::json::{
    entry, json_document, lemma_member_at, parse, record, render, Json, JsonView,
};
use crate::query::render_query;
use crate::text::{join, joined, same};
use crate::wire::{decoded_member, decoded_text, member_from_json, text_from_json, Wire};

verus! {

/// The code by which the server names the kind of an error.
#[derive(Debug, Clone, PartialEq, Eq)]
pub enum RestErrorCode {
    ResourceAlreadyExists,
    ResourceDoesNotExist,
    InvalidParameterValue,
    /// A code that this library does not know, as the server wrote it.
    Unknown(String),
}

/// The mathematical value of a [`RestErrorCode`].
pub enum RestErrorCodeView {
    ResourceAlreadyExists,
    ResourceDoesNotExist,
    InvalidParameterValue,
    Unknown(Seq<char>),
}

impl DeepView for RestErrorCode {
    type V = RestErrorCodeView;

    open spec fn deep_view(&self) -> RestErrorCodeView {
        match self {
            RestErrorCode::ResourceAlreadyExists => RestErrorCodeView::ResourceAlreadyExists,
            RestErrorCode::ResourceDoesNotExist => RestErrorCodeView::ResourceDoesNotExist,
            RestErrorCode::InvalidParameterValue => RestErrorCodeView::InvalidParameterValue,
            RestErrorCode::Unknown(code) => RestErrorCodeView::Unknown(code@),
        }
    }
}

impl View for RestErrorCode {
    type V = RestErrorCodeView;

    open spec fn view(&self) -> RestErrorCodeView {
        self.deep_view()
    }
}

impl RestErrorCodeView {
    /// The code that a word of the server stands for. A word that is none
    /// of the known codes is kept as it is.
    pub open spec fn of_word(word: Seq<char>) -> RestErrorCodeView {
        if word == "RESOURCE_ALREADY_EXISTS"@ {
            RestErrorCodeView::ResourceAlreadyExists
        } else if word == "RESOURCE_DOES_NOT_EXIST"@ {
            RestErrorCodeView::ResourceDoesNotExist
        } else if word == "INVALID_PARAMETER_VALUE"@ {
            RestErrorCodeView::InvalidParameterValue
        } else {
            RestErrorCodeView::Unknown(word)
        }
    }

    /// The word that the server writes for a code.
    pub open spec fn word(self) -> Seq<char> {
        match self {
            RestErrorCodeView::ResourceAlreadyExists => "RESOURCE_ALREADY_EXISTS"@,
            RestErrorCodeView::ResourceDoesNotExist => "RESOURCE_DOES_NOT_EXIST"@,
            RestErrorCodeView::InvalidParameterValue => "INVALID_PARAMETER_VALUE"@,
            RestErrorCodeView::Unknown(word) => word,
        }
    }

    /// Whether a word is one of the codes that this library knows.
    pub open spec fn is_known_word(word: Seq<char>) -> bool {
        word == "RESOURCE_ALREADY_EXISTS"@ || word == "RESOURCE_DOES_NOT_EXIST"@ || word
            == "INVALID_PARAMETER_VALUE"@
    }
}

/// No word of the server is lost: the code made of a word writes that
/// word. A word that is not known is kept verbatim as an unknown code.
pub proof fn lemma_code_keeps_word(word: Seq<char>)
    ensures
        RestErrorCodeView::of_word(word).word() == word,
        !RestErrorCodeView::is_known_word(word) ==> RestErrorCodeView::of_word(word)
            == RestErrorCodeView::Unknown(word),
{
}

/// Each known code is read back from its own word.
pub proof fn lemma_known_codes_distinct()
    ensures
        RestErrorCodeView::of_word("RESOURCE_ALREADY_EXISTS"@)
            == RestErrorCodeView::ResourceAlreadyExists,
        RestErrorCodeView::of_word("RESOURCE_DOES_NOT_EXIST"@)
            == RestErrorCodeView::ResourceDoesNotExist,
        RestErrorCodeView::of_word("INVALID_PARAMETER_VALUE"@)
            == RestErrorCodeView::InvalidParameterValue,
{
    reveal_strlit("RESOURCE_ALREADY_EXISTS");
    reveal_strlit("RESOURCE_DOES_NOT_EXIST");
    reveal_strlit("INVALID_PARAMETER_VALUE");
    assert("RESOURCE_ALREADY_EXISTS"@[0] == 'R' && "RESOURCE_ALREADY_EXISTS"@[9] == 'A');
    assert("RESOURCE_DOES_NOT_EXIST"@[0] == 'R' && "RESOURCE_DOES_NOT_EXIST"@[9] == 'D');
    assert("INVALID_PARAMETER_VALUE"@[0] == 'I');
}

impl RestErrorCode {
    /// Reads a code from the word of the server. A word that is none of
    /// the known codes is kept as it is.
    pub fn of_word(word: &str) -> (r: Self)
        ensures
            r.deep_view() == RestErrorCodeView::of_word(word@),
    {
        if same(word, "RESOURCE_ALREADY_EXISTS") {
            RestErrorCode::ResourceAlreadyExists
        } else if same(word, "RESOURCE_DOES_NOT_EXIST") {
            RestErrorCode::ResourceDoesNotExist
        } else if same(word, "INVALID_PARAMETER_VALUE") {
            RestErrorCode::InvalidParameterValue
        } else {
            RestErrorCode::Unknown(word.to_owned())
        }
    }
}

impl<'a> From<&'a str> for RestErrorCode {
    /// Reads a code from the word of the server.
    fn from(value: &'a str) -> (r: Self)
        ensures
            r.deep_view() == RestErrorCodeView::of_word(value@),
    {
        RestErrorCode::of_word(value)
    }
}

/// What `from` makes of a string slice is stated on `from` itself.
impl<'a> vstd::std_specs::convert::FromSpecImpl<&'a str> for RestErrorCode {
    open spec fn obeys_from_spec() -> bool {
        false
    }

    closed spec fn from_spec(value: &'a str) -> Self {
        arbitrary()
    }
}

/// An error that the server reported with an error status.
#[derive(Debug, Clone, PartialEq, Eq)]
pub enum RestError {
    /// The body was an error envelope.
    Known { status: u16, code: RestErrorCode, message: String },
    /// The body was anything else; it is kept as it came.
    Unknown { status: u16, body: String },
}

/// The mathematical value of a [`RestError`].
pub enum RestErrorView {
    Known { status: u16, code: RestErrorCodeView, message: Seq<char> },
    Unknown { status: u16, body: Seq<char> },
}

impl DeepView for RestError {
    type V = RestErrorView;

    open spec fn deep_view(&self) -> RestErrorView {
        match self {
            RestError::Known { status, code, message } => RestErrorView::Known {
                status: *status,
                code: code.deep_view(),
                message: message@,
            },
            RestError::Unknown { status, body } => RestErrorView::Unknown {
                status: *status,
                body: body@,
            },
        }
    }
}

impl View for RestError {
    type V = RestErrorView;

    open spec fn view(&self) -> RestErrorView {
        self.deep_view()
    }
}

/// The HTTP method of a request.
#[derive(Debug, Clone, Copy, PartialEq, Eq, Structural)]
pub enum RestMethod {
    Get,
    Post,
}

/// The operations of the server, each with its path and its method.
#[derive(Debug, Clone, Copy, PartialEq, Eq, Structural)]
pub enum Endpoint {
    CreateExperiment,
    GetExperiment,
    GetExperimentByName,
    ListExperiments,
    UpdateExperiment,
    DeleteExperiment,
    CreateRun,
    DeleteRun,
    GetRun,
    UpdateRun,
    LogParam,
    LogMetric,
    LogBatch,
    GetMetricHistory,
    SearchRuns,
}

impl Endpoint {
    /// The path of an operation below the base address. Fetching one run
    /// has no path of its own: its request goes to the base address.
    pub open spec fn path_text(self) -> Seq<char> {
        match self {
            Endpoint::CreateExperiment => "2.0/mlflow/experiments/create"@,
            Endpoint::GetExperiment => "2.0/mlflow/experiments/get"@,
            Endpoint::GetExperimentByName => "2.0/mlflow/experiments/get-by-name"@,
            Endpoint::ListExperiments => "2.0/mlflow/experiments/list"@,
            Endpoint::UpdateExperiment => "2.0/mlflow/experiments/update"@,
            Endpoint::DeleteExperiment => "2.0/mlflow/experiments/delete"@,
            Endpoint::CreateRun => "2.0/mlflow/runs/create"@,
            Endpoint::DeleteRun => "2.0/mlflow/runs/delete"@,
            Endpoint::GetRun => ""@,
            Endpoint::UpdateRun => "2.0/mlflow/runs/update"@,
            Endpoint::LogParam => "2.0/mlflow/runs/log-parameter"@,
            Endpoint::LogMetric => "2.0/mlflow/runs/log-metric"@,
            Endpoint::LogBatch => "2.0/mlflow/runs/log-batch"@,
            Endpoint::GetMetricHistory => "2.0/mlflow/metrics/get-history"@,
            Endpoint::SearchRuns => "2.0/mlflow/runs/search"@,
        }
    }

    /// The method of an operation: `GET` for the operations that fetch one
    /// thing by its name or list the experiments, `POST` for the others.
    pub open spec fn verb(self) -> RestMethod {
        match self {
            Endpoint::GetExperiment
            | Endpoint::GetExperimentByName
            | Endpoint::ListExperiments
            | Endpoint::GetRun
            | Endpoint::GetMetricHistory => RestMethod::Get,
            _ => RestMethod::Post,
        }
    }

    /// The path of this operation below the base address.
    pub fn path(&self) -> (r: &'static str)
        ensures
            r@ == self.path_text(),
    {
        match self {
            Endpoint::CreateExperiment => "2.0/mlflow/experiments/create",
            Endpoint::GetExperiment => "2.0/mlflow/experiments/get",
            Endpoint::GetExperimentByName => "2.0/mlflow/experiments/get-by-name",
            Endpoint::ListExperiments => "2.0/mlflow/experiments/list",
            Endpoint::UpdateExperiment => "2.0/mlflow/experiments/update",
            Endpoint::DeleteExperiment => "2.0/mlflow/experiments/delete",
            Endpoint::CreateRun => "2.0/mlflow/runs/create",
            Endpoint::DeleteRun => "2.0/mlflow/runs/delete",
            Endpoint::GetRun => "",
            Endpoint::UpdateRun => "2.0/mlflow/runs/update",
            Endpoint::LogParam => "2.0/mlflow/runs/log-parameter",
            Endpoint::LogMetric => "2.0/mlflow/runs/log-metric",
            Endpoint::LogBatch => "2.0/mlflow/runs/log-batch",
            Endpoint::GetMetricHistory => "2.0/mlflow/metrics/get-history",
            Endpoint::SearchRuns => "2.0/mlflow/runs/search",
        }
    }

    /// The method of this operation.
    pub fn method(&self) -> (r: RestMethod)
        ensures
            r == self.verb(),
    {
        match self {
            Endpoint::GetExperiment
            | Endpoint::GetExperimentByName
            | Endpoint::ListExperiments
            | Endpoint::GetRun
            | Endpoint::GetMetricHistory => RestMethod::Get,
            _ => RestMethod::Post,
        }
    }
}

/// A request as it is handed to the transport. The payload of a `GET`
/// request is its query string, that of a `POST` request its body.
#[derive(Debug, Clone, PartialEq, Eq)]
pub struct HttpRequest {
    pub method: RestMethod,
    pub url: String,
    pub payload: String,
}

/// The mathematical value of an [`HttpRequest`].
pub struct HttpRequestView {
    pub method: RestMethod,
    pub url: Seq<char>,
    pub payload: Seq<char>,
}

impl DeepView for HttpRequest {
    type V = HttpRequestView;

    open spec fn deep_view(&self) -> HttpRequestView {
        HttpRequestView { method: self.method, url: self.url@, payload: self.payload@ }
    }
}

impl View for HttpRequest {
    type V = HttpRequestView;

    open spec fn view(&self) -> HttpRequestView {
        self.deep_view()
    }
}

/// An answer as the transport hands it back: the status, and the body as
/// text, or `None` where the body could not be read as text.
#[derive(Debug, Clone, PartialEq, Eq)]
pub struct HttpResponse {
    pub status: u16,
    pub body: Option<String>,
}

/// The mathematical value of an [`HttpResponse`].
pub struct HttpResponseView {
    pub status: u16,
    pub body: Option<Seq<char>>,
}

impl DeepView for HttpResponse {
    type V = HttpResponseView;

    open spec fn deep_view(&self) -> HttpResponseView {
        HttpResponseView { status: self.status, body: self.body.deep_view() }
    }
}

impl View for HttpResponse {
    type V = HttpResponseView;

    open spec fn view(&self) -> HttpResponseView {
        self.deep_view()
    }
}

/// The request of an operation with a payload: the method of the
/// operation, the base address joined with its path, and the payload as
/// text. `None` where the payload cannot be written.
pub open spec fn request_for(
    api_url: Seq<char>,
    endpoint: Endpoint,
    payload: PayloadView,
) -> Option<HttpRequestView> {
    match payload.written() {
        Some(text) => Some(
            HttpRequestView {
                method: endpoint.verb(),
                url: joined(api_url, endpoint.path_text()),
                payload: text,
            },
        ),
        None => None,
    }
}

/// Builds the request of an operation. Fails, with
/// [`StorageError::Request`], only where the payload cannot be written.
pub fn build_request(api_url: &str, endpoint: Endpoint, payload: &Payload) -> (r: Result<
    HttpRequest,
    StorageError,
>)
    ensures
        match request_for(api_url@, endpoint, payload.deep_view()) {
            Some(request) => r is Ok && r->Ok_0.deep_view() == request,
            None => r is Err && r->Err_0.deep_view() == StorageErrorView::Request,
        },
{
    let text = match payload {
        Payload::Query(fields) => render_query(fields),
        Payload::Body(doc) => render(doc),
    };
    match text {
        Some(text) => Ok(
            HttpRequest {
                method: endpoint.method(),
                url: join(api_url, endpoint.path()),
                payload: text,
            },
        ),
        None => Err(StorageError::Request),
    }
}

/// Whether a status says that the request failed: 400 to 599.
pub open spec fn is_error_status(status: u16) -> bool {
    400 <= status <= 599
}

/// The text that stands for the body of an error whose body could not be
/// read.
pub open spec fn unreadable_body() -> Seq<char> {
    "Could not turn error body into String."@
}

/// The envelope in which the server reports an error: the code of the
/// error, and a message for people.
#[derive(Debug, Clone, PartialEq, Eq)]
pub struct ErrorResponse {
    pub error_code: String,
    pub message: String,
}

/// The mathematical value of an [`ErrorResponse`].
pub struct ErrorResponseView {
    pub error_code: Seq<char>,
    pub message: Seq<char>,
}

impl DeepView for ErrorResponse {
    type V = ErrorResponseView;

    open spec fn deep_view(&self) -> ErrorResponseView {
        ErrorResponseView { error_code: self.error_code@, message: self.message@ }
    }
}

impl View for ErrorResponse {
    type V = ErrorResponseView;

    open spec fn view(&self) -> ErrorResponseView {
        self.deep_view()
    }
}

/// The members of the object that stands for an error envelope.
pub open spec fn error_members(value: ErrorResponseView) -> Seq<(Seq<char>, JsonView)> {
    seq![
        ("error_code"@, JsonView::Text(value.error_code)),
        ("message"@, JsonView::Text(value.message)),
    ]
}

impl Wire for ErrorResponse {
    open spec fn encoded(value: ErrorResponseView) -> JsonView {
        JsonView::Record(error_members(value))
    }

    open spec fn decoded(doc: JsonView) -> Option<ErrorResponseView> {
        match (decoded_text(doc.member("error_code"@)), decoded_text(doc.member("message"@))) {
            (Some(error_code), Some(message)) => Some(ErrorResponseView { error_code, message }),
            _ => None,
        }
    }

    proof fn round_trip(value: ErrorResponseView) {
        reveal_strlit("error_code");
        reveal_strlit("message");
        assert("error_code"@.len() == 10);
        assert("message"@.len() == 7);
        let members = error_members(value);
        lemma_member_at(members, "error_code"@, 0);
        lemma_member_at(members, "message"@, 1);
    }

    fn to_json(&self) -> (doc: Json) {
        let mut members: Vec<(String, Json)> = Vec::new();
        members.push(entry("error_code", Json::of_text(self.error_code.as_str())));
        members.push(entry("message", Json::of_text(self.message.as_str())));
        assert(members.deep_view() =~= error_members(self.deep_view()));
        record(members)
    }

    fn from_json(doc: &Json) -> (r: Option<Self>) {
        let error_code = text_from_json(doc.member("error_code"));
        let message = text_from_json(doc.member("message"));
        match (error_code, message) {
            (Some(error_code), Some(message)) => Some(ErrorResponse { error_code, message }),
            _ => None,
        }
    }
}

/// The envelope that a text holds, if it is the JSON of one.
pub open spec fn envelope_of(body: Seq<char>) -> Option<ErrorResponseView> {
    match json_document(body) {
        Some(doc) => ErrorResponse::decoded(doc),
        None => None,
    }
}

/// The error that an answer with an error status reports. A body that is
/// an error envelope gives a known error with the code and the message of
/// the envelope; any other body gives an unknown error that keeps the
/// body. A body that could not be read counts as a fixed sentence that
/// says so.
pub open spec fn rest_error_of(response: HttpResponseView) -> RestErrorView {
    let body = match response.body {
        Some(text) => text,
        None => unreadable_body(),
    };
    match envelope_of(body) {
        Some(envelope) => RestErrorView::Known {
            status: response.status,
            code: RestErrorCodeView::of_word(envelope.error_code),
            message: envelope.message,
        },
        None => RestErrorView::Unknown { status: response.status, body },
    }
}

/// Reads the error that an answer with an error status reports.
pub fn parse_error(response: HttpResponse) -> (r: RestError)
    ensures
        r.deep_view() == rest_error_of(response.deep_view()),
{
    let status = response.status;
    let body = match response.body {
        Some(text) => text,
        None => "Could not turn error body into String.".to_owned(),
    };
    let envelope = match parse(body.as_str()) {
        Some(doc) => ErrorResponse::from_json(&doc),
        None => None,
    };
    match envelope {
        Some(envelope) => RestError::Known {
            status,
            code: RestErrorCode::of_word(envelope.error_code.as_str()),
            message: envelope.message,
        },
        None => RestError::Unknown { status, body },
    }
}

/// The code of an error that the server reports in an envelope is the
/// code of the envelope, whatever its word: a word that this library does
/// not know is kept verbatim as an unknown code.
pub proof fn lemma_error_code_is_kept(response: HttpResponseView, body: Seq<char>)
    requires
        response.body == Some(body),
        envelope_of(body) is Some,
    ensures
        rest_error_of(response) is Known,
        rest_error_of(response)->code.word() == envelope_of(body)->0.error_code,
        !RestErrorCodeView::is_known_word(envelope_of(body)->0.error_code) ==> rest_error_of(
            response,
        )->code == RestErrorCodeView::Unknown(envelope_of(body)->0.error_code),
{
    lemma_code_keeps_word(envelope_of(body)->0.error_code);
}

/// Why an exchange gave no value: the server reported an error, or the
/// answer could not be read.
#[derive(Debug, Clone, PartialEq, Eq)]
pub enum Failure {
    Rest(RestError),
    Storage(StorageError),
}

/// The mathematical value of a [`Failure`].
pub enum FailureView {
    Rest(RestErrorView),
    Storage(StorageErrorView),
}

impl DeepView for Failure {
    type V = FailureView;

    open spec fn deep_view(&self) -> FailureView {
        match self {
            Failure::Rest(e) => FailureView::Rest(e.deep_view()),
            Failure::Storage(e) => FailureView::Storage(e.deep_view()),
        }
    }
}

/// The mathematical value of a result.
pub open spec fn result_view<T: DeepView, E: DeepView>(r: Result<T, E>) -> Result<T::V, E::V> {
    match r {
        Ok(value) => Ok(value.deep_view()),
        Err(error) => Err(error.deep_view()),
    }
}

/// What an answer holds, as far as no operation is asked: the error of an
/// answer with an error status; a storage error for a body that cannot be
/// read or is no JSON document; else the document, with the body it was
/// read from.
pub open spec fn answer_of(response: HttpResponseView) -> Result<
    (JsonView, Seq<char>),
    FailureView,
> {
    if is_error_status(response.status) {
        Err(FailureView::Rest(rest_error_of(response)))
    } else {
        match response.body {
            None => Err(FailureView::Storage(StorageErrorView::Unreadable)),
            Some(body) => match json_document(body) {
                Some(doc) => Ok((doc, body)),
                None => Err(FailureView::Storage(StorageErrorView::Response(body))),
            },
        }
    }
}

/// The value that an answer holds: what its document stands for as a
/// `T`. A document that stands for none is a storage error that keeps the
/// body.
pub open spec fn document_of<T: Wire>(response: HttpResponseView) -> Result<T::V, FailureView> {
    match answer_of(response) {
        Ok((doc, body)) => match T::decoded(doc) {
            Some(value) => Ok(value),
            None => Err(FailureView::Storage(StorageErrorView::Response(body))),
        },
        Err(failure) => Err(failure),
    }
}

/// The value that an answer holds under the member `key` of its document.
/// A document without such a value is a storage error that keeps the
/// body.
pub open spec fn member_of<T: Wire>(key: Seq<char>, response: HttpResponseView) -> Result<
    T::V,
    FailureView,
> {
    match answer_of(response) {
        Ok((doc, body)) => match decoded_member::<T>(doc.member(key)) {
            Some(value) => Ok(value),
            None => Err(FailureView::Storage(StorageErrorView::Response(body))),
        },
        Err(failure) => Err(failure),
    }
}

/// What the answer to an operation that returns nothing holds: nothing,
/// if its document is an object; else a storage error that keeps the
/// body.
pub open spec fn nothing_of(response: HttpResponseView) -> Result<(), FailureView> {
    match answer_of(response) {
        Ok((doc, body)) => if doc is Record {
            Ok(())
        } else {
            Err(FailureView::Storage(StorageErrorView::Response(body)))
        },
        Err(failure) => Err(failure),
    }
}

fn read_answer(response: HttpResponse) -> (r: Result<(Json, String), Failure>)
    ensures
        match answer_of(response.deep_view()) {
            Ok((doc, body)) => r is Ok && r->Ok_0.0.deep_view() == doc && r->Ok_0.1@ == body,
            Err(failure) => r is Err && r->Err_0.deep_view() == failure,
        },
{
    if 400 <= response.status && response.status <= 599 {
        return Err(Failure::Rest(parse_error(response)));
    }
    match response.body {
        None => Err(Failure::Storage(StorageError::Unreadable)),
        Some(body) => match parse(body.as_str()) {
            Some(doc) => Ok((doc, body)),
            None => Err(Failure::Storage(StorageError::Response(body))),
        },
    }
}

/// Reads the value that an answer holds as its whole document.
pub fn read_document<T: Wire>(response: HttpResponse) -> (r: Result<T, Failure>)
    ensures
        result_view(r) == document_of::<T>(response.deep_view()),
{
    match read_answer(response) {
        Ok((doc, body)) => match T::from_json(&doc) {
            Some(value) => Ok(value),
            None => Err(Failure::Storage(StorageError::Response(body))),
        },
        Err(failure) => Err(failure),
    }
}

/// Reads the value that an answer holds under the member `key`.
pub fn read_member<T: Wire>(key: &str, response: HttpResponse) -> (r: Result<T, Failure>)
    ensures
        result_view(r) == member_of::<T>(key@, response.deep_view()),
{
    match read_answer(response) {
        Ok((doc, body)) => match member_from_json::<T>(doc.member(key)) {
            Some(value) => Ok(value),
            None => Err(Failure::Storage(StorageError::Response(body))),
        },
        Err(failure) => Err(failure),
    }
}

/// Reads the answer to an operation that returns nothing.
pub fn read_nothing(response: HttpResponse) -> (r: Result<(), Failure>)
    ensures
        result_view(r) == nothing_of(response.deep_view()),
{
    match read_answer(response) {
        Ok((doc, body)) => match doc {
            Json::Record(_) => Ok(()),
            _ => Err(Failure::Storage(StorageError::Response(body))),
        },
        Err(failure) => Err(failure),
    }
}

/// The operation that a call asks for. Listing the run infos of one
/// experiment is a search.
pub open spec fn endpoint_of(call: Call) -> Endpoint {
    match call {
        Call::CreateExperiment { .. } => Endpoint::CreateExperiment,
        Call::ListExperiments { .. } => Endpoint::ListExperiments,
        Call::GetExperiment { .. } => Endpoint::GetExperiment,
        Call::GetExperimentByName { .. } => Endpoint::GetExperimentByName,
        Call::DeleteExperiment { .. } => Endpoint::DeleteExperiment,
        Call::UpdateExperiment { .. } => Endpoint::UpdateExperiment,
        Call::CreateRun { .. } => Endpoint::CreateRun,
        Call::DeleteRun { .. } => Endpoint::DeleteRun,
        Call::GetRun { .. } => Endpoint::GetRun,
        Call::UpdateRun { .. } => Endpoint::UpdateRun,
        Call::SearchRuns { .. } => Endpoint::SearchRuns,
        Call::ListRunInfos { .. } => Endpoint::SearchRuns,
        Call::GetMetricHistory { .. } => Endpoint::GetMetricHistory,
        Call::LogParam { .. } => Endpoint::LogParam,
        Call::LogMetric { .. } => Endpoint::LogMetric,
        Call::LogBatch { .. } => Endpoint::LogBatch,
    }
}

/// The request that a call makes of a server at `api_url`; `None` where
/// its payload cannot be written.
pub open spec fn request_of(api_url: Seq<char>, call: Call) -> Option<HttpRequestView> {
    request_for(api_url, endpoint_of(call), PayloadView::of_call(call))
}

/// What creating the experiment `name` returns for an answer: the
/// identifier under `experiment_id`.
pub open spec fn create_experiment_outcome(name: Seq<char>, response: HttpResponseView) -> Result<
    Seq<char>,
    CreateErrorView,
> {
    match member_of::<ExperimentId>("experiment_id"@, response) {
        Ok(id) => Ok(id),
        Err(failure) => Err(CreateErrorView::of_failure(name, failure)),
    }
}

/// What listing the experiments returns for an answer: the experiments
/// under `experiments`.
pub open spec fn list_experiments_outcome(response: HttpResponseView) -> Result<
    Seq<ExperimentView>,
    StorageErrorView,
> {
    match member_of::<Vec<Experiment>>("experiments"@, response) {
        Ok(experiments) => Ok(experiments),
        Err(failure) => Err(StorageErrorView::of_failure(failure)),
    }
}

/// What fetching the experiment `name` returns for an answer: the
/// experiment under `experiment`.
pub open spec fn get_experiment_outcome(name: Seq<char>, response: HttpResponseView) -> Result<
    ExperimentView,
    GetErrorView,
> {
    match member_of::<Experiment>("experiment"@, response) {
        Ok(experiment) => Ok(experiment),
        Err(failure) => Err(GetErrorView::of_failure(name, failure)),
    }
}

/// What deleting `name` returns for an answer.
pub open spec fn delete_outcome(name: Seq<char>, response: HttpResponseView) -> Result<
    (),
    GetErrorView,
> {
    match nothing_of(response) {
        Ok(()) => Ok(()),
        Err(failure) => Err(GetErrorView::of_failure(name, failure)),
    }
}

/// What an operation that returns nothing and names no resource returns
/// for an answer.
pub open spec fn plain_outcome(response: HttpResponseView) -> Result<(), StorageErrorView> {
    match nothing_of(response) {
        Ok(()) => Ok(()),
        Err(failure) => Err(StorageErrorView::of_failure(failure)),
    }
}

/// What creating a run returns for an answer: the run under `run`.
pub open spec fn create_run_outcome(response: HttpResponseView) -> Result<
    RunView,
    StorageErrorView,
> {
    match member_of::<Run>("run"@, response) {
        Ok(run) => Ok(run),
        Err(failure) => Err(StorageErrorView::of_failure(failure)),
    }
}

/// What fetching the run `id` returns for an answer: the run under `run`.
pub open spec fn get_run_outcome(id: Seq<char>, response: HttpResponseView) -> Result<
    RunView,
    GetErrorView,
> {
    match member_of::<Run>("run"@, response) {
        Ok(run) => Ok(run),
        Err(failure) => Err(GetErrorView::of_failure(id, failure)),
    }
}

/// What updating the run `id` returns for an answer: the run info under
/// `run_info`.
pub open spec fn update_run_outcome(id: Seq<char>, response: HttpResponseView) -> Result<
    RunInfoView,
    GetErrorView,
> {
    match member_of::<RunInfo>("run_info"@, response) {
        Ok(info) => Ok(info),
        Err(failure) => Err(GetErrorView::of_failure(id, failure)),
    }
}

/// What a search returns for an answer: the page that its document
/// stands for.
pub open spec fn search_runs_outcome(response: HttpResponseView) -> Result<
    SearchView,
    StorageErrorView,
> {
    match document_of::<Search>(response) {
        Ok(page) => Ok(page),
        Err(failure) => Err(StorageErrorView::of_failure(failure)),
    }
}

/// What listing run infos returns for an answer: the page that its
/// document stands for, with what was logged under each run passed over.
pub open spec fn list_run_infos_outcome(response: HttpResponseView) -> Result<
    RunListView,
    StorageErrorView,
> {
    match document_of::<RunList>(response) {
        Ok(page) => Ok(page),
        Err(failure) => Err(StorageErrorView::of_failure(failure)),
    }
}

/// What fetching the history of a metric of the run `run` returns for an
/// answer: the points under `metrics`.
pub open spec fn get_metric_history_outcome(run: Seq<char>, response: HttpResponseView) -> Result<
    Seq<MetricView>,
    GetErrorView,
> {
    match member_of::<Vec<Metric>>("metrics"@, response) {
        Ok(metrics) => Ok(metrics),
        Err(failure) => Err(GetErrorView::of_failure(run, failure)),
    }
}

/// What logging a batch returns for an answer.
pub open spec fn log_batch_outcome(response: HttpResponseView) -> Result<(), BatchErrorView> {
    match nothing_of(response) {
        Ok(()) => Ok(()),
        Err(failure) => Err(BatchErrorView::of_failure(failure)),
    }
}

/// Reads what creating the experiment `name` returns from the answer.
pub fn read_create_experiment(name: &str, response: HttpResponse) -> (r: Result<
    ExperimentId,
    CreateError,
>)
    ensures
        result_view(r) == create_experiment_outcome(name@, response.deep_view()),
{
    match read_member::<ExperimentId>("experiment_id", response) {
        Ok(id) => Ok(id),
        Err(failure) => Err(CreateError::of_failure(name, failure)),
    }
}

/// Reads what listing the experiments returns from the answer.
pub fn read_list_experiments(response: HttpResponse) -> (r: Result<Vec<Experiment>, StorageError>)
    ensures
        result_view(r) == list_experiments_outcome(response.deep_view()),
{
    match read_member::<Vec<Experiment>>("experiments", response) {
        Ok(experiments) => Ok(experiments),
        Err(failure) => Err(StorageError::of_failure(failure)),
    }
}

/// Reads what fetching the experiment `name` returns from the answer.
/// `name` is the name or the identifier that was asked for.
pub fn read_get_experiment(name: &str, response: HttpResponse) -> (r: Result<Experiment, GetError>)
    ensures
        result_view(r) == get_experiment_outcome(name@, response.deep_view()),
{
    match read_member::<Experiment>("experiment", response) {
        Ok(experiment) => Ok(experiment),
        Err(failure) => Err(GetError::of_failure(name, failure)),
    }
}

/// Reads what deleting `name` returns from the answer.
pub fn read_delete(name: &str, response: HttpResponse) -> (r: Result<(), DeleteError>)
    ensures
        result_view(r) == delete_outcome(name@, response.deep_view()),
{
    match read_nothing(response) {
        Ok(done) => Ok(done),
        Err(failure) => Err(GetError::of_failure(name, failure)),
    }
}

/// Reads, from the answer, what an operation returns that returns nothing
/// and names no resource.
pub fn read_plain(response: HttpResponse) -> (r: Result<(), StorageError>)
    ensures
        result_view(r) == plain_outcome(response.deep_view()),
{
    match read_nothing(response) {
        Ok(done) => Ok(done),
        Err(failure) => Err(StorageError::of_failure(failure)),
    }
}

/// Reads what creating a run returns from the answer.
pub fn read_create_run(response: HttpResponse) -> (r: Result<Run, StorageError>)
    ensures
        result_view(r) == create_run_outcome(response.deep_view()),
{
    match read_member::<Run>("run", response) {
        Ok(run) => Ok(run),
        Err(failure) => Err(StorageError::of_failure(failure)),
    }
}

/// Reads what fetching the run `id` returns from the answer.
pub fn read_get_run(id: &str, response: HttpResponse) -> (r: Result<Run, GetError>)
    ensures
        result_view(r) == get_run_outcome(id@, response.deep_view()),
{
    match read_member::<Run>("run", response) {
        Ok(run) => Ok(run),
        Err(failure) => Err(GetError::of_failure(id, failure)),
    }
}

/// Reads what updating the run `id` returns from the answer.
pub fn read_update_run(id: &str, response: HttpResponse) -> (r: Result<RunInfo, UpdateError>)
    ensures
        result_view(r) == update_run_outcome(id@, response.deep_view()),
{
    match read_member::<RunInfo>("run_info", response) {
        Ok(info) => Ok(info),
        Err(failure) => Err(GetError::of_failure(id, failure)),
    }
}

/// Reads what a search returns from the answer.
pub fn read_search_runs(response: HttpResponse) -> (r: Result<Search, StorageError>)
    ensures
        result_view(r) == search_runs_outcome(response.deep_view()),
{
    match read_document::<Search>(response) {
        Ok(page) => Ok(page),
        Err(failure) => Err(StorageError::of_failure(failure)),
    }
}

/// Reads what listing run infos returns from the answer.
pub fn read_list_run_infos(response: HttpResponse) -> (r: Result<RunList, StorageError>)
    ensures
        result_view(r) == list_run_infos_outcome(response.deep_view()),
{
    match read_document::<RunList>(response) {
        Ok(page) => Ok(page),
        Err(failure) => Err(StorageError::of_failure(failure)),
    }
}

/// Reads what fetching the history of a metric of the run `run` returns
/// from the answer.
pub fn read_get_metric_history(run: &str, response: HttpResponse) -> (r: Result<
    Vec<Metric>,
    GetError,
>)
    ensures
        result_view(r) == get_metric_history_outcome(run@, response.deep_view()),
{
    match read_member::<Vec<Metric>>("metrics", response) {
        Ok(metrics) => Ok(metrics),
        Err(failure) => Err(GetError::of_failure(run, failure)),
    }
}

/// Reads what logging a batch returns from the answer.
pub fn read_log_batch(response: HttpResponse) -> (r: Result<(), BatchError>)
    ensures
        result_view(r) == log_batch_outcome(response.deep_view()),
{
    match read_nothing(response) {
        Ok(done) => Ok(done),
        Err(failure) => Err(BatchError::of_failure(failure)),
    }
}

/// One exchange with the server: the request that was handed to the
/// transport, and the answer that it handed back.
pub struct Exchange {
    pub request: HttpRequestView,
    pub response: HttpResponseView,
}

/// The part of a client that talks to the network: it takes one request to
/// the server and brings back the answer. A failure to reach the server is
/// an answer too, with an error status.
pub trait Transport {
    /// Takes `request` to the server and brings back its answer.
    fn exchange(&mut self, request: &HttpRequest) -> HttpResponse;
}

/// Whether going from the exchanges `before` to the exchanges `after`
/// was one operation with the given request and result: a request that
/// cannot be written is not sent and gives `unsent`; any other is sent
/// once, and the result is what `outcome` makes of the answer.
pub open spec fn performed<V, E>(
    before: Seq<Exchange>,
    after: Seq<Exchange>,
    request: Option<HttpRequestView>,
    unsent: E,
    outcome: spec_fn(HttpResponseView) -> Result<V, E>,
    result: Result<V, E>,
) -> bool {
    match request {
        None => after == before && result == Err::<V, E>(unsent),
        Some(request) => {
            &&& after == before.push(Exchange { request, response: after.last().response })
            &&& result == outcome(after.last().response)
        },
    }
}

/// A client that reaches a tracking server over HTTP.
pub struct Server<T: Transport> {
    api_url: String,
    transport: T,
    calls: Ghost<Seq<Answered>>,
    exchanges: Ghost<Seq<Exchange>>,
}

impl<T: Transport> Server<T> {
    /// The base address of the server.
    pub closed spec fn api_url(&self) -> Seq<char> {
        self.api_url@
    }

    /// The exchanges that this client had with the server, oldest first.
    pub closed spec fn exchanges(&self) -> Seq<Exchange> {
        self.exchanges@
    }

    /// A client of the server at the base address `api_url`, which has
    /// had no exchange yet.
    pub fn new(api_url: &str, transport: T) -> (server: Self)
        ensures
            server.api_url() == api_url@,
            server.calls() == Seq::<Answered>::empty(),
            server.exchanges() == Seq::<Exchange>::empty(),
    {
        Server {
            api_url: api_url.to_owned(),
            transport,
            calls: Ghost(Seq::empty()),
            exchanges: Ghost(Seq::empty()),
        }
    }

    /// The transport of this client.
    pub closed spec fn carrier(&self) -> T {
        self.transport
    }

    /// The transport of this client, as it is after the exchanges so far.
    pub fn transport(&self) -> (t: &T)
        ensures
            *t == self.carrier(),
    {
        &self.transport
    }

    /// Sends the request of an operation and brings back the answer. A
    /// request that cannot be written is not sent.
    fn execute(&mut self, endpoint: Endpoint, payload: &Payload) -> (r: Result<
        HttpResponse,
        StorageError,
    >)
        ensures
            final(self).api_url() == old(self).api_url(),
            final(self).calls() == old(self).calls(),
            match request_for(old(self).api_url(), endpoint, payload.deep_view()) {
                None => {
                    &&& final(self).exchanges() == old(self).exchanges()
                    &&& r is Err
                    &&& r->Err_0.deep_view() == StorageErrorView::Request
                },
                Some(request) => {
                    &&& r is Ok
                    &&& final(self).exchanges() == old(self).exchanges().push(
                        Exchange { request, response: r->Ok_0.deep_view() },
                    )
                },
            },
    {
        match build_request(self.api_url.as_str(), endpoint, payload) {
            Err(error) => Err(error),
            Ok(request) => {
                let response = self.transport.exchange(&request);
                proof {
                    self.exchanges@ = self.exchanges@.push(
                        Exchange { request: request.deep_view(), response: response.deep_view() },
                    );
                }
                Ok(response)
            },
        }
    }
}

impl<T: Transport> Client for Server<T> {
    closed spec fn calls(&self) -> Seq<Answered> {
        self.calls@
    }

    fn create_experiment(&mut self, name: &str) -> (r: Result<ExperimentId, CreateError>)
        ensures
            final(self).api_url() == old(self).api_url(),
            performed(
                old(self).exchanges(),
                final(self).exchanges(),
                request_of(old(self).api_url(), Call::CreateExperiment { name: name@ }),
                CreateErrorView::Storage(StorageErrorView::Request),
                |response: HttpResponseView| create_experiment_outcome(name@, response),
                result_view(r),
            ),
    {
        let payload = Payload::create_experiment(name);
        let r = match self.execute(Endpoint::CreateExperiment, &payload) {
            Err(error) => Err(CreateError::Storage(error)),
            Ok(response) => read_create_experiment(name, response),
        };
        proof {
            self.calls@ = self.calls@.push(
                Answered {
                    call: Call::CreateExperiment { name: name@ },
                    ok: r is Ok,
                },
            );
        }
        r
    }

    fn list_experiments(
        &mut self,
        view_type: ViewType,
    ) -> (r: Result<Vec<Experiment>, StorageError>)
        ensures
            final(self).api_url() == old(self).api_url(),
            performed(
                old(self).exchanges(),
                final(self).exchanges(),
                request_of(old(self).api_url(), Call::ListExperiments { view_type }),
                StorageErrorView::Request,
                |response: HttpResponseView| list_experiments_outcome(response),
                result_view(r),
            ),
    {
        let payload = Payload::list_experiments(view_type);
        let r = match self.execute(Endpoint::ListExperiments, &payload) {
            Err(error) => Err(error),
            Ok(response) => read_list_experiments(response),
        };
        proof {
            self.calls@ = self.calls@.push(
                Answered {
                    call: Call::ListExperiments { view_type },
                    ok: r is Ok,
                },
            );
        }
        r
    }

    fn get_experiment(&mut self, id: &ExperimentId) -> (r: Result<Experiment, GetError>)
        ensures
            final(self).api_url() == old(self).api_url(),
            performed(
                old(self).exchanges(),
                final(self).exchanges(),
                request_of(old(self).api_url(), Call::GetExperiment { id: id@ }),
                GetErrorView::Storage(StorageErrorView::Request),
                |response: HttpResponseView| get_experiment_outcome(id@, response),
                result_view(r),
            ),
    {
        let payload = Payload::get_experiment(id);
        let r = match self.execute(Endpoint::GetExperiment, &payload) {
            Err(error) => Err(GetError::Storage(error)),
            Ok(response) => read_get_experiment(id.as_ref(), response),
        };
        proof {
            self.calls@ = self.calls@.push(
                Answered {
                    call: Call::GetExperiment { id: id@ },
                    ok: r is Ok,
                },
            );
        }
        r
    }

    fn get_experiment_by_name(&mut self, name: &str) -> (r: Result<Experiment, GetError>)
        ensures
            final(self).api_url() == old(self).api_url(),
            performed(
                old(self).exchanges(),
                final(self).exchanges(),
                request_of(old(self).api_url(), Call::GetExperimentByName { name: name@ }),
                GetErrorView::Storage(StorageErrorView::Request),
                |response: HttpResponseView| get_experiment_outcome(name@, response),
                result_view(r),
            ),
    {
        let payload = Payload::get_experiment_by_name(name);
        let r = match self.execute(Endpoint::GetExperimentByName, &payload) {
            Err(error) => Err(GetError::Storage(error)),
            Ok(response) => read_get_experiment(name, response),
        };
        proof {
            self.calls@ = self.calls@.push(
                Answered {
                    call: Call::GetExperimentByName { name: name@ },
                    ok: r is Ok,
                },
            );
        }
        r
    }

    fn delete_experiment(&mut self, id: &ExperimentId) -> (r: Result<(), DeleteError>)
        ensures
            final(self).api_url() == old(self).api_url(),
            performed(
                old(self).exchanges(),
                final(self).exchanges(),
                request_of(old(self).api_url(), Call::DeleteExperiment { id: id@ }),
                GetErrorView::Storage(StorageErrorView::Request),
                |response: HttpResponseView| delete_outcome(id@, response),
                result_view(r),
            ),
    {
        let payload = Payload::delete_experiment(id);
        let r = match self.execute(Endpoint::DeleteExperiment, &payload) {
            Err(error) => Err(GetError::Storage(error)),
            Ok(response) => read_delete(id.as_ref(), response),
        };
        proof {
            self.calls@ = self.calls@.push(
                Answered {
                    call: Call::DeleteExperiment { id: id@ },
                    ok: r is Ok,
                },
            );
        }
        r
    }

    fn update_experiment(
        &mut self,
        id: &ExperimentId,
        new_name: Option<&str>,
    ) -> (r: Result<(), StorageError>)
        ensures
            final(self).api_url() == old(self).api_url(),
            performed(
                old(self).exchanges(),
                final(self).exchanges(),
                request_of(
                    old(self).api_url(),
                    Call::UpdateExperiment { id: id@, new_name: new_name.deep_view() },
                ),
                StorageErrorView::Request,
                |response: HttpResponseView| plain_outcome(response),
                result_view(r),
            ),
    {
        let payload = Payload::update_experiment(id, new_name);
        let r = match self.execute(Endpoint::UpdateExperiment, &payload) {
            Err(error) => Err(error),
            Ok(response) => read_plain(response),
        };
        proof {
            self.calls@ = self.calls@.push(
                Answered {
                    call: Call::UpdateExperiment { id: id@, new_name: new_name.deep_view() },
                    ok: r is Ok,
                },
            );
        }
        r
    }

    fn create_run(
        &mut self,
        experiment: &ExperimentId,
        start_time: i64,
        tags: &[RunTag],
    ) -> (r: Result<Run, StorageError>)
        ensures
            final(self).api_url() == old(self).api_url(),
            performed(
                old(self).exchanges(),
                final(self).exchanges(),
                request_of(
                    old(self).api_url(),
                    Call::CreateRun {
                        experiment: experiment@,
                        start_time,
                        tags: tags.deep_view(),
                    },
                ),
                StorageErrorView::Request,
                |response: HttpResponseView| create_run_outcome(response),
                result_view(r),
            ),
    {
        let payload = Payload::create_run(experiment, start_time, tags);
        let r = match self.execute(Endpoint::CreateRun, &payload) {
            Err(error) => Err(error),
            Ok(response) => read_create_run(response),
        };
        proof {
            self.calls@ = self.calls@.push(
                Answered {
                    call: Call::CreateRun {
                        experiment: experiment@,
                        start_time,
                        tags: tags.deep_view(),
                    },
                    ok: r is Ok,
                },
            );
        }
        r
    }

    fn delete_run(&mut self, id: &RunId) -> (r: Result<(), DeleteError>)
        ensures
            final(self).api_url() == old(self).api_url(),
            performed(
                old(self).exchanges(),
                final(self).exchanges(),
                request_of(old(self).api_url(), Call::DeleteRun { id: id@ }),
                GetErrorView::Storage(StorageErrorView::Request),
                |response: HttpResponseView| delete_outcome(id@, response),
                result_view(r),
            ),
    {
        let payload = Payload::delete_run(id);
        let r = match self.execute(Endpoint::DeleteRun, &payload) {
            Err(error) => Err(GetError::Storage(error)),
            Ok(response) => read_delete(id.as_ref(), response),
        };
        proof {
            self.calls@ = self.calls@.push(
                Answered {
                    call: Call::DeleteRun { id: id@ },
                    ok: r is Ok,
                },
            );
        }
        r
    }

    fn get_run(&mut self, id: &RunId) -> (r: Result<Run, GetError>)
        ensures
            final(self).api_url() == old(self).api_url(),
            performed(
                old(self).exchanges(),
                final(self).exchanges(),
                request_of(old(self).api_url(), Call::GetRun { id: id@ }),
                GetErrorView::Storage(StorageErrorView::Request),
                |response: HttpResponseView| get_run_outcome(id@, response),
                result_view(r),
            ),
    {
        let payload = Payload::get_run(id);
        let r = match self.execute(Endpoint::GetRun, &payload) {
            Err(error) => Err(GetError::Storage(error)),
            Ok(response) => read_get_run(id.as_ref(), response),
        };
        proof {
            self.calls@ = self.calls@.push(
                Answered {
                    call: Call::GetRun { id: id@ },
                    ok: r is Ok,
                },
            );
        }
        r
    }

    fn update_run(
        &mut self,
        id: &RunId,
        status: RunStatus,
        end_time: i64,
    ) -> (r: Result<RunInfo, UpdateError>)
        ensures
            final(self).api_url() == old(self).api_url(),
            performed(
                old(self).exchanges(),
                final(self).exchanges(),
                request_of(old(self).api_url(), Call::UpdateRun { id: id@, status, end_time }),
                GetErrorView::Storage(StorageErrorView::Request),
                |response: HttpResponseView| update_run_outcome(id@, response),
                result_view(r),
            ),
    {
        let payload = Payload::update_run(id, status, end_time);
        let r = match self.execute(Endpoint::UpdateRun, &payload) {
            Err(error) => Err(GetError::Storage(error)),
            Ok(response) => read_update_run(id.as_ref(), response),
        };
        proof {
            self.calls@ = self.calls@.push(
                Answered {
                    call: Call::UpdateRun { id: id@, status, end_time },
                    ok: r is Ok,
                },
            );
        }
        r
    }

    fn search_runs(
        &mut self,
        experiment_ids: &[&ExperimentId],
        filter: &str,
        run_view_type: ViewType,
        max_results: i32,
        order_by: Option<&str>,
        page_token: Option<&str>,
    ) -> (r: Result<Search, StorageError>)
        ensures
            final(self).api_url() == old(self).api_url(),
            performed(
                old(self).exchanges(),
                final(self).exchanges(),
                request_of(
                    old(self).api_url(),
                    Call::SearchRuns {
                        experiment_ids: experiment_ids.deep_view(),
                        filter: filter@,
                        run_view_type,
                        max_results,
                        order_by: order_by.deep_view(),
                        page_token: page_token.deep_view(),
                    },
                ),
                StorageErrorView::Request,
                |response: HttpResponseView| search_runs_outcome(response),
                result_view(r),
            ),
    {
        let payload = Payload::search_runs(
            experiment_ids,
            filter,
            run_view_type,
            max_results,
            order_by,
            page_token,
        );
        let r = match self.execute(Endpoint::SearchRuns, &payload) {
            Err(error) => Err(error),
            Ok(response) => read_search_runs(response),
        };
        proof {
            self.calls@ = self.calls@.push(
                Answered {
                    call: Call::SearchRuns {
                        experiment_ids: experiment_ids.deep_view(),
                        filter: filter@,
                        run_view_type,
                        max_results,
                        order_by: order_by.deep_view(),
                        page_token: page_token.deep_view(),
                    },
                    ok: r is Ok,
                },
            );
        }
        r
    }

    fn list_run_infos(
        &mut self,
        experiment: &ExperimentId,
        run_view_type: ViewType,
        max_results: i32,
        order_by: Option<&str>,
        page_token: Option<&str>,
    ) -> (r: Result<RunList, StorageError>)
        ensures
            final(self).api_url() == old(self).api_url(),
            performed(
                old(self).exchanges(),
                final(self).exchanges(),
                request_of(
                    old(self).api_url(),
                    Call::ListRunInfos {
                        experiment: experiment@,
                        run_view_type,
                        max_results,
                        order_by: order_by.deep_view(),
                        page_token: page_token.deep_view(),
                    },
                ),
                StorageErrorView::Request,
                |response: HttpResponseView| list_run_infos_outcome(response),
                result_view(r),
            ),
    {
        let ids: [&ExperimentId; 1] = [experiment];
        let ids = ids.as_slice();
        assert(ids.deep_view() =~= seq![experiment@]);
        proof {
            reveal_strlit("");
        }
        assert(""@ =~= Seq::<char>::empty());
        let payload = Payload::search_runs(
            ids,
            "",
            run_view_type,
            max_results,
            order_by,
            page_token,
        );
        let r = match self.execute(Endpoint::SearchRuns, &payload) {
            Err(error) => Err(error),
            Ok(response) => read_list_run_infos(response),
        };
        proof {
            self.calls@ = self.calls@.push(
                Answered {
                    call: Call::ListRunInfos {
                        experiment: experiment@,
                        run_view_type,
                        max_results,
                        order_by: order_by.deep_view(),
                        page_token: page_token.deep_view(),
                    },
                    ok: r is Ok,
                },
            );
        }
        r
    }

    fn get_metric_history(
        &mut self,
        run: &RunId,
        metric: &str,
    ) -> (r: Result<Vec<Metric>, GetError>)
        ensures
            final(self).api_url() == old(self).api_url(),
            performed(
                old(self).exchanges(),
                final(self).exchanges(),
                request_of(
                    old(self).api_url(),
                    Call::GetMetricHistory { run: run@, metric: metric@ },
                ),
                GetErrorView::Storage(StorageErrorView::Request),
                |response: HttpResponseView| get_metric_history_outcome(run@, response),
                result_view(r),
            ),
    {
        let payload = Payload::get_metric_history(run, metric);
        let r = match self.execute(Endpoint::GetMetricHistory, &payload) {
            Err(error) => Err(GetError::Storage(error)),
            Ok(response) => read_get_metric_history(run.as_ref(), response),
        };
        proof {
            self.calls@ = self.calls@.push(
                Answered {
                    call: Call::GetMetricHistory { run: run@, metric: metric@ },
                    ok: r is Ok,
                },
            );
        }
        r
    }

    fn log_param(&mut self, run: &RunId, key: &str, value: &str) -> (r: Result<(), StorageError>)
        ensures
            final(self).api_url() == old(self).api_url(),
            performed(
                old(self).exchanges(),
                final(self).exchanges(),
                request_of(
                    old(self).api_url(),
                    Call::LogParam { run: run@, key: key@, value: value@ },
                ),
                StorageErrorView::Request,
                |response: HttpResponseView| plain_outcome(response),
                result_view(r),
            ),
    {
        let payload = Payload::log_param(run, key, value);
        let r = match self.execute(Endpoint::LogParam, &payload) {
            Err(error) => Err(error),
            Ok(response) => read_plain(response),
        };
        proof {
            self.calls@ = self.calls@.push(
                Answered {
                    call: Call::LogParam { run: run@, key: key@, value: value@ },
                    ok: r is Ok,
                },
            );
        }
        r
    }

    fn log_metric(
        &mut self,
        run: &RunId,
        key: &str,
        value: serde_json::Number,
        timestamp: i64,
        step: i64,
    ) -> (r: Result<(), StorageError>)
        ensures
            final(self).api_url() == old(self).api_url(),
            performed(
                old(self).exchanges(),
                final(self).exchanges(),
                request_of(
                    old(self).api_url(),
                    Call::LogMetric { run: run@, key: key@, value, timestamp, step },
                ),
                StorageErrorView::Request,
                |response: HttpResponseView| plain_outcome(response),
                result_view(r),
            ),
    {
        let payload = Payload::log_metric(run, key, value, timestamp, step);
        let r = match self.execute(Endpoint::LogMetric, &payload) {
            Err(error) => Err(error),
            Ok(response) => read_plain(response),
        };
        proof {
            self.calls@ = self.calls@.push(
                Answered {
                    call: Call::LogMetric { run: run@, key: key@, value, timestamp, step },
                    ok: r is Ok,
                },
            );
        }
        r
    }

    fn log_batch(
        &mut self,
        run: &RunId,
        metrics: &[Metric],
        params: &[Param],
        tags: &[RunTag],
    ) -> (r: Result<(), BatchError>)
        ensures
            final(self).api_url() == old(self).api_url(),
            match batch_violation(metrics@.len(), params@.len(), tags@.len()) {
                Some(violation) => {
                    &&& final(self).exchanges() == old(self).exchanges()
                    &&& result_view(r) == Err::<(), BatchErrorView>(violation)
                },
                None => performed(
                    old(self).exchanges(),
                    final(self).exchanges(),
                    request_of(
                        old(self).api_url(),
                        Call::LogBatch {
                            run: run@,
                            metrics: metrics.deep_view(),
                            params: params.deep_view(),
                            tags: tags.deep_view(),
                        },
                    ),
                    BatchErrorView::Storage(StorageErrorView::Request),
                    |response: HttpResponseView| log_batch_outcome(response),
                    result_view(r),
                ),
            },
    {
        let ghost call = Call::LogBatch {
            run: run@,
            metrics: metrics.deep_view(),
            params: params.deep_view(),
            tags: tags.deep_view(),
        };
        match check_batch(metrics.len(), params.len(), tags.len()) {
            Err(violation) => {
                proof {
                    self.calls@ = self.calls@.push(Answered { call, ok: false });
                }
                return Err(violation);
            },
            Ok(()) => {},
        }
        let payload = Payload::log_batch(run, metrics, params, tags);
        let r = match self.execute(Endpoint::LogBatch, &payload) {
            Err(error) => Err(BatchError::Storage(error)),
            Ok(response) => read_log_batch(response),
        };
        proof {
            self.calls@ = self.calls@.push(Answered { call, ok: r is Ok });
        }
        r
    }
}

} // verus!
