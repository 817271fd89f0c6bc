//! The errors of a tracking client.

use vstd::prelude::*;
use crate::backend::rest::{
    Failure, FailureView, RestError, RestErrorCode, RestErrorCodeView, RestErrorView,
};

verus! {

/// The limit that a batch was over.
#[derive(Debug, Clone, Copy, PartialEq, Eq, Structural)]
pub enum Limit {
    Items,
    Metrics,
    Params,
    Tags,
}

/// A failure of the storage backend: the server refused, or a request or
/// an answer could not be written or read. Callers need not look inside.
#[derive(Debug, Clone, PartialEq, Eq)]
pub enum StorageError {
    /// The server answered with an error status.
    Rest(RestError),
    /// The request could not be written.
    Request,
    /// The body of the answer could not be read as text.
    Unreadable,
    /// The answer is not what the operation expects. Holds the body as it
    /// came.
    Response(String),
    /// A batch held more than a limit allows. Holds the limit and the
    /// count found.
    TooMany(Limit, usize),
    /// A resource that was needed does not exist. Holds its name.
    Missing(String),
}

/// The mathematical value of a [`StorageError`].
pub enum StorageErrorView {
    Rest(RestErrorView),
    Request,
    Unreadable,
    Response(Seq<char>),
    TooMany(Limit, usize),
    Missing(Seq<char>),
}

impl DeepView for StorageError {
    type V = StorageErrorView;

    open spec fn deep_view(&self) -> StorageErrorView {
        match self {
            StorageError::Rest(e) => StorageErrorView::Rest(e.deep_view()),
            StorageError::Request => StorageErrorView::Request,
            StorageError::Unreadable => StorageErrorView::Unreadable,
            StorageError::Response(body) => StorageErrorView::Response(body@),
            StorageError::TooMany(limit, found) => StorageErrorView::TooMany(*limit, *found),
            StorageError::Missing(name) => StorageErrorView::Missing(name@),
        }
    }
}

impl View for StorageError {
    type V = StorageErrorView;

    open spec fn view(&self) -> StorageErrorView {
        self.deep_view()
    }
}

/// Why an experiment could not be created.
#[derive(Debug, Clone, PartialEq, Eq)]
pub enum CreateError {
    /// There is a resource of that name already. Holds the name.
    AlreadyExists(String),
    Storage(StorageError),
}

/// The mathematical value of a [`CreateError`].
pub enum CreateErrorView {
    AlreadyExists(Seq<char>),
    Storage(StorageErrorView),
}

impl DeepView for CreateError {
    type V = CreateErrorView;

    open spec fn deep_view(&self) -> CreateErrorView {
        match self {
            CreateError::AlreadyExists(name) => CreateErrorView::AlreadyExists(name@),
            CreateError::Storage(e) => CreateErrorView::Storage(e.deep_view()),
        }
    }
}

impl View for CreateError {
    type V = CreateErrorView;

    open spec fn view(&self) -> CreateErrorView {
        self.deep_view()
    }
}

/// Why a resource could not be fetched.
#[derive(Debug, Clone, PartialEq, Eq)]
pub enum GetError {
    /// There is no resource of that name or identifier. Holds it.
    DoesNotExist(String),
    Storage(StorageError),
}

/// Why a resource could not be deleted.
pub type DeleteError = GetError;

/// Why a resource could not be changed.
pub type UpdateError = GetError;

/// The mathematical value of a [`GetError`].
pub enum GetErrorView {
    DoesNotExist(Seq<char>),
    Storage(StorageErrorView),
}

impl DeepView for GetError {
    type V = GetErrorView;

    open spec fn deep_view(&self) -> GetErrorView {
        match self {
            GetError::DoesNotExist(name) => GetErrorView::DoesNotExist(name@),
            GetError::Storage(e) => GetErrorView::Storage(e.deep_view()),
        }
    }
}

impl View for GetError {
    type V = GetErrorView;

    open spec fn view(&self) -> GetErrorView {
        self.deep_view()
    }
}

/// Why a batch could not be logged. The first four say that the batch was
/// over a limit, and hold the count found.
#[derive(Debug, Clone, PartialEq, Eq)]
pub enum BatchError {
    TooManyItems(usize),
    TooManyMetrics(usize),
    TooManyParams(usize),
    TooManyTags(usize),
    Storage(StorageError),
}

/// The mathematical value of a [`BatchError`].
pub enum BatchErrorView {
    TooManyItems(usize),
    TooManyMetrics(usize),
    TooManyParams(usize),
    TooManyTags(usize),
    Storage(StorageErrorView),
}

impl DeepView for BatchError {
    type V = BatchErrorView;

    open spec fn deep_view(&self) -> BatchErrorView {
        match self {
            BatchError::TooManyItems(n) => BatchErrorView::TooManyItems(*n),
            BatchError::TooManyMetrics(n) => BatchErrorView::TooManyMetrics(*n),
            BatchError::TooManyParams(n) => BatchErrorView::TooManyParams(*n),
            BatchError::TooManyTags(n) => BatchErrorView::TooManyTags(*n),
            BatchError::Storage(e) => BatchErrorView::Storage(e.deep_view()),
        }
    }
}

impl View for BatchError {
    type V = BatchErrorView;

    open spec fn view(&self) -> BatchErrorView {
        self.deep_view()
    }
}

impl CreateErrorView {
    /// What an error of the server means to one who creates `name`: the
    /// code for a resource that exists already says that `name` exists;
    /// any other error is a failure of the storage.
    pub open spec fn of_rest(name: Seq<char>, error: RestErrorView) -> CreateErrorView {
        match error {
            RestErrorView::Known { code: RestErrorCodeView::ResourceAlreadyExists, .. } => {
                CreateErrorView::AlreadyExists(name)
            },
            _ => CreateErrorView::Storage(StorageErrorView::Rest(error)),
        }
    }
}

impl GetErrorView {
    /// What an error of the server means to one who asks for `name`: the
    /// code for a resource that does not exist says that `name` does not;
    /// any other error is a failure of the storage.
    pub open spec fn of_rest(name: Seq<char>, error: RestErrorView) -> GetErrorView {
        match error {
            RestErrorView::Known { code: RestErrorCodeView::ResourceDoesNotExist, .. } => {
                GetErrorView::DoesNotExist(name)
            },
            _ => GetErrorView::Storage(StorageErrorView::Rest(error)),
        }
    }
}

impl StorageErrorView {
    /// A batch error as a storage error: a limit keeps its count, a
    /// storage failure stays what it is.
    pub open spec fn of_batch(error: BatchErrorView) -> StorageErrorView {
        match error {
            BatchErrorView::TooManyItems(n) => StorageErrorView::TooMany(Limit::Items, n),
            BatchErrorView::TooManyMetrics(n) => StorageErrorView::TooMany(Limit::Metrics, n),
            BatchErrorView::TooManyParams(n) => StorageErrorView::TooMany(Limit::Params, n),
            BatchErrorView::TooManyTags(n) => StorageErrorView::TooMany(Limit::Tags, n),
            BatchErrorView::Storage(e) => e,
        }
    }

    /// An error of fetching or changing as a storage error: a missing
    /// resource keeps its name, a storage failure stays what it is.
    pub open spec fn of_get(error: GetErrorView) -> StorageErrorView {
        match error {
            GetErrorView::DoesNotExist(name) => StorageErrorView::Missing(name),
            GetErrorView::Storage(e) => e,
        }
    }
}

impl CreateError {
    /// Says what an error of the server means to one who creates `name`.
    pub fn of_rest(name: &str, error: RestError) -> (r: CreateError)
        ensures
            r.deep_view() == CreateErrorView::of_rest(name@, error.deep_view()),
    {
        match error {
            RestError::Known { status, code: RestErrorCode::ResourceAlreadyExists, message } => {
                CreateError::AlreadyExists(name.to_owned())
            },
            other => CreateError::Storage(StorageError::Rest(other)),
        }
    }
}

impl GetError {
    /// Says what an error of the server means to one who asks for `name`.
    pub fn of_rest(name: &str, error: RestError) -> (r: GetError)
        ensures
            r.deep_view() == GetErrorView::of_rest(name@, error.deep_view()),
    {
        match error {
            RestError::Known { status, code: RestErrorCode::ResourceDoesNotExist, message } => {
                GetError::DoesNotExist(name.to_owned())
            },
            other => GetError::Storage(StorageError::Rest(other)),
        }
    }
}

impl StorageError {
    /// Turns a batch error into a storage error.
    pub fn of_batch(error: BatchError) -> (r: StorageError)
        ensures
            r.deep_view() == StorageErrorView::of_batch(error.deep_view()),
    {
        match error {
            BatchError::TooManyItems(n) => StorageError::TooMany(Limit::Items, n),
            BatchError::TooManyMetrics(n) => StorageError::TooMany(Limit::Metrics, n),
            BatchError::TooManyParams(n) => StorageError::TooMany(Limit::Params, n),
            BatchError::TooManyTags(n) => StorageError::TooMany(Limit::Tags, n),
            BatchError::Storage(e) => e,
        }
    }

    /// Turns an error of fetching or changing into a storage error.
    pub fn of_get(error: GetError) -> (r: StorageError)
        ensures
            r.deep_view() == StorageErrorView::of_get(error.deep_view()),
    {
        match error {
            GetError::DoesNotExist(name) => StorageError::Missing(name),
            GetError::Storage(e) => e,
        }
    }
}

impl StorageErrorView {
    /// A failed exchange as a storage error.
    pub open spec fn of_failure(failure: FailureView) -> StorageErrorView {
        match failure {
            FailureView::Rest(e) => StorageErrorView::Rest(e),
            FailureView::Storage(e) => e,
        }
    }
}

impl CreateErrorView {
    /// A failed exchange in the eyes of one who creates `name`.
    pub open spec fn of_failure(name: Seq<char>, failure: FailureView) -> CreateErrorView {
        match failure {
            FailureView::Rest(e) => CreateErrorView::of_rest(name, e),
            FailureView::Storage(e) => CreateErrorView::Storage(e),
        }
    }
}

impl GetErrorView {
    /// A failed exchange in the eyes of one who asks for `name`.
    pub open spec fn of_failure(name: Seq<char>, failure: FailureView) -> GetErrorView {
        match failure {
            FailureView::Rest(e) => GetErrorView::of_rest(name, e),
            FailureView::Storage(e) => GetErrorView::Storage(e),
        }
    }
}

impl BatchErrorView {
    /// A failed exchange in the eyes of one who logs a batch.
    pub open spec fn of_failure(failure: FailureView) -> BatchErrorView {
        BatchErrorView::Storage(StorageErrorView::of_failure(failure))
    }
}

impl StorageError {
    /// Turns a failed exchange into a storage error.
    pub fn of_failure(failure: Failure) -> (r: StorageError)
        ensures
            r.deep_view() == StorageErrorView::of_failure(failure.deep_view()),
    {
        match failure {
            Failure::Rest(e) => StorageError::Rest(e),
            Failure::Storage(e) => e,
        }
    }
}

impl CreateError {
    /// Says what a failed exchange means to one who creates `name`.
    pub fn of_failure(name: &str, failure: Failure) -> (r: CreateError)
        ensures
            r.deep_view() == CreateErrorView::of_failure(name@, failure.deep_view()),
    {
        match failure {
            Failure::Rest(e) => CreateError::of_rest(name, e),
            Failure::Storage(e) => CreateError::Storage(e),
        }
    }
}

impl GetError {
    /// Says what a failed exchange means to one who asks for `name`.
    pub fn of_failure(name: &str, failure: Failure) -> (r: GetError)
        ensures
            r.deep_view() == GetErrorView::of_failure(name@, failure.deep_view()),
    {
        match failure {
            Failure::Rest(e) => GetError::of_rest(name, e),
            Failure::Storage(e) => GetError::Storage(e),
        }
    }
}

impl BatchError {
    /// Says what a failed exchange means to one who logs a batch.
    pub fn of_failure(failure: Failure) -> (r: BatchError)
        ensures
            r.deep_view() == BatchErrorView::of_failure(failure.deep_view()),
    {
        BatchError::Storage(StorageError::of_failure(failure))
    }
}

} // verus!
