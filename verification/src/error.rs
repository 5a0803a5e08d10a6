//! The ways in which compiling a query or reading its result can fail.

use vstd::prelude::*;
use crate::api_error::ErrorType;

verus! {

/// Why a metric could not be computed.
#[derive(Debug)]
pub enum MetricsError {
    /// A requested or filtered dimension is not legal for the metric kind.
    UnsupportedDimension,
    /// The data source cannot express a requested granularity, aggregate or
    /// window.
    UnsupportedOperation,
    /// A filter or bucket value cannot be embedded in a query safely.
    ValueRenderingFailure,
    /// The data source failed to run the query; holds what it reported.
    BackendExecutionFailure(String),
    /// A returned row does not match the columns declared for its kind.
    DecodeFailure,
}

/// Result of an operation of this library.
pub type MetricsResult<T> = Result<T, MetricsError>;

/// Mathematical model of a [`MetricsError`].
pub enum MetricsErrorView {
    UnsupportedDimension,
    UnsupportedOperation,
    ValueRenderingFailure,
    BackendExecutionFailure(Seq<char>),
    DecodeFailure,
}

impl DeepView for MetricsError {
    type V = MetricsErrorView;

    open spec fn deep_view(&self) -> MetricsErrorView {
        match self {
            MetricsError::UnsupportedDimension => MetricsErrorView::UnsupportedDimension,
            MetricsError::UnsupportedOperation => MetricsErrorView::UnsupportedOperation,
            MetricsError::ValueRenderingFailure => MetricsErrorView::ValueRenderingFailure,
            MetricsError::BackendExecutionFailure(report) => MetricsErrorView::BackendExecutionFailure(
                report@,
            ),
            MetricsError::DecodeFailure => MetricsErrorView::DecodeFailure,
        }
    }
}

impl View for MetricsError {
    type V = MetricsErrorView;

    open spec fn view(&self) -> MetricsErrorView {
        self.deep_view()
    }
}

impl MetricsErrorView {
    /// Whether the error says that the request was invalid, as opposed to the
    /// system failing to execute a valid one.
    pub open spec fn is_request_error(self) -> bool {
        self is UnsupportedDimension || self is UnsupportedOperation
            || self is ValueRenderingFailure
    }
}

impl MetricsError {
    /// Whether the error says that the request was invalid. Such an error is
    /// found before any query is handed to the data source, and the same
    /// request fails the same way again.
    pub fn is_request_error(&self) -> (r: bool)
        ensures
            r == self@.is_request_error(),
    {
        match self {
            MetricsError::UnsupportedDimension => true,
            MetricsError::UnsupportedOperation => true,
            MetricsError::ValueRenderingFailure => true,
            MetricsError::BackendExecutionFailure(_) => false,
            MetricsError::DecodeFailure => false,
        }
    }

    /// The class under which the error is shown: an invalid request for the
    /// errors of compilation, an internal error for those of execution and
    /// decoding.
    pub fn error_type(&self) -> (t: ErrorType)
        ensures
            t == (if self@.is_request_error() {
                ErrorType::InvalidRequestError
            } else {
                ErrorType::RouterError
            }),
    {
        if self.is_request_error() {
            ErrorType::InvalidRequestError
        } else {
            ErrorType::RouterError
        }
    }
}

impl Clone for MetricsError {
    fn clone(&self) -> (r: MetricsError)
        ensures
            r@ == self@,
    {
        match self {
            MetricsError::UnsupportedDimension => MetricsError::UnsupportedDimension,
            MetricsError::UnsupportedOperation => MetricsError::UnsupportedOperation,
            MetricsError::ValueRenderingFailure => MetricsError::ValueRenderingFailure,
            MetricsError::BackendExecutionFailure(report) => MetricsError::BackendExecutionFailure(
                report.clone(),
            ),
            MetricsError::DecodeFailure => MetricsError::DecodeFailure,
        }
    }
}

impl PartialEq for MetricsError {
    fn eq(&self, other: &MetricsError) -> (r: bool) {
        match (self, other) {
            (MetricsError::UnsupportedDimension, MetricsError::UnsupportedDimension) => true,
            (MetricsError::UnsupportedOperation, MetricsError::UnsupportedOperation) => true,
            (MetricsError::ValueRenderingFailure, MetricsError::ValueRenderingFailure) => true,
            (
                MetricsError::BackendExecutionFailure(a),
                MetricsError::BackendExecutionFailure(b),
            ) => *a == *b,
            (MetricsError::DecodeFailure, MetricsError::DecodeFailure) => true,
            _ => false,
        }
    }
}

impl vstd::std_specs::cmp::PartialEqSpecImpl for MetricsError {
    open spec fn obeys_eq_spec() -> bool {
        true
    }

    open spec fn eq_spec(&self, other: &MetricsError) -> bool {
        self@ == other@
    }
}

} // verus!
