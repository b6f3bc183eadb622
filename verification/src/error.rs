//! The errors that publishing can end in.

use datafusion::error::DataFusionError;
use vstd::prelude::*;
use vstd::string::*;

verus! {

/// The query engine's error, carried through unread.
#[verifier::external_type_specification]
#[verifier::external_body]
pub struct ExDataFusionError(DataFusionError);

/// Why a publish failed.
#[derive(Debug)]
pub enum MetricError {
    /// The query engine could not build or run the query.
    DataFusionError(DataFusionError),
    /// The requested sink, named here, has no implementation.
    StorageBackendNotSupported(String),
}

/// What a [`MetricError`] stands for.
pub enum MetricErrorView {
    DataFusionError(DataFusionError),
    StorageBackendNotSupported(Seq<char>),
}

impl View for MetricError {
    type V = MetricErrorView;

    open spec fn view(&self) -> MetricErrorView {
        match *self {
            MetricError::DataFusionError(cause) => MetricErrorView::DataFusionError(cause),
            MetricError::StorageBackendNotSupported(name) => {
                MetricErrorView::StorageBackendNotSupported(name@)
            },
        }
    }
}

impl From<DataFusionError> for MetricError {
    fn from(cause: DataFusionError) -> (error: MetricError) {
        MetricError::DataFusionError(cause)
    }
}

impl vstd::std_specs::convert::FromSpecImpl<DataFusionError> for MetricError {
    open spec fn obeys_from_spec() -> bool {
        true
    }

    open spec fn from_spec(cause: DataFusionError) -> MetricError {
        MetricError::DataFusionError(cause)
    }
}

impl MetricError {
    /// What the text of an engine failure starts with.
    pub open spec fn engine_prefix() -> Seq<char> {
        "DataFusionError: "@
    }

    /// What the text of an unsupported sink starts with.
    pub open spec fn backend_prefix() -> Seq<char> {
        "Not supported storage backend: "@
    }

    /// The text of the error. For an unsupported sink it is the fixed prefix
    /// followed by the sink's name; for an engine failure it is the fixed
    /// prefix followed by the text that the engine's error displays.
    pub fn to_string(&self) -> (text: String)
        ensures
            match *self {
                MetricError::StorageBackendNotSupported(name) => text@
                    == Self::backend_prefix() + name@,
                MetricError::DataFusionError(cause) => exists|shown: String|
                    #[trigger] to_string_from_display_ensures::<DataFusionError>(&cause, shown)
                        && text@ == Self::engine_prefix() + shown@,
            },
    {
        match self {
            MetricError::StorageBackendNotSupported(name) => {
                "Not supported storage backend: ".to_owned().concat(name.as_str())
            },
            MetricError::DataFusionError(cause) => {
                let shown = cause.to_string();
                "DataFusionError: ".to_owned().concat(shown.as_str())
            },
        }
    }
}

} // verus!
