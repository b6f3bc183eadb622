//! The sinks that results can be published to, and the dispatch among them.

use crate::batch::Batch;
use crate::error::{MetricError, MetricErrorView};
use vstd::prelude::*;
use vstd::string::*;

verus! {

/// Identifies a sink. The set is closed; a sink is added by adding a variant
/// and, once it can be written to, by listing it as implemented.
#[derive(Clone, Copy, Debug, PartialEq, Eq, Structural)]
pub enum StorageBackend {
    /// The standard output stream.
    Stdout,
    /// A file. Not implemented.
    File,
    /// A network endpoint. Not implemented.
    Network,
    /// A message queue. Not implemented.
    Queue,
}

impl StorageBackend {
    /// The name of the sink.
    pub open spec fn spec_name(self) -> Seq<char> {
        match self {
            StorageBackend::Stdout => "Stdout"@,
            StorageBackend::File => "File"@,
            StorageBackend::Network => "Network"@,
            StorageBackend::Queue => "Queue"@,
        }
    }

    /// Whether results can be written to the sink.
    pub open spec fn spec_is_implemented(self) -> bool {
        self == StorageBackend::Stdout
    }

    /// Whether results can be written to the sink.
    #[verifier::when_used_as_spec(spec_is_implemented)]
    pub fn is_implemented(self) -> (implemented: bool)
        ensures
            implemented == self.spec_is_implemented(),
    {
        match self {
            StorageBackend::Stdout => true,
            _ => false,
        }
    }

    /// The name of the sink, as it appears in error texts.
    pub fn to_string(&self) -> (name: String)
        ensures
            name@ == self.spec_name(),
    {
        match self {
            StorageBackend::Stdout => "Stdout".to_owned(),
            StorageBackend::File => "File".to_owned(),
            StorageBackend::Network => "Network".to_owned(),
            StorageBackend::Queue => "Queue".to_owned(),
        }
    }
}

/// An order to write batches to a sink: each batch, in the order given, in
/// the sink's own representation.
#[derive(Debug)]
pub struct Publication {
    /// The sink to write to; always an implemented one.
    pub backend: StorageBackend,
    /// The batches to write, first to last.
    pub batches: Vec<Batch>,
}

/// What a [`Publication`] stands for.
pub struct PublicationView {
    pub backend: StorageBackend,
    pub batches: Seq<Batch>,
}

impl View for Publication {
    type V = PublicationView;

    open spec fn view(&self) -> PublicationView {
        PublicationView { backend: self.backend, batches: self.batches@ }
    }
}

/// What the outcome of a dispatch stands for.
pub open spec fn outcome_view(outcome: Result<Publication, MetricError>) -> Result<
    PublicationView,
    MetricErrorView,
> {
    match outcome {
        Ok(publication) => Ok(publication@),
        Err(error) => Err(error@),
    }
}

/// The outcome of routing `batches` to `backend`: the order to write all of
/// them, in their order, if the sink is implemented; otherwise the error that
/// names the sink, and nothing to write.
pub open spec fn dispatch(batches: Seq<Batch>, backend: StorageBackend) -> Result<
    PublicationView,
    MetricErrorView,
> {
    if backend.spec_is_implemented() {
        Ok(PublicationView { backend, batches })
    } else {
        Err(MetricErrorView::StorageBackendNotSupported(backend.spec_name()))
    }
}

/// Routes `batches` to `backend`. The write itself is left to the caller:
/// on success the order to write is returned, holding exactly `batches`.
pub fn publish(batches: Vec<Batch>, backend: StorageBackend) -> (outcome: Result<
    Publication,
    MetricError,
>)
    ensures
        outcome_view(outcome) == dispatch(batches@, backend),
        outcome is Ok <==> backend.spec_is_implemented(),
{
    if backend.is_implemented() {
        Ok(Publication { backend, batches })
    } else {
        Err(MetricError::StorageBackendNotSupported(backend.to_string()))
    }
}

/// A sink without an implementation is always refused with the error that
/// names it, whatever the batches; no order to write comes out.
pub proof fn lemma_unimplemented_backend_is_refused(
    batches: Vec<Batch>,
    backend: StorageBackend,
    outcome: Result<Publication, MetricError>,
)
    requires
        call_ensures(publish, (batches, backend), outcome),
        !backend.spec_is_implemented(),
    ensures
        outcome_view(outcome) == Err::<PublicationView, MetricErrorView>(
            MetricErrorView::StorageBackendNotSupported(backend.spec_name()),
        ),
{
}

} // verus!
