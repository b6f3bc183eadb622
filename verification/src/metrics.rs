//! The facade that stages a transformation and batches and publishes them.

use crate::batch::{clone_batches, Batch};
use crate::computing::{
    complete, completion_of, execute, execution_of, Execution, ExecutionView, QueryPlan,
    QueryPlanView,
};
use crate::definition::{StageView, Transformation};
use crate::error::{MetricError, MetricErrorView};
use crate::storage::{
    dispatch, outcome_view, publish, Publication, PublicationView, StorageBackend,
};
use datafusion::error::DataFusionError;
use vstd::prelude::*;

verus! {

/// Holds the transformation and the batches of one pipeline. A manager
/// starts with the identity transformation and no batches; each
/// configuration method takes the manager by value and returns the updated
/// one, and nothing is computed before `publish`.
#[derive(Debug)]
pub struct MetricsManager {
    transformation: Transformation,
    batches: Vec<Batch>,
}

/// What a [`MetricsManager`] stands for.
pub struct MetricsManagerView {
    pub transformation: Seq<StageView>,
    pub batches: Seq<Batch>,
}

impl View for MetricsManager {
    type V = MetricsManagerView;

    closed spec fn view(&self) -> MetricsManagerView {
        MetricsManagerView { transformation: self.transformation@, batches: self.batches@ }
    }
}

/// One step of a publish: its end, or what the engine has to do first.
#[derive(Debug)]
pub enum PublishStep {
    /// The publish is over with `outcome`: the order to write, or the error.
    Finished { outcome: Result<Publication, MetricError> },
    /// The engine is to run `plan` over `batches`, as
    /// [`crate::computing::query`] builds it; its answer and
    /// `storage_backend` go to [`finish_publish`].
    Query { plan: QueryPlan, batches: Vec<Batch>, storage_backend: StorageBackend },
}

/// What a [`PublishStep`] stands for.
pub enum PublishStepView {
    Finished { outcome: Result<PublicationView, MetricErrorView> },
    Query { plan: QueryPlanView, batches: Seq<Batch>, storage_backend: StorageBackend },
}

impl View for PublishStep {
    type V = PublishStepView;

    open spec fn view(&self) -> PublishStepView {
        match *self {
            PublishStep::Finished { outcome } => PublishStepView::Finished {
                outcome: outcome_view(outcome),
            },
            PublishStep::Query { plan, batches, storage_backend } => PublishStepView::Query {
                plan: plan@,
                batches: batches@,
                storage_backend,
            },
        }
    }
}

/// The first step of publishing `manager` to `storage_backend`. Where the
/// staged transformation needs no engine, its result is routed to the sink
/// at once. Otherwise the engine runs first, and only its answer is routed:
/// an unimplemented sink is then refused after the query has run.
pub open spec fn publish_step(
    manager: MetricsManagerView,
    storage_backend: StorageBackend,
) -> PublishStepView {
    match execution_of(manager.batches, manager.transformation) {
        ExecutionView::Ready { batches } => PublishStepView::Finished {
            outcome: dispatch(batches, storage_backend),
        },
        ExecutionView::Query { plan, batches } => PublishStepView::Query {
            plan,
            batches,
            storage_backend,
        },
    }
}

/// The outcome of a publish whose query the engine answered with `answer`:
/// the engine's failure, or its batches routed to `storage_backend`.
pub open spec fn publish_outcome(
    storage_backend: StorageBackend,
    answer: Result<Vec<Batch>, DataFusionError>,
) -> Result<PublicationView, MetricErrorView> {
    match completion_of(answer) {
        Ok(batches) => dispatch(batches, storage_backend),
        Err(error) => Err(error),
    }
}

impl Clone for MetricsManager {
    fn clone(&self) -> (copy: Self)
        ensures
            copy@ == self@,
    {
        MetricsManager {
            transformation: self.transformation.clone(),
            batches: clone_batches(&self.batches),
        }
    }
}

impl MetricsManager {
    /// A manager with the identity transformation and no batches.
    pub fn default() -> (manager: MetricsManager)
        ensures
            manager@ == (MetricsManagerView {
                transformation: Seq::<StageView>::empty(),
                batches: Seq::<Batch>::empty(),
            }),
    {
        let manager = MetricsManager {
            transformation: Transformation::default(),
            batches: Vec::new(),
        };
        assert(manager@.batches =~= Seq::<Batch>::empty());
        manager
    }

    /// Replaces the transformation and keeps the batches.
    pub fn transform(self, transformation: Transformation) -> (manager: MetricsManager)
        ensures
            manager@ == (MetricsManagerView {
                transformation: transformation@,
                batches: self@.batches,
            }),
    {
        MetricsManager { transformation, batches: self.batches }
    }

    /// Stages `batches` and keeps the transformation. Nothing is executed.
    pub fn execute(self, batches: Vec<Batch>) -> (manager: MetricsManager)
        ensures
            manager@ == (MetricsManagerView {
                transformation: self@.transformation,
                batches: batches@,
            }),
    {
        MetricsManager { transformation: self.transformation, batches }
    }

    /// The staged transformation.
    pub fn transformation(&self) -> (transformation: &Transformation)
        ensures
            transformation@ == self@.transformation,
    {
        &self.transformation
    }

    /// The staged batches.
    pub fn batches(&self) -> (batches: &Vec<Batch>)
        ensures
            batches@ == self@.batches,
    {
        &self.batches
    }

    /// Starts a publish to `storage_backend` and returns its first step. The
    /// manager and its batches are left as they were.
    pub fn publish(&self, storage_backend: StorageBackend) -> (step: PublishStep)
        ensures
            step@ == publish_step(self@, storage_backend),
    {
        match execute(clone_batches(&self.batches), &self.transformation) {
            Execution::Ready { batches } => PublishStep::Finished {
                outcome: publish(batches, storage_backend),
            },
            Execution::Query { plan, batches } => PublishStep::Query {
                plan,
                batches,
                storage_backend,
            },
        }
    }
}

/// Ends a publish whose query the engine answered with `answer`. A failure of
/// the engine is returned as it is wrapped, and nothing is to be written;
/// otherwise the batches of the answer are routed to `storage_backend`.
pub fn finish_publish(
    storage_backend: StorageBackend,
    answer: Result<Vec<Batch>, DataFusionError>,
) -> (outcome: Result<Publication, MetricError>)
    ensures
        outcome_view(outcome) == publish_outcome(storage_backend, answer),
        outcome is Ok <==> answer is Ok && storage_backend.spec_is_implemented(),
{
    match complete(answer) {
        Ok(batches) => publish(batches, storage_backend),
        Err(error) => Err(error),
    }
}

/// Publishing is repeatable: whatever two publishes of one manager to one
/// sink return as their first step, the two steps are the same, down to the
/// query and the batches handed to the engine.
pub proof fn lemma_publish_is_repeatable(
    manager: MetricsManager,
    storage_backend: StorageBackend,
    first: PublishStep,
    second: PublishStep,
)
    requires
        call_ensures(MetricsManager::publish, (&manager, storage_backend), first),
        call_ensures(MetricsManager::publish, (&manager, storage_backend), second),
    ensures
        first@ == second@,
{
}

/// On one answer of the engine, two publishes to one sink end alike: in the
/// same error, or in the order to write the same batches in the same order.
pub proof fn lemma_finish_is_repeatable(
    storage_backend: StorageBackend,
    answer: Result<Vec<Batch>, DataFusionError>,
    first: Result<Publication, MetricError>,
    second: Result<Publication, MetricError>,
)
    requires
        call_ensures(finish_publish, (storage_backend, answer), first),
        call_ensures(finish_publish, (storage_backend, answer), second),
    ensures
        outcome_view(first) == outcome_view(second),
{
}

/// A publish to the standard output that needs no engine orders exactly the
/// staged batches to be written, in their order.
pub proof fn lemma_stdout_writes_what_is_ready(manager: MetricsManager, step: PublishStep)
    requires
        call_ensures(MetricsManager::publish, (&manager, StorageBackend::Stdout), step),
        manager@.batches.len() == 0 || manager@.transformation.len() == 0,
    ensures
        step@ == (PublishStepView::Finished {
            outcome: Ok(
                PublicationView { backend: StorageBackend::Stdout, batches: manager@.batches },
            ),
        }),
{
}

/// Whatever is staged and whatever the engine answers, a publish to a sink
/// without an implementation never ends in an order to write: where it ends
/// at once it ends in the error that names the sink, and so it does after
/// the engine has answered with batches.
pub proof fn lemma_unimplemented_backend_never_writes(
    manager: MetricsManager,
    storage_backend: StorageBackend,
    step: PublishStep,
    answer: Result<Vec<Batch>, DataFusionError>,
    end: Result<Publication, MetricError>,
)
    requires
        !storage_backend.spec_is_implemented(),
        call_ensures(MetricsManager::publish, (&manager, storage_backend), step),
        call_ensures(finish_publish, (storage_backend, answer), end),
    ensures
        step matches PublishStep::Finished { outcome } ==> outcome_view(outcome) == Err::<
            PublicationView,
            MetricErrorView,
        >(MetricErrorView::StorageBackendNotSupported(storage_backend.spec_name())),
        end is Err,
        answer is Ok ==> outcome_view(end) == Err::<PublicationView, MetricErrorView>(
            MetricErrorView::StorageBackendNotSupported(storage_backend.spec_name()),
        ),
{
}

} // verus!
