//! Declarative data-quality metrics over columnar record batches.
//!
//! A caller describes a [`Transformation`] with a builder, stages it together
//! with record batches on a [`MetricsManager`], and publishes. Nothing is
//! computed before `publish`. A publish proceeds in steps: the library
//! decides what is to be done and builds the query, and the caller, who has
//! the runtime and the output stream, awaits the engine and writes what the
//! library orders.

pub mod batch;
pub mod computing;
pub mod definition;
pub mod engine;
pub mod error;
pub mod metrics;
pub mod storage;

pub use batch::Batch;
pub use computing::{
    apply_calls, complete, execute, plan_query, query, EngineCall, EngineCallView, Execution, ExecutionView,
    Expression, ExpressionView, Measure, MeasureView, QueryPlan, QueryPlanView,
};
pub use definition::{
    AggregateType, BuiltInMetricsBuilder, MetricType, Stage, StageView, Transformation,
    TransformationBuilder,
};
pub use error::{MetricError, MetricErrorView};
pub use metrics::{finish_publish, MetricsManager, MetricsManagerView, PublishStep, PublishStepView};
pub use storage::{publish, Publication, PublicationView, StorageBackend};
