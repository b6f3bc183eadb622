use arrow::array::{Array, ArrayRef, Int64Array, StringArray};
use arrow::datatypes::{DataType, Field, Schema};
use arrow::record_batch::RecordBatch;
use datafusion::error::DataFusionError;
use df_metrics::{
    apply_calls, finish_publish, plan_query, query, AggregateType, Batch, BuiltInMetricsBuilder, MetricError,
    MetricsManager, Publication, PublishStep, QueryPlan, StorageBackend, Transformation,
    TransformationBuilder,
};
use std::sync::Arc;

fn generate_dataset() -> Result<RecordBatch, arrow::error::ArrowError> {
    let schema = Arc::new(Schema::new(vec![
        Field::new("id", DataType::Int64, false),
        Field::new("value", DataType::Int64, true),
        Field::new("category", DataType::Utf8, false),
    ]));
    let id: ArrayRef = Arc::new(Int64Array::from(vec![1, 2, 3]));
    let value: ArrayRef = Arc::new(Int64Array::from(vec![Some(10), None, Some(5)]));
    let category: ArrayRef = Arc::new(StringArray::from(vec!["A", "A", "B"]));
    RecordBatch::try_new(schema, vec![id, value, category])
}

fn staged(record_batch: RecordBatch) -> Vec<Batch> {
    vec![Batch { inner: record_batch }]
}

fn run_engine(plan: &QueryPlan, batches: Vec<Batch>) -> Result<Vec<Batch>, DataFusionError> {
    let frame = query(plan, batches)?;
    let runtime = tokio::runtime::Builder::new_current_thread().build().unwrap();
    let answer = runtime.block_on(frame.collect())?;
    Ok(answer.into_iter().map(|inner| Batch { inner }).collect())
}

fn run_publish(
    manager: &MetricsManager,
    storage_backend: StorageBackend,
) -> Result<Publication, MetricError> {
    match manager.publish(storage_backend) {
        PublishStep::Finished { outcome } => outcome,
        PublishStep::Query { plan, batches, storage_backend } => {
            finish_publish(storage_backend, run_engine(&plan, batches))
        }
    }
}

fn write_stdout(publication: &Publication) {
    for batch in publication.batches.iter() {
        println!("{:?}", batch.inner);
    }
}

fn int_column(batch: &RecordBatch, name: &str) -> Vec<Option<i64>> {
    let column = batch.column_by_name(name).unwrap();
    let values = column.as_any().downcast_ref::<Int64Array>().unwrap();
    (0..values.len()).map(|row| if values.is_null(row) { None } else { Some(values.value(row)) }).collect()
}

fn text_column(batch: &RecordBatch, name: &str) -> Vec<String> {
    let column = batch.column_by_name(name).unwrap();
    let values = column.as_any().downcast_ref::<StringArray>().unwrap();
    (0..values.len()).map(|row| values.value(row).to_string()).collect()
}

fn inner_batches(batches: &[Batch]) -> Vec<RecordBatch> {
    batches.iter().map(|batch| batch.inner.clone()).collect()
}

#[test]
fn test_metrics_manager() {
    let record_batch = generate_dataset();
    let publication = run_publish(
        &MetricsManager::default()
            .transform(
                TransformationBuilder::new()
                    .select(vec!["id", "value", "category"])
                    .aggregate(AggregateType::Sum, vec!["value"])
                    .group_by(vec!["category"])
                    .build(),
            )
            .execute(vec![Batch { inner: record_batch.unwrap() }]),
        StorageBackend::Stdout,
    )
    .unwrap();
    write_stdout(&publication)
}

#[test]
fn test_count_null_metrics() {
    let record_batch = generate_dataset();
    let publication = run_publish(
        &MetricsManager::default()
            .transform(BuiltInMetricsBuilder::new().count_null("value", None))
            .execute(vec![Batch { inner: record_batch.unwrap() }]),
        StorageBackend::Stdout,
    )
    .unwrap();
    write_stdout(&publication)
}

#[test]
fn default_manager_has_identity_and_no_batches() {
    let manager = MetricsManager::default();
    assert!(manager.transformation().is_identity());
    assert!(manager.batches().is_empty());
}

#[test]
fn transform_replaces_the_transformation_and_keeps_the_batches() {
    let first = TransformationBuilder::new().select(vec!["id"]).build();
    let second = BuiltInMetricsBuilder::new().count_null("value", None);
    let manager = MetricsManager::default()
        .execute(staged(generate_dataset().unwrap()))
        .transform(first)
        .transform(second.clone());
    assert!(*manager.transformation() == second);
    assert_eq!(inner_batches(manager.batches()), vec![generate_dataset().unwrap()]);
}

#[test]
fn execute_replaces_the_batches_and_keeps_the_transformation() {
    let transformation = TransformationBuilder::new().group_by(vec!["category"]).build();
    let manager = MetricsManager::default()
        .transform(transformation.clone())
        .execute(staged(generate_dataset().unwrap()))
        .execute(Vec::new());
    assert!(manager.batches().is_empty());
    assert!(*manager.transformation() == transformation);
}

#[test]
fn execute_only_stages() {
    let manager = MetricsManager::default()
        .transform(TransformationBuilder::new().select(vec!["no_such_column"]).build())
        .execute(staged(generate_dataset().unwrap()));
    assert_eq!(inner_batches(manager.batches()), vec![generate_dataset().unwrap()]);
}

#[test]
fn cloned_manager_forks() {
    let base = MetricsManager::default().execute(staged(generate_dataset().unwrap()));
    let left = base.clone().transform(TransformationBuilder::new().select(vec!["id"]).build());
    let right = base.clone().execute(Vec::new());
    assert!(base.transformation().is_identity());
    assert_eq!(base.batches().len(), 1);
    assert_eq!(left.transformation().stages().len(), 1);
    assert_eq!(left.batches().len(), 1);
    assert!(right.batches().is_empty());
}

#[test]
fn identity_publish_to_stdout_writes_the_staged_batches() {
    let manager = MetricsManager::default().execute(staged(generate_dataset().unwrap()));
    match manager.publish(StorageBackend::Stdout) {
        PublishStep::Finished { outcome } => {
            let publication = outcome.unwrap();
            assert_eq!(publication.backend, StorageBackend::Stdout);
            assert_eq!(inner_batches(&publication.batches), vec![generate_dataset().unwrap()]);
        }
        other => panic!("expected the end of the publish, got {:?}", other),
    }
}

#[test]
fn publish_of_no_batches_needs_no_engine() {
    let manager = MetricsManager::default().transform(
        TransformationBuilder::new()
            .select(vec!["id"])
            .aggregate(AggregateType::Sum, vec!["id"])
            .build(),
    );
    match manager.publish(StorageBackend::Stdout) {
        PublishStep::Finished { outcome } => assert!(outcome.unwrap().batches.is_empty()),
        other => panic!("expected the end of the publish, got {:?}", other),
    }
}

#[test]
fn publish_with_stages_asks_for_the_engine_first() {
    let transformation = TransformationBuilder::new()
        .select(vec!["id", "value", "category"])
        .aggregate(AggregateType::Sum, vec!["value"])
        .group_by(vec!["category"])
        .build();
    let manager = MetricsManager::default()
        .transform(transformation.clone())
        .execute(staged(generate_dataset().unwrap()));
    match manager.publish(StorageBackend::File) {
        PublishStep::Query { plan, batches, storage_backend } => {
            assert!(plan == df_metrics::plan_query(&transformation));
            assert_eq!(inner_batches(&batches), vec![generate_dataset().unwrap()]);
            assert_eq!(storage_backend, StorageBackend::File);
        }
        other => panic!("expected a query, got {:?}", other),
    }
}

#[test]
fn publish_leaves_the_manager_as_it_was() {
    let manager = MetricsManager::default()
        .transform(BuiltInMetricsBuilder::new().count_null("value", None))
        .execute(staged(generate_dataset().unwrap()));
    let before = manager.transformation().clone();
    run_publish(&manager, StorageBackend::Stdout).unwrap();
    assert!(*manager.transformation() == before);
    assert_eq!(inner_batches(manager.batches()), vec![generate_dataset().unwrap()]);
}

#[test]
fn publish_twice_starts_with_the_same_step() {
    let manager = MetricsManager::default()
        .transform(TransformationBuilder::new().group_by(vec!["category"]).build())
        .execute(staged(generate_dataset().unwrap()));
    let first = manager.publish(StorageBackend::Stdout);
    let second = manager.publish(StorageBackend::Stdout);
    match (first, second) {
        (
            PublishStep::Query { plan, batches, storage_backend },
            PublishStep::Query { plan: again, batches: same, storage_backend: sink },
        ) => {
            assert!(plan == again);
            assert_eq!(inner_batches(&batches), inner_batches(&same));
            assert_eq!(storage_backend, sink);
        }
        other => panic!("expected two queries, got {:?}", other),
    }
}

#[test]
fn publish_twice_to_stdout_gives_the_same_groups() {
    let manager = MetricsManager::default()
        .transform(
            TransformationBuilder::new()
                .aggregate(AggregateType::Sum, vec!["value"])
                .group_by(vec!["category"])
                .build(),
        )
        .execute(staged(generate_dataset().unwrap()));
    let mut outputs = Vec::new();
    for _ in 0..2 {
        let publication = run_publish(&manager, StorageBackend::Stdout).unwrap();
        let mut groups = Vec::new();
        for batch in publication.batches.iter() {
            let sums = int_column(&batch.inner, "sum(value)");
            for (category, total) in text_column(&batch.inner, "category").into_iter().zip(sums) {
                groups.push((category, total));
            }
        }
        groups.sort();
        outputs.push(groups);
    }
    assert_eq!(outputs[0], outputs[1]);
    assert_eq!(outputs[0].len(), 2);
}

#[test]
fn sum_by_category_excludes_nulls() {
    let manager = MetricsManager::default()
        .transform(
            TransformationBuilder::new()
                .select(vec!["id", "value", "category"])
                .aggregate(AggregateType::Sum, vec!["value"])
                .group_by(vec!["category"])
                .build(),
        )
        .execute(staged(generate_dataset().unwrap()));
    let publication = run_publish(&manager, StorageBackend::Stdout).unwrap();
    assert_eq!(publication.backend, StorageBackend::Stdout);
    let mut groups = Vec::new();
    for batch in publication.batches.iter() {
        assert_eq!(batch.inner.num_columns(), 2);
        assert_eq!(batch.inner.schema().field(0).name(), "category");
        assert_eq!(batch.inner.schema().field(1).name(), "sum(value)");
        let sums = int_column(&batch.inner, "sum(value)");
        for (category, total) in text_column(&batch.inner, "category").into_iter().zip(sums) {
            groups.push((category, total));
        }
    }
    groups.sort();
    assert_eq!(groups, vec![("A".to_string(), Some(10)), ("B".to_string(), Some(5))]);
}

#[test]
fn count_null_reports_one_null() {
    let manager = MetricsManager::default()
        .transform(BuiltInMetricsBuilder::new().count_null("value", Some("missing")))
        .execute(staged(generate_dataset().unwrap()));
    let publication = run_publish(&manager, StorageBackend::Stdout).unwrap();
    let mut counts = Vec::new();
    for batch in publication.batches.iter() {
        assert_eq!(batch.inner.num_columns(), 1);
        counts.extend(int_column(&batch.inner, "missing"));
    }
    assert_eq!(counts, vec![Some(1)]);
}

#[test]
fn count_null_over_several_batches_counts_them_as_one_table() {
    let batches = vec![
        Batch { inner: generate_dataset().unwrap() },
        Batch { inner: generate_dataset().unwrap() },
    ];
    let manager = MetricsManager::default()
        .transform(BuiltInMetricsBuilder::new().count_null("value", Some("missing")))
        .execute(batches);
    let publication = run_publish(&manager, StorageBackend::Stdout).unwrap();
    let mut counts = Vec::new();
    for batch in publication.batches.iter() {
        counts.extend(int_column(&batch.inner, "missing"));
    }
    assert_eq!(counts, vec![Some(2)]);
}

#[test]
fn count_null_of_a_column_without_nulls_is_zero() {
    let manager = MetricsManager::default()
        .transform(BuiltInMetricsBuilder::new().count_null("id", Some("missing")))
        .execute(staged(generate_dataset().unwrap()));
    let publication = run_publish(&manager, StorageBackend::Stdout).unwrap();
    let mut counts = Vec::new();
    for batch in publication.batches.iter() {
        counts.extend(int_column(&batch.inner, "missing"));
    }
    assert_eq!(counts, vec![Some(0)]);
}

#[test]
fn select_restricts_and_reorders_the_columns() {
    let manager = MetricsManager::default()
        .transform(TransformationBuilder::new().select(vec!["category", "id"]).build())
        .execute(staged(generate_dataset().unwrap()));
    let publication = run_publish(&manager, StorageBackend::Stdout).unwrap();
    let mut ids = Vec::new();
    for batch in publication.batches.iter() {
        let schema = batch.inner.schema();
        assert_eq!(schema.fields().len(), 2);
        assert_eq!(schema.field(0).name(), "category");
        assert_eq!(schema.field(1).name(), "id");
        ids.extend(int_column(&batch.inner, "id"));
    }
    assert_eq!(ids, vec![Some(1), Some(2), Some(3)]);
}

#[test]
fn missing_column_fails_at_publish_with_the_engine_error() {
    let manager = MetricsManager::default()
        .transform(TransformationBuilder::new().select(vec!["no_such_column"]).build())
        .execute(staged(generate_dataset().unwrap()));
    match run_publish(&manager, StorageBackend::Stdout) {
        Err(error) => {
            assert!(matches!(error, MetricError::DataFusionError(_)));
            assert!(error.to_string().starts_with("DataFusionError: "));
        }
        Ok(publication) => panic!("expected the engine to fail, got {:?}", publication),
    }
}

#[test]
fn batches_of_different_schemas_fail_in_the_engine() {
    let other = RecordBatch::try_new(
        Arc::new(Schema::new(vec![Field::new("other", DataType::Utf8, false)])),
        vec![Arc::new(StringArray::from(vec!["x"])) as ArrayRef],
    )
    .unwrap();
    let manager = MetricsManager::default()
        .transform(TransformationBuilder::new().select(vec!["id"]).build())
        .execute(vec![Batch { inner: generate_dataset().unwrap() }, Batch { inner: other }]);
    let outcome = run_publish(&manager, StorageBackend::Stdout);
    assert!(matches!(outcome, Err(MetricError::DataFusionError(_))));
}

#[test]
fn unimplemented_backend_is_refused_without_the_engine_for_identity() {
    let manager = MetricsManager::default().execute(staged(generate_dataset().unwrap()));
    match manager.publish(StorageBackend::Queue) {
        PublishStep::Finished { outcome: Err(MetricError::StorageBackendNotSupported(name)) } => {
            assert_eq!(name, "Queue")
        }
        other => panic!("expected a refusal, got {:?}", other),
    }
}

#[test]
fn unimplemented_backend_is_refused_after_the_engine_ran() {
    let manager = MetricsManager::default()
        .transform(BuiltInMetricsBuilder::new().count_null("value", None))
        .execute(staged(generate_dataset().unwrap()));
    match run_publish(&manager, StorageBackend::Network) {
        Err(MetricError::StorageBackendNotSupported(name)) => assert_eq!(name, "Network"),
        other => panic!("expected a refusal, got {:?}", other),
    }
}

#[test]
fn engine_failure_comes_before_the_refusal_of_the_backend() {
    let cause = DataFusionError::Execution("broken".to_string());
    let outcome = finish_publish(StorageBackend::File, Err(cause));
    assert!(matches!(outcome, Err(MetricError::DataFusionError(_))));
}

#[test]
fn finish_publish_to_stdout_orders_the_answer_of_the_engine() {
    let answer = vec![
        Batch { inner: generate_dataset().unwrap() },
        Batch { inner: generate_dataset().unwrap().slice(0, 1) },
    ];
    let expected = inner_batches(&answer);
    let publication = finish_publish(StorageBackend::Stdout, Ok(answer)).unwrap();
    assert_eq!(publication.backend, StorageBackend::Stdout);
    assert_eq!(inner_batches(&publication.batches), expected);
    assert_eq!(publication.batches[1].inner.num_rows(), 1);
}

#[test]
fn identity_through_the_default_transformation() {
    let manager = MetricsManager::default()
        .transform(Transformation::default())
        .execute(staged(generate_dataset().unwrap()));
    let publication = run_publish(&manager, StorageBackend::Stdout).unwrap();
    assert_eq!(publication.batches.len(), 1);
    assert_eq!(publication.batches[0].inner.num_rows(), 3);
    assert_eq!(publication.batches[0].inner.schema(), generate_dataset().unwrap().schema());
}

#[test]
fn count_null_without_alias_is_named_after_the_metric() {
    let manager = MetricsManager::default()
        .transform(BuiltInMetricsBuilder::new().count_null("value", None))
        .execute(staged(generate_dataset().unwrap()));
    let publication = run_publish(&manager, StorageBackend::Stdout).unwrap();
    let mut counts = Vec::new();
    for batch in publication.batches.iter() {
        assert_eq!(batch.inner.schema().fields().len(), 1);
        counts.extend(int_column(&batch.inner, "count_null(value)"));
    }
    assert_eq!(counts, vec![Some(1)]);
}

#[test]
fn count_null_by_group() {
    let plan = QueryPlan {
        projection: Vec::new(),
        group_by: vec!["category".to_string()],
        measures: vec![df_metrics::Measure::Metric {
            metric: df_metrics::MetricType::CountNull,
            column: "value".to_string(),
            alias: Some("missing".to_string()),
        }],
    };
    let answer = run_engine(&plan, staged(generate_dataset().unwrap())).unwrap();
    let mut groups = Vec::new();
    for batch in answer.iter() {
        let counts = int_column(&batch.inner, "missing");
        for (category, count) in text_column(&batch.inner, "category").into_iter().zip(counts) {
            groups.push((category, count));
        }
    }
    groups.sort();
    assert_eq!(groups, vec![("A".to_string(), Some(1)), ("B".to_string(), Some(0))]);
}

#[test]
fn count_null_of_batches_without_rows_is_zero() {
    let empty = generate_dataset().unwrap().slice(0, 0);
    let manager = MetricsManager::default()
        .transform(BuiltInMetricsBuilder::new().count_null("value", Some("missing")))
        .execute(staged(empty));
    let publication = run_publish(&manager, StorageBackend::Stdout).unwrap();
    let mut counts = Vec::new();
    for batch in publication.batches.iter() {
        counts.extend(int_column(&batch.inner, "missing"));
    }
    assert_eq!(counts, vec![Some(0)]);
}

#[test]
fn query_is_lazy_and_fails_early_on_a_missing_column() {
    let plan = df_metrics::plan_query(&TransformationBuilder::new().select(vec!["nope"]).build());
    assert!(query(&plan, staged(generate_dataset().unwrap())).is_err());
    let fine = df_metrics::plan_query(&TransformationBuilder::new().select(vec!["id"]).build());
    assert!(query(&fine, staged(generate_dataset().unwrap())).is_ok());
}

#[test]
fn group_by_alone_gives_the_distinct_keys() {
    let manager = MetricsManager::default()
        .transform(TransformationBuilder::new().group_by(vec!["category"]).build())
        .execute(staged(generate_dataset().unwrap()));
    let publication = run_publish(&manager, StorageBackend::Stdout).unwrap();
    let mut keys = Vec::new();
    for batch in publication.batches.iter() {
        keys.extend(text_column(&batch.inner, "category"));
    }
    keys.sort();
    assert_eq!(keys, vec!["A".to_string(), "B".to_string()]);
}

fn read_frame(record_batch: RecordBatch) -> datafusion::dataframe::DataFrame {
    datafusion::prelude::SessionContext::new().read_batch(record_batch).unwrap()
}

fn collected(frame: datafusion::dataframe::DataFrame) -> Vec<RecordBatch> {
    let runtime = tokio::runtime::Builder::new_current_thread().build().unwrap();
    runtime.block_on(frame.collect()).unwrap()
}

#[test]
fn apply_no_calls_leaves_the_frame_as_it_is() {
    let frame = apply_calls(read_frame(generate_dataset().unwrap()), &Vec::new()).unwrap();
    assert_eq!(collected(frame), vec![generate_dataset().unwrap()]);
}

#[test]
fn apply_calls_projects_and_then_aggregates() {
    let transformation = TransformationBuilder::new()
        .select(vec!["value", "category"])
        .aggregate(AggregateType::Sum, vec!["value"])
        .group_by(vec!["category"])
        .build();
    let calls = plan_query(&transformation).calls();
    assert_eq!(calls.len(), 2);
    let frame = apply_calls(read_frame(generate_dataset().unwrap()), &calls).unwrap();
    let mut groups = Vec::new();
    for batch in collected(frame).iter() {
        assert_eq!(batch.schema().field(0).name(), "category");
        assert_eq!(batch.schema().field(1).name(), "sum(value)");
        let sums = int_column(batch, "sum(value)");
        for (category, total) in text_column(batch, "category").into_iter().zip(sums) {
            groups.push((category, total));
        }
    }
    groups.sort();
    assert_eq!(groups, vec![("A".to_string(), Some(10)), ("B".to_string(), Some(5))]);
}

#[test]
fn apply_calls_stops_at_the_first_refusal() {
    let transformation = TransformationBuilder::new()
        .select(vec!["no_such_column"])
        .aggregate(AggregateType::Sum, vec!["value"])
        .build();
    let calls = plan_query(&transformation).calls();
    let outcome = apply_calls(read_frame(generate_dataset().unwrap()), &calls);
    match outcome {
        Err(cause) => assert!(cause.to_string().contains("no_such_column")),
        Ok(_) => panic!("expected the projection to be refused"),
    }
}

#[test]
fn projection_applies_before_the_aggregation() {
    let transformation = TransformationBuilder::new()
        .select(vec!["category"])
        .aggregate(AggregateType::Sum, vec!["value"])
        .build();
    let manager =
        MetricsManager::default().transform(transformation).execute(staged(generate_dataset().unwrap()));
    let outcome = run_publish(&manager, StorageBackend::Stdout);
    assert!(matches!(outcome, Err(MetricError::DataFusionError(_))));
}

#[test]
fn query_reads_every_batch_in_order() {
    let whole = generate_dataset().unwrap();
    let batches = vec![
        Batch { inner: whole.slice(2, 1) },
        Batch { inner: whole.slice(0, 2) },
        Batch { inner: whole.slice(1, 1) },
    ];
    let plan = plan_query(&TransformationBuilder::new().select(vec!["id", "category"]).build());
    let frame = query(&plan, batches).unwrap();
    let mut ids = Vec::new();
    let mut categories = Vec::new();
    for batch in collected(frame).iter() {
        ids.extend(int_column(batch, "id"));
        categories.extend(text_column(batch, "category"));
    }
    assert_eq!(ids, vec![Some(3), Some(1), Some(2), Some(2)]);
    assert_eq!(categories, vec!["B", "A", "A", "A"]);
}

#[test]
fn query_without_calls_reads_the_batches_as_they_are() {
    let whole = generate_dataset().unwrap();
    let batches = vec![Batch { inner: whole.slice(0, 1) }, Batch { inner: whole.slice(1, 2) }];
    let plan = QueryPlan { projection: Vec::new(), group_by: Vec::new(), measures: Vec::new() };
    let frame = query(&plan, batches).unwrap();
    let mut ids = Vec::new();
    let mut rows = 0;
    for batch in collected(frame).iter() {
        assert_eq!(batch.schema(), whole.schema());
        rows += batch.num_rows();
        ids.extend(int_column(batch, "id"));
    }
    assert_eq!(rows, 3);
    assert_eq!(ids, vec![Some(1), Some(2), Some(3)]);
}
