//! The execution adapter: what a transformation asks of the query engine.
//!
//! The adapter decides whether the engine is needed at all, turns the stages
//! into the one query it is to run, builds that query with the engine, and
//! wraps what comes back. Running the query is left to the caller, who has
//! the runtime to await it.

use crate::batch::Batch;
use crate::definition::{
    clone_names, names, optional_name, same_names, same_optional_name, stage_views,
    AggregateType, MetricType, Stage, StageView, Transformation,
};
use crate::engine::{
    aggregate, aggregated, alias, alias_expr, column, column_expr, count, count_expr, literal,
    literal_expr, minus, minus_expr, read_batches, select_columns, selected, session, sum,
    sum_expr, table_of,
};
use crate::error::{MetricError, MetricErrorView};
use datafusion::dataframe::DataFrame;
use datafusion::error::DataFusionError;
use datafusion::logical_expr::Expr;
use vstd::prelude::*;
use vstd::string::*;

verus! {

/// One output of a grouped aggregation.
#[derive(Debug)]
pub enum Measure {
    /// The aggregate of a column.
    Aggregate { aggregate: AggregateType, column: String },
    /// A predefined statistic of a column, named `alias` if one is given.
    Metric { metric: MetricType, column: String, alias: Option<String> },
}

/// What a [`Measure`] stands for.
pub enum MeasureView {
    Aggregate { aggregate: AggregateType, column: Seq<char> },
    Metric { metric: MetricType, column: Seq<char>, alias: Option<Seq<char>> },
}

impl View for Measure {
    type V = MeasureView;

    open spec fn view(&self) -> MeasureView {
        match *self {
            Measure::Aggregate { aggregate, column } => MeasureView::Aggregate {
                aggregate,
                column: column@,
            },
            Measure::Metric { metric, column, alias } => MeasureView::Metric {
                metric,
                column: column@,
                alias: optional_name(alias),
            },
        }
    }
}

/// The name of the output column of a measure. An aggregate is named after
/// its function and its column, as in `sum(value)`. A metric carries its
/// alias; without one it is named after the metric and its column, as in
/// `count_null(value)`.
pub open spec fn measure_name(measure: MeasureView) -> Seq<char> {
    match measure {
        MeasureView::Aggregate { aggregate: AggregateType::Sum, column } => "sum("@ + column
            + ")"@,
        MeasureView::Metric { metric: MetricType::CountNull, column, alias } => match alias {
            Some(name) => name,
            None => "count_null("@ + column + ")"@,
        },
    }
}

impl Measure {
    /// The name of the output column of the measure.
    pub fn name(&self) -> (name: String)
        ensures
            name@ == measure_name(self@),
    {
        match self {
            Measure::Aggregate { aggregate, column } => match aggregate {
                AggregateType::Sum => "sum(".to_owned().concat(column.as_str()).concat(")"),
            },
            Measure::Metric { metric, column, alias } => match alias {
                Some(name) => name.clone(),
                None => match metric {
                    MetricType::CountNull => "count_null(".to_owned().concat(
                        column.as_str(),
                    ).concat(")"),
                },
            },
        }
    }
}

/// The measures held by a list of measures, in order.
pub open spec fn measure_views(measures: Seq<Measure>) -> Seq<MeasureView> {
    measures.map_values(|measure: Measure| measure@)
}

/// An expression for the engine, held as plain values.
#[derive(Debug)]
pub enum Expression {
    /// The column of that exact name.
    Column { name: String },
    /// The constant `value`.
    Literal { value: i64 },
    /// The sum of `of` over a group; null values are skipped.
    Sum { of: Box<Expression> },
    /// The number of non-null values of `of` in a group.
    Count { of: Box<Expression> },
    /// `left` less `right`.
    Minus { left: Box<Expression>, right: Box<Expression> },
    /// `of`, under the output name `name`.
    Alias { of: Box<Expression>, name: String },
}

/// What an [`Expression`] stands for.
pub enum ExpressionView {
    Column { name: Seq<char> },
    Literal { value: i64 },
    Sum { of: Box<ExpressionView> },
    Count { of: Box<ExpressionView> },
    Minus { left: Box<ExpressionView>, right: Box<ExpressionView> },
    Alias { of: Box<ExpressionView>, name: Seq<char> },
}

/// What `expression` stands for.
pub open spec fn expression_view(expression: Expression) -> ExpressionView
    decreases expression,
{
    match expression {
        Expression::Column { name } => ExpressionView::Column { name: name@ },
        Expression::Literal { value } => ExpressionView::Literal { value },
        Expression::Sum { of } => ExpressionView::Sum { of: Box::new(expression_view(*of)) },
        Expression::Count { of } => ExpressionView::Count { of: Box::new(expression_view(*of)) },
        Expression::Minus { left, right } => ExpressionView::Minus {
            left: Box::new(expression_view(*left)),
            right: Box::new(expression_view(*right)),
        },
        Expression::Alias { of, name } => ExpressionView::Alias {
            of: Box::new(expression_view(*of)),
            name: name@,
        },
    }
}

impl View for Expression {
    type V = ExpressionView;

    open spec fn view(&self) -> ExpressionView {
        expression_view(*self)
    }
}

/// The expressions held by a list of expressions, in order.
pub open spec fn expression_views(expressions: Seq<Expression>) -> Seq<ExpressionView> {
    expressions.map_values(|expression: Expression| expression@)
}

/// The reference to the column `name`.
pub open spec fn column_of(name: Seq<char>) -> ExpressionView {
    ExpressionView::Column { name }
}

/// The number of rows of a group: the count of a constant, which is never
/// null.
pub open spec fn row_count() -> ExpressionView {
    ExpressionView::Count { of: Box::new(ExpressionView::Literal { value: 1 }) }
}

/// The engine's expression for a measure, under the measure's name. The sum
/// of a column is the engine's sum of it. The number of nulls of a column is
/// the number of rows less the number of its non-null values.
pub open spec fn measure_expression(measure: MeasureView) -> ExpressionView {
    let value = match measure {
        MeasureView::Aggregate { aggregate: AggregateType::Sum, column } => ExpressionView::Sum {
            of: Box::new(column_of(column)),
        },
        MeasureView::Metric { metric: MetricType::CountNull, column, alias } => {
            ExpressionView::Minus {
                left: Box::new(row_count()),
                right: Box::new(ExpressionView::Count { of: Box::new(column_of(column)) }),
            }
        },
    };
    ExpressionView::Alias { of: Box::new(value), name: measure_name(measure) }
}

impl Measure {
    /// The engine's expression for the measure.
    pub fn expression(&self) -> (expression: Expression)
        ensures
            expression@ == measure_expression(self@),
    {
        let value = match self {
            Measure::Aggregate { aggregate, column } => match aggregate {
                AggregateType::Sum => Expression::Sum {
                    of: Box::new(Expression::Column { name: column.clone() }),
                },
            },
            Measure::Metric { metric, column, alias: _ } => match metric {
                MetricType::CountNull => Expression::Minus {
                    left: Box::new(
                        Expression::Count { of: Box::new(Expression::Literal { value: 1 }) },
                    ),
                    right: Box::new(
                        Expression::Count {
                            of: Box::new(Expression::Column { name: column.clone() }),
                        },
                    ),
                },
            },
        };
        let expression = Expression::Alias { of: Box::new(value), name: self.name() };
        proof {
            reveal_with_fuel(expression_view, 5);
        }
        expression
    }
}

impl PartialEq for Measure {
    fn eq(&self, other: &Self) -> (equal: bool) {
        match self {
            Measure::Aggregate { aggregate, column } => match other {
                Measure::Aggregate { aggregate: function, column: source } => {
                    *aggregate == *function && *column == *source
                },
                _ => false,
            },
            Measure::Metric { metric, column, alias } => match other {
                Measure::Metric { metric: statistic, column: source, alias: given } => {
                    *metric == *statistic && *column == *source && same_optional_name(alias, given)
                },
                _ => false,
            },
        }
    }
}

impl vstd::std_specs::cmp::PartialEqSpecImpl for Measure {
    open spec fn obeys_eq_spec() -> bool {
        true
    }

    open spec fn eq_spec(&self, other: &Self) -> bool {
        self@ == other@
    }
}

/// Whether two lists hold the same measures in the same order.
fn same_measures(left: &Vec<Measure>, right: &Vec<Measure>) -> (same: bool)
    ensures
        same == (measure_views(left@) == measure_views(right@)),
{
    if left.len() != right.len() {
        assert(measure_views(left@).len() != measure_views(right@).len());
        return false;
    }
    let mut i: usize = 0;
    while i < left.len()
        invariant
            i <= left.len(),
            left.len() == right.len(),
            forall|j: int| 0 <= j < i ==> left@[j]@ == right@[j]@,
        decreases left.len() - i,
    {
        if left[i] != right[i] {
            assert(measure_views(left@)[i as int] != measure_views(right@)[i as int]);
            return false;
        }
        i = i + 1;
    }
    assert(measure_views(left@) =~= measure_views(right@));
    true
}

/// The measures that one aggregate stage asks for: the aggregate of each
/// target column, in the order of the columns.
pub open spec fn aggregates_of(aggregate: AggregateType, columns: Seq<Seq<char>>) -> Seq<
    MeasureView,
> {
    columns.map_values(|column: Seq<char>| MeasureView::Aggregate { aggregate, column })
}

/// The one query that stands for a transformation: a projection, followed,
/// if there is anything to group by or to measure, by one grouped
/// aggregation.
#[derive(Debug)]
pub struct QueryPlan {
    /// The columns to restrict the input to; none restricts nothing.
    pub projection: Vec<String>,
    /// The columns to partition the rows by.
    pub group_by: Vec<String>,
    /// The outputs to compute for each partition.
    pub measures: Vec<Measure>,
}

/// What a [`QueryPlan`] stands for.
pub struct QueryPlanView {
    pub projection: Seq<Seq<char>>,
    pub group_by: Seq<Seq<char>>,
    pub measures: Seq<MeasureView>,
}

impl View for QueryPlan {
    type V = QueryPlanView;

    open spec fn view(&self) -> QueryPlanView {
        QueryPlanView {
            projection: names(self.projection@),
            group_by: names(self.group_by@),
            measures: measure_views(self.measures@),
        }
    }
}

impl PartialEq for QueryPlan {
    fn eq(&self, other: &Self) -> (equal: bool) {
        same_names(&self.projection, &other.projection) && same_names(
            &self.group_by,
            &other.group_by,
        ) && same_measures(&self.measures, &other.measures)
    }
}

impl vstd::std_specs::cmp::PartialEqSpecImpl for QueryPlan {
    open spec fn obeys_eq_spec() -> bool {
        true
    }

    open spec fn eq_spec(&self, other: &Self) -> bool {
        self@ == other@
    }
}

impl QueryPlanView {
    /// The plan that asks for nothing.
    pub open spec fn empty() -> QueryPlanView {
        QueryPlanView { projection: Seq::empty(), group_by: Seq::empty(), measures: Seq::empty() }
    }

    /// The plan that asks for what `self` asks for and then for what `later`
    /// asks for, part by part.
    pub open spec fn followed_by(self, later: QueryPlanView) -> QueryPlanView {
        QueryPlanView {
            projection: self.projection + later.projection,
            group_by: self.group_by + later.group_by,
            measures: self.measures + later.measures,
        }
    }

    /// Whether the plan forms a grouped aggregation.
    pub open spec fn is_aggregation(self) -> bool {
        self.group_by.len() > 0 || self.measures.len() > 0
    }
}

/// What a single stage asks for.
pub open spec fn plan_of_stage(stage: StageView) -> QueryPlanView {
    match stage {
        StageView::Select { columns } => QueryPlanView {
            projection: columns,
            group_by: Seq::empty(),
            measures: Seq::empty(),
        },
        StageView::Aggregate { aggregate, columns } => QueryPlanView {
            projection: Seq::empty(),
            group_by: Seq::empty(),
            measures: aggregates_of(aggregate, columns),
        },
        StageView::GroupBy { columns } => QueryPlanView {
            projection: Seq::empty(),
            group_by: columns,
            measures: Seq::empty(),
        },
        StageView::BuiltInMetric { metric, column, alias } => QueryPlanView {
            projection: Seq::empty(),
            group_by: Seq::empty(),
            measures: seq![MeasureView::Metric { metric, column, alias }],
        },
    }
}

/// The query that stands for a list of stages. Each part of the plan
/// collects what the stages of its kind ask for, in stage order: the
/// projection the columns of the select stages, the grouping the columns of
/// the group-by stages, the measures the aggregates and the metrics.
pub open spec fn plan_of(stages: Seq<StageView>) -> QueryPlanView
    decreases stages.len(),
{
    if stages.len() == 0 {
        QueryPlanView::empty()
    } else {
        plan_of(stages.drop_last()).followed_by(plan_of_stage(stages.last()))
    }
}

/// Appends copies of `columns` to `target`.
fn with_names(target: Vec<String>, columns: &Vec<String>) -> (extended: Vec<String>)
    ensures
        names(extended@) == names(target@) + names(columns@),
{
    let ghost before = target@;
    let mut extended = target;
    let mut i: usize = 0;
    while i < columns.len()
        invariant
            i <= columns.len(),
            extended@.len() == before.len() + i,
            forall|j: int| 0 <= j < before.len() ==> extended@[j] == before[j],
            forall|j: int| 0 <= j < i ==> extended@[before.len() + j]@ == columns@[j]@,
        decreases columns.len() - i,
    {
        extended.push(columns[i].clone());
        i = i + 1;
    }
    assert(names(extended@) =~= names(before) + names(columns@));
    extended
}

/// Appends to `target` the aggregate of each of `columns`.
fn with_aggregates(target: Vec<Measure>, aggregate: AggregateType, columns: &Vec<String>) -> (extended:
    Vec<Measure>)
    ensures
        measure_views(extended@) == measure_views(target@) + aggregates_of(
            aggregate,
            names(columns@),
        ),
{
    let ghost before = target@;
    let mut extended = target;
    let mut i: usize = 0;
    while i < columns.len()
        invariant
            i <= columns.len(),
            extended@.len() == before.len() + i,
            forall|j: int| 0 <= j < before.len() ==> extended@[j] == before[j],
            forall|j: int|
                0 <= j < i ==> extended@[before.len() + j]@ == (MeasureView::Aggregate {
                    aggregate,
                    column: columns@[j]@,
                }),
        decreases columns.len() - i,
    {
        extended.push(Measure::Aggregate { aggregate, column: columns[i].clone() });
        i = i + 1;
    }
    assert(measure_views(extended@) =~= measure_views(before) + aggregates_of(
        aggregate,
        names(columns@),
    ));
    extended
}

/// Adds to `plan` what `stage` asks for.
fn with_stage(plan: QueryPlan, stage: &Stage) -> (extended: QueryPlan)
    ensures
        extended@ == plan@.followed_by(plan_of_stage(stage@)),
{
    let QueryPlan { projection, group_by, measures } = plan;
    let extended = match stage {
        Stage::Select { columns } => QueryPlan {
            projection: with_names(projection, columns),
            group_by,
            measures,
        },
        Stage::Aggregate { aggregate, columns } => QueryPlan {
            projection,
            group_by,
            measures: with_aggregates(measures, *aggregate, columns),
        },
        Stage::GroupBy { columns } => QueryPlan {
            projection,
            group_by: with_names(group_by, columns),
            measures,
        },
        Stage::BuiltInMetric { metric, column, alias } => {
            let alias = match alias {
                Some(text) => Some(text.clone()),
                None => None,
            };
            let mut measures = measures;
            measures.push(Measure::Metric { metric: *metric, column: column.clone(), alias });
            QueryPlan { projection, group_by, measures }
        },
    };
    assert(extended@.projection =~= plan@.followed_by(plan_of_stage(stage@)).projection);
    assert(extended@.group_by =~= plan@.followed_by(plan_of_stage(stage@)).group_by);
    assert(extended@.measures =~= plan@.followed_by(plan_of_stage(stage@)).measures);
    extended
}

/// The one query that stands for `transformation`.
pub fn plan_query(transformation: &Transformation) -> (plan: QueryPlan)
    ensures
        plan@ == plan_of(transformation@),
{
    let stages = transformation.stages();
    let mut plan = QueryPlan {
        projection: Vec::new(),
        group_by: Vec::new(),
        measures: Vec::new(),
    };
    assert(plan@.projection =~= QueryPlanView::empty().projection);
    assert(plan@.group_by =~= QueryPlanView::empty().group_by);
    assert(plan@.measures =~= QueryPlanView::empty().measures);
    let mut i: usize = 0;
    while i < stages.len()
        invariant
            i <= stages.len(),
            stage_views(stages@) == transformation@,
            plan@ == plan_of(transformation@.take(i as int)),
        decreases stages.len() - i,
    {
        plan = with_stage(plan, &stages[i]);
        proof {
            let done = transformation@.take(i + 1);
            assert(done.drop_last() =~= transformation@.take(i as int));
            assert(done.last() == stages@[i as int]@);
        }
        i = i + 1;
    }
    assert(transformation@.take(i as int) =~= transformation@);
    plan
}

/// One call for the engine to apply to the table it has read.
#[derive(Debug)]
pub enum EngineCall {
    /// Restrict the table to `columns`, in that order.
    SelectColumns { columns: Vec<String> },
    /// Group the table by `keys` and compute `measures` for each group.
    Aggregate { keys: Vec<Expression>, measures: Vec<Expression> },
}

/// What an [`EngineCall`] stands for.
pub enum EngineCallView {
    SelectColumns { columns: Seq<Seq<char>> },
    Aggregate { keys: Seq<ExpressionView>, measures: Seq<ExpressionView> },
}

impl View for EngineCall {
    type V = EngineCallView;

    open spec fn view(&self) -> EngineCallView {
        match *self {
            EngineCall::SelectColumns { columns } => EngineCallView::SelectColumns {
                columns: names(columns@),
            },
            EngineCall::Aggregate { keys, measures } => EngineCallView::Aggregate {
                keys: expression_views(keys@),
                measures: expression_views(measures@),
            },
        }
    }
}

/// The calls held by a list of calls, in order.
pub open spec fn call_views(calls: Seq<EngineCall>) -> Seq<EngineCallView> {
    calls.map_values(|call: EngineCall| call@)
}

/// The calls that a plan takes, in the order in which they apply: the
/// projection, if the plan names any column to restrict to, and then the
/// grouped aggregation, if the plan forms one. The aggregation groups by the
/// plan's columns, in order, and computes the expression of each measure, in
/// order.
pub open spec fn calls_of(plan: QueryPlanView) -> Seq<EngineCallView> {
    let projection = if plan.projection.len() > 0 {
        seq![EngineCallView::SelectColumns { columns: plan.projection }]
    } else {
        Seq::empty()
    };
    let aggregation = if plan.is_aggregation() {
        seq![
            EngineCallView::Aggregate {
                keys: plan.group_by.map_values(|name: Seq<char>| column_of(name)),
                measures: plan.measures.map_values(
                    |measure: MeasureView| measure_expression(measure),
                ),
            },
        ]
    } else {
        Seq::empty()
    };
    projection + aggregation
}

/// The references to the named columns, in order.
fn key_expressions(columns: &Vec<String>) -> (keys: Vec<Expression>)
    ensures
        expression_views(keys@) == names(columns@).map_values(|name: Seq<char>| column_of(name)),
{
    let mut keys: Vec<Expression> = Vec::new();
    let mut i: usize = 0;
    while i < columns.len()
        invariant
            i <= columns.len(),
            keys@.len() == i,
            forall|j: int| 0 <= j < i ==> keys@[j]@ == column_of(columns@[j]@),
        decreases columns.len() - i,
    {
        keys.push(Expression::Column { name: columns[i].clone() });
        i = i + 1;
    }
    assert(expression_views(keys@) =~= names(columns@).map_values(
        |name: Seq<char>| column_of(name),
    ));
    keys
}

/// The expressions of the measures, in order.
fn measure_expressions(measures: &Vec<Measure>) -> (expressions: Vec<Expression>)
    ensures
        expression_views(expressions@) == measure_views(measures@).map_values(
            |measure: MeasureView| measure_expression(measure),
        ),
{
    let mut expressions: Vec<Expression> = Vec::new();
    let mut i: usize = 0;
    while i < measures.len()
        invariant
            i <= measures.len(),
            expressions@.len() == i,
            forall|j: int| 0 <= j < i ==> expressions@[j]@ == measure_expression(measures@[j]@),
        decreases measures.len() - i,
    {
        expressions.push(measures[i].expression());
        i = i + 1;
    }
    assert(expression_views(expressions@) =~= measure_views(measures@).map_values(
        |measure: MeasureView| measure_expression(measure),
    ));
    expressions
}

impl QueryPlan {
    /// Whether the plan forms a grouped aggregation: whether there is
    /// anything to group by or to measure.
    pub fn is_aggregation(&self) -> (aggregation: bool)
        ensures
            aggregation == self@.is_aggregation(),
    {
        self.group_by.len() > 0 || self.measures.len() > 0
    }

    /// The calls that the plan takes, in the order in which they apply.
    pub fn calls(&self) -> (calls: Vec<EngineCall>)
        ensures
            call_views(calls@) == calls_of(self@),
    {
        let mut calls: Vec<EngineCall> = Vec::new();
        if self.projection.len() > 0 {
            calls.push(EngineCall::SelectColumns { columns: clone_names(&self.projection) });
        }
        if self.is_aggregation() {
            calls.push(
                EngineCall::Aggregate {
                    keys: key_expressions(&self.group_by),
                    measures: measure_expressions(&self.measures),
                },
            );
        }
        assert(call_views(calls@) =~= calls_of(self@));
        calls
    }
}

/// The engine's expression for `expression`: each part is made by the
/// engine's call for that part, on the engine's expressions for the parts
/// below it.
pub open spec fn lowered(expression: ExpressionView) -> Expr
    decreases expression,
{
    match expression {
        ExpressionView::Column { name } => column_expr(name),
        ExpressionView::Literal { value } => literal_expr(value),
        ExpressionView::Sum { of } => sum_expr(lowered(*of)),
        ExpressionView::Count { of } => count_expr(lowered(*of)),
        ExpressionView::Minus { left, right } => minus_expr(lowered(*left), lowered(*right)),
        ExpressionView::Alias { of, name } => alias_expr(lowered(*of), name),
    }
}

/// The engine's expressions for `expressions`, in order.
pub open spec fn lowered_all(expressions: Seq<ExpressionView>) -> Seq<Expr> {
    expressions.map_values(|expression: ExpressionView| lowered(expression))
}

/// What the engine makes of `frame` when `call` is applied to it.
pub open spec fn call_outcome(frame: DataFrame, call: EngineCallView) -> Result<
    DataFrame,
    DataFusionError,
> {
    match call {
        EngineCallView::SelectColumns { columns } => selected(frame, columns),
        EngineCallView::Aggregate { keys, measures } => aggregated(
            frame,
            lowered_all(keys),
            lowered_all(measures),
        ),
    }
}

/// What the engine makes of `frame` when `calls` are applied to it one after
/// the other: the frame after the last call, or the failure of the first
/// call that the engine refuses, after which no further call is made.
pub open spec fn applied(frame: DataFrame, calls: Seq<EngineCallView>) -> Result<
    DataFrame,
    DataFusionError,
>
    decreases calls.len(),
{
    if calls.len() == 0 {
        Ok(frame)
    } else {
        match call_outcome(frame, calls.first()) {
            Ok(next) => applied(next, calls.drop_first()),
            Err(cause) => Err(cause),
        }
    }
}

/// The outcome of a query, given what reading the batches gave: the failure
/// of the reading, or what the engine makes of the frame that was read when
/// the calls of `plan` are applied to it.
pub open spec fn query_outcome(
    read: Result<DataFrame, DataFusionError>,
    plan: QueryPlanView,
) -> Result<DataFrame, DataFusionError> {
    match read {
        Ok(frame) => applied(frame, calls_of(plan)),
        Err(cause) => Err(cause),
    }
}

/// Hands an expression to the engine, part by part.
fn lower(expression: &Expression) -> (expr: Expr)
    ensures
        expr == lowered(expression@),
    decreases expression,
{
    match expression {
        Expression::Column { name } => column(name.as_str()),
        Expression::Literal { value } => literal(*value),
        Expression::Sum { of } => sum(lower(of)),
        Expression::Count { of } => count(lower(of)),
        Expression::Minus { left, right } => minus(lower(left), lower(right)),
        Expression::Alias { of, name } => alias(lower(of), name.as_str()),
    }
}

/// Hands expressions to the engine, in order.
fn lower_all(expressions: &Vec<Expression>) -> (exprs: Vec<Expr>)
    ensures
        exprs@ == lowered_all(expression_views(expressions@)),
{
    let mut exprs: Vec<Expr> = Vec::new();
    let mut i: usize = 0;
    while i < expressions.len()
        invariant
            i <= expressions.len(),
            exprs@.len() == i,
            forall|j: int| 0 <= j < i ==> exprs@[j] == lowered(expressions@[j]@),
        decreases expressions.len() - i,
    {
        exprs.push(lower(&expressions[i]));
        i = i + 1;
    }
    assert(exprs@ =~= lowered_all(expression_views(expressions@)));
    exprs
}

/// Applies `calls` to `frame`, one after the other, and stops at the first
/// that the engine refuses.
pub fn apply_calls(frame: DataFrame, calls: &Vec<EngineCall>) -> (outcome: Result<
    DataFrame,
    DataFusionError,
>)
    ensures
        outcome == applied(frame, call_views(calls@)),
{
    let ghost all = call_views(calls@);
    let ghost start = frame;
    let mut current = frame;
    let mut i: usize = 0;
    assert(all.skip(0) =~= all);
    while i < calls.len()
        invariant
            i <= calls.len(),
            all == call_views(calls@),
            start == frame,
            applied(start, all) == applied(current, all.skip(i as int)),
        decreases calls.len() - i,
    {
        let ghost before = current;
        let ghost rest = all.skip(i as int);
        let step = match &calls[i] {
            EngineCall::SelectColumns { columns } => select_columns(current, columns),
            EngineCall::Aggregate { keys, measures } => aggregate(
                current,
                lower_all(keys),
                lower_all(measures),
            ),
        };
        proof {
            assert(rest.first() == calls@[i as int]@);
            assert(rest.drop_first() =~= all.skip(i + 1));
            assert(step == call_outcome(before, rest.first()));
        }
        match step {
            Ok(next) => {
                current = next;
            },
            Err(cause) => {
                return Err(cause);
            },
        }
        i = i + 1;
    }
    Ok(current)
}

/// Builds, with the engine, the lazy query that runs `plan` over `batches`;
/// the caller collects it. The engine is made to read the batches, in order,
/// as one table. Where it refuses to, its failure is returned. Otherwise the
/// calls of the plan, as [`QueryPlan::calls`] lists them, are applied to the
/// frame that was read.
///
/// Whether the reading succeeds is the engine's to decide: it finds out
/// whether the batches agree on a schema. The contract holds of whatever the
/// reading gave: a frame that was read reads exactly `batches`, in their
/// order, and the outcome is what follows from the reading.
pub fn query(plan: &QueryPlan, batches: Vec<Batch>) -> (outcome: Result<DataFrame, DataFusionError>)
    ensures
        exists|read: Result<DataFrame, DataFusionError>|
            (read matches Ok(frame) ==> table_of(frame) == batches@) && outcome
                == #[trigger] query_outcome(read, plan@),
{
    let calls = plan.calls();
    let context = session();
    let read = read_batches(&context, batches);
    let ghost given = read;
    let outcome = match read {
        Ok(frame) => apply_calls(frame, &calls),
        Err(cause) => Err(cause),
    };
    assert(outcome == query_outcome(given, plan@));
    outcome
}

/// The plan of stages laid end to end asks for what the plan of the first
/// stages asks for, followed by what the plan of the later stages asks for.
pub proof fn lemma_plan_of_concat(first: Seq<StageView>, later: Seq<StageView>)
    ensures
        plan_of(first + later) == plan_of(first).followed_by(plan_of(later)),
    decreases later.len(),
{
    let whole = plan_of(first + later);
    let parts = plan_of(first).followed_by(plan_of(later));
    if later.len() == 0 {
        assert(first + later =~= first);
    } else {
        lemma_plan_of_concat(first, later.drop_last());
        assert((first + later).drop_last() =~= first + later.drop_last());
        assert((first + later).last() == later.last());
    }
    assert(whole.projection =~= parts.projection);
    assert(whole.group_by =~= parts.group_by);
    assert(whole.measures =~= parts.measures);
}

/// Recording one more stage adds to the plan what that stage asks for and
/// leaves what was asked for before in place.
pub proof fn lemma_plan_of_push(stages: Seq<StageView>, stage: StageView)
    ensures
        plan_of(stages.push(stage)) == plan_of(stages).followed_by(plan_of_stage(stage)),
{
    assert(stages.push(stage).drop_last() =~= stages);
}

/// What has to happen for a transformation to be applied to batches.
#[derive(Debug)]
pub enum Execution {
    /// The result is known without the engine: it is `batches`.
    Ready { batches: Vec<Batch> },
    /// The engine is to run `plan` over `batches`, taken in their order as
    /// one table.
    Query { plan: QueryPlan, batches: Vec<Batch> },
}

/// What an [`Execution`] stands for.
pub enum ExecutionView {
    Ready { batches: Seq<Batch> },
    Query { plan: QueryPlanView, batches: Seq<Batch> },
}

impl View for Execution {
    type V = ExecutionView;

    open spec fn view(&self) -> ExecutionView {
        match *self {
            Execution::Ready { batches } => ExecutionView::Ready { batches: batches@ },
            Execution::Query { plan, batches } => ExecutionView::Query {
                plan: plan@,
                batches: batches@,
            },
        }
    }
}

/// What applying `stages` to `batches` takes. Nothing is asked of the engine
/// where there are no batches, whose result is no batches, nor where there
/// are no stages, whose result is the batches as they are. Otherwise the
/// engine is to run the query that stands for the stages.
pub open spec fn execution_of(batches: Seq<Batch>, stages: Seq<StageView>) -> ExecutionView {
    if batches.len() == 0 || stages.len() == 0 {
        ExecutionView::Ready { batches }
    } else {
        ExecutionView::Query { plan: plan_of(stages), batches }
    }
}

/// Applies `transformation` to `batches` as far as that can be done without
/// the engine, and says what is left for the engine to do.
///
/// Whether the batches agree on a schema, and whether the columns that the
/// stages name exist, is for the engine to find out when it runs the query.
pub fn execute(batches: Vec<Batch>, transformation: &Transformation) -> (execution: Execution)
    ensures
        execution@ == execution_of(batches@, transformation@),
        transformation@.len() == 0 ==> execution@ == (ExecutionView::Ready { batches: batches@ }),
        batches@.len() == 0 ==> execution@ == (ExecutionView::Ready {
            batches: Seq::<Batch>::empty(),
        }),
{
    if batches.len() == 0 || transformation.is_identity() {
        assert(batches@.len() == 0 ==> batches@ =~= Seq::<Batch>::empty());
        Execution::Ready { batches }
    } else {
        Execution::Query { plan: plan_query(transformation), batches }
    }
}

/// What the engine's answer stands for once it is wrapped.
pub open spec fn completion_view(completion: Result<Vec<Batch>, MetricError>) -> Result<
    Seq<Batch>,
    MetricErrorView,
> {
    match completion {
        Ok(batches) => Ok(batches@),
        Err(error) => Err(error@),
    }
}

/// The outcome of an execution, given the engine's answer: the batches it
/// returned, all of them and in its order, or its failure as the cause of a
/// [`MetricError::DataFusionError`].
pub open spec fn completion_of(answer: Result<Vec<Batch>, DataFusionError>) -> Result<
    Seq<Batch>,
    MetricErrorView,
> {
    match answer {
        Ok(batches) => Ok(batches@),
        Err(cause) => Err(MetricErrorView::DataFusionError(cause)),
    }
}

/// Ends an execution that went through the engine. A failure of the engine
/// becomes the error of the execution and no batch is returned with it.
pub fn complete(answer: Result<Vec<Batch>, DataFusionError>) -> (completion: Result<
    Vec<Batch>,
    MetricError,
>)
    ensures
        completion_view(completion) == completion_of(answer),
        completion is Ok <==> answer is Ok,
{
    match answer {
        Ok(batches) => Ok(batches),
        Err(cause) => Err(MetricError::DataFusionError(cause)),
    }
}

/// The identity transformation passes every list of batches through as it
/// is: the same batches, in the same order, and so with the schema and the
/// rows they had.
pub proof fn lemma_identity_passes_through(
    batches: Vec<Batch>,
    transformation: Transformation,
    execution: Execution,
)
    requires
        call_ensures(execute, (batches, &transformation), execution),
        transformation@.len() == 0,
    ensures
        execution@ == (ExecutionView::Ready { batches: batches@ }),
{
}

/// Applied to no batches, every transformation yields no batches, and never
/// an error.
pub proof fn lemma_no_batches_yield_none(
    batches: Vec<Batch>,
    transformation: Transformation,
    execution: Execution,
)
    requires
        call_ensures(execute, (batches, &transformation), execution),
        batches@.len() == 0,
    ensures
        execution@ == (ExecutionView::Ready { batches: Seq::<Batch>::empty() }),
{
}

} // verus!
