//! The transformation model: stages, the immutable plan they form, and the
//! builders that assemble it.

use vstd::prelude::*;

verus! {

/// The aggregate functions a transformation can ask for.
#[derive(Clone, Copy, Debug, PartialEq, Eq, Structural)]
pub enum AggregateType {
    /// The sum of the non-null values of a column.
    Sum,
}

/// The predefined statistics a transformation can ask for.
#[derive(Clone, Copy, Debug, PartialEq, Eq, Structural)]
pub enum MetricType {
    /// The number of null values of a column.
    CountNull,
}

/// One operation of a transformation.
#[derive(Debug)]
pub enum Stage {
    /// Restricts the columns that take part, in the order given.
    Select { columns: Vec<String> },
    /// Computes one aggregate for each target column.
    Aggregate { aggregate: AggregateType, columns: Vec<String> },
    /// Partitions the rows by the values of the columns.
    GroupBy { columns: Vec<String> },
    /// Computes a predefined statistic of one column, under `alias` if one is given.
    BuiltInMetric { metric: MetricType, column: String, alias: Option<String> },
}

/// What a [`Stage`] stands for: the same operation over mathematical strings.
pub enum StageView {
    Select { columns: Seq<Seq<char>> },
    Aggregate { aggregate: AggregateType, columns: Seq<Seq<char>> },
    GroupBy { columns: Seq<Seq<char>> },
    BuiltInMetric { metric: MetricType, column: Seq<char>, alias: Option<Seq<char>> },
}

/// The names held by a list of strings, in order.
pub open spec fn names(columns: Seq<String>) -> Seq<Seq<char>> {
    columns.map_values(|name: String| name@)
}

/// The names held by a list of string slices, in order.
pub open spec fn slice_names(columns: Seq<&str>) -> Seq<Seq<char>> {
    columns.map_values(|name: &str| name@)
}

/// The name held by an optional string.
pub open spec fn optional_name(name: Option<String>) -> Option<Seq<char>> {
    match name {
        Some(text) => Some(text@),
        None => None,
    }
}

/// The stages held by a list of stages, in order.
pub open spec fn stage_views(stages: Seq<Stage>) -> Seq<StageView> {
    stages.map_values(|stage: Stage| stage@)
}

impl View for Stage {
    type V = StageView;

    open spec fn view(&self) -> StageView {
        match *self {
            Stage::Select { columns } => StageView::Select { columns: names(columns@) },
            Stage::Aggregate { aggregate, columns } => StageView::Aggregate {
                aggregate,
                columns: names(columns@),
            },
            Stage::GroupBy { columns } => StageView::GroupBy { columns: names(columns@) },
            Stage::BuiltInMetric { metric, column, alias } => StageView::BuiltInMetric {
                metric,
                column: column@,
                alias: optional_name(alias),
            },
        }
    }
}

/// Copies a list of names.
pub(crate) fn clone_names(columns: &Vec<String>) -> (copy: Vec<String>)
    ensures
        names(copy@) == names(columns@),
{
    let copy = columns.clone();
    assert(copy@ =~= columns@);
    copy
}

/// Turns borrowed names into owned ones, keeping their order.
fn own_names(columns: &Vec<&str>) -> (owned: Vec<String>)
    ensures
        names(owned@) == slice_names(columns@),
{
    let mut owned: Vec<String> = Vec::new();
    let mut i: usize = 0;
    while i < columns.len()
        invariant
            i <= columns.len(),
            owned.len() == i,
            forall|j: int| 0 <= j < i ==> owned@[j]@ == columns@[j]@,
        decreases columns.len() - i,
    {
        owned.push(columns[i].to_owned());
        i = i + 1;
    }
    assert(names(owned@) =~= slice_names(columns@));
    owned
}

impl Clone for Stage {
    fn clone(&self) -> (copy: Self)
        ensures
            copy@ == self@,
    {
        match self {
            Stage::Select { columns } => Stage::Select { columns: clone_names(columns) },
            Stage::Aggregate { aggregate, columns } => Stage::Aggregate {
                aggregate: *aggregate,
                columns: clone_names(columns),
            },
            Stage::GroupBy { columns } => Stage::GroupBy { columns: clone_names(columns) },
            Stage::BuiltInMetric { metric, column, alias } => Stage::BuiltInMetric {
                metric: *metric,
                column: column.clone(),
                alias: match alias {
                    Some(text) => Some(text.clone()),
                    None => None,
                },
            },
        }
    }
}

/// Whether two lists hold the same names in the same order.
pub(crate) fn same_names(left: &Vec<String>, right: &Vec<String>) -> (same: bool)
    ensures
        same == (names(left@) == names(right@)),
{
    if left.len() != right.len() {
        assert(names(left@).len() != names(right@).len());
        return false;
    }
    let mut i: usize = 0;
    while i < left.len()
        invariant
            i <= left.len(),
            left.len() == right.len(),
            forall|j: int| 0 <= j < i ==> left@[j]@ == right@[j]@,
        decreases left.len() - i,
    {
        if left[i] != right[i] {
            assert(names(left@)[i as int] != names(right@)[i as int]);
            return false;
        }
        i = i + 1;
    }
    assert(names(left@) =~= names(right@));
    true
}

/// Whether two optional names are both absent or both the same name.
pub(crate) fn same_optional_name(left: &Option<String>, right: &Option<String>) -> (same: bool)
    ensures
        same == (optional_name(*left) == optional_name(*right)),
{
    match left {
        Some(first) => match right {
            Some(second) => *first == *second,
            None => false,
        },
        None => right.is_none(),
    }
}

impl PartialEq for Stage {
    fn eq(&self, other: &Self) -> (equal: bool) {
        match self {
            Stage::Select { columns } => match other {
                Stage::Select { columns: others } => same_names(columns, others),
                _ => false,
            },
            Stage::Aggregate { aggregate, columns } => match other {
                Stage::Aggregate { aggregate: function, columns: others } => {
                    *aggregate == *function && same_names(columns, others)
                },
                _ => false,
            },
            Stage::GroupBy { columns } => match other {
                Stage::GroupBy { columns: others } => same_names(columns, others),
                _ => false,
            },
            Stage::BuiltInMetric { metric, column, alias } => match other {
                Stage::BuiltInMetric { metric: statistic, column: source, alias: given } => {
                    *metric == *statistic && *column == *source && same_optional_name(alias, given)
                },
                _ => false,
            },
        }
    }
}

impl vstd::std_specs::cmp::PartialEqSpecImpl for Stage {
    open spec fn obeys_eq_spec() -> bool {
        true
    }

    open spec fn eq_spec(&self, other: &Self) -> bool {
        self@ == other@
    }
}

/// Whether two lists hold the same stages in the same order.
fn same_stages(left: &Vec<Stage>, right: &Vec<Stage>) -> (same: bool)
    ensures
        same == (stage_views(left@) == stage_views(right@)),
{
    if left.len() != right.len() {
        assert(stage_views(left@).len() != stage_views(right@).len());
        return false;
    }
    let mut i: usize = 0;
    while i < left.len()
        invariant
            i <= left.len(),
            left.len() == right.len(),
            forall|j: int| 0 <= j < i ==> left@[j]@ == right@[j]@,
        decreases left.len() - i,
    {
        if left[i] != right[i] {
            assert(stage_views(left@)[i as int] != stage_views(right@)[i as int]);
            return false;
        }
        i = i + 1;
    }
    assert(stage_views(left@) =~= stage_views(right@));
    true
}

/// The name held by an optional string slice.
pub open spec fn optional_slice_name(name: Option<&str>) -> Option<Seq<char>> {
    match name {
        Some(text) => Some(text@),
        None => None,
    }
}

/// An immutable, ordered plan of stages. The plan without stages is the
/// identity: it passes batches through unchanged.
#[derive(Debug)]
pub struct Transformation {
    stages: Vec<Stage>,
}

impl View for Transformation {
    type V = Seq<StageView>;

    closed spec fn view(&self) -> Seq<StageView> {
        stage_views(self.stages@)
    }
}

impl Transformation {
    /// Whether the plan has no stages.
    pub open spec fn spec_is_identity(&self) -> bool {
        self@.len() == 0
    }

    /// Whether the plan has no stages.
    #[verifier::when_used_as_spec(spec_is_identity)]
    pub fn is_identity(&self) -> (identity: bool)
        ensures
            identity == self.spec_is_identity(),
    {
        self.stages.len() == 0
    }

    /// The stages of the plan, in the order in which they were recorded.
    pub fn stages(&self) -> (stages: &Vec<Stage>)
        ensures
            stage_views(stages@) == self@,
    {
        &self.stages
    }
}

impl Default for Transformation {
    /// The identity transformation.
    fn default() -> (identity: Self)
        ensures
            identity@ == Seq::<StageView>::empty(),
    {
        let identity = Transformation { stages: Vec::new() };
        assert(identity@ =~= Seq::<StageView>::empty());
        identity
    }
}

/// Copies a list of stages.
fn clone_stages(stages: &Vec<Stage>) -> (copy: Vec<Stage>)
    ensures
        stage_views(copy@) == stage_views(stages@),
{
    let copy = stages.clone();
    assert(stage_views(copy@) =~= stage_views(stages@));
    copy
}

impl Clone for Transformation {
    fn clone(&self) -> (copy: Self)
        ensures
            copy@ == self@,
    {
        Transformation { stages: clone_stages(&self.stages) }
    }
}

impl PartialEq for Transformation {
    fn eq(&self, other: &Self) -> (equal: bool) {
        same_stages(&self.stages, &other.stages)
    }
}

impl vstd::std_specs::cmp::PartialEqSpecImpl for Transformation {
    open spec fn obeys_eq_spec() -> bool {
        true
    }

    open spec fn eq_spec(&self, other: &Self) -> bool {
        self@ == other@
    }
}

/// Accumulates stages, one per call, and hands out the transformation they
/// form. Every method takes the builder by value and returns the extended
/// builder, so a builder that was cloned beforehand is never affected.
#[derive(Debug)]
pub struct TransformationBuilder {
    stages: Vec<Stage>,
}

impl View for TransformationBuilder {
    type V = Seq<StageView>;

    closed spec fn view(&self) -> Seq<StageView> {
        stage_views(self.stages@)
    }
}

impl Clone for TransformationBuilder {
    fn clone(&self) -> (copy: Self)
        ensures
            copy@ == self@,
    {
        TransformationBuilder { stages: clone_stages(&self.stages) }
    }
}

impl TransformationBuilder {
    /// A builder without stages.
    pub fn new() -> (builder: Self)
        ensures
            builder@ == Seq::<StageView>::empty(),
    {
        let builder = TransformationBuilder { stages: Vec::new() };
        assert(builder@ =~= Seq::<StageView>::empty());
        builder
    }

    /// Appends `stage` to the recorded stages.
    fn with_stage(self, stage: Stage) -> (builder: Self)
        ensures
            builder@ == self@.push(stage@),
    {
        let mut stages = self.stages;
        stages.push(stage);
        let builder = TransformationBuilder { stages };
        assert(builder@ =~= self@.push(stage@));
        builder
    }

    /// Appends a stage that restricts the columns to `columns`, in that order.
    /// The names are recorded as given; nothing is checked against a schema.
    pub fn select(self, columns: Vec<&str>) -> (builder: Self)
        ensures
            builder@ == self@.push(StageView::Select { columns: slice_names(columns@) }),
    {
        let columns = own_names(&columns);
        self.with_stage(Stage::Select { columns })
    }

    /// Appends a stage that computes the aggregate `kind` of each of `columns`.
    pub fn aggregate(self, kind: AggregateType, columns: Vec<&str>) -> (builder: Self)
        ensures
            builder@ == self@.push(
                StageView::Aggregate { aggregate: kind, columns: slice_names(columns@) },
            ),
    {
        let columns = own_names(&columns);
        self.with_stage(Stage::Aggregate { aggregate: kind, columns })
    }

    /// Appends a stage that partitions the rows by `columns`.
    pub fn group_by(self, columns: Vec<&str>) -> (builder: Self)
        ensures
            builder@ == self@.push(StageView::GroupBy { columns: slice_names(columns@) }),
    {
        let columns = own_names(&columns);
        self.with_stage(Stage::GroupBy { columns })
    }

    /// The transformation made of the stages recorded so far, in their order.
    /// Building executes nothing and leaves the builder as it was.
    pub fn build(&self) -> (transformation: Transformation)
        ensures
            transformation@ == self@,
    {
        Transformation { stages: clone_stages(&self.stages) }
    }
}

/// Makes ready-made transformations for common metrics.
#[derive(Clone, Copy, Debug)]
pub struct BuiltInMetricsBuilder {}

impl BuiltInMetricsBuilder {
    /// A builder of built-in metrics.
    pub fn new() -> Self {
        BuiltInMetricsBuilder {}
    }

    /// The transformation whose only stage counts the null values of `column`.
    /// With an `alias` the result column is to carry that name. Without one
    /// the stage records none, and the column will be named after the metric
    /// and its source, as in `count_null(value)`.
    pub fn count_null(&self, column: &str, alias: Option<&str>) -> (transformation: Transformation)
        ensures
            transformation@ == seq![
                StageView::BuiltInMetric {
                    metric: MetricType::CountNull,
                    column: column@,
                    alias: optional_slice_name(alias),
                },
            ],
    {
        let alias = match alias {
            Some(text) => Some(text.to_owned()),
            None => None,
        };
        let stage = Stage::BuiltInMetric {
            metric: MetricType::CountNull,
            column: column.to_owned(),
            alias,
        };
        let mut stages: Vec<Stage> = Vec::new();
        stages.push(stage);
        let transformation = Transformation { stages };
        assert(transformation@ =~= seq![stage@]);
        transformation
    }
}

/// Building is pure: whatever two calls of `build` on one builder return, the
/// two transformations hold the same stages in the same order.
pub proof fn lemma_build_is_pure(
    builder: TransformationBuilder,
    first: Transformation,
    second: Transformation,
)
    requires
        call_ensures(TransformationBuilder::build, (&builder,), first),
        call_ensures(TransformationBuilder::build, (&builder,), second),
    ensures
        first@ == second@,
{
}

} // verus!
