//! The calls into the query engine. Each function here makes exactly one
//! call. What the engine returns is carried on unread. Where a call's result
//! depends on its arguments alone, the result has a name, so that contracts
//! can say which calls were made on what; nothing else is claimed of it. A
//! session and the frame that a reading gives have no name: a session
//! carries a random id and a reading the time at which it was made. Of a
//! reading only the table that it holds is named.

use crate::batch::Batch;
use crate::definition::names;
use datafusion::dataframe::DataFrame;
use datafusion::error::DataFusionError;
use datafusion::execution::context::SessionContext;
use datafusion::logical_expr::Expr;
use vstd::prelude::*;

verus! {

/// An expression of the engine, carried through unread.
#[verifier::external_type_specification]
#[verifier::external_body]
pub struct ExExpr(Expr);

/// A lazy query of the engine, carried through unread. Nothing runs before
/// the caller collects it.
#[verifier::external_type_specification]
#[verifier::external_body]
pub struct ExDataFrame(DataFrame);

/// A session of the engine, carried through unread.
#[verifier::external_type_specification]
#[verifier::external_body]
pub struct ExSessionContext(SessionContext);

/// What `datafusion::logical_expr::ident` returns for `name`.
pub uninterp spec fn column_expr(name: Seq<char>) -> Expr;

/// What `datafusion::logical_expr::lit` returns for `value`.
pub uninterp spec fn literal_expr(value: i64) -> Expr;

/// What `datafusion::functions_aggregate::expr_fn::sum` returns for `value`.
pub uninterp spec fn sum_expr(value: Expr) -> Expr;

/// What `datafusion::functions_aggregate::expr_fn::count` returns for
/// `value`.
pub uninterp spec fn count_expr(value: Expr) -> Expr;

/// What the subtraction operator of `Expr` returns for `left` and `right`.
pub uninterp spec fn minus_expr(left: Expr, right: Expr) -> Expr;

/// What `Expr::alias` returns for `value` and `name`.
pub uninterp spec fn alias_expr(value: Expr, name: Seq<char>) -> Expr;

/// The batches of the table that `frame` reads: those of the one partition
/// of the in-memory table under its scan, in order. It is said only of a
/// frame as `SessionContext::read_batches` returned it, never of a frame
/// after a later call.
pub uninterp spec fn table_of(frame: DataFrame) -> Seq<Batch>;

/// What `DataFrame::select_columns` returns for `frame` and `columns`.
pub uninterp spec fn selected(frame: DataFrame, columns: Seq<Seq<char>>) -> Result<
    DataFrame,
    DataFusionError,
>;

/// What `DataFrame::aggregate` returns for `frame`, `keys` and `measures`.
pub uninterp spec fn aggregated(frame: DataFrame, keys: Seq<Expr>, measures: Seq<Expr>) -> Result<
    DataFrame,
    DataFusionError,
>;

/// Calls `datafusion::logical_expr::ident`, which makes the reference to the
/// column of that exact name. Not proved: that the result depends on the
/// name alone.
#[verifier::external_body]
pub(crate) fn column(name: &str) -> (expr: Expr)
    ensures
        expr == column_expr(name@),
{
    datafusion::logical_expr::ident(name)
}

/// Calls `datafusion::logical_expr::lit`, which makes the constant `value`.
/// Not proved: that the result depends on the value alone.
#[verifier::external_body]
pub(crate) fn literal(value: i64) -> (expr: Expr)
    ensures
        expr == literal_expr(value),
{
    datafusion::logical_expr::lit(value)
}

/// Calls `datafusion::functions_aggregate::expr_fn::sum`, which makes the sum
/// of `value` over a group. Not proved: that the result depends on `value`
/// alone.
#[verifier::external_body]
pub(crate) fn sum(value: Expr) -> (expr: Expr)
    ensures
        expr == sum_expr(value),
{
    datafusion::functions_aggregate::expr_fn::sum(value)
}

/// Calls `datafusion::functions_aggregate::expr_fn::count`, which makes the
/// number of non-null values of `value` in a group. Not proved: that the
/// result depends on `value` alone.
#[verifier::external_body]
pub(crate) fn count(value: Expr) -> (expr: Expr)
    ensures
        expr == count_expr(value),
{
    datafusion::functions_aggregate::expr_fn::count(value)
}

/// Calls the subtraction operator of `Expr`, which makes `left - right`. Not
/// proved: that the result depends on the two operands alone.
#[verifier::external_body]
pub(crate) fn minus(left: Expr, right: Expr) -> (expr: Expr)
    ensures
        expr == minus_expr(left, right),
{
    left - right
}

/// Calls `Expr::alias`, which makes `value` under the output name `name`. Not
/// proved: that the result depends on `value` and `name` alone.
#[verifier::external_body]
pub(crate) fn alias(value: Expr, name: &str) -> (expr: Expr)
    ensures
        expr == alias_expr(value, name@),
{
    value.alias(name)
}

/// Calls `SessionContext::new`, which makes a session with the default
/// configuration. Nothing is claimed of the session.
#[verifier::external_body]
pub(crate) fn session() -> SessionContext {
    SessionContext::new()
}

/// Calls `SessionContext::read_batches`, which makes the query that reads
/// `batches`, in order, as one table with the schema of the first batch, or
/// fails where a batch does not fit that schema. Not proved: that a frame
/// that comes back reads exactly `batches`, in their order, as the one
/// partition of its table. Whether one comes back, and the rest of what it
/// holds, is left open.
#[verifier::external_body]
pub(crate) fn read_batches(session: &SessionContext, batches: Vec<Batch>) -> (outcome: Result<
    DataFrame,
    DataFusionError,
>)
    ensures
        outcome matches Ok(frame) ==> table_of(frame) == batches@,
{
    session.read_batches(batches.into_iter().map(|batch| batch.inner))
}

/// Calls `DataFrame::select_columns`, which restricts `frame` to the named
/// columns, or fails where the frame has no column of one of the names. Not
/// proved: that the outcome depends on the frame and the names alone.
#[verifier::external_body]
pub(crate) fn select_columns(frame: DataFrame, columns: &Vec<String>) -> (outcome: Result<
    DataFrame,
    DataFusionError,
>)
    ensures
        outcome == selected(frame, names(columns@)),
{
    let names: Vec<&str> = columns.iter().map(|name| name.as_str()).collect();
    frame.select_columns(&names)
}

/// Calls `DataFrame::aggregate`, which groups `frame` by `keys` and computes
/// `measures` for each group, or fails where the engine refuses an
/// expression. Not proved: that the outcome depends on the frame and the
/// expressions alone.
#[verifier::external_body]
pub(crate) fn aggregate(frame: DataFrame, keys: Vec<Expr>, measures: Vec<Expr>) -> (outcome:
    Result<DataFrame, DataFusionError>)
    ensures
        outcome == aggregated(frame, keys@, measures@),
{
    frame.aggregate(keys, measures)
}

} // verus!
