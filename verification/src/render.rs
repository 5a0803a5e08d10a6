//! Writing a plan as a query for a data source.

use vstd::prelude::*;
use vstd::string::*;
use crate::backend::{event_time_column, event_time_text, AnalyticsDataSource, QueryValue, QueryValueView};
use crate::dimension::{DimensionValue, DimensionValueView, PaymentDimensions};
use crate::error::{MetricsError, MetricsErrorView, MetricsResult};
use crate::granularity::Granularity;
use crate::plan::{
    GroupKey, Measure, MeasureFunction, Predicate, PredicateView, QueryPlan, QueryPlanView,
    SelectColumn,
};
use crate::text::{join, joined};

verus! {

/// A query as a data source takes it, with the parts it was written from.
#[derive(Debug)]
pub struct CompiledQuery {
    /// The plan that the query was written from.
    pub plan: QueryPlan,
    /// The dimensions that the query groups by.
    pub dimensions: Vec<PaymentDimensions>,
    /// The granularity of the buckets, if there is one.
    pub granularity: Option<Granularity>,
    /// The expressions of the columns, in the order of the plan.
    pub select: Vec<String>,
    /// The table that is read.
    pub collection: String,
    /// The predicates, all of which a payment must meet.
    pub predicates: Vec<String>,
    /// The expressions that the payments are grouped by.
    pub group_by: Vec<String>,
    /// The whole query.
    pub statement: String,
}

/// Mathematical model of a [`CompiledQuery`].
pub struct CompiledQueryView {
    pub plan: QueryPlanView,
    pub dimensions: Seq<PaymentDimensions>,
    pub granularity: Option<Granularity>,
    pub select: Seq<Seq<char>>,
    pub collection: Seq<char>,
    pub predicates: Seq<Seq<char>>,
    pub group_by: Seq<Seq<char>>,
    pub statement: Seq<char>,
}

impl DeepView for CompiledQuery {
    type V = CompiledQueryView;

    open spec fn deep_view(&self) -> CompiledQueryView {
        CompiledQueryView {
            plan: self.plan@,
            dimensions: self.dimensions@,
            granularity: self.granularity,
            select: self.select.deep_view(),
            collection: self.collection@,
            predicates: self.predicates.deep_view(),
            group_by: self.group_by.deep_view(),
            statement: self.statement@,
        }
    }
}

impl View for CompiledQuery {
    type V = CompiledQueryView;

    open spec fn view(&self) -> CompiledQueryView {
        self.deep_view()
    }
}

/// The outcome of a compilation as a mathematical value.
pub open spec fn outcome(r: MetricsResult<CompiledQuery>) -> Result<
    CompiledQueryView,
    MetricsErrorView,
> {
    match r {
        Ok(query) => Ok(query@),
        Err(e) => Err(e@),
    }
}

/// The texts of a list where every item has one; none where an item has none.
pub open spec fn all_written(items: Seq<Option<Seq<char>>>) -> Option<Seq<Seq<char>>> {
    if forall|i: int| 0 <= i < items.len() ==> (#[trigger] items[i]) is Some {
        Some(items.map_values(|item: Option<Seq<char>>| item.unwrap()))
    } else {
        None
    }
}

/// An expression under the name that its column has in the result.
pub open spec fn aliased(expression: Seq<char>, alias: Seq<char>) -> Seq<char> {
    expression + " AS "@ + alias
}

/// Writes an expression under the name that its column has in the result.
pub fn write_aliased(expression: String, alias: &str) -> (text: String)
    ensures
        text@ == aliased(expression@, alias@),
{
    let mut text = expression;
    text.append(" AS ");
    text.append(alias);
    text
}

/// Name of the column that carries the start of the bucket.
pub open spec fn start_bucket_text() -> Seq<char> {
    "start_bucket"@
}

/// Name of the column that carries the end of the bucket.
pub open spec fn end_bucket_text() -> Seq<char> {
    "end_bucket"@
}

/// The expression of a measure, if the data source has its function.
pub open spec fn measure_text<T: AnalyticsDataSource>(source: &T, measure: Measure) -> Option<
    Seq<char>,
> {
    let written = match measure.function {
        MeasureFunction::Aggregate(f) => source.aggregate_text(f, measure.source.column_text()),
        MeasureFunction::Window(f) => source.window_text(f, measure.source.column_text()),
    };
    match written {
        Some(expression) => Some(aliased(expression, measure.field.alias_text())),
        None => None,
    }
}

/// The expression of a column of the result, if the data source can write it.
pub open spec fn select_text<T: AnalyticsDataSource>(source: &T, column: SelectColumn) -> Option<
    Seq<char>,
> {
    match column {
        SelectColumn::Dimension(d) => Some(d.column_text()),
        SelectColumn::Measure(m) => measure_text(source, m),
        SelectColumn::BucketStart(g) => match source.bucketing(g) {
            Some(b) => Some(aliased(b.start, start_bucket_text())),
            None => None,
        },
        SelectColumn::BucketEnd(g) => match source.bucketing(g) {
            Some(b) => Some(aliased(b.end, end_bucket_text())),
            None => None,
        },
    }
}

/// The expression of a group key, if the data source can write it.
pub open spec fn group_text<T: AnalyticsDataSource>(source: &T, key: GroupKey) -> Option<
    Seq<char>,
> {
    match key {
        GroupKey::Dimension(d) => Some(d.column_text()),
        GroupKey::Bucket(g) => match source.bucketing(g) {
            Some(b) => Some(b.start),
            None => None,
        },
    }
}

/// A value of a dimension as a value of a query.
pub open spec fn as_query_value(value: DimensionValueView) -> QueryValueView {
    match value {
        DimensionValueView::Text(t) => QueryValueView::Text(t),
        DimensionValueView::Flag(b) => QueryValueView::Flag(b),
    }
}

/// A value of a dimension as a value of a query.
pub fn to_query_value(value: &DimensionValue) -> (r: QueryValue)
    ensures
        r@ == as_query_value(value@),
{
    match value {
        DimensionValue::Text(t) => QueryValue::Text(t.clone()),
        DimensionValue::Flag(b) => QueryValue::Flag(*b),
    }
}

/// `column = literal`.
pub open spec fn comparison_text(column: Seq<char>, literal: Seq<char>) -> Seq<char> {
    column + " = "@ + literal
}

/// The condition that a column holds one of the values with the given
/// literals: the comparisons with each, joined by `OR`, between brackets. With
/// no value, a condition that nothing meets.
pub open spec fn one_of_text(column: Seq<char>, literals: Seq<Seq<char>>) -> Seq<char> {
    if literals.len() == 0 {
        "(1 = 0)"@
    } else {
        "("@ + joined(
            literals.map_values(|literal: Seq<char>| comparison_text(column, literal)),
            " OR "@,
        ) + ")"@
    }
}

/// Writes the condition that a column holds one of the values with the given
/// literals.
pub fn write_one_of(column: &str, literals: &Vec<String>) -> (text: String)
    ensures
        text@ == one_of_text(column@, literals.deep_view()),
{
    if literals.len() == 0 {
        return String::from_str("(1 = 0)");
    }
    let mut comparisons: Vec<String> = Vec::new();
    let mut i: usize = 0;
    while i < literals.len()
        invariant
            i <= literals.len(),
            comparisons@.len() == i,
            forall|k: int|
                0 <= k < i ==> (#[trigger] comparisons@[k])@ == comparison_text(
                    column@,
                    literals@[k]@,
                ),
        decreases literals.len() - i,
    {
        let mut comparison = String::from_str(column);
        comparison.append(" = ");
        comparison.append(literals[i].as_str());
        comparisons.push(comparison);
        i += 1;
    }
    proof {
        assert(comparisons.deep_view() =~= literals.deep_view().map_values(
            |literal: Seq<char>| comparison_text(column@, literal),
        ));
    }
    let mut text = String::from_str("(");
    text.append(join(&comparisons, " OR ").as_str());
    text.append(")");
    text
}

/// The condition that a payment was made in a time range, from the literals
/// of the bounds of the range.
pub open spec fn within_text(start: Seq<char>, end: Seq<char>) -> Seq<char> {
    "("@ + event_time_text() + " >= "@ + start + " AND "@ + event_time_text() + " < "@ + end
        + ")"@
}

/// Writes the condition that a payment was made in a time range.
pub fn write_within(start: &str, end: &str) -> (text: String)
    ensures
        text@ == within_text(start@, end@),
{
    let mut text = String::from_str("(");
    text.append(event_time_column());
    text.append(" >= ");
    text.append(start);
    text.append(" AND ");
    text.append(event_time_column());
    text.append(" < ");
    text.append(end);
    text.append(")");
    text
}

/// The literals of the values, if the data source can write each of them.
pub open spec fn literals_of<T: AnalyticsDataSource>(
    source: &T,
    values: Seq<DimensionValueView>,
) -> Option<Seq<Seq<char>>> {
    all_written(values.map_values(|v: DimensionValueView| source.value_text(as_query_value(v))))
}

/// The text of a predicate, if the data source can write each of its values.
pub open spec fn predicate_text<T: AnalyticsDataSource>(
    source: &T,
    predicate: PredicateView,
) -> Option<Seq<char>> {
    match predicate {
        PredicateView::OneOf { column, values } => match literals_of(source, values) {
            Some(literals) => Some(one_of_text(column.column_text(), literals)),
            None => None,
        },
        PredicateView::Within { start, end } => match (
            source.value_text(QueryValueView::Instant(start)),
            source.value_text(QueryValueView::Instant(end)),
        ) {
            (Some(from), Some(to)) => Some(within_text(from, to)),
            _ => None,
        },
    }
}

/// The whole query: what it selects, from where, which payments it reads
/// (those that meet every predicate), and how it groups them.
pub open spec fn statement_text(
    select: Seq<Seq<char>>,
    collection: Seq<char>,
    predicates: Seq<Seq<char>>,
    group_by: Seq<Seq<char>>,
) -> Seq<char> {
    let clauses = "SELECT "@ + joined(select, ", "@) + " FROM "@ + collection + " WHERE "@
        + joined(predicates, " AND "@);
    if group_by.len() > 0 {
        clauses + " GROUP BY "@ + joined(group_by, ", "@)
    } else {
        clauses
    }
}

/// Writes the whole query from its parts.
pub fn write_statement(
    select: &Vec<String>,
    collection: &str,
    predicates: &Vec<String>,
    group_by: &Vec<String>,
) -> (text: String)
    ensures
        text@ == statement_text(
            select.deep_view(),
            collection@,
            predicates.deep_view(),
            group_by.deep_view(),
        ),
{
    let mut text = String::from_str("SELECT ");
    text.append(join(select, ", ").as_str());
    text.append(" FROM ");
    text.append(collection);
    text.append(" WHERE ");
    text.append(join(predicates, " AND ").as_str());
    if group_by.len() > 0 {
        text.append(" GROUP BY ");
        text.append(join(group_by, ", ").as_str());
    }
    text
}

/// The query that a plan is written as for a data source. The columns and the
/// group keys come first: where the data source cannot express one of them,
/// the outcome is `UnsupportedOperation`. Then come the predicates: where it
/// cannot embed one of their values, the outcome is `ValueRenderingFailure`.
pub open spec fn rendered<T: AnalyticsDataSource>(
    source: &T,
    plan: QueryPlanView,
    dimensions: Seq<PaymentDimensions>,
    granularity: Option<Granularity>,
) -> Result<CompiledQueryView, MetricsErrorView> {
    match (
        all_written(plan.select.map_values(|c: SelectColumn| select_text(source, c))),
        all_written(plan.group_by.map_values(|k: GroupKey| group_text(source, k))),
    ) {
        (Some(select), Some(group_by)) => match (
            source.value_text(QueryValueView::Collection(plan.collection)),
            all_written(plan.predicates.map_values(|p: PredicateView| predicate_text(source, p))),
        ) {
            (Some(collection), Some(predicates)) => Ok(
                CompiledQueryView {
                    plan,
                    dimensions,
                    granularity,
                    select,
                    collection,
                    predicates,
                    group_by,
                    statement: statement_text(select, collection, predicates, group_by),
                },
            ),
            _ => Err(MetricsErrorView::ValueRenderingFailure),
        },
        _ => Err(MetricsErrorView::UnsupportedOperation),
    }
}

/// Writes a column of the result.
pub fn write_select<T: AnalyticsDataSource>(source: &T, column: SelectColumn) -> (r: MetricsResult<
    String,
>)
    ensures
        crate::backend::is_rendering(
            r,
            select_text(source, column),
            MetricsErrorView::UnsupportedOperation,
        ),
{
    match column {
        SelectColumn::Dimension(d) => Ok(String::from_str(d.column_name())),
        SelectColumn::Measure(m) => {
            let written = match m.function {
                MeasureFunction::Aggregate(f) => source.render_aggregate(f, m.source.column_name()),
                MeasureFunction::Window(f) => source.render_window(f, m.source.column_name()),
            };
            match written {
                Ok(expression) => Ok(write_aliased(expression, m.field.alias())),
                Err(_) => Err(MetricsError::UnsupportedOperation),
            }
        },
        SelectColumn::BucketStart(g) => match source.render_group_by(g) {
            Ok(b) => Ok(write_aliased(b.start, "start_bucket")),
            Err(_) => Err(MetricsError::UnsupportedOperation),
        },
        SelectColumn::BucketEnd(g) => match source.render_group_by(g) {
            Ok(b) => Ok(write_aliased(b.end, "end_bucket")),
            Err(_) => Err(MetricsError::UnsupportedOperation),
        },
    }
}

/// Writes a group key.
pub fn write_group<T: AnalyticsDataSource>(source: &T, key: GroupKey) -> (r: MetricsResult<String>)
    ensures
        crate::backend::is_rendering(
            r,
            group_text(source, key),
            MetricsErrorView::UnsupportedOperation,
        ),
{
    match key {
        GroupKey::Dimension(d) => Ok(String::from_str(d.column_name())),
        GroupKey::Bucket(g) => match source.render_group_by(g) {
            Ok(b) => Ok(b.start),
            Err(_) => Err(MetricsError::UnsupportedOperation),
        },
    }
}

/// Writes the literals of the values.
pub fn write_literals<T: AnalyticsDataSource>(source: &T, values: &Vec<DimensionValue>) -> (r:
    MetricsResult<Vec<String>>)
    ensures
        match literals_of(source, values.deep_view()) {
            Some(literals) => r matches Ok(written) && written.deep_view() == literals,
            None => r matches Err(e) && e@ == MetricsErrorView::ValueRenderingFailure,
        },
{
    let ghost items = values.deep_view().map_values(
        |v: DimensionValueView| source.value_text(as_query_value(v)),
    );
    let mut written: Vec<String> = Vec::new();
    let mut i: usize = 0;
    while i < values.len()
        invariant
            i <= values.len(),
            written@.len() == i,
            items == values.deep_view().map_values(
                |v: DimensionValueView| source.value_text(as_query_value(v)),
            ),
            forall|k: int| 0 <= k < i ==> items[k] == Some((#[trigger] written@[k])@),
        decreases values.len() - i,
    {
        let value = to_query_value(&values[i]);
        proof {
            assert(values.deep_view()[i as int] == values@[i as int]@);
        }
        match source.render_value(&value) {
            Ok(literal) => {
                written.push(literal);
            },
            Err(_) => {
                proof {
                    assert(items[i as int] is None);
                }
                return Err(MetricsError::ValueRenderingFailure);
            },
        }
        i += 1;
    }
    proof {
        assert forall|k: int| 0 <= k < items.len() implies (#[trigger] items[k]) is Some by {
            assert(items[k] == Some(written@[k]@));
        }
        assert(written.deep_view() =~= items.map_values(|item: Option<Seq<char>>| item.unwrap()));
    }
    Ok(written)
}

/// Writes a predicate.
pub fn write_predicate<T: AnalyticsDataSource>(source: &T, predicate: &Predicate) -> (r:
    MetricsResult<String>)
    ensures
        crate::backend::is_rendering(
            r,
            predicate_text(source, predicate@),
            MetricsErrorView::ValueRenderingFailure,
        ),
{
    match predicate {
        Predicate::OneOf { column, values } => match write_literals(source, values) {
            Ok(literals) => Ok(write_one_of(column.column_name(), &literals)),
            Err(_) => Err(MetricsError::ValueRenderingFailure),
        },
        Predicate::Within { start, end } => {
            let from = source.render_value(&QueryValue::Instant(*start));
            let to = source.render_value(&QueryValue::Instant(*end));
            match (from, to) {
                (Ok(from), Ok(to)) => Ok(write_within(from.as_str(), to.as_str())),
                _ => Err(MetricsError::ValueRenderingFailure),
            }
        },
    }
}

/// Whether `r` is the outcome of writing a list: the expected texts where
/// there are some, else the given failure.
pub open spec fn is_rendering_all(
    r: MetricsResult<Vec<String>>,
    expected: Option<Seq<Seq<char>>>,
    failure: MetricsErrorView,
) -> bool {
    match expected {
        Some(texts) => r matches Ok(written) && written.deep_view() == texts,
        None => r matches Err(e) && e@ == failure,
    }
}

/// Writes the columns of a result.
pub fn write_columns<T: AnalyticsDataSource>(source: &T, columns: &Vec<SelectColumn>) -> (r:
    MetricsResult<Vec<String>>)
    ensures
        is_rendering_all(
            r,
            all_written(columns@.map_values(|c: SelectColumn| select_text(source, c))),
            MetricsErrorView::UnsupportedOperation,
        ),
{
    let ghost items = columns@.map_values(|c: SelectColumn| select_text(source, c));
    let mut written: Vec<String> = Vec::new();
    let mut i: usize = 0;
    while i < columns.len()
        invariant
            i <= columns.len(),
            written@.len() == i,
            items == columns@.map_values(|c: SelectColumn| select_text(source, c)),
            forall|k: int| 0 <= k < i ==> items[k] == Some((#[trigger] written@[k])@),
        decreases columns.len() - i,
    {
        match write_select(source, columns[i]) {
            Ok(text) => {
                written.push(text);
            },
            Err(_) => {
                proof {
                    assert(items[i as int] is None);
                }
                return Err(MetricsError::UnsupportedOperation);
            },
        }
        i += 1;
    }
    proof {
        assert forall|k: int| 0 <= k < items.len() implies (#[trigger] items[k]) is Some by {
            assert(items[k] == Some(written@[k]@));
        }
        assert(written.deep_view() =~= items.map_values(|item: Option<Seq<char>>| item.unwrap()));
    }
    Ok(written)
}

/// Writes the group keys of a query.
pub fn write_groups<T: AnalyticsDataSource>(source: &T, keys: &Vec<GroupKey>) -> (r: MetricsResult<
    Vec<String>,
>)
    ensures
        is_rendering_all(
            r,
            all_written(keys@.map_values(|k: GroupKey| group_text(source, k))),
            MetricsErrorView::UnsupportedOperation,
        ),
{
    let ghost items = keys@.map_values(|k: GroupKey| group_text(source, k));
    let mut written: Vec<String> = Vec::new();
    let mut i: usize = 0;
    while i < keys.len()
        invariant
            i <= keys.len(),
            written@.len() == i,
            items == keys@.map_values(|k: GroupKey| group_text(source, k)),
            forall|k: int| 0 <= k < i ==> items[k] == Some((#[trigger] written@[k])@),
        decreases keys.len() - i,
    {
        match write_group(source, keys[i]) {
            Ok(text) => {
                written.push(text);
            },
            Err(_) => {
                proof {
                    assert(items[i as int] is None);
                }
                return Err(MetricsError::UnsupportedOperation);
            },
        }
        i += 1;
    }
    proof {
        assert forall|k: int| 0 <= k < items.len() implies (#[trigger] items[k]) is Some by {
            assert(items[k] == Some(written@[k]@));
        }
        assert(written.deep_view() =~= items.map_values(|item: Option<Seq<char>>| item.unwrap()));
    }
    Ok(written)
}

/// Writes the predicates of a query.
pub fn write_predicates<T: AnalyticsDataSource>(source: &T, predicates: &Vec<Predicate>) -> (r:
    MetricsResult<Vec<String>>)
    ensures
        is_rendering_all(
            r,
            all_written(
                predicates.deep_view().map_values(|p: PredicateView| predicate_text(source, p)),
            ),
            MetricsErrorView::ValueRenderingFailure,
        ),
{
    let ghost items = predicates.deep_view().map_values(
        |p: PredicateView| predicate_text(source, p),
    );
    let mut written: Vec<String> = Vec::new();
    let mut i: usize = 0;
    while i < predicates.len()
        invariant
            i <= predicates.len(),
            written@.len() == i,
            items == predicates.deep_view().map_values(
                |p: PredicateView| predicate_text(source, p),
            ),
            forall|k: int| 0 <= k < i ==> items[k] == Some((#[trigger] written@[k])@),
        decreases predicates.len() - i,
    {
        proof {
            assert(predicates.deep_view()[i as int] == predicates@[i as int]@);
        }
        match write_predicate(source, &predicates[i]) {
            Ok(text) => {
                written.push(text);
            },
            Err(_) => {
                proof {
                    assert(items[i as int] is None);
                }
                return Err(MetricsError::ValueRenderingFailure);
            },
        }
        i += 1;
    }
    proof {
        assert forall|k: int| 0 <= k < items.len() implies (#[trigger] items[k]) is Some by {
            assert(items[k] == Some(written@[k]@));
        }
        assert(written.deep_view() =~= items.map_values(|item: Option<Seq<char>>| item.unwrap()));
    }
    Ok(written)
}

/// A copy of the dimensions.
pub fn copy_dimensions(dimensions: &[PaymentDimensions]) -> (copy: Vec<PaymentDimensions>)
    ensures
        copy@ == dimensions@,
{
    let mut copy: Vec<PaymentDimensions> = Vec::new();
    let mut i: usize = 0;
    while i < dimensions.len()
        invariant
            i <= dimensions.len(),
            copy@ == dimensions@.take(i as int),
        decreases dimensions.len() - i,
    {
        copy.push(dimensions[i]);
        proof {
            assert(copy@ =~= dimensions@.take(i + 1));
        }
        i += 1;
    }
    proof {
        assert(dimensions@.take(dimensions.len() as int) =~= dimensions@);
    }
    copy
}

/// Writes a plan as a query for a data source.
pub fn render_plan<T: AnalyticsDataSource>(
    source: &T,
    plan: QueryPlan,
    dimensions: &[PaymentDimensions],
    granularity: Option<Granularity>,
) -> (r: MetricsResult<CompiledQuery>)
    ensures
        outcome(r) == rendered(source, plan@, dimensions@, granularity),
{
    let select = match write_columns(source, &plan.select) {
        Ok(written) => written,
        Err(_) => {
            return Err(MetricsError::UnsupportedOperation);
        },
    };
    let group_by = match write_groups(source, &plan.group_by) {
        Ok(written) => written,
        Err(_) => {
            return Err(MetricsError::UnsupportedOperation);
        },
    };
    let collection = match source.render_value(&QueryValue::Collection(plan.collection)) {
        Ok(text) => text,
        Err(_) => {
            return Err(MetricsError::ValueRenderingFailure);
        },
    };
    let predicates = match write_predicates(source, &plan.predicates) {
        Ok(written) => written,
        Err(_) => {
            return Err(MetricsError::ValueRenderingFailure);
        },
    };
    let statement = write_statement(&select, collection.as_str(), &predicates, &group_by);
    Ok(
        CompiledQuery {
            plan,
            dimensions: copy_dimensions(dimensions),
            granularity,
            select,
            collection,
            predicates,
            group_by,
            statement,
        },
    )
}

} // verus!
