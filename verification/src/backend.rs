//! The data sources that a query can be compiled for, and what each of them
//! must be able to write.

use vstd::prelude::*;
use vstd::string::*;
use crate::error::{MetricsError, MetricsErrorView, MetricsResult};
use crate::granularity::Granularity;
use crate::plan::{AggregateFunction, AnalyticsCollection, WindowFunction};
use crate::text::{embeddable, Quoting};

verus! {

/// A value that is written into a query.
#[derive(Debug)]
pub enum QueryValue {
    Text(String),
    Flag(bool),
    /// An instant, in seconds since the Unix epoch.
    Instant(i64),
    Collection(AnalyticsCollection),
}

/// Mathematical model of a [`QueryValue`].
pub enum QueryValueView {
    Text(Seq<char>),
    Flag(bool),
    Instant(i64),
    Collection(AnalyticsCollection),
}

impl DeepView for QueryValue {
    type V = QueryValueView;

    open spec fn deep_view(&self) -> QueryValueView {
        match self {
            QueryValue::Text(s) => QueryValueView::Text(s@),
            QueryValue::Flag(b) => QueryValueView::Flag(*b),
            QueryValue::Instant(t) => QueryValueView::Instant(*t),
            QueryValue::Collection(c) => QueryValueView::Collection(*c),
        }
    }
}

impl View for QueryValue {
    type V = QueryValueView;

    open spec fn view(&self) -> QueryValueView {
        self.deep_view()
    }
}

/// How a data source writes the bucket of a payment: the expression for the
/// start of the bucket, by which payments are grouped, and the one for its end.
#[derive(Debug)]
pub struct Bucketing {
    pub start: String,
    pub end: String,
}

/// Mathematical model of a [`Bucketing`].
pub struct BucketingView {
    pub start: Seq<char>,
    pub end: Seq<char>,
}

impl DeepView for Bucketing {
    type V = BucketingView;

    open spec fn deep_view(&self) -> BucketingView {
        BucketingView { start: self.start@, end: self.end@ }
    }
}

impl View for Bucketing {
    type V = BucketingView;

    open spec fn view(&self) -> BucketingView {
        self.deep_view()
    }
}

/// Whether `r` is the outcome of writing something: the expected text where
/// there is one, else the given failure.
pub open spec fn is_rendering(
    r: MetricsResult<String>,
    expected: Option<Seq<char>>,
    failure: MetricsErrorView,
) -> bool {
    match expected {
        Some(text) => r matches Ok(s) && s@ == text,
        None => r matches Err(e) && e@ == failure,
    }
}

/// Name of the column that holds the time of a payment.
pub open spec fn event_time_text() -> Seq<char> {
    "created_at"@
}

/// Name of the column that holds the time of a payment.
pub fn event_time_column() -> (name: &'static str)
    ensures
        name@ == event_time_text(),
{
    "created_at"
}

/// What a data source must be able to write for a query to be compiled for
/// it. Each method returns the text that the matching spec function gives, so
/// the same value is always written the same way; where that function gives
/// none, the data source cannot write the value and the method fails.
pub trait AnalyticsDataSource {
    /// The literal for a value, if the value can be embedded safely.
    spec fn value_text(&self, value: QueryValueView) -> Option<Seq<char>>;

    /// Writes a value as a literal, or fails with `ValueRenderingFailure`.
    fn render_value(&self, value: &QueryValue) -> (r: MetricsResult<String>)
        ensures
            is_rendering(r, self.value_text(value@), MetricsErrorView::ValueRenderingFailure),
    ;

    /// The bucket expressions for a granularity, if the data source can
    /// express it.
    spec fn bucketing(&self, granularity: Granularity) -> Option<BucketingView>;

    /// Writes the bucket expressions for a granularity, or fails with
    /// `UnsupportedOperation`.
    fn render_group_by(&self, granularity: Granularity) -> (r: MetricsResult<Bucketing>)
        ensures
            match self.bucketing(granularity) {
                Some(b) => r matches Ok(written) && written@ == b,
                None => r matches Err(e) && e@ == MetricsErrorView::UnsupportedOperation,
            },
    ;

    /// The expression that folds a column with an aggregate function, if the
    /// data source has that function.
    spec fn aggregate_text(&self, function: AggregateFunction, column: Seq<char>) -> Option<
        Seq<char>,
    >;

    /// Writes an aggregate over a column, or fails with
    /// `UnsupportedOperation`.
    fn render_aggregate(&self, function: AggregateFunction, column: &str) -> (r: MetricsResult<
        String,
    >)
        ensures
            is_rendering(
                r,
                self.aggregate_text(function, column@),
                MetricsErrorView::UnsupportedOperation,
            ),
    ;

    /// The expression that computes a window function over a column, if the
    /// data source has that function.
    spec fn window_text(&self, function: WindowFunction, column: Seq<char>) -> Option<Seq<char>>;

    /// Writes a window function over a column, or fails with
    /// `UnsupportedOperation`.
    fn render_window(&self, function: WindowFunction, column: &str) -> (r: MetricsResult<String>)
        ensures
            is_rendering(
                r,
                self.window_text(function, column@),
                MetricsErrorView::UnsupportedOperation,
            ),
    ;
}

/// What `time` writes for an instant in the format of RFC 3339, in UTC; none
/// for an instant that it cannot represent or write in that format.
pub uninterp spec fn rfc3339_text(seconds: i64) -> Option<Seq<char>>;

/// `time::OffsetDateTime::from_unix_timestamp`, then `OffsetDateTime::format`
/// with the description `Rfc3339`. Taken on trust: the result depends on the
/// instant alone, so the same instant always gives the same text. Both calls
/// fail on instants outside the years they accept: the result is then `None`.
#[verifier::external_body]
fn format_rfc3339(seconds: i64) -> (text: Option<String>)
    ensures
        text.deep_view() == rfc3339_text(seconds),
{
    match time::OffsetDateTime::from_unix_timestamp(seconds) {
        Ok(instant) => instant.format(&time::format_description::well_known::Rfc3339).ok(),
        Err(_) => None,
    }
}

/// The literal for an instant, given the text that stands for it: the text
/// between quotes, if it can be embedded.
pub open spec fn instant_literal(quoting: Quoting, written: Option<Seq<char>>) -> Option<
    Seq<char>,
> {
    match written {
        Some(text) => if embeddable(text) {
            Some(quoting.literal(text))
        } else {
            None
        },
        None => None,
    }
}

/// Writes the literal for an instant from the text that stands for it.
pub fn quote_instant(quoting: Quoting, written: Option<String>) -> (r: MetricsResult<String>)
    ensures
        is_rendering(
            r,
            instant_literal(quoting, written.deep_view()),
            MetricsErrorView::ValueRenderingFailure,
        ),
{
    match written {
        Some(text) => match quoting.quote(text.as_str()) {
            Some(literal) => Ok(literal),
            None => Err(MetricsError::ValueRenderingFailure),
        },
        None => Err(MetricsError::ValueRenderingFailure),
    }
}

/// Writes a text as a literal.
pub fn quote_text(quoting: Quoting, text: &str) -> (r: MetricsResult<String>)
    ensures
        is_rendering(
            r,
            if embeddable(text@) {
                Some(quoting.literal(text@))
            } else {
                None
            },
            MetricsErrorView::ValueRenderingFailure,
        ),
{
    match quoting.quote(text) {
        Some(literal) => Ok(literal),
        None => Err(MetricsError::ValueRenderingFailure),
    }
}

/// `name(column)`.
pub open spec fn call_text(name: Seq<char>, column: Seq<char>) -> Seq<char> {
    name + "("@ + column + ")"@
}

/// Writes `name(column)`.
pub fn write_call(name: &str, column: &str) -> (text: String)
    ensures
        text@ == call_text(name@, column@),
{
    let mut text = String::from_str(name);
    text.append("(");
    text.append(column);
    text.append(")");
    text
}

/// A row store that is asked in the dialect of PostgreSQL.
#[derive(Clone, Copy, Debug)]
pub struct Postgres;

impl Postgres {
    /// The table that holds a collection.
    pub open spec fn table_text(collection: AnalyticsCollection) -> Seq<char> {
        match collection {
            AnalyticsCollection::Payment => "payment_attempt"@,
            AnalyticsCollection::PaymentIntent => "payment_intent"@,
            AnalyticsCollection::Refund => "refund"@,
        }
    }

    /// The table that holds a collection.
    pub fn table_name(collection: AnalyticsCollection) -> (name: &'static str)
        ensures
            name@ == Self::table_text(collection),
    {
        match collection {
            AnalyticsCollection::Payment => "payment_attempt",
            AnalyticsCollection::PaymentIntent => "payment_intent",
            AnalyticsCollection::Refund => "refund",
        }
    }

    /// The unit that `DATE_TRUNC` takes for a granularity; none for a width
    /// that is not one of its units.
    pub open spec fn unit_text(granularity: Granularity) -> Option<Seq<char>> {
        match granularity {
            Granularity::OneMin => Some("minute"@),
            Granularity::OneHour => Some("hour"@),
            Granularity::OneDay => Some("day"@),
            _ => None,
        }
    }

    /// The unit that `DATE_TRUNC` takes for a granularity.
    pub fn unit_name(granularity: Granularity) -> (name: Option<&'static str>)
        ensures
            match Self::unit_text(granularity) {
                Some(text) => name matches Some(n) && n@ == text,
                None => name is None,
            },
    {
        match granularity {
            Granularity::OneMin => Some("minute"),
            Granularity::OneHour => Some("hour"),
            Granularity::OneDay => Some("day"),
            _ => None,
        }
    }

    /// The bucket expressions for a unit of `DATE_TRUNC`.
    pub open spec fn bucketing_of(unit: Seq<char>) -> BucketingView {
        let start = "DATE_TRUNC('"@ + unit + "', "@ + event_time_text() + ")"@;
        BucketingView { start, end: start + " + INTERVAL '1 "@ + unit + "'"@ }
    }

    /// Name of an aggregate function.
    pub open spec fn aggregate_name_text(function: AggregateFunction) -> Seq<char> {
        match function {
            AggregateFunction::Count => "COUNT"@,
            AggregateFunction::Sum => "SUM"@,
            AggregateFunction::Min => "MIN"@,
            AggregateFunction::Max => "MAX"@,
        }
    }

    /// Name of an aggregate function.
    pub fn aggregate_name(function: AggregateFunction) -> (name: &'static str)
        ensures
            name@ == Self::aggregate_name_text(function),
    {
        match function {
            AggregateFunction::Count => "COUNT",
            AggregateFunction::Sum => "SUM",
            AggregateFunction::Min => "MIN",
            AggregateFunction::Max => "MAX",
        }
    }

    /// Name of a window function.
    pub open spec fn window_name_text(function: WindowFunction) -> Seq<char> {
        match function {
            WindowFunction::Sum => "SUM"@,
            WindowFunction::RowNumber => "ROW_NUMBER"@,
        }
    }

    /// Name of a window function.
    pub fn window_name(function: WindowFunction) -> (name: &'static str)
        ensures
            name@ == Self::window_name_text(function),
    {
        match function {
            WindowFunction::Sum => "SUM",
            WindowFunction::RowNumber => "ROW_NUMBER",
        }
    }
}

/// The expression for a window function: a sum over all rows of the column,
/// or the number of the row when the rows are ordered by the column.
pub open spec fn window_expression(name: Seq<char>, function: WindowFunction, column: Seq<char>) -> Seq<
    char,
> {
    match function {
        WindowFunction::Sum => call_text(name, column) + " OVER ()"@,
        WindowFunction::RowNumber => name + "() OVER (ORDER BY "@ + column + ")"@,
    }
}

/// Writes the expression for a window function.
pub fn write_window(name: &str, function: WindowFunction, column: &str) -> (text: String)
    ensures
        text@ == window_expression(name@, function, column@),
{
    match function {
        WindowFunction::Sum => {
            let mut text = write_call(name, column);
            text.append(" OVER ()");
            text
        },
        WindowFunction::RowNumber => {
            let mut text = String::from_str(name);
            text.append("() OVER (ORDER BY ");
            text.append(column);
            text.append(")");
            text
        },
    }
}

impl AnalyticsDataSource for Postgres {
    open spec fn value_text(&self, value: QueryValueView) -> Option<Seq<char>> {
        match value {
            QueryValueView::Text(text) => if embeddable(text) {
                Some(Quoting::Doubled.literal(text))
            } else {
                None
            },
            QueryValueView::Flag(flag) => Some(
                if flag {
                    "TRUE"@
                } else {
                    "FALSE"@
                },
            ),
            QueryValueView::Instant(seconds) => instant_literal(
                Quoting::Doubled,
                rfc3339_text(seconds),
            ),
            QueryValueView::Collection(collection) => Some(Self::table_text(collection)),
        }
    }

    fn render_value(&self, value: &QueryValue) -> (r: MetricsResult<String>) {
        match value {
            QueryValue::Text(text) => quote_text(Quoting::Doubled, text.as_str()),
            QueryValue::Flag(flag) => Ok(
                String::from_str(
                    if *flag {
                        "TRUE"
                    } else {
                        "FALSE"
                    },
                ),
            ),
            QueryValue::Instant(seconds) => quote_instant(
                Quoting::Doubled,
                format_rfc3339(*seconds),
            ),
            QueryValue::Collection(collection) => Ok(
                String::from_str(Self::table_name(*collection)),
            ),
        }
    }

    open spec fn bucketing(&self, granularity: Granularity) -> Option<BucketingView> {
        match Self::unit_text(granularity) {
            Some(unit) => Some(Self::bucketing_of(unit)),
            None => None,
        }
    }

    fn render_group_by(&self, granularity: Granularity) -> (r: MetricsResult<Bucketing>) {
        match Self::unit_name(granularity) {
            Some(unit) => {
                let mut start = String::from_str("DATE_TRUNC('");
                start.append(unit);
                start.append("', ");
                start.append(event_time_column());
                start.append(")");
                let mut end = start.clone();
                end.append(" + INTERVAL '1 ");
                end.append(unit);
                end.append("'");
                Ok(Bucketing { start, end })
            },
            None => Err(MetricsError::UnsupportedOperation),
        }
    }

    open spec fn aggregate_text(&self, function: AggregateFunction, column: Seq<char>) -> Option<
        Seq<char>,
    > {
        Some(call_text(Self::aggregate_name_text(function), column))
    }

    fn render_aggregate(&self, function: AggregateFunction, column: &str) -> (r: MetricsResult<
        String,
    >) {
        Ok(write_call(Self::aggregate_name(function), column))
    }

    open spec fn window_text(&self, function: WindowFunction, column: Seq<char>) -> Option<
        Seq<char>,
    > {
        Some(window_expression(Self::window_name_text(function), function, column))
    }

    fn render_window(&self, function: WindowFunction, column: &str) -> (r: MetricsResult<String>) {
        Ok(write_window(Self::window_name(function), function, column))
    }
}

/// A column store that is asked in the dialect of ClickHouse.
#[derive(Clone, Copy, Debug)]
pub struct Clickhouse;

impl Clickhouse {
    /// The table that holds a collection.
    pub open spec fn table_text(collection: AnalyticsCollection) -> Seq<char> {
        match collection {
            AnalyticsCollection::Payment => "payment_attempt_queue"@,
            AnalyticsCollection::PaymentIntent => "payment_intents_queue"@,
            AnalyticsCollection::Refund => "refund_queue"@,
        }
    }

    /// The table that holds a collection.
    pub fn table_name(collection: AnalyticsCollection) -> (name: &'static str)
        ensures
            name@ == Self::table_text(collection),
    {
        match collection {
            AnalyticsCollection::Payment => "payment_attempt_queue",
            AnalyticsCollection::PaymentIntent => "payment_intents_queue",
            AnalyticsCollection::Refund => "refund_queue",
        }
    }

    /// The interval of a granularity.
    pub open spec fn interval_text(granularity: Granularity) -> Seq<char> {
        match granularity {
            Granularity::OneMin => "INTERVAL 1 MINUTE"@,
            Granularity::FiveMin => "INTERVAL 5 MINUTE"@,
            Granularity::FifteenMin => "INTERVAL 15 MINUTE"@,
            Granularity::ThirtyMin => "INTERVAL 30 MINUTE"@,
            Granularity::OneHour => "INTERVAL 1 HOUR"@,
            Granularity::OneDay => "INTERVAL 1 DAY"@,
        }
    }

    /// The interval of a granularity.
    pub fn interval(granularity: Granularity) -> (text: &'static str)
        ensures
            text@ == Self::interval_text(granularity),
    {
        match granularity {
            Granularity::OneMin => "INTERVAL 1 MINUTE",
            Granularity::FiveMin => "INTERVAL 5 MINUTE",
            Granularity::FifteenMin => "INTERVAL 15 MINUTE",
            Granularity::ThirtyMin => "INTERVAL 30 MINUTE",
            Granularity::OneHour => "INTERVAL 1 HOUR",
            Granularity::OneDay => "INTERVAL 1 DAY",
        }
    }

    /// The bucket expressions for an interval.
    pub open spec fn bucketing_of(interval: Seq<char>) -> BucketingView {
        let start = "toStartOfInterval("@ + event_time_text() + ", "@ + interval + ")"@;
        BucketingView { start, end: start + " + "@ + interval }
    }

    /// Name of an aggregate function.
    pub open spec fn aggregate_name_text(function: AggregateFunction) -> Seq<char> {
        match function {
            AggregateFunction::Count => "count"@,
            AggregateFunction::Sum => "sum"@,
            AggregateFunction::Min => "min"@,
            AggregateFunction::Max => "max"@,
        }
    }

    /// Name of an aggregate function.
    pub fn aggregate_name(function: AggregateFunction) -> (name: &'static str)
        ensures
            name@ == Self::aggregate_name_text(function),
    {
        match function {
            AggregateFunction::Count => "count",
            AggregateFunction::Sum => "sum",
            AggregateFunction::Min => "min",
            AggregateFunction::Max => "max",
        }
    }

    /// Name of a window function.
    pub open spec fn window_name_text(function: WindowFunction) -> Seq<char> {
        match function {
            WindowFunction::Sum => "sum"@,
            WindowFunction::RowNumber => "row_number"@,
        }
    }

    /// Name of a window function.
    pub fn window_name(function: WindowFunction) -> (name: &'static str)
        ensures
            name@ == Self::window_name_text(function),
    {
        match function {
            WindowFunction::Sum => "sum",
            WindowFunction::RowNumber => "row_number",
        }
    }
}

impl AnalyticsDataSource for Clickhouse {
    open spec fn value_text(&self, value: QueryValueView) -> Option<Seq<char>> {
        match value {
            QueryValueView::Text(text) => if embeddable(text) {
                Some(Quoting::Backslash.literal(text))
            } else {
                None
            },
            QueryValueView::Flag(flag) => Some(
                if flag {
                    "true"@
                } else {
                    "false"@
                },
            ),
            QueryValueView::Instant(seconds) => instant_literal(
                Quoting::Backslash,
                rfc3339_text(seconds),
            ),
            QueryValueView::Collection(collection) => Some(Self::table_text(collection)),
        }
    }

    fn render_value(&self, value: &QueryValue) -> (r: MetricsResult<String>) {
        match value {
            QueryValue::Text(text) => quote_text(Quoting::Backslash, text.as_str()),
            QueryValue::Flag(flag) => Ok(
                String::from_str(
                    if *flag {
                        "true"
                    } else {
                        "false"
                    },
                ),
            ),
            QueryValue::Instant(seconds) => quote_instant(
                Quoting::Backslash,
                format_rfc3339(*seconds),
            ),
            QueryValue::Collection(collection) => Ok(
                String::from_str(Self::table_name(*collection)),
            ),
        }
    }

    open spec fn bucketing(&self, granularity: Granularity) -> Option<BucketingView> {
        Some(Self::bucketing_of(Self::interval_text(granularity)))
    }

    fn render_group_by(&self, granularity: Granularity) -> (r: MetricsResult<Bucketing>) {
        let interval = Self::interval(granularity);
        let mut start = String::from_str("toStartOfInterval(");
        start.append(event_time_column());
        start.append(", ");
        start.append(interval);
        start.append(")");
        let mut end = start.clone();
        end.append(" + ");
        end.append(interval);
        Ok(Bucketing { start, end })
    }

    open spec fn aggregate_text(&self, function: AggregateFunction, column: Seq<char>) -> Option<
        Seq<char>,
    > {
        Some(call_text(Self::aggregate_name_text(function), column))
    }

    fn render_aggregate(&self, function: AggregateFunction, column: &str) -> (r: MetricsResult<
        String,
    >) {
        Ok(write_call(Self::aggregate_name(function), column))
    }

    open spec fn window_text(&self, function: WindowFunction, column: Seq<char>) -> Option<
        Seq<char>,
    > {
        Some(window_expression(Self::window_name_text(function), function, column))
    }

    fn render_window(&self, function: WindowFunction, column: &str) -> (r: MetricsResult<String>) {
        Ok(write_window(Self::window_name(function), function, column))
    }
}

/// Both data sources write a text so that it is read back as it was: the
/// literal of a text is one literal, closed by its last character, and stands
/// for the text.
pub proof fn lemma_text_literals_read_back(text: Seq<char>)
    requires
        embeddable(text),
    ensures
        Postgres.value_text(QueryValueView::Text(text)) matches Some(literal)
            && Quoting::Doubled.read(literal, 1) == Some((text, (literal.len() - 1) as int)),
        Clickhouse.value_text(QueryValueView::Text(text)) matches Some(literal)
            && Quoting::Backslash.read(literal, 1) == Some((text, (literal.len() - 1) as int)),
{
    Quoting::Doubled.lemma_literal_reads_back(text);
    Quoting::Backslash.lemma_literal_reads_back(text);
}

} // verus!
