//! The logical plan of a query: what it selects, which payments it reads and
//! how it groups them, before any data source has a say.

use vstd::prelude::*;
use crate::auth::{AuthInfo, AuthInfoView};
use crate::dimension::{
    holds_dimension, DimensionValue, DimensionValueView, PaymentDimensions, DIMENSION_COUNT,
};
use crate::error::{MetricsError, MetricsResult};
use crate::filter::{PaymentFilters, PaymentFiltersView};
use crate::granularity::{Granularity, TimeRange, TimeRangeView};

verus! {

/// A collection of records that a data source can be asked about.
#[derive(Clone, Copy, Debug, PartialEq, Eq, Structural)]
pub enum AnalyticsCollection {
    Payment,
    PaymentIntent,
    Refund,
}

/// A function that folds the records of a group into one value.
#[derive(Clone, Copy, Debug, PartialEq, Eq, Structural)]
pub enum AggregateFunction {
    Count,
    Sum,
    Min,
    Max,
}

/// A function that is computed for a record over the records around it.
#[derive(Clone, Copy, Debug, PartialEq, Eq, Structural)]
pub enum WindowFunction {
    Sum,
    RowNumber,
}

/// How a measure is computed.
#[derive(Clone, Copy, Debug, PartialEq, Eq, Structural)]
pub enum MeasureFunction {
    Aggregate(AggregateFunction),
    Window(WindowFunction),
}

/// What a measure is computed from.
#[derive(Clone, Copy, Debug, PartialEq, Eq, Structural)]
pub enum MeasureSource {
    /// The records themselves, as for a count.
    Records,
    /// The amount of the payment.
    Amount,
    /// The error message of the payment.
    ErrorMessage,
}

/// The field of a row that a measure fills.
#[derive(Clone, Copy, Debug, PartialEq, Eq, Structural)]
pub enum MeasureField {
    Total,
    Count,
    ErrorMessage,
}

impl MeasureSource {
    /// What stands for the source in an expression.
    pub open spec fn column_text(self) -> Seq<char> {
        match self {
            MeasureSource::Records => "*"@,
            MeasureSource::Amount => "amount"@,
            MeasureSource::ErrorMessage => "error_message"@,
        }
    }

    /// What stands for the source in an expression.
    pub fn column_name(self) -> (name: &'static str)
        ensures
            name@ == self.column_text(),
    {
        match self {
            MeasureSource::Records => "*",
            MeasureSource::Amount => "amount",
            MeasureSource::ErrorMessage => "error_message",
        }
    }
}

impl MeasureField {
    /// Name of the column that carries the field in a result.
    pub open spec fn alias_text(self) -> Seq<char> {
        match self {
            MeasureField::Total => "total"@,
            MeasureField::Count => "count"@,
            MeasureField::ErrorMessage => "error_message"@,
        }
    }

    /// Name of the column that carries the field in a result.
    pub fn alias(self) -> (name: &'static str)
        ensures
            name@ == self.alias_text(),
    {
        match self {
            MeasureField::Total => "total",
            MeasureField::Count => "count",
            MeasureField::ErrorMessage => "error_message",
        }
    }
}

/// A value that a metric kind computes for each bucket.
#[derive(Clone, Copy, Debug, PartialEq, Eq, Structural)]
pub struct Measure {
    pub function: MeasureFunction,
    pub source: MeasureSource,
    pub field: MeasureField,
}

/// A column of the result of a query.
#[derive(Clone, Copy, Debug, PartialEq, Eq, Structural)]
pub enum SelectColumn {
    Dimension(PaymentDimensions),
    Measure(Measure),
    BucketStart(Granularity),
    BucketEnd(Granularity),
}

/// What the records of a query are grouped by.
#[derive(Clone, Copy, Debug, PartialEq, Eq, Structural)]
pub enum GroupKey {
    Dimension(PaymentDimensions),
    Bucket(Granularity),
}

/// A column that a predicate tests.
#[derive(Clone, Copy, Debug, PartialEq, Eq, Structural)]
pub enum FilterColumn {
    OrganizationId,
    Dimension(PaymentDimensions),
}

impl FilterColumn {
    /// Name of the column.
    pub open spec fn column_text(self) -> Seq<char> {
        match self {
            FilterColumn::OrganizationId => "organization_id"@,
            FilterColumn::Dimension(d) => d.column_text(),
        }
    }

    /// Name of the column.
    pub fn column_name(self) -> (name: &'static str)
        ensures
            name@ == self.column_text(),
    {
        match self {
            FilterColumn::OrganizationId => "organization_id",
            FilterColumn::Dimension(d) => d.column_name(),
        }
    }
}

/// A condition on a payment. A query reads the payments that meet all of its
/// predicates.
#[derive(Debug)]
pub enum Predicate {
    /// The column holds one of the values.
    OneOf { column: FilterColumn, values: Vec<DimensionValue> },
    /// The payment was made at or after `start` and before `end`.
    Within { start: i64, end: i64 },
}

/// Mathematical model of a [`Predicate`].
pub enum PredicateView {
    OneOf { column: FilterColumn, values: Seq<DimensionValueView> },
    Within { start: i64, end: i64 },
}

impl DeepView for Predicate {
    type V = PredicateView;

    open spec fn deep_view(&self) -> PredicateView {
        match self {
            Predicate::OneOf { column, values } => PredicateView::OneOf {
                column: *column,
                values: values.deep_view(),
            },
            Predicate::Within { start, end } => PredicateView::Within { start: *start, end: *end },
        }
    }
}

impl View for Predicate {
    type V = PredicateView;

    open spec fn view(&self) -> PredicateView {
        self.deep_view()
    }
}

/// A payment as a query sees it: its organization, the time it was made, and
/// its value in each dimension in which it has one.
pub struct PaymentRecord {
    pub organization_id: Seq<char>,
    pub event_time: int,
    pub values: Map<PaymentDimensions, DimensionValueView>,
}

impl PaymentRecord {
    /// The text that the payment has in a dimension, if it has one.
    pub open spec fn text(self, dimension: PaymentDimensions) -> Option<Seq<char>> {
        if self.values.contains_key(dimension) {
            match self.values[dimension] {
                DimensionValueView::Text(t) => Some(t),
                DimensionValueView::Flag(_) => None,
            }
        } else {
            None
        }
    }
}

impl PredicateView {
    /// Whether the payment meets the predicate.
    pub open spec fn admits(self, record: PaymentRecord) -> bool {
        match self {
            PredicateView::OneOf { column, values } => match column {
                FilterColumn::OrganizationId => values.contains(
                    DimensionValueView::Text(record.organization_id),
                ),
                FilterColumn::Dimension(d) => record.values.contains_key(d) && values.contains(
                    record.values[d],
                ),
            },
            PredicateView::Within { start, end } => start <= record.event_time < end,
        }
    }
}

impl PaymentFiltersView {
    /// Whether the payment passes the filters: in every restricted dimension
    /// it has one of the listed values.
    pub open spec fn passes(self, record: PaymentRecord) -> bool {
        forall|d: PaymentDimensions| #[trigger]
            self.restricts(d) ==> record.values.contains_key(d) && self.values(d).contains(
                record.values[d],
            )
    }
}

/// A payment with what a query can test of it: its organization, the time it
/// was made, in seconds since the Unix epoch, and its values in the dimensions
/// in which it has one. Where a dimension is listed twice, the first value
/// counts.
#[derive(Debug)]
pub struct Payment {
    pub organization_id: String,
    pub event_time: i64,
    pub values: Vec<(PaymentDimensions, DimensionValue)>,
}

/// The value that a list gives to a dimension: the first one listed for it.
pub open spec fn listed_value(
    values: Seq<(PaymentDimensions, DimensionValueView)>,
    dimension: PaymentDimensions,
) -> Option<DimensionValueView>
    decreases values.len(),
{
    if values.len() == 0 {
        None
    } else if values[0].0 == dimension {
        Some(values[0].1)
    } else {
        listed_value(values.drop_first(), dimension)
    }
}

impl DeepView for Payment {
    type V = PaymentRecord;

    open spec fn deep_view(&self) -> PaymentRecord {
        let listed = self.values.deep_view();
        PaymentRecord {
            organization_id: self.organization_id@,
            event_time: self.event_time as int,
            values: Map::new(
                |d: PaymentDimensions| listed_value(listed, d) is Some,
                |d: PaymentDimensions| listed_value(listed, d).unwrap(),
            ),
        }
    }
}

impl View for Payment {
    type V = PaymentRecord;

    open spec fn view(&self) -> PaymentRecord {
        self.deep_view()
    }
}

/// Whether the value is among the values.
pub fn holds_value(values: &Vec<DimensionValue>, value: &DimensionValue) -> (r: bool)
    ensures
        r == values.deep_view().contains(value@),
{
    let mut i: usize = 0;
    while i < values.len()
        invariant
            i <= values.len(),
            forall|k: int| 0 <= k < i ==> values@[k]@ != value@,
        decreases values.len() - i,
    {
        if values[i] == *value {
            proof {
                assert(values.deep_view()[i as int] == value@);
            }
            return true;
        }
        i += 1;
    }
    proof {
        let all = values.deep_view();
        assert forall|k: int| 0 <= k < all.len() implies all[k] != value@ by {
            assert(all[k] == values@[k]@);
        }
    }
    false
}

impl Payment {
    /// The value that the payment has in a dimension, if it has one.
    pub fn value(&self, dimension: PaymentDimensions) -> (value: Option<&DimensionValue>)
        ensures
            match value {
                Some(v) => self@.values.contains_key(dimension) && self@.values[dimension] == v@,
                None => !self@.values.contains_key(dimension),
            },
    {
        let ghost listed = self.values.deep_view();
        let mut i: usize = 0;
        proof {
            assert(listed.skip(0) =~= listed);
        }
        while i < self.values.len()
            invariant
                i <= self.values.len(),
                listed == self.values.deep_view(),
                listed_value(listed, dimension) == listed_value(listed.skip(i as int), dimension),
            decreases self.values.len() - i,
        {
            proof {
                let rest = listed.skip(i as int);
                assert(rest[0] == listed[i as int]);
                assert(listed[i as int] == (self.values@[i as int].0, self.values@[i as int].1@));
                assert(rest.drop_first() =~= listed.skip(i + 1));
            }
            if self.values[i].0 == dimension {
                return Some(&self.values[i].1);
            }
            i += 1;
        }
        proof {
            assert(listed.skip(self.values.len() as int).len() == 0);
        }
        None
    }
}

impl Predicate {
    /// Whether the payment meets the predicate.
    pub fn admits(&self, payment: &Payment) -> (r: bool)
        ensures
            r == self@.admits(payment@),
    {
        match self {
            Predicate::OneOf { column, values } => match column {
                FilterColumn::OrganizationId => holds_value(
                    values,
                    &DimensionValue::Text(payment.organization_id.clone()),
                ),
                FilterColumn::Dimension(d) => match payment.value(*d) {
                    Some(value) => holds_value(values, value),
                    None => false,
                },
            },
            Predicate::Within { start, end } => *start <= payment.event_time && payment.event_time
                < *end,
        }
    }
}

/// The logical plan of a query.
#[derive(Debug)]
pub struct QueryPlan {
    pub collection: AnalyticsCollection,
    pub select: Vec<SelectColumn>,
    pub predicates: Vec<Predicate>,
    pub group_by: Vec<GroupKey>,
}

/// Mathematical model of a [`QueryPlan`].
pub struct QueryPlanView {
    pub collection: AnalyticsCollection,
    pub select: Seq<SelectColumn>,
    pub predicates: Seq<PredicateView>,
    pub group_by: Seq<GroupKey>,
}

impl DeepView for QueryPlan {
    type V = QueryPlanView;

    open spec fn deep_view(&self) -> QueryPlanView {
        QueryPlanView {
            collection: self.collection,
            select: self.select@,
            predicates: self.predicates.deep_view(),
            group_by: self.group_by@,
        }
    }
}

impl View for QueryPlan {
    type V = QueryPlanView;

    open spec fn view(&self) -> QueryPlanView {
        self.deep_view()
    }
}

impl QueryPlanView {
    /// Whether the query reads the payment: it meets every predicate.
    pub open spec fn reads(self, record: PaymentRecord) -> bool {
        forall|i: int| 0 <= i < self.predicates.len() ==> (#[trigger] self.predicates[i]).admits(
            record,
        )
    }
}

impl QueryPlan {
    /// Whether the query reads the payment: it meets every predicate.
    pub fn reads(&self, payment: &Payment) -> (r: bool)
        ensures
            r == self@.reads(payment@),
    {
        let mut i: usize = 0;
        while i < self.predicates.len()
            invariant
                i <= self.predicates.len(),
                forall|k: int| 0 <= k < i ==> (#[trigger] self@.predicates[k]).admits(payment@),
            decreases self.predicates.len() - i,
        {
            proof {
                assert(self@.predicates[i as int] == self.predicates@[i as int]@);
            }
            if !self.predicates[i].admits(payment) {
                return false;
            }
            i += 1;
        }
        true
    }
}

/// The texts as values of a dimension.
pub open spec fn as_texts(texts: Seq<Seq<char>>) -> Seq<DimensionValueView> {
    texts.map_values(|t: Seq<char>| DimensionValueView::Text(t))
}

/// The predicates that keep a query inside an authorization scope: one on the
/// organization, then one on the merchants and one on the profiles as far as
/// the scope restricts them.
pub open spec fn scope_predicates(auth: AuthInfoView) -> Seq<PredicateView> {
    match auth {
        AuthInfoView::OrgLevel { org_id } => seq![
            PredicateView::OneOf { column: FilterColumn::OrganizationId, values: as_texts(seq![org_id]) },
        ],
        AuthInfoView::MerchantLevel { org_id, merchant_ids } => seq![
            PredicateView::OneOf { column: FilterColumn::OrganizationId, values: as_texts(seq![org_id]) },
            PredicateView::OneOf {
                column: FilterColumn::Dimension(PaymentDimensions::MerchantId),
                values: as_texts(merchant_ids),
            },
        ],
        AuthInfoView::ProfileLevel { org_id, merchant_id, profile_ids } => seq![
            PredicateView::OneOf { column: FilterColumn::OrganizationId, values: as_texts(seq![org_id]) },
            PredicateView::OneOf {
                column: FilterColumn::Dimension(PaymentDimensions::MerchantId),
                values: as_texts(seq![merchant_id]),
            },
            PredicateView::OneOf {
                column: FilterColumn::Dimension(PaymentDimensions::ProfileId),
                values: as_texts(profile_ids),
            },
        ],
    }
}

/// The predicates of the filters on the first `count` dimensions: one for each
/// restricted dimension, in the order of the dimensions.
pub open spec fn filter_predicates_upto(filters: PaymentFiltersView, count: nat) -> Seq<
    PredicateView,
>
    decreases count,
{
    if count == 0 {
        Seq::empty()
    } else {
        let d = PaymentDimensions::at((count - 1) as nat);
        let before = filter_predicates_upto(filters, (count - 1) as nat);
        if filters.restricts(d) {
            before.push(
                PredicateView::OneOf { column: FilterColumn::Dimension(d), values: filters.values(d) },
            )
        } else {
            before
        }
    }
}

/// The predicates of the filters: one for each restricted dimension, in the
/// order of the dimensions.
pub open spec fn filter_predicates(filters: PaymentFiltersView) -> Seq<PredicateView> {
    filter_predicates_upto(filters, DIMENSION_COUNT as nat)
}

/// The texts as values of a dimension.
pub fn text_values(texts: &Vec<String>) -> (values: Vec<DimensionValue>)
    ensures
        values.deep_view() == as_texts(texts.deep_view()),
{
    let mut values: Vec<DimensionValue> = Vec::new();
    let mut i: usize = 0;
    while i < texts.len()
        invariant
            i <= texts.len(),
            values@.len() == i,
            forall|k: int| 0 <= k < i ==> (#[trigger] values@[k])@ == DimensionValueView::Text(
                texts@[k]@,
            ),
        decreases texts.len() - i,
    {
        values.push(DimensionValue::Text(texts[i].clone()));
        i += 1;
    }
    proof {
        assert(values.deep_view() =~= as_texts(texts.deep_view()));
    }
    values
}

/// One text as the only value of a dimension.
fn single_text(text: &String) -> (values: Vec<DimensionValue>)
    ensures
        values.deep_view() == as_texts(seq![text@]),
{
    let mut values: Vec<DimensionValue> = Vec::new();
    values.push(DimensionValue::Text(text.clone()));
    proof {
        assert(values.deep_view() =~= as_texts(seq![text@]));
    }
    values
}

impl AuthInfo {
    /// The predicates that keep a query inside the scope.
    pub fn predicates(&self) -> (predicates: Vec<Predicate>)
        ensures
            predicates.deep_view() == scope_predicates(self@),
            predicates@.len() > 0,
    {
        let mut predicates: Vec<Predicate> = Vec::new();
        match self {
            AuthInfo::OrgLevel { org_id } => {
                predicates.push(
                    Predicate::OneOf {
                        column: FilterColumn::OrganizationId,
                        values: single_text(org_id),
                    },
                );
            },
            AuthInfo::MerchantLevel { org_id, merchant_ids } => {
                predicates.push(
                    Predicate::OneOf {
                        column: FilterColumn::OrganizationId,
                        values: single_text(org_id),
                    },
                );
                predicates.push(
                    Predicate::OneOf {
                        column: FilterColumn::Dimension(PaymentDimensions::MerchantId),
                        values: text_values(merchant_ids),
                    },
                );
            },
            AuthInfo::ProfileLevel { org_id, merchant_id, profile_ids } => {
                predicates.push(
                    Predicate::OneOf {
                        column: FilterColumn::OrganizationId,
                        values: single_text(org_id),
                    },
                );
                predicates.push(
                    Predicate::OneOf {
                        column: FilterColumn::Dimension(PaymentDimensions::MerchantId),
                        values: single_text(merchant_id),
                    },
                );
                predicates.push(
                    Predicate::OneOf {
                        column: FilterColumn::Dimension(PaymentDimensions::ProfileId),
                        values: text_values(profile_ids),
                    },
                );
            },
        }
        proof {
            assert(predicates.deep_view() =~= scope_predicates(self@));
        }
        predicates
    }
}

/// A copy of the values.
pub fn copy_values(values: &Vec<DimensionValue>) -> (copy: Vec<DimensionValue>)
    ensures
        copy.deep_view() == values.deep_view(),
{
    let mut copy: Vec<DimensionValue> = Vec::new();
    let mut i: usize = 0;
    while i < values.len()
        invariant
            i <= values.len(),
            copy@.len() == i,
            forall|k: int| 0 <= k < i ==> (#[trigger] copy@[k])@ == values@[k]@,
        decreases values.len() - i,
    {
        copy.push(values[i].clone());
        i += 1;
    }
    proof {
        assert(copy.deep_view() =~= values.deep_view());
    }
    copy
}

impl PaymentFilters {
    /// The predicates of the filters: one for each restricted dimension, in
    /// the order of the dimensions.
    pub fn predicates(&self) -> (predicates: Vec<Predicate>)
        ensures
            predicates.deep_view() == filter_predicates(self@),
    {
        let mut predicates: Vec<Predicate> = Vec::new();
        let mut i: usize = 0;
        proof {
            assert(predicates.deep_view() =~= filter_predicates_upto(self@, 0));
        }
        while i < DIMENSION_COUNT
            invariant
                i <= DIMENSION_COUNT,
                predicates.deep_view() == filter_predicates_upto(self@, i as nat),
            decreases DIMENSION_COUNT - i,
        {
            let ghost before = predicates.deep_view();
            match PaymentDimensions::from_index(i) {
                Some(d) => {
                    let listed = self.values(d);
                    if listed.len() > 0 {
                        let values = copy_values(listed);
                        predicates.push(
                            Predicate::OneOf { column: FilterColumn::Dimension(d), values },
                        );
                        proof {
                            assert(predicates.deep_view() =~= before.push(
                                PredicateView::OneOf {
                                    column: FilterColumn::Dimension(d),
                                    values: self@.values(d),
                                },
                            ));
                        }
                    }
                },
                None => {},
            }
            i += 1;
        }
        predicates
    }
}

/// The columns that carry the bounds of a bucket; none without a granularity.
pub open spec fn bucket_columns(granularity: Option<Granularity>) -> Seq<SelectColumn> {
    match granularity {
        Some(g) => seq![SelectColumn::BucketStart(g), SelectColumn::BucketEnd(g)],
        None => Seq::empty(),
    }
}

/// The key that groups by bucket; none without a granularity.
pub open spec fn bucket_keys(granularity: Option<Granularity>) -> Seq<GroupKey> {
    match granularity {
        Some(g) => seq![GroupKey::Bucket(g)],
        None => Seq::empty(),
    }
}

/// What a metric kind declares: where its records are, which dimensions it
/// can be grouped and filtered by, which measures it computes, and whether a
/// request must name a dimension.
#[derive(Debug)]
pub struct KindDeclaration {
    collection: AnalyticsCollection,
    dimensions: Vec<PaymentDimensions>,
    filters: Vec<PaymentDimensions>,
    measures: Vec<Measure>,
    needs_dimension: bool,
}

/// Mathematical model of a [`KindDeclaration`].
pub struct KindDeclarationView {
    pub collection: AnalyticsCollection,
    pub dimensions: Seq<PaymentDimensions>,
    pub filters: Seq<PaymentDimensions>,
    pub measures: Seq<Measure>,
    pub needs_dimension: bool,
}

impl View for KindDeclaration {
    type V = KindDeclarationView;

    closed spec fn view(&self) -> KindDeclarationView {
        KindDeclarationView {
            collection: self.collection,
            dimensions: self.dimensions@,
            filters: self.filters@,
            measures: self.measures@,
            needs_dimension: self.needs_dimension,
        }
    }
}

/// Whether no two measures fill the same field.
pub open spec fn distinct_fields(measures: Seq<Measure>) -> bool {
    forall|i: int, j: int| 0 <= i < j < measures.len() ==> measures[i].field != measures[j].field
}

impl KindDeclarationView {
    /// Whether the declaration has a measure, and no two of its measures fill
    /// the same field.
    pub open spec fn wf(self) -> bool {
        self.measures.len() > 0 && distinct_fields(self.measures)
    }

    /// Whether a request is legal for the kind: every dimension it groups by
    /// and every dimension it filters on is declared, and it names a dimension
    /// where the kind needs one.
    pub open spec fn allows(
        self,
        dimensions: Seq<PaymentDimensions>,
        filters: PaymentFiltersView,
    ) -> bool {
        &&& forall|i: int| 0 <= i < dimensions.len() ==> self.dimensions.contains(dimensions[i])
        &&& forall|d: PaymentDimensions| filters.restricts(d) ==> self.filters.contains(d)
        &&& self.needs_dimension ==> dimensions.len() > 0
    }

    /// The plan of a legal request: the selected dimensions, the measures and
    /// the bounds of the bucket as columns; the predicates of the scope, of the
    /// filters and of the time range; the groups by dimension and bucket.
    pub open spec fn plan(
        self,
        dimensions: Seq<PaymentDimensions>,
        auth: AuthInfoView,
        filters: PaymentFiltersView,
        granularity: Option<Granularity>,
        time_range: TimeRangeView,
    ) -> QueryPlanView {
        QueryPlanView {
            collection: self.collection,
            select: dimensions.map_values(|d: PaymentDimensions| SelectColumn::Dimension(d))
                + self.measures.map_values(|m: Measure| SelectColumn::Measure(m)) + bucket_columns(
                granularity,
            ),
            predicates: scope_predicates(auth) + filter_predicates(filters) + seq![
                PredicateView::Within { start: time_range.start, end: time_range.end },
            ],
            group_by: dimensions.map_values(|d: PaymentDimensions| GroupKey::Dimension(d))
                + bucket_keys(granularity),
        }
    }
}

impl KindDeclaration {
    /// A kind computes something, and fills no field twice.
    #[verifier::type_invariant]
    pub open spec fn wf(self) -> bool {
        self@.wf()
    }

    /// Declares a kind. Returns `None` when there is no measure, or when two
    /// measures fill the same field.
    pub fn new(
        collection: AnalyticsCollection,
        dimensions: Vec<PaymentDimensions>,
        filters: Vec<PaymentDimensions>,
        measures: Vec<Measure>,
        needs_dimension: bool,
    ) -> (r: Option<KindDeclaration>)
        ensures
            match r {
                Some(declaration) => declaration@ == (KindDeclarationView {
                    collection,
                    dimensions: dimensions@,
                    filters: filters@,
                    measures: measures@,
                    needs_dimension,
                }) && declaration@.wf(),
                None => measures@.len() == 0 || !distinct_fields(measures@),
            },
    {
        if measures.len() == 0 {
            return None;
        }
        let mut j: usize = 1;
        while j < measures.len()
            invariant
                1 <= j <= measures.len(),
                distinct_fields(measures@.take(j as int)),
            decreases measures.len() - j,
        {
            let mut i: usize = 0;
            while i < j
                invariant
                    i <= j < measures.len(),
                    forall|k: int| 0 <= k < i ==> measures@[k].field != measures@[j as int].field,
                decreases j - i,
            {
                if measures[i].field == measures[j].field {
                    return None;
                }
                i += 1;
            }
            proof {
                let longer = measures@.take(j + 1);
                let prefix = measures@.take(j as int);
                assert forall|a: int, b: int| 0 <= a < b < longer.len() implies longer[a].field
                    != longer[b].field by {
                    if b < j {
                        assert(prefix[a].field != prefix[b].field);
                    }
                }
            }
            j += 1;
        }
        proof {
            assert(measures@.take(measures.len() as int) =~= measures@);
        }
        Some(KindDeclaration { collection, dimensions, filters, measures, needs_dimension })
    }

    /// The collection that holds the records of the kind.
    pub fn collection(&self) -> (c: AnalyticsCollection)
        ensures
            c == self@.collection,
    {
        self.collection
    }

    /// The dimensions that the kind can be grouped by.
    pub fn dimensions(&self) -> (d: &Vec<PaymentDimensions>)
        ensures
            d@ == self@.dimensions,
    {
        &self.dimensions
    }

    /// The dimensions that the kind can be filtered on.
    pub fn filters(&self) -> (d: &Vec<PaymentDimensions>)
        ensures
            d@ == self@.filters,
    {
        &self.filters
    }

    /// The measures that the kind computes.
    pub fn measures(&self) -> (m: &Vec<Measure>)
        ensures
            m@ == self@.measures,
            self@.wf(),
    {
        proof {
            use_type_invariant(self);
        }
        &self.measures
    }

    /// Whether a request must name a dimension.
    pub fn needs_dimension(&self) -> (b: bool)
        ensures
            b == self@.needs_dimension,
    {
        self.needs_dimension
    }

    /// Whether a request is legal for the kind.
    pub fn allows(&self, dimensions: &[PaymentDimensions], filters: &PaymentFilters) -> (r: bool)
        ensures
            r == self@.allows(dimensions@, filters@),
    {
        if self.needs_dimension && dimensions.len() == 0 {
            return false;
        }
        let mut i: usize = 0;
        while i < dimensions.len()
            invariant
                i <= dimensions.len(),
                forall|k: int| 0 <= k < i ==> self@.dimensions.contains(dimensions@[k]),
            decreases dimensions.len() - i,
        {
            if !holds_dimension(self.dimensions.as_slice(), dimensions[i]) {
                return false;
            }
            i += 1;
        }
        let mut p: usize = 0;
        while p < DIMENSION_COUNT
            invariant
                p <= DIMENSION_COUNT,
                forall|d: PaymentDimensions|
                    d.ordinal() < p && filters@.restricts(d) ==> self@.filters.contains(d),
            decreases DIMENSION_COUNT - p,
        {
            match PaymentDimensions::from_index(p) {
                Some(d) => {
                    let listed = filters.values(d);
                    proof {
                        assert(listed.deep_view().len() == listed@.len());
                    }
                    if listed.len() > 0 && !holds_dimension(self.filters.as_slice(), d) {
                        proof {
                            assert(filters@.restricts(d) && !self@.filters.contains(d));
                        }
                        return false;
                    }
                    proof {
                        assert forall|e: PaymentDimensions|
                            e.ordinal() < p + 1 && filters@.restricts(e) implies self@.filters.contains(
                            e,
                        ) by {
                            e.lemma_ordinal_at();
                        }
                    }
                },
                None => {},
            }
            p += 1;
        }
        proof {
            assert forall|d: PaymentDimensions| filters@.restricts(d) implies self@.filters.contains(
                d,
            ) by {
                d.lemma_ordinal_at();
            }
        }
        true
    }

    /// The plan of a request, or `UnsupportedDimension` when the request is
    /// not legal for the kind.
    pub fn plan(
        &self,
        dimensions: &[PaymentDimensions],
        auth: &AuthInfo,
        filters: &PaymentFilters,
        granularity: Option<Granularity>,
        time_range: &TimeRange,
    ) -> (r: MetricsResult<QueryPlan>)
        ensures
            match r {
                Ok(plan) => self@.allows(dimensions@, filters@) && plan@ == self@.plan(
                    dimensions@,
                    auth@,
                    filters@,
                    granularity,
                    time_range@,
                ),
                Err(e) => !self@.allows(dimensions@, filters@) && e@
                    == crate::error::MetricsErrorView::UnsupportedDimension,
            },
    {
        if !self.allows(dimensions, filters) {
            return Err(MetricsError::UnsupportedDimension);
        }
        let mut select: Vec<SelectColumn> = Vec::new();
        let mut group_by: Vec<GroupKey> = Vec::new();
        let mut i: usize = 0;
        while i < dimensions.len()
            invariant
                i <= dimensions.len(),
                select@ == dimensions@.take(i as int).map_values(
                    |d: PaymentDimensions| SelectColumn::Dimension(d),
                ),
                group_by@ == dimensions@.take(i as int).map_values(
                    |d: PaymentDimensions| GroupKey::Dimension(d),
                ),
            decreases dimensions.len() - i,
        {
            select.push(SelectColumn::Dimension(dimensions[i]));
            group_by.push(GroupKey::Dimension(dimensions[i]));
            proof {
                let longer = dimensions@.take(i + 1);
                assert(select@ =~= longer.map_values(
                    |d: PaymentDimensions| SelectColumn::Dimension(d),
                ));
                assert(group_by@ =~= longer.map_values(
                    |d: PaymentDimensions| GroupKey::Dimension(d),
                ));
            }
            i += 1;
        }
        proof {
            assert(dimensions@.take(dimensions.len() as int) =~= dimensions@);
        }
        let ghost by_dimension = select@;
        let mut j: usize = 0;
        while j < self.measures.len()
            invariant
                j <= self.measures.len(),
                select@ == by_dimension + self.measures@.take(j as int).map_values(
                    |m: Measure| SelectColumn::Measure(m),
                ),
            decreases self.measures.len() - j,
        {
            select.push(SelectColumn::Measure(self.measures[j]));
            proof {
                assert(select@ =~= by_dimension + self.measures@.take(j + 1).map_values(
                    |m: Measure| SelectColumn::Measure(m),
                ));
            }
            j += 1;
        }
        proof {
            assert(self.measures@.take(self.measures.len() as int) =~= self.measures@);
        }
        match granularity {
            Some(g) => {
                select.push(SelectColumn::BucketStart(g));
                select.push(SelectColumn::BucketEnd(g));
                group_by.push(GroupKey::Bucket(g));
            },
            None => {},
        }
        let mut predicates = auth.predicates();
        let mut by_filter = filters.predicates();
        let ghost scope = predicates.deep_view();
        let ghost filtered = by_filter.deep_view();
        predicates.append(&mut by_filter);
        predicates.push(Predicate::Within { start: time_range.start(), end: time_range.end() });
        let plan = QueryPlan { collection: self.collection, select, predicates, group_by };
        proof {
            let expected = self@.plan(dimensions@, auth@, filters@, granularity, time_range@);
            assert(plan@.select =~= expected.select);
            assert(plan@.group_by =~= expected.group_by);
            assert(plan@.predicates =~= expected.predicates);
        }
        Ok(plan)
    }
}

/// A value is among texts taken as values exactly when it is one of the texts.
pub proof fn lemma_as_texts_contains(texts: Seq<Seq<char>>, value: DimensionValueView)
    ensures
        as_texts(texts).contains(value) <==> (value matches DimensionValueView::Text(t)
            && texts.contains(t)),
{
    let values = as_texts(texts);
    if values.contains(value) {
        let i = choose|i: int| 0 <= i < values.len() && values[i] == value;
        assert(texts[i] == value->Text_0);
    }
    if let DimensionValueView::Text(t) = value {
        if texts.contains(t) {
            let i = choose|i: int| 0 <= i < texts.len() && texts[i] == t;
            assert(values[i] == value);
        }
    }
}

/// A payment meets the predicates of a scope exactly when the scope admits
/// its organization, merchant and profile.
pub proof fn lemma_scope_predicates_admit(auth: AuthInfoView, record: PaymentRecord)
    ensures
        (forall|i: int|
            0 <= i < scope_predicates(auth).len() ==> (#[trigger] scope_predicates(
                auth,
            )[i]).admits(record)) <==> auth.admits(
            record.organization_id,
            record.text(PaymentDimensions::MerchantId),
            record.text(PaymentDimensions::ProfileId),
        ),
{
    let predicates = scope_predicates(auth);
    let organization = DimensionValueView::Text(record.organization_id);
    let merchant = PaymentDimensions::MerchantId;
    let profile = PaymentDimensions::ProfileId;
    lemma_as_texts_contains(seq![auth.org_id()], organization);
    assert(seq![auth.org_id()].contains(record.organization_id) <==> record.organization_id
        == auth.org_id()) by {
        if record.organization_id == auth.org_id() {
            assert(seq![auth.org_id()][0] == record.organization_id);
        }
    }
    assert(predicates[0].admits(record) <==> record.organization_id == auth.org_id());
    match auth {
        AuthInfoView::OrgLevel { org_id } => {},
        AuthInfoView::MerchantLevel { org_id, merchant_ids } => {
            if record.values.contains_key(merchant) {
                lemma_as_texts_contains(merchant_ids, record.values[merchant]);
            }
            assert(predicates[1].admits(record) <==> (record.text(merchant) matches Some(m)
                && merchant_ids.contains(m)));
        },
        AuthInfoView::ProfileLevel { org_id, merchant_id, profile_ids } => {
            if record.values.contains_key(merchant) {
                lemma_as_texts_contains(seq![merchant_id], record.values[merchant]);
                assert(seq![merchant_id].contains(merchant_id)) by {
                    assert(seq![merchant_id][0] == merchant_id);
                }
            }
            if record.values.contains_key(profile) {
                lemma_as_texts_contains(profile_ids, record.values[profile]);
            }
            assert(predicates[1].admits(record) <==> record.text(merchant) == Some(merchant_id));
            assert(predicates[2].admits(record) <==> (record.text(profile) matches Some(p)
                && profile_ids.contains(p)));
        },
    }
}

/// A payment meets the predicates of the filters on the first `count`
/// dimensions exactly when it has a listed value in each of those that are
/// restricted.
pub proof fn lemma_filter_predicates_admit(
    filters: PaymentFiltersView,
    count: nat,
    record: PaymentRecord,
)
    requires
        count <= DIMENSION_COUNT,
    ensures
        (forall|i: int|
            0 <= i < filter_predicates_upto(filters, count).len() ==> (
            #[trigger] filter_predicates_upto(filters, count)[i]).admits(record)) <==> (forall|
            d: PaymentDimensions,
        |
            d.ordinal() < count && #[trigger] filters.restricts(d)
                ==> record.values.contains_key(d) && filters.values(d).contains(record.values[d])),
    decreases count,
{
    if count > 0 {
        let before = filter_predicates_upto(filters, (count - 1) as nat);
        let all = filter_predicates_upto(filters, count);
        let d = PaymentDimensions::at((count - 1) as nat);
        lemma_filter_predicates_admit(filters, (count - 1) as nat, record);
        let met_before = forall|i: int| 0 <= i < before.len() ==> (#[trigger] before[i]).admits(record);
        let met_all = forall|i: int| 0 <= i < all.len() ==> (#[trigger] all[i]).admits(record);
        let passes_before = forall|e: PaymentDimensions|
            e.ordinal() < count - 1 && #[trigger] filters.restricts(e)
                ==> record.values.contains_key(e) && filters.values(e).contains(record.values[e]);
        let passes_all = forall|e: PaymentDimensions|
            e.ordinal() < count && #[trigger] filters.restricts(e) ==> record.values.contains_key(e)
                && filters.values(e).contains(record.values[e]);
        let here = record.values.contains_key(d) && filters.values(d).contains(record.values[d]);
        assert(d.ordinal() == count - 1);
        if filters.restricts(d) {
            let added = PredicateView::OneOf {
                column: FilterColumn::Dimension(d),
                values: filters.values(d),
            };
            assert(all == before.push(added));
            assert(added.admits(record) <==> here);
            if met_all {
                assert(all[before.len() as int].admits(record));
                assert forall|i: int| 0 <= i < before.len() implies (#[trigger] before[i]).admits(
                    record,
                ) by {
                    assert(all[i] == before[i]);
                }
            }
            if met_before && here {
                assert forall|i: int| 0 <= i < all.len() implies (#[trigger] all[i]).admits(
                    record,
                ) by {
                    if i < before.len() {
                        assert(all[i] == before[i]);
                    }
                }
            }
            assert(met_all <==> met_before && here);
        } else {
            assert(all == before);
        }
        if passes_all {
            assert(passes_before);
        }
        if passes_before && (filters.restricts(d) ==> here) {
            assert forall|e: PaymentDimensions|
                e.ordinal() < count && #[trigger] filters.restricts(e)
                    implies record.values.contains_key(e) && filters.values(e).contains(
                record.values[e],
            ) by {
                e.lemma_ordinal_at();
                if e.ordinal() == count - 1 {
                    assert(e == d);
                }
            }
        }
    }
}

impl KindDeclarationView {
    /// The payments that a plan reads are those that the scope admits, that
    /// pass the filters, and that were made in the time range. The predicates
    /// are joined by "and": a payment outside the scope is never read.
    pub proof fn lemma_plan_reads(
        self,
        dimensions: Seq<PaymentDimensions>,
        auth: AuthInfoView,
        filters: PaymentFiltersView,
        granularity: Option<Granularity>,
        time_range: TimeRangeView,
        record: PaymentRecord,
    )
        ensures
            self.plan(dimensions, auth, filters, granularity, time_range).reads(record) <==> {
                &&& auth.admits(
                    record.organization_id,
                    record.text(PaymentDimensions::MerchantId),
                    record.text(PaymentDimensions::ProfileId),
                )
                &&& filters.passes(record)
                &&& time_range.contains(record.event_time)
            },
    {
        let plan = self.plan(dimensions, auth, filters, granularity, time_range);
        let scope = scope_predicates(auth);
        let filtered = filter_predicates(filters);
        let within = PredicateView::Within { start: time_range.start, end: time_range.end };
        let all = plan.predicates;
        lemma_scope_predicates_admit(auth, record);
        lemma_filter_predicates_admit(filters, DIMENSION_COUNT as nat, record);
        let scope_met = forall|i: int| 0 <= i < scope.len() ==> (#[trigger] scope[i]).admits(record);
        let filters_met = forall|i: int|
            0 <= i < filtered.len() ==> (#[trigger] filtered[i]).admits(record);
        assert(filters_met <==> filters.passes(record)) by {
            if filters.passes(record) {
                assert forall|d: PaymentDimensions|
                    d.ordinal() < DIMENSION_COUNT && #[trigger] filters.restricts(d)
                        implies record.values.contains_key(d) && filters.values(d).contains(
                    record.values[d],
                ) by {}
            }
            if filters_met {
                assert forall|d: PaymentDimensions| #[trigger]
                    filters.restricts(d) implies record.values.contains_key(d) && filters.values(
                    d,
                ).contains(record.values[d]) by {
                    d.lemma_ordinal_at();
                }
            }
        }
        assert(all.len() == scope.len() + filtered.len() + 1);
        if plan.reads(record) {
            assert forall|i: int| 0 <= i < scope.len() implies (#[trigger] scope[i]).admits(
                record,
            ) by {
                assert(all[i] == scope[i]);
            }
            assert forall|i: int| 0 <= i < filtered.len() implies (#[trigger] filtered[i]).admits(
                record,
            ) by {
                assert(all[scope.len() + i] == filtered[i]);
            }
            assert(all[(scope.len() + filtered.len()) as int] == within);
        }
        if scope_met && filters_met && within.admits(record) {
            assert forall|i: int| 0 <= i < all.len() implies (#[trigger] all[i]).admits(record) by {
                if i < scope.len() {
                    assert(all[i] == scope[i]);
                } else if i < scope.len() + filtered.len() {
                    assert(all[i] == filtered[i - scope.len()]);
                } else {
                    assert(all[i] == within);
                }
            }
        }
    }
}

} // verus!
