//! Payment distributions: compiling a request into a query, and assembling
//! the rows that come back into buckets.

use vstd::prelude::*;
use crate::auth::{AuthInfo, AuthInfoView};
use crate::backend::{AnalyticsDataSource, Clickhouse, Postgres};
use crate::bucket::{BucketIdentifierView, PaymentMetricsBucketIdentifier};
use crate::dimension::PaymentDimensions;
use crate::error::{MetricsError, MetricsErrorView, MetricsResult};
use crate::filter::{PaymentFilters, PaymentFiltersView};
use crate::granularity::{Granularity, TimeRange, TimeRangeView};
use crate::plan::{
    AggregateFunction, AnalyticsCollection, KindDeclaration, KindDeclarationView, Measure,
    MeasureField, MeasureFunction, MeasureSource, PaymentRecord, SelectColumn,
};
use crate::render::{outcome, render_plan, rendered, CompiledQuery, CompiledQueryView};
use crate::row::{CellValue, CellView, PaymentDistributionRow, PaymentDistributionRowView};

verus! {

/// A data source whose rows can be read as rows of a payment distribution.
pub trait PaymentDistributionAnalytics: AnalyticsDataSource {
    /// Reads one row that the data source returned for a query with the given
    /// columns.
    fn load_row(&self, columns: &Vec<SelectColumn>, cells: &Vec<CellValue>) -> (r: MetricsResult<
        PaymentDistributionRow,
    >)
        ensures
            match PaymentDistributionRowView::decoded(columns@, cells.deep_view()) {
                Some(row) => r matches Ok(decoded) && decoded@ == row,
                None => r matches Err(e) && e@ == MetricsErrorView::DecodeFailure,
            },
    ;
}

impl PaymentDistributionAnalytics for Postgres {
    fn load_row(&self, columns: &Vec<SelectColumn>, cells: &Vec<CellValue>) -> (r: MetricsResult<
        PaymentDistributionRow,
    >) {
        PaymentDistributionRow::decode(columns, cells)
    }
}

impl PaymentDistributionAnalytics for Clickhouse {
    fn load_row(&self, columns: &Vec<SelectColumn>, cells: &Vec<CellValue>) -> (r: MetricsResult<
        PaymentDistributionRow,
    >) {
        PaymentDistributionRow::decode(columns, cells)
    }
}

/// The outcome of compiling a request of a kind for a data source: the query
/// that the plan of the request is written as, or `UnsupportedDimension` when
/// the request is not legal for the kind. Nothing is written for a request
/// that is not legal. A request is meant to name each dimension once; one that
/// names a dimension twice selects and groups by it twice.
pub open spec fn compiled<T: AnalyticsDataSource>(
    source: &T,
    declaration: KindDeclarationView,
    dimensions: Seq<PaymentDimensions>,
    auth: AuthInfoView,
    filters: PaymentFiltersView,
    granularity: Option<Granularity>,
    time_range: TimeRangeView,
) -> Result<CompiledQueryView, MetricsErrorView> {
    if declaration.allows(dimensions, filters) {
        rendered(
            source,
            declaration.plan(dimensions, auth, filters, granularity, time_range),
            dimensions,
            granularity,
        )
    } else {
        Err(MetricsErrorView::UnsupportedDimension)
    }
}

/// Compiles a request of a kind into a query for a data source.
pub fn compile_distribution<T: AnalyticsDataSource>(
    source: &T,
    declaration: &KindDeclaration,
    dimensions: &[PaymentDimensions],
    auth: &AuthInfo,
    filters: &PaymentFilters,
    granularity: Option<Granularity>,
    time_range: &TimeRange,
) -> (r: MetricsResult<CompiledQuery>)
    ensures
        outcome(r) == compiled(
            source,
            declaration@,
            dimensions@,
            auth@,
            filters@,
            granularity,
            time_range@,
        ),
{
    match declaration.plan(dimensions, auth, filters, granularity, time_range) {
        Ok(plan) => render_plan(source, plan, dimensions, granularity),
        Err(_) => Err(MetricsError::UnsupportedDimension),
    }
}

/// The bucket that a returned row stands for under a query: the row decoded
/// by the columns of the query, with the identifier of its bucket. `None` for
/// a row that cannot be decoded or that lacks a bound of its bucket.
pub open spec fn bucket_of(query: CompiledQueryView, cells: Seq<CellView>) -> Option<
    (BucketIdentifierView, PaymentDistributionRowView),
> {
    match PaymentDistributionRowView::decoded(query.plan.select, cells) {
        Some(row) => match row.identifier(query.dimensions, query.granularity) {
            Some(identifier) => Some((identifier, row)),
            None => None,
        },
        None => None,
    }
}

/// The buckets that the returned rows stand for, in the order of the rows;
/// `None` when one of the rows stands for none.
pub open spec fn assembled(query: CompiledQueryView, rows: Seq<Seq<CellView>>) -> Option<
    Seq<(BucketIdentifierView, PaymentDistributionRowView)>,
> {
    if forall|i: int| 0 <= i < rows.len() ==> bucket_of(query, #[trigger] rows[i]) is Some {
        Some(rows.map_values(|cells: Seq<CellView>| bucket_of(query, cells).unwrap()))
    } else {
        None
    }
}

/// Assembles the result of a query from the rows that the data source
/// returned: one bucket for each row, in the order of the rows. Fails with
/// `DecodeFailure`, and returns no bucket at all, when one of the rows cannot
/// be decoded.
pub fn assemble_distribution<T: PaymentDistributionAnalytics>(
    source: &T,
    query: &CompiledQuery,
    rows: &Vec<Vec<CellValue>>,
) -> (r: MetricsResult<Vec<(PaymentMetricsBucketIdentifier, PaymentDistributionRow)>>)
    ensures
        match assembled(query@, rows.deep_view()) {
            Some(buckets) => r matches Ok(found) && found.deep_view() == buckets,
            None => r matches Err(e) && e@ == MetricsErrorView::DecodeFailure,
        },
{
    let mut buckets: Vec<(PaymentMetricsBucketIdentifier, PaymentDistributionRow)> = Vec::new();
    let mut i: usize = 0;
    while i < rows.len()
        invariant
            i <= rows.len(),
            buckets@.len() == i,
            forall|k: int|
                0 <= k < i ==> bucket_of(query@, rows.deep_view()[k]) == Some(
                    (#[trigger] buckets@[k]).deep_view(),
                ),
        decreases rows.len() - i,
    {
        proof {
            assert(rows.deep_view()[i as int] == rows@[i as int].deep_view());
        }
        let row = match source.load_row(&query.plan.select, &rows[i]) {
            Ok(row) => row,
            Err(_) => {
                return Err(MetricsError::DecodeFailure);
            },
        };
        let identifier = match PaymentMetricsBucketIdentifier::of(
            &row,
            query.dimensions.as_slice(),
            query.granularity,
        ) {
            Ok(identifier) => identifier,
            Err(_) => {
                return Err(MetricsError::DecodeFailure);
            },
        };
        buckets.push((identifier, row));
        i += 1;
    }
    proof {
        let all = rows.deep_view();
        assert forall|k: int| 0 <= k < all.len() implies bucket_of(query@, #[trigger] all[k])
            is Some by {
            assert(bucket_of(query@, all[k]) == Some(buckets@[k].deep_view()));
        }
        assert(buckets.deep_view() =~= all.map_values(
            |cells: Seq<CellView>| bucket_of(query@, cells).unwrap(),
        ));
    }
    Ok(buckets)
}

/// Compiling the same request for the same data source always gives the same
/// outcome: two results of a compilation hold the same query, character for
/// character, or the same error.
pub proof fn lemma_compilation_is_deterministic<T: AnalyticsDataSource>(
    source: &T,
    declaration: KindDeclarationView,
    dimensions: Seq<PaymentDimensions>,
    auth: AuthInfoView,
    filters: PaymentFiltersView,
    granularity: Option<Granularity>,
    time_range: TimeRangeView,
    first: MetricsResult<CompiledQuery>,
    second: MetricsResult<CompiledQuery>,
)
    requires
        outcome(first) == compiled(
            source,
            declaration,
            dimensions,
            auth,
            filters,
            granularity,
            time_range,
        ),
        outcome(second) == compiled(
            source,
            declaration,
            dimensions,
            auth,
            filters,
            granularity,
            time_range,
        ),
    ensures
        outcome(first) == outcome(second),
        first is Ok <==> second is Ok,
        first matches Ok(a) ==> second matches Ok(b) ==> a.statement@ == b.statement@,
{
}

/// A request that names a dimension, or filters on one, that the kind does
/// not declare is answered with `UnsupportedDimension`, and no other request
/// is, but one that names no dimension where the kind needs one. No query is
/// written for such a request.
pub proof fn lemma_dimension_legality<T: AnalyticsDataSource>(
    source: &T,
    declaration: KindDeclarationView,
    dimensions: Seq<PaymentDimensions>,
    auth: AuthInfoView,
    filters: PaymentFiltersView,
    granularity: Option<Granularity>,
    time_range: TimeRangeView,
)
    ensures
        ({
            let result = compiled(
                source,
                declaration,
                dimensions,
                auth,
                filters,
                granularity,
                time_range,
            );
            &&& result == Err::<CompiledQueryView, MetricsErrorView>(
                MetricsErrorView::UnsupportedDimension,
            ) <==> !declaration.allows(dimensions, filters)
            &&& forall|i: int|
                0 <= i < dimensions.len() && !declaration.dimensions.contains(dimensions[i])
                    ==> result == Err::<CompiledQueryView, MetricsErrorView>(
                    MetricsErrorView::UnsupportedDimension,
                )
            &&& forall|d: PaymentDimensions|
                filters.restricts(d) && !declaration.filters.contains(d) ==> result == Err::<
                    CompiledQueryView,
                    MetricsErrorView,
                >(MetricsErrorView::UnsupportedDimension)
        }),
{
}

/// Every query is kept inside the scope it was compiled under. The
/// predicates of the scope come first among the predicates of the plan; each
/// predicate of the plan, written for the data source, is a predicate of the
/// query; the query reads the payments that meet all of them. So a payment
/// that the scope does not admit is never read.
pub proof fn lemma_scope_containment<T: AnalyticsDataSource>(
    source: &T,
    declaration: KindDeclarationView,
    dimensions: Seq<PaymentDimensions>,
    auth: AuthInfoView,
    filters: PaymentFiltersView,
    granularity: Option<Granularity>,
    time_range: TimeRangeView,
    record: PaymentRecord,
)
    requires
        compiled(source, declaration, dimensions, auth, filters, granularity, time_range) is Ok,
    ensures
        ({
            let query = compiled(
                source,
                declaration,
                dimensions,
                auth,
                filters,
                granularity,
                time_range,
            )->Ok_0;
            let scope = crate::plan::scope_predicates(auth);
            &&& scope.len() > 0
            &&& scope.len() <= query.plan.predicates.len()
            &&& forall|i: int| 0 <= i < scope.len() ==> query.plan.predicates[i] == scope[i]
            &&& query.predicates.len() == query.plan.predicates.len()
            &&& forall|i: int|
                0 <= i < query.predicates.len() ==> crate::render::predicate_text(
                    source,
                    query.plan.predicates[i],
                ) == Some(#[trigger] query.predicates[i])
            &&& query.statement == crate::render::statement_text(
                query.select,
                query.collection,
                query.predicates,
                query.group_by,
            )
            &&& query.plan.reads(record) ==> auth.admits(
                record.organization_id,
                record.text(PaymentDimensions::MerchantId),
                record.text(PaymentDimensions::ProfileId),
            )
            &&& !auth.admits(
                record.organization_id,
                record.text(PaymentDimensions::MerchantId),
                record.text(PaymentDimensions::ProfileId),
            ) ==> !query.plan.reads(record)
        }),
{
    declaration.lemma_plan_reads(dimensions, auth, filters, granularity, time_range, record);
}

/// A row in which every cell is null decodes to the row in which no field has
/// a value: nothing is put in the place of a null. In the identifier of its
/// bucket every selected dimension is without a value.
pub proof fn lemma_null_row_decodes_empty(
    columns: Seq<SelectColumn>,
    cells: Seq<CellView>,
    dimensions: Seq<PaymentDimensions>,
)
    requires
        cells.len() == columns.len(),
        forall|i: int| 0 <= i < cells.len() ==> cells[i] is Null,
    ensures
        PaymentDistributionRowView::decoded(columns, cells) == Some(
            PaymentDistributionRowView::empty(),
        ),
        forall|d: PaymentDimensions| PaymentDistributionRowView::empty().dimension(d) is None,
        PaymentDistributionRowView::empty().identifier(dimensions, None) is Some,
        forall|granularity: Option<Granularity>, i: int|
            0 <= i < dimensions.len() && PaymentDistributionRowView::empty().identifier(
                dimensions,
                granularity,
            ) is Some ==> (#[trigger] PaymentDistributionRowView::empty().identifier(
                dimensions,
                granularity,
            ).unwrap().dimension_values[i]) == (dimensions[i], None::<crate::dimension::DimensionValueView>),
{
    lemma_null_cells_decode_empty(columns, cells, columns.len());
}

proof fn lemma_null_cells_decode_empty(
    columns: Seq<SelectColumn>,
    cells: Seq<CellView>,
    count: nat,
)
    requires
        count <= columns.len() == cells.len(),
        forall|i: int| 0 <= i < cells.len() ==> cells[i] is Null,
    ensures
        PaymentDistributionRowView::decoded_upto(columns, cells, count) == Some(
            PaymentDistributionRowView::empty(),
        ),
    decreases count,
{
    if count > 0 {
        lemma_null_cells_decode_empty(columns, cells, (count - 1) as nat);
        assert(cells[count - 1] is Null);
    }
}

/// Whether the data source grouped the rows as the query asked: no two rows
/// agree in every selected dimension and, under a granularity, in the start of
/// the bucket.
pub open spec fn grouped_apart(
    query: CompiledQueryView,
    rows: Seq<(BucketIdentifierView, PaymentDistributionRowView)>,
) -> bool {
    forall|i: int, j: int|
        0 <= i < j < rows.len() ==> rows[i].1.group_key(query.dimensions, query.granularity)
            != rows[j].1.group_key(query.dimensions, query.granularity)
}

/// No two buckets of a result have the same identifier, provided that the data
/// source grouped the rows as the query asked. This holds with and without a
/// granularity; without one, there is at most one bucket for each combination
/// of values of the selected dimensions.
pub proof fn lemma_buckets_are_unique(query: CompiledQueryView, rows: Seq<Seq<CellView>>)
    requires
        assembled(query, rows) is Some,
        grouped_apart(query, assembled(query, rows).unwrap()),
    ensures
        forall|i: int, j: int|
            0 <= i < j < rows.len() ==> assembled(query, rows).unwrap()[i].0 != assembled(
                query,
                rows,
            ).unwrap()[j].0,
{
    let buckets = assembled(query, rows).unwrap();
    assert forall|i: int, j: int| 0 <= i < j < rows.len() implies buckets[i].0
        != buckets[j].0 by {
        assert(bucket_of(query, rows[i]) is Some);
        assert(bucket_of(query, rows[j]) is Some);
        crate::bucket::lemma_groups_have_distinct_identifiers(
            buckets[i].1,
            buckets[j].1,
            query.dimensions,
            query.granularity,
        );
    }
}

/// The kinds of payment distribution.
#[derive(Clone, Copy, Debug, PartialEq, Eq, Structural, Hash)]
pub enum PaymentDistributions {
    /// How the payments spread over the reasons for which they failed.
    PaymentErrorMessage,
}

/// Every dimension, in the order of their ordinals.
pub open spec fn every_dimension() -> Seq<PaymentDimensions> {
    seq![
        PaymentDimensions::Currency,
        PaymentDimensions::Status,
        PaymentDimensions::Connector,
        PaymentDimensions::AuthenticationType,
        PaymentDimensions::PaymentMethod,
        PaymentDimensions::PaymentMethodType,
        PaymentDimensions::ClientSource,
        PaymentDimensions::ClientVersion,
        PaymentDimensions::ProfileId,
        PaymentDimensions::CardNetwork,
        PaymentDimensions::MerchantId,
        PaymentDimensions::CardLast4,
        PaymentDimensions::CardIssuer,
        PaymentDimensions::ErrorReason,
        PaymentDimensions::FirstAttempt,
        PaymentDimensions::RoutingApproach,
    ]
}

/// Every dimension, in the order of their ordinals.
pub fn all_dimensions() -> (all: Vec<PaymentDimensions>)
    ensures
        all@ == every_dimension(),
{
    let mut all: Vec<PaymentDimensions> = Vec::new();
    all.push(PaymentDimensions::Currency);
    all.push(PaymentDimensions::Status);
    all.push(PaymentDimensions::Connector);
    all.push(PaymentDimensions::AuthenticationType);
    all.push(PaymentDimensions::PaymentMethod);
    all.push(PaymentDimensions::PaymentMethodType);
    all.push(PaymentDimensions::ClientSource);
    all.push(PaymentDimensions::ClientVersion);
    all.push(PaymentDimensions::ProfileId);
    all.push(PaymentDimensions::CardNetwork);
    all.push(PaymentDimensions::MerchantId);
    all.push(PaymentDimensions::CardLast4);
    all.push(PaymentDimensions::CardIssuer);
    all.push(PaymentDimensions::ErrorReason);
    all.push(PaymentDimensions::FirstAttempt);
    all.push(PaymentDimensions::RoutingApproach);
    proof {
        assert(all@ =~= every_dimension());
    }
    all
}

impl PaymentDistributions {
    /// What the kind declares. The distribution of error messages reads the
    /// payments, can be grouped and filtered by every dimension, and computes
    /// for each bucket the number of payments and the sum of their amounts.
    pub open spec fn declared(self) -> KindDeclarationView {
        match self {
            PaymentDistributions::PaymentErrorMessage => KindDeclarationView {
                collection: AnalyticsCollection::Payment,
                dimensions: every_dimension(),
                filters: every_dimension(),
                measures: seq![
                    Measure {
                        function: MeasureFunction::Aggregate(AggregateFunction::Count),
                        source: MeasureSource::Records,
                        field: MeasureField::Count,
                    },
                    Measure {
                        function: MeasureFunction::Aggregate(AggregateFunction::Sum),
                        source: MeasureSource::Amount,
                        field: MeasureField::Total,
                    },
                ],
                needs_dimension: false,
            },
        }
    }

    /// What the kind declares.
    pub fn declaration(&self) -> (declaration: KindDeclaration)
        ensures
            declaration@ == self.declared(),
    {
        match self {
            PaymentDistributions::PaymentErrorMessage => {
                let mut measures: Vec<Measure> = Vec::new();
                measures.push(
                    Measure {
                        function: MeasureFunction::Aggregate(AggregateFunction::Count),
                        source: MeasureSource::Records,
                        field: MeasureField::Count,
                    },
                );
                measures.push(
                    Measure {
                        function: MeasureFunction::Aggregate(AggregateFunction::Sum),
                        source: MeasureSource::Amount,
                        field: MeasureField::Total,
                    },
                );
                proof {
                    assert(measures@ =~= self.declared().measures);
                }
                match KindDeclaration::new(
                    AnalyticsCollection::Payment,
                    all_dimensions(),
                    all_dimensions(),
                    measures,
                    false,
                ) {
                    Some(declaration) => declaration,
                    None => vstd::pervasive::unreached(),
                }
            },
        }
    }
}

/// A kind of payment distribution, as the data source `T` is asked for it.
/// Loading a distribution takes two steps, between which the caller runs the
/// query: compiling the request, and collecting the buckets from the answer.
pub trait PaymentDistribution<T> where T: AnalyticsDataSource + PaymentDistributionAnalytics {
    /// What the kind declares.
    spec fn declares(&self) -> KindDeclarationView;

    /// Compiles a request for this kind of distribution into a query for a
    /// data source. Nothing is asked of the data source yet.
    fn compile(
        &self,
        dimensions: &[PaymentDimensions],
        auth: &AuthInfo,
        filters: &PaymentFilters,
        granularity: Option<Granularity>,
        time_range: &TimeRange,
        pool: &T,
    ) -> (r: MetricsResult<CompiledQuery>)
        ensures
            outcome(r) == compiled(
                pool,
                self.declares(),
                dimensions@,
                auth@,
                filters@,
                granularity,
                time_range@,
            ),
    ;

    /// Makes the result of a query out of what the data source answered. A
    /// failure that the data source reports is handed on as it is, as
    /// `BackendExecutionFailure`; the query is not run again. The rows of an
    /// answer are assembled into buckets, in the order of the rows; if one of
    /// them cannot be decoded, the result is `DecodeFailure` and no bucket.
    fn collect(
        &self,
        pool: &T,
        query: &CompiledQuery,
        answer: Result<Vec<Vec<CellValue>>, String>,
    ) -> (r: MetricsResult<Vec<(PaymentMetricsBucketIdentifier, PaymentDistributionRow)>>)
        ensures
            match answer {
                Ok(rows) => match assembled(query@, rows.deep_view()) {
                    Some(buckets) => r matches Ok(found) && found.deep_view() == buckets,
                    None => r matches Err(e) && e@ == MetricsErrorView::DecodeFailure,
                },
                Err(report) => r matches Err(e) && e@ == MetricsErrorView::BackendExecutionFailure(
                    report@,
                ),
            },
    ;
}

impl<T> PaymentDistribution<T> for PaymentDistributions where
    T: AnalyticsDataSource + PaymentDistributionAnalytics,
 {
    open spec fn declares(&self) -> KindDeclarationView {
        self.declared()
    }

    fn compile(
        &self,
        dimensions: &[PaymentDimensions],
        auth: &AuthInfo,
        filters: &PaymentFilters,
        granularity: Option<Granularity>,
        time_range: &TimeRange,
        pool: &T,
    ) -> (r: MetricsResult<CompiledQuery>) {
        match self {
            PaymentDistributions::PaymentErrorMessage => {
                let declaration = self.declaration();
                compile_distribution(
                    pool,
                    &declaration,
                    dimensions,
                    auth,
                    filters,
                    granularity,
                    time_range,
                )
            },
        }
    }

    fn collect(
        &self,
        pool: &T,
        query: &CompiledQuery,
        answer: Result<Vec<Vec<CellValue>>, String>,
    ) -> (r: MetricsResult<Vec<(PaymentMetricsBucketIdentifier, PaymentDistributionRow)>>) {
        match self {
            PaymentDistributions::PaymentErrorMessage => match answer {
                Ok(rows) => assemble_distribution(pool, query, &rows),
                Err(report) => Err(MetricsError::BackendExecutionFailure(report)),
            },
        }
    }
}

} // verus!
