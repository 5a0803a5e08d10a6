//! The identity of a bucket: the values of the selected dimensions and the
//! time window.

use vstd::prelude::*;
use crate::dimension::{distinct_dimensions, DimensionValue, DimensionValueView, PaymentDimensions};
use crate::error::{MetricsError, MetricsErrorView, MetricsResult};
use crate::granularity::Granularity;
use crate::row::{PaymentDistributionRow, PaymentDistributionRowView};

verus! {

/// What tells one bucket of a result from another: the value of each selected
/// dimension, in the order in which the dimensions were selected, and the time
/// window of the bucket. A dimension without a value is a bucket of its own:
/// `None` is not a wildcard. The window is `None` for a query without a
/// granularity.
#[derive(Debug, Eq, Hash)]
pub struct PaymentMetricsBucketIdentifier {
    pub dimension_values: Vec<(PaymentDimensions, Option<DimensionValue>)>,
    pub time_window: Option<(i64, i64)>,
}

/// Mathematical model of a [`PaymentMetricsBucketIdentifier`].
pub struct BucketIdentifierView {
    pub dimension_values: Seq<(PaymentDimensions, Option<DimensionValueView>)>,
    pub time_window: Option<(i64, i64)>,
}

impl DeepView for PaymentMetricsBucketIdentifier {
    type V = BucketIdentifierView;

    open spec fn deep_view(&self) -> BucketIdentifierView {
        BucketIdentifierView {
            dimension_values: self.dimension_values.deep_view(),
            time_window: self.time_window,
        }
    }
}

impl View for PaymentMetricsBucketIdentifier {
    type V = BucketIdentifierView;

    open spec fn view(&self) -> BucketIdentifierView {
        self.deep_view()
    }
}

impl BucketIdentifierView {
    /// The dimensions of the identifier, in order.
    pub open spec fn dimensions(self) -> Seq<PaymentDimensions> {
        self.dimension_values.map_values(
            |pair: (PaymentDimensions, Option<DimensionValueView>)| pair.0,
        )
    }
}

/// Whether two values that may be absent are the same.
fn same_value(first: &Option<DimensionValue>, second: &Option<DimensionValue>) -> (r: bool)
    ensures
        r == (first.deep_view() == second.deep_view()),
{
    match (first, second) {
        (Some(a), Some(b)) => *a == *b,
        (None, None) => true,
        _ => false,
    }
}

impl PartialEq for PaymentMetricsBucketIdentifier {
    /// Two identifiers are equal when they hold the same dimensions with the
    /// same values in the same order, and the same time window.
    fn eq(&self, other: &PaymentMetricsBucketIdentifier) -> (r: bool) {
        let same_window = match (self.time_window, other.time_window) {
            (Some(a), Some(b)) => a.0 == b.0 && a.1 == b.1,
            (None, None) => true,
            _ => false,
        };
        if !same_window || self.dimension_values.len() != other.dimension_values.len() {
            proof {
                assert(self@.dimension_values.len() == self.dimension_values@.len());
                assert(other@.dimension_values.len() == other.dimension_values@.len());
            }
            return false;
        }
        let mut i: usize = 0;
        while i < self.dimension_values.len()
            invariant
                i <= self.dimension_values.len(),
                self.dimension_values.len() == other.dimension_values.len(),
                forall|k: int|
                    0 <= k < i ==> self@.dimension_values[k] == other@.dimension_values[k],
            decreases self.dimension_values.len() - i,
        {
            let mine = &self.dimension_values[i];
            let theirs = &other.dimension_values[i];
            proof {
                assert(self@.dimension_values[i as int] == (mine.0, mine.1.deep_view()));
                assert(other@.dimension_values[i as int] == (theirs.0, theirs.1.deep_view()));
            }
            if !(mine.0 == theirs.0) || !same_value(&mine.1, &theirs.1) {
                return false;
            }
            i += 1;
        }
        proof {
            assert(self@.dimension_values =~= other@.dimension_values);
        }
        true
    }
}

impl vstd::std_specs::cmp::PartialEqSpecImpl for PaymentMetricsBucketIdentifier {
    open spec fn obeys_eq_spec() -> bool {
        true
    }

    open spec fn eq_spec(&self, other: &PaymentMetricsBucketIdentifier) -> bool {
        self@ == other@
    }
}

impl PaymentDistributionRowView {
    /// The values of the row in the given dimensions, each with its dimension.
    pub open spec fn dimension_values(self, dimensions: Seq<PaymentDimensions>) -> Seq<
        (PaymentDimensions, Option<DimensionValueView>),
    > {
        dimensions.map_values(|d: PaymentDimensions| (d, self.dimension(d)))
    }

    /// The time window of the row's bucket: none for a query without a
    /// granularity, else the bounds that the row carries. The outer `None`
    /// stands for a row that lacks a bound though the query has a granularity.
    pub open spec fn time_window(self, granularity: Option<Granularity>) -> Option<
        Option<(i64, i64)>,
    > {
        match granularity {
            None => Some(None),
            Some(_) => match (self.start_bucket, self.end_bucket) {
                (Some(start), Some(end)) => Some(Some((start, end))),
                _ => None,
            },
        }
    }

    /// The identifier of the row's bucket; `None` for a row that lacks a bound
    /// of its bucket though the query has a granularity.
    pub open spec fn identifier(
        self,
        dimensions: Seq<PaymentDimensions>,
        granularity: Option<Granularity>,
    ) -> Option<BucketIdentifierView> {
        match self.time_window(granularity) {
            Some(time_window) => Some(
                BucketIdentifierView {
                    dimension_values: self.dimension_values(dimensions),
                    time_window,
                },
            ),
            None => None,
        }
    }

    /// What a query groups the row by: its values in the selected dimensions
    /// and, under a granularity, the start of its bucket.
    pub open spec fn group_key(
        self,
        dimensions: Seq<PaymentDimensions>,
        granularity: Option<Granularity>,
    ) -> (Seq<Option<DimensionValueView>>, Option<i64>) {
        (
            dimensions.map_values(|d: PaymentDimensions| self.dimension(d)),
            if granularity is Some {
                self.start_bucket
            } else {
                None
            },
        )
    }
}

impl PaymentMetricsBucketIdentifier {
    /// The identifier of a row's bucket: the row's value in each selected
    /// dimension and, under a granularity, the bounds of the bucket that the
    /// row carries. Fails with `DecodeFailure` for a row that lacks one of
    /// these bounds though the query has a granularity.
    pub fn of(
        row: &PaymentDistributionRow,
        dimensions: &[PaymentDimensions],
        granularity: Option<Granularity>,
    ) -> (r: MetricsResult<PaymentMetricsBucketIdentifier>)
        ensures
            match row@.identifier(dimensions@, granularity) {
                Some(identifier) => r matches Ok(found) && found@ == identifier,
                None => r matches Err(e) && e@ == MetricsErrorView::DecodeFailure,
            },
    {
        let time_window = match granularity {
            None => None,
            Some(_) => match (row.start_bucket, row.end_bucket) {
                (Some(start), Some(end)) => Some((start, end)),
                _ => {
                    return Err(MetricsError::DecodeFailure);
                },
            },
        };
        let mut dimension_values: Vec<(PaymentDimensions, Option<DimensionValue>)> = Vec::new();
        let mut i: usize = 0;
        while i < dimensions.len()
            invariant
                i <= dimensions.len(),
                dimension_values@.len() == i,
                forall|k: int|
                    0 <= k < i ==> (#[trigger] dimension_values@[k]).0 == dimensions@[k]
                        && dimension_values@[k].1.deep_view() == row@.dimension(dimensions@[k]),
            decreases dimensions.len() - i,
        {
            let d = dimensions[i];
            dimension_values.push((d, row.dimension(d)));
            i += 1;
        }
        let found = PaymentMetricsBucketIdentifier { dimension_values, time_window };
        proof {
            assert(found@.dimension_values =~= row@.dimension_values(dimensions@));
        }
        Ok(found)
    }
}

/// Two rows that a query groups apart are in different buckets: if they
/// differ in a selected dimension or, under a granularity, in the start of the
/// bucket, their identifiers differ.
pub proof fn lemma_groups_have_distinct_identifiers(
    first: PaymentDistributionRowView,
    second: PaymentDistributionRowView,
    dimensions: Seq<PaymentDimensions>,
    granularity: Option<Granularity>,
)
    requires
        first.identifier(dimensions, granularity) is Some,
        second.identifier(dimensions, granularity) is Some,
        first.group_key(dimensions, granularity) != second.group_key(dimensions, granularity),
    ensures
        first.identifier(dimensions, granularity) != second.identifier(dimensions, granularity),
{
    let a = first.identifier(dimensions, granularity).unwrap();
    let b = second.identifier(dimensions, granularity).unwrap();
    if a == b {
        let values_a = first.group_key(dimensions, granularity).0;
        let values_b = second.group_key(dimensions, granularity).0;
        assert forall|i: int| 0 <= i < dimensions.len() implies values_a[i] == values_b[i] by {
            assert(a.dimension_values[i] == (dimensions[i], first.dimension(dimensions[i])));
            assert(b.dimension_values[i] == (dimensions[i], second.dimension(dimensions[i])));
        }
        assert(values_a =~= values_b);
        assert(false);
    }
}

/// Two rows in the same group have the same identifier, provided that the
/// end of a bucket follows from its start, as it does in what a data source
/// returns for one query.
pub proof fn lemma_group_has_one_identifier(
    first: PaymentDistributionRowView,
    second: PaymentDistributionRowView,
    dimensions: Seq<PaymentDimensions>,
    granularity: Option<Granularity>,
)
    requires
        first.group_key(dimensions, granularity) == second.group_key(dimensions, granularity),
        granularity is Some ==> first.end_bucket == second.end_bucket,
    ensures
        first.identifier(dimensions, granularity) == second.identifier(dimensions, granularity),
{
    let values_a = first.group_key(dimensions, granularity).0;
    let values_b = second.group_key(dimensions, granularity).0;
    assert forall|i: int| 0 <= i < dimensions.len() implies first.dimension_values(dimensions)[i]
        == second.dimension_values(dimensions)[i] by {
        assert(values_a[i] == first.dimension(dimensions[i]));
        assert(values_b[i] == second.dimension(dimensions[i]));
    }
    assert(first.dimension_values(dimensions) =~= second.dimension_values(dimensions));
}

/// The identifier of a row names each selected dimension once, in the order
/// of the selection: it is a map from dimension to value where no dimension
/// was selected twice.
pub proof fn lemma_identifier_is_ordered_map(
    row: PaymentDistributionRowView,
    dimensions: Seq<PaymentDimensions>,
    granularity: Option<Granularity>,
)
    requires
        row.identifier(dimensions, granularity) is Some,
    ensures
        row.identifier(dimensions, granularity).unwrap().dimensions() == dimensions,
        distinct_dimensions(dimensions) ==> distinct_dimensions(
            row.identifier(dimensions, granularity).unwrap().dimensions(),
        ),
{
    let identifier = row.identifier(dimensions, granularity).unwrap();
    assert(identifier.dimensions() =~= dimensions);
}

} // verus!
