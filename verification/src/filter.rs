//! Filters: for each dimension, the values that a payment may have in it.

use vstd::prelude::*;
use crate::dimension::{
    DimensionValue, DimensionValueView, PaymentDimensions, ValueKind, DIMENSION_COUNT,
};

verus! {

/// For each dimension, the values it is restricted to. A dimension with no
/// values is not restricted. A payment passes when, for every restricted
/// dimension, its value is one of those listed.
#[derive(Debug)]
pub struct PaymentFilters {
    slots: Vec<Vec<DimensionValue>>,
}

/// Mathematical model of a [`PaymentFilters`]: the listed values of each
/// dimension, at the dimension's ordinal.
pub struct PaymentFiltersView {
    pub allowed: Seq<Seq<DimensionValueView>>,
}

impl View for PaymentFilters {
    type V = PaymentFiltersView;

    closed spec fn view(&self) -> PaymentFiltersView {
        PaymentFiltersView { allowed: self.slots.deep_view() }
    }
}

impl DeepView for PaymentFilters {
    type V = PaymentFiltersView;

    open spec fn deep_view(&self) -> PaymentFiltersView {
        self@
    }
}

impl PaymentFiltersView {
    /// The values that the dimension is restricted to; none when it is not
    /// restricted.
    pub open spec fn values(self, dimension: PaymentDimensions) -> Seq<DimensionValueView> {
        self.allowed[dimension.ordinal() as int]
    }

    /// Whether the filters restrict the dimension.
    pub open spec fn restricts(self, dimension: PaymentDimensions) -> bool {
        self.values(dimension).len() > 0
    }

    /// Whether the filters hold a list for every dimension, and every listed
    /// value has the kind of its dimension.
    pub open spec fn wf(self) -> bool {
        &&& self.allowed.len() == DIMENSION_COUNT
        &&& forall|d: PaymentDimensions, i: int|
            0 <= i < self.values(d).len() ==> (#[trigger] self.values(d)[i]).kind() == d.kind()
    }

    /// Whether every value has the given kind.
    pub open spec fn all_of_kind(values: Seq<DimensionValueView>, kind: ValueKind) -> bool {
        forall|i: int| 0 <= i < values.len() ==> (#[trigger] values[i]).kind() == kind
    }
}

impl PaymentFilters {
    /// There is a list for every dimension, and every listed value has the
    /// kind of its dimension.
    #[verifier::type_invariant]
    pub closed spec fn inv(self) -> bool {
        &&& self.slots@.len() == DIMENSION_COUNT
        &&& forall|p: int, k: int|
            0 <= p < DIMENSION_COUNT && 0 <= k < self.slots@[p]@.len() ==> (
            #[trigger] self.slots@[p]@[k])@.kind() == PaymentDimensions::at(p as nat).kind()
    }

    /// Filters are well formed.
    pub proof fn lemma_wf(self)
        requires
            self.inv(),
        ensures
            self@.wf(),
    {
        assert forall|d: PaymentDimensions, i: int| 0 <= i < self@.values(d).len() implies (
        #[trigger] self@.values(d)[i]).kind() == d.kind() by {
            d.lemma_ordinal_at();
            let p = d.ordinal() as int;
            assert(self@.values(d)[i] == self.slots@[p]@[i]@);
        }
    }

    /// Filters that restrict nothing.
    pub fn new() -> (filters: PaymentFilters)
        ensures
            filters@.wf(),
            forall|d: PaymentDimensions| !filters@.restricts(d),
    {
        let mut slots: Vec<Vec<DimensionValue>> = Vec::new();
        let mut i: usize = 0;
        while i < DIMENSION_COUNT
            invariant
                i <= DIMENSION_COUNT,
                slots@.len() == i,
                forall|k: int| 0 <= k < i ==> (#[trigger] slots@[k])@.len() == 0,
            decreases DIMENSION_COUNT - i,
        {
            slots.push(Vec::new());
            i += 1;
        }
        let filters = PaymentFilters { slots };
        proof {
            filters.lemma_wf();
            assert forall|d: PaymentDimensions| !filters@.restricts(d) by {
                d.lemma_ordinal_at();
                assert(filters@.values(d) =~= slots@[d.ordinal() as int].deep_view());
            }
        }
        filters
    }

    /// Restricts a dimension to the given values, in place of those it was
    /// restricted to before; with no values, lifts the restriction. Returns
    /// whether it did so: a value that is not of the dimension's kind leaves
    /// the filters as they were.
    pub fn set(&mut self, dimension: PaymentDimensions, values: Vec<DimensionValue>) -> (done: bool)
        ensures
            final(self)@.wf(),
            done == PaymentFiltersView::all_of_kind(values.deep_view(), dimension.kind()),
            done ==> final(self)@.values(dimension) == values.deep_view(),
            done ==> forall|d: PaymentDimensions|
                d != dimension ==> final(self)@.values(d) == old(self)@.values(d),
            !done ==> final(self)@ == old(self)@,
    {
        proof {
            use_type_invariant(&*self);
            self.lemma_wf();
        }
        let kind = dimension.value_kind();
        let mut i: usize = 0;
        while i < values.len()
            invariant
                i <= values.len(),
                kind == dimension.kind(),
                self@.wf(),
                PaymentFiltersView::all_of_kind(values.deep_view().take(i as int), kind),
            decreases values.len() - i,
        {
            if values[i].value_kind() != kind {
                proof {
                    let listed = values.deep_view();
                    assert(listed[i as int] == values@[i as int]@);
                    assert(listed[i as int].kind() != dimension.kind());
                }
                return false;
            }
            proof {
                assert(values.deep_view()[i as int] == values@[i as int]@);
                let seen = values.deep_view().take(i as int);
                let longer = values.deep_view().take(i + 1);
                assert forall|k: int| 0 <= k < longer.len() implies (#[trigger] longer[k]).kind()
                    == kind by {
                    if k < i {
                        assert(seen[k] == longer[k]);
                    }
                }
            }
            i += 1;
        }
        proof {
            assert(values.deep_view().take(values.len() as int) =~= values.deep_view());
        }
        let ghost before = self@;
        let ghost listed = values.deep_view();
        let position = dimension.index();
        proof {
            dimension.lemma_ordinal_at();
            assert forall|k: int| 0 <= k < values@.len() implies (#[trigger] values@[k])@.kind()
                == PaymentDimensions::at(position as nat).kind() by {
                assert(listed[k] == values@[k]@);
            }
        }
        let mut taken = PaymentFilters::new();
        core::mem::swap(self, &mut taken);
        let PaymentFilters { slots: mut slots } = taken;
        slots[position] = values;
        *self = PaymentFilters { slots };
        proof {
            self.lemma_wf();
            assert(self@.allowed =~= before.allowed.update(position as int, listed));
            assert forall|d: PaymentDimensions| d != dimension implies self@.values(d)
                == before.values(d) by {
                d.lemma_ordinal_at();
            }
        }
        true
    }

    /// The values that the dimension is restricted to; none when it is not
    /// restricted.
    pub fn values(&self, dimension: PaymentDimensions) -> (listed: &Vec<DimensionValue>)
        ensures
            listed.deep_view() == self@.values(dimension),
    {
        proof {
            use_type_invariant(self);
            dimension.lemma_ordinal_at();
        }
        &self.slots[dimension.index()]
    }
}

} // verus!
