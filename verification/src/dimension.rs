//! The attributes a metric can be grouped and filtered by, and their values.

use vstd::prelude::*;

verus! {

/// An attribute of a payment that a metric can be grouped by.
#[derive(Clone, Copy, Debug, PartialEq, Eq, Structural, Hash)]
pub enum PaymentDimensions {
    Currency,
    Status,
    Connector,
    AuthenticationType,
    PaymentMethod,
    PaymentMethodType,
    ClientSource,
    ClientVersion,
    ProfileId,
    CardNetwork,
    MerchantId,
    CardLast4,
    CardIssuer,
    ErrorReason,
    FirstAttempt,
    RoutingApproach,
}

/// What kind of value a dimension takes.
#[derive(Clone, Copy, Debug, PartialEq, Eq, Structural, Hash)]
pub enum ValueKind {
    Text,
    Flag,
}

/// Number of dimensions.
pub const DIMENSION_COUNT: usize = 16;

impl DeepView for PaymentDimensions {
    type V = PaymentDimensions;

    open spec fn deep_view(&self) -> PaymentDimensions {
        *self
    }
}

impl PaymentDimensions {
    /// Position of the dimension in the declaration order, from 0.
    pub open spec fn ordinal(self) -> nat {
        match self {
            PaymentDimensions::Currency => 0,
            PaymentDimensions::Status => 1,
            PaymentDimensions::Connector => 2,
            PaymentDimensions::AuthenticationType => 3,
            PaymentDimensions::PaymentMethod => 4,
            PaymentDimensions::PaymentMethodType => 5,
            PaymentDimensions::ClientSource => 6,
            PaymentDimensions::ClientVersion => 7,
            PaymentDimensions::ProfileId => 8,
            PaymentDimensions::CardNetwork => 9,
            PaymentDimensions::MerchantId => 10,
            PaymentDimensions::CardLast4 => 11,
            PaymentDimensions::CardIssuer => 12,
            PaymentDimensions::ErrorReason => 13,
            PaymentDimensions::FirstAttempt => 14,
            PaymentDimensions::RoutingApproach => 15,
        }
    }

    /// Position of the dimension in the declaration order, from 0.
    pub fn index(self) -> (i: usize)
        ensures
            i == self.ordinal(),
            i < DIMENSION_COUNT,
    {
        match self {
            PaymentDimensions::Currency => 0,
            PaymentDimensions::Status => 1,
            PaymentDimensions::Connector => 2,
            PaymentDimensions::AuthenticationType => 3,
            PaymentDimensions::PaymentMethod => 4,
            PaymentDimensions::PaymentMethodType => 5,
            PaymentDimensions::ClientSource => 6,
            PaymentDimensions::ClientVersion => 7,
            PaymentDimensions::ProfileId => 8,
            PaymentDimensions::CardNetwork => 9,
            PaymentDimensions::MerchantId => 10,
            PaymentDimensions::CardLast4 => 11,
            PaymentDimensions::CardIssuer => 12,
            PaymentDimensions::ErrorReason => 13,
            PaymentDimensions::FirstAttempt => 14,
            PaymentDimensions::RoutingApproach => 15,
        }
    }

    /// The dimension at a position of the declaration order.
    pub open spec fn at(ordinal: nat) -> PaymentDimensions {
        if ordinal == 0 {
            PaymentDimensions::Currency
        } else if ordinal == 1 {
            PaymentDimensions::Status
        } else if ordinal == 2 {
            PaymentDimensions::Connector
        } else if ordinal == 3 {
            PaymentDimensions::AuthenticationType
        } else if ordinal == 4 {
            PaymentDimensions::PaymentMethod
        } else if ordinal == 5 {
            PaymentDimensions::PaymentMethodType
        } else if ordinal == 6 {
            PaymentDimensions::ClientSource
        } else if ordinal == 7 {
            PaymentDimensions::ClientVersion
        } else if ordinal == 8 {
            PaymentDimensions::ProfileId
        } else if ordinal == 9 {
            PaymentDimensions::CardNetwork
        } else if ordinal == 10 {
            PaymentDimensions::MerchantId
        } else if ordinal == 11 {
            PaymentDimensions::CardLast4
        } else if ordinal == 12 {
            PaymentDimensions::CardIssuer
        } else if ordinal == 13 {
            PaymentDimensions::ErrorReason
        } else if ordinal == 14 {
            PaymentDimensions::FirstAttempt
        } else {
            PaymentDimensions::RoutingApproach
        }
    }

    /// Every dimension stands at its own position, and every position below
    /// the number of dimensions holds the dimension with that ordinal.
    pub broadcast proof fn lemma_ordinal_at(self)
        ensures
            #[trigger] self.ordinal() < DIMENSION_COUNT,
            Self::at(self.ordinal()) == self,
    {
    }

    /// The dimension at a position of the declaration order, or `None` when
    /// there is no such position.
    pub fn from_index(index: usize) -> (r: Option<PaymentDimensions>)
        ensures
            index < DIMENSION_COUNT ==> r == Some(Self::at(index as nat)) && Self::at(
                index as nat,
            ).ordinal() == index,
            index >= DIMENSION_COUNT ==> r is None,
    {
        match index {
            0 => Some(PaymentDimensions::Currency),
            1 => Some(PaymentDimensions::Status),
            2 => Some(PaymentDimensions::Connector),
            3 => Some(PaymentDimensions::AuthenticationType),
            4 => Some(PaymentDimensions::PaymentMethod),
            5 => Some(PaymentDimensions::PaymentMethodType),
            6 => Some(PaymentDimensions::ClientSource),
            7 => Some(PaymentDimensions::ClientVersion),
            8 => Some(PaymentDimensions::ProfileId),
            9 => Some(PaymentDimensions::CardNetwork),
            10 => Some(PaymentDimensions::MerchantId),
            11 => Some(PaymentDimensions::CardLast4),
            12 => Some(PaymentDimensions::CardIssuer),
            13 => Some(PaymentDimensions::ErrorReason),
            14 => Some(PaymentDimensions::FirstAttempt),
            15 => Some(PaymentDimensions::RoutingApproach),
            _ => None,
        }
    }

    /// The kind of value the dimension takes: a flag for `FirstAttempt`, text
    /// for every other dimension.
    pub open spec fn kind(self) -> ValueKind {
        if self == PaymentDimensions::FirstAttempt {
            ValueKind::Flag
        } else {
            ValueKind::Text
        }
    }

    /// The kind of value the dimension takes.
    pub fn value_kind(self) -> (k: ValueKind)
        ensures
            k == self.kind(),
    {
        match self {
            PaymentDimensions::FirstAttempt => ValueKind::Flag,
            _ => ValueKind::Text,
        }
    }

    /// Name of the column that stores the dimension.
    pub open spec fn column_text(self) -> Seq<char> {
        match self {
            PaymentDimensions::Currency => "currency"@,
            PaymentDimensions::Status => "status"@,
            PaymentDimensions::Connector => "connector"@,
            PaymentDimensions::AuthenticationType => "authentication_type"@,
            PaymentDimensions::PaymentMethod => "payment_method"@,
            PaymentDimensions::PaymentMethodType => "payment_method_type"@,
            PaymentDimensions::ClientSource => "client_source"@,
            PaymentDimensions::ClientVersion => "client_version"@,
            PaymentDimensions::ProfileId => "profile_id"@,
            PaymentDimensions::CardNetwork => "card_network"@,
            PaymentDimensions::MerchantId => "merchant_id"@,
            PaymentDimensions::CardLast4 => "card_last_4"@,
            PaymentDimensions::CardIssuer => "card_issuer"@,
            PaymentDimensions::ErrorReason => "error_reason"@,
            PaymentDimensions::FirstAttempt => "first_attempt"@,
            PaymentDimensions::RoutingApproach => "routing_approach"@,
        }
    }

    /// Name of the column that stores the dimension.
    pub fn column_name(self) -> (name: &'static str)
        ensures
            name@ == self.column_text(),
    {
        match self {
            PaymentDimensions::Currency => "currency",
            PaymentDimensions::Status => "status",
            PaymentDimensions::Connector => "connector",
            PaymentDimensions::AuthenticationType => "authentication_type",
            PaymentDimensions::PaymentMethod => "payment_method",
            PaymentDimensions::PaymentMethodType => "payment_method_type",
            PaymentDimensions::ClientSource => "client_source",
            PaymentDimensions::ClientVersion => "client_version",
            PaymentDimensions::ProfileId => "profile_id",
            PaymentDimensions::CardNetwork => "card_network",
            PaymentDimensions::MerchantId => "merchant_id",
            PaymentDimensions::CardLast4 => "card_last_4",
            PaymentDimensions::CardIssuer => "card_issuer",
            PaymentDimensions::ErrorReason => "error_reason",
            PaymentDimensions::FirstAttempt => "first_attempt",
            PaymentDimensions::RoutingApproach => "routing_approach",
        }
    }
}

/// Whether no dimension occurs twice in the list.
pub open spec fn distinct_dimensions(dimensions: Seq<PaymentDimensions>) -> bool {
    forall|i: int, j: int|
        0 <= i < j < dimensions.len() ==> dimensions[i] != dimensions[j]
}

/// Whether the dimension occurs in the list.
pub fn holds_dimension(dimensions: &[PaymentDimensions], dimension: PaymentDimensions) -> (r: bool)
    ensures
        r == dimensions@.contains(dimension),
{
    let mut i: usize = 0;
    while i < dimensions.len()
        invariant
            i <= dimensions.len(),
            forall|k: int| 0 <= k < i ==> dimensions@[k] != dimension,
        decreases dimensions.len() - i,
    {
        if dimensions[i] == dimension {
            return true;
        }
        i += 1;
    }
    false
}

/// Whether no dimension occurs twice in the list.
pub fn all_distinct(dimensions: &[PaymentDimensions]) -> (r: bool)
    ensures
        r == distinct_dimensions(dimensions@),
{
    let mut seen: [bool; 16] = [false; 16];
    let mut j: usize = 0;
    while j < dimensions.len()
        invariant
            j <= dimensions.len(),
            distinct_dimensions(dimensions@.take(j as int)),
            forall|d: PaymentDimensions|
                seen[#[trigger] d.ordinal() as int] == dimensions@.take(j as int).contains(d),
        decreases dimensions.len() - j,
    {
        let d = dimensions[j];
        let k = d.index();
        if seen[k] {
            proof {
                let prefix = dimensions@.take(j as int);
                let i = choose|i: int| 0 <= i < prefix.len() && prefix[i] == d;
                assert(dimensions@[i] == dimensions@[j as int]);
            }
            return false;
        }
        let ghost before = seen@;
        seen[k] = true;
        proof {
            let prefix = dimensions@.take(j as int);
            let longer = dimensions@.take(j + 1);
            assert(longer =~= prefix.push(d));
            assert forall|a: int, b: int| 0 <= a < b < longer.len() implies longer[a]
                != longer[b] by {
                if b == j {
                    if longer[a] == d {
                        assert(prefix[a] == d);
                        assert(prefix.contains(d));
                    }
                } else {
                    assert(prefix[a] != prefix[b]);
                }
            }
            assert forall|e: PaymentDimensions|
                seen[#[trigger] e.ordinal() as int] == longer.contains(e) by {
                e.lemma_ordinal_at();
                d.lemma_ordinal_at();
                if e == d {
                    assert(longer[j as int] == d);
                } else {
                    assert(e.ordinal() != d.ordinal());
                    assert(before[e.ordinal() as int] == prefix.contains(e));
                    if prefix.contains(e) {
                        let i = choose|i: int| 0 <= i < prefix.len() && prefix[i] == e;
                        assert(longer[i] == e);
                    }
                    if longer.contains(e) {
                        let i = choose|i: int| 0 <= i < longer.len() && longer[i] == e;
                        assert(prefix[i] == e);
                    }
                }
            }
        }
        j += 1;
    }
    proof {
        assert(dimensions@.take(dimensions.len() as int) =~= dimensions@);
    }
    true
}

/// A value of a dimension: text, or a flag.
#[derive(Debug, Eq, Hash)]
pub enum DimensionValue {
    Text(String),
    Flag(bool),
}

/// Mathematical model of a [`DimensionValue`].
pub enum DimensionValueView {
    Text(Seq<char>),
    Flag(bool),
}

impl DeepView for DimensionValue {
    type V = DimensionValueView;

    open spec fn deep_view(&self) -> DimensionValueView {
        match self {
            DimensionValue::Text(s) => DimensionValueView::Text(s@),
            DimensionValue::Flag(b) => DimensionValueView::Flag(*b),
        }
    }
}

impl View for DimensionValue {
    type V = DimensionValueView;

    open spec fn view(&self) -> DimensionValueView {
        self.deep_view()
    }
}

impl DimensionValueView {
    /// The kind of the value.
    pub open spec fn kind(self) -> ValueKind {
        match self {
            DimensionValueView::Text(_) => ValueKind::Text,
            DimensionValueView::Flag(_) => ValueKind::Flag,
        }
    }
}

impl DimensionValue {
    /// The kind of the value.
    pub fn value_kind(&self) -> (k: ValueKind)
        ensures
            k == self@.kind(),
    {
        match self {
            DimensionValue::Text(_) => ValueKind::Text,
            DimensionValue::Flag(_) => ValueKind::Flag,
        }
    }

}

impl PartialEq for DimensionValue {
    /// Two values are equal when they have the same kind and the same content.
    fn eq(&self, other: &DimensionValue) -> (r: bool) {
        match (self, other) {
            (DimensionValue::Text(a), DimensionValue::Text(b)) => *a == *b,
            (DimensionValue::Flag(a), DimensionValue::Flag(b)) => *a == *b,
            _ => false,
        }
    }
}

impl vstd::std_specs::cmp::PartialEqSpecImpl for DimensionValue {
    open spec fn obeys_eq_spec() -> bool {
        true
    }

    open spec fn eq_spec(&self, other: &DimensionValue) -> bool {
        self@ == other@
    }
}

impl Clone for DimensionValue {
    fn clone(&self) -> (r: DimensionValue)
        ensures
            r@ == self@,
    {
        match self {
            DimensionValue::Text(s) => DimensionValue::Text(s.clone()),
            DimensionValue::Flag(b) => DimensionValue::Flag(*b),
        }
    }
}


} // verus!
