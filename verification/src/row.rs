//! The rows that a data source returns, and the typed rows they are decoded
//! into.

use vstd::prelude::*;
use bigdecimal::BigDecimal;
use crate::dimension::{DimensionValue, DimensionValueView, PaymentDimensions, ValueKind};
use crate::error::{MetricsError, MetricsErrorView, MetricsResult};
use crate::plan::{MeasureField, SelectColumn};

verus! {

/// `bigdecimal::BigDecimal`, a decimal number of any size, as a data source
/// returns a sum of amounts. The library carries such a number and never
/// computes with it.
#[verifier::external_type_specification]
#[verifier::external_body]
pub struct ExBigDecimal(BigDecimal);

/// `bigdecimal::BigDecimal::clone`. Taken on trust: the copy equals the
/// number it was made of.
pub assume_specification[ <BigDecimal as Clone>::clone ](value: &BigDecimal) -> (copy: BigDecimal)
    ensures
        copy == *value,
;

/// One cell of a row as a data source returns it.
#[derive(Debug)]
pub enum CellValue {
    Null,
    Text(String),
    Integer(i64),
    Flag(bool),
    Decimal(BigDecimal),
    /// An instant, in seconds since the Unix epoch.
    Instant(i64),
}

/// Mathematical model of a [`CellValue`].
pub enum CellView {
    Null,
    Text(Seq<char>),
    Integer(i64),
    Flag(bool),
    Decimal(BigDecimal),
    Instant(i64),
}

impl DeepView for CellValue {
    type V = CellView;

    open spec fn deep_view(&self) -> CellView {
        match self {
            CellValue::Null => CellView::Null,
            CellValue::Text(t) => CellView::Text(t@),
            CellValue::Integer(n) => CellView::Integer(*n),
            CellValue::Flag(b) => CellView::Flag(*b),
            CellValue::Decimal(x) => CellView::Decimal(*x),
            CellValue::Instant(t) => CellView::Instant(*t),
        }
    }
}

impl View for CellValue {
    type V = CellView;

    open spec fn view(&self) -> CellView {
        self.deep_view()
    }
}

/// One row of a payment distribution: the value of each dimension, the
/// measures, and the bounds of the bucket. A field is `None` where the data
/// source returned no value for it.
#[derive(Debug, PartialEq, Eq)]
pub struct PaymentDistributionRow {
    pub currency: Option<String>,
    pub status: Option<String>,
    pub connector: Option<String>,
    pub authentication_type: Option<String>,
    pub payment_method: Option<String>,
    pub payment_method_type: Option<String>,
    pub client_source: Option<String>,
    pub client_version: Option<String>,
    pub profile_id: Option<String>,
    pub card_network: Option<String>,
    pub merchant_id: Option<String>,
    pub card_last_4: Option<String>,
    pub card_issuer: Option<String>,
    pub error_reason: Option<String>,
    pub first_attempt: Option<bool>,
    pub total: Option<BigDecimal>,
    pub count: Option<i64>,
    pub error_message: Option<String>,
    pub routing_approach: Option<String>,
    pub start_bucket: Option<i64>,
    pub end_bucket: Option<i64>,
}

/// Mathematical model of a [`PaymentDistributionRow`].
pub struct PaymentDistributionRowView {
    pub currency: Option<Seq<char>>,
    pub status: Option<Seq<char>>,
    pub connector: Option<Seq<char>>,
    pub authentication_type: Option<Seq<char>>,
    pub payment_method: Option<Seq<char>>,
    pub payment_method_type: Option<Seq<char>>,
    pub client_source: Option<Seq<char>>,
    pub client_version: Option<Seq<char>>,
    pub profile_id: Option<Seq<char>>,
    pub card_network: Option<Seq<char>>,
    pub merchant_id: Option<Seq<char>>,
    pub card_last_4: Option<Seq<char>>,
    pub card_issuer: Option<Seq<char>>,
    pub error_reason: Option<Seq<char>>,
    pub first_attempt: Option<bool>,
    pub total: Option<BigDecimal>,
    pub count: Option<i64>,
    pub error_message: Option<Seq<char>>,
    pub routing_approach: Option<Seq<char>>,
    pub start_bucket: Option<i64>,
    pub end_bucket: Option<i64>,
}

impl DeepView for PaymentDistributionRow {
    type V = PaymentDistributionRowView;

    open spec fn deep_view(&self) -> PaymentDistributionRowView {
        PaymentDistributionRowView {
            currency: self.currency.deep_view(),
            status: self.status.deep_view(),
            connector: self.connector.deep_view(),
            authentication_type: self.authentication_type.deep_view(),
            payment_method: self.payment_method.deep_view(),
            payment_method_type: self.payment_method_type.deep_view(),
            client_source: self.client_source.deep_view(),
            client_version: self.client_version.deep_view(),
            profile_id: self.profile_id.deep_view(),
            card_network: self.card_network.deep_view(),
            merchant_id: self.merchant_id.deep_view(),
            card_last_4: self.card_last_4.deep_view(),
            card_issuer: self.card_issuer.deep_view(),
            error_reason: self.error_reason.deep_view(),
            first_attempt: self.first_attempt,
            total: self.total,
            count: self.count,
            error_message: self.error_message.deep_view(),
            routing_approach: self.routing_approach.deep_view(),
            start_bucket: self.start_bucket,
            end_bucket: self.end_bucket,
        }
    }
}

impl View for PaymentDistributionRow {
    type V = PaymentDistributionRowView;

    open spec fn view(&self) -> PaymentDistributionRowView {
        self.deep_view()
    }
}

/// A text as the value of a dimension.
pub open spec fn text_value(text: Option<Seq<char>>) -> Option<DimensionValueView> {
    match text {
        Some(t) => Some(DimensionValueView::Text(t)),
        None => None,
    }
}

/// The text of a value of a dimension; none for a flag.
pub open spec fn value_text(value: Option<DimensionValueView>) -> Option<Seq<char>> {
    match value {
        Some(DimensionValueView::Text(t)) => Some(t),
        _ => None,
    }
}

/// The flag of a value of a dimension; none for a text.
pub open spec fn value_flag(value: Option<DimensionValueView>) -> Option<bool> {
    match value {
        Some(DimensionValueView::Flag(b)) => Some(b),
        _ => None,
    }
}

impl PaymentDistributionRowView {
    /// The row in which no field has a value.
    pub open spec fn empty() -> PaymentDistributionRowView {
        PaymentDistributionRowView {
            currency: None,
            status: None,
            connector: None,
            authentication_type: None,
            payment_method: None,
            payment_method_type: None,
            client_source: None,
            client_version: None,
            profile_id: None,
            card_network: None,
            merchant_id: None,
            card_last_4: None,
            card_issuer: None,
            error_reason: None,
            first_attempt: None,
            total: None,
            count: None,
            error_message: None,
            routing_approach: None,
            start_bucket: None,
            end_bucket: None,
        }
    }

    /// The value that the row has in a dimension, if it has one.
    pub open spec fn dimension(self, dimension: PaymentDimensions) -> Option<DimensionValueView> {
        match dimension {
            PaymentDimensions::Currency => text_value(self.currency),
            PaymentDimensions::Status => text_value(self.status),
            PaymentDimensions::Connector => text_value(self.connector),
            PaymentDimensions::AuthenticationType => text_value(self.authentication_type),
            PaymentDimensions::PaymentMethod => text_value(self.payment_method),
            PaymentDimensions::PaymentMethodType => text_value(self.payment_method_type),
            PaymentDimensions::ClientSource => text_value(self.client_source),
            PaymentDimensions::ClientVersion => text_value(self.client_version),
            PaymentDimensions::ProfileId => text_value(self.profile_id),
            PaymentDimensions::CardNetwork => text_value(self.card_network),
            PaymentDimensions::MerchantId => text_value(self.merchant_id),
            PaymentDimensions::CardLast4 => text_value(self.card_last_4),
            PaymentDimensions::CardIssuer => text_value(self.card_issuer),
            PaymentDimensions::ErrorReason => text_value(self.error_reason),
            PaymentDimensions::FirstAttempt => match self.first_attempt {
                Some(b) => Some(DimensionValueView::Flag(b)),
                None => None,
            },
            PaymentDimensions::RoutingApproach => text_value(self.routing_approach),
        }
    }

    /// The row with the value of one dimension replaced.
    pub open spec fn with_dimension(
        self,
        dimension: PaymentDimensions,
        value: Option<DimensionValueView>,
    ) -> PaymentDistributionRowView {
        let text = value_text(value);
        match dimension {
            PaymentDimensions::Currency => PaymentDistributionRowView { currency: text, ..self },
            PaymentDimensions::Status => PaymentDistributionRowView { status: text, ..self },
            PaymentDimensions::Connector => PaymentDistributionRowView { connector: text, ..self },
            PaymentDimensions::AuthenticationType => PaymentDistributionRowView {
                authentication_type: text,
                ..self
            },
            PaymentDimensions::PaymentMethod => PaymentDistributionRowView {
                payment_method: text,
                ..self
            },
            PaymentDimensions::PaymentMethodType => PaymentDistributionRowView {
                payment_method_type: text,
                ..self
            },
            PaymentDimensions::ClientSource => PaymentDistributionRowView {
                client_source: text,
                ..self
            },
            PaymentDimensions::ClientVersion => PaymentDistributionRowView {
                client_version: text,
                ..self
            },
            PaymentDimensions::ProfileId => PaymentDistributionRowView { profile_id: text, ..self },
            PaymentDimensions::CardNetwork => PaymentDistributionRowView {
                card_network: text,
                ..self
            },
            PaymentDimensions::MerchantId => PaymentDistributionRowView {
                merchant_id: text,
                ..self
            },
            PaymentDimensions::CardLast4 => PaymentDistributionRowView { card_last_4: text, ..self },
            PaymentDimensions::CardIssuer => PaymentDistributionRowView {
                card_issuer: text,
                ..self
            },
            PaymentDimensions::ErrorReason => PaymentDistributionRowView {
                error_reason: text,
                ..self
            },
            PaymentDimensions::FirstAttempt => PaymentDistributionRowView {
                first_attempt: value_flag(value),
                ..self
            },
            PaymentDimensions::RoutingApproach => PaymentDistributionRowView {
                routing_approach: text,
                ..self
            },
        }
    }

    /// The value of a dimension that a cell holds: none for a null, the value
    /// for a cell of the dimension's kind. A cell of another type is an error,
    /// which the outer `None` stands for.
    pub open spec fn dimension_cell(dimension: PaymentDimensions, cell: CellView) -> Option<
        Option<DimensionValueView>,
    > {
        match cell {
            CellView::Null => Some(None),
            CellView::Text(t) => if dimension.kind() == ValueKind::Text {
                Some(Some(DimensionValueView::Text(t)))
            } else {
                None
            },
            CellView::Flag(b) => if dimension.kind() == ValueKind::Flag {
                Some(Some(DimensionValueView::Flag(b)))
            } else {
                None
            },
            _ => None,
        }
    }

    /// The row with the field of a column filled from a cell, or `None` when
    /// the cell has not the type that the column is declared with. A null
    /// leaves the field without a value.
    pub open spec fn fill(self, column: SelectColumn, cell: CellView) -> Option<
        PaymentDistributionRowView,
    > {
        match column {
            SelectColumn::Dimension(d) => match Self::dimension_cell(d, cell) {
                Some(value) => Some(self.with_dimension(d, value)),
                None => None,
            },
            SelectColumn::Measure(m) => match (m.field, cell) {
                (MeasureField::Total, CellView::Null) => Some(
                    PaymentDistributionRowView { total: None, ..self },
                ),
                (MeasureField::Total, CellView::Decimal(x)) => Some(
                    PaymentDistributionRowView { total: Some(x), ..self },
                ),
                (MeasureField::Count, CellView::Null) => Some(
                    PaymentDistributionRowView { count: None, ..self },
                ),
                (MeasureField::Count, CellView::Integer(n)) => Some(
                    PaymentDistributionRowView { count: Some(n), ..self },
                ),
                (MeasureField::ErrorMessage, CellView::Null) => Some(
                    PaymentDistributionRowView { error_message: None, ..self },
                ),
                (MeasureField::ErrorMessage, CellView::Text(t)) => Some(
                    PaymentDistributionRowView { error_message: Some(t), ..self },
                ),
                _ => None,
            },
            SelectColumn::BucketStart(_) => match cell {
                CellView::Null => Some(PaymentDistributionRowView { start_bucket: None, ..self }),
                CellView::Instant(t) => Some(
                    PaymentDistributionRowView { start_bucket: Some(t), ..self },
                ),
                _ => None,
            },
            SelectColumn::BucketEnd(_) => match cell {
                CellView::Null => Some(PaymentDistributionRowView { end_bucket: None, ..self }),
                CellView::Instant(t) => Some(
                    PaymentDistributionRowView { end_bucket: Some(t), ..self },
                ),
                _ => None,
            },
        }
    }

    /// The row that the first `count` cells give, each read as the column at
    /// its position declares; `None` when one of them does not fit its column.
    pub open spec fn decoded_upto(
        columns: Seq<SelectColumn>,
        cells: Seq<CellView>,
        count: nat,
    ) -> Option<PaymentDistributionRowView>
        decreases count,
    {
        if count == 0 {
            Some(Self::empty())
        } else {
            match Self::decoded_upto(columns, cells, (count - 1) as nat) {
                Some(row) => row.fill(columns[count - 1], cells[count - 1]),
                None => None,
            }
        }
    }

    /// The row that the cells give, each read as the column at its position
    /// declares. `None` when there are not as many cells as columns, or when a
    /// cell does not fit its column.
    pub open spec fn decoded(columns: Seq<SelectColumn>, cells: Seq<CellView>) -> Option<
        PaymentDistributionRowView,
    > {
        if columns.len() == cells.len() {
            Self::decoded_upto(columns, cells, columns.len())
        } else {
            None
        }
    }
}

/// A text that may be absent as the value of a dimension.
fn to_text_value(text: &Option<String>) -> (value: Option<DimensionValue>)
    ensures
        value.deep_view() == text_value(text.deep_view()),
{
    match text {
        Some(t) => Some(DimensionValue::Text(t.clone())),
        None => None,
    }
}

impl PaymentDistributionRow {
    /// The row in which no field has a value.
    pub fn empty() -> (row: PaymentDistributionRow)
        ensures
            row@ == PaymentDistributionRowView::empty(),
    {
        PaymentDistributionRow {
            currency: None,
            status: None,
            connector: None,
            authentication_type: None,
            payment_method: None,
            payment_method_type: None,
            client_source: None,
            client_version: None,
            profile_id: None,
            card_network: None,
            merchant_id: None,
            card_last_4: None,
            card_issuer: None,
            error_reason: None,
            first_attempt: None,
            total: None,
            count: None,
            error_message: None,
            routing_approach: None,
            start_bucket: None,
            end_bucket: None,
        }
    }

    /// The value that the row has in a dimension, if it has one.
    pub fn dimension(&self, dimension: PaymentDimensions) -> (value: Option<DimensionValue>)
        ensures
            value.deep_view() == self@.dimension(dimension),
    {
        match dimension {
            PaymentDimensions::Currency => to_text_value(&self.currency),
            PaymentDimensions::Status => to_text_value(&self.status),
            PaymentDimensions::Connector => to_text_value(&self.connector),
            PaymentDimensions::AuthenticationType => to_text_value(&self.authentication_type),
            PaymentDimensions::PaymentMethod => to_text_value(&self.payment_method),
            PaymentDimensions::PaymentMethodType => to_text_value(&self.payment_method_type),
            PaymentDimensions::ClientSource => to_text_value(&self.client_source),
            PaymentDimensions::ClientVersion => to_text_value(&self.client_version),
            PaymentDimensions::ProfileId => to_text_value(&self.profile_id),
            PaymentDimensions::CardNetwork => to_text_value(&self.card_network),
            PaymentDimensions::MerchantId => to_text_value(&self.merchant_id),
            PaymentDimensions::CardLast4 => to_text_value(&self.card_last_4),
            PaymentDimensions::CardIssuer => to_text_value(&self.card_issuer),
            PaymentDimensions::ErrorReason => to_text_value(&self.error_reason),
            PaymentDimensions::FirstAttempt => match self.first_attempt {
                Some(b) => Some(DimensionValue::Flag(b)),
                None => None,
            },
            PaymentDimensions::RoutingApproach => to_text_value(&self.routing_approach),
        }
    }

    /// Replaces the value of a text dimension.
    fn set_text(&mut self, dimension: PaymentDimensions, text: Option<String>)
        requires
            dimension.kind() == ValueKind::Text,
        ensures
            final(self)@ == old(self)@.with_dimension(dimension, text_value(text.deep_view())),
    {
        match dimension {
            PaymentDimensions::Currency => {
                self.currency = text;
            },
            PaymentDimensions::Status => {
                self.status = text;
            },
            PaymentDimensions::Connector => {
                self.connector = text;
            },
            PaymentDimensions::AuthenticationType => {
                self.authentication_type = text;
            },
            PaymentDimensions::PaymentMethod => {
                self.payment_method = text;
            },
            PaymentDimensions::PaymentMethodType => {
                self.payment_method_type = text;
            },
            PaymentDimensions::ClientSource => {
                self.client_source = text;
            },
            PaymentDimensions::ClientVersion => {
                self.client_version = text;
            },
            PaymentDimensions::ProfileId => {
                self.profile_id = text;
            },
            PaymentDimensions::CardNetwork => {
                self.card_network = text;
            },
            PaymentDimensions::MerchantId => {
                self.merchant_id = text;
            },
            PaymentDimensions::CardLast4 => {
                self.card_last_4 = text;
            },
            PaymentDimensions::CardIssuer => {
                self.card_issuer = text;
            },
            PaymentDimensions::ErrorReason => {
                self.error_reason = text;
            },
            PaymentDimensions::FirstAttempt => {},
            PaymentDimensions::RoutingApproach => {
                self.routing_approach = text;
            },
        }
    }

    /// Fills the field of a column from a cell. Returns whether the cell has
    /// the type that the column is declared with; if not, the row is left as
    /// it was.
    pub fn fill(&mut self, column: SelectColumn, cell: &CellValue) -> (done: bool)
        ensures
            match old(self)@.fill(column, cell@) {
                Some(row) => done && final(self)@ == row,
                None => !done && final(self)@ == old(self)@,
            },
    {
        match column {
            SelectColumn::Dimension(d) => match cell {
                CellValue::Null => {
                    match d.value_kind() {
                        ValueKind::Text => {
                            self.set_text(d, None);
                        },
                        ValueKind::Flag => {
                            self.first_attempt = None;
                        },
                    }
                    true
                },
                CellValue::Text(t) => match d.value_kind() {
                    ValueKind::Text => {
                        self.set_text(d, Some(t.clone()));
                        true
                    },
                    ValueKind::Flag => false,
                },
                CellValue::Flag(b) => match d.value_kind() {
                    ValueKind::Text => false,
                    ValueKind::Flag => {
                        self.first_attempt = Some(*b);
                        true
                    },
                },
                _ => false,
            },
            SelectColumn::Measure(m) => match (m.field, cell) {
                (MeasureField::Total, CellValue::Null) => {
                    self.total = None;
                    true
                },
                (MeasureField::Total, CellValue::Decimal(x)) => {
                    self.total = Some(x.clone());
                    true
                },
                (MeasureField::Count, CellValue::Null) => {
                    self.count = None;
                    true
                },
                (MeasureField::Count, CellValue::Integer(n)) => {
                    self.count = Some(*n);
                    true
                },
                (MeasureField::ErrorMessage, CellValue::Null) => {
                    self.error_message = None;
                    true
                },
                (MeasureField::ErrorMessage, CellValue::Text(t)) => {
                    self.error_message = Some(t.clone());
                    true
                },
                _ => false,
            },
            SelectColumn::BucketStart(_) => match cell {
                CellValue::Null => {
                    self.start_bucket = None;
                    true
                },
                CellValue::Instant(t) => {
                    self.start_bucket = Some(*t);
                    true
                },
                _ => false,
            },
            SelectColumn::BucketEnd(_) => match cell {
                CellValue::Null => {
                    self.end_bucket = None;
                    true
                },
                CellValue::Instant(t) => {
                    self.end_bucket = Some(*t);
                    true
                },
                _ => false,
            },
        }
    }

    /// Decodes a row: reads each cell as the column at its position declares.
    /// Fails with `DecodeFailure` when there are not as many cells as columns,
    /// or when a cell has not the type of its column. A null is never an
    /// error: it leaves its field without a value.
    pub fn decode(columns: &Vec<SelectColumn>, cells: &Vec<CellValue>) -> (r: MetricsResult<
        PaymentDistributionRow,
    >)
        ensures
            match PaymentDistributionRowView::decoded(columns@, cells.deep_view()) {
                Some(row) => r matches Ok(decoded) && decoded@ == row,
                None => r matches Err(e) && e@ == MetricsErrorView::DecodeFailure,
            },
    {
        if columns.len() != cells.len() {
            return Err(MetricsError::DecodeFailure);
        }
        let mut row = PaymentDistributionRow::empty();
        let mut i: usize = 0;
        while i < columns.len()
            invariant
                i <= columns.len(),
                columns.len() == cells.len(),
                PaymentDistributionRowView::decoded_upto(columns@, cells.deep_view(), i as nat)
                    == Some(row@),
            decreases columns.len() - i,
        {
            proof {
                assert(cells.deep_view()[i as int] == cells@[i as int]@);
            }
            if !row.fill(columns[i], &cells[i]) {
                proof {
                    lemma_decode_fails_on(columns@, cells.deep_view(), (i + 1) as nat);
                }
                return Err(MetricsError::DecodeFailure);
            }
            i += 1;
        }
        Ok(row)
    }
}

/// Once some cell does not fit its column, the row cannot be decoded, whatever
/// follows.
pub proof fn lemma_decode_fails_on(columns: Seq<SelectColumn>, cells: Seq<CellView>, count: nat)
    requires
        count <= columns.len(),
        PaymentDistributionRowView::decoded_upto(columns, cells, count) is None,
    ensures
        PaymentDistributionRowView::decoded_upto(columns, cells, columns.len()) is None,
    decreases columns.len() - count,
{
    if count < columns.len() {
        lemma_decode_fails_on(columns, cells, count + 1);
    }
}

} // verus!
