//! What is decided around the queries on payment attempts: which attempts a
//! query asks for, and what is made of its answer. The queries themselves are
//! run by the caller, on its connection to the database.

use vstd::prelude::*;
use vstd::string::*;

verus! {

/// Why a query on the database failed.
#[derive(Clone, Copy, Debug, PartialEq, Eq, Structural)]
pub enum DatabaseError {
    DatabaseConnectionError,
    NotFound,
    UniqueViolation,
    NoFieldsToUpdate,
    QueryGenerationFailed,
    Others,
}

/// What an update of a record comes to: the record as the database returned
/// it; the record as it was, where there was no field to update; else the
/// error.
pub fn settle_update<T>(current: T, outcome: Result<T, DatabaseError>) -> (r: Result<
    T,
    DatabaseError,
>)
    ensures
        r == match outcome {
            Ok(updated) => Ok::<T, DatabaseError>(updated),
            Err(DatabaseError::NoFieldsToUpdate) => Ok(current),
            Err(error) => Err(error),
        },
{
    match outcome {
        Err(error) => match error {
            DatabaseError::NoFieldsToUpdate => Ok(current),
            _ => Err(error),
        },
        result => result,
    }
}

/// The first of the records that a query returned, or `NotFound` where it
/// returned none.
pub fn first_or_not_found<T>(records: Vec<T>) -> (r: Result<T, DatabaseError>)
    ensures
        r == (if records@.len() > 0 {
            Ok::<T, DatabaseError>(records@[0])
        } else {
            Err(DatabaseError::NotFound)
        }),
{
    let mut records = records;
    if records.len() > 0 {
        Ok(records.remove(0))
    } else {
        Err(DatabaseError::NotFound)
    }
}

/// What a query on payment attempts reads of a payment intent.
#[derive(Debug, Clone)]
pub struct PaymentIntent {
    pub active_attempt_id: String,
    pub status: String,
}

/// The ids of the active attempts of the intents, in the order of the intents.
pub open spec fn active_attempts_of(intents: Seq<PaymentIntent>) -> Seq<Seq<char>> {
    intents.map_values(|intent: PaymentIntent| intent.active_attempt_id@)
}

/// The ids of the active attempts of the intents, in the order of the intents.
pub fn active_attempt_ids(intents: &[PaymentIntent]) -> (ids: Vec<String>)
    ensures
        ids.deep_view() == active_attempts_of(intents@),
{
    let mut ids: Vec<String> = Vec::new();
    let mut i: usize = 0;
    while i < intents.len()
        invariant
            i <= intents.len(),
            ids@.len() == i,
            forall|k: int| 0 <= k < i ==> (#[trigger] ids@[k])@ == intents@[k].active_attempt_id@,
        decreases intents.len() - i,
    {
        ids.push(intents[i].active_attempt_id.clone());
        i += 1;
    }
    proof {
        assert(ids.deep_view() =~= active_attempts_of(intents@));
    }
    ids
}

/// Whether the text is among the texts.
pub fn holds_text(texts: &Vec<String>, text: &String) -> (r: bool)
    ensures
        r == texts.deep_view().contains(text@),
{
    let mut i: usize = 0;
    while i < texts.len()
        invariant
            i <= texts.len(),
            forall|k: int| 0 <= k < i ==> texts@[k]@ != text@,
        decreases texts.len() - i,
    {
        if texts[i] == *text {
            proof {
                assert(texts.deep_view()[i as int] == text@);
            }
            return true;
        }
        i += 1;
    }
    proof {
        let all = texts.deep_view();
        assert forall|k: int| 0 <= k < all.len() implies all[k] != text@ by {
            assert(all[k] == texts@[k]@);
        }
    }
    false
}

/// Whether no text occurs twice.
pub open spec fn distinct_texts(texts: Seq<Seq<char>>) -> bool {
    forall|i: int, j: int| 0 <= i < j < texts.len() ==> texts[i] != texts[j]
}

/// The statuses of the intents, each once.
pub fn distinct_statuses(intents: &[PaymentIntent]) -> (statuses: Vec<String>)
    ensures
        distinct_texts(statuses.deep_view()),
        forall|status: Seq<char>|
            statuses.deep_view().contains(status) <==> exists|k: int|
                0 <= k < intents@.len() && (#[trigger] intents@[k]).status@ == status,
{
    let mut statuses: Vec<String> = Vec::new();
    let mut i: usize = 0;
    while i < intents.len()
        invariant
            i <= intents.len(),
            distinct_texts(statuses.deep_view()),
            forall|status: Seq<char>|
                statuses.deep_view().contains(status) <==> exists|k: int|
                    0 <= k < i && (#[trigger] intents@[k]).status@ == status,
        decreases intents.len() - i,
    {
        let ghost before = statuses.deep_view();
        let status = &intents[i].status;
        if !holds_text(&statuses, status) {
            statuses.push(status.clone());
            proof {
                let after = statuses.deep_view();
                assert(after =~= before.push(status@));
                assert forall|a: int, b: int| 0 <= a < b < after.len() implies after[a]
                    != after[b] by {
                    if b == before.len() {
                        assert(before[a] == after[a]);
                        assert(before.contains(after[a]));
                    } else {
                        assert(before[a] != before[b]);
                    }
                }
            }
        }
        proof {
            let after = statuses.deep_view();
            assert forall|text: Seq<char>| after.contains(text) <==> exists|k: int|
                0 <= k < i + 1 && (#[trigger] intents@[k]).status@ == text by {
                if after.contains(text) {
                    let p = choose|p: int| 0 <= p < after.len() && after[p] == text;
                    if p < before.len() && before.len() <= after.len() && before[p] == after[p] {
                        assert(before.contains(text));
                        let k = choose|k: int|
                            0 <= k < i && (#[trigger] intents@[k]).status@ == text;
                        assert(0 <= k < i + 1 && intents@[k].status@ == text);
                    } else {
                        assert(intents@[i as int].status@ == text);
                    }
                }
                if exists|k: int| 0 <= k < i + 1 && (#[trigger] intents@[k]).status@ == text {
                    let k = choose|k: int|
                        0 <= k < i + 1 && (#[trigger] intents@[k]).status@ == text;
                    if k < i {
                        assert(before.contains(text));
                        let p = choose|p: int| 0 <= p < before.len() && before[p] == text;
                        assert(after[p] == text);
                    } else {
                        if before.contains(text) {
                            let p = choose|p: int| 0 <= p < before.len() && before[p] == text;
                            assert(after[p] == text);
                        } else {
                            assert(after[before.len() as int] == text);
                        }
                    }
                }
            }
        }
        i += 1;
    }
    statuses
}

/// The texts that are there, in order, without the absent ones.
pub open spec fn present_texts(values: Seq<Option<Seq<char>>>) -> Seq<Seq<char>>
    decreases values.len(),
{
    if values.len() == 0 {
        Seq::empty()
    } else {
        match values.last() {
            Some(text) => present_texts(values.drop_last()).push(text),
            None => present_texts(values.drop_last()),
        }
    }
}

/// The values that a query returned for a column, without the nulls.
pub fn present(values: &Vec<Option<String>>) -> (texts: Vec<String>)
    ensures
        texts.deep_view() == present_texts(values.deep_view()),
{
    let mut texts: Vec<String> = Vec::new();
    let mut i: usize = 0;
    proof {
        assert(values.deep_view().take(0) =~= Seq::<Option<Seq<char>>>::empty());
        assert(texts.deep_view() =~= Seq::<Seq<char>>::empty());
    }
    while i < values.len()
        invariant
            i <= values.len(),
            texts.deep_view() == present_texts(values.deep_view().take(i as int)),
        decreases values.len() - i,
    {
        let ghost before = texts.deep_view();
        proof {
            let longer = values.deep_view().take(i + 1);
            assert(longer.drop_last() =~= values.deep_view().take(i as int));
            assert(longer.last() == values@[i as int].deep_view());
        }
        match &values[i] {
            Some(text) => {
                texts.push(text.clone());
                proof {
                    assert(texts.deep_view() =~= before.push(text@));
                }
            },
            None => {},
        }
        i += 1;
    }
    proof {
        assert(values.deep_view().take(values.len() as int) =~= values.deep_view());
    }
    texts
}

/// The values that the payments of a merchant take, by which a list of
/// payments can be filtered.
#[derive(Debug)]
pub struct PaymentFilterValues {
    pub connector: Vec<String>,
    pub currency: Vec<String>,
    pub status: Vec<String>,
    pub payment_method: Vec<String>,
    pub payment_method_type: Vec<String>,
    pub authentication_type: Vec<String>,
}

/// A column of the payment attempts.
#[derive(Clone, Copy, Debug, PartialEq, Eq, Structural)]
pub enum AttemptColumn {
    Id,
    MerchantId,
    AttemptId,
    PaymentId,
    ProfileId,
    Status,
    ConnectorTransactionId,
    ConnectorPaymentId,
    PreprocessingStepId,
    Connector,
    PaymentMethod,
    PaymentMethodType,
    AuthenticationType,
    MerchantConnectorId,
    CardNetwork,
    CardDiscovery,
}

/// The condition that a column of a payment attempt holds one of the values.
#[derive(Debug)]
pub struct AttemptFilter {
    pub column: AttemptColumn,
    pub values: Vec<String>,
}

/// Mathematical model of an [`AttemptFilter`].
pub struct AttemptFilterView {
    pub column: AttemptColumn,
    pub values: Seq<Seq<char>>,
}

impl DeepView for AttemptFilter {
    type V = AttemptFilterView;

    open spec fn deep_view(&self) -> AttemptFilterView {
        AttemptFilterView { column: self.column, values: self.values.deep_view() }
    }
}

impl View for AttemptFilter {
    type V = AttemptFilterView;

    open spec fn view(&self) -> AttemptFilterView {
        self.deep_view()
    }
}

/// The order in which a query returns the payment attempts.
#[derive(Clone, Copy, Debug, PartialEq, Eq, Structural)]
pub enum AttemptOrder {
    /// The attempt that was changed last comes first.
    ModifiedAtDescending,
    /// The attempt that was made first comes first.
    CreatedAtAscending,
}

/// A query on the payment attempts: the attempts that meet all the filters,
/// in the given order if there is one, and no more of them than the limit.
#[derive(Debug)]
pub struct AttemptQuery {
    pub filters: Vec<AttemptFilter>,
    pub limit: Option<i64>,
    pub order: Option<AttemptOrder>,
}

/// Mathematical model of an [`AttemptQuery`].
pub struct AttemptQueryView {
    pub filters: Seq<AttemptFilterView>,
    pub limit: Option<i64>,
    pub order: Option<AttemptOrder>,
}

impl DeepView for AttemptQuery {
    type V = AttemptQueryView;

    open spec fn deep_view(&self) -> AttemptQueryView {
        AttemptQueryView {
            filters: self.filters.deep_view(),
            limit: self.limit,
            order: self.order,
        }
    }
}

impl View for AttemptQuery {
    type V = AttemptQueryView;

    open spec fn view(&self) -> AttemptQueryView {
        self.deep_view()
    }
}

/// The condition that a column holds the value.
pub open spec fn equals(column: AttemptColumn, value: Seq<char>) -> AttemptFilterView {
    AttemptFilterView { column, values: seq![value] }
}

/// The status of an attempt that was charged in full.
pub open spec fn charged_text() -> Seq<char> {
    "charged"@
}

/// The status of an attempt that was charged in part.
pub open spec fn partial_charged_text() -> Seq<char> {
    "partial_charged"@
}

/// The condition that an attempt was charged in full.
pub open spec fn is_charged() -> AttemptFilterView {
    equals(AttemptColumn::Status, charged_text())
}

/// The condition that an attempt was charged, in full or in part.
pub open spec fn is_charged_or_partially() -> AttemptFilterView {
    AttemptFilterView {
        column: AttemptColumn::Status,
        values: seq![charged_text(), partial_charged_text()],
    }
}

/// All the attempts that meet the filters.
pub open spec fn all_with(filters: Seq<AttemptFilterView>) -> AttemptQueryView {
    AttemptQueryView { filters, limit: None, order: None }
}

/// Of the attempts that meet the filters, the one that was changed last.
pub open spec fn last_with(filters: Seq<AttemptFilterView>) -> AttemptQueryView {
    AttemptQueryView {
        filters,
        limit: Some(1),
        order: Some(AttemptOrder::ModifiedAtDescending),
    }
}

/// The filter on a column, where values are given for it.
pub open spec fn optional_filter(column: AttemptColumn, values: Option<Seq<Seq<char>>>) -> Seq<
    AttemptFilterView,
> {
    match values {
        Some(values) => seq![AttemptFilterView { column, values }],
        None => Seq::empty(),
    }
}

/// The filters of a count of payment attempts: the merchant and the attempts
/// always, then each further column for which values are given, in the order
/// of the parameters. A payment attempt is counted when it meets all of them.
pub open spec fn count_filters(
    merchant_id: Seq<char>,
    active_attempt_ids: Seq<Seq<char>>,
    connector: Option<Seq<Seq<char>>>,
    payment_method: Option<Seq<Seq<char>>>,
    payment_method_type: Option<Seq<Seq<char>>>,
    authentication_type: Option<Seq<Seq<char>>>,
    merchant_connector_id: Option<Seq<Seq<char>>>,
    card_network: Option<Seq<Seq<char>>>,
    card_discovery: Option<Seq<Seq<char>>>,
) -> Seq<AttemptFilterView> {
    seq![
        equals(AttemptColumn::MerchantId, merchant_id),
        AttemptFilterView { column: AttemptColumn::AttemptId, values: active_attempt_ids },
    ] + optional_filter(AttemptColumn::Connector, connector) + optional_filter(
        AttemptColumn::PaymentMethod,
        payment_method,
    ) + optional_filter(AttemptColumn::PaymentMethodType, payment_method_type) + optional_filter(
        AttemptColumn::AuthenticationType,
        authentication_type,
    ) + optional_filter(AttemptColumn::MerchantConnectorId, merchant_connector_id)
        + optional_filter(AttemptColumn::CardNetwork, card_network) + optional_filter(
        AttemptColumn::CardDiscovery,
        card_discovery,
    )
}

/// A copy of the texts.
pub fn copy_texts(texts: &[String]) -> (copy: Vec<String>)
    ensures
        copy.deep_view() == texts@.map_values(|t: String| t@),
{
    let mut copy: Vec<String> = Vec::new();
    let mut i: usize = 0;
    while i < texts.len()
        invariant
            i <= texts.len(),
            copy@.len() == i,
            forall|k: int| 0 <= k < i ==> (#[trigger] copy@[k])@ == texts@[k]@,
        decreases texts.len() - i,
    {
        copy.push(texts[i].clone());
        i += 1;
    }
    proof {
        assert(copy.deep_view() =~= texts@.map_values(|t: String| t@));
    }
    copy
}

/// The condition that a column holds the value.
fn filter_on(column: AttemptColumn, value: &str) -> (filter: AttemptFilter)
    ensures
        filter@ == equals(column, value@),
{
    let mut values: Vec<String> = Vec::new();
    values.push(String::from_str(value));
    proof {
        assert(values.deep_view() =~= seq![value@]);
    }
    AttemptFilter { column, values }
}

/// The condition that an attempt has one of two statuses.
fn status_among(first: &str, second: &str) -> (filter: AttemptFilter)
    ensures
        filter@ == (AttemptFilterView {
            column: AttemptColumn::Status,
            values: seq![first@, second@],
        }),
{
    let mut values: Vec<String> = Vec::new();
    values.push(String::from_str(first));
    values.push(String::from_str(second));
    proof {
        assert(values.deep_view() =~= seq![first@, second@]);
    }
    AttemptFilter { column: AttemptColumn::Status, values }
}

/// The query with one filter.
fn with_one(first: AttemptFilter, limit: Option<i64>, order: Option<AttemptOrder>) -> (query:
    AttemptQuery)
    ensures
        query@ == (AttemptQueryView { filters: seq![first@], limit, order }),
{
    let mut filters: Vec<AttemptFilter> = Vec::new();
    let ghost a = first@;
    filters.push(first);
    proof {
        assert(filters.deep_view() =~= seq![a]);
    }
    AttemptQuery { filters, limit, order }
}

/// The query with two filters.
fn with_two(
    first: AttemptFilter,
    second: AttemptFilter,
    limit: Option<i64>,
    order: Option<AttemptOrder>,
) -> (query: AttemptQuery)
    ensures
        query@ == (AttemptQueryView { filters: seq![first@, second@], limit, order }),
{
    let mut filters: Vec<AttemptFilter> = Vec::new();
    let ghost a = first@;
    let ghost b = second@;
    filters.push(first);
    filters.push(second);
    proof {
        assert(filters.deep_view() =~= seq![a, b]);
    }
    AttemptQuery { filters, limit, order }
}

/// The query with three filters.
fn with_three(
    first: AttemptFilter,
    second: AttemptFilter,
    third: AttemptFilter,
    limit: Option<i64>,
    order: Option<AttemptOrder>,
) -> (query: AttemptQuery)
    ensures
        query@ == (AttemptQueryView { filters: seq![first@, second@, third@], limit, order }),
{
    let mut filters: Vec<AttemptFilter> = Vec::new();
    let ghost a = first@;
    let ghost b = second@;
    let ghost c = third@;
    filters.push(first);
    filters.push(second);
    filters.push(third);
    proof {
        assert(filters.deep_view() =~= seq![a, b, c]);
    }
    AttemptQuery { filters, limit, order }
}

/// Adds the filter on a column, where values are given for it.
fn add_filter(filters: &mut Vec<AttemptFilter>, column: AttemptColumn, values: Option<Vec<String>>)
    ensures
        final(filters).deep_view() == old(filters).deep_view() + optional_filter(
            column,
            values.deep_view(),
        ),
{
    let ghost before = filters.deep_view();
    match values {
        Some(values) => {
            let ghost listed = values.deep_view();
            filters.push(AttemptFilter { column, values });
            proof {
                assert(filters.deep_view() =~= before + seq![
                    AttemptFilterView { column, values: listed },
                ]);
            }
        },
        None => {
            proof {
                assert(filters.deep_view() =~= before + Seq::<AttemptFilterView>::empty());
            }
        },
    }
}

/// A payment attempt, as far as the queries on attempts name its columns.
/// Instants are in seconds since the Unix epoch.
#[derive(Debug, Clone, PartialEq)]
pub struct PaymentAttempt {
    pub payment_id: String,
    pub merchant_id: String,
    pub attempt_id: String,
    pub status: String,
    pub connector: Option<String>,
    pub connector_transaction_id: Option<String>,
    pub currency: Option<String>,
    pub payment_method: Option<String>,
    pub payment_method_type: Option<String>,
    pub authentication_type: Option<String>,
    pub merchant_connector_id: Option<String>,
    pub card_network: Option<String>,
    pub card_discovery: Option<String>,
    pub preprocessing_step_id: Option<String>,
    pub profile_id: String,
    pub created_at: i64,
    pub modified_at: i64,
}

impl PaymentAttempt {
    /// What an update of the attempt comes to, given what the database
    /// answered: the attempt as the database returned it; this attempt as it
    /// is, where there was no field to update; else the error.
    pub fn update_with_attempt_id(self, outcome: Result<PaymentAttempt, DatabaseError>) -> (r:
        Result<PaymentAttempt, DatabaseError>)
        ensures
            r == match outcome {
                Ok(updated) => Ok::<PaymentAttempt, DatabaseError>(updated),
                Err(DatabaseError::NoFieldsToUpdate) => Ok(self),
                Err(error) => Err(error),
            },
    {
        settle_update(self, outcome)
    }

    /// The attempts of a payment of a merchant, of which the caller takes
    /// one if there is one.
    pub fn find_optional_by_payment_id_merchant_id(payment_id: &str, merchant_id: &str) -> (query:
        AttemptQuery)
        ensures
            query@ == all_with(
                seq![
                    equals(AttemptColumn::MerchantId, merchant_id@),
                    equals(AttemptColumn::PaymentId, payment_id@),
                ],
            ),
    {
        with_two(
            filter_on(AttemptColumn::MerchantId, merchant_id),
            filter_on(AttemptColumn::PaymentId, payment_id),
            None,
            None,
        )
    }

    /// The attempt of a payment of a merchant that has the given transaction
    /// at the connector.
    pub fn find_by_connector_transaction_id_payment_id_merchant_id(
        connector_transaction_id: &str,
        payment_id: &str,
        merchant_id: &str,
    ) -> (query: AttemptQuery)
        ensures
            query@ == all_with(
                seq![
                    equals(AttemptColumn::ConnectorTransactionId, connector_transaction_id@),
                    equals(AttemptColumn::PaymentId, payment_id@),
                    equals(AttemptColumn::MerchantId, merchant_id@),
                ],
            ),
    {
        with_three(
            filter_on(AttemptColumn::ConnectorTransactionId, connector_transaction_id),
            filter_on(AttemptColumn::PaymentId, payment_id),
            filter_on(AttemptColumn::MerchantId, merchant_id),
            None,
            None,
        )
    }

    /// Of the charged attempts of a payment of a merchant, the one that was
    /// changed last.
    pub fn find_last_successful_attempt_by_payment_id_merchant_id(
        payment_id: &str,
        merchant_id: &str,
    ) -> (query: AttemptQuery)
        ensures
            query@ == last_with(
                seq![
                    equals(AttemptColumn::PaymentId, payment_id@),
                    equals(AttemptColumn::MerchantId, merchant_id@),
                    is_charged(),
                ],
            ),
    {
        with_three(
            filter_on(AttemptColumn::PaymentId, payment_id),
            filter_on(AttemptColumn::MerchantId, merchant_id),
            filter_on(AttemptColumn::Status, "charged"),
            Some(1),
            Some(AttemptOrder::ModifiedAtDescending),
        )
    }

    /// Of the attempts of a payment of a merchant that were charged, in full
    /// or in part, the one that was changed last.
    pub fn find_last_successful_or_partially_captured_attempt_by_payment_id_merchant_id(
        payment_id: &str,
        merchant_id: &str,
    ) -> (query: AttemptQuery)
        ensures
            query@ == last_with(
                seq![
                    equals(AttemptColumn::PaymentId, payment_id@),
                    equals(AttemptColumn::MerchantId, merchant_id@),
                    is_charged_or_partially(),
                ],
            ),
    {
        with_three(
            filter_on(AttemptColumn::PaymentId, payment_id),
            filter_on(AttemptColumn::MerchantId, merchant_id),
            status_among("charged", "partial_charged"),
            Some(1),
            Some(AttemptOrder::ModifiedAtDescending),
        )
    }

    /// Of the attempts of a payment that were charged, in full or in part,
    /// the one that was changed last.
    pub fn find_last_successful_or_partially_captured_attempt_by_payment_id(payment_id: &str) -> (query:
        AttemptQuery)
        ensures
            query@ == last_with(
                seq![equals(AttemptColumn::PaymentId, payment_id@), is_charged_or_partially()],
            ),
    {
        with_two(
            filter_on(AttemptColumn::PaymentId, payment_id),
            status_among("charged", "partial_charged"),
            Some(1),
            Some(AttemptOrder::ModifiedAtDescending),
        )
    }

    /// The attempt of a merchant that has the given transaction at the
    /// connector.
    pub fn find_by_merchant_id_connector_txn_id(merchant_id: &str, connector_txn_id: &str) -> (query:
        AttemptQuery)
        ensures
            query@ == all_with(
                seq![
                    equals(AttemptColumn::MerchantId, merchant_id@),
                    equals(AttemptColumn::ConnectorTransactionId, connector_txn_id@),
                ],
            ),
    {
        with_two(
            filter_on(AttemptColumn::MerchantId, merchant_id),
            filter_on(AttemptColumn::ConnectorTransactionId, connector_txn_id),
            None,
            None,
        )
    }

    /// The attempt of a profile that has the given payment at the connector.
    pub fn find_by_profile_id_connector_transaction_id(
        profile_id: &str,
        connector_txn_id: &str,
    ) -> (query: AttemptQuery)
        ensures
            query@ == all_with(
                seq![
                    equals(AttemptColumn::ProfileId, profile_id@),
                    equals(AttemptColumn::ConnectorPaymentId, connector_txn_id@),
                ],
            ),
    {
        with_two(
            filter_on(AttemptColumn::ProfileId, profile_id),
            filter_on(AttemptColumn::ConnectorPaymentId, connector_txn_id),
            None,
            None,
        )
    }

    /// The attempt of a merchant with the given id.
    pub fn find_by_merchant_id_attempt_id(merchant_id: &str, attempt_id: &str) -> (query:
        AttemptQuery)
        ensures
            query@ == all_with(
                seq![
                    equals(AttemptColumn::MerchantId, merchant_id@),
                    equals(AttemptColumn::AttemptId, attempt_id@),
                ],
            ),
    {
        with_two(
            filter_on(AttemptColumn::MerchantId, merchant_id),
            filter_on(AttemptColumn::AttemptId, attempt_id),
            None,
            None,
        )
    }

    /// The attempt with the given id.
    pub fn find_by_id(id: &str) -> (query: AttemptQuery)
        ensures
            query@ == all_with(seq![equals(AttemptColumn::Id, id@)]),
    {
        with_one(filter_on(AttemptColumn::Id, id), None, None)
    }

    /// The attempts of a payment, the first made first.
    pub fn find_by_payment_id(payment_id: &str) -> (query: AttemptQuery)
        ensures
            query@ == (AttemptQueryView {
                filters: seq![equals(AttemptColumn::PaymentId, payment_id@)],
                limit: None,
                order: Some(AttemptOrder::CreatedAtAscending),
            }),
    {
        with_one(
            filter_on(AttemptColumn::PaymentId, payment_id),
            None,
            Some(AttemptOrder::CreatedAtAscending),
        )
    }

    /// The attempt of a merchant with the given preprocessing step.
    pub fn find_by_merchant_id_preprocessing_id(merchant_id: &str, preprocessing_id: &str) -> (query:
        AttemptQuery)
        ensures
            query@ == all_with(
                seq![
                    equals(AttemptColumn::MerchantId, merchant_id@),
                    equals(AttemptColumn::PreprocessingStepId, preprocessing_id@),
                ],
            ),
    {
        with_two(
            filter_on(AttemptColumn::MerchantId, merchant_id),
            filter_on(AttemptColumn::PreprocessingStepId, preprocessing_id),
            None,
            None,
        )
    }

    /// The attempt of a payment of a merchant with the given id.
    pub fn find_by_payment_id_merchant_id_attempt_id(
        payment_id: &str,
        merchant_id: &str,
        attempt_id: &str,
    ) -> (query: AttemptQuery)
        ensures
            query@ == all_with(
                seq![
                    equals(AttemptColumn::PaymentId, payment_id@),
                    equals(AttemptColumn::MerchantId, merchant_id@),
                    equals(AttemptColumn::AttemptId, attempt_id@),
                ],
            ),
    {
        with_three(
            filter_on(AttemptColumn::PaymentId, payment_id),
            filter_on(AttemptColumn::MerchantId, merchant_id),
            filter_on(AttemptColumn::AttemptId, attempt_id),
            None,
            None,
        )
    }

    /// The attempts of a payment of a merchant.
    pub fn find_by_merchant_id_payment_id(merchant_id: &str, payment_id: &str) -> (query:
        AttemptQuery)
        ensures
            query@ == all_with(
                seq![
                    equals(AttemptColumn::MerchantId, merchant_id@),
                    equals(AttemptColumn::PaymentId, payment_id@),
                ],
            ),
    {
        with_two(
            filter_on(AttemptColumn::MerchantId, merchant_id),
            filter_on(AttemptColumn::PaymentId, payment_id),
            None,
            None,
        )
    }

    /// The active attempts of the intents, of a merchant: the attempts whose
    /// columns are listed for the filters of a list of payments.
    pub fn active_attempts(intents: &[PaymentIntent], merchant_id: &str) -> (query: AttemptQuery)
        ensures
            query@ == all_with(
                seq![
                    equals(AttemptColumn::MerchantId, merchant_id@),
                    AttemptFilterView {
                        column: AttemptColumn::AttemptId,
                        values: active_attempts_of(intents@),
                    },
                ],
            ),
    {
        with_two(
            filter_on(AttemptColumn::MerchantId, merchant_id),
            AttemptFilter { column: AttemptColumn::AttemptId, values: active_attempt_ids(intents) },
            None,
            None,
        )
    }

    /// Puts together the values by which a list of payments can be filtered:
    /// the statuses of the intents, each once, and what the queries on the
    /// active attempts returned for each column, without the nulls.
    pub fn get_filters_for_payments(
        intents: &[PaymentIntent],
        connectors: &Vec<Option<String>>,
        currencies: &Vec<Option<String>>,
        payment_methods: &Vec<Option<String>>,
        payment_method_types: &Vec<Option<String>>,
        authentication_types: &Vec<Option<String>>,
    ) -> (values: PaymentFilterValues)
        ensures
            values.connector.deep_view() == present_texts(connectors.deep_view()),
            values.currency.deep_view() == present_texts(currencies.deep_view()),
            distinct_texts(values.status.deep_view()),
            forall|status: Seq<char>|
                values.status.deep_view().contains(status) <==> exists|k: int|
                    0 <= k < intents@.len() && (#[trigger] intents@[k]).status@ == status,
            values.payment_method.deep_view() == present_texts(payment_methods.deep_view()),
            values.payment_method_type.deep_view() == present_texts(
                payment_method_types.deep_view(),
            ),
            values.authentication_type.deep_view() == present_texts(
                authentication_types.deep_view(),
            ),
    {
        PaymentFilterValues {
            connector: present(connectors),
            currency: present(currencies),
            status: distinct_statuses(intents),
            payment_method: present(payment_methods),
            payment_method_type: present(payment_method_types),
            authentication_type: present(authentication_types),
        }
    }

    /// The attempts that a count of the attempts of a merchant counts.
    pub fn get_total_count_of_attempts(
        merchant_id: &str,
        active_attempt_ids: &[String],
        connector: Option<Vec<String>>,
        payment_method: Option<Vec<String>>,
        payment_method_type: Option<Vec<String>>,
        authentication_type: Option<Vec<String>>,
        merchant_connector_id: Option<Vec<String>>,
        card_network: Option<Vec<String>>,
        card_discovery: Option<Vec<String>>,
    ) -> (query: AttemptQuery)
        ensures
            query@ == all_with(
                count_filters(
                    merchant_id@,
                    active_attempt_ids@.map_values(|t: String| t@),
                    connector.deep_view(),
                    payment_method.deep_view(),
                    payment_method_type.deep_view(),
                    authentication_type.deep_view(),
                    merchant_connector_id.deep_view(),
                    card_network.deep_view(),
                    card_discovery.deep_view(),
                ),
            ),
    {
        let mut filters: Vec<AttemptFilter> = Vec::new();
        filters.push(filter_on(AttemptColumn::MerchantId, merchant_id));
        filters.push(
            AttemptFilter {
                column: AttemptColumn::AttemptId,
                values: copy_texts(active_attempt_ids),
            },
        );
        proof {
            assert(filters.deep_view() =~= seq![
                equals(AttemptColumn::MerchantId, merchant_id@),
                AttemptFilterView {
                    column: AttemptColumn::AttemptId,
                    values: active_attempt_ids@.map_values(|t: String| t@),
                },
            ]);
        }
        add_filter(&mut filters, AttemptColumn::Connector, connector);
        add_filter(&mut filters, AttemptColumn::PaymentMethod, payment_method);
        add_filter(&mut filters, AttemptColumn::PaymentMethodType, payment_method_type);
        add_filter(&mut filters, AttemptColumn::AuthenticationType, authentication_type);
        add_filter(&mut filters, AttemptColumn::MerchantConnectorId, merchant_connector_id);
        add_filter(&mut filters, AttemptColumn::CardNetwork, card_network);
        add_filter(&mut filters, AttemptColumn::CardDiscovery, card_discovery);
        AttemptQuery { filters, limit: None, order: None }
    }
}

} // verus!
