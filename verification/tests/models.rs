use analytics::api_error::{ApiError, ApiErrorResponse, ErrorResponse, ErrorType, Extra};
use analytics::error::MetricsError;
use analytics::events::{
    ApiEventMetric, ApiEventsType, RefundManualUpdateRequest, RefundRequest, RefundResponse,
    RefundUpdateRequest, RefundsRetrieveRequest,
};
use analytics::kafka::{email_from_text, email_of, KafkaPaymentIntent, PaymentIntent};
use analytics::payment_attempt::{
    active_attempt_ids, copy_texts, distinct_statuses, first_or_not_found, holds_text, present,
    settle_update, AttemptColumn, AttemptOrder, AttemptQuery, DatabaseError, PaymentAttempt,
};
use analytics::payouts::{
    cap, PayoutFetchConstraints, PayoutListConstraints, PayoutListFilterConstraints, TimeRange,
    PAYOUTS_LIST_MAX_LIMIT_GET, PAYOUTS_LIST_MAX_LIMIT_POST,
};
use analytics::revenue_recovery::{
    BillingConnectorInvoiceSyncRequest, BillingConnectorPaymentsSyncRequest,
    RevenueRecoveryRecordBackRequest,
};
use analytics::types::{
    BillingConnectorPaymentDetails, FeatureMetadata, PaymentRevenueRecoveryMetadata,
    RecurringPaymentIntervalUnit,
};
use reqwest::StatusCode;
use serde_json::{Number, Value};

fn strings(parts: &[&str]) -> Vec<String> {
    parts.iter().map(|p| p.to_string()).collect()
}

fn all_kinds(error: &ApiError) -> Vec<ApiErrorResponse> {
    vec![
        ApiErrorResponse::Unauthorized(error.clone()),
        ApiErrorResponse::ForbiddenCommonResource(error.clone()),
        ApiErrorResponse::ForbiddenPrivateResource(error.clone()),
        ApiErrorResponse::Conflict(error.clone()),
        ApiErrorResponse::Gone(error.clone()),
        ApiErrorResponse::Unprocessable(error.clone()),
        ApiErrorResponse::InternalServerError(error.clone()),
        ApiErrorResponse::NotImplemented(error.clone()),
        ApiErrorResponse::ConnectorError(error.clone(), StatusCode::BAD_GATEWAY),
        ApiErrorResponse::NotFound(error.clone()),
        ApiErrorResponse::MethodNotAllowed(error.clone()),
        ApiErrorResponse::BadRequest(error.clone()),
        ApiErrorResponse::DomainError(error.clone()),
    ]
}

#[test]
fn api_error_keeps_what_it_is_made_of() {
    let extra = Extra { reason: Some("expired".to_string()), ..Extra::default() };
    let error = ApiError::new("IR", 4, "Missing required param: amount", Some(extra));
    assert_eq!(error.sub_code, "IR");
    assert_eq!(error.error_identifier, 4);
    assert_eq!(error.error_message, "Missing required param: amount");
    assert_eq!(error.extra.as_ref().unwrap().reason, Some("expired".to_string()));
    assert_eq!(error.extra.as_ref().unwrap().payment_id, None);
    assert_eq!(error.code(), "IR_04");
    assert_eq!(ApiError::new("HE", 0, "", None).code(), "HE_00");
    assert_eq!(ApiError::new("CE", 10, "", None).code(), "CE_10");
    assert_eq!(ApiError::new("CE", 123, "", None).code(), "CE_123");
    assert_eq!(ApiError::new("", 65_535, "", None).code(), "_65535");
}

#[test]
fn default_extra_says_nothing() {
    let extra = Extra::default();
    assert_eq!(extra.payment_id, None);
    assert_eq!(extra.data, None);
    assert_eq!(extra.connector, None);
    assert_eq!(extra.reason, None);
    assert_eq!(extra.connector_transaction_id, None);
    assert_eq!(extra.fields, None);
    let full = Extra {
        payment_id: Some("pay_1".to_string()),
        data: Some(Value::Bool(true)),
        connector: Some("stripe".to_string()),
        reason: Some("r".to_string()),
        connector_transaction_id: Some("txn".to_string()),
        fields: Some("f".to_string()),
    };
    let copy = full.clone();
    assert_eq!(copy.payment_id, full.payment_id);
    assert_eq!(copy.data, full.data);
    assert_eq!(copy.connector, full.connector);
    assert_eq!(copy.reason, full.reason);
    assert_eq!(copy.connector_transaction_id, full.connector_transaction_id);
    assert_eq!(copy.fields, full.fields);
}

#[test]
fn type_of_each_kind_of_error() {
    let error = ApiError::new("IR", 1, "m", None);
    let expected = [
        "invalid_request",
        "invalid_request",
        "invalid_request",
        "invalid_request",
        "invalid_request",
        "invalid_request",
        "api",
        "invalid_request",
        "connector",
        "invalid_request",
        "invalid_request",
        "invalid_request",
        "blocked",
    ];
    for (response, name) in all_kinds(&error).iter().zip(expected) {
        assert_eq!(response.error_type(), name);
        assert_eq!(response.get_internal_error().error_message, "m");
        assert_eq!(response.get_internal_error().sub_code, "IR");
    }
}

#[test]
fn internal_error_is_changed_in_place() {
    let error = ApiError::new("IR", 1, "before", None);
    for mut response in all_kinds(&error) {
        let name = response.error_type();
        response.get_internal_error_mut().error_message = "after".to_string();
        response.get_internal_error_mut().error_identifier = 7;
        assert_eq!(response.get_internal_error().error_message, "after");
        assert_eq!(response.get_internal_error().code(), "IR_07");
        assert_eq!(response.error_type(), name);
        if let ApiErrorResponse::ConnectorError(_, status) = &response {
            assert_eq!(*status, StatusCode::BAD_GATEWAY);
        }
        let copy = response.clone();
        assert_eq!(copy.error_type(), name);
        assert_eq!(copy.get_internal_error().error_message, "after");
    }
}

#[test]
fn response_of_an_error() {
    let extra = Extra { connector: Some("adyen".to_string()), ..Extra::default() };
    let error = ApiError::new("CE", 3, "declined", Some(extra));
    let response = ErrorResponse::from(&ApiErrorResponse::ConnectorError(error, StatusCode::OK));
    assert_eq!(response.error_type, "connector");
    assert_eq!(response.message, "declined");
    assert_eq!(response.code, "CE_03");
    assert_eq!(response.extra.unwrap().connector, Some("adyen".to_string()));
    let plain: ErrorResponse =
        (&ApiErrorResponse::NotFound(ApiError::new("HE", 12, "no such payment", None))).into();
    assert_eq!(plain.error_type, "invalid_request");
    assert_eq!(plain.code, "HE_12");
    assert!(plain.extra.is_none());
}

#[test]
fn class_of_each_metrics_error() {
    let request_errors = [
        MetricsError::UnsupportedDimension,
        MetricsError::UnsupportedOperation,
        MetricsError::ValueRenderingFailure,
    ];
    for error in request_errors {
        assert!(error.is_request_error());
        assert_eq!(error.error_type(), ErrorType::InvalidRequestError);
        assert_eq!(error.clone(), error);
    }
    let system_errors =
        [MetricsError::BackendExecutionFailure("down".to_string()), MetricsError::DecodeFailure];
    for error in system_errors {
        assert!(!error.is_request_error());
        assert_eq!(error.error_type(), ErrorType::RouterError);
        assert_eq!(error.clone(), error);
    }
    assert_ne!(
        MetricsError::BackendExecutionFailure("a".to_string()),
        MetricsError::BackendExecutionFailure("b".to_string())
    );
    assert_ne!(MetricsError::DecodeFailure, MetricsError::UnsupportedDimension);
}

#[test]
fn payout_list_from_constraints() {
    assert_eq!(PAYOUTS_LIST_MAX_LIMIT_GET, 100);
    assert_eq!(PAYOUTS_LIST_MAX_LIMIT_POST, 20);
    assert_eq!(cap(5, 100), 5);
    assert_eq!(cap(100, 100), 100);
    assert_eq!(cap(101, 100), 100);
    let constraints = PayoutListConstraints {
        customer_id: Some("cus_1".to_string()),
        starting_after: Some("po_1".to_string()),
        ending_before: None,
        limit: 250,
        created: Some(50),
        time_range: Some(TimeRange { start_time: 100, end_time: Some(200) }),
    };
    match PayoutFetchConstraints::from(constraints) {
        PayoutFetchConstraints::List(params) => {
            assert_eq!(params.offset, 0);
            assert_eq!(params.starting_at, Some(100));
            assert_eq!(params.ending_at, Some(200));
            assert_eq!(params.customer_id, Some("cus_1".to_string()));
            assert_eq!(params.starting_after_id, Some("po_1".to_string()));
            assert_eq!(params.ending_before_id, None);
            assert_eq!(params.limit, Some(100));
            assert_eq!(params.connector, None);
            assert_eq!(params.currency, None);
            assert_eq!(params.status, None);
            assert_eq!(params.payout_method, None);
            assert_eq!(params.profile_id, None);
            assert_eq!(params.entity_type, None);
            assert_eq!(params.merchant_order_reference_id, None);
        }
        other => panic!("unexpected constraints {:?}", other),
    }
    let without_range = PayoutListConstraints {
        customer_id: None,
        starting_after: None,
        ending_before: Some("po_9".to_string()),
        limit: 10,
        created: Some(50),
        time_range: None,
    };
    match PayoutFetchConstraints::from(without_range) {
        PayoutFetchConstraints::List(params) => {
            assert_eq!(params.starting_at, Some(50));
            assert_eq!(params.ending_at, None);
            assert_eq!(params.ending_before_id, Some("po_9".to_string()));
            assert_eq!(params.limit, Some(10));
        }
        other => panic!("unexpected constraints {:?}", other),
    }
}

#[test]
fn payout_list_from_a_time_range() {
    match PayoutFetchConstraints::from(TimeRange { start_time: 7, end_time: None }) {
        PayoutFetchConstraints::List(params) => {
            assert_eq!(params.offset, 0);
            assert_eq!(params.starting_at, Some(7));
            assert_eq!(params.ending_at, None);
            assert_eq!(params.limit, None);
            assert_eq!(params.customer_id, None);
            assert_eq!(params.starting_after_id, None);
        }
        other => panic!("unexpected constraints {:?}", other),
    }
    match PayoutFetchConstraints::from(TimeRange { start_time: 7, end_time: Some(9) }) {
        PayoutFetchConstraints::List(params) => assert_eq!(params.ending_at, Some(9)),
        other => panic!("unexpected constraints {:?}", other),
    }
}

fn filter_constraints(payout_id: Option<&str>) -> PayoutListFilterConstraints {
    PayoutListFilterConstraints {
        payout_id: payout_id.map(|id| id.to_string()),
        profile_id: Some("pro_1".to_string()),
        customer_id: Some("cus_1".to_string()),
        limit: 50,
        offset: Some(40),
        time_range: Some(TimeRange { start_time: 1, end_time: None }),
        connector: Some(strings(&["wise"])),
        currency: Some(strings(&["USD", "EUR"])),
        status: Some(strings(&["success"])),
        payout_method: None,
        entity_type: Some("Individual".to_string()),
        merchant_order_reference_id: Some("ref".to_string()),
    }
}

#[test]
fn payout_fetch_from_filter_constraints() {
    match PayoutFetchConstraints::from(filter_constraints(Some("po_42"))) {
        PayoutFetchConstraints::Single { payout_id } => assert_eq!(payout_id, "po_42"),
        other => panic!("unexpected constraints {:?}", other),
    }
    match PayoutFetchConstraints::from(filter_constraints(None)) {
        PayoutFetchConstraints::List(params) => {
            assert_eq!(params.offset, 40);
            assert_eq!(params.starting_at, Some(1));
            assert_eq!(params.ending_at, None);
            assert_eq!(params.connector, Some(strings(&["wise"])));
            assert_eq!(params.currency, Some(strings(&["USD", "EUR"])));
            assert_eq!(params.status, Some(strings(&["success"])));
            assert_eq!(params.payout_method, None);
            assert_eq!(params.profile_id, Some("pro_1".to_string()));
            assert_eq!(params.customer_id, Some("cus_1".to_string()));
            assert_eq!(params.starting_after_id, None);
            assert_eq!(params.ending_before_id, None);
            assert_eq!(params.entity_type, Some("Individual".to_string()));
            assert_eq!(params.merchant_order_reference_id, Some("ref".to_string()));
            assert_eq!(params.limit, Some(20));
        }
        other => panic!("unexpected constraints {:?}", other),
    }
    let mut bare = filter_constraints(None);
    bare.offset = None;
    bare.time_range = None;
    bare.limit = 3;
    match PayoutFetchConstraints::from(bare) {
        PayoutFetchConstraints::List(params) => {
            assert_eq!(params.offset, 0);
            assert_eq!(params.starting_at, None);
            assert_eq!(params.ending_at, None);
            assert_eq!(params.limit, Some(3));
        }
        other => panic!("unexpected constraints {:?}", other),
    }
}

#[test]
fn events_of_the_refunds_api() {
    let refund = |payment_id: Option<&str>, refund_id: &str| ApiEventsType::Refund {
        payment_id: payment_id.map(|id| id.to_string()),
        refund_id: refund_id.to_string(),
    };
    let request =
        RefundRequest { payment_id: "pay_1".to_string(), refund_id: Some("ref_1".to_string()) };
    assert_eq!(request.get_api_event_type(), Some(refund(Some("pay_1"), "ref_1")));
    let unnamed = RefundRequest { payment_id: "pay_1".to_string(), refund_id: None };
    assert_eq!(unnamed.get_api_event_type(), None);
    let response =
        RefundResponse { refund_id: "ref_2".to_string(), payment_id: "pay_2".to_string() };
    assert_eq!(response.get_api_event_type(), Some(refund(Some("pay_2"), "ref_2")));
    let retrieve = RefundsRetrieveRequest { refund_id: "ref_3".to_string() };
    assert_eq!(retrieve.get_api_event_type(), Some(refund(None, "ref_3")));
    let update = RefundUpdateRequest { refund_id: "ref_4".to_string() };
    assert_eq!(update.get_api_event_type(), Some(refund(None, "ref_4")));
    let manual = RefundManualUpdateRequest { refund_id: "ref_5".to_string() };
    assert_eq!(manual.get_api_event_type(), Some(refund(None, "ref_5")));
    assert_ne!(refund(None, "a"), ApiEventsType::ResourceListAPI);
}

#[test]
fn update_without_fields_keeps_the_record() {
    assert_eq!(settle_update(1, Ok(2)), Ok(2));
    assert_eq!(settle_update(1, Err(DatabaseError::NoFieldsToUpdate)), Ok(1));
    for error in [
        DatabaseError::DatabaseConnectionError,
        DatabaseError::NotFound,
        DatabaseError::UniqueViolation,
        DatabaseError::QueryGenerationFailed,
        DatabaseError::Others,
    ] {
        assert_eq!(settle_update("kept", Err(error)), Err(error));
    }
}

#[test]
fn first_record_or_not_found() {
    assert_eq!(first_or_not_found(vec!["a", "b", "c"]), Ok("a"));
    assert_eq!(first_or_not_found(vec![9]), Ok(9));
    assert_eq!(first_or_not_found(Vec::<u8>::new()), Err(DatabaseError::NotFound));
}

fn shape(query: &AttemptQuery) -> Vec<(AttemptColumn, Vec<String>)> {
    query.filters.iter().map(|f| (f.column, f.values.clone())).collect()
}

fn attempt() -> PaymentAttempt {
    PaymentAttempt {
        payment_id: "pay_1".to_string(),
        merchant_id: "mer_1".to_string(),
        attempt_id: "att_1".to_string(),
        status: "charged".to_string(),
        connector: Some("stripe".to_string()),
        connector_transaction_id: None,
        currency: Some("USD".to_string()),
        payment_method: None,
        payment_method_type: None,
        authentication_type: None,
        merchant_connector_id: None,
        card_network: None,
        card_discovery: None,
        preprocessing_step_id: None,
        profile_id: "pro_1".to_string(),
        created_at: 1,
        modified_at: 2,
    }
}

#[test]
fn update_of_an_attempt() {
    let mut changed = attempt();
    changed.status = "failure".to_string();
    assert_eq!(attempt().update_with_attempt_id(Ok(changed.clone())), Ok(changed));
    assert_eq!(
        attempt().update_with_attempt_id(Err(DatabaseError::NoFieldsToUpdate)),
        Ok(attempt())
    );
    assert_eq!(
        attempt().update_with_attempt_id(Err(DatabaseError::UniqueViolation)),
        Err(DatabaseError::UniqueViolation)
    );
}

#[test]
fn queries_for_one_attempt() {
    let one = |column, value: &str| (column, strings(&[value]));
    let query = PaymentAttempt::find_optional_by_payment_id_merchant_id("pay", "mer");
    assert_eq!(
        shape(&query),
        vec![one(AttemptColumn::MerchantId, "mer"), one(AttemptColumn::PaymentId, "pay")]
    );
    assert_eq!((query.limit, query.order), (None, None));
    let query =
        PaymentAttempt::find_by_connector_transaction_id_payment_id_merchant_id("txn", "pay", "mer");
    assert_eq!(
        shape(&query),
        vec![
            one(AttemptColumn::ConnectorTransactionId, "txn"),
            one(AttemptColumn::PaymentId, "pay"),
            one(AttemptColumn::MerchantId, "mer"),
        ]
    );
    let query = PaymentAttempt::find_by_merchant_id_connector_txn_id("mer", "txn");
    assert_eq!(
        shape(&query),
        vec![one(AttemptColumn::MerchantId, "mer"), one(AttemptColumn::ConnectorTransactionId, "txn")]
    );
    let query = PaymentAttempt::find_by_profile_id_connector_transaction_id("pro", "txn");
    assert_eq!(
        shape(&query),
        vec![one(AttemptColumn::ProfileId, "pro"), one(AttemptColumn::ConnectorPaymentId, "txn")]
    );
    let query = PaymentAttempt::find_by_merchant_id_attempt_id("mer", "att");
    assert_eq!(
        shape(&query),
        vec![one(AttemptColumn::MerchantId, "mer"), one(AttemptColumn::AttemptId, "att")]
    );
    let query = PaymentAttempt::find_by_id("id_1");
    assert_eq!(shape(&query), vec![one(AttemptColumn::Id, "id_1")]);
    assert_eq!((query.limit, query.order), (None, None));
    let query = PaymentAttempt::find_by_merchant_id_preprocessing_id("mer", "pre");
    assert_eq!(
        shape(&query),
        vec![one(AttemptColumn::MerchantId, "mer"), one(AttemptColumn::PreprocessingStepId, "pre")]
    );
    let query = PaymentAttempt::find_by_payment_id_merchant_id_attempt_id("pay", "mer", "att");
    assert_eq!(
        shape(&query),
        vec![
            one(AttemptColumn::PaymentId, "pay"),
            one(AttemptColumn::MerchantId, "mer"),
            one(AttemptColumn::AttemptId, "att"),
        ]
    );
}

#[test]
fn queries_for_several_attempts() {
    let one = |column, value: &str| (column, strings(&[value]));
    let query = PaymentAttempt::find_by_payment_id("pay");
    assert_eq!(shape(&query), vec![one(AttemptColumn::PaymentId, "pay")]);
    assert_eq!((query.limit, query.order), (None, Some(AttemptOrder::CreatedAtAscending)));
    let query = PaymentAttempt::find_by_merchant_id_payment_id("mer", "pay");
    assert_eq!(
        shape(&query),
        vec![one(AttemptColumn::MerchantId, "mer"), one(AttemptColumn::PaymentId, "pay")]
    );
    assert_eq!((query.limit, query.order), (None, None));
}

#[test]
fn queries_for_the_last_charged_attempt() {
    let one = |column, value: &str| (column, strings(&[value]));
    let last = (Some(1), Some(AttemptOrder::ModifiedAtDescending));
    let query = PaymentAttempt::find_last_successful_attempt_by_payment_id_merchant_id("pay", "mer");
    assert_eq!(
        shape(&query),
        vec![
            one(AttemptColumn::PaymentId, "pay"),
            one(AttemptColumn::MerchantId, "mer"),
            one(AttemptColumn::Status, "charged"),
        ]
    );
    assert_eq!((query.limit, query.order), last);
    let query =
        PaymentAttempt::find_last_successful_or_partially_captured_attempt_by_payment_id_merchant_id(
            "pay", "mer",
        );
    assert_eq!(
        shape(&query),
        vec![
            one(AttemptColumn::PaymentId, "pay"),
            one(AttemptColumn::MerchantId, "mer"),
            (AttemptColumn::Status, strings(&["charged", "partial_charged"])),
        ]
    );
    assert_eq!((query.limit, query.order), last);
    let query =
        PaymentAttempt::find_last_successful_or_partially_captured_attempt_by_payment_id("pay");
    assert_eq!(
        shape(&query),
        vec![
            one(AttemptColumn::PaymentId, "pay"),
            (AttemptColumn::Status, strings(&["charged", "partial_charged"])),
        ]
    );
    assert_eq!((query.limit, query.order), last);
}

fn intent(attempt: &str, status: &str) -> analytics::payment_attempt::PaymentIntent {
    analytics::payment_attempt::PaymentIntent {
        active_attempt_id: attempt.to_string(),
        status: status.to_string(),
    }
}

#[test]
fn filters_for_a_list_of_payments() {
    let intents = [
        intent("att_1", "succeeded"),
        intent("att_2", "failed"),
        intent("att_3", "succeeded"),
        intent("att_4", "processing"),
        intent("att_5", "failed"),
    ];
    assert_eq!(active_attempt_ids(&intents), strings(&["att_1", "att_2", "att_3", "att_4", "att_5"]));
    assert_eq!(distinct_statuses(&intents), strings(&["succeeded", "failed", "processing"]));
    assert!(distinct_statuses(&[]).is_empty());
    let some = |t: &str| Some(t.to_string());
    assert_eq!(present(&vec![some("a"), None, some("b"), None]), strings(&["a", "b"]));
    assert!(present(&vec![None, None]).is_empty());
    assert!(holds_text(&strings(&["a", "b"]), &"b".to_string()));
    assert!(!holds_text(&strings(&["a", "b"]), &"c".to_string()));
    let asked = PaymentAttempt::active_attempts(&intents, "mer_1");
    assert_eq!(
        shape(&asked),
        vec![
            (AttemptColumn::MerchantId, strings(&["mer_1"])),
            (AttemptColumn::AttemptId, strings(&["att_1", "att_2", "att_3", "att_4", "att_5"])),
        ]
    );
    assert_eq!((asked.limit, asked.order), (None, None));
    let values = PaymentAttempt::get_filters_for_payments(
        &intents,
        &vec![some("stripe"), None, some("adyen")],
        &vec![None, some("USD")],
        &vec![some("card")],
        &vec![],
        &vec![None],
    );
    assert_eq!(values.connector, strings(&["stripe", "adyen"]));
    assert_eq!(values.currency, strings(&["USD"]));
    assert_eq!(values.status, strings(&["succeeded", "failed", "processing"]));
    assert_eq!(values.payment_method, strings(&["card"]));
    assert!(values.payment_method_type.is_empty());
    assert!(values.authentication_type.is_empty());
}

#[test]
fn filters_of_a_count_of_attempts() {
    let attempts = strings(&["att_1", "att_2"]);
    assert_eq!(copy_texts(&attempts), attempts);
    let bare = PaymentAttempt::get_total_count_of_attempts(
        "mer_1",
        &attempts,
        None,
        None,
        None,
        None,
        None,
        None,
        None,
    );
    assert_eq!((bare.limit, bare.order), (None, None));
    let bare = bare.filters;
    assert_eq!(bare.len(), 2);
    assert_eq!(bare[0].column, AttemptColumn::MerchantId);
    assert_eq!(bare[0].values, strings(&["mer_1"]));
    assert_eq!(bare[1].column, AttemptColumn::AttemptId);
    assert_eq!(bare[1].values, attempts);
    let full = PaymentAttempt::get_total_count_of_attempts(
        "mer_1",
        &[],
        Some(strings(&["stripe"])),
        None,
        Some(strings(&["credit", "debit"])),
        Some(vec![]),
        None,
        Some(strings(&["Visa"])),
        Some(strings(&["manual"])),
    );
    let full = full.filters;
    let columns: Vec<AttemptColumn> = full.iter().map(|f| f.column).collect();
    assert_eq!(
        columns,
        vec![
            AttemptColumn::MerchantId,
            AttemptColumn::AttemptId,
            AttemptColumn::Connector,
            AttemptColumn::PaymentMethodType,
            AttemptColumn::AuthenticationType,
            AttemptColumn::CardNetwork,
            AttemptColumn::CardDiscovery,
        ]
    );
    assert!(full[1].values.is_empty());
    assert_eq!(full[3].values, strings(&["credit", "debit"]));
    assert!(full[4].values.is_empty());
}

fn stored_intent() -> PaymentIntent {
    let mut customer = serde_json::Map::new();
    customer.insert("name".to_string(), Value::String("Ada".to_string()));
    customer.insert("email".to_string(), Value::String("ada@example.com".to_string()));
    let mut metadata = serde_json::Map::new();
    metadata.insert("order".to_string(), Value::Number(Number::from(17)));
    PaymentIntent {
        payment_id: "pay_1".to_string(),
        merchant_id: "mer_1".to_string(),
        status: "succeeded".to_string(),
        amount: 1250,
        currency: Some("USD".to_string()),
        amount_captured: Some(1250),
        customer_id: Some("cus_1".to_string()),
        description: None,
        return_url: Some("https://example.com".to_string()),
        metadata: Some(Value::Object(metadata)),
        connector_id: None,
        statement_descriptor_name: Some("SHOP".to_string()),
        statement_descriptor_suffix: None,
        created_at: 1_704_067_200,
        modified_at: 1_704_067_260,
        last_synced: Some(1_704_067_300),
        setup_future_usage: None,
        off_session: Some(false),
        client_secret: Some("secret".to_string()),
        active_attempt_id: "att_1".to_string(),
        business_country: Some("US".to_string()),
        business_label: None,
        attempt_count: 2,
        profile_id: Some("pro_1".to_string()),
        payment_confirm_source: None,
        customer_details: Some(Value::Object(customer)),
        feature_metadata: Some(Value::Null),
        merchant_order_reference_id: Some("order-17".to_string()),
        organization_id: "org_1".to_string(),
    }
}

#[test]
fn published_intent_mirrors_the_stored_one() {
    let intent = stored_intent();
    let published = KafkaPaymentIntent::from_storage(&intent, Some(Value::Bool(true)));
    assert_eq!(published.payment_id, "pay_1");
    assert_eq!(published.merchant_id, "mer_1");
    assert_eq!(published.status, "succeeded");
    assert_eq!(published.amount, 1250);
    assert_eq!(published.currency, Some(&"USD".to_string()));
    assert_eq!(published.amount_captured, Some(1250));
    assert_eq!(published.customer_id, Some(&"cus_1".to_string()));
    assert_eq!(published.description, None);
    assert_eq!(published.return_url, Some(&"https://example.com".to_string()));
    assert_eq!(published.metadata, Some("{\"order\":17}".to_string()));
    assert_eq!(published.connector_id, None);
    assert_eq!(published.statement_descriptor_name, Some(&"SHOP".to_string()));
    assert_eq!(published.statement_descriptor_suffix, None);
    assert_eq!(published.created_at, 1_704_067_200);
    assert_eq!(published.modified_at, 1_704_067_260);
    assert_eq!(published.last_synced, Some(1_704_067_300));
    assert_eq!(published.setup_future_usage, None);
    assert_eq!(published.off_session, Some(false));
    assert_eq!(published.client_secret, Some(&"secret".to_string()));
    assert_eq!(published.active_attempt_id, "att_1");
    assert_eq!(published.business_country, Some(&"US".to_string()));
    assert_eq!(published.business_label, None);
    assert_eq!(published.attempt_count, 2);
    assert_eq!(published.profile_id, Some(&"pro_1".to_string()));
    assert_eq!(published.payment_confirm_source, None);
    assert_eq!(published.billing_details, None);
    assert_eq!(published.shipping_details, None);
    assert_eq!(published.customer_email, Some("ada@example.com".to_string()));
    assert_eq!(published.feature_metadata, Some(&Value::Null));
    assert_eq!(published.merchant_order_reference_id, Some(&"order-17".to_string()));
    assert_eq!(published.organization_id, "org_1");
    assert_eq!(published.infra_values, Some(Value::Bool(true)));
    assert_eq!(published.get_id(), "pay_1");
    assert_eq!(published.key(), "mer_1_pay_1");
}

#[test]
fn email_from_the_text_of_a_member() {
    assert_eq!(email_from_text(None), None);
    assert_eq!(email_from_text(Some("ada@example.com")), Some("ada@example.com".to_string()));
    assert_eq!(email_from_text(Some("")), Some(String::new()));
}

#[test]
fn email_of_a_customer() {
    assert_eq!(email_of(&None), None);
    assert_eq!(email_of(&Some(Value::String("ada@example.com".to_string()))), None);
    let mut without = serde_json::Map::new();
    without.insert("name".to_string(), Value::String("Ada".to_string()));
    assert_eq!(email_of(&Some(Value::Object(without))), None);
    let mut not_text = serde_json::Map::new();
    not_text.insert("email".to_string(), Value::Bool(true));
    assert_eq!(email_of(&Some(Value::Object(not_text))), None);
    let mut with = serde_json::Map::new();
    with.insert("email".to_string(), Value::String("a@b.c".to_string()));
    assert_eq!(email_of(&Some(Value::Object(with))), Some("a@b.c".to_string()));
    let mut intent = stored_intent();
    intent.customer_details = None;
    intent.metadata = None;
    let published = KafkaPaymentIntent::from_storage(&intent, None);
    assert_eq!(published.customer_email, None);
    assert_eq!(published.metadata, None);
    assert_eq!(published.infra_values, None);
}

fn recovery_metadata() -> PaymentRevenueRecoveryMetadata {
    PaymentRevenueRecoveryMetadata {
        total_retry_count: 3,
        payment_connector_transmission: "ConnectorCallSucceeded".to_string(),
        billing_connector_id: "mca_billing".to_string(),
        active_attempt_payment_connector_id: "mca_payment".to_string(),
        billing_connector_payment_details: BillingConnectorPaymentDetails {
            payment_processor_token: "tok".to_string(),
            connector_customer_id: "cus".to_string(),
        },
        payment_method_type: "card".to_string(),
        payment_method_subtype: "credit".to_string(),
        connector: "stripe".to_string(),
        invoice_next_billing_time: None,
        invoice_billing_started_at_time: Some(1),
        billing_connector_payment_method_details: None,
        first_payment_attempt_pg_error_code: None,
        first_payment_attempt_network_decline_code: None,
        first_payment_attempt_network_advice_code: None,
    }
}

#[test]
fn feature_metadata_knows_what_recovery_keeps() {
    let empty = FeatureMetadata {
        redirect_response: None,
        search_tags: None,
        apple_pay_recurring_details: None,
        payment_revenue_recovery_metadata: None,
    };
    assert_eq!(empty.get_payment_method_sub_type(), None);
    assert_eq!(empty.get_payment_method_type(), None);
    assert_eq!(empty.get_billing_merchant_connector_account_id(), None);
    let full = FeatureMetadata {
        payment_revenue_recovery_metadata: Some(recovery_metadata()),
        ..empty.clone()
    };
    assert_eq!(full.get_payment_method_sub_type(), Some("credit".to_string()));
    assert_eq!(full.get_payment_method_type(), Some("card".to_string()));
    assert_eq!(
        full.get_billing_merchant_connector_account_id(),
        Some("mca_billing".to_string())
    );
    assert_ne!(full, empty);
    assert_ne!(RecurringPaymentIntervalUnit::Year, RecurringPaymentIntervalUnit::Month);
}

#[test]
fn requests_to_a_billing_connector() {
    let payments =
        BillingConnectorPaymentsSyncRequest { billing_connector_psync_id: "ps_1".to_string() };
    assert_eq!(payments.clone().billing_connector_psync_id, "ps_1");
    let invoice =
        BillingConnectorInvoiceSyncRequest { billing_connector_invoice_id: "in_1".to_string() };
    assert_eq!(invoice.clone().billing_connector_invoice_id, "in_1");
    let record = RevenueRecoveryRecordBackRequest {
        merchant_reference_id: "ref".to_string(),
        amount: 100,
        currency: "USD".to_string(),
        payment_method_type: None,
        attempt_status: "charged".to_string(),
        connector_transaction_id: Some("txn".to_string()),
    };
    assert_eq!(record.clone().amount, 100);
}
