use analytics::backend::{
    quote_instant, quote_text, write_call, write_window, AnalyticsDataSource, Clickhouse,
    Postgres, QueryValue,
};
use analytics::dimension::{
    all_distinct, holds_dimension, DimensionValue, PaymentDimensions, ValueKind,
};
use analytics::error::MetricsError;
use analytics::filter::PaymentFilters;
use analytics::granularity::Granularity;
use analytics::plan::{
    copy_values, text_values, AggregateFunction, AnalyticsCollection, FilterColumn, GroupKey,
    Measure, MeasureField, MeasureFunction, MeasureSource, Predicate, SelectColumn,
    WindowFunction,
};
use analytics::render::{
    copy_dimensions, to_query_value, write_aliased, write_columns, write_group, write_groups,
    write_literals, write_one_of, write_predicate, write_predicates, write_select,
    write_statement, write_within,
};
use analytics::text::{append_decimal, append_two_digits, join, Quoting};

fn strings(parts: &[&str]) -> Vec<String> {
    parts.iter().map(|p| p.to_string()).collect()
}

#[test]
fn joining_fragments() {
    assert_eq!(join(&strings(&[]), ", "), "");
    assert_eq!(join(&strings(&["a"]), ", "), "a");
    assert_eq!(join(&strings(&["a", "b", "c"]), " AND "), "a AND b AND c");
    assert_eq!(join(&strings(&["", ""]), "-"), "-");
}

#[test]
fn writing_numbers() {
    let mut text = String::from("n=");
    append_decimal(&mut text, 0);
    assert_eq!(text, "n=0");
    let mut text = String::new();
    append_decimal(&mut text, 1_234_567_890);
    assert_eq!(text, "1234567890");
    let mut text = String::new();
    append_decimal(&mut text, u64::MAX);
    assert_eq!(text, "18446744073709551615");
    for (n, expected) in [(0, "00"), (4, "04"), (9, "09"), (10, "10"), (99, "99"), (100, "100")] {
        let mut text = String::new();
        append_two_digits(&mut text, n);
        assert_eq!(text, expected);
    }
}

#[test]
fn quoting_texts() {
    assert_eq!(Quoting::Doubled.quote("abc"), Some("'abc'".to_string()));
    assert_eq!(Quoting::Doubled.quote(""), Some("''".to_string()));
    assert_eq!(Quoting::Doubled.quote("o'neil"), Some("'o''neil'".to_string()));
    assert_eq!(Quoting::Doubled.quote("a\\b"), Some("'a\\b'".to_string()));
    assert_eq!(Quoting::Backslash.quote("o'neil"), Some("'o\\'neil'".to_string()));
    assert_eq!(Quoting::Backslash.quote("a\\b"), Some("'a\\\\b'".to_string()));
    assert_eq!(Quoting::Backslash.quote("zürich ✓"), Some("'zürich ✓'".to_string()));
    assert_eq!(Quoting::Doubled.quote("tab\there"), None);
    assert_eq!(Quoting::Backslash.quote("nul\0"), None);
    assert_eq!(Quoting::Backslash.quote("del\u{7f}"), None);
    assert_eq!(
        quote_text(Quoting::Doubled, "x\r"),
        Err(MetricsError::ValueRenderingFailure)
    );
    assert_eq!(quote_text(Quoting::Doubled, "x'"), Ok("'x'''".to_string()));
}

#[test]
fn literal_of_an_instant_from_its_text() {
    assert_eq!(
        quote_instant(Quoting::Doubled, Some("2024-01-01T00:00:00Z".to_string())),
        Ok("'2024-01-01T00:00:00Z'".to_string())
    );
    assert_eq!(quote_instant(Quoting::Doubled, None), Err(MetricsError::ValueRenderingFailure));
    assert_eq!(
        quote_instant(Quoting::Backslash, Some("a\nb".to_string())),
        Err(MetricsError::ValueRenderingFailure)
    );
}

#[test]
fn values_as_each_data_source_writes_them() {
    assert_eq!(Postgres.render_value(&QueryValue::Flag(true)), Ok("TRUE".to_string()));
    assert_eq!(Postgres.render_value(&QueryValue::Flag(false)), Ok("FALSE".to_string()));
    assert_eq!(Clickhouse.render_value(&QueryValue::Flag(true)), Ok("true".to_string()));
    assert_eq!(Clickhouse.render_value(&QueryValue::Flag(false)), Ok("false".to_string()));
    assert_eq!(
        Postgres.render_value(&QueryValue::Text("it's".to_string())),
        Ok("'it''s'".to_string())
    );
    assert_eq!(
        Clickhouse.render_value(&QueryValue::Text("it's".to_string())),
        Ok("'it\\'s'".to_string())
    );
    assert_eq!(
        Postgres.render_value(&QueryValue::Instant(0)),
        Ok("'1970-01-01T00:00:00Z'".to_string())
    );
    assert_eq!(
        Clickhouse.render_value(&QueryValue::Instant(1_704_153_601)),
        Ok("'2024-01-02T00:00:01Z'".to_string())
    );
    assert_eq!(
        Clickhouse.render_value(&QueryValue::Instant(253_402_300_799)),
        Ok("'9999-12-31T23:59:59Z'".to_string())
    );
    assert_eq!(
        Clickhouse.render_value(&QueryValue::Instant(253_402_300_800)),
        Err(MetricsError::ValueRenderingFailure)
    );
    assert_eq!(
        Postgres.render_value(&QueryValue::Instant(i64::MIN)),
        Err(MetricsError::ValueRenderingFailure)
    );
    for (collection, row_store, column_store) in [
        (AnalyticsCollection::Payment, "payment_attempt", "payment_attempt_queue"),
        (AnalyticsCollection::PaymentIntent, "payment_intent", "payment_intents_queue"),
        (AnalyticsCollection::Refund, "refund", "refund_queue"),
    ] {
        assert_eq!(
            Postgres.render_value(&QueryValue::Collection(collection)),
            Ok(row_store.to_string())
        );
        assert_eq!(
            Clickhouse.render_value(&QueryValue::Collection(collection)),
            Ok(column_store.to_string())
        );
        assert_eq!(Postgres::table_name(collection), row_store);
        assert_eq!(Clickhouse::table_name(collection), column_store);
    }
}

#[test]
fn buckets_as_each_data_source_writes_them() {
    let day = Postgres.render_group_by(Granularity::OneDay).unwrap();
    assert_eq!(day.start, "DATE_TRUNC('day', created_at)");
    assert_eq!(day.end, "DATE_TRUNC('day', created_at) + INTERVAL '1 day'");
    let minute = Postgres.render_group_by(Granularity::OneMin).unwrap();
    assert_eq!(minute.start, "DATE_TRUNC('minute', created_at)");
    assert_eq!(minute.end, "DATE_TRUNC('minute', created_at) + INTERVAL '1 minute'");
    for unsupported in [Granularity::FiveMin, Granularity::FifteenMin, Granularity::ThirtyMin] {
        assert_eq!(
            Postgres.render_group_by(unsupported).unwrap_err(),
            MetricsError::UnsupportedOperation
        );
        assert_eq!(Postgres::unit_name(unsupported), None);
    }
    assert_eq!(Postgres::unit_name(Granularity::OneHour), Some("hour"));
    for (granularity, interval) in [
        (Granularity::OneMin, "INTERVAL 1 MINUTE"),
        (Granularity::FiveMin, "INTERVAL 5 MINUTE"),
        (Granularity::FifteenMin, "INTERVAL 15 MINUTE"),
        (Granularity::ThirtyMin, "INTERVAL 30 MINUTE"),
        (Granularity::OneHour, "INTERVAL 1 HOUR"),
        (Granularity::OneDay, "INTERVAL 1 DAY"),
    ] {
        let written = Clickhouse.render_group_by(granularity).unwrap();
        assert_eq!(written.start, format!("toStartOfInterval(created_at, {})", interval));
        assert_eq!(
            written.end,
            format!("toStartOfInterval(created_at, {}) + {}", interval, interval)
        );
        assert_eq!(Clickhouse::interval(granularity), interval);
    }
}

#[test]
fn aggregates_and_windows_as_each_data_source_writes_them() {
    for (function, upper, lower) in [
        (AggregateFunction::Count, "COUNT(x)", "count(x)"),
        (AggregateFunction::Sum, "SUM(x)", "sum(x)"),
        (AggregateFunction::Min, "MIN(x)", "min(x)"),
        (AggregateFunction::Max, "MAX(x)", "max(x)"),
    ] {
        assert_eq!(Postgres.render_aggregate(function, "x"), Ok(upper.to_string()));
        assert_eq!(Clickhouse.render_aggregate(function, "x"), Ok(lower.to_string()));
    }
    assert_eq!(
        Postgres.render_window(WindowFunction::Sum, "amount"),
        Ok("SUM(amount) OVER ()".to_string())
    );
    assert_eq!(
        Clickhouse.render_window(WindowFunction::RowNumber, "amount"),
        Ok("row_number() OVER (ORDER BY amount)".to_string())
    );
    assert_eq!(write_call("f", "a"), "f(a)");
    assert_eq!(write_window("w", WindowFunction::Sum, "c"), "w(c) OVER ()");
    assert_eq!(write_window("w", WindowFunction::RowNumber, "c"), "w() OVER (ORDER BY c)");
    assert_eq!(Postgres::aggregate_name(AggregateFunction::Min), "MIN");
    assert_eq!(Clickhouse::aggregate_name(AggregateFunction::Min), "min");
    assert_eq!(Postgres::window_name(WindowFunction::RowNumber), "ROW_NUMBER");
    assert_eq!(Clickhouse::window_name(WindowFunction::Sum), "sum");
}

#[test]
fn parts_of_a_statement() {
    assert_eq!(write_aliased("COUNT(*)".to_string(), "count"), "COUNT(*) AS count");
    assert_eq!(write_one_of("status", &strings(&[])), "(1 = 0)");
    assert_eq!(write_one_of("status", &strings(&["'a'"])), "(status = 'a')");
    assert_eq!(
        write_one_of("status", &strings(&["'a'", "'b'", "'c'"])),
        "(status = 'a' OR status = 'b' OR status = 'c')"
    );
    assert_eq!(write_within("'x'", "'y'"), "(created_at >= 'x' AND created_at < 'y')");
    assert_eq!(
        write_statement(&strings(&["a", "b"]), "t", &strings(&["p", "q"]), &strings(&["a"])),
        "SELECT a, b FROM t WHERE p AND q GROUP BY a"
    );
    assert_eq!(
        write_statement(&strings(&["a"]), "t", &strings(&["p"]), &strings(&[])),
        "SELECT a FROM t WHERE p"
    );
}

#[test]
fn columns_groups_and_predicates() {
    let count = Measure {
        function: MeasureFunction::Aggregate(AggregateFunction::Count),
        source: MeasureSource::Records,
        field: MeasureField::Count,
    };
    assert_eq!(
        write_select(&Postgres, SelectColumn::Dimension(PaymentDimensions::CardLast4)),
        Ok("card_last_4".to_string())
    );
    assert_eq!(
        write_select(&Postgres, SelectColumn::Measure(count)),
        Ok("COUNT(*) AS count".to_string())
    );
    assert_eq!(
        write_select(&Postgres, SelectColumn::BucketEnd(Granularity::OneHour)),
        Ok("DATE_TRUNC('hour', created_at) + INTERVAL '1 hour' AS end_bucket".to_string())
    );
    assert_eq!(
        write_select(&Postgres, SelectColumn::BucketStart(Granularity::FifteenMin)),
        Err(MetricsError::UnsupportedOperation)
    );
    assert_eq!(
        write_group(&Clickhouse, GroupKey::Bucket(Granularity::OneDay)),
        Ok("toStartOfInterval(created_at, INTERVAL 1 DAY)".to_string())
    );
    assert_eq!(
        write_group(&Postgres, GroupKey::Dimension(PaymentDimensions::RoutingApproach)),
        Ok("routing_approach".to_string())
    );
    assert_eq!(
        write_columns(
            &Clickhouse,
            &vec![SelectColumn::Dimension(PaymentDimensions::Status), SelectColumn::Measure(count)]
        ),
        Ok(strings(&["status", "count(*) AS count"]))
    );
    assert_eq!(
        write_columns(
            &Postgres,
            &vec![
                SelectColumn::Dimension(PaymentDimensions::Status),
                SelectColumn::BucketStart(Granularity::FiveMin)
            ]
        ),
        Err(MetricsError::UnsupportedOperation)
    );
    assert_eq!(
        write_groups(
            &Postgres,
            &vec![
                GroupKey::Dimension(PaymentDimensions::Status),
                GroupKey::Bucket(Granularity::ThirtyMin)
            ]
        ),
        Err(MetricsError::UnsupportedOperation)
    );
    assert_eq!(write_groups(&Postgres, &vec![]), Ok(vec![]));
    let values = vec![DimensionValue::Text("a".to_string()), DimensionValue::Flag(false)];
    assert_eq!(write_literals(&Postgres, &values), Ok(strings(&["'a'", "FALSE"])));
    assert_eq!(
        write_literals(&Postgres, &vec![DimensionValue::Text("\u{1}".to_string())]),
        Err(MetricsError::ValueRenderingFailure)
    );
    let one_of = Predicate::OneOf { column: FilterColumn::OrganizationId, values };
    assert_eq!(
        write_predicate(&Clickhouse, &one_of),
        Ok("(organization_id = 'a' OR organization_id = false)".to_string())
    );
    let within = Predicate::Within { start: 60, end: 120 };
    assert_eq!(
        write_predicate(&Clickhouse, &within),
        Ok("(created_at >= '1970-01-01T00:01:00Z' AND created_at < '1970-01-01T00:02:00Z')"
            .to_string())
    );
    assert_eq!(
        write_predicate(&Clickhouse, &Predicate::Within { start: 0, end: i64::MAX }),
        Err(MetricsError::ValueRenderingFailure)
    );
    assert_eq!(
        write_predicates(&Clickhouse, &vec![within, Predicate::Within { start: i64::MIN, end: 0 }]),
        Err(MetricsError::ValueRenderingFailure)
    );
    assert_eq!(
        copy_dimensions(&[PaymentDimensions::Status, PaymentDimensions::Currency]),
        vec![PaymentDimensions::Status, PaymentDimensions::Currency]
    );
    match to_query_value(&DimensionValue::Text("t".to_string())) {
        QueryValue::Text(t) => assert_eq!(t, "t"),
        other => panic!("unexpected value {:?}", other),
    }
    match to_query_value(&DimensionValue::Flag(true)) {
        QueryValue::Flag(b) => assert!(b),
        other => panic!("unexpected value {:?}", other),
    }
}

#[test]
fn dimensions_and_their_columns() {
    let names = [
        "currency",
        "status",
        "connector",
        "authentication_type",
        "payment_method",
        "payment_method_type",
        "client_source",
        "client_version",
        "profile_id",
        "card_network",
        "merchant_id",
        "card_last_4",
        "card_issuer",
        "error_reason",
        "first_attempt",
        "routing_approach",
    ];
    for (index, name) in names.iter().enumerate() {
        let dimension = PaymentDimensions::from_index(index).unwrap();
        assert_eq!(dimension.index(), index);
        assert_eq!(dimension.column_name(), *name);
        let expected = if dimension == PaymentDimensions::FirstAttempt {
            ValueKind::Flag
        } else {
            ValueKind::Text
        };
        assert_eq!(dimension.value_kind(), expected);
    }
    assert_eq!(PaymentDimensions::from_index(16), None);
    assert_eq!(FilterColumn::OrganizationId.column_name(), "organization_id");
    assert_eq!(FilterColumn::Dimension(PaymentDimensions::Status).column_name(), "status");
    assert_eq!(MeasureSource::Records.column_name(), "*");
    assert_eq!(MeasureSource::Amount.column_name(), "amount");
    assert_eq!(MeasureSource::ErrorMessage.column_name(), "error_message");
    assert_eq!(MeasureField::Total.alias(), "total");
    assert_eq!(MeasureField::Count.alias(), "count");
    assert_eq!(MeasureField::ErrorMessage.alias(), "error_message");
}

#[test]
fn distinct_dimensions() {
    let currency = PaymentDimensions::Currency;
    let status = PaymentDimensions::Status;
    let connector = PaymentDimensions::Connector;
    assert!(all_distinct(&[]));
    assert!(all_distinct(&[currency, status, connector]));
    assert!(!all_distinct(&[currency, status, currency]));
    assert!(!all_distinct(&[status, status]));
    assert!(holds_dimension(&[currency, status], status));
    assert!(!holds_dimension(&[currency, status], connector));
    assert!(!holds_dimension(&[], connector));
}

#[test]
fn values_of_dimensions() {
    let a = DimensionValue::Text("a".to_string());
    assert_eq!(a.value_kind(), ValueKind::Text);
    assert_eq!(DimensionValue::Flag(true).value_kind(), ValueKind::Flag);
    assert_eq!(a.clone(), a);
    assert_ne!(a, DimensionValue::Text("b".to_string()));
    assert_ne!(DimensionValue::Flag(true), DimensionValue::Flag(false));
    assert_ne!(DimensionValue::Text("true".to_string()), DimensionValue::Flag(true));
    assert_eq!(
        text_values(&strings(&["x", "y"])),
        vec![DimensionValue::Text("x".to_string()), DimensionValue::Text("y".to_string())]
    );
    let values = vec![a, DimensionValue::Flag(false)];
    assert_eq!(copy_values(&values), values);
}

#[test]
fn filters_keep_values_of_the_right_kind_only() {
    let mut filters = PaymentFilters::new();
    for index in 0..16 {
        assert!(filters.values(PaymentDimensions::from_index(index).unwrap()).is_empty());
    }
    assert!(filters.predicates().is_empty());
    let usd = vec![DimensionValue::Text("USD".to_string())];
    assert!(filters.set(PaymentDimensions::Currency, usd.clone()));
    assert!(!filters.set(
        PaymentDimensions::Currency,
        vec![DimensionValue::Text("EUR".to_string()), DimensionValue::Flag(true)]
    ));
    assert_eq!(*filters.values(PaymentDimensions::Currency), usd);
    assert!(!filters.set(PaymentDimensions::FirstAttempt, usd.clone()));
    assert!(filters.values(PaymentDimensions::FirstAttempt).is_empty());
    assert!(filters.set(PaymentDimensions::FirstAttempt, vec![DimensionValue::Flag(false)]));
    assert!(filters.set(PaymentDimensions::Status, vec![DimensionValue::Text("x".to_string())]));
    let predicates = filters.predicates();
    let columns: Vec<FilterColumn> = predicates
        .iter()
        .map(|p| match p {
            Predicate::OneOf { column, .. } => *column,
            other => panic!("unexpected predicate {:?}", other),
        })
        .collect();
    assert_eq!(
        columns,
        vec![
            FilterColumn::Dimension(PaymentDimensions::Currency),
            FilterColumn::Dimension(PaymentDimensions::Status),
            FilterColumn::Dimension(PaymentDimensions::FirstAttempt),
        ]
    );
    // No values lift the restriction.
    assert!(filters.set(PaymentDimensions::Currency, vec![]));
    assert!(filters.values(PaymentDimensions::Currency).is_empty());
    assert_eq!(filters.predicates().len(), 2);
}
