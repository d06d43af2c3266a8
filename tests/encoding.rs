use attempt_gen::attempt::{
    column_kind, column_name, e_for_opt, enum_parse, for_opt, opt_string, ColumnKind, EncodeError,
    Param, PaymentAttempt, COLUMNS,
};
use attempt_gen::entropy::EntropySource;
use attempt_gen::randr::Randr;
use attempt_gen::json::Canonical;
use attempt_gen::storage_enums::{
    AttemptStatus, AuthenticationType, CaptureMethod, Currency, MandateAmountData,
    MandateDataType, MandateDetails, Payload, PaymentExperience, PaymentMethod, PaymentMethodType,
};
use attempt_gen::timestamp::Timestamp;

fn amount_data(amount: i64) -> MandateAmountData {
    MandateAmountData {
        amount,
        currency: Currency::EUR,
        start_date: Some(Timestamp::new(2023, 365, 23, 59, 59, 999_999_999).unwrap()),
        end_date: None,
        metadata: None,
    }
}

#[test]
fn enum_names_follow_their_serde_names() {
    assert_eq!(PaymentMethod::ThreeDSecure.name(), "3d_secure");
    assert_eq!(PaymentMethodType::ClassicReward.name(), "classic");
    assert_eq!(Currency::TRY.name(), "TRY");
    assert_eq!(AttemptStatus::DeviceDataCollectionPending.name(), "DeviceDataCollectionPending");
    assert_eq!(CaptureMethod::ManualMultiple.json_text().unwrap(), "\"ManualMultiple\"");
    assert_eq!(AuthenticationType::NoThreeDs.json_text().unwrap(), "\"NoThreeDs\"");
    assert_eq!(PaymentExperience::OneClick.json_text().unwrap(), "\"OneClick\"");
    assert_eq!(PaymentMethod::ThreeDSecure.json_text().unwrap(), "\"3d_secure\"");
}

#[test]
fn timestamp_text_is_the_six_part_array() {
    let t = Timestamp::new(-44, 75, 0, 1, 2, 30).unwrap();
    assert_eq!(t.json_text().unwrap(), "[-44,75,0,1,2,30]");
}

#[test]
fn timestamp_rejects_parts_out_of_range() {
    assert!(Timestamp::new(2023, 366, 0, 0, 0, 0).is_none());
    assert!(Timestamp::new(2024, 366, 0, 0, 0, 0).is_some());
    assert!(Timestamp::new(1900, 366, 0, 0, 0, 0).is_none());
    assert!(Timestamp::new(2000, 366, 0, 0, 0, 0).is_some());
    assert!(Timestamp::new(2024, 0, 0, 0, 0, 0).is_none());
    assert!(Timestamp::new(2024, 1, 24, 0, 0, 0).is_none());
    assert!(Timestamp::new(2024, 1, 0, 60, 0, 0).is_none());
    assert!(Timestamp::new(2024, 1, 0, 0, 60, 0).is_none());
    assert!(Timestamp::new(2024, 1, 0, 0, 0, 1_000_000_000).is_none());
    assert!(Timestamp::new(10000, 1, 0, 0, 0, 0).is_none());
    assert!(Timestamp::new(-9999, 1, 0, 0, 0, 0).is_some());
    let t = Timestamp::new(2024, 2, 3, 4, 5, 6).unwrap();
    assert_eq!(
        (t.year(), t.ordinal(), t.hour(), t.minute(), t.second(), t.nanosecond()),
        (2024, 2, 3, 4, 5, 6)
    );
}

#[test]
fn mandate_amount_data_text() {
    assert_eq!(
        amount_data(-1500).json_text().unwrap(),
        "{\"amount\":-1500,\"currency\":\"EUR\",\"start_date\":[2023,365,23,59,59,999999999],\
         \"end_date\":null,\"metadata\":null}"
    );
}

#[test]
fn mandate_data_type_text() {
    assert_eq!(
        MandateDataType::MultiUse(None).json_text().unwrap(),
        "{\"MultiUse\":null}"
    );
    let mut a = amount_data(7);
    a.start_date = None;
    a.metadata = Some(Payload::parse("{ \"k\" : [1, 2] }").unwrap());
    let inner = "{\"amount\":7,\"currency\":\"EUR\",\"start_date\":null,\"end_date\":null,\
                 \"metadata\":{\"k\":[1,2]}}";
    assert_eq!(
        MandateDataType::SingleUse(a.clone()).json_text().unwrap(),
        format!("{{\"SingleUse\":{}}}", inner)
    );
    assert_eq!(
        MandateDataType::MultiUse(Some(a)).json_text().unwrap(),
        format!("{{\"MultiUse\":{}}}", inner)
    );
}

#[test]
fn mandate_details_text_escapes_the_id() {
    let d = MandateDetails { update_mandate_id: Some("a\"b\\c".to_string()) };
    assert_eq!(d.json_text().unwrap(), "{\"update_mandate_id\":\"a\\\"b\\\\c\"}");
    let none = MandateDetails { update_mandate_id: None };
    assert_eq!(none.json_text().unwrap(), "{\"update_mandate_id\":null}");
}

#[test]
fn payload_parse_reprints_compactly() {
    assert_eq!(Payload::parse(" [ true , null ] ").unwrap().text(), "[true,null]");
    assert!(Payload::parse("{not json").is_none());
    assert_eq!(Payload::null().text(), "null");
}

#[test]
fn optional_binders() {
    assert_eq!(opt_string(&None), Param::Null);
    assert_eq!(opt_string(&Some("x".to_string())), Param::Text("x".to_string()));
    assert_eq!(e_for_opt(&Some(-3i16)), Param::SmallInt(-3));
    assert_eq!(e_for_opt(&Some(9i64)), Param::BigInt(9));
    assert_eq!(e_for_opt(&Some(true)), Param::Boolean(true));
    assert_eq!(e_for_opt::<i64>(&None), Param::Null);
    assert_eq!(for_opt::<Currency>(&None, 5), Ok(Param::Null));
    assert_eq!(for_opt(&Some(Currency::INR), 5), Ok(Param::Text("\"INR\"".to_string())));
    assert_eq!(
        for_opt(&Some(Payload::null()), 25),
        Ok(Param::Text("null".to_string()))
    );
    assert_eq!(enum_parse(&AttemptStatus::Voided, 3), Ok("\"Voided\"".to_string()));
    let e = EncodeError { column: 3 };
    assert_eq!(e.column, 3);
}

#[test]
fn column_table_names_and_kinds() {
    assert_eq!(column_name(0), "payment_id");
    assert_eq!(column_name(5), "currency");
    assert_eq!(column_name(COLUMNS - 1), "client_version");
    assert_eq!(column_kind(4), ColumnKind::BigInt);
    assert_eq!(column_kind(17), ColumnKind::Boolean);
    assert_eq!(column_kind(37), ColumnKind::SmallInt);
    assert_eq!(column_kind(19), ColumnKind::Text);
    let names: std::collections::HashSet<&str> = (0..COLUMNS).map(column_name).collect();
    assert_eq!(names.len(), COLUMNS);
}

#[test]
fn generated_params_fit_their_columns() {
    let mut src = EntropySource::from_entropy();
    for _ in 0..100 {
        let params = PaymentAttempt::default(&mut src).populate_statement().unwrap();
        for (i, p) in params.iter().enumerate() {
            let ok = match p {
                Param::Null => true,
                Param::Text(_) => column_kind(i) == ColumnKind::Text,
                Param::BigInt(_) => column_kind(i) == ColumnKind::BigInt,
                Param::SmallInt(_) => column_kind(i) == ColumnKind::SmallInt,
                Param::Boolean(_) => column_kind(i) == ColumnKind::Boolean,
            };
            assert!(ok, "column {}", i);
        }
    }
}
