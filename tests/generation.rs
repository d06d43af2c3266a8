use attempt_gen::attempt::{Param, PaymentAttempt, COLUMNS};
use attempt_gen::entropy::EntropySource;
use attempt_gen::randr::Randr;
use attempt_gen::storage_enums::{AttemptStatus, Currency, MandateDataType, Payload};
use attempt_gen::timestamp::Timestamp;

fn fixed_instant() -> Timestamp {
    Timestamp::new(2024, 60, 13, 5, 9, 7).unwrap()
}

const MANDATORY: [usize; 10] = [0, 1, 2, 3, 4, 17, 19, 20, 39, 40];

#[test]
fn generated_string_is_thirty_alphanumerics() {
    let mut src = EntropySource::seeded(7, fixed_instant());
    let s = <String as Randr>::default(&mut src);
    assert_eq!(s.len(), 30);
    assert!(s.chars().all(|c| c.is_ascii_alphanumeric()));
}

#[test]
fn encode_gives_one_entry_per_column() {
    let mut src = EntropySource::from_entropy();
    for _ in 0..50 {
        let rec = PaymentAttempt::default(&mut src);
        let params = rec.populate_statement().unwrap();
        assert_eq!(params.len(), COLUMNS);
        assert_eq!(COLUMNS, 56);
    }
}

#[test]
fn mandatory_columns_are_never_null() {
    let mut src = EntropySource::seeded(11, fixed_instant());
    for _ in 0..500 {
        let params = PaymentAttempt::default(&mut src).populate_statement().unwrap();
        for &i in MANDATORY.iter() {
            assert_ne!(params[i], Param::Null, "column {}", i);
        }
    }
}

#[test]
fn optional_presence_is_a_fair_coin() {
    let n = 10_000;
    let mut src = EntropySource::seeded(2024, fixed_instant());
    let mut present = vec![0u32; COLUMNS];
    for _ in 0..n {
        let params = PaymentAttempt::default(&mut src).populate_statement().unwrap();
        for (i, p) in params.iter().enumerate() {
            if *p != Param::Null {
                present[i] += 1;
            }
        }
    }
    for i in 0..COLUMNS {
        if MANDATORY.contains(&i) {
            assert_eq!(present[i], n);
            continue;
        }
        let expected = n as f64 / 2.0;
        let chi_square = 2.0 * (present[i] as f64 - expected).powi(2) / expected;
        assert!(chi_square < 15.0, "column {} present {} times", i, present[i]);
    }
}

#[test]
fn enum_columns_hold_the_canonical_variant() {
    let golden: [(usize, &str); 7] = [
        (3, "\"Started\""),
        (5, "\"USD\""),
        (13, "\"Card\""),
        (15, "\"Automatic\""),
        (18, "\"ThreeDs\""),
        (29, "\"RedirectToUrl\""),
        (30, "\"CardRedirect\""),
    ];
    let mut src = EntropySource::seeded(5, fixed_instant());
    for _ in 0..200 {
        let params = PaymentAttempt::default(&mut src).populate_statement().unwrap();
        for (i, text) in golden.iter() {
            match &params[*i] {
                Param::Null => assert_ne!(*i, 3),
                Param::Text(t) => assert_eq!(t, text),
                other => panic!("column {} holds {:?}", i, other),
            }
        }
    }
}

#[test]
fn generated_records_always_encode() {
    let mut src = EntropySource::from_entropy();
    for _ in 0..200 {
        assert!(PaymentAttempt::default(&mut src).populate_statement().is_ok());
    }
}

#[test]
fn constructor_override_fixes_amount_and_currency() {
    let mut inner = EntropySource::seeded(3, fixed_instant());
    let mut src = EntropySource::seeded(4, fixed_instant());
    let rec = PaymentAttempt::randr(
        &mut src,
        Some(|| {
            let mut p = PaymentAttempt::default(&mut inner);
            p.amount = 500;
            p.currency = Some(Currency::USD);
            p
        }),
        None::<fn(PaymentAttempt) -> PaymentAttempt>,
    );
    let params = rec.populate_statement().unwrap();
    assert_eq!(params[4], Param::BigInt(500));
    assert_eq!(params[5], Param::Text("\"USD\"".to_string()));
}

#[test]
fn transform_applies_after_default_rule() {
    let mut src = EntropySource::seeded(8, fixed_instant());
    let rec = PaymentAttempt::randr(
        &mut src,
        None::<fn() -> PaymentAttempt>,
        Some(|mut p: PaymentAttempt| {
            p.status = AttemptStatus::Charged;
            p
        }),
    );
    assert_eq!(rec.status, AttemptStatus::Charged);
    assert_eq!(rec.payment_id.len(), 30);
}

#[test]
fn randr_without_hooks_uses_default_rule() {
    let mut src = EntropySource::seeded(9, fixed_instant());
    let c = Currency::randr(&mut src, None::<fn() -> Currency>, None::<fn(Currency) -> Currency>);
    assert_eq!(c, Currency::USD);
    let f = i64::factory(|| 42);
    assert_eq!(f, 42);
}

#[test]
fn all_coins_false_leaves_only_mandatory_columns() {
    let mut src = EntropySource::seeded(1, fixed_instant()).with_forced_coin(false);
    let rec = PaymentAttempt::default(&mut src);
    let params = rec.populate_statement().unwrap();
    assert_eq!(params.len(), COLUMNS);
    for (i, p) in params.iter().enumerate() {
        if MANDATORY.contains(&i) {
            assert_ne!(*p, Param::Null, "column {}", i);
        } else {
            assert_eq!(*p, Param::Null, "column {}", i);
        }
    }
    assert!(matches!(params[0], Param::Text(_)));
    assert!(matches!(params[4], Param::BigInt(_)));
    assert!(matches!(params[17], Param::Boolean(false)));
    assert_eq!(params[19], Param::Text("[2024,60,13,5,9,7]".to_string()));
    assert!(matches!(params[39], Param::BigInt(_)));
    assert!(matches!(params[40], Param::Text(_)));
}

#[test]
fn seeded_sources_replay_the_same_record() {
    let mut a = EntropySource::seeded(77, fixed_instant());
    let mut b = EntropySource::seeded(77, fixed_instant());
    let ra = PaymentAttempt::default(&mut a);
    let rb = PaymentAttempt::default(&mut b);
    assert!(ra == rb);
    assert_eq!(ra.populate_statement().unwrap(), rb.populate_statement().unwrap());
    let mut c = EntropySource::seeded(78, fixed_instant());
    let rc = PaymentAttempt::default(&mut c);
    assert!(ra != rc);
}

#[test]
fn mandate_data_arm_is_a_coin() {
    let mut src = EntropySource::seeded(21, fixed_instant());
    let mut single = 0;
    let mut multi = 0;
    for _ in 0..400 {
        match MandateDataType::default(&mut src) {
            MandateDataType::SingleUse(a) => {
                single += 1;
                assert_eq!(a.currency, Currency::USD);
            }
            MandateDataType::MultiUse(_) => multi += 1,
        }
    }
    assert!(single > 100 && multi > 100);
}

#[test]
fn payload_default_is_null() {
    let mut src = EntropySource::seeded(2, fixed_instant());
    assert_eq!(Payload::default(&mut src).text(), "null");
}
