use tj2::db::test_data::{
    entry_coin, gen_created, gen_custom_field_value, gen_entry_title, gen_integer_range_value, gen_integer_value, gen_naive_time, gen_tag_key,
    gen_tag_value, gen_time_range_value, gen_time_value, gen_updated, gen_username,
};
use tj2::journal::custom_field::{IntegerRangeType, IntegerType, TimeRangeType, TimeType, Type, Value};

#[test]
fn random_integers_stay_in_bounds() {
    let mut rng = rand::thread_rng();
    for _ in 0..200 {
        let v = gen_integer_value(&mut rng, &IntegerType { minimum: Some(1), maximum: Some(10) }).value;
        assert!((1..10).contains(&v));
        let v = gen_integer_value(&mut rng, &IntegerType { minimum: Some(100), maximum: None }).value;
        assert!((100..109).contains(&v));
        let v = gen_integer_value(&mut rng, &IntegerType { minimum: None, maximum: Some(0) }).value;
        assert!((-9..0).contains(&v));
        let v = gen_integer_value(&mut rng, &IntegerType { minimum: None, maximum: None }).value;
        assert!((-10..10).contains(&v));
    }
}

#[test]
fn random_integer_ranges() {
    let mut rng = rand::thread_rng();
    let v = gen_integer_range_value(&mut rng, &IntegerRangeType { minimum: Some(3), maximum: Some(4) });
    assert_eq!((v.low, v.high), (3, 4));
    for _ in 0..200 {
        let v = gen_integer_range_value(&mut rng, &IntegerRangeType { minimum: Some(0), maximum: Some(10) });
        assert!(0 <= v.low && v.low < 5 && 5 <= v.high && v.high < 10);
        let v = gen_integer_range_value(&mut rng, &IntegerRangeType { minimum: Some(20), maximum: None });
        assert!(20 <= v.low && v.low < v.high && v.high < 34);
        let v = gen_integer_range_value(&mut rng, &IntegerRangeType { minimum: None, maximum: Some(20) });
        assert!(6 <= v.low && v.low < v.high && v.high < 20);
        let v = gen_integer_range_value(&mut rng, &IntegerRangeType { minimum: None, maximum: None });
        assert!(1 <= v.low && v.low < 5 && 5 <= v.high && v.high < 10);
    }
}

#[test]
fn random_times_fall_on_the_day() {
    let mut rng = rand::thread_rng();
    let day = 1_700_000_000 - 1_700_000_000 % 86_400;
    for _ in 0..200 {
        let t = gen_time_value(&mut rng, day).value;
        assert!(t.secs >= day + 3661 && t.secs < day + 86_400);
        assert_eq!(t.nanos, 0);
        let r = gen_time_range_value(&mut rng, day);
        assert!(r.low.secs >= day + 7 * 3600 && r.low.secs < day + 10 * 3600);
        let len = r.high.secs - r.low.secs;
        assert!(len > 6 * 3600 && len < 9 * 3600);
    }
}

fn alnum(s: &str) -> bool {
    s.chars().all(|c| c.is_ascii_alphanumeric())
}

#[test]
fn generated_names_and_texts() {
    let mut rng = rand::thread_rng();
    let coin = entry_coin().unwrap();
    let mut titles = 0;
    for _ in 0..200 {
        let name = gen_username(&mut rng);
        assert!((8..16).contains(&name.len()) && alnum(&name));
        let key = gen_tag_key(&mut rng);
        assert!((4..12).contains(&key.len()) && alnum(&key));
        if let Some(value) = gen_tag_value(&mut rng, &coin) {
            assert!((8..24).contains(&value.len()) && alnum(&value));
        }
        if let Some(title) = gen_entry_title(&mut rng, &coin) {
            assert!((12..24).contains(&title.len()) && alnum(&title));
            titles += 1;
        }
    }
    assert!(titles > 0 && titles < 200);
}

#[test]
fn generated_entry_times() {
    let mut rng = rand::thread_rng();
    let coin = entry_coin().unwrap();
    let day = 19_723 * 86_400;
    for _ in 0..200 {
        let (secs, nanos) = gen_naive_time(&mut rng);
        assert!((7 * 3600..18 * 3600).contains(&secs));
        assert_eq!(nanos % 1_000_000, 0);
        let created = gen_created(&mut rng, day);
        assert!(created.secs >= day + 7 * 3600 && created.secs < day + 18 * 3600);
        if let Some(updated) = gen_updated(&mut rng, &coin, day) {
            assert!(updated.secs >= day + 7 * 3600 && updated.secs < day + 2 * 86_400 + 18 * 3600);
        }
    }
}

#[test]
fn generated_field_values_fit_their_fields() {
    let mut rng = rand::thread_rng();
    let day = 19_723 * 86_400;
    let fields: Vec<Type<(), ()>> = vec![
        Type::Integer(IntegerType { minimum: Some(-3), maximum: Some(3) }),
        Type::IntegerRange(IntegerRangeType { minimum: Some(0), maximum: Some(100) }),
        Type::Time(TimeType {}),
        Type::TimeRange(TimeRangeType { show_diff: true }),
    ];
    for _ in 0..50 {
        for field in &fields {
            let value: Value<(), ()> = gen_custom_field_value(&mut rng, field, day).unwrap();
            assert_eq!(field.validate(&value, true), Ok(()));
        }
    }
    let float_field: Type<(), ()> = Type::Float(());
    assert!(gen_custom_field_value::<(), (), (), ()>(&mut rng, &float_field, day).is_none());
}
