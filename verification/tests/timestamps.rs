use trading_sys::errors::DecodeError;
use trading_sys::timestamp::decode_timestamp;
use trading_sys::timestamp::CanonicalTimestamp;
use trading_sys::timestamp::LAUNCH_EPOCH_MS;
use trading_sys::timestamp::MS_UNIT_THRESHOLD;

fn time_field(frame: &str) -> serde_json::Value {
    let v: serde_json::Value = serde_json::from_str(frame).unwrap();
    v.get("json_time").unwrap().clone()
}

fn benchmark(ms: u64) -> CanonicalTimestamp {
    CanonicalTimestamp::from_millis(ms)
}

#[test]
fn try_naive_date_time_str() {
    let t1 = time_field(r#"{ "json_time": "1555444333222" }"#);
    assert_eq!(decode_timestamp(&t1).unwrap(), benchmark(1_555_444_333_222));
}

#[test]
fn try_naive_date_time_int() {
    let t1 = time_field(r#"{ "json_time": 1555444333222 }"#);
    assert_eq!(decode_timestamp(&t1).unwrap(), benchmark(1_555_444_333_222));
}

#[test]
fn try_naive_date_time_float() {
    let t1 = time_field(r#"{ "json_time": 1555444333222.0 }"#);
    assert_eq!(decode_timestamp(&t1).unwrap(), benchmark(1_555_444_333_222));
}

#[test]
fn millisecond_remainder_becomes_nanoseconds() {
    let t = decode_timestamp(&serde_json::Value::from(1_555_444_333_222u64)).unwrap();
    assert_eq!(t.secs, 1_555_444_333);
    assert_eq!(t.nanos, 222_000_000);
}

#[test]
fn threshold_value_reads_as_milliseconds() {
    // exactly the threshold: read as milliseconds, which names an instant
    // in 2001, before the launch epoch — so it is rejected; a seconds
    // reading would have named a far future instant and been accepted
    assert_eq!(
        decode_timestamp(&serde_json::Value::from(MS_UNIT_THRESHOLD)),
        Err(DecodeError::TimestampBeforeLaunch)
    );
    // the first accepted millisecond value is the launch epoch itself
    let t = decode_timestamp(&serde_json::Value::from(LAUNCH_EPOCH_MS)).unwrap();
    assert_eq!(t.secs, LAUNCH_EPOCH_MS / 1000);
    assert_eq!(t.nanos, 0);
}

#[test]
fn below_threshold_reads_as_seconds() {
    // one unit below the threshold: seconds
    let raw = MS_UNIT_THRESHOLD - 1;
    let t = decode_timestamp(&serde_json::Value::from(raw)).unwrap();
    assert_eq!(t.secs, raw);
    assert_eq!(t.nanos, 0);
}

#[test]
fn before_launch_epoch_is_rejected() {
    // seconds that scale to milliseconds strictly below the launch epoch
    let raw = LAUNCH_EPOCH_MS / 1000 - 1;
    assert_eq!(
        decode_timestamp(&serde_json::Value::from(raw)),
        Err(DecodeError::TimestampBeforeLaunch)
    );
    assert_eq!(
        decode_timestamp(&serde_json::Value::from(0u64)),
        Err(DecodeError::TimestampBeforeLaunch)
    );
    assert_eq!(
        decode_timestamp(&serde_json::Value::from(-5i64)),
        Err(DecodeError::TimestampBeforeLaunch)
    );
    // a millisecond instant from before the exchange existed
    assert_eq!(
        decode_timestamp(&serde_json::Value::from(1_222_333_444_555u64)),
        Err(DecodeError::TimestampBeforeLaunch)
    );
}

#[test]
fn malformed_timestamps_are_invalid_numbers() {
    let bad = time_field(r#"{ "json_time": "12h30" }"#);
    assert_eq!(decode_timestamp(&bad), Err(DecodeError::InvalidNumber));
    let null = time_field(r#"{ "json_time": null }"#);
    assert_eq!(decode_timestamp(&null), Err(DecodeError::InvalidNumber));
    let arr = time_field(r#"{ "json_time": [1222333444555] }"#);
    assert_eq!(decode_timestamp(&arr), Err(DecodeError::InvalidNumber));
}

#[test]
fn float_fractions_truncate_and_exponents_shift() {
    let t = time_field(r#"{ "json_time": 1555444333222.75 }"#);
    assert_eq!(decode_timestamp(&t).unwrap(), benchmark(1_555_444_333_222));
    let e = time_field(r#"{ "json_time": 1.555444333222e12 }"#);
    assert_eq!(decode_timestamp(&e).unwrap(), benchmark(1_555_444_333_222));
}

#[test]
fn extreme_float_magnitudes_do_not_panic() {
    // far past the u64 range: no representable instant
    let huge = time_field(r#"{ "json_time": 1e300 }"#);
    assert_eq!(decode_timestamp(&huge), Err(DecodeError::InvalidNumber));
    // truncates to zero, which is before the launch epoch
    let tiny = time_field(r#"{ "json_time": 1e-300 }"#);
    assert_eq!(decode_timestamp(&tiny), Err(DecodeError::TimestampBeforeLaunch));
    let zero = time_field(r#"{ "json_time": 0.0 }"#);
    assert_eq!(decode_timestamp(&zero), Err(DecodeError::TimestampBeforeLaunch));
    let neg = time_field(r#"{ "json_time": -1222333444555.0 }"#);
    assert_eq!(decode_timestamp(&neg), Err(DecodeError::TimestampBeforeLaunch));
}
