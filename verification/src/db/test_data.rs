//! Random values for the test data of a development database: names, tags
//! and titles, times of entries, and the values of integer and time custom
//! fields of generated entries.

use vstd::prelude::*;
use rand::Rng;
use rand::distributions::{Alphanumeric, Bernoulli, BernoulliError};
use rand::rngs::ThreadRng;
use crate::journal::custom_field::{
    spec_same_kind, spec_validate, IntegerRangeType, IntegerRangeValue, IntegerType, IntegerValue, TimeRangeValue, TimeValue,
    Type, Value,
};
use crate::error::ContextError;
use crate::text::to_owned_string;
use crate::time::{Timestamp, MAX_TIMESTAMP_SECS, MIN_TIMESTAMP_SECS};

verus! {

/// a source of random numbers, carried through the library unread
#[verifier::external_type_specification]
#[verifier::external_body]
pub struct ExThreadRng(rand::rngs::ThreadRng);

/// Calls `Rng::gen_range` with the half-open range `low..high`. As rand's
/// source and documentation show, it panics on an empty range, so `low`
/// must be below `high`, and gives a number of the range; which one is left
/// to chance.
#[verifier::external_body]
fn gen_range(rng: &mut ThreadRng, low: i32, high: i32) -> (rtn: i32)
    requires
        low < high,
    ensures
        low <= rtn < high,
{
    rng.gen_range(low..high)
}

/// a random value for an integer field: within its bounds, or within nine
/// of the one bound it has, or between -10 and 9 without bounds
pub fn gen_integer_value(rng: &mut ThreadRng, ty: &IntegerType) -> (rtn: IntegerValue)
    requires
        match (ty.minimum, ty.maximum) {
            (Some(min), Some(max)) => min < max,
            (Some(min), None) => min <= i32::MAX - 9,
            (None, Some(max)) => max >= i32::MIN + 9,
            (None, None) => true,
        },
    ensures
        match (ty.minimum, ty.maximum) {
            (Some(min), Some(max)) => min <= rtn.value < max,
            (Some(min), None) => min <= rtn.value < min + 9,
            (None, Some(max)) => max - 9 <= rtn.value < max,
            (None, None) => -10 <= rtn.value < 10,
        },
{
    match (ty.minimum, ty.maximum) {
        (Some(min), Some(max)) => IntegerValue { value: gen_range(rng, min, max) },
        (Some(min), None) => {
            let upper = gen_range(rng, 5, 10);
            IntegerValue { value: gen_range(rng, min, min + upper) }
        },
        (None, Some(max)) => {
            let lower = gen_range(rng, 5, 10);
            IntegerValue { value: gen_range(rng, max - lower, max) }
        },
        (None, None) => IntegerValue { value: gen_range(rng, -10, 10) },
    }
}

/// whether the bounds of an integer range field leave room for a random
/// value: both bounds must have a difference that fits, and when it is two
/// or more, its half must lie strictly between them; one bound alone must
/// leave fourteen below the limit of `i32`
pub open spec fn spec_range_gen_ok(ty: IntegerRangeType) -> bool {
    match (ty.minimum, ty.maximum) {
        (Some(min), Some(max)) => i32::MIN <= max - min <= i32::MAX && (max - min >= 2 ==> min < (max - min) / 2 < max),
        (Some(min), None) => min <= i32::MAX - 14,
        (None, Some(max)) => max >= i32::MIN + 14,
        (None, None) => true,
    }
}

/// a random value for an integer range field: with both bounds closer than
/// two the bounds themselves, else a low below half the distance and a high
/// from it up to the maximum; with one bound a range within fourteen of
/// it; without bounds a low from 1 to 4 and a high from 5 to 9
pub fn gen_integer_range_value(rng: &mut ThreadRng, ty: &IntegerRangeType) -> (rtn: IntegerRangeValue)
    requires
        spec_range_gen_ok(*ty),
    ensures
        match (ty.minimum, ty.maximum) {
            (Some(min), Some(max)) => if max - min < 2 {
                rtn.low == min && rtn.high == max
            } else {
                min <= rtn.low < (max - min) / 2 <= rtn.high < max
            },
            (Some(min), None) => min <= rtn.low < rtn.high < min + 14,
            (None, Some(max)) => max - 14 <= rtn.low < rtn.high < max,
            (None, None) => 1 <= rtn.low < 5 <= rtn.high < 10,
        },
{
    match (ty.minimum, ty.maximum) {
        (Some(min), Some(max)) => {
            let diff = max - min;
            if diff < 2 {
                IntegerRangeValue { low: min, high: max }
            } else {
                let mid = diff / 2;
                let low = gen_range(rng, min, mid);
                let high = gen_range(rng, mid, max);
                IntegerRangeValue { low, high }
            }
        },
        (Some(min), None) => {
            let diff = gen_range(rng, 2, 8);
            let upper = gen_range(rng, 2, 8);
            let mid = min + diff;
            let low = gen_range(rng, min, mid);
            let high = gen_range(rng, mid, mid + upper);
            IntegerRangeValue { low, high }
        },
        (None, Some(max)) => {
            let diff = gen_range(rng, 2, 8);
            let lower = gen_range(rng, 2, 8);
            let mid = max - diff;
            let low = gen_range(rng, mid - lower, mid);
            let high = gen_range(rng, mid, max);
            IntegerRangeValue { low, high }
        },
        (None, None) => {
            let low = gen_range(rng, 1, 5);
            let high = gen_range(rng, 5, 10);
            IntegerRangeValue { low, high }
        },
    }
}

/// whether a day starts at a time that leaves the whole day in range
pub open spec fn day_in_range(day: i64) -> bool {
    MIN_TIMESTAMP_SECS <= day <= MAX_TIMESTAMP_SECS - 86_400
}

/// a random time of the day that starts at `day` (seconds from the epoch):
/// an hour from 1 to 23, a minute and a second from 1 to 59
pub fn gen_time_value(rng: &mut ThreadRng, day: i64) -> (rtn: TimeValue)
    requires
        day_in_range(day),
    ensures
        day + 3661 <= rtn.value.secs <= day + 23 * 3600 + 59 * 60 + 59,
        rtn.value.nanos == 0,
        rtn.value.wf(),
{
    let hours = gen_range(rng, 1, 24);
    let minutes = gen_range(rng, 1, 60);
    let seconds = gen_range(rng, 1, 60);
    let offset = hours as i64 * 3600 + minutes as i64 * 60 + seconds as i64;
    TimeValue { value: Timestamp { secs: day + offset, nanos: 0 } }
}

/// a random night of the day that starts at `day`: it begins between 7 and
/// 9 o'clock and lasts 6 to 8 hours and some minutes and seconds
pub fn gen_time_range_value(rng: &mut ThreadRng, day: i64) -> (rtn: TimeRangeValue)
    requires
        day_in_range(day),
    ensures
        day + 7 * 3600 + 61 <= rtn.low.secs <= day + 9 * 3600 + 59 * 60 + 59,
        rtn.low.secs + 6 * 3600 + 61 <= rtn.high.secs <= rtn.low.secs + 8 * 3600 + 59 * 60 + 59,
        rtn.low.nanos == 0,
        rtn.high.nanos == 0,
        rtn.low.wf(),
{
    let hours = gen_range(rng, 6, 9);
    let minutes = gen_range(rng, 1, 60);
    let seconds = gen_range(rng, 1, 60);
    let start_hr = gen_range(rng, 7, 10);
    let start_min = gen_range(rng, 1, 60);
    let start_sec = gen_range(rng, 1, 60);
    let low = day + start_hr as i64 * 3600 + start_min as i64 * 60 + start_sec as i64;
    let high = low + hours as i64 * 3600 + minutes as i64 * 60 + seconds as i64;
    TimeRangeValue { low: Timestamp { secs: low, nanos: 0 }, high: Timestamp { secs: high, nanos: 0 } }
}

/// a coin with a fixed chance, carried through the library unread
#[verifier::external_type_specification]
#[verifier::external_body]
pub struct ExBernoulli(rand::distributions::Bernoulli);

/// the error of a chance that is not a probability
#[verifier::external_type_specification]
#[verifier::external_body]
pub struct ExBernoulliError(rand::distributions::BernoulliError);

/// Calls `Bernoulli::from_ratio`. As rand's source shows, it fails exactly
/// when the denominator is zero or the numerator is above it.
#[verifier::external_body]
pub(crate) fn bernoulli_from_ratio(numerator: u32, denominator: u32) -> (rtn: Result<Bernoulli, BernoulliError>)
    ensures
        rtn is Ok <==> (denominator != 0 && numerator <= denominator),
{
    Bernoulli::from_ratio(numerator, denominator)
}

/// Calls `Rng::sample` with the coin. The toss is left to chance: nothing
/// is claimed of it.
#[verifier::external_body]
fn toss(rng: &mut ThreadRng, coin: &Bernoulli) -> (rtn: bool) {
    rng.sample(coin)
}

/// Calls `Rng::sample` with `Alphanumeric`. As rand's source shows, the
/// byte is one of the ASCII letters and digits; which one is left to
/// chance.
#[verifier::external_body]
fn alphanumeric(rng: &mut ThreadRng) -> (rtn: char)
    ensures
        is_alphanumeric(rtn),
{
    rng.sample(Alphanumeric) as char
}

/// whether the character is an ASCII letter or digit
pub open spec fn is_alphanumeric(c: char) -> bool {
    ('a' <= c && c <= 'z') || ('A' <= c && c <= 'Z') || ('0' <= c && c <= '9')
}

/// a random text of ASCII letters and digits, at least `low` and fewer
/// than `high` of them
fn gen_alphanumeric(rng: &mut ThreadRng, low: i32, high: i32) -> (rtn: String)
    requires
        0 <= low < high,
    ensures
        low <= rtn@.len() < high,
        forall|i: int| 0 <= i < rtn@.len() ==> is_alphanumeric(#[trigger] rtn@[i]),
{
    let len = gen_range(rng, low, high);
    let mut rtn = String::new();
    let mut i: i32 = 0;
    while i < len
        invariant
            0 <= i <= len,
            rtn@.len() == i,
            forall|k: int| 0 <= k < rtn@.len() ==> is_alphanumeric(#[trigger] rtn@[k]),
        decreases len - i,
    {
        let c = alphanumeric(rng);
        crate::text::push_char(&mut rtn, c);
        i = i + 1;
    }
    rtn
}

/// a random user name: 8 to 15 ASCII letters and digits
pub fn gen_username(rng: &mut ThreadRng) -> (rtn: String)
    ensures
        8 <= rtn@.len() < 16,
        forall|i: int| 0 <= i < rtn@.len() ==> is_alphanumeric(#[trigger] rtn@[i]),
{
    gen_alphanumeric(rng, 8, 16)
}

/// a random tag key: 4 to 11 ASCII letters and digits
pub fn gen_tag_key(rng: &mut ThreadRng) -> (rtn: String)
    ensures
        4 <= rtn@.len() < 12,
        forall|i: int| 0 <= i < rtn@.len() ==> is_alphanumeric(#[trigger] rtn@[i]),
{
    gen_alphanumeric(rng, 4, 12)
}

/// a random tag value, when the coin says so: 8 to 23 ASCII letters and
/// digits
pub fn gen_tag_value(rng: &mut ThreadRng, coin: &Bernoulli) -> (rtn: Option<String>)
    ensures
        rtn matches Some(v) ==> 8 <= v@.len() < 24 && forall|i: int| 0 <= i < v@.len() ==> is_alphanumeric(
            #[trigger] v@[i],
        ),
{
    if toss(rng, coin) {
        Some(gen_alphanumeric(rng, 8, 24))
    } else {
        None
    }
}

/// a random entry title, when the coin says so: 12 to 23 ASCII letters and
/// digits
pub fn gen_entry_title(rng: &mut ThreadRng, coin: &Bernoulli) -> (rtn: Option<String>)
    ensures
        rtn matches Some(v) ==> 12 <= v@.len() < 24 && forall|i: int| 0 <= i < v@.len() ==> is_alphanumeric(
            #[trigger] v@[i],
        ),
{
    if toss(rng, coin) {
        Some(gen_alphanumeric(rng, 12, 24))
    } else {
        None
    }
}

/// a random time of a working day: from 7:00 to 17:59:59.999, as seconds
/// into the day and nanoseconds of whole milliseconds
pub fn gen_naive_time(rng: &mut ThreadRng) -> (rtn: (i64, u32))
    ensures
        7 * 3600 <= rtn.0 < 18 * 3600,
        rtn.1 < 1_000_000_000,
        rtn.1 % 1_000_000 == 0,
{
    let hour = gen_range(rng, 7, 18);
    let minute = gen_range(rng, 0, 60);
    let second = gen_range(rng, 0, 60);
    let millis = gen_range(rng, 0, 1000);
    let nanos: u32 = millis as u32 * 1_000_000;
    (hour as i64 * 3600 + minute as i64 * 60 + second as i64, nanos)
}

/// whether the day starting at `day` seconds and the two after it lie in
/// the range of points in time
pub open spec fn days_in_range(day: i64) -> bool {
    MIN_TIMESTAMP_SECS <= day <= MAX_TIMESTAMP_SECS - 3 * 86_400
}

/// a random creation time on the day that starts at `day` seconds
pub fn gen_created(rng: &mut ThreadRng, day: i64) -> (rtn: Timestamp)
    requires
        days_in_range(day),
    ensures
        day + 7 * 3600 <= rtn.secs < day + 18 * 3600,
        rtn.wf(),
{
    let (secs, nanos) = gen_naive_time(rng);
    Timestamp { secs: day + secs, nanos }
}

/// a random update time, when the coin says so: on the day that starts at
/// `day` seconds or one of the two after it
pub fn gen_updated(rng: &mut ThreadRng, coin: &Bernoulli, day: i64) -> (rtn: Option<Timestamp>)
    requires
        days_in_range(day),
    ensures
        rtn matches Some(t) ==> day + 7 * 3600 <= t.secs < day + 2 * 86_400 + 18 * 3600 && t.wf(),
{
    if toss(rng, coin) {
        let days = gen_range(rng, 0, 3);
        let (secs, nanos) = gen_naive_time(rng);
        Some(Timestamp { secs: day + days as i64 * 86_400 + secs, nanos })
    } else {
        None
    }
}

/// the coin of the generated entries: six in ten, which is a chance, so
/// it is always made
pub fn entry_coin() -> (rtn: Result<Bernoulli, ContextError>)
    ensures
        rtn is Ok,
{
    match bernoulli_from_ratio(6, 10) {
        Ok(coin) => Ok(coin),
        Err(_) => Err(ContextError::context(to_owned_string("failed to create Bernoulli distribution"))),
    }
}

/// whether the bounds of an integer field leave room for a random value
pub open spec fn spec_integer_gen_ok(ty: IntegerType) -> bool {
    match (ty.minimum, ty.maximum) {
        (Some(min), Some(max)) => min < max,
        (Some(min), None) => min <= i32::MAX - 9,
        (None, Some(max)) => max >= i32::MIN + 9,
        (None, None) => true,
    }
}

/// whether a field leaves room for a random value on the day that starts at
/// `day` seconds
pub open spec fn spec_field_gen_ok<F, FR>(ty: Type<F, FR>, day: i64) -> bool {
    match ty {
        Type::Integer(t) => spec_integer_gen_ok(t),
        Type::IntegerRange(t) => spec_range_gen_ok(t),
        Type::Time(_) => day_in_range(day),
        Type::TimeRange(_) => day_in_range(day),
        _ => true,
    }
}

/// whether a field's bounds are in order: only an integer range field can
/// have a minimum that is not below its maximum
pub open spec fn spec_bounds_ordered<F, FR>(ty: Type<F, FR>) -> bool {
    match ty {
        Type::IntegerRange(t) => (t.minimum matches Some(min) && t.maximum matches Some(max)) ==> t.minimum.unwrap()
            < t.maximum.unwrap(),
        _ => true,
    }
}

/// a random value for a custom field on the day that starts at `day`
/// seconds; none for the float kinds, whose values are made elsewhere. The
/// value is of the field's kind and, when the field's bounds are in order,
/// the field accepts it.
pub fn gen_custom_field_value<F, FR, FV, FRV>(rng: &mut ThreadRng, ty: &Type<F, FR>, day: i64) -> (rtn: Option<Value<FV, FRV>>)
    requires
        spec_field_gen_ok(*ty, day),
    ensures
        (*ty is Float || *ty is FloatRange) <==> rtn is None,
        rtn matches Some(v) ==> spec_same_kind(*ty, v),
        rtn matches Some(v) ==> (spec_bounds_ordered(*ty) ==> spec_validate(*ty, v, true) is Ok),
{
    match ty {
        Type::Integer(t) => Some(Value::Integer(gen_integer_value(rng, t))),
        Type::IntegerRange(t) => Some(Value::IntegerRange(gen_integer_range_value(rng, t))),
        Type::Time(_) => Some(Value::Time(gen_time_value(rng, day))),
        Type::TimeRange(_) => Some(Value::TimeRange(gen_time_range_value(rng, day))),
        _ => None,
    }
}

} // verus!
