//! Custom fields of a journal: their kinds, the values they accept and the
//! default values they start with.

use vstd::prelude::*;
use crate::time::{Timestamp, utc_now};

verus! {

/// whether time range fields show the difference of their ends by default
pub fn default_time_range_show_diff() -> (rtn: bool)
    ensures
        rtn == false,
{
    false
}

/// the default number of decimal places of a float field
pub fn default_precision() -> (rtn: i32)
    ensures
        rtn == 2,
{
    2
}

/// a custom field value made of a single value
#[derive(Debug, Clone)]
pub struct SimpleValue<T> {
    pub value: T,
}

/// a custom field value made of the two ends of a range
#[derive(Debug, Clone)]
pub struct RangeValue<T> {
    pub low: T,
    pub high: T,
}

/// an integer value
pub type IntegerValue = SimpleValue<i32>;

/// a range of integers
pub type IntegerRangeValue = RangeValue<i32>;

/// a point in time
pub type TimeValue = SimpleValue<Timestamp>;

/// a range of time
pub type TimeRangeValue = RangeValue<Timestamp>;

/// whether `v` lies within the optional inclusive bounds
pub open spec fn within_bounds(minimum: Option<i32>, maximum: Option<i32>, v: i32) -> bool {
    (minimum matches Some(min) ==> min <= v) && (maximum matches Some(max) ==> v <= max)
}

/// an integer field with optional inclusive bounds
#[derive(Debug, Clone)]
pub struct IntegerType {
    pub minimum: Option<i32>,
    pub maximum: Option<i32>,
}

impl IntegerType {
    /// whether the value lies within the bounds of the field
    pub fn validate(&self, value: &IntegerValue) -> (rtn: bool)
        ensures
            rtn == within_bounds(self.minimum, self.maximum, value.value),
    {
        let value = value.value;
        match (&self.minimum, &self.maximum) {
            (Some(min), Some(max)) => value >= *min && value <= *max,
            (Some(min), None) => value >= *min,
            (None, Some(max)) => value <= *max,
            (None, None) => true,
        }
    }

    /// the starting value of the field: its minimum, or zero without one
    pub fn make_value(&self) -> (rtn: IntegerValue)
        ensures
            rtn.value == match self.minimum {
                Some(min) => min,
                None => 0,
            },
    {
        IntegerValue {
            value: match self.minimum {
                Some(min) => min,
                None => 0,
            },
        }
    }
}

/// an integer range field with optional inclusive bounds on both ends
#[derive(Debug, Clone)]
pub struct IntegerRangeType {
    pub minimum: Option<i32>,
    pub maximum: Option<i32>,
}

/// the low end must be strictly below the high end, and both within the
/// bounds
pub open spec fn range_valid(minimum: Option<i32>, maximum: Option<i32>, low: i32, high: i32) -> bool {
    low < high && (minimum matches Some(min) ==> min <= low) && (maximum matches Some(max) ==> high <= max)
}

/// the starting range of an integer range field
pub open spec fn spec_default_range(minimum: Option<i32>, maximum: Option<i32>) -> (int, int) {
    match (minimum, maximum) {
        (Some(min), Some(max)) => (min as int, max as int),
        (Some(min), None) => (min as int, min + 10),
        (None, Some(max)) => (max - 10, max as int),
        (None, None) => (0, 10),
    }
}

impl IntegerRangeType {
    /// whether the range is well ordered and lies within the bounds of the
    /// field
    pub fn validate(&self, value: &IntegerRangeValue) -> (rtn: bool)
        ensures
            rtn == range_valid(self.minimum, self.maximum, value.low, value.high),
    {
        let low = value.low;
        let high = value.high;
        match (&self.minimum, &self.maximum) {
            (Some(min), Some(max)) => low >= *min && low < high && high <= *max,
            (Some(min), None) => low >= *min && low < high,
            (None, Some(max)) => low < high && high <= *max,
            (None, None) => low < high,
        }
    }

    /// the starting range of the field: the bounds when both are given, a
    /// span of ten from the one bound given, else zero to ten
    pub fn make_value(&self) -> (rtn: IntegerRangeValue)
        requires
            self.minimum is Some && self.maximum is None ==> self.minimum.unwrap() <= i32::MAX - 10,
            self.maximum is Some && self.minimum is None ==> self.maximum.unwrap() >= i32::MIN + 10,
        ensures
            (rtn.low as int, rtn.high as int) == spec_default_range(self.minimum, self.maximum),
    {
        match (&self.minimum, &self.maximum) {
            (Some(min), Some(max)) => IntegerRangeValue { low: *min, high: *max },
            (Some(min), None) => IntegerRangeValue { low: *min, high: *min + 10 },
            (None, Some(max)) => IntegerRangeValue { low: *max - 10, high: *max },
            (None, None) => IntegerRangeValue { low: 0, high: 10 },
        }
    }
}

/// a field holding a point in time
#[derive(Debug, Clone)]
pub struct TimeType {}

impl TimeType {
    /// every point in time is accepted
    pub fn validate(&self, value: &TimeValue) -> (rtn: bool)
        ensures
            rtn,
    {
        true
    }

    /// the starting value of the field: the current time; `None` when the
    /// clock reads a time that cannot be represented
    pub fn make_value(&self) -> (rtn: Option<TimeValue>)
        ensures
            rtn matches Some(v) ==> v.value.wf(),
    {
        match utc_now() {
            Some(now) => Some(TimeValue { value: now }),
            None => None,
        }
    }
}

/// a field holding a range of time
#[derive(Debug, Clone)]
pub struct TimeRangeType {
    pub show_diff: bool,
}

impl TimeRangeType {
    /// the range must start strictly before it ends
    pub fn validate(&self, value: &TimeRangeValue) -> (rtn: bool)
        ensures
            rtn == value.low.spec_before(value.high),
    {
        value.low.before(&value.high)
    }

    /// the range from an hour before to an hour after `now`
    pub fn value_around(&self, now: Timestamp) -> (rtn: TimeRangeValue)
        requires
            now.wf(),
        ensures
            rtn.low.secs == now.secs - 3600,
            rtn.high.secs == now.secs + 3600,
            rtn.low.nanos == now.nanos,
            rtn.high.nanos == now.nanos,
    {
        TimeRangeValue { low: now.add_secs(-3600), high: now.add_secs(3600) }
    }

    /// the starting value of the field: from an hour before to an hour after
    /// the current time; `None` when the clock reads a time that cannot be
    /// represented
    pub fn make_value(&self) -> (rtn: Option<TimeRangeValue>)
        ensures
            rtn matches Some(v) ==> v.low.secs + 7200 == v.high.secs && v.low.nanos == v.high.nanos,
    {
        match utc_now() {
            Some(now) => Some(self.value_around(now)),
            None => None,
        }
    }
}

/// why a value was refused by a custom field
#[derive(Debug, Clone, Copy, PartialEq, Eq, Structural)]
pub enum ValidationError {
    /// the value is of another kind than the field
    Mismatched,
    /// the value is of the field's kind but breaks its bounds
    Invalid,
}

/// the underlying type does not match the requested type
#[derive(Debug)]
pub struct TypeMissMatch;

/// the kind of a custom field with its options; the options of the float
/// kinds (`F`, `FR`) are carried unread
#[derive(Debug, Clone)]
pub enum Type<F, FR> {
    Integer(IntegerType),
    IntegerRange(IntegerRangeType),
    Float(F),
    FloatRange(FR),
    Time(TimeType),
    TimeRange(TimeRangeType),
}

/// a value of a custom field; the float values (`FV`, `FRV`) are carried
/// unread
#[derive(Debug, Clone)]
pub enum Value<FV, FRV> {
    Integer(IntegerValue),
    IntegerRange(IntegerRangeValue),
    Float(FV),
    FloatRange(FRV),
    Time(TimeValue),
    TimeRange(TimeRangeValue),
}

/// whether a value fits a field: `Mismatched` when it is of another kind,
/// `Invalid` when it breaks the field's bounds; for the float kinds,
/// `float_fits` says whether the value is within the field's bounds
pub open spec fn spec_validate<F, FR, FV, FRV>(
    ty: Type<F, FR>,
    value: Value<FV, FRV>,
    float_fits: bool,
) -> Result<(), ValidationError> {
    let fits = match (ty, value) {
        (Type::Integer(t), Value::Integer(v)) => Some(within_bounds(t.minimum, t.maximum, v.value)),
        (Type::IntegerRange(t), Value::IntegerRange(v)) => Some(range_valid(t.minimum, t.maximum, v.low, v.high)),
        (Type::Float(_), Value::Float(_)) => Some(float_fits),
        (Type::FloatRange(_), Value::FloatRange(_)) => Some(float_fits),
        (Type::Time(_), Value::Time(_)) => Some(true),
        (Type::TimeRange(_), Value::TimeRange(v)) => Some(v.low.spec_before(v.high)),
        _ => None,
    };
    match fits {
        None => Err(ValidationError::Mismatched),
        Some(true) => Ok(()),
        Some(false) => Err(ValidationError::Invalid),
    }
}

/// the outcome of a check
fn outcome(fits: bool) -> (rtn: Result<(), ValidationError>)
    ensures
        rtn == (if fits { Ok::<(), ValidationError>(()) } else { Err::<(), ValidationError>(ValidationError::Invalid) }),
{
    if fits {
        Ok(())
    } else {
        Err(ValidationError::Invalid)
    }
}

impl<F, FR> Type<F, FR> {
    /// checks a value against the field; the verdict on a float value
    /// against a float field comes as `float_fits`
    pub fn validate<FV, FRV>(&self, value: &Value<FV, FRV>, float_fits: bool) -> (rtn: Result<(), ValidationError>)
        ensures
            rtn == spec_validate(*self, *value, float_fits),
    {
        match self {
            Type::Integer(ty) => match value {
                Value::Integer(check) => outcome(ty.validate(check)),
                _ => Err(ValidationError::Mismatched),
            },
            Type::IntegerRange(ty) => match value {
                Value::IntegerRange(check) => outcome(ty.validate(check)),
                _ => Err(ValidationError::Mismatched),
            },
            Type::Float(_) => match value {
                Value::Float(_) => outcome(float_fits),
                _ => Err(ValidationError::Mismatched),
            },
            Type::FloatRange(_) => match value {
                Value::FloatRange(_) => outcome(float_fits),
                _ => Err(ValidationError::Mismatched),
            },
            Type::Time(ty) => match value {
                Value::Time(check) => outcome(ty.validate(check)),
                _ => Err(ValidationError::Mismatched),
            },
            Type::TimeRange(ty) => match value {
                Value::TimeRange(check) => outcome(ty.validate(check)),
                _ => Err(ValidationError::Mismatched),
            },
        }
    }
}

impl<FV, FRV> Value<FV, FRV> {
    /// the integer value, or `TypeMissMatch` for a value of another kind
    pub fn try_integer(self) -> (rtn: Result<IntegerValue, TypeMissMatch>)
        ensures
            match self {
                Value::Integer(v) => rtn == Ok::<IntegerValue, TypeMissMatch>(v),
                _ => rtn is Err,
            },
    {
        match self {
            Value::Integer(v) => Ok(v),
            _ => Err(TypeMissMatch),
        }
    }

    /// the integer range, or `TypeMissMatch` for a value of another kind
    pub fn try_integer_range(self) -> (rtn: Result<IntegerRangeValue, TypeMissMatch>)
        ensures
            match self {
                Value::IntegerRange(v) => rtn == Ok::<IntegerRangeValue, TypeMissMatch>(v),
                _ => rtn is Err,
            },
    {
        match self {
            Value::IntegerRange(v) => Ok(v),
            _ => Err(TypeMissMatch),
        }
    }

    /// the float value, or `TypeMissMatch` for a value of another kind
    pub fn try_float(self) -> (rtn: Result<FV, TypeMissMatch>)
        ensures
            match self {
                Value::Float(v) => rtn == Ok::<FV, TypeMissMatch>(v),
                _ => rtn is Err,
            },
    {
        match self {
            Value::Float(v) => Ok(v),
            _ => Err(TypeMissMatch),
        }
    }

    /// the float range, or `TypeMissMatch` for a value of another kind
    pub fn try_float_range(self) -> (rtn: Result<FRV, TypeMissMatch>)
        ensures
            match self {
                Value::FloatRange(v) => rtn == Ok::<FRV, TypeMissMatch>(v),
                _ => rtn is Err,
            },
    {
        match self {
            Value::FloatRange(v) => Ok(v),
            _ => Err(TypeMissMatch),
        }
    }

    /// the point in time, or `TypeMissMatch` for a value of another kind
    pub fn try_time(self) -> (rtn: Result<TimeValue, TypeMissMatch>)
        ensures
            match self {
                Value::Time(v) => rtn == Ok::<TimeValue, TypeMissMatch>(v),
                _ => rtn is Err,
            },
    {
        match self {
            Value::Time(v) => Ok(v),
            _ => Err(TypeMissMatch),
        }
    }

    /// the range of time, or `TypeMissMatch` for a value of another kind
    pub fn try_time_range(self) -> (rtn: Result<TimeRangeValue, TypeMissMatch>)
        ensures
            match self {
                Value::TimeRange(v) => rtn == Ok::<TimeRangeValue, TypeMissMatch>(v),
                _ => rtn is Err,
            },
    {
        match self {
            Value::TimeRange(v) => Ok(v),
            _ => Err(TypeMissMatch),
        }
    }
}

/// A value of another kind than the field is never accepted, whatever is
/// said of float values.
pub proof fn lemma_other_kind_mismatched<F, FR, FV, FRV>(ty: Type<F, FR>, value: Value<FV, FRV>, float_fits: bool)
    requires
        !spec_same_kind(ty, value),
    ensures
        spec_validate(ty, value, float_fits) == Err::<(), ValidationError>(ValidationError::Mismatched),
{
}

/// whether a value is of the field's kind
pub open spec fn spec_same_kind<F, FR, FV, FRV>(ty: Type<F, FR>, value: Value<FV, FRV>) -> bool {
    match (ty, value) {
        (Type::Integer(_), Value::Integer(_)) => true,
        (Type::IntegerRange(_), Value::IntegerRange(_)) => true,
        (Type::Float(_), Value::Float(_)) => true,
        (Type::FloatRange(_), Value::FloatRange(_)) => true,
        (Type::Time(_), Value::Time(_)) => true,
        (Type::TimeRange(_), Value::TimeRange(_)) => true,
        _ => false,
    }
}

/// the starting value of an integer field is accepted by the field whenever
/// its bounds are in order
pub proof fn lemma_integer_default_valid(ty: IntegerType)
    requires
        ty.minimum is Some && ty.maximum is Some ==> ty.minimum.unwrap() <= ty.maximum.unwrap(),
        ty.minimum is None && ty.maximum is Some ==> 0 <= ty.maximum.unwrap(),
    ensures
        within_bounds(
            ty.minimum,
            ty.maximum,
            match ty.minimum {
                Some(min) => min,
                None => 0,
            },
        ),
{
}

/// the starting range of an integer range field is accepted by the field
/// whenever its bounds leave room for a range
pub proof fn lemma_integer_range_default_valid(ty: IntegerRangeType)
    requires
        ty.minimum is Some && ty.maximum is Some ==> ty.minimum.unwrap() < ty.maximum.unwrap(),
        ty.minimum is Some && ty.maximum is None ==> ty.minimum.unwrap() <= i32::MAX - 10,
        ty.maximum is Some && ty.minimum is None ==> ty.maximum.unwrap() >= i32::MIN + 10,
    ensures
        range_valid(
            ty.minimum,
            ty.maximum,
            spec_default_range(ty.minimum, ty.maximum).0 as i32,
            spec_default_range(ty.minimum, ty.maximum).1 as i32,
        ),
{
}

/// the starting range of a time range field is accepted by the field
pub proof fn lemma_time_range_default_valid(now: Timestamp)
    requires
        now.wf(),
    ensures
        (Timestamp { secs: (now.secs - 3600) as i64, nanos: now.nanos }).spec_before(
            (Timestamp { secs: (now.secs + 3600) as i64, nanos: now.nanos }),
        ),
{
}

/// An integer field accepts exactly the values within its bounds: a value
/// below the minimum it has, or above the maximum it has, is refused as
/// `Invalid`, both by the field's own check and by the check of a value
/// against a field; any other value is accepted.
pub proof fn lemma_integer_validate_bounds<F, FR, FV, FRV>(ty: IntegerType, v: i32, float_fits: bool)
    ensures
        ({
            let checked = spec_validate(
                Type::<F, FR>::Integer(ty),
                Value::<FV, FRV>::Integer(SimpleValue { value: v }),
                float_fits,
            );
            &&& ty.minimum matches Some(min) ==> (v < min ==> !within_bounds(ty.minimum, ty.maximum, v)
                && checked == Err::<(), ValidationError>(ValidationError::Invalid))
            &&& ty.maximum matches Some(max) ==> (max < v ==> !within_bounds(ty.minimum, ty.maximum, v)
                && checked == Err::<(), ValidationError>(ValidationError::Invalid))
            &&& (ty.minimum matches Some(min) ==> min <= v) && (ty.maximum matches Some(max) ==> v <= max)
                ==> within_bounds(ty.minimum, ty.maximum, v) && checked == Ok::<(), ValidationError>(())
        }),
{
}

/// An integer range field accepts exactly the ranges that go up and lie
/// within its bounds: a range whose low end is not below its high end, whose
/// low end is below the minimum, or whose high end is above the maximum, is
/// refused as `Invalid`; any other range is accepted.
pub proof fn lemma_integer_range_validate_bounds<F, FR, FV, FRV>(ty: IntegerRangeType, low: i32, high: i32, float_fits: bool)
    ensures
        ({
            let checked = spec_validate(
                Type::<F, FR>::IntegerRange(ty),
                Value::<FV, FRV>::IntegerRange(RangeValue { low, high }),
                float_fits,
            );
            &&& high <= low ==> !range_valid(ty.minimum, ty.maximum, low, high)
                && checked == Err::<(), ValidationError>(ValidationError::Invalid)
            &&& ty.minimum matches Some(min) ==> (low < min ==> !range_valid(ty.minimum, ty.maximum, low, high)
                && checked == Err::<(), ValidationError>(ValidationError::Invalid))
            &&& ty.maximum matches Some(max) ==> (max < high ==> !range_valid(ty.minimum, ty.maximum, low, high)
                && checked == Err::<(), ValidationError>(ValidationError::Invalid))
            &&& low < high && (ty.minimum matches Some(min) ==> min <= low) && (ty.maximum matches Some(max) ==> high
                <= max) ==> range_valid(ty.minimum, ty.maximum, low, high) && checked == Ok::<(), ValidationError>(())
        }),
{
}

} // verus!
