use core::cmp::Ordering;
use vstd::prelude::*;
use vstd::std_specs::cmp::PartialOrdSpec;

verus! {

/// What a limit does with a value outside its bounds.
#[derive(Clone, Copy, PartialEq, Eq, Debug, Structural)]
pub enum LimitLevel {
    /// Accept the value silently.
    Ignore,
    /// Accept the value and return a warning.
    Warn,
    /// Replace the value by the bound it crossed.
    Clamp,
    /// Reject the value with an error.
    Error,
}

pub struct LimitChecker {}

impl LimitChecker {
    pub fn new() -> (r: LimitChecker) {
        LimitChecker {}
    }
}

/// A value found outside a limit, with the bound it crossed.
#[derive(Clone, Copy, PartialEq, Debug)]
pub struct LimitReport<T> {
    pub limit: T,
    pub value: T,
}

#[derive(Clone, Copy, PartialEq, Debug)]
pub enum LimitError<T> {
    /// The value was above the upper bound.
    OverLimit(LimitReport<T>),
    /// The value was below the lower bound.
    UnderLimit(LimitReport<T>),
}

#[derive(Clone, Copy, PartialEq, Debug)]
pub struct LimitWarning<T>(pub LimitReport<T>);

/// `a > b` in the order that `T` declares.
pub open spec fn spec_gt<T: PartialOrd>(a: T, b: T) -> bool {
    a.partial_cmp_spec(&b) == Some(Ordering::Greater)
}

/// `a < b` in the order that `T` declares.
pub open spec fn spec_lt<T: PartialOrd>(a: T, b: T) -> bool {
    a.partial_cmp_spec(&b) == Some(Ordering::Less)
}

/// The bound that `value` crosses, if any: the upper bound is checked first.
pub open spec fn crossing_spec<T: PartialOrd>(value: T, upper: T, lower: T) -> Option<LimitError<T>> {
    if spec_gt(value, upper) {
        Some(LimitError::OverLimit(LimitReport { limit: upper, value }))
    } else if spec_lt(value, lower) {
        Some(LimitError::UnderLimit(LimitReport { limit: lower, value }))
    } else {
        None
    }
}

/// The value after a check: clamped to the crossed bound at level `Clamp`,
/// unchanged otherwise.
pub open spec fn checked_value_spec<T: PartialOrd>(level: LimitLevel, value: T, upper: T, lower: T) -> T {
    match crossing_spec(value, upper, lower) {
        Some(LimitError::OverLimit(_)) => if level == LimitLevel::Clamp { upper } else { value },
        Some(LimitError::UnderLimit(_)) => if level == LimitLevel::Clamp { lower } else { value },
        None => value,
    }
}

/// The outcome of a check: `Warn` returns a warning and `Error` an error for a
/// value outside the bounds, `Ignore` and `Clamp` always succeed.
pub open spec fn check_result_spec<T: PartialOrd>(level: LimitLevel, value: T, upper: T, lower: T) -> Result<Option<LimitWarning<T>>, LimitError<T>> {
    match level {
        LimitLevel::Warn => match crossing_spec(value, upper, lower) {
            Some(LimitError::OverLimit(rep)) => Ok(Some(LimitWarning(rep))),
            Some(LimitError::UnderLimit(rep)) => Ok(Some(LimitWarning(rep))),
            None => Ok(None),
        },
        LimitLevel::Error => match crossing_spec(value, upper, lower) {
            Some(e) => Err(e),
            None => Ok(None),
        },
        _ => Ok(None),
    }
}

/// Clamping keeps a value inside its bounds: for integer values and
/// `lower <= upper`, the value after a check at level `Clamp` lies between
/// the two bounds.
pub proof fn lemma_clamped_value_within_bounds(value: i32, upper: i32, lower: i32)
    requires
        lower <= upper,
    ensures
        lower <= checked_value_spec(LimitLevel::Clamp, value, upper, lower) <= upper,
{
}

/// A value between its bounds passes a check at every level: it is kept as it
/// is and nothing is reported.
pub proof fn lemma_value_within_bounds_passes(level: LimitLevel, value: i32, upper: i32, lower: i32)
    requires
        lower <= value <= upper,
    ensures
        checked_value_spec(level, value, upper, lower) == value,
        check_result_spec(level, value, upper, lower) == Ok::<Option<LimitWarning<i32>>, LimitError<i32>>(None),
{
}

/// Every crossing is reported with the bound it crossed and the value found:
/// at level `Warn` as a warning, at level `Error` as an error, for integer
/// values with `lower <= upper`; the value is replaced only at level `Clamp`.
pub proof fn lemma_crossings_are_reported(level: LimitLevel, value: i32, upper: i32, lower: i32)
    requires
        lower <= upper,
    ensures
        value > upper ==> check_result_spec(LimitLevel::Warn, value, upper, lower) == Ok::<
            Option<LimitWarning<i32>>,
            LimitError<i32>,
        >(Some(LimitWarning(LimitReport { limit: upper, value }))),
        value < lower ==> check_result_spec(LimitLevel::Warn, value, upper, lower) == Ok::<
            Option<LimitWarning<i32>>,
            LimitError<i32>,
        >(Some(LimitWarning(LimitReport { limit: lower, value }))),
        value > upper ==> check_result_spec(LimitLevel::Error, value, upper, lower) == Err::<
            Option<LimitWarning<i32>>,
            LimitError<i32>,
        >(LimitError::OverLimit(LimitReport { limit: upper, value })),
        value < lower ==> check_result_spec(LimitLevel::Error, value, upper, lower) == Err::<
            Option<LimitWarning<i32>>,
            LimitError<i32>,
        >(LimitError::UnderLimit(LimitReport { limit: lower, value })),
        level == LimitLevel::Ignore || level == LimitLevel::Clamp ==> check_result_spec(
            level,
            value,
            upper,
            lower,
        ) == Ok::<Option<LimitWarning<i32>>, LimitError<i32>>(None),
        level != LimitLevel::Clamp ==> checked_value_spec(level, value, upper, lower) == value,
        value > upper ==> checked_value_spec(LimitLevel::Clamp, value, upper, lower) == upper,
        value < lower ==> checked_value_spec(LimitLevel::Clamp, value, upper, lower) == lower,
{
}

/// A bound check between a lower and an upper limit.
pub trait Limit<T: PartialOrd + Copy> {
    spec fn level_spec(&self) -> LimitLevel;

    fn get_level(&self) -> (r: LimitLevel)
        ensures
            r == self.level_spec(),
    ;

    fn set_level(&mut self, level: LimitLevel)
        ensures
            final(self).level_spec() == level,
    ;

    /// Checks `value` against `upper_limit` and `lower_limit` (the values of
    /// the limit's parameters). For an order that behaves as `T` declares, the
    /// result and the new value are those of `check_result_spec` and
    /// `checked_value_spec`; in any order, only `Clamp` changes the value and
    /// only to one of the bounds, and `Ignore` and `Clamp` always succeed.
    fn check(&self, value: &mut T, upper_limit: T, lower_limit: T) -> (r: Result<Option<LimitWarning<T>>, LimitError<T>>)
        ensures
            T::obeys_partial_cmp_spec() ==> r == check_result_spec(self.level_spec(), *old(value), upper_limit, lower_limit),
            T::obeys_partial_cmp_spec() ==> *final(value) == checked_value_spec(self.level_spec(), *old(value), upper_limit, lower_limit),
            self.level_spec() != LimitLevel::Clamp ==> *final(value) == *old(value),
            self.level_spec() == LimitLevel::Clamp ==> (*final(value) == *old(value) || *final(value) == upper_limit || *final(value) == lower_limit),
            self.level_spec() == LimitLevel::Ignore ==> r matches Ok(None),
            self.level_spec() == LimitLevel::Clamp ==> r matches Ok(None),
    {
        let level = self.get_level();
        let original = *value;
        let report: Option<LimitError<T>> = if original > upper_limit {
            if level == LimitLevel::Clamp {
                *value = upper_limit;
            }
            Some(LimitError::OverLimit(LimitReport { limit: upper_limit, value: original }))
        } else if original < lower_limit {
            if level == LimitLevel::Clamp {
                *value = lower_limit;
            }
            Some(LimitError::UnderLimit(LimitReport { limit: lower_limit, value: original }))
        } else {
            None
        };
        match level {
            LimitLevel::Ignore => Ok(None),
            LimitLevel::Warn => match report {
                Some(LimitError::OverLimit(rep)) => Ok(Some(LimitWarning(rep))),
                Some(LimitError::UnderLimit(rep)) => Ok(Some(LimitWarning(rep))),
                None => Ok(None),
            },
            LimitLevel::Clamp => Ok(None),
            LimitLevel::Error => match report {
                Some(e) => Err(e),
                None => Ok(None),
            },
        }
    }
}

/// Bounds of the motor position (`MotorUpperPosLimit`, `MotorLowerPosLimit`).
pub struct MotorPosLimit {
    level: LimitLevel,
}

impl MotorPosLimit {
    /// The configured level.
    pub closed spec fn configured_level(&self) -> LimitLevel {
        self.level
    }

    pub fn new(level: LimitLevel) -> (r: MotorPosLimit)
        ensures
            r.configured_level() == level,
    {
        MotorPosLimit { level }
    }
}

impl<T: PartialOrd + Copy> Limit<T> for MotorPosLimit {
    open spec fn level_spec(&self) -> LimitLevel {
        self.configured_level()
    }

    fn get_level(&self) -> (r: LimitLevel) {
        self.level
    }

    fn set_level(&mut self, level: LimitLevel) {
        self.level = level;
    }
}

/// Bounds of the motor velocity (`MotorUpperVelLimit`, `MotorLowerVelLimit`).
pub struct MotorVelLimit {
    level: LimitLevel,
}

impl MotorVelLimit {
    /// The configured level.
    pub closed spec fn configured_level(&self) -> LimitLevel {
        self.level
    }

    pub fn new(level: LimitLevel) -> (r: MotorVelLimit)
        ensures
            r.configured_level() == level,
    {
        MotorVelLimit { level }
    }
}

impl<T: PartialOrd + Copy> Limit<T> for MotorVelLimit {
    open spec fn level_spec(&self) -> LimitLevel {
        self.configured_level()
    }

    fn get_level(&self) -> (r: LimitLevel) {
        self.level
    }

    fn set_level(&mut self, level: LimitLevel) {
        self.level = level;
    }
}

/// Bounds of the velocity the motor controller commands (`MCVelMax`, `MCVelMin`).
pub struct MotorControlVelLimit {
    level: LimitLevel,
}

impl MotorControlVelLimit {
    /// The configured level.
    pub closed spec fn configured_level(&self) -> LimitLevel {
        self.level
    }

    pub fn new(level: LimitLevel) -> (r: MotorControlVelLimit)
        ensures
            r.configured_level() == level,
    {
        MotorControlVelLimit { level }
    }
}

impl<T: PartialOrd + Copy> Limit<T> for MotorControlVelLimit {
    open spec fn level_spec(&self) -> LimitLevel {
        self.configured_level()
    }

    fn get_level(&self) -> (r: LimitLevel) {
        self.level
    }

    fn set_level(&mut self, level: LimitLevel) {
        self.level = level;
    }
}

} // verus!
