//! The temperature-to-duty curve.

use vstd::prelude::*;

verus! {

/// A temperature in thousandths of a degree Celsius.
pub type Millidegrees = i32;

/// The number of duty units in a full cycle: duties are counted in millionths.
pub const DUTY_SCALE: u32 = 1_000_000;

/// The fraction of each PWM period during which the output is active.
///
/// The view is the duty in millionths, always between `0` and `DUTY_SCALE`.
#[derive(Clone, Copy, Debug, PartialEq, Eq)]
pub struct DutyCycle {
    millionths: u32,
}

impl View for DutyCycle {
    type V = int;

    closed spec fn view(&self) -> int {
        self.millionths as int
    }
}

impl DutyCycle {
    #[verifier::type_invariant]
    spec fn in_range(self) -> bool {
        self.millionths <= DUTY_SCALE
    }

    /// The duty cycle whose view is `millionths`, for `millionths` within a full cycle.
    pub closed spec fn of(millionths: int) -> DutyCycle {
        DutyCycle { millionths: millionths as u32 }
    }

    /// The view of `of(millionths)` is `millionths`.
    pub proof fn lemma_of(millionths: int)
        requires
            0 <= millionths <= DUTY_SCALE,
        ensures
            Self::of(millionths)@ == millionths,
    {
    }

    /// A duty cycle is the one that `of` makes from its view.
    pub proof fn lemma_of_view(self)
        ensures
            Self::of(self@) == self,
    {
    }

    /// The duty of `millionths` millionths, if that is at most a full cycle.
    pub fn new(millionths: u32) -> (duty: Option<DutyCycle>)
        ensures
            millionths <= DUTY_SCALE ==> duty == Some(Self::of(millionths as int)),
            millionths <= DUTY_SCALE ==> duty.unwrap()@ == millionths,
            millionths > DUTY_SCALE ==> duty is None,
    {
        if millionths <= DUTY_SCALE {
            Some(DutyCycle { millionths })
        } else {
            None
        }
    }

    /// The duty at which the fan stands still.
    pub fn off() -> (duty: DutyCycle)
        ensures
            duty@ == 0,
    {
        DutyCycle { millionths: 0 }
    }

    /// The duty of a full cycle.
    pub fn full() -> (duty: DutyCycle)
        ensures
            duty@ == DUTY_SCALE,
    {
        DutyCycle { millionths: DUTY_SCALE }
    }

    /// The duty in hundredths of a percent, rounded down.
    pub fn percent_hundredths(&self) -> (p: u32)
        ensures
            p == self@ / 100,
            p <= 10_000,
    {
        proof {
            use_type_invariant(self);
        }
        self.millionths / 100
    }

    /// The duty in millionths.
    pub fn millionths(&self) -> (m: u32)
        ensures
            m == self@,
            m <= DUTY_SCALE,
    {
        proof {
            use_type_invariant(self);
        }
        self.millionths
    }
}

/// What a set of curve parameters holds, as mathematical integers:
/// thresholds in thousandths of a degree, duties in millionths.
pub struct CurveModel {
    pub off_temp: int,
    pub min_temp: int,
    pub max_temp: int,
    pub fan_low: int,
    pub fan_max: int,
}

impl CurveModel {
    /// The thresholds rise strictly, and so do the two duties, within a full cycle.
    pub open spec fn valid(self) -> bool {
        &&& self.off_temp < self.min_temp < self.max_temp
        &&& 0 <= self.fan_low < self.fan_max <= DUTY_SCALE
    }
}

/// The linear ramp: `fan_low` at `min_temp`, rising by
/// `(fan_max - fan_low) / (max_temp - min_temp)` per unit of temperature, and
/// held at `fan_max` from `max_temp` on. The quotient is rounded down.
pub open spec fn linear_ramp(m: CurveModel, temp: int) -> int {
    let rise = if temp - m.min_temp < m.max_temp - m.min_temp {
        temp - m.min_temp
    } else {
        m.max_temp - m.min_temp
    };
    m.fan_low + (rise * (m.fan_max - m.fan_low)) / (m.max_temp - m.min_temp)
}

/// The mean of the shaping term and the linear ramp, rounded down.
pub open spec fn blend(m: CurveModel, temp: int, shaping: int) -> int {
    (shaping + linear_ramp(m, temp)) / 2
}

/// The curve without shaping: off below `off_temp`, the floor `fan_low` below
/// `min_temp`, the linear ramp below `max_temp`, and `fan_max` from there on.
pub open spec fn linear_curve(m: CurveModel, temp: int) -> int {
    if temp < m.off_temp {
        0
    } else if temp < m.min_temp {
        m.fan_low
    } else if temp < m.max_temp {
        linear_ramp(m, temp)
    } else {
        m.fan_max
    }
}

/// The curve with shaping: as `linear_curve`, but between `min_temp` and
/// `max_temp` the ramp is blended with the shaping term.
pub open spec fn blended_curve(m: CurveModel, temp: int, shaping: int) -> int {
    if temp < m.off_temp {
        0
    } else if temp < m.min_temp {
        m.fan_low
    } else if temp < m.max_temp {
        blend(m, temp, shaping)
    } else {
        m.fan_max
    }
}

/// Between the two upper thresholds the ramp stays between the two duties.
pub proof fn lemma_ramp_bounds(m: CurveModel, temp: int)
    requires
        m.valid(),
        m.min_temp <= temp,
    ensures
        m.fan_low <= linear_ramp(m, temp) <= m.fan_max,
        temp >= m.max_temp ==> linear_ramp(m, temp) == m.fan_max,
        temp == m.min_temp ==> linear_ramp(m, temp) == m.fan_low,
{
    let width = m.max_temp - m.min_temp;
    let span = m.fan_max - m.fan_low;
    let rise = if temp - m.min_temp < width { temp - m.min_temp } else { width };
    assert(0 <= rise * span <= width * span) by (nonlinear_arith)
        requires
            0 <= rise <= width,
            0 <= span,
    ;
    assert(0 <= (rise * span) / width <= span) by (nonlinear_arith)
        requires
            0 <= rise * span <= width * span,
            0 < width,
    ;
    if rise == width {
        assert((width * span) / width == span) by (nonlinear_arith)
            requires
                0 < width,
        ;
    }
    if rise == 0 {
        assert(rise * span == 0) by (nonlinear_arith)
            requires
                rise == 0,
        ;
    }
}

/// With or without shaping, the curve never leaves a full cycle: its duty is
/// between zero and `DUTY_SCALE` at every temperature.
pub proof fn lemma_curve_bounds(m: CurveModel, temp: int, shaping: int)
    requires
        m.valid(),
        0 <= shaping <= DUTY_SCALE,
    ensures
        0 <= linear_curve(m, temp) <= DUTY_SCALE,
        0 <= blended_curve(m, temp, shaping) <= DUTY_SCALE,
        !(m.min_temp <= temp < m.max_temp) ==> blended_curve(m, temp, shaping) == linear_curve(
            m,
            temp,
        ),
{
    if m.min_temp <= temp {
        lemma_ramp_bounds(m, temp);
    }
}

/// The fixed configuration of the curve.
#[derive(Clone, Copy, Debug, PartialEq, Eq)]
pub struct CurveParameters {
    off_temp: Millidegrees,
    min_temp: Millidegrees,
    max_temp: Millidegrees,
    fan_low: DutyCycle,
    fan_max: DutyCycle,
}

impl View for CurveParameters {
    type V = CurveModel;

    closed spec fn view(&self) -> CurveModel {
        CurveModel {
            off_temp: self.off_temp as int,
            min_temp: self.min_temp as int,
            max_temp: self.max_temp as int,
            fan_low: self.fan_low@,
            fan_max: self.fan_max@,
        }
    }
}

impl CurveParameters {
    #[verifier::type_invariant]
    spec fn well_formed(self) -> bool {
        &&& self@.valid()
        &&& self.fan_low.in_range()
        &&& self.fan_max.in_range()
    }

    /// The parameters with the given thresholds and duties, if the thresholds
    /// rise strictly and `fan_low` is below `fan_max`.
    pub fn new(
        off_temp: Millidegrees,
        min_temp: Millidegrees,
        max_temp: Millidegrees,
        fan_low: DutyCycle,
        fan_max: DutyCycle,
    ) -> (params: Option<CurveParameters>)
        ensures
            params.is_some() <==> off_temp < min_temp < max_temp && fan_low@ < fan_max@,
            params.is_some() ==> params.unwrap()@ == (CurveModel {
                off_temp: off_temp as int,
                min_temp: min_temp as int,
                max_temp: max_temp as int,
                fan_low: fan_low@,
                fan_max: fan_max@,
            }),
            params.is_some() ==> params.unwrap()@.valid(),
    {
        proof {
            use_type_invariant(&fan_low);
            use_type_invariant(&fan_max);
        }
        if off_temp < min_temp && min_temp < max_temp && fan_low.millionths < fan_max.millionths {
            Some(CurveParameters { off_temp, min_temp, max_temp, fan_low, fan_max })
        } else {
            None
        }
    }

    /// Off below 40 degrees, a tenth of a cycle from 40 to 45 degrees, and a
    /// full cycle from 75 degrees on.
    pub fn standard() -> (params: CurveParameters)
        ensures
            params@ == (CurveModel {
                off_temp: 40_000,
                min_temp: 45_000,
                max_temp: 75_000,
                fan_low: 100_000,
                fan_max: 1_000_000,
            }),
    {
        CurveParameters {
            off_temp: 40_000,
            min_temp: 45_000,
            max_temp: 75_000,
            fan_low: DutyCycle { millionths: 100_000 },
            fan_max: DutyCycle { millionths: 1_000_000 },
        }
    }

    /// The temperature below which the fan is off.
    pub fn off_temp(&self) -> (temp: Millidegrees)
        ensures
            temp == self@.off_temp,
    {
        self.off_temp
    }

    /// The temperature from which the fan speed rises.
    pub fn min_temp(&self) -> (temp: Millidegrees)
        ensures
            temp == self@.min_temp,
    {
        self.min_temp
    }

    /// The temperature from which the fan runs at `fan_max`.
    pub fn max_temp(&self) -> (temp: Millidegrees)
        ensures
            temp == self@.max_temp,
    {
        self.max_temp
    }

    /// The lowest duty at which the fan runs.
    pub fn fan_low(&self) -> (duty: DutyCycle)
        ensures
            duty@ == self@.fan_low,
    {
        self.fan_low
    }

    /// The highest duty at which the fan runs.
    pub fn fan_max(&self) -> (duty: DutyCycle)
        ensures
            duty@ == self@.fan_max,
    {
        self.fan_max
    }

    /// The linear ramp at `temp`, which lies between `min_temp` and `max_temp`.
    fn ramp(&self, temp: Millidegrees) -> (duty: u32)
        requires
            self@.valid(),
            self.fan_low.in_range(),
            self.fan_max.in_range(),
            self@.min_temp <= temp < self@.max_temp,
        ensures
            duty == linear_ramp(self@, temp as int),
            self@.fan_low <= duty <= self@.fan_max,
    {
        let width: u64 = (self.max_temp as i64 - self.min_temp as i64) as u64;
        let rise: u64 = (temp as i64 - self.min_temp as i64) as u64;
        let span: u64 = (self.fan_max.millionths - self.fan_low.millionths) as u64;
        proof {
            lemma_ramp_bounds(self@, temp as int);
            assert(0 <= rise * span <= width * span) by (nonlinear_arith)
                requires
                    0 <= rise <= width,
                    0 <= span,
            ;
            assert(width * span <= 0x1_0000_0000 * 1_000_000) by (nonlinear_arith)
                requires
                    0 <= width <= 0x1_0000_0000,
                    0 <= span <= 1_000_000,
            ;
        }
        let climbed: u64 = rise * span / width;
        self.fan_low.millionths + climbed as u32
    }

    /// Whether the duty for `temp` depends on the shaping term: it does
    /// between `min_temp` and `max_temp`.
    pub fn needs_shaping(&self, temp: Millidegrees) -> (needed: bool)
        ensures
            needed == (self@.min_temp <= temp < self@.max_temp),
            !needed ==> forall|shaping: int|
                #[trigger] blended_curve(self@, temp as int, shaping) == linear_curve(
                    self@,
                    temp as int,
                ),
    {
        self.min_temp <= temp && temp < self.max_temp
    }

    /// The duty for `temp` without shaping.
    pub fn evaluate(&self, temp: Millidegrees) -> (duty: DutyCycle)
        ensures
            duty@ == linear_curve(self@, temp as int),
            duty == DutyCycle::of(linear_curve(self@, temp as int)),
            temp < self@.off_temp ==> duty@ == 0,
            self@.off_temp <= temp < self@.min_temp ==> duty@ == self@.fan_low,
            temp >= self@.max_temp ==> duty@ == self@.fan_max,
            0 <= duty@ <= DUTY_SCALE,
            self@.valid(),
    {
        proof {
            use_type_invariant(self);
        }
        if temp < self.off_temp {
            DutyCycle { millionths: 0 }
        } else if temp < self.min_temp {
            self.fan_low
        } else if temp < self.max_temp {
            DutyCycle { millionths: self.ramp(temp) }
        } else {
            self.fan_max
        }
    }

    /// The duty for `temp` with the shaping term `shaping`.
    pub fn evaluate_blended(&self, temp: Millidegrees, shaping: DutyCycle) -> (duty: DutyCycle)
        ensures
            duty@ == blended_curve(self@, temp as int, shaping@),
            duty == DutyCycle::of(blended_curve(self@, temp as int, shaping@)),
            temp < self@.off_temp ==> duty@ == 0,
            self@.off_temp <= temp < self@.min_temp ==> duty@ == self@.fan_low,
            temp >= self@.max_temp ==> duty@ == self@.fan_max,
            0 <= duty@ <= DUTY_SCALE,
            self@.valid(),
    {
        proof {
            use_type_invariant(self);
            use_type_invariant(&shaping);
        }
        if temp < self.off_temp {
            DutyCycle { millionths: 0 }
        } else if temp < self.min_temp {
            self.fan_low
        } else if temp < self.max_temp {
            DutyCycle { millionths: (shaping.millionths + self.ramp(temp)) / 2 }
        } else {
            self.fan_max
        }
    }
}

} // verus!
