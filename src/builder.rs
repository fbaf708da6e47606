//! Collects the configuration of a servo and turns it into a controller.
use vstd::prelude::*;
use crate::config::{
    derive_period, period_fits, period_for, HardwareError, PwmConfig, ServoError, PWM_DIVIDER,
};
use crate::model::{clamp, ServoModel};
use crate::servo::Servo;

verus! {

/// Hertz.
const DEFAULT_SERVO_FREQ: u32 = 50;

const DEFAULT_MIN_DUTY: u32 = 2100;

const DEFAULT_MAX_DUTY: u32 = 8200;

/// Degrees.
const DEFAULT_MAX_DEGREE_ROTATION: u32 = 180;

/// Degrees.
const DEFAULT_INITIAL_POSITION: u32 = 0;

/// The configuration of a servo, set field by field and checked as a whole
/// by `build`.
pub struct ServoBuilder {
    /// Target modulation frequency, in hertz.
    pub freq: u32,
    /// Duty-cycle compare value at zero degrees.
    pub min_duty: u32,
    /// Duty-cycle compare value at the end of the span.
    pub max_duty: u32,
    /// Angular span mapped onto `[min_duty, max_duty]`.
    pub max_degree_rotation: u32,
    /// Position the controller starts at.
    pub initial_position: u32,
}

impl ServoBuilder {
    /// A non-zero frequency whose timer period fits in 16 bits, a non-empty
    /// span, and strictly ordered duty bounds.
    pub open spec fn is_valid(self, clock_hz: int) -> bool {
        &&& period_fits(clock_hz, self.freq as int, PWM_DIVIDER as int)
        &&& self.max_degree_rotation > 0
        &&& self.min_duty < self.max_duty
    }

    /// The timer settings derived from this configuration, output off.
    pub open spec fn config_for(self, clock_hz: int) -> PwmConfig {
        PwmConfig {
            top: period_for(clock_hz, self.freq as int, PWM_DIVIDER as int) as u16,
            divider: PWM_DIVIDER,
            enable: false,
        }
    }

    /// The controller built from this configuration; an initial position
    /// beyond the span starts at its end.
    pub open spec fn servo_for(self, clock_hz: int) -> ServoModel {
        ServoModel {
            min_duty: self.min_duty as int,
            max_duty: self.max_duty as int,
            max_degree_rotation: self.max_degree_rotation as int,
            current_pos: clamp(self.initial_position as int, 0, self.max_degree_rotation as int),
            config: self.config_for(clock_hz),
        }
    }

    /// The defaults: 50 Hz, duty from 2100 to 8200 over 180 degrees,
    /// starting at 0.
    pub fn new() -> (r: ServoBuilder)
        ensures
            r == (ServoBuilder {
                freq: 50,
                min_duty: 2100,
                max_duty: 8200,
                max_degree_rotation: 180,
                initial_position: 0,
            }),
    {
        ServoBuilder {
            freq: DEFAULT_SERVO_FREQ,
            min_duty: DEFAULT_MIN_DUTY,
            max_duty: DEFAULT_MAX_DUTY,
            max_degree_rotation: DEFAULT_MAX_DEGREE_ROTATION,
            initial_position: DEFAULT_INITIAL_POSITION,
        }
    }

    pub fn set_servo_freq(self, freq: u32) -> (r: ServoBuilder)
        ensures
            r == (ServoBuilder { freq, ..self }),
    {
        ServoBuilder { freq, ..self }
    }

    pub fn set_min_duty(self, duration: u32) -> (r: ServoBuilder)
        ensures
            r == (ServoBuilder { min_duty: duration, ..self }),
    {
        ServoBuilder { min_duty: duration, ..self }
    }

    pub fn set_max_duty(self, duration: u32) -> (r: ServoBuilder)
        ensures
            r == (ServoBuilder { max_duty: duration, ..self }),
    {
        ServoBuilder { max_duty: duration, ..self }
    }

    pub fn set_max_degree_rotation(self, degree: u32) -> (r: ServoBuilder)
        ensures
            r == (ServoBuilder { max_degree_rotation: degree, ..self }),
    {
        ServoBuilder { max_degree_rotation: degree, ..self }
    }

    pub fn set_initial_position(self, init_pos: u32) -> (r: ServoBuilder)
        ensures
            r == (ServoBuilder { initial_position: init_pos, ..self }),
    {
        ServoBuilder { initial_position: init_pos, ..self }
    }

    /// Checks the configuration against a system clock of `clock_hz`, derives
    /// the timer settings, hands them to `apply` and, if that succeeds,
    /// returns a controller with its output off. An invalid configuration is
    /// refused before anything is applied: a zero frequency, a period that
    /// does not fit in 16 bits, a zero span, or duty bounds that are not
    /// strictly ordered. An initial position beyond the
    /// span starts at the span's end, so that the commanded position always
    /// lies inside it.
    pub fn build<F>(self, clock_hz: u32, apply: F) -> (r: Result<Servo, ServoError>) where
        F: FnOnce(PwmConfig) -> Result<(), HardwareError>,

        requires
            self.is_valid(clock_hz as int) ==> apply.requires((self.config_for(clock_hz as int),)),
        ensures
            !self.is_valid(clock_hz as int) ==> r == Err::<Servo, ServoError>(
                ServoError::Configuration,
            ),
            self.is_valid(clock_hz as int) ==> {
                ||| {
                    &&& apply.ensures((self.config_for(clock_hz as int),), Ok(()))
                    &&& r is Ok
                    &&& (r->Ok_0)@ == self.servo_for(clock_hz as int)
                    &&& (r->Ok_0)@.wf()
                }
                ||| {
                    &&& apply.ensures((self.config_for(clock_hz as int),), Err(HardwareError))
                    &&& r == Err::<Servo, ServoError>(ServoError::Hardware)
                }
            },
    {
        let top = match derive_period(clock_hz, self.freq, PWM_DIVIDER) {
            Ok(top) => top,
            Err(e) => {
                return Err(e);
            },
        };
        if self.max_degree_rotation == 0 || self.min_duty >= self.max_duty {
            return Err(ServoError::Configuration);
        }
        let cfg = PwmConfig { top, divider: PWM_DIVIDER, enable: false };
        match apply(cfg) {
            Err(e) => {
                assert(e == HardwareError);
                return Err(ServoError::Hardware);
            },
            Ok(u) => {
                assert(u == ());
            },
        }
        let pos = if self.initial_position > self.max_degree_rotation {
            self.max_degree_rotation
        } else {
            self.initial_position
        };
        Ok(Servo::from_parts(cfg, self.min_duty, self.max_duty, self.max_degree_rotation, pos))
    }
}

} // verus!
