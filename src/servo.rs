//! The controller: duty bounds, rotation span, timer settings and the last
//! commanded position. Every hardware write goes through a callback supplied
//! by the caller; the position only moves when that write succeeds.
use vstd::prelude::*;
use crate::config::{HardwareError, PwmConfig};
use crate::model::{clamp, fits_register, lemma_degree_of_in_span, sweep_path, ServoModel};

verus! {

pub struct Servo {
    cfg: PwmConfig,
    min_duty: u32,
    max_duty: u32,
    max_degree_rotation: u32,
    current_pos: u32,
}

impl View for Servo {
    type V = ServoModel;

    closed spec fn view(&self) -> ServoModel {
        ServoModel {
            min_duty: self.min_duty as int,
            max_duty: self.max_duty as int,
            max_degree_rotation: self.max_degree_rotation as int,
            current_pos: self.current_pos as int,
            config: self.cfg,
        }
    }
}

impl Servo {
    pub(crate) fn from_parts(
        cfg: PwmConfig,
        min_duty: u32,
        max_duty: u32,
        max_degree_rotation: u32,
        current_pos: u32,
    ) -> (r: Servo)
        ensures
            r@ == (ServoModel {
                min_duty: min_duty as int,
                max_duty: max_duty as int,
                max_degree_rotation: max_degree_rotation as int,
                current_pos: current_pos as int,
                config: cfg,
            }),
    {
        Servo { cfg, min_duty, max_duty, max_degree_rotation, current_pos }
    }

    pub fn get_current_pos(&self) -> (r: u32)
        ensures
            r == self@.current_pos,
    {
        self.current_pos
    }

    pub fn get_min_duty(&self) -> (r: u32)
        ensures
            r == self@.min_duty,
    {
        self.min_duty
    }

    pub fn get_max_duty(&self) -> (r: u32)
        ensures
            r == self@.max_duty,
    {
        self.max_duty
    }

    /// The timer settings last pushed to the output.
    pub fn config(&self) -> (r: PwmConfig)
        ensures
            r == self@.config,
    {
        self.cfg
    }

    pub fn is_enabled(&self) -> (r: bool)
        ensures
            r == self@.config.enable,
    {
        self.cfg.enable
    }

    /// The duty cycle of the commanded position, derived rather than stored.
    pub fn get_current_duty(&self) -> (r: u32)
        requires
            self@.wf(),
        ensures
            r == self@.duty_of(self@.current_pos),
    {
        self.degree_to_duty(self.current_pos)
    }

    /// Maps a degree linearly onto `[min_duty, max_duty]`; degrees beyond the
    /// span give `max_duty`.
    pub fn degree_to_duty(&self, degree: u32) -> (r: u32)
        requires
            self@.wf(),
        ensures
            r == self@.duty_of(degree as int),
            self@.min_duty <= r <= self@.max_duty,
    {
        let span: u64 = (self.max_duty - self.min_duty) as u64;
        assert(span * degree as u64 <= u32::MAX as u64 * u32::MAX as u64) by (nonlinear_arith)
            requires span <= u32::MAX, degree <= u32::MAX;
        let scaled: u64 = span * degree as u64;
        let step: u64 = scaled / self.max_degree_rotation as u64;
        assert(step <= scaled) by (nonlinear_arith)
            requires step == scaled / self.max_degree_rotation as u64, self.max_degree_rotation >= 1;
        let duty: u64 = self.min_duty as u64 + step;
        if duty > self.max_duty as u64 {
            self.max_duty
        } else if duty < self.min_duty as u64 {
            self.min_duty
        } else {
            duty as u32
        }
    }

    /// Maps a duty inside `[min_duty, max_duty]` back to a degree.
    pub fn duty_to_degree(&self, duty: u32) -> (r: u32)
        requires
            self@.wf(),
            self@.min_duty <= duty <= self@.max_duty,
        ensures
            r == self@.degree_of(duty as int),
            r <= self@.max_degree_rotation,
    {
        proof {
            lemma_degree_of_in_span(self@, duty as int);
        }
        let offset: u64 = (duty - self.min_duty) as u64;
        assert(offset * self.max_degree_rotation as u64 <= u32::MAX as u64 * u32::MAX as u64)
            by (nonlinear_arith)
            requires offset <= u32::MAX, self.max_degree_rotation <= u32::MAX;
        let scaled: u64 = offset * self.max_degree_rotation as u64;
        (scaled / (self.max_duty - self.min_duty) as u64) as u32
    }

    /// Commands `degree`, limited to the rotation span: hands its duty cycle
    /// to `write` and stores the position only if the write succeeds. A duty
    /// too large for the 16-bit compare register is a hardware error, and
    /// nothing is written.
    pub fn rotate<F>(&mut self, degree: u32, write: F) -> (r: Result<(), HardwareError>) where
        F: FnOnce(u16) -> Result<(), HardwareError>,

        requires
            old(self)@.wf(),
            fits_register(old(self)@.duty_of(degree as int)) ==> write.requires(
                (old(self)@.duty_of(degree as int) as u16,),
            ),
        ensures
            final(self)@.wf(),
            !fits_register(old(self)@.duty_of(degree as int)) ==> r == Err::<(), HardwareError>(
                HardwareError,
            ),
            fits_register(old(self)@.duty_of(degree as int)) ==> write.ensures(
                (old(self)@.duty_of(degree as int) as u16,),
                r,
            ),
            r is Ok ==> final(self)@ == old(self)@.at(old(self)@.position_of(degree as int)),
            r is Err ==> final(self)@ == old(self)@,
    {
        let duty = self.degree_to_duty(degree);
        if duty > u16::MAX as u32 {
            return Err(HardwareError);
        }
        let pos = if degree > self.max_degree_rotation {
            self.max_degree_rotation
        } else {
            degree
        };
        let r = write(duty as u16);
        if r.is_ok() {
            self.current_pos = pos;
        }
        r
    }

    /// Commands a duty cycle, first limited to `[min_duty, max_duty]`: hands it
    /// to `write` and stores the matching degree only if the write succeeds. A
    /// duty too large for the 16-bit compare register is a hardware error, and
    /// nothing is written.
    pub fn rotate_duty<F>(&mut self, duty: u32, write: F) -> (r: Result<(), HardwareError>) where
        F: FnOnce(u16) -> Result<(), HardwareError>,

        requires
            old(self)@.wf(),
            fits_register(clamp(duty as int, old(self)@.min_duty, old(self)@.max_duty))
                ==> write.requires(
                (clamp(duty as int, old(self)@.min_duty, old(self)@.max_duty) as u16,),
            ),
        ensures
            final(self)@.wf(),
            !fits_register(clamp(duty as int, old(self)@.min_duty, old(self)@.max_duty)) ==> r
                == Err::<(), HardwareError>(HardwareError),
            fits_register(clamp(duty as int, old(self)@.min_duty, old(self)@.max_duty))
                ==> write.ensures(
                (clamp(duty as int, old(self)@.min_duty, old(self)@.max_duty) as u16,),
                r,
            ),
            r is Ok ==> final(self)@ == old(self)@.at(
                old(self)@.degree_of(clamp(duty as int, old(self)@.min_duty, old(self)@.max_duty)),
            ),
            r is Err ==> final(self)@ == old(self)@,
    {
        let bounded = if duty > self.max_duty {
            self.max_duty
        } else if duty < self.min_duty {
            self.min_duty
        } else {
            duty
        };
        if bounded > u16::MAX as u32 {
            return Err(HardwareError);
        }
        let pos = self.duty_to_degree(bounded);
        let r = write(bounded as u16);
        if r.is_ok() {
            self.current_pos = pos;
        }
        r
    }

    /// Switches the output on: pushes the settings with the enable flag set,
    /// then re-asserts the duty cycle of the commanded position so that the
    /// motor drives to it at once. Stops at the first failed write; a duty too
    /// large for the 16-bit compare register fails without being written.
    pub fn enable<P, W>(&mut self, push: P, write: W) -> (r: Result<(), HardwareError>) where
        P: FnOnce(PwmConfig) -> Result<(), HardwareError>,
        W: FnOnce(u16) -> Result<(), HardwareError>,

        requires
            old(self)@.wf(),
            push.requires((old(self)@.with_enable(true).config,)),
            push.ensures((old(self)@.with_enable(true).config,), Ok(())) && fits_register(
                old(self)@.duty_of(old(self)@.current_pos),
            ) ==> write.requires((old(self)@.duty_of(old(self)@.current_pos) as u16,)),
        ensures
            final(self)@.wf(),
            r is Ok ==> {
                &&& push.ensures((old(self)@.with_enable(true).config,), Ok(()))
                &&& fits_register(old(self)@.duty_of(old(self)@.current_pos))
                &&& write.ensures((old(self)@.duty_of(old(self)@.current_pos) as u16,), Ok(()))
                &&& final(self)@ == old(self)@.with_enable(true)
            },
            r is Err ==> {
                ||| push.ensures((old(self)@.with_enable(true).config,), r) && final(self)@
                    == old(self)@
                ||| {
                    &&& push.ensures((old(self)@.with_enable(true).config,), Ok(()))
                    &&& !fits_register(old(self)@.duty_of(old(self)@.current_pos))
                    &&& r == Err::<(), HardwareError>(HardwareError)
                    &&& final(self)@ == old(self)@.with_enable(true)
                }
                ||| {
                    &&& push.ensures((old(self)@.with_enable(true).config,), Ok(()))
                    &&& fits_register(old(self)@.duty_of(old(self)@.current_pos))
                    &&& write.ensures((old(self)@.duty_of(old(self)@.current_pos) as u16,), r)
                    &&& final(self)@ == old(self)@.with_enable(true)
                }
            },
    {
        let cfg = PwmConfig { enable: true, ..self.cfg };
        match push(cfg) {
            Err(e) => {
                return Err(e);
            },
            Ok(u) => {
                // the unit value is the only one of its type
                assert(u == ());
            },
        }
        self.cfg = cfg;
        let pos = self.current_pos;
        let r = self.rotate(pos, write);
        if let Ok(u) = r {
            assert(u == ());
        }
        r
    }

    /// Switches the output off: pushes the settings with the enable flag
    /// cleared. The commanded position is kept.
    pub fn disable<P>(&mut self, push: P) -> (r: Result<(), HardwareError>) where
        P: FnOnce(PwmConfig) -> Result<(), HardwareError>,

        requires
            old(self)@.wf(),
            push.requires((old(self)@.with_enable(false).config,)),
        ensures
            final(self)@.wf(),
            push.ensures((old(self)@.with_enable(false).config,), r),
            r is Ok ==> final(self)@ == old(self)@.with_enable(false),
            r is Err ==> final(self)@ == old(self)@,
    {
        let cfg = PwmConfig { enable: false, ..self.cfg };
        let r = push(cfg);
        if r.is_ok() {
            self.cfg = cfg;
        }
        r
    }

    /// The next position of a sweep toward `target`, one degree from the
    /// commanded one, or `None` once it is reached. A target beyond the span
    /// is taken as its end, so that the sweep always arrives.
    pub fn sweep_step(&self, target: u32) -> (r: Option<u32>)
        requires
            self@.wf(),
        ensures
            r is None <==> self@.current_pos == self@.position_of(target as int),
            r is Some ==> r->Some_0 == sweep_path(
                self@.current_pos,
                self@.position_of(target as int),
            )[0],
    {
        let goal = if target > self.max_degree_rotation {
            self.max_degree_rotation
        } else {
            target
        };
        if self.current_pos < goal {
            Some(self.current_pos + 1)
        } else if self.current_pos > goal {
            Some(self.current_pos - 1)
        } else {
            None
        }
    }
}

} // verus!
