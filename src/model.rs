//! The mathematical model of a servo: its duty bounds, rotation span,
//! commanded position and timer settings, with the angle and duty mappings.
use vstd::prelude::*;
use crate::config::PwmConfig;

verus! {

/// `x` limited to `[lo, hi]`.
pub open spec fn clamp(x: int, lo: int, hi: int) -> int {
    if x < lo {
        lo
    } else if x > hi {
        hi
    } else {
        x
    }
}

/// Whether a duty value can be written to the 16-bit compare register.
pub open spec fn fits_register(duty: int) -> bool {
    0 <= duty <= u16::MAX
}

/// The positions a sweep commits, one degree apart, when it starts at `from`
/// and ends at `goal`. `from` itself is not part of it, `goal` is its last.
pub open spec fn sweep_path(from: int, goal: int) -> Seq<int> {
    if from <= goal {
        Seq::new((goal - from) as nat, |i: int| from + i + 1)
    } else {
        Seq::new((from - goal) as nat, |i: int| from - i - 1)
    }
}

pub struct ServoModel {
    pub min_duty: int,
    pub max_duty: int,
    pub max_degree_rotation: int,
    pub current_pos: int,
    pub config: PwmConfig,
}

impl ServoModel {
    /// Strictly ordered duty bounds, a non-empty rotation span and a
    /// commanded position inside it.
    pub open spec fn wf(self) -> bool {
        &&& 0 <= self.min_duty < self.max_duty <= u32::MAX
        &&& 0 < self.max_degree_rotation <= u32::MAX
        &&& 0 <= self.current_pos <= self.max_degree_rotation
    }

    /// Linear interpolation of `degree` onto `[min_duty, max_duty]`,
    /// multiplying before dividing, then clamped to that range.
    pub open spec fn duty_of(self, degree: int) -> int {
        clamp(
            self.min_duty + (self.max_duty - self.min_duty) * degree / self.max_degree_rotation,
            self.min_duty,
            self.max_duty,
        )
    }

    /// The inverse mapping, for a duty inside `[min_duty, max_duty]`.
    pub open spec fn degree_of(self, duty: int) -> int {
        (duty - self.min_duty) * self.max_degree_rotation / (self.max_duty - self.min_duty)
    }

    /// The position actually stored for a requested degree.
    pub open spec fn position_of(self, degree: int) -> int {
        clamp(degree, 0, self.max_degree_rotation)
    }

    /// The same servo, commanded to `pos`.
    pub open spec fn at(self, pos: int) -> ServoModel {
        ServoModel { current_pos: pos, ..self }
    }

    /// The same servo, with the output driving or not.
    pub open spec fn with_enable(self, enable: bool) -> ServoModel {
        ServoModel { config: PwmConfig { enable, ..self.config }, ..self }
    }
}

/// A duty inside the bounds maps back to a degree inside the span.
pub proof fn lemma_degree_of_in_span(m: ServoModel, duty: int)
    requires
        m.wf(),
        m.min_duty <= duty <= m.max_duty,
    ensures
        0 <= m.degree_of(duty) <= m.max_degree_rotation,
{
    let x = duty - m.min_duty;
    let d = m.max_duty - m.min_duty;
    let r = m.max_degree_rotation;
    vstd::arithmetic::mul::lemma_mul_inequality(x, d, r);
    vstd::arithmetic::mul::lemma_mul_nonnegative(x, r);
    vstd::arithmetic::div_mod::lemma_multiply_divide_le(x * r, d, r);
    vstd::arithmetic::div_mod::lemma_div_pos_is_pos(x * r, d);
}

} // verus!
