//! Timer parameters and error kinds.
use vstd::prelude::*;

verus! {

/// Clock pre-scaler applied before the PWM counter increments.
pub const PWM_DIVIDER: u8 = 40;

/// The timer settings pushed to the PWM output: counter rollover value,
/// clock divider and whether the output is driving.
#[derive(Clone, Copy, Debug, PartialEq, Eq, Structural)]
pub struct PwmConfig {
    pub top: u16,
    pub divider: u8,
    pub enable: bool,
}

/// The peripheral rejected a configuration or duty-cycle write.
#[derive(Clone, Copy, Debug, PartialEq, Eq, Structural)]
pub struct HardwareError;

#[derive(Clone, Copy, Debug, PartialEq, Eq, Structural)]
pub enum ServoError {
    /// Invalid parameters at build time.
    Configuration,
    /// The peripheral rejected a write.
    Hardware,
}

/// `clock_hz / (frequency_hz * divider) - 1`, the counter rollover value that
/// makes the timer wrap `frequency_hz` times a second.
pub open spec fn period_for(clock_hz: int, frequency_hz: int, divider: int) -> int {
    clock_hz / (frequency_hz * divider) - 1
}

/// Whether a rollover value exists for these inputs and fits in 16 bits.
pub open spec fn period_fits(clock_hz: int, frequency_hz: int, divider: int) -> bool {
    &&& frequency_hz > 0
    &&& divider > 0
    &&& 0 <= period_for(clock_hz, frequency_hz, divider) <= u16::MAX
}

/// Derives the counter rollover value for a target frequency. Fails, rather
/// than wrapping, when the frequency or divider is zero or the value does not
/// fit in 16 bits.
pub fn derive_period(clock_hz: u32, frequency_hz: u32, divider: u8) -> (r: Result<u16, ServoError>)
    ensures
        r is Ok <==> period_fits(clock_hz as int, frequency_hz as int, divider as int),
        r is Ok ==> r->Ok_0 == period_for(clock_hz as int, frequency_hz as int, divider as int),
        r is Err ==> r->Err_0 == ServoError::Configuration,
{
    if frequency_hz == 0 || divider == 0 {
        return Err(ServoError::Configuration);
    }
    assert(1 <= frequency_hz as u64 * divider as u64 <= u32::MAX as u64 * u8::MAX as u64) by (nonlinear_arith)
        requires 1 <= frequency_hz <= u32::MAX, 1 <= divider <= u8::MAX;
    let ticks: u64 = frequency_hz as u64 * divider as u64;
    let quotient: u64 = clock_hz as u64 / ticks;
    if quotient == 0 || quotient - 1 > u16::MAX as u64 {
        return Err(ServoError::Configuration);
    }
    Ok((quotient - 1) as u16)
}

} // verus!
