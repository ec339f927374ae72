//! Integer angle arithmetic for the rotation controller.
//!
//! Angles are kept in fixed units of a full turn so that per-tick advances
//! are exact: `TURN` units make one full revolution (2*pi radians). An
//! angular rate is given in units per microsecond; at `TURN = 48_000_000`,
//! the rates pi/8 rad/s and pi/6 rad/s are the whole numbers 3 and 4.

use vstd::prelude::*;

verus! {

/// Angle units in one full turn (2*pi radians).
pub const TURN: u64 = 48_000_000;

/// Units per microsecond for an angular rate of pi/8 radians per second.
pub const RATE_PI_8: u64 = 3;

/// Units per microsecond for an angular rate of pi/6 radians per second.
pub const RATE_PI_6: u64 = 4;

/// Yaw after advancing at `rate` units per microsecond for `dt_us`
/// microseconds, wrapped modulo one full turn.
pub open spec fn advanced_yaw(yaw: int, rate: int, dt_us: int) -> int {
    (yaw + rate * dt_us) % (TURN as int)
}

/// Advance `yaw` by `rate * dt_us` angle units, modulo one full turn.
pub fn advance_yaw(yaw: u64, rate: u64, dt_us: u64) -> (r: u64)
    ensures
        r == advanced_yaw(yaw as int, rate as int, dt_us as int),
        r < TURN,
{
    proof {
        assert((rate as u128) * (dt_us as u128) <= (u64::MAX as u128) * (u64::MAX as u128))
            by (nonlinear_arith)
            requires
                rate <= u64::MAX,
                dt_us <= u64::MAX,
        ;
    }
    let total: u128 = (yaw as u128) + (rate as u128) * (dt_us as u128);
    let r: u64 = (total % (TURN as u128)) as u64;
    r
}

} // verus!
