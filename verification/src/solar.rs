//! Solar geometry: declination, sunrise, zenith-angle series.
//!
//! The declination comes from the classical seven-term Fourier series in
//! the day angle; sunrise and the 80-degree crossing come from the
//! hour-angle form of the zenith equation. Hours, degrees and radians are
//! Q32 values.

use vstd::prelude::*;
use crate::fixed::{
    Q, qclamp_s, qneg_s, qadd_s, qsub_s, qmul_s, qdiv_s,
    qclamp, qneg, qadd, qsub, qmul, qdiv,
};

use crate::elem::{
    qsin_s, qcos_s, qtan_s, qacos_s,
    qsin, qcos, qtan, qacos,
};
use crate::model::TIMESTEPS;

verus! {

/// Noon, in Q32 hours.
pub const NOON: i64 = 51539607552;

/// Solar declination for a day of year, radians (Q32): the seven-term
/// Fourier series in the day angle `2 pi (iday - 1) / 365`.
pub open spec fn declination_s(iday: int) -> int {
    let th = qmul_s((iday - 1) * Q, 73934453);
    let th2 = qadd_s(th, th);
    let th3 = qadd_s(th2, th);
    qadd_s(
        qsub_s(
            qadd_s(
                qsub_s(
                    qadd_s(qsub_s(29712584, qmul_s(1717608961, qcos_s(th))), qmul_s(301751517, qsin_s(th))),
                    qmul_s(29025389, qcos_s(th2)),
                ),
                qmul_s(3895535, qsin_s(th2)),
            ),
            qmul_s(11583527, qcos_s(th3)),
        ),
        qmul_s(6356552, qsin_s(th3)),
    )
}

fn declination(iday: u16) -> (r: i64)
    requires 1 <= iday <= 366,
    ensures r == declination_s(iday as int),
{
    let th = qmul((iday as i64 - 1) * 4294967296, 73934453);
    let th2 = qadd(th, th);
    let th3 = qadd(th2, th);
    let mut d = qsub(29712584, qmul(1717608961, qcos(th)));
    d = qadd(d, qmul(301751517, qsin(th)));
    d = qsub(d, qmul(29025389, qcos(th2)));
    d = qadd(d, qmul(3895535, qsin(th2)));
    d = qsub(d, qmul(11583527, qcos(th3)));
    d = qadd(d, qmul(6356552, qsin(th3)));
    d
}

/// Latitude in radians (Q32).
pub open spec fn phi_s(lat: int) -> int {
    qmul_s(lat, 74961321)
}

/// Sunrise hour (Q32). The cosine of the half-day arc is clamped into
/// [-1, 1], so a polar day gives hour zero and a polar night gives hour
/// twelve; a sunrise of twelve hours marks a degenerate day.
pub open spec fn sunrise_s(iday: int, lat: int) -> int {
    let delta = declination_s(iday);
    let phi = phi_s(lat);
    let ch = qclamp_s(qneg_s(qmul_s(qtan_s(phi), qtan_s(delta))), -(Q as int), Q as int);
    qsub_s(NOON as int, qmul_s(qacos_s(ch), 16405566614))
}

/// Computes sunrise hour, declination and latitude in radians.
pub fn compute_sunrise(iday: u16, lat: i64) -> (r: (i64, i64, i64))
    requires 1 <= iday <= 366,
    ensures
        r.0 == sunrise_s(iday as int, lat as int),
        r.1 == declination_s(iday as int),
        r.2 == phi_s(lat as int),
{
    let delta = declination(iday);
    let phi = qmul(lat, 74961321);
    let ch = qclamp(qneg(qmul(qtan(phi), qtan(delta))), -4294967296, 4294967296);
    let sunrise = qsub(51539607552, qmul(qacos(ch), 16405566614));
    (sunrise, delta, phi)
}

/// Hour at which the zenith angle first reaches `target_deg` degrees before
/// noon (Q32 hours). The cosine of the hour angle is clamped into [-1, 1]:
/// where the sun never reaches the target angle the result collapses to
/// noon or to six hours before noon, and the timestep filter decides.
pub open spec fn zenith_time_s(delta: int, phi: int, target_deg: int) -> int {
    let cz = qcos_s(qmul_s(target_deg, 74961321));
    let ch = qclamp_s(
        qdiv_s(qsub_s(cz, qmul_s(qsin_s(phi), qsin_s(delta))), qmul_s(qcos_s(phi), qcos_s(delta))),
        -(Q as int), Q as int,
    );
    qsub_s(NOON as int, qmul_s(qacos_s(ch), 16405566614))
}

pub fn compute_zenith_time(delta: i64, phi: i64, target_deg: i64) -> (r: i64)
    ensures r == zenith_time_s(delta as int, phi as int, target_deg as int),
{
    let cz = qcos(qmul(target_deg, 74961321));
    let ch = qclamp(
        qdiv(qsub(cz, qmul(qsin(phi), qsin(delta))), qmul(qcos(phi), qcos(delta))),
        -4294967296, 4294967296,
    );
    qsub(51539607552, qmul(qacos(ch), 16405566614))
}

/// Hour of timestep `i`: the crossing hour plus `i` accumulated steps.
pub open spec fn time_at_s(start: int, dt: int, i: int) -> int
    decreases i,
{
    if i <= 0 { start } else { qadd_s(time_at_s(start, dt, i - 1), dt) }
}

/// The timestep width: the span from the crossing hour to noon, divided
/// into `TIMESTEPS - 1` equal steps.
pub open spec fn delta_t_s(start: int) -> int {
    qdiv_s(qsub_s(NOON as int, start), (TIMESTEPS - 1) * Q)
}

/// Generates the hour of every timestep and the timestep width.
pub fn generate_time_array(start: i64) -> (r: (Vec<i64>, i64))
    ensures
        r.1 == delta_t_s(start as int),
        r.0@.len() == TIMESTEPS,
        forall|i: int| 0 <= i < TIMESTEPS ==> r.0@[i] == time_at_s(start as int, r.1 as int, i),
{
    let dt = qdiv(qsub(51539607552, start), 51539607552);
    let mut times: Vec<i64> = Vec::new();
    let mut t: i64 = start;
    let mut i: usize = 0;
    while i < TIMESTEPS
        invariant
            0 <= i <= TIMESTEPS,
            times@.len() == i,
            t == time_at_s(start as int, dt as int, i as int),
            forall|j: int| 0 <= j < i ==> times@[j] == time_at_s(start as int, dt as int, j),
        decreases TIMESTEPS - i,
    {
        times.push(t);
        t = qadd(t, dt);
        i = i + 1;
    }
    (times, dt)
}

/// Cosine of the zenith angle at a given hour.
pub open spec fn zen_cos_s(time: int, delta: int, phi: int) -> int {
    let ha = qmul_s(qsub_s(NOON as int, time), 1124419809);
    qadd_s(qmul_s(qsin_s(phi), qsin_s(delta)), qmul_s(qmul_s(qcos_s(phi), qcos_s(delta)), qcos_s(ha)))
}

/// Zenith angle at a given hour, radians (Q32).
pub open spec fn zen_r_s(time: int, delta: int, phi: int) -> int {
    qacos_s(zen_cos_s(time, delta, phi))
}

/// Zenith angle at a given hour, degrees (Q32).
pub open spec fn zen_d_s(time: int, delta: int, phi: int) -> int {
    qmul_s(zen_r_s(time, delta, phi), 246083499208)
}

/// Generates the zenith-angle series (radians and degrees) over a time
/// series.
pub fn generate_zenith_array(times: &Vec<i64>, delta: i64, phi: i64) -> (r: (Vec<i64>, Vec<i64>))
    ensures
        r.0@.len() == times@.len(),
        r.1@.len() == times@.len(),
        forall|i: int| 0 <= i < times@.len() ==>
            r.0@[i] == zen_r_s(times@[i] as int, delta as int, phi as int),
        forall|i: int| 0 <= i < times@.len() ==>
            r.1@[i] == zen_d_s(times@[i] as int, delta as int, phi as int),
{
    let mut zr: Vec<i64> = Vec::new();
    let mut zd: Vec<i64> = Vec::new();
    let mut i: usize = 0;
    while i < times.len()
        invariant
            0 <= i <= times@.len(),
            zr@.len() == i,
            zd@.len() == i,
            forall|j: int| 0 <= j < i ==> zr@[j] == zen_r_s(times@[j] as int, delta as int, phi as int),
            forall|j: int| 0 <= j < i ==> zd@[j] == zen_d_s(times@[j] as int, delta as int, phi as int),
        decreases times@.len() - i,
    {
        let ha = qmul(qsub(51539607552, times[i]), 1124419809);
        let cz = qadd(qmul(qsin(phi), qsin(delta)), qmul(qmul(qcos(phi), qcos(delta)), qcos(ha)));
        let z = qacos(cz);
        zr.push(z);
        zd.push(qmul(z, 246083499208));
        i = i + 1;
    }
    (zr, zd)
}

} // verus!
