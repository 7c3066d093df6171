//! Spectral atmospheric irradiance at sea level.
//!
//! From the zenith angle, Rayleigh, aerosol, water-vapour and ozone
//! transmittances are computed on a 24-point reference grid by closed-form
//! empirical formulas, combined into direct and diffuse spectral
//! irradiance, and interpolated onto the working wavelength grid; the
//! spectrum is then calibrated against the observed daily PAR and the
//! seasonal solar-constant correction. All values Q32.

use vstd::prelude::*;
use crate::fixed::{
    Q, qneg_s, qadd_s, qsub_s, qmul_s, qdiv_s, qclamp_s, qhalf_s, qmax0_s,
    qneg, qadd, qsub, qmul, qdiv, qclamp, qhalf, qmax0,
};
use crate::elem::{
    qtrans_s, qpow_s, qsqrt_s, qsin_s, qcos_s, qtan_s, qasin_s,
    qtrans, qpow, qsqrt, qsin, qcos, qtan, qasin,
};
use crate::model::{WL_COUNT, DELTA_LAMBDA, wl_nm_s, wl_nm};

verus! {

/// Number of wavelengths in the transmittance reference grid.
pub const TR_COUNT: usize = 24;

/// First-pass air-mass estimate used for the air albedo.
pub const AIRMASS_ESTIMATE: i64 = 8160437862;

/// Reference wavelength of transmittance-grid sample `w`, nm (Q32).
pub open spec fn t_wl_s(w: int) -> int {
    if w == 0 { 1717986918400 } else if w == 1 { 1760936591360 } else if w == 2 { 1803886264320 } else if w == 3 { 1846835937280 } else if w == 4 { 1889785610240 } else if w == 5 { 1932735283200 } else if w == 6 { 1975684956160 } else if w == 7 { 2018634629120 } else if w == 8 { 2061584302080 } else if w == 9 { 2104533975040 } else if w == 10 { 2147483648000 } else if w == 11 { 2190433320960 } else if w == 12 { 2233382993920 } else if w == 13 { 2276332666880 } else if w == 14 { 2319282339840 } else if w == 15 { 2362232012800 } else if w == 16 { 2448131358720 } else if w == 17 { 2546915606528 } else if w == 18 { 2619930050560 } else if w == 19 { 2705829396480 } else if w == 20 { 2817498546176 } else if w == 21 { 2867320166810 } else if w == 22 { 2963527434240 } else { 3049426780160 }
}

pub fn t_wl(w: usize) -> (r: i64)
    requires w < 24,
    ensures r == t_wl_s(w as int),
{
    if w == 0 { 1717986918400 } else if w == 1 { 1760936591360 } else if w == 2 { 1803886264320 } else if w == 3 { 1846835937280 } else if w == 4 { 1889785610240 } else if w == 5 { 1932735283200 } else if w == 6 { 1975684956160 } else if w == 7 { 2018634629120 } else if w == 8 { 2061584302080 } else if w == 9 { 2104533975040 } else if w == 10 { 2147483648000 } else if w == 11 { 2190433320960 } else if w == 12 { 2233382993920 } else if w == 13 { 2276332666880 } else if w == 14 { 2319282339840 } else if w == 15 { 2362232012800 } else if w == 16 { 2448131358720 } else if w == 17 { 2546915606528 } else if w == 18 { 2619930050560 } else if w == 19 { 2705829396480 } else if w == 20 { 2817498546176 } else if w == 21 { 2867320166810 } else if w == 22 { 2963527434240 } else { 3049426780160 }
}

/// Ozone absorption coefficient at transmittance-grid sample `w`.
pub open spec fn ozone_abs_s(w: int) -> int {
    if w == 0 { 0 } else if w == 1 { 0 } else if w == 2 { 0 } else if w == 3 { 0 } else if w == 4 { 0 } else if w == 5 { 12884902 } else if w == 6 { 25769804 } else if w == 7 { 38654706 } else if w == 8 { 60129542 } else if w == 9 { 90194313 } else if w == 10 { 128849019 } else if w == 11 { 171798692 } else if w == 12 { 206158430 } else if w == 13 { 270582940 } else if w == 14 { 322122547 } else if w == 15 { 408021893 } else if w == 16 { 515396076 } else if w == 17 { 511101108 } else if w == 18 { 566935683 } else if w == 19 { 515396076 } else if w == 20 { 279172874 } else if w == 21 { 257698038 } else if w == 22 { 120259084 } else { 77309411 }
}

pub fn ozone_abs(w: usize) -> (r: i64)
    requires w < 24,
    ensures r == ozone_abs_s(w as int),
{
    if w == 0 { 0 } else if w == 1 { 0 } else if w == 2 { 0 } else if w == 3 { 0 } else if w == 4 { 0 } else if w == 5 { 12884902 } else if w == 6 { 25769804 } else if w == 7 { 38654706 } else if w == 8 { 60129542 } else if w == 9 { 90194313 } else if w == 10 { 128849019 } else if w == 11 { 171798692 } else if w == 12 { 206158430 } else if w == 13 { 270582940 } else if w == 14 { 322122547 } else if w == 15 { 408021893 } else if w == 16 { 515396076 } else if w == 17 { 511101108 } else if w == 18 { 566935683 } else if w == 19 { 515396076 } else if w == 20 { 279172874 } else if w == 21 { 257698038 } else if w == 22 { 120259084 } else { 77309411 }
}

/// Water-vapour absorption coefficient at transmittance-grid sample `w`.
pub open spec fn wv_abs_s(w: int) -> int {
    if w == 0 { 0 } else if w == 1 { 0 } else if w == 2 { 0 } else if w == 3 { 0 } else if w == 4 { 0 } else if w == 5 { 0 } else if w == 6 { 0 } else if w == 7 { 0 } else if w == 8 { 0 } else if w == 9 { 0 } else if w == 10 { 0 } else if w == 11 { 0 } else if w == 12 { 0 } else if w == 13 { 0 } else if w == 14 { 0 } else if w == 15 { 0 } else if w == 16 { 0 } else if w == 17 { 322122547 } else if w == 18 { 0 } else if w == 19 { 0 } else if w == 20 { 0 } else if w == 21 { 0 } else if w == 22 { 68719477 } else { 53687091 }
}

pub fn wv_abs(w: usize) -> (r: i64)
    requires w < 24,
    ensures r == wv_abs_s(w as int),
{
    if w == 0 { 0 } else if w == 1 { 0 } else if w == 2 { 0 } else if w == 3 { 0 } else if w == 4 { 0 } else if w == 5 { 0 } else if w == 6 { 0 } else if w == 7 { 0 } else if w == 8 { 0 } else if w == 9 { 0 } else if w == 10 { 0 } else if w == 11 { 0 } else if w == 12 { 0 } else if w == 13 { 0 } else if w == 14 { 0 } else if w == 15 { 0 } else if w == 16 { 0 } else if w == 17 { 322122547 } else if w == 18 { 0 } else if w == 19 { 0 } else if w == 20 { 0 } else if w == 21 { 0 } else if w == 22 { 68719477 } else { 53687091 }
}

/// Extra-terrestrial spectral irradiance at transmittance-grid sample `w`, W m^-2 um^-1.
pub open spec fn et_irr_s(w: int) -> int {
    if w == 0 { 6352686127514 } else if w == 1 { 7307027860685 } else if w == 2 { 7474961081958 } else if w == 3 { 6816972092211 } else if w == 4 { 7889854922752 } else if w == 5 { 8611409428480 } else if w == 6 { 8774618185728 } else if w == 7 { 8534100017152 } else if w == 8 { 8705898708992 } else if w == 9 { 8143257993216 } else if w == 10 { 8199092568064 } else if w == 11 { 8276401979392 } else if w == 12 { 7864085118976 } else if w == 13 { 8121783156736 } else if w == 14 { 8151847927808 } else if w == 15 { 8126078124032 } else if w == 16 { 7902739824640 } else if w == 17 { 7593502179328 } else if w == 18 { 7421703487488 } else if w == 19 { 7121055776768 } else if w == 20 { 6545530159104 } else if w == 21 { 6575594930176 } else if w == 22 { 6098853560320 } else { 6008659247104 }
}

pub fn et_irr(w: usize) -> (r: i64)
    requires w < 24,
    ensures r == et_irr_s(w as int),
{
    if w == 0 { 6352686127514 } else if w == 1 { 7307027860685 } else if w == 2 { 7474961081958 } else if w == 3 { 6816972092211 } else if w == 4 { 7889854922752 } else if w == 5 { 8611409428480 } else if w == 6 { 8774618185728 } else if w == 7 { 8534100017152 } else if w == 8 { 8705898708992 } else if w == 9 { 8143257993216 } else if w == 10 { 8199092568064 } else if w == 11 { 8276401979392 } else if w == 12 { 7864085118976 } else if w == 13 { 8121783156736 } else if w == 14 { 8151847927808 } else if w == 15 { 8126078124032 } else if w == 16 { 7902739824640 } else if w == 17 { 7593502179328 } else if w == 18 { 7421703487488 } else if w == 19 { 7121055776768 } else if w == 20 { 6545530159104 } else if w == 21 { 6575594930176 } else if w == 22 { 6098853560320 } else { 6008659247104 }
}

/// Zenith-angle grid of the diffuse-correction table, degrees (Q32).
pub open spec fn corr_zen_s(w: int) -> int {
    if w == 0 { 0 } else if w == 1 { 158913789952 } else if w == 2 { 206974473994 } else if w == 3 { 257698037760 } else if w == 4 { 300647710720 } else if w == 5 { 322122547200 } else { 343597383680 }
}

pub fn corr_zen(w: usize) -> (r: i64)
    requires w < 7,
    ensures r == corr_zen_s(w as int),
{
    if w == 0 { 0 } else if w == 1 { 158913789952 } else if w == 2 { 206974473994 } else if w == 3 { 257698037760 } else if w == 4 { 300647710720 } else if w == 5 { 322122547200 } else { 343597383680 }
}

/// Day-of-year grid of the solar-constant correction table.
pub open spec fn thek_day_s(w: int) -> int {
    if w == 0 { 0 } else if w == 1 { 12884901888 } else if w == 2 { 133143986176 } else if w == 3 { 180388626432 } else if w == 4 { 253403070464 } else if w == 5 { 335007449088 } else if w == 6 { 386547056640 } else if w == 7 { 399431958528 } else if w == 8 { 515396075520 } else if w == 9 { 571230650368 } else if w == 10 { 648540061696 } else if w == 11 { 730144440320 } else if w == 12 { 777389080576 } else if w == 13 { 785979015168 } else if w == 14 { 884763262976 } else if w == 15 { 910533066752 } else if w == 16 { 1043677052928 } else if w == 17 { 1138166333440 } else if w == 18 { 1172526071808 } else if w == 19 { 1189705940992 } else if w == 20 { 1305670057984 } else if w == 21 { 1314259992576 } else if w == 22 { 1434519076864 } else if w == 23 { 1524713390080 } else { 1567663063040 }
}

pub fn thek_day(w: usize) -> (r: i64)
    requires w < 25,
    ensures r == thek_day_s(w as int),
{
    if w == 0 { 0 } else if w == 1 { 12884901888 } else if w == 2 { 133143986176 } else if w == 3 { 180388626432 } else if w == 4 { 253403070464 } else if w == 5 { 335007449088 } else if w == 6 { 386547056640 } else if w == 7 { 399431958528 } else if w == 8 { 515396075520 } else if w == 9 { 571230650368 } else if w == 10 { 648540061696 } else if w == 11 { 730144440320 } else if w == 12 { 777389080576 } else if w == 13 { 785979015168 } else if w == 14 { 884763262976 } else if w == 15 { 910533066752 } else if w == 16 { 1043677052928 } else if w == 17 { 1138166333440 } else if w == 18 { 1172526071808 } else if w == 19 { 1189705940992 } else if w == 20 { 1305670057984 } else if w == 21 { 1314259992576 } else if w == 22 { 1434519076864 } else if w == 23 { 1524713390080 } else { 1567663063040 }
}

/// Solar-constant values of the correction table, W m^-2.
pub open spec fn thek_irr_s(w: int) -> int {
    if w == 0 { 6008659247104 } else if w == 1 { 6008659247104 } else if w == 2 { 5982889443328 } else if w == 3 { 5965709574144 } else if w == 4 { 5918464933888 } else if w == 5 { 5858335391744 } else if w == 6 { 5819680686080 } else if w == 7 { 5811090751488 } else if w == 8 { 5720896438272 } else if w == 9 { 5686536699904 } else if w == 10 { 5652176961536 } else if w == 11 { 5626407157760 } else if w == 12 { 5622112190464 } else if w == 13 { 5622112190464 } else if w == 14 { 5634997092352 } else if w == 15 { 5639292059648 } else if w == 16 { 5708011536384 } else if w == 17 { 5772436045824 } else if w == 18 { 5798205849600 } else if w == 19 { 5811090751488 } else if w == 20 { 5785320947712 } else if w == 21 { 5905580032000 } else if w == 22 { 5978594476032 } else if w == 23 { 6004364279808 } else { 6008659247104 }
}

pub fn thek_irr(w: usize) -> (r: i64)
    requires w < 25,
    ensures r == thek_irr_s(w as int),
{
    if w == 0 { 6008659247104 } else if w == 1 { 6008659247104 } else if w == 2 { 5982889443328 } else if w == 3 { 5965709574144 } else if w == 4 { 5918464933888 } else if w == 5 { 5858335391744 } else if w == 6 { 5819680686080 } else if w == 7 { 5811090751488 } else if w == 8 { 5720896438272 } else if w == 9 { 5686536699904 } else if w == 10 { 5652176961536 } else if w == 11 { 5626407157760 } else if w == 12 { 5622112190464 } else if w == 13 { 5622112190464 } else if w == 14 { 5634997092352 } else if w == 15 { 5639292059648 } else if w == 16 { 5708011536384 } else if w == 17 { 5772436045824 } else if w == 18 { 5798205849600 } else if w == 19 { 5811090751488 } else if w == 20 { 5785320947712 } else if w == 21 { 5905580032000 } else if w == 22 { 5978594476032 } else if w == 23 { 6004364279808 } else { 6008659247104 }
}

/// Diffuse-irradiance correction factor at zenith bin `i`, reference wavelength `j`.
pub open spec fn corr_tab_s(i: int, j: int) -> int {
    if i == 0 { if j == 0 { 4767413699 } else if j == 1 { 4466765988 } else if j == 2 { 4939212390 } else if j == 3 { 4810363372 } else { 5669356831 } } else if i == 1 { if j == 0 { 4853313044 } else if j == 1 { 4509715661 } else if j == 2 { 4294967296 } else if j == 3 { 4123168604 } else { 4810363372 } } else if i == 2 { if j == 0 { 5068061409 } else if j == 1 { 4681514353 } else if j == 2 { 4294967296 } else if j == 3 { 4123168604 } else { 4595615007 } } else if i == 3 { if j == 0 { 5325759447 } else if j == 1 { 4767413699 } else if j == 2 { 4252017623 } else if j == 3 { 4037269258 } else { 4380866642 } } else if i == 4 { if j == 0 { 6270652252 } else if j == 1 { 5325759447 } else if j == 2 { 4552665334 } else if j == 3 { 4252017623 } else { 4724464026 } } else if i == 5 { if j == 0 { 7301444403 } else if j == 1 { 5755256177 } else if j == 2 { 4595615007 } else if j == 3 { 4123168604 } else { 3865470566 } } else { if j == 0 { 11209864643 } else if j == 1 { 7387343749 } else if j == 2 { 5239860101 } else if j == 3 { 4466765988 } else { 3435973837 } }
}

pub fn corr_tab(i: usize, j: usize) -> (r: i64)
    requires i < 7, j < 5,
    ensures r == corr_tab_s(i as int, j as int),
{
    if i == 0 { if j == 0 { 4767413699 } else if j == 1 { 4466765988 } else if j == 2 { 4939212390 } else if j == 3 { 4810363372 } else { 5669356831 } } else if i == 1 { if j == 0 { 4853313044 } else if j == 1 { 4509715661 } else if j == 2 { 4294967296 } else if j == 3 { 4123168604 } else { 4810363372 } } else if i == 2 { if j == 0 { 5068061409 } else if j == 1 { 4681514353 } else if j == 2 { 4294967296 } else if j == 3 { 4123168604 } else { 4595615007 } } else if i == 3 { if j == 0 { 5325759447 } else if j == 1 { 4767413699 } else if j == 2 { 4252017623 } else if j == 3 { 4037269258 } else { 4380866642 } } else if i == 4 { if j == 0 { 6270652252 } else if j == 1 { 5325759447 } else if j == 2 { 4552665334 } else if j == 3 { 4252017623 } else { 4724464026 } } else if i == 5 { if j == 0 { 7301444403 } else if j == 1 { 5755256177 } else if j == 2 { 4595615007 } else if j == 3 { 4123168604 } else { 3865470566 } } else { if j == 0 { 11209864643 } else if j == 1 { 7387343749 } else if j == 2 { 5239860101 } else if j == 3 { 4466765988 } else { 3435973837 } }
}

/// Index of the first solar-correction table day at or after day `d`,
/// scanning from `i`.
pub open spec fn thek_idx_s(d: int, i: int) -> int
    decreases 24 - i,
{
    if i >= 24 { 24 } else if d * Q <= thek_day_s(i) { i } else { thek_idx_s(d, i + 1) }
}

/// Solar-constant correction for a day of year: piecewise-linear
/// interpolation over the 25-point seasonal table.
pub open spec fn thek_s(d: int) -> int {
    let i = thek_idx_s(d, 1);
    let temp = qdiv_s(qsub_s(d * Q, thek_day_s(i - 1)), qsub_s(thek_day_s(i), thek_day_s(i - 1)));
    qsub_s(thek_irr_s(i - 1), qmul_s(qsub_s(thek_irr_s(i - 1), thek_irr_s(i)), temp))
}

/// Looks up the seasonal solar-constant correction (Earth-Sun distance)
/// for a day of year, in W m^-2 (Q32).
pub fn lookup_thekaekara_correction(julian_day: u16) -> (r: i64)
    requires 1 <= julian_day <= 366,
    ensures r == thek_s(julian_day as int),
{
    let dq: i64 = (julian_day as i64) * 4294967296;
    let mut i: usize = 1;
    while i < 24 && dq > thek_day(i)
        invariant
            1 <= i <= 24,
            dq == julian_day * Q,
            thek_idx_s(julian_day as int, 1) == thek_idx_s(julian_day as int, i as int),
        decreases 24 - i,
    {
        i = i + 1;
    }
    let temp = qdiv(qsub(dq, thek_day(i - 1)), qsub(thek_day(i), thek_day(i - 1)));
    qsub(thek_irr(i - 1), qmul(qsub(thek_irr(i - 1), thek_irr(i)), temp))
}

/// Relative atmospheric path length from the zenith angle, floored at one.
pub open spec fn airmass_s(zr: int, zd: int) -> int {
    let am = qdiv_s(Q as int, qadd_s(qcos_s(zr), qmul_s(644245094, qpow_s(qsub_s(403233004585, zd), -5381594022))));
    if am < Q { Q as int } else { am }
}

fn compute_airmass(zen_r: i64, zen_d: i64) -> (r: i64)
    ensures r == airmass_s(zen_r as int, zen_d as int),
{
    let am = qdiv(4294967296, qadd(qcos(zen_r), qmul(644245094, qpow(qsub(403233004585, zen_d), -5381594022))));
    if am < 4294967296 { 4294967296 } else { am }
}

/// Rayleigh transmittance at reference-grid sample `w`.
pub open spec fn rayleigh_s(am: int, w: int) -> int {
    let wld = qdiv_s(t_wl_s(w), 4294967296000);
    let wld2 = qmul_s(wld, wld);
    let wld4 = qmul_s(wld2, wld2);
    qtrans_s(qdiv_s(qneg_s(am), qmul_s(wld4, qsub_s(496672595090, qdiv_s(5733781340, wld2)))))
}

fn compute_rayleigh(am: i64) -> (r: Vec<i64>)
    ensures
        r@.len() == TR_COUNT,
        forall|w: int| 0 <= w < TR_COUNT ==> r@[w] == rayleigh_s(am as int, w),
{
    let mut tr: Vec<i64> = Vec::new();
    let mut w: usize = 0;
    while w < TR_COUNT
        invariant
            0 <= w <= TR_COUNT,
            tr@.len() == w,
            forall|j: int| 0 <= j < w ==> tr@[j] == rayleigh_s(am as int, j),
        decreases TR_COUNT - w,
    {
        let wld = qdiv(t_wl(w), 4294967296000);
        let wld2 = qmul(wld, wld);
        let wld4 = qmul(wld2, wld2);
        tr.push(qtrans(qdiv(qneg(am), qmul(wld4, qsub(496672595090, qdiv(5733781340, wld2))))));
        w = w + 1;
    }
    tr
}

/// Aerosol transmittance at reference-grid sample `w`; the Angstrom
/// coefficients change at 500 nm.
pub open spec fn aerosol_s(am: int, w: int) -> int {
    let wld = qdiv_s(t_wl_s(w), 4294967296000);
    if w < 10 {
        qtrans_s(qneg_s(qmul_s(qmul_s(568653670, qpow_s(wld, -4412649400)), am)))
    } else {
        qtrans_s(qneg_s(qmul_s(qmul_s(502511174, qpow_s(wld, -5179730559)), am)))
    }
}

fn compute_aerosol_transmittance(am: i64) -> (r: Vec<i64>)
    ensures
        r@.len() == TR_COUNT,
        forall|w: int| 0 <= w < TR_COUNT ==> r@[w] == aerosol_s(am as int, w),
{
    let mut ta: Vec<i64> = Vec::new();
    let mut w: usize = 0;
    while w < TR_COUNT
        invariant
            0 <= w <= TR_COUNT,
            ta@.len() == w,
            forall|j: int| 0 <= j < w ==> ta@[j] == aerosol_s(am as int, j),
        decreases TR_COUNT - w,
    {
        let wld = qdiv(t_wl(w), 4294967296000);
        if w < 10 {
            ta.push(qtrans(qneg(qmul(qmul(568653670, qpow(wld, -4412649400)), am))));
        } else {
            ta.push(qtrans(qneg(qmul(qmul(502511174, qpow(wld, -5179730559)), am))));
        }
        w = w + 1;
    }
    ta
}

/// Water-vapour transmittance at reference-grid sample `w`, for a fixed
/// columnar water content of two units.
pub open spec fn wv_trans_s(am: int, w: int) -> int {
    qtrans_s(qneg_s(qdiv_s(
        qmul_s(qmul_s(qmul_s(1410896757, wv_abs_s(w)), qadd_s(8589934592, qhalf_s(qsub_s(6098853560, 8589934592)))), am),
        qpow_s(qadd_s(Q as int, qmul_s(qmul_s(86199993631, wv_abs_s(w)), am)), 1932735283),
    )))
}

fn compute_water_vapour_transmittance(am: i64) -> (r: Vec<i64>)
    ensures
        r@.len() == TR_COUNT,
        forall|w: int| 0 <= w < TR_COUNT ==> r@[w] == wv_trans_s(am as int, w),
{
    let mut tw: Vec<i64> = Vec::new();
    let mut w: usize = 0;
    while w < TR_COUNT
        invariant
            0 <= w <= TR_COUNT,
            tw@.len() == w,
            forall|j: int| 0 <= j < w ==> tw@[j] == wv_trans_s(am as int, j),
        decreases TR_COUNT - w,
    {
        tw.push(qtrans(qneg(qdiv(
            qmul(qmul(qmul(1410896757, wv_abs(w)), qadd(8589934592, qhalf(qsub(6098853560, 8589934592)))), am),
            qpow(qadd(4294967296, qmul(qmul(86199993631, wv_abs(w)), am)), 1932735283),
        ))));
        w = w + 1;
    }
    tw
}

/// Ozone path factor from the zenith angle.
pub open spec fn em0_s(zr: int) -> int {
    qdiv_s(150323855360, qsqrt_s(qadd_s(qmul_s(5257039970304, qmul_s(qcos_s(zr), qcos_s(zr))), Q as int)))
}

/// Ozone transmittance at reference-grid sample `w`.
pub open spec fn ozone_s(zr: int, w: int) -> int {
    qtrans_s(qneg_s(qmul_s(qmul_s(ozone_abs_s(w), 128849019), em0_s(zr))))
}

fn compute_ozone_transmittance(zen_r: i64) -> (r: Vec<i64>)
    ensures
        r@.len() == TR_COUNT,
        forall|w: int| 0 <= w < TR_COUNT ==> r@[w] == ozone_s(zen_r as int, w),
{
    let em0 = qdiv(150323855360, qsqrt(qadd(qmul(5257039970304, qmul(qcos(zen_r), qcos(zen_r))), 4294967296)));
    let mut to: Vec<i64> = Vec::new();
    let mut w: usize = 0;
    while w < TR_COUNT
        invariant
            0 <= w <= TR_COUNT,
            to@.len() == w,
            em0 == em0_s(zen_r as int),
            forall|j: int| 0 <= j < w ==> to@[j] == ozone_s(zen_r as int, j),
        decreases TR_COUNT - w,
    {
        to.push(qtrans(qneg(qmul(qmul(ozone_abs(w), 128849019), em0))));
        w = w + 1;
    }
    to
}

/// Secondary correction factor applied at the longest reference wavelength.
pub open spec fn tu_s(am: int) -> int {
    qtrans_s(qneg_s(qdiv_s(qmul_s(908385583, am), qpow_s(qadd_s(Q as int, qmul_s(76214194668, am)), 1932735283))))
}

fn compute_tu(am: i64) -> (r: i64)
    ensures r == tu_s(am as int),
{
    qtrans(qneg(qdiv(qmul(908385583, am), qpow(qadd(4294967296, qmul(76214194668, am)), 1932735283))))
}

/// Air albedo at reference-grid sample `w`, combining the four
/// transmittances; the longest wavelength carries the `tu` factor.
pub open spec fn air_albedo_pt_s(ta: int, to: int, trl: int, tw: int) -> int {
    qmul_s(qmul_s(to, tw), qadd_s(
        qmul_s(qmul_s(ta, qsub_s(Q as int, trl)), 2147483648),
        qmul_s(qmul_s(qmul_s(trl, qsub_s(Q as int, ta)), 944892805), 3985729651),
    ))
}

fn compute_air_albedo(ta: &Vec<i64>, to: &Vec<i64>, trl: &Vec<i64>, tw: &Vec<i64>, tu: i64) -> (r: Vec<i64>)
    requires
        ta@.len() == TR_COUNT, to@.len() == TR_COUNT, trl@.len() == TR_COUNT, tw@.len() == TR_COUNT,
    ensures
        r@.len() == TR_COUNT,
        forall|w: int| 0 <= w < TR_COUNT ==> r@[w] == (
            if w == 23 {
                qmul_s(air_albedo_pt_s(ta@[w] as int, to@[w] as int, trl@[w] as int, tw@[w] as int), tu as int)
            } else {
                air_albedo_pt_s(ta@[w] as int, to@[w] as int, trl@[w] as int, tw@[w] as int)
            }
        ),
{
    let mut alb: Vec<i64> = Vec::new();
    let mut w: usize = 0;
    while w < TR_COUNT
        invariant
            0 <= w <= TR_COUNT,
            alb@.len() == w,
            ta@.len() == TR_COUNT, to@.len() == TR_COUNT, trl@.len() == TR_COUNT, tw@.len() == TR_COUNT,
            forall|j: int| 0 <= j < w ==> alb@[j] == (
                if j == 23 {
                    qmul_s(air_albedo_pt_s(ta@[j] as int, to@[j] as int, trl@[j] as int, tw@[j] as int), tu as int)
                } else {
                    air_albedo_pt_s(ta@[j] as int, to@[j] as int, trl@[j] as int, tw@[j] as int)
                }
            ),
        decreases TR_COUNT - w,
    {
        let base = qmul(qmul(to[w], tw[w]), qadd(
            qmul(qmul(ta[w], qsub(4294967296, trl[w])), 2147483648),
            qmul(qmul(qmul(trl[w], qsub(4294967296, ta[w])), 944892805), 3985729651),
        ));
        if w == 23 { alb.push(qmul(base, tu)); } else { alb.push(base); }
        w = w + 1;
    }
    alb
}

} // verus!

verus! {

/// Zenith bin of the diffuse-correction table: the first bin bound above
/// the (clamped) zenith angle.
pub open spec fn lut_idx_s(zc: int, i: int) -> int
    decreases 7 - i,
{
    if i >= 6 { 6 } else if zc < corr_zen_s(i) { i } else { lut_idx_s(zc, i + 1) }
}

/// The zenith angle clamped into the table's range.
pub open spec fn zen_clamped_s(zd: int) -> int {
    qclamp_s(zd, 0, 343597598428)
}

/// Diffuse-correction factor at reference wavelength `j`, interpolated
/// between the two bracketing zenith bins.
pub open spec fn corr5_s(zd: int, j: int) -> int {
    let zc = zen_clamped_s(zd);
    let i = lut_idx_s(zc, 0);
    let frac = qdiv_s(qsub_s(zc, corr_zen_s(i - 1)), qsub_s(corr_zen_s(i), corr_zen_s(i - 1)));
    qadd_s(qmul_s(qsub_s(corr_tab_s(i, j), corr_tab_s(i - 1, j)), frac), corr_tab_s(i - 1, j))
}

/// Diffuse-correction factor expanded to the reference grid: below 550 nm
/// it advances in equal fifths between the table wavelengths, above 550 nm
/// it advances proportionally to the wavelength spacing. The two segments
/// deliberately use different slopes.
pub open spec fn ci_s(zd: int, l: int) -> int
    decreases l,
{
    if l <= 0 {
        corr5_s(zd, 0)
    } else if l < 16 {
        qsub_s(ci_s(zd, l - 1), qdiv_s(qsub_s(corr5_s(zd, (l + 4) / 5 - 1), corr5_s(zd, (l + 4) / 5)), 21474836480))
    } else {
        qadd_s(ci_s(zd, l - 1), qmul_s(
            qsub_s(corr5_s(zd, 4), corr5_s(zd, 3)),
            qdiv_s(qsub_s(t_wl_s(l), t_wl_s(l - 1)), qsub_s(t_wl_s(23), t_wl_s(15))),
        ))
    }
}

/// Zenith bin lookup over the table bounds.
fn find_lut_index(zc: i64) -> (r: usize)
    requires 0 <= zc,
    ensures 1 <= r <= 6, r == lut_idx_s(zc as int, 0),
{
    let mut i: usize = 0;
    while i < 6 && zc >= corr_zen(i)
        invariant
            0 <= i <= 6,
            lut_idx_s(zc as int, 0) == lut_idx_s(zc as int, i as int),
            i > 0 ==> zc >= corr_zen_s(i - 1),
        decreases 6 - i,
    {
        i = i + 1;
    }
    i
}

/// Interpolates the diffuse-correction factors onto the reference grid.
fn interpolate_correction_factor(zen_d: i64) -> (r: Vec<i64>)
    ensures
        r@.len() == TR_COUNT,
        forall|l: int| 0 <= l < TR_COUNT ==> r@[l] == ci_s(zen_d as int, l),
{
    let zc = qclamp(zen_d, 0, 343597598428);
    let idx = find_lut_index(zc);
    let mut c5: Vec<i64> = Vec::new();
    let mut j: usize = 0;
    while j < 5
        invariant
            0 <= j <= 5,
            c5@.len() == j,
            zc == zen_clamped_s(zen_d as int),
            1 <= idx <= 6,
            idx == lut_idx_s(zc as int, 0),
            forall|k: int| 0 <= k < j ==> c5@[k] == corr5_s(zen_d as int, k),
        decreases 5 - j,
    {
        let frac = qdiv(qsub(zc, corr_zen(idx - 1)), qsub(corr_zen(idx), corr_zen(idx - 1)));
        c5.push(qadd(qmul(qsub(corr_tab(idx, j), corr_tab(idx - 1, j)), frac), corr_tab(idx - 1, j)));
        j = j + 1;
    }
    let mut ci: Vec<i64> = Vec::new();
    ci.push(c5[0]);
    let mut l: usize = 1;
    while l < 16
        invariant
            1 <= l <= 16,
            ci@.len() == l,
            c5@.len() == 5,
            forall|k: int| 0 <= k < 5 ==> c5@[k] == corr5_s(zen_d as int, k),
            forall|k: int| 0 <= k < l ==> ci@[k] == ci_s(zen_d as int, k),
        decreases 16 - l,
    {
        let l1 = (l + 4) / 5;
        let cinc = qdiv(qsub(c5[l1 - 1], c5[l1]), 21474836480);
        let prev = ci[l - 1];
        let v = qsub(prev, cinc);
        proof {
            assert(1 <= l1 <= 3);
            assert(l1 as int == (l as int + 4) / 5);
            assert(prev == ci_s(zen_d as int, l as int - 1));
            assert(cinc == qdiv_s(qsub_s(corr5_s(zen_d as int, l1 as int - 1), corr5_s(zen_d as int, l1 as int)), 21474836480));
            assert(v == ci_s(zen_d as int, l as int));
        }
        ci.push(v);
        l = l + 1;
    }
    while l < 24
        invariant
            16 <= l <= 24,
            ci@.len() == l,
            c5@.len() == 5,
            forall|k: int| 0 <= k < 5 ==> c5@[k] == corr5_s(zen_d as int, k),
            forall|k: int| 0 <= k < l ==> ci@[k] == ci_s(zen_d as int, k),
        decreases 24 - l,
    {
        let cdif = qsub(c5[4], c5[3]);
        let wlinc = qdiv(qsub(t_wl(l), t_wl(l - 1)), qsub(t_wl(23), t_wl(15)));
        let prev = ci[l - 1];
        let v = qadd(prev, qmul(cdif, wlinc));
        proof {
            assert(prev == ci_s(zen_d as int, l as int - 1));
            assert(cdif == qsub_s(corr5_s(zen_d as int, 4), corr5_s(zen_d as int, 3)));
            assert(wlinc == qdiv_s(qsub_s(t_wl_s(l as int), t_wl_s(l as int - 1)), qsub_s(t_wl_s(23), t_wl_s(15))));
            assert(v == ci_s(zen_d as int, l as int));
        }
        ci.push(v);
        l = l + 1;
    }
    ci
}

/// Direct spectral irradiance at reference-grid sample `w`: the
/// extra-terrestrial spectrum under the four transmittances, with the `tu`
/// factor at the longest wavelength.
pub open spec fn direct24_s(zr: int, zd: int, w: int) -> int {
    let am = airmass_s(zr, zd);
    let base = qmul_s(qmul_s(qmul_s(qmul_s(et_irr_s(w), rayleigh_s(am, w)), aerosol_s(am, w)), wv_trans_s(am, w)), ozone_s(zr, w));
    if w == 23 { qmul_s(base, tu_s(am)) } else { base }
}

/// Air albedo at reference-grid sample `w`, from the first-pass air mass.
pub open spec fn air_albedo24_s(zr: int, w: int) -> int {
    let pt = air_albedo_pt_s(
        aerosol_s(AIRMASS_ESTIMATE as int, w),
        ozone_s(zr, w),
        rayleigh_s(AIRMASS_ESTIMATE as int, w),
        wv_trans_s(AIRMASS_ESTIMATE as int, w),
    );
    if w == 23 { qmul_s(pt, tu_s(AIRMASS_ESTIMATE as int)) } else { pt }
}

/// Diffuse spectral irradiance at reference-grid sample `w`: Rayleigh and
/// aerosol single-scattering terms under the zenith-dependent correction
/// factor, plus the ground-air multiple-reflection term.
pub open spec fn diffuse24_s(zr: int, zd: int, w: int) -> int {
    let am = airmass_s(zr, zd);
    let xx = qmul_s(qmul_s(qmul_s(et_irr_s(w), qcos_s(zr)), ozone_s(zr, w)), wv_trans_s(am, w));
    let r0 = qmul_s(qmul_s(qmul_s(xx, aerosol_s(am, w)), qsub_s(Q as int, rayleigh_s(am, w))), 2147483648);
    let a0 = qmul_s(qmul_s(xx, rayleigh_s(am, w)), qsub_s(Q as int, qmul_s(qmul_s(aerosol_s(am, w), 3985729651), 3521873183)));
    let rr = if w == 22 { qmul_s(r0, tu_s(am)) } else { r0 };
    let aa = if w == 22 { qmul_s(a0, tu_s(am)) } else { a0 };
    let alb = air_albedo24_s(zr, w);
    let g = qdiv_s(
        qmul_s(qmul_s(qadd_s(qmul_s(direct24_s(zr, zd, w), qcos_s(zr)), qmul_s(qadd_s(rr, aa), ci_s(zd, w))), alb), 214748365),
        qsub_s(Q as int, qmul_s(214748365, alb)),
    );
    qadd_s(qmul_s(qadd_s(rr, aa), ci_s(zd, w)), g)
}

/// Pointwise direct irradiance from the four transmittances.
pub open spec fn direct_pt_s(trl: int, ta: int, tw: int, to: int, w: int) -> int {
    qmul_s(qmul_s(qmul_s(qmul_s(et_irr_s(w), trl), ta), tw), to)
}

fn compute_direct_irradiance(ta: &Vec<i64>, to: &Vec<i64>, trl: &Vec<i64>, tu: i64, tw: &Vec<i64>) -> (r: Vec<i64>)
    requires
        ta@.len() == TR_COUNT, to@.len() == TR_COUNT, trl@.len() == TR_COUNT, tw@.len() == TR_COUNT,
    ensures
        r@.len() == TR_COUNT,
        forall|w: int| 0 <= w < TR_COUNT ==> r@[w] == (
            if w == 23 {
                qmul_s(direct_pt_s(trl@[w] as int, ta@[w] as int, tw@[w] as int, to@[w] as int, w), tu as int)
            } else {
                direct_pt_s(trl@[w] as int, ta@[w] as int, tw@[w] as int, to@[w] as int, w)
            }
        ),
{
    let mut d: Vec<i64> = Vec::new();
    let mut w: usize = 0;
    while w < TR_COUNT
        invariant
            0 <= w <= TR_COUNT,
            d@.len() == w,
            ta@.len() == TR_COUNT, to@.len() == TR_COUNT, trl@.len() == TR_COUNT, tw@.len() == TR_COUNT,
            forall|j: int| 0 <= j < w ==> d@[j] == (
                if j == 23 {
                    qmul_s(direct_pt_s(trl@[j] as int, ta@[j] as int, tw@[j] as int, to@[j] as int, j), tu as int)
                } else {
                    direct_pt_s(trl@[j] as int, ta@[j] as int, tw@[j] as int, to@[j] as int, j)
                }
            ),
        decreases TR_COUNT - w,
    {
        let base = qmul(qmul(qmul(qmul(et_irr(w), trl[w]), ta[w]), tw[w]), to[w]);
        if w == 23 { d.push(qmul(base, tu)); } else { d.push(base); }
        w = w + 1;
    }
    d
}

/// Pointwise diffuse irradiance: single-scattering terms under the
/// correction factor plus the multiple-reflection term.
pub open spec fn diffuse_pt_s(zr: int, zd: int, d: int, alb: int, ta: int, to: int, trl: int, tu: int, tw: int, w: int) -> int {
    let xx = qmul_s(qmul_s(qmul_s(et_irr_s(w), qcos_s(zr)), to), tw);
    let r0 = qmul_s(qmul_s(qmul_s(xx, ta), qsub_s(Q as int, trl)), 2147483648);
    let a0 = qmul_s(qmul_s(xx, trl), qsub_s(Q as int, qmul_s(qmul_s(ta, 3985729651), 3521873183)));
    let rr = if w == 22 { qmul_s(r0, tu) } else { r0 };
    let aa = if w == 22 { qmul_s(a0, tu) } else { a0 };
    let g = qdiv_s(
        qmul_s(qmul_s(qadd_s(qmul_s(d, qcos_s(zr)), qmul_s(qadd_s(rr, aa), ci_s(zd, w))), alb), 214748365),
        qsub_s(Q as int, qmul_s(214748365, alb)),
    );
    qadd_s(qmul_s(qadd_s(rr, aa), ci_s(zd, w)), g)
}

fn compute_diffuse_irradiance(
    zen_r: i64, zen_d: i64, direct: &Vec<i64>, albedo: &Vec<i64>,
    ta: &Vec<i64>, to: &Vec<i64>, trl: &Vec<i64>, tu: i64, tw: &Vec<i64>,
) -> (r: Vec<i64>)
    requires
        direct@.len() == TR_COUNT, albedo@.len() == TR_COUNT,
        ta@.len() == TR_COUNT, to@.len() == TR_COUNT, trl@.len() == TR_COUNT, tw@.len() == TR_COUNT,
    ensures
        r@.len() == TR_COUNT,
        forall|w: int| 0 <= w < TR_COUNT ==> r@[w] == diffuse_pt_s(
            zen_r as int, zen_d as int, direct@[w] as int, albedo@[w] as int,
            ta@[w] as int, to@[w] as int, trl@[w] as int, tu as int, tw@[w] as int, w,
        ),
{
    let corr = interpolate_correction_factor(zen_d);
    let mut f: Vec<i64> = Vec::new();
    let mut w: usize = 0;
    while w < TR_COUNT
        invariant
            0 <= w <= TR_COUNT,
            f@.len() == w,
            corr@.len() == TR_COUNT,
            direct@.len() == TR_COUNT, albedo@.len() == TR_COUNT,
            ta@.len() == TR_COUNT, to@.len() == TR_COUNT, trl@.len() == TR_COUNT, tw@.len() == TR_COUNT,
            forall|l: int| 0 <= l < TR_COUNT ==> corr@[l] == ci_s(zen_d as int, l),
            forall|j: int| 0 <= j < w ==> f@[j] == diffuse_pt_s(
                zen_r as int, zen_d as int, direct@[j] as int, albedo@[j] as int,
                ta@[j] as int, to@[j] as int, trl@[j] as int, tu as int, tw@[j] as int, j,
            ),
        decreases TR_COUNT - w,
    {
        let xx = qmul(qmul(qmul(et_irr(w), qcos(zen_r)), to[w]), tw[w]);
        let mut rr = qmul(qmul(qmul(xx, ta[w]), qsub(4294967296, trl[w])), 2147483648);
        let mut aa = qmul(qmul(xx, trl[w]), qsub(4294967296, qmul(qmul(ta[w], 3985729651), 3521873183)));
        if w == 22 {
            rr = qmul(rr, tu);
            aa = qmul(aa, tu);
        }
        let g = qdiv(
            qmul(qmul(qadd(qmul(direct[w], qcos(zen_r)), qmul(qadd(rr, aa), corr[w])), albedo[w]), 214748365),
            qsub(4294967296, qmul(214748365, albedo[w])),
        );
        f.push(qadd(qmul(qadd(rr, aa), corr[w]), g));
        w = w + 1;
    }
    f
}

/// Bracketing index on the transmittance grid: the first grid point above
/// `x`, scanning from `i`; the last index where `x` lies beyond the grid.
pub open spec fn br24_s(x: int, i: int) -> int
    decreases 24 - i,
{
    if i >= 23 { 23 } else if x < t_wl_s(i) { i } else { br24_s(x, i + 1) }
}

proof fn lemma_br24_range(x: int, i: int)
    requires 1 <= i <= 23,
    ensures i <= br24_s(x, i) <= 23,
    decreases 24 - i,
{
    if i < 23 && !(x < t_wl_s(i)) { lemma_br24_range(x, i + 1); }
}

/// Linear interpolation between transmittance-grid points `j - 1` and `j`.
pub open spec fn lerp24_s(y0: int, y1: int, x: int, j: int) -> int {
    qadd_s(y0, qmul_s(qsub_s(y1, y0), qdiv_s(qsub_s(x, t_wl_s(j - 1)), qsub_s(t_wl_s(j), t_wl_s(j - 1)))))
}

/// Value of a transmittance-grid array interpolated at working-grid
/// wavelength `i`.
pub open spec fn interp61_s(vals: Seq<i64>, i: int) -> int {
    let x = wl_nm_s(i);
    let j = br24_s(x, 1);
    lerp24_s(vals[j - 1] as int, vals[j] as int, x, j)
}

/// Interpolates a spectrum from the transmittance grid onto the working
/// wavelength grid.
fn interpolate_irradiances(vals: &Vec<i64>) -> (r: Vec<i64>)
    requires vals@.len() == TR_COUNT,
    ensures
        r@.len() == WL_COUNT,
        forall|i: int| 0 <= i < WL_COUNT ==> r@[i] == interp61_s(vals@, i),
{
    let mut out: Vec<i64> = Vec::new();
    let mut i: usize = 0;
    while i < WL_COUNT
        invariant
            0 <= i <= WL_COUNT,
            out@.len() == i,
            vals@.len() == TR_COUNT,
            forall|k: int| 0 <= k < i ==> out@[k] == interp61_s(vals@, k),
        decreases WL_COUNT - i,
    {
        let x = wl_nm(i);
        let mut j: usize = 1;
        while j < 23 && x >= t_wl(j)
            invariant
                1 <= j <= 23,
                x == wl_nm_s(i as int),
                br24_s(x as int, 1) == br24_s(x as int, j as int),
            decreases 23 - j,
        {
            j = j + 1;
        }
        proof { assert(j as int == br24_s(x as int, 1)); }
        let y0 = vals[j - 1];
        let y1 = vals[j];
        out.push(qadd(y0, qmul(qsub(y1, y0), qdiv(qsub(x, t_wl(j - 1)), qsub(t_wl(j), t_wl(j - 1))))));
        i = i + 1;
    }
    out
}

/// Direct irradiance interpolated onto the working grid.
pub open spec fn direct61_s(zr: int, zd: int, i: int) -> int {
    let x = wl_nm_s(i);
    let j = br24_s(x, 1);
    lerp24_s(direct24_s(zr, zd, j - 1), direct24_s(zr, zd, j), x, j)
}

/// Diffuse irradiance interpolated onto the working grid.
pub open spec fn diffuse61_s(zr: int, zd: int, i: int) -> int {
    let x = wl_nm_s(i);
    let j = br24_s(x, 1);
    lerp24_s(diffuse24_s(zr, zd, j - 1), diffuse24_s(zr, zd, j), x, j)
}

/// Computes the direct and diffuse spectral irradiance at sea level on the
/// working wavelength grid, for one zenith angle (radians and degrees).
/// The air albedo uses a first-pass air-mass estimate; all transmittances
/// are then recomputed with the air mass of the actual zenith angle.
#[verifier::rlimit(100)]
pub fn compute_irradiance_components(zenith_r: i64, zenith_d: i64) -> (r: (Vec<i64>, Vec<i64>))
    ensures
        r.0@.len() == WL_COUNT,
        r.1@.len() == WL_COUNT,
        forall|i: int| 0 <= i < WL_COUNT ==> r.0@[i] == direct61_s(zenith_r as int, zenith_d as int, i),
        forall|i: int| 0 <= i < WL_COUNT ==> r.1@[i] == diffuse61_s(zenith_r as int, zenith_d as int, i),
{
    let trl0 = compute_rayleigh(AIRMASS_ESTIMATE);
    let ta0 = compute_aerosol_transmittance(AIRMASS_ESTIMATE);
    let tw0 = compute_water_vapour_transmittance(AIRMASS_ESTIMATE);
    let to0 = compute_ozone_transmittance(zenith_r);
    let tu0 = compute_tu(AIRMASS_ESTIMATE);
    let albedo = compute_air_albedo(&ta0, &to0, &trl0, &tw0, tu0);

    let am = compute_airmass(zenith_r, zenith_d);
    let trl = compute_rayleigh(am);
    let ta = compute_aerosol_transmittance(am);
    let tw = compute_water_vapour_transmittance(am);
    let to = compute_ozone_transmittance(zenith_r);
    let tu = compute_tu(am);

    let direct = compute_direct_irradiance(&ta, &to, &trl, tu, &tw);
    let diffuse = compute_diffuse_irradiance(zenith_r, zenith_d, &direct, &albedo, &ta, &to, &trl, tu, &tw);

    proof {
        assert forall|w: int| 0 <= w < TR_COUNT implies
            albedo@[w] == air_albedo24_s(zenith_r as int, w) by {}
        assert forall|w: int| 0 <= w < TR_COUNT implies
            direct@[w] == direct24_s(zenith_r as int, zenith_d as int, w) by {}
        assert forall|w: int| 0 <= w < TR_COUNT implies
            diffuse@[w] == diffuse24_s(zenith_r as int, zenith_d as int, w) by {}
    }

    let d61 = interpolate_irradiances(&direct);
    let f61 = interpolate_irradiances(&diffuse);

    proof {
        assert forall|i: int| 0 <= i < WL_COUNT implies
            d61@[i] == direct61_s(zenith_r as int, zenith_d as int, i) by {
            lemma_br24_range(wl_nm_s(i), 1);
            assert(d61@[i] == interp61_s(direct@, i));
        }
        assert forall|i: int| 0 <= i < WL_COUNT implies
            f61@[i] == diffuse61_s(zenith_r as int, zenith_d as int, i) by {
            lemma_br24_range(wl_nm_s(i), 1);
            assert(f61@[i] == interp61_s(diffuse@, i));
        }
    }

    (d61, f61)
}

/// The solar-constant correction as a fraction of the reference maximum.
pub open spec fn scf_s(sc: int) -> int {
    qdiv_s(sc, 5811090751488)
}

/// Integrated direct irradiance (cosine-weighted) over the first `l`
/// working-grid samples.
pub open spec fn disum_s(direct: Seq<i64>, zr: int, l: int) -> int
    decreases l,
{
    if l <= 0 { 0 } else { qadd_s(disum_s(direct, zr, l - 1), qmul_s(direct[l - 1] as int, qcos_s(zr))) }
}

/// Integrated diffuse irradiance over the first `l` working-grid samples.
pub open spec fn fisum_s(diffuse: Seq<i64>, l: int) -> int
    decreases l,
{
    if l <= 0 { 0 } else { qadd_s(fisum_s(diffuse, l - 1), diffuse[l - 1] as int) }
}

/// Sea-surface albedo under the cloud model.
pub open spec fn cld_albedo_s(zr: int) -> int {
    qdiv_s(1202590843, qadd_s(Q as int, qmul_s(27616639713, qcos_s(zr))))
}

/// Cloud cover as a fraction.
pub open spec fn cc_s(cloud: int) -> int {
    qdiv_s(cloud, 429496729600)
}

/// Direct component surviving the cloud.
pub open spec fn idir1_s(direct: Seq<i64>, zr: int, cloud: int) -> int {
    qmul_s(disum_s(direct, zr, WL_COUNT as int), qsub_s(Q as int, cc_s(cloud)))
}

/// Cloud transmission factor for the total flux.
pub open spec fn flux_s(zr: int, cloud: int) -> int {
    let cc = cc_s(cloud);
    let alb = cld_albedo_s(zr);
    qdiv_s(
        qmul_s(qmul_s(qsub_s(Q as int, qhalf_s(cc)), qsub_s(3521873183, qmul_s(alb, qsub_s(Q as int, cc)))), qcos_s(zr)),
        qmul_s(qsub_s(3521873183, alb), qcos_s(zr)),
    )
}

/// Diffuse component under the cloud: total transmitted flux less the
/// surviving direct component.
pub open spec fn idif1_s(direct: Seq<i64>, diffuse: Seq<i64>, zr: int, cloud: int) -> int {
    let surface = qadd_s(disum_s(direct, zr, WL_COUNT as int), fisum_s(diffuse, WL_COUNT as int));
    qsub_s(qmul_s(surface, flux_s(zr, cloud)), idir1_s(direct, zr, cloud))
}

/// Rescaling factor of the direct component for cloud cover.
pub open spec fn dirdiv_s(direct: Seq<i64>, zr: int, cloud: int) -> int {
    qdiv_s(idir1_s(direct, zr, cloud), disum_s(direct, zr, WL_COUNT as int))
}

/// Rescaling factor of the diffuse component for cloud cover.
pub open spec fn difdiv_s(direct: Seq<i64>, diffuse: Seq<i64>, zr: int, cloud: int) -> int {
    qdiv_s(idif1_s(direct, diffuse, zr, cloud), fisum_s(diffuse, WL_COUNT as int))
}

/// Zenith angle of the refracted ray under water.
pub open spec fn zen_w_s(zr: int) -> int {
    qasin_s(qdiv_s(qsin_s(zr), 5725191406))
}

/// Fresnel-type reflection loss of the direct component at the surface.
pub open spec fn refl_s(zr: int) -> int {
    let zw = zen_w_s(zr);
    qadd_s(
        qhalf_s(qdiv_s(
            qmul_s(qsin_s(qsub_s(zr, zw)), qsin_s(qsub_s(zr, zw))),
            qmul_s(qsin_s(qadd_s(zr, zw)), qsin_s(qadd_s(zr, zw))),
        )),
        qhalf_s(qdiv_s(
            qmul_s(qtan_s(qsub_s(zr, zw)), qtan_s(qsub_s(zr, zw))),
            qmul_s(qtan_s(qadd_s(zr, zw)), qtan_s(qadd_s(zr, zw))),
        )),
    )
}

/// Radiometric-to-quantum conversion coefficient at working-grid sample
/// `l` (watts per micron to einstein per hour per nm).
pub open spec fn wlc_s(l: int) -> int {
    qdiv_s(qdiv_s(qmul_s(wl_nm_s(l), 154618822656), 513923503033), 42949672960000000)
}

/// Direct component after the solar correction, cloud rescaling and
/// quantum conversion, before the reflection loss.
pub open spec fn dc3_s(direct: Seq<i64>, diffuse: Seq<i64>, sc: int, zr: int, cloud: int, l: int) -> int {
    qmul_s(qmul_s(qmul_s(qmul_s(direct[l] as int, scf_s(sc)), dirdiv_s(direct, zr, cloud)), wlc_s(l)), qcos_s(zr))
}

/// Diffuse component after the solar correction, cloud rescaling and
/// quantum conversion, before the fixed surface transmission.
pub open spec fn fc3_s(direct: Seq<i64>, diffuse: Seq<i64>, sc: int, zr: int, cloud: int, l: int) -> int {
    qmul_s(qmul_s(qmul_s(diffuse[l] as int, scf_s(sc)), difdiv_s(direct, diffuse, zr, cloud)), wlc_s(l))
}

/// Spectrally integrated surface irradiance of the modeled spectrum over
/// the first `l` samples.
pub open spec fn ssum_s(direct: Seq<i64>, diffuse: Seq<i64>, sc: int, zr: int, cloud: int, l: int) -> int
    decreases l,
{
    if l <= 0 { 0 } else {
        qadd_s(qadd_s(ssum_s(direct, diffuse, sc, zr, cloud, l - 1),
            dc3_s(direct, diffuse, sc, zr, cloud, l - 1)),
            fc3_s(direct, diffuse, sc, zr, cloud, l - 1))
    }
}

/// Surface PAR at this hour from the observed daily PAR: the half-sine of
/// time scaled by the noon maximum.
pub open spec fn par_surface_s(iom: int, day_length: int, sunrise: int, time: int) -> int {
    qmul_s(iom, qsin_s(qdiv_s(qmul_s(13493037705, qsub_s(time, sunrise)), day_length)))
}

/// The calibration factor anchoring the modeled spectrum to the observed
/// daily PAR.
pub open spec fn adjust_s(direct: Seq<i64>, diffuse: Seq<i64>, sc: int, iom: int, day_length: int, sunrise: int, zr: int, time: int, cloud: int) -> int {
    qdiv_s(
        par_surface_s(iom, day_length, sunrise, time),
        qmul_s(ssum_s(direct, diffuse, sc, zr, cloud, WL_COUNT as int), DELTA_LAMBDA as int),
    )
}

/// Final corrected direct spectral irradiance, clamped at zero against
/// rounding in the calibration.
pub open spec fn dc_final_s(direct: Seq<i64>, diffuse: Seq<i64>, sc: int, iom: int, day_length: int, sunrise: int, zr: int, time: int, cloud: int, l: int) -> int {
    qmax0_s(qmul_s(
        qmul_s(dc3_s(direct, diffuse, sc, zr, cloud, l), qsub_s(Q as int, refl_s(zr))),
        adjust_s(direct, diffuse, sc, iom, day_length, sunrise, zr, time, cloud),
    ))
}

/// Final corrected diffuse spectral irradiance, clamped at zero against
/// rounding in the calibration.
pub open spec fn fc_final_s(direct: Seq<i64>, diffuse: Seq<i64>, sc: int, iom: int, day_length: int, sunrise: int, zr: int, time: int, cloud: int, l: int) -> int {
    qmax0_s(qmul_s(
        qmul_s(fc3_s(direct, diffuse, sc, zr, cloud, l), 4058744095),
        adjust_s(direct, diffuse, sc, iom, day_length, sunrise, zr, time, cloud),
    ))
}

/// Rescales the raw spectra by the seasonal solar correction, renormalizes
/// them under the cloud model, applies the surface reflection losses,
/// converts to quantum units, and anchors the spectrum to the observed
/// daily PAR (an explicit calibration step). The outputs are non-negative.
#[verifier::rlimit(60)]
pub fn correct_and_recompute_irradiance_components(
    direct: &Vec<i64>,
    diffuse: &Vec<i64>,
    solar_correction: i64,
    iom: i64,
    day_length: i64,
    sunrise: i64,
    zenith_r: i64,
    time: i64,
    cloud_cover: i64,
) -> (r: (Vec<i64>, Vec<i64>))
    requires
        direct@.len() == WL_COUNT,
        diffuse@.len() == WL_COUNT,
    ensures
        r.0@.len() == WL_COUNT,
        r.1@.len() == WL_COUNT,
        forall|l: int| 0 <= l < WL_COUNT ==> r.0@[l] == dc_final_s(
            direct@, diffuse@, solar_correction as int, iom as int, day_length as int,
            sunrise as int, zenith_r as int, time as int, cloud_cover as int, l),
        forall|l: int| 0 <= l < WL_COUNT ==> r.1@[l] == fc_final_s(
            direct@, diffuse@, solar_correction as int, iom as int, day_length as int,
            sunrise as int, zenith_r as int, time as int, cloud_cover as int, l),
        forall|l: int| 0 <= l < WL_COUNT ==> 0 <= #[trigger] r.0@[l],
        forall|l: int| 0 <= l < WL_COUNT ==> 0 <= #[trigger] r.1@[l],
{
    let ghost dv = direct@;
    let ghost fv = diffuse@;
    let ghost sci = solar_correction as int;
    let ghost zri = zenith_r as int;
    let ghost cli = cloud_cover as int;

    let scf = qdiv(solar_correction, 5811090751488);
    let czr = qcos(zenith_r);

    let mut di: i64 = 0;
    let mut fi: i64 = 0;
    let mut l: usize = 0;
    while l < WL_COUNT
        invariant
            0 <= l <= WL_COUNT,
            direct@.len() == WL_COUNT, diffuse@.len() == WL_COUNT,
            czr == qcos_s(zri), dv == direct@, fv == diffuse@, zri == zenith_r as int,
            di == disum_s(dv, zri, l as int),
            fi == fisum_s(fv, l as int),
        decreases WL_COUNT - l,
    {
        di = qadd(di, qmul(direct[l], czr));
        fi = qadd(fi, diffuse[l]);
        l = l + 1;
    }

    let albedo = qdiv(1202590843, qadd(4294967296, qmul(27616639713, czr)));
    let cc = qdiv(cloud_cover, 429496729600);
    let idir1 = qmul(di, qsub(4294967296, cc));
    let flux = qdiv(
        qmul(qmul(qsub(4294967296, qhalf(cc)), qsub(3521873183, qmul(albedo, qsub(4294967296, cc)))), czr),
        qmul(qsub(3521873183, albedo), czr),
    );
    let surface = qadd(di, fi);
    let idif1 = qsub(qmul(surface, flux), idir1);
    let dirdiv = qdiv(idir1, di);
    let difdiv = qdiv(idif1, fi);

    proof {
        assert(dirdiv == dirdiv_s(dv, zri, cli));
        assert(difdiv == difdiv_s(dv, fv, zri, cli));
    }

    let zw = qasin(qdiv(qsin(zenith_r), 5725191406));
    let srm = qsin(qsub(zenith_r, zw));
    let srp = qsin(qadd(zenith_r, zw));
    let trm = qtan(qsub(zenith_r, zw));
    let trp = qtan(qadd(zenith_r, zw));
    let refl = qadd(
        qhalf(qdiv(qmul(srm, srm), qmul(srp, srp))),
        qhalf(qdiv(qmul(trm, trm), qmul(trp, trp))),
    );
    proof { assert(refl == refl_s(zri)); }
    let one_less_refl = qsub(4294967296, refl);

    let mut dc4: Vec<i64> = Vec::new();
    let mut fc4: Vec<i64> = Vec::new();
    let mut ss: i64 = 0;
    let mut l: usize = 0;
    while l < WL_COUNT
        invariant
            0 <= l <= WL_COUNT,
            direct@.len() == WL_COUNT, diffuse@.len() == WL_COUNT,
            dv == direct@, fv == diffuse@, zri == zenith_r as int, sci == solar_correction as int,
            cli == cloud_cover as int,
            czr == qcos_s(zri),
            scf == scf_s(sci),
            dirdiv == dirdiv_s(dv, zri, cli),
            difdiv == difdiv_s(dv, fv, zri, cli),
            one_less_refl == qsub_s(Q as int, refl_s(zri)),
            dc4@.len() == l, fc4@.len() == l,
            ss == ssum_s(dv, fv, sci, zri, cli, l as int),
            forall|j: int| 0 <= j < l ==> dc4@[j] ==
                qmul_s(dc3_s(dv, fv, sci, zri, cli, j), qsub_s(Q as int, refl_s(zri))),
            forall|j: int| 0 <= j < l ==> fc4@[j] ==
                qmul_s(fc3_s(dv, fv, sci, zri, cli, j), 4058744095),
        decreases WL_COUNT - l,
    {
        let wlc = qdiv(qdiv(qmul(wl_nm(l), 154618822656), 513923503033), 42949672960000000);
        let dc3 = qmul(qmul(qmul(qmul(direct[l], scf), dirdiv), wlc), czr);
        let fc3 = qmul(qmul(qmul(diffuse[l], scf), difdiv), wlc);
        proof {
            assert(dc3 == dc3_s(dv, fv, sci, zri, cli, l as int));
            assert(fc3 == fc3_s(dv, fv, sci, zri, cli, l as int));
        }
        ss = qadd(qadd(ss, dc3), fc3);
        dc4.push(qmul(dc3, one_less_refl));
        fc4.push(qmul(fc3, 4058744095));
        l = l + 1;
    }

    let par_surf = qmul(iom, qsin(qdiv(qmul(13493037705, qsub(time, sunrise)), day_length)));
    let adj = qdiv(par_surf, qmul(ss, 21474836480));
    proof {
        assert(adj == adjust_s(dv, fv, sci, iom as int, day_length as int, sunrise as int, zri, time as int, cli));
    }

    let mut dc5: Vec<i64> = Vec::new();
    let mut fc5: Vec<i64> = Vec::new();
    let mut l: usize = 0;
    while l < WL_COUNT
        invariant
            0 <= l <= WL_COUNT,
            dv == direct@, fv == diffuse@, zri == zenith_r as int, sci == solar_correction as int,
            cli == cloud_cover as int,
            dc4@.len() == WL_COUNT, fc4@.len() == WL_COUNT,
            adj == adjust_s(dv, fv, sci, iom as int, day_length as int, sunrise as int, zri, time as int, cli),
            forall|j: int| 0 <= j < WL_COUNT ==> dc4@[j] ==
                qmul_s(dc3_s(dv, fv, sci, zri, cli, j), qsub_s(Q as int, refl_s(zri))),
            forall|j: int| 0 <= j < WL_COUNT ==> fc4@[j] ==
                qmul_s(fc3_s(dv, fv, sci, zri, cli, j), 4058744095),
            dc5@.len() == l, fc5@.len() == l,
            forall|j: int| 0 <= j < l ==> dc5@[j] == dc_final_s(
                dv, fv, sci, iom as int, day_length as int, sunrise as int, zri, time as int, cli, j),
            forall|j: int| 0 <= j < l ==> fc5@[j] == fc_final_s(
                dv, fv, sci, iom as int, day_length as int, sunrise as int, zri, time as int, cli, j),
            forall|j: int| 0 <= j < l ==> 0 <= #[trigger] dc5@[j],
            forall|j: int| 0 <= j < l ==> 0 <= #[trigger] fc5@[j],
        decreases WL_COUNT - l,
    {
        dc5.push(qmax0(qmul(dc4[l], adj)));
        fc5.push(qmax0(qmul(fc4[l], adj)));
        l = l + 1;
    }

    (dc5, fc5)
}

} // verus!
