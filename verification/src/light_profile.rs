//! Underwater light attenuation.
//!
//! From the corrected surface spectrum and the chlorophyll profile, the
//! light is attenuated exponentially depth step by depth step
//! (Beer-Lambert), accumulating PAR and the light-weighted
//! production-efficiency integral at every depth. The attenuation factor
//! of one step is a capped exponential, so it always lies in [0, 1]: light
//! can only decrease with depth.

use vstd::prelude::*;
use crate::fixed::{
    Q, qneg_s, qadd_s, qsub_s, qmul_s, qdiv_s, qclamp_s, qmax0_s,
    qneg, qadd, qsub, qmul, qdiv, qclamp, qmax0,
    lemma_qmul_le_unit,
};
use crate::elem::{
    qtrans_s, qpow_s, qln_s, qsin_s, qasin_s, qcos_s,
    qtrans, qpow, qln, qsin, qasin, qcos,
};

use crate::model::{ModelInputs, WL_COUNT, DELTA_LAMBDA, DEPTH_PROFILE_COUNT, DEPTH_PROFILE_STEP, wl_nm_s, wl_nm, inputs_valid_s};

verus! {

/// Per-timestep light profiles: PAR and the production-efficiency
/// integral at each depth.
pub struct LightProfile {
    /// PAR entering each depth step, einstein m^-2 h^-1.
    pub par_profile: Vec<i64>,
    /// Light-weighted production-efficiency increment at each depth.
    pub i_alpha_profile: Vec<i64>,
}

/// Chlorophyll-specific absorption at working-grid sample `w`:
/// `A(w) * chl^(1 - B(w))`, the saturating empirical form.
pub open spec fn ac_s(inp: &ModelInputs, chl: int, w: int) -> int {
    qmul_s(inp.ac_a@[w] as int, qpow_s(chl, qsub_s(Q as int, inp.ac_b@[w] as int)))
}

/// The absorption spectrum as a sequence.
pub open spec fn acseq_s(inp: &ModelInputs, chl: int) -> Seq<i64> {
    Seq::new(WL_COUNT as nat, |w: int| ac_s(inp, chl, w) as i64)
}

/// Sum of the absorption spectrum over the first `l` samples.
pub open spec fn acsum_s(inp: &ModelInputs, chl: int, l: int) -> int
    decreases l,
{
    if l <= 0 { 0 } else { qadd_s(acsum_s(inp, chl, l - 1), ac_s(inp, chl, l - 1)) }
}

/// Mean spectral absorption: the spectrum's arithmetic mean over the grid.
pub open spec fn acmean_s(inp: &ModelInputs, chl: int) -> int {
    qdiv_s(acsum_s(inp, chl, WL_COUNT as int), 262010913685504)
}

/// Computes the chlorophyll-specific absorption spectrum and its spectral
/// mean for one chlorophyll concentration. At zero chlorophyll both are
/// zero, which signals the end of the resolvable profile.
pub fn calc_ac(inp: &ModelInputs, chl: i64) -> (r: (Vec<i64>, i64))
    requires inputs_valid_s(inp),
    ensures
        r.0@ == acseq_s(inp, chl as int),
        r.0@.len() == WL_COUNT,
        r.1 == acmean_s(inp, chl as int),
{
    let mut ac: Vec<i64> = Vec::new();
    let mut acc: i64 = 0;
    let mut w: usize = 0;
    while w < WL_COUNT
        invariant
            0 <= w <= WL_COUNT,
            inputs_valid_s(inp),
            ac@.len() == w,
            forall|j: int| 0 <= j < w ==> ac@[j] == ac_s(inp, chl as int, j),
            acc == acsum_s(inp, chl as int, w as int),
        decreases WL_COUNT - w,
    {
        let v = qmul(inp.ac_a[w], qpow(chl, qsub(4294967296, inp.ac_b[w])));
        acc = qadd(acc, v);
        ac.push(v);
        w = w + 1;
    }
    let mean = qdiv(acc, 262010913685504);
    proof {
        assert(ac@ =~= acseq_s(inp, chl as int));
    }
    (ac, mean)
}

/// Bracketing index on the working wavelength grid.
pub open spec fn br61_s(x: int, i: int) -> int
    decreases 61 - i,
{
    if i >= 60 { 60 } else if x < wl_nm_s(i) { i } else { br61_s(x, i + 1) }
}

proof fn lemma_br61_range(x: int, i: int)
    requires 1 <= i <= 60,
    ensures i <= br61_s(x, i) <= 60,
    decreases 61 - i,
{
    if i < 60 && !(x < wl_nm_s(i)) { lemma_br61_range(x, i + 1); }
}

/// Value of a working-grid spectrum linearly interpolated at wavelength `x`.
pub open spec fn wl_interp_s(vals: Seq<i64>, x: int) -> int {
    let j = br61_s(x, 1);
    qadd_s(vals[j - 1] as int, qmul_s(qsub_s(vals[j] as int, vals[j - 1] as int),
        qdiv_s(qsub_s(x, wl_nm_s(j - 1)), qsub_s(wl_nm_s(j), wl_nm_s(j - 1)))))
}

/// Linear interpolation of a working-grid spectrum at a wavelength.
fn wl_interp(vals: &Vec<i64>, x: i64) -> (r: i64)
    requires vals@.len() == WL_COUNT,
    ensures r == wl_interp_s(vals@, x as int),
{
    let mut j: usize = 1;
    while j < 60 && x >= wl_nm(j)
        invariant
            1 <= j <= 60,
            br61_s(x as int, 1) == br61_s(x as int, j as int),
        decreases 60 - j,
    {
        j = j + 1;
    }
    proof {
        assert(j as int == br61_s(x as int, 1));
    }
    let y0 = vals[j - 1];
    let y1 = vals[j];
    qadd(y0, qmul(qsub(y1, y0), qdiv(qsub(x, wl_nm(j - 1)), qsub(wl_nm(j), wl_nm(j - 1)))))
}

/// Cosine-weighted mean downwelling factor at one wavelength; one where no
/// light enters.
pub open spec fn mu_d_s(d: int, f: int, zr: int) -> int {
    let iz0 = qadd_s(d, f);
    if iz0 == 0 { Q as int } else {
        qdiv_s(qadd_s(qmul_s(d, qcos_s(qasin_s(qdiv_s(qsin_s(zr), 5725191406)))), qmul_s(f, 3569117823)), iz0)
    }
}

/// Initializes the downwelling factor and the surface spectral irradiance
/// from the direct and diffuse components.
pub fn init_mu_d_and_i_z(direct: &Vec<i64>, diffuse: &Vec<i64>, zenith_r: i64) -> (r: (Vec<i64>, Vec<i64>))
    requires
        direct@.len() == WL_COUNT,
        diffuse@.len() == WL_COUNT,
    ensures
        r.0@.len() == WL_COUNT,
        r.1@.len() == WL_COUNT,
        forall|l: int| 0 <= l < WL_COUNT ==> r.0@[l] ==
            mu_d_s(direct@[l] as int, diffuse@[l] as int, zenith_r as int),
        forall|l: int| 0 <= l < WL_COUNT ==> r.1@[l] ==
            qadd_s(direct@[l] as int, diffuse@[l] as int),
        (forall|l: int| 0 <= l < WL_COUNT ==> 0 <= #[trigger] direct@[l] && 0 <= #[trigger] diffuse@[l])
            ==> (forall|l: int| 0 <= l < WL_COUNT ==> 0 <= #[trigger] r.1@[l]),
{
    let zw_cos = qcos(qasin(qdiv(qsin(zenith_r), 5725191406)));
    let mut mu_d: Vec<i64> = Vec::new();
    let mut i_z: Vec<i64> = Vec::new();
    let mut l: usize = 0;
    while l < WL_COUNT
        invariant
            0 <= l <= WL_COUNT,
            direct@.len() == WL_COUNT, diffuse@.len() == WL_COUNT,
            zw_cos == qcos_s(qasin_s(qdiv_s(qsin_s(zenith_r as int), 5725191406))),
            mu_d@.len() == l, i_z@.len() == l,
            forall|j: int| 0 <= j < l ==> mu_d@[j] ==
                mu_d_s(direct@[j] as int, diffuse@[j] as int, zenith_r as int),
            forall|j: int| 0 <= j < l ==> i_z@[j] ==
                qadd_s(direct@[j] as int, diffuse@[j] as int),
        decreases WL_COUNT - l,
    {
        let iz0 = qadd(direct[l], diffuse[l]);
        if iz0 == 0 {
            mu_d.push(4294967296);
        } else {
            mu_d.push(qdiv(qadd(qmul(direct[l], zw_cos), qmul(diffuse[l], 3569117823)), iz0));
        }
        i_z.push(iz0);
        l = l + 1;
    }
    (mu_d, i_z)
}

/// Base-ten logarithm exponent of the backscattering model.
pub open spec fn power_s(chl: int) -> int {
    qneg_s(qdiv_s(qln_s(chl), 9889527671))
}

/// Particle scattering magnitude at 660 nm.
pub open spec fn bc660_s(chl: int) -> int {
    qmul_s(1748051689, qpow_s(chl, 3414499000))
}

/// Backscattering ratio of particles, clamped into its empirical range.
pub open spec fn bbtilda_s(chl: int) -> int {
    qclamp_s(qmul_s(qadd_s(3350074491, qmul_s(1803886264, power_s(chl))), 42949673), 2147484, 42949673)
}

/// Yellow-substance absorption magnitude, anchored at the 440 nm
/// chlorophyll absorption.
pub open spec fn ay440_s(inp: &ModelInputs, ac: Seq<i64>) -> int {
    qmul_s(inp.yel_sub as int, wl_interp_s(ac, 1889785610240))
}

/// Vertical attenuation coefficient at one wavelength: total absorption
/// plus backscattering over the downwelling factor.
pub open spec fn kcoef_s(inp: &ModelInputs, ac: Seq<i64>, chl: int, mu_l: int, l: int) -> int {
    let a = qadd_s(qadd_s(qadd_s(inp.aw@[l] as int, ac[l] as int), qmul_s(ay440_s(inp, ac), inp.ay@[l] as int)), qmul_s(8589934592, inp.bbr@[l] as int));
    let bc = qmax0_s(qmul_s(bc660_s(chl), qpow_s(qdiv_s(2834678415360, wl_nm_s(l)), power_s(chl))));
    let bb = qadd_s(qmul_s(bc, bbtilda_s(chl)), qmul_s(inp.bw@[l] as int, 2147483648));
    qdiv_s(qadd_s(a, bb), mu_l)
}

/// One-step attenuation factor at one wavelength: a capped exponential,
/// always in [0, 1].
pub open spec fn dfac_s(inp: &ModelInputs, ac: Seq<i64>, chl: int, mu_l: int, l: int) -> int {
    qtrans_s(qneg_s(qmul_s(kcoef_s(inp, ac, chl, mu_l, l), DEPTH_PROFILE_STEP as int)))
}

/// Spectral production-efficiency weight at one wavelength.
pub open spec fn xcoef_s(inp: &ModelInputs, ac: Seq<i64>, chl: int, ac_mean: int, l: int) -> int {
    qdiv_s(qmul_s(qmul_s(inp.alpha_b as int, ac[l] as int), 25864293056512), qmul_s(428294138757, ac_mean))
}

/// PAR carried by the first `l` samples of a spectrum.
pub open spec fn parsum_s(iz: Seq<i64>, l: int) -> int
    decreases l,
{
    if l <= 0 { 0 } else { qadd_s(parsum_s(iz, l - 1), qmul_s(iz[l - 1] as int, DELTA_LAMBDA as int)) }
}

/// Production-efficiency integral over the first `l` samples.
pub open spec fn ialphasum_s(inp: &ModelInputs, ac: Seq<i64>, chl: int, ac_mean: int, iz: Seq<i64>, mu: Seq<i64>, l: int) -> int
    decreases l,
{
    if l <= 0 { 0 } else {
        qadd_s(ialphasum_s(inp, ac, chl, ac_mean, iz, mu, l - 1),
            qdiv_s(qmul_s(qmul_s(xcoef_s(inp, ac, chl, ac_mean, l - 1), DELTA_LAMBDA as int), iz[l - 1] as int), mu[l - 1] as int))
    }
}

/// Attenuates the spectrum over one depth step and accumulates this
/// depth's PAR and production-efficiency increment. Each attenuated value
/// stays within [0, old value] wherever the old value is non-negative.
pub fn calc_i_z_decay(
    inp: &ModelInputs,
    ac: &Vec<i64>,
    mu_d: &Vec<i64>,
    i_z: &Vec<i64>,
    chl: i64,
    ac_mean: i64,
) -> (r: (i64, Vec<i64>, i64))
    requires
        inputs_valid_s(inp),
        ac@.len() == WL_COUNT,
        mu_d@.len() == WL_COUNT,
        i_z@.len() == WL_COUNT,
    ensures
        r.0 == ialphasum_s(inp, ac@, chl as int, ac_mean as int, i_z@, mu_d@, WL_COUNT as int),
        r.1@.len() == WL_COUNT,
        forall|l: int| 0 <= l < WL_COUNT ==> r.1@[l] ==
            qmul_s(i_z@[l] as int, dfac_s(inp, ac@, chl as int, mu_d@[l] as int, l)),
        r.2 == parsum_s(i_z@, WL_COUNT as int),
        forall|l: int| 0 <= l < WL_COUNT && 0 <= i_z@[l] ==> 0 <= #[trigger] r.1@[l] <= i_z@[l],
{
    let ac440 = wl_interp(ac, 1889785610240);
    let ay440 = qmul(inp.yel_sub, ac440);
    let power = qneg(qdiv(qln(chl), 9889527671));
    let bc660 = qmul(1748051689, qpow(chl, 3414499000));
    let bbtilda = qclamp(qmul(qadd(3350074491, qmul(1803886264, power)), 42949673), 2147484, 42949673);

    let mut par: i64 = 0;
    let mut l: usize = 0;
    while l < WL_COUNT
        invariant
            0 <= l <= WL_COUNT,
            i_z@.len() == WL_COUNT,
            par == parsum_s(i_z@, l as int),
        decreases WL_COUNT - l,
    {
        par = qadd(par, qmul(i_z[l], 21474836480));
        l = l + 1;
    }

    let mut i_alpha: i64 = 0;
    let mut new_iz: Vec<i64> = Vec::new();
    let mut l: usize = 0;
    while l < WL_COUNT
        invariant
            0 <= l <= WL_COUNT,
            inputs_valid_s(inp),
            ac@.len() == WL_COUNT, mu_d@.len() == WL_COUNT, i_z@.len() == WL_COUNT,
            ay440 == ay440_s(inp, ac@),
            power == power_s(chl as int),
            bc660 == bc660_s(chl as int),
            bbtilda == bbtilda_s(chl as int),
            new_iz@.len() == l,
            i_alpha == ialphasum_s(inp, ac@, chl as int, ac_mean as int, i_z@, mu_d@, l as int),
            forall|j: int| 0 <= j < l ==> new_iz@[j] ==
                qmul_s(i_z@[j] as int, dfac_s(inp, ac@, chl as int, mu_d@[j] as int, j)),
            forall|j: int| 0 <= j < l && 0 <= i_z@[j] ==> 0 <= #[trigger] new_iz@[j] <= i_z@[j],
        decreases WL_COUNT - l,
    {
        let wl = wl_nm(l);
        let a = qadd(qadd(qadd(inp.aw[l], ac[l]), qmul(ay440, inp.ay[l])), qmul(8589934592, inp.bbr[l]));
        let bc = qmax0(qmul(bc660, qpow(qdiv(2834678415360, wl), power)));
        let bb = qadd(qmul(bc, bbtilda), qmul(inp.bw[l], 2147483648));
        let k = qdiv(qadd(a, bb), mu_d[l]);
        proof {
            assert(k == kcoef_s(inp, ac@, chl as int, mu_d@[l as int] as int, l as int));
        }
        let x = qdiv(qmul(qmul(inp.alpha_b, ac[l]), 25864293056512), qmul(428294138757, ac_mean));
        i_alpha = qadd(i_alpha, qdiv(qmul(qmul(x, 21474836480), i_z[l]), mu_d[l]));
        let f = qtrans(qneg(qmul(k, 2147483648)));
        let nz = qmul(i_z[l], f);
        proof {
            if 0 <= i_z@[l as int] {
                lemma_qmul_le_unit(i_z@[l as int] as int, f as int);
            }
        }
        new_iz.push(nz);
        l = l + 1;
    }
    (i_alpha, new_iz, par)
}

proof fn lemma_parsum_nonneg(iz: Seq<i64>, l: int)
    requires forall|j: int| 0 <= j < l ==> 0 <= #[trigger] iz[j],
    ensures 0 <= parsum_s(iz, l),
    decreases l,
{
    if l > 0 {
        lemma_parsum_nonneg(iz, l - 1);
        crate::fixed::lemma_qmul_nonneg(iz[l - 1] as int, DELTA_LAMBDA as int);
    }
}

proof fn lemma_parsum_mono(hi: Seq<i64>, lo: Seq<i64>, l: int)
    requires forall|j: int| 0 <= j < l ==> (0 <= #[trigger] lo[j] && lo[j] <= hi[j]),
    ensures parsum_s(lo, l) <= parsum_s(hi, l),
    decreases l,
{
    if l > 0 {
        lemma_parsum_mono(hi, lo, l - 1);
        crate::fixed::lemma_qmul_mono(lo[l - 1] as int, hi[l - 1] as int, DELTA_LAMBDA as int);
    }
}

/// The downwelling factors of a surface spectrum, as a sequence.
pub open spec fn mudseq_s(direct: Seq<i64>, diffuse: Seq<i64>, zr: int) -> Seq<i64> {
    Seq::new(WL_COUNT as nat, |l: int| mu_d_s(direct[l] as int, diffuse[l] as int, zr) as i64)
}

/// Whether every depth before `z` had resolvable chlorophyll (nonzero mean
/// spectral absorption); attenuation stops at the first depth without it.
pub open spec fn alive_s(inp: &ModelInputs, chlp: Seq<i64>, z: int) -> bool {
    forall|j: int| 0 <= j < z ==> acmean_s(inp, #[trigger] chlp[j] as int) != 0
}

/// The spectral irradiance entering depth step `z`: the surface spectrum
/// attenuated through the chlorophyll of the steps above, frozen from the
/// first unresolvable step on.
pub open spec fn izs_s(inp: &ModelInputs, chlp: Seq<i64>, direct: Seq<i64>, diffuse: Seq<i64>, zr: int, z: int) -> Seq<i64>
    decreases z,
{
    if z <= 0 {
        Seq::new(WL_COUNT as nat, |l: int| qadd_s(direct[l] as int, diffuse[l] as int) as i64)
    } else if alive_s(inp, chlp, z) {
        let prev = izs_s(inp, chlp, direct, diffuse, zr, z - 1);
        let chl = chlp[z - 1] as int;
        Seq::new(WL_COUNT as nat, |l: int| qmul_s(prev[l] as int,
            dfac_s(inp, acseq_s(inp, chl), chl, mu_d_s(direct[l] as int, diffuse[l] as int, zr), l)) as i64)
    } else {
        izs_s(inp, chlp, direct, diffuse, zr, z - 1)
    }
}

/// PAR entering depth step `z`; zero from the first unresolvable step on.
pub open spec fn par_at_s(inp: &ModelInputs, chlp: Seq<i64>, direct: Seq<i64>, diffuse: Seq<i64>, zr: int, z: int) -> int {
    if alive_s(inp, chlp, z + 1) {
        parsum_s(izs_s(inp, chlp, direct, diffuse, zr, z), WL_COUNT as int)
    } else {
        0
    }
}

/// Production-efficiency increment at depth step `z`; zero from the first
/// unresolvable step on.
pub open spec fn ialpha_at_s(inp: &ModelInputs, chlp: Seq<i64>, direct: Seq<i64>, diffuse: Seq<i64>, zr: int, z: int) -> int {
    if alive_s(inp, chlp, z + 1) {
        let chl = chlp[z] as int;
        ialphasum_s(inp, acseq_s(inp, chl), chl, acmean_s(inp, chl),
            izs_s(inp, chlp, direct, diffuse, zr, z), mudseq_s(direct, diffuse, zr), WL_COUNT as int)
    } else {
        0
    }
}

/// Drives the one-step attenuation across all depths, producing the
/// production-efficiency and PAR profiles. PAR never increases with depth
/// (light only attenuates), and is non-negative everywhere.
pub fn calc_light_decay_profile(
    chl_profile: &Vec<i64>,
    direct: &Vec<i64>,
    diffuse: &Vec<i64>,
    zenith_r: i64,
    inp: &ModelInputs,
) -> (r: (Vec<i64>, Vec<i64>))
    requires
        inputs_valid_s(inp),
        chl_profile@.len() == DEPTH_PROFILE_COUNT,
        direct@.len() == WL_COUNT,
        diffuse@.len() == WL_COUNT,
        forall|l: int| 0 <= l < WL_COUNT ==> 0 <= #[trigger] direct@[l],
        forall|l: int| 0 <= l < WL_COUNT ==> 0 <= #[trigger] diffuse@[l],
    ensures
        r.0@.len() == DEPTH_PROFILE_COUNT,
        r.1@.len() == DEPTH_PROFILE_COUNT,
        forall|z: int| 0 <= z < DEPTH_PROFILE_COUNT ==> r.0@[z] ==
            ialpha_at_s(inp, chl_profile@, direct@, diffuse@, zenith_r as int, z),
        forall|z: int| 0 <= z < DEPTH_PROFILE_COUNT ==> r.1@[z] ==
            par_at_s(inp, chl_profile@, direct@, diffuse@, zenith_r as int, z),
        forall|z: int| 0 <= z < DEPTH_PROFILE_COUNT ==> 0 <= #[trigger] r.1@[z],
        forall|z1: int, z2: int| 0 <= z1 <= z2 < DEPTH_PROFILE_COUNT ==> r.1@[z2] <= r.1@[z1],
{
    let ghost chlp = chl_profile@;
    let ghost dv = direct@;
    let ghost fv = diffuse@;
    let ghost zri = zenith_r as int;

    let (mu_d, mut i_z) = init_mu_d_and_i_z(direct, diffuse, zenith_r);
    proof {
        assert(mu_d@ =~= mudseq_s(dv, fv, zri));
        assert(i_z@ =~= izs_s(inp, chlp, dv, fv, zri, 0));
    }

    let mut ia: Vec<i64> = Vec::new();
    let mut par: Vec<i64> = Vec::new();
    let mut done: bool = false;
    let mut z: usize = 0;
    while z < DEPTH_PROFILE_COUNT
        invariant
            0 <= z <= DEPTH_PROFILE_COUNT,
            inputs_valid_s(inp),
            chlp == chl_profile@, dv == direct@, fv == diffuse@, zri == zenith_r as int,
            chl_profile@.len() == DEPTH_PROFILE_COUNT,
            direct@.len() == WL_COUNT, diffuse@.len() == WL_COUNT,
            forall|l: int| 0 <= l < WL_COUNT ==> 0 <= #[trigger] direct@[l],
            forall|l: int| 0 <= l < WL_COUNT ==> 0 <= #[trigger] diffuse@[l],
            mu_d@ == mudseq_s(dv, fv, zri),
            mu_d@.len() == WL_COUNT,
            i_z@.len() == WL_COUNT,
            i_z@ == izs_s(inp, chlp, dv, fv, zri, z as int),
            forall|l: int| 0 <= l < WL_COUNT ==> 0 <= #[trigger] i_z@[l],
            ia@.len() == z, par@.len() == z,
            !done ==> alive_s(inp, chlp, z as int),
            done ==> exists|j: int| 0 <= j < z && acmean_s(inp, #[trigger] chlp[j] as int) == 0,
            forall|j: int| 0 <= j < z ==> ia@[j] == ialpha_at_s(inp, chlp, dv, fv, zri, j),
            forall|j: int| 0 <= j < z ==> par@[j] == par_at_s(inp, chlp, dv, fv, zri, j),
            forall|j: int| 0 <= j < z ==> 0 <= #[trigger] par@[j],
            forall|j1: int, j2: int| 0 <= j1 <= j2 < z ==> par@[j2] <= par@[j1],
            !done ==> forall|j: int| 0 <= j < z ==>
                parsum_s(i_z@, WL_COUNT as int) <= #[trigger] par@[j],
        decreases DEPTH_PROFILE_COUNT - z,
    {
        if done {
            proof { assert(!alive_s(inp, chlp, z as int + 1)); }
            ia.push(0);
            par.push(0);
        } else {
            let chl = chl_profile[z];
            let (ac, mean) = calc_ac(inp, chl);
            if mean == 0 {
                done = true;
                proof { assert(!alive_s(inp, chlp, z as int + 1)); }
                ia.push(0);
                par.push(0);
            } else {
                proof {
                    assert(alive_s(inp, chlp, z as int + 1)) by {
                        assert(forall|j: int| 0 <= j < z as int + 1 ==>
                            acmean_s(inp, #[trigger] chlp[j] as int) != 0);
                    }
                }
                let (ia_z, iz2, par_z) = calc_i_z_decay(inp, &ac, &mu_d, &i_z, chl, mean);
                proof {
                    lemma_parsum_nonneg(i_z@, WL_COUNT as int);
                    assert(iz2@ =~= izs_s(inp, chlp, dv, fv, zri, z as int + 1));
                    lemma_parsum_mono(i_z@, iz2@, WL_COUNT as int);
                    assert(ia_z == ialpha_at_s(inp, chlp, dv, fv, zri, z as int));
                    assert(par_z == par_at_s(inp, chlp, dv, fv, zri, z as int));
                }
                ia.push(ia_z);
                par.push(par_z);
                i_z = iz2;
            }
        }
        z = z + 1;
    }
    (ia, par)
}

/// Expands one spectrum's PAR into a constant profile over all depths.
pub fn calc_par_profile(i_z: &Vec<i64>) -> (r: Vec<i64>)
    requires i_z@.len() == WL_COUNT,
    ensures
        r@.len() == DEPTH_PROFILE_COUNT,
        forall|z: int| 0 <= z < DEPTH_PROFILE_COUNT ==> r@[z] == parsum_s(i_z@, WL_COUNT as int),
{
    let mut par: Vec<i64> = Vec::new();
    let mut acc: i64 = 0;
    let mut l: usize = 0;
    while l < WL_COUNT
        invariant
            0 <= l <= WL_COUNT,
            i_z@.len() == WL_COUNT,
            acc == parsum_s(i_z@, l as int),
        decreases WL_COUNT - l,
    {
        acc = qadd(acc, qmul(i_z[l], 21474836480));
        l = l + 1;
    }
    let mut z: usize = 0;
    while z < DEPTH_PROFILE_COUNT
        invariant
            0 <= z <= DEPTH_PROFILE_COUNT,
            par@.len() == z,
            acc == parsum_s(i_z@, WL_COUNT as int),
            forall|j: int| 0 <= j < z ==> par@[j] == parsum_s(i_z@, WL_COUNT as int),
        decreases DEPTH_PROFILE_COUNT - z,
    {
        par.push(acc);
        z = z + 1;
    }
    par
}

} // verus!
