//! Production profiles and euphotic depth.
//!
//! The saturating photosynthesis-versus-irradiance response turns the
//! light profiles into a production profile; the euphotic depth (the one
//! percent light level) is located by log-linear interpolation between the
//! bracketing depth samples and clamped at the bottom depth.

use vstd::prelude::*;
use crate::fixed::{
    Q, qneg_s, qadd_s, qsub_s, qmul_s, qdiv_s, qabs_s, qmax0_s,
    qneg, qadd, qsub, qmul, qdiv, qabs, qmax0,
};
use crate::elem::{
    qtrans_s, qexp_s, qpow_s, qln_s,
    qtrans, qexp, qpow, qln,
};
use crate::model::{
    ModelInputs, PPErrors, WL_COUNT, DEPTH_PROFILE_COUNT, DEPTH_PROFILE_STEP,
    wl_nm_s, wl_nm, inputs_valid_s,
};

verus! {

/// A per-timestep production profile with its euphotic diagnostics.
pub struct PpProfile {
    /// Production at each depth, mgC m^-3 h^-1.
    pub pp_profile: Vec<i64>,
    /// PAR at each depth (carried through).
    pub par_profile: Vec<i64>,
    /// Euphotic depth, metres.
    pub euphotic_depth: i64,
    /// Index of the depth sample just above the euphotic depth.
    pub euph_index: usize,
    /// Light-saturation diagnostic.
    pub spectral_i_star: i64,
    /// Whether a euphotic depth was found.
    pub success: bool,
}

/// A per-timestep secondary-population profile.
pub struct ProchloroProfile {
    /// Primary production at each depth.
    pub pp_profile: Vec<i64>,
    /// PAR at each depth (carried through).
    pub par_profile: Vec<i64>,
    /// First secondary response at each depth.
    pub pro_1_profile: Vec<i64>,
    /// Second secondary response at each depth.
    pub pro_2_profile: Vec<i64>,
    /// Sum of the two responses at each depth.
    pub pro_sum_profile: Vec<i64>,
    /// Secondary production at each depth.
    pub pp_prochloro_profile: Vec<i64>,
    /// Euphotic depth, metres.
    pub euphotic_depth: i64,
    /// Index of the depth sample just above the euphotic depth.
    pub euph_index: usize,
    /// Light-saturation diagnostic.
    pub spectral_i_star: i64,
}

/// Pure-seawater scattering at working-grid sample `i`.
pub open spec fn bw_s(i: int) -> int {
    qmul_s(12369506, qpow_s(qdiv_s(wl_nm_s(i), 2147483648000), -18468359373))
}

/// Builds the pure-seawater scattering spectrum (anchored at 500 nm).
pub fn calculate_bw() -> (r: Vec<i64>)
    ensures
        r@.len() == WL_COUNT,
        forall|i: int| 0 <= i < WL_COUNT ==> r@[i] == bw_s(i),
{
    let mut v: Vec<i64> = Vec::new();
    let mut i: usize = 0;
    while i < WL_COUNT
        invariant
            0 <= i <= WL_COUNT,
            v@.len() == i,
            forall|j: int| 0 <= j < i ==> v@[j] == bw_s(j),
        decreases WL_COUNT - i,
    {
        v.push(qmul(12369506, qpow(qdiv(wl_nm(i), 2147483648000), -18468359373)));
        i = i + 1;
    }
    v
}

/// Backscattering ratio at working-grid sample `i`.
pub open spec fn bbr_s(i: int) -> int {
    qmul_s(qmul_s(2147483648, 1159641), qpow_s(qdiv_s(wl_nm_s(i), 2095944040448), -22763326669))
}

/// Builds the backscattering-ratio spectrum (anchored at 488 nm).
pub fn calculate_bbr() -> (r: Vec<i64>)
    ensures
        r@.len() == WL_COUNT,
        forall|i: int| 0 <= i < WL_COUNT ==> r@[i] == bbr_s(i),
{
    let mut v: Vec<i64> = Vec::new();
    let mut i: usize = 0;
    while i < WL_COUNT
        invariant
            0 <= i <= WL_COUNT,
            v@.len() == i,
            forall|j: int| 0 <= j < i ==> v@[j] == bbr_s(j),
        decreases WL_COUNT - i,
    {
        v.push(qmul(qmul(2147483648, 1159641), qpow(qdiv(wl_nm(i), 2095944040448), -22763326669)));
        i = i + 1;
    }
    v
}

/// Yellow-substance absorption shape at working-grid sample `i`.
pub open spec fn ay_s(i: int) -> int {
    qexp_s(qneg_s(qmul_s(60129542, qsub_s(wl_nm_s(i), 1889785610240))))
}

/// Builds the yellow-substance absorption spectrum (normalized at 440 nm).
pub fn calculate_ay() -> (r: Vec<i64>)
    ensures
        r@.len() == WL_COUNT,
        forall|i: int| 0 <= i < WL_COUNT ==> r@[i] == ay_s(i),
{
    let mut v: Vec<i64> = Vec::new();
    let mut i: usize = 0;
    while i < WL_COUNT
        invariant
            0 <= i <= WL_COUNT,
            v@.len() == i,
            forall|j: int| 0 <= j < i ==> v@[j] == ay_s(j),
        decreases WL_COUNT - i,
    {
        v.push(qexp(qneg(qmul(60129542, qsub(wl_nm(i), 1889785610240)))));
        i = i + 1;
    }
    v
}

/// Saturating production at depth `z`: `chl * pmb * (1 - exp(-i_alpha / pmb))`.
pub open spec fn pp_at_s(chlp: Seq<i64>, iap: Seq<i64>, pmb: int, z: int) -> int {
    qmul_s(qmul_s(chlp[z] as int, pmb), qsub_s(Q as int, qtrans_s(qneg_s(qdiv_s(iap[z] as int, pmb)))))
}

/// Sum of the production-efficiency increments over the first `l` depths.
pub open spec fn iasum_s(iap: Seq<i64>, l: int) -> int
    decreases l,
{
    if l <= 0 { 0 } else { qadd_s(iasum_s(iap, l - 1), iap[l - 1] as int) }
}

/// First depth index at which PAR falls below one percent of its surface
/// value, scanning from `z`; the profile length where none does.
pub open spec fn euph_idx_s(par: Seq<i64>, z: int) -> int
    decreases DEPTH_PROFILE_COUNT - z,
{
    if z >= DEPTH_PROFILE_COUNT { DEPTH_PROFILE_COUNT as int }
    else if z > 0 && (par[z] as int) < qmul_s(42949673, par[0] as int) { z }
    else { euph_idx_s(par, z + 1) }
}

/// The scan for the one-percent level stays within the profile.
pub proof fn lemma_euph_idx_range(par: Seq<i64>, z: int)
    requires 0 <= z <= DEPTH_PROFILE_COUNT,
    ensures
        euph_idx_s(par, z) <= DEPTH_PROFILE_COUNT,
        euph_idx_s(par, z) >= z,
        euph_idx_s(par, z) >= 1,
    decreases DEPTH_PROFILE_COUNT - z,
{
    if z < DEPTH_PROFILE_COUNT {
        if !(z > 0 && (par[z] as int) < qmul_s(42949673, par[0] as int)) {
            lemma_euph_idx_range(par, z + 1);
        }
    }
}

/// Euphotic depth by log-linear interpolation between the samples
/// bracketing the one-percent level (`zi` is the first sample below it).
pub open spec fn euph_depth_raw_s(depth: Seq<i64>, par: Seq<i64>, zi: int) -> int {
    qadd_s(depth[zi - 1] as int, qdiv_s(
        qmul_s(DEPTH_PROFILE_STEP as int, qln_s(qdiv_s(qmul_s(429496729600, par[zi - 1] as int), par[0] as int))),
        qln_s(qdiv_s(par[zi - 1] as int, par[zi] as int)),
    ))
}

/// Locates the euphotic depth between samples `depth_index - 1` and
/// `depth_index`.
fn integrate_euphotic_depth(depth_index: usize, depth_profile: &Vec<i64>, par_profile: &Vec<i64>) -> (r: (usize, i64))
    requires
        1 <= depth_index < DEPTH_PROFILE_COUNT,
        depth_profile@.len() == DEPTH_PROFILE_COUNT,
        par_profile@.len() == DEPTH_PROFILE_COUNT,
    ensures
        r.0 == depth_index - 1,
        r.1 == euph_depth_raw_s(depth_profile@, par_profile@, depth_index as int),
{
    let e = depth_index - 1;
    let ed = qadd(depth_profile[e], qdiv(
        qmul(2147483648, qln(qdiv(qmul(429496729600, par_profile[e]), par_profile[0]))),
        qln(qdiv(par_profile[e], par_profile[depth_index])),
    ));
    (e, ed)
}

/// Converts the light profiles of one timestep into a production profile
/// and locates the euphotic depth. Returns the soft failure exactly when
/// PAR never falls below one percent of its surface value; where the
/// interpolated euphotic depth would pass the bottom depth it is clamped
/// there and the index forced to the last sample.
pub fn compute_pp_depth_profile(
    chl_profile: &Vec<i64>,
    depth_profile: &Vec<i64>,
    i_alpha_profile: &Vec<i64>,
    par_profile: &Vec<i64>,
    model_inputs: &ModelInputs,
) -> (r: Result<PpProfile, PPErrors>)
    requires
        inputs_valid_s(model_inputs),
        chl_profile@.len() == DEPTH_PROFILE_COUNT,
        depth_profile@.len() == DEPTH_PROFILE_COUNT,
        i_alpha_profile@.len() == DEPTH_PROFILE_COUNT,
        par_profile@.len() == DEPTH_PROFILE_COUNT,
    ensures
        r is Err <==> euph_idx_s(par_profile@, 0) == DEPTH_PROFILE_COUNT,
        r is Err ==> r == Result::<PpProfile, PPErrors>::Err(PPErrors::NoEuphoticDepthFound),
        r is Ok ==> ({
            let p = r->Ok_0;
            let zi = euph_idx_s(par_profile@, 0);
            let raw = euph_depth_raw_s(depth_profile@, par_profile@, zi);
            &&& p.pp_profile@.len() == DEPTH_PROFILE_COUNT
            &&& forall|z: int| 0 <= z <= zi ==> p.pp_profile@[z] ==
                pp_at_s(chl_profile@, i_alpha_profile@, model_inputs.pmb as int, z)
            &&& forall|z: int| zi < z < DEPTH_PROFILE_COUNT ==> p.pp_profile@[z] == 0
            &&& p.par_profile@ == par_profile@
            &&& p.spectral_i_star == qdiv_s(iasum_s(i_alpha_profile@, zi + 1), model_inputs.pmb as int)
            &&& p.success == true
            &&& (if qabs_s(raw) > qabs_s(model_inputs.z_bottom as int) {
                    p.euph_index == DEPTH_PROFILE_COUNT - 1
                    && p.euphotic_depth == qabs_s(model_inputs.z_bottom as int)
                } else {
                    p.euph_index == zi - 1 && p.euphotic_depth == raw
                })
        }),
{
    let mut pp: Vec<i64> = Vec::new();
    let mut ia_sum: i64 = 0;
    let thresh = qmul(42949673, par_profile[0]);
    let mut z: usize = 0;
    while z < DEPTH_PROFILE_COUNT
        invariant
            0 <= z <= DEPTH_PROFILE_COUNT,
            inputs_valid_s(model_inputs),
            chl_profile@.len() == DEPTH_PROFILE_COUNT,
            depth_profile@.len() == DEPTH_PROFILE_COUNT,
            i_alpha_profile@.len() == DEPTH_PROFILE_COUNT,
            par_profile@.len() == DEPTH_PROFILE_COUNT,
            thresh == qmul_s(42949673, par_profile@[0] as int),
            pp@.len() == z,
            ia_sum == iasum_s(i_alpha_profile@, z as int),
            euph_idx_s(par_profile@, 0) == euph_idx_s(par_profile@, z as int),
            forall|j: int| 0 <= j < z ==> pp@[j] ==
                pp_at_s(chl_profile@, i_alpha_profile@, model_inputs.pmb as int, j),
        decreases DEPTH_PROFILE_COUNT - z,
    {
        pp.push(qmul(qmul(chl_profile[z], model_inputs.pmb), qsub(4294967296, qtrans(qneg(qdiv(i_alpha_profile[z], model_inputs.pmb))))));
        ia_sum = qadd(ia_sum, i_alpha_profile[z]);

        if z > 0 && par_profile[z] < thresh {
            proof { assert(euph_idx_s(par_profile@, z as int) == z as int); }
            let (mut euph_index, mut euphotic_depth) = integrate_euphotic_depth(z, depth_profile, par_profile);
            if qabs(euphotic_depth) > qabs(model_inputs.z_bottom) {
                euph_index = DEPTH_PROFILE_COUNT - 1;
                euphotic_depth = qabs(model_inputs.z_bottom);
            }
            let spectral_i_star = qdiv(ia_sum, model_inputs.pmb);
            let mut zz: usize = z + 1;
            while zz < DEPTH_PROFILE_COUNT
                invariant
                    z as int + 1 <= zz <= DEPTH_PROFILE_COUNT,
                    pp@.len() == zz,
                    forall|j: int| 0 <= j <= z ==> pp@[j] ==
                        pp_at_s(chl_profile@, i_alpha_profile@, model_inputs.pmb as int, j),
                    forall|j: int| z < j < zz ==> pp@[j] == 0,
                    chl_profile@.len() == DEPTH_PROFILE_COUNT,
                    i_alpha_profile@.len() == DEPTH_PROFILE_COUNT,
                decreases DEPTH_PROFILE_COUNT - zz,
            {
                pp.push(0);
                zz = zz + 1;
            }
            return Ok(PpProfile {
                pp_profile: pp,
                par_profile: par_profile.clone(),
                euphotic_depth,
                euph_index,
                spectral_i_star,
                success: true,
            });
        }
        z = z + 1;
    }
    Err(PPErrors::NoEuphoticDepthFound)
}

/// Saturating production coefficient at depth `z`.
pub open spec fn pc_s(iap: Seq<i64>, pmb: int, z: int) -> int {
    qmul_s(pmb, qsub_s(Q as int, qtrans_s(qneg_s(qdiv_s(iap[z] as int, pmb)))))
}

/// Fraction of surface PAR remaining at depth `z`.
pub open spec fn pf_s(par: Seq<i64>, z: int) -> int {
    qdiv_s(par[z] as int, par[0] as int)
}

/// First secondary response: saturating in the normalized PAR, clamped at
/// zero.
pub open spec fn pro1_s(par: Seq<i64>, pro_surf: int, z: int) -> int {
    qmax0_s(qmul_s(pro_surf, qsub_s(Q as int,
        qexp_s(qdiv_s(qsub_s(qneg_s(pf_s(par, z)), 42949673), 107374182)))))
}

/// Second secondary response: saturating times attenuating in the
/// normalized PAR.
pub open spec fn pro2_s(par: Seq<i64>, pro_max: int, z: int) -> int {
    qmul_s(qmul_s(pro_max, qsub_s(Q as int, qexp_s(qdiv_s(qneg_s(pf_s(par, z)), 21474836)))),
        qexp_s(qdiv_s(qneg_s(pf_s(par, z)), 429496730)))
}

/// Secondary production at depth `z`.
pub open spec fn pppro_s(par: Seq<i64>, iap: Seq<i64>, pmb: int, pro_surf: int, pro_max: int, z: int) -> int {
    qdiv_s(qmul_s(pc_s(iap, pmb, z), qadd_s(pro1_s(par, pro_surf, z), pro2_s(par, pro_max, z))), 42949672960000000)
}

/// First depth index at which the PAR fraction falls to a tenth of a
/// percent, scanning from `z`; the profile length where none does.
pub open spec fn euph2_idx_s(par: Seq<i64>, z: int) -> int
    decreases DEPTH_PROFILE_COUNT - z,
{
    if z >= DEPTH_PROFILE_COUNT { DEPTH_PROFILE_COUNT as int }
    else if z > 0 && pf_s(par, z) <= 4294967 { z }
    else { euph2_idx_s(par, z + 1) }
}

/// Computes the secondary-population (picophytoplankton-like) profiles of
/// one timestep: two saturating/attenuating responses in the normalized
/// PAR, their sum, and the derived production, with the same euphotic
/// location and bottom clamp as the primary profile but at the
/// tenth-of-a-percent level.
pub fn compute_prochloro_profile(
    chl_profile: &Vec<i64>,
    depth_profile: &Vec<i64>,
    i_alpha_profile: &Vec<i64>,
    par_profile: &Vec<i64>,
    model_inputs: &ModelInputs,
    pro_surf: i64,
    pro_max: i64,
) -> (r: Result<ProchloroProfile, PPErrors>)
    requires
        inputs_valid_s(model_inputs),
        chl_profile@.len() == DEPTH_PROFILE_COUNT,
        depth_profile@.len() == DEPTH_PROFILE_COUNT,
        i_alpha_profile@.len() == DEPTH_PROFILE_COUNT,
        par_profile@.len() == DEPTH_PROFILE_COUNT,
    ensures
        r is Err <==> euph2_idx_s(par_profile@, 0) == DEPTH_PROFILE_COUNT,
        r is Err ==> r == Result::<ProchloroProfile, PPErrors>::Err(PPErrors::NoEuphoticDepthFound),
        r is Ok ==> ({
            let p = r->Ok_0;
            let zi = euph2_idx_s(par_profile@, 0);
            let raw = euph_depth_raw_s(depth_profile@, par_profile@, zi);
            let pmb = model_inputs.pmb as int;
            &&& p.pp_profile@.len() == DEPTH_PROFILE_COUNT
            &&& p.pro_1_profile@.len() == DEPTH_PROFILE_COUNT
            &&& p.pro_2_profile@.len() == DEPTH_PROFILE_COUNT
            &&& p.pro_sum_profile@.len() == DEPTH_PROFILE_COUNT
            &&& p.pp_prochloro_profile@.len() == DEPTH_PROFILE_COUNT
            &&& forall|z: int| 0 <= z <= zi ==> p.pp_profile@[z] ==
                qmul_s(chl_profile@[z] as int, pc_s(i_alpha_profile@, pmb, z))
            &&& forall|z: int| 0 <= z <= zi ==> p.pro_1_profile@[z] == pro1_s(par_profile@, pro_surf as int, z)
            &&& forall|z: int| 0 <= z <= zi ==> p.pro_2_profile@[z] == pro2_s(par_profile@, pro_max as int, z)
            &&& forall|z: int| 0 <= z <= zi ==> p.pro_sum_profile@[z] ==
                qadd_s(pro1_s(par_profile@, pro_surf as int, z), pro2_s(par_profile@, pro_max as int, z))
            &&& forall|z: int| 0 <= z <= zi ==> p.pp_prochloro_profile@[z] ==
                pppro_s(par_profile@, i_alpha_profile@, pmb, pro_surf as int, pro_max as int, z)
            &&& forall|z: int| zi < z < DEPTH_PROFILE_COUNT ==> p.pp_profile@[z] == 0
            &&& forall|z: int| zi < z < DEPTH_PROFILE_COUNT ==> p.pro_1_profile@[z] == 0
            &&& forall|z: int| zi < z < DEPTH_PROFILE_COUNT ==> p.pro_2_profile@[z] == 0
            &&& forall|z: int| zi < z < DEPTH_PROFILE_COUNT ==> p.pro_sum_profile@[z] == 0
            &&& forall|z: int| zi < z < DEPTH_PROFILE_COUNT ==> p.pp_prochloro_profile@[z] == 0
            &&& p.par_profile@ == par_profile@
            &&& p.spectral_i_star == qdiv_s(iasum_s(i_alpha_profile@, zi + 1), pmb)
            &&& (if qabs_s(raw) > qabs_s(model_inputs.z_bottom as int) {
                    p.euph_index == DEPTH_PROFILE_COUNT - 1
                    && p.euphotic_depth == qabs_s(model_inputs.z_bottom as int)
                } else {
                    p.euph_index == zi - 1 && p.euphotic_depth == raw
                })
        }),
{
    let mut pp: Vec<i64> = Vec::new();
    let mut p1: Vec<i64> = Vec::new();
    let mut p2: Vec<i64> = Vec::new();
    let mut ps: Vec<i64> = Vec::new();
    let mut pq: Vec<i64> = Vec::new();
    let mut ia_sum: i64 = 0;
    let mut z: usize = 0;
    while z < DEPTH_PROFILE_COUNT
        invariant
            0 <= z <= DEPTH_PROFILE_COUNT,
            inputs_valid_s(model_inputs),
            chl_profile@.len() == DEPTH_PROFILE_COUNT,
            depth_profile@.len() == DEPTH_PROFILE_COUNT,
            i_alpha_profile@.len() == DEPTH_PROFILE_COUNT,
            par_profile@.len() == DEPTH_PROFILE_COUNT,
            pp@.len() == z, p1@.len() == z, p2@.len() == z, ps@.len() == z, pq@.len() == z,
            ia_sum == iasum_s(i_alpha_profile@, z as int),
            euph2_idx_s(par_profile@, 0) == euph2_idx_s(par_profile@, z as int),
            forall|j: int| 0 <= j < z ==> pp@[j] ==
                qmul_s(chl_profile@[j] as int, pc_s(i_alpha_profile@, model_inputs.pmb as int, j)),
            forall|j: int| 0 <= j < z ==> p1@[j] == pro1_s(par_profile@, pro_surf as int, j),
            forall|j: int| 0 <= j < z ==> p2@[j] == pro2_s(par_profile@, pro_max as int, j),
            forall|j: int| 0 <= j < z ==> ps@[j] ==
                qadd_s(pro1_s(par_profile@, pro_surf as int, j), pro2_s(par_profile@, pro_max as int, j)),
            forall|j: int| 0 <= j < z ==> pq@[j] ==
                pppro_s(par_profile@, i_alpha_profile@, model_inputs.pmb as int, pro_surf as int, pro_max as int, j),
        decreases DEPTH_PROFILE_COUNT - z,
    {
        let pc = qmul(model_inputs.pmb, qsub(4294967296, qtrans(qneg(qdiv(i_alpha_profile[z], model_inputs.pmb)))));
        pp.push(qmul(chl_profile[z], pc));
        ia_sum = qadd(ia_sum, i_alpha_profile[z]);

        let pf = qdiv(par_profile[z], par_profile[0]);
        let v1 = qmax0(qmul(pro_surf, qsub(4294967296, qexp(qdiv(qsub(qneg(pf), 42949673), 107374182)))));
        let v2 = qmul(qmul(pro_max, qsub(4294967296, qexp(qdiv(qneg(pf), 21474836)))), qexp(qdiv(qneg(pf), 429496730)));
        p1.push(v1);
        p2.push(v2);
        ps.push(qadd(v1, v2));
        pq.push(qdiv(qmul(pc, qadd(v1, v2)), 42949672960000000));

        if z > 0 && pf <= 4294967 {
            proof { assert(euph2_idx_s(par_profile@, z as int) == z as int); }
            let (mut euph_index, mut euphotic_depth) = integrate_euphotic_depth(z, depth_profile, par_profile);
            if qabs(euphotic_depth) > qabs(model_inputs.z_bottom) {
                euph_index = DEPTH_PROFILE_COUNT - 1;
                euphotic_depth = qabs(model_inputs.z_bottom);
            }
            let spectral_i_star = qdiv(ia_sum, model_inputs.pmb);
            let mut zz: usize = z + 1;
            while zz < DEPTH_PROFILE_COUNT
                invariant
                    z as int + 1 <= zz <= DEPTH_PROFILE_COUNT,
                    pp@.len() == zz, p1@.len() == zz, p2@.len() == zz, ps@.len() == zz, pq@.len() == zz,
                    inputs_valid_s(model_inputs),
                    chl_profile@.len() == DEPTH_PROFILE_COUNT,
                    i_alpha_profile@.len() == DEPTH_PROFILE_COUNT,
                    par_profile@.len() == DEPTH_PROFILE_COUNT,
                    forall|j: int| 0 <= j <= z ==> pp@[j] ==
                        qmul_s(chl_profile@[j] as int, pc_s(i_alpha_profile@, model_inputs.pmb as int, j)),
                    forall|j: int| 0 <= j <= z ==> p1@[j] == pro1_s(par_profile@, pro_surf as int, j),
                    forall|j: int| 0 <= j <= z ==> p2@[j] == pro2_s(par_profile@, pro_max as int, j),
                    forall|j: int| 0 <= j <= z ==> ps@[j] ==
                        qadd_s(pro1_s(par_profile@, pro_surf as int, j), pro2_s(par_profile@, pro_max as int, j)),
                    forall|j: int| 0 <= j <= z ==> pq@[j] ==
                        pppro_s(par_profile@, i_alpha_profile@, model_inputs.pmb as int, pro_surf as int, pro_max as int, j),
                    forall|j: int| z < j < zz ==> pp@[j] == 0,
                    forall|j: int| z < j < zz ==> p1@[j] == 0,
                    forall|j: int| z < j < zz ==> p2@[j] == 0,
                    forall|j: int| z < j < zz ==> ps@[j] == 0,
                    forall|j: int| z < j < zz ==> pq@[j] == 0,
                decreases DEPTH_PROFILE_COUNT - zz,
            {
                pp.push(0);
                p1.push(0);
                p2.push(0);
                ps.push(0);
                pq.push(0);
                zz = zz + 1;
            }
            return Ok(ProchloroProfile {
                pp_profile: pp,
                par_profile: par_profile.clone(),
                pro_1_profile: p1,
                pro_2_profile: p2,
                pro_sum_profile: ps,
                pp_prochloro_profile: pq,
                euphotic_depth,
                euph_index,
                spectral_i_star,
            });
        }
        z = z + 1;
    }
    Err(PPErrors::NoEuphoticDepthFound)
}

} // verus!
