//! Vertical chlorophyll profile.
//!
//! The profile is a shifted Gaussian: a background fraction of the peak
//! plus a deep maximum of width `sigma` at depth `z_m`, scaled so that the
//! surface value equals the given surface chlorophyll; or, in the
//! mixed-layer-only mode, uniform surface chlorophyll down to the mixed
//! layer. The profile is never evaluated beyond the bottom depth and is
//! non-negative everywhere.

use vstd::prelude::*;
use crate::fixed::{
    Q, qneg_s, qadd_s, qsub_s, qmul_s, qdiv_s,
    qneg, qadd, qsub, qmul, qdiv,
    lemma_qmul_nonneg, lemma_qdiv_nonneg,
};
use crate::elem::{qtrans_s, qtrans};
use crate::model::{
    ModelInputs, ModelSettings, DEPTH_PROFILE_COUNT, DEPTH_PROFILE_STEP, inputs_valid_s,
};

verus! {

/// The Gaussian shape factor at depth `z`, in [0, 1].
pub open spec fn gauss_s(z_m: int, sigma: int, z: int) -> int {
    qtrans_s(qneg_s(qdiv_s(
        qmul_s(qsub_s(z, z_m), qsub_s(z, z_m)),
        qmul_s(qmul_s(8589934592, sigma), sigma),
    )))
}

/// The peak value of the shifted Gaussian, fixed by the surface value:
/// `chl = rho * peak + (1 - rho) * peak * gauss(0)`.
pub open spec fn peak_s(inp: &ModelInputs) -> int {
    qdiv_s(inp.chl as int, qadd_s(inp.rho as int,
        qmul_s(qsub_s(Q as int, inp.rho as int), gauss_s(inp.z_m as int, inp.sigma as int, 0))))
}

/// Chlorophyll concentration at depth `z`: zero beyond the bottom depth;
/// uniform over the mixed layer in the mixed-layer-only mode; otherwise
/// the background plus the deep-maximum Gaussian.
pub open spec fn chl_at_s(inp: &ModelInputs, mld_only: bool, z: int) -> int {
    if z > inp.z_bottom { 0 }
    else if mld_only {
        if z <= inp.mld { inp.chl as int } else { 0 }
    } else {
        qadd_s(qmul_s(inp.rho as int, peak_s(inp)),
            qmul_s(qmul_s(qsub_s(Q as int, inp.rho as int), peak_s(inp)),
                gauss_s(inp.z_m as int, inp.sigma as int, z)))
    }
}

/// Builds the depth grid and the chlorophyll profile.
pub fn gen_chl_profile(input: &ModelInputs, settings: &ModelSettings) -> (r: (Vec<i64>, Vec<i64>))
    requires inputs_valid_s(input),
    ensures
        r.0@.len() == DEPTH_PROFILE_COUNT,
        r.1@.len() == DEPTH_PROFILE_COUNT,
        forall|i: int| 0 <= i < DEPTH_PROFILE_COUNT ==> r.0@[i] == i * DEPTH_PROFILE_STEP,
        forall|i: int| 0 <= i < DEPTH_PROFILE_COUNT ==> r.1@[i] ==
            chl_at_s(input, settings.mld_only, (i * DEPTH_PROFILE_STEP) as int),
        forall|i: int| 0 <= i < DEPTH_PROFILE_COUNT ==> 0 <= #[trigger] r.1@[i],
{
    let g0 = qtrans(qneg(qdiv(
        qmul(qsub(0, input.z_m), qsub(0, input.z_m)),
        qmul(qmul(8589934592, input.sigma), input.sigma),
    )));
    let denom = qadd(input.rho, qmul(qsub(4294967296, input.rho), g0));
    let peak = qdiv(input.chl, denom);
    proof {
        lemma_qmul_nonneg(qsub_s(Q as int, input.rho as int), gauss_s(input.z_m as int, input.sigma as int, 0));
        lemma_qdiv_nonneg(input.chl as int, denom as int);
        assert(peak == peak_s(input));
        assert(0 <= peak);
    }
    let bg = qmul(input.rho, peak);
    let amp = qmul(qsub(4294967296, input.rho), peak);
    proof {
        lemma_qmul_nonneg(input.rho as int, peak as int);
        lemma_qmul_nonneg(qsub_s(Q as int, input.rho as int), peak as int);
    }

    let mut depth: Vec<i64> = Vec::new();
    let mut chl: Vec<i64> = Vec::new();
    let mut i: usize = 0;
    while i < DEPTH_PROFILE_COUNT
        invariant
            0 <= i <= DEPTH_PROFILE_COUNT,
            inputs_valid_s(input),
            depth@.len() == i,
            chl@.len() == i,
            g0 == gauss_s(input.z_m as int, input.sigma as int, 0),
            peak == peak_s(input),
            bg == qmul_s(input.rho as int, peak_s(input)),
            amp == qmul_s(qsub_s(Q as int, input.rho as int), peak_s(input)),
            0 <= bg, 0 <= amp,
            forall|j: int| 0 <= j < i ==> depth@[j] == j * DEPTH_PROFILE_STEP,
            forall|j: int| 0 <= j < i ==> chl@[j] ==
                chl_at_s(input, settings.mld_only, (j * DEPTH_PROFILE_STEP) as int),
            forall|j: int| 0 <= j < i ==> 0 <= #[trigger] chl@[j],
        decreases DEPTH_PROFILE_COUNT - i,
    {
        let z: i64 = (i as i64) * 2147483648;
        depth.push(z);
        if z > input.z_bottom {
            chl.push(0);
        } else if settings.mld_only {
            if z <= input.mld { chl.push(input.chl); } else { chl.push(0); }
        } else {
            let g = qtrans(qneg(qdiv(
                qmul(qsub(z, input.z_m), qsub(z, input.z_m)),
                qmul(qmul(8589934592, input.sigma), input.sigma),
            )));
            let v = qadd(bg, qmul(amp, g));
            proof {
                lemma_qmul_nonneg(amp as int, g as int);
                assert(v == chl_at_s(input, settings.mld_only, z as int));
            }
            chl.push(v);
        }
        i = i + 1;
    }
    (depth, chl)
}

} // verus!
