//! Input, settings, output and error types of the production model.
//!
//! Physical quantities are Q32.32 fixed-point numbers (see `fixed`): a
//! field `v` stands for the real value `v / 2^32`, in the unit noted on the
//! field. Wavelength-indexed arrays run over the working spectral grid of
//! `WL_COUNT` samples, 400 nm to 700 nm at a 5 nm step.

use vstd::prelude::*;
use crate::fixed::Q;

verus! {

/// Number of wavelengths in the working spectral grid (400..700 nm, 5 nm step).
pub const WL_COUNT: usize = 61;

/// Spectral grid step in nm, Q32.
pub const DELTA_LAMBDA: i64 = 21474836480;

/// Number of samples in a depth profile.
pub const DEPTH_PROFILE_COUNT: usize = 600;

/// Depth step in metres, Q32 (one half metre).
pub const DEPTH_PROFILE_STEP: i64 = 2147483648;

/// Number of timesteps from the 80-degree-zenith crossing to solar noon.
pub const TIMESTEPS: usize = 13;

/// Wavelength of working-grid sample `w`, in nm (Q32): `400 + 5 w`.
pub open spec fn wl_nm_s(w: int) -> int {
    (400 + 5 * w) * (Q as int)
}

pub fn wl_nm(w: usize) -> (r: i64)
    requires w < WL_COUNT,
    ensures r == wl_nm_s(w as int),
{
    (400 + 5 * (w as i64)) * 4294967296
}

/// The error kinds of the model.
#[derive(Debug, Clone, Copy, PartialEq, Eq, Structural)]
pub enum PPErrors {
    /// Sunrise or day length has no physical value (polar day or night), or
    /// the sun never comes under an 80-degree zenith angle before noon.
    DegenerateDay,
    /// Light never falls to one percent of its surface value within the
    /// depth range of one timestep's profile; recovered per timestep.
    NoEuphoticDepthFound,
    /// The integrated daily production exceeds the plausibility ceiling.
    ImplausibleProduction,
    /// A caller-supplied value violates basic physical bounds.
    InvalidInput,
}

/// Secondary-population (picophytoplankton) parameters.
pub struct ProchloroInputs {
    /// Surface maximum of the secondary population, mg m^-3 (Q32).
    pub prochloro_surface: i64,
    /// Subsurface maximum of the secondary population, mg m^-3 (Q32).
    pub prochloro_maximum: i64,
}

/// Run-mode flags.
pub struct ModelSettings {
    /// Compute the chlorophyll profile as uniform over the mixed layer only.
    pub mld_only: bool,
    /// Stop after the noon-irradiance maximum has been established.
    pub iom_only: bool,
    /// Parameters of the optional secondary population.
    pub prochloro_inputs: Option<ProchloroInputs>,
    /// Whether the secondary-population accumulation is truncated at the
    /// euphotic depth index (kept configurable on purpose).
    pub prochloro_euphotic_cutoff: bool,
}

/// The immutable input record of one run. Angles are degrees, depths
/// metres, chlorophyll mg m^-3, PAR einstein m^-2 day^-1; all Q32.
pub struct ModelInputs {
    /// Latitude, degrees.
    pub lat: i64,
    /// Longitude, degrees (carried, not read by the model).
    pub lon: i64,
    /// Bottom depth, metres.
    pub z_bottom: i64,
    /// Day of year, 1 to 366.
    pub iday: u16,
    /// Initial slope of the P-vs-I curve, mgC mgChl^-1 h^-1 (W m^-2)^-1.
    pub alpha_b: i64,
    /// Assimilation maximum of the P-vs-I curve, mgC mgChl^-1 h^-1.
    pub pmb: i64,
    /// Depth of the deep chlorophyll maximum, metres.
    pub z_m: i64,
    /// Mixed-layer depth, metres.
    pub mld: i64,
    /// Surface chlorophyll concentration, mg m^-3.
    pub chl: i64,
    /// Background fraction of the peak chlorophyll, dimensionless in [0, 1].
    pub rho: i64,
    /// Width of the deep chlorophyll maximum, metres.
    pub sigma: i64,
    /// Cloud cover, percent.
    pub cloud: i64,
    /// Yellow-substance absorption coefficient, dimensionless.
    pub yel_sub: i64,
    /// Observed daily surface PAR, einstein m^-2 day^-1.
    pub par: i64,
    /// Pure-water scattering coefficient per wavelength, m^-1.
    pub bw: Vec<i64>,
    /// Backscattering ratio per wavelength, dimensionless.
    pub bbr: Vec<i64>,
    /// Yellow-substance absorption spectrum, normalized at 440 nm.
    pub ay: Vec<i64>,
    /// Pure-water absorption coefficient per wavelength, m^-1.
    pub aw: Vec<i64>,
    /// Chlorophyll-specific absorption magnitude per wavelength.
    pub ac_a: Vec<i64>,
    /// Chlorophyll-specific absorption saturation exponent per wavelength.
    pub ac_b: Vec<i64>,
}

/// The output record of one run.
pub struct ModelOutputs {
    /// Daily column production, mgC m^-2 day^-1.
    pub pp_day: Option<i64>,
    /// Maximum euphotic depth over the day, metres.
    pub euphotic_depth: Option<i64>,
    /// Light-saturation diagnostic, dimensionless.
    pub spectral_i_star: Option<i64>,
    /// Noon-time irradiance maximum, einstein m^-2 h^-1.
    pub par_noon_max: Option<i64>,
    /// Time-mean depth profile of the first secondary response.
    pub pro_1_profile: Option<Vec<i64>>,
    /// Time-mean depth profile of the second secondary response.
    pub pro_2_profile: Option<Vec<i64>>,
    /// Time-mean depth profile of the summed secondary responses.
    pub pro_total_profile: Option<Vec<i64>>,
    /// Secondary-population production profile of the last valid timestep.
    pub pp_prochloro_profile: Option<Vec<i64>>,
}

/// Elementwise non-negativity of a wavelength-indexed array.
pub open spec fn all_nonneg_s(v: Seq<i64>) -> bool {
    forall|i: int| 0 <= i < v.len() ==> 0 <= #[trigger] v[i]
}

/// The caller contract on the input record: wavelength arrays of the
/// grid's length with non-negative entries, a day of year within the
/// calendar, and physically bounded scalars.
pub open spec fn inputs_valid_s(inp: &ModelInputs) -> bool {
    &&& inp.bw@.len() == WL_COUNT
    &&& inp.bbr@.len() == WL_COUNT
    &&& inp.ay@.len() == WL_COUNT
    &&& inp.aw@.len() == WL_COUNT
    &&& inp.ac_a@.len() == WL_COUNT
    &&& inp.ac_b@.len() == WL_COUNT
    &&& all_nonneg_s(inp.bw@)
    &&& all_nonneg_s(inp.bbr@)
    &&& all_nonneg_s(inp.ay@)
    &&& all_nonneg_s(inp.aw@)
    &&& all_nonneg_s(inp.ac_a@)
    &&& all_nonneg_s(inp.ac_b@)
    &&& 1 <= inp.iday <= 366
    &&& -386547056640 <= inp.lat <= 386547056640  // |latitude| <= 90 degrees
    &&& 0 <= inp.chl
    &&& 0 < inp.z_bottom
    &&& 0 <= inp.alpha_b
    &&& 0 < inp.pmb
    &&& 0 <= inp.z_m
    &&& 0 <= inp.mld
    &&& 0 <= inp.rho <= Q
    &&& 0 < inp.sigma
    &&& 0 <= inp.cloud <= 429496729600  // cloud cover is a percentage
    &&& 0 <= inp.yel_sub
    &&& 0 <= inp.par
}

fn check_array(v: &Vec<i64>) -> (r: bool)
    ensures r == (v@.len() == WL_COUNT && all_nonneg_s(v@)),
{
    if v.len() != WL_COUNT { return false; }
    let mut i: usize = 0;
    while i < v.len()
        invariant
            0 <= i <= v@.len(),
            v@.len() == WL_COUNT,
            forall|j: int| 0 <= j < i ==> 0 <= #[trigger] v@[j],
        decreases v@.len() - i,
    {
        if v[i] < 0 { return false; }
        i = i + 1;
    }
    true
}

/// Checks the caller contract on the input record, exactly.
pub fn validate_inputs(inp: &ModelInputs) -> (r: bool)
    ensures r == inputs_valid_s(inp),
{
    check_array(&inp.bw)
        && check_array(&inp.bbr)
        && check_array(&inp.ay)
        && check_array(&inp.aw)
        && check_array(&inp.ac_a)
        && check_array(&inp.ac_b)
        && 1 <= inp.iday && inp.iday <= 366
        && -386547056640 <= inp.lat && inp.lat <= 386547056640
        && 0 <= inp.chl
        && 0 < inp.z_bottom
        && 0 <= inp.alpha_b
        && 0 < inp.pmb
        && 0 <= inp.z_m
        && 0 <= inp.mld
        && 0 <= inp.rho && inp.rho <= 4294967296
        && 0 < inp.sigma
        && 0 <= inp.cloud && inp.cloud <= 429496729600
        && 0 <= inp.yel_sub
        && 0 <= inp.par
}

} // verus!
