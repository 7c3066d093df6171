//! Depth-resolved, wavelength-resolved, time-resolved daily water-column
//! primary production.
//!
//! From latitude, day of year, chlorophyll, mixed-layer parameters,
//! photosynthesis-irradiance parameters, cloud cover and observed daily
//! PAR, the model synthesizes the spectral sea-level irradiance of every
//! timestep of the half day, attenuates it through the water column,
//! integrates the saturating production response over depth and time, and
//! reports daily column production with euphotic-depth diagnostics.
//!
//! All physical quantities are Q32.32 fixed-point numbers: a value `v`
//! stands for the real number `v / 2^32`, in the unit documented at each
//! field. Every function carries an exact specification of the value it
//! computes.

use vstd::prelude::*;

pub mod fixed;
pub mod elem;
pub mod model;
pub mod chl_profile;
pub mod solar;
pub mod irradiance;
pub mod light_profile;
pub mod pp_profile;
pub mod daily;

pub use crate::model::{ModelInputs, ModelSettings, ModelOutputs, ProchloroInputs, PPErrors};
pub use crate::daily::{calc_production, integrate_daily_production};
pub use crate::irradiance::{
    lookup_thekaekara_correction, compute_irradiance_components,
    correct_and_recompute_irradiance_components,
};
pub use crate::light_profile::{
    LightProfile, init_mu_d_and_i_z, calc_i_z_decay, calc_light_decay_profile, calc_par_profile,
};
pub use crate::pp_profile::{
    PpProfile, ProchloroProfile, calculate_bw, calculate_bbr, calculate_ay,
    compute_pp_depth_profile, compute_prochloro_profile,
};

verus! {

} // verus!
