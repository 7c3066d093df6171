//! Concrete-value checks of the model's stated properties: monotone
//! attenuation, the euphotic bottom clamp, the symmetry doubling of the
//! daily integral, and degenerate-day rejection.

use dwcpn::{ModelInputs, ModelSettings, PPErrors, calc_production, integrate_daily_production};
use dwcpn::{calculate_bw, calculate_bbr, calculate_ay, calc_light_decay_profile, compute_pp_depth_profile};
use dwcpn::lookup_thekaekara_correction;
use dwcpn::fixed::{qadd, qmul, qhalf};

const Q: f64 = 4294967296.0;
const WL_COUNT: usize = 61;
const DEPTH_COUNT: usize = 600;
const TIMESTEPS: usize = 13;

fn q(x: f64) -> i64 {
    (x * Q).round() as i64
}

fn fq(v: i64) -> f64 {
    v as f64 / Q
}

fn water_absorption() -> Vec<i64> {
    // a smooth pure-water absorption curve: small in the blue, rising
    // steeply toward the red
    (0..WL_COUNT)
        .map(|i| {
            let wl = 400.0 + 5.0 * i as f64;
            q(0.005 + 0.6 * ((wl - 400.0) / 300.0).powi(4))
        })
        .collect()
}

fn absorption_magnitude() -> Vec<i64> {
    // chlorophyll-specific absorption: blue peak at 440 nm, red peak at 675 nm
    (0..WL_COUNT)
        .map(|i| {
            let wl = 400.0 + 5.0 * i as f64;
            let blue = (-((wl - 440.0) / 45.0).powi(2)).exp();
            let red = 0.5 * (-((wl - 675.0) / 15.0).powi(2)).exp();
            q(0.0378 * (blue + red) + 0.003)
        })
        .collect()
}

fn absorption_exponent() -> Vec<i64> {
    (0..WL_COUNT).map(|_| q(0.33)).collect()
}

fn example_inputs() -> ModelInputs {
    ModelInputs {
        lat: q(-5.792),
        lon: q(-96.62),
        z_bottom: q(100.0),
        iday: 1,
        alpha_b: q(0.0844),
        pmb: q(4.756),
        z_m: q(46.1),
        mld: q(19.35091019),
        chl: q(0.26096588),
        rho: q(0.878),
        sigma: q(34.6),
        cloud: 0,
        yel_sub: q(0.3),
        par: q(49.1697464),
        bw: calculate_bw(),
        bbr: calculate_bbr(),
        ay: calculate_ay(),
        aw: water_absorption(),
        ac_a: absorption_magnitude(),
        ac_b: absorption_exponent(),
    }
}

fn default_settings() -> ModelSettings {
    ModelSettings {
        mld_only: false,
        iom_only: false,
        prochloro_inputs: None,
        prochloro_euphotic_cutoff: true,
    }
}

#[test]
fn par_attenuates_monotonically() {
    let inp = example_inputs();
    // a clear-sky noon-like spectrum
    let direct: Vec<i64> = (0..WL_COUNT).map(|_| q(1.2)).collect();
    let diffuse: Vec<i64> = (0..WL_COUNT).map(|_| q(0.3)).collect();
    let chl: Vec<i64> = (0..DEPTH_COUNT).map(|_| inp.chl).collect();
    let (_ia, par) = calc_light_decay_profile(&chl, &direct, &diffuse, q(0.4), &inp);
    assert_eq!(par.len(), DEPTH_COUNT);
    for z in 1..DEPTH_COUNT {
        assert!(par[z] <= par[z - 1], "PAR rose between {} and {}", z - 1, z);
        assert!(par[z] >= 0);
    }
    assert!(par[0] > 0);
    assert!(par[DEPTH_COUNT - 1] < par[0]);
}

#[test]
fn euphotic_depth_clamps_to_bottom() {
    let mut inp = example_inputs();
    inp.z_bottom = q(3.0); // shallower than any one-percent light depth here
    let depth: Vec<i64> = (0..DEPTH_COUNT).map(|z| q(0.5 * z as f64)).collect();
    let chl: Vec<i64> = (0..DEPTH_COUNT).map(|_| inp.chl).collect();
    let ia: Vec<i64> = (0..DEPTH_COUNT).map(|_| q(0.5)).collect();
    // PAR decays by a factor per step so the one-percent level sits well
    // below the clamped bottom depth
    let par: Vec<i64> = (0..DEPTH_COUNT).map(|z| q(10.0 * 0.9f64.powi(z as i32))).collect();
    let p = compute_pp_depth_profile(&chl, &depth, &ia, &par, &inp).unwrap();
    assert_eq!(p.euphotic_depth, q(3.0));
    assert_eq!(p.euph_index, DEPTH_COUNT - 1);
}

#[test]
fn euphotic_depth_interpolates_between_samples() {
    let inp = example_inputs();
    let depth: Vec<i64> = (0..DEPTH_COUNT).map(|z| q(0.5 * z as f64)).collect();
    let chl: Vec<i64> = (0..DEPTH_COUNT).map(|_| inp.chl).collect();
    let ia: Vec<i64> = (0..DEPTH_COUNT).map(|_| q(0.5)).collect();
    let decay: f64 = 0.9;
    let par: Vec<i64> = (0..DEPTH_COUNT).map(|z| q(10.0 * decay.powi(z as i32))).collect();
    // the one-percent level: 0.9^z = 0.01 at z = ln 0.01 / ln 0.9 = 43.7..
    let p = compute_pp_depth_profile(&chl, &depth, &ia, &par, &inp).unwrap();
    assert_eq!(p.euph_index, 43);
    let expected = 0.5 * (0.01f64.ln() / decay.ln());
    assert!((fq(p.euphotic_depth) - expected).abs() < 0.01,
        "euphotic depth {} want about {}", fq(p.euphotic_depth), expected);
    assert!(p.success);
}

#[test]
fn no_euphotic_depth_is_the_soft_failure() {
    let inp = example_inputs();
    let depth: Vec<i64> = (0..DEPTH_COUNT).map(|z| q(0.5 * z as f64)).collect();
    let chl: Vec<i64> = (0..DEPTH_COUNT).map(|_| inp.chl).collect();
    let ia: Vec<i64> = (0..DEPTH_COUNT).map(|_| q(0.5)).collect();
    let par: Vec<i64> = (0..DEPTH_COUNT).map(|_| q(10.0)).collect();
    let r = compute_pp_depth_profile(&chl, &depth, &ia, &par, &inp);
    assert!(matches!(r, Err(PPErrors::NoEuphoticDepthFound)));
}

#[test]
fn doubling_matches_mirrored_full_day() {
    // the half-day series of column production values
    let pp: Vec<i64> = vec![
        q(0.0), q(0.0), q(12.5), q(30.0), q(55.5), q(80.25), q(101.0),
        q(118.75), q(131.5), q(140.0), q(146.25), q(149.5), q(150.75),
    ];
    assert_eq!(pp.len(), TIMESTEPS);
    let dt = q(0.75);
    let pre = q(1.25);
    let doubled = integrate_daily_production(&pp, dt, pre);

    // the manually mirrored full-day series around noon
    let mut full: Vec<i64> = pp.clone();
    for t in (0..TIMESTEPS - 1).rev() {
        full.push(pp[t]);
    }
    let mut trapezoid: i64 = 0;
    for t in 0..full.len() - 1 {
        trapezoid = qadd(trapezoid, qhalf(qmul(qadd(full[t], full[t + 1]), dt)));
    }
    let dawn = qhalf(qmul(pp[0], pre));
    let full_day = qadd(qadd(trapezoid, dawn), dawn);
    assert_eq!(doubled, full_day);
}

#[test]
fn polar_night_is_a_degenerate_day() {
    let mut inp = example_inputs();
    inp.lat = q(80.0);
    inp.iday = 355;
    let r = calc_production(&inp, &default_settings());
    assert!(matches!(r, Err(PPErrors::DegenerateDay)));
}

#[test]
fn negative_chlorophyll_is_rejected() {
    let mut inp = example_inputs();
    inp.chl = q(-0.1);
    let r = calc_production(&inp, &default_settings());
    assert!(matches!(r, Err(PPErrors::InvalidInput)));
}

#[test]
fn mismatched_wavelength_arrays_are_rejected() {
    let mut inp = example_inputs();
    inp.bw.pop();
    let r = calc_production(&inp, &default_settings());
    assert!(matches!(r, Err(PPErrors::InvalidInput)));
}

#[test]
fn noon_maximum_mode_returns_only_the_maximum() {
    let inp = example_inputs();
    let mut settings = default_settings();
    settings.iom_only = true;
    let out = calc_production(&inp, &settings).unwrap();
    assert!(out.pp_day.is_none());
    assert!(out.euphotic_depth.is_none());
    let iom = fq(out.par_noon_max.unwrap());
    // iom = par * pi / (2 * day_length), with roughly a twelve-hour day
    // near the equator
    let day_length = 2.0 * (12.0 - 6.0);
    let rough = 49.1697464 * std::f64::consts::PI / (2.0 * day_length);
    assert!((iom - rough).abs() / rough < 0.05, "iom {} want about {}", iom, rough);
}

#[test]
fn solar_correction_interpolates_the_seasonal_table() {
    // exact table points
    assert_eq!(fq(lookup_thekaekara_correction(3)), 1399.0);
    assert_eq!(fq(lookup_thekaekara_correction(181)), 1309.0);
    assert_eq!(fq(lookup_thekaekara_correction(365)), 1399.0);
    // between day 42 (1389) and day 59 (1378): three seventeenths of the way
    let v = fq(lookup_thekaekara_correction(45));
    let want = 1389.0 - (1389.0 - 1378.0) * 3.0 / 17.0;
    assert!((v - want).abs() < 1e-4, "day 45: {} want {}", v, want);
    // the aphelion trough sits near midsummer
    assert!(fq(lookup_thekaekara_correction(181)) < fq(lookup_thekaekara_correction(1)));
}

#[test]
fn optical_spectra_match_their_formulas() {
    let bw = calculate_bw();
    let bbr = calculate_bbr();
    let ay = calculate_ay();
    // bw anchored at 500 nm (sample 20), bbr shaped by 488 nm, ay normalized at 440 nm (sample 8)
    assert!((fq(bw[20]) - 0.00288).abs() < 1e-6);
    assert!((fq(ay[8]) - 1.0).abs() < 1e-6);
    let want_bw0 = 0.00288 * (400.0f64 / 500.0).powf(-4.3);
    assert!((fq(bw[0]) - want_bw0).abs() < 1e-6, "bw[0] {} want {}", fq(bw[0]), want_bw0);
    let want_bbr0 = 0.5 * 0.00027 * (400.0f64 / 488.0).powf(-5.3);
    assert!((fq(bbr[0]) - want_bbr0).abs() < 1e-6);
    let want_ay60 = (-0.014f64 * (700.0 - 440.0)).exp();
    assert!((fq(ay[60]) - want_ay60).abs() < 1e-6);
}

#[test]
fn production_saturates_with_light() {
    // the saturating response: at very high light the profile's top value
    // approaches chl * pmb
    let inp = example_inputs();
    let depth: Vec<i64> = (0..DEPTH_COUNT).map(|z| q(0.5 * z as f64)).collect();
    let chl: Vec<i64> = (0..DEPTH_COUNT).map(|_| q(1.0)).collect();
    let ia: Vec<i64> = (0..DEPTH_COUNT).map(|_| q(1000.0)).collect();
    let par: Vec<i64> = (0..DEPTH_COUNT).map(|z| q(10.0 * 0.9f64.powi(z as i32))).collect();
    let p = compute_pp_depth_profile(&chl, &depth, &ia, &par, &inp).unwrap();
    let want = 1.0 * fq(inp.pmb);
    assert!((fq(p.pp_profile[0]) - want).abs() < 1e-3,
        "saturated production {} want {}", fq(p.pp_profile[0]), want);
    // and at zero light there is none
    let ia0: Vec<i64> = (0..DEPTH_COUNT).map(|_| 0).collect();
    let p0 = compute_pp_depth_profile(&chl, &depth, &ia0, &par, &inp).unwrap();
    assert_eq!(p0.pp_profile[0], 0);
}

#[test]
fn low_polar_sun_is_a_degenerate_day() {
    // near the pole at the equinox the sun stays just above the horizon
    // all day: the zenith angle never comes under eighty degrees, so no
    // timestep is valid even though the sun rises
    let mut inp = example_inputs();
    inp.lat = q(89.9);
    inp.iday = 80;
    let r = calc_production(&inp, &default_settings());
    assert!(matches!(r, Err(PPErrors::DegenerateDay)));
}

#[test]
fn absurd_production_is_rejected() {
    // an implausible combination of very rich water and a very fast
    // photosynthesis response drives the daily total over the ceiling
    let mut inp = example_inputs();
    inp.chl = q(30.0);
    inp.pmb = q(80.0);
    inp.alpha_b = q(5.0);
    inp.par = q(60.0);
    let r = calc_production(&inp, &default_settings());
    assert!(matches!(r, Err(PPErrors::ImplausibleProduction)));
}
