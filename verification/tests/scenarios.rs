//! End-to-end runs over a range of ocean provinces. Pure-water and
//! chlorophyll-specific absorption enter the model as caller-supplied
//! data; these runs use smooth, physically shaped curves for them, so
//! they check physical plausibility and the model's contracts rather than
//! any particular dataset's magnitudes.

use dwcpn::{ModelInputs, ModelSettings, ProchloroInputs, calc_production};
use dwcpn::{calculate_bw, calculate_bbr, calculate_ay};

const Q: f64 = 4294967296.0;
const WL_COUNT: usize = 61;

fn q(x: f64) -> i64 {
    (x * Q).round() as i64
}

fn fq(v: i64) -> f64 {
    v as f64 / Q
}

fn water_absorption() -> Vec<i64> {
    (0..WL_COUNT)
        .map(|i| {
            let wl = 400.0 + 5.0 * i as f64;
            q(0.005 + 0.6 * ((wl - 400.0) / 300.0).powi(4))
        })
        .collect()
}

fn absorption_magnitude() -> Vec<i64> {
    (0..WL_COUNT)
        .map(|i| {
            let wl = 400.0 + 5.0 * i as f64;
            let blue = (-((wl - 440.0) / 45.0).powi(2)).exp();
            let red = 0.5 * (-((wl - 675.0) / 15.0).powi(2)).exp();
            q(0.0378 * (blue + red) + 0.003)
        })
        .collect()
}

fn absorption_exponent() -> Vec<i64> {
    (0..WL_COUNT).map(|_| q(0.33)).collect()
}

fn inputs(lat: f64, z_bottom: f64, iday: u16, alpha_b: f64, pmb: f64, z_m: f64,
          mld: f64, chl: f64, rho: f64, sigma: f64, par: f64) -> ModelInputs {
    ModelInputs {
        lat: q(lat),
        lon: 0,
        z_bottom: q(z_bottom),
        iday,
        alpha_b: q(alpha_b),
        pmb: q(pmb),
        z_m: q(z_m),
        mld: q(mld),
        chl: q(chl),
        rho: q(rho),
        sigma: q(sigma),
        cloud: 0,
        yel_sub: q(0.3),
        par: q(par),
        bw: calculate_bw(),
        bbr: calculate_bbr(),
        ay: calculate_ay(),
        aw: water_absorption(),
        ac_a: absorption_magnitude(),
        ac_b: absorption_exponent(),
    }
}

fn settings() -> ModelSettings {
    ModelSettings {
        mld_only: false,
        iom_only: false,
        prochloro_inputs: None,
        prochloro_euphotic_cutoff: true,
    }
}

fn run_plausible(inp: &ModelInputs) -> (f64, f64) {
    let out = calc_production(inp, &settings()).unwrap();
    let pp_day = fq(out.pp_day.unwrap());
    let euph = fq(out.euphotic_depth.unwrap());
    assert!(pp_day > 0.0, "no production: {}", pp_day);
    assert!(pp_day <= 10000.0, "beyond the plausibility ceiling: {}", pp_day);
    assert!(euph > 0.0 && euph <= fq(inp.z_bottom) + 1e-9,
        "euphotic depth {} out of the column", euph);
    assert!(out.par_noon_max.unwrap() > 0);
    assert!(out.spectral_i_star.unwrap() >= 0);
    (pp_day, euph)
}

#[test]
fn tropical_east_pacific_run() {
    let inp = inputs(-5.792, 100.0, 1, 0.0844, 4.756, 46.1, 19.35091019, 0.26096588, 0.878, 34.6, 49.1697464);
    let (pp_day, euph) = run_plausible(&inp);
    // a moderately productive tropical column: tens to a few thousand
    // mgC m^-2 day^-1, euphotic depth some tens of metres
    assert!(pp_day > 10.0 && pp_day < 5000.0, "pp_day {}", pp_day);
    assert!(euph > 5.0, "euphotic depth {}", euph);
}

#[test]
fn spring_black_sea_run() {
    let inp = inputs(43.2, 2198.8, 121, 0.0578, 3.294, 49.44, 11.9296, 0.474, 0.87, 14.62, 50.35);
    let (pp_day, _) = run_plausible(&inp);
    assert!(pp_day > 10.0 && pp_day < 5000.0, "pp_day {}", pp_day);
}

#[test]
fn oligotrophic_gyre_run() {
    let gyre = inputs(-27.042, 3940.65, 121, 0.0933, 1.594, 97.82, 62.349, 0.058, 0.75, 20.64, 25.482);
    let upwelling = inputs(18.71, 2950.468, 121, 0.1518, 3.9059, 23.094, 31.975, 1.718, 0.8247, 27.556, 55.8677);
    let (pp_gyre, euph_gyre) = run_plausible(&gyre);
    let (pp_up, euph_up) = run_plausible(&upwelling);
    // the clear gyre is far less productive but far clearer than the
    // chlorophyll-rich upwelling
    assert!(pp_gyre < pp_up, "gyre {} vs upwelling {}", pp_gyre, pp_up);
    assert!(euph_gyre > euph_up, "gyre euphotic {} vs upwelling {}", euph_gyre, euph_up);
}

#[test]
fn arabian_sea_run_with_secondary_population() {
    let inp = inputs(12.542, 4244.75, 121, 0.1329, 3.952, 70.42, 26.15, 0.1032, 0.856, 23.523, 56.255);
    let mut st = settings();
    st.prochloro_inputs = Some(ProchloroInputs {
        prochloro_surface: q(1000.0),
        prochloro_maximum: q(2000.0),
    });
    let out = calc_production(&inp, &st).unwrap();
    assert!(fq(out.pp_day.unwrap()) > 0.0);
    let p1 = out.pro_1_profile.unwrap();
    let p2 = out.pro_2_profile.unwrap();
    let pt = out.pro_total_profile.unwrap();
    assert_eq!(p1.len(), 600);
    assert_eq!(p2.len(), 600);
    assert_eq!(pt.len(), 600);
    // near the surface the populations respond to full light
    assert!(p1[0] >= 0 && p2[0] >= 0);
    assert!(pt[0] == p1[0] + p2[0] || (pt[0] - p1[0] - p2[0]).abs() <= 600);
}

#[test]
fn cloud_cover_reduces_production() {
    let clear = inputs(-5.792, 100.0, 1, 0.0844, 4.756, 46.1, 19.35091019, 0.26096588, 0.878, 34.6, 49.1697464);
    let mut cloudy = inputs(-5.792, 100.0, 1, 0.0844, 4.756, 46.1, 19.35091019, 0.26096588, 0.878, 34.6, 49.1697464);
    cloudy.cloud = q(80.0);
    let (pp_clear, _) = run_plausible(&clear);
    let out = calc_production(&cloudy, &settings()).unwrap();
    let pp_cloudy = fq(out.pp_day.unwrap());
    // the daily PAR anchor is unchanged, so production stays in the same
    // ballpark; the cloud model only reshuffles direct and diffuse light
    assert!(pp_cloudy > 0.0 && (pp_cloudy - pp_clear).abs() / pp_clear < 0.5,
        "clear {} cloudy {}", pp_clear, pp_cloudy);
}
