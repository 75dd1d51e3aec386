//! The canonical record model: the one normalized row shape that every
//! source catalog converges to, and the canonical field identifiers that
//! source-specific column names resolve to.
//!
//! Every value is kept as the raw text of the source cell.  Normalization
//! happens exactly once, at ingestion; a record is immutable afterwards, and
//! its `status` field keeps the raw label as read — the three-way
//! classification is derived for routing, never stored.

use vstd::prelude::*;
use crate::status::{classify, classify_spec, StatusClass};

verus! {

/// One canonical column of the harmonized record shape.
#[derive(Clone, Copy, Debug, PartialEq, Eq, Structural)]
pub enum Field {
    Status,
    StarId,
    PlanetId,
    Ra,
    Dec,
    Mag,
    OrbitalPeriodDays,
    TransitEpochBjd,
    TransitDurationHr,
    TransitDepthPpm,
    RpOverRs,
    PlanetRadiusRe,
    PlanetEqTempK,
    StellarTeffK,
    StellarRadiusRs,
    StellarMassMs,
    Mission,
    DiscoveryYear,
    DiscoveryMethod,
    Eccentricity,
    InclinationDeg,
    SemiMajorAxisAu,
    PlanetMassMe,
    PlanetMassMj,
    PlanetDensity,
    InsolationFlux,
    DetectionSnr,
    VettingScore,
    StellarMetallicity,
    StellarLogg,
}

/// One observation in canonical shape.  `status` is required; every other
/// field is optional, since no single source populates every column.
/// Every cell keeps its raw text, uninterpreted: routing never reads a
/// numeric value, and a row is never rejected for unparseable numeric
/// text — structural failure is a matter of column count alone.
pub struct TrainingRow {
    /// Raw disposition label, exactly as read from the source cell.
    pub status: String,
    /// Star identifier (TIC, EPIC or Kepler family).
    pub star_id: Option<String>,
    /// Planet or candidate identifier (TOI, KOI, EPIC candidate or name).
    pub planet_id: Option<String>,
    /// Right ascension, degrees.
    pub ra: Option<String>,
    /// Declination, degrees.
    pub dec: Option<String>,
    /// Apparent magnitude (TESS or Kepler band).
    pub mag: Option<String>,
    /// Orbital period, days.
    pub orbital_period_days: Option<String>,
    /// Transit epoch, BJD.
    pub transit_epoch_bjd: Option<String>,
    /// Transit duration, hours.
    pub transit_duration_hr: Option<String>,
    /// Transit depth, ppm.
    pub transit_depth_ppm: Option<String>,
    /// Planet-to-star radius ratio.
    pub rp_over_rs: Option<String>,
    /// Planet radius, Earth radii.
    pub planet_radius_re: Option<String>,
    /// Planet equilibrium temperature, K.
    pub planet_eq_temp_k: Option<String>,
    /// Stellar effective temperature, K.
    pub stellar_teff_k: Option<String>,
    /// Stellar radius, Solar radii.
    pub stellar_radius_rs: Option<String>,
    /// Stellar mass, Solar masses.
    pub stellar_mass_ms: Option<String>,
    /// Mission or facility tag.
    pub mission: Option<String>,
    /// Discovery year.
    pub discovery_year: Option<String>,
    /// Discovery method.
    pub discovery_method: Option<String>,
    /// Orbital eccentricity.
    pub eccentricity: Option<String>,
    /// Orbital inclination, degrees.
    pub inclination_deg: Option<String>,
    /// Semi-major axis, AU.
    pub semi_major_axis_au: Option<String>,
    /// Planet mass, Earth masses.
    pub planet_mass_me: Option<String>,
    /// Planet mass, Jupiter masses.
    pub planet_mass_mj: Option<String>,
    /// Planet density, g/cm^3.
    pub planet_density: Option<String>,
    /// Insolation flux, Earth units.
    pub insolation_flux: Option<String>,
    /// Detection signal-to-noise ratio.
    pub detection_snr: Option<String>,
    /// Vetting score or planet probability.
    pub vetting_score: Option<String>,
    /// Stellar metallicity, dex.
    pub stellar_metallicity: Option<String>,
    /// Stellar surface gravity, log g.
    pub stellar_logg: Option<String>,
}

/// The mathematical shape of a canonical record.
pub struct RowView {
    pub status: Seq<char>,
    pub star_id: Option<Seq<char>>,
    pub planet_id: Option<Seq<char>>,
    pub ra: Option<Seq<char>>,
    pub dec: Option<Seq<char>>,
    pub mag: Option<Seq<char>>,
    pub orbital_period_days: Option<Seq<char>>,
    pub transit_epoch_bjd: Option<Seq<char>>,
    pub transit_duration_hr: Option<Seq<char>>,
    pub transit_depth_ppm: Option<Seq<char>>,
    pub rp_over_rs: Option<Seq<char>>,
    pub planet_radius_re: Option<Seq<char>>,
    pub planet_eq_temp_k: Option<Seq<char>>,
    pub stellar_teff_k: Option<Seq<char>>,
    pub stellar_radius_rs: Option<Seq<char>>,
    pub stellar_mass_ms: Option<Seq<char>>,
    pub mission: Option<Seq<char>>,
    pub discovery_year: Option<Seq<char>>,
    pub discovery_method: Option<Seq<char>>,
    pub eccentricity: Option<Seq<char>>,
    pub inclination_deg: Option<Seq<char>>,
    pub semi_major_axis_au: Option<Seq<char>>,
    pub planet_mass_me: Option<Seq<char>>,
    pub planet_mass_mj: Option<Seq<char>>,
    pub planet_density: Option<Seq<char>>,
    pub insolation_flux: Option<Seq<char>>,
    pub detection_snr: Option<Seq<char>>,
    pub vetting_score: Option<Seq<char>>,
    pub stellar_metallicity: Option<Seq<char>>,
    pub stellar_logg: Option<Seq<char>>,
}

/// The view of one optional raw cell.
pub open spec fn opt_view(o: Option<String>) -> Option<Seq<char>> {
    match o {
        Option::Some(s) => Option::Some(s@),
        Option::None => Option::None,
    }
}

impl View for TrainingRow {
    type V = RowView;

    open spec fn view(&self) -> RowView {
        RowView {
            status: self.status@,
            star_id: opt_view(self.star_id),
            planet_id: opt_view(self.planet_id),
            ra: opt_view(self.ra),
            dec: opt_view(self.dec),
            mag: opt_view(self.mag),
            orbital_period_days: opt_view(self.orbital_period_days),
            transit_epoch_bjd: opt_view(self.transit_epoch_bjd),
            transit_duration_hr: opt_view(self.transit_duration_hr),
            transit_depth_ppm: opt_view(self.transit_depth_ppm),
            rp_over_rs: opt_view(self.rp_over_rs),
            planet_radius_re: opt_view(self.planet_radius_re),
            planet_eq_temp_k: opt_view(self.planet_eq_temp_k),
            stellar_teff_k: opt_view(self.stellar_teff_k),
            stellar_radius_rs: opt_view(self.stellar_radius_rs),
            stellar_mass_ms: opt_view(self.stellar_mass_ms),
            mission: opt_view(self.mission),
            discovery_year: opt_view(self.discovery_year),
            discovery_method: opt_view(self.discovery_method),
            eccentricity: opt_view(self.eccentricity),
            inclination_deg: opt_view(self.inclination_deg),
            semi_major_axis_au: opt_view(self.semi_major_axis_au),
            planet_mass_me: opt_view(self.planet_mass_me),
            planet_mass_mj: opt_view(self.planet_mass_mj),
            planet_density: opt_view(self.planet_density),
            insolation_flux: opt_view(self.insolation_flux),
            detection_snr: opt_view(self.detection_snr),
            vetting_score: opt_view(self.vetting_score),
            stellar_metallicity: opt_view(self.stellar_metallicity),
            stellar_logg: opt_view(self.stellar_logg),
        }
    }
}

/// The view of a record with no fields populated yet.
pub open spec fn blank_row() -> RowView {
    RowView {
        status: Seq::empty(),
        star_id: Option::None,
        planet_id: Option::None,
        ra: Option::None,
        dec: Option::None,
        mag: Option::None,
        orbital_period_days: Option::None,
        transit_epoch_bjd: Option::None,
        transit_duration_hr: Option::None,
        transit_depth_ppm: Option::None,
        rp_over_rs: Option::None,
        planet_radius_re: Option::None,
        planet_eq_temp_k: Option::None,
        stellar_teff_k: Option::None,
        stellar_radius_rs: Option::None,
        stellar_mass_ms: Option::None,
        mission: Option::None,
        discovery_year: Option::None,
        discovery_method: Option::None,
        eccentricity: Option::None,
        inclination_deg: Option::None,
        semi_major_axis_au: Option::None,
        planet_mass_me: Option::None,
        planet_mass_mj: Option::None,
        planet_density: Option::None,
        insolation_flux: Option::None,
        detection_snr: Option::None,
        vetting_score: Option::None,
        stellar_metallicity: Option::None,
        stellar_logg: Option::None,
    }
}

/// The record `r` with the raw cell `v` stored into canonical field `f`.
pub open spec fn set_field_spec(r: RowView, f: Field, v: Seq<char>) -> RowView {
    match f {
        Field::Status => RowView { status: v, ..r },
        Field::StarId => RowView { star_id: Option::Some(v), ..r },
        Field::PlanetId => RowView { planet_id: Option::Some(v), ..r },
        Field::Ra => RowView { ra: Option::Some(v), ..r },
        Field::Dec => RowView { dec: Option::Some(v), ..r },
        Field::Mag => RowView { mag: Option::Some(v), ..r },
        Field::OrbitalPeriodDays => RowView { orbital_period_days: Option::Some(v), ..r },
        Field::TransitEpochBjd => RowView { transit_epoch_bjd: Option::Some(v), ..r },
        Field::TransitDurationHr => RowView { transit_duration_hr: Option::Some(v), ..r },
        Field::TransitDepthPpm => RowView { transit_depth_ppm: Option::Some(v), ..r },
        Field::RpOverRs => RowView { rp_over_rs: Option::Some(v), ..r },
        Field::PlanetRadiusRe => RowView { planet_radius_re: Option::Some(v), ..r },
        Field::PlanetEqTempK => RowView { planet_eq_temp_k: Option::Some(v), ..r },
        Field::StellarTeffK => RowView { stellar_teff_k: Option::Some(v), ..r },
        Field::StellarRadiusRs => RowView { stellar_radius_rs: Option::Some(v), ..r },
        Field::StellarMassMs => RowView { stellar_mass_ms: Option::Some(v), ..r },
        Field::Mission => RowView { mission: Option::Some(v), ..r },
        Field::DiscoveryYear => RowView { discovery_year: Option::Some(v), ..r },
        Field::DiscoveryMethod => RowView { discovery_method: Option::Some(v), ..r },
        Field::Eccentricity => RowView { eccentricity: Option::Some(v), ..r },
        Field::InclinationDeg => RowView { inclination_deg: Option::Some(v), ..r },
        Field::SemiMajorAxisAu => RowView { semi_major_axis_au: Option::Some(v), ..r },
        Field::PlanetMassMe => RowView { planet_mass_me: Option::Some(v), ..r },
        Field::PlanetMassMj => RowView { planet_mass_mj: Option::Some(v), ..r },
        Field::PlanetDensity => RowView { planet_density: Option::Some(v), ..r },
        Field::InsolationFlux => RowView { insolation_flux: Option::Some(v), ..r },
        Field::DetectionSnr => RowView { detection_snr: Option::Some(v), ..r },
        Field::VettingScore => RowView { vetting_score: Option::Some(v), ..r },
        Field::StellarMetallicity => RowView { stellar_metallicity: Option::Some(v), ..r },
        Field::StellarLogg => RowView { stellar_logg: Option::Some(v), ..r },
    }
}

impl TrainingRow {
    /// A fresh record with no fields populated and an empty status.
    pub fn blank() -> (r: TrainingRow)
        ensures
            r@ == blank_row(),
    {
        TrainingRow {
            status: String::new(),
            star_id: Option::None,
            planet_id: Option::None,
            ra: Option::None,
            dec: Option::None,
            mag: Option::None,
            orbital_period_days: Option::None,
            transit_epoch_bjd: Option::None,
            transit_duration_hr: Option::None,
            transit_depth_ppm: Option::None,
            rp_over_rs: Option::None,
            planet_radius_re: Option::None,
            planet_eq_temp_k: Option::None,
            stellar_teff_k: Option::None,
            stellar_radius_rs: Option::None,
            stellar_mass_ms: Option::None,
            mission: Option::None,
            discovery_year: Option::None,
            discovery_method: Option::None,
            eccentricity: Option::None,
            inclination_deg: Option::None,
            semi_major_axis_au: Option::None,
            planet_mass_me: Option::None,
            planet_mass_mj: Option::None,
            planet_density: Option::None,
            insolation_flux: Option::None,
            detection_snr: Option::None,
            vetting_score: Option::None,
            stellar_metallicity: Option::None,
            stellar_logg: Option::None,
        }
    }

    /// Stores the raw cell `value` into the canonical field `f`.
    pub fn set_field(&mut self, f: Field, value: String)
        ensures
            final(self)@ == set_field_spec(old(self)@, f, value@),
    {
        match f {
            Field::Status => self.status = value,
            Field::StarId => self.star_id = Option::Some(value),
            Field::PlanetId => self.planet_id = Option::Some(value),
            Field::Ra => self.ra = Option::Some(value),
            Field::Dec => self.dec = Option::Some(value),
            Field::Mag => self.mag = Option::Some(value),
            Field::OrbitalPeriodDays => self.orbital_period_days = Option::Some(value),
            Field::TransitEpochBjd => self.transit_epoch_bjd = Option::Some(value),
            Field::TransitDurationHr => self.transit_duration_hr = Option::Some(value),
            Field::TransitDepthPpm => self.transit_depth_ppm = Option::Some(value),
            Field::RpOverRs => self.rp_over_rs = Option::Some(value),
            Field::PlanetRadiusRe => self.planet_radius_re = Option::Some(value),
            Field::PlanetEqTempK => self.planet_eq_temp_k = Option::Some(value),
            Field::StellarTeffK => self.stellar_teff_k = Option::Some(value),
            Field::StellarRadiusRs => self.stellar_radius_rs = Option::Some(value),
            Field::StellarMassMs => self.stellar_mass_ms = Option::Some(value),
            Field::Mission => self.mission = Option::Some(value),
            Field::DiscoveryYear => self.discovery_year = Option::Some(value),
            Field::DiscoveryMethod => self.discovery_method = Option::Some(value),
            Field::Eccentricity => self.eccentricity = Option::Some(value),
            Field::InclinationDeg => self.inclination_deg = Option::Some(value),
            Field::SemiMajorAxisAu => self.semi_major_axis_au = Option::Some(value),
            Field::PlanetMassMe => self.planet_mass_me = Option::Some(value),
            Field::PlanetMassMj => self.planet_mass_mj = Option::Some(value),
            Field::PlanetDensity => self.planet_density = Option::Some(value),
            Field::InsolationFlux => self.insolation_flux = Option::Some(value),
            Field::DetectionSnr => self.detection_snr = Option::Some(value),
            Field::VettingScore => self.vetting_score = Option::Some(value),
            Field::StellarMetallicity => self.stellar_metallicity = Option::Some(value),
            Field::StellarLogg => self.stellar_logg = Option::Some(value),
        }
    }

    /// Whether the record may enter a training partition: candidate-labeled
    /// rows are neither confirmed-planet nor confirmed-negative ground
    /// truth, so they are filtered out.
    pub fn row_ok(&self) -> (r: bool)
        ensures
            r == (classify_spec(self.status@) != StatusClass::Candidate),
    {
        let c = classify(self.status.as_str());
        !(c == StatusClass::Candidate)
    }
}

} // verus!
