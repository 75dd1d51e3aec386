//! The field alias resolver: maps many source-specific column spellings to
//! one canonical field.  Lookup is case-sensitive by design: alias sets are
//! enumerated literally per field, not normalized by case folding, so two
//! spellings differing only in case are distinct entries.  Construction
//! rejects ambiguous tables — no two groups may claim one raw name — as a
//! configuration error, fatal at startup and never a runtime data condition.

use vstd::prelude::*;
use crate::fields::Field;

verus! {

/// One alias: a raw column name and the canonical field it resolves to.
pub struct AliasEntry {
    pub name: String,
    pub field: Field,
}

/// The mathematical shape of an alias table: raw name to canonical field,
/// in table order.
pub open spec fn entries_view(es: Seq<AliasEntry>) -> Seq<(Seq<char>, Field)> {
    Seq::new(es.len(), |i: int| (es[i].name@, es[i].field))
}

/// No raw name is claimed twice.
pub open spec fn table_no_dup(t: Seq<(Seq<char>, Field)>) -> bool {
    forall|i: int, j: int| 0 <= i < j < t.len() ==> t[i].0 != t[j].0
}

/// The canonical field the raw name `name` resolves to, if any.
pub open spec fn lookup(t: Seq<(Seq<char>, Field)>, name: Seq<char>) -> Option<Field>
    decreases t.len(),
{
    if t.len() == 0 {
        Option::None
    } else if t[0].0 == name {
        Option::Some(t[0].1)
    } else {
        lookup(t.drop_first(), name)
    }
}

/// An ambiguous alias configuration: the raw name that two alias groups
/// both claim.
pub struct ConfigError {
    pub duplicate: String,
}

/// An immutable resolver from raw column names to canonical fields.
pub struct AliasTable {
    entries: Vec<AliasEntry>,
}

impl View for AliasTable {
    type V = Seq<(Seq<char>, Field)>;

    closed spec fn view(&self) -> Seq<(Seq<char>, Field)> {
        entries_view(self.entries@)
    }
}

impl AliasTable {
    /// A well-formed resolver holds no duplicate raw name.
    pub open spec fn wf(&self) -> bool {
        table_no_dup(self@)
    }

    /// Builds a resolver from alias entries, rejecting any table in which
    /// two entries claim the same raw name.
    pub fn new(entries: Vec<AliasEntry>) -> (r: Result<AliasTable, ConfigError>)
        ensures
            r is Ok <==> table_no_dup(entries_view(entries@)),
            r matches Ok(t) ==> t@ == entries_view(entries@) && t.wf(),
            r matches Err(e) ==> exists|i: int, j: int|
                0 <= i < j < entries@.len() && entries@[i].name@ == entries@[j].name@
                    && e.duplicate@ == entries@[j].name@,
    {
        let ghost v = entries_view(entries@);
        let mut j: usize = 0;
        while j < entries.len()
            invariant
                j <= entries.len(),
                v == entries_view(entries@),
                forall|a: int, b: int| 0 <= a < b < j ==> v[a].0 != v[b].0,
            decreases entries.len() - j,
        {
            let mut i: usize = 0;
            while i < j
                invariant
                    i <= j < entries.len(),
                    v == entries_view(entries@),
                    forall|a: int| 0 <= a < i ==> v[a].0 != v[j as int].0,
                decreases j - i,
            {
                if entries[i].name == entries[j].name {
                    let dup = entries[j].name.clone();
                    proof {
                        assert(v[i as int].0 == entries@[i as int].name@);
                        assert(v[j as int].0 == entries@[j as int].name@);
                        assert(!table_no_dup(v));
                    }
                    return Result::Err(ConfigError { duplicate: dup });
                }
                i = i + 1;
            }
            j = j + 1;
        }
        Result::Ok(AliasTable { entries })
    }

    /// Resolves one raw column name to its canonical field; unrecognized
    /// names yield `None` and are ignored by ingestion, never an error.
    pub fn resolve(&self, name: &String) -> (r: Option<Field>)
        ensures
            r == lookup(self@, name@),
    {
        let mut i: usize = 0;
        proof {
            assert(self@.skip(0) =~= self@);
        }
        while i < self.entries.len()
            invariant
                i <= self.entries.len(),
                lookup(self@, name@) == lookup(self@.skip(i as int), name@),
            decreases self.entries.len() - i,
        {
            proof {
                assert(self@.skip(i as int)[0] == self@[i as int]);
                assert(self@.skip(i as int).drop_first() =~= self@.skip(i + 1));
            }
            if self.entries[i].name == *name {
                return Option::Some(self.entries[i].field);
            }
            i = i + 1;
        }
        proof {
            assert(self@.skip(self.entries@.len() as int) =~= Seq::<(Seq<char>, Field)>::empty());
        }
        Option::None
    }
}

/// Aliases for status labels and star identifiers.
pub open spec fn entries_star_identity() -> Seq<(Seq<char>, Field)> {
    seq![
        ("status"@, Field::Status),
        ("disposition"@, Field::Status),
        ("koi_disposition"@, Field::Status),
        ("tfopwg_disp"@, Field::Status),
        ("star_id"@, Field::StarId),
        ("tid"@, Field::StarId),
        ("tic"@, Field::StarId),
        ("tic_id"@, Field::StarId),
        ("TIC"@, Field::StarId),
        ("TIC ID"@, Field::StarId),
        ("epic_id"@, Field::StarId),
        ("epic"@, Field::StarId),
        ("EPIC"@, Field::StarId),
        ("EPIC ID"@, Field::StarId),
        ("kepid"@, Field::StarId),
        ("kepler_id"@, Field::StarId),
        ("Kepler ID"@, Field::StarId),
    ]
}

fn aliases_star_identity() -> (r: Vec<AliasEntry>)
    ensures
        entries_view(r@) == entries_star_identity(),
{
    let mut es: Vec<AliasEntry> = Vec::new();
    proof {
        assert(entries_view(es@) =~= Seq::<(Seq<char>, Field)>::empty());
    }
    push_alias(&mut es, "status", Field::Status);
    push_alias(&mut es, "disposition", Field::Status);
    push_alias(&mut es, "koi_disposition", Field::Status);
    push_alias(&mut es, "tfopwg_disp", Field::Status);
    push_alias(&mut es, "star_id", Field::StarId);
    push_alias(&mut es, "tid", Field::StarId);
    push_alias(&mut es, "tic", Field::StarId);
    push_alias(&mut es, "tic_id", Field::StarId);
    push_alias(&mut es, "TIC", Field::StarId);
    push_alias(&mut es, "TIC ID", Field::StarId);
    push_alias(&mut es, "epic_id", Field::StarId);
    push_alias(&mut es, "epic", Field::StarId);
    push_alias(&mut es, "EPIC", Field::StarId);
    push_alias(&mut es, "EPIC ID", Field::StarId);
    push_alias(&mut es, "kepid", Field::StarId);
    push_alias(&mut es, "kepler_id", Field::StarId);
    push_alias(&mut es, "Kepler ID", Field::StarId);
    es
}

/// Aliases for planet and candidate identifiers.
pub open spec fn entries_planet_identity() -> Seq<(Seq<char>, Field)> {
    seq![
        ("planet_id"@, Field::PlanetId),
        ("toi"@, Field::PlanetId),
        ("TOI"@, Field::PlanetId),
        ("epic_cand_id"@, Field::PlanetId),
        ("koi"@, Field::PlanetId),
        ("KOI"@, Field::PlanetId),
        ("pl_name"@, Field::PlanetId),
        ("planet_name"@, Field::PlanetId),
        ("Planet Name"@, Field::PlanetId),
        ("kepoi_name"@, Field::PlanetId),
        ("KOI Name"@, Field::PlanetId),
        ("K2 Name"@, Field::PlanetId),
    ]
}

fn aliases_planet_identity() -> (r: Vec<AliasEntry>)
    ensures
        entries_view(r@) == entries_planet_identity(),
{
    let mut es: Vec<AliasEntry> = Vec::new();
    proof {
        assert(entries_view(es@) =~= Seq::<(Seq<char>, Field)>::empty());
    }
    push_alias(&mut es, "planet_id", Field::PlanetId);
    push_alias(&mut es, "toi", Field::PlanetId);
    push_alias(&mut es, "TOI", Field::PlanetId);
    push_alias(&mut es, "epic_cand_id", Field::PlanetId);
    push_alias(&mut es, "koi", Field::PlanetId);
    push_alias(&mut es, "KOI", Field::PlanetId);
    push_alias(&mut es, "pl_name", Field::PlanetId);
    push_alias(&mut es, "planet_name", Field::PlanetId);
    push_alias(&mut es, "Planet Name", Field::PlanetId);
    push_alias(&mut es, "kepoi_name", Field::PlanetId);
    push_alias(&mut es, "KOI Name", Field::PlanetId);
    push_alias(&mut es, "K2 Name", Field::PlanetId);
    es
}

/// Aliases for sky position and magnitude.
pub open spec fn entries_position() -> Seq<(Seq<char>, Field)> {
    seq![
        ("ra"@, Field::Ra),
        ("dec"@, Field::Dec),
        ("mag"@, Field::Mag),
        ("Tmag"@, Field::Mag),
        ("kepmag"@, Field::Mag),
        ("Kp"@, Field::Mag),
    ]
}

fn aliases_position() -> (r: Vec<AliasEntry>)
    ensures
        entries_view(r@) == entries_position(),
{
    let mut es: Vec<AliasEntry> = Vec::new();
    proof {
        assert(entries_view(es@) =~= Seq::<(Seq<char>, Field)>::empty());
    }
    push_alias(&mut es, "ra", Field::Ra);
    push_alias(&mut es, "dec", Field::Dec);
    push_alias(&mut es, "mag", Field::Mag);
    push_alias(&mut es, "Tmag", Field::Mag);
    push_alias(&mut es, "kepmag", Field::Mag);
    push_alias(&mut es, "Kp", Field::Mag);
    es
}

/// Aliases for transit geometry and signal.
pub open spec fn entries_transit() -> Seq<(Seq<char>, Field)> {
    seq![
        ("orbital_period_days"@, Field::OrbitalPeriodDays),
        ("pl_orbper"@, Field::OrbitalPeriodDays),
        ("koi_period"@, Field::OrbitalPeriodDays),
        ("Period"@, Field::OrbitalPeriodDays),
        ("transit_epoch_bjd"@, Field::TransitEpochBjd),
        ("pl_tranmid"@, Field::TransitEpochBjd),
        ("koi_time0bk"@, Field::TransitEpochBjd),
        ("Epoch"@, Field::TransitEpochBjd),
        ("transit_duration_hr"@, Field::TransitDurationHr),
        ("koi_duration"@, Field::TransitDurationHr),
        ("Duration"@, Field::TransitDurationHr),
        ("transit_depth_ppm"@, Field::TransitDepthPpm),
        ("koi_depth"@, Field::TransitDepthPpm),
        ("Depth"@, Field::TransitDepthPpm),
        ("rp_over_rs"@, Field::RpOverRs),
        ("koi_ror"@, Field::RpOverRs),
        ("Rp/Rs"@, Field::RpOverRs),
    ]
}

fn aliases_transit() -> (r: Vec<AliasEntry>)
    ensures
        entries_view(r@) == entries_transit(),
{
    let mut es: Vec<AliasEntry> = Vec::new();
    proof {
        assert(entries_view(es@) =~= Seq::<(Seq<char>, Field)>::empty());
    }
    push_alias(&mut es, "orbital_period_days", Field::OrbitalPeriodDays);
    push_alias(&mut es, "pl_orbper", Field::OrbitalPeriodDays);
    push_alias(&mut es, "koi_period", Field::OrbitalPeriodDays);
    push_alias(&mut es, "Period", Field::OrbitalPeriodDays);
    push_alias(&mut es, "transit_epoch_bjd", Field::TransitEpochBjd);
    push_alias(&mut es, "pl_tranmid", Field::TransitEpochBjd);
    push_alias(&mut es, "koi_time0bk", Field::TransitEpochBjd);
    push_alias(&mut es, "Epoch", Field::TransitEpochBjd);
    push_alias(&mut es, "transit_duration_hr", Field::TransitDurationHr);
    push_alias(&mut es, "koi_duration", Field::TransitDurationHr);
    push_alias(&mut es, "Duration", Field::TransitDurationHr);
    push_alias(&mut es, "transit_depth_ppm", Field::TransitDepthPpm);
    push_alias(&mut es, "koi_depth", Field::TransitDepthPpm);
    push_alias(&mut es, "Depth", Field::TransitDepthPpm);
    push_alias(&mut es, "rp_over_rs", Field::RpOverRs);
    push_alias(&mut es, "koi_ror", Field::RpOverRs);
    push_alias(&mut es, "Rp/Rs", Field::RpOverRs);
    es
}

/// Aliases for orbital shape and planet mass.
pub open spec fn entries_orbit_mass() -> Seq<(Seq<char>, Field)> {
    seq![
        ("eccentricity"@, Field::Eccentricity),
        ("pl_orbeccen"@, Field::Eccentricity),
        ("Eccentricity"@, Field::Eccentricity),
        ("inclination_deg"@, Field::InclinationDeg),
        ("pl_orbincl"@, Field::InclinationDeg),
        ("Inclination"@, Field::InclinationDeg),
        ("semi_major_axis_au"@, Field::SemiMajorAxisAu),
        ("pl_orbsmax"@, Field::SemiMajorAxisAu),
        ("koi_sma"@, Field::SemiMajorAxisAu),
        ("Semi-major Axis"@, Field::SemiMajorAxisAu),
        ("planet_mass_me"@, Field::PlanetMassMe),
        ("pl_bmasse"@, Field::PlanetMassMe),
        ("Planet Mass"@, Field::PlanetMassMe),
        ("planet_mass_mj"@, Field::PlanetMassMj),
        ("pl_bmassj"@, Field::PlanetMassMj),
        ("Planet Mass [Jup]"@, Field::PlanetMassMj),
    ]
}

fn aliases_orbit_mass() -> (r: Vec<AliasEntry>)
    ensures
        entries_view(r@) == entries_orbit_mass(),
{
    let mut es: Vec<AliasEntry> = Vec::new();
    proof {
        assert(entries_view(es@) =~= Seq::<(Seq<char>, Field)>::empty());
    }
    push_alias(&mut es, "eccentricity", Field::Eccentricity);
    push_alias(&mut es, "pl_orbeccen", Field::Eccentricity);
    push_alias(&mut es, "Eccentricity", Field::Eccentricity);
    push_alias(&mut es, "inclination_deg", Field::InclinationDeg);
    push_alias(&mut es, "pl_orbincl", Field::InclinationDeg);
    push_alias(&mut es, "Inclination", Field::InclinationDeg);
    push_alias(&mut es, "semi_major_axis_au", Field::SemiMajorAxisAu);
    push_alias(&mut es, "pl_orbsmax", Field::SemiMajorAxisAu);
    push_alias(&mut es, "koi_sma", Field::SemiMajorAxisAu);
    push_alias(&mut es, "Semi-major Axis", Field::SemiMajorAxisAu);
    push_alias(&mut es, "planet_mass_me", Field::PlanetMassMe);
    push_alias(&mut es, "pl_bmasse", Field::PlanetMassMe);
    push_alias(&mut es, "Planet Mass", Field::PlanetMassMe);
    push_alias(&mut es, "planet_mass_mj", Field::PlanetMassMj);
    push_alias(&mut es, "pl_bmassj", Field::PlanetMassMj);
    push_alias(&mut es, "Planet Mass [Jup]", Field::PlanetMassMj);
    es
}

/// Aliases for planet size, temperature and flux.
pub open spec fn entries_planet_bulk() -> Seq<(Seq<char>, Field)> {
    seq![
        ("planet_radius_re"@, Field::PlanetRadiusRe),
        ("pl_rade"@, Field::PlanetRadiusRe),
        ("koi_prad"@, Field::PlanetRadiusRe),
        ("Planet Radius"@, Field::PlanetRadiusRe),
        ("planet_eq_temp_k"@, Field::PlanetEqTempK),
        ("pl_eqt"@, Field::PlanetEqTempK),
        ("koi_teq"@, Field::PlanetEqTempK),
        ("Equilibrium Temp"@, Field::PlanetEqTempK),
        ("planet_density"@, Field::PlanetDensity),
        ("pl_dens"@, Field::PlanetDensity),
        ("Density"@, Field::PlanetDensity),
        ("insolation_flux"@, Field::InsolationFlux),
        ("pl_insol"@, Field::InsolationFlux),
        ("Insolation Flux"@, Field::InsolationFlux),
    ]
}

fn aliases_planet_bulk() -> (r: Vec<AliasEntry>)
    ensures
        entries_view(r@) == entries_planet_bulk(),
{
    let mut es: Vec<AliasEntry> = Vec::new();
    proof {
        assert(entries_view(es@) =~= Seq::<(Seq<char>, Field)>::empty());
    }
    push_alias(&mut es, "planet_radius_re", Field::PlanetRadiusRe);
    push_alias(&mut es, "pl_rade", Field::PlanetRadiusRe);
    push_alias(&mut es, "koi_prad", Field::PlanetRadiusRe);
    push_alias(&mut es, "Planet Radius", Field::PlanetRadiusRe);
    push_alias(&mut es, "planet_eq_temp_k", Field::PlanetEqTempK);
    push_alias(&mut es, "pl_eqt", Field::PlanetEqTempK);
    push_alias(&mut es, "koi_teq", Field::PlanetEqTempK);
    push_alias(&mut es, "Equilibrium Temp", Field::PlanetEqTempK);
    push_alias(&mut es, "planet_density", Field::PlanetDensity);
    push_alias(&mut es, "pl_dens", Field::PlanetDensity);
    push_alias(&mut es, "Density", Field::PlanetDensity);
    push_alias(&mut es, "insolation_flux", Field::InsolationFlux);
    push_alias(&mut es, "pl_insol", Field::InsolationFlux);
    push_alias(&mut es, "Insolation Flux", Field::InsolationFlux);
    es
}

/// Aliases for stellar temperature, radius and mass.
pub open spec fn entries_stellar_bulk() -> Seq<(Seq<char>, Field)> {
    seq![
        ("stellar_teff_k"@, Field::StellarTeffK),
        ("st_teff"@, Field::StellarTeffK),
        ("koi_steff"@, Field::StellarTeffK),
        ("Teff"@, Field::StellarTeffK),
        ("stellar_radius_rs"@, Field::StellarRadiusRs),
        ("st_rad"@, Field::StellarRadiusRs),
        ("koi_srad"@, Field::StellarRadiusRs),
        ("Radius"@, Field::StellarRadiusRs),
        ("stellar_mass_ms"@, Field::StellarMassMs),
        ("st_mass"@, Field::StellarMassMs),
        ("koi_smass"@, Field::StellarMassMs),
        ("Mass"@, Field::StellarMassMs),
    ]
}

fn aliases_stellar_bulk() -> (r: Vec<AliasEntry>)
    ensures
        entries_view(r@) == entries_stellar_bulk(),
{
    let mut es: Vec<AliasEntry> = Vec::new();
    proof {
        assert(entries_view(es@) =~= Seq::<(Seq<char>, Field)>::empty());
    }
    push_alias(&mut es, "stellar_teff_k", Field::StellarTeffK);
    push_alias(&mut es, "st_teff", Field::StellarTeffK);
    push_alias(&mut es, "koi_steff", Field::StellarTeffK);
    push_alias(&mut es, "Teff", Field::StellarTeffK);
    push_alias(&mut es, "stellar_radius_rs", Field::StellarRadiusRs);
    push_alias(&mut es, "st_rad", Field::StellarRadiusRs);
    push_alias(&mut es, "koi_srad", Field::StellarRadiusRs);
    push_alias(&mut es, "Radius", Field::StellarRadiusRs);
    push_alias(&mut es, "stellar_mass_ms", Field::StellarMassMs);
    push_alias(&mut es, "st_mass", Field::StellarMassMs);
    push_alias(&mut es, "koi_smass", Field::StellarMassMs);
    push_alias(&mut es, "Mass", Field::StellarMassMs);
    es
}

/// Aliases for stellar composition and gravity.
pub open spec fn entries_stellar_comp() -> Seq<(Seq<char>, Field)> {
    seq![
        ("stellar_metallicity"@, Field::StellarMetallicity),
        ("st_metfe"@, Field::StellarMetallicity),
        ("koi_smet"@, Field::StellarMetallicity),
        ("Metallicity"@, Field::StellarMetallicity),
        ("stellar_logg"@, Field::StellarLogg),
        ("st_logg"@, Field::StellarLogg),
        ("koi_slogg"@, Field::StellarLogg),
        ("logg"@, Field::StellarLogg),
    ]
}

fn aliases_stellar_comp() -> (r: Vec<AliasEntry>)
    ensures
        entries_view(r@) == entries_stellar_comp(),
{
    let mut es: Vec<AliasEntry> = Vec::new();
    proof {
        assert(entries_view(es@) =~= Seq::<(Seq<char>, Field)>::empty());
    }
    push_alias(&mut es, "stellar_metallicity", Field::StellarMetallicity);
    push_alias(&mut es, "st_metfe", Field::StellarMetallicity);
    push_alias(&mut es, "koi_smet", Field::StellarMetallicity);
    push_alias(&mut es, "Metallicity", Field::StellarMetallicity);
    push_alias(&mut es, "stellar_logg", Field::StellarLogg);
    push_alias(&mut es, "st_logg", Field::StellarLogg);
    push_alias(&mut es, "koi_slogg", Field::StellarLogg);
    push_alias(&mut es, "logg", Field::StellarLogg);
    es
}

/// Aliases for provenance and vetting.
pub open spec fn entries_provenance() -> Seq<(Seq<char>, Field)> {
    seq![
        ("mission"@, Field::Mission),
        ("facility"@, Field::Mission),
        ("discovery_year"@, Field::DiscoveryYear),
        ("disc_year"@, Field::DiscoveryYear),
        ("Discovery Year"@, Field::DiscoveryYear),
        ("discovery_method"@, Field::DiscoveryMethod),
        ("discoverymethod"@, Field::DiscoveryMethod),
        ("Discovery Method"@, Field::DiscoveryMethod),
        ("detection_snr"@, Field::DetectionSnr),
        ("koi_model_snr"@, Field::DetectionSnr),
        ("SNR"@, Field::DetectionSnr),
        ("snr"@, Field::DetectionSnr),
        ("vetting_score"@, Field::VettingScore),
        ("koi_score"@, Field::VettingScore),
        ("score"@, Field::VettingScore),
        ("prob"@, Field::VettingScore),
    ]
}

fn aliases_provenance() -> (r: Vec<AliasEntry>)
    ensures
        entries_view(r@) == entries_provenance(),
{
    let mut es: Vec<AliasEntry> = Vec::new();
    proof {
        assert(entries_view(es@) =~= Seq::<(Seq<char>, Field)>::empty());
    }
    push_alias(&mut es, "mission", Field::Mission);
    push_alias(&mut es, "facility", Field::Mission);
    push_alias(&mut es, "discovery_year", Field::DiscoveryYear);
    push_alias(&mut es, "disc_year", Field::DiscoveryYear);
    push_alias(&mut es, "Discovery Year", Field::DiscoveryYear);
    push_alias(&mut es, "discovery_method", Field::DiscoveryMethod);
    push_alias(&mut es, "discoverymethod", Field::DiscoveryMethod);
    push_alias(&mut es, "Discovery Method", Field::DiscoveryMethod);
    push_alias(&mut es, "detection_snr", Field::DetectionSnr);
    push_alias(&mut es, "koi_model_snr", Field::DetectionSnr);
    push_alias(&mut es, "SNR", Field::DetectionSnr);
    push_alias(&mut es, "snr", Field::DetectionSnr);
    push_alias(&mut es, "vetting_score", Field::VettingScore);
    push_alias(&mut es, "koi_score", Field::VettingScore);
    push_alias(&mut es, "score", Field::VettingScore);
    push_alias(&mut es, "prob", Field::VettingScore);
    es
}

/// Appends one alias entry, keeping the table view in step.
fn push_alias(es: &mut Vec<AliasEntry>, name: &str, field: Field)
    ensures
        entries_view(final(es)@) == entries_view(old(es)@).push((name@, field)),
{
    es.push(AliasEntry { name: name.to_owned(), field });
    proof {
        assert(entries_view(es@) =~= entries_view(old(es)@).push((name@, field)));
    }
}

/// The standard alias table shared by the three supported survey
/// catalogs: for each canonical field, its canonical column name and
/// every known source spelling.
pub open spec fn standard_entries() -> Seq<(Seq<char>, Field)> {
    entries_star_identity() + entries_planet_identity() + entries_position() + entries_transit() + entries_orbit_mass() + entries_planet_bulk() + entries_stellar_bulk() + entries_stellar_comp() + entries_provenance()
}

/// `entries_view` distributes over concatenation of entry lists.
proof fn lemma_entries_view_concat(a: Seq<AliasEntry>, b: Seq<AliasEntry>)
    ensures
        entries_view(a + b) == entries_view(a) + entries_view(b),
{
    assert(entries_view(a + b) =~= entries_view(a) + entries_view(b));
}

/// Builds the resolver over the standard alias table.  Success is owed
/// exactly when that table holds no duplicate raw name; a duplicate is
/// a configuration error, fatal before any ingestion begins.
pub fn standard() -> (r: Result<AliasTable, ConfigError>)
    ensures
        r is Ok <==> table_no_dup(standard_entries()),
        r matches Ok(t) ==> t@ == standard_entries() && t.wf(),
{
    let mut es: Vec<AliasEntry> = aliases_star_identity();
    let mut part_planet_identity: Vec<AliasEntry> = aliases_planet_identity();
    proof {
        lemma_entries_view_concat(es@, part_planet_identity@);
    }
    es.append(&mut part_planet_identity);
    let mut part_position: Vec<AliasEntry> = aliases_position();
    proof {
        lemma_entries_view_concat(es@, part_position@);
    }
    es.append(&mut part_position);
    let mut part_transit: Vec<AliasEntry> = aliases_transit();
    proof {
        lemma_entries_view_concat(es@, part_transit@);
    }
    es.append(&mut part_transit);
    let mut part_orbit_mass: Vec<AliasEntry> = aliases_orbit_mass();
    proof {
        lemma_entries_view_concat(es@, part_orbit_mass@);
    }
    es.append(&mut part_orbit_mass);
    let mut part_planet_bulk: Vec<AliasEntry> = aliases_planet_bulk();
    proof {
        lemma_entries_view_concat(es@, part_planet_bulk@);
    }
    es.append(&mut part_planet_bulk);
    let mut part_stellar_bulk: Vec<AliasEntry> = aliases_stellar_bulk();
    proof {
        lemma_entries_view_concat(es@, part_stellar_bulk@);
    }
    es.append(&mut part_stellar_bulk);
    let mut part_stellar_comp: Vec<AliasEntry> = aliases_stellar_comp();
    proof {
        lemma_entries_view_concat(es@, part_stellar_comp@);
    }
    es.append(&mut part_stellar_comp);
    let mut part_provenance: Vec<AliasEntry> = aliases_provenance();
    proof {
        lemma_entries_view_concat(es@, part_provenance@);
    }
    es.append(&mut part_provenance);
    AliasTable::new(es)
}

} // verus!
