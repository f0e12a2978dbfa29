//! The simulation's output log and command channel.
use vstd::prelude::*;

verus! {

/// Commands that can be sent to a running simulation. None are defined yet.
pub struct SimCommands {}

/// The columns of the simulation output log, in order.
pub open spec fn spec_log_columns() -> Seq<Seq<char>> {
    seq![
        "time_s"@,
        "altitude_m"@,
        "ascent_rate_m_s"@,
        "acceleration_m_s2"@,
        "atmo_temp_K"@,
        "atmo_pres_Pa"@,
        "balloon_pres_Pa"@,
        "balloon_radius_m"@,
        "balloon_stress_Pa"@,
        "balloon_strain_pct"@,
        "balloon_thickness_m"@,
        "drogue_parachute_area_m2"@,
        "main_parachute_area_m2"@,
    ]
}

/// The header record written at the top of a new simulation output log.
pub fn log_header() -> (header: Vec<String>)
    ensures
        header@.map_values(|s: String| s@) == spec_log_columns(),
{
    let mut header: Vec<String> = Vec::new();
    header.push("time_s".to_owned());
    header.push("altitude_m".to_owned());
    header.push("ascent_rate_m_s".to_owned());
    header.push("acceleration_m_s2".to_owned());
    header.push("atmo_temp_K".to_owned());
    header.push("atmo_pres_Pa".to_owned());
    header.push("balloon_pres_Pa".to_owned());
    header.push("balloon_radius_m".to_owned());
    header.push("balloon_stress_Pa".to_owned());
    header.push("balloon_strain_pct".to_owned());
    header.push("balloon_thickness_m".to_owned());
    header.push("drogue_parachute_area_m2".to_owned());
    header.push("main_parachute_area_m2".to_owned());
    assert(header@.map_values(|s: String| s@) =~= spec_log_columns());
    header
}

/// The output log has thirteen columns: time, altitude, ascent rate and
/// acceleration; the atmosphere's temperature and pressure; the balloon's
/// pressure, radius, stress, strain and thickness; and the drogue and main
/// parachutes' areas.
pub proof fn lemma_log_columns()
    ensures
        spec_log_columns().len() == 13,
        spec_log_columns() == seq![
            "time_s"@,
            "altitude_m"@,
            "ascent_rate_m_s"@,
            "acceleration_m_s2"@,
            "atmo_temp_K"@,
            "atmo_pres_Pa"@,
            "balloon_pres_Pa"@,
            "balloon_radius_m"@,
            "balloon_stress_Pa"@,
            "balloon_strain_pct"@,
            "balloon_thickness_m"@,
            "drogue_parachute_area_m2"@,
            "main_parachute_area_m2"@,
        ],
{
}

} // verus!
