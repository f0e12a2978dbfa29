//! The on-screen monitors: the text they show and how wide it is.
//!
//! Numbers are formatted by the caller; the monitors lay the formatted
//! numbers out with their labels and units.
use vstd::prelude::*;
use vstd::string::StringExecFns;

use crate::sim_state::SimState;

verus! {

/// The text shown by the state monitor for a state.
pub open spec fn spec_state_label(s: SimState) -> Seq<char> {
    match s {
        SimState::Running => "Running"@,
        SimState::Stopped => "Stopped"@,
        SimState::Faulted => "Unknown"@,
    }
}

/// Formats a simulation state for the state monitor.
pub fn format_value(value: SimState) -> (text: String)
    ensures
        text@ == spec_state_label(value),
{
    match value {
        SimState::Running => "Running".to_owned(),
        SimState::Stopped => "Stopped".to_owned(),
        SimState::Faulted => "Unknown".to_owned(),
    }
}

/// The state monitor highlights a stopped simulation, provided a highlight
/// threshold is configured.
pub fn value_highlight(has_threshold: bool, value: SimState) -> (highlight: bool)
    ensures
        highlight == (has_threshold && value == SimState::Stopped),
{
    has_threshold && value == SimState::Stopped
}

/// The label of a monitor: its custom label, or `default_label` when the
/// custom label is empty.
pub fn monitor_label(label: &String, default_label: &str) -> (shown: String)
    ensures
        label@.len() == 0 ==> shown@ == default_label@,
        label@.len() != 0 ==> shown@ == label@,
{
    if label.as_str().is_empty() {
        default_label.to_owned()
    } else {
        label.clone()
    }
}

/// The width a monitor reserves for its value: the width of the formatted
/// number, plus the width of the unit suffix when units are displayed.
pub fn width_hint(number_width: usize, display_units: bool, units_width: usize) -> (w: usize)
    requires
        number_width + units_width <= usize::MAX,
    ensures
        w == if display_units { number_width + units_width } else { number_width as int },
{
    if display_units {
        number_width + units_width
    } else {
        number_width
    }
}

/// A formatted number followed by its unit when units are displayed.
pub open spec fn spec_with_unit(number: Seq<char>, unit: Seq<char>, display_units: bool) -> Seq<char> {
    if display_units {
        number + unit
    } else {
        number
    }
}

/// Appends the unit to a formatted number when units are displayed.
pub fn with_unit(number: String, unit: &str, display_units: bool) -> (s: String)
    ensures
        s@ == spec_with_unit(number@, unit@, display_units),
{
    if display_units {
        number.concat(unit)
    } else {
        number
    }
}

/// The text of the force monitor, from the formatted gravity, buoyancy and
/// drag forces.
pub open spec fn spec_force_text(gravity: Seq<char>, buoyancy: Seq<char>, drag: Seq<char>, display_units: bool) -> Seq<char> {
    "Gravity:  "@ + spec_with_unit(gravity, " N"@, display_units) + "\nBuoyancy: "@
        + spec_with_unit(buoyancy, " N"@, display_units) + "\nDrag:     "@ + spec_with_unit(
        drag,
        " N"@,
        display_units,
    )
}

/// Lays out the force monitor's text.
pub fn force_monitor_text(gravity: String, buoyancy: String, drag: String, display_units: bool) -> (s: String)
    ensures
        s@ == spec_force_text(gravity@, buoyancy@, drag@, display_units),
{
    let g = with_unit(gravity, " N", display_units);
    let b = with_unit(buoyancy, " N", display_units);
    let d = with_unit(drag, " N", display_units);
    let mut s = "Gravity:  ".to_owned();
    s.append(g.as_str());
    s.append("\nBuoyancy: ");
    s.append(b.as_str());
    s.append("\nDrag:     ");
    s.append(d.as_str());
    s
}

/// The text of the gas monitor, from the gas species' name and the formatted
/// volume, pressure, temperature, density and mass, one per line.
pub open spec fn spec_gas_text(
    species: Seq<char>,
    volume: Seq<char>,
    pressure: Seq<char>,
    temperature: Seq<char>,
    density: Seq<char>,
    mass: Seq<char>,
    display_units: bool,
) -> Seq<char> {
    species + "\n"@ + spec_with_unit(volume, " m3"@, display_units) + "\n"@ + spec_with_unit(
        pressure,
        " kPa"@,
        display_units,
    ) + "\n"@ + spec_with_unit(temperature, " K"@, display_units) + "\n"@ + spec_with_unit(
        density,
        " kg/m3"@,
        display_units,
    ) + "\n"@ + spec_with_unit(mass, " kg"@, display_units)
}

/// Lays out the gas monitor's text.
pub fn gas_monitor_text(
    species: String,
    volume: String,
    pressure: String,
    temperature: String,
    density: String,
    mass: String,
    display_units: bool,
) -> (s: String)
    ensures
        s@ == spec_gas_text(
            species@,
            volume@,
            pressure@,
            temperature@,
            density@,
            mass@,
            display_units,
        ),
{
    let v = with_unit(volume, " m3", display_units);
    let p = with_unit(pressure, " kPa", display_units);
    let t = with_unit(temperature, " K", display_units);
    let d = with_unit(density, " kg/m3", display_units);
    let m = with_unit(mass, " kg", display_units);
    let mut s = species;
    s.append("\n");
    s.append(v.as_str());
    s.append("\n");
    s.append(p.as_str());
    s.append("\n");
    s.append(t.as_str());
    s.append("\n");
    s.append(d.as_str());
    s.append("\n");
    s.append(m.as_str());
    s
}

/// The state monitor shows "Running" and "Stopped" for those states and
/// "Unknown" for a faulted simulation.
pub proof fn lemma_state_labels()
    ensures
        spec_state_label(SimState::Running) == "Running"@,
        spec_state_label(SimState::Stopped) == "Stopped"@,
        spec_state_label(SimState::Faulted) == "Unknown"@,
{
}

/// With units displayed a number is followed by its unit; without, it is
/// shown alone. Laying out a monitor with units is laying it out without units
/// from the numbers with their units appended.
pub proof fn lemma_units_appended(
    a: Seq<char>,
    b: Seq<char>,
    c: Seq<char>,
    d: Seq<char>,
    e: Seq<char>,
    species: Seq<char>,
    unit: Seq<char>,
)
    ensures
        spec_with_unit(a, unit, true) == a + unit,
        spec_with_unit(a, unit, false) == a,
        spec_force_text(a, b, c, false) == "Gravity:  "@ + a + "\nBuoyancy: "@ + b + "\nDrag:     "@
            + c,
        spec_force_text(a, b, c, true) == spec_force_text(a + " N"@, b + " N"@, c + " N"@, false),
        spec_gas_text(species, a, b, c, d, e, false) == species + "\n"@ + a + "\n"@ + b + "\n"@ + c
            + "\n"@ + d + "\n"@ + e,
        spec_gas_text(species, a, b, c, d, e, true) == spec_gas_text(
            species,
            a + " m3"@,
            b + " kPa"@,
            c + " K"@,
            d + " kg/m3"@,
            e + " kg"@,
            false,
        ),
{
}

} // verus!
