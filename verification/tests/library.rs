use buoy::camera::{
    handle_camera_targeting_inputs, movement_axis, movement_mode, next_target, MoveAxis, MoveMode,
    TargetEvent,
};
use buoy::cli::{parse_inputs, start_sim, CliAction, CliError, Commands, RunPhase, SimAction};
use buoy::debug::{DebugState, GizmoPreset};
use buoy::io::{log_header, SimCommands};
use buoy::parachute::{advances_progress, deploy, drag_area_mode, DragAreaMode, ParachuteState};
use buoy::shell::{
    config_view_name, flight_view_name, path_string, set_open, stats_view_name, OpenScreens,
    Screens,
};
use buoy::monitors::{
    force_monitor_text, format_value, gas_monitor_text, monitor_label, value_highlight, width_hint,
    with_unit,
};
use buoy::controls::{modify_time_scale, real_time_after, TimeScaleOp};
use buoy::flight::{drag_configuration, DragConfig};
use buoy::sim_state::{fault_if_out_of_bounds, toggle_pause, SimState};

// ---------------------------------------------------------------- cli

#[test]
fn start_command_starts_a_simulation_with_its_files() {
    let action = parse_inputs(
        Commands::Start {
            config: "config/default.toml".to_string(),
            outpath: "./out.csv".to_string(),
        },
        false,
    );
    assert_eq!(
        action,
        CliAction::StartSim {
            config: "config/default.toml".to_string(),
            outpath: "./out.csv".to_string()
        }
    );
}

#[test]
fn gui_command_opens_the_gui_when_built_in() {
    assert_eq!(parse_inputs(Commands::Gui, true), CliAction::StartGui);
}

#[test]
fn gui_command_reports_when_not_built_in() {
    let action = parse_inputs(Commands::Gui, false);
    assert_eq!(action, CliAction::Report(CliError::GuiNotEnabled));
    assert_eq!(
        CliError::GuiNotEnabled.message(),
        "GUI feature not enabled. Reinstall with `--features gui`"
    );
}

#[test]
fn get_and_set_are_not_implemented() {
    let get = parse_inputs(Commands::Get { param: "altitude".to_string() }, true);
    let set = parse_inputs(
        Commands::SetParam { param: "altitude".to_string(), value: "10".to_string() },
        true,
    );
    assert_eq!(get, CliAction::Report(CliError::NotImplemented));
    assert_eq!(set, CliAction::Report(CliError::NotImplemented));
    assert_eq!(CliError::NotImplemented.message(), "Command not implemented yet!");
}

#[test]
fn simulation_run_starts_once_then_alternates() {
    let mut runner = start_sim(&"cfg.toml".to_string(), &"log.csv".to_string());
    assert_eq!(runner.config, "cfg.toml");
    assert_eq!(runner.outpath, "log.csv");
    assert_eq!(runner.period_ms, 1000);
    assert_eq!(runner.phase, RunPhase::NotStarted);
    assert_eq!(runner.next_action(), SimAction::Start);
    for _ in 0..5 {
        assert_eq!(runner.next_action(), SimAction::CollectOutput);
        assert_eq!(runner.next_action(), SimAction::Sleep);
    }
    assert_eq!(runner.phase, RunPhase::Collect);
}

// ---------------------------------------------------------------- sim state

#[test]
fn pause_key_toggles_running_and_stopped() {
    assert_eq!(toggle_pause(SimState::Stopped, true), Some(SimState::Running));
    assert_eq!(toggle_pause(SimState::Running, true), Some(SimState::Stopped));
    assert_eq!(toggle_pause(SimState::Faulted, true), Some(SimState::Running));
    assert_eq!(toggle_pause(SimState::Running, false), None);
}

#[test]
fn pause_key_twice_restores_state() {
    for s in [SimState::Stopped, SimState::Running] {
        let once = toggle_pause(s, true).unwrap();
        assert_eq!(toggle_pause(once, true), Some(s));
    }
}

#[test]
fn default_sim_state_is_stopped() {
    assert_eq!(SimState::default(), SimState::Stopped);
}

#[test]
fn state_monitor_text_and_highlight() {
    assert_eq!(format_value(SimState::Running), "Running");
    assert_eq!(format_value(SimState::Stopped), "Stopped");
    assert_eq!(format_value(SimState::Faulted), "Unknown");
    assert!(value_highlight(true, SimState::Stopped));
    assert!(!value_highlight(false, SimState::Stopped));
    assert!(!value_highlight(true, SimState::Running));
    assert_eq!(monitor_label(&String::new(), "Simulation State"), "Simulation State");
    assert_eq!(monitor_label(&"Mine".to_string(), "Simulation State"), "Mine");
}

// ---------------------------------------------------------------- camera

#[test]
fn targeting_keys_raise_events_in_order() {
    assert_eq!(
        handle_camera_targeting_inputs(true, true, true),
        vec![TargetEvent::FocusOnTarget, TargetEvent::CycleToNextTarget, TargetEvent::ClearTarget]
    );
    assert_eq!(handle_camera_targeting_inputs(false, true, false), vec![TargetEvent::CycleToNextTarget]);
    assert!(handle_camera_targeting_inputs(false, false, false).is_empty());
}

#[test]
fn next_target_cases() {
    let targets = vec![10u64, 20, 30];
    assert_eq!(next_target(&vec![], Some(10)), None);
    assert_eq!(next_target(&vec![], None), None);
    assert_eq!(next_target(&targets, None), Some(10));
    assert_eq!(next_target(&targets, Some(10)), Some(20));
    assert_eq!(next_target(&targets, Some(20)), Some(30));
    assert_eq!(next_target(&targets, Some(30)), Some(10));
    // a target that is not a candidate continues after the first candidate
    assert_eq!(next_target(&targets, Some(99)), Some(20));
    assert_eq!(next_target(&vec![7], Some(99)), Some(7));
}

#[test]
fn cycling_returns_after_a_full_round() {
    let targets = vec![4u64, 8, 15, 16, 23, 42];
    let mut t = Some(15);
    for _ in 0..targets.len() {
        t = next_target(&targets, t);
    }
    assert_eq!(t, Some(15));
}

// ---------------------------------------------------------------- debug

#[test]
fn debug_defaults_and_toggles() {
    let mut s = DebugState::default();
    assert_eq!(s, DebugState { wireframe: false, forces: true, physics: false });
    assert_eq!(s.show_force_gizmos(), GizmoPreset::All);
    assert_eq!(s.show_physics_gizmos(), GizmoPreset::Off);
    let flip = s.toggle_debug_ui(true, true, false);
    assert!(flip);
    assert_eq!(s, DebugState { wireframe: true, forces: false, physics: false });
    assert_eq!(s.show_force_gizmos(), GizmoPreset::Off);
    assert!(!s.toggle_debug_ui(false, false, true));
    assert_eq!(s.show_physics_gizmos(), GizmoPreset::All);
}

#[test]
fn debug_keys_twice_restore() {
    let start = DebugState { wireframe: true, forces: false, physics: true };
    let mut s = start;
    s.toggle_debug_ui(true, false, true);
    s.toggle_debug_ui(true, false, true);
    assert_eq!(s, start);
}

// ---------------------------------------------------------------- parachute

#[test]
fn parachute_deploys_stage_by_stage() {
    let s = ParachuteState::Stowed;
    assert_eq!(deploy(s, false, true), ParachuteState::Stowed);
    let s = deploy(s, true, false);
    assert_eq!(s, ParachuteState::PartiallyOpen);
    assert!(advances_progress(s));
    assert_eq!(deploy(s, true, false), ParachuteState::PartiallyOpen);
    let s = deploy(s, false, true);
    assert_eq!(s, ParachuteState::FullyOpen);
    assert_eq!(deploy(s, false, false), ParachuteState::FullyOpen);
    assert!(!advances_progress(s));
}

#[test]
fn parachute_drag_area_modes() {
    assert_eq!(drag_area_mode(ParachuteState::Stowed), DragAreaMode::Zero);
    assert_eq!(drag_area_mode(ParachuteState::PartiallyOpen), DragAreaMode::ScaledByProgress);
    assert_eq!(drag_area_mode(ParachuteState::FullyOpen), DragAreaMode::Full);
}

// ---------------------------------------------------------------- io

#[test]
fn log_header_columns() {
    let header = log_header();
    assert_eq!(header.len(), 13);
    assert_eq!(header[0], "time_s");
    assert_eq!(header[4], "atmo_temp_K");
    assert_eq!(header[12], "main_parachute_area_m2");
    let _commands = SimCommands {};
}

// ---------------------------------------------------------------- shell

#[test]
fn set_open_adds_and_removes() {
    let mut open = OpenScreens::new();
    assert!(!open.contains("a"));
    set_open(&mut open, "a", true);
    set_open(&mut open, "a", true);
    set_open(&mut open, "b", true);
    assert!(open.contains("a"));
    assert!(open.contains("b"));
    set_open(&mut open, "a", false);
    assert!(!open.contains("a"));
    assert!(open.contains("b"));
    set_open(&mut open, "a", false);
    assert!(!open.contains("a"));
}

#[test]
fn default_screens_show_flight_only() {
    let screens = Screens::default();
    assert_eq!(screens.screen_names(), &vec![flight_view_name().to_string(), stats_view_name().to_string()]);
    assert!(screens.is_open("🗠 Flight"));
    assert!(!screens.is_open("🗠 Stats"));
    assert_eq!(screens.open_flags(), vec![true, false]);
}

#[test]
fn from_demos_opens_flight_even_if_not_listed() {
    let screens = Screens::from_demos(vec![config_view_name().to_string()]);
    assert!(screens.is_open(flight_view_name()));
    assert_eq!(screens.open_flags(), vec![false]);
}

#[test]
fn sync_open_records_reports() {
    let mut screens = Screens::default();
    screens.sync_open(&vec![Some(false), Some(true)]);
    assert_eq!(screens.open_flags(), vec![false, true]);
    screens.sync_open(&vec![None, Some(false)]);
    assert_eq!(screens.open_flags(), vec![false, false]);
}

#[test]
fn sync_with_unchanged_flags_keeps_state() {
    let mut screens = Screens::default();
    let flags: Vec<Option<bool>> = screens.open_flags().into_iter().map(Some).collect();
    screens.sync_open(&flags);
    assert_eq!(screens.open_flags(), vec![true, false]);
    assert!(screens.is_open("🗠 Flight"));
}

#[test]
fn picked_path_display() {
    assert_eq!(path_string(&None), "(none)");
    assert_eq!(path_string(&Some("config/x.toml".to_string())), "config/x.toml");
}

// ---------------------------------------------------------------- monitors

#[test]
fn width_hint_adds_unit_width() {
    assert_eq!(width_hint(9, true, 2), 11);
    assert_eq!(width_hint(9, false, 5), 9);
}

#[test]
fn units_are_appended_when_displayed() {
    assert_eq!(with_unit("1.000".to_string(), " N", true), "1.000 N");
    assert_eq!(with_unit("1.000".to_string(), " N", false), "1.000");
}

#[test]
fn force_monitor_layout() {
    let text = force_monitor_text("-9.807".to_string(), "12.000".to_string(), "0.500".to_string(), true);
    assert_eq!(text, "Gravity:  -9.807 N\nBuoyancy: 12.000 N\nDrag:     0.500 N");
    let bare = force_monitor_text("1".to_string(), "2".to_string(), "3".to_string(), false);
    assert_eq!(bare, "Gravity:  1\nBuoyancy: 2\nDrag:     3");
}

#[test]
fn gas_monitor_layout() {
    let text = gas_monitor_text(
        "Helium".to_string(),
        "1.00".to_string(),
        "101.33".to_string(),
        "288.15".to_string(),
        "0.17".to_string(),
        "0.50".to_string(),
        true,
    );
    assert_eq!(text, "Helium\n1.00 m3\n101.33 kPa\n288.15 K\n0.17 kg/m3\n0.50 kg");
}

// ---------------------------------------------------------------- controls

#[test]
fn time_scale_keys_in_order() {
    assert_eq!(
        modify_time_scale(true, true, true, true),
        vec![TimeScaleOp::Faster, TimeScaleOp::Slower, TimeScaleOp::Reset, TimeScaleOp::ToggleRealTime]
    );
    assert_eq!(modify_time_scale(false, true, false, false), vec![TimeScaleOp::Slower]);
    assert!(modify_time_scale(false, false, false, false).is_empty());
}

#[test]
fn out_of_bounds_body_faults_the_simulation() {
    assert_eq!(fault_if_out_of_bounds(&vec![false, true, false]), Some(SimState::Faulted));
    assert_eq!(fault_if_out_of_bounds(&vec![false, false]), None);
    assert_eq!(fault_if_out_of_bounds(&vec![]), None);
}

#[test]
fn real_time_mode_after_keys() {
    // reset leaves real-time mode, the toggle key switches it
    assert!(!real_time_after(true, &modify_time_scale(false, false, true, false)));
    assert!(real_time_after(false, &modify_time_scale(false, false, false, true)));
    assert!(real_time_after(true, &modify_time_scale(false, false, true, true)));
    assert!(real_time_after(true, &modify_time_scale(true, true, false, false)));
    assert!(!real_time_after(false, &modify_time_scale(true, false, false, false)));
}

// ---------------------------------------------------------------- camera movement

#[test]
fn movement_keys_give_axis() {
    assert_eq!(movement_axis(true, false, false, true, true, false), MoveAxis { x: -1, y: 1, z: 1 });
    assert_eq!(movement_axis(true, true, true, true, false, false), MoveAxis { x: 0, y: 0, z: 0 });
    assert_eq!(movement_axis(false, true, true, false, false, true), MoveAxis { x: 1, y: -1, z: -1 });
}

#[test]
fn movement_mode_choice() {
    let still = MoveAxis { x: 0, y: 0, z: 0 };
    let moving = MoveAxis { x: 0, y: 1, z: 0 };
    assert_eq!(movement_mode(still, true), MoveMode::Coast);
    assert_eq!(movement_mode(moving, true), MoveMode::Run);
    assert_eq!(movement_mode(moving, false), MoveMode::Walk);
}

#[test]
fn unlisted_old_target_moves_to_second_candidate() {
    assert_eq!(next_target(&vec![1u64, 2, 3], Some(7)), Some(2));
    assert_eq!(next_target(&vec![1u64], Some(7)), Some(1));
}

// ---------------------------------------------------------------- flight

#[test]
fn drag_configuration_choice() {
    assert_eq!(drag_configuration(true, true), DragConfig::Balloon);
    assert_eq!(drag_configuration(true, false), DragConfig::Balloon);
    assert_eq!(drag_configuration(false, true), DragConfig::Parachute);
    assert_eq!(drag_configuration(false, false), DragConfig::Box);
}
