//! The command-line interface: what each command asks the program to do, and
//! the schedule of a simulation run started from the command line.
use vstd::prelude::*;

verus! {

/// A command given on the command line.
#[derive(Debug, PartialEq, Eq)]
pub enum Commands {
    /// Start a new simulation process with a configuration file, logging to
    /// an output file.
    Start { config: String, outpath: String },
    /// Inspect a physics parameter in an existing simulation.
    Get { param: String },
    /// Modify a physics parameter in an existing simulation.
    SetParam { param: String, value: String },
    /// Open the graphical user interface.
    Gui,
}

/// Why a command was not carried out.
#[derive(Debug, Clone, Copy, PartialEq, Eq, Structural)]
pub enum CliError {
    /// The graphical interface was asked for but is not built in.
    GuiNotEnabled,
    /// The command is not implemented.
    NotImplemented,
}

/// What the program does for a command.
#[derive(Debug, PartialEq, Eq)]
pub enum CliAction {
    /// Run a simulation with this configuration file and output file.
    StartSim { config: String, outpath: String },
    /// Open the graphical user interface.
    StartGui,
    /// Report an error and do nothing else.
    Report(CliError),
}

/// The message reported for an error.
pub open spec fn spec_error_message(e: CliError) -> Seq<char> {
    match e {
        CliError::GuiNotEnabled => "GUI feature not enabled. Reinstall with `--features gui`"@,
        CliError::NotImplemented => "Command not implemented yet!"@,
    }
}

impl CliError {
    /// The message reported for the error.
    pub fn message(&self) -> (m: String)
        ensures
            m@ == spec_error_message(*self),
    {
        match self {
            CliError::GuiNotEnabled => "GUI feature not enabled. Reinstall with `--features gui`".to_owned(),
            CliError::NotImplemented => "Command not implemented yet!".to_owned(),
        }
    }
}

/// Decides what to do for a command line. `gui_enabled` tells whether the
/// graphical interface is built in.
pub fn parse_inputs(command: Commands, gui_enabled: bool) -> (action: CliAction)
    ensures
        match command {
            Commands::Start { config, outpath } => action == (CliAction::StartSim {
                config,
                outpath,
            }),
            Commands::Gui => if gui_enabled {
                action == CliAction::StartGui
            } else {
                action == CliAction::Report(CliError::GuiNotEnabled)
            },
            _ => action == CliAction::Report(CliError::NotImplemented),
        },
{
    match command {
        Commands::Start { config, outpath } => CliAction::StartSim { config, outpath },
        Commands::Gui => {
            if gui_enabled {
                CliAction::StartGui
            } else {
                CliAction::Report(CliError::GuiNotEnabled)
            }
        },
        _ => CliAction::Report(CliError::NotImplemented),
    }
}

/// Where a simulation run stands in its schedule.
#[derive(Debug, Clone, Copy, PartialEq, Eq, Structural)]
pub enum RunPhase {
    /// The simulation has not been started yet.
    NotStarted,
    /// Next, the simulation's output is collected.
    Collect,
    /// Next, the runner sleeps until the next tick.
    Sleep,
}

/// One thing the runner asks its caller to do.
#[derive(Debug, Clone, Copy, PartialEq, Eq, Structural)]
pub enum SimAction {
    /// Start the simulation in the background.
    Start,
    /// Collect the simulation's latest output.
    CollectOutput,
    /// Sleep until the next tick of the runner's rate.
    Sleep,
}

/// The action asked for in a phase, and the phase that follows.
pub open spec fn spec_step(p: RunPhase) -> (RunPhase, SimAction) {
    match p {
        RunPhase::NotStarted => (RunPhase::Collect, SimAction::Start),
        RunPhase::Collect => (RunPhase::Sleep, SimAction::CollectOutput),
        RunPhase::Sleep => (RunPhase::Collect, SimAction::Sleep),
    }
}

/// A simulation run started from the command line: its configuration file,
/// its output file, the period of its loop, and where it stands.
pub struct SimRunner {
    pub config: String,
    pub outpath: String,
    pub period_ms: u64,
    pub phase: RunPhase,
}

/// Prepares a simulation run with the given configuration and output files.
/// The run first starts the simulation, then collects its output once per
/// second, forever.
pub fn start_sim(config: &String, outpath: &String) -> (r: SimRunner)
    ensures
        r.config@ == config@,
        r.outpath@ == outpath@,
        r.period_ms == 1000,
        r.phase == RunPhase::NotStarted,
{
    SimRunner {
        config: config.clone(),
        outpath: outpath.clone(),
        period_ms: 1000,
        phase: RunPhase::NotStarted,
    }
}

impl SimRunner {
    /// The next thing to do, advancing the schedule.
    pub fn next_action(&mut self) -> (a: SimAction)
        ensures
            final(self).phase == spec_step(old(self).phase).0,
            a == spec_step(old(self).phase).1,
            final(self).config == old(self).config,
            final(self).outpath == old(self).outpath,
            final(self).period_ms == old(self).period_ms,
    {
        match self.phase {
            RunPhase::NotStarted => {
                self.phase = RunPhase::Collect;
                SimAction::Start
            },
            RunPhase::Collect => {
                self.phase = RunPhase::Sleep;
                SimAction::CollectOutput
            },
            RunPhase::Sleep => {
                self.phase = RunPhase::Collect;
                SimAction::Sleep
            },
        }
    }
}

/// The phase of a run after `n` steps from its start.
pub open spec fn phase_after(n: nat) -> RunPhase
    decreases n,
{
    if n == 0 {
        RunPhase::NotStarted
    } else {
        spec_step(phase_after((n - 1) as nat)).0
    }
}

/// The action asked for at step `n` (counting from zero) of a run.
pub open spec fn action_at(n: nat) -> SimAction {
    spec_step(phase_after(n)).1
}

/// A run starts the simulation exactly once, at its first step, and then
/// alternates between collecting output and sleeping, forever.
pub proof fn lemma_run_schedule(n: nat)
    ensures
        n == 0 ==> action_at(n) == SimAction::Start,
        n > 0 && n % 2 == 1 ==> action_at(n) == SimAction::CollectOutput,
        n > 0 && n % 2 == 0 ==> action_at(n) == SimAction::Sleep,
        n > 0 ==> phase_after(n) != RunPhase::NotStarted,
    decreases n,
{
    if n > 0 {
        lemma_run_schedule((n - 1) as nat);
    }
}

/// The messages reported for the two errors.
pub proof fn lemma_error_messages()
    ensures
        spec_error_message(CliError::GuiNotEnabled)
            == "GUI feature not enabled. Reinstall with `--features gui`"@,
        spec_error_message(CliError::NotImplemented) == "Command not implemented yet!"@,
{
}

/// The first three steps of a run: start, collect output, sleep.
pub proof fn lemma_run_steps()
    ensures
        spec_step(RunPhase::NotStarted) == (RunPhase::Collect, SimAction::Start),
        spec_step(RunPhase::Collect) == (RunPhase::Sleep, SimAction::CollectOutput),
        spec_step(RunPhase::Sleep) == (RunPhase::Collect, SimAction::Sleep),
{
}

} // verus!
