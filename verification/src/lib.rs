//! Verified building blocks of a single-compartment neuron simulator.
//!
//! The numerical work of a simulation, the right-hand sides of the models and
//! their integration, is floating-point arithmetic and lives with the program
//! that drives this library. What the program decides lives here: which
//! constants a named parameter set stands for, which pieces of work a run is
//! made of and in which order, when a run fails and with which message, and
//! which component of a state a figure shows.

pub mod hh_neuron;
pub mod ml_neuron;
pub mod trajectory;
pub mod utils;

use crate::hh_neuron::{HHNeuronSubtype, HH_DIMENSION, HH_H, HH_M, HH_N, HH_V};
use crate::ml_neuron::{MLNeuronSubtype, ML_DIMENSION, ML_N, ML_V};
use vstd::prelude::*;
use vstd::string::*;

verus! {

/// How many units of a stored constant make up one: the constants of the
/// models are decimal numbers, held exactly as counts of thousandths.
pub const THOUSANDTHS: i64 = 1000;

/// The time at which every integration starts, in thousandths.
pub const T_START: i64 = 0;

/// The step by which every integration advances, in thousandths.
pub const STEP_SIZE: i64 = 10;

/// The statistics that the solver returns from an integration: how often it
/// evaluated the model and how many steps it took. Declared as it stands in
/// `ode_solvers`, so that a run can hand it on.
#[verifier::external_type_specification]
#[verifier::external_body]
pub struct ExStats(ode_solvers::dop_shared::Stats);

/// The error with which the solver of `ode_solvers` gives up. Nothing is
/// known of a value but that it is one.
#[verifier::external_type_specification]
#[verifier::external_body]
pub struct ExIntegrationError(ode_solvers::dop_shared::IntegrationError);

/// The message of a run whose integration failed.
pub open spec fn integration_failed() -> Seq<char> {
    "Error: integration failed!"@
}

/// Turns what the solver returned into the outcome of the integration: its
/// statistics, or, whatever the solver's reason, the one message that a run
/// reports for a failed integration. Nothing of a failed integration is kept.
pub fn integration_outcome(
    result: Result<ode_solvers::dop_shared::Stats, ode_solvers::dop_shared::IntegrationError>,
) -> (outcome: Result<ode_solvers::dop_shared::Stats, String>)
    ensures
        match result {
            Ok(stats) => outcome == Ok::<ode_solvers::dop_shared::Stats, String>(stats),
            Err(_) => outcome matches Err(message) && message@ == integration_failed(),
        },
{
    match result {
        Ok(stats) => Ok(stats),
        Err(_) => Err("Error: integration failed!".to_owned()),
    }
}

/// The model that a run simulates, with the parameter set it uses.
#[derive(Debug, Clone, Copy, PartialEq, Eq, Structural)]
pub enum NeuronType {
    HodgkinHuxley(HHNeuronSubtype),
    /// Selectable, but without equations: a run of it has nothing to do.
    FitzHughNagumo,
    MorrisLecar(MLNeuronSubtype),
}

/// A piece of work that a run hands to its driver.
#[derive(Debug, Clone, Copy, PartialEq, Eq, Structural)]
pub enum Task {
    /// Integrate the model over the requested span of time.
    Integrate,
    /// Write the summary of the run.
    WriteInfo,
    /// Draw the membrane potential against time.
    PlotMembranePotential,
    /// Draw the gates of a Hodgkin-Huxley neuron against time.
    PlotGatingVariables,
    /// Draw the recovery gate of a Morris-Lecar neuron against its potential.
    PlotPhasePlane,
}

/// What a run does next.
#[derive(Debug, PartialEq, Eq)]
pub enum Step {
    /// The driver performs the task and reports how it ended.
    Perform(Task),
    /// The run is over and succeeded.
    Succeed,
    /// The run is over and failed, with this message.
    Fail(String),
}

impl NeuronType {
    /// Number of components of the model's state.
    pub open spec fn dimension(self) -> nat {
        match self {
            NeuronType::HodgkinHuxley(_) => HH_DIMENSION as nat,
            NeuronType::FitzHughNagumo => 0,
            NeuronType::MorrisLecar(_) => ML_DIMENSION as nat,
        }
    }

    /// The name under which a component of the model's state is drawn.
    pub open spec fn component_label(self, index: nat) -> Option<Seq<char>> {
        match self {
            NeuronType::HodgkinHuxley(_) => if index == HH_V {
                Some("v"@)
            } else if index == HH_N {
                Some("n"@)
            } else if index == HH_M {
                Some("m"@)
            } else if index == HH_H {
                Some("h"@)
            } else {
                None
            },
            NeuronType::FitzHughNagumo => None,
            NeuronType::MorrisLecar(_) => if index == ML_V {
                Some("v"@)
            } else if index == ML_N {
                Some("n"@)
            } else {
                None
            },
        }
    }

    /// The pieces of work of a run, in the order in which they are performed
    /// as long as none fails. Files are written only where the run saves its
    /// results.
    pub open spec fn tasks(self, save: bool) -> Seq<Task> {
        match self {
            NeuronType::HodgkinHuxley(_) => if save {
                seq![
                    Task::Integrate,
                    Task::WriteInfo,
                    Task::PlotMembranePotential,
                    Task::PlotGatingVariables,
                ]
            } else {
                seq![Task::Integrate]
            },
            NeuronType::FitzHughNagumo => Seq::empty(),
            NeuronType::MorrisLecar(_) => if save {
                seq![
                    Task::Integrate,
                    Task::WriteInfo,
                    Task::PlotMembranePotential,
                    Task::PlotPhasePlane,
                ]
            } else {
                seq![Task::Integrate]
            },
        }
    }

    /// The task that follows `task` in a run, if any. Only a run that saves
    /// its results has more than one task.
    pub open spec fn task_after(self, save: bool, task: Task) -> Option<Task> {
        if !save {
            None
        } else {
            match (self, task) {
                (NeuronType::FitzHughNagumo, _) => None,
                (_, Task::Integrate) => Some(Task::WriteInfo),
                (_, Task::WriteInfo) => Some(Task::PlotMembranePotential),
                (NeuronType::HodgkinHuxley(_), Task::PlotMembranePotential) => Some(
                    Task::PlotGatingVariables,
                ),
                (NeuronType::MorrisLecar(_), Task::PlotMembranePotential) => Some(
                    Task::PlotPhasePlane,
                ),
                _ => None,
            }
        }
    }

    /// Number of components of the model's state.
    pub fn state_dimension(self) -> (n: usize)
        ensures
            n == self.dimension(),
    {
        match self {
            NeuronType::HodgkinHuxley(_) => HH_DIMENSION,
            NeuronType::FitzHughNagumo => 0,
            NeuronType::MorrisLecar(_) => ML_DIMENSION,
        }
    }

    /// The name under which a component of the model's state is drawn, for
    /// every position that the state has.
    pub fn label(self, index: usize) -> (name: Option<&'static str>)
        ensures
            name is Some <==> index < self.dimension(),
            match name {
                Some(text) => self.component_label(index as nat) == Some(text@),
                None => self.component_label(index as nat) is None,
            },
    {
        match self {
            NeuronType::HodgkinHuxley(_) => {
                if index == HH_V {
                    Some("v")
                } else if index == HH_N {
                    Some("n")
                } else if index == HH_M {
                    Some("m")
                } else if index == HH_H {
                    Some("h")
                } else {
                    None
                }
            },
            NeuronType::FitzHughNagumo => None,
            NeuronType::MorrisLecar(_) => {
                if index == ML_V {
                    Some("v")
                } else if index == ML_N {
                    Some("n")
                } else {
                    None
                }
            },
        }
    }

    /// How a run begins: with its first task, or, where it has none, with
    /// its success.
    pub fn first_step(self, save: bool) -> (step: Step)
        ensures
            step == (if self.tasks(save).len() > 0 {
                Step::Perform(self.tasks(save)[0])
            } else {
                Step::Succeed
            }),
    {
        match self {
            NeuronType::FitzHughNagumo => Step::Succeed,
            _ => Step::Perform(Task::Integrate),
        }
    }

    /// How a run goes on once `task` has ended with `outcome`.
    ///
    /// A task that failed ends the run with the message of its failure:
    /// nothing is tried again, and no later task is performed. A task that
    /// succeeded is followed by the next one, and the last one by the
    /// success of the run.
    pub fn next_step(self, save: bool, task: Task, outcome: Result<(), String>) -> (step: Step)
        ensures
            match outcome {
                Ok(_) => step == (match self.task_after(save, task) {
                    Some(next) => Step::Perform(next),
                    None => Step::Succeed,
                }),
                Err(cause) => step matches Step::Fail(message) && message@ == cause@,
            },
    {
        match outcome {
            Err(cause) => Step::Fail(cause),
            Ok(_) => {
                if !save {
                    return Step::Succeed;
                }
                match self {
                    NeuronType::FitzHughNagumo => Step::Succeed,
                    NeuronType::HodgkinHuxley(_) => match task {
                        Task::Integrate => Step::Perform(Task::WriteInfo),
                        Task::WriteInfo => Step::Perform(Task::PlotMembranePotential),
                        Task::PlotMembranePotential => Step::Perform(Task::PlotGatingVariables),
                        _ => Step::Succeed,
                    },
                    NeuronType::MorrisLecar(_) => match task {
                        Task::Integrate => Step::Perform(Task::WriteInfo),
                        Task::WriteInfo => Step::Perform(Task::PlotMembranePotential),
                        Task::PlotMembranePotential => Step::Perform(Task::PlotPhasePlane),
                        _ => Step::Succeed,
                    },
                }
            },
        }
    }
}

impl Task {
    /// The name of the file that the task writes into the folder of results.
    pub open spec fn output(self) -> Option<Seq<char>> {
        match self {
            Task::Integrate => None,
            Task::WriteInfo => Some("info.txt"@),
            Task::PlotMembranePotential => Some("membrane_potential.png"@),
            Task::PlotGatingVariables => Some("gating_variables.png"@),
            Task::PlotPhasePlane => Some("phase_plane.png"@),
        }
    }

    /// The positions of the components of the state that a figure shows, in
    /// the order in which they are drawn. The phase plane has the first on
    /// its horizontal axis and the second on its vertical one; the other
    /// figures draw each component against time.
    pub open spec fn shown(self) -> Seq<usize> {
        match self {
            Task::Integrate => Seq::empty(),
            Task::WriteInfo => Seq::empty(),
            Task::PlotMembranePotential => seq![HH_V],
            Task::PlotGatingVariables => seq![HH_N, HH_M, HH_H],
            Task::PlotPhasePlane => seq![ML_V, ML_N],
        }
    }

    /// The name of the file that the task writes into the folder of results,
    /// if it writes one.
    pub fn file_name(self) -> (name: Option<&'static str>)
        ensures
            match name {
                Some(text) => self.output() == Some(text@),
                None => self.output() is None,
            },
    {
        match self {
            Task::Integrate => None,
            Task::WriteInfo => Some("info.txt"),
            Task::PlotMembranePotential => Some("membrane_potential.png"),
            Task::PlotGatingVariables => Some("gating_variables.png"),
            Task::PlotPhasePlane => Some("phase_plane.png"),
        }
    }

    /// The positions of the components of the state that a figure shows.
    pub fn components(self) -> (positions: Vec<usize>)
        ensures
            positions@ == self.shown(),
    {
        let mut positions: Vec<usize> = Vec::new();
        match self {
            Task::Integrate => {},
            Task::WriteInfo => {},
            Task::PlotMembranePotential => {
                positions.push(HH_V);
            },
            Task::PlotGatingVariables => {
                positions.push(HH_N);
                positions.push(HH_M);
                positions.push(HH_H);
            },
            Task::PlotPhasePlane => {
                positions.push(ML_V);
                positions.push(ML_N);
            },
        }
        assert(positions@ =~= self.shown());
        positions
    }
}

/// The tasks of a run follow each other as `task_after` says: the first is
/// where the run begins, each but the last is followed by the next, and the
/// last by nothing.
pub proof fn lemma_tasks_in_order(neuron_type: NeuronType, save: bool, i: int)
    requires
        0 <= i < neuron_type.tasks(save).len(),
    ensures
        neuron_type.task_after(save, neuron_type.tasks(save)[i]) == (if i + 1
            < neuron_type.tasks(save).len() {
            Some(neuron_type.tasks(save)[i + 1])
        } else {
            None
        }),
{
}

/// Whatever follows a task follows it in the list of the run's tasks, in
/// which no task stands twice. So a run performs its tasks in their order,
/// each at most once, up to the first that fails: at most four in all.
pub proof fn lemma_steps_follow_tasks(neuron_type: NeuronType, save: bool, task: Task)
    ensures
        neuron_type.tasks(save).len() <= 4,
        neuron_type.tasks(save).no_duplicates(),
        neuron_type.task_after(save, task) matches Some(next) ==> exists|i: int|
            0 <= i && i + 1 < neuron_type.tasks(save).len() && neuron_type.tasks(save)[i] == task
                && #[trigger] neuron_type.tasks(save)[i + 1] == next,
{
    let tasks = neuron_type.tasks(save);
    if let Some(next) = neuron_type.task_after(save, task) {
        let i: int = match task {
            Task::Integrate => 0,
            Task::WriteInfo => 1,
            _ => 2,
        };
        assert(tasks[i] == task && tasks[i + 1] == next);
    }
}

/// A model without equations has nothing to do. Any other is integrated
/// first, and that is all unless the run saves its results.
pub proof fn lemma_integration_comes_first(neuron_type: NeuronType, save: bool)
    ensures
        neuron_type == NeuronType::FitzHughNagumo <==> neuron_type.tasks(save).len() == 0,
        neuron_type.tasks(save).len() > 0 ==> neuron_type.tasks(save)[0] == Task::Integrate,
        !save ==> neuron_type.tasks(save).len() <= 1,
{
}

/// Only a run that saves its results writes a file, and it writes its
/// summary before it draws anything.
pub proof fn lemma_files_only_when_saving(neuron_type: NeuronType, save: bool, i: int)
    requires
        0 <= i < neuron_type.tasks(save).len(),
    ensures
        neuron_type.tasks(save)[i].output() is Some ==> save,
        neuron_type.tasks(save)[i].output() is Some <==> i >= 1,
        neuron_type.tasks(save)[i] == Task::WriteInfo <==> i == 1,
{
}

/// Every figure of a run shows components that the state of its model has,
/// each with a label, and both models keep the membrane potential first.
pub proof fn lemma_figures_within_state(neuron_type: NeuronType, save: bool, i: int, j: int)
    requires
        0 <= i < neuron_type.tasks(save).len(),
        0 <= j < neuron_type.tasks(save)[i].shown().len(),
    ensures
        neuron_type.tasks(save)[i].shown()[j] < neuron_type.dimension(),
        neuron_type.component_label(neuron_type.tasks(save)[i].shown()[j] as nat) is Some,
        neuron_type.component_label(0) == Some("v"@),
{
}

} // verus!
