use neuronal_dynamics_rs::hh_neuron::HHNeuronSubtype;
use neuronal_dynamics_rs::ml_neuron::MLNeuronSubtype;
use neuronal_dynamics_rs::{integration_outcome, NeuronType, Step, Task};
use ode_solvers::dop_shared::{IntegrationError, Stats};

const HH: NeuronType = NeuronType::HodgkinHuxley(HHNeuronSubtype::Standard);
const ML: NeuronType = NeuronType::MorrisLecar(MLNeuronSubtype::Hopf);
const FN: NeuronType = NeuronType::FitzHughNagumo;

const ALL_TASKS: [Task; 5] = [
    Task::Integrate,
    Task::WriteInfo,
    Task::PlotMembranePotential,
    Task::PlotGatingVariables,
    Task::PlotPhasePlane,
];

/// Drives a run in which every task succeeds, and lists the tasks performed.
fn performed(neuron_type: NeuronType, save: bool) -> Vec<Task> {
    let mut tasks = Vec::new();
    let mut step = neuron_type.first_step(save);
    loop {
        match step {
            Step::Perform(task) => {
                assert!(tasks.len() < 4);
                tasks.push(task);
                step = neuron_type.next_step(save, task, Ok(()));
            }
            Step::Succeed => return tasks,
            Step::Fail(message) => panic!("{}", message),
        }
    }
}

#[test]
fn hodgkin_huxley_run_that_saves() {
    assert_eq!(
        performed(HH, true),
        vec![
            Task::Integrate,
            Task::WriteInfo,
            Task::PlotMembranePotential,
            Task::PlotGatingVariables,
        ]
    );
}

#[test]
fn morris_lecar_run_that_saves() {
    assert_eq!(
        performed(ML, true),
        vec![
            Task::Integrate,
            Task::WriteInfo,
            Task::PlotMembranePotential,
            Task::PlotPhasePlane,
        ]
    );
}

#[test]
fn run_that_does_not_save_only_integrates() {
    assert_eq!(performed(HH, false), vec![Task::Integrate]);
    assert_eq!(performed(ML, false), vec![Task::Integrate]);
}

#[test]
fn fitzhugh_nagumo_run_has_nothing_to_do() {
    assert_eq!(FN.first_step(true), Step::Succeed);
    assert_eq!(FN.first_step(false), Step::Succeed);
    assert_eq!(performed(FN, true), vec![]);
    for task in ALL_TASKS {
        assert_eq!(FN.next_step(true, task, Ok(())), Step::Succeed);
    }
}

#[test]
fn subtype_does_not_change_the_run() {
    for subtype in [
        HHNeuronSubtype::Standard,
        HHNeuronSubtype::ReducedTraubMiles,
        HHNeuronSubtype::WangBuzsaki,
    ] {
        assert_eq!(performed(NeuronType::HodgkinHuxley(subtype), true), performed(HH, true));
    }
    for subtype in [
        MLNeuronSubtype::Hopf,
        MLNeuronSubtype::SaddleNodeLimitCycle,
        MLNeuronSubtype::SaddleNodeBifurcation,
    ] {
        assert_eq!(performed(NeuronType::MorrisLecar(subtype), true), performed(ML, true));
    }
}

#[test]
fn failed_integration_is_reported_with_one_message() {
    for cause in [
        IntegrationError::MaxNumStepReached { x: 3.5, n_step: 100000 },
        IntegrationError::StepSizeUnderflow { x: 3.0 },
        IntegrationError::StiffnessDetected { x: 0.25 },
    ] {
        assert_ne!(cause.to_string(), "Error: integration failed!");
        match integration_outcome(Err(cause)) {
            Err(message) => assert_eq!(message, "Error: integration failed!"),
            Ok(_) => panic!("a failed integration has no statistics"),
        }
    }
}

#[test]
fn statistics_of_an_integration_are_handed_on() {
    let stats = Stats { num_eval: 200000, accepted_steps: 50000, rejected_steps: 7 };
    match integration_outcome(Ok(stats)) {
        Ok(kept) => {
            assert_eq!(kept.num_eval, 200000);
            assert_eq!(kept.accepted_steps, 50000);
            assert_eq!(kept.rejected_steps, 7);
        }
        Err(message) => panic!("{}", message),
    }
}

#[test]
fn failed_integration_ends_the_run() {
    for neuron_type in [HH, ML] {
        for save in [false, true] {
            let outcome = integration_outcome(Err(IntegrationError::StepSizeUnderflow { x: 3.0 }));
            let step = neuron_type.next_step(save, Task::Integrate, outcome.map(|_| ()));
            assert_eq!(step, Step::Fail(String::from("Error: integration failed!")));
        }
    }
}

#[test]
fn failed_write_ends_the_run_with_its_cause() {
    for neuron_type in [HH, ML] {
        for task in [
            Task::WriteInfo,
            Task::PlotMembranePotential,
            Task::PlotGatingVariables,
            Task::PlotPhasePlane,
        ] {
            let step =
                neuron_type.next_step(true, task, Err(String::from("No such file or directory")));
            assert_eq!(step, Step::Fail(String::from("No such file or directory")));
        }
    }
}

#[test]
fn task_outside_the_run_is_followed_by_nothing() {
    assert_eq!(HH.next_step(true, Task::PlotPhasePlane, Ok(())), Step::Succeed);
    assert_eq!(ML.next_step(true, Task::PlotGatingVariables, Ok(())), Step::Succeed);
    assert_eq!(HH.next_step(false, Task::WriteInfo, Ok(())), Step::Succeed);
    assert_eq!(ML.next_step(false, Task::PlotMembranePotential, Ok(())), Step::Succeed);
}

#[test]
fn last_task_is_followed_by_success() {
    assert_eq!(HH.next_step(true, Task::PlotGatingVariables, Ok(())), Step::Succeed);
    assert_eq!(ML.next_step(true, Task::PlotPhasePlane, Ok(())), Step::Succeed);
}

#[test]
fn file_names() {
    assert_eq!(Task::Integrate.file_name(), None);
    assert_eq!(Task::WriteInfo.file_name(), Some("info.txt"));
    assert_eq!(Task::PlotMembranePotential.file_name(), Some("membrane_potential.png"));
    assert_eq!(Task::PlotGatingVariables.file_name(), Some("gating_variables.png"));
    assert_eq!(Task::PlotPhasePlane.file_name(), Some("phase_plane.png"));
}

#[test]
fn components_of_the_figures() {
    assert_eq!(Task::Integrate.components(), vec![]);
    assert_eq!(Task::WriteInfo.components(), vec![]);
    assert_eq!(Task::PlotMembranePotential.components(), vec![0]);
    assert_eq!(Task::PlotGatingVariables.components(), vec![1, 2, 3]);
    assert_eq!(Task::PlotPhasePlane.components(), vec![0, 1]);
}

#[test]
fn labels_of_the_components() {
    let hh: Vec<Option<&str>> = (0..5).map(|i| HH.label(i)).collect();
    assert_eq!(hh, vec![Some("v"), Some("n"), Some("m"), Some("h"), None]);
    let ml: Vec<Option<&str>> = (0..3).map(|i| ML.label(i)).collect();
    assert_eq!(ml, vec![Some("v"), Some("n"), None]);
    assert_eq!(FN.label(0), None);
    assert_eq!(HH.label(usize::MAX), None);
}

#[test]
fn state_dimensions() {
    assert_eq!(HH.state_dimension(), 4);
    assert_eq!(ML.state_dimension(), 2);
    assert_eq!(FN.state_dimension(), 0);
}

#[test]
fn figures_show_labelled_components_of_the_state() {
    for neuron_type in [HH, ML] {
        for task in performed(neuron_type, true) {
            for position in task.components() {
                assert!(position < neuron_type.state_dimension());
                assert!(neuron_type.label(position).is_some());
            }
        }
    }
    let gates: Vec<&str> = Task::PlotGatingVariables
        .components()
        .into_iter()
        .map(|c| HH.label(c).unwrap())
        .collect();
    assert_eq!(gates, vec!["n", "m", "h"]);
    let axes: Vec<&str> =
        Task::PlotPhasePlane.components().into_iter().map(|c| ML.label(c).unwrap()).collect();
    assert_eq!(axes, vec!["v", "n"]);
}
