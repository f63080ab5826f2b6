use conductor::{
    restart_all, step, Config, Coordinator, Error, TaskAction, TaskEvent, TaskState,
};

const RUNNING: TaskState = TaskState::Running { pending_tick: false, cancelled: false };

fn config(names: &[&str]) -> Config {
    let compositions: Vec<(String, String)> =
        names.iter().map(|n| (n.to_string(), format!("/srv/{n}"))).collect();
    Config::new(8080, "t".to_string(), Some(60), None, compositions)
}

#[test]
fn tick_at_rest_starts_work() {
    assert_eq!(step(TaskState::Idle, TaskEvent::Tick), (RUNNING, TaskAction::Start));
}

#[test]
fn finished_work_returns_to_rest() {
    assert_eq!(step(RUNNING, TaskEvent::Finished), (TaskState::Idle, TaskAction::Wait));
}

#[test]
fn cancel_at_rest_terminates() {
    assert_eq!(step(TaskState::Idle, TaskEvent::Cancel), (TaskState::Terminated, TaskAction::Stop));
}

#[test]
fn stray_finish_at_rest_is_ignored() {
    assert_eq!(step(TaskState::Idle, TaskEvent::Finished), (TaskState::Idle, TaskAction::Wait));
}

#[test]
fn cancel_during_work_waits_for_the_work() {
    let (state, action) = step(RUNNING, TaskEvent::Cancel);
    assert_eq!(state, TaskState::Running { pending_tick: false, cancelled: true });
    assert_eq!(action, TaskAction::Wait);
    assert_eq!(step(state, TaskEvent::Finished), (TaskState::Terminated, TaskAction::Stop));
}

#[test]
fn missed_ticks_fire_once() {
    let mut state = RUNNING;
    for _ in 0..5 {
        let (next, action) = step(state, TaskEvent::Tick);
        assert_eq!(action, TaskAction::Wait);
        state = next;
    }
    assert_eq!(state, TaskState::Running { pending_tick: true, cancelled: false });
    assert_eq!(step(state, TaskEvent::Finished), (RUNNING, TaskAction::Start));
    assert_eq!(step(RUNNING, TaskEvent::Finished), (TaskState::Idle, TaskAction::Wait));
}

#[test]
fn cancel_wins_over_a_pending_tick() {
    let (state, _) = step(RUNNING, TaskEvent::Tick);
    let (state, _) = step(state, TaskEvent::Cancel);
    assert_eq!(step(state, TaskEvent::Finished), (TaskState::Terminated, TaskAction::Stop));
}

#[test]
fn nothing_starts_after_termination() {
    for event in [TaskEvent::Tick, TaskEvent::Cancel, TaskEvent::Finished] {
        assert_eq!(step(TaskState::Terminated, event), (TaskState::Terminated, TaskAction::Stop));
    }
}

#[test]
fn nothing_starts_after_cancel() {
    let events = [TaskEvent::Tick, TaskEvent::Finished, TaskEvent::Tick, TaskEvent::Tick];
    for first in [TaskState::Idle, RUNNING] {
        let (mut state, _) = step(first, TaskEvent::Cancel);
        for round in 0..3 {
            for event in events {
                let (next, action) = step(state, event);
                assert_ne!(action, TaskAction::Start, "round {round}");
                state = next;
            }
        }
        assert_eq!(state, TaskState::Terminated);
    }
}

#[test]
fn sweep_visits_every_name_in_order() {
    let config = config(&["web", "db", "cache"]);
    let mut visited = Vec::new();
    let mut position = 0;
    while let Some(attempt) = restart_all(&config, position, None).attempt {
        assert_eq!(attempt.command.work_dir(), Some(format!("/srv/{}", attempt.name).as_str()));
        visited.push(attempt.name);
        position += 1;
    }
    assert_eq!(visited, vec!["web", "db", "cache"]);
    assert_eq!(position, 3);
}

#[test]
fn sweep_goes_on_after_a_failure() {
    let config = config(&["web", "db"]);
    let failure = Error::PullFailed { stdout: "o".to_string(), stderr: "e".to_string() };
    let next = restart_all(&config, 1, Some(&failure));
    assert_eq!(next.diagnostic.as_deref(), Some("Error: Docker pull failed\nstdout: o\nstderr: e"));
    assert_eq!(next.attempt.unwrap().name, "db");
}

#[test]
fn sweep_reports_the_last_failure_at_its_end() {
    let config = config(&["web"]);
    let failure = Error::Io(std::io::Error::new(std::io::ErrorKind::NotFound, "gone"));
    let last = restart_all(&config, 1, Some(&failure));
    assert!(last.attempt.is_none());
    assert!(last.diagnostic.unwrap().starts_with("Error: I/O error: "));
}

#[test]
fn sweep_of_an_empty_registry_attempts_nothing() {
    let step = restart_all(&config(&[]), 0, None);
    assert!(step.attempt.is_none());
    assert!(step.diagnostic.is_none());
}

#[test]
fn coordinator_drains_after_signal_and_all_exits() {
    let mut coordinator = Coordinator::new(3);
    assert!(coordinator.accepts_work());
    assert!(!coordinator.drained());
    assert!(coordinator.signal());
    assert!(!coordinator.signal());
    assert!(!coordinator.accepts_work());
    assert!(coordinator.component_ended(None).is_none());
    assert!(!coordinator.drained());
    assert_eq!(
        coordinator.component_ended(Some("task panicked")).as_deref(),
        Some("Error on shutdown: task panicked")
    );
    assert!(!coordinator.drained());
    assert!(coordinator.component_ended(None).is_none());
    assert!(coordinator.drained());
}

#[test]
fn coordinator_never_drains_without_signal() {
    let mut coordinator = Coordinator::new(1);
    coordinator.component_ended(None);
    coordinator.component_ended(None);
    assert!(!coordinator.drained());
    assert!(coordinator.accepts_work());
    coordinator.signal();
    assert!(coordinator.drained());
}

#[test]
fn coordinator_without_components_drains_on_signal() {
    let mut coordinator = Coordinator::new(0);
    assert!(!coordinator.drained());
    coordinator.signal();
    assert!(coordinator.drained());
}
