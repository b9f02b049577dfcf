use launcher_core::launcher::{kill_command, GameProcess, LauncherState};

fn game(instance: &str, pid: u32) -> GameProcess {
    GameProcess { instance_id: instance.to_string(), pid, started_at: "t".to_string() }
}

#[test]
fn new_launcher_runs_nothing() {
    let state = LauncherState::new();
    assert!(state.running_games.is_empty());
    assert!(!state.is_running("a"));
    assert_eq!(state.pid_of("a"), None);
}

#[test]
fn started_games_are_found_by_instance() {
    let mut state = LauncherState::new();
    state.started(game("a", 1));
    state.started(game("b", 2));
    state.started(game("a", 3));
    assert_eq!(state.running_games, vec![game("a", 1), game("b", 2), game("a", 3)]);
    assert!(state.is_running("a"));
    assert!(state.is_running("b"));
    assert!(!state.is_running("c"));
    assert_eq!(state.pid_of("a"), Some(1));
    assert_eq!(state.pid_of("b"), Some(2));
    assert_eq!(state.pid_of("c"), None);
}

#[test]
fn finished_drops_every_game_of_the_instance() {
    let mut state = LauncherState::new();
    state.started(game("a", 1));
    state.started(game("b", 2));
    state.started(game("a", 3));
    state.started(game("c", 4));
    state.finished("a");
    assert_eq!(state.running_games, vec![game("b", 2), game("c", 4)]);
    state.finished("a");
    assert_eq!(state.running_games, vec![game("b", 2), game("c", 4)]);
    state.finished("c");
    assert_eq!(state.running_games, vec![game("b", 2)]);
    state.finished("b");
    assert!(state.running_games.is_empty());
}

#[test]
fn running_games_are_listed_in_order() {
    let mut state = LauncherState::new();
    assert_eq!(state.get_running_games(), Vec::<GameProcess>::new());
    state.started(game("a", 1));
    state.started(game("b", 2));
    assert_eq!(state.get_running_games(), vec![game("a", 1), game("b", 2)]);
}

#[test]
fn kill_command_depends_on_the_system() {
    let strings = |items: &[&str]| items.iter().map(|s| s.to_string()).collect::<Vec<String>>();
    assert_eq!(kill_command("windows", 4321), strings(&["taskkill", "/F", "/PID", "4321"]));
    assert_eq!(kill_command("linux", 4321), strings(&["kill", "4321"]));
    assert_eq!(kill_command("macos", 0), strings(&["kill", "0"]));
}
