use quiver_lib::pot_server::{
    spawn_plan, PotServerError, POT_SERVER_HOST, POT_SERVER_PORT, POT_SERVER_PORT_TEXT,
};
use quiver_lib::presets::POT_BASE_URL;

#[test]
fn token_server_errors_have_their_messages() {
    assert_eq!(
        PotServerError::SpawnFailed("denied".to_string()).message(),
        "failed to start POT server: denied"
    );
    assert_eq!(PotServerError::AlreadyRunning.message(), "POT server is already reachable");
}

#[test]
fn token_server_starts_only_when_none_answers() {
    assert!(matches!(spawn_plan(true), Err(PotServerError::AlreadyRunning)));
    let args = spawn_plan(false).unwrap();
    assert_eq!(args, vec!["server", "--host", "127.0.0.1", "--port", "4416"]);
    assert_eq!(POT_SERVER_PORT.to_string(), args[4]);
}

#[test]
fn presets_ask_the_server_that_is_started() {
    assert_eq!(POT_BASE_URL, format!("http://{}:{}", POT_SERVER_HOST, POT_SERVER_PORT_TEXT));
    assert_eq!(POT_SERVER_PORT.to_string(), POT_SERVER_PORT_TEXT);
}
