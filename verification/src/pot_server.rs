//! The local proof-of-origin token server that the YouTube presets use.

use vstd::prelude::*;
use crate::presets::POT_BASE_URL;
use crate::text::{concat2, decimal_digits, owned, views};

verus! {

/// The address the token server listens on.
pub const POT_SERVER_HOST: &'static str = "127.0.0.1";

/// The port the token server listens on.
pub const POT_SERVER_PORT: u16 = 4416;

/// The same port, as the server's command line takes it.
pub const POT_SERVER_PORT_TEXT: &'static str = "4416";

/// Why the token server was not started.
#[derive(Clone, Debug)]
pub enum PotServerError {
    SpawnFailed(String),
    AlreadyRunning,
}

impl PotServerError {
    /// The message of the error, as it is logged.
    pub fn message(&self) -> (r: String)
        ensures
            match *self {
                PotServerError::SpawnFailed(error) => r@ == "failed to start POT server: "@ + error@,
                PotServerError::AlreadyRunning => r@ == "POT server is already reachable"@,
            },
    {
        match self {
            PotServerError::SpawnFailed(error) => concat2(
                "failed to start POT server: ",
                error.as_str(),
            ),
            PotServerError::AlreadyRunning => owned("POT server is already reachable"),
        }
    }
}

/// The token server's command line: serve on the fixed host and port.
pub open spec fn pot_server_args_of() -> Seq<Seq<char>> {
    seq!["server"@, "--host"@, POT_SERVER_HOST@, "--port"@, POT_SERVER_PORT_TEXT@]
}

/// What starting the token server does, given whether a server already
/// answers on its port: nothing is started then; otherwise the server is
/// started with these arguments.
pub fn spawn_plan(server_reachable: bool) -> (r: Result<Vec<String>, PotServerError>)
    ensures
        server_reachable ==> r matches Err(PotServerError::AlreadyRunning),
        !server_reachable ==> (r matches Ok(args) && views(args@) == pot_server_args_of()),
{
    if server_reachable {
        return Err(PotServerError::AlreadyRunning);
    }
    let args = vec![
        owned("server"),
        owned("--host"),
        owned(POT_SERVER_HOST),
        owned("--port"),
        owned(POT_SERVER_PORT_TEXT),
    ];
    assert(views(args@) =~= pot_server_args_of());
    Ok(args)
}

/// The token provider that the YouTube presets ask is the server that is
/// started: its address is the server's host and port, and the port on the
/// server's command line is the port that is checked for a running server.
pub proof fn law_presets_ask_the_started_server()
    ensures
        POT_BASE_URL@ == "http://"@ + POT_SERVER_HOST@ + ":"@ + POT_SERVER_PORT_TEXT@,
        POT_SERVER_PORT_TEXT@ == decimal_digits(POT_SERVER_PORT as nat),
        pot_server_args_of()[2] == POT_SERVER_HOST@,
        pot_server_args_of()[4] == POT_SERVER_PORT_TEXT@,
{
    reveal_strlit("http://127.0.0.1:4416");
    reveal_strlit("http://");
    reveal_strlit("127.0.0.1");
    reveal_strlit(":");
    reveal_strlit("4416");
    assert(POT_BASE_URL@ =~= "http://"@ + POT_SERVER_HOST@ + ":"@ + POT_SERVER_PORT_TEXT@);
    assert(decimal_digits(4) == seq!['4']);
    assert(decimal_digits(44) == seq!['4', '4']);
    assert(decimal_digits(441) == seq!['4', '4', '1']);
    assert(decimal_digits(4416) == seq!['4', '4', '1', '6']);
    assert(POT_SERVER_PORT_TEXT@ =~= decimal_digits(POT_SERVER_PORT as nat));
}

} // verus!
