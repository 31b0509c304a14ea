use vstd::prelude::*;

verus! {

/// The game server's install directory: its working directory and library path.
pub const SERVER_DIR: &'static str = "/home/steam/7DaysToDieServer";

/// The game server's executable.
pub const SERVER_EXE: &'static str = "/home/steam/7DaysToDieServer/7DaysToDieServer.x86_64";

/// Where the game server writes its log.
pub const SERVER_LOG: &'static str = "/home/steam/7DaysToDieServer/output_log.txt";

/// How the game server process is started.
#[derive(Debug)]
pub struct Launch {
    pub program: String,
    pub args: Vec<String>,
    /// Environment variables set on top of the inherited ones.
    pub env: Vec<(String, String)>,
    pub working_dir: String,
}

/// The fixed argument list of the game server.
pub open spec fn launch_args() -> Seq<Seq<char>> {
    seq![
        "-logfile"@,
        SERVER_LOG@,
        "-quit"@,
        "-batchmode"@,
        "-nographics"@,
        "-dedicated"@,
        "-configfile=serverconfig.xml"@,
    ]
}

/// The fixed launch of the game server: its executable and arguments, its
/// install directory as working directory and as library path.
pub fn start_game_server() -> (r: Launch)
    ensures
        r.program@ == SERVER_EXE@,
        r.args@.map_values(|a: String| a@) == launch_args(),
        r.env@.len() == 1,
        r.env@[0].0@ == "LD_LIBRARY_PATH"@,
        r.env@[0].1@ == SERVER_DIR@,
        r.working_dir@ == SERVER_DIR@,
{
    let mut args: Vec<String> = Vec::new();
    args.push(String::from_str("-logfile"));
    args.push(String::from_str(SERVER_LOG));
    args.push(String::from_str("-quit"));
    args.push(String::from_str("-batchmode"));
    args.push(String::from_str("-nographics"));
    args.push(String::from_str("-dedicated"));
    args.push(String::from_str("-configfile=serverconfig.xml"));
    let mut env: Vec<(String, String)> = Vec::new();
    env.push((String::from_str("LD_LIBRARY_PATH"), String::from_str(SERVER_DIR)));
    assert(args@.map_values(|a: String| a@) =~= launch_args());
    Launch {
        program: String::from_str(SERVER_EXE),
        args,
        env,
        working_dir: String::from_str(SERVER_DIR),
    }
}

} // verus!
