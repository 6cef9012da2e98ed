//! The launch specification handed back to the host.
//!
//! No process is spawned here: the host resolves its Node.js runtime, hands
//! its path in together with the environment of the workspace's shell, and
//! spawns the result itself.

use vstd::prelude::*;

verus! {

/// A description of how to launch the language server: an executable, its
/// arguments, and the environment the process inherits.
pub struct Command {
    pub command: String,
    pub args: Vec<String>,
    pub env: Vec<(String, String)>,
}

/// Assemble the server's launch specification: run the Node.js runtime at
/// `node_binary` on the entry script at `script_path`, the script's path as
/// the sole argument, under environment `env`.
pub fn build_command(node_binary: String, script_path: String, env: Vec<(String, String)>) -> (r:
    Command)
    ensures
        r.command == node_binary,
        r.args@.len() == 1,
        r.args@[0] == script_path,
        r.env == env,
{
    let mut args: Vec<String> = Vec::new();
    args.push(script_path);
    Command { command: node_binary, args, env }
}

} // verus!
