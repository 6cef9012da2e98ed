use unocss_extension::command::build_command;
use unocss_extension::paths::{cwd_error_message, join_path};

#[test]
fn join_adds_a_separator() {
    let joined = join_path("/home/user/project", "node_modules/pkg/bin/index.js");
    assert_eq!(joined, "/home/user/project/node_modules/pkg/bin/index.js");
}

#[test]
fn join_keeps_an_existing_trailing_separator() {
    assert_eq!(join_path("/srv/", "bin/index.js"), "/srv/bin/index.js");
}

#[test]
fn join_onto_an_empty_directory_is_the_relative_path() {
    assert_eq!(join_path("", "bin/index.js"), "bin/index.js");
}

#[test]
fn cwd_error_wraps_the_cause() {
    assert_eq!(
        cwd_error_message("permission denied"),
        "failed to get extension cwd: permission denied"
    );
}

#[test]
fn build_command_passes_the_script_as_sole_argument() {
    let env = vec![
        ("PATH".to_string(), "/usr/bin".to_string()),
        ("HOME".to_string(), "/home/user".to_string()),
    ];
    let cmd = build_command(
        "/usr/bin/node".to_string(),
        "/work/node_modules/pkg/bin/index.js".to_string(),
        env,
    );
    assert_eq!(cmd.command, "/usr/bin/node");
    assert_eq!(cmd.args, vec!["/work/node_modules/pkg/bin/index.js".to_string()]);
    assert_eq!(cmd.env.len(), 2);
    assert_eq!(cmd.env[0], ("PATH".to_string(), "/usr/bin".to_string()));
    assert_eq!(cmd.env[1], ("HOME".to_string(), "/home/user".to_string()));
}
