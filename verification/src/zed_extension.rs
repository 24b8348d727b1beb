//! How the Zed extension launches ark in LSP mode.
//!
//! The extension asks Zed for the worktree's shell environment, the user's
//! `lsp.ark.binary` settings and whether `ark` is on the `PATH`; this module
//! decides, from those plain values, which command Zed runs.

use vstd::prelude::*;

verus! {

/// The user's `lsp.ark.binary` settings, each field optional.
pub struct BinarySettings {
    /// `lsp.ark.binary.path`: the binary to run instead of looking one up.
    pub path: Option<String>,
    /// `lsp.ark.binary.arguments`: the arguments to run it with.
    pub arguments: Option<Vec<String>>,
    /// `lsp.ark.binary.env`: environment variables to set on top of the
    /// shell's.
    pub env: Option<Vec<(String, String)>>,
}

/// The command Zed runs to start the language server.
pub struct ServerCommand {
    pub command: String,
    pub args: Vec<String>,
    /// Environment variables in order; a later entry for a name wins over an
    /// earlier one.
    pub env: Vec<(String, String)>,
}

/// The guidance shown when no `ark` binary can be found.
pub open spec fn ark_not_found_text() -> Seq<char> {
    "Could not find an `ark` binary on your PATH.\n\nBuild it from the ark repository with `cargo build` (this produces `target/debug/ark`), then either add that `target/debug` directory to your PATH, or point Zed at the binary directly in your settings.json:\n\n{\n  \"lsp\": {\n    \"ark\": {\n      \"binary\": {\n        \"path\": \"/absolute/path/to/ark/target/debug/ark\",\n        \"arguments\": [\"lsp\"]\n      }\n    }\n  }\n}"@
}

/// Guidance shown in Zed's language-server logs when no `ark` binary can be
/// found. It tells the user how to build one or point Zed at an existing
/// build.
pub fn ark_not_found_message() -> (msg: String)
    ensures
        msg@ == ark_not_found_text(),
{
    String::from_str(
        "Could not find an `ark` binary on your PATH.\n\nBuild it from the ark repository with `cargo build` (this produces `target/debug/ark`), then either add that `target/debug` directory to your PATH, or point Zed at the binary directly in your settings.json:\n\n{\n  \"lsp\": {\n    \"ark\": {\n      \"binary\": {\n        \"path\": \"/absolute/path/to/ark/target/debug/ark\",\n        \"arguments\": [\"lsp\"]\n      }\n    }\n  }\n}",
    )
}

/// The binary path the settings override with, if any.
pub open spec fn path_override(binary: Option<BinarySettings>) -> Option<Seq<char>> {
    match binary {
        Some(settings) => settings.path.deep_view(),
        None => None,
    }
}

/// The arguments the settings override with, if any.
pub open spec fn args_override(binary: Option<BinarySettings>) -> Option<Seq<Seq<char>>> {
    match binary {
        Some(settings) => settings.arguments.deep_view(),
        None => None,
    }
}

/// The environment variables the settings add, if any.
pub open spec fn env_override(binary: Option<BinarySettings>) -> Option<Seq<(Seq<char>, Seq<char>)>> {
    match binary {
        Some(settings) => settings.env.deep_view(),
        None => None,
    }
}

/// The binary to run: the settings' path if set, else `ark` as found on the
/// `PATH`, else none.
pub open spec fn resolved_binary(binary: Option<BinarySettings>, ark_on_path: Option<Seq<char>>) -> Option<Seq<char>> {
    match path_override(binary) {
        Some(path) => Some(path),
        None => ark_on_path,
    }
}

/// The arguments to run it with: the settings' arguments if set, else `lsp`.
pub open spec fn resolved_args(binary: Option<BinarySettings>) -> Seq<Seq<char>> {
    match args_override(binary) {
        Some(args) => args,
        None => seq!["lsp"@],
    }
}

/// The environment: the shell's, followed by the settings' additions.
pub open spec fn resolved_env(
    shell_env: Seq<(Seq<char>, Seq<char>)>,
    binary: Option<BinarySettings>,
) -> Seq<(Seq<char>, Seq<char>)> {
    match env_override(binary) {
        Some(env) => shell_env + env,
        None => shell_env,
    }
}

/// Append clones of all of `extra` to `env`.
fn extend_env(env: &mut Vec<(String, String)>, extra: &Vec<(String, String)>)
    ensures
        final(env).deep_view() == old(env).deep_view() + extra.deep_view(),
{
    let ghost start = env.deep_view();
    let mut i: usize = 0;
    while i < extra.len()
        invariant
            i <= extra.len(),
            env.deep_view() == start + extra.deep_view().take(i as int),
        decreases extra.len() - i,
    {
        let ghost before = env.deep_view();
        let name = extra[i].0.clone();
        let value = extra[i].1.clone();
        env.push((name, value));
        assert(env.deep_view() =~= before.push(extra.deep_view()[i as int]));
        assert(extra.deep_view().take(i + 1) =~= extra.deep_view().take(i as int).push(
            extra.deep_view()[i as int],
        ));
        i = i + 1;
    }
    assert(extra.deep_view().take(extra.len() as int) =~= extra.deep_view());
}

/// The command that starts ark's language server for a worktree.
///
/// The binary is the `lsp.ark.binary.path` override if set, else the `ark`
/// found on the `PATH`, else there is none and the error explains what to do.
/// It runs with the `lsp.ark.binary.arguments` override if set, else with
/// `lsp`; and with the worktree's shell environment followed by the
/// `lsp.ark.binary.env` overrides, so that those win.
pub fn language_server_command(
    shell_env: Vec<(String, String)>,
    binary: Option<BinarySettings>,
    ark_on_path: Option<String>,
) -> (result: Result<ServerCommand, String>)
    ensures
        match resolved_binary(binary, ark_on_path.deep_view()) {
            Some(command) => result matches Ok(cmd) && cmd.command@ == command
                && cmd.args.deep_view() == resolved_args(binary) && cmd.env.deep_view()
                == resolved_env(shell_env.deep_view(), binary),
            None => result matches Err(msg) && msg@ == ark_not_found_text(),
        },
{
    let (path, arguments, env_extra) = match binary {
        Some(settings) => (settings.path, settings.arguments, settings.env),
        None => (None, None, None),
    };
    let command = match path {
        Some(path) => path,
        None => match ark_on_path {
            Some(found) => found,
            None => {
                return Err(ark_not_found_message());
            },
        },
    };
    let args = match arguments {
        Some(args) => args,
        None => {
            let mut args: Vec<String> = Vec::new();
            args.push(String::from_str("lsp"));
            assert(args.deep_view() =~= seq!["lsp"@]);
            args
        },
    };
    let mut env = shell_env;
    match env_extra {
        Some(extra) => {
            extend_env(&mut env, &extra);
        },
        None => {},
    }
    Ok(ServerCommand { command, args, env })
}

/// The value the environment `env` gives the variable `name`: that of its last
/// entry for `name`.
pub open spec fn env_value(env: Seq<(Seq<char>, Seq<char>)>, name: Seq<char>) -> Option<Seq<char>>
    decreases env.len(),
{
    if env.len() == 0 {
        None
    } else if env.last().0 == name {
        Some(env.last().1)
    } else {
        env_value(env.drop_last(), name)
    }
}

/// Law: the settings' environment overrides win over the inherited shell
/// environment: every variable they set has their value, and every other
/// variable keeps the shell's.
pub proof fn lemma_env_overrides_win(
    shell_env: Seq<(Seq<char>, Seq<char>)>,
    extra: Seq<(Seq<char>, Seq<char>)>,
    name: Seq<char>,
)
    ensures
        env_value(shell_env + extra, name) == match env_value(extra, name) {
            Some(value) => Some(value),
            None => env_value(shell_env, name),
        },
    decreases extra.len(),
{
    if extra.len() == 0 {
        assert(shell_env + extra =~= shell_env);
    } else {
        assert((shell_env + extra).drop_last() =~= shell_env + extra.drop_last());
        assert((shell_env + extra).last() == extra.last());
        lemma_env_overrides_win(shell_env, extra.drop_last(), name);
    }
}

/// Law: an explicit binary path in the settings is always used, whether or
/// not an `ark` is on the `PATH`; without one, the `PATH` lookup decides.
pub proof fn lemma_path_override_wins(binary: Option<BinarySettings>, ark_on_path: Option<Seq<char>>)
    ensures
        path_override(binary) is Some ==> resolved_binary(binary, ark_on_path) == path_override(
            binary,
        ),
        path_override(binary) is None ==> resolved_binary(binary, ark_on_path) == ark_on_path,
{
}

/// Law: every environment override from the settings reaches the command.
/// With overrides, the command's environment is the shell's followed by all
/// of them, in order, so every variable they set has their value there;
/// without overrides it is the shell's environment unchanged.
pub proof fn lemma_every_env_override_applies(
    shell_env: Seq<(Seq<char>, Seq<char>)>,
    binary: Option<BinarySettings>,
    name: Seq<char>,
)
    ensures
        env_override(binary) matches Some(extra) ==> resolved_env(shell_env, binary) == shell_env
            + extra,
        env_override(binary) matches Some(extra) ==> (env_value(extra, name) is Some
            ==> env_value(resolved_env(shell_env, binary), name) == env_value(extra, name)),
        env_override(binary) is None ==> resolved_env(shell_env, binary) == shell_env,
{
    match env_override(binary) {
        Some(extra) => {
            lemma_env_overrides_win(shell_env, extra, name);
        },
        None => {},
    }
}

} // verus!
