//! Locator for the Naite language server: run a node interpreter from the
//! environment's search path on the server launcher, which is the launcher
//! binary if the search path has it, else a fixed path under the project's
//! dependency directory (returned without an existence check — if it is
//! wrong, the host discovers that when it spawns the process).
//!
//! The host performs the search-path lookups; their outcomes arrive here as
//! plain values, and the functions below make every decision. Finding no
//! interpreter is the one hard failure: nothing can run without one, so
//! resolution fails before the launcher is consulted.

use vstd::prelude::*;

use crate::command::{descriptor, descriptor_model, Command, CommandModel};

verus! {

/// Name of the runtime interpreter looked up on the search path.
pub open spec fn interpreter_name() -> Seq<char> {
    "node"@
}

/// Name of the server launcher binary looked up on the search path.
pub open spec fn launcher_name() -> Seq<char> {
    "naite-lsp-server"@
}

/// Fallback launcher script under the project's dependency directory, used
/// as given — deliberately never joined onto a base directory nor checked
/// for existence.
pub open spec fn fallback_script() -> Seq<char> {
    "node_modules/naite-lsp/out/server.js"@
}

/// The error reported when the search path has no interpreter.
pub open spec fn missing_interpreter_error() -> Seq<char> {
    "could not find a node executable on the search path"@
}

/// The launcher decision: the binary the search path resolved, else the
/// fixed fallback script.
pub open spec fn script_spec(launcher: Option<Seq<char>>) -> Seq<char> {
    match launcher {
        Option::Some(path) => path,
        Option::None => fallback_script(),
    }
}

/// The full command decision: with an interpreter, run it on the resolved
/// launcher with the standard-stream flag last and no environment overrides;
/// with none, fail — whatever the launcher lookup would have said.
pub open spec fn command_spec(
    interpreter: Option<Seq<char>>,
    launcher: Option<Seq<char>>,
) -> Result<CommandModel, Seq<char>> {
    match interpreter {
        Option::Some(node) => Result::Ok(descriptor_model(node, script_spec(launcher))),
        Option::None => Result::Err(missing_interpreter_error()),
    }
}

/// The executable form of [`interpreter_name`]: what the host should look up
/// on the search path first.
pub fn interpreter_binary_name() -> (r: String)
    ensures
        r@ == interpreter_name(),
{
    String::from_str("node")
}

/// The executable form of [`launcher_name`]: what the host should look up on
/// the search path once an interpreter is found.
pub fn launcher_binary_name() -> (r: String)
    ensures
        r@ == launcher_name(),
{
    String::from_str("naite-lsp-server")
}

/// The one hard failure: demand an interpreter before anything else is
/// resolved. Succeeds exactly when the search path produced one.
pub fn require_interpreter(interpreter: Option<String>) -> (r: Result<String, String>)
    ensures
        r is Ok <==> interpreter is Some,
        r matches Ok(p) ==> p@ == interpreter->0@,
        r matches Err(e) ==> e@ == missing_interpreter_error(),
{
    match interpreter {
        Some(path) => Ok(path),
        None => Err(String::from_str("could not find a node executable on the search path")),
    }
}

/// Pick the server launcher: the binary the search path resolved, else the
/// fixed fallback script, returned without an existence check.
pub fn resolve_script(launcher: Option<String>) -> (r: String)
    ensures
        r@ == script_spec(launcher.deep_view()),
{
    match launcher {
        Some(path) => path,
        None => String::from_str("node_modules/naite-lsp/out/server.js"),
    }
}

/// Produce the command descriptor for the host: the interpreter running the
/// resolved launcher in standard-stream mode, or the missing-interpreter
/// error.
pub fn language_server_command(interpreter: Option<String>, launcher: Option<String>) -> (r: Result<
    Command,
    String,
>)
    ensures
        r is Ok <==> command_spec(interpreter.deep_view(), launcher.deep_view()) is Ok,
        r matches Ok(c) ==> c@ == command_spec(interpreter.deep_view(), launcher.deep_view())->Ok_0,
        r matches Err(e) ==> e@ == command_spec(
            interpreter.deep_view(),
            launcher.deep_view(),
        )->Err_0,
{
    match require_interpreter(interpreter) {
        Ok(node) => {
            let script = resolve_script(launcher);
            Ok(descriptor(node, script))
        },
        Err(e) => Err(e),
    }
}

/// With no interpreter on the search path, resolution fails, and the outcome
/// is the same whatever a launcher lookup would have returned: the failure
/// comes before any server-path resolution.
pub proof fn lemma_missing_interpreter_fails_first(
    launcher_a: Option<Seq<char>>,
    launcher_b: Option<Seq<char>>,
)
    ensures
        command_spec(Option::None, launcher_a) is Err,
        command_spec(Option::None, launcher_a) == command_spec(Option::None, launcher_b),
{
}

/// When the search path resolves the launcher binary, the command's script
/// element is exactly that resolved path.
pub proof fn lemma_launcher_found_is_used(node: Seq<char>, path: Seq<char>)
    ensures
        command_spec(Option::Some(node), Option::Some(path)) matches Ok(c) && c.args[0] == path,
{
}

/// When the search path does not resolve the launcher binary, the command's
/// script element is exactly the fixed fallback script.
pub proof fn lemma_launcher_missing_uses_fallback(node: Seq<char>)
    ensures
        command_spec(Option::Some(node), Option::None) matches Ok(c) && c.args[0]
            == fallback_script(),
{
}

} // verus!
