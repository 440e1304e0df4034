//! Locator for the Sonamu language server: install the published npm package
//! and use its entry file, else fall back to a manually staged development
//! build under the working directory, else fail with a message that names the
//! expected fallback path.
//!
//! The host performs the npm registry query, the install, and the existence
//! check; their outcomes arrive here as plain values, and the functions below
//! make every decision.

use vstd::prelude::*;

use crate::command::{descriptor, descriptor_model, join_path, joined, Command, CommandModel};

verus! {

/// Entry file of the installed npm package, relative to the working directory.
pub open spec fn installed_rel() -> Seq<char> {
    "node_modules/@sonamu-kit/lsp/out/server.mjs"@
}

/// Manually staged development build, relative to the working directory.
pub open spec fn fallback_rel() -> Seq<char> {
    "server/server.mjs"@
}

/// What the error message says before it names the expected fallback path.
pub open spec fn error_prefix() -> Seq<char> {
    "could not find the @sonamu-kit/lsp npm package; for development, copy the server entry script to: "@
}

/// Path of the installed package's entry file under `work_dir`.
pub open spec fn installed_path_spec(work_dir: Seq<char>) -> Seq<char> {
    joined(work_dir, installed_rel())
}

/// Path of the development fallback file under `work_dir`.
pub open spec fn fallback_path_spec(work_dir: Seq<char>) -> Seq<char> {
    joined(work_dir, fallback_rel())
}

/// The message reported when both strategies fail: it ends with the exact
/// fallback path, to guide a developer in placing the file.
pub open spec fn error_message_spec(work_dir: Seq<char>) -> Seq<char> {
    error_prefix() + fallback_path_spec(work_dir)
}

/// The resolution decision: the installed entry file if the npm install
/// succeeded, else the development fallback if that file exists, else an
/// error naming the fallback path. The first success wins.
pub open spec fn resolve_spec(
    work_dir: Seq<char>,
    npm_installed: bool,
    fallback_exists: bool,
) -> Result<Seq<char>, Seq<char>> {
    if npm_installed {
        Result::Ok(installed_path_spec(work_dir))
    } else if fallback_exists {
        Result::Ok(fallback_path_spec(work_dir))
    } else {
        Result::Err(error_message_spec(work_dir))
    }
}

/// The full command decision: on a resolved path, run the node binary on it
/// with the standard-stream flag last and no environment overrides; on
/// failure, the resolution error unchanged.
pub open spec fn command_spec(
    work_dir: Seq<char>,
    node_binary: Seq<char>,
    npm_installed: bool,
    fallback_exists: bool,
) -> Result<CommandModel, Seq<char>> {
    match resolve_spec(work_dir, npm_installed, fallback_exists) {
        Result::Ok(path) => Result::Ok(descriptor_model(node_binary, path)),
        Result::Err(e) => Result::Err(e),
    }
}

/// Path of the installed package's entry file under `work_dir`.
pub fn installed_server_path(work_dir: &str) -> (r: String)
    ensures
        r@ == installed_path_spec(work_dir@),
{
    join_path(work_dir, "node_modules/@sonamu-kit/lsp/out/server.mjs")
}

/// Path of the development fallback file under `work_dir`. The host checks
/// this path for existence when the npm install did not succeed.
pub fn fallback_server_path(work_dir: &str) -> (r: String)
    ensures
        r@ == fallback_path_spec(work_dir@),
{
    join_path(work_dir, "server/server.mjs")
}

/// The error reported when both strategies fail; it names the exact fallback
/// path under `work_dir`.
pub fn resolve_error_message(work_dir: &str) -> (r: String)
    ensures
        r@ == error_message_spec(work_dir@),
{
    let mut s = String::from_str(
        "could not find the @sonamu-kit/lsp npm package; for development, copy the server entry script to: ",
    );
    let fb = fallback_server_path(work_dir);
    s.append(fb.as_str());
    s
}

/// Resolve the server entry script under `work_dir`, given the outcome of the
/// npm install attempt and, when that failed, whether the development
/// fallback file exists (ignored otherwise).
pub fn resolve_server_path(work_dir: &str, npm_installed: bool, fallback_exists: bool) -> (r:
    Result<String, String>)
    ensures
        r is Ok <==> resolve_spec(work_dir@, npm_installed, fallback_exists) is Ok,
        r matches Ok(p) ==> p@ == resolve_spec(work_dir@, npm_installed, fallback_exists)->Ok_0,
        r matches Err(e) ==> e@ == resolve_spec(work_dir@, npm_installed, fallback_exists)->Err_0,
{
    if npm_installed {
        Ok(installed_server_path(work_dir))
    } else if fallback_exists {
        Ok(fallback_server_path(work_dir))
    } else {
        Err(resolve_error_message(work_dir))
    }
}

/// Produce the command descriptor for the host: the node binary running the
/// resolved server script in standard-stream mode, or the resolution error.
pub fn language_server_command(
    work_dir: &str,
    node_binary: &str,
    npm_installed: bool,
    fallback_exists: bool,
) -> (r: Result<Command, String>)
    ensures
        r is Ok <==> command_spec(work_dir@, node_binary@, npm_installed, fallback_exists) is Ok,
        r matches Ok(c) ==> c@ == command_spec(
            work_dir@,
            node_binary@,
            npm_installed,
            fallback_exists,
        )->Ok_0,
        r matches Err(e) ==> e@ == command_spec(
            work_dir@,
            node_binary@,
            npm_installed,
            fallback_exists,
        )->Err_0,
{
    match resolve_server_path(work_dir, npm_installed, fallback_exists) {
        Ok(path) => Ok(descriptor(String::from_str(node_binary), path)),
        Err(e) => Err(e),
    }
}

/// When the registry lookup and install both succeed, the resolved path is
/// the installed package's entry file — never the development fallback,
/// whether or not that file exists.
pub proof fn lemma_install_wins(work_dir: Seq<char>, fallback_exists: bool)
    ensures
        resolve_spec(work_dir, true, fallback_exists) == Result::<Seq<char>, Seq<char>>::Ok(
            installed_path_spec(work_dir),
        ),
        installed_path_spec(work_dir) != fallback_path_spec(work_dir),
{
    reveal_strlit("node_modules/@sonamu-kit/lsp/out/server.mjs");
    reveal_strlit("server/server.mjs");
    assert(installed_path_spec(work_dir).len() != fallback_path_spec(work_dir).len());
}

/// When the npm strategies fail and the development fallback file exists, the
/// resolved path equals the fallback path exactly.
pub proof fn lemma_fallback_is_exact(work_dir: Seq<char>)
    ensures
        resolve_spec(work_dir, false, true) == Result::<Seq<char>, Seq<char>>::Ok(
            fallback_path_spec(work_dir),
        ),
{
}

/// `needle` occurs inside `hay` as a contiguous run.
pub open spec fn contains_seq(hay: Seq<char>, needle: Seq<char>) -> bool {
    exists|i: int|
        0 <= i && i + needle.len() <= hay.len() && #[trigger] hay.subrange(
            i,
            i + needle.len() as int,
        ) == needle
}

/// When both strategies fail, resolution fails and the error message contains
/// the literal fallback path.
pub proof fn lemma_error_names_fallback_path(work_dir: Seq<char>)
    ensures
        resolve_spec(work_dir, false, false) == Result::<Seq<char>, Seq<char>>::Err(
            error_message_spec(work_dir),
        ),
        contains_seq(error_message_spec(work_dir), fallback_path_spec(work_dir)),
{
    let msg = error_message_spec(work_dir);
    let fb = fallback_path_spec(work_dir);
    let i = error_prefix().len() as int;
    assert(msg.subrange(i, i + fb.len() as int) =~= fb);
}

} // verus!
