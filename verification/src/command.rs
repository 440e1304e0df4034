//! The command descriptor handed back to the host editor, and the small
//! string helpers both locators share.

use vstd::prelude::*;

verus! {

/// What the host editor needs to spawn a language-server process: the
/// executable to run, its arguments in order, and environment overrides
/// (empty unless a locator has something to override).
#[derive(Debug, PartialEq, Eq)]
pub struct Command {
    pub command: String,
    pub args: Vec<String>,
    pub env: Vec<(String, String)>,
}

/// The mathematical model of a [`Command`]: every string as its sequence of
/// characters.
#[verifier::ext_equal]
pub ghost struct CommandModel {
    pub command: Seq<char>,
    pub args: Seq<Seq<char>>,
    pub env: Seq<(Seq<char>, Seq<char>)>,
}

impl View for Command {
    type V = CommandModel;

    open spec fn view(&self) -> CommandModel {
        CommandModel {
            command: self.command@,
            args: self.args.deep_view(),
            env: self.env.deep_view(),
        }
    }
}

/// The flag that tells a spawned server to exchange protocol messages over
/// its standard input and output rather than a network socket.
pub open spec fn stdio_flag() -> Seq<char> {
    "--stdio"@
}

/// The executable form of [`stdio_flag`].
pub fn stdio_arg() -> (r: String)
    ensures
        r@ == stdio_flag(),
{
    String::from_str("--stdio")
}

/// A path under `base`: the base directory, a separator, then `rel`.
pub open spec fn joined(base: Seq<char>, rel: Seq<char>) -> Seq<char> {
    base + "/"@ + rel
}

/// Join a relative path onto a base directory.
pub fn join_path(base: &str, rel: &str) -> (r: String)
    ensures
        r@ == joined(base@, rel@),
{
    let mut s = String::from_str(base);
    s.append("/");
    s.append(rel);
    s
}

/// The descriptor every locator hands the host on success: `executable`
/// running `script`, with the standard-stream flag as the final argument and
/// no environment overrides.
pub open spec fn descriptor_model(executable: Seq<char>, script: Seq<char>) -> CommandModel {
    CommandModel { command: executable, args: seq![script, stdio_flag()], env: Seq::empty() }
}

/// Build the success descriptor: `executable` running `script` in
/// standard-stream mode.
pub fn descriptor(executable: String, script: String) -> (c: Command)
    ensures
        c@ == descriptor_model(executable@, script@),
{
    let ghost e = executable@;
    let ghost s = script@;
    let mut args: Vec<String> = Vec::new();
    args.push(script);
    args.push(stdio_arg());
    let c = Command { command: executable, args, env: Vec::new() };
    proof {
        assert(c@ =~~= descriptor_model(e, s));
    }
    c
}

} // verus!
