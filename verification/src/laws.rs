//! Laws that hold across both locators.

use vstd::prelude::*;

use crate::command::stdio_flag;
use crate::naite;
use crate::sonamu;

verus! {

/// Every command either locator produces ends its argument list with the
/// standard-stream flag, whichever fallback branch was taken.
pub proof fn lemma_stdio_always_last(
    work_dir: Seq<char>,
    node_binary: Seq<char>,
    npm_installed: bool,
    fallback_exists: bool,
    interpreter: Option<Seq<char>>,
    launcher: Option<Seq<char>>,
)
    ensures
        sonamu::command_spec(work_dir, node_binary, npm_installed, fallback_exists) matches Ok(c)
            ==> c.args.len() > 0 && c.args.last() == stdio_flag(),
        naite::command_spec(interpreter, launcher) matches Ok(c) ==> c.args.len() > 0
            && c.args.last() == stdio_flag(),
{
}

} // verus!
