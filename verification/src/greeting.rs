//! The text of the command-line greeting.

use vstd::prelude::*;

verus! {

/// The greeting, without a line ending.
pub const GREETING: &'static str = "Hello, world!";

/// The characters that the greeting program writes to standard output: the
/// greeting and one line feed.
pub open spec fn greeting_output() -> Seq<char> {
    GREETING@.push('\n')
}

/// Returns the full output of the greeting program. It takes nothing and
/// reads nothing, so every call gives the same text.
pub fn greeting_line() -> (line: String)
    ensures
        line@ == greeting_output(),
        line@ == "Hello, world!\n"@,
{
    let line = String::from_str(GREETING).concat("\n");
    proof {
        reveal_strlit("\n");
        assert("\n"@ =~= seq!['\n']);
        assert(line@ =~= GREETING@.push('\n'));
        greeting_output_is_fixed();
    }
    line
}

/// The output of the greeting program does not depend on anything: it is
/// the same fourteen characters on every run, the greeting and then one
/// line feed.
pub proof fn greeting_output_is_fixed()
    ensures
        greeting_output() == "Hello, world!\n"@,
        greeting_output().len() == 14,
        greeting_output().last() == '\n',
        greeting_output().drop_last() == GREETING@,
{
    reveal_strlit("Hello, world!");
    reveal_strlit("Hello, world!\n");
    assert(greeting_output() =~= "Hello, world!\n"@);
    assert(greeting_output().drop_last() =~= GREETING@);
}

} // verus!
