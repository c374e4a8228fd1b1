//! The help panel shown under the prompt.

use vstd::prelude::*;

verus! {

/// The help panel.
#[derive(Clone, Copy, Debug)]
pub struct HelpArea;

pub const HELP_LINES: [&'static str; 7] = [
    "  ? to print help      tap esc twice to clear input",
    "  / for commands       tap esc while agent is running to cancel",
    "                       ctrl^c to exit",
    "",
    "  Available Commands:",
    "  /exit                exit from the tui",
    "  /tc <method>         set tool call method: [auto | fc | fc2 | so]",
];

/// The first `n` lines, each after a newline but the first.
pub open spec fn lines_joined(lines: Seq<&str>, n: int) -> Seq<char>
    decreases n,
{
    if n <= 0 {
        Seq::empty()
    } else if n == 1 {
        lines[0]@
    } else {
        lines_joined(lines, n - 1) + "\n"@ + lines[n - 1]@
    }
}

impl HelpArea {
    /// The panel's text: its lines joined by newlines.
    pub fn helper_msg(&self) -> (r: String)
        ensures
            r@ == lines_joined(HELP_LINES@, 7),
    {
        let lines = HELP_LINES;
        let mut s = String::new();
        let mut i: usize = 0;
        while i < 7
            invariant
                i <= 7,
                lines@ == HELP_LINES@,
                s@ == lines_joined(lines@, i as int),
            decreases 7 - i,
        {
            if i > 0 {
                s.append("\n");
            } else {
                proof {
                    assert(s@ =~= Seq::<char>::empty());
                }
            }
            s.append(lines[i]);
            proof {
                if i == 0 {
                    assert(s@ =~= lines@[0]@);
                }
            }
            i += 1;
        }
        s
    }

    /// The rows the panel takes.
    pub fn height(&self) -> (r: u16)
        ensures
            r == 7,
    {
        7
    }
}

} // verus!
