//! Terminal colours for the trace of a game.

use vstd::prelude::*;
use vstd::string::*;

verus! {

/// A colour of the trace, or `End`, which returns to the terminal's default.
#[derive(Debug, Clone, Copy, PartialEq, Eq, Structural)]
pub enum CL {
    Pink,
    Purple,
    Green,
    LimeGreen,
    DullGreen,
    Blue,
    DimLightBlue,
    DullRed,
    Red,
    Orange,
    Teal,
    DullTeal,
    Dull,
    End,
}

impl CL {
    /// The escape sequence that switches a terminal to this colour.
    pub open spec fn code(self) -> Seq<char> {
        match self {
            CL::Pink => "\x1b[38;5;201m"@,
            CL::Purple => "\x1b[38;5;135m"@,
            CL::Green => "\x1b[38;5;46m"@,
            CL::LimeGreen => "\x1b[38;5;118m"@,
            CL::DullGreen => "\x1b[38;5;29m"@,
            CL::Blue => "\x1b[38;5;27m"@,
            CL::DimLightBlue => "\x1b[38;5;67m"@,
            CL::DullRed => "\x1b[38;5;124m"@,
            CL::Red => "\x1b[38;5;196m"@,
            CL::Orange => "\x1b[38;5;208m"@,
            CL::Teal => "\x1b[38;5;14m"@,
            CL::DullTeal => "\x1b[38;5;153m"@,
            CL::Dull => "\x1b[38;5;8m"@,
            CL::End => "\x1b[37m"@,
        }
    }

    /// The text `content` wrapped so that it shows in this colour and the
    /// terminal is back to its default after it.
    pub open spec fn paint(self, content: Seq<char>) -> Seq<char> {
        self.code() + content + CL::End.code()
    }

    /// The escape sequence that switches a terminal to this colour.
    pub fn get(&self) -> (code: &'static str)
        ensures
            code@ == self.code(),
    {
        match self {
            CL::Pink => "\x1b[38;5;201m",
            CL::Purple => "\x1b[38;5;135m",
            CL::Green => "\x1b[38;5;46m",
            CL::LimeGreen => "\x1b[38;5;118m",
            CL::DullGreen => "\x1b[38;5;29m",
            CL::Blue => "\x1b[38;5;27m",
            CL::DimLightBlue => "\x1b[38;5;67m",
            CL::DullRed => "\x1b[38;5;124m",
            CL::Red => "\x1b[38;5;196m",
            CL::Orange => "\x1b[38;5;208m",
            CL::Teal => "\x1b[38;5;14m",
            CL::DullTeal => "\x1b[38;5;153m",
            CL::Dull => "\x1b[38;5;8m",
            CL::End => "\x1b[37m",
        }
    }

    /// The escape sequence of this colour, owned.
    pub fn to_string(&self) -> (code: String)
        ensures
            code@ == self.code(),
    {
        String::from_str(self.get())
    }

    /// The text `content` wrapped so that it shows in this colour.
    pub fn str(&self, content: &str) -> (painted: String)
        ensures
            painted@ == self.paint(content@),
    {
        String::from_str(self.get()).concat(content).concat(CL::End.get())
    }
}

} // verus!
