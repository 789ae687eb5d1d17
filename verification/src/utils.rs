use vstd::prelude::*;

verus! {

/// The ANSI escape sequences the surrounding display code colors the board
/// with. Kept with the core so callers agree on the exact codes.
#[derive(Copy, Clone, Debug, PartialEq, Eq, Structural)]
pub enum ColorString {
    Reset,
    FgBlue,
    FgRed,
    BgBlack,
    BgWhite,
}

impl ColorString {
    /// The exact escape sequence each tag stands for.
    pub open spec fn code(self) -> Seq<char> {
        match self {
            ColorString::Reset => "\x1b[0m"@,
            ColorString::FgBlue => "\x1b[34m"@,
            ColorString::FgRed => "\x1b[31m"@,
            ColorString::BgBlack => "\x1b[40m"@,
            ColorString::BgWhite => "\x1b[47m"@,
        }
    }

    pub fn as_str(&self) -> (r: &'static str)
        ensures
            r@ == self.code(),
    {
        match self {
            ColorString::Reset => "\x1b[0m",
            ColorString::FgBlue => "\x1b[34m",
            ColorString::FgRed => "\x1b[31m",
            ColorString::BgBlack => "\x1b[40m",
            ColorString::BgWhite => "\x1b[47m",
        }
    }
}

} // verus!
