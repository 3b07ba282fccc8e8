//! ANSI SGR styling of text spans.
use vstd::prelude::*;
use vstd::string::*;

verus! {

/// The two styles the views use.
pub enum Tone {
    /// Black foreground on a white background, bold.
    Cell,
    /// Colour 8 of the 256-colour palette as background, bold.
    Header,
}

/// The escape sequence that opens a span in `tone`.
pub open spec fn sgr_prefix(tone: Tone) -> Seq<char> {
    match tone {
        Tone::Cell => "\x1b[1;30;47m"@,
        Tone::Header => "\x1b[1;48;5;8m"@,
    }
}

/// The escape sequence that closes a styled span.
pub open spec fn sgr_reset() -> Seq<char> {
    "\x1b[0m"@
}

/// `text` wrapped in the escape sequences of `tone`.
pub open spec fn painted(tone: Tone, text: Seq<char>) -> Seq<char> {
    sgr_prefix(tone) + text + sgr_reset()
}

/// Appends `text` styled in `tone`.
pub fn paint(out: &mut String, tone: Tone, text: &str)
    ensures
        final(out)@ == old(out)@ + painted(tone, text@),
{
    match tone {
        Tone::Cell => out.append("\x1b[1;30;47m"),
        Tone::Header => out.append("\x1b[1;48;5;8m"),
    }
    out.append(text);
    out.append("\x1b[0m");
}

} // verus!
