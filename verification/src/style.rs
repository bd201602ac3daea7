use vstd::prelude::*;
use vstd::string::StringExecFns;

verus! {

// ANSI escape sequences.  Coloring is an explicit, scoped choice of the
// caller (`colorize`), never process-wide state, so repeated or nested
// rendering cannot leak color into unrelated output.
pub const RESET: &'static str = "\u{1b}[0m";

pub const BOLD: &'static str = "\u{1b}[1m";

pub const DIM: &'static str = "\u{1b}[2m";

pub const RED: &'static str = "\u{1b}[31m";

pub const GREEN: &'static str = "\u{1b}[32m";

pub const YELLOW: &'static str = "\u{1b}[33m";

pub const BLUE: &'static str = "\u{1b}[34m";

pub const BRIGHT_BLACK: &'static str = "\u{1b}[90m";

pub const BRIGHT_BLUE: &'static str = "\u{1b}[94m";

pub const BRIGHT_GREEN: &'static str = "\u{1b}[92m";

pub const BRIGHT_YELLOW: &'static str = "\u{1b}[93m";

pub const BRIGHT_MAGENTA: &'static str = "\u{1b}[95m";

pub const BRIGHT_CYAN: &'static str = "\u{1b}[96m";

pub const BOLD_YELLOW: &'static str = "\u{1b}[1m\u{1b}[33m";

pub const BOLD_BRIGHT_YELLOW: &'static str = "\u{1b}[1m\u{1b}[93m";

/// `text` wrapped in the escape code and a reset when colorizing, bare
/// `text` otherwise.
pub open spec fn spec_paint(code: Seq<char>, text: Seq<char>, colorize: bool) -> Seq<char> {
    if colorize {
        code + text + RESET@
    } else {
        text
    }
}

/// Appends `text` to `out`, wrapped in `code` and a reset when
/// `colorize` is set.
pub fn paint_into(out: &mut String, code: &str, text: &str, colorize: bool)
    ensures
        final (out)@ == old(out)@ + spec_paint(code@, text@, colorize),
{
    if colorize {
        out.append(code);
        out.append(text);
        out.append(RESET);
    } else {
        out.append(text);
    }
}

/// `text` wrapped in `code` and a reset when `colorize` is set.
pub fn paint(code: &str, text: &str, colorize: bool) -> (r: String)
    ensures
        r@ == spec_paint(code@, text@, colorize),
{
    let mut out = String::new();
    paint_into(&mut out, code, text, colorize);
    out
}

} // verus!
