//! Emphasis for terminal text, applied by the `colored` crate.
//!
//! `colored` decides at each call, from the process's environment and its own
//! override switch, whether to add escape sequences at all. A painted text is
//! therefore either the text itself or its styled form; which one, no contract
//! here can say. The contracts hold as long as nothing flips the override
//! while a call runs.

use colored::Colorize;
use vstd::prelude::*;

verus! {

/// What `colored` writes for `text` in bold while colouring is on.
pub uninterp spec fn bold_text(text: Seq<char>) -> Seq<char>;

/// What `colored` writes for `text` in bright black while colouring is on.
pub uninterp spec fn bright_black_text(text: Seq<char>) -> Seq<char>;

/// What `colored` writes for `text` in bold bright green while colouring is on.
pub uninterp spec fn bold_bright_green_text(text: Seq<char>) -> Seq<char>;

/// What `colored` writes for `text` in bold bright red while colouring is on.
pub uninterp spec fn bold_bright_red_text(text: Seq<char>) -> Seq<char>;

/// Calls `Colorize::bold` on the text and prints the result with `to_string`.
/// Trusted: the outcome is the text unchanged, or its bold form.
#[verifier::external_body]
pub(crate) fn bold(text: &str) -> (cell: String)
    ensures
        cell@ == text@ || cell@ == bold_text(text@),
{
    text.bold().to_string()
}

/// Calls `Colorize::bright_black` on the text and prints the result with
/// `to_string`. Trusted: the outcome is the text unchanged, or its bright
/// black form.
#[verifier::external_body]
pub(crate) fn bright_black(text: &str) -> (cell: String)
    ensures
        cell@ == text@ || cell@ == bright_black_text(text@),
{
    text.bright_black().to_string()
}

/// Calls `Colorize::bold` and then `Colorize::bright_green` on the text and
/// prints the result with `to_string`. Trusted: the outcome is the text
/// unchanged, or its bold bright green form.
#[verifier::external_body]
pub(crate) fn bold_bright_green(text: &str) -> (cell: String)
    ensures
        cell@ == text@ || cell@ == bold_bright_green_text(text@),
{
    text.bold().bright_green().to_string()
}

/// Calls `Colorize::bold` and then `Colorize::bright_red` on the text and
/// prints the result with `to_string`. Trusted: the outcome is the text
/// unchanged, or its bold bright red form.
#[verifier::external_body]
pub(crate) fn bold_bright_red(text: &str) -> (cell: String)
    ensures
        cell@ == text@ || cell@ == bold_bright_red_text(text@),
{
    text.bold().bright_red().to_string()
}

} // verus!
