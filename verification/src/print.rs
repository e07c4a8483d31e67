//! The two status lines the acquisition core itself emits.  Styling
//! and the output stream are outside work; nothing about these lines
//! is claimed or proved.

use colored::Colorize;
use std::io::Write;
use vstd::prelude::*;

verus! {

/// Relies on colored's ANSI styling and the standard output stream:
/// prints a warning line: arrow, text and tag in yellow.
#[verifier::external_body]
pub fn print_warn(text: &str) {
    let _ = writeln!(
        std::io::stdout(),
        "{} {}... {} !! {}.",
        ("=>").bright_yellow(),
        text.bright_yellow(),
        ("[WARN]").bright_yellow().bold(),
        ("").yellow().bold(),
    );
}

/// Relies on colored's ANSI styling and the standard output stream:
/// prints an error line: arrow, text and tag in red.
#[verifier::external_body]
pub fn print_err(text: &str) {
    let _ = writeln!(
        std::io::stdout(),
        "{} {}... {} !! {}.",
        ("=>").bright_red(),
        text.bright_red(),
        ("[ERR]").bright_red().bold(),
        ("").red().bold(),
    );
}

} // verus!
