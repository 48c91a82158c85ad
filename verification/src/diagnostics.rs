//! Formatting of diagnostic messages.
//!
//! The validation layer hands the renderer severity-tagged, categorized text
//! messages; the sink prints one line per message in the fixed shape
//! `[severity][category] message-text`. Building that line is a pure string
//! computation and is verified here; the callback that receives the raw
//! message lives outside the library.

use vstd::prelude::*;
use vstd::string::StringExecFns;

verus! {

/// How severe a diagnostic message is.
#[derive(Clone, Copy, Debug, PartialEq, Eq, Structural)]
pub enum Severity {
    Verbose,
    Info,
    Warning,
    Error,
}

/// Which aspect of the renderer a diagnostic message concerns.
#[derive(Clone, Copy, Debug, PartialEq, Eq, Structural)]
pub enum Category {
    General,
    Validation,
    Performance,
}

/// The label a severity prints as.
pub open spec fn severity_label_spec(s: Severity) -> Seq<char> {
    match s {
        Severity::Verbose => "verbose"@,
        Severity::Info => "info"@,
        Severity::Warning => "warning"@,
        Severity::Error => "error"@,
    }
}

/// The label a category prints as.
pub open spec fn category_label_spec(c: Category) -> Seq<char> {
    match c {
        Category::General => "general"@,
        Category::Validation => "validation"@,
        Category::Performance => "performance"@,
    }
}

/// The label a severity prints as.
pub fn severity_label(s: Severity) -> (r: &'static str)
    ensures
        r@ == severity_label_spec(s),
{
    match s {
        Severity::Verbose => "verbose",
        Severity::Info => "info",
        Severity::Warning => "warning",
        Severity::Error => "error",
    }
}

/// The label a category prints as.
pub fn category_label(c: Category) -> (r: &'static str)
    ensures
        r@ == category_label_spec(c),
{
    match c {
        Category::General => "general",
        Category::Validation => "validation",
        Category::Performance => "performance",
    }
}

/// The one line a diagnostic message prints as.
pub open spec fn debug_line_spec(s: Severity, c: Category, message: Seq<char>) -> Seq<char> {
    "["@ + severity_label_spec(s) + "]["@ + category_label_spec(c) + "] "@ + message
}

/// Formats one diagnostic line: `[severity][category] message-text`.
pub fn debug_line(s: Severity, c: Category, message: &str) -> (r: String)
    ensures
        r@ == debug_line_spec(s, c, message@),
{
    let mut line = String::new();
    line.append("[");
    line.append(severity_label(s));
    line.append("][");
    line.append(category_label(c));
    line.append("] ");
    line.append(message);
    proof {
        assert(line@ =~= debug_line_spec(s, c, message@));
    }
    line
}

} // verus!
