//! Command-line options and the rules that resolve them.
//!
//! Flag parsing itself is left to the binary; the library holds the
//! options as plain values and decides which output format they ask
//! for, rejecting contradictory combinations.

use vstd::prelude::*;

verus! {

/// The output format of a metrics run.
#[derive(Debug, Clone, Copy, PartialEq, Eq, Structural)]
pub enum OutputFormat {
    Human,
    Json,
}

/// Command-line options for a metrics run.
///
/// Example:
///   `noir-metrics . --format json --output metrics.json`
#[derive(Debug, Clone)]
pub struct Cli {
    /// Path to the Noir project root.
    pub project_root: String,
    /// Output format, if given explicitly.
    pub format: Option<OutputFormat>,
    /// Backwards-compat alias for JSON output (prefer `--format json`).
    pub json: bool,
    /// Write JSON output to this file instead of stdout.
    pub output: Option<String>,
    /// Verbose logging.
    pub verbose: bool,
}

/// Why a combination of command-line options is rejected.
#[derive(Debug, Clone, Copy, PartialEq, Eq, Structural)]
pub enum CliError {
    /// `--format` and `--json` were both given.
    ConflictingFormatFlags,
    /// `--output` was given without JSON output.
    OutputRequiresJson,
}

/// The format a set of options resolves to: an explicit `--format`
/// wins, the `--json` alias selects JSON, the default is human
/// output; `--format` with `--json` is a conflict, and `--output`
/// demands JSON output.
pub open spec fn resolved_format(c: Cli) -> Result<OutputFormat, CliError> {
    match (c.format, c.json) {
        (Some(_), true) => Err(CliError::ConflictingFormatFlags),
        (Some(f), false) => if c.output is Some && f != OutputFormat::Json {
            Err(CliError::OutputRequiresJson)
        } else {
            Ok(f)
        },
        (None, true) => Ok(OutputFormat::Json),
        (None, false) => if c.output is Some {
            Err(CliError::OutputRequiresJson)
        } else {
            Ok(OutputFormat::Human)
        },
    }
}

impl Cli {
    /// Decide the output format these options ask for, or reject them.
    pub fn resolve_format(&self) -> (r: Result<OutputFormat, CliError>)
        ensures
            r == resolved_format(*self),
    {
        let format = match (self.format, self.json) {
            (Some(_), true) => {
                return Err(CliError::ConflictingFormatFlags);
            },
            (Some(f), false) => f,
            (None, true) => OutputFormat::Json,
            (None, false) => OutputFormat::Human,
        };
        if self.output.is_some() && !matches!(format, OutputFormat::Json) {
            return Err(CliError::OutputRequiresJson);
        }
        Ok(format)
    }
}

} // verus!
