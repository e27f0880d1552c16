//! The command-line surface, reduced to its decision: which input stream
//! supplies the configuration entries, and which output format renders
//! the events. Argument parsing itself is outside the library.

use vstd::prelude::*;

verus! {

/// The two supported event output formats.
#[derive(Clone, Copy, Debug, PartialEq, Eq, Structural)]
pub enum FormatType {
    Json,
    Pretty,
}

impl FormatType {
    /// The name of the format as it appears on the command line.
    pub fn name(&self) -> (r: &'static str)
        ensures
            *self is Json ==> r@ == "json"@,
            *self is Pretty ==> r@ == "pretty"@,
    {
        match self {
            FormatType::Json => "json",
            FormatType::Pretty => "pretty",
        }
    }
}

/// A parsed command line: an optional configuration file path, and the
/// output format.
pub struct Command {
    pub config: Option<String>,
    pub format: FormatType,
}

/// Where the configuration entries are read from.
pub enum InputSource {
    File(String),
    Stdin,
}

/// What a command line resolves to.
pub struct LaunchPlan {
    pub source: InputSource,
    pub format: FormatType,
}

/// Resolves a command line: a given configuration path is read as a
/// file; without one the entries come from standard input. The format
/// is taken as given.
pub fn start_cli(command: Command) -> (r: LaunchPlan)
    ensures
        r.format == command.format,
        (match command.config {
            Some(path) => r.source matches InputSource::File(p) && p@ == path@,
            None => r.source is Stdin,
        }),
{
    let source = match command.config {
        Some(path) => InputSource::File(path),
        None => InputSource::Stdin,
    };
    LaunchPlan { source, format: command.format }
}

} // verus!
