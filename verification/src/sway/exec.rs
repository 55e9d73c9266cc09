//! Arguments of the `exec` and `exec_always` commands: a bare command line,
//! or a command line with leading flags.
use crate::sway::options::{arg_map_text, Arg, ArgMap};
use vstd::prelude::*;

verus! {

/// Flags of `exec` commands.
#[derive(Debug, Clone, PartialEq, Eq)]
pub enum Exec {
    NoStartupId,
}

impl Arg for Exec {
    open spec fn text_v(&self) -> Seq<char> {
        "--no-startup-id"@
    }

    fn arg_text(&self) -> (r: String) {
        String::from_str("--no-startup-id")
    }
}

/// The argument of an `exec` command: the command line, with optional
/// leading flag text.
#[derive(Debug, Clone, PartialEq, Eq)]
pub enum ExecParams {
    Text(String),
    Flagged { args: ArgMap<Exec>, command: String },
}

impl ExecParams {
    /// The canonical text: the flags, each followed by one space, then the
    /// command line.
    pub open spec fn text(self) -> Seq<char> {
        match self {
            ExecParams::Text(s) => s@,
            ExecParams::Flagged { args, command } => arg_map_text(args.0@) + command@,
        }
    }

    /// Renders the canonical text.
    pub fn to_string(&self) -> (r: String)
        ensures
            r@ == self.text(),
    {
        match self {
            ExecParams::Text(s) => String::from_str(s.as_str()),
            ExecParams::Flagged { args, command } => {
                let mut acc = args.to_string();
                acc.append(command.as_str());
                acc
            },
        }
    }
}

} // verus!
