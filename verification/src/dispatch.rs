//! Two-level subcommand dispatch: validate the top-level flags, then route
//! on the second-level subcommand name.
//!
//! The operations themselves (bulk export, per-asset export) perform file
//! I/O and live outside this layer; dispatch therefore returns the chosen
//! operation together with its fully validated arguments, and the caller
//! performs it. Every validation failure occurs strictly before any
//! operation is chosen.

use vstd::prelude::*;
use vstd::string::*;

use crate::args::{
    AsmArgs, AsmArgsV, AsmSelectArgs, AsmSelectArgsV, GlobalArgs, RawAsmArgs, parse_asm_args,
    parse_asm_select_args, spec_parse_asm_args, spec_parse_asm_select_args,
};
use crate::error::Error;
use crate::text::str_eq;

verus! {

/// The operation a valid `asm` invocation resolves to, with its validated
/// arguments.
#[derive(Debug)]
pub enum AsmCommand {
    /// Export every asset of the project ("export everything").
    All(AsmArgs),
    /// Export the one selected asset.
    Select(AsmArgs, AsmSelectArgs),
}

/// Mathematical value of an [`AsmCommand`].
#[verifier::ext_equal]
pub enum AsmCommandV {
    /// Export every asset of the project.
    All(AsmArgsV),
    /// Export the one selected asset.
    Select(AsmArgsV, AsmSelectArgsV),
}

impl View for AsmCommand {
    type V = AsmCommandV;

    open spec fn view(&self) -> AsmCommandV {
        match self {
            AsmCommand::All(a) => AsmCommandV::All(a@),
            AsmCommand::Select(a, s) => AsmCommandV::Select(a@, s@),
        }
    }
}

/// Message reported for an unknown or absent second-level subcommand.
pub open spec fn unknown_subcommand_msg() -> Seq<char> {
    "Unknown sub command, use 'asm --help' for details"@
}

/// The outcome `execute_asm_command` is required to produce: the top-level
/// validation outcome decides first; then the subcommand name routes to the
/// bulk-export operation (`all`), to selection validation and the
/// per-asset operation (`select`), or to a usage-hint failure (anything
/// else, or no subcommand at all).
pub open spec fn spec_execute_asm_command(g: GlobalArgs, raw: RawAsmArgs) -> Result<
    AsmCommandV,
    Seq<char>,
> {
    match spec_parse_asm_args(g, raw) {
        Err(m) => Err(m),
        Ok(a) => match raw.subcommand {
            Option::None => Err(unknown_subcommand_msg()),
            Option::Some(sub) => if sub.name@ == "all"@ {
                Ok(AsmCommandV::All(a))
            } else if sub.name@ == "select"@ {
                match spec_parse_asm_select_args(a, sub.args) {
                    Ok(s) => Ok(AsmCommandV::Select(a, s)),
                    Err(m) => Err(m),
                }
            } else {
                Err(unknown_subcommand_msg())
            },
        },
    }
}

/// Validates the top-level flags and routes on the second-level subcommand
/// name, returning the chosen operation with its validated arguments, or
/// the first validation failure.
pub fn execute_asm_command(g_args: &GlobalArgs, args: &RawAsmArgs) -> (r: Result<AsmCommand, Error>)
    ensures
        match r {
            Ok(c) => spec_execute_asm_command(*g_args, *args) == Ok::<AsmCommandV, Seq<char>>(c@),
            Err(e) => spec_execute_asm_command(*g_args, *args) == Err::<AsmCommandV, Seq<char>>(
                e.message_view(),
            ),
        },
{
    let a = match parse_asm_args(g_args, args) {
        Ok(a) => a,
        Err(e) => return Err(e),
    };
    match &args.subcommand {
        Some(sub) => {
            if str_eq(sub.name.as_str(), "all") {
                Ok(AsmCommand::All(a))
            } else if str_eq(sub.name.as_str(), "select") {
                match parse_asm_select_args(&a, &sub.args) {
                    Ok(s) => Ok(AsmCommand::Select(a, s)),
                    Err(e) => Err(e),
                }
            } else {
                let msg = String::from_str("Unknown sub command, use 'asm --help' for details");
                Err(Error::ArgumentError(msg))
            }
        },
        None => {
            let msg = String::from_str("Unknown sub command, use 'asm --help' for details");
            Err(Error::ArgumentError(msg))
        },
    }
}

} // verus!
