//! Argument validation and dispatch for an asset-export (`asm`) subcommand.
//!
//! Raw, loosely-typed command-line input is turned into strongly validated
//! command records, cross-field invariants are enforced (project context,
//! fixed-width hex-encoded load address), and the request is routed to one of
//! a small set of named operations.

use vstd::prelude::*;

mod args;
mod dispatch;
mod error;
mod format;
mod hex;
mod laws;
mod text;

pub use args::{
    AsmArgs, AsmArgsV, AsmSelectArgs, AsmSelectArgsV, GlobalArgs, RawAsmArgs, RawSelectArgs,
    RawSubcommand, address_width_msg, missing_msg, parse_asm_args, parse_asm_select_args,
    parse_required, spec_parse_asm_args, spec_parse_asm_select_args, spec_strip_hex_prefix,
};
pub use dispatch::{
    AsmCommand, AsmCommandV, execute_asm_command, spec_execute_asm_command, unknown_subcommand_msg,
};
pub use error::Error;
pub use format::AsmFormat;
pub use hex::{from_hex, hex_bytes, hex_chars, hex_val, is_hex_digit, lemma_hex_round_trip, valid_hex};
pub use laws::{
    lemma_address_width_error, lemma_all_ignores_selection_flags, lemma_bin_address_round_trip,
    lemma_conflate_ignores_text, lemma_conflate_is_presence_only, lemma_dispatch_all,
    lemma_dispatch_select, lemma_dispatch_unknown, lemma_missing_selection_flag_fails,
    lemma_missing_top_level_flag_fails, lemma_project_context_required,
};

verus! {

} // verus!
