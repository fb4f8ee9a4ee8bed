//! Raw and validated argument records for the `asm` command, and the
//! validators that connect them.
//!
//! Raw records hold each flag exactly as the command line supplied it: a
//! required or optional flag as `Some` of its text when it occurred and
//! `None` when it did not. Validation turns a raw record into a validated
//! one whose type guarantees presence, or fails with a descriptive
//! [`Error`].

use vstd::prelude::*;
use vstd::string::*;

use crate::error::Error;
use crate::format::AsmFormat;
use crate::hex::{from_hex, hex_bytes, valid_hex};

verus! {

/// Global execution context of the enclosing tool.
///
/// Only the configured project file is consulted here: the `asm` command
/// requires a project context to resolve relative asset paths.
pub struct GlobalArgs {
    /// Path of the configured project file, if one was given.
    pub project_file: Option<String>,
}

/// Raw per-asset selection flags, as supplied on the command line.
pub struct RawSelectArgs {
    /// Text of `--asset_id`, if the flag occurred.
    pub asset_id: Option<String>,
    /// Text of `--out_file`, if the flag occurred.
    pub out_file: Option<String>,
    /// Text of `--bin_address`, if the flag occurred.
    pub bin_address: Option<String>,
}

/// A second-level subcommand as it occurred on the command line: its name
/// and the flags that followed it.
pub struct RawSubcommand {
    /// The subcommand name token.
    pub name: String,
    /// The flags given after the subcommand name.
    pub args: RawSelectArgs,
}

/// Raw top-level flags of the `asm` command, as supplied on the command
/// line.
pub struct RawAsmArgs {
    /// Text of `--out_dir`, if the flag occurred.
    pub out_dir: Option<String>,
    /// Text of `--format`, if the flag occurred.
    pub format: Option<String>,
    /// Text of `--sd_image`, if the flag occurred.
    pub sd_image: Option<String>,
    /// `Some` iff the presence-only flag `--conflate_tilemaps` occurred;
    /// any attached text is irrelevant.
    pub conflate_tilemaps: Option<String>,
    /// The second-level subcommand, if one was given.
    pub subcommand: Option<RawSubcommand>,
}

/// The validated top-level command record.
///
/// In a validly constructed instance `out_dir` and `format` are always
/// populated; the record is immutable after construction.
#[derive(Debug)]
pub struct AsmArgs {
    /// Destination root for all emitted assets; always present.
    pub out_dir: String,
    /// The selected output format; always a recognized variant.
    pub format: AsmFormat,
    /// Optional SD-card image path; present only if the flag was supplied.
    pub sd_image: Option<String>,
    /// True iff the presence-only flag was supplied.
    pub conflate_tilemaps: bool,
}

/// Mathematical value of an [`AsmArgs`] record.
#[verifier::ext_equal]
pub struct AsmArgsV {
    /// Characters of the destination root.
    pub out_dir: Seq<char>,
    /// The selected output format.
    pub format: AsmFormat,
    /// Characters of the SD-card image path, if one was supplied.
    pub sd_image: Option<Seq<char>>,
    /// Whether the presence-only flag was supplied.
    pub conflate_tilemaps: bool,
}

impl View for AsmArgs {
    type V = AsmArgsV;

    open spec fn view(&self) -> AsmArgsV {
        AsmArgsV {
            out_dir: self.out_dir@,
            format: self.format,
            sd_image: self.sd_image.deep_view(),
            conflate_tilemaps: self.conflate_tilemaps,
        }
    }
}

/// The validated per-asset selection record.
#[derive(Debug)]
pub struct AsmSelectArgs {
    /// Identifier of the asset to extract; always present and as supplied.
    pub asset_id: String,
    /// Fully composed output path: `out_dir`, a path separator, then the
    /// user-supplied relative name.
    pub out_file: String,
    /// The decoded 16-bit load address, exactly two bytes.
    pub bin_address: [u8; 2],
}

/// Mathematical value of an [`AsmSelectArgs`] record.
#[verifier::ext_equal]
pub struct AsmSelectArgsV {
    /// Characters of the asset identifier.
    pub asset_id: Seq<char>,
    /// Characters of the composed output path.
    pub out_file: Seq<char>,
    /// The decoded load address bytes.
    pub bin_address: Seq<u8>,
}

impl View for AsmSelectArgs {
    type V = AsmSelectArgsV;

    open spec fn view(&self) -> AsmSelectArgsV {
        AsmSelectArgsV {
            asset_id: self.asset_id@,
            out_file: self.out_file@,
            bin_address: self.bin_address@,
        }
    }
}

/// Message reported for a required flag that did not occur.
pub open spec fn missing_msg(name: Seq<char>) -> Seq<char> {
    "--"@ + name + " is required"@
}

/// Extracts the text of a required flag, or fails with the flag-specific
/// missing-argument message.
pub fn parse_required(value: &Option<String>, name: &str) -> (r: Result<String, Error>)
    ensures
        match r {
            Ok(s) => value matches Some(v) && s@ == v@,
            Err(e) => value is None && e.message_view() == missing_msg(name@),
        },
{
    match value {
        Some(s) => Ok(s.clone()),
        None => {
            let msg = String::from_str("--").concat(name).concat(" is required");
            Err(Error::ArgumentError(msg))
        },
    }
}

/// The outcome `parse_asm_args` is required to produce: the validated
/// record for a raw input that passes every check, else the message of the
/// first failing check, in order — project context, `out_dir` presence,
/// `format` presence, `format` recognition.
pub open spec fn spec_parse_asm_args(g: GlobalArgs, raw: RawAsmArgs) -> Result<AsmArgsV, Seq<char>> {
    if g.project_file is None {
        Err("--project_file is required in this context"@)
    } else {
        match raw.out_dir {
            Option::None => Err(missing_msg("out_dir"@)),
            Option::Some(out_dir) => match raw.format {
                Option::None => Err(missing_msg("format"@)),
                Option::Some(format_tok) => match AsmFormat::spec_from_token(format_tok@) {
                    Option::None => Err("unknown output format: "@ + format_tok@),
                    Option::Some(format) => Ok(
                        AsmArgsV {
                            out_dir: out_dir@,
                            format,
                            sd_image: raw.sd_image.deep_view(),
                            conflate_tilemaps: raw.conflate_tilemaps is Some,
                        },
                    ),
                },
            },
        }
    }
}

/// Builds the validated top-level record from the global context and the
/// raw flags, enforcing presence and format invariants in order.
pub fn parse_asm_args(g_args: &GlobalArgs, args: &RawAsmArgs) -> (r: Result<AsmArgs, Error>)
    ensures
        match r {
            Ok(a) => spec_parse_asm_args(*g_args, *args) == Ok::<AsmArgsV, Seq<char>>(a@),
            Err(e) => spec_parse_asm_args(*g_args, *args) == Err::<AsmArgsV, Seq<char>>(
                e.message_view(),
            ),
        },
{
    if g_args.project_file.is_none() {
        let msg = String::from_str("--project_file is required in this context");
        return Err(Error::ArgumentError(msg));
    }
    let out_dir = match parse_required(&args.out_dir, "out_dir") {
        Ok(s) => s,
        Err(e) => return Err(e),
    };
    let format_tok = match parse_required(&args.format, "format") {
        Ok(s) => s,
        Err(e) => return Err(e),
    };
    let format = match AsmFormat::from_str(format_tok.as_str()) {
        Ok(f) => f,
        Err(e) => return Err(e),
    };
    let sd_image = match &args.sd_image {
        Some(s) => Some(s.clone()),
        None => None,
    };
    let conflate_tilemaps = args.conflate_tilemaps.is_some();
    Ok(AsmArgs { out_dir, format, sd_image, conflate_tilemaps })
}

/// The address token after normalization: an optional leading `0x` or `0X`
/// is stripped; the digits that follow keep their case.
pub open spec fn spec_strip_hex_prefix(s: Seq<char>) -> Seq<char> {
    if s.len() >= 2 && s[0] == '0' && (s[1] == 'x' || s[1] == 'X') {
        s.skip(2)
    } else {
        s
    }
}

/// Message reported for an address that does not decode to exactly two
/// bytes. The width it states is a known wording inconsistency, kept
/// deliberately: the address is 16 bits (2 bytes, 4 hex digits), not 16
/// bytes.
pub open spec fn address_width_msg() -> Seq<char> {
    ".bin start address must be 16 bytes (4 hex digits)"@
}

/// The outcome `parse_asm_select_args` is required to produce, given the
/// value of the already-validated top-level record: the validated selection
/// record, else the message of the first failing check, in order —
/// `asset_id`, `out_file` and `bin_address` presence, hex decodability of
/// the normalized address, decoded width of exactly two bytes.
pub open spec fn spec_parse_asm_select_args(a: AsmArgsV, raw: RawSelectArgs) -> Result<
    AsmSelectArgsV,
    Seq<char>,
> {
    match raw.asset_id {
        Option::None => Err(missing_msg("asset_id"@)),
        Option::Some(asset_id) => match raw.out_file {
            Option::None => Err(missing_msg("out_file"@)),
            Option::Some(out_file) => match raw.bin_address {
                Option::None => Err(missing_msg("bin_address"@)),
                Option::Some(addr) => {
                    let t = spec_strip_hex_prefix(addr@);
                    if !valid_hex(t) {
                        Err("invalid hex string: "@ + t)
                    } else if hex_bytes(t).len() != 2 {
                        Err(address_width_msg())
                    } else {
                        Ok(
                            AsmSelectArgsV {
                                asset_id: asset_id@,
                                out_file: a.out_dir + "/"@ + out_file@,
                                bin_address: hex_bytes(t),
                            },
                        )
                    }
                },
            },
        },
    }
}

/// Builds the validated selection record from the validated top-level
/// record and the raw selection flags: requires the three flags, decodes
/// the normalized address as hex, checks the two-byte width, and composes
/// the output path from `out_dir`, a path separator and the supplied
/// relative name — plain concatenation, with no normalization of the
/// relative name.
pub fn parse_asm_select_args(asm_args: &AsmArgs, args: &RawSelectArgs) -> (r: Result<
    AsmSelectArgs,
    Error,
>)
    ensures
        match r {
            Ok(s) => spec_parse_asm_select_args(asm_args@, *args) == Ok::<
                AsmSelectArgsV,
                Seq<char>,
            >(s@),
            Err(e) => spec_parse_asm_select_args(asm_args@, *args) == Err::<
                AsmSelectArgsV,
                Seq<char>,
            >(e.message_view()),
        },
{
    let asset_id = match parse_required(&args.asset_id, "asset_id") {
        Ok(s) => s,
        Err(e) => return Err(e),
    };
    let out_file = match parse_required(&args.out_file, "out_file") {
        Ok(s) => s,
        Err(e) => return Err(e),
    };
    let bin_address = match parse_required(&args.bin_address, "bin_address") {
        Ok(s) => s,
        Err(e) => return Err(e),
    };

    let addr = bin_address.as_str();
    let n: usize = addr.unicode_len();
    let start: usize = if n >= 2 && addr.get_char(0) == '0' && (addr.get_char(1) == 'x'
        || addr.get_char(1) == 'X') {
        2
    } else {
        0
    };
    let stripped = addr.substring_char(start, n);
    proof {
        assert(stripped@ == spec_strip_hex_prefix(addr@));
    }
    let bin_address_vec = match from_hex(stripped) {
        Ok(v) => v,
        Err(e) => return Err(e),
    };
    if bin_address_vec.len() != 2 {
        let msg = String::from_str(".bin start address must be 16 bytes (4 hex digits)");
        return Err(Error::ArgumentError(msg));
    }
    let bin_address: [u8; 2] = [bin_address_vec[0], bin_address_vec[1]];

    let out_file_path = asm_args.out_dir.clone().concat("/").concat(out_file.as_str());
    proof {
        assert(bin_address@ =~= hex_bytes(stripped@));
    }
    Ok(AsmSelectArgs { asset_id, out_file: out_file_path, bin_address })
}

} // verus!
