//! Properties of the validators and the dispatcher, stated and proved once
//! for all inputs.

use vstd::prelude::*;

use crate::args::{
    AsmArgsV, AsmSelectArgsV, GlobalArgs, RawAsmArgs, RawSelectArgs, RawSubcommand,
    address_width_msg, spec_parse_asm_args, spec_parse_asm_select_args, spec_strip_hex_prefix,
};
use crate::dispatch::{AsmCommandV, spec_execute_asm_command, unknown_subcommand_msg};
use crate::hex::{hex_bytes, hex_chars, is_hex_digit, lemma_hex_round_trip, valid_hex};

verus! {

/// A raw input missing a required top-level flag never validates: without
/// `--out_dir` or `--format` the top-level validator fails, and the
/// dispatcher chooses no operation.
pub proof fn lemma_missing_top_level_flag_fails(g: GlobalArgs, raw: RawAsmArgs)
    requires
        raw.out_dir is None || raw.format is None,
    ensures
        spec_parse_asm_args(g, raw) is Err,
        spec_execute_asm_command(g, raw) is Err,
{
}

/// A raw input missing a required selection flag never validates: under the
/// `select` subcommand, without `--asset_id`, `--out_file` or
/// `--bin_address` the selection validator fails, and the dispatcher
/// chooses no operation.
pub proof fn lemma_missing_selection_flag_fails(
    g: GlobalArgs,
    raw: RawAsmArgs,
    sub: RawSubcommand,
)
    requires
        raw.subcommand == Some(sub),
        sub.name@ == "select"@,
        sub.args.asset_id is None || sub.args.out_file is None || sub.args.bin_address is None,
    ensures
        spec_execute_asm_command(g, raw) is Err,
{
    lemma_select_is_not_all();
}

/// Without a configured project file the top-level validator fails with the
/// project-context message, whatever every other field holds: no other
/// field is examined first.
pub proof fn lemma_project_context_required(g: GlobalArgs, raw: RawAsmArgs)
    requires
        g.project_file is None,
    ensures
        spec_parse_asm_args(g, raw) == Err::<AsmArgsV, Seq<char>>(
            "--project_file is required in this context"@,
        ),
        spec_execute_asm_command(g, raw) is Err,
{
}

/// Hex address round trip: the encoding of a two-byte address — bare, or
/// carrying a `0x` or `0X` prefix — normalizes and decodes back to exactly
/// those two bytes.
pub proof fn lemma_bin_address_round_trip(bytes: Seq<u8>, s: Seq<char>)
    requires
        bytes.len() == 2,
        s == hex_chars(bytes) || s == "0x"@ + hex_chars(bytes) || s == "0X"@ + hex_chars(bytes),
    ensures
        valid_hex(spec_strip_hex_prefix(s)),
        hex_bytes(spec_strip_hex_prefix(s)) == bytes,
{
    lemma_hex_round_trip(bytes);
    let h = hex_chars(bytes);
    if s == h {
        // An encoded digit is never 'x' or 'X', so nothing is stripped.
        assert(is_hex_digit(h[1]));
        assert(spec_strip_hex_prefix(s) == h);
    } else {
        reveal_strlit("0x");
        reveal_strlit("0X");
        assert(s.len() == 2 + h.len());
        assert(s[0] == '0' && (s[1] == 'x' || s[1] == 'X'));
        assert(spec_strip_hex_prefix(s) =~= h);
    }
}

/// A hex address that decodes to any width other than two bytes — whatever
/// its digit case and whether or not it carries a prefix — fails selection
/// validation with the width-specific message.
pub proof fn lemma_address_width_error(a: AsmArgsV, raw: RawSelectArgs, addr: String)
    requires
        raw.asset_id is Some,
        raw.out_file is Some,
        raw.bin_address == Some(addr),
        valid_hex(spec_strip_hex_prefix(addr@)),
        hex_bytes(spec_strip_hex_prefix(addr@)).len() != 2,
    ensures
        spec_parse_asm_select_args(a, raw) == Err::<AsmSelectArgsV, Seq<char>>(
            address_width_msg(),
        ),
{
}

/// Dispatch of `all`, with a valid top level: the outcome is the
/// bulk-export operation with exactly the validated top-level record, and
/// no selection record is ever built.
pub proof fn lemma_dispatch_all(g: GlobalArgs, raw: RawAsmArgs, sub: RawSubcommand)
    requires
        raw.subcommand == Some(sub),
        sub.name@ == "all"@,
        spec_parse_asm_args(g, raw) is Ok,
    ensures
        spec_execute_asm_command(g, raw) == Ok::<AsmCommandV, Seq<char>>(
            AsmCommandV::All(spec_parse_asm_args(g, raw)->Ok_0),
        ),
{
}

/// Dispatch of `select`, with a valid top level: the outcome is the
/// per-asset operation with both validated records exactly when the
/// selection flags validate, and the selection failure otherwise.
pub proof fn lemma_dispatch_select(g: GlobalArgs, raw: RawAsmArgs, sub: RawSubcommand)
    requires
        raw.subcommand == Some(sub),
        sub.name@ == "select"@,
        spec_parse_asm_args(g, raw) is Ok,
    ensures
        spec_parse_asm_select_args(spec_parse_asm_args(g, raw)->Ok_0, sub.args) is Ok
            ==> spec_execute_asm_command(g, raw) == Ok::<AsmCommandV, Seq<char>>(
            AsmCommandV::Select(
                spec_parse_asm_args(g, raw)->Ok_0,
                spec_parse_asm_select_args(spec_parse_asm_args(g, raw)->Ok_0, sub.args)->Ok_0,
            ),
        ),
        spec_parse_asm_select_args(spec_parse_asm_args(g, raw)->Ok_0, sub.args) is Err
            ==> spec_execute_asm_command(g, raw) == Err::<AsmCommandV, Seq<char>>(
            spec_parse_asm_select_args(spec_parse_asm_args(g, raw)->Ok_0, sub.args)->Err_0,
        ),
{
    lemma_select_is_not_all();
}

/// The two route names differ, seen from their lengths alone.
proof fn lemma_select_is_not_all()
    ensures
        "select"@ != "all"@,
{
    reveal_strlit("select");
    reveal_strlit("all");
    assert("select"@.len() == 6);
    assert("all"@.len() == 3);
}

/// Dispatch of anything else: a subcommand name other than `all` and
/// `select`, or no subcommand at all, fails with the usage hint and
/// resolves to no operation, even when the top level is valid.
pub proof fn lemma_dispatch_unknown(g: GlobalArgs, raw: RawAsmArgs)
    requires
        spec_parse_asm_args(g, raw) is Ok,
        raw.subcommand matches Some(sub) ==> sub.name@ != "all"@ && sub.name@ != "select"@,
    ensures
        spec_execute_asm_command(g, raw) == Err::<AsmCommandV, Seq<char>>(
            unknown_subcommand_msg(),
        ),
{
}

/// The `all` route never reads the selection flags: two raw inputs that
/// agree on everything but the flags after their `all` subcommand resolve
/// to the same outcome.
pub proof fn lemma_all_ignores_selection_flags(g: GlobalArgs, raw1: RawAsmArgs, raw2: RawAsmArgs)
    requires
        raw1.out_dir == raw2.out_dir,
        raw1.format == raw2.format,
        raw1.sd_image == raw2.sd_image,
        raw1.conflate_tilemaps == raw2.conflate_tilemaps,
        raw1.subcommand matches Some(sub1) && sub1.name@ == "all"@,
        raw2.subcommand matches Some(sub2) && sub2.name@ == "all"@,
    ensures
        spec_execute_asm_command(g, raw1) == spec_execute_asm_command(g, raw2),
{
    assert(spec_parse_asm_args(g, raw1) == spec_parse_asm_args(g, raw2));
}

/// The conflate-tilemaps mode is presence-only: it validates to `false`
/// exactly when the flag is absent and to `true` exactly when it is
/// present, whatever text the flag carries.
pub proof fn lemma_conflate_is_presence_only(g: GlobalArgs, raw: RawAsmArgs)
    requires
        spec_parse_asm_args(g, raw) is Ok,
    ensures
        spec_parse_asm_args(g, raw)->Ok_0.conflate_tilemaps == (raw.conflate_tilemaps is Some),
{
}

/// The text attached to the conflate-tilemaps flag is irrelevant: two raw
/// inputs that agree on everything but that text validate identically.
pub proof fn lemma_conflate_ignores_text(g: GlobalArgs, raw1: RawAsmArgs, raw2: RawAsmArgs)
    requires
        raw1.out_dir == raw2.out_dir,
        raw1.format == raw2.format,
        raw1.sd_image == raw2.sd_image,
        raw1.subcommand == raw2.subcommand,
        raw1.conflate_tilemaps is Some,
        raw2.conflate_tilemaps is Some,
    ensures
        spec_parse_asm_args(g, raw1) == spec_parse_asm_args(g, raw2),
{
}

} // verus!
