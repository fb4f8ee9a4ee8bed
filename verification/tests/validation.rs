use asm_cmd::{
    AsmCommand, AsmFormat, Error, GlobalArgs, RawAsmArgs, RawSelectArgs, RawSubcommand,
    execute_asm_command, from_hex, parse_asm_args, parse_asm_select_args,
};

fn global_with_project() -> GlobalArgs {
    GlobalArgs { project_file: Some(String::from("project.av")) }
}

fn raw_top(out_dir: Option<&str>, format: Option<&str>) -> RawAsmArgs {
    RawAsmArgs {
        out_dir: out_dir.map(String::from),
        format: format.map(String::from),
        sd_image: None,
        conflate_tilemaps: None,
        subcommand: None,
    }
}

fn raw_select(asset_id: Option<&str>, out_file: Option<&str>, bin_address: Option<&str>) -> RawSelectArgs {
    RawSelectArgs {
        asset_id: asset_id.map(String::from),
        out_file: out_file.map(String::from),
        bin_address: bin_address.map(String::from),
    }
}

fn message(e: &Error) -> &str {
    e.message().as_str()
}

fn parsed_top() -> asm_cmd::AsmArgs {
    parse_asm_args(&global_with_project(), &raw_top(Some("build"), Some("ca65"))).unwrap()
}

// ---- top-level validation ----

#[test]
fn parse_asm_args_accepts_complete_input() {
    let a = parsed_top();
    assert_eq!(a.out_dir, "build");
    assert_eq!(a.format, AsmFormat::Ca65);
    assert_eq!(a.sd_image, None);
    assert!(!a.conflate_tilemaps);
}

#[test]
fn parse_asm_args_requires_project_context_first() {
    let g = GlobalArgs { project_file: None };
    // Even with every other required field missing, the project context is
    // reported first.
    let e = parse_asm_args(&g, &raw_top(None, None)).unwrap_err();
    assert_eq!(message(&e), "--project_file is required in this context");
}

#[test]
fn parse_asm_args_requires_out_dir() {
    let e = parse_asm_args(&global_with_project(), &raw_top(None, Some("ca65"))).unwrap_err();
    assert_eq!(message(&e), "--out_dir is required");
}

#[test]
fn parse_asm_args_requires_format() {
    let e = parse_asm_args(&global_with_project(), &raw_top(Some("build"), None)).unwrap_err();
    assert_eq!(message(&e), "--format is required");
}

#[test]
fn parse_asm_args_rejects_unknown_format() {
    let e = parse_asm_args(&global_with_project(), &raw_top(Some("build"), Some("elf"))).unwrap_err();
    assert_eq!(message(&e), "unknown output format: elf");
}

#[test]
fn format_tokens_map_to_their_variants() {
    for (tok, want) in [("ca65", AsmFormat::Ca65), ("basic", AsmFormat::Basic), ("bin", AsmFormat::Bin)] {
        let a = parse_asm_args(&global_with_project(), &raw_top(Some("build"), Some(tok))).unwrap();
        assert_eq!(a.format, want);
    }
}

#[test]
fn format_tokens_are_case_sensitive() {
    let e = parse_asm_args(&global_with_project(), &raw_top(Some("build"), Some("CA65"))).unwrap_err();
    assert_eq!(message(&e), "unknown output format: CA65");
}

#[test]
fn sd_image_is_kept_only_when_supplied() {
    let mut raw = raw_top(Some("build"), Some("basic"));
    raw.sd_image = Some(String::from("card.img"));
    let a = parse_asm_args(&global_with_project(), &raw).unwrap();
    assert_eq!(a.sd_image, Some(String::from("card.img")));
}

#[test]
fn conflate_tilemaps_defaults_to_false_when_absent() {
    let a = parsed_top();
    assert!(!a.conflate_tilemaps);
}

#[test]
fn conflate_tilemaps_is_true_when_present_whatever_its_text() {
    for text in ["", "true", "false", "no"] {
        let mut raw = raw_top(Some("build"), Some("ca65"));
        raw.conflate_tilemaps = Some(String::from(text));
        let a = parse_asm_args(&global_with_project(), &raw).unwrap();
        assert!(a.conflate_tilemaps);
    }
}

// ---- selection validation ----

#[test]
fn parse_asm_select_args_accepts_complete_input() {
    let top = parsed_top();
    let s = parse_asm_select_args(&top, &raw_select(Some("sprite1"), Some("tile.bin"), Some("0x1234")))
        .unwrap();
    assert_eq!(s.asset_id, "sprite1");
    assert_eq!(s.out_file, "build/tile.bin");
    assert_eq!(s.bin_address, [0x12, 0x34]);
}

#[test]
fn parse_asm_select_args_requires_asset_id() {
    let top = parsed_top();
    let e = parse_asm_select_args(&top, &raw_select(None, Some("tile.bin"), Some("1234"))).unwrap_err();
    assert_eq!(message(&e), "--asset_id is required");
}

#[test]
fn parse_asm_select_args_requires_out_file() {
    let top = parsed_top();
    let e = parse_asm_select_args(&top, &raw_select(Some("sprite1"), None, Some("1234"))).unwrap_err();
    assert_eq!(message(&e), "--out_file is required");
}

#[test]
fn parse_asm_select_args_requires_bin_address() {
    let top = parsed_top();
    let e = parse_asm_select_args(&top, &raw_select(Some("sprite1"), Some("tile.bin"), None)).unwrap_err();
    assert_eq!(message(&e), "--bin_address is required");
}

#[test]
fn bin_address_round_trips_with_and_without_prefix() {
    let top = parsed_top();
    for addr in ["1234", "0x1234", "0X1234"] {
        let s = parse_asm_select_args(&top, &raw_select(Some("a"), Some("f.bin"), Some(addr))).unwrap();
        assert_eq!(s.bin_address, [0x12, 0x34]);
    }
}

#[test]
fn bin_address_accepts_either_digit_case() {
    let top = parsed_top();
    for addr in ["abcd", "ABCD", "0xAbCd"] {
        let s = parse_asm_select_args(&top, &raw_select(Some("a"), Some("f.bin"), Some(addr))).unwrap();
        assert_eq!(s.bin_address, [0xab, 0xcd]);
    }
}

#[test]
fn bin_address_of_wrong_width_fails_whatever_case_or_prefix() {
    let top = parsed_top();
    for addr in ["12", "123456", "0x12", "0XABCDEF", ""] {
        let e = parse_asm_select_args(&top, &raw_select(Some("a"), Some("f.bin"), Some(addr)))
            .unwrap_err();
        assert_eq!(message(&e), ".bin start address must be 16 bytes (4 hex digits)");
    }
}

#[test]
fn bin_address_rejects_non_hex_text() {
    let top = parsed_top();
    let e = parse_asm_select_args(&top, &raw_select(Some("a"), Some("f.bin"), Some("12g4")))
        .unwrap_err();
    assert_eq!(message(&e), "invalid hex string: 12g4");
}

#[test]
fn bin_address_rejects_odd_digit_count() {
    let top = parsed_top();
    let e = parse_asm_select_args(&top, &raw_select(Some("a"), Some("f.bin"), Some("123")))
        .unwrap_err();
    assert_eq!(message(&e), "invalid hex string: 123");
}

#[test]
fn out_file_is_composed_by_plain_concatenation() {
    let top = parse_asm_args(&global_with_project(), &raw_top(Some("build"), Some("bin"))).unwrap();
    let s = parse_asm_select_args(&top, &raw_select(Some("a"), Some("tile.bin"), Some("1234"))).unwrap();
    assert_eq!(s.out_file, "build/tile.bin");
}

#[test]
fn out_file_does_not_normalize_embedded_separators() {
    let top = parsed_top();
    let s = parse_asm_select_args(&top, &raw_select(Some("a"), Some("sub//t.bin"), Some("1234")))
        .unwrap();
    assert_eq!(s.out_file, "build/sub//t.bin");
}

// ---- hex decoding ----

#[test]
fn from_hex_decodes_exact_bytes() {
    assert_eq!(from_hex("1234").unwrap(), vec![0x12, 0x34]);
    assert_eq!(from_hex("00ff").unwrap(), vec![0x00, 0xff]);
    assert_eq!(from_hex("deadBEEF").unwrap(), vec![0xde, 0xad, 0xbe, 0xef]);
}

#[test]
fn from_hex_of_empty_is_empty() {
    assert_eq!(from_hex("").unwrap(), Vec::<u8>::new());
}

#[test]
fn from_hex_rejects_odd_length_and_bad_digits() {
    assert_eq!(message(&from_hex("1").unwrap_err()), "invalid hex string: 1");
    assert_eq!(message(&from_hex("0x12").unwrap_err()), "invalid hex string: 0x12");
    assert_eq!(message(&from_hex("zz").unwrap_err()), "invalid hex string: zz");
}

// ---- dispatch ----

fn raw_with_sub(name: &str, sel: RawSelectArgs) -> RawAsmArgs {
    let mut raw = raw_top(Some("build"), Some("ca65"));
    raw.subcommand = Some(RawSubcommand { name: String::from(name), args: sel });
    raw
}

#[test]
fn dispatch_all_chooses_bulk_export() {
    // The selection flags under an `all` subcommand are irrelevant, even
    // when malformed.
    let raw = raw_with_sub("all", raw_select(None, None, Some("not hex")));
    match execute_asm_command(&global_with_project(), &raw).unwrap() {
        AsmCommand::All(a) => {
            assert_eq!(a.out_dir, "build");
            assert_eq!(a.format, AsmFormat::Ca65);
        }
        AsmCommand::Select(_, _) => panic!("bulk export expected"),
    }
}

#[test]
fn dispatch_select_chooses_per_asset_export() {
    let raw = raw_with_sub("select", raw_select(Some("sprite1"), Some("t.bin"), Some("0xA000")));
    match execute_asm_command(&global_with_project(), &raw).unwrap() {
        AsmCommand::Select(a, s) => {
            assert_eq!(a.out_dir, "build");
            assert_eq!(s.asset_id, "sprite1");
            assert_eq!(s.out_file, "build/t.bin");
            assert_eq!(s.bin_address, [0xa0, 0x00]);
        }
        AsmCommand::All(_) => panic!("per-asset export expected"),
    }
}

#[test]
fn dispatch_rejects_unknown_subcommand() {
    let raw = raw_with_sub("frobnicate", raw_select(None, None, None));
    let e = execute_asm_command(&global_with_project(), &raw).unwrap_err();
    assert_eq!(message(&e), "Unknown sub command, use 'asm --help' for details");
}

#[test]
fn dispatch_rejects_absent_subcommand() {
    let raw = raw_top(Some("build"), Some("ca65"));
    let e = execute_asm_command(&global_with_project(), &raw).unwrap_err();
    assert_eq!(message(&e), "Unknown sub command, use 'asm --help' for details");
}

#[test]
fn dispatch_propagates_top_level_failures() {
    let raw = raw_with_sub("all", raw_select(None, None, None));
    let e = execute_asm_command(&GlobalArgs { project_file: None }, &raw).unwrap_err();
    assert_eq!(message(&e), "--project_file is required in this context");

    let mut raw = raw_with_sub("select", raw_select(Some("a"), Some("f"), Some("1234")));
    raw.out_dir = None;
    let e = execute_asm_command(&global_with_project(), &raw).unwrap_err();
    assert_eq!(message(&e), "--out_dir is required");
}

#[test]
fn dispatch_propagates_selection_failures() {
    let raw = raw_with_sub("select", raw_select(Some("a"), Some("f"), None));
    let e = execute_asm_command(&global_with_project(), &raw).unwrap_err();
    assert_eq!(message(&e), "--bin_address is required");

    let raw = raw_with_sub("select", raw_select(Some("a"), Some("f"), Some("12")));
    let e = execute_asm_command(&global_with_project(), &raw).unwrap_err();
    assert_eq!(message(&e), ".bin start address must be 16 bytes (4 hex digits)");
}
