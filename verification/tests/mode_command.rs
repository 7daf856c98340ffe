use modem_console::mode::{mode_plan, mode_query_command, mode_set_command, parse_mode_args,
    tokenize, ModeAction, ModeFlags};

fn toks(s: &str) -> Vec<Vec<u8>> {
    tokenize(s.as_bytes())
}

#[test]
fn tokenize_splits_on_whitespace_runs() {
    assert_eq!(toks("gps ltem"), vec![b"gps".to_vec(), b"ltem".to_vec()]);
    assert_eq!(toks("  gps\t ltem  "), vec![b"gps".to_vec(), b"ltem".to_vec()]);
    assert!(toks("").is_empty());
    assert!(toks("   ").is_empty());
}

#[test]
fn recognized_tokens_set_exactly_their_flags() {
    let f = parse_mode_args(&toks("gps")).unwrap();
    assert_eq!(f, ModeFlags { ltem: false, nbiot: false, gps: true });
    let f = parse_mode_args(&toks("nbiot ltem")).unwrap();
    assert_eq!(f, ModeFlags { ltem: true, nbiot: true, gps: false });
    let f = parse_mode_args(&toks("nb-iot lte-m gps")).unwrap();
    assert_eq!(f, ModeFlags { ltem: true, nbiot: true, gps: true });
}

#[test]
fn flags_ignore_order_case_and_duplicates() {
    let a = parse_mode_args(&toks("GPS lTeM")).unwrap();
    let b = parse_mode_args(&toks("ltem gps gps")).unwrap();
    let c = parse_mode_args(&toks("gps ltem")).unwrap();
    assert_eq!(a, c);
    assert_eq!(b, c);
    assert_eq!(c, ModeFlags { ltem: true, nbiot: false, gps: true });
}

#[test]
fn unrecognized_token_rejects_whole_list() {
    assert_eq!(parse_mode_args(&toks("foo")), Err(0));
    assert_eq!(parse_mode_args(&toks("gps foo ltem")), Err(1));
    assert_eq!(parse_mode_args(&toks("gpsx")), Err(0));
}

#[test]
fn mode_set_command_writes_flags_in_order() {
    let c = mode_set_command(ModeFlags { ltem: true, nbiot: false, gps: true });
    assert_eq!(c, b"AT%XSYSTEMMODE=1,0,1,0".to_vec());
    let c = mode_set_command(ModeFlags { ltem: false, nbiot: true, gps: false });
    assert_eq!(c, b"AT%XSYSTEMMODE=0,1,0,0".to_vec());
}

#[test]
fn mode_gps_ltem_sets_then_queries() {
    let plan = mode_plan(&toks("gps ltem"));
    assert_eq!(
        plan,
        vec![
            ModeAction::SendSet(b"AT%XSYSTEMMODE=1,0,1,0".to_vec()),
            ModeAction::SendQuery(b"AT%XSYSTEMMODE?".to_vec()),
        ]
    );
}

#[test]
fn mode_unrecognized_prints_usage_only() {
    // The handler abandons mode-setting at an unrecognized token and, as it
    // has always behaved, skips the trailing query too.
    let plan = mode_plan(&toks("foo"));
    assert_eq!(plan, vec![ModeAction::Usage]);
    let plan = mode_plan(&toks("gps foo"));
    assert_eq!(plan, vec![ModeAction::Usage]);
}

#[test]
fn mode_with_no_arguments_only_queries() {
    let plan = mode_plan(&toks(""));
    assert_eq!(plan, vec![ModeAction::SendQuery(b"AT%XSYSTEMMODE?".to_vec())]);
    assert_eq!(mode_query_command(), b"AT%XSYSTEMMODE?".to_vec());
}
