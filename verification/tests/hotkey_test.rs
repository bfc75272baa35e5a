use global_hotkey::hotkey::HotKey;
use voicetext::hotkey::{default_recording_hotkey, map_part_to_parser_token, normalize_recording_hotkey};

#[test]
fn normalize_keeps_valid_shortcut() {
    let s = "CmdOrCtrl+Shift+X";
    let out = normalize_recording_hotkey(s).expect("must be valid");
    assert_eq!(out, s);
}

#[test]
fn normalize_bare_backquote_symbol_to_token() {
    let out = normalize_recording_hotkey("`").expect("must be normalized");
    assert!(out.parse::<HotKey>().is_ok(), "normalized shortcut must parse: {}", out);
    assert!(out == "`" || out == "Backquote", "unexpected normalized form: {}", out);
}

#[test]
fn normalize_converts_backquote_token_with_modifier() {
    let out = normalize_recording_hotkey("CmdOrCtrl+Backquote").expect("must be valid after normalize");
    assert!(out.parse::<HotKey>().is_ok(), "normalized shortcut must parse: {}", out);
}

#[test]
fn normalize_trims_and_rejects_blank() {
    assert_eq!(normalize_recording_hotkey("   "), None);
    assert_eq!(normalize_recording_hotkey(""), None);
    assert_eq!(normalize_recording_hotkey("  Alt+X \t"), Some("Alt+X".to_string()));
}

#[test]
fn normalize_rewrites_symbol_parts() {
    // whichever form comes back, the parser accepts it
    let out = normalize_recording_hotkey("Ctrl+ ` ").expect("must normalize");
    assert!(out.parse::<HotKey>().is_ok());
    assert_eq!(normalize_recording_hotkey("NotAKey+Shift"), None);
}

#[test]
fn parser_tokens_for_symbols() {
    assert_eq!(map_part_to_parser_token("`"), "Backquote");
    assert_eq!(map_part_to_parser_token("-"), "Minus");
    assert_eq!(map_part_to_parser_token("="), "Equal");
    assert_eq!(map_part_to_parser_token("["), "BracketLeft");
    assert_eq!(map_part_to_parser_token("]"), "BracketRight");
    assert_eq!(map_part_to_parser_token("\\"), "Backslash");
    assert_eq!(map_part_to_parser_token(";"), "Semicolon");
    assert_eq!(map_part_to_parser_token("'"), "Quote");
    assert_eq!(map_part_to_parser_token(","), "Comma");
    assert_eq!(map_part_to_parser_token("."), "Period");
    assert_eq!(map_part_to_parser_token("/"), "Slash");
    assert_eq!(map_part_to_parser_token("IntlBackslash"), "IntlBackslash");
    assert_eq!(map_part_to_parser_token("KeyA"), "KeyA");
}

#[test]
fn default_hotkey_is_valid() {
    assert_eq!(default_recording_hotkey(), "CmdOrCtrl+Shift+X");
    assert!(default_recording_hotkey().parse::<HotKey>().is_ok());
}

#[test]
fn normalizing_twice_is_normalizing_once() {
    for raw in ["  CmdOrCtrl+Shift+X ", "`", "CmdOrCtrl+Backquote", "Ctrl+ ` ", "Alt+;", "Nope"] {
        if let Some(once) = normalize_recording_hotkey(raw) {
            assert_eq!(normalize_recording_hotkey(&once), Some(once.clone()));
        }
    }
}

#[test]
fn empty_hotkey_is_not_a_shortcut() {
    assert!("".parse::<HotKey>().is_err());
    assert!(normalize_recording_hotkey("").is_none());
    assert!(normalize_recording_hotkey("   ").is_none());
}
