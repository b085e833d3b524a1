use better_answer::hotkey::{parse, parse_vk, ParseErrorKind, ALT, CTRL, SHIFT, WIN};

#[test]
fn parses_ctrl_alt_letter() {
    let hk = parse("ctrl+alt+e").unwrap();
    assert_eq!(hk.mods, CTRL | ALT);
    assert_eq!(hk.vk, 0x45);
}

#[test]
fn parses_the_shipped_defaults() {
    let open = parse("ctrl+b").unwrap();
    assert_eq!(open.mods, CTRL);
    assert_eq!(open.vk, 0x42);

    let quick = parse("ctrl+s").unwrap();
    assert_eq!(quick.mods, CTRL);
    assert_eq!(quick.vk, 0x53);

    let ticket = parse("ctrl+d").unwrap();
    assert_eq!(ticket.mods, CTRL);
    assert_eq!(ticket.vk, 0x44);

    // The shortcut decides what happens, so the three have to differ.
    assert_ne!(open, quick);
    assert_ne!(open, ticket);
    assert_ne!(quick, ticket);
}

/// Whoever asks for ctrl+b does not want it to fire on ctrl+shift+b.
#[test]
fn modifiers_are_exact() {
    assert_ne!(parse("ctrl+b").unwrap(), parse("ctrl+shift+b").unwrap());
}

#[test]
fn parses_function_and_named_keys() {
    assert_eq!(parse("alt+f2").unwrap().vk, 0x71);
    assert_eq!(parse("ctrl+shift+space").unwrap().vk, 0x20);
    assert_eq!(parse("ctrl+f13").unwrap().vk, 0x7C);
}

#[test]
fn rejects_missing_modifier() {
    assert!(parse("e").is_err());
}

#[test]
fn rejects_unknown_key() {
    assert!(parse("ctrl+banana").is_err());
}

#[test]
fn rejects_out_of_range_function_key() {
    assert!(parse("ctrl+f25").is_err());
}

/// A shortcut is modifiers and one key. A chord of two keys is refused rather than read as
/// something else.
#[test]
fn rejects_chord_with_two_main_keys() {
    let err = parse("ctrl+x+1").unwrap_err().to_string();
    assert!(err.contains("mais de uma tecla principal"), "{err}");
}

#[test]
fn case_space_and_empty_parts_do_not_count() {
    let plain = parse("ctrl+shift+e").unwrap();
    assert_eq!(parse(" CTRL + Shift ++ E ").unwrap(), plain);
    assert_eq!(parse("shift+e+ctrl+").unwrap(), plain);
    assert_eq!(parse("ctrl+ctrl+shift+e").unwrap(), plain);
}

#[test]
fn modifiers_have_aliases() {
    assert_eq!(parse("control+a").unwrap().mods, CTRL);
    assert_eq!(parse("option+a").unwrap().mods, ALT);
    for win in ["win", "super", "meta", "cmd"] {
        assert_eq!(parse(&format!("{win}+b")).unwrap().mods, WIN);
    }
    assert_eq!(parse("ctrl+alt+shift+win+a").unwrap().mods, CTRL | ALT | SHIFT | WIN);
}

#[test]
fn each_refusal_has_its_message() {
    let err = parse("e").unwrap_err();
    assert!(matches!(err.kind, ParseErrorKind::NoModifier));
    assert_eq!(err.to_string(), "hotkey 'e' precisa de pelo menos um modificador");

    let err = parse("ctrl+alt").unwrap_err();
    assert!(matches!(err.kind, ParseErrorKind::NoKey));
    assert_eq!(err.to_string(), "hotkey 'ctrl+alt' nao tem tecla principal");
    assert_eq!(parse("").unwrap_err().to_string(), "hotkey '' nao tem tecla principal");

    let err = parse("ctrl+Banana").unwrap_err();
    assert!(matches!(err.kind, ParseErrorKind::UnknownKey(_)));
    assert_eq!(err.to_string(), "tecla 'banana' desconhecida em 'ctrl+Banana'");

    let err = parse("ctrl+x+1").unwrap_err();
    assert!(matches!(err.kind, ParseErrorKind::SecondKey));
    assert_eq!(err.to_string(), "hotkey 'ctrl+x+1' tem mais de uma tecla principal");
}

/// The first key decides between the two complaints.
#[test]
fn unknown_first_key_wins_over_second_key() {
    assert!(matches!(parse("banana+x").unwrap_err().kind, ParseErrorKind::UnknownKey(_)));
    assert!(matches!(parse("x+banana").unwrap_err().kind, ParseErrorKind::SecondKey));
}

#[test]
fn key_codes_of_letters_digits_and_names() {
    assert_eq!(parse_vk("a"), Some(0x41));
    assert_eq!(parse_vk("z"), Some(0x5A));
    assert_eq!(parse_vk("0"), Some(0x30));
    assert_eq!(parse_vk("9"), Some(0x39));
    assert_eq!(parse_vk("f"), Some(0x46));
    assert_eq!(parse_vk("f1"), Some(0x70));
    assert_eq!(parse_vk("f24"), Some(0x87));
    assert_eq!(parse_vk("f01"), Some(0x70));
    assert_eq!(parse_vk("f+3"), Some(0x72));
    for bad in ["f0", "f25", "f99999999999999999999", "f1x", "f+", "A", "", "é", "ab"] {
        assert_eq!(parse_vk(bad), None, "{bad}");
    }
    let named = [
        ("space", 0x20),
        ("enter", 0x0D),
        ("return", 0x0D),
        ("tab", 0x09),
        ("backspace", 0x08),
        ("insert", 0x2D),
        ("delete", 0x2E),
        ("del", 0x2E),
        ("home", 0x24),
        ("end", 0x23),
        ("pageup", 0x21),
        ("pagedown", 0x22),
        ("up", 0x26),
        ("down", 0x28),
        ("left", 0x25),
        ("right", 0x27),
        (",", 0xBC),
        (".", 0xBE),
        (";", 0xBA),
        ("'", 0xDE),
        ("[", 0xDB),
        ("]", 0xDD),
        ("\\", 0xDC),
        ("/", 0xBF),
        ("-", 0xBD),
        ("=", 0xBB),
        ("`", 0xC0),
    ];
    for (name, code) in named {
        assert_eq!(parse_vk(name), Some(code), "{name}");
    }
}

#[test]
fn order_repeats_and_empty_parts_do_not_count() {
    let plain = parse("ctrl+shift+b").unwrap();
    assert_eq!(parse("b+shift+ctrl").unwrap(), plain);
    assert_eq!(parse("shift+b+control+ctrl").unwrap(), plain);
    assert_eq!(parse("+ctrl++ shift+b+").unwrap(), plain);
    assert!(parse("x+ctrl+1").is_err());
}

#[test]
fn keys_have_codes_of_their_own() {
    let names = [
        "space", "enter", "tab", "backspace", "insert", "delete", "home", "end", "pageup",
        "pagedown", "up", "down", "left", "right", ",", ".", ";", "'", "[", "]", "\\", "/", "-", "=",
        "`",
    ];
    let mut keys: Vec<String> = names.iter().map(|name| name.to_string()).collect();
    keys.extend(('a'..='z').map(|c| c.to_string()));
    keys.extend(('0'..='9').map(|c| c.to_string()));
    keys.extend((1..=24).map(|n| format!("f{n}")));
    let mut codes: Vec<u16> = keys.iter().map(|key| parse_vk(key).unwrap()).collect();
    codes.sort();
    codes.dedup();
    assert_eq!(codes.len(), keys.len());
    assert_eq!(parse_vk("return"), parse_vk("enter"));
    assert_eq!(parse_vk("del"), parse_vk("delete"));
    assert_eq!(parse_vk("f+07"), parse_vk("f7"));
}
