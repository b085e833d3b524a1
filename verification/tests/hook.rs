use better_answer::config::Config;
use better_answer::hook::{
    current_mods, is_down, needs_hook, started, Binding, Hook, KeyEvent, Start, Verdict, WM_KEYDOWN,
    WM_KEYUP, WM_SYSKEYDOWN, WM_SYSKEYUP,
};
use better_answer::hotkey::{parse, ALT, CTRL, SHIFT, WIN};
use better_answer::shortcuts::{
    on_hotkey, register_hotkeys, registration, Opening, Reaction, OPEN_ID, QUICK_ID, TICKET_ID,
};

/// The model that answers by default.
const MODEL: &str = "fornecedor/modelo";

fn event(message: u32, vk_code: u32) -> KeyEvent {
    KeyEvent { code: 0, message, flags: 0, vk_code }
}

fn pass() -> Verdict {
    Verdict { fire: None, swallow: false }
}

fn swallow() -> Verdict {
    Verdict { fire: None, swallow: true }
}

fn fire(id: u32) -> Verdict {
    Verdict { fire: Some(id), swallow: true }
}

fn default_hook() -> Hook {
    Hook::new(register_hotkeys(&Config::default(MODEL)).bindings)
}

#[test]
fn press_fires_and_its_release_vanishes() {
    let mut hook = default_hook();
    assert_eq!(hook.on_key(event(WM_KEYDOWN, 0x42), CTRL), fire(OPEN_ID));
    // The key repeats while it is held.
    assert_eq!(hook.on_key(event(WM_KEYDOWN, 0x42), CTRL), fire(OPEN_ID));
    assert_eq!(hook.on_key(event(WM_KEYDOWN, 0x51), CTRL), pass());
    assert_eq!(hook.on_key(event(WM_KEYUP, 0x42), 0), swallow());
    assert_eq!(hook.on_key(event(WM_KEYUP, 0x42), 0), pass());
}

#[test]
fn modifiers_have_to_match_exactly() {
    let mut hook = default_hook();
    assert_eq!(hook.on_key(event(WM_KEYDOWN, 0x42), CTRL | SHIFT), pass());
    assert_eq!(hook.on_key(event(WM_KEYDOWN, 0x42), 0), pass());
    assert_eq!(hook.on_key(event(WM_SYSKEYDOWN, 0x53), CTRL), fire(QUICK_ID));
    assert_eq!(hook.on_key(event(WM_SYSKEYUP, 0x53), CTRL), swallow());
    assert_eq!(hook.on_key(event(WM_KEYDOWN, 0x44), CTRL), fire(TICKET_ID));
}

#[test]
fn what_the_application_sends_is_left_alone() {
    let mut hook = default_hook();
    let mut injected = event(WM_KEYDOWN, 0x42);
    injected.flags = 0x10;
    assert_eq!(hook.on_key(injected, CTRL), pass());
    let mut other = event(WM_KEYDOWN, 0x42);
    other.code = 3;
    assert_eq!(hook.on_key(other, CTRL), pass());
    assert_eq!(hook.swallowing, None);
    assert_eq!(hook.on_key(event(0x0102, 0x42), CTRL), pass());
}

#[test]
fn of_two_equal_shortcuts_the_first_fires() {
    let shortcut = parse("ctrl+b").unwrap();
    let mut hook =
        Hook::new(vec![Binding { id: 7, shortcut }, Binding { id: 8, shortcut }]);
    assert_eq!(hook.on_key(event(WM_KEYDOWN, 0x42), CTRL), fire(7));
}

#[test]
fn the_highest_bit_tells_that_a_key_is_down() {
    assert!(is_down(i16::MIN));
    assert!(is_down(-1));
    assert!(!is_down(0));
    assert!(!is_down(1));
    assert_eq!(current_mods(-1, 0, 0, 0, 0), CTRL);
    assert_eq!(current_mods(0, -1, 1, 0, 0), ALT);
    assert_eq!(current_mods(0, 0, -1, -1, 0), SHIFT | WIN);
    assert_eq!(current_mods(-1, -1, -1, 0, -1), CTRL | ALT | SHIFT | WIN);
}

#[test]
fn each_failed_start_is_told() {
    assert!(started(&Start::NotNeeded).is_ok());
    assert!(started(&Start::Installed).is_ok());
    assert_eq!(
        started(&Start::NoThread("x".to_string())).unwrap_err(),
        "nao subi a thread do hook: x"
    );
    assert_eq!(
        started(&Start::Refused("x".to_string())).unwrap_err(),
        "SetWindowsHookEx falhou: x"
    );
    assert_eq!(started(&Start::Silent).unwrap_err(), "a thread do hook nao respondeu");
    assert!(!needs_hook(&vec![]));
    assert!(needs_hook(&register_hotkeys(&Config::default(MODEL)).bindings));
}

#[test]
fn the_defaults_register_without_errors() {
    let wanted = register_hotkeys(&Config::default(MODEL));
    let ids: Vec<u32> = wanted.bindings.iter().map(|b| b.id).collect();
    assert_eq!(ids, [OPEN_ID, QUICK_ID, TICKET_ID]);
    assert!(wanted.errors.is_empty());
}

#[test]
fn blank_turns_a_shortcut_off_but_not_that_of_the_popup() {
    let mut cfg = Config::default(MODEL);
    cfg.hotkey = " ".to_string();
    cfg.quick_hotkey = "".to_string();
    cfg.ticket_hotkey = " \t".to_string();
    let wanted = register_hotkeys(&cfg);
    assert!(wanted.bindings.is_empty());
    assert_eq!(wanted.errors, ["atalho '' invalido: hotkey '' nao tem tecla principal"]);
}

#[test]
fn repeated_and_broken_shortcuts_are_told() {
    let mut cfg = Config::default(MODEL);
    cfg.quick_hotkey = " CTRL + B ".to_string();
    cfg.ticket_hotkey = "ctrl+banana".to_string();
    let wanted = register_hotkeys(&cfg);
    assert_eq!(wanted.bindings.len(), 1);
    assert_eq!(
        wanted.errors,
        [
            "atalho rápido 'CTRL + B' repete outro atalho",
            "atalho de chamado 'ctrl+banana' invalido: tecla 'banana' desconhecida em 'ctrl+banana'"
        ]
    );
    let r = registration(wanted.errors, Err("sem hook".to_string()));
    assert!(!r.listening);
    assert_eq!(
        r.error.unwrap(),
        "atalho rápido 'CTRL + B' repete outro atalho · atalho de chamado 'ctrl+banana' invalido: \
         tecla 'banana' desconhecida em 'ctrl+banana' · sem hook"
    );
    let fine = registration(vec![], Ok(()));
    assert!(fine.listening);
    assert_eq!(fine.error, None);
}

#[test]
fn an_open_popup_is_closed_by_its_shortcuts() {
    assert_eq!(on_hotkey(OPEN_ID, true), Reaction::Hide);
    assert_eq!(on_hotkey(TICKET_ID, true), Reaction::Hide);
    assert_eq!(on_hotkey(QUICK_ID, true), Reaction::Capture(Opening::Quick));
    assert_eq!(on_hotkey(OPEN_ID, false), Reaction::Capture(Opening::Show));
    assert_eq!(on_hotkey(TICKET_ID, false), Reaction::Capture(Opening::Ticket));
    assert_eq!(on_hotkey(QUICK_ID, false), Reaction::Capture(Opening::Quick));
}
