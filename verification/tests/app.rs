use better_answer::app::{
    App, Body, Draw, Effect, FooterLabel, HotkeyMsg, Improve, Keys, Lane, ShowRequest, Status,
};
use better_answer::config::Config;
use better_answer::llm::Msg;
use better_answer::shortcuts::Opening;
use better_answer::window::Mode;

/// The model that answers by default.
const MODEL: &str = "fornecedor/modelo";

const SECOND: u64 = 1_000_000_000;

fn app() -> App {
    App::new(Config::default(MODEL), None, None)
}

fn capture(text: &str) -> ShowRequest {
    ShowRequest {
        hwnd: 42,
        text: text.to_string(),
        previous_clipboard: Some("antes".to_string()),
        cursor: (10, 20),
    }
}

fn open(app: &mut App, opening: Opening, text: &str) -> Vec<Effect> {
    app.on_hotkey_msg(HotkeyMsg::Captured(opening, capture(text)), 0)
}

fn asked(effects: &[Effect]) -> &Improve {
    match effects.last() {
        Some(Effect::Improve(job)) => job,
        other => panic!("{other:?}"),
    }
}

fn sets_clipboard(e: &Effect, text: &str) -> bool {
    matches!(e, Effect::SetClipboard(s) if s == text)
}

fn delta(s: &str) -> Msg {
    Msg::Delta(s.to_string())
}

fn keys() -> Keys {
    Keys { command: false, shift: false, enter: false, c: false, r: false }
}

#[test]
fn a_start_is_hidden_and_idle() {
    let mut a = app();
    assert!(!a.visible);
    assert!(matches!(a.status, Status::Idle));
    let (effects, draw) = a.begin_frame(false, false);
    assert!(effects.is_empty());
    assert_eq!(draw, Draw::Nothing);
    // The system showed the window all the same: it is parked again.
    let effects = a.tick(0);
    assert!(matches!(effects[0], Effect::Park));
    assert!(matches!(effects[1], Effect::Repaint));
    assert!(matches!(effects[2], Effect::RepaintAfter(200)));
    assert_eq!(a.tick(0).len(), 1);
}

#[test]
fn errors_of_the_start_are_told() {
    let a = App::new(Config::default(MODEL), Some("config: x".to_string()), None);
    assert!(matches!(&a.status, Status::Error(e) if e == "config: x"));
    let b = App::new(Config::default(MODEL), Some("config: x".to_string()), Some("atalho".to_string()));
    assert!(matches!(&b.status, Status::Error(e) if e == "atalho"));
}

#[test]
fn the_popup_opens_and_asks() {
    let mut a = app();
    let effects = open(&mut a, Opening::Show, " oi ");
    assert_eq!(effects.len(), 2);
    assert!(matches!(
        effects[0],
        Effect::Show { mode: Mode::Popup, cursor: Some((10, 20)), focus: true }
    ));
    let job = asked(&effects);
    assert_eq!(job.lane, Lane::Popup);
    assert_eq!(job.generation, 1);
    assert_eq!(job.tone.name, "Líder");
    assert_eq!(job.input, " oi ");
    assert_eq!(job.instruction, "");
    assert_eq!(job.cfg.hotkey, "ctrl+b");
    assert!(a.visible);
    assert!(matches!(a.status, Status::Loading));
    assert!(matches!(a.body(), Body::Result { loading: true }));
    assert!(matches!(a.footer_label(), FooterLabel::Generating));
}

#[test]
fn without_a_selection_the_popup_offers_the_original() {
    let mut a = app();
    let effects = open(&mut a, Opening::Show, "  ");
    assert_eq!(effects.len(), 1);
    assert!(matches!(a.status, Status::NoSelection));
    assert!(matches!(a.body(), Body::Hint));
    assert!(a.lacks_original());
    assert!(a.shows_original());
    a.output = "x".to_string();
    assert!(matches!(a.body(), Body::Result { loading: false }));
}

#[test]
fn the_answer_is_put_together_and_trimmed() {
    let mut a = app();
    open(&mut a, Opening::Show, "oi");
    a.on_answer(1, delta("\n Bom"));
    a.on_answer(1, delta(" dia "));
    assert_eq!(a.output, "\n Bom dia ");
    a.on_answer(1, Msg::Done);
    assert_eq!(a.output, "Bom dia");
    assert!(matches!(a.status, Status::Done));
    assert!(matches!(a.footer_label(), FooterLabel::Words(s) if s == "2 palavras"));
    assert!(a.is_ready());
}

#[test]
fn old_answers_are_dropped() {
    let mut a = app();
    open(&mut a, Opening::Show, "oi");
    a.start_generation();
    assert_eq!(a.generation, 2);
    a.on_answer(1, delta("velho"));
    a.on_answer(1, Msg::Error("velho".to_string()));
    assert_eq!(a.output, "");
    assert!(matches!(a.status, Status::Loading));
    a.close();
    a.on_answer(2, delta("velho"));
    assert_eq!(a.output, "");
}

#[test]
fn a_failed_request_is_told() {
    let mut a = app();
    open(&mut a, Opening::Show, "oi");
    a.on_answer(1, Msg::Error("rede".to_string()));
    assert!(matches!(a.body(), Body::Error(e) if e == "rede"));
    assert!(matches!(a.footer_label(), FooterLabel::Error));
    assert!(!a.is_ready());
}

#[test]
fn cancelling_gives_the_clipboard_back() {
    let mut a = app();
    open(&mut a, Opening::Show, "oi");
    let (effects, draw) = a.begin_frame(false, true);
    assert_eq!(draw, Draw::Nothing);
    assert!(sets_clipboard(&effects[0], "antes"));
    assert!(matches!(effects[1], Effect::Park));
    assert!(!a.visible);
    assert_eq!(a.previous_clipboard, None);

    open(&mut a, Opening::Show, "oi");
    let effects = a.on_hotkey_msg(HotkeyMsg::Hide, 0);
    assert!(sets_clipboard(&effects[0], "antes"));
    assert!(!a.visible);
}

#[test]
fn closing_the_window_only_hides_it() {
    let mut a = app();
    open(&mut a, Opening::Show, "oi");
    let (effects, draw) = a.begin_frame(true, false);
    assert_eq!(draw, Draw::Nothing);
    assert!(sets_clipboard(&effects[0], "antes"));
    assert!(matches!(effects[1], Effect::Park));
    assert!(matches!(effects[2], Effect::CancelClose));
    assert!(!a.visible);

    let effects = a.on_menu(true, false, 5);
    assert!(matches!(effects[0], Effect::Close));
    assert!(matches!(effects[1], Effect::Repaint));
    let (effects, draw) = a.begin_frame(true, false);
    assert_eq!(draw, Draw::Nothing);
    assert!(effects.is_empty());
    assert!(!matches!(a.tick(5 + 1_500_000_000)[0], Effect::Exit));
    assert!(matches!(a.tick(6 + 1_500_000_000)[0], Effect::Exit));
}

#[test]
fn the_result_is_pasted_or_copied() {
    let mut a = app();
    open(&mut a, Opening::Show, "oi");
    assert!(a.end_frame(Keys { command: true, enter: true, ..keys() }, 0).is_empty());
    a.output = " Bom dia ".to_string();
    let effects = a.end_frame(Keys { command: true, enter: true, ..keys() }, 0);
    assert!(matches!(effects[0], Effect::Park));
    assert!(matches!(&effects[1], Effect::Paste { hwnd: 42, text } if text == "Bom dia"));
    assert!(!a.visible);

    open(&mut a, Opening::Show, "oi");
    a.output = " Bom dia ".to_string();
    let effects = a.end_frame(Keys { command: true, shift: true, c: true, ..keys() }, 9);
    assert!(sets_clipboard(&effects[0], "Bom dia"));
    assert!(matches!(effects[1], Effect::Park));
    assert_eq!(effects.len(), 2);
    assert_eq!(a.toast, Some(("copiado".to_string(), 9)));
}

#[test]
fn keys_of_the_popup_do_nothing_in_the_settings() {
    let mut a = app();
    open(&mut a, Opening::Show, "oi");
    a.output = "x".to_string();
    a.toggle_settings();
    assert!(a.end_frame(Keys { command: true, enter: true, ..keys() }, 0).is_empty());
    assert!(a.visible);
    a.toggle_settings();
    assert!(a.end_frame(Keys { enter: true, ..keys() }, 0).is_empty());
    assert!(a.end_frame(Keys { command: true, c: true, ..keys() }, 0).is_empty());
    let effects = a.end_frame(Keys { command: true, r: true, ..keys() }, 0);
    assert_eq!(asked(&effects).generation, 2);
}

#[test]
fn the_quick_shortcut_pastes_without_taking_the_focus() {
    let mut a = app();
    let effects = open(&mut a, Opening::Quick, " oi ");
    assert_eq!(effects.len(), 3);
    assert!(matches!(&effects[0], Effect::Tooltip(s) if s.ends_with("\nrápido: melhorando...")));
    assert!(matches!(
        effects[1],
        Effect::Show { mode: Mode::Hud, cursor: Some((10, 20)), focus: false }
    ));
    let job = asked(&effects);
    assert_eq!(job.lane, Lane::Quick);
    assert_eq!(job.input, "oi");
    assert_eq!(job.generation, 1);
    assert_eq!(a.hud_message, "melhorando · Líder");
    assert!(!a.hud_failed());
    assert_eq!(a.begin_frame(false, false).1, Draw::Hud);

    assert!(a.on_quick_answer(1, delta(" Bom "), 0).is_empty());
    assert!(a.on_quick_answer(1, delta("dia\n"), 0).is_empty());
    let effects = a.on_quick_answer(1, Msg::Done, 0);
    assert!(matches!(effects[0], Effect::Park));
    assert!(matches!(&effects[1], Effect::Tooltip(s) if s.ends_with("\nrápido: colado")));
    assert!(matches!(&effects[2], Effect::Paste { hwnd: 42, text } if text == "Bom dia"));
    assert!(!a.visible);
    assert!(a.quick.is_none());
    assert_eq!(a.output, "");
}

#[test]
fn an_error_of_the_quick_shortcut_restores_and_vanishes() {
    let mut a = app();
    open(&mut a, Opening::Quick, "oi");
    assert!(a.on_quick_answer(7, Msg::Done, 0).is_empty());
    let effects = a.on_quick_answer(1, Msg::Error("rede".to_string()), SECOND);
    assert!(sets_clipboard(&effects[0], "antes"));
    assert!(matches!(&effects[1], Effect::Tooltip(s) if s.ends_with("\nerro: rede")));
    assert!(matches!(effects[2], Effect::Show { mode: Mode::Hud, focus: false, .. }));
    assert_eq!(a.hud_message, "rede");
    assert!(a.hud_failed());

    a.tick(6 * SECOND);
    assert!(a.visible);
    let effects = a.tick(6 * SECOND + 1);
    assert!(matches!(effects[0], Effect::Park));
    assert!(!a.visible);
    assert!(a.banner().unwrap().ends_with("  atalho rápido: rede"));

    // The next popup shows the notice; improving the text again drops it.
    let effects = open(&mut a, Opening::Show, "oi");
    assert_eq!(asked(&effects).input, "oi");
    assert!(a.banner().unwrap().ends_with("  atalho rápido: rede"));
    a.start_generation();
    assert!(a.banner().is_none());
}

#[test]
fn the_settings_and_an_empty_popup_tell_the_last_error_too() {
    let mut a = app();
    open(&mut a, Opening::Quick, " ");
    a.open_settings();
    assert!(a.banner().unwrap().ends_with("  atalho rápido: nada selecionado"));
    open(&mut a, Opening::Ticket, "");
    assert!(a.banner().unwrap().ends_with("  atalho rápido: nada selecionado"));
}

#[test]
fn the_quick_shortcut_needs_a_selection_and_an_answer() {
    let mut a = app();
    let effects = open(&mut a, Opening::Quick, " \n");
    assert!(sets_clipboard(&effects[0], "antes"));
    assert_eq!(a.hud_message, "nada selecionado");
    assert!(a.quick.is_none());
    assert_eq!(a.quick_generation, 0);

    open(&mut a, Opening::Quick, "oi");
    a.on_quick_answer(1, delta("  "), 0);
    let effects = a.on_quick_answer(1, Msg::Done, 0);
    assert!(sets_clipboard(&effects[0], "antes"));
    assert_eq!(a.hud_message, "resposta vazia");
    assert!(a.quick.is_none());
}

#[test]
fn a_newer_quick_job_replaces_the_older() {
    let mut a = app();
    open(&mut a, Opening::Quick, "um");
    open(&mut a, Opening::Quick, "dois");
    a.on_quick_answer(1, delta("velho"), 0);
    assert_eq!(a.quick.as_ref().unwrap().buffer, "");
    a.on_quick_answer(2, delta("novo"), 0);
    assert_eq!(a.quick.as_ref().unwrap().buffer, "novo");
}

#[test]
fn the_ticket_tone_is_used_once() {
    let mut a = app();
    let effects = open(&mut a, Opening::Ticket, "travou");
    assert_eq!(asked(&effects).tone.name, "Chamado");
    assert_eq!(a.tone_index, 4);
    a.close();
    let effects = open(&mut a, Opening::Show, "oi");
    assert_eq!(asked(&effects).tone.name, "Líder");
    let effects = open(&mut a, Opening::Quick, "oi");
    assert_eq!(asked(&effects).tone.name, "Líder");
}

#[test]
fn a_tone_chosen_by_hand_stays() {
    let mut a = app();
    open(&mut a, Opening::Show, "oi");
    let effects = a.pick_tone(2);
    assert_eq!(asked(&effects).tone.name, "Direto");
    assert_eq!(asked(&effects).generation, 2);
    a.close();
    let effects = open(&mut a, Opening::Show, "oi");
    assert_eq!(asked(&effects).tone.name, "Direto");
}

#[test]
fn the_quick_shortcut_uses_the_default_tone() {
    let mut a = app();
    open(&mut a, Opening::Show, "oi");
    a.pick_tone(2);
    a.close();
    let effects = open(&mut a, Opening::Quick, " oi ");
    assert_eq!(asked(&effects).tone.name, "Líder");
    assert_eq!(asked(&effects).input, "oi");
    assert_eq!(asked(&effects).instruction, "");
    assert_eq!(a.hud_message, "melhorando · Líder");
    assert_eq!(a.chosen_tone, 2);
}

#[test]
fn a_notice_is_told_at_one_opening() {
    let mut a = app();
    open(&mut a, Opening::Quick, " ");
    open(&mut a, Opening::Show, "oi");
    assert!(a.banner().is_some());
    a.close();
    open(&mut a, Opening::Show, "oi");
    assert!(a.banner().is_none());

    // A new error is told again.
    a.close();
    open(&mut a, Opening::Quick, " ");
    open(&mut a, Opening::Ticket, "oi");
    assert!(a.banner().is_some());
}

#[test]
fn tones_are_asked_for_by_click_or_digit() {
    let a = app();
    let none = vec![false; 6];
    let digits = |d: usize| (0..9).map(|i| i == d).collect::<Vec<bool>>();
    let quiet = vec![false; 9];
    assert_eq!(a.tone_request(&none, false, &quiet), None);
    assert_eq!(a.tone_request(&vec![true, false, true], false, &quiet), Some(2));
    assert_eq!(a.tone_request(&vec![true, false], false, &quiet), None);
    assert_eq!(a.tone_request(&none, true, &digits(3)), Some(3));
    assert_eq!(a.tone_request(&none, false, &digits(3)), None);
    assert_eq!(a.tone_request(&none, true, &digits(0)), None);
    assert_eq!(a.tone_request(&none, true, &digits(6)), None);
    assert_eq!(a.tone_request(&vec![false, true], true, &digits(5)), Some(5));
    assert_eq!(a.tone_request(&vec![false, true], true, &digits(8)), Some(1));
    let mut both = digits(3);
    both[1] = true;
    assert_eq!(a.tone_request(&none, true, &both), Some(1));
}

#[test]
fn settings_are_saved_or_cancelled() {
    let mut a = app();
    let effects = a.on_menu(false, true, 0);
    assert!(matches!(
        effects[0],
        Effect::Show { mode: Mode::Popup, cursor: None, focus: true }
    ));
    assert!(a.show_settings);
    a.draft.signature = "Ana".to_string();
    a.cancel_settings();
    assert_eq!(a.draft.signature, "");
    assert!(!a.show_settings);

    a.toggle_settings();
    a.draft.signature = "Ana".to_string();
    assert!(!a.save_settings());
    assert_eq!(a.cfg.signature, "Ana");
    let effects = a.settings_saved(None, false, 3);
    assert!(matches!(effects[0], Effect::Tooltip(_)));
    assert_eq!(a.toast, Some(("salvo".to_string(), 3)));
    assert!(!a.show_settings);

    a.original = "oi".to_string();
    a.draft.signature = "Bia".to_string();
    assert_eq!(asked(&a.start_generation()).cfg.signature, "Ana");

    a.open_settings();
    a.draft.ticket_hotkey = "alt+f2".to_string();
    assert!(a.save_settings());
    a.settings_saved(None, true, 4);
    assert_eq!(
        a.toast,
        Some(("salvo — reinicie para os novos atalhos valerem".to_string(), 4))
    );

    a.open_settings();
    assert!(a.settings_saved(Some("disco".to_string()), false, 5).is_empty());
    assert!(a.show_settings);
    assert!(matches!(&a.status, Status::Error(e) if e == "disco"));
    assert!(a.on_menu(false, false, 0).is_empty());
}

#[test]
fn toasts_fade() {
    let mut a = app();
    assert_eq!(a.footer_toast(0), None);
    a.copy_and_tell(SECOND);
    assert_eq!(a.footer_toast(3 * SECOND - 1).as_deref(), Some("copiado"));
    assert_eq!(a.settings_toast(3 * SECOND).as_deref(), Some("copiado"));
    assert_eq!(a.settings_toast(4 * SECOND), None);
    assert_eq!(a.footer_toast(3 * SECOND), None);
    assert_eq!(a.toast, None);
}

#[test]
fn the_original_can_be_shown() {
    let mut a = app();
    open(&mut a, Opening::Show, "oi");
    assert!(!a.shows_original());
    a.toggle_original();
    assert!(a.shows_original());
    assert!(a.has_room());
    a.generation = u64::MAX;
    assert!(!a.has_room());
}
