use better_answer::config::Config;
use better_answer::tray::{tooltip_with_note, tray_icon_image, tray_tooltip};
use better_answer::win::{
    capture_selection, clipboard_error, copy_steps, cursor_pos, focus_window, paste_into,
    press_with_ctrl, release_modifiers, CaptureWait, Held, KeyStroke, Poll, Step, POLLS, POLL_MS,
    VK_C, VK_V,
};
use better_answer::window::{place, size, Area, Mode};

/// The model that answers by default.
const MODEL: &str = "fornecedor/modelo";

fn strokes(list: &[(u16, bool)]) -> Vec<KeyStroke> {
    list.iter().map(|(vk, up)| KeyStroke { vk: *vk, up: *up }).collect()
}

fn held() -> Held {
    Held { menu: false, shift: false, lwin: false, rwin: false, control: false }
}

#[test]
fn held_modifiers_are_released() {
    assert_eq!(release_modifiers(held()), strokes(&[]));
    assert_eq!(
        release_modifiers(Held { shift: true, control: true, ..held() }),
        strokes(&[(0x10, true), (0x11, true)])
    );
}

#[test]
fn alt_and_windows_are_masked_before_they_are_released() {
    assert_eq!(
        release_modifiers(Held { menu: true, control: true, ..held() }),
        strokes(&[(0xE8, false), (0xE8, true), (0x12, true), (0x11, true)])
    );
    assert_eq!(
        release_modifiers(Held { menu: true, shift: true, lwin: true, rwin: true, control: true }),
        strokes(&[
            (0xE8, false),
            (0xE8, true),
            (0x12, true),
            (0x10, true),
            (0x5B, true),
            (0x5C, true),
            (0x11, true)
        ])
    );
}

#[test]
fn ctrl_and_a_key_are_pressed_and_released() {
    assert_eq!(
        press_with_ctrl(VK_C),
        strokes(&[(0x11, false), (0x43, false), (0x43, true), (0x11, true)])
    );
}

#[test]
fn the_capture_waits_for_the_clipboard() {
    assert_eq!(POLLS as u64 * POLL_MS, 600);
    let mut wait = CaptureWait::new(5);
    for _ in 0..23 {
        assert_eq!(wait.look(5), Poll::Again);
    }
    assert_eq!(wait.look(5), Poll::GiveUp);
    let mut wait = CaptureWait::new(5);
    assert_eq!(wait.look(5), Poll::Again);
    assert_eq!(wait.look(6), Poll::Read);
}

#[test]
fn the_selection_is_trimmed_and_the_clipboard_kept() {
    let c = capture_selection(Some(" oi \r\n".to_string()), Some(" antes ".to_string()));
    assert_eq!(c.text, "oi");
    assert_eq!(c.previous_clipboard.as_deref(), Some(" antes "));
    let none = capture_selection(None, None);
    assert_eq!(none.text, "");
    assert_eq!(none.previous_clipboard, None);
}

#[test]
fn pasting_focuses_before_it_sends_keys() {
    let steps = paste_into(77, "fim");
    assert!(matches!(&steps[0], Step::SetClipboard(s) if s == "fim"));
    assert!(matches!(steps[1], Step::Focus(77)));
    assert!(matches!(steps[2], Step::Sleep(80)));
    assert!(matches!(steps[3], Step::ReleaseModifiers));
    assert!(matches!(steps[4], Step::PressWithCtrl(VK_V)));
    assert_eq!(steps.len(), 5);
    let nowhere = paste_into(0, "fim");
    assert_eq!(nowhere.len(), 4);
    assert!(matches!(nowhere[1], Step::Sleep(80)));
    let copy = copy_steps();
    assert_eq!(copy.len(), 2);
    assert!(matches!(copy[0], Step::ReleaseModifiers));
    assert!(matches!(copy[1], Step::PressWithCtrl(VK_C)));
    assert_eq!(focus_window(0), None);
    assert_eq!(focus_window(-3), Some(-3));
    assert_eq!(cursor_pos(None), (0, 0));
    assert_eq!(cursor_pos(Some((4, -2))), (4, -2));
    assert_eq!(clipboard_error("x"), "clipboard: x");
}

#[test]
fn the_window_stays_in_the_work_area() {
    let area = Area { left: 0, top: 0, right: 1920, bottom: 1040 };
    assert_eq!(place(Some((100, 200)), area, 560, 430, 12), (112, 212));
    assert_eq!(place(Some((1900, 1030)), area, 560, 430, 12), (1360, 610));
    assert_eq!(place(Some((-50, -50)), area, 560, 430, 12), (0, 0));
    assert_eq!(place(None, area, 560, 430, 12), (680, 305));
    let left = Area { left: -1280, top: 10, right: 0, bottom: 400 };
    assert_eq!(place(None, left, 560, 430, 12), (-920, 10));
    assert_eq!(place(Some((-20, 390)), left, 290, 44, 12), (-290, 356));
    let far = Area { left: i32::MIN, top: i32::MIN, right: i32::MAX, bottom: i32::MAX };
    assert_eq!(place(Some((i32::MAX, i32::MIN)), far, 1, 1, i32::MAX), (i32::MAX - 1, -1));
    assert_eq!(size(Mode::Popup), (560, 430));
    assert_eq!(size(Mode::Hud), (290, 44));
}

#[test]
fn the_tooltip_shows_the_shortcuts() {
    let mut cfg = Config::default(MODEL);
    assert_eq!(
        tray_tooltip(&cfg),
        "better-answer\nctrl+b — popup\nctrl+s — rápido\nctrl+d — chamado"
    );
    cfg.hotkey = " x ".to_string();
    cfg.quick_hotkey = " ".to_string();
    cfg.ticket_hotkey = " alt+f2 ".to_string();
    let plain = "better-answer\n x  — popup\ndesligado — rápido\nalt+f2 — chamado";
    assert_eq!(tray_tooltip(&cfg), plain);
    assert_eq!(tooltip_with_note(&cfg, &None), plain);
    assert_eq!(
        tooltip_with_note(&cfg, &Some(("colado".to_string(), false))),
        format!("{plain}\nrápido: colado")
    );
    assert_eq!(
        tooltip_with_note(&cfg, &Some(("rede".to_string(), true))),
        format!("{plain}\nerro: rede")
    );
}

#[test]
fn the_icon_is_a_rounded_square_with_three_bars() {
    let rgba = tray_icon_image();
    assert_eq!(rgba.len(), 32 * 32 * 4);
    let at = |x: usize, y: usize| {
        let i = (y * 32 + x) * 4;
        [rgba[i], rgba[i + 1], rgba[i + 2], rgba[i + 3]]
    };
    let nothing = [0, 0, 0, 0];
    let blue = [47, 107, 255, 255];
    let white = [255, 255, 255, 255];
    assert_eq!(at(0, 0), nothing);
    assert_eq!(at(31, 31), nothing);
    assert_eq!(at(1, 1), nothing);
    assert_eq!(at(2, 2), blue);
    assert_eq!(at(16, 0), blue);
    assert_eq!(at(7, 8), white);
    assert_eq!(at(25, 10), white);
    assert_eq!(at(26, 9), blue);
    assert_eq!(at(6, 9), blue);
    assert_eq!(at(21, 15), white);
    assert_eq!(at(22, 15), blue);
    assert_eq!(at(17, 22), white);
    assert_eq!(at(18, 22), blue);
    assert_eq!(at(10, 12), blue);
}
