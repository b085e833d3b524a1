//! The icon of the tray and its tooltip.

use crate::config::{Config, ConfigView};
use crate::text;
use crate::text::{is_blank, trim};
use vstd::prelude::*;

verus! {

/// The label of the menu entry that opens the settings.
pub const OPEN_LABEL: &'static str = "Configuração";

/// The label of the menu entry that ends the application.
pub const QUIT_LABEL: &'static str = "Sair";

/// How a shortcut that may be turned off is shown.
pub open spec fn optional_text(spec: Seq<char>) -> Seq<char> {
    if text::blank(spec) {
        "desligado"@
    } else {
        text::trimmed(spec)
    }
}

/// The tooltip: the one place that shows the shortcuts without opening the settings.
pub open spec fn tooltip_text(cfg: ConfigView) -> Seq<char> {
    "better-answer\n"@ + cfg.hotkey + " — popup\n"@ + optional_text(cfg.quick_hotkey)
        + " — rápido\n"@ + optional_text(cfg.ticket_hotkey) + " — chamado"@
}

/// How a shortcut that may be turned off is shown.
fn optional(spec: &str) -> (r: &str)
    ensures
        r@ == optional_text(spec@),
{
    if is_blank(spec) {
        "desligado"
    } else {
        trim(spec)
    }
}

/// The tooltip of the tray.
pub fn tray_tooltip(cfg: &Config) -> (r: String)
    ensures
        r@ == tooltip_text(cfg@),
{
    let mut out = "better-answer\n".to_owned();
    out.append(cfg.hotkey.as_str());
    out.append(" — popup\n");
    out.append(optional(cfg.quick_hotkey.as_str()));
    out.append(" — rápido\n");
    out.append(optional(cfg.ticket_hotkey.as_str()));
    out.append(" — chamado");
    out
}

/// The line that the last result of the quick shortcut adds to the tooltip.
pub open spec fn note_line(note: Option<(Seq<char>, bool)>) -> Seq<char> {
    match note {
        Some((message, is_error)) => "\n"@ + (if is_error {
            "erro"@
        } else {
            "rápido"@
        }) + ": "@ + message,
        None => Seq::empty(),
    }
}

/// The note of the quick shortcut: its message, and whether it is an error.
pub open spec fn note_view(note: Option<(String, bool)>) -> Option<(Seq<char>, bool)> {
    match note {
        Some((message, is_error)) => Some((message@, is_error)),
        None => None,
    }
}

/// The tooltip of the tray, with the last result of the quick shortcut.
pub fn tooltip_with_note(cfg: &Config, note: &Option<(String, bool)>) -> (r: String)
    ensures
        r@ == tooltip_text(cfg@) + note_line(note_view(*note)),
{
    let mut out = tray_tooltip(cfg);
    if let Some((message, is_error)) = note {
        out.append("\n");
        if *is_error {
            out.append("erro");
        } else {
            out.append("rápido");
        }
        out.append(": ");
        out.append(message.as_str());
    }
    assert(out@ =~= tooltip_text(cfg@) + note_line(note_view(*note)));
    out
}

/// The side of the icon, in pixels.
pub const ICON_SIZE: u32 = 32;

/// The radius of the corners of the icon.
pub const ICON_RADIUS: i32 = 6;

/// How far a coordinate lies inside the band of a rounded corner.
pub open spec fn corner_depth(v: int) -> int {
    if v < ICON_RADIUS {
        ICON_RADIUS - v
    } else if v >= ICON_SIZE - ICON_RADIUS {
        v - (ICON_SIZE - ICON_RADIUS - 1)
    } else {
        0
    }
}

/// The pixel is inside the rounded square.
pub open spec fn in_icon(x: int, y: int) -> bool {
    corner_depth(x) * corner_depth(x) + corner_depth(y) * corner_depth(y) <= ICON_RADIUS
        * ICON_RADIUS
}

/// The pixel is on a bar around the row `row`, from column 7 to column `last`.
pub open spec fn in_bar(x: int, y: int, row: int, last: int) -> bool {
    row - 1 <= y <= row + 1 && 7 <= x <= last
}

/// The pixel is on one of the three bars, which look like lines of text.
pub open spec fn on_bar(x: int, y: int) -> bool {
    in_bar(x, y, 9, 25) || in_bar(x, y, 15, 21) || in_bar(x, y, 21, 17)
}

/// The red, green, blue and alpha of a pixel: white bars on blue, and nothing outside.
pub open spec fn pixel(x: int, y: int) -> Seq<u8> {
    if !in_icon(x, y) {
        seq![0u8, 0u8, 0u8, 0u8]
    } else if on_bar(x, y) {
        seq![255u8, 255u8, 255u8, 255u8]
    } else {
        seq![47u8, 107u8, 255u8, 255u8]
    }
}

/// The byte at `i` of the picture, row by row.
pub open spec fn icon_byte(i: int) -> u8 {
    pixel((i / 4) % 32, i / 128)[i % 4]
}

/// How far a coordinate lies inside the band of a rounded corner.
fn depth(v: i32) -> (r: i32)
    requires
        0 <= v < 32,
    ensures
        r == corner_depth(v as int),
        0 <= r <= 6,
{
    if v < ICON_RADIUS {
        ICON_RADIUS - v
    } else if v >= 32 - ICON_RADIUS {
        v - (32 - ICON_RADIUS - 1)
    } else {
        0
    }
}

/// Whether the pixel is on a bar.
fn is_on_bar(x: i32, y: i32, row: i32, last: i32) -> (r: bool)
    requires
        0 <= row <= 32,
    ensures
        r == in_bar(x as int, y as int, row as int, last as int),
{
    row - 1 <= y && y <= row + 1 && 7 <= x && x <= last
}

/// The color of a pixel.
fn pixel_at(x: i32, y: i32) -> (r: (u8, u8, u8, u8))
    requires
        0 <= x < 32,
        0 <= y < 32,
    ensures
        seq![r.0, r.1, r.2, r.3] == pixel(x as int, y as int),
{
    let cx: i32 = depth(x);
    let cy: i32 = depth(y);
    proof {
        assert(0 <= cx * cx <= 36) by (nonlinear_arith)
            requires
                0 <= cx <= 6,
        ;
        assert(0 <= cy * cy <= 36) by (nonlinear_arith)
            requires
                0 <= cy <= 6,
        ;
    }
    if cx * cx + cy * cy > ICON_RADIUS * ICON_RADIUS {
        (0, 0, 0, 0)
    } else if is_on_bar(x, y, 9, 25) || is_on_bar(x, y, 15, 21) || is_on_bar(x, y, 21, 17) {
        (255, 255, 255, 255)
    } else {
        (47, 107, 255, 255)
    }
}

/// The icon as rows of red, green, blue and alpha, drawn here so that no file is needed.
pub fn tray_icon_image() -> (r: Vec<u8>)
    ensures
        r@.len() == 4 * ICON_SIZE * ICON_SIZE,
        forall|i: int| 0 <= i < r@.len() ==> r@[i] == icon_byte(i),
{
    let mut out: Vec<u8> = Vec::new();
    let mut y: i32 = 0;
    while y < 32
        invariant
            0 <= y <= 32,
            out@.len() == y * 128,
            forall|i: int| 0 <= i < out@.len() ==> out@[i] == icon_byte(i),
        decreases 32 - y,
    {
        let mut x: i32 = 0;
        while x < 32
            invariant
                0 <= y < 32,
                0 <= x <= 32,
                out@.len() == y * 128 + x * 4,
                forall|i: int| 0 <= i < out@.len() ==> out@[i] == icon_byte(i),
            decreases 32 - x,
        {
            let (r, g, b, a) = pixel_at(x, y);
            let ghost start = out@.len() as int;
            let ghost color = seq![r, g, b, a];
            assert(color == pixel(x as int, y as int));
            out.push(r);
            out.push(g);
            out.push(b);
            out.push(a);
            assert forall|i: int| 0 <= i < out@.len() implies out@[i] == icon_byte(i) by {
                if i >= start {
                    let k = i - start;
                    assert(i == y * 128 + x * 4 + k);
                    assert(i / 128 == y);
                    assert((i / 4) % 32 == x);
                    assert(i % 4 == k);
                    assert(out@[i] == color[k]);
                }
            }
            x = x + 1;
        }
        y = y + 1;
    }
    out
}

/// The tooltip shows the three shortcuts, each on its own line; one that is turned off is shown as
/// off, and the others as they are written, without white space around them.
pub proof fn tooltip_shows_the_shortcuts(cfg: ConfigView)
    ensures
        ({
            let quick = if text::blank(cfg.quick_hotkey) {
                "desligado"@
            } else {
                text::trimmed(cfg.quick_hotkey)
            };
            let ticket = if text::blank(cfg.ticket_hotkey) {
                "desligado"@
            } else {
                text::trimmed(cfg.ticket_hotkey)
            };
            text::joined(
                seq![
                    "better-answer"@,
                    cfg.hotkey + " — popup"@,
                    quick + " — rápido"@,
                    ticket + " — chamado"@,
                ],
                "\n"@,
            ) == tooltip_text(cfg)
        }),
{
    let quick = optional_text(cfg.quick_hotkey);
    let ticket = optional_text(cfg.ticket_hotkey);
    let a = "better-answer"@;
    let b = cfg.hotkey + " — popup"@;
    let c = quick + " — rápido"@;
    let d = ticket + " — chamado"@;
    reveal_strlit("better-answer\n");
    reveal_strlit("better-answer");
    reveal_strlit("\n");
    reveal_strlit(" — popup\n");
    reveal_strlit(" — popup");
    reveal_strlit(" — rápido\n");
    reveal_strlit(" — rápido");
    assert("better-answer\n"@ =~= a + "\n"@);
    assert(" — popup\n"@ =~= " — popup"@ + "\n"@);
    assert(" — rápido\n"@ =~= " — rápido"@ + "\n"@);
    text::joining_keeps_the_order(c, seq![d], "\n"@);
    text::joining_keeps_the_order(d, seq![d], "\n"@);
    text::joining_keeps_the_order(b, seq![c, d], "\n"@);
    text::joining_keeps_the_order(a, seq![b, c, d], "\n"@);
    assert(seq![c] + seq![d] =~= seq![c, d]);
    assert(seq![b] + seq![c, d] =~= seq![b, c, d]);
    assert(seq![a] + seq![b, c, d] =~= seq![a, b, c, d]);
    assert(text::joined(seq![a, b, c, d], "\n"@) =~= a + "\n"@ + (b + "\n"@ + (c + "\n"@ + d)));
    assert(tooltip_text(cfg) =~= a + "\n"@ + (b + "\n"@ + (c + "\n"@ + d)));
}

/// The last result of the quick shortcut adds one line, which tells an error from the rest.
pub proof fn note_adds_one_line(message: Seq<char>)
    ensures
        note_line(None) == Seq::<char>::empty(),
        note_line(Some((message, true))) == "\nerro: "@ + message,
        note_line(Some((message, false))) == "\nrápido: "@ + message,
{
    reveal_strlit("\nerro: ");
    reveal_strlit("\nrápido: ");
    reveal_strlit("\n");
    reveal_strlit("erro");
    reveal_strlit("rápido");
    reveal_strlit(": ");
    assert("\n"@ + "erro"@ + ": "@ =~= "\nerro: "@);
    assert("\n"@ + "rápido"@ + ": "@ =~= "\nrápido: "@);
}

/// Each pixel stands at its place in the picture, as red, green, blue and alpha.
pub proof fn pixels_stand_row_by_row(x: int, y: int, k: int)
    requires
        0 <= x < 32,
        0 <= y < 32,
        0 <= k < 4,
    ensures
        icon_byte(4 * (32 * y + x) + k) == pixel(x, y)[k],
{
    let i = 4 * (32 * y + x) + k;
    assert(i / 4 == 32 * y + x);
    assert((i / 4) % 32 == x);
    assert(i / 128 == y);
    assert(i % 4 == k);
}

/// The outline is the same from all four sides; only its corners are cut, round, and outside of it
/// nothing is seen.
pub proof fn outline_is_round_and_even(x: int, y: int)
    requires
        0 <= x < 32,
        0 <= y < 32,
    ensures
        in_icon(x, y) == in_icon(31 - x, y),
        in_icon(x, y) == in_icon(x, 31 - y),
        in_icon(x, y) == in_icon(y, x),
        6 <= x <= 25 || 6 <= y <= 25 ==> in_icon(x, y),
        x < 6 && y < 6 ==> (in_icon(x, y) <==> (6 - x) * (6 - x) + (6 - y) * (6 - y) <= 36),
        !in_icon(x, y) ==> pixel(x, y) == seq![0u8, 0u8, 0u8, 0u8],
        in_icon(x, y) ==> pixel(x, y)[3] == 255,
{
    assert(corner_depth(31 - x) == corner_depth(x));
    assert(corner_depth(31 - y) == corner_depth(y));
    let a = corner_depth(x);
    let b = corner_depth(y);
    assert(0 <= a <= 6 && 0 <= b <= 6);
    assert(0 <= a * a <= 36) by (nonlinear_arith)
        requires
            0 <= a <= 6,
    ;
    assert(0 <= b * b <= 36) by (nonlinear_arith)
        requires
            0 <= b <= 6,
    ;
    if 6 <= x <= 25 {
        assert(a * a == 0);
    }
    if 6 <= y <= 25 {
        assert(b * b == 0);
    }
}

/// Inside, three white bars lie on blue: each three rows high, from the seventh column on, and each
/// four columns shorter than the one above it.
pub proof fn three_bars_lie_on_blue(x: int, y: int)
    requires
        in_icon(x, y),
    ensures
        pixel(x, y) == seq![255u8, 255u8, 255u8, 255u8] || pixel(x, y) == seq![
            47u8,
            107u8,
            255u8,
            255u8,
        ],
        pixel(x, y)[0] == 255 <==> 7 <= x && (8 <= y <= 10 && x <= 25 || 14 <= y <= 16 && x <= 21
            || 20 <= y <= 22 && x <= 17),
{
}

} // verus!
