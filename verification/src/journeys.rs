//! Whole uses of the application, from the shortcut to what becomes of the text.

use crate::app;
use crate::app::{
    App, AppView, Body, BodyView, Draw, Effect, EffectView, FooterLabel, FooterView, HotkeyMsg, HotkeyView,
    Improve, ImproveView, Keys, Lane, Outcome, QuickJob, QuickJobView, ShowRequest, ShowRequestView,
    Status, StatusView,
};
use crate::config;
use crate::config::ConfigView;
use crate::icon;
use crate::laws;
use crate::llm;
use crate::llm::MsgView;
use crate::shortcuts::Opening;
use crate::text;
use crate::tray;
use crate::window::Mode;
use vstd::prelude::*;

verus! {

/// The tooltip of the tray with a line on the quick shortcut.
pub open spec fn tip(cfg: ConfigView, line: Seq<char>) -> EffectView {
    EffectView::Tooltip(tray::tooltip_text(cfg) + line)
}

/// The clipboard gets back what it held before, where it held a text.
pub open spec fn put_back(previous: Option<Seq<char>>) -> Seq<EffectView> {
    if previous is Some {
        seq![EffectView::SetClipboard(previous->0)]
    } else {
        Seq::empty()
    }
}

/// The quick shortcut on a selection, from any state: it leaves a job for that very selection, with
/// the window, the place and the clipboard of its capture; it shows the progress box there without
/// taking the focus; and it asks for the selection in the default tone, without an instruction.
/// Nothing else changes.
pub proof fn quick_shortcut_takes_up_the_selection(s: AppView, req: ShowRequestView, now: u64)
    requires
        !text::blank(req.text),
    ensures
        ({
            let (after, effects) = app::hotkey_handled(
                s,
                HotkeyView::Captured(Opening::Quick, req),
                now,
            );
            let tone = config::tone_at(s.cfg.tones, 0);
            let job = after.quick->0;
            &&& after.quick is Some
            &&& job.hwnd == req.hwnd
            &&& job.cursor == req.cursor
            &&& job.previous_clipboard == req.previous_clipboard
            &&& job.buffer.len() == 0
            &&& job.generation == s.quick_generation + 1
            &&& effects == seq![
                tip(s.cfg, "\nrápido: "@ + "melhorando..."@),
                EffectView::Show { mode: Mode::Hud, cursor: Some(req.cursor), focus: false },
                EffectView::Improve(
                    ImproveView {
                        lane: Lane::Quick,
                        generation: job.generation,
                        cfg: s.cfg,
                        tone,
                        input: text::trimmed(req.text),
                        instruction: Seq::empty(),
                    },
                ),
            ]
            &&& after == (AppView {
                quick: Some(job),
                quick_generation: job.generation,
                quick_note: Some(("melhorando..."@, false)),
                note_told: false,
                hud_message: "melhorando · "@ + tone.name,
                hud_error_since: None,
                mode: Mode::Hud,
                visible: true,
                ui_ran: false,
                ..s
            })
        }),
{
    text::trimmed_empty_iff_blank(req.text);
    tray::note_adds_one_line("melhorando..."@);
    let (after, effects) = app::hotkey_handled(s, HotkeyView::Captured(Opening::Quick, req), now);
    let tone = config::tone_at(s.cfg.tones, 0);
    assert(effects =~= seq![
        tip(s.cfg, "\nrápido: "@ + "melhorando..."@),
        EffectView::Show { mode: Mode::Hud, cursor: Some(req.cursor), focus: false },
        EffectView::Improve(
            ImproveView {
                lane: Lane::Quick,
                generation: after.quick->0.generation,
                cfg: s.cfg,
                tone,
                input: text::trimmed(req.text),
                instruction: Seq::empty(),
            },
        ),
    ]);
}

/// What a failure of the quick shortcut does: the clipboard is put back, the tray and the progress
/// box tell it where the selection was, and nothing is pasted. Only what tells it changes.
pub open spec fn fails_with(
    before: AppView,
    req: ShowRequestView,
    message: Seq<char>,
    now: u64,
    outcome: Outcome,
) -> bool {
    &&& outcome.1 == put_back(req.previous_clipboard) + seq![
        tip(before.cfg, "\nerro: "@ + message),
        EffectView::Show { mode: Mode::Hud, cursor: Some(req.cursor), focus: false },
    ]
    &&& outcome.0 == (AppView {
        quick_note: Some((message, true)),
        note_told: false,
        hud_message: message,
        hud_error_since: Some(now),
        mode: Mode::Hud,
        visible: true,
        ui_ran: false,
        ..before
    })
}

/// The quick shortcut from the selection to its end: the whole answer, without white space around
/// it, is pasted into the window of the selection, once the progress box is gone. An answer with
/// nothing in it and a failure are told, put the clipboard back and paste nothing.
pub proof fn quick_answer_goes_to_the_window_of_the_selection(
    s: AppView,
    req: ShowRequestView,
    now: u64,
    lines: Seq<Seq<char>>,
    failure: Option<Seq<char>>,
    later: u64,
)
    requires
        !text::blank(req.text),
    ensures
        ({
            let started = app::hotkey_handled(
                s,
                HotkeyView::Captured(Opening::Quick, req),
                now,
            ).0;
            let msgs = llm::messages(lines, failure);
            let whole = text::trimmed(llm::answer(msgs));
            let end = laws::quick_received(started, started.quick_generation, msgs, later);
            let idle = AppView { quick: None, ..started };
            match msgs.last() {
                MsgView::Error(e) => fails_with(idle, req, e, later, end),
                _ => if whole.len() == 0 {
                    fails_with(idle, req, "resposta vazia"@, later, end)
                } else {
                    &&& end.1 == seq![
                        EffectView::Park,
                        tip(s.cfg, "\nrápido: "@ + "colado"@),
                        EffectView::Paste { hwnd: req.hwnd, text: whole },
                    ]
                    &&& end.0 == (AppView {
                        quick_note: Some(("colado"@, false)),
                        note_told: false,
                        previous_clipboard: None,
                        generation: s.generation + 1,
                        show_settings: false,
                        hud_error_since: None,
                        visible: false,
                        ui_ran: false,
                        ..idle
                    })
                },
            }
        }),
{
    quick_shortcut_takes_up_the_selection(s, req, now);
    let started = app::hotkey_handled(s, HotkeyView::Captured(Opening::Quick, req), now).0;
    let job = started.quick->0;
    let msgs = llm::messages(lines, failure);
    let whole = text::trimmed(llm::answer(msgs));
    llm::one_last_message(lines, failure);
    laws::lemma_quick_collects(started, job, msgs, later);
    assert(job.buffer + llm::answer(msgs) =~= llm::answer(msgs));
    let end = laws::quick_received(started, started.quick_generation, msgs, later);
    match msgs.last() {
        MsgView::Error(e) => {
            tray::note_adds_one_line(e);
            assert(end.1 =~= put_back(req.previous_clipboard) + seq![
                tip(s.cfg, "\nerro: "@ + e),
                EffectView::Show { mode: Mode::Hud, cursor: Some(req.cursor), focus: false },
            ]);
        },
        _ => {
            if whole.len() == 0 {
                tray::note_adds_one_line("resposta vazia"@);
                assert(end.1 =~= put_back(req.previous_clipboard) + seq![
                    tip(s.cfg, "\nerro: "@ + "resposta vazia"@),
                    EffectView::Show { mode: Mode::Hud, cursor: Some(req.cursor), focus: false },
                ]);
            } else {
                tray::note_adds_one_line("colado"@);
                assert(end.1 =~= seq![
                    EffectView::Park,
                    tip(s.cfg, "\nrápido: "@ + "colado"@),
                    EffectView::Paste { hwnd: req.hwnd, text: whole },
                ]);
            }
        },
    }
}

/// The end of a job of the quick shortcut in whatever state it comes, with the popup open or the
/// window hidden meanwhile: what has come in is pasted into the window of the job, or the failure is
/// told at the place of the job and its clipboard put back.
pub proof fn quick_job_ends_in_any_state(s: AppView, job: QuickJobView, e: Seq<char>, now: u64)
    requires
        s.quick == Some(job),
    ensures
        ({
            let idle = AppView { quick: None, ..s };
            let from = ShowRequestView {
                hwnd: job.hwnd,
                text: Seq::empty(),
                previous_clipboard: job.previous_clipboard,
                cursor: job.cursor,
            };
            let done = app::quick_answered(s, job.generation, MsgView::Done, now);
            let failed = app::quick_answered(s, job.generation, MsgView::Error(e), now);
            &&& fails_with(idle, from, e, now, failed)
            &&& text::blank(job.buffer) ==> fails_with(idle, from, "resposta vazia"@, now, done)
            &&& !text::blank(job.buffer) ==> done == (
                AppView {
                    quick_note: Some(("colado"@, false)),
                    note_told: false,
                    ..put_away(idle)
                },
                seq![
                    EffectView::Park,
                    tip(s.cfg, "\nrápido: "@ + "colado"@),
                    EffectView::Paste { hwnd: job.hwnd, text: text::trimmed(job.buffer) },
                ],
            )
        }),
{
    text::trimmed_empty_iff_blank(job.buffer);
    tray::note_adds_one_line(e);
    tray::note_adds_one_line("resposta vazia"@);
    tray::note_adds_one_line("colado"@);
    let done = app::quick_answered(s, job.generation, MsgView::Done, now);
    let failed = app::quick_answered(s, job.generation, MsgView::Error(e), now);
    let show = EffectView::Show { mode: Mode::Hud, cursor: Some(job.cursor), focus: false };
    assert(failed.1 =~= put_back(job.previous_clipboard) + seq![tip(s.cfg, "\nerro: "@ + e), show]);
    if text::blank(job.buffer) {
        assert(done.1 =~= put_back(job.previous_clipboard) + seq![
            tip(s.cfg, "\nerro: "@ + "resposta vazia"@),
            show,
        ]);
    } else {
        assert(done.1 =~= seq![
            EffectView::Park,
            tip(s.cfg, "\nrápido: "@ + "colado"@),
            EffectView::Paste { hwnd: job.hwnd, text: text::trimmed(job.buffer) },
        ]);
    }
}

/// The quick shortcut without a selection fails at once, and a job that runs goes on.
pub proof fn quick_shortcut_needs_a_selection(s: AppView, req: ShowRequestView, now: u64)
    requires
        text::blank(req.text),
    ensures
        fails_with(
            s,
            req,
            "nada selecionado"@,
            now,
            app::hotkey_handled(s, HotkeyView::Captured(Opening::Quick, req), now),
        ),
{
    text::trimmed_empty_iff_blank(req.text);
    tray::note_adds_one_line("nada selecionado"@);
    let end = app::hotkey_handled(s, HotkeyView::Captured(Opening::Quick, req), now);
    assert(end.1 =~= put_back(req.previous_clipboard) + seq![
        tip(s.cfg, "\nerro: "@ + "nada selecionado"@),
        EffectView::Show { mode: Mode::Hud, cursor: Some(req.cursor), focus: false },
    ]);
}

/// Pieces for the quick shortcut are kept in their order and show nothing.
pub proof fn quick_pieces_are_kept(s: AppView, job: QuickJobView, piece: Seq<char>, now: u64)
    requires
        s.quick == Some(job),
    ensures
        app::quick_answered(s, job.generation, MsgView::Delta(piece), now) == (
            AppView { quick: Some(QuickJobView { buffer: job.buffer + piece, ..job }), ..s },
            Seq::<EffectView>::empty(),
        ),
{
}

/// A message for another job of the quick shortcut, or for none, changes nothing.
pub proof fn stale_quick_answers_are_dropped(s: AppView, generation: nat, msg: MsgView, now: u64)
    requires
        s.quick matches Some(job) ==> job.generation != generation,
    ensures
        app::quick_answered(s, generation, msg, now) == (s, Seq::<EffectView>::empty()),
{
}

/// Whatever happens in the popup meanwhile, the job of the quick shortcut stays as it is.
pub proof fn quick_job_survives_the_popup(
    s: AppView,
    opening: Opening,
    req: ShowRequestView,
    generation: nat,
    msg: MsgView,
    restore: bool,
    close: bool,
    escape: bool,
    keys: Keys,
    index: nat,
    failure: Option<Seq<char>>,
    changed: bool,
    now: u64,
)
    requires
        opening != Opening::Quick,
    ensures
        same_quick_job(s, app::requested(s, opening, req, now).0),
        same_quick_job(s, app::answered(s, generation, msg)),
        same_quick_job(s, app::hidden(s, restore).0),
        same_quick_job(s, app::ticked(s, now).0),
        same_quick_job(s, app::frame_begun(s, close, escape).0.0),
        same_quick_job(s, app::frame_ended(s, keys, now).0),
        same_quick_job(s, app::tone_picked(s, index).0),
        same_quick_job(s, app::settings_opened(s).0),
        same_quick_job(s, app::settings_toggled(s)),
        same_quick_job(s, app::settings_kept(s)),
        same_quick_job(s, app::settings_left(s)),
        same_quick_job(s, app::settings_written(s, failure, changed, now).0),
        same_quick_job(s, app::original_toggled(s)),
        same_quick_job(s, app::quit_begun(s, now).0),
{
}

/// The two states have the same job of the quick shortcut.
pub open spec fn same_quick_job(a: AppView, b: AppView) -> bool {
    a.quick == b.quick && a.quick_generation == b.quick_generation
}

/// The popup on a capture, from any state: it is shown at the cursor with the focus, holds the
/// captured text, its window and its clipboard, starts empty, and asks for that text in its tone:
/// the one chosen by hand, or that of tickets. Nothing else changes.
pub proof fn popup_takes_up_the_selection(
    s: AppView,
    opening: Opening,
    req: ShowRequestView,
    now: u64,
)
    requires
        opening != Opening::Quick,
        !text::blank(req.text),
    ensures
        ({
            let (after, effects) = app::hotkey_handled(s, HotkeyView::Captured(opening, req), now);
            let index = if opening == Opening::Ticket {
                config::ticket_index(s.cfg.tones)
            } else {
                s.chosen_tone
            };
            &&& effects == seq![
                EffectView::Show { mode: Mode::Popup, cursor: Some(req.cursor), focus: true },
                EffectView::Improve(
                    ImproveView {
                        lane: Lane::Popup,
                        generation: after.generation,
                        cfg: s.cfg,
                        tone: config::tone_at(s.cfg.tones, index),
                        input: req.text,
                        instruction: Seq::empty(),
                    },
                ),
            ]
            &&& after == (AppView {
                target_hwnd: req.hwnd,
                previous_clipboard: req.previous_clipboard,
                original: req.text,
                instruction: Seq::empty(),
                output: Seq::empty(),
                status: StatusView::Loading,
                generation: s.generation + 1,
                tone_index: index,
                show_settings: false,
                show_original: false,
                mode: Mode::Popup,
                hud_error_since: None,
                visible: true,
                ui_ran: false,
                quick_note: if s.note_told {
                    None
                } else {
                    s.quick_note
                },
                note_told: true,
                ..s
            })
        }),
{
    let (after, effects) = app::hotkey_handled(s, HotkeyView::Captured(opening, req), now);
    let index = if opening == Opening::Ticket {
        config::ticket_index(s.cfg.tones)
    } else {
        s.chosen_tone
    };
    assert(effects =~= seq![
        EffectView::Show { mode: Mode::Popup, cursor: Some(req.cursor), focus: true },
        EffectView::Improve(
            ImproveView {
                lane: Lane::Popup,
                generation: after.generation,
                cfg: s.cfg,
                tone: config::tone_at(s.cfg.tones, index),
                input: req.text,
                instruction: Seq::empty(),
            },
        ),
    ]);
}

/// The popup on a capture without a text: it is shown all the same, holds the window and the
/// clipboard of the capture, asks nobody, and waits for a text.
pub proof fn popup_without_a_selection_waits(
    s: AppView,
    opening: Opening,
    req: ShowRequestView,
    now: u64,
)
    requires
        opening != Opening::Quick,
        text::blank(req.text),
    ensures
        ({
            let (after, effects) = app::hotkey_handled(s, HotkeyView::Captured(opening, req), now);
            &&& effects == seq![
                EffectView::Show { mode: Mode::Popup, cursor: Some(req.cursor), focus: true },
            ]
            &&& after == (AppView {
                target_hwnd: req.hwnd,
                previous_clipboard: req.previous_clipboard,
                original: req.text,
                instruction: Seq::empty(),
                output: Seq::empty(),
                status: StatusView::NoSelection,
                tone_index: if opening == Opening::Ticket {
                    config::ticket_index(s.cfg.tones)
                } else {
                    s.chosen_tone
                },
                show_settings: false,
                show_original: false,
                mode: Mode::Popup,
                hud_error_since: None,
                visible: true,
                ui_ran: false,
                note_told: true,
                ..s
            })
        }),
{
    let effects = app::hotkey_handled(s, HotkeyView::Captured(opening, req), now).1;
    assert(effects =~= seq![
        EffectView::Show { mode: Mode::Popup, cursor: Some(req.cursor), focus: true },
    ]);
}

/// The popup from the selection to the paste: once the answer is complete, Ctrl+Enter pastes exactly
/// that answer, without white space around it, into the window of the selection, and Ctrl+Shift+C
/// puts it into the clipboard; either hides the window, and neither brings the old clipboard back.
pub proof fn popup_answer_goes_to_the_window_of_the_selection(
    s: AppView,
    opening: Opening,
    req: ShowRequestView,
    now: u64,
    lines: Seq<Seq<char>>,
    keys: Keys,
    later: u64,
)
    requires
        opening != Opening::Quick,
        !text::blank(req.text),
        keys.command,
        llm::messages(lines, None).last() == MsgView::Done,
    ensures
        ({
            let opened = app::hotkey_handled(s, HotkeyView::Captured(opening, req), now).0;
            let msgs = llm::messages(lines, None);
            let whole = text::trimmed(llm::answer(msgs));
            let shown = laws::received(opened, opened.generation, msgs);
            let (after, effects) = app::frame_ended(shown, keys, later);
            &&& shown.output == whole
            &&& shown.status == StatusView::Done
            &&& whole.len() > 0 && keys.enter ==> effects == seq![
                EffectView::Park,
                EffectView::Paste { hwnd: req.hwnd, text: whole },
            ]
            &&& whole.len() > 0 && !keys.enter && keys.shift && keys.c ==> effects == seq![
                EffectView::SetClipboard(whole),
                EffectView::Park,
            ] && after.toast == Some(("copiado"@, later))
            &&& whole.len() > 0 && (keys.enter || keys.shift && keys.c) ==> !after.visible
                && app::hidden(after, true).1 == seq![EffectView::Park]
        }),
{
    popup_takes_up_the_selection(s, opening, req, now);
    let opened = app::hotkey_handled(s, HotkeyView::Captured(opening, req), now).0;
    let msgs = llm::messages(lines, None);
    laws::popup_shows_the_answer(opened, lines, None);
    assert(opened.output + llm::answer(msgs) =~= llm::answer(msgs));
    text::trimmed_idempotent(llm::answer(msgs));
    let whole = text::trimmed(llm::answer(msgs));
    let shown = laws::received(opened, opened.generation, msgs);
    let (after, effects) = app::frame_ended(shown, keys, later);
    if whole.len() > 0 && keys.enter {
        assert(effects =~= seq![
            EffectView::Park,
            EffectView::Paste { hwnd: req.hwnd, text: whole },
        ]);
    } else if whole.len() > 0 && keys.shift && keys.c {
        assert(effects =~= seq![EffectView::SetClipboard(whole), EffectView::Park]);
    }
    if whole.len() > 0 && (keys.enter || keys.shift && keys.c) {
        assert(app::hidden(after, true).1 =~= seq![EffectView::Park]);
    }
}

/// Redoing starts over: whatever the popup showed before, it then shows the new answer alone. The
/// request asks for the same text, with the instruction and in the tone of the popup; nothing but
/// the result and the notice changes.
pub proof fn redoing_replaces_the_answer(
    s: AppView,
    old_output: Seq<char>,
    lines: Seq<Seq<char>>,
    failure: Option<Seq<char>>,
)
    requires
        !text::blank(s.original),
    ensures
        ({
            let (after, effects) = app::generating(s);
            let msgs = llm::messages(lines, failure);
            let end = laws::received(after, after.generation, msgs);
            &&& after == (AppView {
                output: Seq::empty(),
                status: StatusView::Loading,
                quick_note: None,
                generation: s.generation + 1,
                ..s
            })
            &&& effects == seq![
                EffectView::Improve(
                    ImproveView {
                        lane: Lane::Popup,
                        generation: after.generation,
                        cfg: s.cfg,
                        tone: config::tone_at(s.cfg.tones, s.tone_index),
                        input: s.original,
                        instruction: s.instruction,
                    },
                ),
            ]
            &&& msgs.last() == MsgView::Done ==> end.output == text::trimmed(llm::answer(msgs))
                && end.status == StatusView::Done
            &&& msgs.last() matches MsgView::Error(e) ==> end.output == llm::answer(msgs)
                && end.status == StatusView::Error(e)
            &&& app::generating(AppView { output: old_output, ..s }) == (after, effects)
        }),
{
    let (after, effects) = app::generating(s);
    let msgs = llm::messages(lines, failure);
    laws::popup_shows_the_answer(after, lines, failure);
    assert(after.output + llm::answer(msgs) =~= llm::answer(msgs));
}

/// Without a text there is nothing to redo: that is told, and all else stays.
pub proof fn nothing_to_redo_is_told(s: AppView)
    requires
        text::blank(s.original),
    ensures
        app::generating(s) == (
            AppView { status: StatusView::NoSelection, ..s },
            Seq::<EffectView>::empty(),
        ),
{
}

/// A piece of the answer is shown at once, behind what has come in so far, and nothing else changes.
pub proof fn pieces_show_as_they_come(s: AppView, piece: Seq<char>)
    ensures
        app::answered(s, s.generation, MsgView::Delta(piece)) == (AppView {
            output: s.output + piece,
            ..s
        }),
{
}

/// What the keys of the popup do: Ctrl+Enter wins over Ctrl+Shift+C, and that over Ctrl+R. Ctrl+R
/// redoes, and so does choosing a tone, in that tone. Without Ctrl, and in the settings, the keys do
/// nothing.
pub proof fn keys_of_the_popup(s: AppView, keys: Keys, index: nat, now: u64)
    ensures
        s.show_settings || !keys.command ==> app::frame_ended(s, keys, now) == (
            s,
            Seq::<EffectView>::empty(),
        ),
        !s.show_settings && keys.command && !keys.enter && !(keys.shift && keys.c) && keys.r
            ==> app::frame_ended(s, keys, now) == app::generating(s),
        !s.show_settings && keys.command && !keys.enter && !(keys.shift && keys.c) && !keys.r
            ==> app::frame_ended(s, keys, now) == (s, Seq::<EffectView>::empty()),
        app::tone_picked(s, index) == app::generating(
            AppView { tone_index: index, chosen_tone: index, ..s },
        ),
{
}

/// A result is pasted or copied without white space around it, and a blank one not at all.
pub proof fn only_a_result_is_pasted(s: AppView, keys: Keys, now: u64)
    requires
        !s.show_settings,
        keys.command,
    ensures
        text::blank(s.output) && keys.enter ==> app::frame_ended(s, keys, now) == (
            s,
            Seq::<EffectView>::empty(),
        ),
        text::blank(s.output) && !keys.enter && keys.shift && keys.c ==> app::frame_ended(
            s,
            keys,
            now,
        ) == (AppView { toast: Some(("copiado"@, now)), ..s }, Seq::<EffectView>::empty()),
        !text::blank(s.output) && keys.enter ==> app::frame_ended(s, keys, now) == (
            put_away(s),
            seq![
                EffectView::Park,
                EffectView::Paste { hwnd: s.target_hwnd, text: text::trimmed(s.output) },
            ],
        ),
        !text::blank(s.output) && !keys.enter && keys.shift && keys.c ==> app::frame_ended(
            s,
            keys,
            now,
        ) == (
            AppView { toast: Some(("copiado"@, now)), ..put_away(s) },
            seq![EffectView::SetClipboard(text::trimmed(s.output)), EffectView::Park],
        ),
{
    text::trimmed_empty_iff_blank(s.output);
    let content = text::trimmed(s.output);
    if content.len() > 0 {
        assert(app::replaced(s).1 =~= seq![
            EffectView::Park,
            EffectView::Paste { hwnd: s.target_hwnd, text: content },
        ]);
        assert(app::copied(s).1 =~= seq![EffectView::SetClipboard(content), EffectView::Park]);
    }
}

/// The state with the window put away: hidden, without settings or an error box, with nothing to put
/// back, and with no request under way. All else is as it was.
pub open spec fn put_away(s: AppView) -> AppView {
    AppView {
        visible: false,
        ui_ran: false,
        show_settings: false,
        hud_error_since: None,
        previous_clipboard: None,
        generation: s.generation + 1,
        ..s
    }
}

/// Hiding puts the window away and parks it. Whoever cancels gets the clipboard back first; whoever
/// does not keeps what is there.
pub proof fn hiding_puts_the_window_away(s: AppView, now: u64)
    ensures
        app::hidden(s, true) == (
            put_away(s),
            put_back(s.previous_clipboard) + seq![EffectView::Park],
        ),
        app::hidden(s, false) == (put_away(s), seq![EffectView::Park]),
        app::hotkey_handled(s, HotkeyView::Hide, now) == app::hidden(s, true),
{
    assert(app::hidden(s, true).1 =~= put_back(s.previous_clipboard) + seq![EffectView::Park]);
    assert(app::hidden(s, false).1 =~= seq![EffectView::Park]);
}

/// What happens between frames when nothing is due: the application only asks to be woken again.
/// What is due happens, and nothing else: the end of the process, the end of an error in the
/// progress box, which leaves the clipboard alone, and parking a window that should be hidden.
pub proof fn only_what_is_due_happens(s: AppView, now: u64)
    ensures
        ({
            let ending = s.quitting is Some && now - s.quitting->0 > 1_500_000_000;
            let gone = s.hud_error_since is Some && now - s.hud_error_since->0 > 5_000_000_000;
            let wake = EffectView::RepaintAfter(200);
            let stray = s.ui_ran && !s.visible;
            &&& ending ==> app::ticked(s, now) == (s, seq![EffectView::Exit])
            &&& !ending && gone ==> app::ticked(s, now) == (
                put_away(s),
                seq![EffectView::Park, wake],
            )
            &&& !ending && !gone && stray ==> app::ticked(s, now) == (
                AppView { ui_ran: false, ..s },
                seq![EffectView::Park, EffectView::Repaint, wake],
            )
            &&& !ending && !gone && !stray ==> app::ticked(s, now) == (s, seq![wake])
        }),
{
    let (after, effects) = app::ticked(s, now);
    let wake = EffectView::RepaintAfter(200);
    if !(s.quitting is Some && now - s.quitting->0 > 1_500_000_000) {
        if s.hud_error_since is Some && now - s.hud_error_since->0 > 5_000_000_000 {
            assert(effects =~= seq![EffectView::Park, wake]);
        } else if s.ui_ran && !s.visible {
            assert(effects =~= seq![EffectView::Park, EffectView::Repaint, wake]);
        } else {
            assert(effects =~= seq![wake]);
        }
    }
}

/// A frame of a window that is shown draws what the window is for, and changes nothing; a hidden one
/// draws nothing. The escape key and closing cancel; closing while the application ends does not.
pub proof fn frames_draw_what_is_shown(s: AppView, escape: bool)
    ensures
        ({
            let drawn = AppView { ui_ran: true, ..s };
            let none = Seq::<EffectView>::empty();
            &&& s.visible && s.mode == Mode::Popup ==> app::frame_begun(s, false, false) == (
                (drawn, none),
                Draw::Popup,
            )
            &&& s.visible && s.mode == Mode::Hud ==> app::frame_begun(s, false, false) == (
                (drawn, none),
                Draw::Hud,
            )
            &&& !s.visible ==> app::frame_begun(s, false, escape) == ((drawn, none), Draw::Nothing)
            &&& s.visible ==> app::frame_begun(s, false, true) == (
                (put_away(s), put_back(s.previous_clipboard) + seq![EffectView::Park]),
                Draw::Nothing,
            )
            &&& s.quitting is None ==> app::frame_begun(s, true, escape) == (
                (
                    put_away(s),
                    put_back(s.previous_clipboard) + seq![EffectView::Park, EffectView::CancelClose],
                ),
                Draw::Nothing,
            )
            &&& s.quitting is Some ==> app::frame_begun(s, true, escape) == (
                (drawn, none),
                Draw::Nothing,
            )
        }),
{
    let park = put_back(s.previous_clipboard) + seq![EffectView::Park];
    assert(app::hidden(AppView { ui_ran: true, ..s }, true).1 =~= park);
    assert(park.push(EffectView::CancelClose) =~= put_back(s.previous_clipboard) + seq![
        EffectView::Park,
        EffectView::CancelClose,
    ]);
}

/// The menu of the tray ends the application or opens the settings, in the middle of the screen, on
/// a copy of what is in force; another entry does nothing.
pub proof fn menu_of_the_tray(s: AppView, is_open: bool, now: u64)
    ensures
        app::menu_chosen(s, true, is_open, now) == (
            AppView { quitting: Some(now), ..s },
            seq![EffectView::Close, EffectView::Repaint],
        ),
        app::menu_chosen(s, false, true, now) == (
            AppView {
                draft: s.cfg,
                show_settings: true,
                mode: Mode::Popup,
                hud_error_since: None,
                visible: true,
                ui_ran: false,
                ..s
            },
            seq![EffectView::Show { mode: Mode::Popup, cursor: None, focus: true }],
        ),
        app::menu_chosen(s, false, true, now) == app::settings_opened(s),
        app::menu_chosen(s, false, false, now) == (s, Seq::<EffectView>::empty()),
{
}

/// The settings, from opening to leaving: they start from what is in force; left, they change
/// nothing; saved, the draft is in force; and closed from the popup, what is in force stays. A new
/// draft starts from what is in force again.
pub proof fn settings_are_edited_on_a_copy(s: AppView, draft: ConfigView)
    ensures
        !s.show_settings ==> app::settings_toggled(s) == (AppView {
            show_settings: true,
            draft: s.cfg,
            ..s
        }),
        s.show_settings ==> app::settings_toggled(s) == (AppView { show_settings: false, ..s }),
        app::settings_left(AppView { draft, ..s }) == (AppView {
            draft: s.cfg,
            show_settings: false,
            ..s
        }),
        app::settings_kept(AppView { draft, ..s }) == (AppView { draft, cfg: draft, ..s }),
        app::original_toggled(app::original_toggled(s)) == s,
        app::original_toggled(s) == (AppView { show_original: !s.show_original, ..s }),
{
}

/// Whoever saves is told that it worked, and that new shortcuts wait for a restart exactly where one
/// of the three changed; the tray shows the new shortcuts, and the settings close. Where it failed
/// the reason is told and the settings stay open.
pub proof fn saving_is_told(s: AppView, e: Seq<char>, changed: bool, now: u64)
    ensures
        app::hotkeys_differ(s) <==> !(s.draft.hotkey == s.cfg.hotkey && s.draft.quick_hotkey
            == s.cfg.quick_hotkey && s.draft.ticket_hotkey == s.cfg.ticket_hotkey),
        app::settings_written(s, None, true, now) == (
            AppView {
                toast: Some(("salvo — reinicie para os novos atalhos valerem"@, now)),
                show_settings: false,
                ..s
            },
            seq![tip(s.cfg, tray::note_line(s.quick_note))],
        ),
        app::settings_written(s, None, false, now) == (
            AppView { toast: Some(("salvo"@, now)), show_settings: false, ..s },
            seq![tip(s.cfg, tray::note_line(s.quick_note))],
        ),
        app::settings_written(s, Some(e), changed, now) == (
            AppView { status: StatusView::Error(e), ..s },
            Seq::<EffectView>::empty(),
        ),
{
}

/// The first state: nothing is shown, asked or noted; the settings are those loaded; and what went
/// wrong at the start is told.
pub proof fn first_state_is_empty(cfg: ConfigView, e: Seq<char>)
    ensures
        ({
            let s = app::initial(cfg, None);
            &&& s.cfg == cfg && s.draft == cfg
            &&& s.tone_index == 0 && s.chosen_tone == 0
            &&& s.original.len() == 0 && s.instruction.len() == 0 && s.output.len() == 0
            &&& s.status == StatusView::Idle
            &&& s.generation == 0 && s.quick_generation == 0
            &&& !s.visible && !s.ui_ran && s.quitting is None
            &&& s.target_hwnd == 0 && s.previous_clipboard is None
            &&& !s.show_settings && !s.show_original && s.toast is None
            &&& s.quick_note is None && !s.note_told && s.quick is None
            &&& s.mode == Mode::Popup && s.hud_message.len() == 0 && s.hud_error_since is None
            &&& app::initial(cfg, Some(e)) == (AppView { status: StatusView::Error(e), ..s })
        }),
{
}

/// What the popup tells of its state: while the answer comes in, that it does; of a complete answer
/// its number of words; and of a failure the reason, in place of the answer.
pub proof fn popup_tells_its_state(s: AppView, e: Seq<char>)
    ensures
        s.status == StatusView::Loading ==> app::footer_of(s) == FooterView::Generating
            && app::body_of(s) == (BodyView::Result { loading: true }),
        s.status == StatusView::Done ==> app::footer_of(s) == FooterView::Words(
            text::decimal(text::words(s.output)) + " palavras"@,
        ) && app::body_of(s) == (BodyView::Result { loading: false }),
        s.status == StatusView::Error(e) ==> app::footer_of(s) == FooterView::Error && app::body_of(
            s,
        ) == BodyView::Error(e),
        s.status == StatusView::NoSelection || s.status == StatusView::Idle ==> app::footer_of(s)
            == FooterView::Nothing,
        s.status == StatusView::NoSelection ==> app::body_of(s) == (if s.output.len() == 0 {
            BodyView::Hint
        } else {
            BodyView::Result { loading: false }
        }),
        s.status == StatusView::Idle ==> app::body_of(s) == (BodyView::Result { loading: false }),
        app::ready(s) <==> text::trimmed(s.output).len() > 0,
        app::original_shown(s) <==> s.show_original || text::trimmed(s.original).len() == 0,
{
    text::trimmed_empty_iff_blank(s.output);
    text::trimmed_empty_iff_blank(s.original);
}

/// Only an error of the quick shortcut is a notice, and it is told in its own words.
pub proof fn only_errors_are_notices(s: AppView, message: Seq<char>)
    ensures
        s.quick_note == Some((message, true)) ==> app::banner_of(s) == Some(
            icon::WARNING@ + "  atalho rápido: "@ + message,
        ),
        s.quick_note == Some((message, false)) ==> app::banner_of(s) is None,
        s.quick_note is None ==> app::banner_of(s) is None,
{
}

/// A toast is shown as long as its time lasts, and not a moment longer: two seconds below the
/// result, three below the settings.
pub proof fn toasts_last_their_time(s: AppView, message: Seq<char>, at: u64, now: u64)
    requires
        s.toast == Some((message, at)),
    ensures
        now - at < 2_000_000_000 ==> app::fresh_toast(s, now, app::TOAST_TIME) == Some(message),
        now - at >= 2_000_000_000 ==> app::fresh_toast(s, now, app::TOAST_TIME) is None,
        now - at < 3_000_000_000 ==> app::fresh_toast(s, now, app::SETTINGS_TOAST_TIME) == Some(
            message,
        ),
        now - at >= 3_000_000_000 ==> app::fresh_toast(s, now, app::SETTINGS_TOAST_TIME) is None,
{
}

/// A click on a tone asks for it, if it is not in use; without Alt a digit asks for nothing; and a
/// digit without a tone, or that of the tone in use, leaves it to the clicks.
pub proof fn clicks_ask_for_tones(s: AppView, clicks: Seq<bool>, digits: Seq<bool>, i: int, d: int)
    requires
        0 <= i < clicks.len(),
        clicks[i],
        i != s.tone_index,
        forall|j: int| i < j < clicks.len() ==> !(#[trigger] clicks[j]) || j == s.tone_index,
        0 <= d < digits.len(),
        digits[d],
        forall|j: int| 0 <= j < d ==> !(#[trigger] digits[j]),
    ensures
        app::tone_asked(s, clicks, false, digits) == Some(i as nat),
        d >= s.cfg.tones.len() || d == s.tone_index ==> app::tone_asked(s, clicks, true, digits)
            == Some(i as nat),
        d < s.cfg.tones.len() && d != s.tone_index ==> app::tone_asked(s, clicks, true, digits)
            == Some(d as nat),
{
    lemma_last_click_at(clicks, s.tone_index, i);
    lemma_first_digit_at(digits, d);
}

/// The last click that counts.
proof fn lemma_last_click_at(clicks: Seq<bool>, current: nat, i: int)
    requires
        0 <= i < clicks.len(),
        clicks[i],
        i != current,
        forall|j: int| i < j < clicks.len() ==> !(#[trigger] clicks[j]) || j == current,
    ensures
        app::last_click(clicks, current) == Some(i as nat),
    decreases clicks.len(),
{
    if i < clicks.len() - 1 {
        let head = clicks.drop_last();
        assert forall|j: int| i < j < head.len() implies !(#[trigger] head[j]) || j == current by {
            assert(head[j] == clicks[j]);
        }
        lemma_last_click_at(head, current, i);
        assert(!clicks[clicks.len() - 1] || clicks.len() - 1 == current);
    }
}

/// The first digit that was pressed.
proof fn lemma_first_digit_at(digits: Seq<bool>, d: int)
    requires
        0 <= d < digits.len(),
        digits[d],
        forall|j: int| 0 <= j < d ==> !(#[trigger] digits[j]),
    ensures
        app::first_digit(digits) == Some(d as nat),
    decreases digits.len(),
{
    let head = digits.drop_last();
    if d < digits.len() - 1 {
        assert forall|j: int| 0 <= j < d implies !(#[trigger] head[j]) by {
            assert(head[j] == digits[j]);
        }
        lemma_first_digit_at(head, d);
    } else {
        assert forall|j: int| 0 <= j < head.len() implies !(#[trigger] head[j]) by {
            assert(head[j] == digits[j]);
        }
        lemma_no_digit(head);
    }
}

/// Without a digit nothing is asked for by a digit, and without a click nothing by a click.
pub proof fn nothing_is_asked_for_by_itself(
    s: AppView,
    clicks: Seq<bool>,
    alt: bool,
    digits: Seq<bool>,
)
    requires
        forall|j: int| 0 <= j < clicks.len() ==> !(#[trigger] clicks[j]) || j == s.tone_index,
        !alt || forall|j: int| 0 <= j < digits.len() ==> !(#[trigger] digits[j]),
    ensures
        app::tone_asked(s, clicks, alt, digits) is None,
{
    lemma_no_click(clicks, s.tone_index);
    if alt {
        lemma_no_digit(digits);
    }
}

/// No digit was pressed.
proof fn lemma_no_digit(digits: Seq<bool>)
    requires
        forall|j: int| 0 <= j < digits.len() ==> !(#[trigger] digits[j]),
    ensures
        app::first_digit(digits) is None,
    decreases digits.len(),
{
    if digits.len() > 0 {
        let head = digits.drop_last();
        assert forall|j: int| 0 <= j < head.len() implies !(#[trigger] head[j]) by {
            assert(head[j] == digits[j]);
        }
        lemma_no_digit(head);
        assert(!digits[digits.len() - 1]);
    }
}

/// No click counts.
proof fn lemma_no_click(clicks: Seq<bool>, current: nat)
    requires
        forall|j: int| 0 <= j < clicks.len() ==> !(#[trigger] clicks[j]) || j == current,
    ensures
        app::last_click(clicks, current) is None,
    decreases clicks.len(),
{
    if clicks.len() > 0 {
        let head = clicks.drop_last();
        assert forall|j: int| 0 <= j < head.len() implies !(#[trigger] head[j]) || j == current by {
            assert(head[j] == clicks[j]);
        }
        lemma_no_click(head, current);
        assert(!clicks[clicks.len() - 1] || clicks.len() - 1 == current);
    }
}

/// An old toast is dropped, a fresh one stays, and nothing else of the state changes. What went wrong
/// with the shortcuts is told before what went wrong with the configuration, and neither is lost
/// where it is alone.
pub proof fn toasts_go_and_errors_stay(
    s: AppView,
    message: Seq<char>,
    at: u64,
    now: u64,
    a: Seq<char>,
    b: Option<Seq<char>>,
)
    requires
        s.toast == Some((message, at)),
    ensures
        now - at < 2_000_000_000 ==> app::toast_seen(s, now) == s,
        now - at >= 2_000_000_000 ==> app::toast_seen(s, now) == (AppView { toast: None, ..s }),
        app::toast_seen(AppView { toast: None, ..s }, now) == (AppView { toast: None, ..s }),
        app::start_error(b, Some(a)) == Some(a),
        app::start_error(b, None) == b,
        app::PASTE_MS == 120,
{
}

/// The models of what comes in and goes out hold every field.
pub proof fn models_of_requests(req: ShowRequest, job: QuickJob, ask: Improve, opening: Opening)
    ensures
        req@.hwnd == req.hwnd,
        req@.text == req.text@,
        req@.previous_clipboard == text::opt_string(req.previous_clipboard),
        req@.cursor == req.cursor,
        HotkeyMsg::Hide@ == HotkeyView::Hide,
        HotkeyMsg::Captured(opening, req)@ == HotkeyView::Captured(opening, req@),
        job@.hwnd == job.hwnd,
        job@.generation == job.generation,
        job@.buffer == job.buffer@,
        job@.previous_clipboard == text::opt_string(job.previous_clipboard),
        job@.cursor == job.cursor,
        app::job_view(Some(job)) == Some(job@),
        app::job_view(None) is None,
        ask@.lane == ask.lane,
        ask@.generation == ask.generation,
        ask@.cfg == ask.cfg@,
        ask@.tone == ask.tone@,
        ask@.input == ask.input@,
        ask@.instruction == ask.instruction@,
{
}

/// The models of effects hold all of them, in their order.
pub proof fn models_of_effects(
    s: String,
    mode: Mode,
    cursor: Option<(i32, i32)>,
    focus: bool,
    ask: Improve,
    hwnd: isize,
    ms: u64,
    effects: Seq<Effect>,
    i: int,
)
    ensures
        Effect::SetClipboard(s)@ == EffectView::SetClipboard(s@),
        Effect::Park@ == EffectView::Park,
        (Effect::Show { mode, cursor, focus })@ == (EffectView::Show { mode, cursor, focus }),
        Effect::Improve(ask)@ == EffectView::Improve(ask@),
        Effect::Tooltip(s)@ == EffectView::Tooltip(s@),
        (Effect::Paste { hwnd, text: s })@ == (EffectView::Paste { hwnd, text: s@ }),
        Effect::Close@ == EffectView::Close,
        Effect::CancelClose@ == EffectView::CancelClose,
        Effect::Repaint@ == EffectView::Repaint,
        Effect::RepaintAfter(ms)@ == EffectView::RepaintAfter(ms),
        Effect::Exit@ == EffectView::Exit,
        app::effect_views(effects).len() == effects.len(),
        0 <= i < effects.len() ==> app::effect_views(effects)[i] == effects[i]@,
{
}

/// The model of the state holds every field of it.
pub proof fn model_of_the_state(a: App, e: String, loading: bool)
    ensures
        a@.cfg == a.cfg@ && a@.draft == a.draft@,
        a@.tone_index == a.tone_index && a@.chosen_tone == a.chosen_tone,
        a@.original == a.original@ && a@.instruction == a.instruction@ && a@.output == a.output@,
        a@.status == a.status@,
        a@.generation == a.generation && a@.quick_generation == a.quick_generation,
        a@.visible == a.visible && a@.ui_ran == a.ui_ran && a@.quitting == a.quitting,
        a@.target_hwnd == a.target_hwnd,
        a@.previous_clipboard == text::opt_string(a.previous_clipboard),
        a@.show_settings == a.show_settings && a@.show_original == a.show_original,
        a.toast is None ==> a@.toast is None,
        a.toast matches Some((message, at)) ==> a@.toast == Some((message@, at)),
        a.quick_note is None ==> a@.quick_note is None,
        a.quick_note matches Some((message, is_error)) ==> a@.quick_note == Some(
            (message@, is_error),
        ),
        a@.note_told == a.note_told && a@.quick == app::job_view(a.quick),
        a@.mode == a.mode && a@.hud_message == a.hud_message@,
        a@.hud_error_since == a.hud_error_since,
        Status::Idle@ == StatusView::Idle && Status::NoSelection@ == StatusView::NoSelection,
        Status::Loading@ == StatusView::Loading && Status::Done@ == StatusView::Done,
        Status::Error(e)@ == StatusView::Error(e@),
        FooterLabel::Nothing@ == FooterView::Nothing && FooterLabel::Error@ == FooterView::Error,
        FooterLabel::Generating@ == FooterView::Generating,
        FooterLabel::Words(e)@ == FooterView::Words(e@),
        Body::Hint@ == BodyView::Hint && Body::Error(e)@ == BodyView::Error(e@),
        (Body::Result { loading })@ == (BodyView::Result { loading }),
{
}

} // verus!
