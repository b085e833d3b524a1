//! What holds of the application over more than one event.

use crate::app;
use crate::app::{
    AppView, BodyView, Draw, EffectView, HotkeyView, ImproveView, Keys, Lane, Outcome, QuickJobView,
    ShowRequestView, StatusView,
};
use crate::config;
use crate::config::ConfigView;
use crate::icon;
use crate::llm;
use crate::llm::MsgView;
use crate::shortcuts::Opening;
use crate::text;
use crate::tray;
use crate::window::Mode;
use vstd::prelude::*;

verus! {

/// The state after a row of messages for the popup.
pub open spec fn received(s: AppView, generation: nat, msgs: Seq<MsgView>) -> AppView
    decreases msgs.len(),
{
    if msgs.len() == 0 {
        s
    } else {
        received(app::answered(s, generation, msgs[0]), generation, msgs.drop_first())
    }
}

/// The outcome of a row of messages for the quick shortcut.
pub open spec fn quick_received(
    s: AppView,
    generation: nat,
    msgs: Seq<MsgView>,
    now: u64,
) -> Outcome
    decreases msgs.len(),
{
    if msgs.len() == 0 {
        (s, Seq::empty())
    } else {
        let (next, effects) = app::quick_answered(s, generation, msgs[0], now);
        let (end, more) = quick_received(next, generation, msgs.drop_first(), now);
        (end, effects + more)
    }
}

/// An answer to another request than the last one changes nothing.
pub proof fn stale_answers_are_dropped(s: AppView, generation: nat, msgs: Seq<MsgView>)
    requires
        generation != s.generation,
    ensures
        received(s, generation, msgs) == s,
    decreases msgs.len(),
{
    if msgs.len() > 0 {
        stale_answers_are_dropped(s, generation, msgs.drop_first());
    }
}

/// Once the window is hidden, no answer that was on its way changes anything.
pub proof fn hiding_voids_running_requests(
    s: AppView,
    restore: bool,
    generation: nat,
    msgs: Seq<MsgView>,
)
    requires
        generation <= s.generation,
    ensures
        received(app::hidden(s, restore).0, generation, msgs) == app::hidden(s, restore).0,
{
    stale_answers_are_dropped(app::hidden(s, restore).0, generation, msgs);
}

/// Once a new request started, no answer to an older one changes anything.
pub proof fn new_request_voids_older_ones(s: AppView, generation: nat, msgs: Seq<MsgView>)
    requires
        !text::blank(s.original),
        generation <= s.generation,
    ensures
        received(app::generating(s).0, generation, msgs) == app::generating(s).0,
{
    stale_answers_are_dropped(app::generating(s).0, generation, msgs);
}

/// Messages touch the output and the status of the popup, and nothing else.
pub proof fn answers_touch_output_and_status(s: AppView, generation: nat, msgs: Seq<MsgView>)
    ensures
        received(s, generation, msgs) == (AppView {
            output: received(s, generation, msgs).output,
            status: received(s, generation, msgs).status,
            ..s
        }),
    decreases msgs.len(),
{
    if msgs.len() > 0 {
        answers_touch_output_and_status(
            app::answered(s, generation, msgs[0]),
            generation,
            msgs.drop_first(),
        );
    }
}

/// The popup puts the pieces of an answer together. When the answer is complete it stands there
/// without white space around it; when the request failed, the error is told.
pub proof fn popup_shows_the_answer(s: AppView, lines: Seq<Seq<char>>, failure: Option<Seq<char>>)
    ensures
        ({
            let msgs = llm::messages(lines, failure);
            let whole = s.output + llm::answer(msgs);
            let end = received(s, s.generation, msgs);
            match msgs.last() {
                MsgView::Error(e) => end == (AppView {
                    output: whole,
                    status: StatusView::Error(e),
                    ..s
                }),
                _ => end == (AppView {
                    output: text::trimmed(whole),
                    status: StatusView::Done,
                    ..s
                }),
            }
        }),
{
    let msgs = llm::messages(lines, failure);
    llm::one_last_message(lines, failure);
    lemma_popup_collects(s, msgs);
}

/// Pieces and one last message.
proof fn lemma_popup_collects(s: AppView, msgs: Seq<MsgView>)
    requires
        msgs.len() > 0,
        msgs.last() !is Delta,
        forall|i: int| 0 <= i < msgs.len() - 1 ==> (#[trigger] msgs[i]) is Delta,
    ensures
        ({
            let whole = s.output + llm::answer(msgs);
            let end = received(s, s.generation, msgs);
            match msgs.last() {
                MsgView::Error(e) => end == (AppView {
                    output: whole,
                    status: StatusView::Error(e),
                    ..s
                }),
                _ => end == (AppView {
                    output: text::trimmed(whole),
                    status: StatusView::Done,
                    ..s
                }),
            }
        }),
    decreases msgs.len(),
{
    let rest = msgs.drop_first();
    let next = app::answered(s, s.generation, msgs[0]);
    reveal_with_fuel(llm::answer, 2);
    if msgs.len() == 1 {
        assert(rest.len() == 0);
        assert(s.output + llm::answer(msgs) =~= s.output);
        reveal_with_fuel(received, 2);
    } else {
        assert(msgs[0] is Delta);
        assert(rest.last() == msgs.last());
        assert forall|i: int| 0 <= i < rest.len() - 1 implies (#[trigger] rest[i]) is Delta by {
            assert(rest[i] == msgs[i + 1]);
        }
        lemma_popup_collects(next, rest);
        assert(next.output + llm::answer(rest) =~= s.output + llm::answer(msgs));
    }
}

/// The quick shortcut pastes the whole answer, without white space around it, into the window where
/// the text was selected. An empty answer and a failure paste nothing and restore the clipboard.
pub proof fn quick_pastes_the_answer(
    s: AppView,
    job: QuickJobView,
    lines: Seq<Seq<char>>,
    failure: Option<Seq<char>>,
    now: u64,
)
    requires
        s.quick == Some(job),
        job.buffer == Seq::<char>::empty(),
    ensures
        ({
            let msgs = llm::messages(lines, failure);
            let whole = text::trimmed(llm::answer(msgs));
            let (end, effects) = quick_received(s, job.generation, msgs, now);
            match msgs.last() {
                MsgView::Error(e) => {
                    let (failed, told) = app::quick_failed(
                        AppView { quick: None, ..s },
                        job.cursor,
                        e,
                        now,
                    );
                    end == failed && effects == app::restoring(job.previous_clipboard) + told
                },
                _ => if whole.len() == 0 {
                    let (failed, told) = app::quick_failed(
                        AppView { quick: None, ..s },
                        job.cursor,
                        "resposta vazia"@,
                        now,
                    );
                    end == failed && effects == app::restoring(job.previous_clipboard) + told
                } else {
                    &&& end.quick is None
                    &&& !end.visible
                    &&& effects.len() > 0
                    &&& effects[0] == EffectView::Park
                    &&& effects.last() == EffectView::Paste { hwnd: job.hwnd, text: whole }
                },
            }
        }),
{
    let msgs = llm::messages(lines, failure);
    llm::one_last_message(lines, failure);
    lemma_quick_collects(s, job, msgs, now);
    assert(job.buffer + llm::answer(msgs) =~= llm::answer(msgs));
}

/// The pieces of an answer for the quick shortcut add up: its last message finds them all, one after
/// the other, and nothing happened before it.
pub proof fn lemma_quick_collects(s: AppView, job: QuickJobView, msgs: Seq<MsgView>, now: u64)
    requires
        s.quick == Some(job),
        msgs.len() > 0,
        msgs.last() !is Delta,
        forall|i: int| 0 <= i < msgs.len() - 1 ==> (#[trigger] msgs[i]) is Delta,
    ensures
        ({
            let full = QuickJobView { buffer: job.buffer + llm::answer(msgs), ..job };
            quick_received(s, job.generation, msgs, now) == app::quick_answered(
                AppView { quick: Some(full), ..s },
                job.generation,
                msgs.last(),
                now,
            )
        }),
    decreases msgs.len(),
{
    let rest = msgs.drop_first();
    let (next, effects) = app::quick_answered(s, job.generation, msgs[0], now);
    let full = QuickJobView { buffer: job.buffer + llm::answer(msgs), ..job };
    reveal_with_fuel(llm::answer, 2);
    if msgs.len() == 1 {
        assert(rest.len() == 0);
        assert(job.buffer + llm::answer(msgs) =~= job.buffer);
        assert(full == job);
        assert(AppView { quick: Some(full), ..s } == s);
        reveal_with_fuel(quick_received, 2);
        assert(effects + Seq::<EffectView>::empty() =~= effects);
    } else {
        assert(msgs[0] is Delta);
        assert(rest.last() == msgs.last());
        assert forall|i: int| 0 <= i < rest.len() - 1 implies (#[trigger] rest[i]) is Delta by {
            assert(rest[i] == msgs[i + 1]);
        }
        let grown = next.quick->0;
        lemma_quick_collects(next, grown, rest, now);
        assert(grown.buffer + llm::answer(rest) =~= job.buffer + llm::answer(msgs));
        let more = quick_received(next, job.generation, rest, now).1;
        assert(Seq::<EffectView>::empty() + more =~= more);
        assert(AppView { quick: Some(full), ..next } == AppView { quick: Some(full), ..s });
    }
}

/// Whoever cancels gets back what the clipboard held before the capture, whatever part of the
/// answer has come in: with the escape key, with the button, with a shortcut or by closing the
/// window.
pub proof fn cancelling_restores_the_clipboard(
    s: AppView,
    req: ShowRequestView,
    tone: nat,
    generation: nat,
    msgs: Seq<MsgView>,
)
    requires
        s.quitting is None,
    ensures
        ({
            let open = received(app::opened(s, req, tone).0, generation, msgs);
            let undo = app::restoring(req.previous_clipboard).push(EffectView::Park);
            &&& app::hidden(open, true).1 == undo
            &&& !app::hidden(open, true).0.visible
            &&& app::frame_begun(open, false, true).0.1 == undo
            &&& !app::frame_begun(open, false, true).0.0.visible
            &&& app::frame_begun(open, true, false).0.1 == undo.push(EffectView::CancelClose)
            &&& !app::frame_begun(open, true, false).0.0.visible
        }),
{
    answers_touch_output_and_status(app::opened(s, req, tone).0, generation, msgs);
}

/// What is pasted from the popup goes to the window that was in focus when the shortcut fired.
pub proof fn popup_pastes_into_the_window_of_origin(
    s: AppView,
    req: ShowRequestView,
    tone: nat,
    generation: nat,
    msgs: Seq<MsgView>,
)
    ensures
        ({
            let open = received(app::opened(s, req, tone).0, generation, msgs);
            let content = text::trimmed(open.output);
            content.len() > 0 ==> app::replaced(open).1 == seq![
                EffectView::Park,
                EffectView::Paste { hwnd: req.hwnd, text: content },
            ]
        }),
{
    answers_touch_output_and_status(app::opened(s, req, tone).0, generation, msgs);
    let open = received(app::opened(s, req, tone).0, generation, msgs);
    let content = text::trimmed(open.output);
    if content.len() > 0 {
        assert(app::replaced(open).1 =~= seq![
            EffectView::Park,
            EffectView::Paste { hwnd: req.hwnd, text: content },
        ]);
    }
}

/// The effect leaves the focus where it is.
pub open spec fn leaves_focus(e: EffectView) -> bool {
    e matches EffectView::Show { mode, cursor, focus } ==> mode == Mode::Hud && !focus
}

/// The quick shortcut never takes the focus: all it shows is the progress box.
pub proof fn quick_never_takes_focus(
    s: AppView,
    req: ShowRequestView,
    generation: nat,
    msg: MsgView,
    now: u64,
)
    ensures
        forall|i: int|
            0 <= i < app::quick_started(s, req, now).1.len() ==> leaves_focus(
                #[trigger] app::quick_started(s, req, now).1[i],
            ),
        forall|i: int|
            0 <= i < app::quick_answered(s, generation, msg, now).1.len() ==> leaves_focus(
                #[trigger] app::quick_answered(s, generation, msg, now).1[i],
            ),
{
}

/// The quick shortcut does not touch what the popup shows: neither the texts nor the tones.
pub proof fn quick_leaves_the_popup_alone(
    s: AppView,
    req: ShowRequestView,
    generation: nat,
    msg: MsgView,
    now: u64,
)
    ensures
        same_texts(s, app::quick_started(s, req, now).0),
        same_texts(s, app::quick_answered(s, generation, msg, now).0),
{
}

/// The two states show the same texts and tones in the popup.
pub open spec fn same_texts(a: AppView, b: AppView) -> bool {
    &&& a.original == b.original
    &&& a.instruction == b.instruction
    &&& a.output == b.output
    &&& a.status == b.status
    &&& a.tone_index == b.tone_index
    &&& a.chosen_tone == b.chosen_tone
    &&& a.target_hwnd == b.target_hwnd
}

/// The ticket shortcut asks for the ticket tone of the configuration.
pub proof fn ticket_shortcut_uses_the_ticket_tone(s: AppView, req: ShowRequestView, now: u64)
    requires
        !text::blank(req.text),
        s.cfg == config::with_ticket_tone(s.cfg),
    ensures
        ({
            let effects = app::requested(s, Opening::Ticket, req, now).1;
            &&& effects.len() == 2
            &&& effects[0] == EffectView::Show {
                mode: Mode::Popup,
                cursor: Some(req.cursor),
                focus: true,
            }
            &&& effects[1] is Improve
            &&& config::is_ticket(effects[1]->Improve_0.tone.name)
            &&& effects[1]->Improve_0.input == req.text
        }),
{
    config::ensured_config_has_ticket_tone(s.cfg);
}

/// The ticket shortcut does not stick: the next popup of the normal shortcut comes in the tone
/// chosen by hand, and the next quick shortcut in the default one.
pub proof fn ticket_tone_does_not_stick(
    s: AppView,
    ticket: ShowRequestView,
    generation: nat,
    msgs: Seq<MsgView>,
    restore: bool,
    req: ShowRequestView,
    now: u64,
)
    requires
        !text::blank(req.text),
    ensures
        ({
            let after = app::hidden(
                received(app::requested(s, Opening::Ticket, ticket, now).0, generation, msgs),
                restore,
            ).0;
            let show = app::requested(after, Opening::Show, req, now).1.last();
            let quick = app::requested(after, Opening::Quick, req, now).1.last();
            &&& after.chosen_tone == s.chosen_tone
            &&& show is Improve
            &&& show->Improve_0.tone == config::tone_at(s.cfg.tones, s.chosen_tone)
            &&& quick is Improve
            &&& quick->Improve_0.tone == config::tone_at(s.cfg.tones, 0)
        }),
{
    answers_touch_output_and_status(
        app::requested(s, Opening::Ticket, ticket, now).0,
        generation,
        msgs,
    );
    text::trimmed_empty_iff_blank(req.text);
}

/// The quick shortcut always uses the default tone, the first of the list, and so does the popup
/// with no tone chosen by hand since the start.
pub proof fn first_tone_is_the_default(
    s: AppView,
    cfg: ConfigView,
    error: Option<Seq<char>>,
    req: ShowRequestView,
    now: u64,
)
    requires
        !text::blank(req.text),
    ensures
        ({
            let quick = app::requested(s, Opening::Quick, req, now).1.last();
            let show = app::requested(app::initial(cfg, error), Opening::Show, req, now).1.last();
            &&& quick is Improve
            &&& quick->Improve_0.tone == config::tone_at(s.cfg.tones, 0)
            &&& quick->Improve_0.input == text::trimmed(req.text)
            &&& quick->Improve_0.instruction == Seq::<char>::empty()
            &&& show is Improve
            &&& show->Improve_0.tone == config::tone_at(cfg.tones, 0)
        }),
{
    text::trimmed_empty_iff_blank(req.text);
}

/// The tone chosen by hand changes only by hand.
pub proof fn chosen_tone_changes_only_by_hand(
    s: AppView,
    opening: Opening,
    req: ShowRequestView,
    generation: nat,
    msg: MsgView,
    restore: bool,
    close: bool,
    escape: bool,
    keys: Keys,
    now: u64,
)
    ensures
        app::requested(s, opening, req, now).0.chosen_tone == s.chosen_tone,
        app::answered(s, generation, msg).chosen_tone == s.chosen_tone,
        app::quick_answered(s, generation, msg, now).0.chosen_tone == s.chosen_tone,
        app::hidden(s, restore).0.chosen_tone == s.chosen_tone,
        app::settings_opened(s).0.chosen_tone == s.chosen_tone,
        app::ticked(s, now).0.chosen_tone == s.chosen_tone,
        app::frame_begun(s, close, escape).0.0.chosen_tone == s.chosen_tone,
        app::frame_ended(s, keys, now).0.chosen_tone == s.chosen_tone,
{
}

/// The effect sends keys to another window or writes the clipboard.
pub open spec fn touches_other_windows(e: EffectView) -> bool {
    e is Paste || e is SetClipboard
}

/// Opening the popup replaces nothing: a ticket is read before it is sent.
pub proof fn popup_replaces_nothing_by_itself(
    s: AppView,
    req: ShowRequestView,
    opening: Opening,
    now: u64,
)
    requires
        opening != Opening::Quick,
    ensures
        forall|i: int|
            0 <= i < app::requested(s, opening, req, now).1.len() ==> !touches_other_windows(
                #[trigger] app::requested(s, opening, req, now).1[i],
            ),
{
}

/// An error of the quick shortcut is told in the progress box, in the tooltip of the tray and in a
/// notice of the popup, and the clipboard is as before.
pub proof fn quick_error_is_told(s: AppView, job: QuickJobView, e: Seq<char>, now: u64)
    requires
        s.quick == Some(job),
    ensures
        ({
            let (after, effects) = app::quick_answered(
                s,
                job.generation,
                MsgView::Error(e),
                now,
            );
            &&& after.quick is None
            &&& after.visible && after.mode == Mode::Hud && after.hud_message == e
            &&& after.hud_error_since == Some(now)
            &&& app::banner_of(after) is Some
            &&& effects == app::restoring(job.previous_clipboard) + seq![
                EffectView::Tooltip(tray::tooltip_text(s.cfg) + tray::note_line(Some((e, true)))),
                EffectView::Show { mode: Mode::Hud, cursor: Some(job.cursor), focus: false },
            ]
        }),
{
    let (after, effects) = app::quick_answered(s, job.generation, MsgView::Error(e), now);
    assert(effects =~= app::restoring(job.previous_clipboard) + seq![
        EffectView::Tooltip(tray::tooltip_text(s.cfg) + tray::note_line(Some((e, true)))),
        EffectView::Show { mode: Mode::Hud, cursor: Some(job.cursor), focus: false },
    ]);
}

/// Nothing selected: the quick shortcut says so, restores the clipboard and asks nobody.
pub proof fn quick_without_selection_asks_nobody(s: AppView, req: ShowRequestView, now: u64)
    requires
        text::blank(req.text),
    ensures
        ({
            let (after, effects) = app::quick_started(s, req, now);
            &&& after.quick == s.quick
            &&& after.hud_message == "nada selecionado"@
            &&& forall|i: int| 0 <= i < effects.len() ==> !((#[trigger] effects[i]) is Improve)
            &&& app::restoring(req.previous_clipboard).is_prefix_of(effects)
        }),
{
    text::trimmed_empty_iff_blank(req.text);
}

/// An error in the progress box vanishes by itself once its time is over, and not before.
pub proof fn error_box_vanishes_in_time(
    s: AppView,
    cursor: (i32, i32),
    message: Seq<char>,
    then: u64,
    now: u64,
)
    requires
        s.quitting is None,
        then <= now,
    ensures
        ({
            let failed = app::quick_failed(s, cursor, message, then).0;
            let (after, effects) = app::ticked(failed, now);
            &&& failed.visible
            &&& after.visible == (now - then <= app::HUD_ERROR_LINGER)
            &&& !after.visible ==> effects[0] == EffectView::Park
            &&& after.quick_note == failed.quick_note
        }),
{
}

/// An error of the quick shortcut becomes a notice when the popup is next opened, by a shortcut or
/// for the settings, also after the progress box vanished. Improving the text again drops it; so
/// does the opening after that one, where there is a text to improve.
pub proof fn quick_error_waits_for_the_popup(
    s: AppView,
    cursor: (i32, i32),
    message: Seq<char>,
    then: u64,
    now: u64,
    opening: Opening,
    req: ShowRequestView,
    generation: nat,
    msgs: Seq<MsgView>,
    restore: bool,
    next_opening: Opening,
    next_req: ShowRequestView,
    later: u64,
)
    requires
        opening != Opening::Quick,
        next_opening != Opening::Quick,
    ensures
        ({
            let failed = app::quick_failed(s, cursor, message, then).0;
            let waiting = app::ticked(failed, now).0;
            let notice = Some(icon::WARNING@ + "  atalho rápido: "@ + message);
            let opened = app::requested(waiting, opening, req, now).0;
            let closed = app::hidden(received(opened, generation, msgs), restore).0;
            let again = app::requested(closed, next_opening, next_req, later).0;
            &&& app::banner_of(opened) == notice
            &&& app::banner_of(app::settings_opened(waiting).0) == notice
            &&& !text::blank(req.text) ==> app::banner_of(app::generating(opened).0) is None
            &&& !text::blank(next_req.text) ==> app::banner_of(again) is None
        }),
{
    let waiting = app::ticked(app::quick_failed(s, cursor, message, then).0, now).0;
    answers_touch_output_and_status(
        app::requested(waiting, opening, req, now).0,
        generation,
        msgs,
    );
}

/// Closing the window only hides it: the process goes on unless it was told to end by the tray.
pub proof fn closing_only_hides(s: AppView, escape: bool)
    ensures
        s.quitting is None ==> {
            let ((after, effects), draw) = app::frame_begun(s, true, escape);
            &&& !after.visible
            &&& after.quitting is None
            &&& draw == Draw::Nothing
            &&& effects.last() == EffectView::CancelClose
        },
        s.quitting is Some ==> {
            let ((after, effects), draw) = app::frame_begun(s, true, escape);
            &&& draw == Draw::Nothing
            &&& effects.len() == 0
        },
{
}

/// The process is ended only after it was told to end and did not in time.
pub proof fn exit_only_after_quitting(s: AppView, now: u64)
    ensures
        app::ticked(s, now).1.contains(EffectView::Exit) <==> s.quitting is Some && now
            - s.quitting->0 > app::QUIT_GRACE,
{
    let effects = app::ticked(s, now).1;
    if app::overdue(s.quitting, now, app::QUIT_GRACE) {
        assert(effects[0] == EffectView::Exit);
    }
}

/// The window is hidden in no other way than parked outside of any monitor; and one that the system
/// shows although it is hidden is parked again at once.
pub proof fn hidden_window_is_parked(s: AppView, restore: bool, now: u64)
    ensures
        app::hidden(s, restore).1.last() == EffectView::Park,
        !app::overdue(s.quitting, now, app::QUIT_GRACE) && s.ui_ran && !s.visible
            ==> app::ticked(s, now).1.contains(EffectView::Park),
        !app::overdue(s.quitting, now, app::QUIT_GRACE) ==> !(app::ticked(s, now).0.ui_ran
            && !app::ticked(s, now).0.visible),
{
    let effects = app::ticked(s, now).1;
    if !app::overdue(s.quitting, now, app::QUIT_GRACE) && s.ui_ran && !s.visible {
        assert(effects[0] == EffectView::Park);
    }
}

/// The application starts hidden, and what it draws before a shortcut fired is nothing.
pub proof fn starts_hidden(cfg: ConfigView, error: Option<Seq<char>>, escape: bool, now: u64)
    ensures
        ({
            let s = app::initial(cfg, error);
            let ((drawn, effects), draw) = app::frame_begun(s, false, escape);
            &&& !s.visible
            &&& draw == Draw::Nothing
            &&& effects.len() == 0
            &&& app::ticked(drawn, now).1.contains(EffectView::Park)
        }),
{
    let s = app::initial(cfg, error);
    let drawn = app::frame_begun(s, false, escape).0.0;
    assert(app::ticked(drawn, now).1[0] == EffectView::Park);
}

/// The settings are edited on a copy: what is in force changes only when they are saved.
pub proof fn requests_use_the_settings_in_force(s: AppView, draft: ConfigView)
    ensures
        app::generating(AppView { draft, ..s }).1 == app::generating(s).1,
{
}

/// Saved settings count at once: the next request is made with them, in their tone.
pub proof fn saved_settings_count_at_once(s: AppView)
    requires
        !text::blank(s.original),
    ensures
        app::generating(app::settings_kept(s)).1 == seq![
            EffectView::Improve(
                ImproveView {
                    lane: Lane::Popup,
                    generation: s.generation + 1,
                    cfg: s.draft,
                    tone: config::tone_at(s.draft.tones, s.tone_index),
                    input: s.original,
                    instruction: s.instruction,
                },
            ),
        ],
{
}

/// The counters of generations never go back, and go on by one at most.
pub proof fn generations_never_go_back(
    s: AppView,
    opening: Opening,
    req: ShowRequestView,
    generation: nat,
    msg: MsgView,
    close: bool,
    escape: bool,
    keys: Keys,
    now: u64,
)
    ensures
        next_generation(s, app::requested(s, opening, req, now).0),
        next_generation(s, app::answered(s, generation, msg)),
        next_generation(s, app::quick_answered(s, generation, msg, now).0),
        next_generation(s, app::ticked(s, now).0),
        next_generation(s, app::frame_begun(s, close, escape).0.0),
        next_generation(s, app::frame_ended(s, keys, now).0),
{
}

/// The counters of generations of `b` are those of `a` or one more.
pub open spec fn next_generation(a: AppView, b: AppView) -> bool {
    &&& a.generation <= b.generation <= a.generation + 1
    &&& a.quick_generation <= b.quick_generation <= a.quick_generation + 1
}

/// What holds of every state: the job of the quick shortcut is that of the last request, and an
/// error is told only in a progress box that is shown.
pub open spec fn sound(s: AppView) -> bool {
    &&& s.quick matches Some(job) ==> job.generation == s.quick_generation
    &&& s.hud_error_since is Some ==> s.visible && s.mode == Mode::Hud
}

/// Every state is sound: the first one is, and every event keeps it so.
pub proof fn every_state_is_sound(
    cfg: ConfigView,
    error: Option<Seq<char>>,
    s: AppView,
    hotkey: HotkeyView,
    generation: nat,
    msg: MsgView,
    close: bool,
    escape: bool,
    keys: Keys,
    index: nat,
    failure: Option<Seq<char>>,
    changed: bool,
    now: u64,
)
    ensures
        sound(app::initial(cfg, error)),
        sound(s) ==> {
            &&& sound(app::hotkey_handled(s, hotkey, now).0)
            &&& sound(app::answered(s, generation, msg))
            &&& sound(app::quick_answered(s, generation, msg, now).0)
            &&& sound(app::ticked(s, now).0)
            &&& sound(app::frame_begun(s, close, escape).0.0)
            &&& sound(app::frame_ended(s, keys, now).0)
            &&& sound(app::tone_picked(s, index).0)
            &&& sound(app::settings_opened(s).0)
            &&& sound(app::settings_toggled(s))
            &&& sound(app::settings_kept(s))
            &&& sound(app::settings_written(s, failure, changed, now).0)
            &&& sound(app::quit_begun(s, now).0)
        },
{
}

/// A new job of the quick shortcut makes the answers to older ones void.
pub proof fn newer_quick_voids_older(
    s: AppView,
    req: ShowRequestView,
    generation: nat,
    msg: MsgView,
    now: u64,
    later: u64,
)
    requires
        !text::blank(req.text),
        generation <= s.quick_generation,
    ensures
        app::quick_answered(app::quick_started(s, req, now).0, generation, msg, later) == (
            app::quick_started(s, req, now).0,
            Seq::<EffectView>::empty(),
        ),
{
    text::trimmed_empty_iff_blank(req.text);
}

/// With nothing selected the popup opens all the same, asks nobody, and offers the field of the
/// original.
pub proof fn popup_opens_without_selection(s: AppView, req: ShowRequestView, tone: nat)
    requires
        text::blank(req.text),
    ensures
        ({
            let (after, effects) = app::opened(s, req, tone);
            &&& after.visible
            &&& after.mode == Mode::Popup
            &&& after.status == StatusView::NoSelection
            &&& app::body_of(after) == BodyView::Hint
            &&& effects == seq![
                EffectView::Show { mode: Mode::Popup, cursor: Some(req.cursor), focus: true },
            ]
        }),
{
    let effects = app::opened(s, req, tone).1;
    assert(effects =~= seq![
        EffectView::Show { mode: Mode::Popup, cursor: Some(req.cursor), focus: true },
    ]);
}

/// The digit is the first one that was pressed.
proof fn lemma_first_digit(digits: Seq<bool>)
    ensures
        match app::first_digit(digits) {
            Some(i) => i < digits.len() && digits[i as int] && forall|j: int|
                0 <= j < i ==> !(#[trigger] digits[j]),
            None => forall|j: int| 0 <= j < digits.len() ==> !(#[trigger] digits[j]),
        },
    decreases digits.len(),
{
    if digits.len() > 0 {
        let before = digits.drop_last();
        lemma_first_digit(before);
        assert forall|j: int| 0 <= j < before.len() implies before[j] == #[trigger] digits[j] by {}
    }
}

/// Alt and a digit ask for the tone of that number, if there is one and it is not in use; asked
/// for, it is chosen by hand, and the text is improved again in it.
pub proof fn alt_digit_changes_the_tone(s: AppView, clicks: Seq<bool>, digits: Seq<bool>, d: int)
    requires
        0 <= d < digits.len(),
        digits[d],
        forall|j: int| 0 <= j < d ==> !(#[trigger] digits[j]),
        d < s.cfg.tones.len(),
        d != s.tone_index,
    ensures
        app::tone_asked(s, clicks, true, digits) == Some(d as nat),
        app::tone_picked(s, d as nat).0.tone_index == d,
        app::tone_picked(s, d as nat).0.chosen_tone == d,
        !text::blank(s.original) ==> app::tone_picked(s, d as nat).1 == seq![
            EffectView::Improve(
                ImproveView {
                    lane: Lane::Popup,
                    generation: s.generation + 1,
                    cfg: s.cfg,
                    tone: s.cfg.tones[d],
                    input: s.original,
                    instruction: s.instruction,
                },
            ),
        ],
{
    lemma_first_digit(digits);
}

/// The tone in use is never asked for again.
pub proof fn tone_in_use_is_not_asked_for(
    s: AppView,
    clicks: Seq<bool>,
    alt: bool,
    digits: Seq<bool>,
)
    ensures
        app::tone_asked(s, clicks, alt, digits) != Some(s.tone_index),
{
    lemma_last_click(clicks, s.tone_index);
}

/// A click on the tone in use does not count.
proof fn lemma_last_click(clicks: Seq<bool>, current: nat)
    ensures
        app::last_click(clicks, current) != Some(current),
        app::last_click(clicks, current) matches Some(i) ==> i < clicks.len() && clicks[i as int],
    decreases clicks.len(),
{
    if clicks.len() > 0 {
        lemma_last_click(clicks.drop_last(), current);
    }
}

} // verus!
