//! The state of the application and how every event changes it.
//!
//! Each event gives the effects that are to be carried out, in their order. Times are counted in
//! nanoseconds from any fixed moment.

use crate::config;
use crate::config::{Config, ConfigView, Tone, ToneView};
use crate::icon;
use crate::llm::{Msg, MsgView};
use crate::shortcuts::Opening;
use crate::text;
use crate::text::{count_words, equals, is_blank, to_decimal, trim};
use crate::tray;
use crate::tray::tooltip_with_note;
use crate::window::Mode;
use vstd::prelude::*;

verus! {

/// How long the progress box stays after an error: nobody closes it.
pub const HUD_ERROR_LINGER: u64 = 5_000_000_000;

/// How long the application may take to end by itself.
pub const QUIT_GRACE: u64 = 1_500_000_000;

/// How long a toast is shown below the result.
pub const TOAST_TIME: u64 = 2_000_000_000;

/// How long a toast is shown below the settings.
pub const SETTINGS_TOAST_TIME: u64 = 3_000_000_000;

/// A hidden window still wakes up this often, in milliseconds, for the events of the tray.
pub const WAKE_MS: u64 = 200;

/// The wait between hiding the window and pasting, in milliseconds.
pub const PASTE_MS: u64 = 120;

/// How far the generation in the popup has come.
#[derive(Debug)]
pub enum Status {
    Idle,
    NoSelection,
    Loading,
    Done,
    Error(String),
}

/// The model of a [`Status`].
pub enum StatusView {
    Idle,
    NoSelection,
    Loading,
    Done,
    Error(Seq<char>),
}

impl View for Status {
    type V = StatusView;

    open spec fn view(&self) -> StatusView {
        match self {
            Status::Idle => StatusView::Idle,
            Status::NoSelection => StatusView::NoSelection,
            Status::Loading => StatusView::Loading,
            Status::Done => StatusView::Done,
            Status::Error(e) => StatusView::Error(e@),
        }
    }
}

/// What a shortcut captured.
#[derive(Debug)]
pub struct ShowRequest {
    /// The window that was in focus.
    pub hwnd: isize,
    pub text: String,
    pub previous_clipboard: Option<String>,
    pub cursor: (i32, i32),
}

/// The model of a [`ShowRequest`].
pub struct ShowRequestView {
    pub hwnd: isize,
    pub text: Seq<char>,
    pub previous_clipboard: Option<Seq<char>>,
    pub cursor: (i32, i32),
}

impl View for ShowRequest {
    type V = ShowRequestView;

    open spec fn view(&self) -> ShowRequestView {
        ShowRequestView {
            hwnd: self.hwnd,
            text: self.text@,
            previous_clipboard: text::opt_string(self.previous_clipboard),
            cursor: self.cursor,
        }
    }
}

/// What the listener for shortcuts tells.
#[derive(Debug)]
pub enum HotkeyMsg {
    /// A shortcut that opens the popup fired while the window was shown.
    Hide,
    /// A shortcut fired and the selection was captured.
    Captured(Opening, ShowRequest),
}

/// The model of a [`HotkeyMsg`].
pub enum HotkeyView {
    Hide,
    Captured(Opening, ShowRequestView),
}

impl View for HotkeyMsg {
    type V = HotkeyView;

    open spec fn view(&self) -> HotkeyView {
        match self {
            HotkeyMsg::Hide => HotkeyView::Hide,
            HotkeyMsg::Captured(opening, req) => HotkeyView::Captured(*opening, req@),
        }
    }
}

/// The work of the quick shortcut. It does not touch what the popup shows.
#[derive(Debug)]
pub struct QuickJob {
    pub hwnd: isize,
    pub generation: u64,
    pub buffer: String,
    pub previous_clipboard: Option<String>,
    /// Where the progress box appeared, so that a late error appears there too.
    pub cursor: (i32, i32),
}

/// The model of a [`QuickJob`].
pub struct QuickJobView {
    pub hwnd: isize,
    pub generation: nat,
    pub buffer: Seq<char>,
    pub previous_clipboard: Option<Seq<char>>,
    pub cursor: (i32, i32),
}

impl View for QuickJob {
    type V = QuickJobView;

    open spec fn view(&self) -> QuickJobView {
        QuickJobView {
            hwnd: self.hwnd,
            generation: self.generation as nat,
            buffer: self.buffer@,
            previous_clipboard: text::opt_string(self.previous_clipboard),
            cursor: self.cursor,
        }
    }
}

/// The model of a job that may be missing.
pub open spec fn job_view(job: Option<QuickJob>) -> Option<QuickJobView> {
    match job {
        Some(j) => Some(j@),
        None => None,
    }
}

/// Who waits for the answer to a request.
#[derive(Debug, Clone, Copy, PartialEq, Eq, Structural)]
pub enum Lane {
    Popup,
    Quick,
}

/// A text to improve.
#[derive(Debug)]
pub struct Improve {
    pub lane: Lane,
    pub generation: u64,
    pub cfg: Config,
    pub tone: Tone,
    pub input: String,
    pub instruction: String,
}

/// The model of an [`Improve`].
pub struct ImproveView {
    pub lane: Lane,
    pub generation: nat,
    pub cfg: ConfigView,
    pub tone: ToneView,
    pub input: Seq<char>,
    pub instruction: Seq<char>,
}

/// What is to be done outside.
#[derive(Debug)]
pub enum Effect {
    SetClipboard(String),
    /// Hide the window and move it outside of any monitor.
    Park,
    /// Show the window, beside the cursor or in the middle of the screen.
    Show { mode: Mode, cursor: Option<(i32, i32)>, focus: bool },
    /// Ask the service, on a thread of its own.
    Improve(Improve),
    /// Set the tooltip of the tray, where there is a tray.
    Tooltip(String),
    /// After [`PASTE_MS`], paste a text into a window.
    Paste { hwnd: isize, text: String },
    /// Close the window.
    Close,
    /// Do not close the window.
    CancelClose,
    /// Draw again now.
    Repaint,
    /// Draw again after so many milliseconds.
    RepaintAfter(u64),
    /// End the process.
    Exit,
}

/// The model of an [`Effect`].
pub enum EffectView {
    SetClipboard(Seq<char>),
    Park,
    Show { mode: Mode, cursor: Option<(i32, i32)>, focus: bool },
    Improve(ImproveView),
    Tooltip(Seq<char>),
    Paste { hwnd: isize, text: Seq<char> },
    Close,
    CancelClose,
    Repaint,
    RepaintAfter(u64),
    Exit,
}

impl View for Improve {
    type V = ImproveView;

    open spec fn view(&self) -> ImproveView {
        ImproveView {
            lane: self.lane,
            generation: self.generation as nat,
            cfg: self.cfg@,
            tone: self.tone@,
            input: self.input@,
            instruction: self.instruction@,
        }
    }
}

impl View for Effect {
    type V = EffectView;

    open spec fn view(&self) -> EffectView {
        match self {
            Effect::SetClipboard(s) => EffectView::SetClipboard(s@),
            Effect::Park => EffectView::Park,
            Effect::Show { mode, cursor, focus } => EffectView::Show {
                mode: *mode,
                cursor: *cursor,
                focus: *focus,
            },
            Effect::Improve(job) => EffectView::Improve(job@),
            Effect::Tooltip(s) => EffectView::Tooltip(s@),
            Effect::Paste { hwnd, text } => EffectView::Paste { hwnd: *hwnd, text: text@ },
            Effect::Close => EffectView::Close,
            Effect::CancelClose => EffectView::CancelClose,
            Effect::Repaint => EffectView::Repaint,
            Effect::RepaintAfter(ms) => EffectView::RepaintAfter(*ms),
            Effect::Exit => EffectView::Exit,
        }
    }
}

/// The models of the effects of a list.
pub open spec fn effect_views(effects: Seq<Effect>) -> Seq<EffectView> {
    effects.map_values(|e: Effect| e@)
}

/// The state of the application.
#[derive(Debug)]
pub struct App {
    pub cfg: Config,
    /// The copy that is edited while the settings are open.
    pub draft: Config,
    /// The tone of the current generation.
    pub tone_index: usize,
    /// The tone last chosen by hand. The ticket shortcut forces its tone without touching this, or
    /// the next popup would come with the ticket tone.
    pub chosen_tone: usize,
    pub original: String,
    pub instruction: String,
    pub output: String,
    pub status: Status,
    pub generation: u64,
    pub quick_generation: u64,
    pub visible: bool,
    /// The window was drawn, so the system shows it.
    pub ui_ran: bool,
    pub quitting: Option<u64>,
    pub target_hwnd: isize,
    pub previous_clipboard: Option<String>,
    pub show_settings: bool,
    pub show_original: bool,
    pub toast: Option<(String, u64)>,
    /// The last result of the quick shortcut, and whether it is an error. An error is told when the
    /// popup is next opened.
    pub quick_note: Option<(String, bool)>,
    /// A shortcut opened the popup since the note came up, so the popup has told it.
    pub note_told: bool,
    pub quick: Option<QuickJob>,
    pub mode: Mode,
    pub hud_message: String,
    /// When the error appeared in the progress box.
    pub hud_error_since: Option<u64>,
}

/// The model of an [`App`].
#[verifier::ext_equal]
pub struct AppView {
    pub cfg: ConfigView,
    pub draft: ConfigView,
    pub tone_index: nat,
    pub chosen_tone: nat,
    pub original: Seq<char>,
    pub instruction: Seq<char>,
    pub output: Seq<char>,
    pub status: StatusView,
    pub generation: nat,
    pub quick_generation: nat,
    pub visible: bool,
    pub ui_ran: bool,
    pub quitting: Option<u64>,
    pub target_hwnd: isize,
    pub previous_clipboard: Option<Seq<char>>,
    pub show_settings: bool,
    pub show_original: bool,
    pub toast: Option<(Seq<char>, u64)>,
    pub quick_note: Option<(Seq<char>, bool)>,
    pub note_told: bool,
    pub quick: Option<QuickJobView>,
    pub mode: Mode,
    pub hud_message: Seq<char>,
    pub hud_error_since: Option<u64>,
}

/// The model of a toast: its message, and when it appeared.
pub open spec fn toast_view(toast: Option<(String, u64)>) -> Option<(Seq<char>, u64)> {
    match toast {
        Some((message, at)) => Some((message@, at)),
        None => None,
    }
}

impl View for App {
    type V = AppView;

    open spec fn view(&self) -> AppView {
        AppView {
            cfg: self.cfg@,
            draft: self.draft@,
            tone_index: self.tone_index as nat,
            chosen_tone: self.chosen_tone as nat,
            original: self.original@,
            instruction: self.instruction@,
            output: self.output@,
            status: self.status@,
            generation: self.generation as nat,
            quick_generation: self.quick_generation as nat,
            visible: self.visible,
            ui_ran: self.ui_ran,
            quitting: self.quitting,
            target_hwnd: self.target_hwnd,
            previous_clipboard: text::opt_string(self.previous_clipboard),
            show_settings: self.show_settings,
            show_original: self.show_original,
            toast: toast_view(self.toast),
            quick_note: tray::note_view(self.quick_note),
            note_told: self.note_told,
            quick: job_view(self.quick),
            mode: self.mode,
            hud_message: self.hud_message@,
            hud_error_since: self.hud_error_since,
        }
    }
}

/// A state and the effects that led to it.
pub type Outcome = (AppView, Seq<EffectView>);

/// What a start tells: an error of the registration wins over one of the configuration.
pub open spec fn start_error(
    cfg_error: Option<Seq<char>>,
    registration_error: Option<Seq<char>>,
) -> Option<Seq<char>> {
    match registration_error {
        Some(e) => Some(e),
        None => cfg_error,
    }
}

/// The state of a start: hidden and idle, or with what went wrong.
pub open spec fn initial(cfg: ConfigView, error: Option<Seq<char>>) -> AppView {
    AppView {
        cfg,
        draft: cfg,
        tone_index: 0,
        chosen_tone: 0,
        original: Seq::empty(),
        instruction: Seq::empty(),
        output: Seq::empty(),
        status: match error {
            Some(e) => StatusView::Error(e),
            None => StatusView::Idle,
        },
        generation: 0,
        quick_generation: 0,
        visible: false,
        ui_ran: false,
        quitting: None,
        target_hwnd: 0,
        previous_clipboard: None,
        show_settings: false,
        show_original: false,
        toast: None,
        quick_note: None,
        note_told: false,
        quick: None,
        mode: Mode::Popup,
        hud_message: Seq::empty(),
        hud_error_since: None,
    }
}

/// Shows the window. The progress box must not take the focus: the window of origin has to stay
/// the active one until the text is pasted.
pub open spec fn shown(s: AppView, mode: Mode, cursor: Option<(i32, i32)>, focus: bool) -> Outcome {
    (
        AppView { mode, hud_error_since: None, visible: true, ui_ran: false, ..s },
        seq![EffectView::Show { mode, cursor, focus }],
    )
}

/// Puts a text back into the clipboard, where there was one.
pub open spec fn restoring(previous: Option<Seq<char>>) -> Seq<EffectView> {
    match previous {
        Some(content) => seq![EffectView::SetClipboard(content)],
        None => Seq::empty(),
    }
}

/// Hides the window. A new generation makes the running stream of the popup void.
pub open spec fn hidden(s: AppView, restore: bool) -> Outcome {
    (
        AppView {
            previous_clipboard: None,
            generation: s.generation + 1,
            show_settings: false,
            hud_error_since: None,
            visible: false,
            ui_ran: false,
            ..s
        },
        (if restore {
            restoring(s.previous_clipboard)
        } else {
            Seq::empty()
        }).push(EffectView::Park),
    )
}

/// Starts to improve the original, unless there is none. The notice of the quick shortcut goes.
pub open spec fn generating(s: AppView) -> Outcome {
    if text::blank(s.original) {
        (AppView { status: StatusView::NoSelection, ..s }, Seq::empty())
    } else {
        (
            AppView {
                generation: s.generation + 1,
                output: Seq::empty(),
                quick_note: None,
                status: StatusView::Loading,
                ..s
            },
            seq![
                EffectView::Improve(
                    ImproveView {
                        lane: Lane::Popup,
                        generation: s.generation + 1,
                        cfg: s.cfg,
                        tone: config::tone_at(s.cfg.tones, s.tone_index),
                        input: s.original,
                        instruction: s.instruction,
                    },
                ),
            ],
        )
    }
}

/// The popup holds what was captured, in the tone asked for.
pub open spec fn holding(s: AppView, req: ShowRequestView, tone: nat) -> AppView {
    AppView {
        target_hwnd: req.hwnd,
        previous_clipboard: req.previous_clipboard,
        original: req.text,
        instruction: Seq::empty(),
        output: Seq::empty(),
        show_settings: false,
        show_original: false,
        tone_index: tone,
        ..s
    }
}

/// Opens the popup with what was captured and starts to improve it. The last result of the quick
/// shortcut stays, for the popup to tell it, unless an earlier popup told it already.
pub open spec fn opened(s: AppView, req: ShowRequestView, tone: nat) -> Outcome {
    let (on_screen, show) = shown(holding(s, req, tone), Mode::Popup, Some(req.cursor), true);
    let (started, ask) = generating(on_screen);
    (
        AppView {
            quick_note: if s.note_told {
                started.quick_note
            } else {
                s.quick_note
            },
            note_told: true,
            ..started
        },
        show + ask,
    )
}

/// The tooltip of the tray in a state.
pub open spec fn tooltip(s: AppView) -> EffectView {
    EffectView::Tooltip(tray::tooltip_text(s.cfg) + tray::note_line(s.quick_note))
}

/// Notes a result of the quick shortcut.
pub open spec fn noted(s: AppView, message: Seq<char>, is_error: bool) -> Outcome {
    let after = AppView { quick_note: Some((message, is_error)), note_told: false, ..s };
    (after, seq![tooltip(after)])
}

/// An error of the quick shortcut: the progress box tells it and vanishes by itself.
pub open spec fn quick_failed(
    s: AppView,
    cursor: (i32, i32),
    message: Seq<char>,
    now: u64,
) -> Outcome {
    let (with_note, tip) = noted(s, message, true);
    let (on_screen, show) = shown(
        AppView { hud_message: message, ..with_note },
        Mode::Hud,
        Some(cursor),
        false,
    );
    (AppView { hud_error_since: Some(now), ..on_screen }, tip + show)
}

/// The quick shortcut improves what was captured in the default tone, the first of the list,
/// whatever tone the popup has, and shows nothing but the progress box.
pub open spec fn quick_started(s: AppView, req: ShowRequestView, now: u64) -> Outcome {
    let input = text::trimmed(req.text);
    if input.len() == 0 {
        let (failed, told) = quick_failed(s, req.cursor, "nada selecionado"@, now);
        (failed, restoring(req.previous_clipboard) + told)
    } else {
        let tone = config::tone_at(s.cfg.tones, 0);
        let working = AppView {
            quick_generation: s.quick_generation + 1,
            quick: Some(
                QuickJobView {
                    hwnd: req.hwnd,
                    generation: s.quick_generation + 1,
                    buffer: Seq::empty(),
                    previous_clipboard: req.previous_clipboard,
                    cursor: req.cursor,
                },
            ),
            hud_message: "melhorando · "@ + tone.name,
            ..s
        };
        let (with_note, tip) = noted(working, "melhorando..."@, false);
        let (on_screen, show) = shown(with_note, Mode::Hud, Some(req.cursor), false);
        (
            on_screen,
            tip + show + seq![
                EffectView::Improve(
                    ImproveView {
                        lane: Lane::Quick,
                        generation: s.quick_generation + 1,
                        cfg: s.cfg,
                        tone,
                        input,
                        instruction: Seq::empty(),
                    },
                ),
            ],
        )
    }
}

/// What a shortcut that captured something does.
pub open spec fn requested(s: AppView, opening: Opening, req: ShowRequestView, now: u64) -> Outcome {
    match opening {
        Opening::Quick => quick_started(s, req, now),
        Opening::Show => opened(s, req, s.chosen_tone),
        Opening::Ticket => opened(s, req, config::ticket_index(s.cfg.tones)),
    }
}

/// What a message of the listener for shortcuts does.
pub open spec fn hotkey_handled(s: AppView, msg: HotkeyView, now: u64) -> Outcome {
    match msg {
        HotkeyView::Hide => hidden(s, true),
        HotkeyView::Captured(opening, req) => requested(s, opening, req, now),
    }
}

/// A message for the popup. One of another generation is dropped.
pub open spec fn answered(s: AppView, generation: nat, msg: MsgView) -> AppView {
    if generation != s.generation {
        s
    } else {
        match msg {
            MsgView::Delta(d) => AppView { output: s.output + d, ..s },
            MsgView::Done => AppView {
                output: text::trimmed(s.output),
                status: StatusView::Done,
                ..s
            },
            MsgView::Error(e) => AppView { status: StatusView::Error(e), ..s },
        }
    }
}

/// The end of the work of the quick shortcut: the answer is pasted where the text was selected.
pub open spec fn quick_finished(s: AppView, job: QuickJobView, now: u64) -> Outcome {
    let idle = AppView { quick: None, ..s };
    let content = text::trimmed(job.buffer);
    if content.len() == 0 {
        let (failed, told) = quick_failed(idle, job.cursor, "resposta vazia"@, now);
        (failed, restoring(job.previous_clipboard) + told)
    } else {
        let (gone, park) = hidden(idle, false);
        let (with_note, tip) = noted(gone, "colado"@, false);
        (with_note, park + tip + seq![EffectView::Paste { hwnd: job.hwnd, text: content }])
    }
}

/// A message for the quick shortcut. One of another generation is dropped.
pub open spec fn quick_answered(s: AppView, generation: nat, msg: MsgView, now: u64) -> Outcome {
    match s.quick {
        Some(job) if job.generation == generation => match msg {
            MsgView::Delta(d) => (
                AppView { quick: Some(QuickJobView { buffer: job.buffer + d, ..job }), ..s },
                Seq::empty(),
            ),
            MsgView::Done => quick_finished(s, job, now),
            MsgView::Error(e) => {
                let (failed, told) = quick_failed(
                    AppView { quick: None, ..s },
                    job.cursor,
                    e,
                    now,
                );
                (failed, restoring(job.previous_clipboard) + told)
            },
        },
        _ => (s, Seq::empty()),
    }
}

/// Opens the settings, in the middle of the screen.
pub open spec fn settings_opened(s: AppView) -> Outcome {
    shown(AppView { draft: s.cfg, show_settings: true, ..s }, Mode::Popup, None, true)
}

/// Starts to end the application.
pub open spec fn quit_begun(s: AppView, now: u64) -> Outcome {
    (AppView { quitting: Some(now), ..s }, seq![EffectView::Close, EffectView::Repaint])
}

/// An entry of the tray's menu was chosen.
pub open spec fn menu_chosen(s: AppView, is_quit: bool, is_open: bool, now: u64) -> Outcome {
    if is_quit {
        quit_begun(s, now)
    } else if is_open {
        settings_opened(s)
    } else {
        (s, Seq::empty())
    }
}

/// Pastes the result into the window of origin; it stays in the clipboard on purpose.
pub open spec fn replaced(s: AppView) -> Outcome {
    let content = text::trimmed(s.output);
    if content.len() == 0 {
        (s, Seq::empty())
    } else {
        let (gone, park) = hidden(s, false);
        (gone, park + seq![EffectView::Paste { hwnd: s.target_hwnd, text: content }])
    }
}

/// Copies the result and closes.
pub open spec fn copied(s: AppView) -> Outcome {
    let content = text::trimmed(s.output);
    if content.len() == 0 {
        (s, Seq::empty())
    } else {
        let (gone, park) = hidden(s, false);
        (gone, seq![EffectView::SetClipboard(content)] + park)
    }
}

/// Copies the result, closes, and says so.
pub open spec fn copied_and_told(s: AppView, now: u64) -> Outcome {
    let (after, effects) = copied(s);
    (AppView { toast: Some(("copiado"@, now)), ..after }, effects)
}

/// More time than `limit` has passed since `since`.
pub open spec fn overdue(since: Option<u64>, now: u64, limit: u64) -> bool {
    since matches Some(t) && now - t > limit
}

/// What happens between frames, with the window hidden too. The process ends if it does not end by
/// itself in time; an error in the progress box vanishes; and a window that the system shows
/// although it is hidden is parked again.
pub open spec fn ticked(s: AppView, now: u64) -> Outcome {
    if overdue(s.quitting, now, QUIT_GRACE) {
        (s, seq![EffectView::Exit])
    } else {
        let (kept, cleared) = if overdue(s.hud_error_since, now, HUD_ERROR_LINGER) {
            hidden(s, false)
        } else {
            (s, Seq::empty())
        };
        let (settled, parked) = if kept.ui_ran && !kept.visible {
            (AppView { ui_ran: false, ..kept }, seq![EffectView::Park, EffectView::Repaint])
        } else {
            (kept, Seq::empty())
        };
        (settled, cleared + parked + seq![EffectView::RepaintAfter(WAKE_MS)])
    }
}

/// What a frame draws.
#[derive(Debug, Clone, Copy, PartialEq, Eq, Structural)]
pub enum Draw {
    Nothing,
    Hud,
    Popup,
}

/// The start of a frame: what it draws. Closing the window only hides it, unless the application
/// is ending; so does the escape key.
pub open spec fn frame_begun(s: AppView, close_requested: bool, escape: bool) -> (Outcome, Draw) {
    let drawn = AppView { ui_ran: true, ..s };
    if close_requested {
        if s.quitting is Some {
            ((drawn, Seq::empty()), Draw::Nothing)
        } else {
            let (gone, effects) = hidden(drawn, true);
            ((gone, effects.push(EffectView::CancelClose)), Draw::Nothing)
        }
    } else if !s.visible {
        ((drawn, Seq::empty()), Draw::Nothing)
    } else if escape {
        (hidden(drawn, true), Draw::Nothing)
    } else if s.mode == Mode::Hud {
        ((drawn, Seq::empty()), Draw::Hud)
    } else {
        ((drawn, Seq::empty()), Draw::Popup)
    }
}

/// The keys of a frame.
#[derive(Debug, Clone, Copy)]
pub struct Keys {
    /// Ctrl is held.
    pub command: bool,
    /// Shift is held.
    pub shift: bool,
    /// These were pressed.
    pub enter: bool,
    pub c: bool,
    pub r: bool,
}

/// The end of a frame of the popup: its keyboard shortcuts, which the settings do not have.
pub open spec fn frame_ended(s: AppView, keys: Keys, now: u64) -> Outcome {
    if s.show_settings {
        (s, Seq::empty())
    } else if keys.command && keys.enter {
        replaced(s)
    } else if keys.command && keys.shift && keys.c {
        copied_and_told(s, now)
    } else if keys.command && keys.r {
        generating(s)
    } else {
        (s, Seq::empty())
    }
}

/// A tone chosen by hand.
pub open spec fn tone_picked(s: AppView, index: nat) -> Outcome {
    generating(AppView { tone_index: index, chosen_tone: index, ..s })
}

/// The last index that was clicked and is not the one in use.
pub open spec fn last_click(clicks: Seq<bool>, current: nat) -> Option<nat>
    decreases clicks.len(),
{
    if clicks.len() == 0 {
        None
    } else if clicks.last() && clicks.len() - 1 != current {
        Some((clicks.len() - 1) as nat)
    } else {
        last_click(clicks.drop_last(), current)
    }
}

/// The first digit that was pressed, counted from zero.
pub open spec fn first_digit(digits: Seq<bool>) -> Option<nat>
    decreases digits.len(),
{
    if digits.len() == 0 {
        None
    } else {
        match first_digit(digits.drop_last()) {
            Some(i) => Some(i),
            None => if digits.last() {
                Some((digits.len() - 1) as nat)
            } else {
                None
            },
        }
    }
}

/// The tone asked for, by a click or by Alt and a digit; the digit wins. The tone in use is not
/// asked for again.
pub open spec fn tone_asked(s: AppView, clicks: Seq<bool>, alt: bool, digits: Seq<bool>) -> Option<
    nat,
> {
    match first_digit(digits) {
        Some(i) if alt && i < s.cfg.tones.len() && i != s.tone_index => Some(i),
        _ => last_click(clicks, s.tone_index),
    }
}

/// The settings are opened or closed from the popup; opened, they start from what is in force.
pub open spec fn settings_toggled(s: AppView) -> AppView {
    AppView {
        show_settings: !s.show_settings,
        draft: if s.show_settings {
            s.draft
        } else {
            s.cfg
        },
        ..s
    }
}

/// The captured text is shown or hidden.
pub open spec fn original_toggled(s: AppView) -> AppView {
    AppView { show_original: !s.show_original, ..s }
}

/// The settings are left as they were.
pub open spec fn settings_left(s: AppView) -> AppView {
    AppView { draft: s.cfg, show_settings: false, ..s }
}

/// Some shortcut of the draft is not the one in force.
pub open spec fn hotkeys_differ(s: AppView) -> bool {
    s.draft.hotkey != s.cfg.hotkey || s.draft.quick_hotkey != s.cfg.quick_hotkey
        || s.draft.ticket_hotkey != s.cfg.ticket_hotkey
}

/// The draft comes into force.
pub open spec fn settings_kept(s: AppView) -> AppView {
    AppView { cfg: s.draft, ..s }
}

/// What is told of saved settings: new shortcuts count after a restart only.
pub open spec fn saved_text(hotkeys_changed: bool) -> Seq<char> {
    if hotkeys_changed {
        "salvo — reinicie para os novos atalhos valerem"@
    } else {
        "salvo"@
    }
}

/// The settings were written to disk, or could not be.
pub open spec fn settings_written(
    s: AppView,
    failure: Option<Seq<char>>,
    hotkeys_changed: bool,
    now: u64,
) -> Outcome {
    match failure {
        None => (
            AppView { toast: Some((saved_text(hotkeys_changed), now)), show_settings: false, ..s },
            seq![tooltip(s)],
        ),
        Some(e) => (AppView { status: StatusView::Error(e), ..s }, Seq::empty()),
    }
}

/// What stands at the left of the footer.
#[derive(Debug)]
pub enum FooterLabel {
    Nothing,
    /// The answer comes in.
    Generating,
    /// The size of the answer.
    Words(String),
    Error,
}

/// The model of a [`FooterLabel`].
pub enum FooterView {
    Nothing,
    Generating,
    Words(Seq<char>),
    Error,
}

impl View for FooterLabel {
    type V = FooterView;

    open spec fn view(&self) -> FooterView {
        match self {
            FooterLabel::Nothing => FooterView::Nothing,
            FooterLabel::Generating => FooterView::Generating,
            FooterLabel::Words(s) => FooterView::Words(s@),
            FooterLabel::Error => FooterView::Error,
        }
    }
}

/// What stands at the left of the footer.
pub open spec fn footer_of(s: AppView) -> FooterView {
    match s.status {
        StatusView::Loading => FooterView::Generating,
        StatusView::Done => FooterView::Words(
            text::decimal(text::words(s.output)) + " palavras"@,
        ),
        StatusView::Error(_) => FooterView::Error,
        _ => FooterView::Nothing,
    }
}

/// What the body of the popup shows.
#[derive(Debug)]
pub enum Body {
    /// How to begin.
    Hint,
    Error(String),
    /// The result, which can be edited, and whether more of it is to come.
    Result { loading: bool },
}

/// The model of a [`Body`].
pub enum BodyView {
    Hint,
    Error(Seq<char>),
    Result { loading: bool },
}

impl View for Body {
    type V = BodyView;

    open spec fn view(&self) -> BodyView {
        match self {
            Body::Hint => BodyView::Hint,
            Body::Error(e) => BodyView::Error(e@),
            Body::Result { loading } => BodyView::Result { loading: *loading },
        }
    }
}

/// What the body of the popup shows.
pub open spec fn body_of(s: AppView) -> BodyView {
    match s.status {
        StatusView::NoSelection if s.output.len() == 0 => BodyView::Hint,
        StatusView::Error(e) => BodyView::Error(e),
        _ => BodyView::Result { loading: s.status is Loading },
    }
}

/// There is a result to paste or copy.
pub open spec fn ready(s: AppView) -> bool {
    !text::blank(s.output)
}

/// The field of the original is shown: on demand, and by itself where the original is missing.
pub open spec fn original_shown(s: AppView) -> bool {
    s.show_original || text::blank(s.original)
}

/// A toast that appeared less than `limit` ago.
pub open spec fn fresh_toast(s: AppView, now: u64, limit: u64) -> Option<Seq<char>> {
    match s.toast {
        Some((message, at)) if now - at < limit => Some(message),
        _ => None,
    }
}

/// The footer was drawn: a toast that is too old is dropped.
pub open spec fn toast_seen(s: AppView, now: u64) -> AppView {
    AppView {
        toast: if fresh_toast(s, now, TOAST_TIME) is Some {
            s.toast
        } else {
            None
        },
        ..s
    }
}

/// The notice on an error of the quick shortcut.
pub open spec fn banner_of(s: AppView) -> Option<Seq<char>> {
    match s.quick_note {
        Some((message, true)) => Some(icon::WARNING@ + "  atalho rápido: "@ + message),
        _ => None,
    }
}

/// Adds an effect.
fn emit(fx: &mut Vec<Effect>, e: Effect)
    ensures
        effect_views(final(fx)@) == effect_views(old(fx)@).push(e@),
{
    let ghost before = effect_views(fx@);
    let ghost one = e@;
    fx.push(e);
    assert(effect_views(fx@) =~= before.push(one));
}

/// Adds the effect that puts a text back into the clipboard, where there was one.
fn restore_clipboard(fx: &mut Vec<Effect>, previous: Option<String>)
    ensures
        effect_views(final(fx)@) == effect_views(old(fx)@) + restoring(text::opt_string(previous)),
{
    let ghost before = effect_views(fx@);
    if let Some(content) = previous {
        emit(fx, Effect::SetClipboard(content));
    }
    assert(effect_views(fx@) =~= before + restoring(text::opt_string(previous)));
}

/// No effect yet.
fn no_effects() -> (r: Vec<Effect>)
    ensures
        effect_views(r@) == Seq::<EffectView>::empty(),
{
    let r: Vec<Effect> = Vec::new();
    assert(effect_views(r@) =~= Seq::<EffectView>::empty());
    r
}

impl App {
    /// The counter of the popup's generations can go on.
    pub open spec fn popup_room(&self) -> bool {
        self.generation < u64::MAX
    }

    /// The counter of the quick shortcut's generations can go on.
    pub open spec fn quick_room(&self) -> bool {
        self.quick_generation < u64::MAX
    }

    /// Both counters of generations can go on.
    pub open spec fn room(&self) -> bool {
        self.popup_room() && self.quick_room()
    }

    /// Whether the counters of generations can go on.
    pub fn has_room(&self) -> (r: bool)
        ensures
            r == self.room(),
    {
        self.generation < u64::MAX && self.quick_generation < u64::MAX
    }

    /// The state of a start. An error of the registration of the shortcuts wins over one of the
    /// configuration.
    pub fn new(cfg: Config, cfg_error: Option<String>, registration_error: Option<String>) -> (r:
        Self)
        ensures
            r@ == initial(
                cfg@,
                start_error(text::opt_string(cfg_error), text::opt_string(registration_error)),
            ),
            r.room(),
    {
        let mut status = match cfg_error {
            Some(e) => Status::Error(e),
            None => Status::Idle,
        };
        if let Some(e) = registration_error {
            status = Status::Error(e);
        }
        App {
            draft: cfg.clone(),
            cfg,
            tone_index: 0,
            chosen_tone: 0,
            original: String::new(),
            instruction: String::new(),
            output: String::new(),
            status,
            generation: 0,
            quick_generation: 0,
            visible: false,
            ui_ran: false,
            quitting: None,
            target_hwnd: 0,
            previous_clipboard: None,
            show_settings: false,
            show_original: false,
            toast: None,
            quick_note: None,
            note_told: false,
            quick: None,
            mode: Mode::Popup,
            hud_message: String::new(),
            hud_error_since: None,
        }
    }

    /// Shows the window.
    fn show_window(
        &mut self,
        fx: &mut Vec<Effect>,
        mode: Mode,
        cursor: Option<(i32, i32)>,
        focus: bool,
    )
        ensures
            final(self)@ == shown(old(self)@, mode, cursor, focus).0,
            effect_views(final(fx)@) == effect_views(old(fx)@) + shown(
                old(self)@,
                mode,
                cursor,
                focus,
            ).1,
    {
        let ghost before = effect_views(fx@);
        self.mode = mode;
        self.hud_error_since = None;
        emit(fx, Effect::Show { mode, cursor, focus });
        self.visible = true;
        self.ui_ran = false;
        assert(effect_views(fx@) =~= before + seq![EffectView::Show { mode, cursor, focus }]);
    }

    /// Shows the popup and gives it the focus.
    fn show_popup(&mut self, fx: &mut Vec<Effect>, cursor: Option<(i32, i32)>)
        ensures
            final(self)@ == shown(old(self)@, Mode::Popup, cursor, true).0,
            effect_views(final(fx)@) == effect_views(old(fx)@) + shown(
                old(self)@,
                Mode::Popup,
                cursor,
                true,
            ).1,
    {
        self.show_window(fx, Mode::Popup, cursor, true);
    }

    /// Shows the progress box without giving it the focus.
    fn show_hud(&mut self, fx: &mut Vec<Effect>, cursor: (i32, i32))
        ensures
            final(self)@ == shown(old(self)@, Mode::Hud, Some(cursor), false).0,
            effect_views(final(fx)@) == effect_views(old(fx)@) + shown(
                old(self)@,
                Mode::Hud,
                Some(cursor),
                false,
            ).1,
    {
        self.show_window(fx, Mode::Hud, Some(cursor), false);
    }

    /// Hides the window.
    fn hide_window(&mut self, fx: &mut Vec<Effect>, restore: bool)
        requires
            old(self).popup_room(),
        ensures
            final(self)@ == hidden(old(self)@, restore).0,
            effect_views(final(fx)@) == effect_views(old(fx)@) + hidden(old(self)@, restore).1,
    {
        let ghost before = effect_views(fx@);
        let previous = self.previous_clipboard.take();
        if restore {
            restore_clipboard(fx, previous);
        }
        self.generation = self.generation + 1;
        self.show_settings = false;
        self.hud_error_since = None;
        self.visible = false;
        self.ui_ran = false;
        emit(fx, Effect::Park);
        assert(effect_views(fx@) =~= before + hidden(old(self)@, restore).1);
    }

    /// Hides the window, as the button for it does.
    pub fn close(&mut self) -> (r: Vec<Effect>)
        requires
            old(self).popup_room(),
        ensures
            (final(self)@, effect_views(r@)) == hidden(old(self)@, true),
    {
        let mut fx = no_effects();
        self.hide_window(&mut fx, true);
        assert(effect_views(fx@) =~= hidden(old(self)@, true).1);
        fx
    }

    /// Starts to improve the original, unless there is none.
    pub fn start_generation(&mut self) -> (r: Vec<Effect>)
        requires
            old(self).popup_room(),
        ensures
            (final(self)@, effect_views(r@)) == generating(old(self)@),
    {
        let mut fx = no_effects();
        if is_blank(self.original.as_str()) {
            self.status = Status::NoSelection;
            return fx;
        }
        self.generation = self.generation + 1;
        self.output = String::new();
        self.quick_note = None;
        self.status = Status::Loading;
        emit(
            &mut fx,
            Effect::Improve(
                Improve {
                    lane: Lane::Popup,
                    generation: self.generation,
                    cfg: self.cfg.clone(),
                    tone: self.cfg.tone(self.tone_index),
                    input: self.original.clone(),
                    instruction: self.instruction.clone(),
                },
            ),
        );
        assert(effect_views(fx@) =~= generating(old(self)@).1);
        fx
    }

    /// Opens the popup with what a shortcut captured, in the tone asked for.
    fn open_captured(&mut self, req: ShowRequest, tone_index: usize) -> (r: Vec<Effect>)
        requires
            old(self).popup_room(),
        ensures
            (final(self)@, effect_views(r@)) == opened(old(self)@, req@, tone_index as nat),
    {
        let ghost request = req@;
        let mut fx = no_effects();
        self.target_hwnd = req.hwnd;
        self.previous_clipboard = req.previous_clipboard;
        self.original = req.text;
        self.instruction = String::new();
        self.output = String::new();
        self.show_settings = false;
        self.show_original = false;
        self.tone_index = tone_index;
        assert(self@ == holding(old(self)@, request, tone_index as nat));
        self.show_popup(&mut fx, Some(req.cursor));
        let ghost show = effect_views(fx@);
        let mut ask = if self.note_told {
            self.start_generation()
        } else {
            let note = self.quick_note.take();
            let ask = self.start_generation();
            self.quick_note = note;
            ask
        };
        self.note_told = true;
        let ghost asked = effect_views(ask@);
        fx.append(&mut ask);
        assert(effect_views(fx@) =~= show + asked);
        assert(effect_views(fx@) =~= opened(old(self)@, request, tone_index as nat).1);
        fx
    }

    /// The quick shortcut.
    fn start_quick(&mut self, req: ShowRequest, now: u64) -> (r: Vec<Effect>)
        requires
            old(self).quick_room(),
        ensures
            (final(self)@, effect_views(r@)) == quick_started(old(self)@, req@, now),
    {
        let ghost request = req@;
        let mut fx = no_effects();
        let cursor = req.cursor;
        let input = trim(req.text.as_str()).to_owned();
        if input.as_str().is_empty() {
            restore_clipboard(&mut fx, req.previous_clipboard);
            self.fail_quick(&mut fx, cursor, "nada selecionado", now);
            assert(effect_views(fx@) =~= quick_started(old(self)@, request, now).1);
            return fx;
        }
        self.quick_generation = self.quick_generation + 1;
        let generation: u64 = self.quick_generation;
        self.quick = Some(
            QuickJob {
                hwnd: req.hwnd,
                generation,
                buffer: String::new(),
                previous_clipboard: req.previous_clipboard,
                cursor,
            },
        );
        let tone = self.cfg.tone(0);
        let mut message = "melhorando · ".to_owned();
        message.append(tone.name.as_str());
        self.hud_message = message;
        self.note_quick(&mut fx, "melhorando...", false);
        self.show_hud(&mut fx, cursor);
        emit(
            &mut fx,
            Effect::Improve(
                Improve {
                    lane: Lane::Quick,
                    generation,
                    cfg: self.cfg.clone(),
                    tone,
                    input,
                    instruction: String::new(),
                },
            ),
        );
        assert(effect_views(fx@) =~= quick_started(old(self)@, request, now).1);
        fx
    }

    /// An error of the quick shortcut.
    fn fail_quick(&mut self, fx: &mut Vec<Effect>, cursor: (i32, i32), message: &str, now: u64)
        ensures
            final(self)@ == quick_failed(old(self)@, cursor, message@, now).0,
            effect_views(final(fx)@) == effect_views(old(fx)@) + quick_failed(
                old(self)@,
                cursor,
                message@,
                now,
            ).1,
    {
        let ghost before = effect_views(fx@);
        self.note_quick(fx, message, true);
        self.hud_message = message.to_owned();
        self.show_hud(fx, cursor);
        self.hud_error_since = Some(now);
        assert(effect_views(fx@) =~= before + quick_failed(old(self)@, cursor, message@, now).1);
    }

    /// Notes a result of the quick shortcut.
    fn note_quick(&mut self, fx: &mut Vec<Effect>, message: &str, is_error: bool)
        ensures
            final(self)@ == noted(old(self)@, message@, is_error).0,
            effect_views(final(fx)@) == effect_views(old(fx)@) + noted(
                old(self)@,
                message@,
                is_error,
            ).1,
    {
        let ghost before = effect_views(fx@);
        self.quick_note = Some((message.to_owned(), is_error));
        self.note_told = false;
        self.sync_tray_tooltip(fx);
        assert(effect_views(fx@) =~= before + noted(old(self)@, message@, is_error).1);
    }

    /// Sets the tooltip of the tray.
    fn sync_tray_tooltip(&self, fx: &mut Vec<Effect>)
        ensures
            effect_views(final(fx)@) == effect_views(old(fx)@).push(tooltip(self@)),
    {
        emit(fx, Effect::Tooltip(tooltip_with_note(&self.cfg, &self.quick_note)));
    }

    /// A message of the listener for shortcuts.
    pub fn on_hotkey_msg(&mut self, msg: HotkeyMsg, now: u64) -> (r: Vec<Effect>)
        requires
            msg@ matches HotkeyView::Captured(Opening::Quick, _) ==> old(self).quick_room(),
            !(msg@ matches HotkeyView::Captured(Opening::Quick, _)) ==> old(self).popup_room(),
        ensures
            (final(self)@, effect_views(r@)) == hotkey_handled(old(self)@, msg@, now),
    {
        match msg {
            HotkeyMsg::Hide => self.close(),
            HotkeyMsg::Captured(Opening::Quick, req) => self.start_quick(req, now),
            HotkeyMsg::Captured(Opening::Show, req) => {
                let tone: usize = self.chosen_tone;
                self.open_captured(req, tone)
            },
            HotkeyMsg::Captured(Opening::Ticket, req) => {
                let tone: usize = self.cfg.ticket_tone_index();
                self.open_captured(req, tone)
            },
        }
    }

    /// A message for the popup.
    pub fn on_answer(&mut self, generation: u64, msg: Msg)
        ensures
            final(self)@ == answered(old(self)@, generation as nat, msg@),
    {
        if generation != self.generation {
            return;
        }
        match msg {
            Msg::Delta(delta) => self.output.append(delta.as_str()),
            Msg::Done => {
                self.output = trim(self.output.as_str()).to_owned();
                self.status = Status::Done;
            },
            Msg::Error(e) => {
                self.status = Status::Error(e);
            },
        }
    }

    /// A message for the quick shortcut.
    pub fn on_quick_answer(&mut self, generation: u64, msg: Msg, now: u64) -> (r: Vec<Effect>)
        requires
            old(self).popup_room(),
        ensures
            (final(self)@, effect_views(r@)) == quick_answered(
                old(self)@,
                generation as nat,
                msg@,
                now,
            ),
    {
        let ghost message = msg@;
        let mut fx = no_effects();
        let job = match self.quick.take() {
            Some(job) => job,
            None => {
                return fx;
            },
        };
        let ghost work = job@;
        if job.generation != generation {
            self.quick = Some(job);
            return fx;
        }
        match msg {
            Msg::Delta(delta) => {
                let mut job = job;
                job.buffer.append(delta.as_str());
                self.quick = Some(job);
            },
            Msg::Done => {
                let content = trim(job.buffer.as_str()).to_owned();
                if content.as_str().is_empty() {
                    restore_clipboard(&mut fx, job.previous_clipboard);
                    self.fail_quick(&mut fx, job.cursor, "resposta vazia", now);
                } else {
                    self.hide_window(&mut fx, false);
                    self.note_quick(&mut fx, "colado", false);
                    emit(&mut fx, Effect::Paste { hwnd: job.hwnd, text: content });
                }
                assert(effect_views(fx@) =~= quick_finished(old(self)@, work, now).1);
            },
            Msg::Error(e) => {
                restore_clipboard(&mut fx, job.previous_clipboard);
                self.fail_quick(&mut fx, job.cursor, e.as_str(), now);
                assert(effect_views(fx@) =~= quick_answered(
                    old(self)@,
                    generation as nat,
                    message,
                    now,
                ).1);
            },
        }
        fx
    }

    /// Opens the settings.
    pub fn open_settings(&mut self) -> (r: Vec<Effect>)
        ensures
            (final(self)@, effect_views(r@)) == settings_opened(old(self)@),
    {
        let mut fx = no_effects();
        self.draft = self.cfg.clone();
        self.show_settings = true;
        self.show_popup(&mut fx, None);
        assert(effect_views(fx@) =~= settings_opened(old(self)@).1);
        fx
    }

    /// Starts to end the application.
    pub fn begin_quit(&mut self, now: u64) -> (r: Vec<Effect>)
        ensures
            (final(self)@, effect_views(r@)) == quit_begun(old(self)@, now),
    {
        let mut fx = no_effects();
        self.quitting = Some(now);
        emit(&mut fx, Effect::Close);
        emit(&mut fx, Effect::Repaint);
        assert(effect_views(fx@) =~= quit_begun(old(self)@, now).1);
        fx
    }

    /// An entry of the tray's menu was chosen: the one that ends the application, the one that
    /// opens the settings, or another one.
    pub fn on_menu(&mut self, is_quit: bool, is_open: bool, now: u64) -> (r: Vec<Effect>)
        ensures
            (final(self)@, effect_views(r@)) == menu_chosen(old(self)@, is_quit, is_open, now),
    {
        if is_quit {
            self.begin_quit(now)
        } else if is_open {
            self.open_settings()
        } else {
            no_effects()
        }
    }

    /// Pastes the result into the window of origin.
    pub fn apply_replace(&mut self) -> (r: Vec<Effect>)
        requires
            old(self).popup_room(),
        ensures
            (final(self)@, effect_views(r@)) == replaced(old(self)@),
    {
        let mut fx = no_effects();
        let content = trim(self.output.as_str()).to_owned();
        if content.as_str().is_empty() {
            return fx;
        }
        let hwnd: isize = self.target_hwnd;
        self.hide_window(&mut fx, false);
        emit(&mut fx, Effect::Paste { hwnd, text: content });
        assert(effect_views(fx@) =~= replaced(old(self)@).1);
        fx
    }

    /// Copies the result and closes.
    fn apply_copy(&mut self) -> (r: Vec<Effect>)
        requires
            old(self).popup_room(),
        ensures
            (final(self)@, effect_views(r@)) == copied(old(self)@),
    {
        let mut fx = no_effects();
        let content = trim(self.output.as_str()).to_owned();
        if content.as_str().is_empty() {
            return fx;
        }
        emit(&mut fx, Effect::SetClipboard(content));
        self.hide_window(&mut fx, false);
        assert(effect_views(fx@) =~= copied(old(self)@).1);
        fx
    }

    /// Copies the result, closes, and says so.
    pub fn copy_and_tell(&mut self, now: u64) -> (r: Vec<Effect>)
        requires
            old(self).popup_room(),
        ensures
            (final(self)@, effect_views(r@)) == copied_and_told(old(self)@, now),
    {
        let fx = self.apply_copy();
        self.set_toast("copiado", now);
        fx
    }

    /// Shows a short message.
    fn set_toast(&mut self, message: &str, now: u64)
        ensures
            final(self)@ == (AppView { toast: Some((message@, now)), ..old(self)@ }),
    {
        self.toast = Some((message.to_owned(), now));
    }

    /// What happens between frames.
    pub fn tick(&mut self, now: u64) -> (r: Vec<Effect>)
        requires
            old(self).popup_room(),
        ensures
            (final(self)@, effect_views(r@)) == ticked(old(self)@, now),
    {
        let mut fx = no_effects();
        if let Some(since) = self.quitting {
            if now.saturating_sub(since) > QUIT_GRACE {
                emit(&mut fx, Effect::Exit);
                assert(effect_views(fx@) =~= ticked(old(self)@, now).1);
                return fx;
            }
        }
        if let Some(since) = self.hud_error_since {
            if now.saturating_sub(since) > HUD_ERROR_LINGER {
                self.hide_window(&mut fx, false);
            }
        }
        if self.ui_ran && !self.visible {
            self.ui_ran = false;
            emit(&mut fx, Effect::Park);
            emit(&mut fx, Effect::Repaint);
        }
        emit(&mut fx, Effect::RepaintAfter(WAKE_MS));
        assert(effect_views(fx@) =~= ticked(old(self)@, now).1);
        fx
    }

    /// The start of a frame: what it draws.
    pub fn begin_frame(&mut self, close_requested: bool, escape: bool) -> (r: (Vec<Effect>, Draw))
        requires
            old(self).popup_room(),
        ensures
            ((final(self)@, effect_views(r.0@)), r.1) == frame_begun(
                old(self)@,
                close_requested,
                escape,
            ),
    {
        let mut fx = no_effects();
        self.ui_ran = true;
        if close_requested {
            if self.quitting.is_some() {
                return (fx, Draw::Nothing);
            }
            self.hide_window(&mut fx, true);
            emit(&mut fx, Effect::CancelClose);
            assert(effect_views(fx@) =~= frame_begun(old(self)@, close_requested, escape).0.1);
            return (fx, Draw::Nothing);
        }
        if !self.visible {
            return (fx, Draw::Nothing);
        }
        if escape {
            self.hide_window(&mut fx, true);
            assert(effect_views(fx@) =~= frame_begun(old(self)@, close_requested, escape).0.1);
            return (fx, Draw::Nothing);
        }
        match self.mode {
            Mode::Hud => (fx, Draw::Hud),
            Mode::Popup => (fx, Draw::Popup),
        }
    }

    /// The end of a frame of the popup.
    pub fn end_frame(&mut self, keys: Keys, now: u64) -> (r: Vec<Effect>)
        requires
            old(self).popup_room(),
        ensures
            (final(self)@, effect_views(r@)) == frame_ended(old(self)@, keys, now),
    {
        if self.show_settings {
            no_effects()
        } else if keys.command && keys.enter {
            self.apply_replace()
        } else if keys.command && keys.shift && keys.c {
            self.copy_and_tell(now)
        } else if keys.command && keys.r {
            self.start_generation()
        } else {
            no_effects()
        }
    }

    /// A tone was chosen by hand.
    pub fn pick_tone(&mut self, index: usize) -> (r: Vec<Effect>)
        requires
            old(self).popup_room(),
        ensures
            (final(self)@, effect_views(r@)) == tone_picked(old(self)@, index as nat),
    {
        self.tone_index = index;
        self.chosen_tone = index;
        self.start_generation()
    }

    /// The tone asked for, from which tones were clicked and which digits were pressed.
    pub fn tone_request(&self, clicks: &Vec<bool>, alt: bool, digits: &Vec<bool>) -> (r: Option<
        usize,
    >)
        ensures
            (match r {
                Some(i) => Some(i as nat),
                None => None,
            }) == tone_asked(self@, clicks@, alt, digits@),
    {
        let mut digit: Option<usize> = None;
        let mut i: usize = 0;
        while i < digits.len()
            invariant
                i <= digits@.len(),
                first_digit(digits@.take(i as int)) == (match digit {
                    Some(d) => Some(d as nat),
                    None => None,
                }),
            decreases digits@.len() - i,
        {
            assert(digits@.take(i + 1).drop_last() =~= digits@.take(i as int));
            if digit.is_none() && digits[i] {
                digit = Some(i);
            }
            i = i + 1;
        }
        assert(digits@.take(i as int) =~= digits@);
        if let Some(d) = digit {
            if alt && d < self.cfg.tones.len() && d != self.tone_index {
                return Some(d);
            }
        }
        let mut k: usize = clicks.len();
        assert(clicks@.take(k as int) =~= clicks@);
        while k > 0
            invariant
                k <= clicks@.len(),
                last_click(clicks@, self.tone_index as nat) == last_click(
                    clicks@.take(k as int),
                    self.tone_index as nat,
                ),
                tone_asked(self@, clicks@, alt, digits@) == last_click(
                    clicks@,
                    self.tone_index as nat,
                ),
            decreases k,
        {
            assert(clicks@.take(k as int).drop_last() =~= clicks@.take(k - 1));
            k = k - 1;
            if clicks[k] && k != self.tone_index {
                return Some(k);
            }
        }
        None
    }

    /// Opens or closes the settings from the popup.
    pub fn toggle_settings(&mut self)
        ensures
            final(self)@ == settings_toggled(old(self)@),
    {
        self.show_settings = !self.show_settings;
        if self.show_settings {
            self.draft = self.cfg.clone();
        }
    }

    /// Shows or hides the captured text.
    pub fn toggle_original(&mut self)
        ensures
            final(self)@ == original_toggled(old(self)@),
    {
        self.show_original = !self.show_original;
    }

    /// Puts the draft in force, before it is written to disk, and tells whether the shortcuts
    /// changed.
    pub fn save_settings(&mut self) -> (r: bool)
        ensures
            r == hotkeys_differ(old(self)@),
            final(self)@ == settings_kept(old(self)@),
    {
        let changed: bool = !equals(self.draft.hotkey.as_str(), self.cfg.hotkey.as_str())
            || !equals(self.draft.quick_hotkey.as_str(), self.cfg.quick_hotkey.as_str())
            || !equals(self.draft.ticket_hotkey.as_str(), self.cfg.ticket_hotkey.as_str());
        self.cfg = self.draft.clone();
        changed
    }

    /// The settings were written to disk, or could not be.
    pub fn settings_saved(
        &mut self,
        failure: Option<String>,
        hotkeys_changed: bool,
        now: u64,
    ) -> (r: Vec<Effect>)
        ensures
            (final(self)@, effect_views(r@)) == settings_written(
                old(self)@,
                text::opt_string(failure),
                hotkeys_changed,
                now,
            ),
    {
        let ghost failed = text::opt_string(failure);
        let mut fx = no_effects();
        match failure {
            None => {
                self.sync_tray_tooltip(&mut fx);
                if hotkeys_changed {
                    self.set_toast("salvo — reinicie para os novos atalhos valerem", now);
                } else {
                    self.set_toast("salvo", now);
                }
                self.show_settings = false;
            },
            Some(e) => {
                self.status = Status::Error(e);
            },
        }
        assert(effect_views(fx@) =~= settings_written(
            old(self)@,
            failed,
            hotkeys_changed,
            now,
        ).1);
        fx
    }

    /// Leaves the settings as they were.
    pub fn cancel_settings(&mut self)
        ensures
            final(self)@ == settings_left(old(self)@),
    {
        self.draft = self.cfg.clone();
        self.show_settings = false;
    }

    /// What stands at the left of the footer.
    pub fn footer_label(&self) -> (r: FooterLabel)
        ensures
            r@ == footer_of(self@),
    {
        match &self.status {
            Status::Loading => FooterLabel::Generating,
            Status::Done => {
                let mut out = to_decimal(count_words(self.output.as_str()));
                out.append(" palavras");
                FooterLabel::Words(out)
            },
            Status::Error(_) => FooterLabel::Error,
            _ => FooterLabel::Nothing,
        }
    }

    /// The toast below the result; one that is too old is dropped.
    pub fn footer_toast(&mut self, now: u64) -> (r: Option<String>)
        ensures
            text::opt_string(r) == fresh_toast(old(self)@, now, TOAST_TIME),
            final(self)@ == toast_seen(old(self)@, now),
    {
        if let Some((message, at)) = &self.toast {
            if now.saturating_sub(*at) < TOAST_TIME {
                return Some(message.clone());
            }
        }
        self.toast = None;
        None
    }

    /// The toast below the settings.
    pub fn settings_toast(&self, now: u64) -> (r: Option<String>)
        ensures
            text::opt_string(r) == fresh_toast(self@, now, SETTINGS_TOAST_TIME),
    {
        match &self.toast {
            Some((message, at)) => if now.saturating_sub(*at) < SETTINGS_TOAST_TIME {
                Some(message.clone())
            } else {
                None
            },
            None => None,
        }
    }

    /// Whether there is a result to paste or copy.
    pub fn is_ready(&self) -> (r: bool)
        ensures
            r == ready(self@),
    {
        !is_blank(self.output.as_str())
    }

    /// Whether the original is missing, so that its field becomes the main one and opens by itself.
    pub fn lacks_original(&self) -> (r: bool)
        ensures
            r == text::blank(self@.original),
    {
        is_blank(self.original.as_str())
    }

    /// Whether the field of the original is shown.
    pub fn shows_original(&self) -> (r: bool)
        ensures
            r == original_shown(self@),
    {
        self.show_original || self.lacks_original()
    }

    /// What the body of the popup shows.
    pub fn body(&self) -> (r: Body)
        ensures
            r@ == body_of(self@),
    {
        match &self.status {
            Status::NoSelection => if self.output.as_str().is_empty() {
                Body::Hint
            } else {
                Body::Result { loading: false }
            },
            Status::Error(e) => Body::Error(e.clone()),
            Status::Loading => Body::Result { loading: true },
            _ => Body::Result { loading: false },
        }
    }

    /// The notice on an error of the quick shortcut, which has no window of its own to tell it.
    pub fn banner(&self) -> (r: Option<String>)
        ensures
            text::opt_string(r) == banner_of(self@),
    {
        match &self.quick_note {
            Some((message, is_error)) => if *is_error {
                let mut out = icon::WARNING.to_owned();
                out.append("  atalho rápido: ");
                out.append(message.as_str());
                Some(out)
            } else {
                None
            },
            None => None,
        }
    }

    /// Whether the progress box tells an error.
    pub fn hud_failed(&self) -> (r: bool)
        ensures
            r == self@.hud_error_since is Some,
    {
        self.hud_error_since.is_some()
    }
}

} // verus!
