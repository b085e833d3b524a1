//! Which shortcuts are registered and what each of them asks for.

use crate::config::{Config, ConfigView};
use crate::hook;
use crate::hook::Binding;
use crate::hotkey;
use crate::hotkey::{parse, Shortcut};
use crate::text;
use crate::text::{join, trim};
use vstd::prelude::*;

verus! {

/// The number of the shortcut that opens the popup.
pub const OPEN_ID: u32 = 1;

/// The number of the quick shortcut.
pub const QUICK_ID: u32 = 2;

/// The number of the ticket shortcut.
pub const TICKET_ID: u32 = 3;

/// The shortcuts of a configuration.
#[derive(Debug)]
pub struct Wanted {
    pub bindings: Vec<Binding>,
    /// What is wrong with those that cannot be registered.
    pub errors: Vec<String>,
}

/// The model of a [`Wanted`].
#[verifier::ext_equal]
pub struct WantedView {
    pub bindings: Seq<Binding>,
    pub errors: Seq<Seq<char>>,
}

impl View for Wanted {
    type V = WantedView;

    open spec fn view(&self) -> WantedView {
        WantedView { bindings: self.bindings@, errors: text::contents(self.errors@) }
    }
}

/// Some binding has that shortcut.
pub open spec fn taken(bindings: Seq<Binding>, shortcut: Shortcut) -> bool {
    exists|i: int| 0 <= i < bindings.len() && (#[trigger] bindings[i]).shortcut == shortcut
}

/// Adds one shortcut. A blank text turns it off, but for that of the popup, which is the main way
/// in and therefore has to be a shortcut. One that repeats another would be mute, because the first
/// that matches fires: that is told instead.
pub open spec fn added(w: WantedView, id: u32, spec: Seq<char>, label: Seq<char>) -> WantedView {
    let s = text::trimmed(spec);
    if s.len() == 0 && id != OPEN_ID {
        w
    } else {
        match hotkey::parsed(s) {
            Ok(shortcut) => if taken(w.bindings, shortcut) {
                WantedView {
                    errors: w.errors.push(label + " '"@ + s + "' repete outro atalho"@),
                    ..w
                }
            } else {
                WantedView { bindings: w.bindings.push(Binding { id, shortcut }), ..w }
            },
            Err(refusal) => WantedView {
                errors: w.errors.push(
                    label + " '"@ + s + "' invalido: "@ + hotkey::refusal_text(refusal, s),
                ),
                ..w
            },
        }
    }
}

/// No shortcut yet.
pub open spec fn none_wanted() -> WantedView {
    WantedView { bindings: Seq::empty(), errors: Seq::empty() }
}

/// The shortcuts of a configuration, in the order in which they are registered.
pub open spec fn wanted_of(cfg: ConfigView) -> WantedView {
    let open = added(none_wanted(), OPEN_ID, cfg.hotkey, "atalho"@);
    let quick = added(open, QUICK_ID, cfg.quick_hotkey, "atalho rápido"@);
    added(quick, TICKET_ID, cfg.ticket_hotkey, "atalho de chamado"@)
}

impl Wanted {
    /// Adds one shortcut.
    fn add_shortcut(&mut self, id: u32, spec: &str, label: &str)
        ensures
            final(self)@ == added(old(self)@, id, spec@, label@),
    {
        let s = trim(spec);
        if s.is_empty() && id != OPEN_ID {
            return;
        }
        let ghost before = self@;
        match parse(s) {
            Ok(shortcut) => {
                let mut i: usize = 0;
                while i < self.bindings.len()
                    invariant
                        i <= self.bindings@.len(),
                        self@ == before,
                        s@ == text::trimmed(spec@),
                        s@.len() > 0 || id == OPEN_ID,
                        hotkey::parsed(s@) == Ok::<Shortcut, hotkey::Refusal>(shortcut),
                        before == old(self)@,
                        forall|k: int|
                            0 <= k < i ==> (#[trigger] self.bindings@[k]).shortcut != shortcut,
                    decreases self.bindings@.len() - i,
                {
                    if self.bindings[i].shortcut == shortcut {
                        assert(taken(self@.bindings, shortcut));
                        let mut e = label.to_owned();
                        e.append(" '");
                        e.append(s);
                        e.append("' repete outro atalho");
                        let ghost told = e@;
                        self.errors.push(e);
                        assert(self@.errors =~= before.errors.push(told));
                        return;
                    }
                    i = i + 1;
                }
                self.bindings.push(Binding { id, shortcut });
            },
            Err(err) => {
                let mut e = label.to_owned();
                e.append(" '");
                e.append(s);
                e.append("' invalido: ");
                e.append(err.to_string().as_str());
                let ghost told = e@;
                self.errors.push(e);
                assert(self@.errors =~= before.errors.push(told));
            },
        }
    }
}

/// The shortcuts of a configuration.
pub fn register_hotkeys(cfg: &Config) -> (r: Wanted)
    ensures
        r@ == wanted_of(cfg@),
{
    let mut w = Wanted { bindings: Vec::new(), errors: Vec::new() };
    assert(w@ =~= none_wanted());
    w.add_shortcut(OPEN_ID, cfg.hotkey.as_str(), "atalho");
    w.add_shortcut(QUICK_ID, cfg.quick_hotkey.as_str(), "atalho rápido");
    w.add_shortcut(TICKET_ID, cfg.ticket_hotkey.as_str(), "atalho de chamado");
    w
}

/// How the registration went.
#[derive(Debug)]
pub struct Registration {
    /// The hook listens.
    pub listening: bool,
    pub error: Option<String>,
}

/// All that went wrong, in one text.
pub open spec fn all_errors(errors: Seq<Seq<char>>) -> Option<Seq<char>> {
    if errors.len() == 0 {
        None
    } else {
        Some(text::joined(errors, " · "@))
    }
}

/// The outcome of the registration, from the errors so far and the result of starting the hook.
pub fn registration(errors: Vec<String>, started: Result<(), String>) -> (r: Registration)
    ensures
        r.listening == started is Ok,
        text::opt_string(r.error) == all_errors(
            match started {
                Ok(()) => text::contents(errors@),
                Err(e) => text::contents(errors@).push(e@),
            },
        ),
{
    let mut errors = errors;
    let listening: bool = match started {
        Ok(()) => true,
        Err(e) => {
            let ghost before = text::contents(errors@);
            let ghost told = e@;
            errors.push(e);
            assert(text::contents(errors@) =~= before.push(told));
            false
        },
    };
    let error = if errors.len() == 0 {
        None
    } else {
        Some(join(&errors, " · "))
    };
    Registration { listening, error }
}

/// Which shortcut opens the window.
#[derive(Debug, Clone, Copy, PartialEq, Eq, Structural)]
pub enum Opening {
    /// The popup.
    Show,
    /// The quick shortcut.
    Quick,
    /// The popup with the ticket tone.
    Ticket,
}

/// What is done when a shortcut fired.
#[derive(Debug, Clone, Copy, PartialEq, Eq, Structural)]
pub enum Reaction {
    Hide,
    /// Capture the selection and open.
    Capture(Opening),
}

/// What is done when the shortcut `id` fired.
pub open spec fn reaction(id: u32, visible: bool) -> Reaction {
    if id == QUICK_ID {
        Reaction::Capture(Opening::Quick)
    } else if visible {
        Reaction::Hide
    } else if id == TICKET_ID {
        Reaction::Capture(Opening::Ticket)
    } else {
        Reaction::Capture(Opening::Show)
    }
}

/// What is done when the shortcut `id` fired. While the window is shown, those that open the popup
/// close it instead of copying from the application's own window.
pub fn on_hotkey(id: u32, visible: bool) -> (r: Reaction)
    ensures
        r == reaction(id, visible),
{
    if id == QUICK_ID {
        Reaction::Capture(Opening::Quick)
    } else if visible {
        Reaction::Hide
    } else if id == TICKET_ID {
        Reaction::Capture(Opening::Ticket)
    } else {
        Reaction::Capture(Opening::Show)
    }
}

/// The bindings have different shortcuts.
pub open spec fn distinct_shortcuts(bindings: Seq<Binding>) -> bool {
    forall|i: int, j: int|
        0 <= i < j < bindings.len() ==> (#[trigger] bindings[i]).shortcut != (
        #[trigger] bindings[j]).shortcut
}

/// The bindings have rising numbers, below `bound`.
pub open spec fn rising_ids(bindings: Seq<Binding>, bound: int) -> bool {
    &&& forall|i: int, j: int|
        0 <= i < j < bindings.len() ==> (#[trigger] bindings[i]).id < (#[trigger] bindings[j]).id
    &&& forall|i: int| 0 <= i < bindings.len() ==> (#[trigger] bindings[i]).id < bound
}

/// One shortcut more keeps the bindings apart.
proof fn lemma_added_keeps_apart(w: WantedView, id: u32, spec: Seq<char>, label: Seq<char>)
    requires
        distinct_shortcuts(w.bindings),
        rising_ids(w.bindings, id as int),
    ensures
        distinct_shortcuts(added(w, id, spec, label).bindings),
        rising_ids(added(w, id, spec, label).bindings, id + 1),
{
}

/// Every registered shortcut can fire: no two are the same, and each has a number of its own.
pub proof fn registered_shortcuts_differ(cfg: ConfigView)
    ensures
        distinct_shortcuts(wanted_of(cfg).bindings),
        rising_ids(wanted_of(cfg).bindings, TICKET_ID + 1),
{
    let open = added(none_wanted(), OPEN_ID, cfg.hotkey, "atalho"@);
    let quick = added(open, QUICK_ID, cfg.quick_hotkey, "atalho rápido"@);
    lemma_added_keeps_apart(none_wanted(), OPEN_ID, cfg.hotkey, "atalho"@);
    lemma_added_keeps_apart(open, QUICK_ID, cfg.quick_hotkey, "atalho rápido"@);
    lemma_added_keeps_apart(quick, TICKET_ID, cfg.ticket_hotkey, "atalho de chamado"@);
}

/// Every registered shortcut fires under its own number.
pub proof fn registered_shortcuts_fire(cfg: ConfigView, i: int)
    requires
        0 <= i < wanted_of(cfg).bindings.len(),
    ensures
        hook::first_match(wanted_of(cfg).bindings, wanted_of(cfg).bindings[i].shortcut) == Some(
            wanted_of(cfg).bindings[i].id,
        ),
{
    let all = wanted_of(cfg).bindings;
    registered_shortcuts_differ(cfg);
    hook::match_is_first_and_exact(all, all[i].shortcut);
}

/// A blank text turns the quick and the ticket shortcut off, without a complaint.
pub proof fn blank_turns_off(w: WantedView, id: u32, spec: Seq<char>, label: Seq<char>)
    requires
        text::blank(spec),
        id != OPEN_ID,
    ensures
        added(w, id, spec, label) == w,
{
    text::trimmed_empty_iff_blank(spec);
}

/// Each shortcut that is not blank is either registered under its number or told as an error.
pub proof fn registered_or_told(w: WantedView, id: u32, spec: Seq<char>, label: Seq<char>)
    requires
        !text::blank(spec) || id == OPEN_ID,
    ensures
        ({
            let after = added(w, id, spec, label);
            ||| after.errors == w.errors && after.bindings.len() == w.bindings.len() + 1
                && after.bindings.last().id == id && hotkey::parsed(text::trimmed(spec)) == Ok::<
                Shortcut,
                hotkey::Refusal,
            >(after.bindings.last().shortcut)
            ||| after.bindings == w.bindings && after.errors.len() == w.errors.len() + 1
        }),
{
    text::trimmed_empty_iff_blank(spec);
}

/// The quick shortcut captures whether the window is shown or not; the other two close a window that
/// is shown, and open the popup, each in its way, where it is hidden.
pub proof fn each_shortcut_does_its_work(visible: bool)
    ensures
        reaction(2, visible) == Reaction::Capture(Opening::Quick),
        reaction(1, true) == Reaction::Hide,
        reaction(3, true) == Reaction::Hide,
        reaction(1, false) == Reaction::Capture(Opening::Show),
        reaction(3, false) == Reaction::Capture(Opening::Ticket),
{
}

/// Three different shortcuts are all registered, each under its own number and as it is written.
pub proof fn different_shortcuts_are_all_registered(
    cfg: ConfigView,
    open: Shortcut,
    quick: Shortcut,
    ticket: Shortcut,
)
    requires
        hotkey::parsed(text::trimmed(cfg.hotkey)) == Ok::<Shortcut, hotkey::Refusal>(open),
        hotkey::parsed(text::trimmed(cfg.quick_hotkey)) == Ok::<Shortcut, hotkey::Refusal>(quick),
        hotkey::parsed(text::trimmed(cfg.ticket_hotkey)) == Ok::<Shortcut, hotkey::Refusal>(ticket),
        !text::blank(cfg.quick_hotkey),
        !text::blank(cfg.ticket_hotkey),
        open != quick && open != ticket && quick != ticket,
    ensures
        wanted_of(cfg).bindings == seq![
            Binding { id: 1, shortcut: open },
            Binding { id: 2, shortcut: quick },
            Binding { id: 3, shortcut: ticket },
        ],
        wanted_of(cfg).errors.len() == 0,
{
    text::trimmed_empty_iff_blank(cfg.quick_hotkey);
    text::trimmed_empty_iff_blank(cfg.ticket_hotkey);
    let first = added(none_wanted(), OPEN_ID, cfg.hotkey, "atalho"@);
    assert(first.bindings =~= seq![Binding { id: 1, shortcut: open }]);
    let second = added(first, QUICK_ID, cfg.quick_hotkey, "atalho rápido"@);
    assert(second.bindings =~= seq![
        Binding { id: 1, shortcut: open },
        Binding { id: 2, shortcut: quick },
    ]);
    assert(wanted_of(cfg).bindings =~= seq![
        Binding { id: 1, shortcut: open },
        Binding { id: 2, shortcut: quick },
        Binding { id: 3, shortcut: ticket },
    ]);
}

/// A shortcut that cannot be registered leaves the others alone and is told with its label, its
/// text and the reason.
pub proof fn wrong_shortcut_is_told(
    w: WantedView,
    id: u32,
    spec: Seq<char>,
    label: Seq<char>,
    refusal: hotkey::Refusal,
    i: int,
)
    requires
        !text::blank(spec) || id == 1,
    ensures
        ({
            let s = text::trimmed(spec);
            let after = added(w, id, spec, label);
            &&& hotkey::parsed(s) == Err::<Shortcut, hotkey::Refusal>(refusal) ==> after.bindings
                == w.bindings && after.errors == w.errors.push(
                label + " '"@ + s + "' invalido: "@ + hotkey::refusal_text(refusal, s),
            )
            &&& 0 <= i < w.bindings.len() && hotkey::parsed(s) == Ok::<Shortcut, hotkey::Refusal>(
                w.bindings[i].shortcut,
            ) ==> after.bindings == w.bindings && after.errors == w.errors.push(
                label + " '"@ + s + "' repete outro atalho"@,
            )
            &&& hotkey::parsed(s) is Ok && (forall|k: int|
                0 <= k < w.bindings.len() ==> (#[trigger] w.bindings[k]).shortcut
                    != hotkey::parsed(s)->Ok_0) ==> after.errors == w.errors && after.bindings == w.bindings.push(
                Binding { id, shortcut: hotkey::parsed(s)->Ok_0 },
            )
        }),
{
    text::trimmed_empty_iff_blank(spec);
    if 0 <= i < w.bindings.len() {
        assert(taken(w.bindings, w.bindings[i].shortcut));
    }
}

/// The three are added in the order popup, quick, ticket, each with its own label.
pub proof fn shortcuts_are_added_in_order(cfg: ConfigView)
    ensures
        ({
            let empty = WantedView { bindings: Seq::empty(), errors: Seq::empty() };
            let one = added(empty, 1, cfg.hotkey, "atalho"@);
            let two = added(one, 2, cfg.quick_hotkey, "atalho rápido"@);
            wanted_of(cfg) == added(two, 3, cfg.ticket_hotkey, "atalho de chamado"@)
        }),
{
}

/// Whoever writes a shortcut and then presses its key with the modifiers that it names, and no
/// others, fires it.
pub proof fn written_shortcut_fires(
    parts: Seq<Seq<char>>,
    shortcut: Shortcut,
    id: u32,
    swallowing: Option<u16>,
    event: hook::KeyEvent,
)
    requires
        hotkey::shortcut_of(parts) == Ok::<Shortcut, hotkey::Refusal>(shortcut),
        event.code == 0 && event.flags & 0x10 == 0,
        event.message == 0x0100 || event.message == 0x0104,
        event.vk_code as u16 == shortcut.vk,
    ensures
        hook::verdict(
            seq![Binding { id, shortcut }],
            swallowing,
            event,
            hook::held_mods(
                hotkey::some_part_is(parts, "ctrl"@) || hotkey::some_part_is(parts, "control"@),
                hotkey::some_part_is(parts, "alt"@) || hotkey::some_part_is(parts, "option"@),
                hotkey::some_part_is(parts, "shift"@),
                hotkey::some_part_is(parts, "win"@) || hotkey::some_part_is(parts, "super"@)
                    || hotkey::some_part_is(parts, "meta"@) || hotkey::some_part_is(parts, "cmd"@),
            ),
        ) == (hook::Verdict { fire: Some(id), swallow: true }, Some(shortcut.vk)),
{
    hotkey::shortcut_has_the_named_modifiers(parts);
    hook::exact_combination_fires(
        seq![Binding { id, shortcut }],
        swallowing,
        event,
        shortcut.mods,
        0,
    );
}

/// All errors are told, in their order; without any nothing is told.
pub proof fn all_errors_are_told(first: Seq<char>, others: Seq<Seq<char>>)
    ensures
        all_errors(Seq::empty()) is None,
        all_errors(seq![first]) == Some(first),
        others.len() > 0 ==> all_errors(seq![first] + others) == Some(
            first + " · "@ + text::joined(others, " · "@),
        ),
{
    text::joining_keeps_the_order(first, others, " · "@);
}

/// The model of the wanted shortcuts holds all of them and every error.
pub proof fn model_of_wanted(w: Wanted, i: int)
    ensures
        w@.bindings == w.bindings@,
        w@.errors.len() == w.errors@.len(),
        0 <= i < w.errors@.len() ==> w@.errors[i] == w.errors@[i]@,
{
}

} // verus!
