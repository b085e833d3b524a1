//! What a low-level keyboard hook does with each key.
//!
//! The hook sees a key before everyone else and can swallow it, which is how combinations that the
//! shell keeps for itself can be shortcuts too.

use crate::hotkey::{Shortcut, ALT, CTRL, SHIFT, WIN};
use vstd::prelude::*;

verus! {

/// The hook code of an event that is to be handled.
pub const HC_ACTION: i32 = 0;

/// The flag of an event that a program made up.
pub const LLKHF_INJECTED: u32 = 0x10;

pub const WM_KEYDOWN: u32 = 0x0100;

pub const WM_KEYUP: u32 = 0x0101;

pub const WM_SYSKEYDOWN: u32 = 0x0104;

pub const WM_SYSKEYUP: u32 = 0x0105;

/// How long the thread of the hook may take to report, in seconds.
pub const READY_TIMEOUT_SECS: u64 = 5;

/// A shortcut and the number that is reported when it fires.
#[derive(Debug, Clone, Copy, PartialEq, Eq, Structural)]
pub struct Binding {
    pub id: u32,
    pub shortcut: Shortcut,
}

/// The state of the hook.
#[derive(Debug)]
pub struct Hook {
    pub bindings: Vec<Binding>,
    /// The key whose press was swallowed: its release has to vanish too, or the window in focus
    /// gets the release of a key that was never pressed for it.
    pub swallowing: Option<u16>,
}

/// An event of the keyboard, as the hook gets it.
#[derive(Debug, Clone, Copy)]
pub struct KeyEvent {
    pub code: i32,
    pub message: u32,
    pub flags: u32,
    pub vk_code: u32,
}

/// What the hook does with an event.
#[derive(Debug, Clone, Copy, PartialEq, Eq, Structural)]
pub struct Verdict {
    /// The shortcut that fires.
    pub fire: Option<u32>,
    /// Nobody else gets the event.
    pub swallow: bool,
}

impl KeyEvent {
    /// The key.
    pub open spec fn vk(self) -> u16 {
        self.vk_code as u16
    }

    /// The event comes from the keyboard and is to be handled.
    pub open spec fn counts(self) -> bool {
        self.code == HC_ACTION && self.flags & LLKHF_INJECTED == 0
    }

    pub open spec fn is_press(self) -> bool {
        self.message == WM_KEYDOWN || self.message == WM_SYSKEYDOWN
    }

    pub open spec fn is_release(self) -> bool {
        self.message == WM_KEYUP || self.message == WM_SYSKEYUP
    }
}

/// The number of the first binding with that shortcut.
pub open spec fn first_match(bindings: Seq<Binding>, shortcut: Shortcut) -> Option<u32>
    decreases bindings.len(),
{
    if bindings.len() == 0 {
        None
    } else if bindings[0].shortcut == shortcut {
        Some(bindings[0].id)
    } else {
        first_match(bindings.drop_first(), shortcut)
    }
}

/// The verdict on an event while the modifiers `mods` are held, and the key whose release is to be
/// swallowed from then on.
pub open spec fn verdict(
    bindings: Seq<Binding>,
    swallowing: Option<u16>,
    event: KeyEvent,
    mods: u8,
) -> (Verdict, Option<u16>) {
    let fire = first_match(bindings, Shortcut { mods, vk: event.vk() });
    if event.counts() && event.is_press() && fire is Some {
        (Verdict { fire, swallow: true }, Some(event.vk()))
    } else if event.counts() && event.is_release() && swallowing == Some(event.vk()) {
        (Verdict { fire: None, swallow: true }, None)
    } else {
        (Verdict { fire: None, swallow: false }, swallowing)
    }
}

impl Hook {
    /// A hook that has seen no key yet.
    pub fn new(bindings: Vec<Binding>) -> (r: Self)
        ensures
            r.bindings == bindings,
            r.swallowing is None,
    {
        Hook { bindings, swallowing: None }
    }

    /// The number of the first binding with that shortcut.
    fn find(&self, shortcut: Shortcut) -> (r: Option<u32>)
        ensures
            r == first_match(self.bindings@, shortcut),
    {
        let mut i: usize = 0;
        let ghost all = self.bindings@;
        assert(all.skip(0) =~= all);
        while i < self.bindings.len()
            invariant
                i <= self.bindings@.len(),
                all == self.bindings@,
                first_match(all, shortcut) == first_match(all.skip(i as int), shortcut),
            decreases self.bindings@.len() - i,
        {
            assert(all.skip(i as int).drop_first() =~= all.skip(i + 1));
            if self.bindings[i].shortcut == shortcut {
                return Some(self.bindings[i].id);
            }
            i = i + 1;
        }
        None
    }

    /// Handles an event while the modifiers `mods` are held. What the application itself sends is
    /// left alone, or the hook would answer to its own keys.
    pub fn on_key(&mut self, event: KeyEvent, mods: u8) -> (r: Verdict)
        ensures
            (r, final(self).swallowing) == verdict(
                old(self).bindings@,
                old(self).swallowing,
                event,
                mods,
            ),
            final(self).bindings == old(self).bindings,
    {
        if event.code != HC_ACTION || event.flags & LLKHF_INJECTED != 0 {
            return Verdict { fire: None, swallow: false };
        }
        let vk: u16 = event.vk_code as u16;
        if event.message == WM_KEYDOWN || event.message == WM_SYSKEYDOWN {
            let fire = self.find(Shortcut { mods, vk });
            if fire.is_some() {
                self.swallowing = Some(vk);
                return Verdict { fire, swallow: true };
            }
        } else if event.message == WM_KEYUP || event.message == WM_SYSKEYUP {
            if let Some(swallowed) = self.swallowing {
                if swallowed == vk {
                    self.swallowing = None;
                    return Verdict { fire: None, swallow: true };
                }
            }
        }
        Verdict { fire: None, swallow: false }
    }
}

/// Whether a key is down, from its state: the highest bit tells.
pub fn is_down(state: i16) -> (r: bool)
    ensures
        r == (state as u16 & 0x8000 != 0),
        r == (state < 0),
{
    assert((state as u16 & 0x8000 != 0) == (state < 0)) by (bit_vector);
    state < 0
}

/// The modifiers that are held. Either of the two Windows keys counts.
pub open spec fn held_mods(ctrl: bool, alt: bool, shift: bool, win: bool) -> u8 {
    ((if ctrl {
        CTRL as int
    } else {
        0
    }) + (if alt {
        ALT as int
    } else {
        0
    }) + (if shift {
        SHIFT as int
    } else {
        0
    }) + (if win {
        WIN as int
    } else {
        0
    })) as u8
}

/// The modifiers that are held, from the states of their keys.
pub fn current_mods(control: i16, menu: i16, shift: i16, lwin: i16, rwin: i16) -> (r: u8)
    ensures
        r == held_mods(control < 0, menu < 0, shift < 0, lwin < 0 || rwin < 0),
{
    let mut mods: u8 = 0;
    if is_down(control) {
        mods = mods + CTRL;
    }
    if is_down(menu) {
        mods = mods + ALT;
    }
    if is_down(shift) {
        mods = mods + SHIFT;
    }
    if is_down(lwin) || is_down(rwin) {
        mods = mods + WIN;
    }
    mods
}

/// How the start of the hook went.
#[derive(Debug)]
pub enum Start {
    /// There is nothing to listen for.
    NotNeeded,
    /// The system gave no thread.
    NoThread(String),
    Installed,
    /// The system refused the hook.
    Refused(String),
    /// The thread did not report in time.
    Silent,
}

/// Whether a hook is needed for these shortcuts at all.
pub fn needs_hook(bindings: &Vec<Binding>) -> (r: bool)
    ensures
        r == (bindings@.len() > 0),
{
    bindings.len() > 0
}

/// What is told of a start that failed.
pub open spec fn start_failure(start: Start) -> Option<Seq<char>> {
    match start {
        Start::NotNeeded => None,
        Start::NoThread(e) => Some("nao subi a thread do hook: "@ + e@),
        Start::Installed => None,
        Start::Refused(e) => Some("SetWindowsHookEx falhou: "@ + e@),
        Start::Silent => Some("a thread do hook nao respondeu"@),
    }
}

/// The result of the start.
pub fn started(start: &Start) -> (r: Result<(), String>)
    ensures
        match r {
            Ok(()) => start_failure(*start) is None,
            Err(e) => start_failure(*start) == Some(e@),
        },
{
    match start {
        Start::NotNeeded => Ok(()),
        Start::Installed => Ok(()),
        Start::NoThread(e) => {
            let mut out = "nao subi a thread do hook: ".to_owned();
            out.append(e.as_str());
            Err(out)
        },
        Start::Refused(e) => {
            let mut out = "SetWindowsHookEx falhou: ".to_owned();
            out.append(e.as_str());
            Err(out)
        },
        Start::Silent => Err("a thread do hook nao respondeu".to_owned()),
    }
}

/// The state after a row of events, each with the modifiers held at its time.
pub open spec fn swallowing_after(
    bindings: Seq<Binding>,
    swallowing: Option<u16>,
    events: Seq<(KeyEvent, u8)>,
) -> Option<u16>
    decreases events.len(),
{
    if events.len() == 0 {
        swallowing
    } else {
        swallowing_after(
            bindings,
            verdict(bindings, swallowing, events[0].0, events[0].1).1,
            events.drop_first(),
        )
    }
}

/// What a program made up neither fires nor is swallowed nor changes anything.
pub proof fn injected_keys_pass(
    bindings: Seq<Binding>,
    swallowing: Option<u16>,
    event: KeyEvent,
    mods: u8,
)
    requires
        event.flags & LLKHF_INJECTED != 0,
    ensures
        verdict(bindings, swallowing, event, mods) == (
            Verdict { fire: None, swallow: false },
            swallowing,
        ),
{
}

/// A match is a binding with that very shortcut, and it is the first one.
pub proof fn match_is_first_and_exact(bindings: Seq<Binding>, shortcut: Shortcut)
    ensures
        match first_match(bindings, shortcut) {
            Some(id) => exists|i: int|
                0 <= i < bindings.len() && (#[trigger] bindings[i]).shortcut == shortcut
                    && bindings[i].id == id && forall|j: int|
                    0 <= j < i ==> (#[trigger] bindings[j]).shortcut != shortcut,
            None => forall|j: int|
                0 <= j < bindings.len() ==> (#[trigger] bindings[j]).shortcut != shortcut,
        },
    decreases bindings.len(),
{
    if bindings.len() > 0 && bindings[0].shortcut != shortcut {
        let rest = bindings.drop_first();
        match_is_first_and_exact(rest, shortcut);
        if first_match(bindings, shortcut) is Some {
            let id = first_match(bindings, shortcut)->0;
            let i = choose|i: int|
                0 <= i < rest.len() && (#[trigger] rest[i]).shortcut == shortcut && rest[i].id == id
                    && forall|j: int| 0 <= j < i ==> (#[trigger] rest[j]).shortcut != shortcut;
            assert(bindings[i + 1] == rest[i]);
            assert forall|j: int| 0 <= j < i + 1 implies (#[trigger] bindings[j]).shortcut
                != shortcut by {
                if j > 0 {
                    assert(rest[j - 1] == bindings[j]);
                }
            }
        } else {
            assert forall|j: int| 0 <= j < bindings.len() implies (#[trigger] bindings[j]).shortcut
                != shortcut by {
                if j > 0 {
                    assert(rest[j - 1] == bindings[j]);
                }
            }
        }
    }
}

/// A shortcut fires only on a press of its key with exactly its modifiers held, and the press is
/// swallowed in the whole system.
pub proof fn fires_on_exact_combination(
    bindings: Seq<Binding>,
    swallowing: Option<u16>,
    event: KeyEvent,
    mods: u8,
)
    ensures
        verdict(bindings, swallowing, event, mods).0.fire matches Some(id) ==> {
            &&& event.counts()
            &&& event.is_press()
            &&& verdict(bindings, swallowing, event, mods).0.swallow
            &&& exists|i: int|
                0 <= i < bindings.len() && (#[trigger] bindings[i]).id == id && bindings[i].shortcut
                    == (Shortcut { mods, vk: event.vk() })
        },
{
    match_is_first_and_exact(bindings, Shortcut { mods, vk: event.vk() });
}

/// Of two bindings with the same shortcut the second never fires.
pub proof fn repeated_shortcut_is_mute(bindings: Seq<Binding>, later: Binding, shortcut: Shortcut)
    requires
        exists|i: int| 0 <= i < bindings.len() && (#[trigger] bindings[i]).shortcut == later.shortcut,
    ensures
        first_match(bindings.push(later), shortcut) == first_match(bindings, shortcut),
    decreases bindings.len(),
{
    let i = choose|i: int|
        0 <= i < bindings.len() && (#[trigger] bindings[i]).shortcut == later.shortcut;
    let all = bindings.push(later);
    assert(all[0] == bindings[0]);
    assert(all.drop_first() =~= bindings.drop_first().push(later));
    if bindings[0].shortcut != shortcut {
        if i > 0 {
            assert(bindings.drop_first()[i - 1] == bindings[i]);
            repeated_shortcut_is_mute(bindings.drop_first(), later, shortcut);
        } else {
            lemma_other_binding_at_end(bindings.drop_first(), later, shortcut);
        }
    }
}

/// A binding with another shortcut does not change what fires.
proof fn lemma_other_binding_at_end(bindings: Seq<Binding>, later: Binding, shortcut: Shortcut)
    requires
        later.shortcut != shortcut,
    ensures
        first_match(bindings.push(later), shortcut) == first_match(bindings, shortcut),
    decreases bindings.len(),
{
    let all = bindings.push(later);
    if bindings.len() == 0 {
        assert(all.drop_first() =~= bindings);
    } else {
        assert(all.drop_first() =~= bindings.drop_first().push(later));
        lemma_other_binding_at_end(bindings.drop_first(), later, shortcut);
    }
}

/// After a swallowed press the release of that key is swallowed too, and only that one: whatever
/// came in between, as long as no other shortcut fired and the key was not released already.
pub proof fn release_follows_press(
    bindings: Seq<Binding>,
    swallowing: Option<u16>,
    press: KeyEvent,
    mods: u8,
    between: Seq<(KeyEvent, u8)>,
    release: KeyEvent,
    release_mods: u8,
)
    requires
        verdict(bindings, swallowing, press, mods).0.fire is Some,
        release.counts() && release.is_release() && release.vk() == press.vk(),
        forall|i: int|
            0 <= i < between.len() ==> {
                let e = (#[trigger] between[i]).0;
                &&& !(e.counts() && e.is_release() && e.vk() == press.vk())
                &&& e.counts() && e.is_press() && e.vk() != press.vk() ==> first_match(
                    bindings,
                    Shortcut { mods: between[i].1, vk: e.vk() },
                ) is None
            },
    ensures
        verdict(bindings, swallowing, press, mods).0.swallow,
        verdict(
            bindings,
            swallowing_after(
                bindings,
                verdict(bindings, swallowing, press, mods).1,
                between,
            ),
            release,
            release_mods,
        ) == (Verdict { fire: None, swallow: true }, None::<u16>),
{
    lemma_swallowing_lasts(bindings, press.vk(), between);
}

/// The release of a swallowed key stays awaited.
proof fn lemma_swallowing_lasts(bindings: Seq<Binding>, vk: u16, between: Seq<(KeyEvent, u8)>)
    requires
        forall|i: int|
            0 <= i < between.len() ==> {
                let e = (#[trigger] between[i]).0;
                &&& !(e.counts() && e.is_release() && e.vk() == vk)
                &&& e.counts() && e.is_press() && e.vk() != vk ==> first_match(
                    bindings,
                    Shortcut { mods: between[i].1, vk: e.vk() },
                ) is None
            },
    ensures
        swallowing_after(bindings, Some(vk), between) == Some(vk),
    decreases between.len(),
{
    if between.len() > 0 {
        let first = between[0];
        let rest = between.drop_first();
        assert forall|i: int| 0 <= i < rest.len() implies {
            let e = (#[trigger] rest[i]).0;
            &&& !(e.counts() && e.is_release() && e.vk() == vk)
            &&& e.counts() && e.is_press() && e.vk() != vk ==> first_match(
                bindings,
                Shortcut { mods: rest[i].1, vk: e.vk() },
            ) is None
        } by {
            assert(rest[i] == between[i + 1]);
        }
        lemma_swallowing_lasts(bindings, vk, rest);
    }
}

/// With no swallowed press before it, no release is swallowed.
pub proof fn lone_release_passes(bindings: Seq<Binding>, event: KeyEvent, mods: u8)
    requires
        event.is_release(),
    ensures
        verdict(bindings, None, event, mods) == (
            Verdict { fire: None, swallow: false },
            None::<u16>,
        ),
{
}

/// A press of a key with exactly the modifiers of some shortcut held fires the first such shortcut
/// and is swallowed, whatever the modifiers are; the release of the key is awaited from then on.
pub proof fn exact_combination_fires(
    bindings: Seq<Binding>,
    swallowing: Option<u16>,
    event: KeyEvent,
    mods: u8,
    i: int,
)
    requires
        event.code == 0,
        event.flags & 0x10 == 0,
        event.message == 0x0100 || event.message == 0x0104,
        0 <= i < bindings.len(),
        bindings[i].shortcut.mods == mods,
        bindings[i].shortcut.vk == event.vk_code as u16,
        forall|j: int|
            0 <= j < i ==> (#[trigger] bindings[j]).shortcut.mods != mods || bindings[j].shortcut.vk
                != event.vk_code as u16,
    ensures
        verdict(bindings, swallowing, event, mods) == (
            Verdict { fire: Some(bindings[i].id), swallow: true },
            Some(event.vk_code as u16),
        ),
{
    let shortcut = Shortcut { mods, vk: event.vk() };
    match_is_first_and_exact(bindings, shortcut);
    assert(bindings[i].shortcut == shortcut);
    let id = first_match(bindings, shortcut)->0;
    let k = choose|k: int|
        0 <= k < bindings.len() && (#[trigger] bindings[k]).shortcut == shortcut && bindings[k].id
            == id && forall|j: int| 0 <= j < k ==> (#[trigger] bindings[j]).shortcut != shortcut;
    assert(k == i);
}

/// A press that is no shortcut goes on to the window in focus, and changes nothing.
pub proof fn other_presses_pass(
    bindings: Seq<Binding>,
    swallowing: Option<u16>,
    event: KeyEvent,
    mods: u8,
)
    requires
        event.message == 0x0100 || event.message == 0x0104,
        forall|j: int|
            0 <= j < bindings.len() ==> (#[trigger] bindings[j]).shortcut.mods != mods
                || bindings[j].shortcut.vk != event.vk_code as u16,
    ensures
        verdict(bindings, swallowing, event, mods) == (
            Verdict { fire: None, swallow: false },
            swallowing,
        ),
{
    match_is_first_and_exact(bindings, Shortcut { mods, vk: event.vk() });
}

/// The release of the key whose press was swallowed is swallowed too, whatever is held by then, and
/// is awaited no longer; that of any other key goes on.
pub proof fn release_of_the_awaited_key(
    bindings: Seq<Binding>,
    awaited: u16,
    event: KeyEvent,
    mods: u8,
)
    requires
        event.code == 0,
        event.flags & 0x10 == 0,
        event.message == 0x0101 || event.message == 0x0105,
    ensures
        event.vk_code as u16 == awaited ==> verdict(bindings, Some(awaited), event, mods) == (
            Verdict { fire: None, swallow: true },
            None::<u16>,
        ),
        event.vk_code as u16 != awaited ==> verdict(bindings, Some(awaited), event, mods) == (
            Verdict { fire: None, swallow: false },
            Some(awaited),
        ),
{
}

/// What is neither a press nor a release, or is not to be handled, goes on and changes nothing.
pub proof fn other_events_pass(
    bindings: Seq<Binding>,
    swallowing: Option<u16>,
    event: KeyEvent,
    mods: u8,
)
    requires
        event.code != 0 || event.flags & 0x10 != 0 || (event.message != 0x0100 && event.message
            != 0x0101 && event.message != 0x0104 && event.message != 0x0105),
    ensures
        verdict(bindings, swallowing, event, mods) == (
            Verdict { fire: None, swallow: false },
            swallowing,
        ),
{
}

/// The number of held modifiers tells of each one whether it is held.
pub proof fn held_modifiers_are_told_apart(ctrl: bool, alt: bool, shift: bool, win: bool)
    ensures
        held_mods(ctrl, alt, shift, win) < 16,
        held_mods(ctrl, alt, shift, win) % 2 == 1 <==> ctrl,
        held_mods(ctrl, alt, shift, win) / 2 % 2 == 1 <==> alt,
        held_mods(ctrl, alt, shift, win) / 4 % 2 == 1 <==> shift,
        held_mods(ctrl, alt, shift, win) / 8 == 1 <==> win,
{
}

/// A start fails exactly where there is no thread, no hook or no report, and the reason of the
/// system is told last.
pub proof fn failed_start_is_told(reason: String)
    ensures
        start_failure(Start::NotNeeded) is None,
        start_failure(Start::Installed) is None,
        start_failure(Start::Silent) == Some("a thread do hook nao respondeu"@),
        start_failure(Start::NoThread(reason)) == Some("nao subi a thread do hook: "@ + reason@),
        start_failure(Start::Refused(reason)) == Some("SetWindowsHookEx falhou: "@ + reason@),
{
}

} // verus!
