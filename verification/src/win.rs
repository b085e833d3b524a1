//! Reading the selection of any window and putting the finished text back.
//!
//! The selection is taken by sending Ctrl+C and watching the clipboard, the one way that works in
//! every application.

use crate::text;
use crate::text::trim;
use vstd::prelude::*;

verus! {

pub const VK_SHIFT: u16 = 0x10;

pub const VK_CONTROL: u16 = 0x11;

pub const VK_MENU: u16 = 0x12;

pub const VK_LWIN: u16 = 0x5B;

pub const VK_RWIN: u16 = 0x5C;

pub const VK_C: u16 = 0x43;

pub const VK_V: u16 = 0x56;

/// A key without a function.
pub const VK_MASK: u16 = 0xE8;

/// The wait after the modifiers were released, in milliseconds.
pub const RELEASE_MS: u64 = 40;

/// The wait after the focus was moved, in milliseconds.
pub const FOCUS_MS: u64 = 80;

/// The wait before each look at the clipboard, in milliseconds.
pub const POLL_MS: u64 = 25;

/// How often the clipboard is looked at.
pub const POLLS: u32 = 24;

/// A key that is pressed or released by the application.
#[derive(Debug, Clone, Copy, PartialEq, Eq, Structural)]
pub struct KeyStroke {
    pub vk: u16,
    pub up: bool,
}

/// Which modifiers are held.
#[derive(Debug, Clone, Copy)]
pub struct Held {
    pub menu: bool,
    pub shift: bool,
    pub lwin: bool,
    pub rwin: bool,
    pub control: bool,
}

/// The release of a key, where it is held.
pub open spec fn release_if(held: bool, vk: u16) -> Seq<KeyStroke> {
    if held {
        seq![KeyStroke { vk, up: true }]
    } else {
        Seq::empty()
    }
}

/// A press and release of the key without a function. Alt and Windows act on their own when they
/// are released with no other key in between; this key comes in between.
pub open spec fn mask_strokes(held: Held) -> Seq<KeyStroke> {
    if held.menu || held.lwin || held.rwin {
        seq![KeyStroke { vk: VK_MASK, up: false }, KeyStroke { vk: VK_MASK, up: true }]
    } else {
        Seq::empty()
    }
}

/// The strokes that release the modifiers.
pub open spec fn release_strokes(held: Held) -> Seq<KeyStroke> {
    mask_strokes(held) + release_if(held.menu, VK_MENU) + release_if(held.shift, VK_SHIFT)
        + release_if(held.lwin, VK_LWIN) + release_if(held.rwin, VK_RWIN) + release_if(
        held.control,
        VK_CONTROL,
    )
}

/// The strokes that release the modifiers that are still held when a shortcut fires. Without them
/// the Ctrl+C that follows would be another combination for the window in focus.
pub fn release_modifiers(held: Held) -> (r: Vec<KeyStroke>)
    ensures
        r@ == release_strokes(held),
{
    let mut out: Vec<KeyStroke> = Vec::new();
    if held.menu || held.lwin || held.rwin {
        out.push(KeyStroke { vk: VK_MASK, up: false });
        out.push(KeyStroke { vk: VK_MASK, up: true });
    }
    if held.menu {
        out.push(KeyStroke { vk: VK_MENU, up: true });
    }
    if held.shift {
        out.push(KeyStroke { vk: VK_SHIFT, up: true });
    }
    if held.lwin {
        out.push(KeyStroke { vk: VK_LWIN, up: true });
    }
    if held.rwin {
        out.push(KeyStroke { vk: VK_RWIN, up: true });
    }
    if held.control {
        out.push(KeyStroke { vk: VK_CONTROL, up: true });
    }
    assert(out@ =~= release_strokes(held));
    out
}

/// The strokes of Ctrl and a key.
pub open spec fn ctrl_strokes(vk: u16) -> Seq<KeyStroke> {
    seq![
        KeyStroke { vk: VK_CONTROL, up: false },
        KeyStroke { vk, up: false },
        KeyStroke { vk, up: true },
        KeyStroke { vk: VK_CONTROL, up: true },
    ]
}

/// The strokes of Ctrl and a key.
pub fn press_with_ctrl(vk: u16) -> (r: Vec<KeyStroke>)
    ensures
        r@ == ctrl_strokes(vk),
{
    let mut out: Vec<KeyStroke> = Vec::new();
    out.push(KeyStroke { vk: VK_CONTROL, up: false });
    out.push(KeyStroke { vk, up: false });
    out.push(KeyStroke { vk, up: true });
    out.push(KeyStroke { vk: VK_CONTROL, up: true });
    assert(out@ =~= ctrl_strokes(vk));
    out
}

/// The keys that are down after the strokes.
pub open spec fn down_after(down: Set<u16>, strokes: Seq<KeyStroke>) -> Set<u16>
    decreases strokes.len(),
{
    if strokes.len() == 0 {
        down
    } else {
        let before = down_after(down, strokes.drop_last());
        if strokes.last().up {
            before.remove(strokes.last().vk)
        } else {
            before.insert(strokes.last().vk)
        }
    }
}

/// The modifiers that are held.
pub open spec fn held_keys(held: Held) -> Set<u16> {
    Set::new(
        |vk: u16|
            {
                ||| vk == VK_MENU && held.menu
                ||| vk == VK_SHIFT && held.shift
                ||| vk == VK_LWIN && held.lwin
                ||| vk == VK_RWIN && held.rwin
                ||| vk == VK_CONTROL && held.control
            },
    )
}

/// After the strokes no modifier is held any more.
pub proof fn release_leaves_nothing_held(held: Held)
    ensures
        down_after(held_keys(held), release_strokes(held)) == Set::<u16>::empty(),
{
    let none = Seq::<KeyStroke>::empty();
    let a = mask_strokes(held);
    let b = a + release_if(held.menu, VK_MENU);
    let c = b + release_if(held.shift, VK_SHIFT);
    let d = c + release_if(held.lwin, VK_LWIN);
    let e = d + release_if(held.rwin, VK_RWIN);
    let keys = held_keys(held);
    if a.len() > 0 {
        assert(a.drop_last() =~= seq![KeyStroke { vk: VK_MASK, up: false }]);
        assert(a.drop_last().drop_last() =~= none);
        reveal_with_fuel(down_after, 3);
        assert(keys.insert(VK_MASK).remove(VK_MASK) =~= keys);
    }
    assert(down_after(keys, a) =~= keys);
    lemma_release_if(keys, a, held.menu, VK_MENU);
    lemma_release_if(keys, b, held.shift, VK_SHIFT);
    lemma_release_if(keys, c, held.lwin, VK_LWIN);
    lemma_release_if(keys, d, held.rwin, VK_RWIN);
    lemma_release_if(keys, e, held.control, VK_CONTROL);
    assert(down_after(keys, release_strokes(held)) =~= Set::<u16>::empty());
}

/// One release more.
proof fn lemma_release_if(down: Set<u16>, before: Seq<KeyStroke>, held: bool, vk: u16)
    ensures
        down_after(down, before + release_if(held, vk)) == (if held {
            down_after(down, before).remove(vk)
        } else {
            down_after(down, before)
        }),
{
    let all = before + release_if(held, vk);
    if held {
        assert(all.drop_last() =~= before);
    } else {
        assert(all =~= before);
    }
}

/// Ctrl and a key leave down what was down, but for the two keys themselves.
pub proof fn ctrl_strokes_are_balanced(down: Set<u16>, vk: u16)
    ensures
        down_after(down, ctrl_strokes(vk)) == down.remove(vk).remove(VK_CONTROL),
{
    let s = ctrl_strokes(vk);
    reveal_with_fuel(down_after, 5);
    assert(s.drop_last() =~= s.take(3));
    assert(s.take(3).drop_last() =~= s.take(2));
    assert(s.take(2).drop_last() =~= s.take(1));
    assert(s.take(1).drop_last() =~= s.take(0));
    assert(down_after(down, s) =~= down.remove(vk).remove(VK_CONTROL));
}

/// Alt and Windows are never released right after they were pressed: the key without a function
/// comes first.
pub proof fn mask_comes_before_alt_and_win(held: Held)
    requires
        held.menu || held.lwin || held.rwin,
    ensures
        release_strokes(held).len() > 2,
        release_strokes(held)[0] == (KeyStroke { vk: VK_MASK, up: false }),
        release_strokes(held)[1] == (KeyStroke { vk: VK_MASK, up: true }),
{
}

/// What was taken from the window in focus.
#[derive(Debug)]
pub struct Capture {
    /// The selected text.
    pub text: String,
    /// What the clipboard held before, to be restored when the user cancels.
    pub previous_clipboard: Option<String>,
}

/// What to do after a look at the clipboard.
#[derive(Debug, Clone, Copy, PartialEq, Eq, Structural)]
pub enum Poll {
    /// Wait and look again.
    Again,
    /// The clipboard changed: read it.
    Read,
    /// The window did not answer.
    GiveUp,
}

/// The wait for a window to answer Ctrl+C.
#[derive(Debug)]
pub struct CaptureWait {
    /// The number of the clipboard before Ctrl+C.
    pub before: u32,
    /// How often the clipboard was looked at.
    pub looks: u32,
}

/// What to do when the clipboard has the number `now` at the look after `looks` ones.
pub open spec fn looked(before: u32, looks: u32, now: u32) -> Poll {
    if now != before {
        Poll::Read
    } else if looks + 1 < POLLS {
        Poll::Again
    } else {
        Poll::GiveUp
    }
}

/// A window that does not answer is given up after exactly so many looks, 600 milliseconds in all;
/// one that answers is read at the first look that shows it.
pub proof fn capture_wait_is_bounded(before: u32, looks: u32, now: u32)
    requires
        looks < POLLS,
    ensures
        POLLS * POLL_MS == 600,
        looked(before, looks, now) == Poll::Read <==> now != before,
        looked(before, looks, before) == Poll::GiveUp <==> looks == POLLS - 1,
{
}

impl CaptureWait {
    /// The wait has not run out.
    pub open spec fn waiting(&self) -> bool {
        self.looks < POLLS
    }

    /// A wait that starts now.
    pub fn new(before: u32) -> (r: Self)
        ensures
            r.before == before,
            r.looks == 0,
            r.waiting(),
    {
        CaptureWait { before, looks: 0 }
    }

    /// Takes the number of the clipboard at the next look.
    pub fn look(&mut self, now: u32) -> (r: Poll)
        requires
            old(self).waiting(),
        ensures
            final(self).before == old(self).before,
            final(self).looks == old(self).looks + 1,
            r == looked(old(self).before, old(self).looks, now),
            r == Poll::Again ==> final(self).waiting(),
    {
        self.looks = self.looks + 1;
        if now != self.before {
            Poll::Read
        } else if self.looks < POLLS {
            Poll::Again
        } else {
            Poll::GiveUp
        }
    }
}

/// The text that was captured.
pub open spec fn captured_text(copied: Option<Seq<char>>) -> Seq<char> {
    match copied {
        Some(s) => text::trimmed(s),
        None => Seq::empty(),
    }
}

/// What was captured, from what the clipboard gave after it changed, if it changed and held a text.
pub fn capture_selection(copied: Option<String>, previous_clipboard: Option<String>) -> (r: Capture)
    ensures
        r.text@ == captured_text(text::opt_string(copied)),
        r.previous_clipboard == previous_clipboard,
{
    let text = match copied {
        Some(s) => trim(s.as_str()).to_owned(),
        None => String::new(),
    };
    Capture { text, previous_clipboard }
}

/// The window to bring to the front: none for the handle zero.
pub open spec fn window_to_focus(handle: isize) -> Option<isize> {
    if handle == 0 {
        None
    } else {
        Some(handle)
    }
}

/// The window to bring to the front: none for the handle zero.
pub fn focus_window(handle: isize) -> (r: Option<isize>)
    ensures
        r == window_to_focus(handle),
{
    if handle == 0 {
        None
    } else {
        Some(handle)
    }
}

/// The position of the cursor, or the origin where the system does not tell it.
pub open spec fn known_position(point: Option<(i32, i32)>) -> (i32, i32) {
    match point {
        Some(p) => p,
        None => (0i32, 0i32),
    }
}

/// The position of the cursor, or the origin where the system does not tell it.
pub fn cursor_pos(point: Option<(i32, i32)>) -> (r: (i32, i32))
    ensures
        r == known_position(point),
{
    match point {
        Some(p) => p,
        None => (0, 0),
    }
}

/// A step of an exchange with another window.
#[derive(Debug)]
pub enum Step {
    /// Put a text into the clipboard; where that fails, the rest is not done.
    SetClipboard(String),
    /// Bring a window to the front.
    Focus(isize),
    /// Wait so many milliseconds.
    Sleep(u64),
    /// Release the modifiers that are held, and wait [`RELEASE_MS`] if there was any.
    ReleaseModifiers,
    /// Send Ctrl and a key.
    PressWithCtrl(u16),
}

/// The model of a [`Step`].
pub enum StepView {
    SetClipboard(Seq<char>),
    Focus(isize),
    Sleep(u64),
    ReleaseModifiers,
    PressWithCtrl(u16),
}

impl View for Step {
    type V = StepView;

    open spec fn view(&self) -> StepView {
        match self {
            Step::SetClipboard(s) => StepView::SetClipboard(s@),
            Step::Focus(handle) => StepView::Focus(*handle),
            Step::Sleep(ms) => StepView::Sleep(*ms),
            Step::ReleaseModifiers => StepView::ReleaseModifiers,
            Step::PressWithCtrl(vk) => StepView::PressWithCtrl(*vk),
        }
    }
}

/// The models of the steps of a list.
pub open spec fn step_views(steps: Seq<Step>) -> Seq<StepView> {
    steps.map_values(|s: Step| s@)
}

/// The steps that copy the selection of the window in focus.
pub fn copy_steps() -> (r: Vec<Step>)
    ensures
        step_views(r@) == seq![StepView::ReleaseModifiers, StepView::PressWithCtrl(VK_C)],
{
    let mut out: Vec<Step> = Vec::new();
    out.push(Step::ReleaseModifiers);
    out.push(Step::PressWithCtrl(VK_C));
    assert(step_views(out@) =~= seq![StepView::ReleaseModifiers, StepView::PressWithCtrl(VK_C)]);
    out
}

/// The steps that paste a text into a window: the text goes to the clipboard and the focus back to
/// the window before any key is sent.
pub open spec fn paste_steps(handle: isize, content: Seq<char>) -> Seq<StepView> {
    seq![StepView::SetClipboard(content)] + (if handle == 0 {
        Seq::empty()
    } else {
        seq![StepView::Focus(handle)]
    }) + seq![
        StepView::Sleep(FOCUS_MS),
        StepView::ReleaseModifiers,
        StepView::PressWithCtrl(VK_V),
    ]
}

/// The steps that paste a text into a window.
pub fn paste_into(handle: isize, content: &str) -> (r: Vec<Step>)
    ensures
        step_views(r@) == paste_steps(handle, content@),
{
    let mut out: Vec<Step> = Vec::new();
    out.push(Step::SetClipboard(content.to_owned()));
    if let Some(window) = focus_window(handle) {
        out.push(Step::Focus(window));
    }
    out.push(Step::Sleep(FOCUS_MS));
    out.push(Step::ReleaseModifiers);
    out.push(Step::PressWithCtrl(VK_V));
    assert(step_views(out@) =~= paste_steps(handle, content@));
    out
}

/// What is told of a failure of the clipboard.
pub fn clipboard_error(e: &str) -> (r: String)
    ensures
        r@ == "clipboard: "@ + e@,
{
    let mut out = "clipboard: ".to_owned();
    out.append(e);
    out
}

/// How many of the five are held.
pub open spec fn held_count(held: Held) -> int {
    (if held.menu {
        1int
    } else {
        0
    }) + (if held.shift {
        1int
    } else {
        0
    }) + (if held.lwin {
        1int
    } else {
        0
    }) + (if held.rwin {
        1int
    } else {
        0
    }) + (if held.control {
        1int
    } else {
        0
    })
}

/// Nothing is sent but one release for each modifier that is held and, before them, the key without
/// a function where Alt or Windows is among them. Ctrl is released last.
pub proof fn only_held_modifiers_are_released(held: Held, i: int)
    ensures
        release_strokes(held).len() == held_count(held) + (if held.menu || held.lwin || held.rwin {
            2int
        } else {
            0
        }),
        0 <= i < release_strokes(held).len() ==> {
            let stroke = release_strokes(held)[i];
            if (held.menu || held.lwin || held.rwin) && i < 2 {
                stroke.vk == 0xE8 && stroke.up == (i == 1)
            } else {
                stroke.up && {
                    ||| stroke.vk == 0x12 && held.menu
                    ||| stroke.vk == 0x10 && held.shift
                    ||| stroke.vk == 0x5B && held.lwin
                    ||| stroke.vk == 0x5C && held.rwin
                    ||| stroke.vk == 0x11 && held.control
                }
            }
        },
        held.control ==> release_strokes(held).last() == (KeyStroke { vk: 0x11, up: true }),
{
}

/// The key goes down and up while Ctrl is down, and Ctrl is down at no other time.
pub proof fn key_is_pressed_while_ctrl_is_down(down: Set<u16>, vk: u16)
    requires
        vk != 0x11,
    ensures
        ctrl_strokes(vk).len() == 4,
        down_after(down, ctrl_strokes(vk).take(1)) == down.insert(0x11),
        down_after(down, ctrl_strokes(vk).take(2)) == down.insert(0x11).insert(vk),
        down_after(down, ctrl_strokes(vk).take(3)) == down.insert(0x11).remove(vk),
        down_after(down, ctrl_strokes(vk)) == down.remove(0x11).remove(vk),
{
    let s = ctrl_strokes(vk);
    reveal_with_fuel(down_after, 5);
    assert(s.drop_last() =~= s.take(3));
    assert(s.take(3).drop_last() =~= s.take(2));
    assert(s.take(2).drop_last() =~= s.take(1));
    assert(s.take(1).drop_last() =~= s.take(0));
    assert(down_after(down, s.take(1)) =~= down.insert(0x11));
    assert(down_after(down, s.take(2)) =~= down.insert(0x11).insert(vk));
    assert(down_after(down, s.take(3)) =~= down.insert(0x11).remove(vk));
    assert(down_after(down, s) =~= down.remove(0x11).remove(vk));
}

/// A text is pasted in this order: it goes to the clipboard, the focus goes to the window if there
/// is one, the window is given time, the modifiers are released, and Ctrl+V is sent, once.
pub proof fn pasting_goes_step_by_step(handle: isize, content: Seq<char>, i: int)
    ensures
        ({
            let steps = paste_steps(handle, content);
            &&& steps[0] == StepView::SetClipboard(content)
            &&& handle != 0 ==> steps.len() == 5 && steps[1] == StepView::Focus(handle)
            &&& handle == 0 ==> steps.len() == 4 && !(0 <= i < 4 && steps[i] is Focus)
            &&& steps[steps.len() - 3] == StepView::Sleep(80)
            &&& steps[steps.len() - 2] == StepView::ReleaseModifiers
            &&& steps.last() == StepView::PressWithCtrl(0x56)
            &&& 0 <= i < steps.len() - 1 ==> steps[i] !is PressWithCtrl
        }),
{
}

/// The selection counts without white space around it, and is empty where nothing was copied; the
/// handle zero is no window; and the position of the cursor is the one that the system tells.
pub proof fn what_the_system_tells_counts(
    before: Seq<char>,
    selected: Seq<char>,
    after: Seq<char>,
    handle: isize,
    x: i32,
    y: i32,
)
    requires
        text::blank(before) && text::blank(after),
        selected.len() > 0 ==> !text::is_white(selected[0]) && !text::is_white(selected.last()),
    ensures
        captured_text(Some(before + selected + after)) == selected,
        captured_text(None) == Seq::<char>::empty(),
        window_to_focus(0) is None,
        handle != 0 ==> window_to_focus(handle) == Some(handle),
        known_position(Some((x, y))) == (x, y),
        known_position(None) == (0i32, 0i32),
{
    text::trimming_gives_the_middle(before, selected, after);
}

/// The models of steps hold all of them, in their order, and the waits are those that other windows
/// need.
pub proof fn models_of_steps(s: String, handle: isize, ms: u64, vk: u16, steps: Seq<Step>, i: int)
    ensures
        Step::SetClipboard(s)@ == StepView::SetClipboard(s@),
        Step::Focus(handle)@ == StepView::Focus(handle),
        Step::Sleep(ms)@ == StepView::Sleep(ms),
        Step::ReleaseModifiers@ == StepView::ReleaseModifiers,
        Step::PressWithCtrl(vk)@ == StepView::PressWithCtrl(vk),
        step_views(steps).len() == steps.len(),
        0 <= i < steps.len() ==> step_views(steps)[i] == steps[i]@,
        VK_C == 0x43,
        VK_V == 0x56,
        RELEASE_MS == 40,
        FOCUS_MS == 80,
        POLL_MS == 25,
{
}

} // verus!
