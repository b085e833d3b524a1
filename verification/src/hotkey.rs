//! Shortcuts written as "ctrl+alt+e", "win+b" or "ctrl+shift+space".
//!
//! The result is a Windows virtual-key code, because a low-level keyboard hook listens for it
//! (see [`crate::hook`]).

use crate::text;
use crate::text::{char_vec, equals, parse_u16, split, strip_head, to_lower, trim};
use vstd::prelude::*;

verus! {

pub const CTRL: u8 = 1;

pub const ALT: u8 = 2;

pub const SHIFT: u8 = 4;

pub const WIN: u8 = 8;

/// A combination of modifiers and one key.
#[derive(Debug, Clone, Copy, PartialEq, Eq, Structural)]
pub struct Shortcut {
    /// The exact combination of modifiers: ctrl+b does not fire while shift is held too.
    pub mods: u8,
    pub vk: u16,
}

/// Why a text is no shortcut.
#[derive(Debug)]
pub enum ParseErrorKind {
    /// It names more than one main key.
    SecondKey,
    /// It names this key, which does not exist.
    UnknownKey(String),
    /// It names modifiers only.
    NoKey,
    /// It names no modifier.
    NoModifier,
}

/// A text that is no shortcut.
#[derive(Debug)]
pub struct ParseError {
    pub spec: String,
    pub kind: ParseErrorKind,
}

/// The model of [`ParseErrorKind`].
pub enum Refusal {
    SecondKey,
    UnknownKey(Seq<char>),
    NoKey,
    NoModifier,
}

impl View for ParseErrorKind {
    type V = Refusal;

    open spec fn view(&self) -> Refusal {
        match self {
            ParseErrorKind::SecondKey => Refusal::SecondKey,
            ParseErrorKind::UnknownKey(key) => Refusal::UnknownKey(key@),
            ParseErrorKind::NoKey => Refusal::NoKey,
            ParseErrorKind::NoModifier => Refusal::NoModifier,
        }
    }
}

/// One part of a shortcut, as it is compared: without white space around it, in lower case.
pub open spec fn token(part: Seq<char>) -> Seq<char> {
    text::lower(text::trimmed(part))
}

/// The modifier that a token names.
pub open spec fn modifier(t: Seq<char>) -> Option<u8> {
    if t == "ctrl"@ || t == "control"@ {
        Some(CTRL)
    } else if t == "alt"@ || t == "option"@ {
        Some(ALT)
    } else if t == "shift"@ {
        Some(SHIFT)
    } else if t == "win"@ || t == "super"@ || t == "meta"@ || t == "cmd"@ {
        Some(WIN)
    } else {
        None
    }
}

/// Some part names the modifier `m`.
pub open spec fn names_modifier(parts: Seq<Seq<char>>, m: u8) -> bool {
    exists|i: int| 0 <= i < parts.len() && modifier(token(#[trigger] parts[i])) == Some(m)
}

/// The tokens that are neither empty nor modifiers, in their order.
pub open spec fn main_keys(parts: Seq<Seq<char>>) -> Seq<Seq<char>>
    decreases parts.len(),
{
    if parts.len() == 0 {
        Seq::empty()
    } else {
        let before = main_keys(parts.drop_last());
        let t = token(parts.last());
        if t.len() > 0 && modifier(t) is None {
            before.push(t)
        } else {
            before
        }
    }
}

/// The modifiers that the parts name.
pub open spec fn modifiers(parts: Seq<Seq<char>>) -> u8 {
    ((if names_modifier(parts, CTRL) {
        CTRL as int
    } else {
        0
    }) + (if names_modifier(parts, ALT) {
        ALT as int
    } else {
        0
    }) + (if names_modifier(parts, SHIFT) {
        SHIFT as int
    } else {
        0
    }) + (if names_modifier(parts, WIN) {
        WIN as int
    } else {
        0
    })) as u8
}

/// The virtual-key code of a key with a name of its own. The punctuation keys follow the US layout.
pub open spec fn named_key(key: Seq<char>) -> Option<u16> {
    if key == "space"@ {
        Some(0x20u16)
    } else if key == "enter"@ || key == "return"@ {
        Some(0x0Du16)
    } else if key == "tab"@ {
        Some(0x09u16)
    } else if key == "backspace"@ {
        Some(0x08u16)
    } else if key == "insert"@ {
        Some(0x2Du16)
    } else if key == "delete"@ || key == "del"@ {
        Some(0x2Eu16)
    } else if key == "home"@ {
        Some(0x24u16)
    } else if key == "end"@ {
        Some(0x23u16)
    } else if key == "pageup"@ {
        Some(0x21u16)
    } else if key == "pagedown"@ {
        Some(0x22u16)
    } else if key == "up"@ {
        Some(0x26u16)
    } else if key == "down"@ {
        Some(0x28u16)
    } else if key == "left"@ {
        Some(0x25u16)
    } else if key == "right"@ {
        Some(0x27u16)
    } else if key == ","@ {
        Some(0xBCu16)
    } else if key == "."@ {
        Some(0xBEu16)
    } else if key == ";"@ {
        Some(0xBAu16)
    } else if key == "'"@ {
        Some(0xDEu16)
    } else if key == "["@ {
        Some(0xDBu16)
    } else if key == "]"@ {
        Some(0xDDu16)
    } else if key == "\\"@ {
        Some(0xDCu16)
    } else if key == "/"@ {
        Some(0xBFu16)
    } else if key == "-"@ {
        Some(0xBDu16)
    } else if key == "="@ {
        Some(0xBBu16)
    } else if key == "`"@ {
        Some(0xC0u16)
    } else {
        None
    }
}

/// The virtual-key code of a key.
pub open spec fn key_code(key: Seq<char>) -> Option<u16> {
    if key.len() == 1 && 'a' <= key[0] <= 'z' {
        Some((0x41 + (key[0] as u16 - 'a' as u16)) as u16)
    } else if key.len() == 1 && '0' <= key[0] <= '9' {
        Some((0x30 + (key[0] as u16 - '0' as u16)) as u16)
    } else if function_key(key) is Some {
        function_key(key)
    } else {
        named_key(key)
    }
}

/// The virtual-key code of `f1` to `f24`.
pub open spec fn function_key(key: Seq<char>) -> Option<u16> {
    match text::after_prefix(key, "f"@) {
        Some(number) => match text::unsigned_value(number) {
            Some(n) => if 1 <= n <= 24 {
                Some((0x70 + n - 1) as u16)
            } else {
                None
            },
            None => None,
        },
        None => None,
    }
}

/// The shortcut that the parts write, or the reason why they write none.
pub open spec fn shortcut_of(parts: Seq<Seq<char>>) -> Result<Shortcut, Refusal> {
    let keys = main_keys(parts);
    if keys.len() == 0 {
        Err(Refusal::NoKey)
    } else if key_code(keys[0]) is None {
        Err(Refusal::UnknownKey(keys[0]))
    } else if keys.len() > 1 {
        Err(Refusal::SecondKey)
    } else if modifiers(parts) == 0 {
        Err(Refusal::NoModifier)
    } else {
        Ok(Shortcut { mods: modifiers(parts), vk: key_code(keys[0])->0 })
    }
}

/// The shortcut that a text writes, or the reason why it writes none.
pub open spec fn parsed(s: Seq<char>) -> Result<Shortcut, Refusal> {
    shortcut_of(text::pieces(s, '+'))
}

/// The keys of the first parts are the first keys.
proof fn lemma_main_keys_prefix(parts: Seq<Seq<char>>, n: int)
    requires
        0 <= n <= parts.len(),
    ensures
        main_keys(parts.take(n)).len() <= main_keys(parts).len(),
        forall|i: int|
            0 <= i < main_keys(parts.take(n)).len() ==> main_keys(parts)[i] == #[trigger] main_keys(
                parts.take(n),
            )[i],
    decreases parts.len(),
{
    if n < parts.len() {
        lemma_main_keys_prefix(parts.drop_last(), n);
        assert(parts.drop_last().take(n) =~= parts.take(n));
    } else {
        assert(parts.take(n) =~= parts);
    }
}

/// One more part.
proof fn lemma_step(parts: Seq<Seq<char>>, i: int)
    requires
        0 <= i < parts.len(),
    ensures
        main_keys(parts.take(i + 1)) == (if token(parts[i]).len() > 0 && modifier(
            token(parts[i]),
        ) is None {
            main_keys(parts.take(i)).push(token(parts[i]))
        } else {
            main_keys(parts.take(i))
        }),
        forall|m: u8|
            #[trigger] names_modifier(parts.take(i + 1), m) <==> names_modifier(parts.take(i), m)
                || modifier(token(parts[i])) == Some(m),
{
    assert(parts.take(i + 1).drop_last() =~= parts.take(i));
    assert forall|m: u8|
        #[trigger] names_modifier(parts.take(i + 1), m) <==> names_modifier(parts.take(i), m)
            || modifier(token(parts[i])) == Some(m) by {
        if names_modifier(parts.take(i + 1), m) {
            let j = choose|j: int|
                0 <= j < parts.take(i + 1).len() && modifier(
                    token(#[trigger] parts.take(i + 1)[j]),
                ) == Some(m);
            if j < i {
                assert(parts.take(i)[j] == parts.take(i + 1)[j]);
            }
        }
        if names_modifier(parts.take(i), m) {
            let j = choose|j: int|
                0 <= j < parts.take(i).len() && modifier(token(#[trigger] parts.take(i)[j]))
                    == Some(m);
            assert(parts.take(i + 1)[j] == parts.take(i)[j]);
        }
        if modifier(token(parts[i])) == Some(m) {
            assert(parts.take(i + 1)[i] == parts[i]);
        }
    }
}

/// The empty token names nothing.
proof fn lemma_empty_token(t: Seq<char>)
    requires
        t.len() == 0,
    ensures
        modifier(t) is None,
{
    reveal_strlit("ctrl");
    reveal_strlit("control");
    reveal_strlit("alt");
    reveal_strlit("option");
    reveal_strlit("shift");
    reveal_strlit("win");
    reveal_strlit("super");
    reveal_strlit("meta");
    reveal_strlit("cmd");
}

/// The modifier that a token names.
fn modifier_of(t: &str) -> (r: Option<u8>)
    ensures
        r == modifier(t@),
{
    if equals(t, "ctrl") || equals(t, "control") {
        Some(CTRL)
    } else if equals(t, "alt") || equals(t, "option") {
        Some(ALT)
    } else if equals(t, "shift") {
        Some(SHIFT)
    } else if equals(t, "win") || equals(t, "super") || equals(t, "meta") || equals(t, "cmd") {
        Some(WIN)
    } else {
        None
    }
}

/// Reads a shortcut: one or more modifiers and exactly one key, joined by `+`.
pub fn parse(spec: &str) -> (r: Result<Shortcut, ParseError>)
    ensures
        match r {
            Ok(shortcut) => parsed(spec@) == Ok::<Shortcut, Refusal>(shortcut),
            Err(e) => parsed(spec@) == Err::<Shortcut, Refusal>(e.kind@) && e.spec@ == spec@,
        },
{
    let parts = split(spec, '+');
    let ghost all = text::pieces(spec@, '+');
    let mut ctrl: bool = false;
    let mut alt: bool = false;
    let mut shift: bool = false;
    let mut win: bool = false;
    let mut vk: Option<u16> = None;
    let mut i: usize = 0;
    while i < parts.len()
        invariant
            i <= parts@.len(),
            text::contents(parts@) == all,
            all == text::pieces(spec@, '+'),
            ctrl == names_modifier(all.take(i as int), CTRL),
            alt == names_modifier(all.take(i as int), ALT),
            shift == names_modifier(all.take(i as int), SHIFT),
            win == names_modifier(all.take(i as int), WIN),
            match vk {
                None => main_keys(all.take(i as int)).len() == 0,
                Some(code) => main_keys(all.take(i as int)).len() == 1 && key_code(
                    main_keys(all.take(i as int))[0],
                ) == Some(code),
            },
        decreases parts@.len() - i,
    {
        let part = to_lower(trim(parts[i].as_str()));
        proof {
            assert(all[i as int] == parts@[i as int]@);
            lemma_step(all, i as int);
            lemma_main_keys_prefix(all, i + 1);
            if part@.len() == 0 {
                lemma_empty_token(part@);
            } else if modifier(part@) is None {
                let keys = main_keys(all.take(i + 1));
                assert(main_keys(all)[0] == keys[0]);
                assert(keys.last() == part@);
            }
        }
        if !part.as_str().is_empty() {
            match modifier_of(part.as_str()) {
                Some(m) => {
                    if m == CTRL {
                        ctrl = true;
                    } else if m == ALT {
                        alt = true;
                    } else if m == SHIFT {
                        shift = true;
                    } else {
                        win = true;
                    }
                },
                None => {
                    if vk.is_some() {
                        return Err(
                            ParseError { spec: spec.to_owned(), kind: ParseErrorKind::SecondKey },
                        );
                    }
                    match parse_vk(part.as_str()) {
                        Some(code) => {
                            vk = Some(code);
                        },
                        None => {
                            return Err(
                                ParseError {
                                    spec: spec.to_owned(),
                                    kind: ParseErrorKind::UnknownKey(part),
                                },
                            );
                        },
                    }
                },
            }
        }
        i = i + 1;
    }
    assert(all.take(i as int) =~= all);
    let mut mods: u8 = 0;
    if ctrl {
        mods = mods + CTRL;
    }
    if alt {
        mods = mods + ALT;
    }
    if shift {
        mods = mods + SHIFT;
    }
    if win {
        mods = mods + WIN;
    }
    match vk {
        None => Err(ParseError { spec: spec.to_owned(), kind: ParseErrorKind::NoKey }),
        Some(code) => {
            if mods == 0 {
                Err(ParseError { spec: spec.to_owned(), kind: ParseErrorKind::NoModifier })
            } else {
                Ok(Shortcut { mods, vk: code })
            }
        },
    }
}

/// The virtual-key code of a key. Letters, digits and named keys are the same on every layout; the
/// punctuation keys use the codes of the US layout.
pub fn parse_vk(key: &str) -> (r: Option<u16>)
    ensures
        r == key_code(key@),
{
    let chars = char_vec(key);
    if chars.len() == 1 {
        let c: char = chars[0];
        if 'a' <= c && c <= 'z' {
            return Some(0x41 + (c as u16 - 'a' as u16));
        }
        if '0' <= c && c <= '9' {
            return Some(0x30 + (c as u16 - '0' as u16));
        }
    }
    if let Some(number) = strip_head(key, "f") {
        if let Some(index) = parse_u16(number) {
            if 1 <= index && index <= 24 {
                return Some(0x70 + index - 1);
            }
        }
    }
    named_vk(key)
}

/// The virtual-key code of a key with a name of its own.
fn named_vk(key: &str) -> (r: Option<u16>)
    ensures
        r == named_key(key@),
{
    if equals(key, "space") {
        Some(0x20)
    } else if equals(key, "enter") || equals(key, "return") {
        Some(0x0D)
    } else if equals(key, "tab") {
        Some(0x09)
    } else if equals(key, "backspace") {
        Some(0x08)
    } else if equals(key, "insert") {
        Some(0x2D)
    } else if equals(key, "delete") || equals(key, "del") {
        Some(0x2E)
    } else if equals(key, "home") {
        Some(0x24)
    } else if equals(key, "end") {
        Some(0x23)
    } else if equals(key, "pageup") {
        Some(0x21)
    } else if equals(key, "pagedown") {
        Some(0x22)
    } else if equals(key, "up") {
        Some(0x26)
    } else if equals(key, "down") {
        Some(0x28)
    } else if equals(key, "left") {
        Some(0x25)
    } else if equals(key, "right") {
        Some(0x27)
    } else if equals(key, ",") {
        Some(0xBC)
    } else if equals(key, ".") {
        Some(0xBE)
    } else if equals(key, ";") {
        Some(0xBA)
    } else if equals(key, "'") {
        Some(0xDE)
    } else if equals(key, "[") {
        Some(0xDB)
    } else if equals(key, "]") {
        Some(0xDD)
    } else if equals(key, "\\") {
        Some(0xDC)
    } else if equals(key, "/") {
        Some(0xBF)
    } else if equals(key, "-") {
        Some(0xBD)
    } else if equals(key, "=") {
        Some(0xBB)
    } else if equals(key, "`") {
        Some(0xC0)
    } else {
        None
    }
}

/// A shortcut has one modifier at least, and exactly one key, which exists.
pub proof fn accepted_shortcut_is_complete(s: Seq<char>)
    ensures
        parsed(s) matches Ok(shortcut) ==> {
            let parts = text::pieces(s, '+');
            &&& 1 <= shortcut.mods <= CTRL + ALT + SHIFT + WIN
            &&& shortcut.mods == modifiers(parts)
            &&& main_keys(parts).len() == 1
            &&& key_code(main_keys(parts)[0]) == Some(shortcut.vk)
        },
{
}

/// A chord of two keys is refused, whatever the keys are.
pub proof fn chord_is_refused(s: Seq<char>)
    requires
        main_keys(text::pieces(s, '+')).len() > 1,
    ensures
        parsed(s) is Err,
{
}

/// Keys without a modifier are refused.
pub proof fn modifier_is_needed(s: Seq<char>)
    requires
        forall|m: u8| !names_modifier(text::pieces(s, '+'), m),
    ensures
        parsed(s) is Err,
{
}

/// Only the tokens count: neither the case of the letters nor the white space around a part.
pub proof fn only_tokens_count(a: Seq<Seq<char>>, b: Seq<Seq<char>>)
    requires
        a.len() == b.len(),
        forall|i: int| 0 <= i < a.len() ==> token(#[trigger] a[i]) == token(b[i]),
    ensures
        shortcut_of(a) == shortcut_of(b),
{
    lemma_same_tokens_same_keys(a, b);
    assert forall|m: u8| names_modifier(a, m) == names_modifier(b, m) by {
        if names_modifier(a, m) {
            let i = choose|i: int|
                0 <= i < a.len() && modifier(token(#[trigger] a[i])) == Some(m);
            assert(modifier(token(b[i])) == Some(m));
        }
        if names_modifier(b, m) {
            let i = choose|i: int|
                0 <= i < b.len() && modifier(token(#[trigger] b[i])) == Some(m);
            assert(modifier(token(a[i])) == Some(m));
        }
    }
}

/// The same tokens give the same keys.
proof fn lemma_same_tokens_same_keys(a: Seq<Seq<char>>, b: Seq<Seq<char>>)
    requires
        a.len() == b.len(),
        forall|i: int| 0 <= i < a.len() ==> token(#[trigger] a[i]) == token(b[i]),
    ensures
        main_keys(a) == main_keys(b),
    decreases a.len(),
{
    if a.len() > 0 {
        assert forall|i: int| 0 <= i < a.drop_last().len() implies token(
            #[trigger] a.drop_last()[i],
        ) == token(b.drop_last()[i]) by {
            assert(a.drop_last()[i] == a[i]);
        }
        lemma_same_tokens_same_keys(a.drop_last(), b.drop_last());
        assert(token(a[a.len() - 1]) == token(b[b.len() - 1]));
    }
}

/// The two texts name one key: they are the same, or two names of enter or of delete, or two
/// numerals of one function key.
pub open spec fn same_key(a: Seq<char>, b: Seq<char>) -> bool {
    ||| a == b
    ||| (a == "enter"@ || a == "return"@) && (b == "enter"@ || b == "return"@)
    ||| (a == "delete"@ || a == "del"@) && (b == "delete"@ || b == "del"@)
    ||| function_key(a) is Some && function_key(a) == function_key(b)
}

/// No two different keys share a code.
pub proof fn keys_differ(a: Seq<char>, b: Seq<char>)
    requires
        key_code(a) is Some,
        key_code(a) == key_code(b),
    ensures
        same_key(a, b),
{
    if a.len() == 1 && b.len() == 1 && a[0] == b[0] {
        assert(a =~= b);
    }
    lemma_letters_and_digits(a);
    lemma_letters_and_digits(b);
    lemma_named_codes(a, b);
}

/// A letter or a digit alone: its code tells it.
proof fn lemma_letters_and_digits(a: Seq<char>)
    ensures
        a.len() == 1 && 'a' <= a[0] <= 'z' ==> key_code(a) is Some && 0x41 <= key_code(a)->0 <= 0x5A
            && key_code(a)->0 - 0x41 == a[0] as int - 'a' as int,
        a.len() == 1 && '0' <= a[0] <= '9' ==> key_code(a) is Some && 0x30 <= key_code(a)->0 <= 0x39
            && key_code(a)->0 - 0x30 == a[0] as int - '0' as int,
        function_key(a) matches Some(code) ==> 0x70 <= code <= 0x87,
{
}

/// Keys with a name of their own have codes apart from those of letters, digits and function keys.
proof fn lemma_named_codes(a: Seq<char>, b: Seq<char>)
    ensures
        named_key(a) matches Some(code) ==> code < 0x30 || code > 0x87,
        named_key(a) is Some && named_key(a) == named_key(b) ==> {
            ||| a == b
            ||| (a == "enter"@ || a == "return"@) && (b == "enter"@ || b == "return"@)
            ||| (a == "delete"@ || a == "del"@) && (b == "delete"@ || b == "del"@)
        },
{
}

/// Only the main keys, in their order, and the set of modifiers count.
pub proof fn only_keys_and_modifiers_count(a: Seq<Seq<char>>, b: Seq<Seq<char>>)
    requires
        main_keys(a) == main_keys(b),
        forall|m: u8| names_modifier(a, m) == names_modifier(b, m),
    ensures
        shortcut_of(a) == shortcut_of(b),
{
}

/// The keys of two rows of parts, one after the other.
proof fn lemma_main_keys_concat(a: Seq<Seq<char>>, b: Seq<Seq<char>>)
    ensures
        main_keys(a + b) == main_keys(a) + main_keys(b),
    decreases b.len(),
{
    if b.len() == 0 {
        assert(a + b =~= a);
        assert(main_keys(a) + main_keys(b) =~= main_keys(a));
    } else {
        assert((a + b).drop_last() =~= a + b.drop_last());
        lemma_main_keys_concat(a, b.drop_last());
        assert(main_keys(a + b) =~= main_keys(a) + main_keys(b));
    }
}

/// The key of one part, if it is one.
pub open spec fn key_of_part(part: Seq<char>) -> Seq<Seq<char>> {
    if token(part).len() > 0 && modifier(token(part)) is None {
        seq![token(part)]
    } else {
        Seq::empty()
    }
}

/// The keys around one part.
proof fn lemma_main_keys_around(parts: Seq<Seq<char>>, i: int)
    requires
        0 <= i < parts.len(),
    ensures
        main_keys(parts) == main_keys(parts.take(i)) + key_of_part(parts[i]) + main_keys(
            parts.skip(i + 1),
        ),
        main_keys(parts.remove(i)) == main_keys(parts.take(i)) + main_keys(parts.skip(i + 1)),
{
    let one = seq![parts[i]];
    assert(one.drop_last() =~= Seq::<Seq<char>>::empty());
    reveal_with_fuel(main_keys, 2);
    assert(main_keys(one) =~= key_of_part(parts[i]));
    assert(parts =~= parts.take(i) + one + parts.skip(i + 1));
    lemma_main_keys_concat(parts.take(i) + one, parts.skip(i + 1));
    lemma_main_keys_concat(parts.take(i), one);
    assert(parts.remove(i) =~= parts.take(i) + parts.skip(i + 1));
    lemma_main_keys_concat(parts.take(i), parts.skip(i + 1));
}

/// An empty part does not count, nor does a modifier that another part names too.
pub proof fn empty_and_repeated_parts_do_not_count(parts: Seq<Seq<char>>, i: int)
    requires
        0 <= i < parts.len(),
        token(parts[i]).len() == 0 || exists|j: int|
            0 <= j < parts.len() && j != i && modifier(token(parts[i])) is Some && modifier(
                token(#[trigger] parts[j]),
            ) == modifier(token(parts[i])),
    ensures
        shortcut_of(parts.remove(i)) == shortcut_of(parts),
{
    let rest = parts.remove(i);
    lemma_main_keys_around(parts, i);
    if token(parts[i]).len() == 0 {
        lemma_empty_token(token(parts[i]));
    }
    assert(main_keys(rest) =~= main_keys(parts));
    assert forall|m: u8| names_modifier(rest, m) == names_modifier(parts, m) by {
        if names_modifier(rest, m) {
            let k = choose|k: int|
                0 <= k < rest.len() && modifier(token(#[trigger] rest[k])) == Some(m);
            assert(rest[k] == parts[if k < i {
                k
            } else {
                k + 1
            }]);
        }
        if names_modifier(parts, m) {
            let k = choose|k: int|
                0 <= k < parts.len() && modifier(token(#[trigger] parts[k])) == Some(m);
            let j = if k != i {
                k
            } else {
                choose|j: int|
                    0 <= j < parts.len() && j != i && modifier(token(#[trigger] parts[j]))
                        == modifier(token(parts[i]))
            };
            assert(modifier(token(parts[j])) == Some(m));
            assert(rest[if j < i {
                j
            } else {
                j - 1
            }] == parts[j]);
        }
    }
    only_keys_and_modifiers_count(rest, parts);
}

/// The same parts in another order have the same keys in some order.
proof fn lemma_same_parts_same_keys(a: Seq<Seq<char>>, b: Seq<Seq<char>>)
    requires
        a.to_multiset() == b.to_multiset(),
    ensures
        main_keys(a).to_multiset() == main_keys(b).to_multiset(),
    decreases a.len(),
{
    a.to_multiset_ensures();
    b.to_multiset_ensures();
    if a.len() == 0 {
        assert(a =~= b);
    } else {
        let x = a.last();
        assert(a.contains(x));
        assert(b.to_multiset().count(x) > 0);
        let i = b.index_of(x);
        let short = a.drop_last();
        assert(short =~= a.remove(a.len() - 1));
        assert(short.to_multiset() =~= b.remove(i).to_multiset());
        lemma_same_parts_same_keys(short, b.remove(i));
        lemma_main_keys_around(b, i);
        lemma_main_keys_around(a, a.len() - 1);
        let none = Seq::<Seq<char>>::empty();
        assert(a.skip(a.len() as int) =~= none);
        assert(a.take(a.len() - 1) =~= short);
        assert(main_keys(a) =~= main_keys(short) + key_of_part(x));
        let before = main_keys(b.take(i));
        let after = main_keys(b.skip(i + 1));
        vstd::seq_lib::lemma_multiset_commutative(main_keys(short), key_of_part(x));
        vstd::seq_lib::lemma_multiset_commutative(before + key_of_part(x), after);
        vstd::seq_lib::lemma_multiset_commutative(before, key_of_part(x));
        vstd::seq_lib::lemma_multiset_commutative(before, after);
        assert(main_keys(a).to_multiset() =~= main_keys(b).to_multiset());
    }
}

/// The order of the parts does not count: it decides neither whether they write a shortcut nor
/// which one, nor the reason why they write none, unless they name two keys and more.
pub proof fn order_of_parts_does_not_count(a: Seq<Seq<char>>, b: Seq<Seq<char>>)
    requires
        a.to_multiset() == b.to_multiset(),
    ensures
        main_keys(a).len() == main_keys(b).len(),
        main_keys(a).len() <= 1 ==> shortcut_of(a) == shortcut_of(b),
        main_keys(a).len() > 1 ==> shortcut_of(a) is Err && shortcut_of(b) is Err,
{
    a.to_multiset_ensures();
    b.to_multiset_ensures();
    lemma_same_parts_same_keys(a, b);
    main_keys(a).to_multiset_ensures();
    main_keys(b).to_multiset_ensures();
    if main_keys(a).len() <= 1 {
        if main_keys(a).len() == 1 {
            assert(main_keys(a).contains(main_keys(a)[0]));
            assert(main_keys(b).to_multiset().count(main_keys(a)[0]) > 0);
        }
        assert(main_keys(a) =~= main_keys(b));
        assert forall|m: u8| names_modifier(a, m) == names_modifier(b, m) by {
            if names_modifier(a, m) {
                let i = choose|i: int|
                    0 <= i < a.len() && modifier(token(#[trigger] a[i])) == Some(m);
                assert(a.contains(a[i]));
                assert(b.to_multiset().count(a[i]) > 0);
            }
            if names_modifier(b, m) {
                let i = choose|i: int|
                    0 <= i < b.len() && modifier(token(#[trigger] b[i])) == Some(m);
                assert(b.contains(b[i]));
                assert(a.to_multiset().count(b[i]) > 0);
            }
        }
        only_keys_and_modifiers_count(a, b);
    }
}

/// What is told of a text that is no shortcut.
pub open spec fn refusal_text(refusal: Refusal, spec: Seq<char>) -> Seq<char> {
    match refusal {
        Refusal::SecondKey => "hotkey '"@ + spec + "' tem mais de uma tecla principal"@,
        Refusal::UnknownKey(key) => "tecla '"@ + key + "' desconhecida em '"@ + spec + "'"@,
        Refusal::NoKey => "hotkey '"@ + spec + "' nao tem tecla principal"@,
        Refusal::NoModifier => "hotkey '"@ + spec + "' precisa de pelo menos um modificador"@,
    }
}

impl ParseError {
    /// The message for the user.
    pub fn to_string(&self) -> (r: String)
        ensures
            r@ == refusal_text(self.kind@, self.spec@),
    {
        let mut out = String::new();
        match &self.kind {
            ParseErrorKind::SecondKey => {
                out.append("hotkey '");
                out.append(self.spec.as_str());
                out.append("' tem mais de uma tecla principal");
            },
            ParseErrorKind::UnknownKey(key) => {
                out.append("tecla '");
                out.append(key.as_str());
                out.append("' desconhecida em '");
                out.append(self.spec.as_str());
                out.append("'");
            },
            ParseErrorKind::NoKey => {
                out.append("hotkey '");
                out.append(self.spec.as_str());
                out.append("' nao tem tecla principal");
            },
            ParseErrorKind::NoModifier => {
                out.append("hotkey '");
                out.append(self.spec.as_str());
                out.append("' precisa de pelo menos um modificador");
            },
        }
        assert(out@ =~= refusal_text(self.kind@, self.spec@));
        out
    }
}

/// The text is one of the names of modifiers.
pub open spec fn is_modifier_name(t: Seq<char>) -> bool {
    ||| t == "ctrl"@
    ||| t == "control"@
    ||| t == "alt"@
    ||| t == "option"@
    ||| t == "shift"@
    ||| t == "win"@
    ||| t == "super"@
    ||| t == "meta"@
    ||| t == "cmd"@
}

/// The part writes a main key.
pub open spec fn writes_key(part: Seq<char>) -> bool {
    token(part).len() > 0 && !is_modifier_name(token(part))
}

/// Some part writes that name.
pub open spec fn some_part_is(parts: Seq<Seq<char>>, name: Seq<char>) -> bool {
    exists|i: int| 0 <= i < parts.len() && token(#[trigger] parts[i]) == name
}

/// White space around a part and the case of its letters do not count, and the rest does.
pub proof fn parts_are_compared_in_lower_case(
    before: Seq<char>,
    name: Seq<char>,
    after: Seq<char>,
)
    requires
        text::blank(before),
        text::blank(after),
        name.len() > 0 ==> !text::is_white(name[0]) && !text::is_white(name.last()),
    ensures
        token(before + name + after) == text::lower(name),
{
    text::trimming_gives_the_middle(before, name, after);
}

/// Parts that write no key have none.
proof fn lemma_no_keys(parts: Seq<Seq<char>>)
    requires
        forall|i: int| 0 <= i < parts.len() ==> !writes_key(#[trigger] parts[i]),
    ensures
        main_keys(parts).len() == 0,
    decreases parts.len(),
{
    if parts.len() > 0 {
        let head = parts.drop_last();
        assert forall|i: int| 0 <= i < head.len() implies !writes_key(#[trigger] head[i]) by {
            assert(head[i] == parts[i]);
        }
        lemma_no_keys(head);
        assert(!writes_key(parts[parts.len() - 1]));
    }
}

/// The first part that writes a key gives the first key; there is a second one where another part
/// writes a key too.
proof fn lemma_first_key(parts: Seq<Seq<char>>, i: int)
    requires
        0 <= i < parts.len(),
        writes_key(parts[i]),
        forall|j: int| 0 <= j < i ==> !writes_key(#[trigger] parts[j]),
    ensures
        main_keys(parts).len() > 0,
        main_keys(parts)[0] == token(parts[i]),
        main_keys(parts).len() > 1 <==> exists|j: int|
            i < j < parts.len() && writes_key(#[trigger] parts[j]),
{
    lemma_main_keys_around(parts, i);
    let head = parts.take(i);
    let tail = parts.skip(i + 1);
    assert forall|j: int| 0 <= j < head.len() implies !writes_key(#[trigger] head[j]) by {
        assert(head[j] == parts[j]);
    }
    lemma_no_keys(head);
    if exists|j: int| i < j < parts.len() && writes_key(#[trigger] parts[j]) {
        let j = choose|j: int| i < j < parts.len() && writes_key(#[trigger] parts[j]);
        assert(tail[j - i - 1] == parts[j]);
        lemma_main_keys_around(tail, j - i - 1);
    } else {
        assert forall|j: int| 0 <= j < tail.len() implies !writes_key(#[trigger] tail[j]) by {
            assert(tail[j] == parts[i + 1 + j]);
        }
        lemma_no_keys(tail);
    }
}

/// What the parts write is decided by the first one that writes a key: an unknown key is refused
/// by its name, a second key is refused, a key without a modifier is refused, and everything else
/// is a shortcut with that very key.
pub proof fn first_key_decides(parts: Seq<Seq<char>>, i: int)
    requires
        0 <= i < parts.len(),
        writes_key(parts[i]),
        forall|j: int| 0 <= j < i ==> !writes_key(#[trigger] parts[j]),
    ensures
        key_code(token(parts[i])) is None ==> shortcut_of(parts) == Err::<Shortcut, Refusal>(
            Refusal::UnknownKey(token(parts[i])),
        ),
        key_code(token(parts[i])) is Some && (exists|j: int|
            i < j < parts.len() && writes_key(#[trigger] parts[j])) ==> shortcut_of(parts) == Err::<
            Shortcut,
            Refusal,
        >(Refusal::SecondKey),
        key_code(token(parts[i])) is Some && (forall|j: int|
            i < j < parts.len() ==> !writes_key(#[trigger] parts[j])) ==> {
            if exists|j: int| 0 <= j < parts.len() && is_modifier_name(token(#[trigger] parts[j])) {
                shortcut_of(parts) matches Ok(shortcut) && Some(shortcut.vk) == key_code(
                    token(parts[i]),
                )
            } else {
                shortcut_of(parts) == Err::<Shortcut, Refusal>(Refusal::NoModifier)
            }
        },
{
    lemma_first_key(parts, i);
    if exists|j: int| 0 <= j < parts.len() && is_modifier_name(token(#[trigger] parts[j])) {
        let j = choose|j: int| 0 <= j < parts.len() && is_modifier_name(token(#[trigger] parts[j]));
        let m = modifier(token(parts[j]))->0;
        assert(names_modifier(parts, m));
    } else {
        assert forall|m: u8| !names_modifier(parts, m) by {
            if names_modifier(parts, m) {
                let j = choose|j: int|
                    0 <= j < parts.len() && modifier(token(#[trigger] parts[j])) == Some(m);
                assert(is_modifier_name(token(parts[j])));
            }
        }
    }
}

/// Modifiers alone, or nothing at all, are refused for want of a key, and nothing else is.
pub proof fn a_key_is_needed(parts: Seq<Seq<char>>)
    ensures
        shortcut_of(parts) == Err::<Shortcut, Refusal>(Refusal::NoKey) <==> forall|i: int|
            0 <= i < parts.len() ==> !writes_key(#[trigger] parts[i]),
{
    if forall|i: int| 0 <= i < parts.len() ==> !writes_key(#[trigger] parts[i]) {
        lemma_no_keys(parts);
    } else {
        let i = choose|i: int| 0 <= i < parts.len() && writes_key(#[trigger] parts[i]);
        lemma_main_keys_around(parts, i);
    }
}

/// A shortcut has exactly the modifiers that its parts name, each under any of its names: Ctrl
/// counts one, Alt two, Shift four and the Windows key eight.
pub proof fn shortcut_has_the_named_modifiers(parts: Seq<Seq<char>>)
    ensures
        shortcut_of(parts) matches Ok(shortcut) ==> shortcut.mods == (if some_part_is(
            parts,
            "ctrl"@,
        ) || some_part_is(parts, "control"@) {
            1int
        } else {
            0
        }) + (if some_part_is(parts, "alt"@) || some_part_is(parts, "option"@) {
            2int
        } else {
            0
        }) + (if some_part_is(parts, "shift"@) {
            4int
        } else {
            0
        }) + (if some_part_is(parts, "win"@) || some_part_is(parts, "super"@) || some_part_is(
            parts,
            "meta"@,
        ) || some_part_is(parts, "cmd"@) {
            8int
        } else {
            0
        }),
{
    lemma_modifier_names_differ();
    lemma_names(parts, "ctrl"@, CTRL);
    lemma_names(parts, "control"@, CTRL);
    lemma_names(parts, "alt"@, ALT);
    lemma_names(parts, "option"@, ALT);
    lemma_names(parts, "shift"@, SHIFT);
    lemma_names(parts, "win"@, WIN);
    lemma_names(parts, "super"@, WIN);
    lemma_names(parts, "meta"@, WIN);
    lemma_names(parts, "cmd"@, WIN);
    assert forall|m: u8| #[trigger] names_modifier(parts, m) implies {
        ||| m == CTRL && (some_part_is(parts, "ctrl"@) || some_part_is(parts, "control"@))
        ||| m == ALT && (some_part_is(parts, "alt"@) || some_part_is(parts, "option"@))
        ||| m == SHIFT && some_part_is(parts, "shift"@)
        ||| m == WIN && (some_part_is(parts, "win"@) || some_part_is(parts, "super"@)
            || some_part_is(parts, "meta"@) || some_part_is(parts, "cmd"@))
    } by {
        let i = choose|i: int|
            0 <= i < parts.len() && modifier(token(#[trigger] parts[i])) == Some(m);
        assert(some_part_is(parts, token(parts[i])));
    }
}

/// A part with the name of a modifier names it.
proof fn lemma_names(parts: Seq<Seq<char>>, name: Seq<char>, m: u8)
    requires
        modifier(name) == Some(m),
    ensures
        some_part_is(parts, name) ==> names_modifier(parts, m),
{
    if some_part_is(parts, name) {
        let i = choose|i: int| 0 <= i < parts.len() && token(#[trigger] parts[i]) == name;
        assert(modifier(token(parts[i])) == Some(m));
    }
}

/// The names of modifiers are different texts.
proof fn lemma_modifier_names_differ()
    ensures
        modifier("ctrl"@) == Some(CTRL),
        modifier("control"@) == Some(CTRL),
        modifier("alt"@) == Some(ALT),
        modifier("option"@) == Some(ALT),
        modifier("shift"@) == Some(SHIFT),
        modifier("win"@) == Some(WIN),
        modifier("super"@) == Some(WIN),
        modifier("meta"@) == Some(WIN),
        modifier("cmd"@) == Some(WIN),
{
    reveal_strlit("ctrl");
    reveal_strlit("control");
    reveal_strlit("alt");
    reveal_strlit("option");
    reveal_strlit("shift");
    reveal_strlit("win");
    reveal_strlit("super");
    reveal_strlit("meta");
    reveal_strlit("cmd");
    assert("alt"@[0] == 'a' && "option"@[0] == 'o' && "shift"@[0] == 's' && "win"@[0] == 'w');
    assert("ctrl"@[0] == 'c' && "control"@[0] == 'c' && "super"@[0] == 's' && "meta"@[0] == 'm');
    assert("cmd"@[0] == 'c' && "cmd"@.len() == 3);
    assert("cmd"@ != "ctrl"@ && "cmd"@ != "control"@ && "cmd"@ != "alt"@ && "cmd"@ != "option"@);
    assert("cmd"@ != "shift"@);
    assert("shift"@[1] == 'h' && "super"@[1] == 'u');
}

/// A text is cut at its plus signs, and what the pieces write it writes.
pub proof fn text_is_cut_at_plus_signs(parts: Seq<Seq<char>>)
    requires
        parts.len() > 0,
        forall|i: int| 0 <= i < parts.len() ==> !(#[trigger] parts[i]).contains('+'),
    ensures
        parsed(text::joined(parts, seq!['+'])) == shortcut_of(parts),
{
    lemma_pieces_of_joined(parts, '+');
}

/// Joined parts are cut apart again.
proof fn lemma_pieces_of_joined(parts: Seq<Seq<char>>, sep: char)
    requires
        parts.len() > 0,
        forall|i: int| 0 <= i < parts.len() ==> !(#[trigger] parts[i]).contains(sep),
    ensures
        text::pieces(text::joined(parts, seq![sep]), sep) == parts,
    decreases parts.len(),
{
    let last = parts.last();
    assert(!parts[parts.len() - 1].contains(sep));
    if parts.len() == 1 {
        let none = Seq::<char>::empty();
        assert(text::pieces(none, sep) =~= seq![none]);
        lemma_pieces_grow(none, last, sep);
        assert(none + last =~= last);
        assert(seq![none].drop_last().push(seq![none].last() + last) =~= parts);
    } else {
        let head = parts.drop_last();
        assert forall|i: int| 0 <= i < head.len() implies !(#[trigger] head[i]).contains(sep) by {
            assert(head[i] == parts[i]);
        }
        lemma_pieces_of_joined(head, sep);
        let s = text::joined(head, seq![sep]) + seq![sep];
        assert(s.drop_last() =~= text::joined(head, seq![sep]));
        assert(text::pieces(s, sep) == head.push(Seq::empty()));
        lemma_pieces_grow(s, last, sep);
        let grown = head.push(Seq::empty());
        assert(grown.drop_last() =~= head);
        assert(Seq::<char>::empty() + last =~= last);
        assert(head.push(last) =~= parts);
    }
}

/// Characters without a separator go to the last piece.
proof fn lemma_pieces_grow(s: Seq<char>, more: Seq<char>, sep: char)
    requires
        !more.contains(sep),
    ensures
        text::pieces(s + more, sep) == text::pieces(s, sep).drop_last().push(
            text::pieces(s, sep).last() + more,
        ),
        text::pieces(s, sep).len() > 0,
    decreases more.len(),
{
    let old = text::pieces(s, sep);
    text::pieces_join_to_the_text(s, sep);
    if more.len() == 0 {
        assert(s + more =~= s);
        assert(old.last() + more =~= old.last());
        assert(old.drop_last().push(old.last()) =~= old);
    } else {
        let head = more.drop_last();
        assert(more[more.len() - 1] != sep) by {
            assert(more.contains(more[more.len() - 1]));
        }
        if head.contains(sep) {
            let k = choose|k: int| 0 <= k < head.len() && head[k] == sep;
            assert(more[k] == sep);
            assert(more.contains(sep));
        }
        lemma_pieces_grow(s, head, sep);
        let grown = old.drop_last().push(old.last() + head);
        assert((s + more).drop_last() =~= s + head);
        assert(grown.drop_last() =~= old.drop_last());
        assert((old.last() + head).push(more.last()) =~= old.last() + more);
    }
}

/// The letters have the codes from 0x41 on in their order, and the digits those from 0x30 on.
pub proof fn letters_and_digits_count_up(c: char)
    ensures
        'a' <= c <= 'z' ==> key_code(seq![c]) == Some((0x41 + (c as int - 'a' as int)) as u16),
        '0' <= c <= '9' ==> key_code(seq![c]) == Some((0x30 + (c as int - '0' as int)) as u16),
{
}

/// `f1` to `f24` have the codes from 0x70 on in their order, and there are no others.
pub proof fn function_keys_count_up(n: nat)
    ensures
        1 <= n <= 24 ==> key_code("f"@ + text::decimal(n)) == Some((0x70 + n - 1) as u16),
        n == 0 || n > 24 ==> key_code("f"@ + text::decimal(n)) is None,
{
    reveal_strlit("f");
    let key = "f"@ + text::decimal(n);
    text::numbers_are_read_back(n);
    text::head_and_rest_are_the_text("f"@, text::decimal(n), key);
    assert(key.len() >= 2);
    assert(key[0] == 'f');
    lemma_no_name_starts_with_f(key);
}

/// No key with a name of its own is longer than one character and starts with `f`.
proof fn lemma_no_name_starts_with_f(key: Seq<char>)
    requires
        key.len() >= 2,
        key[0] == 'f',
    ensures
        named_key(key) is None,
{
    reveal_strlit("space");
    reveal_strlit("tab");
    reveal_strlit("backspace");
    reveal_strlit("insert");
    reveal_strlit("home");
    reveal_strlit("end");
    reveal_strlit("pageup");
    reveal_strlit("pagedown");
    reveal_strlit("up");
    reveal_strlit("down");
    reveal_strlit("left");
    reveal_strlit("right");
    reveal_strlit(",");
    reveal_strlit(".");
    reveal_strlit(";");
    reveal_strlit("'");
    reveal_strlit("[");
    reveal_strlit("]");
    reveal_strlit("\\");
    reveal_strlit("/");
    reveal_strlit("-");
    reveal_strlit("=");
    reveal_strlit("`");
    reveal_strlit("enter");
    reveal_strlit("return");
    reveal_strlit("delete");
    reveal_strlit("del");
}

/// Each key with a name of its own has its code, and no other text has that code.
pub proof fn named_keys_have_their_codes(key: Seq<char>)
    ensures
        key_code(key) == Some(0x20u16) <==> key == "space"@,
        key_code(key) == Some(0x09u16) <==> key == "tab"@,
        key_code(key) == Some(0x08u16) <==> key == "backspace"@,
        key_code(key) == Some(0x2Du16) <==> key == "insert"@,
        key_code(key) == Some(0x24u16) <==> key == "home"@,
        key_code(key) == Some(0x23u16) <==> key == "end"@,
        key_code(key) == Some(0x21u16) <==> key == "pageup"@,
        key_code(key) == Some(0x22u16) <==> key == "pagedown"@,
        key_code(key) == Some(0x26u16) <==> key == "up"@,
        key_code(key) == Some(0x28u16) <==> key == "down"@,
        key_code(key) == Some(0x25u16) <==> key == "left"@,
        key_code(key) == Some(0x27u16) <==> key == "right"@,
        key_code(key) == Some(0xBCu16) <==> key == ","@,
        key_code(key) == Some(0xBEu16) <==> key == "."@,
        key_code(key) == Some(0xBAu16) <==> key == ";"@,
        key_code(key) == Some(0xDEu16) <==> key == "'"@,
        key_code(key) == Some(0xDBu16) <==> key == "["@,
        key_code(key) == Some(0xDDu16) <==> key == "]"@,
        key_code(key) == Some(0xDCu16) <==> key == "\\"@,
        key_code(key) == Some(0xBFu16) <==> key == "/"@,
        key_code(key) == Some(0xBDu16) <==> key == "-"@,
        key_code(key) == Some(0xBBu16) <==> key == "="@,
        key_code(key) == Some(0xC0u16) <==> key == "`"@,
        key_code(key) == Some(0x0Du16) <==> key == "enter"@ || key == "return"@,
        key_code(key) == Some(0x2Eu16) <==> key == "delete"@ || key == "del"@,
{
    reveal_strlit("f");
    reveal_strlit("space");
    reveal_strlit("tab");
    reveal_strlit("backspace");
    reveal_strlit("insert");
    reveal_strlit("home");
    reveal_strlit("end");
    reveal_strlit("pageup");
    reveal_strlit("pagedown");
    reveal_strlit("up");
    reveal_strlit("down");
    reveal_strlit("left");
    reveal_strlit("right");
    reveal_strlit(",");
    reveal_strlit(".");
    reveal_strlit(";");
    reveal_strlit("'");
    reveal_strlit("[");
    reveal_strlit("]");
    reveal_strlit("\\");
    reveal_strlit("/");
    reveal_strlit("-");
    reveal_strlit("=");
    reveal_strlit("`");
    reveal_strlit("enter");
    reveal_strlit("return");
    reveal_strlit("delete");
    reveal_strlit("del");
    lemma_letters_and_digits(key);
    if text::after_prefix(key, "f"@) is Some {
        assert(key[0] == "f"@[0]);
    }
}

/// What is told of a refused text quotes it, and an unknown key as well.
pub proof fn refusal_quotes_the_text(spec: Seq<char>, key: Seq<char>)
    ensures
        refusal_text(Refusal::NoKey, spec) == "hotkey '"@ + spec + "' nao tem tecla principal"@,
        refusal_text(Refusal::NoModifier, spec) == "hotkey '"@ + spec
            + "' precisa de pelo menos um modificador"@,
        refusal_text(Refusal::SecondKey, spec) == "hotkey '"@ + spec
            + "' tem mais de uma tecla principal"@,
        refusal_text(Refusal::UnknownKey(key), spec) == "tecla '"@ + key + "' desconhecida em '"@
            + spec + "'"@,
{
}

/// The models of refusals tell them apart and hold the unknown key.
pub proof fn models_of_refusals(key: String)
    ensures
        ParseErrorKind::SecondKey@ == Refusal::SecondKey,
        ParseErrorKind::UnknownKey(key)@ == Refusal::UnknownKey(key@),
        ParseErrorKind::NoKey@ == Refusal::NoKey,
        ParseErrorKind::NoModifier@ == Refusal::NoModifier,
{
}

} // verus!
