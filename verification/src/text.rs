//! Text helpers over sequences of characters.

use vstd::prelude::*;

verus! {

/// `String::push` appends one character.
pub assume_specification[ String::push ](s: &mut String, c: char)
    ensures
        final(s)@ == old(s)@.push(c),
;

/// The characters with the Unicode property `White_Space`.
pub open spec fn is_white(c: char) -> bool {
    ||| 0x09 <= c as u32 <= 0x0D
    ||| c as u32 == 0x20
    ||| c as u32 == 0x85
    ||| c as u32 == 0xA0
    ||| c as u32 == 0x1680
    ||| 0x2000 <= c as u32 <= 0x200A
    ||| c as u32 == 0x2028
    ||| c as u32 == 0x2029
    ||| c as u32 == 0x202F
    ||| c as u32 == 0x205F
    ||| c as u32 == 0x3000
}

/// Whether `c` is white space.
pub fn is_whitespace(c: char) -> (r: bool)
    ensures
        r == is_white(c),
{
    let code: u32 = c as u32;
    (0x09 <= code && code <= 0x0D) || code == 0x20 || code == 0x85 || code == 0xA0 || code == 0x1680
        || (0x2000 <= code && code <= 0x200A) || code == 0x2028 || code == 0x2029 || code == 0x202F
        || code == 0x205F || code == 0x3000
}

/// `s` without its leading white space.
pub open spec fn trim_start(s: Seq<char>) -> Seq<char>
    decreases s.len(),
{
    if s.len() > 0 && is_white(s[0]) {
        trim_start(s.drop_first())
    } else {
        s
    }
}

/// `s` without its trailing white space.
pub open spec fn trim_end(s: Seq<char>) -> Seq<char>
    decreases s.len(),
{
    if s.len() > 0 && is_white(s.last()) {
        trim_end(s.drop_last())
    } else {
        s
    }
}

/// `s` without the white space around it.
pub open spec fn trimmed(s: Seq<char>) -> Seq<char> {
    trim_end(trim_start(s))
}

/// `s` holds nothing but white space.
pub open spec fn blank(s: Seq<char>) -> bool {
    forall|i: int| 0 <= i < s.len() ==> is_white(#[trigger] s[i])
}

/// Trimming leaves nothing exactly of a blank text.
pub proof fn trimmed_empty_iff_blank(s: Seq<char>)
    ensures
        trimmed(s).len() == 0 <==> blank(s),
{
    lemma_trim_start_shape(s);
    let t = trim_start(s);
    lemma_trim_end_shape(t);
    let n = s.len() - t.len();
    if trimmed(s).len() == 0 {
        assert(t.skip(0) =~= t);
        assert forall|i: int| 0 <= i < s.len() implies is_white(#[trigger] s[i]) by {
            if i < n {
                assert(s.take(n)[i] == s[i]);
            } else {
                assert(t[i - n] == s[i]);
            }
        }
    } else {
        assert(t[0] == s[n]);
    }
}

/// What `trim_start` cuts off is white, and what it leaves is empty or starts with ink.
proof fn lemma_trim_start_shape(s: Seq<char>)
    ensures
        trim_start(s).len() <= s.len(),
        trim_start(s) == s.skip(s.len() - trim_start(s).len()),
        blank(s.take(s.len() - trim_start(s).len())),
        trim_start(s).len() > 0 ==> !is_white(trim_start(s)[0]),
    decreases s.len(),
{
    if s.len() > 0 && is_white(s[0]) {
        let t = s.drop_first();
        lemma_trim_start_shape(t);
        let n = t.len() - trim_start(t).len();
        assert(t.skip(n) =~= s.skip(n + 1));
        assert forall|i: int| 0 <= i < n + 1 implies is_white(#[trigger] s.take(n + 1)[i]) by {
            if i > 0 {
                assert(t.take(n)[i - 1] == s[i]);
            }
        }
    } else {
        assert(s.skip(0) =~= s);
    }
}

/// What `trim_end` cuts off is white, and what it leaves is empty or ends with ink.
proof fn lemma_trim_end_shape(s: Seq<char>)
    ensures
        trim_end(s).len() <= s.len(),
        trim_end(s) == s.take(trim_end(s).len() as int),
        blank(s.skip(trim_end(s).len() as int)),
        trim_end(s).len() > 0 ==> !is_white(trim_end(s).last()),
    decreases s.len(),
{
    if s.len() > 0 && is_white(s.last()) {
        let t = s.drop_last();
        lemma_trim_end_shape(t);
        let n = trim_end(t).len() as int;
        assert(t.take(n) =~= s.take(n));
        assert forall|i: int| 0 <= i < s.len() - n implies is_white(#[trigger] s.skip(n)[i]) by {
            if i < t.len() - n {
                assert(t.skip(n)[i] == s[n + i]);
            }
        }
    } else {
        assert(s.take(s.len() as int) =~= s);
    }
}

/// Trimming twice is trimming once.
pub proof fn trimmed_idempotent(s: Seq<char>)
    ensures
        trimmed(trimmed(s)) == trimmed(s),
{
    lemma_trim_start_shape(s);
    lemma_trim_end_shape(trim_start(s));
    let t = trimmed(s);
    if t.len() > 0 {
        assert(t[0] == trim_start(s)[0]);
    }
}

/// The characters of `s`.
pub fn char_vec(s: &str) -> (r: Vec<char>)
    ensures
        r@ == s@,
{
    let mut out: Vec<char> = Vec::new();
    for c in it: s.chars()
        invariant
            out@ == it.seq().take(it.index()),
            it.seq() == s@,
    {
        out.push(c);
    }
    out
}

/// `s` without the white space around it.
pub fn trim(s: &str) -> (r: &str)
    ensures
        r@ == trimmed(s@),
{
    let chars = char_vec(s);
    let n: usize = chars.len();
    let mut from: usize = 0;
    assert(s@.skip(0) =~= s@);
    while from < n && is_whitespace(chars[from])
        invariant
            chars@ == s@,
            n == s@.len(),
            from <= n,
            trim_start(s@) == trim_start(s@.skip(from as int)),
        decreases n - from,
    {
        assert(s@.skip(from as int).drop_first() =~= s@.skip(from + 1));
        from = from + 1;
    }
    let mut to: usize = n;
    let ghost rest = s@.skip(from as int);
    assert(rest =~= s@.subrange(from as int, to as int));
    while to > from && is_whitespace(chars[to - 1])
        invariant
            chars@ == s@,
            n == s@.len(),
            from <= to <= n,
            rest == s@.skip(from as int),
            trim_end(rest) == trim_end(s@.subrange(from as int, to as int)),
        decreases to,
    {
        assert(s@.subrange(from as int, to as int).drop_last() =~= s@.subrange(
            from as int,
            to - 1,
        ));
        to = to - 1;
    }
    s.substring_char(from, to)
}

/// Whether `s` holds nothing but white space.
pub fn is_blank(s: &str) -> (r: bool)
    ensures
        r == blank(s@),
{
    proof {
        trimmed_empty_iff_blank(s@);
    }
    trim(s).is_empty()
}

/// Whether the two texts are the same.
pub fn equals(a: &str, b: &str) -> (r: bool)
    ensures
        r == (a@ == b@),
{
    let x = char_vec(a);
    let y = char_vec(b);
    if x.len() != y.len() {
        return false;
    }
    let mut i: usize = 0;
    while i < x.len()
        invariant
            x@ == a@,
            y@ == b@,
            x@.len() == y@.len(),
            i <= x@.len(),
            forall|k: int| 0 <= k < i ==> x@[k] == y@[k],
        decreases x@.len() - i,
    {
        if x[i] != y[i] {
            return false;
        }
        i = i + 1;
    }
    assert(a@ =~= b@);
    true
}

/// The lower-case form of an ASCII letter; any other character as it is.
pub open spec fn lower_char(c: char) -> char {
    if 'A' <= c <= 'Z' {
        (c as u8 + 32) as char
    } else {
        c
    }
}

/// `s` with its ASCII letters in lower case.
pub open spec fn lower(s: Seq<char>) -> Seq<char> {
    s.map_values(|c: char| lower_char(c))
}

/// `s` with its ASCII letters in lower case.
pub fn to_lower(s: &str) -> (r: String)
    ensures
        r@ == lower(s@),
{
    let chars = char_vec(s);
    let mut out = String::new();
    let mut i: usize = 0;
    while i < chars.len()
        invariant
            chars@ == s@,
            i <= chars@.len(),
            out@ == lower(s@.take(i as int)),
        decreases chars@.len() - i,
    {
        let c: char = chars[i];
        let low: char = if 'A' <= c && c <= 'Z' {
            (c as u8 + 32) as char
        } else {
            c
        };
        out.push(low);
        i = i + 1;
        assert(lower(s@.take(i as int)) =~= lower(s@.take(i - 1)).push(lower_char(c)));
    }
    assert(s@.take(i as int) =~= s@);
    out
}

/// Whether the two texts are the same but for the case of ASCII letters.
pub fn equals_ignoring_case(a: &str, b: &str) -> (r: bool)
    ensures
        r == (lower(a@) == lower(b@)),
{
    equals(to_lower(a).as_str(), to_lower(b).as_str())
}

/// The pieces of `s` between the separators `sep`, the empty ones too.
pub open spec fn pieces(s: Seq<char>, sep: char) -> Seq<Seq<char>>
    decreases s.len(),
{
    if s.len() == 0 {
        seq![Seq::<char>::empty()]
    } else {
        let before = pieces(s.drop_last(), sep);
        if s.last() == sep {
            before.push(Seq::empty())
        } else {
            before.drop_last().push(before.last().push(s.last()))
        }
    }
}

/// The contents of the strings of a list.
pub open spec fn contents(v: Seq<String>) -> Seq<Seq<char>> {
    v.map_values(|s: String| s@)
}

/// Cuts `s` at every `sep`.
pub fn split(s: &str, sep: char) -> (r: Vec<String>)
    ensures
        contents(r@) == pieces(s@, sep),
        r@.len() > 0,
{
    let chars = char_vec(s);
    let mut out: Vec<String> = Vec::new();
    let mut cur = String::new();
    let mut i: usize = 0;
    assert(contents(out@).push(cur@) =~= pieces(s@.take(0), sep));
    while i < chars.len()
        invariant
            chars@ == s@,
            i <= chars@.len(),
            contents(out@).push(cur@) == pieces(s@.take(i as int), sep),
        decreases chars@.len() - i,
    {
        let ghost before = contents(out@);
        let ghost was = cur@;
        assert(s@.take(i + 1).drop_last() =~= s@.take(i as int));
        assert(before.push(was).drop_last() =~= before);
        if chars[i] == sep {
            out.push(cur);
            cur = String::new();
            assert(contents(out@) =~= before.push(was));
        } else {
            cur.push(chars[i]);
        }
        i = i + 1;
    }
    let ghost before = contents(out@);
    let ghost was = cur@;
    out.push(cur);
    assert(contents(out@) =~= before.push(was));
    assert(s@.take(i as int) =~= s@);
    out
}

/// The texts of a list one after the other, with `sep` in between.
pub open spec fn joined(list: Seq<Seq<char>>, sep: Seq<char>) -> Seq<char>
    decreases list.len(),
{
    if list.len() == 0 {
        Seq::empty()
    } else if list.len() == 1 {
        list[0]
    } else {
        joined(list.drop_last(), sep) + sep + list.last()
    }
}

/// Puts the texts of a list one after the other, with `sep` in between.
pub fn join(list: &Vec<String>, sep: &str) -> (r: String)
    ensures
        r@ == joined(contents(list@), sep@),
{
    let mut out = String::new();
    let mut i: usize = 0;
    let ghost all = contents(list@);
    while i < list.len()
        invariant
            i <= list@.len(),
            all == contents(list@),
            out@ == joined(all.take(i as int), sep@),
        decreases list@.len() - i,
    {
        let ghost was = out@;
        if i > 0 {
            out.append(sep);
        }
        out.append(list[i].as_str());
        assert(all.take(i + 1).drop_last() =~= all.take(i as int));
        assert(Seq::<char>::empty() + all[i as int] =~= all[i as int]);
        i = i + 1;
    }
    assert(all.take(i as int) =~= all);
    out
}

/// Whether `c` is a decimal digit of ASCII.
pub open spec fn is_digit(c: char) -> bool {
    '0' <= c <= '9'
}

/// The number that the digits of `s` write.
pub open spec fn digits_value(s: Seq<char>) -> nat
    decreases s.len(),
{
    if s.len() == 0 {
        0
    } else {
        digits_value(s.drop_last()) * 10 + (s.last() as nat - '0' as nat) as nat
    }
}

/// `s` is made of decimal digits.
pub open spec fn all_digits(s: Seq<char>) -> bool {
    forall|i: int| 0 <= i < s.len() ==> is_digit(#[trigger] s[i])
}

/// `s` without a plus sign before it.
pub open spec fn without_plus(s: Seq<char>) -> Seq<char> {
    if s.len() > 1 && s[0] == '+' {
        s.skip(1)
    } else {
        s
    }
}

/// The number that `s` writes in decimal, with or without a plus sign before it.
pub open spec fn unsigned_value(s: Seq<char>) -> Option<nat> {
    if s.len() > 0 && all_digits(without_plus(s)) {
        Some(digits_value(without_plus(s)))
    } else {
        None
    }
}

/// The number that `s` writes in decimal, where it fits in sixteen bits.
pub fn parse_u16(s: &str) -> (r: Option<u16>)
    ensures
        match unsigned_value(s@) {
            Some(n) => if n <= u16::MAX {
                r == Some(n as u16)
            } else {
                r is None
            },
            None => r is None,
        },
{
    let chars = char_vec(s);
    let from: usize = if chars.len() > 1 && chars[0] == '+' {
        1
    } else {
        0
    };
    let ghost digits = s@.skip(from as int);
    assert(s@.skip(0) =~= s@);
    if from == chars.len() {
        return None;
    }
    let mut total: u32 = 0;
    let mut i: usize = from;
    while i < chars.len()
        invariant
            chars@ == s@,
            from <= i <= chars@.len(),
            digits == s@.skip(from as int),
            digits == without_plus(s@),
            digits.len() > 0,
            total <= 65536,
            total < 65536 ==> total == digits_value(digits.take(i - from)),
            total == 65536 ==> digits_value(digits.take(i - from)) >= 65536,
            forall|k: int| 0 <= k < i - from ==> is_digit(#[trigger] digits[k]),
        decreases chars@.len() - i,
    {
        let c: char = chars[i];
        let ghost k = i - from;
        assert(digits[k] == c);
        if !('0' <= c && c <= '9') {
            assert(!is_digit(digits[k]));
            return None;
        }
        assert(digits.take(k + 1).drop_last() =~= digits.take(k));
        let next: u32 = total * 10 + (c as u32 - '0' as u32);
        total = if next > 65536 {
            65536
        } else {
            next
        };
        i = i + 1;
    }
    assert(digits.take(i - from) =~= digits);
    if total <= 65535 {
        Some(total as u16)
    } else {
        None
    }
}

/// The decimal digits of `n`.
pub open spec fn decimal(n: nat) -> Seq<char>
    decreases n,
{
    if n < 10 {
        seq![('0' as u8 + n) as char]
    } else {
        decimal(n / 10).push(('0' as u8 + n % 10) as char)
    }
}

/// Writes `n` in decimal.
pub fn to_decimal(n: usize) -> (r: String)
    ensures
        r@ == decimal(n as nat),
    decreases n,
{
    let last: char = ('0' as u8 + (n % 10) as u8) as char;
    let mut out = if n < 10 {
        String::new()
    } else {
        to_decimal(n / 10)
    };
    out.push(last);
    out
}

/// How many words `s` holds: maximal runs of characters that are not white space.
pub open spec fn words(s: Seq<char>) -> nat
    decreases s.len(),
{
    if s.len() == 0 {
        0
    } else if !is_white(s.last()) && (s.len() == 1 || is_white(s[s.len() - 2])) {
        words(s.drop_last()) + 1
    } else {
        words(s.drop_last())
    }
}

/// Counts the words of `s`.
pub fn count_words(s: &str) -> (r: usize)
    ensures
        r == words(s@),
{
    let chars = char_vec(s);
    let mut count: usize = 0;
    let mut after_space: bool = true;
    let mut i: usize = 0;
    while i < chars.len()
        invariant
            chars@ == s@,
            i <= chars@.len(),
            count <= i,
            count == words(s@.take(i as int)),
            after_space == (i == 0 || is_white(s@[i - 1])),
        decreases chars@.len() - i,
    {
        assert(s@.take(i + 1).drop_last() =~= s@.take(i as int));
        let white: bool = is_whitespace(chars[i]);
        if !white && after_space {
            count = count + 1;
        }
        after_space = white;
        i = i + 1;
    }
    assert(s@.take(i as int) =~= s@);
    count
}

/// The first `n` characters of `s`, or all of it where it is shorter.
pub open spec fn prefix(s: Seq<char>, n: nat) -> Seq<char> {
    if s.len() <= n {
        s
    } else {
        s.take(n as int)
    }
}

/// The first `n` characters of `s`.
pub fn take_chars(s: &str, n: usize) -> (r: &str)
    ensures
        r@ == prefix(s@, n as nat),
{
    let len: usize = s.unicode_len();
    if len <= n {
        s
    } else {
        s.substring_char(0, n)
    }
}

/// What follows `head` at the start of `s`.
pub open spec fn after_prefix(s: Seq<char>, head: Seq<char>) -> Option<Seq<char>> {
    if head.is_prefix_of(s) {
        Some(s.skip(head.len() as int))
    } else {
        None
    }
}

/// The view of a text that may be missing.
pub open spec fn opt_view(s: Option<&str>) -> Option<Seq<char>> {
    match s {
        Some(t) => Some(t@),
        None => None,
    }
}

/// The view of a string that may be missing.
pub open spec fn opt_string(s: Option<String>) -> Option<Seq<char>> {
    match s {
        Some(t) => Some(t@),
        None => None,
    }
}

/// What follows `head` at the start of `s`, or nothing where `s` starts otherwise.
pub fn strip_head<'a>(s: &'a str, head: &str) -> (r: Option<&'a str>)
    ensures
        opt_view(r) == after_prefix(s@, head@),
{
    let n: usize = s.unicode_len();
    let m: usize = head.unicode_len();
    if n < m {
        return None;
    }
    if equals(s.substring_char(0, m), head) {
        assert(s@.subrange(m as int, n as int) =~= s@.skip(m as int));
        assert(s@.subrange(0, m as int) =~= head@);
        Some(s.substring_char(m, n))
    } else {
        assert(head@.is_prefix_of(s@) ==> head@ =~= s@.subrange(0, m as int));
        None
    }
}

/// White space is these characters and no others.
pub proof fn white_space_is_listed(c: char)
    ensures
        is_white(c) <==> {
            ||| c == '\t'
            ||| c == '\n'
            ||| c as u32 == 0x0B
            ||| c as u32 == 0x0C
            ||| c == '\r'
            ||| c == ' '
            ||| c as u32 == 0x85
            ||| c as u32 == 0xA0
            ||| c as u32 == 0x1680
            ||| 0x2000 <= c as u32 <= 0x200A
            ||| c as u32 == 0x2028 || c as u32 == 0x2029
            ||| c as u32 == 0x202F
            ||| c as u32 == 0x205F
            ||| c as u32 == 0x3000
        },
{
}

/// White space before a text does not outlast `trim_start`.
proof fn lemma_trim_start_skips(before: Seq<char>, rest: Seq<char>)
    requires
        blank(before),
    ensures
        trim_start(before + rest) == trim_start(rest),
    decreases before.len(),
{
    if before.len() == 0 {
        assert(before + rest =~= rest);
    } else {
        let tail = before.drop_first();
        assert forall|i: int| 0 <= i < tail.len() implies is_white(#[trigger] tail[i]) by {
            assert(tail[i] == before[i + 1]);
        }
        assert((before + rest)[0] == before[0]);
        assert((before + rest).drop_first() =~= tail + rest);
        lemma_trim_start_skips(tail, rest);
    }
}

/// White space after a text does not outlast `trim_end`.
proof fn lemma_trim_end_skips(rest: Seq<char>, after: Seq<char>)
    requires
        blank(after),
    ensures
        trim_end(rest + after) == trim_end(rest),
    decreases after.len(),
{
    if after.len() == 0 {
        assert(rest + after =~= rest);
    } else {
        let head = after.drop_last();
        assert forall|i: int| 0 <= i < head.len() implies is_white(#[trigger] head[i]) by {
            assert(head[i] == after[i]);
        }
        assert((rest + after).last() == after.last());
        assert(after.last() == after[after.len() - 1]);
        assert((rest + after).drop_last() =~= rest + head);
        lemma_trim_end_skips(rest, head);
    }
}

/// Trimming gives the part between the white space before and after it, whatever stands in it: a
/// text that neither starts nor ends with white space comes back character for character.
pub proof fn trimming_gives_the_middle(before: Seq<char>, middle: Seq<char>, after: Seq<char>)
    requires
        blank(before),
        blank(after),
        middle.len() > 0 ==> !is_white(middle[0]) && !is_white(middle.last()),
    ensures
        trimmed(before + middle + after) == middle,
{
    lemma_trim_start_skips(before, middle + after);
    assert(before + middle + after =~= before + (middle + after));
    if middle.len() == 0 {
        assert(middle + after =~= after + Seq::<char>::empty());
        lemma_trim_start_skips(after, Seq::empty());
        assert(trimmed(before + middle + after).len() == 0);
    } else {
        assert((middle + after)[0] == middle[0]);
        lemma_trim_end_skips(middle, after);
    }
}

/// Every text is white space, its trimmed form, and white space again.
pub proof fn trimming_cuts_white_space_only(s: Seq<char>) -> (ends: (Seq<char>, Seq<char>))
    ensures
        s == ends.0 + trimmed(s) + ends.1,
        blank(ends.0),
        blank(ends.1),
        trimmed(s).len() > 0 ==> !is_white(trimmed(s)[0]) && !is_white(trimmed(s).last()),
{
    lemma_trim_start_shape(s);
    let t = trim_start(s);
    lemma_trim_end_shape(t);
    let before = s.take(s.len() - t.len());
    let after = t.skip(trimmed(s).len() as int);
    assert(s =~= before + t);
    assert(t =~= trimmed(s) + after);
    assert(s =~= before + trimmed(s) + after);
    if trimmed(s).len() > 0 {
        assert(trimmed(s)[0] == t[0]);
    }
    (before, after)
}

/// A text without anything but white space in it is blank, and one other character is enough for it
/// not to be.
pub proof fn one_character_is_enough(before: Seq<char>, c: char, after: Seq<char>)
    ensures
        blank(Seq::<char>::empty()),
        blank(before + seq![c] + after) <==> blank(before) && is_white(c) && blank(after),
{
    let all = before + seq![c] + after;
    if blank(all) {
        assert(all[before.len() as int] == c);
        assert forall|i: int| 0 <= i < before.len() implies is_white(#[trigger] before[i]) by {
            assert(all[i] == before[i]);
        }
        assert forall|i: int| 0 <= i < after.len() implies is_white(#[trigger] after[i]) by {
            assert(all[before.len() + 1 + i] == after[i]);
        }
    }
}

/// Lower case changes the capital letters of ASCII and nothing else, each in its place.
pub proof fn lower_case_changes_capitals_only(s: Seq<char>, i: int)
    requires
        0 <= i < s.len(),
    ensures
        lower(s).len() == s.len(),
        'A' <= s[i] <= 'Z' ==> lower(s)[i] as int - 'a' as int == s[i] as int - 'A' as int,
        !('A' <= s[i] <= 'Z') ==> lower(s)[i] == s[i],
        lower(lower(s)) == lower(s),
{
    assert(lower(lower(s)) =~= lower(s));
}

/// One character more in the last text of a list.
proof fn lemma_joined_grows(list: Seq<Seq<char>>, sep: Seq<char>, c: char)
    requires
        list.len() > 0,
    ensures
        joined(list.drop_last().push(list.last().push(c)), sep) == joined(list, sep).push(c),
{
    let grown = list.drop_last().push(list.last().push(c));
    assert(grown.drop_last() =~= list.drop_last());
    assert(grown.last() == list.last().push(c));
    assert(joined(grown, sep) =~= joined(list, sep).push(c));
}

/// Cutting a text loses nothing but the separators: joined again, the pieces are the text, and no
/// piece holds a separator.
pub proof fn pieces_join_to_the_text(s: Seq<char>, sep: char)
    ensures
        pieces(s, sep).len() > 0,
        joined(pieces(s, sep), seq![sep]) == s,
        forall|i: int| 0 <= i < pieces(s, sep).len() ==> !(#[trigger] pieces(s, sep)[i]).contains(sep),
    decreases s.len(),
{
    if s.len() > 0 {
        let before = pieces(s.drop_last(), sep);
        pieces_join_to_the_text(s.drop_last(), sep);
        if s.last() == sep {
            let all = before.push(Seq::empty());
            assert(all.drop_last() =~= before);
            assert(joined(all, seq![sep]) =~= s.drop_last() + seq![sep]);
            assert(s =~= s.drop_last() + seq![sep]);
            assert forall|i: int| 0 <= i < all.len() implies !(#[trigger] all[i]).contains(sep) by {
                if i < before.len() {
                    assert(all[i] == before[i]);
                }
            }
        } else {
            lemma_joined_grows(before, seq![sep], s.last());
            assert(s =~= s.drop_last().push(s.last()));
            let all = before.drop_last().push(before.last().push(s.last()));
            assert forall|i: int| 0 <= i < all.len() implies !(#[trigger] all[i]).contains(sep) by {
                if i < before.len() - 1 {
                    assert(all[i] == before[i]);
                } else {
                    let old = before[before.len() - 1];
                    assert(!old.contains(sep));
                    if all[i].contains(sep) {
                        let k = choose|k: int| 0 <= k < all[i].len() && all[i][k] == sep;
                        assert(k < old.len());
                        assert(old[k] == sep);
                    }
                }
            }
        }
    }
}

/// A list is joined in its order, with one separator between neighbours.
pub proof fn joining_keeps_the_order(first: Seq<char>, list: Seq<Seq<char>>, sep: Seq<char>)
    ensures
        joined(Seq::empty(), sep) == Seq::<char>::empty(),
        joined(seq![first], sep) == first,
        list.len() > 0 ==> joined(seq![first] + list, sep) == first + sep + joined(list, sep),
    decreases list.len(),
{
    let all = seq![first] + list;
    if list.len() == 1 {
        assert(all.drop_last() =~= seq![first]);
        assert(joined(all.drop_last(), sep) == first);
        assert(all.last() == list[0]);
        assert(joined(all, sep) =~= first + sep + joined(list, sep));
    } else if list.len() > 1 {
        joining_keeps_the_order(first, list.drop_last(), sep);
        assert(all.drop_last() =~= seq![first] + list.drop_last());
        assert(joined(all, sep) =~= first + sep + joined(list, sep));
    }
}

/// The digits of a number.
proof fn lemma_decimal(n: nat)
    ensures
        all_digits(decimal(n)),
        decimal(n).len() > 0,
        decimal(n)[0] == '0' <==> n == 0,
        digits_value(decimal(n)) == n,
    decreases n,
{
    let d = decimal(n);
    reveal_with_fuel(digits_value, 2);
    if n < 10 {
        assert(d.len() == 1);
        assert(d[0] as nat == '0' as nat + n);
        assert(d.drop_last() =~= Seq::<char>::empty());
        assert(digits_value(d.drop_last()) == 0);
    } else {
        let tens = decimal(n / 10);
        lemma_decimal(n / 10);
        assert(d.drop_last() =~= tens);
        assert(d[0] == tens[0]);
        assert(d.last() as nat == '0' as nat + n % 10);
        assert forall|i: int| 0 <= i < d.len() implies is_digit(#[trigger] d[i]) by {
            if i < d.len() - 1 {
                assert(d[i] == tens[i]);
                assert(is_digit(tens[i]));
            }
        }
        assert(digits_value(d) == digits_value(tens) * 10 + n % 10);
    }
}

/// A number written in decimal is read back, with a plus sign before it too. It is written with
/// digits alone, and without a zero in front.
pub proof fn numbers_are_read_back(n: nat)
    ensures
        all_digits(decimal(n)),
        decimal(n).len() > 0,
        decimal(n)[0] == '0' <==> n == 0,
        unsigned_value(decimal(n)) == Some(n),
        unsigned_value(seq!['+'] + decimal(n)) == Some(n),
{
    let d = decimal(n);
    lemma_decimal(n);
    assert(is_digit(d[0]));
    assert(without_plus(d) == d);
    assert((seq!['+'] + d).skip(1) =~= d);
    assert(without_plus(seq!['+'] + d) == d);
}

/// Nothing but digits, after a plus sign or not, is a number; each digit counts ten times as much
/// as the next one, and zeros in front count nothing.
pub proof fn only_digits_are_a_number(s: Seq<char>)
    ensures
        unsigned_value(s) is Some ==> s.len() > 0 && forall|i: int|
            0 < i < s.len() ==> '0' <= #[trigger] s[i] <= '9',
        unsigned_value(s) is Some ==> '0' <= s[0] <= '9' || s[0] == '+' && s.len() > 1,
        digits_value(seq!['0'] + s) == digits_value(s),
        s.len() > 0 && '0' <= s.last() <= '9' ==> digits_value(s) == 10 * digits_value(
            s.drop_last(),
        ) + (s.last() as nat - '0' as nat),
    decreases s.len(),
{
    if unsigned_value(s) is Some {
        let d = without_plus(s);
        assert forall|i: int| 0 < i < s.len() implies '0' <= #[trigger] s[i] <= '9' by {
            if s.len() > 1 && s[0] == '+' {
                assert(d[i - 1] == s[i]);
                assert(is_digit(d[i - 1]));
            } else {
                assert(is_digit(d[i]));
            }
        }
        if !(s.len() > 1 && s[0] == '+') {
            assert(is_digit(d[0]));
        }
    }
    let led = seq!['0'] + s;
    if s.len() == 0 {
        assert(led.drop_last() =~= Seq::<char>::empty());
        assert(digits_value(led.drop_last()) == 0);
    } else {
        only_digits_are_a_number(s.drop_last());
        assert(led.drop_last() =~= seq!['0'] + s.drop_last());
        assert(led.last() == s.last());
    }
}

/// White space parts words: the words before it and those after it add up.
pub proof fn words_add_up(a: Seq<char>, c: char, b: Seq<char>)
    requires
        is_white(c),
    ensures
        words(a + seq![c] + b) == words(a) + words(b),
    decreases b.len(),
{
    let all = a + seq![c] + b;
    if b.len() == 0 {
        assert(all.drop_last() =~= a);
        assert(all.last() == c);
    } else {
        words_add_up(a, c, b.drop_last());
        assert(all.drop_last() =~= a + seq![c] + b.drop_last());
        assert(all.last() == b.last());
        if b.len() == 1 {
            assert(all[all.len() - 2] == c);
        } else {
            assert(all[all.len() - 2] == b[b.len() - 2]);
        }
    }
}

/// Characters without white space between them are one word.
pub proof fn a_run_is_one_word(s: Seq<char>)
    requires
        forall|i: int| 0 <= i < s.len() ==> !is_white(#[trigger] s[i]),
    ensures
        words(s) == (if s.len() == 0 {
            0nat
        } else {
            1nat
        }),
    decreases s.len(),
{
    if s.len() > 0 {
        let head = s.drop_last();
        assert forall|i: int| 0 <= i < head.len() implies !is_white(#[trigger] head[i]) by {
            assert(head[i] == s[i]);
        }
        a_run_is_one_word(head);
        assert(s.last() == s[s.len() - 1]);
    }
}

/// A text with that head is the head and the rest; any other text has no rest.
pub proof fn head_and_rest_are_the_text(head: Seq<char>, rest: Seq<char>, s: Seq<char>)
    ensures
        after_prefix(head + rest, head) == Some(rest),
        after_prefix(s, head) matches Some(r) ==> s == head + r,
{
    assert((head + rest).skip(head.len() as int) =~= rest);
    assert(head =~= (head + rest).subrange(0, head.len() as int));
    if after_prefix(s, head) is Some {
        assert(s =~= head + s.skip(head.len() as int));
    }
}

/// The first characters of a text are as many as asked for, if there are so many.
pub proof fn first_characters(a: Seq<char>, b: Seq<char>, n: nat)
    ensures
        prefix(a + b, a.len()) == a,
        a.len() <= n ==> prefix(a, n) == a,
{
    assert((a + b).take(a.len() as int) =~= a);
    if b.len() == 0 {
        assert(a + b =~= a);
    }
}

/// A text that is there is itself, and one that is missing is missing.
pub proof fn missing_texts_are_missing(s: &str, t: String, list: Seq<String>, i: int)
    ensures
        opt_view(Some(s)) == Some(s@),
        opt_view(None) is None,
        opt_string(Some(t)) == Some(t@),
        opt_string(None) is None,
        contents(list).len() == list.len(),
        0 <= i < list.len() ==> contents(list)[i] == list[i]@,
{
}

} // verus!
