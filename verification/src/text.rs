//! Text as sequences of characters: decimal and hexadecimal rendering,
//! splitting, trimming and ASCII case folding.
use vstd::prelude::*;

verus! {

/// `String::push`: appends one character to the end of the string.
pub assume_specification[ String::push ](s: &mut String, c: char)
    ensures
        final(s)@ == old(s)@.push(c),
;

/// The characters of a string slice, in order.
pub fn chars_of(s: &str) -> (chars: Vec<char>)
    ensures
        chars@ == s@,
{
    let mut chars: Vec<char> = Vec::new();
    for c in it: s.chars()
        invariant
            chars@ == it.seq().take(it.index() as int),
            it.seq() == s@,
    {
        chars.push(c);
    }
    chars
}

/// The string made of the given characters, in order.
pub fn string_of(chars: &Vec<char>) -> (s: String)
    ensures
        s@ == chars@,
{
    let mut s = String::new();
    for i in 0..chars.len()
        invariant
            s@ == chars@.take(i as int),
    {
        s.push(chars[i]);
        assert(chars@.take(i + 1) =~= chars@.take(i as int).push(chars@[i as int]));
    }
    assert(chars@.take(chars@.len() as int) =~= chars@);
    s
}

/// Whether two string slices hold the same characters.
pub fn same_text(a: &str, b: &str) -> (same: bool)
    ensures
        same == (a@ == b@),
{
    a.to_owned() == b.to_owned()
}

/// `first` followed by `second`.
pub fn joined(first: &str, second: &str) -> (s: String)
    ensures
        s@ == first@ + second@,
{
    let mut s = first.to_owned();
    s.append(second);
    s
}

/// `before`, `text` and `after`, one behind the other.
pub fn wrapped(before: &str, text: &str, after: &str) -> (s: String)
    ensures
        s@ == before@ + text@ + after@,
{
    let mut s = before.to_owned();
    s.append(text);
    s.append(after);
    s
}

// ---------------------------------------------------------------------------
// Decimal and hexadecimal digits
// ---------------------------------------------------------------------------

/// The character of a digit below sixteen: `0` to `9`, then `a` to `f`.
pub open spec fn digit_char(d: nat) -> char {
    if d < 10 {
        (48 + d) as char
    } else {
        (87 + d) as char
    }
}

/// The decimal digits of `n`, most significant first, without leading zeros.
pub open spec fn decimal(n: nat) -> Seq<char>
    decreases n,
{
    if n < 10 {
        seq![digit_char(n)]
    } else {
        decimal(n / 10).push(digit_char(n % 10))
    }
}

/// Whether `c` is one of the characters that `digit_char` yields.
pub open spec fn is_hex_digit(c: char) -> bool {
    ('0' <= c && c <= '9') || ('a' <= c && c <= 'f')
}

fn digit(d: u8) -> (c: char)
    requires
        d < 16,
    ensures
        c == digit_char(d as nat),
{
    if d < 10 {
        (48 + d) as char
    } else {
        (87 + d) as char
    }
}

/// Renders a number in decimal.
pub fn decimal_text(n: u128) -> (s: String)
    ensures
        s@ == decimal(n as nat),
    decreases n,
{
    if n < 10 {
        let mut s = String::new();
        s.push(digit(n as u8));
        assert(s@ =~= decimal(n as nat));
        s
    } else {
        let mut s = decimal_text(n / 10);
        s.push(digit((n % 10) as u8));
        s
    }
}

/// Two different numbers have different decimal renderings.
pub proof fn decimal_is_injective(a: nat, b: nat)
    requires
        decimal(a) == decimal(b),
    ensures
        a == b,
    decreases a,
{
    let x = decimal(a);
    let y = decimal(b);
    decimal_is_nonempty(a);
    decimal_is_nonempty(b);
    if a < 10 && b < 10 {
        assert(x[0] == digit_char(a));
        assert(y[0] == digit_char(b));
    } else if a < 10 {
        decimal_is_nonempty(b / 10);
        assert(y.len() >= 2);
    } else if b < 10 {
        decimal_is_nonempty(a / 10);
        assert(x.len() >= 2);
    } else {
        assert(x.last() == digit_char(a % 10));
        assert(y.last() == digit_char(b % 10));
        assert(x.drop_last() =~= decimal(a / 10));
        assert(y.drop_last() =~= decimal(b / 10));
        decimal_is_injective(a / 10, b / 10);
    }
}

proof fn decimal_is_nonempty(n: nat)
    ensures
        decimal(n).len() >= 1,
    decreases n,
{
    if n >= 10 {
        decimal_is_nonempty(n / 10);
    }
}

/// Each byte as two lower-case hexadecimal digits.
pub open spec fn hex(bytes: Seq<u8>) -> Seq<char> {
    Seq::new(
        2 * bytes.len(),
        |i: int|
            if i % 2 == 0 {
                digit_char((bytes[i / 2] / 16) as nat)
            } else {
                digit_char((bytes[i / 2] % 16) as nat)
            },
    )
}

/// Renders bytes in lower-case hexadecimal, two digits each.
pub fn hex_text(bytes: &[u8]) -> (s: String)
    ensures
        s@ == hex(bytes@),
{
    let mut s = String::new();
    for i in 0..bytes.len()
        invariant
            s@ == hex(bytes@.take(i as int)),
    {
        let ghost before = s@;
        s.push(digit(bytes[i] / 16));
        s.push(digit(bytes[i] % 16));
        assert(s@ =~= hex(bytes@.take(i + 1))) by {
            let longer = hex(bytes@.take(i + 1));
            assert forall|j: int| 0 <= j < longer.len() implies s@[j] == longer[j] by {
                if j < 2 * i {
                    assert(before[j] == hex(bytes@.take(i as int))[j]);
                    assert(bytes@.take(i + 1)[j / 2] == bytes@.take(i as int)[j / 2]);
                }
            }
        }
    }
    assert(bytes@.take(bytes@.len() as int) =~= bytes@);
    s
}

/// A hexadecimal rendering holds lower-case hexadecimal digits only.
pub proof fn hex_holds_digits(bytes: Seq<u8>)
    ensures
        hex(bytes).len() == 2 * bytes.len(),
        forall|i: int| 0 <= i < hex(bytes).len() ==> is_hex_digit(#[trigger] hex(bytes)[i]),
{
}

// ---------------------------------------------------------------------------
// Letter case
// ---------------------------------------------------------------------------

/// The character with `A` to `Z` made lower-case.
pub open spec fn lower_char(c: char) -> char {
    if 'A' <= c && c <= 'Z' {
        (c as u32 + 32) as char
    } else {
        c
    }
}

/// The text with `A` to `Z` made lower-case.
pub open spec fn lower(text: Seq<char>) -> Seq<char> {
    text.map_values(|c: char| lower_char(c))
}

/// Returns the text with `A` to `Z` made lower-case.
pub fn ascii_lowercase(text: &str) -> (lowered: String)
    ensures
        lowered@ == lower(text@),
{
    let chars = chars_of(text);
    let mut lowered = String::new();
    for i in 0..chars.len()
        invariant
            chars@ == text@,
            lowered@ == lower(text@.take(i as int)),
    {
        let c = chars[i];
        if 'A' <= c && c <= 'Z' {
            lowered.push((c as u8 + 32) as char);
        } else {
            lowered.push(c);
        }
        assert(lower(text@.take(i + 1)) =~= lower(text@.take(i as int)).push(
            lower_char(text@[i as int]),
        ));
    }
    assert(text@.take(text@.len() as int) =~= text@);
    lowered
}

/// Whether two texts are the same but for the case of `A` to `Z`.
pub fn same_but_for_case(a: &str, b: &str) -> (same: bool)
    ensures
        same == (lower(a@) == lower(b@)),
{
    ascii_lowercase(a) == ascii_lowercase(b)
}

// ---------------------------------------------------------------------------
// Splitting and trimming
// ---------------------------------------------------------------------------

/// Where `c` stands first at or after `from`, or how long the text is.
pub open spec fn char_from(text: Seq<char>, c: char, from: int) -> int
    decreases text.len() - from,
{
    if from < 0 || from >= text.len() {
        text.len() as int
    } else if text[from] == c {
        from
    } else {
        char_from(text, c, from + 1)
    }
}

/// What stands before and after the first `c`, if there is one.
pub open spec fn split_at_first(text: Seq<char>, c: char) -> Option<(Seq<char>, Seq<char>)> {
    let place = char_from(text, c, 0);
    if place < text.len() {
        Some((text.take(place), text.skip(place + 1)))
    } else {
        None
    }
}

/// Where nothing before `place` is `c` and `place` is, or is the end, that is
/// what `char_from` finds.
pub proof fn char_from_finds(text: Seq<char>, c: char, from: int, place: int)
    requires
        0 <= from <= place <= text.len(),
        forall|i: int| from <= i < place ==> text[i] != c,
        place < text.len() ==> text[place] == c,
    ensures
        char_from(text, c, from) == place,
    decreases place - from,
{
    if from < place {
        char_from_finds(text, c, from + 1, place);
    }
}

pub(crate) fn find_char(text: &Vec<char>, c: char, from: usize) -> (place: usize)
    requires
        from <= text@.len(),
    ensures
        place == char_from(text@, c, from as int),
        from <= place <= text@.len(),
{
    let mut place: usize = from;
    while place < text.len() && text[place] != c
        invariant
            from <= place <= text@.len(),
            char_from(text@, c, from as int) == char_from(text@, c, place as int),
        decreases text@.len() - place,
    {
        place += 1;
    }
    place
}

pub(crate) fn slice(text: &Vec<char>, from: usize, to: usize) -> (part: Vec<char>)
    requires
        from <= to <= text@.len(),
    ensures
        part@ == text@.subrange(from as int, to as int),
{
    let mut part: Vec<char> = Vec::new();
    for i in from..to
        invariant
            from <= to <= text@.len(),
            part@ == text@.subrange(from as int, i as int),
    {
        part.push(text[i]);
        assert(part@ =~= text@.subrange(from as int, i + 1));
    }
    part
}

/// Whether `c` is white space.
pub open spec fn is_white(c: char) -> bool {
    let code = c as u32;
    ||| 9 <= code <= 13
    ||| code == 0x20
    ||| code == 0x85
    ||| code == 0xa0
    ||| code == 0x1680
    ||| 0x2000 <= code <= 0x200a
    ||| code == 0x2028
    ||| code == 0x2029
    ||| code == 0x202f
    ||| code == 0x205f
    ||| code == 0x3000
}

fn white(c: char) -> (result: bool)
    ensures
        result == is_white(c),
{
    let code: u32 = c as u32;
    (9 <= code && code <= 13) || code == 0x20 || code == 0x85 || code == 0xa0 || code == 0x1680
        || (0x2000 <= code && code <= 0x200a) || code == 0x2028 || code == 0x2029 || code == 0x202f
        || code == 0x205f || code == 0x3000
}

/// Where the first character that is not white space stands at or after
/// `from`, or how long the text is.
pub open spec fn first_visible(text: Seq<char>, from: int) -> int
    decreases text.len() - from,
{
    if from < 0 || from >= text.len() {
        text.len() as int
    } else if is_white(text[from]) {
        first_visible(text, from + 1)
    } else {
        from
    }
}

/// Where the white space that ends the first `end` characters begins, but not
/// before `start`.
pub open spec fn end_of_visible(text: Seq<char>, start: int, end: int) -> int
    decreases end - start,
{
    if end <= start || !is_white(text[end - 1]) {
        end
    } else {
        end_of_visible(text, start, end - 1)
    }
}

/// The text without the white space around it.
pub open spec fn trimmed(text: Seq<char>) -> Seq<char> {
    let start = first_visible(text, 0);
    text.subrange(start, end_of_visible(text, start, text.len() as int))
}

pub(crate) fn trim_chars(text: &Vec<char>) -> (part: Vec<char>)
    ensures
        part@ == trimmed(text@),
{
    let mut start: usize = 0;
    while start < text.len() && white(text[start])
        invariant
            start <= text@.len(),
            first_visible(text@, 0) == first_visible(text@, start as int),
        decreases text@.len() - start,
    {
        start += 1;
    }
    let mut end: usize = text.len();
    while end > start && white(text[end - 1])
        invariant
            start <= end <= text@.len(),
            end_of_visible(text@, start as int, text@.len() as int) == end_of_visible(
                text@,
                start as int,
                end as int,
            ),
        decreases end,
    {
        end -= 1;
    }
    slice(text, start, end)
}

/// A text that starts and ends with something visible, or is empty, is not
/// changed by trimming.
pub proof fn trimming_keeps_visible_text(text: Seq<char>)
    requires
        text.len() > 0 ==> !is_white(text[0]) && !is_white(text.last()),
    ensures
        trimmed(text) == text,
{
    assert(text.subrange(0, text.len() as int) =~= text);
}

/// Whether `text` ends with `suffix`.
pub open spec fn ends_with(text: Seq<char>, suffix: Seq<char>) -> bool {
    suffix.len() <= text.len() && text.skip(text.len() - suffix.len()) == suffix
}

/// Returns what stands before the suffix, if the text ends with it.
pub fn without_suffix(text: &str, suffix: &str) -> (rest: Option<String>)
    ensures
        match rest {
            Some(rest) => ends_with(text@, suffix@) && rest@ == text@.take(
                text@.len() - suffix@.len(),
            ),
            None => !ends_with(text@, suffix@),
        },
{
    let chars = chars_of(text);
    let tail = chars_of(suffix);
    if tail.len() > chars.len() {
        return None;
    }
    let total: usize = chars.len();
    let cut: usize = total - tail.len();
    for i in 0..tail.len()
        invariant
            chars@ == text@,
            tail@ == suffix@,
            total == chars@.len(),
            cut == total - tail@.len(),
            forall|j: int| 0 <= j < i ==> chars@[cut + j] == tail@[j],
    {
        if chars[cut + i] != tail[i] {
            assert(text@.skip(cut as int)[i as int] != suffix@[i as int]);
            return None;
        }
    }
    assert(text@.skip(cut as int) =~= suffix@);
    let rest = slice(&chars, 0, cut);
    assert(rest@ =~= text@.take(cut as int));
    Some(string_of(&rest))
}

// ---------------------------------------------------------------------------
// What follows
// ---------------------------------------------------------------------------

/// The value of a digit character, in either rendering.
pub open spec fn digit_shown(c: char) -> nat {
    if '0' <= c && c <= '9' {
        (c as u32 - 48) as nat
    } else {
        (c as u32 - 87) as nat
    }
}

/// The number that decimal digits show, most significant first.
pub open spec fn number_shown(digits: Seq<char>) -> nat
    decreases digits.len(),
{
    if digits.len() == 0 {
        0
    } else {
        10 * number_shown(digits.drop_last()) + digit_shown(digits.last())
    }
}

/// A decimal rendering reads back as the number: it has at least one digit,
/// digits only, and no zero in front unless it is the number zero.
pub proof fn decimals_read_back(n: nat)
    ensures
        number_shown(decimal(n)) == n,
        decimal(n).len() >= 1,
        forall|i: int| 0 <= i < decimal(n).len() ==> '0' <= #[trigger] decimal(n)[i] <= '9',
        n > 0 ==> decimal(n)[0] != '0',
    decreases n,
{
    if n < 10 {
        let digits = decimal(n);
        assert(digits.drop_last() =~= Seq::empty());
        assert(number_shown(digits.drop_last()) == 0);
        assert(digits.last() == digit_char(n));
    } else {
        decimals_read_back(n / 10);
        let front = decimal(n / 10);
        let digits = decimal(n);
        assert(digits.drop_last() =~= front);
        assert(digits.last() == digit_char(n % 10));
        assert(digit_shown(digit_char(n % 10)) == n % 10);
        assert forall|i: int| 0 <= i < digits.len() implies '0' <= #[trigger] digits[i] <= '9' by {
            if i < front.len() {
                assert(digits[i] == front[i]);
            }
        }
        assert(digits[0] == front[0]);
    }
}

/// A hexadecimal rendering reads back as the bytes, two digits each with the
/// higher one first.
pub proof fn hex_reads_back(bytes: Seq<u8>, i: int)
    requires
        0 <= i < bytes.len(),
    ensures
        hex(bytes).len() == 2 * bytes.len(),
        16 * digit_shown(hex(bytes)[2 * i]) + digit_shown(hex(bytes)[2 * i + 1]) == bytes[i],
        digit_shown(hex(bytes)[2 * i]) < 16,
        digit_shown(hex(bytes)[2 * i + 1]) < 16,
{
    let text = hex(bytes);
    assert((2 * i) / 2 == i && (2 * i) % 2 == 0);
    assert((2 * i + 1) / 2 == i && (2 * i + 1) % 2 == 1);
    assert(text[2 * i] == digit_char((bytes[i] / 16) as nat));
    assert(text[2 * i + 1] == digit_char((bytes[i] % 16) as nat));
    assert(digit_shown(digit_char((bytes[i] / 16) as nat)) == bytes[i] / 16);
    assert(digit_shown(digit_char((bytes[i] % 16) as nat)) == bytes[i] % 16);
}

/// Different bytes have different hexadecimal renderings.
pub proof fn hex_is_injective(a: Seq<u8>, b: Seq<u8>)
    requires
        hex(a) == hex(b),
    ensures
        a == b,
{
    assert(hex(a).len() == 2 * a.len());
    assert(hex(b).len() == 2 * b.len());
    assert forall|i: int| 0 <= i < a.len() implies a[i] == b[i] by {
        hex_reads_back(a, i);
        hex_reads_back(b, i);
    }
    assert(a =~= b);
}

/// Lower-casing changes the letters `A` to `Z` to the letters at the same place
/// in `a` to `z`, and no other character. Doing so again changes nothing.
pub proof fn lowering_changes_capitals_alone(text: Seq<char>, i: int)
    requires
        0 <= i < text.len(),
    ensures
        lower(text).len() == text.len(),
        'A' <= text[i] <= 'Z' ==> 'a' <= lower(text)[i] <= 'z' && lower(text)[i] as u32 - 'a' as u32
            == text[i] as u32 - 'A' as u32,
        !('A' <= text[i] <= 'Z') ==> lower(text)[i] == text[i],
        lower(lower(text)) == lower(text),
{
    assert(lower(text)[i] == lower_char(text[i]));
    assert(lower(lower(text)) =~= lower(text)) by {
        assert forall|j: int| 0 <= j < text.len() implies lower(lower(text))[j] == lower(text)[j] by {
            assert(lower(text)[j] == lower_char(text[j]));
            assert(lower(lower(text))[j] == lower_char(lower_char(text[j])));
        }
    }
}

pub(crate) proof fn char_from_is_first(text: Seq<char>, c: char, from: int)
    requires
        0 <= from <= text.len(),
    ensures
        from <= char_from(text, c, from) <= text.len(),
        forall|i: int| from <= i < char_from(text, c, from) ==> text[i] != c,
        char_from(text, c, from) < text.len() ==> text[char_from(text, c, from)] == c,
    decreases text.len() - from,
{
    if from < text.len() && text[from] != c {
        char_from_is_first(text, c, from + 1);
    }
}

/// A text is split at the first `c`: what stands before it holds none, and both
/// parts with `c` between them are the text again. A text without `c` is not
/// split.
pub proof fn splits_come_together_again(text: Seq<char>, c: char)
    ensures
        match split_at_first(text, c) {
            Some((before, after)) => {
                &&& text == before.push(c) + after
                &&& !before.contains(c)
            },
            None => !text.contains(c),
        },
{
    char_from_is_first(text, c, 0);
    let place = char_from(text, c, 0);
    if place < text.len() {
        assert(text =~= text.take(place).push(c) + text.skip(place + 1));
    }
}

pub(crate) proof fn visible_bounds(text: Seq<char>, from: int)
    requires
        0 <= from <= text.len(),
    ensures
        from <= first_visible(text, from) <= text.len(),
        forall|i: int| from <= i < first_visible(text, from) ==> is_white(#[trigger] text[i]),
        first_visible(text, from) < text.len() ==> !is_white(text[first_visible(text, from)]),
    decreases text.len() - from,
{
    if from < text.len() && is_white(text[from]) {
        visible_bounds(text, from + 1);
    }
}

pub(crate) proof fn visible_end(text: Seq<char>, start: int, end: int)
    requires
        0 <= start <= end <= text.len(),
    ensures
        start <= end_of_visible(text, start, end) <= end,
        forall|i: int| end_of_visible(text, start, end) <= i < end ==> is_white(#[trigger] text[i]),
        end_of_visible(text, start, end) > start ==> !is_white(
            text[end_of_visible(text, start, end) - 1],
        ),
    decreases end - start,
{
    if end > start && is_white(text[end - 1]) {
        visible_end(text, start, end - 1);
    }
}

/// Trimming takes white space away at both ends and nothing else: what is left
/// stands in the text between two runs of white space, and neither starts nor
/// ends with any.
pub proof fn trimming_takes_white_space_alone(text: Seq<char>)
    ensures
        exists|start: int, end: int|
            {
                &&& 0 <= start <= end <= text.len()
                &&& trimmed(text) == #[trigger] text.subrange(start, end)
                &&& forall|i: int| 0 <= i < start ==> is_white(#[trigger] text[i])
                &&& forall|i: int| end <= i < text.len() ==> is_white(#[trigger] text[i])
            },
        trimmed(text).len() > 0 ==> !is_white(trimmed(text)[0]) && !is_white(trimmed(text).last()),
{
    visible_bounds(text, 0);
    let start = first_visible(text, 0);
    visible_end(text, start, text.len() as int);
    let end = end_of_visible(text, start, text.len() as int);
    assert(trimmed(text) == text.subrange(start, end));
}

/// Of the characters below 128, the blank and the control characters from tab
/// to carriage return are white space, and no other one is.
pub proof fn ascii_white_space(c: char)
    requires
        (c as u32) < 128,
    ensures
        is_white(c) <==> c == ' ' || 9 <= c as u32 <= 13,
{
}

/// A text ends with a suffix exactly where it is something followed by it.
pub proof fn suffixes_end_texts(front: Seq<char>, suffix: Seq<char>, text: Seq<char>)
    ensures
        ends_with(front + suffix, suffix),
        ends_with(text, suffix) ==> text == text.take(text.len() - suffix.len()) + suffix,
{
    assert((front + suffix).skip((front + suffix).len() - suffix.len()) =~= suffix);
    if ends_with(text, suffix) {
        let cut = text.len() - suffix.len();
        assert(text =~= text.take(cut) + text.skip(cut));
    }
}

/// White space beyond ASCII: the next line and no-break space, the spaces of the
/// general punctuation block with the line and paragraph separators, and the
/// Ogham and the ideographic space.
pub proof fn wide_white_space(c: char)
    requires
        c as u32 >= 0x80,
    ensures
        is_white(c) <==> (c == '\u{85}' || c == '\u{a0}' || c == '\u{1680}' || ('\u{2000}' <= c
            <= '\u{200a}') || c == '\u{2028}' || c == '\u{2029}' || c == '\u{202f}' || c
            == '\u{205f}' || c == '\u{3000}'),
{
}

/// A suffix is taken off exactly where the text ends in it: what is left and the
/// suffix make up the text again.
pub proof fn suffixes_are_taken_off(text: &str, suffix: &str, rest: Option<String>, front: Seq<char>)
    requires
        call_ensures(without_suffix, (text, suffix), rest),
    ensures
        rest matches Some(left) ==> left@ + suffix@ =~= text@,
        front + suffix@ == text@ ==> rest is Some && rest.unwrap()@ == front,
{
    if front + suffix@ == text@ {
        suffixes_end_texts(front, suffix@, text@);
        assert((front + suffix@).take(front.len() as int) =~= front);
    }
    if let Some(left) = rest {
        suffixes_end_texts(left@, suffix@, text@);
    }
}

} // verus!
