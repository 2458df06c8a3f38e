//! Version and extension strings of an OpenGL driver.

use vstd::prelude::*;

verus! {

pub const SPACE: u8 = 32;

pub const PLUS: u8 = 43;

pub const DOT: u8 = 46;

pub const ZERO: u8 = 48;

pub const NINE: u8 = 57;

/// `OpenGL ES `, which the version string of an OpenGL ES driver starts with.
pub open spec fn es_prefix() -> Seq<u8> {
    seq![79u8, 112, 101, 110, 71, 76, 32, 69, 83, 32]
}

/// `GL_EXT_read_format_bgra`, the extension that lets pixels be read in BGRA order.
pub open spec fn bgra_extension() -> Seq<u8> {
    seq![
        71u8, 76, 95, 69, 88, 84, 95, 114, 101, 97, 100, 95, 102, 111, 114, 109, 97, 116, 95, 98,
        103, 114, 97,
    ]
}

pub open spec fn is_digit(byte: u8) -> bool {
    ZERO <= byte <= NINE
}

/// The number that decimal digits stand for.
pub open spec fn decimal(digits: Seq<u8>) -> int
    decreases digits.len(),
{
    if digits.len() == 0 {
        0
    } else {
        decimal(digits.drop_last()) * 10 + (digits.last() - ZERO)
    }
}

/// The text without a leading plus sign.
pub open spec fn without_plus(text: Seq<u8>) -> Seq<u8> {
    if text.len() > 0 && text[0] == PLUS {
        text.skip(1)
    } else {
        text
    }
}

/// The 32-bit number that a text consists of, if it is one.
pub open spec fn number(text: Seq<u8>) -> Option<int> {
    let digits = without_plus(text);
    if digits.len() > 0 && (forall|i: int| 0 <= i < digits.len() ==> is_digit(#[trigger] digits[i]))
        && decimal(digits) <= u32::MAX {
        Some(decimal(digits))
    } else {
        None
    }
}

/// Whether `end` is where the first dot of the text is, or the end of a text without dots.
pub open spec fn ends_before_dot(text: Seq<u8>, end: int) -> bool {
    &&& 0 <= end <= text.len()
    &&& forall|i: int| 0 <= i < end ==> #[trigger] text[i] != DOT
    &&& end < text.len() ==> text[end] == DOT
}

/// Whether a text starts with a number of at least 3 that reaches up to a dot or to the end.
pub open spec fn is_major_version_3(text: Seq<u8>) -> bool {
    exists|end: int| #[trigger]
        ends_before_dot(text, end) && number(text.take(end)) is Some && number(text.take(end))->0
            >= 3
}

/// Whether a version string is that of OpenGL ES 3 or later.
pub open spec fn is_es3(version: Seq<u8>) -> bool {
    &&& es_prefix().len() <= version.len()
    &&& version.take(es_prefix().len() as int) == es_prefix()
    &&& is_major_version_3(version.skip(es_prefix().len() as int))
}

/// Whether a list of words, separated by single spaces, has `word` from `start` on.
pub open spec fn is_word_at(list: Seq<u8>, word: Seq<u8>, start: int) -> bool {
    let end = start + word.len();
    &&& 0 <= start
    &&& end <= list.len()
    &&& start == 0 || list[start - 1] == SPACE
    &&& end == list.len() || list[end] == SPACE
    &&& list.subrange(start, end) == word
}

/// Whether `word` is one of the words of a list.
pub open spec fn has_word(list: Seq<u8>, word: Seq<u8>) -> bool {
    exists|start: int| is_word_at(list, word, start)
}

/// Appending a digit never makes a number smaller.
proof fn decimal_grows(digits: Seq<u8>, end: int)
    requires
        0 <= end <= digits.len(),
        forall|i: int| 0 <= i < digits.len() ==> is_digit(#[trigger] digits[i]),
    ensures
        0 <= decimal(digits.take(end)) <= decimal(digits),
    decreases digits.len(),
{
    if end == digits.len() {
        assert(digits.take(end) =~= digits);
        if digits.len() > 0 {
            assert(digits.drop_last().take(digits.len() - 1) =~= digits.drop_last());
            decimal_grows(digits.drop_last(), digits.len() - 1);
        }
    } else {
        assert(digits.drop_last().take(end) =~= digits.take(end));
        decimal_grows(digits.drop_last(), end);
        assert(is_digit(digits[digits.len() - 1]));
    }
}

/// The 32-bit number between `start` and `end`, if that is what the text holds there.
fn parse_number(text: &[u8], start: usize, end: usize) -> (parsed: Option<u32>)
    requires
        start <= end <= text@.len(),
    ensures
        parsed matches Some(value) ==> number(text@.subrange(start as int, end as int)) == Some(
            value as int,
        ),
        parsed is None ==> number(text@.subrange(start as int, end as int)) is None,
{
    let ghost whole = text@.subrange(start as int, end as int);
    let mut first: usize = start;
    if start < end && text[start] == PLUS {
        first = start + 1;
    }
    let ghost digits = text@.subrange(first as int, end as int);
    assert(without_plus(whole) =~= digits);
    if first == end {
        return None;
    }
    let mut value: u32 = 0;
    let mut at: usize = first;
    while at < end
        invariant
            first <= at <= end <= text@.len(),
            first < end,
            whole == text@.subrange(start as int, end as int),
            digits == text@.subrange(first as int, end as int),
            without_plus(whole) == digits,
            value == decimal(digits.take(at - first)),
            forall|i: int| 0 <= i < at - first ==> is_digit(#[trigger] digits[i]),
        decreases end - at,
    {
        let byte: u8 = text[at];
        assert(digits[at - first] == byte);
        if byte < ZERO || byte > NINE {
            return None;
        }
        let ghost more = digits.take(at - first + 1);
        assert(more.drop_last() =~= digits.take(at - first));
        let next: u64 = value as u64 * 10 + (byte - ZERO) as u64;
        if next > u32::MAX as u64 {
            proof {
                if forall|i: int| 0 <= i < digits.len() ==> is_digit(#[trigger] digits[i]) {
                    decimal_grows(digits, at - first + 1);
                }
            }
            return None;
        }
        value = next as u32;
        at = at + 1;
    }
    assert(digits.take(digits.len() as int) =~= digits);
    Some(value)
}

/// Whether `text` holds `part` from `start` on.
fn matches_at(text: &[u8], part: &[u8], start: usize) -> (matches: bool)
    requires
        start + part@.len() <= text@.len(),
    ensures
        matches == (text@.subrange(start as int, start + part@.len()) == part@),
{
    let len: usize = text.len();
    let mut i: usize = 0;
    while i < part.len()
        invariant
            i <= part@.len(),
            len == text@.len(),
            start + part@.len() <= text@.len(),
            forall|j: int| 0 <= j < i ==> text@[start + j] == #[trigger] part@[j],
        decreases part@.len() - i,
    {
        if text[start + i] != part[i] {
            assert(text@.subrange(start as int, start + part@.len())[i as int] != part@[i as int]);
            return false;
        }
        i = i + 1;
    }
    assert(text@.subrange(start as int, start + part@.len()) =~= part@);
    true
}

/// Whether a version string is that of OpenGL ES 3 or later.
pub fn supports_es3(version: &[u8]) -> (es3: bool)
    ensures
        es3 == is_es3(version@),
{
    let prefix: [u8; 10] = [79, 112, 101, 110, 71, 76, 32, 69, 83, 32];
    assert(prefix@ =~= es_prefix());
    if version.len() < 10 || !matches_at(version, &prefix, 0) {
        assert(version@.len() >= 10 ==> version@.take(10) == version@.subrange(0, 10));
        return false;
    }
    assert(version@.take(10) == version@.subrange(0, 10));
    let ghost rest = version@.skip(10);
    let mut end: usize = 10;
    while end < version.len() && version[end] != DOT
        invariant
            10 <= end <= version@.len(),
            rest == version@.skip(10),
            forall|i: int| 0 <= i < end - 10 ==> #[trigger] rest[i] != DOT,
        decreases version@.len() - end,
    {
        end = end + 1;
    }
    let ghost length = end - 10;
    assert(ends_before_dot(rest, length));
    assert(rest.take(length) =~= version@.subrange(10, end as int));
    proof {
        assert forall|other: int| #[trigger] ends_before_dot(rest, other) implies other
            == length by {
            if other < length {
                assert(rest[other] != DOT);
            } else if other > length {
                assert(rest[length] != DOT);
            }
        }
    }
    match parse_number(version, 10, end) {
        Some(major) => major >= 3,
        None => false,
    }
}

/// Whether a driver's list of extensions has the one for reading BGRA.
pub fn has_bgra_extension(extensions: &[u8]) -> (has: bool)
    ensures
        has == has_word(extensions@, bgra_extension()),
{
    let word: [u8; 23] = [
        71, 76, 95, 69, 88, 84, 95, 114, 101, 97, 100, 95, 102, 111, 114, 109, 97, 116, 95, 98, 103,
        114, 97,
    ];
    assert(word@ =~= bgra_extension());
    let len: usize = extensions.len();
    if len < 23 {
        return false;
    }
    let mut start: usize = 0;
    while start <= len - 23
        invariant
            len == extensions@.len(),
            23 <= len,
            start <= len - 22,
            word@ == bgra_extension(),
            forall|i: int| 0 <= i < start ==> !#[trigger] is_word_at(extensions@, bgra_extension(), i),
        decreases len - start,
    {
        if (start == 0 || extensions[start - 1] == SPACE) && (start + 23 == len || extensions[start
            + 23] == SPACE) && matches_at(extensions, &word, start) {
            assert(is_word_at(extensions@, bgra_extension(), start as int));
            return true;
        }
        start = start + 1;
    }
    false
}

/// Each digit counts ten times as much as the one after it.
pub proof fn digits_count_by_tens(digits: Seq<u8>, digit: u8)
    ensures
        decimal(Seq::empty()) == 0,
        decimal(digits.push(digit)) == 10 * decimal(digits) + digit - 48,
{
    assert(digits.push(digit).drop_last() =~= digits);
}

/// A number is one or more digits, after a plus sign or not, that stand for at most 32 bits.
pub proof fn numbers_are_digits(text: Seq<u8>)
    requires
        text.len() > 0,
        forall|i: int| 0 <= i < text.len() ==> 48 <= #[trigger] text[i] <= 57,
    ensures
        decimal(text) <= 0xffff_ffff ==> {
            &&& number(text) == Some(decimal(text))
            &&& number(seq![43u8] + text) == Some(decimal(text))
        },
        decimal(text) > 0xffff_ffff ==> {
            &&& number(text) is None
            &&& number(seq![43u8] + text) is None
        },
{
    assert((seq![43u8] + text).skip(1) =~= text);
    assert(48 <= text[0] <= 57);
}

/// Nothing else is a number: not a text without digits, nor one with anything but digits after its
/// first byte, or with a first byte that is neither a digit nor a plus sign.
pub proof fn nothing_else_is_a_number(text: Seq<u8>, i: int)
    ensures
        text.len() == 0 ==> number(text) is None,
        text.len() == 1 && text[0] == 43 ==> number(text) is None,
        0 <= i < text.len() && !(48 <= text[i] <= 57) && !(i == 0 && text[i] == 43) ==> number(text)
            is None,
{
    let digits = without_plus(text);
    if 0 <= i < text.len() && !(48 <= text[i] <= 57) && !(i == 0 && text[i] == 43) {
        if text[0] == PLUS {
            assert(digits[i - 1] == text[i]);
        } else {
            assert(digits[i] == text[i]);
        }
        assert(!is_digit(text[i]));
    }
}

/// A driver supports OpenGL ES 3 exactly if its version string goes on after `OpenGL ES ` with a
/// number of at least 3, up to the first dot, or to the end if there is none.
pub proof fn version_is_the_number_before_the_dot(
    version: &[u8],
    major: Seq<u8>,
    rest: Seq<u8>,
    es3: bool,
)
    requires
        call_ensures(supports_es3, (version,), es3),
        forall|i: int| 0 <= i < major.len() ==> #[trigger] major[i] != 46,
        ({
            let start = seq![79u8, 112, 101, 110, 71, 76, 32, 69, 83, 32] + major;
            version@ == start || version@ == start + seq![46u8] + rest
        }),
    ensures
        es3 <==> (number(major) matches Some(value) && value >= 3),
{
    let prefix: Seq<u8> = seq![79u8, 112, 101, 110, 71, 76, 32, 69, 83, 32];
    let text = version@.skip(10);
    assert(prefix.len() == 10);
    assert(version@.take(10) =~= prefix);
    assert(text.take(major.len() as int) =~= major);
    assert forall|i: int| 0 <= i < major.len() implies #[trigger] text[i] != DOT by {
        assert(text[i] == major[i]);
    }
    assert(ends_before_dot(text, major.len() as int));
    assert forall|end: int| #[trigger] ends_before_dot(text, end) implies end == major.len() by {
        if end < major.len() {
            assert(text[end] == major[end]);
        } else if end > major.len() {
            assert(text[major.len() as int] != DOT);
        }
    }
}

/// A driver whose version string does not start with `OpenGL ES ` does not support it.
pub proof fn other_versions_are_not_supported(version: &[u8], es3: bool)
    requires
        call_ensures(supports_es3, (version,), es3),
        version@.len() < 10 || version@.take(10) != seq![79u8, 112, 101, 110, 71, 76, 32, 69, 83, 32],
    ensures
        !es3,
{
}

/// The extension for reading BGRA is found wherever it stands in the list, as a word of its own.
pub proof fn listed_extension_is_found(
    extensions: &[u8],
    before: Seq<u8>,
    after: Seq<u8>,
    has: bool,
)
    requires
        call_ensures(has_bgra_extension, (extensions,), has),
        before.len() == 0 || before.last() == 32,
        after.len() == 0 || after[0] == 32,
        extensions@ == before + seq![
            71u8, 76, 95, 69, 88, 84, 95, 114, 101, 97, 100, 95, 102, 111, 114, 109, 97, 116, 95,
            98, 103, 114, 97,
        ] + after,
    ensures
        has,
{
    let start = before.len() as int;
    let word: Seq<u8> = seq![
            71u8, 76, 95, 69, 88, 84, 95, 114, 101, 97, 100, 95, 102, 111, 114, 109, 97, 116, 95,
            98, 103, 114, 97,
        ];
    assert(word.len() == 23);
    assert(extensions@.subrange(start, start + 23) =~= word);
    if after.len() > 0 {
        assert(extensions@[start + 23] == after[0]);
    }
    if before.len() > 0 {
        assert(extensions@[start - 1] == before.last());
    }
    assert(is_word_at(extensions@, word, start));
}

/// If the extension for reading BGRA is found, then its name stands somewhere in the list, between
/// spaces or the ends of the list.
pub proof fn found_extension_is_listed(extensions: &[u8], has: bool) -> (start: int)
    requires
        call_ensures(has_bgra_extension, (extensions,), has),
        has,
    ensures
        0 <= start <= extensions@.len() - 23,
        extensions@.subrange(start, start + 23) == seq![
            71u8, 76, 95, 69, 88, 84, 95, 114, 101, 97, 100, 95, 102, 111, 114, 109, 97, 116, 95,
            98, 103, 114, 97,
        ],
        start == 0 || extensions@[start - 1] == 32,
        start + 23 == extensions@.len() || extensions@[start + 23] == 32,
{
    let word = bgra_extension();
    assert(word.len() == 23);
    choose|start: int| is_word_at(extensions@, word, start)
}

} // verus!
