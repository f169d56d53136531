//! Texts: building, comparing and searching the strings that the bridge shows and reads.

use vstd::prelude::*;

verus! {

/// The character of a decimal digit.
pub open spec fn digit_char(digit: nat) -> char {
    ('0' as int + digit) as char
}

/// A natural number in decimal, without leading zeros.
pub open spec fn digits(number: nat) -> Seq<char>
    decreases number,
{
    if number < 10 {
        seq![digit_char(number)]
    } else {
        digits(number / 10).push(digit_char(number % 10))
    }
}

/// A whole number in decimal, with a minus sign where it is negative.
pub open spec fn signed_digits(number: int) -> Seq<char> {
    if number < 0 {
        "-"@ + digits((-number) as nat)
    } else {
        digits(number as nat)
    }
}

fn digit_text(digit: u64) -> (text: &'static str)
    requires
        digit < 10,
    ensures
        text@ == seq![digit_char(digit as nat)],
{
    proof {
        reveal_strlit("0");
        reveal_strlit("1");
        reveal_strlit("2");
        reveal_strlit("3");
        reveal_strlit("4");
        reveal_strlit("5");
        reveal_strlit("6");
        reveal_strlit("7");
        reveal_strlit("8");
        reveal_strlit("9");
    }
    match digit {
        0 => "0",
        1 => "1",
        2 => "2",
        3 => "3",
        4 => "4",
        5 => "5",
        6 => "6",
        7 => "7",
        8 => "8",
        _ => "9",
    }
}

/// Writes a number in decimal.
pub fn decimal(number: u64) -> (text: String)
    ensures
        text@ == digits(number as nat),
    decreases number,
{
    if number < 10 {
        digit_text(number).to_owned()
    } else {
        let mut text = decimal(number / 10);
        text.append(digit_text(number % 10));
        assert(text@ =~= digits(number as nat));
        text
    }
}

/// Writes a whole number in decimal, with a minus sign where it is negative.
pub fn signed_decimal(number: i32) -> (text: String)
    ensures
        text@ == signed_digits(number as int),
{
    if number < 0 {
        let size: i64 = -(number as i64);
        let mut text = "-".to_owned();
        text.append(decimal(size as u64).as_str());
        text
    } else {
        decimal(number as u64)
    }
}

/// Whether two texts hold the same characters.
pub fn same_text(left: &str, right: &str) -> (same: bool)
    ensures
        same == (left@ == right@),
{
    left.to_owned() == right.to_owned()
}

/// Whether two optional texts are equal.
pub fn same_optional_text(left: &Option<String>, right: &Option<String>) -> (same: bool)
    ensures
        same == (left.deep_view() == right.deep_view()),
{
    match (left, right) {
        (None, None) => true,
        (Some(one), Some(other)) => *one == *other,
        _ => false,
    }
}

/// The characters of a text.
pub fn characters(text: &str) -> (list: Vec<char>)
    ensures
        list@ == text@,
{
    let mut list: Vec<char> = Vec::new();
    for c in it: text.chars()
        invariant
            list@ == it.seq().take(it.index() as int),
            it.seq() == text@,
    {
        list.push(c);
    }
    assert(text@.take(text@.len() as int) =~= text@);
    list
}

/// Whether `needle` stands in `haystack` at position `at`.
pub open spec fn stands_at(haystack: Seq<char>, needle: Seq<char>, at: int) -> bool {
    &&& 0 <= at
    &&& at + needle.len() <= haystack.len()
    &&& haystack.subrange(at, at + needle.len()) == needle
}

/// Whether a text begins with another.
pub open spec fn begins_with(text: Seq<char>, prefix: Seq<char>) -> bool {
    stands_at(text, prefix, 0)
}

/// Whether a text holds another.
pub open spec fn holds_text(haystack: Seq<char>, needle: Seq<char>) -> bool {
    exists|at: int| stands_at(haystack, needle, at)
}

fn stands_at_position(haystack: &Vec<char>, needle: &Vec<char>, at: usize) -> (found: bool)
    requires
        at <= haystack@.len(),
    ensures
        found == stands_at(haystack@, needle@, at as int),
{
    if needle.len() > haystack.len() - at {
        return false;
    }
    let mut index: usize = 0;
    while index < needle.len()
        invariant
            index <= needle@.len(),
            at + needle@.len() <= haystack.len(),
            forall|i: int| 0 <= i < index ==> haystack@[at + i] == needle@[i],
        decreases needle@.len() - index,
    {
        if haystack[at + index] != needle[index] {
            assert(haystack@.subrange(at as int, at + needle@.len())[index as int]
                != needle@[index as int]);
            return false;
        }
        index = index + 1;
    }
    assert(haystack@.subrange(at as int, at + needle@.len()) =~= needle@);
    true
}

/// Whether a text begins with `prefix`.
pub fn starts_with(text: &str, prefix: &str) -> (found: bool)
    ensures
        found == begins_with(text@, prefix@),
{
    stands_at_position(&characters(text), &characters(prefix), 0)
}

/// The rest of a text behind `prefix`, where the text begins with it.
pub fn strip_prefix<'a>(text: &'a str, prefix: &str) -> (rest: Option<&'a str>)
    ensures
        rest is Some <==> begins_with(text@, prefix@),
        rest matches Some(tail) ==> text@ == prefix@ + tail@,
{
    if !starts_with(text, prefix) {
        return None;
    }
    let tail = text.substring_char(prefix.unicode_len(), text.unicode_len());
    assert(text@ =~= prefix@ + tail@);
    Some(tail)
}

/// Whether a text holds `needle` anywhere.
pub fn contains_text(haystack: &str, needle: &str) -> (found: bool)
    ensures
        found == holds_text(haystack@, needle@),
{
    let hay = characters(haystack);
    let pin = characters(needle);
    let mut at: usize = 0;
    while at < hay.len()
        invariant
            at <= hay@.len(),
            hay@ == haystack@,
            pin@ == needle@,
            forall|i: int| 0 <= i < at ==> !stands_at(haystack@, needle@, i),
        decreases hay@.len() - at,
    {
        if stands_at_position(&hay, &pin, at) {
            return true;
        }
        at = at + 1;
    }
    let last = stands_at_position(&hay, &pin, at);
    assert(forall|i: int| i > hay@.len() ==> !stands_at(haystack@, needle@, i));
    last
}

/// A letter of the ASCII alphabet in lower case; any other character as it is.
pub open spec fn ascii_lower(c: char) -> char {
    if 'A' <= c && c <= 'Z' {
        (c as int + 32) as char
    } else {
        c
    }
}

/// Whether two texts differ at most in the case of ASCII letters.
pub open spec fn equal_ignoring_ascii_case(left: Seq<char>, right: Seq<char>) -> bool {
    &&& left.len() == right.len()
    &&& forall|i: int| 0 <= i < left.len() ==> ascii_lower(left[i]) == ascii_lower(right[i])
}

fn folded(c: char) -> (code: u32)
    ensures
        code == ascii_lower(c) as u32,
{
    if 'A' <= c && c <= 'Z' {
        c as u32 + 32
    } else {
        c as u32
    }
}

/// Whether two texts differ at most in the case of ASCII letters.
pub fn eq_ignore_ascii_case(left: &str, right: &str) -> (same: bool)
    ensures
        same == equal_ignoring_ascii_case(left@, right@),
{
    let one = characters(left);
    let other = characters(right);
    if one.len() != other.len() {
        return false;
    }
    let mut index: usize = 0;
    while index < one.len()
        invariant
            index <= one@.len(),
            one@ == left@,
            other@ == right@,
            one@.len() == other@.len(),
            forall|i: int| 0 <= i < index ==> ascii_lower(left@[i]) == ascii_lower(right@[i]),
        decreases one@.len() - index,
    {
        if folded(one[index]) != folded(other[index]) {
            return false;
        }
        index = index + 1;
    }
    true
}

/// Whether one text stands before another: at the first difference its character has the lower
/// code point, or it ends there.
pub open spec fn text_before(left: Seq<char>, right: Seq<char>) -> bool
    decreases left.len(),
{
    if right.len() == 0 {
        false
    } else if left.len() == 0 {
        true
    } else if left[0] != right[0] {
        left[0] < right[0]
    } else {
        text_before(left.drop_first(), right.drop_first())
    }
}

/// Whether `left` stands before `right` in the order of code points.
pub fn comes_before(left: &str, right: &str) -> (before: bool)
    ensures
        before == text_before(left@, right@),
{
    let one = characters(left);
    let other = characters(right);
    let mut index: usize = 0;
    assert(left@.skip(0) =~= left@);
    assert(right@.skip(0) =~= right@);
    while index < one.len() && index < other.len()
        invariant
            index <= one@.len(),
            index <= other@.len(),
            one@ == left@,
            other@ == right@,
            text_before(left@, right@) == text_before(
                left@.skip(index as int),
                right@.skip(index as int),
            ),
        decreases one@.len() - index,
    {
        if one[index] != other[index] {
            return one[index] < other[index];
        }
        assert(left@.skip(index as int).drop_first() =~= left@.skip(index + 1));
        assert(right@.skip(index as int).drop_first() =~= right@.skip(index + 1));
        index = index + 1;
    }
    index < other.len()
}

/// No text stands before itself.
pub proof fn text_before_is_irreflexive(text: Seq<char>)
    ensures
        !text_before(text, text),
    decreases text.len(),
{
    if text.len() > 0 {
        text_before_is_irreflexive(text.drop_first());
    }
}

/// Of two different texts one stands before the other, and only one.
pub proof fn text_before_is_total(left: Seq<char>, right: Seq<char>)
    requires
        left != right,
    ensures
        text_before(left, right) != text_before(right, left),
    decreases left.len(),
{
    if left.len() == 0 {
        assert(right.len() > 0) by {
            if right.len() == 0 {
                assert(left =~= right);
            }
        }
    } else if right.len() > 0 && left[0] == right[0] {
        if left.drop_first() == right.drop_first() {
            assert(left =~= seq![left[0]] + left.drop_first());
            assert(right =~= seq![right[0]] + right.drop_first());
        }
        text_before_is_total(left.drop_first(), right.drop_first());
    }
}

/// What stands before a text stands before all that the text stands before.
pub proof fn text_before_is_transitive(one: Seq<char>, two: Seq<char>, three: Seq<char>)
    requires
        text_before(one, two),
        text_before(two, three),
    ensures
        text_before(one, three),
    decreases one.len(),
{
    if one.len() > 0 && one[0] == two[0] && two[0] == three[0] {
        text_before_is_transitive(one.drop_first(), two.drop_first(), three.drop_first());
    }
}

/// Whether a character is white space: whether it has the Unicode property White_Space.
pub open spec fn is_white(c: char) -> bool {
    let code = c as int;
    ||| 0x9 <= code <= 0xd
    ||| code == 0x20
    ||| code == 0x85
    ||| code == 0xa0
    ||| code == 0x1680
    ||| 0x2000 <= code <= 0x200a
    ||| code == 0x2028
    ||| code == 0x2029
    ||| code == 0x202f
    ||| code == 0x205f
    ||| code == 0x3000
}

/// Calls `char::is_whitespace`: whether the character has the Unicode property White_Space.
pub assume_specification[ char::is_whitespace ](c: char) -> (white: bool)
    ensures
        white == is_white(c),
;

/// A text without the white space at its beginning.
pub open spec fn trimmed_start(text: Seq<char>) -> Seq<char>
    decreases text.len(),
{
    if text.len() > 0 && is_white(text[0]) {
        trimmed_start(text.drop_first())
    } else {
        text
    }
}

/// A text without the white space at its end.
pub open spec fn trimmed_end(text: Seq<char>) -> Seq<char>
    decreases text.len(),
{
    if text.len() > 0 && is_white(text.last()) {
        trimmed_end(text.drop_last())
    } else {
        text
    }
}

/// A text without the white space at its two ends.
pub open spec fn trimmed(text: Seq<char>) -> Seq<char> {
    trimmed_end(trimmed_start(text))
}

/// The text without the white space at its two ends.
pub fn trim(text: &str) -> (rest: &str)
    ensures
        rest@ == trimmed(text@),
{
    let list = characters(text);
    let mut from: usize = 0;
    let mut to: usize = list.len();
    assert(text@.subrange(0, text@.len() as int) =~= text@);
    while from < to && list[from].is_whitespace()
        invariant
            from <= to,
            to == list@.len(),
            list@ == text@,
            trimmed_start(text@) == trimmed_start(text@.subrange(from as int, to as int)),
        decreases to - from,
    {
        assert(text@.subrange(from as int, to as int).drop_first() =~= text@.subrange(
            from + 1,
            to as int,
        ));
        from = from + 1;
    }
    assert(trimmed_start(text@) == text@.subrange(from as int, to as int));
    while from < to && list[to - 1].is_whitespace()
        invariant
            from <= to <= list@.len(),
            list@ == text@,
            trimmed(text@) == trimmed_end(text@.subrange(from as int, to as int)),
        decreases to - from,
    {
        assert(text@.subrange(from as int, to as int).drop_last() =~= text@.subrange(
            from as int,
            to - 1,
        ));
        to = to - 1;
    }
    text.substring_char(from, to)
}

/// A text in lower case, as `str::to_lowercase` gives it.
pub uninterp spec fn lowercase(text: Seq<char>) -> Seq<char>;

/// Whether a text holds ASCII characters only.
pub open spec fn all_ascii(text: Seq<char>) -> bool {
    forall|i: int| 0 <= i < text.len() ==> (#[trigger] text[i] as int) < 128
}

/// Calls `str::to_lowercase`. The result is a function of the text alone; of ASCII text it is the
/// text with its letters in lower case. The Unicode mapping of other characters is left unsaid.
#[verifier::external_body]
pub(crate) fn to_lowercase(text: &str) -> (lower: String)
    ensures
        lower@ == lowercase(text@),
        all_ascii(text@) ==> lower@ == Seq::new(text@.len(), |i: int| ascii_lower(text@[i])),
{
    text.to_lowercase()
}

/// Spaces, `count` of them.
pub open spec fn blanks(count: nat) -> Seq<char> {
    Seq::new(count, |i: int| ' ')
}

/// A text moved to the right edge of a field of `width` characters; a longer text as it is.
pub open spec fn right_aligned(text: Seq<char>, width: nat) -> Seq<char> {
    if text.len() < width {
        blanks((width - text.len()) as nat) + text
    } else {
        text
    }
}

/// A text moved to the left edge of a field of `width` characters; a longer text as it is.
pub open spec fn left_aligned(text: Seq<char>, width: nat) -> Seq<char> {
    if text.len() < width {
        text + blanks((width - text.len()) as nat)
    } else {
        text
    }
}

fn spaces(count: usize) -> (text: String)
    ensures
        text@ == blanks(count as nat),
{
    let mut text = String::new();
    let mut done: usize = 0;
    assert(text@ =~= blanks(0));
    while done < count
        invariant
            done <= count,
            text@ == blanks(done as nat),
        decreases count - done,
    {
        text.append(" ");
        done = done + 1;
        proof {
            reveal_strlit(" ");
        }
        assert(text@ =~= blanks(done as nat));
    }
    text
}

/// Pads a text on the left to `width` characters.
pub fn align_right(text: &str, width: usize) -> (padded: String)
    ensures
        padded@ == right_aligned(text@, width as nat),
{
    let length: usize = text.unicode_len();
    if length < width {
        let mut padded = spaces(width - length);
        padded.append(text);
        padded
    } else {
        text.to_owned()
    }
}

/// Pads a text on the right to `width` characters.
pub fn align_left(text: &str, width: usize) -> (padded: String)
    ensures
        padded@ == left_aligned(text@, width as nat),
{
    let length: usize = text.unicode_len();
    if length < width {
        let mut padded = text.to_owned();
        padded.append(spaces(width - length).as_str());
        padded
    } else {
        text.to_owned()
    }
}

/// Texts one after another with `separator` between each two.
pub open spec fn joined(list: Seq<Seq<char>>, separator: Seq<char>) -> Seq<char>
    decreases list.len(),
{
    if list.len() == 0 {
        Seq::empty()
    } else if list.len() == 1 {
        list[0]
    } else {
        joined(list.drop_last(), separator) + separator + list.last()
    }
}

/// Joins texts with `separator` between each two.
pub fn join(list: &Vec<String>, separator: &str) -> (text: String)
    ensures
        text@ == joined(list.deep_view(), separator@),
{
    let mut text = String::new();
    let mut index: usize = 0;
    assert(list.deep_view().take(0) =~= Seq::empty());
    while index < list.len()
        invariant
            index <= list@.len(),
            text@ == joined(list.deep_view().take(index as int), separator@),
        decreases list@.len() - index,
    {
        let ghost whole = list.deep_view().take(index + 1);
        assert(whole.drop_last() =~= list.deep_view().take(index as int));
        assert(whole.last() == list@[index as int]@);
        if index > 0 {
            text.append(separator);
        }
        text.append(list[index].as_str());
        if index == 0 {
            assert(text@ =~= list@[0]@);
        }
        index = index + 1;
    }
    assert(list.deep_view().take(list@.len() as int) =~= list.deep_view());
    text
}

/// The number that a row of decimal digits stands for.
pub open spec fn number_of(text: Seq<char>) -> int
    decreases text.len(),
{
    if text.len() == 0 {
        0
    } else {
        10 * number_of(text.drop_last()) + (text.last() as int - '0' as int)
    }
}

/// A number that is written in decimal reads as that number, in digits only and without a leading
/// zero; a negative one has a minus sign before it.
pub proof fn decimal_reads_as_the_number(number: nat)
    ensures
        number_of(digits(number)) == number,
        digits(number).len() >= 1,
        forall|i: int|
            0 <= i < digits(number).len() ==> '0' <= #[trigger] digits(number)[i]
                && digits(number)[i] <= '9',
        number > 0 ==> digits(number)[0] != '0',
        signed_digits(number as int) == digits(number),
        number > 0 ==> signed_digits(-number) == "-"@ + digits(number),
    decreases number,
{
    if number < 10 {
        let text = digits(number);
        assert(text.drop_last() =~= Seq::<char>::empty());
        assert(number_of(text.drop_last()) == 0);
    } else {
        decimal_reads_as_the_number(number / 10);
        let text = digits(number);
        assert(text.drop_last() =~= digits(number / 10));
        assert(text[0] == digits(number / 10)[0]);
        assert forall|i: int| 0 <= i < text.len() implies '0' <= #[trigger] text[i] && text[i]
            <= '9' by {
            if i < text.len() - 1 {
                assert(text[i] == digits(number / 10)[i]);
            }
        }
    }
}

/// Two characters count as one where they are the same, or the two cases of one ASCII letter.
pub proof fn case_is_all_that_is_ignored(one: char, other: char)
    ensures
        ascii_lower(one) == ascii_lower(other) <==> {
            ||| one == other
            ||| 'A' <= one && one <= 'Z' && other as int == one as int + 32
            ||| 'A' <= other && other <= 'Z' && one as int == other as int + 32
        },
{
}

/// To differ at most in case is to be equal for all that follows from it: a text is so to itself,
/// either way round, and to what it is so to at second hand.
pub proof fn ignoring_case_is_an_equality(one: Seq<char>, two: Seq<char>, three: Seq<char>)
    ensures
        equal_ignoring_ascii_case(one, one),
        equal_ignoring_ascii_case(one, two) == equal_ignoring_ascii_case(two, one),
        equal_ignoring_ascii_case(one, two) && equal_ignoring_ascii_case(two, three)
            ==> equal_ignoring_ascii_case(one, three),
        equal_ignoring_ascii_case(one, two) ==> one.len() == two.len(),
{
    if equal_ignoring_ascii_case(one, two) && equal_ignoring_ascii_case(two, three) {
        assert forall|i: int| 0 <= i < one.len() implies ascii_lower(one[i]) == ascii_lower(
            three[i],
        ) by {
            assert(ascii_lower(one[i]) == ascii_lower(two[i]));
        }
    }
}

proof fn trimmed_start_is_the_rest(text: Seq<char>) -> (from: int)
    ensures
        0 <= from <= text.len(),
        trimmed_start(text) == text.skip(from),
        forall|i: int| 0 <= i < from ==> is_white(#[trigger] text[i]),
        from < text.len() ==> !is_white(text[from]),
    decreases text.len(),
{
    if text.len() > 0 && is_white(text[0]) {
        let rest = text.drop_first();
        let from = trimmed_start_is_the_rest(rest);
        assert(rest.skip(from) =~= text.skip(from + 1));
        assert forall|i: int| 0 <= i < from + 1 implies is_white(#[trigger] text[i]) by {
            if i > 0 {
                assert(rest[i - 1] == text[i]);
            }
        }
        if from < rest.len() {
            assert(rest[from] == text[from + 1]);
        }
        from + 1
    } else {
        assert(text.skip(0) =~= text);
        0
    }
}

proof fn trimmed_end_is_the_rest(text: Seq<char>) -> (to: int)
    ensures
        0 <= to <= text.len(),
        trimmed_end(text) == text.take(to),
        forall|i: int| to <= i < text.len() ==> is_white(#[trigger] text[i]),
        to > 0 ==> !is_white(text[to - 1]),
    decreases text.len(),
{
    if text.len() > 0 && is_white(text.last()) {
        let rest = text.drop_last();
        let to = trimmed_end_is_the_rest(rest);
        assert(rest.take(to) =~= text.take(to));
        assert forall|i: int| to <= i < text.len() implies is_white(#[trigger] text[i]) by {
            if i < text.len() - 1 {
                assert(rest[i] == text[i]);
            }
        }
        if to > 0 {
            assert(rest[to - 1] == text[to - 1]);
        }
        to
    } else {
        assert(text.take(text.len() as int) =~= text);
        text.len() as int
    }
}

/// Trimming takes white space away, from both ends and from nowhere else, and leaves none there.
pub proof fn trimming_takes_the_white_ends_only(text: Seq<char>) -> (ends: (int, int))
    ensures
        0 <= ends.0 <= ends.1 <= text.len(),
        trimmed(text) == text.subrange(ends.0, ends.1),
        forall|i: int| 0 <= i < ends.0 ==> is_white(#[trigger] text[i]),
        forall|i: int| ends.1 <= i < text.len() ==> is_white(#[trigger] text[i]),
        trimmed(text).len() > 0 ==> !is_white(trimmed(text)[0]) && !is_white(trimmed(text).last()),
{
    let from = trimmed_start_is_the_rest(text);
    let middle = trimmed_start(text);
    let to = trimmed_end_is_the_rest(middle);
    assert(middle.take(to) =~= text.subrange(from, from + to));
    assert forall|i: int| from + to <= i < text.len() implies is_white(#[trigger] text[i]) by {
        assert(middle[i - from] == text[i]);
    }
    if to > 0 {
        assert(trimmed(text)[0] == text[from]);
        assert(trimmed(text).last() == middle[to - 1]);
    }
    (from, from + to)
}

/// A text in a field is whole, fills the field, and has nothing but spaces beside it, on the left
/// where it goes to the right edge, and on the right where it goes to the left one.
pub proof fn a_field_holds_the_whole_text(text: Seq<char>, width: nat)
    ensures
        ({
            let right = right_aligned(text, width);
            let left = left_aligned(text, width);
            let all = if text.len() < width {
                width
            } else {
                text.len()
            };
            &&& right.len() == all && left.len() == all
            &&& right.skip(all - text.len()) == text
            &&& left.take(text.len() as int) == text
            &&& forall|i: int| 0 <= i < all - text.len() ==> #[trigger] right[i] == ' '
            &&& forall|i: int| text.len() <= i < all ==> #[trigger] left[i] == ' '
        }),
{
    let right = right_aligned(text, width);
    let left = left_aligned(text, width);
    assert(right.skip(right.len() - text.len()) =~= text);
    assert(left.take(text.len() as int) =~= text);
}

/// Where two texts part, the one whose character has the lower code point stands before the other;
/// and a text stands before every longer one that it begins.
pub proof fn the_first_difference_decides(
    shared: Seq<char>,
    one: char,
    other: char,
    one_rest: Seq<char>,
    other_rest: Seq<char>,
)
    requires
        one < other,
    ensures
        text_before(shared.push(one) + one_rest, shared.push(other) + other_rest),
        !text_before(shared.push(other) + other_rest, shared.push(one) + one_rest),
        text_before(shared, shared.push(one) + one_rest),
    decreases shared.len(),
{
    let left = shared.push(one) + one_rest;
    let right = shared.push(other) + other_rest;
    if shared.len() > 0 {
        let rest = shared.drop_first();
        the_first_difference_decides(rest, one, other, one_rest, other_rest);
        assert(left.drop_first() =~= rest.push(one) + one_rest);
        assert(right.drop_first() =~= rest.push(other) + other_rest);
        assert(left[0] == shared[0] && right[0] == shared[0]);
    } else {
        assert(left[0] == one && right[0] == other);
    }
}

/// A text holds another that stands anywhere in it, and begins with one that stands at its front;
/// and where it does, the other is in it character by character.
pub proof fn a_text_holds_what_stands_in_it(before: Seq<char>, text: Seq<char>, behind: Seq<char>)
    ensures
        holds_text(before + text + behind, text),
        begins_with(text + behind, text),
        begins_with(before, text) ==> before.len() >= text.len() && forall|i: int|
            0 <= i < text.len() ==> before[i] == #[trigger] text[i],
        holds_text(before, text) ==> exists|at: int|
            0 <= at && at + text.len() <= before.len() && #[trigger] before.subrange(
                at,
                at + text.len(),
            ) == text,
{
    let whole = before + text + behind;
    let at = before.len() as int;
    assert(whole.subrange(at, at + text.len()) =~= text);
    assert(stands_at(whole, text, at));
    assert((text + behind).subrange(0, text.len() as int) =~= text);
    if begins_with(before, text) {
        assert forall|i: int| 0 <= i < text.len() implies before[i] == #[trigger] text[i] by {
            assert(before.subrange(0, text.len() as int)[i] == before[i]);
        }
    }
    if holds_text(before, text) {
        let place = choose|place: int| stands_at(before, text, place);
        assert(before.subrange(place, place + text.len()) == text);
    }
}

/// Texts that are joined stand one behind another, each two with the separator between them.
pub proof fn joined_texts_stand_in_order(
    list: Seq<Seq<char>>,
    text: Seq<char>,
    separator: Seq<char>,
)
    ensures
        joined(Seq::empty(), separator).len() == 0,
        joined(seq![text], separator) == text,
        list.len() > 0 ==> joined(list.push(text), separator) == joined(list, separator) + separator
            + text,
{
    if list.len() > 0 {
        assert(list.push(text).drop_last() =~= list);
    }
}

} // verus!
