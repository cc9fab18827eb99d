//! Work on texts: matching that ignores case, the names of files in
//! paths, and the decimal numerals in the names of namespaces.

use vstd::prelude::*;

verus! {

/// The lower-case form of a text, as `str::to_lowercase` computes it.
pub uninterp spec fn lowercase(s: Seq<char>) -> Seq<char>;

/// `needle` occurs in `haystack` as a contiguous run of characters.
pub open spec fn is_substring(needle: Seq<char>, haystack: Seq<char>) -> bool {
    exists|i: int|
        0 <= i && i + needle.len() <= haystack.len() && #[trigger] haystack.subrange(
            i,
            i + needle.len(),
        ) == needle
}

/// `needle` occurs in `haystack` once both are lower-cased.
pub open spec fn contains_ignore_case_spec(haystack: Seq<char>, needle: Seq<char>) -> bool {
    is_substring(lowercase(needle), lowercase(haystack))
}

/// Where the last path component of `path` begins: just behind the last
/// `separator`, or at 0 where there is none.
pub open spec fn file_name_start(path: Seq<char>, separator: char) -> int
    decreases path.len(),
{
    if path.len() == 0 {
        0
    } else if path.last() == separator {
        path.len() as int
    } else {
        file_name_start(path.drop_last(), separator)
    }
}

/// The last path component of `path`: what stands behind its last
/// `separator`, or the whole of `path` where there is none.
pub open spec fn file_name_of(path: Seq<char>, separator: char) -> Seq<char> {
    path.subrange(file_name_start(path, separator), path.len() as int)
}

/// Calls `str::to_lowercase`. Trusted: the result is the lower-case form of
/// the argument, which is a function of the argument's characters alone.
#[verifier::external_body]
pub(crate) fn to_lowercase(s: &str) -> (r: String)
    ensures
        r@ == lowercase(s@),
{
    s.to_lowercase()
}

/// Calls `str::contains` with a string pattern. Trusted: the result says
/// whether the pattern matches a sub-slice of the text.
#[verifier::external_body]
pub(crate) fn contains(haystack: &str, needle: &str) -> (r: bool)
    ensures
        r == is_substring(needle@, haystack@),
{
    haystack.contains(needle)
}

/// Calls `String::push`. Trusted: the character is appended.
#[verifier::external_body]
pub(crate) fn push_char(text: &mut String, c: char)
    ensures
        final(text)@ == old(text)@.push(c),
{
    text.push(c)
}

/// The decimal digit for `value`, which is below 10.
pub open spec fn digit_char(value: nat) -> char {
    (('0' as nat) + value) as char
}

/// The decimal numeral of `value`, without leading zeros.
pub open spec fn decimal(value: nat) -> Seq<char>
    decreases value,
{
    if value < 10 {
        seq![digit_char(value)]
    } else {
        decimal(value / 10).push(digit_char(value % 10))
    }
}

/// `c` is one of the ten decimal digits.
pub open spec fn is_digit(c: char) -> bool {
    '0' <= c <= '9'
}

/// The number that a run of decimal digits writes.
pub open spec fn digits_value(digits: Seq<char>) -> nat
    decreases digits.len(),
{
    if digits.len() == 0 {
        0
    } else {
        digits_value(digits.drop_last()) * 10 + ((digits.last() as nat) - ('0' as nat)) as nat
    }
}

/// Every character of `text` is a decimal digit.
pub open spec fn all_digits(text: Seq<char>) -> bool {
    forall|i: int| 0 <= i < text.len() ==> is_digit(#[trigger] text[i])
}

/// `text` without a leading `+`.
pub open spec fn unsigned(text: Seq<char>) -> Seq<char> {
    if text.len() > 0 && text[0] == '+' {
        text.drop_first()
    } else {
        text
    }
}

/// The number that `text` writes in decimal: an optional `+`, then at
/// least one digit and nothing but digits, the whole within `u64`.
pub open spec fn parsed_u64(text: Seq<char>) -> Option<u64> {
    let digits = unsigned(text);
    if digits.len() > 0 && all_digits(digits) && digits_value(digits) <= u64::MAX {
        Some(digits_value(digits) as u64)
    } else {
        None
    }
}

/// `text` ends with `suffix`.
pub open spec fn has_suffix(text: Seq<char>, suffix: Seq<char>) -> bool {
    suffix.len() <= text.len() && text.subrange(text.len() - suffix.len(), text.len() as int)
        == suffix
}

/// What stands in `text` before its last characters, as many as `suffix`
/// has: the rest of a text that ends with `suffix`.
pub open spec fn before_suffix(text: Seq<char>, suffix: Seq<char>) -> Seq<char> {
    text.subrange(0, text.len() - suffix.len())
}

/// `text` without the occurrences of `pattern`: they are found from the
/// left, and none overlaps the one before. An empty pattern occurs
/// nowhere.
pub open spec fn without(text: Seq<char>, pattern: Seq<char>) -> Seq<char>
    decreases text.len(),
{
    if pattern.len() == 0 || text.len() < pattern.len() {
        text
    } else if text.subrange(0, pattern.len() as int) == pattern {
        without(text.subrange(pattern.len() as int, text.len() as int), pattern)
    } else {
        seq![text[0]] + without(text.drop_first(), pattern)
    }
}

/// Writes `value` in decimal.
pub fn decimal_text(value: u64) -> (text: String)
    ensures
        text@ == decimal(value as nat),
    decreases value,
{
    let mut text = if value >= 10 {
        decimal_text(value / 10)
    } else {
        String::new()
    };
    let digit = (value % 10) as u8;
    push_char(&mut text, (48 + digit) as char);
    text
}

/// A longer run of digits writes no smaller number.
proof fn lemma_digits_value_grows(digits: Seq<char>, shorter: int)
    requires
        0 <= shorter <= digits.len(),
        all_digits(digits),
    ensures
        digits_value(digits.take(shorter)) <= digits_value(digits),
    decreases digits.len() - shorter,
{
    if shorter < digits.len() {
        let longer = digits.take(shorter + 1);
        assert(longer.drop_last() == digits.take(shorter));
        assert(digits_value(digits.take(shorter)) * 10 >= digits_value(digits.take(shorter)))
            by (nonlinear_arith);
        lemma_digits_value_grows(digits, shorter + 1);
    } else {
        assert(digits.take(shorter) == digits);
    }
}

/// Reads a number in decimal: an optional `+`, then digits and nothing
/// else. What does not fit into a `u64` is not read.
pub fn parse_u64(text: &str) -> (value: Option<u64>)
    ensures
        value == parsed_u64(text@),
{
    let ghost digits = unsigned(text@);
    let mut number: u64 = 0;
    let mut read: usize = 0;
    let mut place: usize = 0;
    let length = text.unicode_len();
    for c in it: text.chars()
        invariant
            it.seq() == text@,
            length == text@.len(),
            place == it.index(),
            digits == unsigned(text@),
            read <= place <= length,
            read == if text@.len() > 0 && text@[0] == '+' && place > 0 {
                place - 1
            } else {
                place as int
            },
            forall|i: int| 0 <= i < read ==> is_digit(#[trigger] digits[i]),
            number == digits_value(digits.take(read as int)),
    {
        if place == 0 && c == '+' {
            place += 1;
        } else {
            if c < '0' || c > '9' {
                proof {
                    assert(!is_digit(digits[read as int]));
                }
                return None;
            }
            let digit = (c as u32 - 48) as u64;
            proof {
                assert(digits.take(read + 1).drop_last() == digits.take(read as int));
            }
            let grown = match number.checked_mul(10) {
                Some(tenfold) => tenfold.checked_add(digit),
                None => None,
            };
            match grown {
                Some(grown) => {
                    number = grown;
                },
                None => {
                    proof {
                        if all_digits(digits) {
                            lemma_digits_value_grows(digits, read + 1);
                        }
                    }
                    return None;
                },
            }
            read += 1;
            place += 1;
        }
    }
    proof {
        assert(digits.take(read as int) == digits);
    }
    if read == 0 {
        None
    } else {
        Some(number)
    }
}

/// Whether `text` ends with `suffix`.
pub fn ends_with(text: &str, suffix: &str) -> (yes: bool)
    ensures
        yes == has_suffix(text@, suffix@),
{
    let length = text.unicode_len();
    let tail = suffix.unicode_len();
    if tail > length {
        return false;
    }
    let end = String::from_str(text.substring_char(length - tail, length));
    let wanted = String::from_str(suffix);
    end == wanted
}

/// Takes every occurrence of `pattern` out of `text`. With an empty
/// pattern nothing is taken out.
pub fn remove_all(text: &str, pattern: &str) -> (rest: String)
    ensures
        rest@ == without(text@, pattern@),
{
    let length = text.unicode_len();
    let width = pattern.unicode_len();
    if width == 0 {
        return String::from_str(text);
    }
    let wanted = String::from_str(pattern);
    let mut rest = String::new();
    let mut i: usize = 0;
    proof {
        assert(text@.subrange(0, length as int) == text@);
    }
    while i < length
        invariant
            length == text@.len(),
            width == pattern@.len(),
            width > 0,
            wanted@ == pattern@,
            i <= length,
            without(text@, pattern@) == rest@ + without(
                text@.subrange(i as int, length as int),
                pattern@,
            ),
        decreases length - i,
    {
        let ghost tail = text@.subrange(i as int, length as int);
        let matched = if length - i >= width {
            let piece = String::from_str(text.substring_char(i, i + width));
            proof {
                assert(tail.subrange(0, width as int) == text@.subrange(i as int, i + width));
            }
            piece == wanted
        } else {
            false
        };
        if matched {
            proof {
                assert(tail.subrange(width as int, tail.len() as int) == text@.subrange(
                    i + width,
                    length as int,
                ));
            }
            i += width;
        } else {
            rest.append(text.substring_char(i, i + 1));
            proof {
                assert(tail.drop_first() == text@.subrange(i + 1, length as int));
            }
            i += 1;
        }
    }
    rest
}

/// `c` parts the components of a path on one platform or another: the
/// slash, or the backslash.
pub open spec fn is_path_separator(c: char) -> bool {
    c == '/' || c == '\\'
}

/// Reads `std::path::MAIN_SEPARATOR`, the platform's primary separator of
/// path components. Trusted: it is the slash or the backslash, which of
/// the two is the platform's matter.
#[verifier::external_body]
pub(crate) fn main_separator() -> (c: char)
    ensures
        is_path_separator(c),
{
    std::path::MAIN_SEPARATOR
}

/// Whether `needle` occurs in `haystack`, ignoring case.
pub fn contains_ignore_case(haystack: &str, needle: &str) -> (r: bool)
    ensures
        r == contains_ignore_case_spec(haystack@, needle@),
{
    let haystack_lc = to_lowercase(haystack);
    let needle_lc = to_lowercase(needle);
    contains(haystack_lc.as_str(), needle_lc.as_str())
}

/// The last path component of `path`.
pub fn file_name(path: &str, separator: char) -> (name: String)
    ensures
        name@ == file_name_of(path@, separator),
{
    let n: usize = path.unicode_len();
    let mut start: usize = 0;
    let mut i: usize = 0;
    for c in it: path.chars()
        invariant
            n == path@.len(),
            it.seq() == path@,
            i == it.index(),
            start <= i <= n,
            start == file_name_start(path@.take(i as int), separator),
    {
        proof {
            assert(path@.take(i + 1).drop_last() == path@.take(i as int));
        }
        i += 1;
        if c == separator {
            start = i;
        }
    }
    proof {
        assert(path@.take(i as int) == path@);
    }
    String::from_str(path.substring_char(start, n))
}

/// Whether `needle` occurs, ignoring case, in the last path component of
/// `filepath`, the components being parted by `separator`.
pub fn contains_in_filename_ignore_case_with(filepath: &str, needle: &str, separator: char) -> (r:
    bool)
    ensures
        r == contains_ignore_case_spec(file_name_of(filepath@, separator), needle@),
{
    let name = file_name(filepath, separator);
    contains_ignore_case(name.as_str(), needle)
}

/// Whether `needle` occurs, ignoring case, in the last path component of
/// `filepath`, the components being parted by the platform's separator:
/// by the slash, or by the backslash.
pub fn contains_in_filename_ignore_case(filepath: &str, needle: &str) -> (r: bool)
    ensures
        r == contains_ignore_case_spec(file_name_of(filepath@, '/'), needle@) || r
            == contains_ignore_case_spec(file_name_of(filepath@, '\\'), needle@),
{
    let separator = main_separator();
    contains_in_filename_ignore_case_with(filepath, needle, separator)
}

/// The views of a list of texts, in order.
pub open spec fn views_of(texts: Seq<String>) -> Seq<Seq<char>> {
    Seq::new(texts.len(), |i: int| texts[i]@)
}

/// `index` is the first place in `files` whose text holds `title`,
/// ignoring case.
pub open spec fn is_first_match(files: Seq<Seq<char>>, title: Seq<char>, index: int) -> bool {
    &&& 0 <= index < files.len()
    &&& contains_ignore_case_spec(files[index], title)
    &&& forall|earlier: int|
        0 <= earlier < index ==> !contains_ignore_case_spec(#[trigger] files[earlier], title)
}

/// The first place in `files` whose text holds `title`, ignoring case.
pub open spec fn first_match(files: Seq<Seq<char>>, title: Seq<char>) -> Option<int> {
    if exists|index: int| is_first_match(files, title, index) {
        Some(choose|index: int| is_first_match(files, title, index))
    } else {
        None
    }
}

/// Some text of `files` holds `title`, ignoring case.
pub open spec fn any_match(files: Seq<Seq<char>>, title: Seq<char>) -> bool {
    exists|index: int|
        0 <= index < files.len() && contains_ignore_case_spec(#[trigger] files[index], title)
}

/// The places in `files`, in ascending order and each as an `i32`, whose
/// text holds `title`, ignoring case.
pub open spec fn matching_indices(files: Seq<Seq<char>>, title: Seq<char>) -> Seq<i32>
    decreases files.len(),
{
    if files.len() == 0 {
        Seq::empty()
    } else {
        let earlier = matching_indices(files.drop_last(), title);
        if contains_ignore_case_spec(files.last(), title) {
            earlier.push(((files.len() - 1) as usize) as i32)
        } else {
            earlier
        }
    }
}

/// Two first matches of one list are the same place.
pub proof fn lemma_first_match_unique(
    files: Seq<Seq<char>>,
    title: Seq<char>,
    one: int,
    other: int,
)
    requires
        is_first_match(files, title, one),
        is_first_match(files, title, other),
    ensures
        one == other,
{
}

/// Finds the first of `files` that holds `title`, ignoring case.
pub fn find_first_match(files: &Vec<String>, title: &str) -> (found: Option<usize>)
    ensures
        found matches Some(index) ==> is_first_match(views_of(files@), title@, index as int),
        found is None ==> !any_match(views_of(files@), title@),
        match found {
            Some(index) => first_match(views_of(files@), title@) == Some(index as int),
            None => first_match(views_of(files@), title@) is None,
        },
{
    let ghost texts = views_of(files@);
    let mut i: usize = 0;
    while i < files.len()
        invariant
            i <= files.len(),
            texts == views_of(files@),
            forall|earlier: int|
                0 <= earlier < i ==> !contains_ignore_case_spec(#[trigger] texts[earlier], title@),
        decreases files.len() - i,
    {
        if contains_ignore_case(files[i].as_str(), title) {
            proof {
                assert(is_first_match(texts, title@, i as int));
            }
            return Some(i);
        }
        i += 1;
    }
    None
}

/// Collects the places of the `files` that hold `title`, ignoring case.
pub fn select_matching(files: &Vec<String>, title: &str) -> (selected: Vec<i32>)
    ensures
        selected@ == matching_indices(views_of(files@), title@),
{
    let ghost texts = views_of(files@);
    let mut selected: Vec<i32> = Vec::new();
    let mut i: usize = 0;
    while i < files.len()
        invariant
            i <= files.len(),
            texts == views_of(files@),
            selected@ == matching_indices(texts.take(i as int), title@),
        decreases files.len() - i,
    {
        proof {
            assert(texts.take(i + 1).drop_last() == texts.take(i as int));
        }
        if contains_ignore_case(files[i].as_str(), title) {
            selected.push(
                #[verifier::truncate]
                (i as i32),
            );
        }
        i += 1;
    }
    proof {
        assert(texts.take(i as int) == texts);
    }
    selected
}

} // verus!
