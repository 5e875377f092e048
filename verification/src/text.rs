use vstd::prelude::*;
use vstd::string::StringSliceAdditionalSpecFns;
use vstd::utf8::decode_utf8;

verus! {

/// The views of a list of strings.
pub open spec fn strings_view(v: Seq<String>) -> Seq<Seq<char>> {
    v.map_values(|s: String| s@)
}

/// The views of a list of string pairs.
pub open spec fn pairs_view(v: Seq<(String, String)>) -> Seq<(Seq<char>, Seq<char>)> {
    v.map_values(|p: (String, String)| (p.0@, p.1@))
}

/// The view of an optional string.
pub open spec fn opt_str_view(value: Option<String>) -> Option<Seq<char>> {
    match value {
        Some(s) => Some(s@),
        None => None,
    }
}

/// The view of an optional static string.
pub open spec fn opt_sstr_view(value: Option<&'static str>) -> Option<Seq<char>> {
    match value {
        Some(s) => Some(s@),
        None => None,
    }
}

/// The view of an optional string slice.
pub open spec fn opt_ref_view(value: Option<&str>) -> Option<Seq<char>> {
    match value {
        Some(s) => Some(s@),
        None => None,
    }
}

/// An optional string slice, copied into an owned string.
pub fn opt_to_string(value: Option<&str>) -> (result: Option<String>)
    ensures
        opt_str_view(result) == opt_ref_view(value),
{
    match value {
        Some(s) => Some(s.to_string()),
        None => None,
    }
}

#[verifier::external_body]
pub(crate) fn chars_of(text: &str) -> (chars: Vec<char>)
    ensures
        chars@ == text@,
{
    text.chars().collect()
}

#[verifier::external_body]
pub(crate) fn string_of(chars: &[char]) -> (text: String)
    ensures
        text@ == chars@,
{
    chars.iter().collect()
}

/// Whether two texts hold the same characters, compared one by one.
pub(crate) fn str_equal(left: &str, right: &str) -> (result: bool)
    ensures
        result == (left@ == right@),
{
    let a = chars_of(left);
    let b = chars_of(right);
    if a.len() != b.len() {
        return false;
    }
    let mut i: usize = 0;
    while i < a.len()
        invariant
            i <= a@.len(),
            a@.len() == b@.len(),
            a@ == left@,
            b@ == right@,
            forall|j: int| 0 <= j < i ==> a@[j] == b@[j],
        decreases a@.len() - i,
    {
        if a[i] != b[i] {
            return false;
        }
        i = i + 1;
    }
    assert(a@ =~= b@);
    true
}

/// Whether the character has the Unicode property White_Space, which is what
/// `char::is_whitespace` and `str::trim` go by: U+0009 to U+000D, U+0020,
/// U+0085, U+00A0, U+1680, U+2000 to U+200A, U+2028, U+2029, U+202F, U+205F
/// and U+3000.
pub open spec fn is_white_space(c: char) -> bool {
    let u = c as u32;
    ||| 0x09 <= u <= 0x0d
    ||| u == 0x20
    ||| u == 0x85
    ||| u == 0xa0
    ||| u == 0x1680
    ||| 0x2000 <= u <= 0x200a
    ||| u == 0x2028
    ||| u == 0x2029
    ||| u == 0x202f
    ||| u == 0x205f
    ||| u == 0x3000
}

/// The text without its leading characters with the White_Space property.
pub open spec fn trim_start_chars(s: Seq<char>) -> Seq<char>
    decreases s.len(),
{
    if s.len() > 0 && is_white_space(s[0]) {
        trim_start_chars(s.drop_first())
    } else {
        s
    }
}

/// The text without its trailing characters with the White_Space property.
pub open spec fn trim_end_chars(s: Seq<char>) -> Seq<char>
    decreases s.len(),
{
    if s.len() > 0 && is_white_space(s.last()) {
        trim_end_chars(s.drop_last())
    } else {
        s
    }
}

/// The text without its leading and trailing White_Space characters.
pub open spec fn trimmed(s: Seq<char>) -> Seq<char> {
    trim_end_chars(trim_start_chars(s))
}

/// Calls `str::trim`. Claimed of it, as its documentation says: the result is
/// the text without its leading and trailing characters that have the Unicode
/// White_Space property.
#[verifier::external_body]
pub(crate) fn trim_text(text: &str) -> (result: &str)
    ensures
        result@ == trimmed(text@),
        result@.len() > 0 ==> !is_white_space(result@[0]) && !is_white_space(result@.last()),
{
    text.trim()
}

/// Whether the character is in the Unicode general category Cc: U+0000 to
/// U+001F and U+007F to U+009F, which is what `char::is_control` tests.
pub open spec fn is_control_char(c: char) -> bool {
    (c as u32) <= 0x1f || (0x7f <= (c as u32) && (c as u32) <= 0x9f)
}

pub fn char_is_control(c: char) -> (result: bool)
    ensures
        result == is_control_char(c),
{
    let code = c as u32;
    code <= 0x1f || (0x7f <= code && code <= 0x9f)
}

/// Whether some character of the text is a control character.
pub open spec fn has_control_char(s: Seq<char>) -> bool {
    exists|i: int| 0 <= i < s.len() && #[trigger] is_control_char(s[i])
}

pub fn contains_control(text: &str) -> (result: bool)
    ensures
        result == has_control_char(text@),
{
    let chars = chars_of(text);
    let mut i: usize = 0;
    while i < chars.len()
        invariant
            i <= chars@.len(),
            chars@ == text@,
            forall|j: int| 0 <= j < i ==> !is_control_char(#[trigger] chars@[j]),
        decreases chars@.len() - i,
    {
        if char_is_control(chars[i]) {
            assert(is_control_char(chars@[i as int]));
            return true;
        }
        i = i + 1;
    }
    false
}

/// A masked form of an identifier for logs: its last four bytes, or a
/// marker for an empty or short identifier.
pub open spec fn masked_id(value: &str) -> Seq<char> {
    let bytes = value.spec_bytes();
    if value.len() == 0 {
        "masked:empty"@
    } else if value.len() <= 4 {
        "masked:short"@
    } else {
        "masked:"@ + decode_utf8(bytes.subrange(value.len() - 4, bytes.len() as int))
    }
}

pub fn mask_id(value: &str) -> (result: String)
    requires
        value.len() > 4 ==> vstd::utf8::is_char_boundary(value.spec_bytes(), value.len() - 4),
    ensures
        result@ == masked_id(value),
{
    let len = value.len();
    if len == 0 {
        "masked:empty".to_string()
    } else if len <= 4 {
        "masked:short".to_string()
    } else {
        let (_, tail) = value.split_at(len - 4);
        proof {
            vstd::utf8::encode_utf8_decode_utf8(tail@);
        }
        "masked:".to_string().concat(tail)
    }
}


/// The ASCII lower-case form of a character: `A` to `Z` become `a` to `z`,
/// every other character stays.
pub open spec fn ascii_lower(c: char) -> char {
    if 'A' <= c && c <= 'Z' {
        ((c as int) + 32) as char
    } else {
        c
    }
}

/// The ASCII lower-case form of a text, as `str::to_ascii_lowercase` gives it.
pub open spec fn ascii_lowercase(s: Seq<char>) -> Seq<char> {
    s.map_values(|c: char| ascii_lower(c))
}

/// The characters of a text in ASCII lower case.
pub fn ascii_lowercase_chars(text: &str) -> (result: Vec<char>)
    ensures
        result@ == ascii_lowercase(text@),
{
    let chars = chars_of(text);
    let mut result: Vec<char> = Vec::new();
    let mut i: usize = 0;
    while i < chars.len()
        invariant
            chars@ == text@,
            i <= chars.len(),
            result@ =~= ascii_lowercase(chars@.subrange(0, i as int)),
        decreases chars.len() - i,
    {
        let c = chars[i];
        let lower = if 'A' <= c && c <= 'Z' {
            ((c as u8) + 32) as char
        } else {
            c
        };
        result.push(lower);
        assert(chars@.subrange(0, i + 1) =~= chars@.subrange(0, i as int).push(c));
        i = i + 1;
    }
    assert(chars@.subrange(0, chars.len() as int) =~= chars@);
    result
}

/// Whether `needle` occurs in `hay` starting at position `i`.
pub open spec fn occurs_at(hay: Seq<char>, needle: Seq<char>, i: int) -> bool {
    0 <= i && i + needle.len() <= hay.len() && hay.subrange(i, i + needle.len()) == needle
}

/// Whether `needle` occurs somewhere in `hay`, as `str::contains` finds it.
pub open spec fn contains_text(hay: Seq<char>, needle: Seq<char>) -> bool {
    exists|i: int| occurs_at(hay, needle, i)
}

/// Whether a text, given by its characters, contains `needle`.
pub fn chars_contain(hay: &Vec<char>, needle: &str) -> (result: bool)
    ensures
        result == contains_text(hay@, needle@),
{
    let pattern = chars_of(needle);
    let n = hay.len();
    let m = pattern.len();
    if m > n {
        assert forall|i: int| !occurs_at(hay@, needle@, i) by {}
        return false;
    }
    if m == 0 {
        assert(hay@.subrange(0, 0) =~= needle@);
        assert(occurs_at(hay@, needle@, 0));
        return true;
    }
    let mut start: usize = 0;
    while start <= n - m
        invariant
            pattern@ == needle@,
            n == hay@.len(),
            m == pattern@.len(),
            1 <= m <= n,
            start <= n - m + 1,
            forall|i: int| 0 <= i < start ==> !occurs_at(hay@, needle@, i),
        decreases n - m + 1 - start,
    {
        let mut k: usize = 0;
        let mut matched = true;
        while k < m && matched
            invariant
                pattern@ == needle@,
                n == hay@.len(),
                m == pattern@.len(),
                start + m <= n,
                k <= m,
                forall|j: int| 0 <= j < k ==> hay@[start + j] == pattern@[j],
                !matched ==> hay@.subrange(start as int, start + m) != needle@,
            decreases m - k + (if matched { 1int } else { 0int }),
        {
            if hay[start + k] != pattern[k] {
                matched = false;
                assert(hay@.subrange(start as int, start + m)[k as int] != needle@[k as int]);
            } else {
                k = k + 1;
            }
        }
        if matched {
            assert(hay@.subrange(start as int, start + m) =~= needle@);
            assert(occurs_at(hay@, needle@, start as int));
            return true;
        }
        start = start + 1;
    }
    assert forall|i: int| !occurs_at(hay@, needle@, i) by {
        if 0 <= i && i + needle@.len() <= hay@.len() {
            assert(i < start);
        }
    }
    false
}


/// Lexicographic order on texts by code point, the order in which `str` and
/// `String` compare (UTF-8 keeps the order of code points).
pub open spec fn text_le(a: Seq<char>, b: Seq<char>) -> bool
    decreases a.len(),
{
    if a.len() == 0 {
        true
    } else if b.len() == 0 {
        false
    } else if a[0] != b[0] {
        (a[0] as u32) < (b[0] as u32)
    } else {
        text_le(a.drop_first(), b.drop_first())
    }
}

/// The order of texts as a relation.
pub open spec fn text_order() -> spec_fn(Seq<char>, Seq<char>) -> bool {
    |a: Seq<char>, b: Seq<char>| text_le(a, b)
}

proof fn lemma_text_le_reflexive(a: Seq<char>)
    ensures
        text_le(a, a),
    decreases a.len(),
{
    if a.len() > 0 {
        lemma_text_le_reflexive(a.drop_first());
    }
}

proof fn lemma_text_le_antisymmetric(a: Seq<char>, b: Seq<char>)
    requires
        text_le(a, b),
        text_le(b, a),
    ensures
        a == b,
    decreases a.len(),
{
    if a.len() > 0 && b.len() > 0 {
        lemma_text_le_antisymmetric(a.drop_first(), b.drop_first());
        assert(a =~= seq![a[0]] + a.drop_first());
        assert(b =~= seq![b[0]] + b.drop_first());
    } else {
        assert(a =~= b);
    }
}

proof fn lemma_text_le_transitive(a: Seq<char>, b: Seq<char>, c: Seq<char>)
    requires
        text_le(a, b),
        text_le(b, c),
    ensures
        text_le(a, c),
    decreases a.len(),
{
    if a.len() > 0 && b.len() > 0 && c.len() > 0 && a[0] == b[0] && b[0] == c[0] {
        lemma_text_le_transitive(a.drop_first(), b.drop_first(), c.drop_first());
    }
}

proof fn lemma_text_le_total(a: Seq<char>, b: Seq<char>)
    ensures
        text_le(a, b) || text_le(b, a),
    decreases a.len(),
{
    if a.len() > 0 && b.len() > 0 {
        vstd::utf8::char_u32_cast(a[0], a[0] as u32);
        vstd::utf8::char_u32_cast(b[0], b[0] as u32);
    }
    if a.len() > 0 && b.len() > 0 && a[0] == b[0] {
        lemma_text_le_total(a.drop_first(), b.drop_first());
    }
}

/// The order of texts is a total order.
pub proof fn lemma_text_order_is_total()
    ensures
        vstd::relations::total_ordering(text_order()),
{
    assert forall|a: Seq<char>| #[trigger] text_order()(a, a) by {
        lemma_text_le_reflexive(a);
    }
    assert forall|a: Seq<char>, b: Seq<char>| #[trigger] text_order()(a, b) && #[trigger] text_order()(b, a) implies a == b by {
        lemma_text_le_antisymmetric(a, b);
    }
    assert forall|a: Seq<char>, b: Seq<char>, c: Seq<char>| #[trigger] text_order()(a, b) && #[trigger] text_order()(b, c) implies text_order()(a, c) by {
        lemma_text_le_transitive(a, b, c);
    }
    assert forall|a: Seq<char>, b: Seq<char>| #[trigger] text_order()(a, b) || #[trigger] text_order()(b, a) by {
        lemma_text_le_total(a, b);
    }
}

/// Whether the first text comes no later than the second.
pub fn texts_in_order(a: &str, b: &str) -> (result: bool)
    ensures
        result == text_le(a@, b@),
{
    let x = chars_of(a);
    let y = chars_of(b);
    let mut i: usize = 0;
    assert(x@.skip(0) =~= x@);
    assert(y@.skip(0) =~= y@);
    while i < x.len() && i < y.len()
        invariant
            x@ == a@,
            y@ == b@,
            i <= x.len(),
            i <= y.len(),
            text_le(a@, b@) == text_le(x@.skip(i as int), y@.skip(i as int)),
        decreases x.len() - i,
    {
        let ghost xs = x@.skip(i as int);
        let ghost ys = y@.skip(i as int);
        assert(xs[0] == x@[i as int] && ys[0] == y@[i as int]);
        if x[i] != y[i] {
            return (x[i] as u32) < (y[i] as u32);
        }
        assert(xs.drop_first() =~= x@.skip(i + 1));
        assert(ys.drop_first() =~= y@.skip(i + 1));
        i = i + 1;
    }
    i == x.len()
}

/// The texts sorted by [`text_le`], as `slice::sort` orders strings.
pub fn sort_texts(texts: Vec<String>) -> (result: Vec<String>)
    ensures
        vstd::relations::sorted_by(strings_view(result@), text_order()),
        strings_view(result@).to_multiset() == strings_view(texts@).to_multiset(),
        strings_view(result@) == strings_view(texts@).sort_by(text_order()),
{
    proof {
        lemma_text_order_is_total();
    }
    let mut sorted: Vec<String> = Vec::new();
    let mut i: usize = 0;
    assert(strings_view(sorted@) =~= strings_view(texts@.subrange(0, 0)));
    while i < texts.len()
        invariant
            i <= texts.len(),
            vstd::relations::total_ordering(text_order()),
            vstd::relations::sorted_by(strings_view(sorted@), text_order()),
            strings_view(sorted@).to_multiset() == strings_view(texts@.subrange(0, i as int)).to_multiset(),
        decreases texts.len() - i,
    {
        let item = texts[i].clone();
        let mut p: usize = 0;
        while p < sorted.len() && texts_in_order(sorted[p].as_str(), item.as_str())
            invariant
                p <= sorted.len(),
                forall|j: int| 0 <= j < p ==> text_le(#[trigger] sorted@[j]@, item@),
            decreases sorted.len() - p,
        {
            p = p + 1;
        }
        let ghost before = strings_view(sorted@);
        proof {
            if p < sorted.len() {
                assert(!text_le(sorted@[p as int]@, item@));
                lemma_text_le_total(sorted@[p as int]@, item@);
                assert forall|j: int| p <= j < before.len() implies text_le(item@, #[trigger] before[j]) by {
                    if j > p {
                        assert(text_order()(before[p as int], before[j]));
                        lemma_text_le_transitive(item@, before[p as int], before[j]);
                    }
                }
            }
        }
        sorted.insert(p, item);
        proof {
            assert(strings_view(sorted@) =~= before.insert(p as int, item@));
            vstd::seq_lib::to_multiset_insert(before, p as int, item@);
            assert(texts@.subrange(0, i + 1) =~= texts@.subrange(0, i as int).push(texts@[i as int]));
            assert(strings_view(texts@.subrange(0, i + 1)) =~= strings_view(texts@.subrange(0, i as int)).push(item@));
            vstd::seq_lib::to_multiset_build(strings_view(texts@.subrange(0, i as int)), item@);
            let after = strings_view(sorted@);
            assert forall|a: int, b: int| 0 <= a < b < after.len() implies #[trigger] text_order()(after[a], after[b]) by {
                if b < p {
                    assert(text_order()(before[a], before[b]));
                } else if b == p {
                } else if a < p {
                    assert(text_le(before[a], item@));
                    assert(text_le(item@, before[b - 1]));
                    lemma_text_le_transitive(before[a], item@, before[b - 1]);
                } else if a == p {
                } else {
                    assert(text_order()(before[a - 1], before[b - 1]));
                }
            }
        }
        i = i + 1;
    }
    assert(texts@.subrange(0, texts.len() as int) =~= texts@);
    proof {
        strings_view(texts@).lemma_sort_by_ensures(text_order());
        vstd::seq_lib::lemma_sorted_unique(strings_view(sorted@), strings_view(texts@).sort_by(text_order()), text_order());
    }
    sorted
}


/// Whether a character is a decimal digit.
pub open spec fn is_decimal_digit(c: char) -> bool {
    '0' <= c && c <= '9'
}

/// The number written by a sequence of decimal digits.
pub open spec fn decimal_value(digits: Seq<char>) -> nat
    decreases digits.len(),
{
    if digits.len() == 0 {
        0
    } else {
        decimal_value(digits.drop_last()) * 10 + ((digits.last() as nat) - ('0' as nat)) as nat
    }
}

/// The digits of an unsigned decimal text: the text without one leading `+`.
pub open spec fn unsigned_digits(text: Seq<char>) -> Seq<char> {
    if text.len() > 0 && text[0] == '+' {
        text.drop_first()
    } else {
        text
    }
}

/// The number an unsigned decimal text stands for, as `str::parse` reads
/// unsigned integers: an optional `+` followed by one or more decimal
/// digits, and nothing else, not even white space.
pub open spec fn decimal_text_value(text: Seq<char>) -> Option<nat> {
    let digits = unsigned_digits(text);
    if digits.len() > 0 && (forall|i: int| 0 <= i < digits.len() ==> is_decimal_digit(#[trigger] digits[i])) {
        Some(decimal_value(digits))
    } else {
        None
    }
}

proof fn lemma_decimal_value_step(digits: Seq<char>, i: int)
    requires
        0 <= i < digits.len(),
    ensures
        decimal_value(digits.subrange(0, i + 1)) == decimal_value(digits.subrange(0, i)) * 10
            + ((digits[i] as nat) - ('0' as nat)) as nat,
{
    assert(digits.subrange(0, i + 1).drop_last() =~= digits.subrange(0, i));
}

/// Reads an unsigned decimal text whose value is at most `max`, as
/// `str::parse` reads an integer type whose largest value is `max`.
pub fn parse_decimal(text: &str, max: u64) -> (result: Option<u64>)
    ensures
        result == (match decimal_text_value(text@) {
            Some(value) => if value <= max {
                Some(value as u64)
            } else {
                None::<u64>
            },
            None => None::<u64>,
        }),
{
    let chars = chars_of(text);
    let n = chars.len();
    let mut start: usize = 0;
    if n > 0 && chars[0] == '+' {
        start = 1;
    }
    let ghost digits = unsigned_digits(text@);
    assert(digits =~= chars@.subrange(start as int, n as int));
    if start == n {
        return None;
    }
    let bound: u128 = (max as u128) + 1;
    let mut value: u128 = 0;
    let mut i: usize = start;
    while i < n
        invariant
            chars@ == text@,
            digits == unsigned_digits(text@),
            n == chars@.len(),
            start <= i <= n,
            start < n,
            digits =~= chars@.subrange(start as int, n as int),
            bound == max + 1,
            forall|j: int| 0 <= j < i - start ==> is_decimal_digit(#[trigger] digits[j]),
            value == (if decimal_value(digits.subrange(0, i - start)) < bound {
                decimal_value(digits.subrange(0, i - start))
            } else {
                bound as nat
            }),
        decreases n - i,
    {
        let c = chars[i];
        if !('0' <= c && c <= '9') {
            assert(!is_decimal_digit(digits[i - start]));
            return None;
        }
        let d: u128 = (c as u128) - ('0' as u128);
        proof {
            lemma_decimal_value_step(digits, i - start);
        }
        let next = value * 10 + d;
        if next < bound {
            value = next;
        } else {
            value = bound;
        }
        i = i + 1;
    }
    assert(digits.subrange(0, n - start) =~= digits);
    if value < bound {
        Some(value as u64)
    } else {
        None
    }
}

} // verus!
