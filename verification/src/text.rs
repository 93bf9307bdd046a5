//! Operations on text, stated over sequences of characters.
//!
//! Every contract in the crate speaks of a string through its view, a
//! `Seq<char>`. The executable functions here work on `Vec<char>` and convert
//! at their edges.

use vstd::prelude::*;

verus! {

/// Whether `needle` stands in `hay` at position `at`.
pub open spec fn occurs_at(hay: Seq<char>, needle: Seq<char>, at: int) -> bool {
    0 <= at && at + needle.len() <= hay.len() && hay.subrange(at, at + needle.len()) == needle
}

/// Whether `needle` stands somewhere in `hay`.
pub open spec fn contains(hay: Seq<char>, needle: Seq<char>) -> bool {
    exists|at: int| occurs_at(hay, needle, at)
}

/// Whether `hay` begins with `needle`.
pub open spec fn starts_with(hay: Seq<char>, needle: Seq<char>) -> bool {
    occurs_at(hay, needle, 0)
}

/// Whether `hay` ends with `needle`.
pub open spec fn ends_with(hay: Seq<char>, needle: Seq<char>) -> bool {
    occurs_at(hay, needle, hay.len() - needle.len())
}

/// The first position at or after `from` where `needle` stands in `hay`.
pub open spec fn find_from(hay: Seq<char>, needle: Seq<char>, from: int) -> Option<int>
    decreases hay.len() - from + 1,
{
    if from < 0 || from + needle.len() > hay.len() {
        None
    } else if occurs_at(hay, needle, from) {
        Some(from)
    } else {
        find_from(hay, needle, from + 1)
    }
}

/// The first position where `needle` stands in `hay`.
pub open spec fn find(hay: Seq<char>, needle: Seq<char>) -> Option<int> {
    find_from(hay, needle, 0)
}

/// The last position at or before `upto` where `needle` stands in `hay`.
pub open spec fn rfind_upto(hay: Seq<char>, needle: Seq<char>, upto: int) -> Option<int>
    decreases upto + 1,
{
    if upto < 0 {
        None
    } else if occurs_at(hay, needle, upto) {
        Some(upto)
    } else {
        rfind_upto(hay, needle, upto - 1)
    }
}

/// The last position where `needle` stands in `hay`.
pub open spec fn rfind(hay: Seq<char>, needle: Seq<char>) -> Option<int> {
    rfind_upto(hay, needle, hay.len() - needle.len())
}

/// `find_from` answers with a position exactly when `needle` stands at or
/// after `from`, and then with the first such position.
pub proof fn lemma_find_from(hay: Seq<char>, needle: Seq<char>, from: int)
    requires
        0 <= from,
    ensures
        find_from(hay, needle, from) matches Some(at) ==> from <= at && occurs_at(hay, needle, at)
            && forall|j: int| from <= j < at ==> !occurs_at(hay, needle, j),
        find_from(hay, needle, from) is None ==> forall|j: int|
            from <= j ==> !occurs_at(hay, needle, j),
    decreases hay.len() - from + 1,
{
    if from + needle.len() > hay.len() {
    } else if occurs_at(hay, needle, from) {
    } else {
        lemma_find_from(hay, needle, from + 1);
    }
}

/// `find` answers with a position exactly when `hay` contains `needle`.
pub proof fn lemma_find_contains(hay: Seq<char>, needle: Seq<char>)
    ensures
        find(hay, needle) is Some <==> contains(hay, needle),
{
    lemma_find_from(hay, needle, 0);
    if contains(hay, needle) {
        let at = choose|at: int| occurs_at(hay, needle, at);
        assert(occurs_at(hay, needle, at));
    }
}

/// `rfind_upto` answers with the last position at or before `upto`.
pub proof fn lemma_rfind_upto(hay: Seq<char>, needle: Seq<char>, upto: int)
    ensures
        rfind_upto(hay, needle, upto) matches Some(at) ==> 0 <= at <= upto && occurs_at(
            hay,
            needle,
            at,
        ) && forall|j: int| at < j <= upto ==> !occurs_at(hay, needle, j),
        rfind_upto(hay, needle, upto) is None ==> forall|j: int|
            0 <= j <= upto ==> !occurs_at(hay, needle, j),
    decreases upto + 1,
{
    if upto < 0 {
    } else if occurs_at(hay, needle, upto) {
    } else {
        lemma_rfind_upto(hay, needle, upto - 1);
    }
}

/// The characters of a string slice.
pub fn chars_of(s: &str) -> (v: Vec<char>)
    ensures
        v@ == s@,
{
    let mut v: Vec<char> = Vec::new();
    for c in it: s.chars()
        invariant
            v@ == it.seq().take(it.index()),
            it.seq() == s@,
    {
        v.push(c);
    }
    v
}

/// `String::push`: the string afterwards is the string before with `c` at
/// its end.
#[verifier::external_body]
fn push_char(s: &mut String, c: char)
    ensures
        final(s)@ == old(s)@.push(c),
{
    s.push(c)
}

/// The string made of the characters `v[from..to]`.
pub fn string_of_range(v: &Vec<char>, from: usize, to: usize) -> (s: String)
    requires
        from <= to <= v.len(),
    ensures
        s@ == v@.subrange(from as int, to as int),
{
    let mut s = String::new();
    let mut i: usize = from;
    while i < to
        invariant
            from <= i <= to <= v.len(),
            s@ == v@.subrange(from as int, i as int),
        decreases to - i,
    {
        push_char(&mut s, v[i]);
        i = i + 1;
        assert(v@.subrange(from as int, i as int) == v@.subrange(from as int, i - 1).push(
            v@[i - 1],
        ));
    }
    s
}

/// The string made of the characters of `v`.
pub fn string_of(v: &Vec<char>) -> (s: String)
    ensures
        s@ == v@,
{
    let s = string_of_range(v, 0, v.len());
    assert(v@.subrange(0, v.len() as int) == v@);
    s
}

/// A copy of the characters `v[from..to]`.
pub fn chars_range(v: &Vec<char>, from: usize, to: usize) -> (r: Vec<char>)
    requires
        from <= to <= v.len(),
    ensures
        r@ == v@.subrange(from as int, to as int),
{
    let mut r: Vec<char> = Vec::new();
    let mut i: usize = from;
    while i < to
        invariant
            from <= i <= to <= v.len(),
            r@ == v@.subrange(from as int, i as int),
        decreases to - i,
    {
        r.push(v[i]);
        i = i + 1;
        assert(v@.subrange(from as int, i as int) == v@.subrange(from as int, i - 1).push(
            v@[i - 1],
        ));
    }
    r
}

/// Whether two strings hold the same characters.
pub fn str_eq(a: &str, b: &str) -> (r: bool)
    ensures
        r == (a@ == b@),
{
    let x = a.to_owned();
    let y = b.to_owned();
    x == y
}

/// Whether `needle` stands in `hay` at position `at`.
pub fn occurs_at_exec(hay: &Vec<char>, needle: &Vec<char>, at: usize) -> (r: bool)
    ensures
        r == occurs_at(hay@, needle@, at as int),
{
    if needle.len() > hay.len() || at > hay.len() - needle.len() {
        return false;
    }
    let mut i: usize = 0;
    while i < needle.len()
        invariant
            i <= needle.len(),
            at + needle.len() <= hay.len(),
            forall|j: int| 0 <= j < i ==> hay@[at + j] == needle@[j],
        decreases needle.len() - i,
    {
        if hay[at + i] != needle[i] {
            assert(hay@.subrange(at as int, at + needle.len())[i as int] != needle@[i as int]);
            return false;
        }
        i = i + 1;
    }
    assert(hay@.subrange(at as int, at + needle.len()) =~= needle@);
    true
}

/// The first position where `needle` stands in `hay`.
pub fn find_chars(hay: &Vec<char>, needle: &Vec<char>) -> (r: Option<usize>)
    ensures
        r matches Some(at) ==> find(hay@, needle@) == Some(at as int),
        r is None ==> find(hay@, needle@) is None,
{
    find_chars_from(hay, needle, 0)
}

/// The first position at or after `from` where `needle` stands in `hay`.
pub fn find_chars_from(hay: &Vec<char>, needle: &Vec<char>, from: usize) -> (r: Option<usize>)
    ensures
        r matches Some(at) ==> find_from(hay@, needle@, from as int) == Some(at as int),
        r is None ==> find_from(hay@, needle@, from as int) is None,
{
    if needle.len() > hay.len() {
        return None;
    }
    let last: usize = hay.len() - needle.len();
    let mut i: usize = from;
    while i <= last
        invariant
            from <= i,
            last == hay.len() - needle.len(),
            find_from(hay@, needle@, from as int) == find_from(hay@, needle@, i as int),
        decreases last - i,
    {
        if occurs_at_exec(hay, needle, i) {
            return Some(i);
        }
        if i == last {
            assert(find_from(hay@, needle@, i + 1) is None);
            return None;
        }
        i = i + 1;
    }
    None
}

/// The last position where `needle` stands in `hay`.
pub fn rfind_chars(hay: &Vec<char>, needle: &Vec<char>) -> (r: Option<usize>)
    ensures
        r matches Some(at) ==> rfind(hay@, needle@) == Some(at as int),
        r is None ==> rfind(hay@, needle@) is None,
{
    if needle.len() > hay.len() {
        return None;
    }
    let mut i: usize = hay.len() - needle.len();
    loop
        invariant
            i <= hay.len() - needle.len(),
            needle.len() <= hay.len(),
            rfind(hay@, needle@) == rfind_upto(hay@, needle@, i as int),
        decreases i,
    {
        if occurs_at_exec(hay, needle, i) {
            return Some(i);
        }
        if i == 0 {
            assert(rfind_upto(hay@, needle@, -1) is None);
            return None;
        }
        i = i - 1;
    }
}

/// Whether `needle` stands somewhere in `hay`.
pub fn contains_chars(hay: &Vec<char>, needle: &Vec<char>) -> (r: bool)
    ensures
        r == contains(hay@, needle@),
{
    proof {
        lemma_find_contains(hay@, needle@);
    }
    find_chars(hay, needle).is_some()
}

/// Whether the text `needle` stands somewhere in `hay`.
pub fn contains_str(hay: &Vec<char>, needle: &str) -> (r: bool)
    ensures
        r == contains(hay@, needle@),
{
    let n = chars_of(needle);
    contains_chars(hay, &n)
}

/// Whether `hay` ends with the text `needle`.
pub fn ends_with_str(hay: &Vec<char>, needle: &str) -> (r: bool)
    ensures
        r == ends_with(hay@, needle@),
{
    let n = chars_of(needle);
    if n.len() > hay.len() {
        return false;
    }
    occurs_at_exec(hay, &n, hay.len() - n.len())
}

/// Whether `hay` begins with the text `needle`.
pub fn starts_with_str(hay: &Vec<char>, needle: &str) -> (r: bool)
    ensures
        r == starts_with(hay@, needle@),
{
    let n = chars_of(needle);
    occurs_at_exec(hay, &n, 0)
}


/// The lowercase form of a text, as `str::to_lowercase` gives it.
pub uninterp spec fn lowercase(text: Seq<char>) -> Seq<char>;

/// `str::to_lowercase`: the result is the lowercase form of `s`, which
/// Unicode defines; the contract gives it a name and says no more.
#[verifier::external_body]
pub(crate) fn to_lowercase(s: &str) -> (r: String)
    ensures
        r@ == lowercase(s@),
{
    s.to_lowercase()
}

/// Whether a character has the Unicode property `White_Space`: the
/// controls from tab to carriage return, the space, the next-line control,
/// the no-break space, the Ogham space mark, the spaces from en quad to hair
/// space, the line and paragraph separators, the narrow no-break space, the
/// medium mathematical space and the ideographic space.
pub open spec fn is_whitespace(c: char) -> bool {
    ('\u{9}' <= c && c <= '\u{d}') || c == ' ' || c == '\u{85}' || c == '\u{a0}' || c
        == '\u{1680}' || ('\u{2000}' <= c && c <= '\u{200a}') || c == '\u{2028}' || c
        == '\u{2029}' || c == '\u{202f}' || c == '\u{205f}' || c == '\u{3000}'
}

/// Whether a character has the Unicode property `White_Space`.
pub fn char_is_whitespace(c: char) -> (r: bool)
    ensures
        r == is_whitespace(c),
{
    ('\u{9}' <= c && c <= '\u{d}') || c == ' ' || c == '\u{85}' || c == '\u{a0}' || c
        == '\u{1680}' || ('\u{2000}' <= c && c <= '\u{200a}') || c == '\u{2028}' || c
        == '\u{2029}' || c == '\u{202f}' || c == '\u{205f}' || c == '\u{3000}'
}

/// A set of characters that the rules of this library speak of.
#[derive(Clone, Copy, Debug)]
pub enum CharClass {
    /// Characters with the Unicode property `White_Space`.
    Whitespace,
    /// One given character.
    Only(char),
    /// The characters that separate the parts of a model id.
    IdSeparator,
    /// The digits `0` to `9`.
    Digit,
    /// The digits and the letters `a` to `f` in either case.
    HexDigit,
}

/// Whether `c` belongs to `class`.
pub open spec fn in_class(class: CharClass, c: char) -> bool {
    match class {
        CharClass::Whitespace => is_whitespace(c),
        CharClass::Only(x) => c == x,
        CharClass::IdSeparator => c == '-' || c == '_' || c == ':' || c == '.' || c == '/' || c
            == ' ',
        CharClass::Digit => '0' <= c && c <= '9',
        CharClass::HexDigit => ('0' <= c && c <= '9') || ('a' <= c && c <= 'f') || ('A' <= c && c
            <= 'F'),
    }
}

/// Whether `c` belongs to `class`.
pub fn in_class_exec(class: CharClass, c: char) -> (r: bool)
    ensures
        r == in_class(class, c),
{
    match class {
        CharClass::Whitespace => char_is_whitespace(c),
        CharClass::Only(x) => c == x,
        CharClass::IdSeparator => c == '-' || c == '_' || c == ':' || c == '.' || c == '/' || c
            == ' ',
        CharClass::Digit => '0' <= c && c <= '9',
        CharClass::HexDigit => ('0' <= c && c <= '9') || ('a' <= c && c <= 'f') || ('A' <= c && c
            <= 'F'),
    }
}

/// Whether every character of `s` belongs to `class`.
pub open spec fn all_in_class(s: Seq<char>, class: CharClass) -> bool {
    forall|i: int| 0 <= i < s.len() ==> in_class(class, #[trigger] s[i])
}

/// The first position at or after `from` whose character is outside
/// `class`, or the length of `s`.
pub open spec fn skip_class(s: Seq<char>, class: CharClass, from: int) -> int
    decreases s.len() - from,
{
    if 0 <= from < s.len() && in_class(class, s[from]) {
        skip_class(s, class, from + 1)
    } else {
        from
    }
}

/// The least end at or before `upto` such that every character between it
/// and `upto` belongs to `class`.
pub open spec fn rskip_class(s: Seq<char>, class: CharClass, upto: int) -> int
    decreases upto,
{
    if 0 < upto <= s.len() && in_class(class, s[upto - 1]) {
        rskip_class(s, class, upto - 1)
    } else {
        upto
    }
}

/// `s` without its longest prefix in `class`.
pub open spec fn trim_start_class(s: Seq<char>, class: CharClass) -> Seq<char> {
    s.subrange(skip_class(s, class, 0), s.len() as int)
}

/// `s` without its longest suffix in `class`.
pub open spec fn trim_end_class(s: Seq<char>, class: CharClass) -> Seq<char> {
    s.subrange(0, rskip_class(s, class, s.len() as int))
}

/// `s` without its longest prefix and its longest suffix in `class`.
pub open spec fn trim_class(s: Seq<char>, class: CharClass) -> Seq<char> {
    let start = skip_class(s, class, 0);
    let end = rskip_class(s, class, s.len() as int);
    if start >= end {
        Seq::empty()
    } else {
        s.subrange(start, end)
    }
}

/// `s` without leading and trailing whitespace.
pub open spec fn trim(s: Seq<char>) -> Seq<char> {
    trim_class(s, CharClass::Whitespace)
}

/// `skip_class` stays within the text.
pub proof fn lemma_skip_class_bounds(s: Seq<char>, class: CharClass, from: int)
    requires
        0 <= from <= s.len(),
    ensures
        from <= skip_class(s, class, from) <= s.len(),
    decreases s.len() - from,
{
    if from < s.len() && in_class(class, s[from]) {
        lemma_skip_class_bounds(s, class, from + 1);
    }
}

/// `rskip_class` stays within the text.
pub proof fn lemma_rskip_class_bounds(s: Seq<char>, class: CharClass, upto: int)
    requires
        0 <= upto <= s.len(),
    ensures
        0 <= rskip_class(s, class, upto) <= upto,
    decreases upto,
{
    if 0 < upto && in_class(class, s[upto - 1]) {
        lemma_rskip_class_bounds(s, class, upto - 1);
    }
}

/// The first position at or after `from` whose character is outside `class`.
pub fn skip_class_exec(v: &Vec<char>, class: CharClass, from: usize) -> (r: usize)
    requires
        from <= v.len(),
    ensures
        r == skip_class(v@, class, from as int),
        from <= r <= v.len(),
{
    let mut i: usize = from;
    while i < v.len() && in_class_exec(class, v[i])
        invariant
            from <= i <= v.len(),
            skip_class(v@, class, from as int) == skip_class(v@, class, i as int),
        decreases v.len() - i,
    {
        i = i + 1;
    }
    i
}

/// The least end at or before `upto` with only `class` between it and
/// `upto`.
pub fn rskip_class_exec(v: &Vec<char>, class: CharClass, upto: usize) -> (r: usize)
    requires
        upto <= v.len(),
    ensures
        r == rskip_class(v@, class, upto as int),
        r <= upto,
{
    let mut i: usize = upto;
    while i > 0 && in_class_exec(class, v[i - 1])
        invariant
            i <= upto <= v.len(),
            rskip_class(v@, class, upto as int) == rskip_class(v@, class, i as int),
        decreases i,
    {
        i = i - 1;
    }
    i
}

/// `v` without its longest prefix and its longest suffix in `class`.
pub fn trim_class_exec(v: &Vec<char>, class: CharClass) -> (r: Vec<char>)
    ensures
        r@ == trim_class(v@, class),
{
    let start = skip_class_exec(v, class, 0);
    let end = rskip_class_exec(v, class, v.len());
    if start >= end {
        Vec::new()
    } else {
        chars_range(v, start, end)
    }
}

/// `s` without leading and trailing whitespace.
pub fn trim_str(s: &str) -> (r: Vec<char>)
    ensures
        r@ == trim(s@),
{
    let v = chars_of(s);
    trim_class_exec(&v, CharClass::Whitespace)
}

/// How many characters of `s` belong to `class`.
pub open spec fn count_class(s: Seq<char>, class: CharClass) -> nat
    decreases s.len(),
{
    if s.len() == 0 {
        0
    } else {
        count_class(s.drop_last(), class) + if in_class(class, s.last()) {
            1nat
        } else {
            0nat
        }
    }
}

/// How many characters of `v` belong to `class`.
pub fn count_class_exec(v: &Vec<char>, class: CharClass) -> (r: usize)
    ensures
        r == count_class(v@, class),
{
    let mut count: usize = 0;
    let mut i: usize = 0;
    while i < v.len()
        invariant
            i <= v.len(),
            count <= i,
            count == count_class(v@.take(i as int), class),
        decreases v.len() - i,
    {
        if in_class_exec(class, v[i]) {
            count = count + 1;
        }
        i = i + 1;
        assert(v@.take(i as int).drop_last() == v@.take(i - 1));
    }
    assert(v@.take(v.len() as int) == v@);
    count
}

/// Whether every character of `v[from..to]` belongs to `class`.
pub fn all_in_class_exec(v: &Vec<char>, class: CharClass, from: usize, to: usize) -> (r: bool)
    requires
        from <= to <= v.len(),
    ensures
        r == all_in_class(v@.subrange(from as int, to as int), class),
{
    let mut i: usize = from;
    while i < to
        invariant
            from <= i <= to <= v.len(),
            forall|j: int| from <= j < i ==> in_class(class, #[trigger] v@[j]),
        decreases to - i,
    {
        if !in_class_exec(class, v[i]) {
            assert(v@.subrange(from as int, to as int)[i - from] == v@[i as int]);
            return false;
        }
        i = i + 1;
    }
    assert forall|j: int| 0 <= j < to - from implies in_class(
        class,
        #[trigger] v@.subrange(from as int, to as int)[j],
    ) by {
        assert(v@.subrange(from as int, to as int)[j] == v@[from + j]);
    }
    true
}

/// The lowercase form of an ASCII capital; any other character itself.
pub open spec fn ascii_lower_char(c: char) -> char {
    if 'A' <= c && c <= 'Z' {
        ((c as u32) + 32) as char
    } else {
        c
    }
}

/// `s` with its ASCII capitals in lowercase.
pub open spec fn ascii_lower(s: Seq<char>) -> Seq<char> {
    Seq::new(s.len(), |i: int| ascii_lower_char(s[i]))
}

/// Whether `a` and `b` are equal but for the case of ASCII letters.
pub open spec fn eq_ignore_ascii_case(a: Seq<char>, b: Seq<char>) -> bool {
    ascii_lower(a) == ascii_lower(b)
}

/// The lowercase form of an ASCII capital; any other character itself.
pub fn ascii_lower_char_exec(c: char) -> (r: char)
    ensures
        r == ascii_lower_char(c),
{
    if 'A' <= c && c <= 'Z' {
        let code: u32 = c as u32;
        let lowered: u8 = (code + 32) as u8;
        lowered as char
    } else {
        c
    }
}

/// `s` with its ASCII capitals in lowercase.
pub fn ascii_lower_exec(s: &str) -> (r: Vec<char>)
    ensures
        r@ == ascii_lower(s@),
{
    let v = chars_of(s);
    let mut out: Vec<char> = Vec::new();
    let mut i: usize = 0;
    while i < v.len()
        invariant
            i <= v.len(),
            v@ == s@,
            out@.len() == i,
            forall|j: int| 0 <= j < i ==> out@[j] == ascii_lower_char(v@[j]),
        decreases v.len() - i,
    {
        out.push(ascii_lower_char_exec(v[i]));
        i = i + 1;
    }
    assert(out@ =~= ascii_lower(s@));
    out
}

/// Whether `a` and `b` are equal but for the case of ASCII letters.
pub fn eq_ignore_ascii_case_exec(a: &str, b: &str) -> (r: bool)
    ensures
        r == eq_ignore_ascii_case(a@, b@),
{
    let x = ascii_lower_exec(a);
    let y = ascii_lower_exec(b);
    chars_eq(&x, &y)
}

/// Whether two lists hold the same characters.
pub fn chars_eq(a: &Vec<char>, b: &Vec<char>) -> (r: bool)
    ensures
        r == (a@ == b@),
{
    if a.len() != b.len() {
        return false;
    }
    let mut i: usize = 0;
    while i < a.len()
        invariant
            i <= a.len(),
            a.len() == b.len(),
            forall|j: int| 0 <= j < i ==> a@[j] == b@[j],
        decreases a.len() - i,
    {
        if a[i] != b[i] {
            return false;
        }
        i = i + 1;
    }
    assert(a@ =~= b@);
    true
}

/// Whether the characters of `a` are those of the text `b`.
pub fn chars_eq_str(a: &Vec<char>, b: &str) -> (r: bool)
    ensures
        r == (a@ == b@),
{
    let y = chars_of(b);
    chars_eq(a, &y)
}

/// The number of bytes of a text in UTF-8.
pub open spec fn byte_len(s: Seq<char>) -> nat {
    vstd::utf8::encode_utf8(s).len()
}

/// The number of bytes of `v` in UTF-8.
pub fn byte_len_exec(v: &Vec<char>) -> (r: usize)
    ensures
        r == byte_len(v@),
{
    let s = string_of(v);
    str_byte_len(s.as_str())
}

/// The number of bytes of `s` in UTF-8.
pub fn str_byte_len(s: &str) -> (r: usize)
    ensures
        r == byte_len(s@),
{
    s.as_bytes().len()
}

/// The pieces of `s` between the characters of `class`: one more piece than
/// `s` has such characters.
pub open spec fn split_class(s: Seq<char>, class: CharClass) -> Seq<Seq<char>>
    decreases s.len(),
{
    if s.len() == 0 {
        seq![Seq::empty()]
    } else {
        let before = split_class(s.drop_last(), class);
        if in_class(class, s.last()) {
            before.push(Seq::empty())
        } else {
            before.drop_last().push(before.last().push(s.last()))
        }
    }
}

/// `split_class` gives at least one piece.
pub proof fn lemma_split_class_nonempty(s: Seq<char>, class: CharClass)
    ensures
        split_class(s, class).len() >= 1,
    decreases s.len(),
{
    if s.len() > 0 {
        lemma_split_class_nonempty(s.drop_last(), class);
    }
}

/// The views of a list of pieces.
pub open spec fn pieces_view(pieces: Seq<Vec<char>>) -> Seq<Seq<char>> {
    Seq::new(pieces.len(), |i: int| pieces[i]@)
}

/// The pieces of `v` between the characters of `class`.
pub fn split_class_exec(v: &Vec<char>, class: CharClass) -> (r: Vec<Vec<char>>)
    ensures
        pieces_view(r@) == split_class(v@, class),
{
    let mut done: Vec<Vec<char>> = Vec::new();
    let mut current: Vec<char> = Vec::new();
    let mut i: usize = 0;
    assert(v@.take(0) =~= Seq::<char>::empty());
    assert(pieces_view(done@).push(current@) =~= seq![Seq::<char>::empty()]);
    while i < v.len()
        invariant
            i <= v.len(),
            pieces_view(done@).push(current@) == split_class(v@.take(i as int), class),
        decreases v.len() - i,
    {
        let c = v[i];
        proof {
            assert(v@.take(i + 1).drop_last() == v@.take(i as int));
            assert(v@.take(i + 1).last() == c);
            let before = split_class(v@.take(i as int), class);
            assert(before.last() == current@);
            assert(before.drop_last() =~= pieces_view(done@));
        }
        if in_class_exec(class, c) {
            let ghost old_done = done@;
            let ghost old_current = current@;
            done.push(current);
            current = Vec::new();
            proof {
                assert(pieces_view(done@) =~= pieces_view(old_done).push(old_current));
            }
        } else {
            current.push(c);
        }
        i = i + 1;
    }
    assert(v@.take(v.len() as int) == v@);
    let ghost old_done = done@;
    let ghost last = current@;
    done.push(current);
    assert(pieces_view(done@) =~= pieces_view(old_done).push(last));
    done
}

/// `s` with every occurrence of `from` replaced by `to`, found from the left
/// and not overlapping, starting at position `at`.
pub open spec fn replace_from(s: Seq<char>, from: Seq<char>, to: Seq<char>, at: int) -> Seq<char>
    decreases s.len() - at,
{
    if at < 0 || at >= s.len() || from.len() == 0 {
        Seq::empty()
    } else if occurs_at(s, from, at) {
        to + replace_from(s, from, to, at + from.len())
    } else {
        seq![s[at]] + replace_from(s, from, to, at + 1)
    }
}

/// `s` with every occurrence of the non-empty text `from` replaced by `to`.
pub open spec fn replace(s: Seq<char>, from: Seq<char>, to: Seq<char>) -> Seq<char> {
    replace_from(s, from, to, 0)
}

/// `v` with every occurrence of the non-empty text `from` replaced by `to`.
pub fn replace_exec(v: &Vec<char>, from: &str, to: &str) -> (r: Vec<char>)
    requires
        from@.len() > 0,
    ensures
        r@ == replace(v@, from@, to@),
{
    let f = chars_of(from);
    let t = chars_of(to);
    let mut out: Vec<char> = Vec::new();
    let mut i: usize = 0;
    while i < v.len()
        invariant
            i <= v.len(),
            f@ == from@,
            t@ == to@,
            f@.len() > 0,
            out@ + replace_from(v@, f@, t@, i as int) == replace(v@, f@, t@),
        decreases v.len() - i,
    {
        if occurs_at_exec(v, &f, i) {
            let ghost before = out@;
            let mut k: usize = 0;
            while k < t.len()
                invariant
                    k <= t.len(),
                    out@ == before + t@.take(k as int),
                decreases t.len() - k,
            {
                out.push(t[k]);
                k = k + 1;
                assert(t@.take(k as int) == t@.take(k - 1).push(t@[k - 1]));
                assert(out@ =~= before + t@.take(k as int));
            }
            assert(t@.take(t.len() as int) == t@);
            assert((before + t@) + replace_from(v@, f@, t@, i + f@.len()) =~= before + (t@
                + replace_from(v@, f@, t@, i + f@.len())));
            i = i + f.len();
        } else {
            let ghost before = out@;
            out.push(v[i]);
            assert((before + seq![v@[i as int]]) + replace_from(v@, f@, t@, i + 1) =~= before + (
            seq![v@[i as int]] + replace_from(v@, f@, t@, i + 1)));
            assert(out@ =~= before + seq![v@[i as int]]);
            i = i + 1;
        }
    }
    assert(out@ + Seq::<char>::empty() =~= out@);
    out
}

/// Appends the characters of `more` to `v`.
pub fn push_str(v: &mut Vec<char>, more: &str)
    ensures
        final(v)@ == old(v)@ + more@,
{
    let m = chars_of(more);
    push_chars(v, &m);
}

/// Appends the characters of `more` to `v`.
pub fn push_chars(v: &mut Vec<char>, more: &Vec<char>)
    ensures
        final(v)@ == old(v)@ + more@,
{
    let ghost before = v@;
    let mut k: usize = 0;
    assert(v@ =~= before + more@.take(0));
    while k < more.len()
        invariant
            k <= more.len(),
            v@ == before + more@.take(k as int),
        decreases more.len() - k,
    {
        v.push(more[k]);
        k = k + 1;
        assert(v@ =~= before + more@.take(k as int));
    }
    assert(more@.take(more.len() as int) == more@);
}

/// The text `a` followed by the text `b`.
pub fn concat(a: &str, b: &str) -> (r: String)
    ensures
        r@ == a@ + b@,
{
    let mut v = chars_of(a);
    push_str(&mut v, b);
    string_of(&v)
}

/// The texts `a`, `b` and `c`, one after the other.
pub fn concat3(a: &str, b: &str, c: &str) -> (r: String)
    ensures
        r@ == a@ + b@ + c@,
{
    let mut v = chars_of(a);
    push_str(&mut v, b);
    push_str(&mut v, c);
    string_of(&v)
}


/// The decimal digits of `n`, most significant first, with `acc` after them;
/// no digit for zero.
pub open spec fn decimal_digits(n: nat, acc: Seq<char>) -> Seq<char>
    decreases n,
{
    if n == 0 {
        acc
    } else {
        decimal_digits(n / 10, seq![(('0' as u8) + (n % 10) as u8) as char] + acc)
    }
}

/// The decimal text of `n`.
pub open spec fn decimal(n: nat) -> Seq<char> {
    if n == 0 {
        seq!['0']
    } else {
        decimal_digits(n, Seq::empty())
    }
}

/// The decimal text of `n`.
pub fn decimal_exec(n: u64) -> (r: Vec<char>)
    ensures
        r@ == decimal(n as nat),
{
    if n == 0 {
        let mut zero: Vec<char> = Vec::new();
        zero.push('0');
        assert(zero@ =~= seq!['0']);
        return zero;
    }
    let mut reversed: Vec<char> = Vec::new();
    let mut rest: u64 = n;
    let ghost mut acc: Seq<char> = Seq::empty();
    while rest > 0
        invariant
            decimal_digits(rest as nat, acc) == decimal_digits(n as nat, Seq::empty()),
            acc == reversed@.reverse(),
        decreases rest,
    {
        let digit: u8 = (rest % 10) as u8;
        let c: char = (48u8 + digit) as char;
        proof {
            assert(('0' as u8) == 48u8);
            assert(reversed@.push(c).reverse() =~= seq![c] + reversed@.reverse());
            acc = seq![c] + acc;
        }
        reversed.push(c);
        rest = rest / 10;
    }
    let mut out: Vec<char> = Vec::new();
    let mut i: usize = reversed.len();
    while i > 0
        invariant
            i <= reversed.len(),
            out@ == reversed@.reverse().take(reversed.len() - i),
        decreases i,
    {
        i = i - 1;
        out.push(reversed[i]);
        assert(out@ =~= reversed@.reverse().take(reversed.len() - i));
    }
    assert(reversed@.reverse().take(reversed.len() as int) =~= reversed@.reverse());
    out
}

/// The decimal text of `n`.
pub fn decimal_string(n: u64) -> (r: String)
    ensures
        r@ == decimal(n as nat),
{
    let v = decimal_exec(n);
    string_of(&v)
}


/// The number that a text of decimal digits says.
pub open spec fn digits_value(s: Seq<char>) -> nat
    decreases s.len(),
{
    if s.len() == 0 {
        0
    } else {
        digits_value(s.drop_last()) * 10 + ((s.last() as u32) - ('0' as u32)) as nat
    }
}

/// The signed 64-bit number that a text says: an optional `+` or `-`, then
/// one or more decimal digits and nothing else, with a value in range.
pub open spec fn parse_i64(s: Seq<char>) -> Option<i64> {
    let negative = s.len() > 0 && s[0] == '-';
    let digits = if s.len() > 0 && (s[0] == '-' || s[0] == '+') {
        s.drop_first()
    } else {
        s
    };
    if digits.len() == 0 || !all_in_class(digits, CharClass::Digit) {
        None
    } else {
        let value = if negative {
            -(digits_value(digits) as int)
        } else {
            digits_value(digits) as int
        };
        if i64::MIN <= value <= i64::MAX {
            Some(value as i64)
        } else {
            None
        }
    }
}

/// A longer text of digits says no less than a shorter one that it begins
/// with.
pub proof fn lemma_digits_value_grows(s: Seq<char>, k: int)
    requires
        0 <= k <= s.len(),
        all_in_class(s, CharClass::Digit),
    ensures
        digits_value(s.take(k)) <= digits_value(s),
    decreases s.len() - k,
{
    if k < s.len() {
        lemma_digits_value_grows(s, k + 1);
        assert(s.take(k + 1).drop_last() == s.take(k));
        assert(s.take(k + 1).last() == s[k]);
        assert(in_class(CharClass::Digit, s[k]));
    } else {
        assert(s.take(k) == s);
    }
}

/// The signed 64-bit number that a text says.
pub fn parse_i64_exec(v: &Vec<char>) -> (r: Option<i64>)
    ensures
        r == parse_i64(v@),
{
    let negative = v.len() > 0 && v[0] == '-';
    let start: usize = if v.len() > 0 && (v[0] == '-' || v[0] == '+') {
        1
    } else {
        0
    };
    let ghost digits = if start == 1 {
        v@.drop_first()
    } else {
        v@
    };
    assert(digits == v@.subrange(start as int, v@.len() as int));
    if start == v.len() {
        return None;
    }
    if !all_in_class_exec(v, CharClass::Digit, start, v.len()) {
        return None;
    }
    let mut acc: u64 = 0;
    let mut i: usize = start;
    assert(digits.take(0) =~= Seq::empty());
    while i < v.len()
        invariant
            start <= i <= v.len(),
            digits == v@.subrange(start as int, v@.len() as int),
            digits == if v@.len() > 0 && (v@[0] == '-' || v@[0] == '+') {
                v@.drop_first()
            } else {
                v@
            },
            digits.len() > 0,
            all_in_class(digits, CharClass::Digit),
            acc == digits_value(digits.take(i - start)),
            acc <= 0x8000_0000_0000_0000,
        decreases v.len() - i,
    {
        let c = v[i];
        proof {
            assert(digits.take(i - start + 1).drop_last() == digits.take(i - start));
            assert(digits.take(i - start + 1).last() == c);
            assert(digits[i - start] == c);
            assert(in_class(CharClass::Digit, digits[i - start]));
            lemma_digits_value_grows(digits, i - start + 1);
        }
        let d: u64 = ((c as u32) - ('0' as u32)) as u64;
        assert(digits_value(digits.take(i - start + 1)) == acc * 10 + d);
        if acc > (0x8000_0000_0000_0000u64 - d) / 10 {
            assert(acc * 10 + d > 0x8000_0000_0000_0000);
            assert(digits_value(digits) > 0x8000_0000_0000_0000);
            return None;
        }
        acc = acc * 10 + d;
        i = i + 1;
    }
    assert(digits.take(v.len() - start) == digits);
    if negative {
        if acc == 0x8000_0000_0000_0000 {
            Some(i64::MIN)
        } else {
            Some(-(acc as i64))
        }
    } else if acc <= 0x7fff_ffff_ffff_ffff {
        Some(acc as i64)
    } else {
        None
    }
}


/// `std::str::from_utf8`: the bytes as a string slice where they are valid
/// UTF-8, and nothing where they are not.
#[verifier::external_body]
fn str_from_utf8(bytes: &[u8]) -> (r: Option<&str>)
    ensures
        r is Some <==> vstd::utf8::valid_utf8(bytes@),
        r matches Some(s) ==> vstd::utf8::encode_utf8(s@) == bytes@,
{
    std::str::from_utf8(bytes).ok()
}

/// The text that bytes are in UTF-8, where they are valid UTF-8.
pub open spec fn utf8_text(bytes: Seq<u8>) -> Option<Seq<char>> {
    if vstd::utf8::valid_utf8(bytes) {
        Some(vstd::utf8::decode_utf8(bytes))
    } else {
        None
    }
}

/// The text that bytes are in UTF-8, where they are valid UTF-8.
pub fn utf8_text_exec(bytes: &[u8]) -> (r: Option<&str>)
    ensures
        match r {
            Some(s) => utf8_text(bytes@) == Some(s@),
            None => utf8_text(bytes@) is None,
        },
{
    let r = str_from_utf8(bytes);
    proof {
        match r {
            Some(s) => {
                vstd::utf8::encode_utf8_decode_utf8(s@);
            },
            None => {},
        }
    }
    r
}

/// The list with the one character `c`.
pub fn one_char(c: char) -> (r: Vec<char>)
    ensures
        r@ == seq![c],
{
    let mut v: Vec<char> = Vec::new();
    v.push(c);
    assert(v@ =~= seq![c]);
    v
}

} // verus!
