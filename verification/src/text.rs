//! Text as a sequence of characters: trimming, ASCII case, search, order and
//! decimal numerals, each stated over `Seq<char>` and proved.
use vstd::prelude::*;

verus! {

// ---------------------------------------------------------------------------
// Building blocks
// ---------------------------------------------------------------------------

/// `String::push` appends one character.
pub assume_specification[ String::push ](s: &mut String, c: char)
    ensures
        final(s)@ == old(s)@.push(c),
;

/// Whether two texts hold the same characters.
pub fn same_text(a: &str, b: &str) -> (same: bool)
    ensures
        same == (a@ == b@),
{
    let mut left = a.chars();
    let mut right = b.chars();
    let ghost mut n: int = 0;
    loop
        invariant
            0 <= n <= a@.len(),
            n <= b@.len(),
            vstd::std_specs::iter::IteratorSpec::remaining(&left) == a@.skip(n),
            vstd::std_specs::iter::IteratorSpec::remaining(&right) == b@.skip(n),
            a@.take(n) == b@.take(n),
        decreases a@.len() - n,
    {
        match (left.next(), right.next()) {
            (Some(c), Some(d)) => {
                if c != d {
                    assert(a@[n] != b@[n]);
                    return false;
                }
                proof {
                    assert(a@.take(n + 1) =~= a@.take(n).push(c));
                    assert(b@.take(n + 1) =~= b@.take(n).push(d));
                    assert(a@.skip(n).drop_first() =~= a@.skip(n + 1));
                    assert(b@.skip(n).drop_first() =~= b@.skip(n + 1));
                    n = n + 1;
                }
            },
            (None, None) => {
                assert(a@.take(n) =~= a@);
                assert(b@.take(n) =~= b@);
                return true;
            },
            _ => {
                return false;
            },
        }
    }
}

/// The characters of a text, in order.
pub fn chars_of(text: &str) -> (chars: Vec<char>)
    ensures
        chars@ == text@,
{
    let mut rest = text.chars();
    let mut chars: Vec<char> = Vec::new();
    loop
        invariant
            chars@.len() <= text@.len(),
            vstd::std_specs::iter::IteratorSpec::remaining(&rest) == text@.skip(chars@.len() as int),
            chars@ == text@.take(chars@.len() as int),
        decreases text@.len() - chars@.len(),
    {
        match rest.next() {
            Some(c) => {
                let ghost n = chars@.len() as int;
                chars.push(c);
                assert(text@.take(n + 1) =~= text@.take(n).push(c));
                assert(text@.skip(n).drop_first() =~= text@.skip(n + 1));
            },
            None => {
                assert(text@.take(chars@.len() as int) =~= text@);
                return chars;
            },
        }
    }
}

/// The text made of the characters from `from` up to, not including, `to`.
pub fn text_of(chars: &Vec<char>, from: usize, to: usize) -> (text: String)
    requires
        from <= to <= chars@.len(),
    ensures
        text@ == chars@.subrange(from as int, to as int),
{
    let mut text = String::new();
    let mut i: usize = from;
    while i < to
        invariant
            from <= i <= to <= chars@.len(),
            text@ == chars@.subrange(from as int, i as int),
        decreases to - i,
    {
        text.push(chars[i]);
        assert(chars@.subrange(from as int, i + 1) =~= chars@.subrange(from as int, i as int).push(
            chars@[i as int],
        ));
        i += 1;
    }
    text
}

/// One text followed by another.
pub fn joined(a: &str, b: &str) -> (text: String)
    ensures
        text@ == a@ + b@,
{
    let mut text = a.to_owned();
    text.append(b);
    text
}

/// Three texts in a row.
pub fn joined3(a: &str, b: &str, c: &str) -> (text: String)
    ensures
        text@ == a@ + b@ + c@,
{
    let mut text = a.to_owned();
    text.append(b);
    text.append(c);
    text
}

/// What an optional text holds.
pub open spec fn optional_text(text: Option<String>) -> Option<Seq<char>> {
    match text {
        Some(t) => Some(t@),
        None => None,
    }
}

/// What each text of a list holds.
pub open spec fn texts(list: Seq<String>) -> Seq<Seq<char>> {
    Seq::new(list.len(), |i: int| list[i]@)
}

/// Whether `f` is one of `names`.
pub open spec fn listed(names: Seq<&'static str>, f: Seq<char>) -> bool {
    exists|i: int| 0 <= i < names.len() && (#[trigger] names[i])@ == f
}

/// Whether `f` is one of `names`.
pub fn is_listed<const N: usize>(names: [&'static str; N], f: &str) -> (found: bool)
    ensures
        found == listed(names@, f@),
{
    let mut i: usize = 0;
    while i < N
        invariant
            i <= N,
            names@.len() == N,
            forall|j: int| 0 <= j < i ==> (#[trigger] names@[j])@ != f@,
        decreases N - i,
    {
        if same_text(names[i], f) {
            return true;
        }
        i += 1;
    }
    false
}

/// Whether `text` is one of `list`.
pub fn has_text(list: &Vec<String>, text: &str) -> (found: bool)
    ensures
        found == texts(list@).contains(text@),
{
    let mut i: usize = 0;
    while i < list.len()
        invariant
            i <= list@.len(),
            forall|j: int| 0 <= j < i ==> (#[trigger] list@[j])@ != text@,
        decreases list@.len() - i,
    {
        if same_text(list[i].as_str(), text) {
            assert(texts(list@)[i as int] == text@);
            return true;
        }
        i += 1;
    }
    assert(forall|j: int| 0 <= j < texts(list@).len() ==> texts(list@)[j] == list@[j]@);
    false
}

// ---------------------------------------------------------------------------
// White space
// ---------------------------------------------------------------------------

/// The characters with the Unicode property White_Space.
pub open spec fn is_white_space(c: char) -> bool {
    ||| '\u{9}' <= c <= '\u{d}'
    ||| c == ' '
    ||| c == '\u{85}'
    ||| c == '\u{a0}'
    ||| c == '\u{1680}'
    ||| '\u{2000}' <= c <= '\u{200a}'
    ||| c == '\u{2028}'
    ||| c == '\u{2029}'
    ||| c == '\u{202f}'
    ||| c == '\u{205f}'
    ||| c == '\u{3000}'
}

/// A text without its leading white space.
pub open spec fn trim_start(s: Seq<char>) -> Seq<char>
    decreases s.len(),
{
    if s.len() > 0 && is_white_space(s[0]) {
        trim_start(s.skip(1))
    } else {
        s
    }
}

/// A text without its trailing white space.
pub open spec fn trim_end(s: Seq<char>) -> Seq<char>
    decreases s.len(),
{
    if s.len() > 0 && is_white_space(s.last()) {
        trim_end(s.drop_last())
    } else {
        s
    }
}

/// A text without white space at either end.
pub open spec fn trimmed(s: Seq<char>) -> Seq<char> {
    trim_end(trim_start(s))
}

/// Whether a character has the Unicode property White_Space.
pub fn white_space(c: char) -> (white: bool)
    ensures
        white == is_white_space(c),
{
    ('\u{9}' <= c && c <= '\u{d}') || c == ' ' || c == '\u{85}' || c == '\u{a0}' || c == '\u{1680}'
        || ('\u{2000}' <= c && c <= '\u{200a}') || c == '\u{2028}' || c == '\u{2029}' || c
        == '\u{202f}' || c == '\u{205f}' || c == '\u{3000}'
}

/// A copy of the text without white space at either end.
pub fn trim(text: &str) -> (out: String)
    ensures
        out@ == trimmed(text@),
{
    let chars = chars_of(text);
    let mut from: usize = 0;
    assert(chars@.skip(0) =~= chars@);
    while from < chars.len() && white_space(chars[from])
        invariant
            from <= chars@.len(),
            trim_start(chars@) == trim_start(chars@.skip(from as int)),
        decreases chars@.len() - from,
    {
        assert(chars@.skip(from as int).skip(1) =~= chars@.skip(from + 1));
        from += 1;
    }
    let mut to: usize = chars.len();
    let ghost body = trim_start(chars@);
    assert(body == chars@.skip(from as int));
    assert(chars@.subrange(from as int, to as int) =~= body);
    while to > from && white_space(chars[to - 1])
        invariant
            from <= to <= chars@.len(),
            trim_end(body) == trim_end(chars@.subrange(from as int, to as int)),
        decreases to,
    {
        assert(chars@.subrange(from as int, to as int).drop_last() =~= chars@.subrange(
            from as int,
            to - 1,
        ));
        to -= 1;
    }
    text_of(&chars, from, to)
}

/// A trimmed text has no white space at either end.
pub proof fn trimmed_has_clean_ends(s: Seq<char>)
    ensures
        trimmed(s).len() > 0 ==> !is_white_space(trimmed(s)[0]) && !is_white_space(
            trimmed(s).last(),
        ),
{
    trim_start_clean(s);
    trim_end_clean(trim_start(s));
}

proof fn trim_start_clean(s: Seq<char>)
    ensures
        trim_start(s).len() > 0 ==> !is_white_space(trim_start(s)[0]),
    decreases s.len(),
{
    if s.len() > 0 && is_white_space(s[0]) {
        trim_start_clean(s.skip(1));
    }
}

proof fn trim_end_clean(s: Seq<char>)
    ensures
        trim_end(s).len() > 0 ==> !is_white_space(trim_end(s).last()),
        trim_end(s).len() > 0 ==> trim_end(s)[0] == s[0],
        trim_end(s).len() <= s.len(),
        forall|i: int| 0 <= i < trim_end(s).len() ==> trim_end(s)[i] == s[i],
    decreases s.len(),
{
    if s.len() > 0 && is_white_space(s.last()) {
        trim_end_clean(s.drop_last());
        assert(forall|i: int| 0 <= i < s.len() - 1 ==> s.drop_last()[i] == s[i]);
    }
}

/// Trimming a text that is already trimmed changes nothing.
pub proof fn trim_is_idempotent(s: Seq<char>)
    ensures
        trimmed(trimmed(s)) == trimmed(s),
{
    trimmed_has_clean_ends(s);
}

/// A text without white space is its own trimmed form.
pub proof fn trim_keeps_text_without_white_space(s: Seq<char>)
    requires
        forall|i: int| 0 <= i < s.len() ==> !is_white_space(#[trigger] s[i]),
    ensures
        trimmed(s) == s,
{
}

// ---------------------------------------------------------------------------
// ASCII case
// ---------------------------------------------------------------------------

/// The ASCII lower case of a character; other characters stand.
pub open spec fn ascii_lower(c: char) -> char {
    if 'A' <= c <= 'Z' {
        ((c as u8) + 32) as char
    } else {
        c
    }
}

/// The ASCII upper case of a character; other characters stand.
pub open spec fn ascii_upper(c: char) -> char {
    if 'a' <= c <= 'z' {
        ((c as u8) - 32) as char
    } else {
        c
    }
}

/// A text with every ASCII letter in lower case.
pub open spec fn lowered(s: Seq<char>) -> Seq<char> {
    Seq::new(s.len(), |i: int| ascii_lower(s[i]))
}

/// A text with every ASCII letter in upper case.
pub open spec fn uppered(s: Seq<char>) -> Seq<char> {
    Seq::new(s.len(), |i: int| ascii_upper(s[i]))
}

/// A copy of the text with every ASCII letter in lower case.
pub fn to_lower(text: &str) -> (out: String)
    ensures
        out@ == lowered(text@),
{
    let chars = chars_of(text);
    let mut out = String::new();
    let mut i: usize = 0;
    while i < chars.len()
        invariant
            i <= chars@.len(),
            out@ == lowered(chars@).take(i as int),
        decreases chars@.len() - i,
    {
        let c = chars[i];
        let d = if 'A' <= c && c <= 'Z' {
            ((c as u8) + 32) as char
        } else {
            c
        };
        out.push(d);
        assert(lowered(chars@).take(i + 1) =~= lowered(chars@).take(i as int).push(d));
        i += 1;
    }
    assert(lowered(chars@).take(i as int) =~= lowered(chars@));
    out
}

/// A copy of the text with every ASCII letter in upper case.
pub fn to_upper(text: &str) -> (out: String)
    ensures
        out@ == uppered(text@),
{
    let chars = chars_of(text);
    let mut out = String::new();
    let mut i: usize = 0;
    while i < chars.len()
        invariant
            i <= chars@.len(),
            out@ == uppered(chars@).take(i as int),
        decreases chars@.len() - i,
    {
        let c = chars[i];
        let d = if 'a' <= c && c <= 'z' {
            ((c as u8) - 32) as char
        } else {
            c
        };
        out.push(d);
        assert(uppered(chars@).take(i + 1) =~= uppered(chars@).take(i as int).push(d));
        i += 1;
    }
    assert(uppered(chars@).take(i as int) =~= uppered(chars@));
    out
}

/// Lower-casing twice is lower-casing once.
pub proof fn lower_is_idempotent(s: Seq<char>)
    ensures
        lowered(lowered(s)) == lowered(s),
{
    assert(lowered(lowered(s)) =~= lowered(s));
}

/// Upper-casing twice is upper-casing once.
pub proof fn upper_is_idempotent(s: Seq<char>)
    ensures
        uppered(uppered(s)) == uppered(s),
{
    assert(uppered(uppered(s)) =~= uppered(s));
}

/// Trimming and lower-casing commute.
pub proof fn trim_and_lower_commute(s: Seq<char>)
    ensures
        trimmed(lowered(s)) == lowered(trimmed(s)),
{
    trim_start_of_lowered(s);
    trim_end_of_lowered(trim_start(s));
}

proof fn trim_start_of_lowered(s: Seq<char>)
    ensures
        trim_start(lowered(s)) == lowered(trim_start(s)),
    decreases s.len(),
{
    if s.len() > 0 && is_white_space(s[0]) {
        assert(lowered(s).skip(1) =~= lowered(s.skip(1)));
        trim_start_of_lowered(s.skip(1));
    }
}

proof fn trim_end_of_lowered(s: Seq<char>)
    ensures
        trim_end(lowered(s)) == lowered(trim_end(s)),
    decreases s.len(),
{
    if s.len() > 0 && is_white_space(s.last()) {
        assert(lowered(s).drop_last() =~= lowered(s.drop_last()));
        trim_end_of_lowered(s.drop_last());
    }
}

// ---------------------------------------------------------------------------
// Search
// ---------------------------------------------------------------------------

/// Whether `needle` stands in `s` from position `at` on.
pub open spec fn occurs_at(s: Seq<char>, needle: Seq<char>, at: int) -> bool {
    0 <= at && at + needle.len() <= s.len() && s.subrange(at, at + needle.len()) == needle
}

/// Whether `needle` stands anywhere in `s`.
pub open spec fn occurs_in(s: Seq<char>, needle: Seq<char>) -> bool {
    exists|at: int| occurs_at(s, needle, at)
}

/// Whether any of `needles` stands in `s`.
pub open spec fn mentions(s: Seq<char>, needles: Seq<&'static str>) -> bool {
    exists|i: int| 0 <= i < needles.len() && occurs_in(s, (#[trigger] needles[i])@)
}

fn matches_at(s: &Vec<char>, needle: &Vec<char>, at: usize) -> (found: bool)
    requires
        at + needle@.len() <= s@.len(),
    ensures
        found == occurs_at(s@, needle@, at as int),
{
    let size: usize = s.len();
    let mut k: usize = 0;
    while k < needle.len()
        invariant
            k <= needle@.len(),
            at + needle@.len() <= s@.len() == size,
            forall|j: int| 0 <= j < k ==> s@[at + j] == #[trigger] needle@[j],
        decreases needle@.len() - k,
    {
        if s[at + k] != needle[k] {
            assert(s@.subrange(at as int, at + needle@.len())[k as int] != needle@[k as int]);
            return false;
        }
        k += 1;
    }
    assert(s@.subrange(at as int, at + needle@.len()) =~= needle@);
    true
}

/// Whether `needle` stands anywhere in `s`.
pub fn contains_text(s: &Vec<char>, needle: &str) -> (found: bool)
    ensures
        found == occurs_in(s@, needle@),
{
    let needle_chars = chars_of(needle);
    if needle_chars.len() > s.len() {
        return false;
    }
    let last: usize = s.len() - needle_chars.len();
    let mut at: usize = 0;
    loop
        invariant
            at <= last,
            last + needle_chars@.len() == s@.len(),
            needle_chars@ == needle@,
            forall|j: int| 0 <= j < at ==> !occurs_at(s@, needle@, j),
        decreases last - at,
    {
        if matches_at(s, &needle_chars, at) {
            return true;
        }
        if at == last {
            return false;
        }
        at += 1;
    }
}

/// Whether any of `needles` stands in `s`.
pub fn mentions_any<const N: usize>(s: &Vec<char>, needles: [&'static str; N]) -> (found: bool)
    ensures
        found == mentions(s@, needles@),
{
    let mut i: usize = 0;
    while i < N
        invariant
            i <= N,
            needles@.len() == N,
            forall|j: int| 0 <= j < i ==> !occurs_in(s@, (#[trigger] needles@[j])@),
        decreases N - i,
    {
        if contains_text(s, needles[i]) {
            return true;
        }
        i += 1;
    }
    false
}

/// What follows `prefix` in `s`, if `s` starts with it.
pub open spec fn after_prefix(s: Seq<char>, prefix: Seq<char>) -> Option<Seq<char>> {
    if occurs_at(s, prefix, 0) {
        Some(s.skip(prefix.len() as int))
    } else {
        None
    }
}

/// What follows `prefix` in `text`, if `text` starts with it.
pub fn strip_prefix(text: &str, prefix: &str) -> (rest: Option<String>)
    ensures
        optional_text(rest) == after_prefix(text@, prefix@),
{
    let chars = chars_of(text);
    let head = chars_of(prefix);
    if head.len() <= chars.len() && matches_at(&chars, &head, 0) {
        let rest = text_of(&chars, head.len(), chars.len());
        assert(rest@ =~= text@.skip(prefix@.len() as int));
        Some(rest)
    } else {
        None
    }
}

// ---------------------------------------------------------------------------
// Order
// ---------------------------------------------------------------------------

/// Lexicographic order by code point: at the first position where the texts
/// differ the smaller character comes first, and a proper prefix comes before
/// the longer text.
pub open spec fn precedes(a: Seq<char>, b: Seq<char>) -> bool {
    exists|k: int| splits_before(a, b, k)
}

/// `a` and `b` agree before position `k`, and `a` is the smaller one there.
pub open spec fn splits_before(a: Seq<char>, b: Seq<char>, k: int) -> bool {
    &&& 0 <= k <= a.len()
    &&& k < b.len()
    &&& a.take(k) == b.take(k)
    &&& k == a.len() || a[k] < b[k]
}

/// Whether `a` comes before `b` in lexicographic order.
pub fn text_precedes(a: &str, b: &str) -> (before: bool)
    ensures
        before == precedes(a@, b@),
        !before && a@ != b@ ==> precedes(b@, a@),
{
    let left = chars_of(a);
    let right = chars_of(b);
    let mut k: usize = 0;
    while k < left.len() && k < right.len() && left[k] == right[k]
        invariant
            k <= left@.len(),
            k <= right@.len(),
            left@.take(k as int) == right@.take(k as int),
        decreases left@.len() - k,
    {
        assert(left@.take(k + 1) =~= left@.take(k as int).push(left@[k as int]));
        assert(right@.take(k + 1) =~= right@.take(k as int).push(right@[k as int]));
        k += 1;
    }
    let before = k < right.len() && (k == left.len() || left[k] < right[k]);
    proof {
        if before {
            assert(splits_before(a@, b@, k as int));
        } else {
            if k == right@.len() && k == left@.len() {
                assert(left@.take(k as int) =~= left@);
                assert(right@.take(k as int) =~= right@);
                precedes_is_irreflexive(a@);
            } else {
                assert(splits_before(b@, a@, k as int));
                if precedes(a@, b@) {
                    precedes_is_transitive(a@, b@, a@);
                    precedes_is_irreflexive(a@);
                }
            }
        }
    }
    before
}

/// No text comes before itself.
pub proof fn precedes_is_irreflexive(a: Seq<char>)
    ensures
        !precedes(a, a),
{
}

/// Lexicographic order is transitive.
pub proof fn precedes_is_transitive(a: Seq<char>, b: Seq<char>, c: Seq<char>)
    requires
        precedes(a, b),
        precedes(b, c),
    ensures
        precedes(a, c),
{
    let i = choose|k: int| splits_before(a, b, k);
    let j = choose|k: int| splits_before(b, c, k);
    let m = if i < j {
        i
    } else {
        j
    };
    assert(a.take(m) =~= b.take(m)) by {
        assert forall|x: int| 0 <= x < m implies a[x] == b[x] by {
            assert(a.take(i)[x] == b.take(i)[x]);
        }
    }
    assert(b.take(m) =~= c.take(m)) by {
        assert forall|x: int| 0 <= x < m implies b[x] == c[x] by {
            assert(b.take(j)[x] == c.take(j)[x]);
        }
    }
    if i < j {
        assert(b.take(j)[i] == c.take(j)[i]);
    } else if j < i {
        assert(a.take(i)[j] == b.take(i)[j]);
    }
    assert(splits_before(a, c, m));
}

/// Of two different texts one comes before the other.
pub proof fn precedes_is_total(a: Seq<char>, b: Seq<char>)
    requires
        a != b,
    ensures
        precedes(a, b) || precedes(b, a),
{
    let k = first_difference(a, b, 0);
    first_difference_agrees(a, b, 0);
    assert(a.take(k) =~= b.take(k));
    if k == a.len() && k == b.len() {
        assert(a =~= b);
    }
    if k < b.len() && (k == a.len() || a[k] < b[k]) {
        assert(splits_before(a, b, k));
    } else {
        assert(splits_before(b, a, k));
    }
}

/// Texts in strictly increasing order are determined by which texts they are.
pub proof fn increasing_texts_are_determined(a: Seq<Seq<char>>, b: Seq<Seq<char>>)
    requires
        forall|i: int, j: int|
            0 <= i < j < a.len() ==> precedes(#[trigger] a[i], #[trigger] a[j]),
        forall|i: int, j: int|
            0 <= i < j < b.len() ==> precedes(#[trigger] b[i], #[trigger] b[j]),
        forall|k: Seq<char>| a.contains(k) <==> b.contains(k),
    ensures
        a == b,
    decreases a.len(),
{
    if a.len() == 0 {
        if b.len() > 0 {
            assert(b.contains(b[0]));
        }
        assert(a =~= b);
    } else if b.len() == 0 {
        assert(a.contains(a[0]));
    } else {
        let x = a.last();
        let y = b.last();
        assert(a.contains(x));
        assert(b.contains(y));
        let i = choose|i: int| 0 <= i < b.len() && b[i] == x;
        let j = choose|j: int| 0 <= j < a.len() && a[j] == y;
        if x != y {
            assert(precedes(b[i], b[b.len() - 1]));
            assert(precedes(a[j], a[a.len() - 1]));
            precedes_is_transitive(x, y, x);
            precedes_is_irreflexive(x);
        }
        assert forall|k: Seq<char>| a.drop_last().contains(k) <==> b.drop_last().contains(k) by {
            precedes_is_irreflexive(x);
            if a.drop_last().contains(k) {
                let m = choose|m: int| 0 <= m < a.len() - 1 && a.drop_last()[m] == k;
                assert(precedes(a[m], a[a.len() - 1]));
                assert(a.contains(a[m]));
                let n = choose|n: int| 0 <= n < b.len() && b[n] == k;
                assert(b.drop_last()[n] == k);
            }
            if b.drop_last().contains(k) {
                let m = choose|m: int| 0 <= m < b.len() - 1 && b.drop_last()[m] == k;
                assert(precedes(b[m], b[b.len() - 1]));
                assert(b.contains(b[m]));
                let n = choose|n: int| 0 <= n < a.len() && a[n] == k;
                assert(a.drop_last()[n] == k);
            }
        }
        assert forall|i: int, j: int| 0 <= i < j < a.len() - 1 implies precedes(
            #[trigger] a.drop_last()[i],
            #[trigger] a.drop_last()[j],
        ) by {
            assert(precedes(a[i], a[j]));
        }
        assert forall|i: int, j: int| 0 <= i < j < b.len() - 1 implies precedes(
            #[trigger] b.drop_last()[i],
            #[trigger] b.drop_last()[j],
        ) by {
            assert(precedes(b[i], b[j]));
        }
        increasing_texts_are_determined(a.drop_last(), b.drop_last());
        assert(a =~= a.drop_last().push(x));
        assert(b =~= b.drop_last().push(y));
    }
}

spec fn first_difference(a: Seq<char>, b: Seq<char>, from: int) -> int
    decreases a.len() - from,
{
    if 0 <= from < a.len() && from < b.len() && a[from] == b[from] {
        first_difference(a, b, from + 1)
    } else {
        from
    }
}

proof fn first_difference_agrees(a: Seq<char>, b: Seq<char>, from: int)
    requires
        0 <= from <= a.len(),
        from <= b.len(),
        forall|i: int| 0 <= i < from ==> a[i] == b[i],
    ensures
        ({
            let k = first_difference(a, b, from);
            &&& from <= k <= a.len()
            &&& k <= b.len()
            &&& forall|i: int| 0 <= i < k ==> a[i] == b[i]
            &&& k < a.len() && k < b.len() ==> a[k] != b[k]
        }),
    decreases a.len() - from,
{
    if from < a.len() && from < b.len() && a[from] == b[from] {
        first_difference_agrees(a, b, from + 1);
    }
}

// ---------------------------------------------------------------------------
// Decimal numerals
// ---------------------------------------------------------------------------

/// The decimal digit for a number below ten.
pub open spec fn digit(d: nat) -> char {
    (48 + d) as char
}

/// A number in decimal notation, without leading zeros.
pub open spec fn numeral(n: nat) -> Seq<char>
    decreases n,
{
    if n < 10 {
        seq![digit(n)]
    } else {
        numeral(n / 10).push(digit(n % 10))
    }
}

/// A number in decimal notation, without leading zeros.
pub fn number_text(n: usize) -> (text: String)
    ensures
        text@ == numeral(n as nat),
    decreases n,
{
    let d = (48 + (n % 10) as u8) as char;
    if n < 10 {
        let mut text = String::new();
        text.push(d);
        assert(text@ =~= seq![digit(n as nat)]);
        text
    } else {
        let mut text = number_text(n / 10);
        text.push(d);
        text
    }
}

// ---------------------------------------------------------------------------
// Laws
// ---------------------------------------------------------------------------

/// Trimming cuts white space from both ends, all of it, and nothing else: what is
/// left is one piece of the text.
pub proof fn trimming_cuts_white_space_only(s: Seq<char>) -> (ends: (int, int))
    ensures
        0 <= ends.0 <= ends.1 <= s.len(),
        trimmed(s) == s.subrange(ends.0, ends.1),
        forall|i: int| 0 <= i < ends.0 ==> is_white_space(#[trigger] s[i]),
        forall|i: int| ends.1 <= i < s.len() ==> is_white_space(#[trigger] s[i]),
        ends.0 < ends.1 ==> !is_white_space(s[ends.0]) && !is_white_space(s[ends.1 - 1]),
{
    let from = start_cut(s);
    let body = trim_start(s);
    let length = end_cut(body);
    assert(body.subrange(0, length) =~= s.subrange(from, from + length));
    assert forall|i: int| from + length <= i < s.len() implies is_white_space(
        #[trigger] s[i],
    ) by {
        assert(body[i - from] == s[i]);
    }
    if length > 0 {
        assert(body[0] == s[from]);
        assert(body[length - 1] == s[from + length - 1]);
        trim_start_clean(s);
    }
    (from, from + length)
}

proof fn start_cut(s: Seq<char>) -> (from: int)
    ensures
        0 <= from <= s.len(),
        trim_start(s) == s.skip(from),
        forall|i: int| 0 <= i < from ==> is_white_space(#[trigger] s[i]),
    decreases s.len(),
{
    if s.len() > 0 && is_white_space(s[0]) {
        let rest = s.skip(1);
        let n = start_cut(rest);
        assert(rest.skip(n) =~= s.skip(n + 1));
        assert forall|i: int| 0 <= i < n + 1 implies is_white_space(#[trigger] s[i]) by {
            if i > 0 {
                assert(rest[i - 1] == s[i]);
            }
        }
        n + 1
    } else {
        assert(s.skip(0) =~= s);
        0
    }
}

proof fn end_cut(s: Seq<char>) -> (length: int)
    ensures
        0 <= length <= s.len(),
        trim_end(s) == s.subrange(0, length),
        forall|i: int| length <= i < s.len() ==> is_white_space(#[trigger] s[i]),
        length > 0 ==> !is_white_space(s[length - 1]),
    decreases s.len(),
{
    if s.len() > 0 && is_white_space(s.last()) {
        let rest = s.drop_last();
        let n = end_cut(rest);
        assert(rest.subrange(0, n) =~= s.subrange(0, n));
        assert forall|i: int| n <= i < s.len() implies is_white_space(#[trigger] s[i]) by {
            if i < s.len() - 1 {
                assert(rest[i] == s[i]);
            }
        }
        n
    } else {
        assert(s.subrange(0, s.len() as int) =~= s);
        s.len() as int
    }
}

/// Lower and upper case move the 26 ASCII letters by 32 and leave every other
/// character, and the length of the text, alone.
pub proof fn case_moves_ascii_letters_only(s: Seq<char>, i: int)
    requires
        0 <= i < s.len(),
    ensures
        lowered(s).len() == s.len(),
        uppered(s).len() == s.len(),
        65 <= s[i] as int <= 90 ==> lowered(s)[i] as int == s[i] as int + 32,
        !(65 <= s[i] as int <= 90) ==> lowered(s)[i] == s[i],
        97 <= s[i] as int <= 122 ==> uppered(s)[i] as int == s[i] as int - 32,
        !(97 <= s[i] as int <= 122) ==> uppered(s)[i] == s[i],
{
}

/// A text mentions another exactly if it can be cut in three with that text in the
/// middle.
pub proof fn parts_of_a_text_occur_in_it(before: Seq<char>, needle: Seq<char>, after: Seq<char>)
    ensures
        occurs_in(before + needle + after, needle),
{
    let s = before + needle + after;
    let at = before.len() as int;
    assert(s.subrange(at, at + needle.len()) =~= needle);
    assert(occurs_at(s, needle, at));
}

/// What occurs in a text is one of its parts.
pub proof fn what_occurs_is_a_part(s: Seq<char>, needle: Seq<char>) -> (cut: (Seq<char>, Seq<char>))
    requires
        occurs_in(s, needle),
    ensures
        s == cut.0 + needle + cut.1,
{
    let at = choose|at: int| occurs_at(s, needle, at);
    let before = s.take(at);
    let after = s.skip(at + needle.len());
    assert(s =~= before + s.subrange(at, at + needle.len()) + after);
    (before, after)
}

/// Cutting a prefix undoes putting it there, and only texts that begin with the prefix
/// can have it cut.
pub proof fn cutting_a_prefix_undoes_adding_it(s: Seq<char>, prefix: Seq<char>, rest: Seq<char>)
    ensures
        after_prefix(prefix + rest, prefix) == Some(rest),
        after_prefix(s, prefix) == Some(rest) <==> s == prefix + rest,
{
    let whole = prefix + rest;
    assert(whole.subrange(0, prefix.len() as int) =~= prefix);
    assert(whole.skip(prefix.len() as int) =~= rest);
    if after_prefix(s, prefix) == Some(rest) {
        assert(s =~= s.subrange(0, prefix.len() as int) + s.skip(prefix.len() as int));
    }
}

/// Texts are ordered like words in a dictionary of code points: a text comes before
/// its extensions, and of two texts that part ways the one with the smaller character
/// comes first.
pub proof fn texts_are_ordered_like_words(
    common: Seq<char>,
    c: char,
    d: char,
    x: Seq<char>,
    y: Seq<char>,
)
    ensures
        precedes(common, common.push(c) + x),
        (c as int) < (d as int) ==> precedes(common.push(c) + x, common.push(d) + y),
{
    let n = common.len() as int;
    let a = common.push(c) + x;
    let b = common.push(d) + y;
    assert(a.take(n) =~= common);
    assert(b.take(n) =~= common);
    assert(common.take(n) =~= common);
    assert(splits_before(common, a, n));
    if (c as int) < (d as int) {
        assert(splits_before(a, b, n));
    }
}

/// A name is listed exactly if it stands at some position of the list, and a text
/// mentions a list exactly if it mentions a text at some position.
pub proof fn lists_are_searched_in_full(names: Seq<&'static str>, f: Seq<char>, i: int)
    ensures
        0 <= i < names.len() && names[i]@ == f ==> listed(names, f),
        0 <= i < names.len() && occurs_in(f, names[i]@) ==> mentions(f, names),
        listed(names, f) ==> exists|j: int| 0 <= j < names.len() && (#[trigger] names[j])@ == f,
        mentions(f, names) ==> exists|j: int|
            0 <= j < names.len() && occurs_in(f, (#[trigger] names[j])@),
{
}

/// Lists of texts and optional texts are read element by element.
pub proof fn texts_are_read_as_they_are(list: Seq<String>, text: Option<String>, i: int)
    ensures
        texts(list).len() == list.len(),
        0 <= i < list.len() ==> texts(list)[i] == list[i]@,
        text is Some <==> optional_text(text) is Some,
        text is Some ==> optional_text(text)->0 == text->0@,
{
}

/// Which characters are white space, by their code points.
pub proof fn white_space_by_code_point(c: char)
    ensures
        is_white_space(c) <==> {
            let n = c as int;
            ||| 9 <= n <= 13
            ||| n == 32
            ||| n == 0x85
            ||| n == 0xa0
            ||| n == 0x1680
            ||| 0x2000 <= n <= 0x200a
            ||| n == 0x2028
            ||| n == 0x2029
            ||| n == 0x202f
            ||| n == 0x205f
            ||| n == 0x3000
        },
{
}

} // verus!
