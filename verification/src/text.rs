//! Text as sequences of characters: the operations on strings that the
//! pipeline needs, each stated over `Seq<char>`.

use vstd::prelude::*;

verus! {

/// The character that writes the digit `d`.
pub open spec fn digit_char(d: nat) -> char {
    if d == 0 {
        '0'
    } else if d == 1 {
        '1'
    } else if d == 2 {
        '2'
    } else if d == 3 {
        '3'
    } else if d == 4 {
        '4'
    } else if d == 5 {
        '5'
    } else if d == 6 {
        '6'
    } else if d == 7 {
        '7'
    } else if d == 8 {
        '8'
    } else {
        '9'
    }
}

/// The decimal numeral of `n`, without leading zeros.
pub open spec fn decimal_digits(n: nat) -> Seq<char>
    decreases n,
{
    if n < 10 {
        seq![digit_char(n)]
    } else {
        decimal_digits(n / 10).push(digit_char(n % 10))
    }
}

/// Whether `c` has the Unicode property White_Space.
pub open spec fn is_whitespace(c: char) -> bool {
    let code = c as u32;
    ||| 0x09 <= code <= 0x0D
    ||| code == 0x20
    ||| code == 0x85
    ||| code == 0xA0
    ||| code == 0x1680
    ||| 0x2000 <= code <= 0x200A
    ||| code == 0x2028
    ||| code == 0x2029
    ||| code == 0x202F
    ||| code == 0x205F
    ||| code == 0x3000
}

/// `text` without its leading whitespace.
pub open spec fn trim_start(text: Seq<char>) -> Seq<char>
    decreases text.len(),
{
    if text.len() > 0 && is_whitespace(text[0]) {
        trim_start(text.drop_first())
    } else {
        text
    }
}

/// `text` without its trailing whitespace.
pub open spec fn trim_end(text: Seq<char>) -> Seq<char>
    decreases text.len(),
{
    if text.len() > 0 && is_whitespace(text.last()) {
        trim_end(text.drop_last())
    } else {
        text
    }
}

/// `text` without the whitespace that surrounds it.
pub open spec fn trimmed(text: Seq<char>) -> Seq<char> {
    trim_end(trim_start(text))
}

/// Whether `pattern` stands in `text` at index `at`.
pub open spec fn occurs_at(text: Seq<char>, pattern: Seq<char>, at: int) -> bool {
    &&& 0 <= at
    &&& at + pattern.len() <= text.len()
    &&& text.subrange(at, at + pattern.len()) == pattern
}

/// Whether `pattern` stands anywhere in `text`.
pub open spec fn occurs(text: Seq<char>, pattern: Seq<char>) -> bool {
    exists|at: int| occurs_at(text, pattern, at)
}

/// The least index at or after `from` at which `pattern` stands in `text`.
pub open spec fn first_occurrence_from(text: Seq<char>, pattern: Seq<char>, from: int) -> Option<
    int,
>
    decreases text.len() - from + 1,
{
    if from < 0 || from + pattern.len() > text.len() {
        None
    } else if occurs_at(text, pattern, from) {
        Some(from)
    } else {
        first_occurrence_from(text, pattern, from + 1)
    }
}

/// The least index at which `pattern` stands in `text`.
pub open spec fn first_occurrence(text: Seq<char>, pattern: Seq<char>) -> Option<int> {
    first_occurrence_from(text, pattern, 0)
}

/// `text` with the first occurrence of `pattern` taken out; `text` itself
/// where there is none.
pub open spec fn without_first(text: Seq<char>, pattern: Seq<char>) -> Seq<char> {
    match first_occurrence(text, pattern) {
        Some(at) => text.subrange(0, at) + text.subrange(at + pattern.len(), text.len() as int),
        None => text,
    }
}

/// The items of `texts` in order, with `separator` between each two.
pub open spec fn join(texts: Seq<Seq<char>>, separator: Seq<char>) -> Seq<char>
    decreases texts.len(),
{
    if texts.len() == 0 {
        Seq::empty()
    } else if texts.len() == 1 {
        texts[0]
    } else {
        join(texts.drop_last(), separator) + separator + texts.last()
    }
}

/// The texts of `strings`, each as a sequence of characters.
pub open spec fn texts_of(strings: Seq<String>) -> Seq<Seq<char>> {
    Seq::new(strings.len(), |i: int| strings[i]@)
}

/// What `first_occurrence_from` finds is an occurrence, and none stands
/// between `from` and it; where it finds nothing, none stands from `from` on.
pub proof fn lemma_first_occurrence_from(text: Seq<char>, pattern: Seq<char>, from: int)
    requires
        0 <= from,
    ensures
        match first_occurrence_from(text, pattern, from) {
            Some(at) => {
                &&& from <= at
                &&& occurs_at(text, pattern, at)
                &&& forall|j: int| from <= j < at ==> !occurs_at(text, pattern, j)
            },
            None => forall|j: int| from <= j ==> !occurs_at(text, pattern, j),
        },
    decreases text.len() - from + 1,
{
    if from + pattern.len() > text.len() {
    } else if occurs_at(text, pattern, from) {
    } else {
        lemma_first_occurrence_from(text, pattern, from + 1);
    }
}

/// `first_occurrence` finds the leftmost occurrence, and finds one exactly
/// when `pattern` occurs in `text`.
pub proof fn lemma_first_occurrence(text: Seq<char>, pattern: Seq<char>)
    ensures
        first_occurrence(text, pattern) is Some <==> occurs(text, pattern),
        first_occurrence(text, pattern) matches Some(at) ==> {
            &&& occurs_at(text, pattern, at)
            &&& forall|j: int| j < at ==> !occurs_at(text, pattern, j)
        },
{
    lemma_first_occurrence_from(text, pattern, 0);
    if occurs(text, pattern) {
        let at = choose|at: int| occurs_at(text, pattern, at);
        assert(occurs_at(text, pattern, at));
    }
}

/// With its first `skipped` characters all whitespace and the next one not,
/// `text` starts, once trimmed, at index `skipped`.
pub proof fn lemma_trim_start_at(text: Seq<char>, skipped: int)
    requires
        0 <= skipped <= text.len(),
        forall|i: int| 0 <= i < skipped ==> is_whitespace(#[trigger] text[i]),
        skipped < text.len() ==> !is_whitespace(text[skipped]),
    ensures
        trim_start(text) == text.subrange(skipped, text.len() as int),
    decreases skipped,
{
    if skipped == 0 {
        assert(text.subrange(0, text.len() as int) == text);
    } else {
        let rest = text.drop_first();
        assert forall|i: int| 0 <= i < skipped - 1 implies is_whitespace(#[trigger] rest[i]) by {
            assert(rest[i] == text[i + 1]);
        }
        lemma_trim_start_at(rest, skipped - 1);
        assert(rest.subrange(skipped - 1, rest.len() as int) == text.subrange(
            skipped,
            text.len() as int,
        ));
    }
}

/// With everything from index `kept` on whitespace and the character before
/// it not, `text` ends, once trimmed, at index `kept`.
pub proof fn lemma_trim_end_at(text: Seq<char>, kept: int)
    requires
        0 <= kept <= text.len(),
        forall|i: int| kept <= i < text.len() ==> is_whitespace(#[trigger] text[i]),
        0 < kept ==> !is_whitespace(text[kept - 1]),
    ensures
        trim_end(text) == text.subrange(0, kept),
    decreases text.len() - kept,
{
    if kept == text.len() {
        assert(text.subrange(0, kept) == text);
    } else {
        let rest = text.drop_last();
        lemma_trim_end_at(rest, kept);
        assert(rest.subrange(0, kept) == text.subrange(0, kept));
    }
}

/// Trimming cuts a piece out of `text`: it adds nothing and reorders nothing.
pub proof fn lemma_trim_is_subrange(text: Seq<char>) -> (bounds: (int, int))
    ensures
        0 <= bounds.0 <= bounds.1 <= text.len(),
        trimmed(text) == text.subrange(bounds.0, bounds.1),
{
    let start = lemma_trim_start_is_suffix(text);
    let tail = text.subrange(start, text.len() as int);
    let end = lemma_trim_end_is_prefix(tail);
    assert(tail.subrange(0, end) == text.subrange(start, start + end));
    (start, start + end)
}

/// `trim_start` keeps a suffix of `text`.
pub proof fn lemma_trim_start_is_suffix(text: Seq<char>) -> (start: int)
    ensures
        0 <= start <= text.len(),
        trim_start(text) == text.subrange(start, text.len() as int),
    decreases text.len(),
{
    if text.len() > 0 && is_whitespace(text[0]) {
        let inner = lemma_trim_start_is_suffix(text.drop_first());
        assert(text.drop_first().subrange(inner, text.len() - 1) == text.subrange(
            inner + 1,
            text.len() as int,
        ));
        inner + 1
    } else {
        assert(text.subrange(0, text.len() as int) == text);
        0
    }
}

/// `trim_end` keeps a prefix of `text`.
pub proof fn lemma_trim_end_is_prefix(text: Seq<char>) -> (end: int)
    ensures
        0 <= end <= text.len(),
        trim_end(text) == text.subrange(0, end),
    decreases text.len(),
{
    if text.len() > 0 && is_whitespace(text.last()) {
        let inner = lemma_trim_end_is_prefix(text.drop_last());
        assert(text.drop_last().subrange(0, inner) == text.subrange(0, inner));
        inner
    } else {
        assert(text.subrange(0, text.len() as int) == text);
        text.len() as int
    }
}

/// A pattern that occurs in a trimmed text occurs in the text itself.
pub proof fn lemma_trim_adds_no_occurrence(text: Seq<char>, pattern: Seq<char>)
    requires
        occurs(trimmed(text), pattern),
    ensures
        occurs(text, pattern),
{
    let (start, end) = lemma_trim_is_subrange(text);
    let at = choose|at: int| occurs_at(trimmed(text), pattern, at);
    assert(text.subrange(start, end).subrange(at, at + pattern.len()) == text.subrange(
        start + at,
        start + at + pattern.len(),
    ));
    assert(occurs_at(text, pattern, start + at));
}

/// The characters of `s`, in order.
pub fn to_chars(s: &str) -> (chars: Vec<char>)
    ensures
        chars@ == s@,
{
    let mut chars: Vec<char> = Vec::new();
    for c in iter: s.chars()
        invariant
            iter.seq() == s@,
            chars@ == s@.subrange(0, iter.index() as int),
    {
        chars.push(c);
    }
    assert(chars@ == s@);
    chars
}

/// Whether the two strings hold the same characters.
pub fn same_text(a: &str, b: &str) -> (same: bool)
    ensures
        same == (a@ == b@),
{
    String::from_str(a) == String::from_str(b)
}

/// Whether `c` is whitespace.
pub fn is_space(c: char) -> (space: bool)
    ensures
        space == is_whitespace(c),
{
    let code: u32 = c as u32;
    (0x09 <= code && code <= 0x0D) || code == 0x20 || code == 0x85 || code == 0xA0 || code
        == 0x1680 || (0x2000 <= code && code <= 0x200A) || code == 0x2028 || code == 0x2029
        || code == 0x202F || code == 0x205F || code == 0x3000
}

/// The one-character string that writes the digit `d`.
fn digit_text(d: u64) -> (text: &'static str)
    requires
        d < 10,
    ensures
        text@ == seq![digit_char(d as nat)],
{
    proof {
        reveal_strlit("0");
        reveal_strlit("1");
        reveal_strlit("2");
        reveal_strlit("3");
        reveal_strlit("4");
        reveal_strlit("5");
        reveal_strlit("6");
        reveal_strlit("7");
        reveal_strlit("8");
        reveal_strlit("9");
    }
    let text = if d == 0 {
        "0"
    } else if d == 1 {
        "1"
    } else if d == 2 {
        "2"
    } else if d == 3 {
        "3"
    } else if d == 4 {
        "4"
    } else if d == 5 {
        "5"
    } else if d == 6 {
        "6"
    } else if d == 7 {
        "7"
    } else if d == 8 {
        "8"
    } else {
        "9"
    };
    assert(text@ =~= seq![digit_char(d as nat)]);
    text
}

/// The decimal numeral of `n`.
pub fn decimal_string(n: u64) -> (text: String)
    ensures
        text@ == decimal_digits(n as nat),
    decreases n,
{
    if n < 10 {
        String::from_str(digit_text(n))
    } else {
        let mut text = decimal_string(n / 10);
        text.append(digit_text(n % 10));
        assert(text@ =~= decimal_digits(n as nat));
        text
    }
}

/// Whether `pattern` stands in `text` at index `at`.
fn matches_at(text: &Vec<char>, pattern: &Vec<char>, at: usize) -> (found: bool)
    requires
        at + pattern.len() <= text.len(),
    ensures
        found == occurs_at(text@, pattern@, at as int),
{
    let mut k: usize = 0;
    while k < pattern.len()
        invariant
            at + pattern.len() <= text.len(),
            k <= pattern.len(),
            forall|j: int| 0 <= j < k ==> text@[at + j] == pattern@[j],
        decreases pattern.len() - k,
    {
        if text[at + k] != pattern[k] {
            proof {
                let piece = text@.subrange(at as int, at + pattern.len());
                assert(piece[k as int] == text@[at + k]);
            }
            return false;
        }
        k += 1;
    }
    assert(text@.subrange(at as int, at + pattern.len()) =~= pattern@);
    true
}

/// The index, counted in characters, of the leftmost occurrence of `pattern`
/// in `text`.
pub fn find(text: &str, pattern: &str) -> (found: Option<usize>)
    ensures
        match found {
            Some(at) => first_occurrence(text@, pattern@) == Some(at as int),
            None => first_occurrence(text@, pattern@) is None,
        },
{
    let chars = to_chars(text);
    let wanted = to_chars(pattern);
    if wanted.len() > chars.len() {
        return None;
    }
    let last: usize = chars.len() - wanted.len();
    let mut at: usize = 0;
    loop
        invariant
            chars@ == text@,
            wanted@ == pattern@,
            last + wanted.len() == chars.len(),
            at <= last,
            first_occurrence(text@, pattern@) == first_occurrence_from(
                text@,
                pattern@,
                at as int,
            ),
        decreases last - at,
    {
        if matches_at(&chars, &wanted, at) {
            return Some(at);
        }
        if at == last {
            return None;
        }
        at += 1;
    }
}

/// `text` with the leftmost occurrence of `pattern` taken out.
pub fn remove_first(text: &str, pattern: &str) -> (rest: String)
    ensures
        rest@ == without_first(text@, pattern@),
{
    match find(text, pattern) {
        Some(at) => {
            proof {
                lemma_first_occurrence(text@, pattern@);
            }
            let length: usize = text.unicode_len();
            let width: usize = pattern.unicode_len();
            let mut rest = String::from_str(text.substring_char(0, at));
            rest.append(text.substring_char(at + width, length));
            rest
        },
        None => String::from_str(text),
    }
}

/// `text` without the whitespace that surrounds it.
pub fn trim(text: &str) -> (trimmed: &str)
    ensures
        trimmed@ == self::trimmed(text@),
{
    let chars = to_chars(text);
    let mut start: usize = 0;
    while start < chars.len() && is_space(chars[start])
        invariant
            start <= chars.len(),
            forall|i: int| 0 <= i < start ==> is_whitespace(#[trigger] chars@[i]),
        decreases chars.len() - start,
    {
        start += 1;
    }
    let mut end: usize = chars.len();
    while end > start && is_space(chars[end - 1])
        invariant
            start <= end <= chars.len(),
            forall|i: int| end <= i < chars.len() ==> is_whitespace(#[trigger] chars@[i]),
        decreases end,
    {
        end -= 1;
    }
    proof {
        lemma_trim_start_at(text@, start as int);
        let tail = text@.subrange(start as int, text@.len() as int);
        assert forall|i: int| end - start <= i < tail.len() implies is_whitespace(
            #[trigger] tail[i],
        ) by {
            assert(tail[i] == chars@[start + i]);
        }
        lemma_trim_end_at(tail, end - start);
        assert(tail.subrange(0, end - start) == text@.subrange(start as int, end as int));
    }
    text.substring_char(start, end)
}

/// The strings of `texts` in order, with `separator` between each two.
pub fn join_texts(texts: &Vec<String>, separator: &str) -> (joined: String)
    ensures
        joined@ == join(texts_of(texts@), separator@),
{
    let ghost all = texts_of(texts@);
    let mut joined = String::new();
    let mut i: usize = 0;
    while i < texts.len()
        invariant
            i <= texts.len(),
            all == texts_of(texts@),
            joined@ == join(all.take(i as int), separator@),
        decreases texts.len() - i,
    {
        if i > 0 {
            joined.append(separator);
        }
        joined.append(texts[i].as_str());
        proof {
            let longer = all.take(i + 1);
            assert(longer.drop_last() == all.take(i as int));
            assert(longer.last() == texts@[i as int]@);
            assert(joined@ == join(longer, separator@));
        }
        i += 1;
    }
    assert(all.take(texts.len() as int) == all);
    joined
}

} // verus!
