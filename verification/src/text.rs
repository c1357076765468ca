//! Text: what the string operations of this crate compute, stated over sequences of characters.
use vstd::prelude::*;

verus! {

broadcast use vstd::string::group_string_axioms;

/// The text of each string of a list.
pub open spec fn texts(list: Seq<String>) -> Seq<Seq<char>> {
    Seq::new(list.len(), |i: int| list[i]@)
}

/// The text of an optional string.
pub open spec fn opt_text(s: Option<String>) -> Option<Seq<char>> {
    match s {
        Some(s) => Some(s@),
        None => None,
    }
}

/// An answer that is a text, or a failure.
pub open spec fn text_reply<E>(reply: Result<String, E>) -> Result<Seq<char>, E> {
    match reply {
        Ok(s) => Ok(s@),
        Err(err) => Err(err),
    }
}

/// An answer that is a list of texts, or a failure.
pub open spec fn list_reply<E>(reply: Result<Vec<String>, E>) -> Result<Seq<Seq<char>>, E> {
    match reply {
        Ok(list) => Ok(texts(list@)),
        Err(err) => Err(err),
    }
}

/// The text of each pair of a list.
pub open spec fn pairs(list: Seq<(String, String)>) -> Seq<(Seq<char>, Seq<char>)> {
    Seq::new(list.len(), |i: int| (list[i].0@, list[i].1@))
}

/// `part` occurs somewhere in `s`.
pub open spec fn has_part(s: Seq<char>, part: Seq<char>) -> bool {
    exists|i: int|
        0 <= i <= s.len() - part.len() && #[trigger] s.subrange(i, i + part.len()) == part
}

/// What follows the last `c` of `s`; the whole of `s` where there is none.
pub open spec fn tail_after_last(s: Seq<char>, c: char) -> Seq<char>
    decreases s.len(),
{
    if s.len() == 0 {
        s
    } else if s.last() == c {
        Seq::empty()
    } else {
        tail_after_last(s.drop_last(), c).push(s.last())
    }
}

/// What follows the first `c` of `s`.
pub open spec fn tail_after_first(s: Seq<char>, c: char) -> Option<Seq<char>>
    decreases s.len(),
{
    if s.len() == 0 {
        None
    } else if s[0] == c {
        Some(s.skip(1))
    } else {
        tail_after_first(s.skip(1), c)
    }
}

/// `s` without the run of `c` at its start.
pub open spec fn without_leading(s: Seq<char>, c: char) -> Seq<char>
    decreases s.len(),
{
    if s.len() > 0 && s[0] == c {
        without_leading(s.skip(1), c)
    } else {
        s
    }
}

/// `s` without the run of `c` at its end.
pub open spec fn without_trailing(s: Seq<char>, c: char) -> Seq<char>
    decreases s.len(),
{
    if s.len() > 0 && s.last() == c {
        without_trailing(s.drop_last(), c)
    } else {
        s
    }
}

/// Whether two strings hold the same text.
pub fn same(a: &str, b: &str) -> (r: bool)
    ensures
        r == (a@ == b@),
{
    a.to_owned() == b.to_owned()
}

/// Another copy of a list of strings.
pub fn copy(list: &Vec<String>) -> (r: Vec<String>)
    ensures
        texts(r@) == texts(list@),
{
    let mut r: Vec<String> = Vec::new();
    let mut i: usize = 0;
    while i < list.len()
        invariant
            i <= list@.len(),
            r@ == list@.take(i as int),
        decreases list.len() - i,
    {
        r.push(list[i].clone());
        assert(list@.take(i + 1) == list@.take(i as int).push(list@[i as int]));
        i = i + 1;
    }
    assert(list@.take(list@.len() as int) == list@);
    r
}

/// The characters of a string.
pub fn chars(s: &str) -> (r: Vec<char>)
    ensures
        r@ == s@,
{
    let mut r: Vec<char> = Vec::new();
    for c in it: s.chars()
        invariant
            it.seq() == s@,
            r@ == s@.take(it.index()),
    {
        proof {
            assert(s@.take(it.index() + 1) == s@.take(it.index()).push(c));
        }
        r.push(c);
    }
    assert(s@.take(s@.len() as int) == s@);
    r
}

/// Whether `s` begins with `prefix`.
pub fn starts_with(s: &str, prefix: &str) -> (r: bool)
    ensures
        r == prefix@.is_prefix_of(s@),
{
    strip_prefix(s, prefix).is_some()
}

/// What follows `prefix` in `s`, if `s` begins with it.
pub fn strip_prefix<'a>(s: &'a str, prefix: &str) -> (r: Option<&'a str>)
    ensures
        r is Some <==> prefix@.is_prefix_of(s@),
        r matches Some(rest) ==> rest@ == s@.skip(prefix@.len() as int),
{
    let n: usize = prefix.unicode_len();
    let m: usize = s.unicode_len();
    if n <= m && same(s.substring_char(0, n), prefix) {
        Some(s.substring_char(n, m))
    } else {
        None
    }
}

/// Whether `part` occurs somewhere in `s`.
pub fn contains(s: &str, part: &str) -> (r: bool)
    ensures
        r == has_part(s@, part@),
{
    let n: usize = part.unicode_len();
    let m: usize = s.unicode_len();
    if n > m {
        return false;
    }
    let last: usize = m - n;
    let mut i: usize = 0;
    while i < last
        invariant
            n == part@.len(),
            m == s@.len(),
            n <= m,
            i <= last,
            last == m - n,
            forall|j: int| 0 <= j < i ==> #[trigger] s@.subrange(j, j + part@.len()) != part@,
        decreases last - i,
    {
        if same(s.substring_char(i, i + n), part) {
            assert(s@.subrange(i as int, i + part@.len()) == part@);
            return true;
        }
        i = i + 1;
    }
    let found = same(s.substring_char(last, m), part);
    assert(s@.subrange(last as int, last + part@.len()) == s@.subrange(last as int, m as int));
    found
}

/// What follows the last `c` of `s`; the whole of `s` where there is none.
pub fn after_last<'a>(s: &'a str, c: char) -> (r: &'a str)
    ensures
        r@ == tail_after_last(s@, c),
{
    let text = chars(s);
    let n: usize = text.len();
    let mut i: usize = n;
    assert(s@.take(n as int) == s@);
    assert(s@.skip(n as int) == Seq::<char>::empty());
    assert(tail_after_last(s@, c) == tail_after_last(s@, c) + Seq::<char>::empty());
    while i > 0 && text[i - 1] != c
        invariant
            i <= n,
            n == text@.len(),
            text@ == s@,
            tail_after_last(s@, c) == tail_after_last(s@.take(i as int), c) + s@.skip(i as int),
        decreases i,
    {
        proof {
            let t = s@.take(i as int);
            assert(t.drop_last() == s@.take(i - 1));
            assert(t.last() == s@[i - 1]);
            let head = tail_after_last(t.drop_last(), c);
            assert(head.push(t.last()) + s@.skip(i as int) == head + s@.skip(i - 1));
        }
        i = i - 1;
    }
    assert(tail_after_last(s@.take(i as int), c) == Seq::<char>::empty());
    assert(Seq::<char>::empty() + s@.skip(i as int) == s@.skip(i as int));
    s.substring_char(i, n)
}

/// What follows the first `c` of `s`, if it holds one.
pub fn after_first<'a>(s: &'a str, c: char) -> (r: Option<&'a str>)
    ensures
        r is Some <==> tail_after_first(s@, c) is Some,
        r matches Some(rest) ==> tail_after_first(s@, c) == Some(rest@),
{
    let text = chars(s);
    let n: usize = text.len();
    let mut i: usize = 0;
    assert(s@.skip(0) == s@);
    while i < n
        invariant
            i <= n,
            n == text@.len(),
            text@ == s@,
            tail_after_first(s@, c) == tail_after_first(s@.skip(i as int), c),
        decreases n - i,
    {
        assert(s@.skip(i as int).skip(1) == s@.skip(i + 1));
        if text[i] == c {
            return Some(s.substring_char(i + 1, n));
        }
        i = i + 1;
    }
    None
}

/// `s` without the runs of `c` at its two ends.
pub fn trim_matches<'a>(s: &'a str, c: char) -> (r: &'a str)
    ensures
        r@ == without_trailing(without_leading(s@, c), c),
{
    let text = chars(s);
    let n: usize = text.len();
    let mut from: usize = 0;
    assert(s@.skip(0) == s@);
    while from < n && text[from] == c
        invariant
            from <= n,
            n == text@.len(),
            text@ == s@,
            without_leading(s@, c) == without_leading(s@.skip(from as int), c),
        decreases n - from,
    {
        assert(s@.skip(from as int).skip(1) == s@.skip(from + 1));
        from = from + 1;
    }
    assert(without_leading(s@.skip(from as int), c) == s@.skip(from as int));
    let mut to: usize = n;
    assert(s@.subrange(from as int, n as int) == s@.skip(from as int));
    while to > from && text[to - 1] == c
        invariant
            from <= to <= n,
            n == text@.len(),
            text@ == s@,
            without_trailing(s@.skip(from as int), c) == without_trailing(
                s@.subrange(from as int, to as int),
                c,
            ),
        decreases to,
    {
        proof {
            let t = s@.subrange(from as int, to as int);
            assert(t.drop_last() == s@.subrange(from as int, to - 1));
            assert(t.last() == s@[to - 1]);
        }
        to = to - 1;
    }
    s.substring_char(from, to)
}

/// The position of the first `c` of `s`, or the length of `s` where there is none.
pub open spec fn first_at(s: Seq<char>, c: char) -> nat
    decreases s.len(),
{
    if s.len() == 0 || s[0] == c {
        0
    } else {
        1 + first_at(s.skip(1), c)
    }
}

/// The position of the first `c` lies in the text or at its end.
pub proof fn lemma_first_at(s: Seq<char>, c: char)
    ensures
        first_at(s, c) <= s.len(),
        first_at(s, c) < s.len() ==> s[first_at(s, c) as int] == c,
        forall|i: int| 0 <= i < first_at(s, c) ==> s[i] != c,
    decreases s.len(),
{
    if s.len() > 0 && s[0] != c {
        lemma_first_at(s.skip(1), c);
        assert forall|i: int| 0 <= i < first_at(s, c) implies s[i] != c by {
            if i > 0 {
                assert(s.skip(1)[i - 1] == s[i]);
            }
        }
    }
}

/// A position with no `c` before it, and `c` or the end of the text at it, is that of the first `c`.
proof fn lemma_first_at_unique(s: Seq<char>, c: char, n: nat)
    requires
        n <= s.len(),
        n < s.len() ==> s[n as int] == c,
        forall|i: int| 0 <= i < n ==> s[i] != c,
    ensures
        first_at(s, c) == n,
{
    lemma_first_at(s, c);
}

/// A line that was ended by a line feed: a carriage return before the line feed is no part of it.
pub open spec fn without_carriage_return(line: Seq<char>) -> Seq<char> {
    if line.len() > 0 && line.last() == '\r' {
        line.drop_last()
    } else {
        line
    }
}

/// The lines of a text, without their line endings. A line ends with a line feed, or with a
/// carriage return and a line feed; the last line may lack its ending.
pub open spec fn lines_of(s: Seq<char>) -> Seq<Seq<char>>
    decreases s.len(),
{
    if s.len() == 0 {
        Seq::empty()
    } else if first_at(s, '\n') < s.len() {
        seq![without_carriage_return(s.take(first_at(s, '\n') as int))] + lines_of(
            s.skip(first_at(s, '\n') as int + 1),
        )
    } else {
        seq![s]
    }
}

/// The lines of a text, without their line endings.
pub fn lines(s: &str) -> (r: Vec<String>)
    ensures
        texts(r@) == lines_of(s@),
{
    let text = chars(s);
    let n: usize = text.len();
    let mut r: Vec<String> = Vec::new();
    let mut from: usize = 0;
    assert(s@.skip(0) == s@);
    assert(texts(r@) == Seq::<Seq<char>>::empty());
    while from < n
        invariant
            from <= n,
            n == text@.len(),
            text@ == s@,
            lines_of(s@) == texts(r@) + lines_of(s@.skip(from as int)),
        decreases n - from,
    {
        let ghost before = texts(r@);
        let ghost rest = s@.skip(from as int);
        let mut to: usize = from;
        while to < n && text[to] != '\n'
            invariant
                from <= to <= n,
                n == text@.len(),
                text@ == s@,
                rest == s@.skip(from as int),
                forall|i: int| from <= i < to ==> s@[i] != '\n',
            decreases n - to,
        {
            to = to + 1;
        }
        proof {
            lemma_first_at_unique(rest, '\n', (to - from) as nat);
            assert(rest.take(to - from) == s@.subrange(from as int, to as int));
        }
        if to == n {
            assert(rest == s@.subrange(from as int, n as int));
            r.push(s.substring_char(from, n).to_owned());
            assert(texts(r@) == before.push(rest));
            assert(before + seq![rest] == before.push(rest));
            return r;
        }
        let end: usize = if to > from && text[to - 1] == '\r' {
            to - 1
        } else {
            to
        };
        r.push(s.substring_char(from, end).to_owned());
        proof {
            let line = rest.take(to - from);
            assert(s@.subrange(from as int, end as int) == without_carriage_return(line));
            assert(texts(r@) == before.push(without_carriage_return(line)));
            assert(rest.skip(to - from + 1) == s@.skip(to + 1));
            let tail = lines_of(s@.skip(to + 1));
            assert(before + (seq![without_carriage_return(line)] + tail) == texts(r@) + tail);
        }
        from = to + 1;
    }
    assert(texts(r@) + lines_of(s@.skip(from as int)) == texts(r@));
    r
}

/// The characters that have the property `White_Space` of Unicode.
pub open spec fn is_space(c: char) -> bool {
    ||| '\u{9}' <= c <= '\u{d}'
    ||| c == ' '
    ||| c == '\u{85}'
    ||| c == '\u{a0}'
    ||| c == '\u{1680}'
    ||| '\u{2000}' <= c <= '\u{200a}'
    ||| c == '\u{2028}'
    ||| c == '\u{2029}'
    ||| c == '\u{202f}'
    ||| c == '\u{205f}'
    ||| c == '\u{3000}'
}

/// `char::is_whitespace`: whether the character has the property `White_Space` of Unicode.
pub assume_specification[ char::is_whitespace ](c: char) -> (r: bool)
    ensures
        r == is_space(c),
;

/// The number of characters of `s` before its first white space.
pub open spec fn word_len(s: Seq<char>) -> nat
    decreases s.len(),
{
    if s.len() == 0 || is_space(s[0]) {
        0
    } else {
        1 + word_len(s.skip(1))
    }
}

/// The words of a text: its longest runs of characters that are not white space.
pub open spec fn words_of(s: Seq<char>) -> Seq<Seq<char>>
    decreases s.len(),
{
    if s.len() == 0 {
        Seq::empty()
    } else if is_space(s[0]) {
        words_of(s.skip(1))
    } else {
        proof {
            lemma_word_len(s);
        }
        seq![s.take(word_len(s) as int)] + words_of(s.skip(word_len(s) as int))
    }
}

/// The first word ends at white space or at the end of the text.
pub proof fn lemma_word_len(s: Seq<char>)
    ensures
        word_len(s) <= s.len(),
        word_len(s) < s.len() ==> is_space(s[word_len(s) as int]),
        forall|i: int| 0 <= i < word_len(s) ==> !is_space(s[i]),
    decreases s.len(),
{
    if s.len() > 0 && !is_space(s[0]) {
        lemma_word_len(s.skip(1));
        assert forall|i: int| 0 <= i < word_len(s) implies !is_space(s[i]) by {
            if i > 0 {
                assert(s.skip(1)[i - 1] == s[i]);
            }
        }
    }
}

/// A position with no white space before it, and white space or the end of the text at it, is where
/// the first word ends.
pub proof fn lemma_word_len_unique(s: Seq<char>, n: nat)
    requires
        n <= s.len(),
        n < s.len() ==> is_space(s[n as int]),
        forall|i: int| 0 <= i < n ==> !is_space(s[i]),
    ensures
        word_len(s) == n,
{
    lemma_word_len(s);
}

/// The words of a text.
pub fn words(s: &str) -> (r: Vec<String>)
    ensures
        texts(r@) == words_of(s@),
{
    let text = chars(s);
    let n: usize = text.len();
    let mut r: Vec<String> = Vec::new();
    let mut from: usize = 0;
    assert(s@.skip(0) == s@);
    assert(texts(r@) == Seq::<Seq<char>>::empty());
    while from < n
        invariant
            from <= n,
            n == text@.len(),
            text@ == s@,
            words_of(s@) == texts(r@) + words_of(s@.skip(from as int)),
        decreases n - from,
    {
        let ghost before = texts(r@);
        let ghost rest = s@.skip(from as int);
        if text[from].is_whitespace() {
            assert(rest.skip(1) == s@.skip(from + 1));
            from = from + 1;
        } else {
            let mut to: usize = from;
            while to < n && !text[to].is_whitespace()
                invariant
                    from <= to <= n,
                    n == text@.len(),
                    text@ == s@,
                    rest == s@.skip(from as int),
                    forall|i: int| from <= i < to ==> !is_space(s@[i]),
                ensures
                    from <= to <= n,
                    forall|i: int| from <= i < to ==> !is_space(s@[i]),
                    to < n ==> is_space(s@[to as int]),
                decreases n - to,
            {
                to = to + 1;
            }
            r.push(s.substring_char(from, to).to_owned());
            proof {
                lemma_word_len_unique(rest, (to - from) as nat);
                assert(rest.take(to - from) == s@.subrange(from as int, to as int));
                assert(rest.skip(to - from) == s@.skip(to as int));
                assert(texts(r@) == before.push(rest.take(to - from)));
                let tail = words_of(s@.skip(to as int));
                assert(before + (seq![rest.take(to - from)] + tail) == texts(r@) + tail);
            }
            from = to;
        }
    }
    assert(texts(r@) + words_of(s@.skip(from as int)) == texts(r@));
    r
}

/// A text in which no character is white space.
pub open spec fn spaceless(s: Seq<char>) -> bool {
    forall|i: int| 0 <= i < s.len() ==> !is_space(#[trigger] s[i])
}

/// A text in which every character is white space.
pub open spec fn blank(s: Seq<char>) -> bool {
    forall|i: int| 0 <= i < s.len() ==> is_space(#[trigger] s[i])
}

/// White space at the start of a text changes none of its words.
pub proof fn lemma_words_after_blank(gap: Seq<char>, rest: Seq<char>)
    requires
        blank(gap),
    ensures
        words_of(gap + rest) == words_of(rest),
    decreases gap.len(),
{
    if gap.len() == 0 {
        assert(gap + rest == rest);
    } else {
        assert((gap + rest)[0] == gap[0]);
        assert((gap + rest).skip(1) == gap.skip(1) + rest);
        lemma_words_after_blank(gap.skip(1), rest);
    }
}

/// A text without white space is one word.
pub proof fn lemma_one_word(word: Seq<char>)
    requires
        word.len() > 0,
        spaceless(word),
    ensures
        words_of(word) == seq![word],
{
    lemma_word_len_unique(word, word.len());
    assert(word.take(word.len() as int) == word);
    assert(word.skip(word.len() as int) == Seq::<char>::empty());
    assert(words_of(word) == seq![word] + words_of(Seq::empty()));
}

/// Two words with white space between them are two words.
pub proof fn lemma_two_words(first: Seq<char>, gap: Seq<char>, second: Seq<char>)
    requires
        first.len() > 0,
        spaceless(first),
        gap.len() > 0,
        blank(gap),
        second.len() > 0,
        spaceless(second),
    ensures
        words_of(first + gap + second) == seq![first, second],
{
    let s = first + gap + second;
    assert forall|i: int| 0 <= i < first.len() implies !is_space(s[i]) by {
        assert(s[i] == first[i]);
    }
    assert(s[first.len() as int] == gap[0]);
    lemma_word_len_unique(s, first.len());
    assert(s.take(first.len() as int) == first);
    assert(s.skip(first.len() as int) == gap + second);
    lemma_words_after_blank(gap, second);
    lemma_one_word(second);
    assert(s[0] == first[0]);
    assert(seq![first] + seq![second] == seq![first, second]);
}

/// What follows the last `c` of a text does not change with what stands before a later `c`.
pub proof fn lemma_after_last_of_sum(head: Seq<char>, c: char, tail: Seq<char>)
    requires
        !tail.contains(c),
    ensures
        tail_after_last(tail, c) == tail,
        tail_after_last(head.push(c) + tail, c) == tail,
    decreases tail.len(),
{
    let s = head.push(c) + tail;
    if tail.len() == 0 {
        assert(s == head.push(c));
        assert(s.last() == c);
    } else {
        let rest = tail.drop_last();
        assert forall|i: int| 0 <= i < rest.len() implies rest[i] != c by {
            assert(tail.contains(tail[i]));
        }
        lemma_after_last_of_sum(head, c, rest);
        assert(tail.contains(tail.last()));
        assert(s.last() == tail.last());
        assert(s.drop_last() == head.push(c) + rest);
        assert(rest.push(tail.last()) == tail);
    }
}

/// What follows the first `c` is all that stands after it; a text without a `c` has no such part.
pub proof fn law_after_first(head: Seq<char>, c: char, tail: Seq<char>)
    requires
        !head.contains(c),
    ensures
        tail_after_first(head + seq![c] + tail, c) == Some(tail),
        tail_after_first(head, c) is None,
    decreases head.len(),
{
    let s = head + seq![c] + tail;
    if head.len() == 0 {
        assert(s[0] == c);
        assert(s.skip(1) == tail);
    } else {
        let rest = head.skip(1);
        assert(head.contains(head[0]));
        assert forall|i: int| 0 <= i < rest.len() implies rest[i] != c by {
            assert(head.contains(head[i + 1]));
        }
        assert(s[0] == head[0]);
        assert(s.skip(1) == rest + seq![c] + tail);
        law_after_first(rest, c, tail);
    }
}

/// A text has a part exactly where it is made of something, the part, and something more.
pub proof fn law_has_part(s: Seq<char>, part: Seq<char>)
    ensures
        has_part(s, part) <==> exists|head: Seq<char>, tail: Seq<char>|
            s == #[trigger] (head + part + tail),
{
    if has_part(s, part) {
        let i = choose|i: int|
            0 <= i <= s.len() - part.len() && #[trigger] s.subrange(i, i + part.len()) == part;
        assert(s == s.take(i) + part + s.skip(i + part.len()));
    }
    if exists|head: Seq<char>, tail: Seq<char>| s == #[trigger] (head + part + tail) {
        let (head, tail) = choose|head: Seq<char>, tail: Seq<char>|
            s == #[trigger] (head + part + tail);
        let i = head.len() as int;
        assert(s.subrange(i, i + part.len()) == part);
    }
}

proof fn lemma_without_leading_run(c: char, k: nat, rest: Seq<char>)
    ensures
        without_leading(Seq::new(k, |i: int| c) + rest, c) == without_leading(rest, c),
    decreases k,
{
    let s = Seq::new(k, |i: int| c) + rest;
    if k == 0 {
        assert(s == rest);
    } else {
        assert(s[0] == c);
        assert(s.skip(1) == Seq::new((k - 1) as nat, |i: int| c) + rest);
        lemma_without_leading_run(c, (k - 1) as nat, rest);
    }
}

proof fn lemma_without_trailing_run(c: char, k: nat, rest: Seq<char>)
    ensures
        without_trailing(rest + Seq::new(k, |i: int| c), c) == without_trailing(rest, c),
    decreases k,
{
    let s = rest + Seq::new(k, |i: int| c);
    if k == 0 {
        assert(s == rest);
    } else {
        assert(s.last() == c);
        assert(s.drop_last() == rest + Seq::new((k - 1) as nat, |i: int| c));
        lemma_without_trailing_run(c, (k - 1) as nat, rest);
    }
}

/// Trimming takes away the runs at the two ends, however long they are, and nothing between them.
pub proof fn law_trimmed(c: char, before: nat, core: Seq<char>, after: nat)
    requires
        core.len() > 0 ==> core[0] != c && core.last() != c,
    ensures
        without_trailing(
            without_leading(
                Seq::new(before, |i: int| c) + core + Seq::new(after, |i: int| c),
                c,
            ),
            c,
        ) == core,
{
    let tail = core + Seq::new(after, |i: int| c);
    let s = Seq::new(before, |i: int| c) + core + Seq::new(after, |i: int| c);
    assert(s == Seq::new(before, |i: int| c) + tail);
    lemma_without_leading_run(c, before, tail);
    if core.len() == 0 {
        assert(tail == Seq::new(after, |i: int| c) + Seq::<char>::empty());
        lemma_without_leading_run(c, after, Seq::empty());
        assert(core == Seq::<char>::empty());
    } else {
        assert(tail[0] == core[0]);
        lemma_without_trailing_run(c, after, core);
    }
}

/// A line ends at its line feed, with or without a carriage return before it, and the lines after it
/// are those of the rest; a last line without a line feed is a line, unless it is empty.
pub proof fn law_lines(line: Seq<char>, rest: Seq<char>)
    requires
        !line.contains('\n'),
    ensures
        line.len() == 0 || line.last() != '\r' ==> lines_of(line + seq!['\n'] + rest) == seq![line]
            + lines_of(rest),
        lines_of(line + seq!['\r', '\n'] + rest) == seq![line] + lines_of(rest),
        line.len() > 0 ==> lines_of(line) == seq![line],
        lines_of(Seq::empty()) == Seq::<Seq<char>>::empty(),
{
    assert forall|i: int| 0 <= i < line.len() implies line[i] != '\n' by {
        assert(line.contains(line[i]));
    }
    let plain = line + seq!['\n'] + rest;
    lemma_first_at_unique(plain, '\n', line.len());
    assert(plain.take(line.len() as int) == line);
    assert(plain.skip(line.len() as int + 1) == rest);
    let returned = line + seq!['\r', '\n'] + rest;
    lemma_first_at_unique(returned, '\n', line.len() + 1);
    assert(returned.take(line.len() as int + 1) == line.push('\r'));
    assert(line.push('\r').drop_last() == line);
    assert(returned.skip(line.len() as int + 2) == rest);
    lemma_first_at_unique(line, '\n', line.len());
}

/// A run without white space, between white space and the ends of the text, is one word; the words
/// after it are those of the rest, and white space alone has none.
pub proof fn law_words(gap: Seq<char>, word: Seq<char>, rest: Seq<char>)
    requires
        forall|i: int| 0 <= i < gap.len() ==> is_space(#[trigger] gap[i]),
        word.len() > 0,
        forall|i: int| 0 <= i < word.len() ==> !is_space(#[trigger] word[i]),
        rest.len() > 0 ==> is_space(rest[0]),
    ensures
        words_of(gap + word + rest) == seq![word] + words_of(rest),
        words_of(gap) == Seq::<Seq<char>>::empty(),
{
    let s = word + rest;
    assert(gap + word + rest == gap + s);
    lemma_words_after_blank(gap, s);
    lemma_words_after_blank(gap, Seq::empty());
    assert(gap + Seq::<char>::empty() == gap);
    assert forall|i: int| 0 <= i < word.len() implies !is_space(s[i]) by {
        assert(s[i] == word[i]);
    }
    if rest.len() > 0 {
        assert(s[word.len() as int] == rest[0]);
    }
    lemma_word_len_unique(s, word.len());
    assert(s[0] == word[0]);
    assert(s.take(word.len() as int) == word);
    assert(s.skip(word.len() as int) == rest);
}

/// Every word is a run of characters that are not white space.
pub proof fn law_word(s: Seq<char>, k: int)
    requires
        0 <= k < words_of(s).len(),
    ensures
        words_of(s)[k].len() > 0,
        forall|i: int| 0 <= i < words_of(s)[k].len() ==> !is_space(#[trigger] words_of(s)[k][i]),
    decreases s.len(),
{
    if is_space(s[0]) {
        law_word(s.skip(1), k);
    } else {
        lemma_word_len(s);
        let n = word_len(s) as int;
        if k > 0 {
            law_word(s.skip(n), k - 1);
            assert(words_of(s)[k] == words_of(s.skip(n))[k - 1]);
        } else {
            assert(words_of(s)[0] == s.take(n));
        }
    }
}

/// The texts of strings are those of each of them, in their order; an answer that is a failure stays that
/// failure.
pub proof fn law_texts<E>(
    list: Vec<String>,
    list_of_pairs: Seq<(String, String)>,
    i: int,
    s: String,
    err: E,
)
    ensures
        texts(list@).len() == list@.len(),
        0 <= i < list@.len() ==> texts(list@)[i] == list@[i]@,
        pairs(list_of_pairs).len() == list_of_pairs.len(),
        0 <= i < list_of_pairs.len() ==> pairs(list_of_pairs)[i] == (
            list_of_pairs[i].0@,
            list_of_pairs[i].1@,
        ),
        opt_text(Some(s)) == Some(s@),
        opt_text(None) is None,
        text_reply(Ok::<String, E>(s)) == Ok::<Seq<char>, E>(s@),
        text_reply(Err::<String, E>(err)) == Err::<Seq<char>, E>(err),
        list_reply(Ok::<Vec<String>, E>(list)) == Ok::<Seq<Seq<char>>, E>(texts(list@)),
        list_reply(Err::<Vec<String>, E>(err)) == Err::<Seq<Seq<char>>, E>(err),
{
}

} // verus!
