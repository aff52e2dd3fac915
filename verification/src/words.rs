//! Splitting text into words and lines, and joining words again.
use crate::text;
use crate::text::{chars_of, is_white_space, trim, CharClass};
use vstd::prelude::*;
use vstd::string::*;

verus! {

/// How many characters of `s` come before the first one in `stop`.
pub open spec fn span(s: Seq<char>, stop: spec_fn(char) -> bool) -> nat
    decreases s.len(),
{
    if s.len() == 0 || stop(s[0]) {
        0
    } else {
        1 + span(s.skip(1), stop)
    }
}

/// What `span` counts: characters outside `stop`, up to the first inside it.
pub proof fn span_is_first(s: Seq<char>, stop: spec_fn(char) -> bool)
    ensures
        span(s, stop) <= s.len(),
        forall|i: int| 0 <= i < span(s, stop) ==> !stop(#[trigger] s[i]),
        span(s, stop) < s.len() ==> stop(s[span(s, stop) as int]),
    decreases s.len(),
{
    if s.len() > 0 && !stop(s[0]) {
        span_is_first(s.skip(1), stop);
        assert forall|i: int| 0 <= i < span(s, stop) implies !stop(#[trigger] s[i]) by {
            if i > 0 {
                assert(s.skip(1)[i - 1] == s[i]);
            }
        }
    }
}

/// Where, from `start` on, the first character of `class` stands, or the end of `chars`.
pub fn find_from(chars: &Vec<char>, start: usize, class: CharClass) -> (r: usize)
    requires
        start <= chars@.len(),
    ensures
        r == start + span(chars@.skip(start as int), class.member()),
        start <= r <= chars@.len(),
{
    let mut i: usize = start;
    while i < chars.len() && !class.has(chars[i])
        invariant
            start <= i <= chars@.len(),
            span(chars@.skip(start as int), class.member()) == (i - start) + span(
                chars@.skip(i as int),
                class.member(),
            ),
        decreases chars@.len() - i,
    {
        assert(chars@.skip(i as int).skip(1) == chars@.skip(i + 1));
        i = i + 1;
    }
    i
}

// ---------------------------------------------------------------------------
// Words
// ---------------------------------------------------------------------------

/// The runs of characters in `s` that white space separates.
pub open spec fn words(s: Seq<char>) -> Seq<Seq<char>>
    decreases s.len(),
{
    if s.len() == 0 {
        seq![]
    } else if text::white_space(s[0]) {
        words(s.skip(1))
    } else {
        let n = span(s.skip(1), CharClass::WhiteSpace.member()) + 1;
        proof {
            span_is_first(s.skip(1), CharClass::WhiteSpace.member());
        }
        seq![s.take(n as int)] + words(s.skip(n as int))
    }
}

/// A word as splitting at white space gives it: not empty, and free of white space.
pub open spec fn is_word(w: Seq<char>) -> bool {
    &&& w.len() > 0
    &&& forall|i: int| 0 <= i < w.len() ==> !text::white_space(#[trigger] w[i])
}

/// Splits `line` at white space.
pub fn split_words(line: &str) -> (r: Vec<&str>)
    ensures
        text::str_texts(r@) == words(line@),
{
    let chars = chars_of(line);
    let n = chars.len();
    let mut out: Vec<&str> = Vec::new();
    let mut i: usize = 0;
    assert(line@.skip(0) == line@);
    while i < n
        invariant
            i <= n,
            n == chars@.len(),
            chars@ == line@,
            words(line@) == text::str_texts(out@) + words(line@.skip(i as int)),
        decreases n - i,
    {
        let ghost rest = line@.skip(i as int);
        if is_white_space(chars[i]) {
            assert(rest.skip(1) == line@.skip(i + 1));
            i = i + 1;
        } else {
            let end = find_from(&chars, i + 1, CharClass::WhiteSpace);
            let word = line.substring_char(i, end);
            proof {
                let k = end - i;
                assert(rest.skip(1) == line@.skip(i + 1));
                assert(rest.take(k) == word@);
                assert(rest.skip(k) == line@.skip(end as int));
                assert(words(rest) == seq![word@] + words(line@.skip(end as int)));
                assert(text::str_texts(out@.push(word)) =~= text::str_texts(out@) + seq![word@]);
                assert(words(line@) =~= text::str_texts(out@.push(word)) + words(line@.skip(end as int)));
            }
            out.push(word);
            i = end;
        }
    }
    assert(line@.skip(n as int).len() == 0);
    assert(words(line@) =~= text::str_texts(out@));
    out
}

/// Splitting at white space gives words.
pub proof fn words_are_words(s: Seq<char>)
    ensures
        forall|i: int| 0 <= i < words(s).len() ==> is_word(#[trigger] words(s)[i]),
    decreases s.len(),
{
    if s.len() > 0 {
        if text::white_space(s[0]) {
            words_are_words(s.skip(1));
            assert(words(s) == words(s.skip(1)));
        } else {
            let stop = CharClass::WhiteSpace.member();
            let n = span(s.skip(1), stop) + 1;
            span_is_first(s.skip(1), stop);
            let w = s.take(n as int);
            assert forall|i: int| 0 <= i < w.len() implies !text::white_space(#[trigger] w[i]) by {
                if i > 0 {
                    assert(!stop(s.skip(1)[i - 1]));
                }
            }
            words_are_words(s.skip(n as int));
            assert(is_word(w));
            assert forall|i: int| 0 <= i < words(s).len() implies is_word(
                #[trigger] words(s)[i],
            ) by {
                if i > 0 {
                    assert(words(s)[i] == words(s.skip(n as int))[i - 1]);
                }
            }
        }
    }
}

/// The words of a list, with one space between neighbours.
pub open spec fn spaced(ws: Seq<Seq<char>>) -> Seq<char>
    decreases ws.len(),
{
    if ws.len() == 0 {
        seq![]
    } else if ws.len() == 1 {
        ws[0]
    } else {
        ws[0] + seq![' '] + spaced(ws.skip(1))
    }
}

/// Where a word ends that a space, or nothing, follows.
proof fn span_of_word(w: Seq<char>, rest: Seq<char>)
    requires
        forall|i: int| 0 <= i < w.len() ==> !text::white_space(#[trigger] w[i]),
        rest.len() > 0 ==> text::white_space(rest[0]),
    ensures
        span(w + rest, CharClass::WhiteSpace.member()) == w.len(),
    decreases w.len(),
{
    let stop = CharClass::WhiteSpace.member();
    if w.len() == 0 {
        assert(w + rest =~= rest);
    } else {
        assert((w + rest).skip(1) =~= w.skip(1) + rest);
        assert(!stop(w[0]));
        assert forall|i: int| 0 <= i < w.skip(1).len() implies !text::white_space(
            #[trigger] w.skip(1)[i],
        ) by {
            assert(w.skip(1)[i] == w[i + 1]);
        }
        span_of_word(w.skip(1), rest);
    }
}

/// Joining words with spaces and splitting again gives the same words.
pub proof fn words_of_spaced(ws: Seq<Seq<char>>)
    requires
        forall|i: int| 0 <= i < ws.len() ==> is_word(#[trigger] ws[i]),
    ensures
        words(spaced(ws)) == ws,
    decreases ws.len(),
{
    if ws.len() > 0 {
        let w = ws[0];
        assert(is_word(w));
        let tail = if ws.len() == 1 {
            Seq::<char>::empty()
        } else {
            seq![' '] + spaced(ws.skip(1))
        };
        let s = spaced(ws);
        assert(s =~= w + tail);
        assert(s.skip(1) =~= w.skip(1) + tail);
        assert forall|i: int| 0 <= i < w.skip(1).len() implies !text::white_space(
            #[trigger] w.skip(1)[i],
        ) by {
            assert(w.skip(1)[i] == w[i + 1]);
        }
        span_of_word(w.skip(1), tail);
        let n = w.len() as int;
        assert(s.take(n) =~= w);
        assert(s.skip(n) =~= tail);
        assert(!text::white_space(s[0]));
        assert(words(s) == seq![w] + words(tail));
        assert forall|i: int| 0 <= i < ws.skip(1).len() implies is_word(
            #[trigger] ws.skip(1)[i],
        ) by {
            assert(ws.skip(1)[i] == ws[i + 1]);
        }
        words_of_spaced(ws.skip(1));
        if ws.len() == 1 {
            assert(words(tail) =~= ws.skip(1));
        } else {
            assert(tail[0] == ' ');
            assert(tail.skip(1) =~= spaced(ws.skip(1)));
            assert(words(tail) == ws.skip(1));
        }
        assert(seq![w] + ws.skip(1) =~= ws);
    }
}

/// Joins `parts` with one space between neighbours.
pub fn join_spaced(parts: &Vec<&str>) -> (r: String)
    ensures
        r@ == spaced(text::str_texts(parts@)),
{
    let ghost ws = text::str_texts(parts@);
    let n = parts.len();
    let mut out = String::new();
    let mut i: usize = n;
    // `out` is the end of the line: the words from `i` on.
    assert(ws.skip(n as int) =~= seq![]);
    while i > 0
        invariant
            i <= n,
            n == parts@.len(),
            ws == text::str_texts(parts@),
            out@ == spaced(ws.skip(i as int)),
        decreases i,
    {
        let mut line = parts[i - 1].to_string();
        proof {
            let rest = ws.skip(i - 1);
            assert(rest[0] == parts@[i - 1]@);
            assert(rest.skip(1) =~= ws.skip(i as int));
        }
        if i < n {
            line.append(" ");
            line.append(out.as_str());
        }
        proof {
            reveal_strlit(" ");
            assert(" "@ =~= seq![' ']);
            if i < n {
                assert(line@ =~= ws[i - 1] + seq![' '] + out@);
            }
        }
        out = line;
        i = i - 1;
    }
    assert(ws.skip(0) =~= ws);
    out
}

// ---------------------------------------------------------------------------
// Lines
// ---------------------------------------------------------------------------

/// The lines of `s`, trimmed, without those that are blank.
pub open spec fn trimmed_lines(s: Seq<char>) -> Seq<Seq<char>>
    decreases s.len(),
{
    proof {
        span_is_first(s, CharClass::Newline.member());
    }
    let n = span(s, CharClass::Newline.member()) as int;
    let line = text::trimmed(s.take(n));
    let rest = if n < s.len() {
        trimmed_lines(s.skip(n + 1))
    } else {
        seq![]
    };
    if line.len() == 0 {
        rest
    } else {
        seq![line] + rest
    }
}

/// Splits `s` into lines, trims each and leaves out those that are blank.
pub fn split_trimmed_lines(s: &str) -> (r: Vec<&str>)
    ensures
        text::str_texts(r@) == trimmed_lines(s@),
{
    let chars = chars_of(s);
    let n = chars.len();
    let mut out: Vec<&str> = Vec::new();
    let mut i: usize = 0;
    assert(s@.skip(0) == s@);
    assert(text::str_texts(out@) + trimmed_lines(s@) =~= trimmed_lines(s@));
    loop
        invariant
            i <= n,
            n == chars@.len(),
            chars@ == s@,
            trimmed_lines(s@) == text::str_texts(out@) + trimmed_lines(s@.skip(i as int)),
        decreases n - i,
    {
        let ghost rest = s@.skip(i as int);
        let ghost before = text::str_texts(out@);
        let end = find_from(&chars, i, CharClass::Newline);
        let line = trim(s.substring_char(i, end));
        assert(rest.take(end - i) =~= s@.subrange(i as int, end as int));
        if !line.is_empty() {
            out.push(line);
            assert(text::str_texts(out@) =~= before + seq![line@]);
        }
        if end == n {
            assert(trimmed_lines(s@) =~= text::str_texts(out@));
            return out;
        }
        assert(rest.skip(end - i + 1) =~= s@.skip(end + 1));
        assert(trimmed_lines(s@) =~= text::str_texts(out@) + trimmed_lines(s@.skip(end + 1)));
        i = end + 1;
    }
}

/// `s` cut at its first space, when it has one.
pub open spec fn cut_at_space(s: Seq<char>) -> Option<(Seq<char>, Seq<char>)> {
    let n = span(s, CharClass::Space.member()) as int;
    if n < s.len() {
        Some((s.take(n), s.skip(n + 1)))
    } else {
        None
    }
}

/// Cuts `s` at its first space.
pub fn split_once_space(s: &str) -> (r: Option<(&str, &str)>)
    ensures
        match r {
            Some((a, b)) => cut_at_space(s@) == Some((a@, b@)),
            None => cut_at_space(s@) is None,
        },
{
    let chars = chars_of(s);
    let n = chars.len();
    assert(s@.skip(0) == s@);
    let end = find_from(&chars, 0, CharClass::Space);
    if end < n {
        assert(s@.take(end as int) =~= s@.subrange(0, end as int));
        assert(s@.skip(end + 1) =~= s@.subrange(end + 1, n as int));
        Some((s.substring_char(0, end), s.substring_char(end + 1, n)))
    } else {
        None
    }
}

// ---------------------------------------------------------------------------
// Laws
// ---------------------------------------------------------------------------

/// Characters outside `stop` are counted up to one inside it.
proof fn span_counts(a: Seq<char>, rest: Seq<char>, stop: spec_fn(char) -> bool)
    requires
        forall|i: int| 0 <= i < a.len() ==> !stop(#[trigger] a[i]),
        rest.len() > 0 ==> stop(rest[0]),
    ensures
        span(a + rest, stop) == a.len(),
    decreases a.len(),
{
    if a.len() == 0 {
        assert(a + rest =~= rest);
    } else {
        assert((a + rest).skip(1) =~= a.skip(1) + rest);
        assert forall|i: int| 0 <= i < a.skip(1).len() implies !stop(#[trigger] a.skip(1)[i]) by {
            assert(a.skip(1)[i] == a[i + 1]);
        }
        span_counts(a.skip(1), rest, stop);
    }
}

/// White space in front of a text adds no word, a word in front of white space or of the end is one
/// word, and nothing has no words.
pub proof fn words_are_cut_at_white_space(c: char, word: Seq<char>, rest: Seq<char>)
    ensures
        words(seq![]) == Seq::<Seq<char>>::empty(),
        text::white_space(c) ==> words(seq![c] + rest) == words(rest),
        (word.len() > 0 && (forall|i: int|
            0 <= i < word.len() ==> !text::white_space(#[trigger] word[i])) && (rest.len() == 0
            || text::white_space(rest[0]))) ==> words(word + rest) == seq![word] + words(rest),
{
    assert((seq![c] + rest).skip(1) =~= rest);
    if word.len() > 0 && (forall|i: int|
        0 <= i < word.len() ==> !text::white_space(#[trigger] word[i])) && (rest.len() == 0
        || text::white_space(rest[0])) {
        let s = word + rest;
        assert(s[0] == word[0]);
        assert(s.skip(1) =~= word.skip(1) + rest);
        assert forall|i: int| 0 <= i < word.skip(1).len() implies !text::white_space(
            #[trigger] word.skip(1)[i],
        ) by {
            assert(word.skip(1)[i] == word[i + 1]);
        }
        span_of_word(word.skip(1), rest);
        assert(s.take(word.len() as int) =~= word);
        assert(s.skip(word.len() as int) =~= rest);
    }
}

/// One space stands between words that are joined, and nothing else.
pub proof fn one_space_joins_words(ws: Seq<Seq<char>>, word: Seq<char>)
    ensures
        spaced(seq![]) == Seq::<char>::empty(),
        spaced(seq![word]) == word,
        ws.len() > 0 ==> spaced(seq![word] + ws) == word + seq![' '] + spaced(ws),
        ws.len() > 0 ==> spaced(ws.push(word)) == spaced(ws) + seq![' '] + word,
    decreases ws.len(),
{
    assert((seq![word] + ws).skip(1) =~= ws);
    if ws.len() > 0 {
        assert(ws.push(word).skip(1) =~= ws.skip(1).push(word));
        if ws.len() == 1 {
            assert(ws.skip(1).push(word) =~= seq![word]);
            assert(spaced(seq![word]) == word);
            assert(ws.push(word)[0] == ws[0]);
            assert(spaced(ws.push(word)) =~= spaced(ws) + seq![' '] + word);
        } else {
            one_space_joins_words(ws.skip(1), word);
            assert(ws.push(word)[0] == ws[0]);
            assert(spaced(ws.push(word)) == ws[0] + seq![' '] + spaced(ws.skip(1).push(word)));
            assert(spaced(ws.push(word)) =~= spaced(ws) + seq![' '] + word);
        }
    }
}

/// A line is trimmed, and left out when nothing is left of it; what follows its end is read as the
/// lines behind it.
pub proof fn lines_are_read_one_by_one(line: Seq<char>, rest: Seq<char>)
    requires
        forall|i: int| 0 <= i < line.len() ==> #[trigger] line[i] != '\n',
    ensures
        text::trimmed(line).len() > 0 ==> trimmed_lines(line) == seq![text::trimmed(line)]
            && trimmed_lines(line + seq!['\n'] + rest) == seq![text::trimmed(line)]
            + trimmed_lines(rest),
        text::trimmed(line).len() == 0 ==> trimmed_lines(line) == Seq::<Seq<char>>::empty()
            && trimmed_lines(line + seq!['\n'] + rest) == trimmed_lines(rest),
{
    let stop = CharClass::Newline.member();
    assert forall|i: int| 0 <= i < line.len() implies !stop(#[trigger] line[i]) by {
        assert(line[i] != '\n');
    }
    span_counts(line, seq![], stop);
    assert(line + Seq::<char>::empty() =~= line);
    assert(line.take(line.len() as int) =~= line);
    let tail = seq!['\n'] + rest;
    let s = line + seq!['\n'] + rest;
    assert(s =~= line + tail);
    assert(stop(tail[0]));
    span_counts(line, tail, stop);
    assert(s.take(line.len() as int) =~= line);
    assert(s.skip((line.len() + 1) as int) =~= rest);
    assert(seq![text::trimmed(line)] + Seq::<Seq<char>>::empty() =~= seq![text::trimmed(line)]);
}

/// A text is cut at its first space, which is lost; without one it is not cut.
pub proof fn first_space_cuts(a: Seq<char>, b: Seq<char>)
    requires
        forall|i: int| 0 <= i < a.len() ==> #[trigger] a[i] != ' ',
    ensures
        cut_at_space(a + seq![' '] + b) == Some((a, b)),
        cut_at_space(a) is None,
{
    let stop = CharClass::Space.member();
    assert forall|i: int| 0 <= i < a.len() implies !stop(#[trigger] a[i]) by {
        assert(a[i] != ' ');
    }
    let tail = seq![' '] + b;
    let s = a + seq![' '] + b;
    assert(s =~= a + tail);
    assert(stop(tail[0]));
    span_counts(a, tail, stop);
    assert(s.take(a.len() as int) =~= a);
    assert(s.skip((a.len() + 1) as int) =~= b);
    span_counts(a, seq![], stop);
    assert(a + Seq::<char>::empty() =~= a);
}

} // verus!
