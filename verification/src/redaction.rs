//! Keeping secrets out of what a login prints.
use crate::text;
use crate::text::{chars_of, starts_with, trim_url_punctuation};
use crate::words;
use crate::words::{join_spaced, split_words};
use vstd::prelude::*;

verus! {

/// `word` is a web address.
pub open spec fn is_url(word: Seq<char>) -> bool {
    text::begins_with(word, "http://"@) || text::begins_with(word, "https://"@)
}

/// A character that tokens are made of.
pub open spec fn token_char(c: char) -> bool {
    ||| '0' <= c <= '9'
    ||| 'A' <= c <= 'Z'
    ||| 'a' <= c <= 'z'
    ||| c == '-'
    ||| c == '_'
    ||| c == '.'
    ||| c == '='
}

/// `word` is long enough to be a token and made of the characters of one.
pub open spec fn looks_secret(word: Seq<char>) -> bool {
    &&& word.len() >= 24
    &&& forall|i: int| 0 <= i < word.len() ==> token_char(#[trigger] word[i])
}

/// `word` as it may be shown.
pub open spec fn shown_word(word: Seq<char>) -> Seq<char> {
    if !is_url(word) && looks_secret(word) {
        "[redacted]"@
    } else {
        word
    }
}

/// Each of `ws` as it may be shown.
pub open spec fn shown_words(ws: Seq<Seq<char>>) -> Seq<Seq<char>> {
    Seq::new(ws.len(), |i: int| shown_word(ws[i]))
}

/// `line` as it may be shown: its words, each as it may be shown, with single spaces between.
pub open spec fn redacted(line: Seq<char>) -> Seq<char> {
    words::spaced(shown_words(words::words(line)))
}

/// Tells whether `word` is a web address.
fn is_url_word(word: &str) -> (r: bool)
    ensures
        r == is_url(word@),
{
    starts_with(word, "http://") || starts_with(word, "https://")
}

/// Tells whether `word` may be a token.
fn may_be_secret(word: &str) -> (r: bool)
    ensures
        r == looks_secret(word@),
{
    let chars = chars_of(word);
    if chars.len() < 24 {
        return false;
    }
    let mut i: usize = 0;
    while i < chars.len()
        invariant
            i <= chars@.len(),
            chars@ == word@,
            forall|j: int| 0 <= j < i ==> token_char(#[trigger] word@[j]),
        decreases chars@.len() - i,
    {
        let c = chars[i];
        let fits = ('0' <= c && c <= '9') || ('A' <= c && c <= 'Z') || ('a' <= c && c <= 'z') || c
            == '-' || c == '_' || c == '.' || c == '=';
        if !fits {
            assert(!token_char(word@[i as int]));
            return false;
        }
        i = i + 1;
    }
    true
}

/// `line` as it may be shown: words that look like tokens are blanked, web addresses are kept.
pub fn redact_oauth_output(line: &str) -> (r: String)
    ensures
        r@ == redacted(line@),
{
    let parts = split_words(line);
    let mut shown: Vec<&str> = Vec::new();
    let ghost ws = words::words(line@);
    let mut i: usize = 0;
    while i < parts.len()
        invariant
            i <= parts@.len(),
            ws == words::words(line@),
            ws == text::str_texts(parts@),
            text::str_texts(shown@) =~= shown_words(ws).take(i as int),
        decreases parts@.len() - i,
    {
        let word = parts[i];
        let ghost before = text::str_texts(shown@);
        assert(ws[i as int] == word@);
        let kept = if !is_url_word(word) && may_be_secret(word) {
            "[redacted]"
        } else {
            word
        };
        shown.push(kept);
        assert(text::str_texts(shown@) =~= before.push(kept@));
        i = i + 1;
    }
    assert(text::str_texts(shown@) =~= shown_words(ws));
    join_spaced(&shown)
}

/// A word as it may be shown is a word.
proof fn shown_word_is_word(word: Seq<char>)
    requires
        words::is_word(word),
    ensures
        words::is_word(shown_word(word)),
        is_url(shown_word(word)) || !looks_secret(shown_word(word)),
        shown_word(shown_word(word)) == shown_word(word),
{
    reveal_strlit("[redacted]");
}

/// No word of a redacted line looks like a token, but for web addresses.
pub proof fn redacted_line_shows_no_secret(line: Seq<char>)
    ensures
        words::words(redacted(line)) == shown_words(words::words(line)),
        forall|i: int|
            0 <= i < words::words(redacted(line)).len() ==> is_url(
                #[trigger] words::words(redacted(line))[i],
            ) || !looks_secret(words::words(redacted(line))[i]),
{
    let ws = words::words(line);
    words::words_are_words(line);
    assert forall|i: int| 0 <= i < ws.len() implies {
        &&& words::is_word(#[trigger] shown_words(ws)[i])
        &&& is_url(shown_words(ws)[i]) || !looks_secret(shown_words(ws)[i])
    } by {
        assert(words::is_word(ws[i]));
        shown_word_is_word(ws[i]);
    }
    words::words_of_spaced(shown_words(ws));
}

/// Redacting a line again does not change it.
pub proof fn redacting_again_changes_nothing(line: Seq<char>)
    ensures
        redacted(redacted(line)) == redacted(line),
{
    redacted_line_shows_no_secret(line);
    words::words_are_words(line);
    let ws = words::words(line);
    assert forall|i: int| 0 <= i < ws.len() implies shown_word(#[trigger] shown_words(ws)[i])
        == shown_words(ws)[i] by {
        assert(words::is_word(ws[i]));
        shown_word_is_word(ws[i]);
    }
    assert(shown_words(shown_words(ws)) =~= shown_words(ws));
}

// ---------------------------------------------------------------------------
// Web addresses
// ---------------------------------------------------------------------------

/// The first of `ws` that is a web address, without the punctuation around it.
pub open spec fn first_url(ws: Seq<Seq<char>>) -> Option<Seq<char>>
    decreases ws.len(),
{
    if ws.len() == 0 {
        None
    } else if is_url(ws[0]) {
        Some(text::strip(ws[0], text::CharClass::UrlPunctuation.member()))
    } else {
        first_url(ws.skip(1))
    }
}

/// The first web address in `line`, without the punctuation around it.
pub fn extract_url(line: &str) -> (r: Option<String>)
    ensures
        text::opt_text(r) == first_url(words::words(line@)),
{
    let parts = split_words(line);
    let ghost ws = words::words(line@);
    let mut i: usize = 0;
    assert(ws.skip(0) =~= ws);
    while i < parts.len()
        invariant
            i <= parts@.len(),
            ws == words::words(line@),
            ws == text::str_texts(parts@),
            first_url(ws) == first_url(ws.skip(i as int)),
        decreases parts@.len() - i,
    {
        assert(ws.skip(i as int)[0] == parts@[i as int]@);
        assert(ws.skip(i as int).skip(1) =~= ws.skip(i + 1));
        if is_url_word(parts[i]) {
            return Some(trim_url_punctuation(parts[i]).to_string());
        }
        i = i + 1;
    }
    None
}

// ---------------------------------------------------------------------------
// Word by word
// ---------------------------------------------------------------------------

/// A redacted line has the words of the line with single spaces between them, each as it was but
/// for those of 24 or more letters, digits, hyphens, underscores, dots and equals signs that are no
/// web addresses.
pub proof fn line_is_redacted_word_by_word(line: Seq<char>, i: int)
    requires
        0 <= i < words::words(line).len(),
    ensures
        ({
            let word = words::words(line)[i];
            let shown = words::words(redacted(line))[i];
            let is_address = word.len() >= 7 && word.take(7) == "http://"@ || word.len() >= 8
                && word.take(8) == "https://"@;
            let is_token = word.len() >= 24 && forall|k: int|
                0 <= k < word.len() ==> ('0' <= #[trigger] word[k] <= '9' || 'A' <= word[k] <= 'Z'
                    || 'a' <= word[k] <= 'z' || word[k] == '-'
                    || word[k] == '_' || word[k] == '.' || word[k] == '=');
            &&& words::words(redacted(line)).len() == words::words(line).len()
            &&& redacted(line) == words::spaced(words::words(redacted(line)))
            &&& is_address || !is_token ==> shown == word
            &&& !is_address && is_token ==> shown == "[redacted]"@
        }),
{
    redacted_line_shows_no_secret(line);
    let word = words::words(line)[i];
    reveal_strlit("http://");
    reveal_strlit("https://");
    assert(shown_words(words::words(line))[i] == shown_word(word));
    if word.len() >= 7 {
        assert(word.take(7) =~= word.subrange(0, 7));
    }
    if word.len() >= 8 {
        assert(word.take(8) =~= word.subrange(0, 8));
    }
    assert(looks_secret(word) <==> (word.len() >= 24 && forall|k: int|
        0 <= k < word.len() ==> ('0' <= #[trigger] word[k] <= '9' || 'A' <= word[k] <= 'Z'
                    || 'a' <= word[k] <= 'z' || word[k] == '-' || word[k] == '_' || word[k]
            == '.' || word[k] == '='))) by {
        if looks_secret(word) {
            assert forall|k: int| 0 <= k < word.len() implies ('0' <= #[trigger] word[k] <= '9' || 'A' <= word[k] <= 'Z'
                    || 'a' <= word[k] <= 'z' || word[k]
                == '-' || word[k] == '_' || word[k] == '.' || word[k] == '=') by {
                assert(token_char(word[k]));
            }
        }
    }
}

/// The first word that begins as a web address is the address of a line, without the punctuation at
/// its end; a line without such a word has none.
pub proof fn first_address_is_found(ws: Seq<Seq<char>>, at: int, url: Seq<char>, behind: Seq<char>)
    requires
        0 <= at <= ws.len(),
        forall|i: int|
            0 <= i < at ==> !(((#[trigger] ws[i]).len() >= 7 && ws[i].take(7) == "http://"@) || (
            ws[i].len() >= 8 && ws[i].take(8) == "https://"@)),
    ensures
        at == ws.len() ==> first_url(ws) is None,
        (at < ws.len() && ws[at] == url + behind && (url.len() >= 7 && url.take(7) == "http://"@
            || url.len() >= 8 && url.take(8) == "https://"@) && !seq![
            ',',
            ';',
            ')',
            ']',
            '"',
            '\'',
        ].contains(url.last()) && (forall|i: int|
            0 <= i < behind.len() ==> seq![',', ';', ')', ']', '"', '\''].contains(
                #[trigger] behind[i],
            ))) ==> first_url(ws) == Some(url),
    decreases ws.len(),
{
    reveal_strlit("http://");
    reveal_strlit("https://");
    if at > 0 {
        let rest = ws.skip(1);
        assert forall|i: int| 0 <= i < at - 1 implies !(((#[trigger] rest[i]).len() >= 7
            && rest[i].take(7) == "http://"@) || (rest[i].len() >= 8 && rest[i].take(8)
            == "https://"@)) by {
            assert(rest[i] == ws[i + 1]);
        }
        let w = ws[0];
        if w.len() >= 7 {
            assert(w.take(7) =~= w.subrange(0, 7));
        }
        if w.len() >= 8 {
            assert(w.take(8) =~= w.subrange(0, 8));
        }
        assert(!is_url(w));
        first_address_is_found(rest, at - 1, url, behind);
        if at < ws.len() {
            assert(rest[at - 1] == ws[at]);
        }
    } else if ws.len() > 0 && ws[0] == url + behind && (url.len() >= 7 && url.take(7) == "http://"@
        || url.len() >= 8 && url.take(8) == "https://"@) && !seq![
        ',',
        ';',
        ')',
        ']',
        '"',
        '\'',
    ].contains(url.last()) && (forall|i: int|
        0 <= i < behind.len() ==> seq![',', ';', ')', ']', '"', '\''].contains(
            #[trigger] behind[i],
        )) {
        let w = ws[0];
        let drop = text::CharClass::UrlPunctuation.member();
        if url.len() >= 7 && url.take(7) == "http://"@ {
            assert(w.subrange(0, 7) =~= url.take(7));
            assert(url[0] == url.take(7)[0]);
        } else {
            assert(w.subrange(0, 8) =~= url.take(8));
            assert(url[0] == url.take(8)[0]);
        }
        assert(is_url(w));
        assert(url[0] == 'h');
        text::url_punctuation_has_six_characters(url.last());
        assert forall|i: int| 0 <= i < behind.len() implies drop(#[trigger] behind[i]) by {
            text::url_punctuation_has_six_characters(behind[i]);
        }
        text::stripping_leaves_the_core(seq![], url, behind, drop);
        assert(Seq::<char>::empty() + url + behind =~= w);
    }
}

/// A line without words shows nothing.
pub proof fn blank_line_shows_nothing(line: Seq<char>)
    ensures
        words::words(line).len() == 0 ==> redacted(line) == Seq::<char>::empty(),
{
}

} // verus!
