//! Text operations over the Unicode scalar values of a string.
use vstd::prelude::*;
use vstd::string::*;

verus! {

/// The characters with the Unicode property `White_Space`.
pub open spec fn white_space(c: char) -> bool {
    ||| '\u{9}' <= c <= '\u{d}'
    ||| c == '\u{20}'
    ||| c == '\u{85}'
    ||| c == '\u{a0}'
    ||| c == '\u{1680}'
    ||| '\u{2000}' <= c <= '\u{200a}'
    ||| c == '\u{2028}'
    ||| c == '\u{2029}'
    ||| c == '\u{202f}'
    ||| c == '\u{205f}'
    ||| c == '\u{3000}'
}

/// The punctuation that may cling to a URL printed inside a sentence.
pub open spec fn url_punctuation(c: char) -> bool {
    c == ',' || c == ';' || c == ')' || c == ']' || c == '"' || c == '\''
}

/// A set of characters that text is searched for.
#[derive(Clone, Copy)]
pub enum CharClass {
    WhiteSpace,
    UrlPunctuation,
    Newline,
    Space,
    Colon,
}

impl CharClass {
    /// Membership in the class.
    pub open spec fn member(self) -> spec_fn(char) -> bool {
        match self {
            CharClass::WhiteSpace => |c: char| white_space(c),
            CharClass::UrlPunctuation => |c: char| url_punctuation(c),
            CharClass::Newline => |c: char| c == '\n',
            CharClass::Space => |c: char| c == ' ',
            CharClass::Colon => |c: char| c == ':',
        }
    }

    /// Tells whether `c` belongs to the class.
    pub fn has(self, c: char) -> (r: bool)
        ensures
            r == (self.member())(c),
    {
        match self {
            CharClass::WhiteSpace => is_white_space(c),
            CharClass::UrlPunctuation => {
                c == ',' || c == ';' || c == ')' || c == ']' || c == '"' || c == '\''
            },
            CharClass::Newline => c == '\n',
            CharClass::Space => c == ' ',
            CharClass::Colon => c == ':',
        }
    }
}

/// Tells whether `c` is white space.
pub fn is_white_space(c: char) -> (r: bool)
    ensures
        r == white_space(c),
{
    ('\u{9}' <= c && c <= '\u{d}') || c == '\u{20}' || c == '\u{85}' || c == '\u{a0}' || c
        == '\u{1680}' || ('\u{2000}' <= c && c <= '\u{200a}') || c == '\u{2028}' || c == '\u{2029}'
        || c == '\u{202f}' || c == '\u{205f}' || c == '\u{3000}'
}

/// The characters of `s`, in order.
pub fn chars_of(s: &str) -> (r: Vec<char>)
    ensures
        r@ == s@,
{
    let mut out: Vec<char> = Vec::new();
    for c in it: s.chars()
        invariant
            out@ == it.seq().take(it.index()),
            it.seq() == s@,
    {
        out.push(c);
    }
    out
}

/// Tells whether two strings hold the same characters.
pub fn same_text(a: &str, b: &str) -> (r: bool)
    ensures
        r == (a@ == b@),
{
    a.to_string() == b.to_string()
}

// ---------------------------------------------------------------------------
// Views of optional and repeated text
// ---------------------------------------------------------------------------

/// The text that an optional string holds.
pub open spec fn opt_text(o: Option<String>) -> Option<Seq<char>> {
    match o {
        Some(s) => Some(s@),
        None => None,
    }
}

/// The text that an optional string slice holds.
pub open spec fn opt_str(o: Option<&str>) -> Option<Seq<char>> {
    match o {
        Some(s) => Some(s@),
        None => None,
    }
}

/// The texts of a list of strings.
pub open spec fn texts(v: Seq<String>) -> Seq<Seq<char>> {
    Seq::new(v.len(), |i: int| v[i]@)
}

/// The texts of a list of string slices.
pub open spec fn str_texts(v: Seq<&str>) -> Seq<Seq<char>> {
    Seq::new(v.len(), |i: int| v[i]@)
}

/// Tells whether `item` is among `items`.
pub fn is_among(items: &Vec<String>, item: &str) -> (r: bool)
    ensures
        r == texts(items@).contains(item@),
{
    let mut i: usize = 0;
    while i < items.len()
        invariant
            i <= items@.len(),
            forall|j: int| 0 <= j < i ==> texts(items@)[j] != item@,
        decreases items@.len() - i,
    {
        if same_text(items[i].as_str(), item) {
            assert(texts(items@)[i as int] == item@);
            return true;
        }
        i = i + 1;
    }
    false
}

// ---------------------------------------------------------------------------
// Trimming
// ---------------------------------------------------------------------------

/// `s` without its leading characters in `drop`.
pub open spec fn strip_start(s: Seq<char>, drop: spec_fn(char) -> bool) -> Seq<char>
    decreases s.len(),
{
    if s.len() > 0 && drop(s[0]) {
        strip_start(s.skip(1), drop)
    } else {
        s
    }
}

/// `s` without its trailing characters in `drop`.
pub open spec fn strip_end(s: Seq<char>, drop: spec_fn(char) -> bool) -> Seq<char>
    decreases s.len(),
{
    if s.len() > 0 && drop(s.last()) {
        strip_end(s.drop_last(), drop)
    } else {
        s
    }
}

/// `s` without the characters in `drop` at either end.
pub open spec fn strip(s: Seq<char>, drop: spec_fn(char) -> bool) -> Seq<char> {
    strip_end(strip_start(s, drop), drop)
}

/// `s` without the white space at either end.
pub open spec fn trimmed(s: Seq<char>) -> Seq<char> {
    strip(s, CharClass::WhiteSpace.member())
}

/// `s` trimmed, or nothing when no more than white space is there.
pub open spec fn non_blank(s: Seq<char>) -> Option<Seq<char>> {
    if trimmed(s).len() == 0 {
        None
    } else {
        Some(trimmed(s))
    }
}

/// The trimmed text of an optional string, or nothing when it is missing or blank.
pub open spec fn opt_non_blank(o: Option<Seq<char>>) -> Option<Seq<char>> {
    match o {
        Some(s) => non_blank(s),
        None => None,
    }
}

/// Where the part of `chars` begins and ends that stripping `class` leaves.
fn strip_bounds(chars: &Vec<char>, class: CharClass) -> (r: (usize, usize))
    ensures
        r.0 <= r.1 <= chars@.len(),
        strip(chars@, class.member()) == chars@.subrange(r.0 as int, r.1 as int),
{
    let n = chars.len();
    let mut lo: usize = 0;
    assert(chars@.skip(0) == chars@);
    while lo < n && class.has(chars[lo])
        invariant
            lo <= n,
            n == chars@.len(),
            strip_start(chars@, class.member()) == strip_start(chars@.skip(lo as int), class.member()),
        decreases n - lo,
    {
        assert(chars@.skip(lo as int).skip(1) == chars@.skip(lo + 1));
        lo = lo + 1;
    }
    let ghost body = chars@.skip(lo as int);
    assert(strip_start(chars@, class.member()) == body);
    let mut hi: usize = n;
    assert(body == chars@.subrange(lo as int, n as int));
    while lo < hi && class.has(chars[hi - 1])
        invariant
            lo <= hi <= n,
            n == chars@.len(),
            strip_end(body, class.member()) == strip_end(
                chars@.subrange(lo as int, hi as int),
                class.member(),
            ),
        decreases hi - lo,
    {
        assert(chars@.subrange(lo as int, hi as int).drop_last() == chars@.subrange(
            lo as int,
            hi - 1,
        ));
        hi = hi - 1;
    }
    (lo, hi)
}

/// `s` without the white space at either end.
pub fn trim(s: &str) -> (r: &str)
    ensures
        r@ == trimmed(s@),
{
    let chars = chars_of(s);
    let (lo, hi) = strip_bounds(&chars, CharClass::WhiteSpace);
    s.substring_char(lo, hi)
}

/// `s` without the punctuation at either end that clings to a printed URL.
pub fn trim_url_punctuation(s: &str) -> (r: &str)
    ensures
        r@ == strip(s@, CharClass::UrlPunctuation.member()),
{
    let chars = chars_of(s);
    let (lo, hi) = strip_bounds(&chars, CharClass::UrlPunctuation);
    s.substring_char(lo, hi)
}

/// `value` trimmed, or `None` when no more than white space is there.
pub fn non_empty_str(value: &str) -> (r: Option<&str>)
    ensures
        opt_str(r) == non_blank(value@),
{
    let trimmed_value = trim(value);
    if trimmed_value.is_empty() {
        None
    } else {
        Some(trimmed_value)
    }
}

/// The trimmed text of `value`, or `None` when it is missing or blank.
pub fn non_empty(value: Option<String>) -> (r: Option<String>)
    ensures
        opt_text(r) == opt_non_blank(opt_text(value)),
{
    match value {
        Some(value) => match non_empty_str(value.as_str()) {
            Some(kept) => Some(kept.to_string()),
            None => None,
        },
        None => None,
    }
}

// ---------------------------------------------------------------------------
// Searching
// ---------------------------------------------------------------------------

/// `needle` stands in `hay` at position `i`.
pub open spec fn occurs_at(hay: Seq<char>, needle: Seq<char>, i: int) -> bool {
    0 <= i && i + needle.len() <= hay.len() && hay.subrange(i, i + needle.len()) == needle
}

/// `needle` stands somewhere in `hay`.
pub open spec fn has_text(hay: Seq<char>, needle: Seq<char>) -> bool {
    exists|i: int| occurs_at(hay, needle, i)
}

/// `s` begins with `prefix`.
pub open spec fn begins_with(s: Seq<char>, prefix: Seq<char>) -> bool {
    occurs_at(s, prefix, 0)
}

/// Tells whether `needle` stands in `hay` at position `at`.
fn matches_at(hay: &Vec<char>, needle: &Vec<char>, at: usize) -> (r: bool)
    requires
        at + needle@.len() <= hay@.len(),
    ensures
        r == occurs_at(hay@, needle@, at as int),
{
    let n = needle.len();
    let m = hay.len();
    let mut k: usize = 0;
    while k < n
        invariant
            k <= n,
            n == needle@.len(),
            m == hay@.len(),
            at + n <= m,
            forall|j: int| 0 <= j < k ==> hay@[at + j] == needle@[j],
        decreases n - k,
    {
        if hay[at + k] != needle[k] {
            assert(hay@.subrange(at as int, at + n)[k as int] != needle@[k as int]);
            return false;
        }
        k = k + 1;
    }
    assert(hay@.subrange(at as int, at + n) =~= needle@);
    true
}

/// Tells whether `needle` stands somewhere in `hay`.
pub fn chars_contain(hay: &Vec<char>, needle: &Vec<char>) -> (r: bool)
    ensures
        r == has_text(hay@, needle@),
{
    let n = needle.len();
    let m = hay.len();
    let mut at: usize = 0;
    while at <= m && n <= m - at
        invariant
            n == needle@.len(),
            m == hay@.len(),
            at <= m + 1,
            forall|i: int| 0 <= i < at ==> !occurs_at(hay@, needle@, i),
        decreases m + 1 - at,
    {
        if matches_at(hay, needle, at) {
            return true;
        }
        if at == m {
            return false;
        }
        at = at + 1;
    }
    assert forall|i: int| !occurs_at(hay@, needle@, i) by {
        if i >= at {
            assert(i + needle@.len() > hay@.len());
        }
    }
    false
}

/// Tells whether `s` begins with `prefix`.
pub fn starts_with(s: &str, prefix: &str) -> (r: bool)
    ensures
        r == begins_with(s@, prefix@),
{
    let hay = chars_of(s);
    let needle = chars_of(prefix);
    needle.len() <= hay.len() && matches_at(&hay, &needle, 0)
}

/// What follows `prefix` in `s`, when `s` begins with it.
pub fn after_prefix<'a>(s: &'a str, prefix: &str) -> (r: Option<&'a str>)
    ensures
        opt_str(r) == (if begins_with(s@, prefix@) {
            Some(s@.skip(prefix@.len() as int))
        } else {
            None
        }),
{
    if starts_with(s, prefix) {
        let n = chars_of(s).len();
        let k = chars_of(prefix).len();
        assert(s@.subrange(k as int, n as int) == s@.skip(k as int));
        Some(s.substring_char(k, n))
    } else {
        None
    }
}

/// `c` with an ASCII capital letter made small.
pub open spec fn ascii_lower(c: char) -> char {
    if 'A' <= c <= 'Z' {
        (c as u8 + 32) as u8 as char
    } else {
        c
    }
}

/// `s` with its ASCII capital letters made small.
pub open spec fn lowered(s: Seq<char>) -> Seq<char> {
    Seq::new(s.len(), |i: int| ascii_lower(s[i]))
}

/// The characters of `s` with ASCII capital letters made small.
pub fn ascii_lowercase(s: &str) -> (r: Vec<char>)
    ensures
        r@ == lowered(s@),
{
    let chars = chars_of(s);
    let mut out: Vec<char> = Vec::new();
    let mut i: usize = 0;
    while i < chars.len()
        invariant
            i <= chars@.len(),
            chars@ == s@,
            out@ =~= lowered(s@).take(i as int),
        decreases chars@.len() - i,
    {
        let c = chars[i];
        let small = if 'A' <= c && c <= 'Z' {
            (c as u8 + 32) as char
        } else {
            c
        };
        out.push(small);
        i = i + 1;
    }
    out
}

// ---------------------------------------------------------------------------
// Laws
// ---------------------------------------------------------------------------

/// Only characters that are dropped are lost at the start.
proof fn strip_start_drops_front(s: Seq<char>, drop: spec_fn(char) -> bool) -> (n: int)
    ensures
        0 <= n <= s.len(),
        strip_start(s, drop) == s.skip(n),
        forall|i: int| 0 <= i < n ==> drop(#[trigger] s[i]),
        n < s.len() ==> !drop(s[n]),
    decreases s.len(),
{
    if s.len() > 0 && drop(s[0]) {
        let rest = s.skip(1);
        let m = strip_start_drops_front(rest, drop);
        assert(rest.skip(m) =~= s.skip(m + 1));
        assert forall|i: int| 0 <= i < m + 1 implies drop(#[trigger] s[i]) by {
            if i > 0 {
                assert(rest[i - 1] == s[i]);
            }
        }
        if m < rest.len() {
            assert(rest[m] == s[m + 1]);
        }
        m + 1
    } else {
        assert(s.skip(0) =~= s);
        0
    }
}

/// Only characters that are dropped are lost at the end.
proof fn strip_end_drops_back(s: Seq<char>, drop: spec_fn(char) -> bool) -> (n: int)
    ensures
        0 <= n <= s.len(),
        strip_end(s, drop) == s.take(n),
        forall|i: int| n <= i < s.len() ==> drop(#[trigger] s[i]),
        n > 0 ==> !drop(s[n - 1]),
    decreases s.len(),
{
    if s.len() > 0 && drop(s.last()) {
        let rest = s.drop_last();
        let m = strip_end_drops_back(rest, drop);
        assert(rest.take(m) =~= s.take(m));
        assert forall|i: int| m <= i < s.len() implies drop(#[trigger] s[i]) by {
            if i < rest.len() {
                assert(rest[i] == s[i]);
            }
        }
        if m > 0 {
            assert(rest[m - 1] == s[m - 1]);
        }
        m
    } else {
        assert(s.take(s.len() as int) =~= s);
        s.len() as int
    }
}

/// Whatever stands around a core that neither begins nor ends with a dropped character is stripped
/// off it, when it is all dropped characters.
pub proof fn stripping_leaves_the_core(
    before: Seq<char>,
    core: Seq<char>,
    behind: Seq<char>,
    drop: spec_fn(char) -> bool,
)
    requires
        forall|i: int| 0 <= i < before.len() ==> drop(#[trigger] before[i]),
        forall|i: int| 0 <= i < behind.len() ==> drop(#[trigger] behind[i]),
        core.len() > 0 ==> !drop(core[0]) && !drop(core.last()),
    ensures
        strip(before + core + behind, drop) == core,
{
    let s = before + core + behind;
    let n = strip_start_drops_front(s, drop);
    let front = strip_start(s, drop);
    let m = strip_end_drops_back(front, drop);
    let a = before.len() as int;
    let b = a + core.len();
    if core.len() > 0 {
        assert(s[a] == core[0]);
        assert forall|i: int| 0 <= i < a implies drop(#[trigger] s[i]) by {
            assert(s[i] == before[i]);
        }
        assert(n == a) by {
            if n < a {
                assert(drop(s[n]));
            }
            if n > a {
                assert(drop(s[a]));
            }
        }
        assert(front[core.len() - 1] == core.last());
        assert(m == core.len()) by {
            if m < core.len() {
                assert(drop(front[core.len() - 1]));
            }
            if m > core.len() {
                assert(front[m - 1] == behind[m - 1 - core.len()]);
            }
        }
        assert(front.take(m) =~= core);
    } else {
        assert forall|i: int| 0 <= i < s.len() implies drop(#[trigger] s[i]) by {
            if i < a {
                assert(s[i] == before[i]);
            } else {
                assert(s[i] == behind[i - a]);
            }
        }
        assert(n == s.len());
        assert(front.take(m) =~= core);
    }
}

/// Trimming a text takes all the white space around its core and nothing else.
pub proof fn trimming_leaves_the_core(before: Seq<char>, core: Seq<char>, behind: Seq<char>)
    requires
        forall|i: int| 0 <= i < before.len() ==> white_space(#[trigger] before[i]),
        forall|i: int| 0 <= i < behind.len() ==> white_space(#[trigger] behind[i]),
        core.len() > 0 ==> !white_space(core[0]) && !white_space(core.last()),
    ensures
        trimmed(before + core + behind) == core,
        core.len() > 0 ==> non_blank(before + core + behind) == Some(core) && opt_non_blank(
            Some(before + core + behind),
        ) == Some(core),
        core.len() == 0 ==> non_blank(before + core + behind) is None && opt_non_blank(
            Some(before + core + behind),
        ) is None,
        opt_non_blank(None) is None,
{
    let drop = CharClass::WhiteSpace.member();
    assert forall|i: int| 0 <= i < before.len() implies drop(#[trigger] before[i]) by {
        assert(white_space(before[i]));
    }
    assert forall|i: int| 0 <= i < behind.len() implies drop(#[trigger] behind[i]) by {
        assert(white_space(behind[i]));
    }
    stripping_leaves_the_core(before, core, behind, drop);
}

/// Every text is a core with white space around it, and the core is what trimming gives.
pub proof fn every_text_has_a_core(s: Seq<char>)
    ensures
        exists|before: Seq<char>, behind: Seq<char>|
            {
                &&& s == #[trigger] (before + trimmed(s) + behind)
                &&& forall|i: int| 0 <= i < before.len() ==> white_space(#[trigger] before[i])
                &&& forall|i: int| 0 <= i < behind.len() ==> white_space(#[trigger] behind[i])
            },
        trimmed(s).len() > 0 ==> !white_space(trimmed(s)[0]) && !white_space(trimmed(s).last()),
        trimmed(s).len() == 0 <==> forall|i: int| 0 <= i < s.len() ==> white_space(#[trigger] s[i]),
{
    let drop = CharClass::WhiteSpace.member();
    let n = strip_start_drops_front(s, drop);
    let front = strip_start(s, drop);
    let m = strip_end_drops_back(front, drop);
    let before = s.take(n);
    let behind = front.skip(m);
    assert(s =~= before + trimmed(s) + behind);
    assert forall|i: int| 0 <= i < before.len() implies white_space(#[trigger] before[i]) by {
        assert(drop(s[i]));
    }
    assert forall|i: int| 0 <= i < behind.len() implies white_space(#[trigger] behind[i]) by {
        assert(drop(front[i + m]));
    }
    if trimmed(s).len() > 0 {
        assert(!drop(front[m - 1]));
        assert(front[0] == s[n]);
        assert(s[n + m - 1] == front[m - 1]);
    } else {
        assert forall|i: int| 0 <= i < s.len() implies white_space(#[trigger] s[i]) by {
            if i < n {
                assert(drop(s[i]));
            } else {
                assert(front[i - n] == s[i]);
            }
        }
    }
}

/// A text stands in every text around it, and nowhere else.
pub proof fn text_stands_in_its_surroundings(before: Seq<char>, needle: Seq<char>, behind: Seq<char>)
    ensures
        has_text(before + needle + behind, needle),
        begins_with(needle + behind, needle),
{
    let hay = before + needle + behind;
    let at = before.len() as int;
    assert(hay.subrange(at, at + needle.len()) =~= needle);
    assert(occurs_at(hay, needle, at));
    assert((needle + behind).subrange(0, needle.len() as int) =~= needle);
}

/// Where a text stands, it has a part before and a part behind it.
pub proof fn found_text_has_surroundings(hay: Seq<char>, needle: Seq<char>)
    ensures
        has_text(hay, needle) ==> exists|before: Seq<char>, behind: Seq<char>|
            hay == #[trigger] (before + needle + behind),
        begins_with(hay, needle) ==> needle.len() <= hay.len() && hay == needle + hay.skip(
            needle.len() as int,
        ),
{
    if has_text(hay, needle) {
        let at = choose|i: int| occurs_at(hay, needle, i);
        let before = hay.take(at);
        let behind = hay.skip(at + needle.len());
        assert forall|k: int| at <= k < at + needle.len() implies hay[k] == needle[k - at] by {
            assert(hay.subrange(at, at + needle.len())[k - at] == hay[k]);
        }
        assert(hay =~= before + needle + behind);
    }
    if begins_with(hay, needle) {
        assert forall|k: int| 0 <= k < needle.len() implies hay[k] == needle[k] by {
            assert(hay.subrange(0, needle.len() as int)[k] == hay[k]);
        }
        assert(hay =~= needle + hay.skip(needle.len() as int));
    }
}

/// The punctuation that clings to a URL is one of six characters.
pub proof fn url_punctuation_has_six_characters(c: char)
    ensures
        url_punctuation(c) == seq![',', ';', ')', ']', '"', '\''].contains(c),
        (CharClass::UrlPunctuation.member())(c) == url_punctuation(c),
        (CharClass::WhiteSpace.member())(c) == white_space(c),
        (CharClass::Newline.member())(c) == (c == '\n'),
        (CharClass::Space.member())(c) == (c == ' '),
        (CharClass::Colon.member())(c) == (c == ':'),
{
    let all = seq![',', ';', ')', ']', '"', '\''];
    assert(all[0] == ',' && all[1] == ';' && all[2] == ')' && all[3] == ']' && all[4] == '"'
        && all[5] == '\'');
}

/// Making capital letters small changes those of ASCII alone, each to the small letter 32 places
/// behind it.
pub proof fn small_letters_replace_capitals(s: Seq<char>, i: int)
    requires
        0 <= i < s.len(),
    ensures
        lowered(s).len() == s.len(),
        65 <= s[i] as u32 <= 90 ==> lowered(s)[i] as u32 == s[i] as u32 + 32,
        !(65 <= s[i] as u32 <= 90) ==> lowered(s)[i] == s[i],
{
}

/// The texts of a list are those of its items.
pub proof fn texts_are_those_of_the_items(v: Seq<String>, w: Seq<&str>)
    ensures
        texts(v).len() == v.len(),
        forall|i: int| 0 <= i < v.len() ==> #[trigger] texts(v)[i] == v[i]@,
        str_texts(w).len() == w.len(),
        forall|i: int| 0 <= i < w.len() ==> #[trigger] str_texts(w)[i] == w[i]@,
        forall|s: String| #[trigger] opt_text(Some(s)) == Some(s@),
        forall|s: &str| #[trigger] opt_str(Some(s)) == Some(s@),
        opt_text(None) is None,
        opt_str(None) is None,
{
}

} // verus!
