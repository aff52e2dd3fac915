//! The endpoints that credentials can be used with.
use crate::text;
use crate::text::{chars_of, is_among, same_text};
use vstd::prelude::*;
use vstd::string::*;

verus! {

// ---------------------------------------------------------------------------
// The order of texts
// ---------------------------------------------------------------------------

/// `a` comes before `b` in the order of their characters.
pub open spec fn comes_before(a: Seq<char>, b: Seq<char>) -> bool
    decreases b.len(),
{
    if b.len() == 0 {
        false
    } else if a.len() == 0 {
        true
    } else if a[0] != b[0] {
        a[0] < b[0]
    } else {
        comes_before(a.skip(1), b.skip(1))
    }
}

/// Tells whether `a` comes before `b`.
fn is_before(a: &str, b: &str) -> (r: bool)
    ensures
        r == comes_before(a@, b@),
{
    let xs = chars_of(a);
    let ys = chars_of(b);
    let mut i: usize = 0;
    assert(xs@.skip(0) =~= xs@);
    assert(ys@.skip(0) =~= ys@);
    while i < ys.len()
        invariant
            i <= xs@.len(),
            i <= ys@.len(),
            xs@ == a@,
            ys@ == b@,
            comes_before(a@, b@) == comes_before(xs@.skip(i as int), ys@.skip(i as int)),
        decreases ys@.len() - i,
    {
        let ghost x = xs@.skip(i as int);
        let ghost y = ys@.skip(i as int);
        if i == xs.len() {
            return true;
        }
        assert(x[0] == xs@[i as int] && y[0] == ys@[i as int]);
        if xs[i] != ys[i] {
            return xs[i] < ys[i];
        }
        assert(x.skip(1) =~= xs@.skip(i + 1));
        assert(y.skip(1) =~= ys@.skip(i + 1));
        i = i + 1;
    }
    false
}

/// No text comes before itself, and of two texts only one comes before the other.
pub proof fn order_is_strict(a: Seq<char>, b: Seq<char>)
    ensures
        !comes_before(a, a),
        !(comes_before(a, b) && comes_before(b, a)),
        a != b ==> comes_before(a, b) || comes_before(b, a),
    decreases a.len(),
{
    if a.len() > 0 {
        order_is_strict(a.skip(1), a.skip(1));
        if b.len() > 0 {
            order_is_strict(a.skip(1), b.skip(1));
            if a[0] == b[0] && a.skip(1) == b.skip(1) {
                assert(a =~= seq![a[0]] + a.skip(1));
                assert(b =~= seq![b[0]] + b.skip(1));
            }
        }
    } else if b.len() == 0 {
        assert(a =~= b);
    }
}

/// What comes before a text that comes before another comes before that one too.
pub proof fn order_is_transitive(a: Seq<char>, b: Seq<char>, c: Seq<char>)
    requires
        comes_before(a, b),
        comes_before(b, c),
    ensures
        comes_before(a, c),
    decreases a.len(),
{
    if a.len() > 0 && b.len() > 0 && c.len() > 0 && a[0] == b[0] && b[0] == c[0] {
        order_is_transitive(a.skip(1), b.skip(1), c.skip(1));
    }
}

/// Each of `names` comes before those after it.
pub open spec fn in_order(names: Seq<Seq<char>>) -> bool {
    forall|i: int, j: int|
        0 <= i < j < names.len() ==> comes_before(#[trigger] names[i], #[trigger] names[j])
}

/// `list` is `names` in order, each once.
pub open spec fn is_sorted_set(names: Seq<Seq<char>>, list: Seq<Seq<char>>) -> bool {
    &&& in_order(list)
    &&& forall|name: Seq<char>| #[trigger] list.contains(name) == names.contains(name)
}

/// There is one list of some names in order, each once.
pub proof fn sorted_set_is_unique(names: Seq<Seq<char>>, a: Seq<Seq<char>>, b: Seq<Seq<char>>)
    requires
        is_sorted_set(names, a),
        is_sorted_set(names, b),
    ensures
        a == b,
{
    sorted_sets_agree(a, b);
}

/// Two lists in order with the same members are the same.
proof fn sorted_sets_agree(a: Seq<Seq<char>>, b: Seq<Seq<char>>)
    requires
        in_order(a),
        in_order(b),
        forall|name: Seq<char>| #[trigger] a.contains(name) == b.contains(name),
    ensures
        a == b,
    decreases a.len(),
{
    if a.len() == 0 {
        if b.len() > 0 {
            assert(b.contains(b[0]));
            assert(a.contains(b[0]));
        }
        assert(a =~= b);
    } else {
        assert(a.contains(a[0]));
        assert(b.contains(a[0]));
        let k = choose|k: int| 0 <= k < b.len() && b[k] == a[0];
        assert(b.contains(b[0]));
        assert(a.contains(b[0]));
        let j = choose|j: int| 0 <= j < a.len() && a[j] == b[0];
        if k > 0 {
            assert(comes_before(b[0], b[k]));
            order_is_strict(b[0], a[0]);
            if j > 0 {
                assert(comes_before(a[0], a[j]));
            }
        }
        assert(a[0] == b[0]);
        let x = a.skip(1);
        let y = b.skip(1);
        assert forall|name: Seq<char>| #[trigger] x.contains(name) implies y.contains(name) by {
            tail_has(a, b, name);
        }
        assert forall|name: Seq<char>| #[trigger] y.contains(name) implies x.contains(name) by {
            tail_has(b, a, name);
        }
        assert(in_order(x)) by {
            assert forall|i: int, j: int| 0 <= i < j < x.len() implies comes_before(
                #[trigger] x[i],
                #[trigger] x[j],
            ) by {
                assert(x[i] == a[i + 1] && x[j] == a[j + 1]);
            }
        }
        assert(in_order(y)) by {
            assert forall|i: int, j: int| 0 <= i < j < y.len() implies comes_before(
                #[trigger] y[i],
                #[trigger] y[j],
            ) by {
                assert(y[i] == b[i + 1] && y[j] == b[j + 1]);
            }
        }
        sorted_sets_agree(x, y);
        assert(a =~= seq![a[0]] + x);
        assert(b =~= seq![b[0]] + y);
    }
}

/// What stands behind the first of `a` stands behind the first of `b` too.
proof fn tail_has(a: Seq<Seq<char>>, b: Seq<Seq<char>>, name: Seq<char>)
    requires
        a.len() > 0,
        b.len() > 0,
        a[0] == b[0],
        in_order(a),
        forall|name: Seq<char>| #[trigger] a.contains(name) == b.contains(name),
        a.skip(1).contains(name),
    ensures
        b.skip(1).contains(name),
{
    let i = choose|i: int| 0 <= i < a.skip(1).len() && a.skip(1)[i] == name;
    assert(a[i + 1] == name);
    assert(comes_before(a[0], a[i + 1]));
    order_is_strict(a[0], name);
    assert(a.contains(name));
    let k = choose|k: int| 0 <= k < b.len() && b[k] == name;
    assert(k > 0);
    assert(b.skip(1)[k - 1] == name);
}

// ---------------------------------------------------------------------------
// Sets of endpoints
// ---------------------------------------------------------------------------

/// The names of the endpoints that there are.
#[derive(Debug, Clone)]
pub struct EndpointSet {
    /// The names, in order and each once.
    pub names: Vec<String>,
}

impl View for EndpointSet {
    type V = Seq<Seq<char>>;

    open spec fn view(&self) -> Seq<Seq<char>> {
        text::texts(self.names@)
    }
}

impl EndpointSet {
    /// The set of the endpoints `names`.
    pub fn new(names: Vec<String>) -> (r: Self)
        ensures
            is_sorted_set(text::texts(names@), r@),
    {
        let ghost all = text::texts(names@);
        let mut set = EndpointSet { names: Vec::new() };
        let mut i: usize = 0;
        while i < names.len()
            invariant
                i <= names@.len(),
                all == text::texts(names@),
                is_sorted_set(all.take(i as int), set@),
            decreases names@.len() - i,
        {
            let ghost before = set@;
            let ghost seen = all.take(i as int);
            let ghost next = all.take(i + 1);
            set.insert(names[i].as_str());
            proof {
                let new = names@[i as int]@;
                assert forall|name: Seq<char>| #[trigger] set@.contains(name) == next.contains(
                    name,
                ) by {
                    assert(next =~= seen.push(new));
                    assert(next[i as int] == new);
                    if seen.contains(name) {
                        let k = choose|k: int| 0 <= k < seen.len() && seen[k] == name;
                        assert(next[k] == name);
                    }
                    if next.contains(name) && name != new {
                        let k = choose|k: int| 0 <= k < next.len() && next[k] == name;
                        assert(seen[k] == name);
                    }
                    assert(before.contains(name) == seen.contains(name));
                }
            }
            i = i + 1;
        }
        assert(all.take(names@.len() as int) =~= all);
        set
    }

    /// Puts `name` into the set.
    fn insert(&mut self, name: &str)
        requires
            in_order(old(self)@),
        ensures
            in_order(final(self)@),
            forall|other: Seq<char>| #[trigger]
                final(self)@.contains(other) == (old(self)@.contains(other) || other == name@),
    {
        let ghost before = self@;
        let n = self.names.len();
        let mut at: usize = 0;
        while at < n && is_before(self.names[at].as_str(), name)
            invariant
                at <= n,
                n == self.names@.len(),
                self@ == before,
                before.len() == n,
                forall|j: int| 0 <= j < at ==> comes_before(#[trigger] before[j], name@),
            decreases n - at,
        {
            assert(self@[at as int] == self.names@[at as int]@);
            at = at + 1;
        }
        if at < n && same_text(self.names[at].as_str(), name) {
            assert(before[at as int] == name@);
            return;
        }
        self.names.insert(at, name.to_string());
        assert(self@ =~= before.insert(at as int, name@));
        proof {
            let after = self@;
            if at < n {
                assert(before[at as int] == after[at as int + 1]);
                order_is_strict(name@, before[at as int]);
            }
            assert forall|i: int, j: int| 0 <= i < j < after.len() implies comes_before(
                #[trigger] after[i],
                #[trigger] after[j],
            ) by {
                let x = if i < at {
                    i
                } else {
                    i - 1
                };
                let y = if j < at {
                    j
                } else {
                    j - 1
                };
                if i == at {
                    assert(after[j] == before[j - 1]);
                    if j - 1 > at {
                        assert(comes_before(before[at as int], before[j - 1]));
                        order_is_transitive(name@, before[at as int], before[j - 1]);
                    }
                } else if j == at {
                    assert(after[i] == before[i]);
                } else {
                    assert(after[i] == before[x] && after[j] == before[y]);
                }
            }
            assert forall|other: Seq<char>| #[trigger] after.contains(other) == (before.contains(
                other,
            ) || other == name@) by {
                assert(after[at as int] == name@);
                if before.contains(other) {
                    let k = choose|k: int| 0 <= k < before.len() && before[k] == other;
                    if k < at {
                        assert(after[k] == other);
                    } else {
                        assert(after[k + 1] == other);
                    }
                }
                if after.contains(other) && other != name@ {
                    let k = choose|k: int| 0 <= k < after.len() && after[k] == other;
                    if k < at {
                        assert(before[k] == other);
                    } else {
                        assert(before[k - 1] == other);
                    }
                }
            }
        }
    }

    /// Tells whether `name` is in the set.
    pub fn contains(&self, name: &str) -> (r: bool)
        ensures
            r == self@.contains(name@),
    {
        is_among(&self.names, name)
    }

    /// Each of the names in quotes.
    fn quoted_names(&self) -> (r: Vec<String>)
        ensures
            text::texts(r@) == quoted(self@),
    {
        let mut out: Vec<String> = Vec::new();
        let mut i: usize = 0;
        while i < self.names.len()
            invariant
                i <= self.names@.len(),
                text::texts(out@) =~= quoted(self@).take(i as int),
            decreases self.names@.len() - i,
        {
            let ghost before = text::texts(out@);
            let shown = debug_quoted(self.names[i].as_str());
            out.push(shown);
            assert(text::texts(out@) =~= before.push(shown@));
            i = i + 1;
        }
        out
    }

    /// The message for the endpoint `name`, which is not in the set.
    pub fn unknown_endpoint(&self, name: &str) -> (r: String)
        ensures
            r@ == unknown_endpoint_text(name@, quoted(self@)),
    {
        let quoted_names = self.quoted_names();
        unknown_endpoint_message(name, &quoted_names)
    }
}

// ---------------------------------------------------------------------------
// Messages
// ---------------------------------------------------------------------------

/// How `text` is shown in quotes, with what cannot be shown as it is written another way.
pub uninterp spec fn debug_text(text: Seq<char>) -> Seq<char>;

/// Shows `text` with the `Debug` formatting of `str`: in quotes, with what cannot be shown as it is
/// escaped. Which characters are escaped is left unsaid here.
#[verifier::external_body]
fn debug_quoted(text: &str) -> (r: String)
    ensures
        r@ == debug_text(text@),
{
    format!("{:?}", text)
}

/// Each of `names` in quotes.
pub open spec fn quoted(names: Seq<Seq<char>>) -> Seq<Seq<char>> {
    Seq::new(names.len(), |i: int| debug_text(names[i]))
}

/// `items` with commas between them.
pub open spec fn comma_separated(items: Seq<Seq<char>>) -> Seq<char>
    decreases items.len(),
{
    if items.len() == 0 {
        seq![]
    } else if items.len() == 1 {
        items[0]
    } else {
        comma_separated(items.drop_last()) + ", "@ + items.last()
    }
}

/// The message for the endpoint `name` when there are those that `shown` shows.
pub open spec fn unknown_endpoint_text(name: Seq<char>, shown: Seq<Seq<char>>) -> Seq<char> {
    "未知端点 \""@ + name + "\"，已注册端点: ["@ + comma_separated(shown) + "]"@
}

/// The message for the endpoint `name` when there are those that `shown` shows.
pub fn unknown_endpoint_message(name: &str, shown: &Vec<String>) -> (r: String)
    ensures
        r@ == unknown_endpoint_text(name@, text::texts(shown@)),
{
    let ghost all = text::texts(shown@);
    let mut list = String::new();
    let mut i: usize = 0;
    assert(all.take(0) =~= seq![]);
    while i < shown.len()
        invariant
            i <= shown@.len(),
            all == text::texts(shown@),
            list@ == comma_separated(all.take(i as int)),
        decreases shown@.len() - i,
    {
        assert(all.take(i + 1).drop_last() =~= all.take(i as int));
        assert(all.take(i + 1).last() == shown@[i as int]@);
        if i > 0 {
            list.append(", ");
            list.append(shown[i].as_str());
        } else {
            list = shown[i].clone();
        }
        i = i + 1;
    }
    assert(all.take(shown@.len() as int) =~= all);
    "未知端点 \"".to_string().concat(name).concat("\"，已注册端点: [").concat(
        list.as_str(),
    ).concat("]")
}

// ---------------------------------------------------------------------------
// Part by part
// ---------------------------------------------------------------------------

/// Of two texts with a common beginning, the one comes first whose next character is smaller, or
/// which has none.
pub proof fn first_difference_decides(
    common: Seq<char>,
    x: char,
    more: Seq<char>,
    y: char,
    rest: Seq<char>,
)
    ensures
        x != y ==> comes_before(common + seq![x] + more, common + seq![y] + rest) == (x < y),
        comes_before(common, common + seq![y] + rest),
        !comes_before(common + seq![x] + more, common),
        !comes_before(common, common),
    decreases common.len(),
{
    let a = common + seq![x] + more;
    let b = common + seq![y] + rest;
    order_is_strict(common, common);
    if common.len() == 0 {
        assert(a[0] == x && b[0] == y);
    } else {
        let tail = common.skip(1);
        first_difference_decides(tail, x, more, y, rest);
        assert(a.skip(1) =~= tail + seq![x] + more);
        assert(b.skip(1) =~= tail + seq![y] + rest);
        assert(a[0] == common[0] && b[0] == common[0]);
    }
}

/// A list that holds a set in order has each of the names, no other name, and no name behind one
/// that it comes before.
pub proof fn sorted_set_holds_the_names(
    names: Seq<Seq<char>>,
    list: Seq<Seq<char>>,
    name: Seq<char>,
    i: int,
    j: int,
)
    requires
        is_sorted_set(names, list),
    ensures
        names.contains(name) <==> list.contains(name),
        0 <= i < j < list.len() ==> comes_before(list[i], list[j]) && list[i] != list[j],
{
    if 0 <= i < j < list.len() {
        assert(comes_before(list[i], list[j]));
        order_is_strict(list[i], list[j]);
    }
}

/// Every list of names without repetition that is in order is the list that holds their set.
pub proof fn ordered_names_are_their_set(names: Seq<Seq<char>>)
    requires
        forall|i: int, j: int|
            0 <= i < j < names.len() ==> comes_before(#[trigger] names[i], #[trigger] names[j]),
    ensures
        is_sorted_set(names, names),
{
}

/// One more item is set off by a comma and a space, unless it is the first.
pub proof fn commas_stand_between_items(items: Seq<Seq<char>>, item: Seq<char>)
    ensures
        comma_separated(Seq::<Seq<char>>::empty()) == Seq::<char>::empty(),
        comma_separated(seq![item]) == item,
        items.len() > 0 ==> comma_separated(items.push(item)) == comma_separated(items) + seq![
            ',',
            ' ',
        ] + item,
{
    reveal_strlit(", ");
    assert(", "@ =~= seq![',', ' ']);
    assert(items.push(item).drop_last() =~= items);
}

/// The message for an unknown endpoint names it in quotes, and then those that there are in
/// brackets, each shown as it is in quotes.
pub proof fn unknown_endpoint_is_named(name: Seq<char>, names: Seq<Seq<char>>, i: int)
    ensures
        quoted(names).len() == names.len(),
        0 <= i < names.len() ==> quoted(names)[i] == debug_text(names[i]),
        unknown_endpoint_text(name, quoted(names)) == "未知端点 \""@ + name
            + "\"，已注册端点: ["@ + comma_separated(quoted(names)) + seq![']'],
{
    reveal_strlit("]");
    assert("]"@ =~= seq![']']);
}

/// A set of endpoints is the list of its names.
pub proof fn endpoints_are_their_names(set: EndpointSet, i: int)
    ensures
        set@.len() == set.names@.len(),
        0 <= i < set.names@.len() ==> set@[i] == set.names@[i]@,
{
}

} // verus!
