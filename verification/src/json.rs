//! Reading string members out of JSON objects.
use crate::text;
use crate::text::{non_empty_str, same_text};
use vstd::prelude::*;

verus! {

/// A parsed JSON value, of the `serde_json` crate.
#[verifier::external_type_specification]
#[verifier::external_body]
pub struct ExJsonValue(serde_json::Value);

/// The reason why `serde_json` could not parse a text.
#[verifier::external_type_specification]
#[verifier::external_body]
pub struct ExJsonError(serde_json::Error);

/// The members of a JSON object whose values are strings, by name. A value that is no object has
/// none.
pub uninterp spec fn json_strings(value: serde_json::Value) -> Map<Seq<char>, Seq<char>>;

/// The string members of the value that `serde_json` reads in `text`, or nothing when it finds
/// no JSON document there.
pub uninterp spec fn json_document(text: Seq<char>) -> Option<Map<Seq<char>, Seq<char>>>;

/// Parses `text` with `serde_json::from_str`, which reads one JSON document and nothing after it
/// but white space. Whether it succeeds, and which string members the value has, depends on the
/// text alone.
#[verifier::external_body]
fn parse_json(text: &str) -> (r: Result<serde_json::Value, serde_json::Error>)
    ensures
        match r {
            Ok(value) => json_document(text@) == Some(json_strings(value)),
            Err(_) => json_document(text@) is None,
        },
{
    serde_json::from_str(text)
}

/// Looks `name` up with `serde_json::Value::get` and takes the member's text with `as_str`: the
/// member is there when `value` is an object that has it, and has a text when it is a string.
#[verifier::external_body]
fn string_member<'a>(value: &'a serde_json::Value, name: &str) -> (r: Option<&'a str>)
    ensures
        text::opt_str(r) == (if json_strings(*value).contains_key(name@) {
            Some(json_strings(*value)[name@])
        } else {
            None
        }),
{
    value.get(name).and_then(serde_json::Value::as_str)
}

/// String members read from a JSON object.
#[derive(Debug, Clone)]
pub struct JsonRecord {
    /// Names and texts; the first pair with a name counts.
    pub strings: Vec<(String, String)>,
}

/// The pairs of `pairs` as a map, in which the first pair with a name counts.
pub open spec fn pairs_map(pairs: Seq<(String, String)>) -> Map<Seq<char>, Seq<char>>
    decreases pairs.len(),
{
    if pairs.len() == 0 {
        Map::empty()
    } else {
        pairs_map(pairs.skip(1)).insert(pairs[0].0@, pairs[0].1@)
    }
}

impl View for JsonRecord {
    type V = Map<Seq<char>, Seq<char>>;

    open spec fn view(&self) -> Map<Seq<char>, Seq<char>> {
        pairs_map(self.strings@)
    }
}

/// The value of `name` in `members`, when it is there.
pub open spec fn member(members: Map<Seq<char>, Seq<char>>, name: Seq<char>) -> Option<Seq<char>> {
    if members.contains_key(name) {
        Some(members[name])
    } else {
        None
    }
}

/// The trimmed value of the first of `names` that has one which is not blank.
pub open spec fn first_field(members: Map<Seq<char>, Seq<char>>, names: Seq<Seq<char>>) -> Option<
    Seq<char>,
>
    decreases names.len(),
{
    if names.len() == 0 {
        None
    } else {
        match text::opt_non_blank(member(members, names[0])) {
            Some(value) => Some(value),
            None => first_field(members, names.skip(1)),
        }
    }
}

impl JsonRecord {
    /// The value of the member `name`.
    pub fn get(&self, name: &str) -> (r: Option<&str>)
        ensures
            text::opt_str(r) == member(self@, name@),
    {
        let ghost all = self.strings@;
        let mut i: usize = 0;
        assert(all.skip(0) =~= all);
        while i < self.strings.len()
            invariant
                i <= self.strings@.len(),
                all == self.strings@,
                member(pairs_map(all), name@) == member(pairs_map(all.skip(i as int)), name@),
            decreases self.strings@.len() - i,
        {
            proof {
                let rest = all.skip(i as int);
                assert(rest[0] == all[i as int]);
                assert(rest.skip(1) =~= all.skip(i + 1));
            }
            if same_text(self.strings[i].0.as_str(), name) {
                return Some(self.strings[i].1.as_str());
            }
            i = i + 1;
        }
        None
    }
}

/// Reads the members `names` out of the JSON object in `text`, as far as they are strings;
/// `None` when `text` is not JSON.
pub fn read_record(text: &str, names: &[&str]) -> (r: Option<JsonRecord>)
    ensures
        match r {
            Some(record) => json_document(text@) is Some && record@
                == json_document(text@)->0.restrict(text::str_texts(names@).to_set()),
            None => json_document(text@) is None,
        },
{
    match parse_json(text) {
        Err(_) => None,
        Ok(value) => Some(record_of(&value, names)),
    }
}

/// The members `names` of `value`, as far as they are strings.
fn record_of(value: &serde_json::Value, names: &[&str]) -> (r: JsonRecord)
    ensures
        r@ == json_strings(*value).restrict(text::str_texts(names@).to_set()),
{
    let ghost all = text::str_texts(names@);
    let ghost document = json_strings(*value);
    let mut strings: Vec<(String, String)> = Vec::new();
    let mut i: usize = 0;
    assert(pairs_map(strings@) =~= document.restrict(all.take(0).to_set()));
    while i < names.len()
        invariant
            i <= names@.len(),
            all == text::str_texts(names@),
            document == json_strings(*value),
            pairs_map(strings@) == document.restrict(all.take(i as int).to_set()),
        decreases names@.len() - i,
    {
        let name = names[i];
        let ghost before = all.take(i as int);
        let ghost after = all.take(i + 1);
        proof {
            assert(after =~= before.push(name@));
            assert forall|x: Seq<char>| #[trigger] after.to_set().contains(x) == (
            before.to_set().contains(x) || x == name@) by {
                if before.contains(x) {
                    let k = choose|k: int| 0 <= k < before.len() && before[k] == x;
                    assert(after[k] == x);
                }
                assert(after[i as int] == name@);
            }
        }
        match string_member(value, name) {
            Some(value_text) => {
                let pair = (name.to_string(), value_text.to_string());
                assert((seq![pair] + strings@).skip(1) =~= strings@);
                assert(strings@.insert(0, pair) =~= seq![pair] + strings@);
                strings.insert(0, pair);
                assert(pairs_map(strings@) =~= document.restrict(after.to_set()));
            },
            None => {
                assert(pairs_map(strings@) =~= document.restrict(after.to_set()));
            },
        }
        i = i + 1;
    }
    assert(all.take(names@.len() as int) =~= all);
    JsonRecord { strings }
}

/// The trimmed value of the first of `names` that has one which is not blank.
pub fn string_field(record: &JsonRecord, names: &[&str]) -> (r: Option<String>)
    ensures
        text::opt_text(r) == first_field(record@, text::str_texts(names@)),
{
    let ghost all = text::str_texts(names@);
    let mut i: usize = 0;
    assert(all.skip(0) =~= all);
    while i < names.len()
        invariant
            i <= names@.len(),
            all == text::str_texts(names@),
            first_field(record@, all) == first_field(record@, all.skip(i as int)),
        decreases names@.len() - i,
    {
        assert(all.skip(i as int).skip(1) =~= all.skip(i + 1));
        if let Some(found) = record.get(names[i]) {
            if let Some(value) = non_empty_str(found) {
                return Some(value.to_string());
            }
        }
        i = i + 1;
    }
    None
}

/// A record of some members answers for those members as the whole object does.
pub proof fn restricted_field(
    members: Map<Seq<char>, Seq<char>>,
    kept: Set<Seq<char>>,
    names: Seq<Seq<char>>,
)
    requires
        forall|i: int| 0 <= i < names.len() ==> kept.contains(#[trigger] names[i]),
    ensures
        first_field(members.restrict(kept), names) == first_field(members, names),
    decreases names.len(),
{
    if names.len() > 0 {
        assert(kept.contains(names[0]));
        assert forall|i: int| 0 <= i < names.skip(1).len() implies kept.contains(
            #[trigger] names.skip(1)[i],
        ) by {
            assert(names.skip(1)[i] == names[i + 1]);
        }
        restricted_field(members, kept, names.skip(1));
    }
}

/// The first of some names whose text is not blank is found, trimmed; names before it are passed
/// over only where they are missing or blank.
pub proof fn first_filled_name_is_found(
    members: Map<Seq<char>, Seq<char>>,
    names: Seq<Seq<char>>,
    at: int,
)
    requires
        0 <= at <= names.len(),
        forall|i: int|
            0 <= i < at ==> !members.contains_key(#[trigger] names[i]) || text::trimmed(
                members[names[i]],
            ).len() == 0,
    ensures
        (at < names.len() && members.contains_key(names[at]) && text::trimmed(
            members[names[at]],
        ).len() > 0) ==> first_field(members, names) == Some(text::trimmed(members[names[at]])),
        at == names.len() ==> first_field(members, names) is None,
    decreases names.len(),
{
    if names.len() > 0 && at > 0 {
        let rest = names.skip(1);
        assert(!members.contains_key(names[0]) || text::trimmed(members[names[0]]).len() == 0);
        assert forall|i: int| 0 <= i < at - 1 implies !members.contains_key(#[trigger] rest[i])
            || text::trimmed(members[rest[i]]).len() == 0 by {
            assert(rest[i] == names[i + 1]);
        }
        first_filled_name_is_found(members, rest, at - 1);
        if at < names.len() {
            assert(rest[at - 1] == names[at]);
        }
    }
}

/// A record has the names of its pairs, and of two pairs with one name the first counts.
pub proof fn first_pair_with_a_name_counts(pairs: Seq<(String, String)>, first: (String, String))
    ensures
        pairs_map(Seq::<(String, String)>::empty()) == Map::<Seq<char>, Seq<char>>::empty(),
        pairs_map(seq![first] + pairs) == pairs_map(pairs).insert(first.0@, first.1@),
{
    assert((seq![first] + pairs).skip(1) =~= pairs);
}

/// A record holds its pairs, and a member is the text under its name.
pub proof fn members_are_the_texts(
    record: JsonRecord,
    members: Map<Seq<char>, Seq<char>>,
    name: Seq<char>,
)
    ensures
        record@ == pairs_map(record.strings@),
        members.contains_key(name) ==> member(members, name) == Some(members[name]),
        !members.contains_key(name) ==> member(members, name) is None,
{
}

} // verus!
