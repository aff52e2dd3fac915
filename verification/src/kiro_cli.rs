//! Finding the official Kiro CLI and running it.
use crate::decimal;
use crate::decimal::i64_text;
use crate::oauth_status::{
    push_oauth_lines, push_oauth_output, KiroCliOAuthLoginStatus, StatusView,
};
use crate::paths;
use crate::paths::{expand_tilde, PathView, UserPath};
use crate::text;
use crate::text::{ascii_lowercase, chars_contain, chars_of, non_empty_str, same_text};
use crate::words;
use crate::words::split_trimmed_lines;
use vstd::prelude::*;
use vstd::string::*;

verus! {

// ---------------------------------------------------------------------------
// Where it is
// ---------------------------------------------------------------------------

/// A place where the Kiro CLI may be.
#[derive(Debug)]
pub enum CliPlace {
    /// At this path.
    At(UserPath),
    /// In a directory of the search path, under this name.
    OnSearchPath(String),
}

/// The contents of a [`CliPlace`].
pub ghost enum PlaceView {
    At(PathView),
    OnSearchPath(Seq<char>),
}

impl View for CliPlace {
    type V = PlaceView;

    open spec fn view(&self) -> PlaceView {
        match self {
            CliPlace::At(path) => PlaceView::At(path@),
            CliPlace::OnSearchPath(name) => PlaceView::OnSearchPath(name@),
        }
    }
}

/// The places where the Kiro CLI is usually found, in the order in which to look.
pub open spec fn usual_places() -> Seq<PlaceView> {
    seq![
        PlaceView::OnSearchPath("kiro-cli"@),
        PlaceView::OnSearchPath("kiro"@),
        PlaceView::At(
            PathView::Literal("/Applications/Kiro CLI.app/Contents/MacOS/kiro-cli"@),
        ),
        PlaceView::At(PathView::Literal("/Applications/Kiro.app/Contents/MacOS/kiro-cli"@)),
        PlaceView::At(PathView::Literal("/usr/bin/kiro-cli"@)),
        PlaceView::At(PathView::Literal("/usr/local/bin/kiro-cli"@)),
        PlaceView::At(PathView::Literal("/usr/bin/kiro"@)),
        PlaceView::At(PathView::Literal("/usr/local/bin/kiro"@)),
        PlaceView::At(PathView::Literal("/opt/kiro/kiro-cli"@)),
        PlaceView::At(PathView::Literal("/opt/Kiro/kiro-cli"@)),
        PlaceView::At(PathView::Literal("/opt/Kiro/resources/app/bin/kiro-cli"@)),
        PlaceView::At(PathView::Literal("/opt/homebrew/bin/kiro-cli"@)),
    ]
}

/// The places to look at, in order: the one that is named, or else the usual ones.
pub open spec fn cli_places(named: Option<Seq<char>>, home_known: bool) -> Seq<PlaceView> {
    match text::opt_non_blank(named) {
        Some(path) => seq![PlaceView::At(paths::expanded(path, home_known))],
        None => usual_places(),
    }
}

/// What to do next in order to find the Kiro CLI.
#[derive(Debug)]
pub enum CliSearch {
    /// Look whether it is at this place.
    Look(CliPlace),
    /// Nothing: it is at this place.
    Found(CliPlace),
    /// Nothing: it is not at the path that was named.
    NotAt(UserPath),
    /// Nothing: it is nowhere.
    Nowhere,
}

/// The contents of a [`CliSearch`].
pub ghost enum SearchView {
    Look(PlaceView),
    Found(PlaceView),
    NotAt(PathView),
    Nowhere,
}

impl View for CliSearch {
    type V = SearchView;

    open spec fn view(&self) -> SearchView {
        match self {
            CliSearch::Look(place) => SearchView::Look(place@),
            CliSearch::Found(place) => SearchView::Found(place@),
            CliSearch::NotAt(path) => SearchView::NotAt(path@),
            CliSearch::Nowhere => SearchView::Nowhere,
        }
    }
}

/// What to do next in order to find the Kiro CLI, when `looked` places were looked at and `found`
/// tells whether it was at the last of them.
pub open spec fn search_step(
    named: Option<Seq<char>>,
    home_known: bool,
    looked: int,
    found: bool,
) -> SearchView {
    let places = cli_places(named, home_known);
    if found && 0 < looked <= places.len() {
        SearchView::Found(places[looked - 1])
    } else if looked < places.len() {
        SearchView::Look(places[looked])
    } else {
        match text::opt_non_blank(named) {
            Some(path) => SearchView::NotAt(paths::expanded(path, home_known)),
            None => SearchView::Nowhere,
        }
    }
}

/// The usual place number `i`.
fn usual_place(i: usize) -> (r: Option<CliPlace>)
    ensures
        match r {
            Some(place) => i < usual_places().len() && place@ == usual_places()[i as int],
            None => i >= usual_places().len(),
        },
{
    let on_search_path: [&str; 2] = ["kiro-cli", "kiro"];
    let paths: [&str; 10] = [
        "/Applications/Kiro CLI.app/Contents/MacOS/kiro-cli",
        "/Applications/Kiro.app/Contents/MacOS/kiro-cli",
        "/usr/bin/kiro-cli",
        "/usr/local/bin/kiro-cli",
        "/usr/bin/kiro",
        "/usr/local/bin/kiro",
        "/opt/kiro/kiro-cli",
        "/opt/Kiro/kiro-cli",
        "/opt/Kiro/resources/app/bin/kiro-cli",
        "/opt/homebrew/bin/kiro-cli",
    ];
    if i < 2 {
        Some(CliPlace::OnSearchPath(on_search_path[i].to_string()))
    } else if i < 12 {
        Some(CliPlace::At(UserPath::Literal(paths[i - 2].to_string())))
    } else {
        None
    }
}

/// Decides how to go on looking for the Kiro CLI. `looked` is the number of places that were
/// looked at, and `found` tells whether it was at the last of them. `home_known` tells whether
/// there is a home directory.
pub fn resolve_kiro_cli_path(
    named: Option<&str>,
    home_known: bool,
    looked: usize,
    found: bool,
) -> (r: CliSearch)
    ensures
        r@ == search_step(text::opt_str(named), home_known, looked as int, found),
{
    if let Some(named) = named {
        if let Some(path) = non_empty_str(named) {
            let path = expand_tilde(path, home_known);
            return if looked == 0 {
                CliSearch::Look(CliPlace::At(path))
            } else if found && looked == 1 {
                CliSearch::Found(CliPlace::At(path))
            } else {
                CliSearch::NotAt(path)
            };
        }
    }
    if found && looked > 0 {
        if let Some(place) = usual_place(looked - 1) {
            return CliSearch::Found(place);
        }
    }
    match usual_place(looked) {
        Some(place) => CliSearch::Look(place),
        None => CliSearch::Nowhere,
    }
}

/// What a search comes to that has looked at `looked` places in vain, where `is_at` tells where
/// the Kiro CLI is.
pub open spec fn search_outcome(
    named: Option<Seq<char>>,
    home_known: bool,
    is_at: spec_fn(PlaceView) -> bool,
    looked: int,
) -> SearchView
    decreases cli_places(named, home_known).len() - looked,
{
    match search_step(named, home_known, looked, false) {
        SearchView::Look(place) => {
            if is_at(place) {
                search_step(named, home_known, looked + 1, true)
            } else if 0 <= looked {
                search_outcome(named, home_known, is_at, looked + 1)
            } else {
                SearchView::Nowhere
            }
        },
        over => over,
    }
}

/// A search finds the first place where the Kiro CLI is, and says so when it is at none of them.
pub proof fn search_finds_first_place(
    named: Option<Seq<char>>,
    home_known: bool,
    is_at: spec_fn(PlaceView) -> bool,
    looked: int,
)
    requires
        0 <= looked <= cli_places(named, home_known).len(),
    ensures
        match search_outcome(named, home_known, is_at, looked) {
            SearchView::Look(place) => false,
            SearchView::Found(place) => exists|i: int|
                {
                    &&& looked <= i < cli_places(named, home_known).len()
                    &&& place == #[trigger] cli_places(named, home_known)[i]
                    &&& is_at(place)
                    &&& forall|j: int|
                        looked <= j < i ==> !is_at(#[trigger] cli_places(named, home_known)[j])
                },
            _ => forall|j: int|
                looked <= j < cli_places(named, home_known).len() ==> !is_at(
                    #[trigger] cli_places(named, home_known)[j],
                ),
        },
    decreases cli_places(named, home_known).len() - looked,
{
    let places = cli_places(named, home_known);
    if looked < places.len() {
        if is_at(places[looked]) {
            assert(search_outcome(named, home_known, is_at, looked) == SearchView::Found(
                places[looked],
            ));
        } else {
            search_finds_first_place(named, home_known, is_at, looked + 1);
        }
    }
}

/// The message for a search that failed; `shown_path` is how the path is shown that was named.
pub open spec fn search_error_text(search: SearchView, shown_path: Seq<char>) -> Option<Seq<char>> {
    match search {
        SearchView::NotAt(path) => Some("路径不存在: "@ + shown_path),
        SearchView::Nowhere => Some("请安装 Kiro CLI，或指定 cliPath"@),
        _ => None,
    }
}

impl CliSearch {
    /// The message for a search that failed; `shown_path` is how the path is shown that was
    /// named.
    pub fn error_message(&self, shown_path: &str) -> (r: Option<String>)
        ensures
            text::opt_text(r) == search_error_text(self@, shown_path@),
    {
        match self {
            CliSearch::NotAt(_) => Some("路径不存在: ".to_string().concat(shown_path)),
            CliSearch::Nowhere => Some("请安装 Kiro CLI，或指定 cliPath".to_string()),
            _ => None,
        }
    }
}

// ---------------------------------------------------------------------------
// How it is run
// ---------------------------------------------------------------------------

/// A run of the Kiro CLI.
#[derive(Debug, Clone)]
pub struct CliCommand {
    /// Its arguments.
    pub args: Vec<String>,
    /// The environment variables that are taken from it, unless it gets them.
    pub removed: Vec<String>,
    /// The environment variables that it gets, with their values. The last value of one counts.
    pub set: Vec<(String, String)>,
}

/// The contents of a [`CliCommand`].
pub ghost struct CommandView {
    pub args: Seq<Seq<char>>,
    pub removed: Seq<Seq<char>>,
    pub set: Seq<(Seq<char>, Seq<char>)>,
}

/// The contents of a list of pairs.
pub open spec fn pair_texts(pairs: Seq<(String, String)>) -> Seq<(Seq<char>, Seq<char>)> {
    Seq::new(pairs.len(), |i: int| (pairs[i].0@, pairs[i].1@))
}

impl View for CliCommand {
    type V = CommandView;

    open spec fn view(&self) -> CommandView {
        CommandView {
            args: text::texts(self.args@),
            removed: text::texts(self.removed@),
            set: pair_texts(self.set@),
        }
    }
}

/// The environment variables from which the Kiro CLI would take that it runs in a terminal.
pub open spec fn terminal_variables() -> Seq<Seq<char>> {
    seq![
        "STY"@,
        "WINDOW"@,
        "TERMCAP"@,
        "TERM_PROGRAM"@,
        "TERM_PROGRAM_VERSION"@,
        "Q_TERM"@,
        "Q_TERM_TMUX"@,
        "Q_PARENT"@,
        "Q_SET_PARENT"@,
        "Q_SET_PARENT_CHECK"@,
        "Q_NEW_SESSION"@,
    ]
}

/// The value that the last of `pairs` with the name `name` gives to it.
pub open spec fn last_value(pairs: Seq<(Seq<char>, Seq<char>)>, name: Seq<char>) -> Option<
    Seq<char>,
>
    decreases pairs.len(),
{
    if pairs.len() == 0 {
        None
    } else if pairs.last().0 == name {
        Some(pairs.last().1)
    } else {
        last_value(pairs.drop_last(), name)
    }
}

/// The value of the environment variable `name` in a run of the Kiro CLI, where `inherited` tells
/// the values outside: the one that the run gets, or none when the variable is taken from it, or
/// else the one outside.
pub open spec fn child_variable(
    command: CommandView,
    inherited: spec_fn(Seq<char>) -> Option<Seq<char>>,
    name: Seq<char>,
) -> Option<Seq<char>> {
    match last_value(command.set, name) {
        Some(value) => Some(value),
        None => if command.removed.contains(name) {
            None
        } else {
            inherited(name)
        },
    }
}

/// `name` is an environment variable that says nothing of a terminal.
pub open spec fn is_other_variable(name: Seq<char>) -> bool {
    name != "TERM"@ && !terminal_variables().contains(name)
}

/// Being a variable that says nothing of a terminal.
pub open spec fn other_names() -> spec_fn(Seq<char>) -> bool {
    |name: Seq<char>| is_other_variable(name)
}

/// Being the value of a variable that says nothing of a terminal.
pub open spec fn other_pairs() -> spec_fn((Seq<char>, Seq<char>)) -> bool {
    |pair: (Seq<char>, Seq<char>)| is_other_variable(pair.0)
}

/// `command` in an environment without a terminal.
pub open spec fn sanitized(command: CommandView) -> CommandView {
    CommandView {
        removed: command.removed.filter(other_names()) + terminal_variables(),
        set: command.set.filter(other_pairs()).push(("TERM"@, "dumb"@)),
        ..command
    }
}

/// `after` is `before` in an environment without a terminal: its terminal is a dumb one, nothing
/// tells of another, and every other variable is as before, whatever the values outside.
pub open spec fn loses_terminal(before: CommandView, after: CommandView) -> bool {
    &&& after.args == before.args
    &&& forall|inherited: spec_fn(Seq<char>) -> Option<Seq<char>>, name: Seq<char>|
        #[trigger] child_variable(after, inherited, name) == (if name == "TERM"@ {
            Some("dumb"@)
        } else if terminal_variables().contains(name) {
            None
        } else {
            child_variable(before, inherited, name)
        })
}

/// `base` followed by the strings of `more`.
fn push_all(base: &mut Vec<String>, more: &[&str])
    ensures
        text::texts(final(base)@) == text::texts(old(base)@) + text::str_texts(more@),
{
    let ghost start = text::texts(base@);
    let ghost added = text::str_texts(more@);
    let mut i: usize = 0;
    assert(start + added.take(0) =~= start);
    while i < more.len()
        invariant
            i <= more@.len(),
            added == text::str_texts(more@),
            text::texts(base@) == start + added.take(i as int),
        decreases more@.len() - i,
    {
        let ghost before = text::texts(base@);
        base.push(more[i].to_string());
        assert(text::texts(base@) =~= before.push(more@[i as int]@));
        assert(added.take(i + 1) =~= added.take(i as int).push(more@[i as int]@));
        assert(text::texts(base@) =~= start + added.take(i + 1));
        i = i + 1;
    }
    assert(added.take(more@.len() as int) =~= added);
}

/// Neither `TERM` nor the word that a login is remote is one of the variables that are taken away.
proof fn given_variables_are_others()
    ensures
        !terminal_variables().contains("TERM"@),
        is_other_variable("Q_FAKE_IS_REMOTE"@),
{
    reveal_strlit("TERM");
    reveal_strlit("Q_FAKE_IS_REMOTE");
    reveal_strlit("STY");
    reveal_strlit("WINDOW");
    reveal_strlit("TERMCAP");
    reveal_strlit("TERM_PROGRAM");
    reveal_strlit("TERM_PROGRAM_VERSION");
    reveal_strlit("Q_TERM");
    reveal_strlit("Q_TERM_TMUX");
    reveal_strlit("Q_PARENT");
    reveal_strlit("Q_SET_PARENT");
    reveal_strlit("Q_SET_PARENT_CHECK");
    reveal_strlit("Q_NEW_SESSION");
    assert forall|i: int| 0 <= i < terminal_variables().len() implies (
    #[trigger] terminal_variables()[i]) != "TERM"@ && terminal_variables()[i]
        != "Q_FAKE_IS_REMOTE"@ by {
        assert(terminal_variables()[i].len() != "TERM"@.len());
        assert(terminal_variables()[i].len() != "Q_FAKE_IS_REMOTE"@.len());
    }
    assert("Q_FAKE_IS_REMOTE"@.len() != "TERM"@.len());
}

/// What is left of `names` without those that tell of a terminal.
proof fn other_names_are_left(names: Seq<Seq<char>>, name: Seq<char>)
    ensures
        names.filter(other_names()).contains(name) == (names.contains(name) && is_other_variable(
            name,
        )),
    decreases names.len(),
{
    reveal(Seq::filter);
    if names.len() > 0 {
        let rest = names.drop_last();
        let kept = rest.filter(other_names());
        let all = names.filter(other_names());
        other_names_are_left(rest, name);
        if names.contains(name) && name != names.last() {
            let k = choose|k: int| 0 <= k < names.len() && names[k] == name;
            assert(rest[k] == name);
        }
        if rest.contains(name) {
            let k = choose|k: int| 0 <= k < rest.len() && rest[k] == name;
            assert(names[k] == name);
        }
        assert(names[names.len() - 1] == names.last());
        if is_other_variable(names.last()) {
            assert(all == kept.push(names.last()));
            assert(all[kept.len() as int] == names.last());
            if kept.contains(name) {
                let k = choose|k: int| 0 <= k < kept.len() && kept[k] == name;
                assert(all[k] == name);
            }
            if all.contains(name) && name != names.last() {
                let k = choose|k: int| 0 <= k < all.len() && all[k] == name;
                assert(kept[k] == name);
            }
        }
    }
}

/// What values are left in `pairs` without those that tell of a terminal.
proof fn other_values_are_left(pairs: Seq<(Seq<char>, Seq<char>)>, name: Seq<char>)
    ensures
        last_value(pairs.filter(other_pairs()), name) == (if is_other_variable(name) {
            last_value(pairs, name)
        } else {
            None
        }),
    decreases pairs.len(),
{
    reveal(Seq::filter);
    if pairs.len() > 0 {
        let kept = pairs.drop_last().filter(other_pairs());
        other_values_are_left(pairs.drop_last(), name);
        if is_other_variable(pairs.last().0) {
            assert(pairs.filter(other_pairs()) == kept.push(pairs.last()));
            assert(kept.push(pairs.last()).drop_last() =~= kept);
        }
    }
}

/// A sanitized run of the Kiro CLI gets a dumb terminal and nothing that tells of another, and
/// every other variable as before, whatever it got and lost before and whatever the values outside.
pub proof fn sanitized_run_has_no_terminal(command: CommandView)
    ensures
        loses_terminal(command, sanitized(command)),
{
    let after = sanitized(command);
    given_variables_are_others();
    assert forall|inherited: spec_fn(Seq<char>) -> Option<Seq<char>>, name: Seq<char>|
        #[trigger] child_variable(after, inherited, name) == (if name == "TERM"@ {
            Some("dumb"@)
        } else if terminal_variables().contains(name) {
            None
        } else {
            child_variable(command, inherited, name)
        }) by {
        let kept = command.removed.filter(other_names());
        let values = command.set.filter(other_pairs());
        assert(after.set.drop_last() =~= values);
        assert(after.set.last() == ("TERM"@, "dumb"@));
        other_values_are_left(command.set, name);
        other_names_are_left(command.removed, name);
        if terminal_variables().contains(name) {
            let k = choose|k: int|
                0 <= k < terminal_variables().len() && terminal_variables()[k] == name;
            assert(after.removed[kept.len() + k] == name);
        } else {
            if kept.contains(name) {
                let k = choose|k: int| 0 <= k < kept.len() && kept[k] == name;
                assert(after.removed[k] == name);
            }
            if after.removed.contains(name) {
                let k = choose|k: int| 0 <= k < after.removed.len() && after.removed[k] == name;
                if k >= kept.len() {
                    assert(terminal_variables()[k - kept.len()] == name);
                }
                assert(kept[k] == name);
            }
        }
    }
}

/// Sanitizing a run of the Kiro CLI once more changes nothing.
pub proof fn sanitizing_again_changes_nothing(command: CommandView)
    ensures
        sanitized(sanitized(command)) == sanitized(command),
{
    reveal(Seq::filter);
    let once = sanitized(command);
    let kept = command.removed.filter(other_names());
    let values = command.set.filter(other_pairs());
    filter_drops_terminal(kept, terminal_variables().len() as int);
    assert(terminal_variables().take(terminal_variables().len() as int) =~= terminal_variables());
    filtering_again_changes_nothing(command.removed, other_names());
    filtering_again_changes_nothing(command.set, other_pairs());
    assert(once.set.drop_last() =~= values);
    assert(once.set.last() == ("TERM"@, "dumb"@));
    assert(once.set.filter(other_pairs()) == values);
    assert(once.removed.filter(other_names()) == kept);
}

/// The variables that tell of a terminal do not pass.
proof fn filter_drops_terminal(kept: Seq<Seq<char>>, n: int)
    requires
        0 <= n <= terminal_variables().len(),
    ensures
        (kept + terminal_variables().take(n)).filter(other_names()) == kept.filter(other_names()),
    decreases n,
{
    reveal(Seq::filter);
    let all = kept + terminal_variables().take(n);
    if n == 0 {
        assert(all =~= kept);
    } else {
        filter_drops_terminal(kept, n - 1);
        assert(all.drop_last() =~= kept + terminal_variables().take(n - 1));
        assert(all.last() == terminal_variables()[n - 1]);
        assert(terminal_variables().contains(all.last()));
    }
}

/// What has passed passes again.
proof fn filtering_again_changes_nothing<A>(s: Seq<A>, pass: spec_fn(A) -> bool)
    ensures
        s.filter(pass).filter(pass) == s.filter(pass),
    decreases s.len(),
{
    reveal(Seq::filter);
    if s.len() > 0 {
        filtering_again_changes_nothing(s.drop_last(), pass);
        let kept = s.drop_last().filter(pass);
        assert(kept.push(s.last()).drop_last() =~= kept);
    }
}

/// Tells whether `name` says nothing of a terminal.
fn says_nothing_of_terminal(name: &str) -> (r: bool)
    ensures
        r == is_other_variable(name@),
{
    let variables: [&str; 11] = terminal_variable_names();
    let mut i: usize = 0;
    while i < 11
        invariant
            i <= 11,
            text::str_texts(variables@) == terminal_variables(),
            forall|j: int| 0 <= j < i ==> terminal_variables()[j] != name@,
        decreases 11 - i,
    {
        assert(text::str_texts(variables@)[i as int] == variables@[i as int]@);
        if same_text(variables[i], name) {
            assert(terminal_variables()[i as int] == name@);
            return false;
        }
        i = i + 1;
    }
    !same_text(name, "TERM")
}

/// The environment variables from which the Kiro CLI would take that it runs in a terminal.
fn terminal_variable_names() -> (r: [&'static str; 11])
    ensures
        text::str_texts(r@) == terminal_variables(),
{
    let variables: [&str; 11] = [
        "STY",
        "WINDOW",
        "TERMCAP",
        "TERM_PROGRAM",
        "TERM_PROGRAM_VERSION",
        "Q_TERM",
        "Q_TERM_TMUX",
        "Q_PARENT",
        "Q_SET_PARENT",
        "Q_SET_PARENT_CHECK",
        "Q_NEW_SESSION",
    ];
    assert(text::str_texts(variables@) =~= terminal_variables());
    variables
}

/// Those of `names` that say nothing of a terminal.
fn without_terminal_names(names: &Vec<String>) -> (r: Vec<String>)
    ensures
        text::texts(r@) == text::texts(names@).filter(other_names()),
{
    let ghost all = text::texts(names@);
    let mut out: Vec<String> = Vec::new();
    let mut i: usize = 0;
    proof {
        reveal(Seq::filter);
        assert(all.take(0) =~= seq![]);
        assert(text::texts(out@) =~= seq![]);
    }
    while i < names.len()
        invariant
            i <= names@.len(),
            all == text::texts(names@),
            text::texts(out@) == all.take(i as int).filter(other_names()),
        decreases names@.len() - i,
    {
        proof {
            reveal(Seq::filter);
            assert(all.take(i + 1).drop_last() =~= all.take(i as int));
            assert(all.take(i + 1).last() == names@[i as int]@);
        }
        if says_nothing_of_terminal(names[i].as_str()) {
            let ghost before = text::texts(out@);
            out.push(names[i].clone());
            assert(text::texts(out@) =~= before.push(names@[i as int]@));
        }
        i = i + 1;
    }
    assert(all.take(names@.len() as int) =~= all);
    out
}

/// Those of `pairs` that say nothing of a terminal.
fn without_terminal_values(pairs: &Vec<(String, String)>) -> (r: Vec<(String, String)>)
    ensures
        pair_texts(r@) == pair_texts(pairs@).filter(other_pairs()),
{
    let ghost all = pair_texts(pairs@);
    let mut out: Vec<(String, String)> = Vec::new();
    let mut i: usize = 0;
    proof {
        reveal(Seq::filter);
        assert(all.take(0) =~= seq![]);
        assert(pair_texts(out@) =~= seq![]);
    }
    while i < pairs.len()
        invariant
            i <= pairs@.len(),
            all == pair_texts(pairs@),
            pair_texts(out@) == all.take(i as int).filter(other_pairs()),
        decreases pairs@.len() - i,
    {
        let ghost pair = (pairs@[i as int].0@, pairs@[i as int].1@);
        proof {
            reveal(Seq::filter);
            assert(all.take(i + 1).drop_last() =~= all.take(i as int));
            assert(all.take(i + 1).last() == pair);
        }
        if says_nothing_of_terminal(pairs[i].0.as_str()) {
            let ghost before = pair_texts(out@);
            out.push((pairs[i].0.clone(), pairs[i].1.clone()));
            assert(pair_texts(out@) =~= before.push(pair));
        }
        i = i + 1;
    }
    assert(all.take(pairs@.len() as int) =~= all);
    out
}

/// Takes everything from the environment of `command` that tells of a terminal.
pub fn sanitize_kiro_cli_env(command: &mut CliCommand)
    ensures
        final(command)@ == sanitized(old(command)@),
        loses_terminal(old(command)@, final(command)@),
{
    let ghost start = command@;
    let mut removed = without_terminal_names(&command.removed);
    push_all(&mut removed, &terminal_variable_names());
    let mut set = without_terminal_values(&command.set);
    let ghost before = pair_texts(set@);
    set.push(("TERM".to_string(), "dumb".to_string()));
    assert(pair_texts(set@) =~= before.push(("TERM"@, "dumb"@)));
    command.removed = removed;
    command.set = set;
    proof {
        assert(command@ == sanitized(start));
        sanitized_run_has_no_terminal(start);
    }
}

/// A run of the Kiro CLI with these arguments.
pub open spec fn bare_command(args: Seq<Seq<char>>) -> CommandView {
    CommandView { args, removed: seq![], set: seq![] }
}

/// A run of the Kiro CLI with these arguments in an environment without a terminal.
fn sanitized_command(args: Vec<String>) -> (r: CliCommand)
    ensures
        r@ == sanitized(bare_command(text::texts(args@))),
{
    let mut command = CliCommand { args, removed: Vec::new(), set: Vec::new() };
    assert(command@.removed =~= seq![]);
    assert(command@.set =~= seq![]);
    sanitize_kiro_cli_env(&mut command);
    command
}

/// The run that ends the current login of the Kiro CLI.
pub open spec fn logout_run() -> CommandView {
    sanitized(bare_command(seq!["logout"@, "-v"@]))
}

/// The run that ends the current login of the Kiro CLI.
pub fn logout_command() -> (r: CliCommand)
    ensures
        r@ == logout_run(),
{
    let mut args: Vec<String> = Vec::new();
    let words: [&str; 2] = ["logout", "-v"];
    push_all(&mut args, &words);
    assert(text::texts(args@) =~= seq!["logout"@, "-v"@]);
    sanitized_command(args)
}

/// How to log in with the Kiro CLI.
#[derive(Debug)]
pub struct LoginSettings<'a> {
    pub use_device_flow: bool,
    pub license: Option<&'a str>,
    pub identity_provider: Option<&'a str>,
    pub region: Option<&'a str>,
}

/// The contents of [`LoginSettings`].
pub ghost struct LoginSettingsView {
    pub use_device_flow: bool,
    pub license: Option<Seq<char>>,
    pub identity_provider: Option<Seq<char>>,
    pub region: Option<Seq<char>>,
}

impl<'a> View for LoginSettings<'a> {
    type V = LoginSettingsView;

    open spec fn view(&self) -> LoginSettingsView {
        LoginSettingsView {
            use_device_flow: self.use_device_flow,
            license: text::opt_str(self.license),
            identity_provider: text::opt_str(self.identity_provider),
            region: text::opt_str(self.region),
        }
    }
}

/// The option `name` with its value, where there is one that is not blank.
pub open spec fn option_args(name: Seq<char>, value: Option<Seq<char>>) -> Seq<Seq<char>> {
    match text::opt_non_blank(value) {
        Some(value) => seq![name, value],
        None => seq![],
    }
}

/// The arguments of a login.
pub open spec fn login_args(settings: LoginSettingsView) -> Seq<Seq<char>> {
    let flow = if settings.use_device_flow {
        seq!["--use-device-flow"@]
    } else {
        seq![]
    };
    let license = match text::opt_non_blank(settings.license) {
        Some(license) => license,
        None => "free"@,
    };
    seq!["login"@] + flow + seq!["--license"@, license, "-v"@] + option_args(
        "--identity-provider"@,
        settings.identity_provider,
    ) + option_args("--region"@, settings.region)
}

/// The run that logs in with the Kiro CLI.
pub open spec fn login_run(settings: LoginSettingsView) -> CommandView {
    let run = sanitized(bare_command(login_args(settings)));
    if settings.use_device_flow {
        CommandView { set: run.set.push(("Q_FAKE_IS_REMOTE"@, "1"@)), ..run }
    } else {
        run
    }
}

/// Adds the option `name` with its value, where there is one that is not blank.
fn push_option(args: &mut Vec<String>, name: &str, value: Option<&str>)
    ensures
        text::texts(final(args)@) == text::texts(old(args)@) + option_args(
            name@,
            text::opt_str(value),
        ),
{
    let ghost before = text::texts(args@);
    if let Some(value) = value {
        if let Some(value) = non_empty_str(value) {
            let option: [&str; 2] = [name, value];
            push_all(args, &option);
            assert(text::str_texts(option@) =~= seq![name@, value@]);
            return;
        }
    }
    assert(before + Seq::<Seq<char>>::empty() =~= before);
}

/// The arguments of a login.
fn login_arguments(settings: &LoginSettings) -> (r: Vec<String>)
    ensures
        text::texts(r@) == login_args(settings@),
{
    let mut args: Vec<String> = Vec::new();
    let mut license: &str = "free";
    if let Some(named) = settings.license {
        if let Some(named) = non_empty_str(named) {
            license = named;
        }
    }
    let login: [&str; 1] = ["login"];
    push_all(&mut args, &login);
    assert(text::texts(args@) =~= seq!["login"@]);
    if settings.use_device_flow {
        let flow: [&str; 1] = ["--use-device-flow"];
        push_all(&mut args, &flow);
        assert(text::str_texts(flow@) =~= seq!["--use-device-flow"@]);
    }
    let rest: [&str; 3] = ["--license", license, "-v"];
    push_all(&mut args, &rest);
    assert(text::str_texts(rest@) =~= seq!["--license"@, license@, "-v"@]);
    push_option(&mut args, "--identity-provider", settings.identity_provider);
    push_option(&mut args, "--region", settings.region);
    assert(text::texts(args@) =~= login_args(settings@));
    args
}

/// The run that logs in with the Kiro CLI.
pub fn login_command(settings: &LoginSettings) -> (r: CliCommand)
    ensures
        r@ == login_run(settings@),
{
    let mut command = sanitized_command(login_arguments(settings));
    if settings.use_device_flow {
        let ghost before = command@;
        command.set.push(("Q_FAKE_IS_REMOTE".to_string(), "1".to_string()));
        assert(command@.set =~= before.set.push(("Q_FAKE_IS_REMOTE"@, "1"@)));
    }
    command
}

/// A login gets a dumb terminal, nothing that tells of another, the word that it is remote when it
/// goes without a browser on this machine, and every other variable as it is outside.
pub proof fn login_environment(
    settings: LoginSettingsView,
    inherited: spec_fn(Seq<char>) -> Option<Seq<char>>,
    name: Seq<char>,
)
    ensures
        child_variable(login_run(settings), inherited, name) == (if name == "TERM"@ {
            Some("dumb"@)
        } else if terminal_variables().contains(name) {
            None
        } else if settings.use_device_flow && name == "Q_FAKE_IS_REMOTE"@ {
            Some("1"@)
        } else {
            inherited(name)
        }),
        child_variable(logout_run(), inherited, name) == (if name == "TERM"@ {
            Some("dumb"@)
        } else if terminal_variables().contains(name) {
            None
        } else {
            inherited(name)
        }),
{
    let bare = bare_command(login_args(settings));
    let run = sanitized(bare);
    sanitized_run_has_no_terminal(bare);
    let out = bare_command(seq!["logout"@, "-v"@]);
    sanitized_run_has_no_terminal(out);
    assert(child_variable(run, inherited, name) == child_variable(run, inherited, name));
    assert(child_variable(bare, inherited, name) == inherited(name));
    assert(child_variable(out, inherited, name) == inherited(name));
    if settings.use_device_flow {
        given_variables_are_others();
        let remote = login_run(settings);
        assert(remote.set.drop_last() =~= run.set);
        assert(remote.set.last() == ("Q_FAKE_IS_REMOTE"@, "1"@));
    }
}

// ---------------------------------------------------------------------------
// How it ended
// ---------------------------------------------------------------------------

/// How the end of a run is shown: by its exit code, or as a signal where it has none.
pub open spec fn exit_text(code: Option<i32>) -> Seq<char> {
    match code {
        Some(code) => decimal::signed_decimal(code as int),
        None => "signal"@,
    }
}

/// How the end of a run is shown.
pub fn shown_exit(code: Option<i32>) -> (r: String)
    ensures
        r@ == exit_text(code),
{
    match code {
        Some(code) => i64_text(code as i64),
        None => "signal".to_string(),
    }
}

/// The output of a logout says that there was no login.
pub open spec fn says_no_login(output: Seq<char>) -> bool {
    let lower = text::lowered(output);
    text::has_text(lower, "not logged in"@) || text::has_text(lower, "not currently logged"@)
        || text::has_text(lower, "no valid token"@)
}

/// Tells whether a logout with this output failed only because there was no login.
pub fn logout_failure_is_safe(output: &str) -> (r: bool)
    ensures
        r == says_no_login(output@),
{
    let lower = ascii_lowercase(output);
    chars_contain(&lower, &chars_of("not logged in")) || chars_contain(
        &lower,
        &chars_of("not currently logged"),
    ) || chars_contain(&lower, &chars_of("no valid token"))
}

/// `status` after a logout that printed this.
pub open spec fn after_logout(
    status: StatusView,
    ready: bool,
    stdout: Seq<char>,
    stderr: Seq<char>,
) -> StatusView {
    let shown = status.prints_all(words::trimmed_lines(stdout)).prints_all(
        words::trimmed_lines(stderr),
    );
    if ready {
        shown.prints("已准备好登录新的官方 Kiro CLI 账号"@)
    } else {
        shown
    }
}

/// After a logout that ended like this, a new login can begin.
pub open spec fn is_logged_out(success: bool, stdout: Seq<char>, stderr: Seq<char>) -> bool {
    success || says_no_login(stdout + "\n"@ + stderr)
}

/// Records what a logout printed and tells whether a new login can begin; if not, the error says
/// how the logout ended.
pub fn run_kiro_cli_logout(
    status: &mut KiroCliOAuthLoginStatus,
    success: bool,
    code: Option<i32>,
    stdout: &str,
    stderr: &str,
) -> (r: Result<(), String>)
    ensures
        final(status)@ == after_logout(
            old(status)@,
            is_logged_out(success, stdout@, stderr@),
            stdout@,
            stderr@,
        ),
        match r {
            Ok(_) => is_logged_out(success, stdout@, stderr@),
            Err(message) => !is_logged_out(success, stdout@, stderr@) && message@
                == "logout 退出码: "@ + exit_text(code),
        },
{
    let combined = stdout.to_string().concat("\n").concat(stderr);
    let lines = split_trimmed_lines(stdout);
    push_oauth_lines(status, &lines);
    let lines = split_trimmed_lines(stderr);
    push_oauth_lines(status, &lines);
    if success || logout_failure_is_safe(combined.as_str()) {
        push_oauth_output(status, "已准备好登录新的官方 Kiro CLI 账号");
        return Ok(());
    }
    Err("logout 退出码: ".to_string().concat(shown_exit(code).as_str()))
}

// ---------------------------------------------------------------------------
// Part by part
// ---------------------------------------------------------------------------

/// Where a path is named that is not blank, that path and no other is looked at.
pub proof fn named_path_is_the_only_place(named: Seq<char>, home_known: bool, looked: int)
    requires
        looked >= 1,
    ensures
        text::trimmed(named).len() > 0 ==> {
            let path = paths::expanded(text::trimmed(named), home_known);
            &&& search_step(Some(named), home_known, 0, false) == SearchView::Look(
                PlaceView::At(path),
            )
            &&& search_step(Some(named), home_known, 1, true) == SearchView::Found(
                PlaceView::At(path),
            )
            &&& search_step(Some(named), home_known, 0, true) == SearchView::Look(
                PlaceView::At(path),
            )
            &&& search_step(Some(named), home_known, looked, false) == SearchView::NotAt(path)
            &&& search_step(Some(named), home_known, looked + 1, true) == SearchView::NotAt(path)
        },
{
}

/// Where no path is named, or a blank one, the search path is looked through for two names, then
/// the places where the Kiro CLI is installed.
pub proof fn usual_places_are_looked_at(named: Option<Seq<char>>, home_known: bool, looked: int)
    requires
        named matches Some(path) ==> text::trimmed(path).len() == 0,
        looked >= 12,
    ensures
        ({
            &&& search_step(named, home_known, 0, false) == SearchView::Look(
                PlaceView::OnSearchPath("kiro-cli"@),
            )
            &&& search_step(named, home_known, 1, false) == SearchView::Look(
                PlaceView::OnSearchPath("kiro"@),
            )
            &&& search_step(named, home_known, 1, true) == SearchView::Found(
                PlaceView::OnSearchPath("kiro-cli"@),
            )
            &&& search_step(named, home_known, 2, true) == SearchView::Found(
                PlaceView::OnSearchPath("kiro"@),
            )
            &&& search_step(named, home_known, 2, false) == SearchView::Look(
                PlaceView::At(PathView::Literal("/Applications/Kiro CLI.app/Contents/MacOS/kiro-cli"@)),
            )
            &&& search_step(named, home_known, 3, true) == SearchView::Found(
                PlaceView::At(PathView::Literal("/Applications/Kiro CLI.app/Contents/MacOS/kiro-cli"@)),
            )
            &&& search_step(named, home_known, 3, false) == SearchView::Look(
                PlaceView::At(PathView::Literal("/Applications/Kiro.app/Contents/MacOS/kiro-cli"@)),
            )
            &&& search_step(named, home_known, 4, true) == SearchView::Found(
                PlaceView::At(PathView::Literal("/Applications/Kiro.app/Contents/MacOS/kiro-cli"@)),
            )
            &&& search_step(named, home_known, 4, false) == SearchView::Look(
                PlaceView::At(PathView::Literal("/usr/bin/kiro-cli"@)),
            )
            &&& search_step(named, home_known, 5, true) == SearchView::Found(
                PlaceView::At(PathView::Literal("/usr/bin/kiro-cli"@)),
            )
            &&& search_step(named, home_known, 5, false) == SearchView::Look(
                PlaceView::At(PathView::Literal("/usr/local/bin/kiro-cli"@)),
            )
            &&& search_step(named, home_known, 6, true) == SearchView::Found(
                PlaceView::At(PathView::Literal("/usr/local/bin/kiro-cli"@)),
            )
            &&& search_step(named, home_known, 6, false) == SearchView::Look(
                PlaceView::At(PathView::Literal("/usr/bin/kiro"@)),
            )
            &&& search_step(named, home_known, 7, true) == SearchView::Found(
                PlaceView::At(PathView::Literal("/usr/bin/kiro"@)),
            )
            &&& search_step(named, home_known, 7, false) == SearchView::Look(
                PlaceView::At(PathView::Literal("/usr/local/bin/kiro"@)),
            )
            &&& search_step(named, home_known, 8, true) == SearchView::Found(
                PlaceView::At(PathView::Literal("/usr/local/bin/kiro"@)),
            )
            &&& search_step(named, home_known, 8, false) == SearchView::Look(
                PlaceView::At(PathView::Literal("/opt/kiro/kiro-cli"@)),
            )
            &&& search_step(named, home_known, 9, true) == SearchView::Found(
                PlaceView::At(PathView::Literal("/opt/kiro/kiro-cli"@)),
            )
            &&& search_step(named, home_known, 9, false) == SearchView::Look(
                PlaceView::At(PathView::Literal("/opt/Kiro/kiro-cli"@)),
            )
            &&& search_step(named, home_known, 10, true) == SearchView::Found(
                PlaceView::At(PathView::Literal("/opt/Kiro/kiro-cli"@)),
            )
            &&& search_step(named, home_known, 10, false) == SearchView::Look(
                PlaceView::At(PathView::Literal("/opt/Kiro/resources/app/bin/kiro-cli"@)),
            )
            &&& search_step(named, home_known, 11, true) == SearchView::Found(
                PlaceView::At(PathView::Literal("/opt/Kiro/resources/app/bin/kiro-cli"@)),
            )
            &&& search_step(named, home_known, 11, false) == SearchView::Look(
                PlaceView::At(PathView::Literal("/opt/homebrew/bin/kiro-cli"@)),
            )
            &&& search_step(named, home_known, 12, true) == SearchView::Found(
                PlaceView::At(PathView::Literal("/opt/homebrew/bin/kiro-cli"@)),
            )
            &&& search_step(named, home_known, 0, true) == SearchView::Look(
                PlaceView::OnSearchPath("kiro-cli"@),
            )
            &&& search_step(named, home_known, looked, false) == SearchView::Nowhere
            &&& search_step(named, home_known, looked + 1, true) == SearchView::Nowhere
        }),
{
}

/// A search that failed says which path does not exist, or that there is no Kiro CLI; a search that
/// goes on or found something says nothing.
pub proof fn failed_search_is_explained(
    path: PathView,
    place: PlaceView,
    shown_path: Seq<char>,
)
    ensures
        search_error_text(SearchView::NotAt(path), shown_path) == Some(
            "路径不存在: "@ + shown_path,
        ),
        search_error_text(SearchView::Nowhere, shown_path) == Some(
            "请安装 Kiro CLI，或指定 cliPath"@,
        ),
        search_error_text(SearchView::Found(place), shown_path) is None,
        search_error_text(SearchView::Look(place), shown_path) is None,
{
}

/// The variables that tell of a terminal are these.
pub proof fn terminal_variables_are_named(name: Seq<char>)
    ensures
        terminal_variables().contains(name) <==> {
            ||| name == "STY"@
            ||| name == "WINDOW"@
            ||| name == "TERMCAP"@
            ||| name == "TERM_PROGRAM"@
            ||| name == "TERM_PROGRAM_VERSION"@
            ||| name == "Q_TERM"@
            ||| name == "Q_TERM_TMUX"@
            ||| name == "Q_PARENT"@
            ||| name == "Q_SET_PARENT"@
            ||| name == "Q_SET_PARENT_CHECK"@
            ||| name == "Q_NEW_SESSION"@
        },
{
    assert(terminal_variables()[0] == "STY"@);
    assert(terminal_variables()[1] == "WINDOW"@);
    assert(terminal_variables()[2] == "TERMCAP"@);
    assert(terminal_variables()[3] == "TERM_PROGRAM"@);
    assert(terminal_variables()[4] == "TERM_PROGRAM_VERSION"@);
    assert(terminal_variables()[5] == "Q_TERM"@);
    assert(terminal_variables()[6] == "Q_TERM_TMUX"@);
    assert(terminal_variables()[7] == "Q_PARENT"@);
    assert(terminal_variables()[8] == "Q_SET_PARENT"@);
    assert(terminal_variables()[9] == "Q_SET_PARENT_CHECK"@);
    assert(terminal_variables()[10] == "Q_NEW_SESSION"@);
    if terminal_variables().contains(name) {
        let k = choose|k: int| 0 <= k < terminal_variables().len() && terminal_variables()[k] == name;
        assert(0 <= k < 11);
    }
}

/// A run gets the value that was set last. A variable that is not set is not there when it is taken
/// away, and is as outside otherwise.
pub proof fn last_value_counts(
    command: CommandView,
    inherited: spec_fn(Seq<char>) -> Option<Seq<char>>,
    name: Seq<char>,
    other: Seq<char>,
    value: Seq<char>,
)
    ensures
        ({
            let more = (CommandView { set: command.set.push((other, value)), ..command });
            &&& name == other ==> child_variable(more, inherited, name) == Some(value)
            &&& name != other ==> child_variable(more, inherited, name) == child_variable(
                command,
                inherited,
                name,
            )
        }),
        command.set.len() == 0 && command.removed.contains(name) ==> child_variable(
            command,
            inherited,
            name,
        ) is None,
        command.set.len() == 0 && !command.removed.contains(name) ==> child_variable(
            command,
            inherited,
            name,
        ) == inherited(name),
{
    assert(command.set.push((other, value)).drop_last() =~= command.set);
    assert(command.set.push((other, value)).last() == (other, value));
}

/// A run without a terminal keeps its arguments, has a dumb terminal, none of the variables that
/// tell of one, and every other variable as before.
pub proof fn lost_terminal_is_lost(
    before: CommandView,
    after: CommandView,
    inherited: spec_fn(Seq<char>) -> Option<Seq<char>>,
    name: Seq<char>,
)
    requires
        loses_terminal(before, after),
    ensures
        after.args == before.args,
        child_variable(after, inherited, "TERM"@) == Some("dumb"@),
        terminal_variables().contains(name) ==> child_variable(after, inherited, name) is None,
        name != "TERM"@ && !terminal_variables().contains(name) ==> child_variable(
            after,
            inherited,
            name,
        ) == child_variable(before, inherited, name),
{
    given_variables_are_others();
}

/// What a run is to the Kiro CLI are its arguments and the two lists of variables.
pub proof fn run_is_its_lists(command: CliCommand, i: int)
    ensures
        command@.args.len() == command.args@.len(),
        command@.removed.len() == command.removed@.len(),
        command@.set.len() == command.set@.len(),
        0 <= i < command.args@.len() ==> command@.args[i] == command.args@[i]@,
        0 <= i < command.removed@.len() ==> command@.removed[i] == command.removed@[i]@,
        0 <= i < command.set@.len() ==> command@.set[i] == (
            command.set@[i].0@,
            command.set@[i].1@,
        ),
{
}

/// A logout has two arguments. A login names its license, which is the free one unless another is
/// given, and after that the identity provider and the region where they are given.
pub proof fn arguments_are_those_of_the_settings(settings: LoginSettingsView)
    ensures
        logout_run().args == seq!["logout"@, "-v"@],
        ({
            let args = login_run(settings).args;
            let license = match text::opt_non_blank(settings.license) {
                Some(license) => license,
                None => "free"@,
            };
            let flow = seq!["login"@, "--use-device-flow"@, "--license"@, license, "-v"@];
            let browser = seq!["login"@, "--license"@, license, "-v"@];
            let start = if settings.use_device_flow {
                flow
            } else {
                browser
            };
            match (
                text::opt_non_blank(settings.identity_provider),
                text::opt_non_blank(settings.region),
            ) {
                (None, None) => args == start,
                (Some(provider), None) => args == start + seq!["--identity-provider"@, provider],
                (None, Some(region)) => args == start + seq!["--region"@, region],
                (Some(provider), Some(region)) => args == start + seq![
                    "--identity-provider"@,
                    provider,
                    "--region"@,
                    region,
                ],
            }
        }),
{
    let license = match text::opt_non_blank(settings.license) {
        Some(license) => license,
        None => "free"@,
    };
    let start = if settings.use_device_flow {
        seq!["login"@, "--use-device-flow"@, "--license"@, license, "-v"@]
    } else {
        seq!["login"@, "--license"@, license, "-v"@]
    };
    assert(login_args(settings) =~= start + option_args(
        "--identity-provider"@,
        settings.identity_provider,
    ) + option_args("--region"@, settings.region));
    match (text::opt_non_blank(settings.identity_provider), text::opt_non_blank(settings.region)) {
        (Some(provider), Some(region)) => {
            assert(login_args(settings) =~= start + seq![
                "--identity-provider"@,
                provider,
                "--region"@,
                region,
            ]);
        },
        _ => {},
    }
}

/// An exit code is shown by its digits, with a sign where it is negative; a run without one was
/// ended by a signal.
pub proof fn exit_is_shown(code: i32)
    ensures
        exit_text(None) == "signal"@,
        code >= 0 ==> exit_text(Some(code)) == decimal::decimal(code as nat),
        code < 0 ==> exit_text(Some(code)) == seq!['-'] + decimal::decimal((-code) as nat),
{
}

/// Three ways of saying that nobody is logged in are known, in any case of their letters and
/// anywhere in the output of a logout.
pub proof fn missing_login_is_recognised(before: Seq<char>, said: Seq<char>, after: Seq<char>)
    requires
        text::lowered(said) == "not logged in"@ || text::lowered(said) == "not currently logged"@
            || text::lowered(said) == "no valid token"@,
    ensures
        says_no_login(before + said + after),
{
    let whole = before + said + after;
    assert(text::lowered(whole) =~= text::lowered(before) + text::lowered(said) + text::lowered(
        after,
    ));
    text::text_stands_in_its_surroundings(
        text::lowered(before),
        text::lowered(said),
        text::lowered(after),
    );
}

/// An output without any of the three does not say that nobody is logged in.
pub proof fn other_output_says_nothing_of_it(output: Seq<char>)
    requires
        !text::has_text(text::lowered(output), "not logged in"@),
        !text::has_text(text::lowered(output), "not currently logged"@),
        !text::has_text(text::lowered(output), "no valid token"@),
    ensures
        !says_no_login(output),
{
}

/// A logout that succeeded, or whose output says that nobody is logged in, clears the way for a
/// login, and that is printed behind its lines; any other prints its lines only.
pub proof fn logout_clears_the_way(status: StatusView, stdout: Seq<char>, stderr: Seq<char>)
    ensures
        is_logged_out(true, stdout, stderr),
        is_logged_out(false, stdout, stderr) == says_no_login(stdout + seq!['\n'] + stderr),
        after_logout(status, false, stdout, stderr) == status.prints_all(
            words::trimmed_lines(stdout),
        ).prints_all(words::trimmed_lines(stderr)),
        after_logout(status, true, stdout, stderr) == status.prints_all(
            words::trimmed_lines(stdout),
        ).prints_all(words::trimmed_lines(stderr)).prints(
            "已准备好登录新的官方 Kiro CLI 账号"@,
        ),
{
    reveal_strlit("\n");
    assert("\n"@ =~= seq!['\n']);
}

/// A place is a path or a name on the search path, and a search looks at a place, found one, missed
/// the path that was named, or is nowhere.
pub proof fn searches_are_what_they_name(path: UserPath, place: CliPlace, name: String)
    ensures
        CliPlace::At(path)@ == PlaceView::At(path@),
        CliPlace::OnSearchPath(name)@ == PlaceView::OnSearchPath(name@),
        CliSearch::Look(place)@ == SearchView::Look(place@),
        CliSearch::Found(place)@ == SearchView::Found(place@),
        CliSearch::NotAt(path)@ == SearchView::NotAt(path@),
        CliSearch::Nowhere@ == SearchView::Nowhere,
{
}

/// How to log in is said by four settings.
pub proof fn login_settings_are_four(settings: LoginSettings)
    ensures
        settings@.use_device_flow == settings.use_device_flow,
        settings@.license == text::opt_str(settings.license),
        settings@.identity_provider == text::opt_str(settings.identity_provider),
        settings@.region == text::opt_str(settings.region),
{
}

} // verus!
