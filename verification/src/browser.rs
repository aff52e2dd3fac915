//! Opening a login page in a browser.
use crate::decimal;
use crate::decimal::{i64_text, u64_text};
use crate::paths;
use crate::paths::{PathView, UserPath};
use crate::text;
use crate::text::{is_among, same_text};
use vstd::prelude::*;
use vstd::string::*;

verus! {

/// How a page was opened.
#[derive(Debug, Clone, Copy, PartialEq, Eq, Structural)]
pub enum BrowserOpenResult {
    /// In a browser with a profile of its own.
    Isolated,
    /// In the default browser.
    Default,
    /// Not at all.
    Failed,
}

/// What to do next in order to open a page.
#[derive(Debug, Clone, Copy, PartialEq, Eq, Structural)]
pub enum BrowserStep {
    /// Try a browser with a profile of its own.
    TryIsolated,
    /// Try the default browser.
    TryDefault,
    /// Nothing: this came of it.
    Over(BrowserOpenResult),
}

/// What to do next in order to open a page, when the two ways of opening it have succeeded, failed
/// or not been tried.
pub open spec fn browser_step(
    prefer_isolated: bool,
    isolated: Option<bool>,
    default: Option<bool>,
) -> BrowserStep {
    if prefer_isolated && isolated is None {
        BrowserStep::TryIsolated
    } else if prefer_isolated && isolated == Some(true) {
        BrowserStep::Over(BrowserOpenResult::Isolated)
    } else {
        match default {
            None => BrowserStep::TryDefault,
            Some(opened) => BrowserStep::Over(
                if opened {
                    BrowserOpenResult::Default
                } else {
                    BrowserOpenResult::Failed
                },
            ),
        }
    }
}

/// Decides how to go on opening a page: first in a browser with a profile of its own, if that is
/// preferred, and else in the default browser.
pub fn open_browser_url(
    prefer_isolated: bool,
    isolated: Option<bool>,
    default: Option<bool>,
) -> (r: BrowserStep)
    ensures
        r == browser_step(prefer_isolated, isolated, default),
{
    if prefer_isolated {
        match isolated {
            None => {
                return BrowserStep::TryIsolated;
            },
            Some(opened) => {
                if opened {
                    return BrowserStep::Over(BrowserOpenResult::Isolated);
                }
            },
        }
    }
    match default {
        None => BrowserStep::TryDefault,
        Some(opened) => if opened {
            BrowserStep::Over(BrowserOpenResult::Default)
        } else {
            BrowserStep::Over(BrowserOpenResult::Failed)
        },
    }
}

/// What comes of opening a page when the ways of opening it would succeed or fail as given.
pub open spec fn open_outcome(
    prefer_isolated: bool,
    isolated_works: bool,
    default_works: bool,
) -> BrowserOpenResult {
    if prefer_isolated && isolated_works {
        BrowserOpenResult::Isolated
    } else if default_works {
        BrowserOpenResult::Default
    } else {
        BrowserOpenResult::Failed
    }
}

/// A page is opened by the first way that works, and after two attempts at most it is settled
/// which one that is.
pub proof fn first_working_browser_opens(
    prefer_isolated: bool,
    isolated_works: bool,
    default_works: bool,
)
    ensures
        ({
            let first = browser_step(prefer_isolated, None, None);
            let second = match first {
                BrowserStep::TryIsolated => browser_step(
                    prefer_isolated,
                    Some(isolated_works),
                    None,
                ),
                BrowserStep::TryDefault => browser_step(
                    prefer_isolated,
                    None,
                    Some(default_works),
                ),
                BrowserStep::Over(result) => first,
            };
            let third = match second {
                BrowserStep::TryDefault => browser_step(
                    prefer_isolated,
                    Some(isolated_works),
                    Some(default_works),
                ),
                _ => second,
            };
            third == BrowserStep::Over(open_outcome(prefer_isolated, isolated_works, default_works))
        }),
{
}

// ---------------------------------------------------------------------------
// Browsers with a profile of their own
// ---------------------------------------------------------------------------

/// Where browsers are installed for every user.
pub open spec fn installed_browsers() -> Seq<Seq<char>> {
    seq![
        "/Applications/Google Chrome.app/Contents/MacOS/Google Chrome"@,
        "/Applications/Microsoft Edge.app/Contents/MacOS/Microsoft Edge"@,
        "/Applications/Brave Browser.app/Contents/MacOS/Brave Browser"@,
        "/Applications/Chromium.app/Contents/MacOS/Chromium"@,
    ]
}

/// Where browsers are installed for one user, below the home directory.
pub open spec fn own_browsers() -> Seq<Seq<char>> {
    seq![
        "Applications/Google Chrome.app/Contents/MacOS/Google Chrome"@,
        "Applications/Microsoft Edge.app/Contents/MacOS/Microsoft Edge"@,
        "Applications/Brave Browser.app/Contents/MacOS/Brave Browser"@,
        "Applications/Chromium.app/Contents/MacOS/Chromium"@,
    ]
}

/// `places` as paths that were written down in full.
pub open spec fn literal_paths(places: Seq<Seq<char>>) -> Seq<PathView> {
    Seq::new(places.len(), |i: int| PathView::Literal(places[i]))
}

/// `places` as paths below the home directory.
pub open spec fn home_paths(places: Seq<Seq<char>>) -> Seq<PathView> {
    Seq::new(places.len(), |i: int| PathView::UnderHome(places[i]))
}

/// The browsers to try, in order: the one that is named, those that are installed for every user,
/// and those that are installed for this user.
pub open spec fn browser_candidates(named: Option<Seq<char>>, home_known: bool) -> Seq<PathView> {
    let first = match named {
        Some(path) => seq![PathView::Literal(path)],
        None => seq![],
    };
    let last = if home_known {
        home_paths(own_browsers())
    } else {
        seq![]
    };
    first + literal_paths(installed_browsers()) + last
}

/// Lists the browsers to try, in order. `home_known` tells whether there is a home directory.
pub fn isolated_browsers(named: Option<String>, home_known: bool) -> (r: Vec<UserPath>)
    ensures
        paths::path_views(r@) == browser_candidates(text::opt_text(named), home_known),
{
    let mut out: Vec<UserPath> = Vec::new();
    if let Some(path) = named {
        out.push(UserPath::Literal(path));
    }
    out.push(
        UserPath::Literal(
            "/Applications/Google Chrome.app/Contents/MacOS/Google Chrome".to_string(),
        ),
    );
    out.push(
        UserPath::Literal(
            "/Applications/Microsoft Edge.app/Contents/MacOS/Microsoft Edge".to_string(),
        ),
    );
    out.push(
        UserPath::Literal(
            "/Applications/Brave Browser.app/Contents/MacOS/Brave Browser".to_string(),
        ),
    );
    out.push(
        UserPath::Literal("/Applications/Chromium.app/Contents/MacOS/Chromium".to_string()),
    );
    if home_known {
        out.push(
            UserPath::UnderHome(
                "Applications/Google Chrome.app/Contents/MacOS/Google Chrome".to_string(),
            ),
        );
        out.push(
            UserPath::UnderHome(
                "Applications/Microsoft Edge.app/Contents/MacOS/Microsoft Edge".to_string(),
            ),
        );
        out.push(
            UserPath::UnderHome(
                "Applications/Brave Browser.app/Contents/MacOS/Brave Browser".to_string(),
            ),
        );
        out.push(
            UserPath::UnderHome("Applications/Chromium.app/Contents/MacOS/Chromium".to_string()),
        );
    }
    assert(paths::path_views(out@) =~= browser_candidates(text::opt_text(named), home_known));
    out
}

/// Directories below the home directory in which downloaded browsers are searched for.
pub open spec fn browser_caches() -> Seq<Seq<char>> {
    seq!["Library/Caches/ms-playwright"@, ".cache/puppeteer/chrome"@]
}

/// Lists the directories in which downloaded browsers are searched for.
pub fn browser_cache_directories() -> (r: Vec<UserPath>)
    ensures
        paths::path_views(r@) == home_paths(browser_caches()),
{
    let mut out: Vec<UserPath> = Vec::new();
    out.push(UserPath::UnderHome("Library/Caches/ms-playwright".to_string()));
    out.push(UserPath::UnderHome(".cache/puppeteer/chrome".to_string()));
    assert(paths::path_views(out@) =~= home_paths(browser_caches()));
    out
}

/// How many levels of directories are searched for downloaded browsers.
pub const BROWSER_SEARCH_DEPTH: usize = 8;

/// What an entry of a directory is.
#[derive(Debug, Clone, Copy, PartialEq, Eq, Structural)]
pub enum EntryKind {
    File,
    Directory,
    Other,
}

/// What to do with an entry of a directory.
#[derive(Debug, Clone, Copy, PartialEq, Eq, Structural)]
pub enum SearchStep {
    /// It is a browser.
    Collect,
    /// Search it, down to this many levels.
    Descend(usize),
    /// Pass it over.
    Skip,
}

/// `name` is that of a downloaded browser.
pub open spec fn browser_name(name: Option<Seq<char>>) -> bool {
    name == Some("Google Chrome for Testing"@) || name == Some("Chromium"@)
}

/// What to do with an entry of a directory that is searched down to `depth` levels.
pub open spec fn search_step(
    kind: EntryKind,
    name: Option<Seq<char>>,
    depth: usize,
) -> SearchStep {
    match kind {
        EntryKind::File => if depth > 0 && browser_name(name) {
            SearchStep::Collect
        } else {
            SearchStep::Skip
        },
        EntryKind::Directory => if depth > 1 {
            SearchStep::Descend((depth - 1) as usize)
        } else {
            SearchStep::Skip
        },
        EntryKind::Other => SearchStep::Skip,
    }
}

/// Decides what to do with an entry of a directory that is searched down to `depth` levels.
pub fn collect_browser_executable_candidates(
    kind: EntryKind,
    name: Option<&str>,
    depth: usize,
) -> (r: SearchStep)
    ensures
        r == search_step(kind, text::opt_str(name), depth),
        r matches SearchStep::Descend(next) ==> 0 < next < depth,
{
    match kind {
        EntryKind::File => match name {
            Some(name) => if depth > 0 && (same_text(name, "Google Chrome for Testing")
                || same_text(name, "Chromium")) {
                SearchStep::Collect
            } else {
                SearchStep::Skip
            },
            None => SearchStep::Skip,
        },
        EntryKind::Directory => if depth > 1 {
            SearchStep::Descend(depth - 1)
        } else {
            SearchStep::Skip
        },
        EntryKind::Other => SearchStep::Skip,
    }
}

/// `items` without those that occurred before.
pub open spec fn first_occurrences(items: Seq<Seq<char>>) -> Seq<Seq<char>>
    decreases items.len(),
{
    if items.len() == 0 {
        seq![]
    } else {
        let before = first_occurrences(items.drop_last());
        if before.contains(items.last()) {
            before
        } else {
            before.push(items.last())
        }
    }
}

/// Drops each of `items` that occurred before.
pub fn without_repeats(items: Vec<String>) -> (r: Vec<String>)
    ensures
        text::texts(r@) == first_occurrences(text::texts(items@)),
{
    let ghost all = text::texts(items@);
    let mut out: Vec<String> = Vec::new();
    let mut i: usize = 0;
    assert(all.take(0) =~= seq![]);
    assert(text::texts(out@) =~= seq![]);
    while i < items.len()
        invariant
            i <= items@.len(),
            all == text::texts(items@),
            text::texts(out@) == first_occurrences(all.take(i as int)),
        decreases items@.len() - i,
    {
        let ghost before = text::texts(out@);
        assert(all.take(i + 1).drop_last() =~= all.take(i as int));
        assert(all.take(i + 1).last() == items@[i as int]@);
        if !is_among(&out, items[i].as_str()) {
            out.push(items[i].clone());
            assert(text::texts(out@) =~= before.push(items@[i as int]@));
        }
        i = i + 1;
    }
    assert(all.take(items@.len() as int) =~= all);
    out
}

/// Nothing occurs twice among first occurrences, and nothing is lost.
pub proof fn first_occurrences_are_all(items: Seq<Seq<char>>)
    ensures
        first_occurrences(items).no_duplicates(),
        forall|item: Seq<char>| #[trigger]
            first_occurrences(items).contains(item) == items.contains(item),
    decreases items.len(),
{
    if items.len() > 0 {
        let rest = items.drop_last();
        let before = first_occurrences(rest);
        let kept = first_occurrences(items);
        first_occurrences_are_all(rest);
        assert forall|item: Seq<char>| #[trigger] kept.contains(item) == items.contains(item) by {
            if items.contains(item) {
                let k = choose|k: int| 0 <= k < items.len() && items[k] == item;
                if k < rest.len() {
                    assert(rest[k] == item);
                    assert(before.contains(item));
                    let j = choose|j: int| 0 <= j < before.len() && before[j] == item;
                    assert(kept[j] == item);
                } else if !before.contains(item) {
                    assert(kept[before.len() as int] == item);
                }
            }
            if kept.contains(item) {
                let j = choose|j: int| 0 <= j < kept.len() && kept[j] == item;
                if j < before.len() {
                    assert(before[j] == item);
                    assert(before.contains(item));
                    let k = choose|k: int| 0 <= k < rest.len() && rest[k] == item;
                    assert(items[k] == item);
                } else {
                    assert(items[items.len() - 1] == item);
                }
            }
        }
    }
}

/// What to do next in order to start one of some browsers, which are numbered.
#[derive(Debug, Clone, Copy, PartialEq, Eq, Structural)]
pub enum TrialStep {
    /// Look whether this one is there.
    Look(usize),
    /// Start this one.
    Start(usize),
    /// Nothing: it is running.
    Running,
    /// Nothing: none of them could be started.
    NoneLeft,
}

/// What to do next in order to start one of `count` browsers, when the turn is that of the browser
/// `at` and it was found to be there or not, and could be started or not.
pub open spec fn trial_step(
    count: usize,
    at: usize,
    present: Option<bool>,
    started: Option<bool>,
) -> TrialStep {
    if at >= count {
        TrialStep::NoneLeft
    } else if present is None {
        TrialStep::Look(at)
    } else if present == Some(true) && started is None {
        TrialStep::Start(at)
    } else if present == Some(true) && started == Some(true) {
        TrialStep::Running
    } else if at + 1 < count {
        TrialStep::Look((at + 1) as usize)
    } else {
        TrialStep::NoneLeft
    }
}

/// Decides how to go on starting one of `count` browsers: each that is there is tried in turn, until
/// one starts.
pub fn open_isolated_browser_url(
    count: usize,
    at: usize,
    present: Option<bool>,
    started: Option<bool>,
) -> (r: TrialStep)
    ensures
        r == trial_step(count, at, present, started),
{
    if at >= count {
        return TrialStep::NoneLeft;
    }
    match present {
        None => {
            return TrialStep::Look(at);
        },
        Some(there) => if there {
            match started {
                None => {
                    return TrialStep::Start(at);
                },
                Some(running) => if running {
                    return TrialStep::Running;
                },
            }
        },
    }
    if at < count - 1 {
        TrialStep::Look(at + 1)
    } else {
        TrialStep::NoneLeft
    }
}

/// Whether one of the browsers from `at` on gets started, where `is_there` and `starts` tell what
/// is found out about each.
pub open spec fn trial_outcome(
    count: usize,
    at: usize,
    is_there: spec_fn(usize) -> bool,
    starts: spec_fn(usize) -> bool,
) -> bool
    decreases count - at,
{
    match trial_step(count, at, None, None) {
        TrialStep::Look(i) => {
            let looked = trial_step(count, i, Some(is_there(i)), None);
            let tried = match looked {
                TrialStep::Start(j) => trial_step(count, j, Some(true), Some(starts(j))),
                _ => looked,
            };
            match tried {
                TrialStep::Running => true,
                TrialStep::Look(next) => trial_outcome(count, next, is_there, starts),
                _ => false,
            }
        },
        _ => false,
    }
}

/// A browser gets started when one of them is there and starts.
pub proof fn any_working_browser_starts(
    count: usize,
    at: usize,
    is_there: spec_fn(usize) -> bool,
    starts: spec_fn(usize) -> bool,
)
    ensures
        trial_outcome(count, at, is_there, starts) == exists|i: usize|
            at <= i < count && #[trigger] is_there(i) && starts(i),
    decreases count - at,
{
    if at < count {
        if !(is_there(at) && starts(at)) && at + 1 < count {
            any_working_browser_starts(count, (at + 1) as usize, is_there, starts);
        }
    }
}

/// The arguments with which a browser opens `url` in a profile of its own.
pub open spec fn isolated_arguments(profile_dir: Seq<char>, url: Seq<char>) -> Seq<Seq<char>> {
    seq![
        "--user-data-dir="@ + profile_dir,
        "--no-first-run"@,
        "--no-default-browser-check"@,
        "--disable-features=HttpsUpgrades,HttpsFirstBalancedModeAutoEnable"@,
        "--new-window"@,
        url,
    ]
}

/// Lists the arguments with which a browser opens `url` with the profile in `profile_dir`.
pub fn isolated_browser_arguments(profile_dir: &str, url: &str) -> (r: Vec<String>)
    ensures
        text::texts(r@) == isolated_arguments(profile_dir@, url@),
{
    let mut out: Vec<String> = Vec::new();
    out.push("--user-data-dir=".to_string().concat(profile_dir));
    out.push("--no-first-run".to_string());
    out.push("--no-default-browser-check".to_string());
    out.push("--disable-features=HttpsUpgrades,HttpsFirstBalancedModeAutoEnable".to_string());
    out.push("--new-window".to_string());
    out.push(url.to_string());
    assert(text::texts(out@) =~= isolated_arguments(profile_dir@, url@));
    out
}

/// Names the directory of a new profile after the process and the time in milliseconds.
pub fn profile_directory_name(process: u32, millis: i64) -> (r: String)
    ensures
        r@ == "kiro-rs-oauth-profile-"@ + decimal::decimal(process as nat) + "-"@
            + decimal::signed_decimal(millis as int),
{
    "kiro-rs-oauth-profile-".to_string().concat(u64_text(process as u64).as_str()).concat(
        "-",
    ).concat(i64_text(millis).as_str())
}

// ---------------------------------------------------------------------------
// Step by step
// ---------------------------------------------------------------------------

/// A browser with a profile of its own is tried first exactly when it is preferred, and the default
/// browser exactly when the other is not preferred or did not open; what opened is what is told.
pub proof fn browsers_are_tried_as_preferred(
    prefer_isolated: bool,
    isolated: Option<bool>,
    default: Option<bool>,
)
    ensures
        browser_step(prefer_isolated, isolated, default) == BrowserStep::TryIsolated <==> (
        prefer_isolated && isolated is None),
        browser_step(prefer_isolated, isolated, default) == BrowserStep::TryDefault <==> ((
        !prefer_isolated || isolated == Some(false)) && default is None),
        browser_step(prefer_isolated, isolated, default) == BrowserStep::Over(
            BrowserOpenResult::Isolated,
        ) <==> (prefer_isolated && isolated == Some(true)),
        browser_step(prefer_isolated, isolated, default) == BrowserStep::Over(
            BrowserOpenResult::Default,
        ) <==> ((!prefer_isolated || isolated == Some(false)) && default == Some(true)),
        browser_step(prefer_isolated, isolated, default) == BrowserStep::Over(
            BrowserOpenResult::Failed,
        ) <==> ((!prefer_isolated || isolated == Some(false)) && default == Some(false)),
{
    if let Some(opened) = isolated {
        assert(opened ==> isolated == Some(true));
        assert(!opened ==> isolated == Some(false));
    }
    if let Some(opened) = default {
        assert(opened ==> default == Some(true));
        assert(!opened ==> default == Some(false));
    }
}

/// The browsers to try are the one that is named, Chrome, Edge, Brave and Chromium for every user,
/// and the same four below the home directory where one is known.
pub proof fn browsers_to_try(named: Seq<char>)
    ensures
        browser_candidates(None, false) == seq![
            PathView::Literal("/Applications/Google Chrome.app/Contents/MacOS/Google Chrome"@),
            PathView::Literal("/Applications/Microsoft Edge.app/Contents/MacOS/Microsoft Edge"@),
            PathView::Literal("/Applications/Brave Browser.app/Contents/MacOS/Brave Browser"@),
            PathView::Literal("/Applications/Chromium.app/Contents/MacOS/Chromium"@),
        ],
        browser_candidates(None, true) == browser_candidates(None, false) + seq![
            PathView::UnderHome("Applications/Google Chrome.app/Contents/MacOS/Google Chrome"@),
            PathView::UnderHome("Applications/Microsoft Edge.app/Contents/MacOS/Microsoft Edge"@),
            PathView::UnderHome("Applications/Brave Browser.app/Contents/MacOS/Brave Browser"@),
            PathView::UnderHome("Applications/Chromium.app/Contents/MacOS/Chromium"@),
        ],
        browser_candidates(Some(named), false) == seq![PathView::Literal(named)]
            + browser_candidates(None, false),
        browser_candidates(Some(named), true) == seq![PathView::Literal(named)]
            + browser_candidates(None, true),
        home_paths(browser_caches()) == seq![
            PathView::UnderHome("Library/Caches/ms-playwright"@),
            PathView::UnderHome(".cache/puppeteer/chrome"@),
        ],
{
    assert(browser_candidates(None, false) =~= seq![
        PathView::Literal("/Applications/Google Chrome.app/Contents/MacOS/Google Chrome"@),
        PathView::Literal("/Applications/Microsoft Edge.app/Contents/MacOS/Microsoft Edge"@),
        PathView::Literal("/Applications/Brave Browser.app/Contents/MacOS/Brave Browser"@),
        PathView::Literal("/Applications/Chromium.app/Contents/MacOS/Chromium"@),
    ]);
    assert(browser_candidates(None, true) =~= browser_candidates(None, false) + seq![
        PathView::UnderHome("Applications/Google Chrome.app/Contents/MacOS/Google Chrome"@),
        PathView::UnderHome("Applications/Microsoft Edge.app/Contents/MacOS/Microsoft Edge"@),
        PathView::UnderHome("Applications/Brave Browser.app/Contents/MacOS/Brave Browser"@),
        PathView::UnderHome("Applications/Chromium.app/Contents/MacOS/Chromium"@),
    ]);
    assert(browser_candidates(Some(named), false) =~= seq![PathView::Literal(named)]
        + browser_candidates(None, false));
    assert(browser_candidates(Some(named), true) =~= seq![PathView::Literal(named)]
        + browser_candidates(None, true));
    assert(home_paths(browser_caches()) =~= seq![
        PathView::UnderHome("Library/Caches/ms-playwright"@),
        PathView::UnderHome(".cache/puppeteer/chrome"@),
    ]);
}

/// A file is collected exactly when it has one of the two names of downloaded browsers, a directory
/// is searched one level less deep while there are levels left, and everything else, and everything
/// where there is no level left, is passed over.
pub proof fn search_collects_browsers(kind: EntryKind, name: Option<Seq<char>>, depth: usize)
    ensures
        search_step(kind, name, depth) == SearchStep::Collect <==> (kind is File && depth > 0 && (
        name == Some(
            "Google Chrome for Testing"@,
        ) || name == Some("Chromium"@))),
        search_step(kind, name, depth) is Descend <==> (kind is Directory && depth > 1),
        search_step(kind, name, depth) matches SearchStep::Descend(next) ==> next == depth - 1,
        BROWSER_SEARCH_DEPTH == 8,
{
}

/// An item that did not occur before joins the first occurrences behind those before it, and one
/// that did does not.
pub proof fn new_items_join_in_order(items: Seq<Seq<char>>, item: Seq<char>)
    ensures
        first_occurrences(seq![]) == Seq::<Seq<char>>::empty(),
        !items.contains(item) ==> first_occurrences(items.push(item)) == first_occurrences(
            items,
        ).push(item),
        items.contains(item) ==> first_occurrences(items.push(item)) == first_occurrences(items),
{
    first_occurrences_are_all(items);
    assert(items.push(item).drop_last() =~= items);
    assert(first_occurrences(items).contains(item) == items.contains(item));
}

/// Each browser has its turn: it is looked for, started when it is there, and passed over for the
/// next when it is missing or does not start.
pub proof fn browsers_have_their_turns(
    count: usize,
    at: usize,
    present: Option<bool>,
    started: Option<bool>,
)
    ensures
        at >= count ==> trial_step(count, at, present, started) == TrialStep::NoneLeft,
        at < count ==> {
            &&& trial_step(count, at, None, started) == TrialStep::Look(at)
            &&& trial_step(count, at, Some(true), None) == TrialStep::Start(at)
            &&& trial_step(count, at, Some(true), Some(true)) == TrialStep::Running
        },
        at + 1 < count ==> {
            &&& trial_step(count, at, Some(false), started) == TrialStep::Look((at + 1) as usize)
            &&& trial_step(count, at, Some(true), Some(false)) == TrialStep::Look((at + 1) as usize)
        },
        at + 1 == count ==> {
            &&& trial_step(count, at, Some(false), started) == TrialStep::NoneLeft
            &&& trial_step(count, at, Some(true), Some(false)) == TrialStep::NoneLeft
        },
{
}

/// A browser with a profile of its own gets the directory of the profile first and the page last.
pub proof fn profile_and_page_are_handed_over(profile_dir: Seq<char>, url: Seq<char>)
    ensures
        isolated_arguments(profile_dir, url).len() == 6,
        isolated_arguments(profile_dir, url)[0] == "--user-data-dir="@ + profile_dir,
        isolated_arguments(profile_dir, url)[1] == "--no-first-run"@,
        isolated_arguments(profile_dir, url)[2] == "--no-default-browser-check"@,
        isolated_arguments(profile_dir, url)[3]
            == "--disable-features=HttpsUpgrades,HttpsFirstBalancedModeAutoEnable"@,
        isolated_arguments(profile_dir, url)[4] == "--new-window"@,
        isolated_arguments(profile_dir, url)[5] == url,
{
}

} // verus!
