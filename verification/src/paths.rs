//! Paths that a user writes, with `~` for the home directory.
use crate::text;
use crate::text::{after_prefix, same_text};
use vstd::prelude::*;

verus! {

/// A path as far as it is known without the file system.
#[derive(Debug, PartialEq, Eq)]
pub enum UserPath {
    /// The home directory.
    Home,
    /// A path to be joined to the home directory.
    UnderHome(String),
    /// A path as it was written.
    Literal(String),
}

impl Clone for UserPath {
    fn clone(&self) -> (r: Self)
        ensures
            r == *self,
    {
        match self {
            UserPath::Home => UserPath::Home,
            UserPath::UnderHome(rest) => UserPath::UnderHome(rest.clone()),
            UserPath::Literal(path) => UserPath::Literal(path.clone()),
        }
    }
}

/// The contents of a [`UserPath`].
pub ghost enum PathView {
    Home,
    UnderHome(Seq<char>),
    Literal(Seq<char>),
}

impl View for UserPath {
    type V = PathView;

    open spec fn view(&self) -> PathView {
        match self {
            UserPath::Home => PathView::Home,
            UserPath::UnderHome(rest) => PathView::UnderHome(rest@),
            UserPath::Literal(path) => PathView::Literal(path@),
        }
    }
}

/// The path that `path` stands for. `~` and what begins with `~/` refer to the home directory,
/// where one is known.
pub open spec fn expanded(path: Seq<char>, home_known: bool) -> PathView {
    if home_known && path == "~"@ {
        PathView::Home
    } else if home_known && text::begins_with(path, "~/"@) {
        PathView::UnderHome(path.skip(2))
    } else {
        PathView::Literal(path)
    }
}

/// Finds out what `path` refers to. `home_known` tells whether there is a home directory.
pub fn expand_tilde(path: &str, home_known: bool) -> (r: UserPath)
    ensures
        r@ == expanded(path@, home_known),
{
    if home_known {
        if same_text(path, "~") {
            return UserPath::Home;
        }
        proof {
            reveal_strlit("~/");
        }
        if let Some(rest) = after_prefix(path, "~/") {
            return UserPath::UnderHome(rest.to_string());
        }
    }
    UserPath::Literal(path.to_string())
}

/// The contents of a list of paths.
pub open spec fn path_views(paths: Seq<UserPath>) -> Seq<PathView> {
    Seq::new(paths.len(), |i: int| paths[i]@)
}

/// What each of `paths` stands for.
pub open spec fn all_expanded(paths: Seq<Seq<char>>, home_known: bool) -> Seq<PathView> {
    Seq::new(paths.len(), |i: int| expanded(paths[i], home_known))
}

/// Finds out what each of `paths` refers to.
pub fn expand_all(paths: &[&str], home_known: bool) -> (r: Vec<UserPath>)
    ensures
        path_views(r@) == all_expanded(text::str_texts(paths@), home_known),
{
    let mut out: Vec<UserPath> = Vec::new();
    let mut i: usize = 0;
    while i < paths.len()
        invariant
            i <= paths@.len(),
            path_views(out@) =~= all_expanded(text::str_texts(paths@), home_known).take(i as int),
        decreases paths@.len() - i,
    {
        let ghost before = path_views(out@);
        let path = expand_tilde(paths[i], home_known);
        out.push(path);
        assert(path_views(out@) =~= before.push(path@));
        i = i + 1;
    }
    out
}

/// A lone tilde is the home directory, a tilde and a slash begin a path below it, and every other
/// path is taken as it is written, as is every path where no home directory is known.
pub proof fn tilde_stands_for_home(rest: Seq<char>, path: Seq<char>)
    ensures
        expanded(seq!['~'], true) == PathView::Home,
        expanded(seq!['~', '/'] + rest, true) == PathView::UnderHome(rest),
        expanded(path, false) == PathView::Literal(path),
        (path.len() == 0 || path[0] != '~') ==> expanded(path, true) == PathView::Literal(path),
        (path.len() > 1 && path[1] != '/') ==> expanded(path, true) == PathView::Literal(path),
        forall|paths: Seq<Seq<char>>, home_known: bool, i: int|
            0 <= i < paths.len() ==> #[trigger] all_expanded(paths, home_known)[i] == expanded(
                paths[i],
                home_known,
            ),
        forall|paths: Seq<Seq<char>>, home_known: bool|
            (#[trigger] all_expanded(paths, home_known)).len() == paths.len(),
{
    reveal_strlit("~");
    reveal_strlit("~/");
    assert("~"@ =~= seq!['~']);
    let p = seq!['~', '/'] + rest;
    assert(p.subrange(0, 2) =~= "~/"@);
    assert(p.skip(2) =~= rest);
    assert(p.len() != 1);
    assert(seq!['~'].len() == 1);
    if text::begins_with(path, "~/"@) {
        assert(path.subrange(0, 2)[0] == path[0]);
        assert(path.subrange(0, 2)[1] == path[1]);
    }
}

/// A path is below the home directory, that directory itself, or as it is written.
pub proof fn paths_are_what_they_name(rest: String, paths: Seq<UserPath>, i: int)
    ensures
        UserPath::Home@ == PathView::Home,
        UserPath::UnderHome(rest)@ == PathView::UnderHome(rest@),
        UserPath::Literal(rest)@ == PathView::Literal(rest@),
        path_views(paths).len() == paths.len(),
        0 <= i < paths.len() ==> path_views(paths)[i] == paths[i]@,
{
}

} // verus!
