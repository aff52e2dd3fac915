//! What is learned from the output of the Kiro CLI and from the tabs of Safari during a login.
use crate::browser::BrowserOpenResult;
use crate::callback;
use crate::callback::normalize_kiro_callback_url;
use crate::oauth_status;
use crate::oauth_status::{push_oauth_output, KiroCliOAuthLoginStatus, StatusView};
use crate::redaction;
use crate::redaction::extract_url;
use crate::text;
use crate::text::{is_among, same_text, trim};
use crate::words;
use crate::words::split_once_space;
use vstd::prelude::*;
use vstd::string::*;

verus! {

// ---------------------------------------------------------------------------
// Lines of the Kiro CLI
// ---------------------------------------------------------------------------

/// The page that the line `line` of the Kiro CLI asks to open: the first web address in it, unless
/// a page was opened before.
pub open spec fn asked_page(status: StatusView, line: Seq<char>) -> Option<Seq<char>> {
    if text::non_blank(line) is None || status.login_url is Some {
        None
    } else {
        redaction::first_url(words::words(line))
    }
}

/// The page that is to be opened for the line `line` of the Kiro CLI, if any is.
pub fn page_to_open(status: &KiroCliOAuthLoginStatus, line: &str) -> (r: Option<String>)
    ensures
        text::opt_text(r) == asked_page(status@, line@),
{
    if trim(line).is_empty() || status.login_url.is_some() {
        None
    } else {
        extract_url(line)
    }
}

/// What is said of a page that was opened; nothing of one that went where it was meant to go.
pub open spec fn open_message(result: BrowserOpenResult, prefer_isolated: bool) -> Option<
    Seq<char>,
> {
    match result {
        BrowserOpenResult::Isolated => Some(
            "已用独立浏览器配置打开官方登录页，避免复用当前浏览器账号"@,
        ),
        BrowserOpenResult::Default => if prefer_isolated {
            Some(
                "未找到可用的独立 Chromium/Chrome/Edge/Brave，已用默认浏览器打开；如果仍自动登录，请把登录链接复制到隐身窗口"@,
            )
        } else {
            None
        },
        BrowserOpenResult::Failed => Some("自动打开浏览器失败，请手动打开登录链接"@),
    }
}

/// What is said of a page that was opened.
fn said_of_page(result: BrowserOpenResult, prefer_isolated: bool) -> (r: Option<&'static str>)
    ensures
        text::opt_str(r) == open_message(result, prefer_isolated),
{
    match result {
        BrowserOpenResult::Isolated => Some(
            "已用独立浏览器配置打开官方登录页，避免复用当前浏览器账号",
        ),
        BrowserOpenResult::Default => if prefer_isolated {
            Some(
                "未找到可用的独立 Chromium/Chrome/Edge/Brave，已用默认浏览器打开；如果仍自动登录，请把登录链接复制到隐身窗口",
            )
        } else {
            None
        },
        BrowserOpenResult::Failed => Some("自动打开浏览器失败，请手动打开登录链接"),
    }
}

/// `status` once the user is to act: a CLI that has printed something is no longer just running.
pub open spec fn waits_for_user(status: StatusView) -> StatusView {
    if status.phase == "running-cli"@ {
        status.enters("waiting-for-user"@)
    } else {
        status
    }
}

/// `status` after the line `line` of the Kiro CLI, where the page it asks for, if any, was opened
/// with the result `result`.
pub open spec fn after_cli_line(
    status: StatusView,
    line: Seq<char>,
    result: BrowserOpenResult,
    prefer_isolated: bool,
) -> StatusView {
    if text::non_blank(line) is None {
        status
    } else {
        let waiting = waits_for_user(status);
        let opened = match asked_page(status, line) {
            None => waiting,
            Some(url) => {
                let known = StatusView { login_url: Some(url), ..waiting };
                match open_message(result, prefer_isolated) {
                    Some(message) => known.prints(message),
                    None => known,
                }
            },
        };
        opened.prints(line)
    }
}

/// Records the line `line` of the Kiro CLI. `result` tells what came of opening the page that
/// [`page_to_open`] gave, and is of no account when it gave none.
pub fn record_cli_line(
    status: &mut KiroCliOAuthLoginStatus,
    line: &str,
    result: BrowserOpenResult,
    prefer_isolated: bool,
)
    ensures
        final(status)@ == after_cli_line(old(status)@, line@, result, prefer_isolated),
{
    if trim(line).is_empty() {
        return;
    }
    let page = page_to_open(status, line);
    if same_text(status.phase.as_str(), "running-cli") {
        status.phase = "waiting-for-user".to_string();
    }
    if let Some(url) = page {
        status.login_url = Some(url);
        if let Some(message) = said_of_page(result, prefer_isolated) {
            push_oauth_output(status, message);
        }
    }
    push_oauth_output(status, line);
}

/// The page of a login does not change once it is known, and a blank line says nothing.
pub proof fn login_page_stays(
    status: StatusView,
    line: Seq<char>,
    result: BrowserOpenResult,
    prefer_isolated: bool,
)
    ensures
        status.login_url is Some ==> after_cli_line(
            status,
            line,
            result,
            prefer_isolated,
        ).login_url == status.login_url,
        text::non_blank(line) is None ==> after_cli_line(status, line, result, prefer_isolated)
            == status,
        text::non_blank(line) is Some ==> asked_page(
            after_cli_line(status, line, result, prefer_isolated),
            line,
        ) is None,
{
}

// ---------------------------------------------------------------------------
// Commands that help a login along
// ---------------------------------------------------------------------------

/// What came of a command.
#[derive(Debug, Clone)]
pub enum CommandOutcome {
    /// It succeeded.
    Succeeded,
    /// It failed and printed this.
    Failed(String),
    /// It could not be started, for this reason.
    NotStarted(String),
}

/// The contents of a [`CommandOutcome`].
pub ghost enum OutcomeView {
    Succeeded,
    Failed(Seq<char>),
    NotStarted(Seq<char>),
}

impl View for CommandOutcome {
    type V = OutcomeView;

    open spec fn view(&self) -> OutcomeView {
        match self {
            CommandOutcome::Succeeded => OutcomeView::Succeeded,
            CommandOutcome::Failed(printed) => OutcomeView::Failed(printed@),
            CommandOutcome::NotStarted(reason) => OutcomeView::NotStarted(reason@),
        }
    }
}

/// What is said of a command: `success`, or `failure` with what it printed or why it did not
/// start.
pub open spec fn outcome_message(
    outcome: OutcomeView,
    success: Seq<char>,
    failure: Seq<char>,
) -> Seq<char> {
    match outcome {
        OutcomeView::Succeeded => success,
        OutcomeView::Failed(printed) => failure + text::trimmed(printed),
        OutcomeView::NotStarted(reason) => failure + reason,
    }
}

/// Says what came of a command.
fn record_outcome(
    status: &mut KiroCliOAuthLoginStatus,
    outcome: &CommandOutcome,
    success: &str,
    failure: &str,
)
    ensures
        final(status)@ == old(status)@.prints(outcome_message(outcome@, success@, failure@)),
{
    match outcome {
        CommandOutcome::Succeeded => push_oauth_output(status, success),
        CommandOutcome::Failed(printed) => {
            let line = failure.to_string().concat(trim(printed.as_str()));
            push_oauth_output(status, line.as_str());
        },
        CommandOutcome::NotStarted(reason) => {
            let line = failure.to_string().concat(reason.as_str());
            push_oauth_output(status, line.as_str());
        },
    }
}

/// Says what came of closing the tabs of earlier logins.
pub fn close_stale_oauth_callback_tabs(
    status: &mut KiroCliOAuthLoginStatus,
    outcome: &CommandOutcome,
)
    ensures
        final(status)@ == old(status)@.prints(
            outcome_message(
                outcome@,
                "已清理 Safari 中旧的 Kiro callback 标签"@,
                "清理旧 callback 标签失败，可手动关闭旧 localhost:3128 页面: "@,
            ),
        ),
{
    record_outcome(
        status,
        outcome,
        "已清理 Safari 中旧的 Kiro callback 标签",
        "清理旧 callback 标签失败，可手动关闭旧 localhost:3128 页面: ",
    );
}

// ---------------------------------------------------------------------------
// Tabs of Safari
// ---------------------------------------------------------------------------

/// How long the tabs of Safari are watched, in milliseconds.
pub const WATCH_LIMIT_MILLIS: u128 = 300_000;

/// How long to wait before each look at the tabs of Safari, in milliseconds.
pub const WATCH_PAUSE_MILLIS: u64 = 500;

/// Tells whether the tabs of Safari are still to be watched after `elapsed` milliseconds.
pub fn keeps_watching(status: &KiroCliOAuthLoginStatus, elapsed: u128) -> (r: bool)
    ensures
        r == (elapsed < WATCH_LIMIT_MILLIS && status@.running),
{
    elapsed < WATCH_LIMIT_MILLIS && status.running
}

/// What to do about a tab of Safari.
#[derive(Debug, Clone)]
pub enum TabAction {
    /// Nothing.
    Ignore,
    /// Open this page in a browser with a profile of its own.
    OpenIsolated(String),
    /// Send this callback to the Kiro CLI.
    Submit(String),
}

/// The contents of a [`TabAction`].
pub ghost enum TabActionView {
    Ignore,
    OpenIsolated(Seq<char>),
    Submit(Seq<char>),
}

impl View for TabAction {
    type V = TabActionView;

    open spec fn view(&self) -> TabActionView {
        match self {
            TabAction::Ignore => TabActionView::Ignore,
            TabAction::OpenIsolated(url) => TabActionView::OpenIsolated(url@),
            TabAction::Submit(url) => TabActionView::Submit(url@),
        }
    }
}

/// The tabs of Safari that were seen during a login.
#[derive(Debug, Clone)]
pub struct SafariWatcher {
    /// A line for each tab, in the order in which they were seen.
    pub seen: Vec<String>,
}

impl View for SafariWatcher {
    type V = Seq<Seq<char>>;

    open spec fn view(&self) -> Seq<Seq<char>> {
        text::texts(self.seen@)
    }
}

/// What to do about the tab that `line` describes: what kind of page it shows, a space, and its
/// address.
pub open spec fn tab_action(status: StatusView, line: Seq<char>) -> TabActionView {
    match words::cut_at_space(line) {
        None => TabActionView::Ignore,
        Some((kind, url)) => if kind == "signin"@ {
            if status.login_url == Some(url) {
                TabActionView::Ignore
            } else {
                TabActionView::OpenIsolated(url)
            }
        } else if kind == "callback"@ {
            match callback::callback_target(url) {
                Ok(target) => TabActionView::Submit(target),
                Err(error) => TabActionView::Ignore,
            }
        } else {
            TabActionView::Ignore
        },
    }
}

/// `status` after a new tab that `line` describes.
pub open spec fn after_tab(status: StatusView, line: Seq<char>) -> StatusView {
    match words::cut_at_space(line) {
        Some((kind, url)) if kind == "signin"@ => {
            let known = if status.login_url is None {
                StatusView { login_url: Some(url), ..status }
            } else {
                status
            };
            known.prints("已接管 Safari 打开的 Kiro 登录页，改用独立 Chromium 打开"@)
        },
        _ => status,
    }
}

impl SafariWatcher {
    /// A watcher that has seen nothing.
    pub fn new() -> (r: Self)
        ensures
            r@ == Seq::<Seq<char>>::empty(),
    {
        let r = SafariWatcher { seen: Vec::new() };
        assert(r@ =~= Seq::<Seq<char>>::empty());
        r
    }

    /// Takes note of the tab that `line` describes and decides what to do about it. A tab that was
    /// seen before is passed over.
    pub fn watch_line(&mut self, status: &mut KiroCliOAuthLoginStatus, line: &str) -> (r: TabAction)
        ensures
            old(self)@.contains(line@) ==> {
                &&& final(self)@ == old(self)@
                &&& final(status)@ == old(status)@
                &&& r@ == TabActionView::Ignore
            },
            !old(self)@.contains(line@) ==> {
                &&& final(self)@ == old(self)@.push(line@)
                &&& final(status)@ == after_tab(old(status)@, line@)
                &&& r@ == tab_action(old(status)@, line@)
            },
            r@ matches TabActionView::Submit(target) ==> callback::reaches_local_cli(target),
    {
        if is_among(&self.seen, line) {
            return TabAction::Ignore;
        }
        let ghost before = self@;
        self.seen.push(line.to_string());
        assert(self@ =~= before.push(line@));
        match split_once_space(line) {
            None => TabAction::Ignore,
            Some((kind, url)) => {
                if same_text(kind, "signin") {
                    let is_same_url = match &status.login_url {
                        Some(known) => same_text(known.as_str(), url),
                        None => false,
                    };
                    if status.login_url.is_none() {
                        status.login_url = Some(url.to_string());
                    }
                    push_oauth_output(
                        status,
                        "已接管 Safari 打开的 Kiro 登录页，改用独立 Chromium 打开",
                    );
                    if is_same_url {
                        TabAction::Ignore
                    } else {
                        TabAction::OpenIsolated(url.to_string())
                    }
                } else if same_text(kind, "callback") {
                    match normalize_kiro_callback_url(url) {
                        Ok(target) => TabAction::Submit(target),
                        Err(_) => TabAction::Ignore,
                    }
                } else {
                    TabAction::Ignore
                }
            },
        }
    }
}

/// Says whether a page from Safari was opened in a browser with a profile of its own.
pub fn record_page_moved(status: &mut KiroCliOAuthLoginStatus, opened: bool)
    ensures
        final(status)@ == old(status)@.prints(
            if opened {
                "已用独立 Chromium 打开官方登录页"@
            } else {
                "未找到可用的独立 Chromium，可能仍需要手动把登录链接复制到 Chrome 隐身窗口"@
            },
        ),
{
    if opened {
        push_oauth_output(status, "已用独立 Chromium 打开官方登录页");
    } else {
        push_oauth_output(
            status,
            "未找到可用的独立 Chromium，可能仍需要手动把登录链接复制到 Chrome 隐身窗口",
        );
    }
}

/// Says what came of sending a callback from Safari to the Kiro CLI.
pub fn record_callback_sent(status: &mut KiroCliOAuthLoginStatus, outcome: &CommandOutcome)
    ensures
        final(status)@ == old(status)@.prints(
            outcome_message(
                outcome@,
                "已自动捕获并提交 Safari OAuth callback"@,
                "自动提交 OAuth callback 失败: "@,
            ),
        ),
{
    record_outcome(
        status,
        outcome,
        "已自动捕获并提交 Safari OAuth callback",
        "自动提交 OAuth callback 失败: ",
    );
}

/// A callback is sent on only for a tab that shows one, and it is the one that the tab shows.
pub proof fn only_callbacks_are_sent(status: StatusView, line: Seq<char>)
    ensures
        tab_action(status, line) matches TabActionView::Submit(target) ==> exists|
            url: Seq<char>,
        |
            {
                &&& line == "callback"@ + seq![' '] + url
                &&& #[trigger] callback::callback_target(url) == Ok::<
                    Seq<char>,
                    callback::CallbackErrorView,
                >(target)
            },
{
    if let TabActionView::Submit(target) = tab_action(status, line) {
        let stop = text::CharClass::Space.member();
        words::span_is_first(line, stop);
        let n = words::span(line, stop) as int;
        let url = line.skip(n + 1);
        assert(line =~= line.take(n) + seq![' '] + url);
        assert(callback::callback_target(url) == Ok::<Seq<char>, callback::CallbackErrorView>(
            target,
        ));
    }
}

/// `next` says the same as `status` of whether the login is running and how it ended.
pub open spec fn same_outcome(status: StatusView, next: StatusView) -> bool {
    &&& next.running == status.running
    &&& next.started_at == status.started_at
    &&& next.finished_at == status.finished_at
    &&& next.exit_code == status.exit_code
    &&& next.error == status.error
    &&& next.imported_credential_id == status.imported_credential_id
}

/// What the Kiro CLI prints and what Safari shows does not decide how a login ends, and leaves its
/// output within bounds and free of secrets.
pub proof fn reports_keep_outcome(
    status: StatusView,
    line: Seq<char>,
    result: BrowserOpenResult,
    prefer_isolated: bool,
)
    requires
        status.wf(),
    ensures
        after_cli_line(status, line, result, prefer_isolated).wf(),
        same_outcome(status, after_cli_line(status, line, result, prefer_isolated)),
        after_tab(status, line).wf(),
        same_outcome(status, after_tab(status, line)),
        after_tab(status, line).phase == status.phase,
{
    let waiting = waits_for_user(status);
    assert(waiting.wf());
    oauth_status::output_stays_bounded_and_redacted(waiting, line);
    if let Some(url) = asked_page(status, line) {
        let known = StatusView { login_url: Some(url), ..waiting };
        assert(known.wf());
        oauth_status::output_stays_bounded_and_redacted(known, line);
        if let Some(message) = open_message(result, prefer_isolated) {
            oauth_status::output_stays_bounded_and_redacted(known, message);
            oauth_status::output_stays_bounded_and_redacted(known.prints(message), line);
        }
    }
    if let Some((kind, url)) = words::cut_at_space(line) {
        let known = if status.login_url is None {
            StatusView { login_url: Some(url), ..status }
        } else {
            status
        };
        assert(known.wf());
        oauth_status::output_stays_bounded_and_redacted(
            known,
            "已接管 Safari 打开的 Kiro 登录页，改用独立 Chromium 打开"@,
        );
    }
}

// ---------------------------------------------------------------------------
// Part by part
// ---------------------------------------------------------------------------

/// The first line with a web address asks for that page; a blank line, and every line once a page is
/// known, asks for none.
pub proof fn first_address_is_asked_for(status: StatusView, line: Seq<char>)
    ensures
        status.login_url is Some ==> asked_page(status, line) is None,
        text::trimmed(line).len() == 0 ==> asked_page(status, line) is None,
        (status.login_url is None && text::trimmed(line).len() > 0) ==> asked_page(status, line)
            == redaction::first_url(words::words(line)),
{
}

/// A line of the Kiro CLI that is not blank is printed last, after what is said of the page that was
/// opened for it. The page is remembered, a CLI that runs is then waiting for the user, and nothing
/// else changes.
pub proof fn cli_line_is_taken_in(
    status: StatusView,
    line: Seq<char>,
    result: BrowserOpenResult,
    prefer_isolated: bool,
)
    ensures
        text::trimmed(line).len() == 0 ==> after_cli_line(status, line, result, prefer_isolated)
            == status,
        text::trimmed(line).len() > 0 ==> {
            let next = after_cli_line(status, line, result, prefer_isolated);
            let opens = status.login_url is None && redaction::first_url(words::words(line))
                is Some;
            &&& next.running == status.running
            &&& next.started_at == status.started_at
            &&& next.finished_at == status.finished_at
            &&& next.exit_code == status.exit_code
            &&& next.error == status.error
            &&& next.imported_credential_id == status.imported_credential_id
            &&& status.phase == "running-cli"@ ==> next.phase == "waiting-for-user"@
            &&& status.phase != "running-cli"@ ==> next.phase == status.phase
            &&& !opens ==> next.login_url == status.login_url && next.output == status.prints(
                line,
            ).output
            &&& opens ==> next.login_url == redaction::first_url(words::words(line))
            &&& opens && result is Isolated ==> next.output == status.prints(
                "已用独立浏览器配置打开官方登录页，避免复用当前浏览器账号"@,
            ).prints(line).output
            &&& opens && result is Default && prefer_isolated ==> next.output == status.prints(
                "未找到可用的独立 Chromium/Chrome/Edge/Brave，已用默认浏览器打开；如果仍自动登录，请把登录链接复制到隐身窗口"@,
            ).prints(line).output
            &&& opens && result is Default && !prefer_isolated ==> next.output == status.prints(
                line,
            ).output
            &&& opens && result is Failed ==> next.output == status.prints(
                "自动打开浏览器失败，请手动打开登录链接"@,
            ).prints(line).output
        },
{
}

/// What is said of a command is the word for success, or the words for failure with what it printed,
/// trimmed, or why it did not start.
pub proof fn commands_are_reported(
    printed: Seq<char>,
    success: Seq<char>,
    failure: Seq<char>,
)
    ensures
        outcome_message(OutcomeView::Succeeded, success, failure) == success,
        outcome_message(OutcomeView::Failed(printed), success, failure) == failure
            + text::trimmed(printed),
        outcome_message(OutcomeView::NotStarted(printed), success, failure) == failure + printed,
        WATCH_LIMIT_MILLIS == 300_000,
        WATCH_PAUSE_MILLIS == 500,
{
}

/// A page to sign in that Safari shows is moved to another browser unless it is the page that is
/// known already; it becomes the page of the login when none is known. It is reported either way.
pub proof fn signin_tabs_are_moved(status: StatusView, url: Seq<char>)
    ensures
        ({
            let line = "signin"@ + seq![' '] + url;
            let next = after_tab(status, line);
            &&& status.login_url == Some(url) ==> tab_action(status, line) == TabActionView::Ignore
            &&& status.login_url != Some(url) ==> tab_action(status, line)
                == TabActionView::OpenIsolated(url)
            &&& status.login_url is None ==> next.login_url == Some(url)
            &&& status.login_url is Some ==> next.login_url == status.login_url
            &&& next.output == status.prints(
                "已接管 Safari 打开的 Kiro 登录页，改用独立 Chromium 打开"@,
            ).output
            &&& next.running == status.running
            &&& next.phase == status.phase
            &&& next.error == status.error
            &&& next.exit_code == status.exit_code
            &&& next.imported_credential_id == status.imported_credential_id
            &&& next.started_at == status.started_at
            &&& next.finished_at == status.finished_at
        }),
{
    reveal_strlit("signin");
    words::first_space_cuts("signin"@, url);
}

/// Every callback that Safari shows and that is one of the local Kiro CLI is sent on, no other is,
/// and the status stays as it is; so it does for tabs of any other kind, which are passed over.
pub proof fn callback_tabs_are_sent_on(status: StatusView, kind: Seq<char>, url: Seq<char>)
    requires
        forall|i: int| 0 <= i < kind.len() ==> #[trigger] kind[i] != ' ',
    ensures
        callback::callback_target(url) matches Ok(target) ==> tab_action(
            status,
            "callback"@ + seq![' '] + url,
        ) == TabActionView::Submit(target),
        callback::callback_target(url) is Err ==> tab_action(
            status,
            "callback"@ + seq![' '] + url,
        ) == TabActionView::Ignore,
        after_tab(status, "callback"@ + seq![' '] + url) == status,
        (kind != "signin"@ && kind != "callback"@) ==> tab_action(status, kind + seq![' '] + url)
            == TabActionView::Ignore && after_tab(status, kind + seq![' '] + url) == status,
        tab_action(status, kind) == TabActionView::Ignore,
        after_tab(status, kind) == status,
{
    reveal_strlit("signin");
    reveal_strlit("callback");
    assert("signin"@.len() != "callback"@.len());
    words::first_space_cuts("callback"@, url);
    words::first_space_cuts(kind, url);
}

/// Commands and tabs are told as they are.
pub proof fn reports_are_what_they_name(said: String, watcher: SafariWatcher, i: int)
    ensures
        CommandOutcome::Succeeded@ == OutcomeView::Succeeded,
        CommandOutcome::Failed(said)@ == OutcomeView::Failed(said@),
        CommandOutcome::NotStarted(said)@ == OutcomeView::NotStarted(said@),
        TabAction::Ignore@ == TabActionView::Ignore,
        TabAction::OpenIsolated(said)@ == TabActionView::OpenIsolated(said@),
        TabAction::Submit(said)@ == TabActionView::Submit(said@),
        watcher@.len() == watcher.seen@.len(),
        0 <= i < watcher.seen@.len() ==> watcher@[i] == watcher.seen@[i]@,
{
}

} // verus!
