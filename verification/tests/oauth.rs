//! Logins through the Kiro CLI.
use kiro_rs::browser::{
    browser_cache_directories, collect_browser_executable_candidates, isolated_browser_arguments,
    isolated_browsers, open_browser_url, open_isolated_browser_url, profile_directory_name,
    without_repeats, BrowserOpenResult, BrowserStep, EntryKind, SearchStep, TrialStep,
    BROWSER_SEARCH_DEPTH,
};
use kiro_rs::callback::{check_callback_url, normalize_kiro_callback_url, CallbackUrlError};
use kiro_rs::credentials::KiroCredentials;
use kiro_rs::kiro_cli::{
    logout_failure_is_safe, resolve_kiro_cli_path, run_kiro_cli_logout, sanitize_kiro_cli_env,
    shown_exit, CliCommand, CliPlace, CliSearch,
};
use kiro_rs::login_output::{
    close_stale_oauth_callback_tabs, keeps_watching, page_to_open, record_callback_sent,
    record_cli_line, record_page_moved, CommandOutcome, SafariWatcher, TabAction,
    WATCH_LIMIT_MILLIS,
};
use kiro_rs::oauth_login::{
    run_kiro_cli_oauth_task, KiroCliOAuthLoginRequest, LoginAction, LoginEvent, LoginStage,
    LoginTask,
};
use kiro_rs::oauth_status::{
    finish_oauth_status, oauth_output_contains, push_oauth_lines, push_oauth_output,
    KiroCliOAuthLoginStatus, MAX_OUTPUT_LINES,
};
use kiro_rs::paths::UserPath;
use kiro_rs::redaction::{extract_url, redact_oauth_output};

const SECRET: &str = "abcdefghijklmnopqrstuvwx";

/// The state of a login that has just started.
fn started() -> KiroCliOAuthLoginStatus {
    KiroCliOAuthLoginStatus {
        running: true,
        phase: "starting".to_string(),
        started_at: Some("t0".to_string()),
        ..Default::default()
    }
}

/// The last line of output.
fn last(status: &KiroCliOAuthLoginStatus) -> &str {
    status.output.last().unwrap()
}

#[test]
fn secrets_are_redacted() {
    assert_eq!(
        redact_oauth_output(&format!("  token:\t{}  end ", SECRET)),
        "token: [redacted] end"
    );
    // One character short, a foreign character, or a web address.
    assert_eq!(redact_oauth_output(&SECRET[1..]), &SECRET[1..]);
    let long_word = format!("{}é", SECRET);
    assert_eq!(redact_oauth_output(&long_word), long_word);
    let url = format!("https://{}", SECRET);
    assert_eq!(redact_oauth_output(&url), url);
    assert_eq!(redact_oauth_output("A-b_C.d=0123456789abcdefgh"), "[redacted]");
    let once = redact_oauth_output(&format!("{} {}", SECRET, url));
    assert_eq!(redact_oauth_output(&once), once);
}

#[test]
fn first_web_address_is_taken() {
    assert_eq!(
        extract_url("Open this: \"no\" https://a.b/c?d=e, or http://x"),
        Some("https://a.b/c?d=e".to_string())
    );
    assert_eq!(extract_url("see http://x)];"), Some("http://x".to_string()));
    assert_eq!(extract_url("(http://x"), None);
    assert_eq!(extract_url(""), None);
}

#[test]
fn output_is_bounded() {
    let mut status = KiroCliOAuthLoginStatus::default();
    for i in 0..MAX_OUTPUT_LINES + 3 {
        push_oauth_output(&mut status, &format!("line {}", i));
    }
    assert_eq!(status.output.len(), MAX_OUTPUT_LINES);
    assert_eq!(status.output[0], "line 3");
    assert_eq!(last(&status), format!("line {}", MAX_OUTPUT_LINES + 2));
    push_oauth_lines(&mut status, &vec!["a", "b"]);
    assert_eq!(status.output[0], "line 5");
    assert_eq!(last(&status), "b");
    assert!(oauth_output_contains(&status, "line 17"));
    assert!(!oauth_output_contains(&status, "line 4 "));
}

#[test]
fn end_of_a_login_is_recorded() {
    let mut status = started();
    finish_oauth_status(&mut status, "completed", Some(0), None, Some(12), "t1");
    assert!(!status.running);
    assert_eq!(status.phase, "completed");
    assert_eq!(status.started_at.as_deref(), Some("t0"));
    assert_eq!(status.finished_at.as_deref(), Some("t1"));
    assert_eq!(status.imported_credential_id, Some(12));
    assert_eq!(last(&status), "凭据已导入，ID: 12");
    assert_eq!(status.clone(), status);
}

#[test]
fn callbacks_go_to_the_loopback_address() {
    assert_eq!(
        normalize_kiro_callback_url(" https://localhost:3128/oauth/callback?code=a%20b&s=1#x ")
            .unwrap(),
        "http://127.0.0.1:3128/oauth/callback?code=a%20b&s=1#x"
    );
    assert_eq!(
        normalize_kiro_callback_url("http://127.0.0.1:3128/oauth/callback").unwrap(),
        "http://127.0.0.1:3128/oauth/callback"
    );
    assert_eq!(
        normalize_kiro_callback_url("HTTP://user:pw@LOCALHOST:3128/oauth/callback").unwrap(),
        "http://user:pw@127.0.0.1:3128/oauth/callback"
    );
}

#[test]
fn address_of_a_callback_is_its_own() {
    for url in [
        "https://localhost:3128/oauth/callback?code=a%20b&s='1' \"2\"#x y",
        "http://u:@127.0.0.1:3128/oauth/callback",
        "http://::@LOCALHOST:3128/a/../oauth/callback?",
        "http://a@b:c@localhost:3128/oauth/callback#",
        "http://127.1:3128/oauth/callback?é\u{3000}#\u{a0}",
    ] {
        let target = normalize_kiro_callback_url(url).unwrap();
        assert!(target.starts_with("http://"), "{}", target);
        assert!(!target.contains(char::is_whitespace), "{}", target);
        assert_eq!(normalize_kiro_callback_url(&target).unwrap(), target);
    }
}

#[test]
fn other_callbacks_are_refused() {
    let refused = |url: &str| normalize_kiro_callback_url(url).err().unwrap();
    assert_eq!(
        refused("oauth/callback"),
        CallbackUrlError::NotAUrl("relative URL without a base".to_string())
    );
    assert_eq!(refused("oauth/callback").message(), "relative URL without a base");
    assert_eq!(refused("ftp://localhost:3128/oauth/callback"), CallbackUrlError::Scheme);
    assert_eq!(refused("http://example.com:3128/oauth/callback"), CallbackUrlError::Host);
    assert_eq!(refused("http://[::1]:3128/oauth/callback"), CallbackUrlError::Host);
    assert_eq!(refused("http://localhost/oauth/callback"), CallbackUrlError::Port);
    assert_eq!(refused("http://localhost:3128/oauth"), CallbackUrlError::Path);
    assert_eq!(CallbackUrlError::Scheme.message(), "callback URL 必须是 http/https");
    assert_eq!(CallbackUrlError::Host.message(), "callback URL 必须指向 localhost");
    assert_eq!(CallbackUrlError::Port.message(), "callback URL 端口必须是 3128");
    assert_eq!(
        CallbackUrlError::Path.message(),
        "callback URL 路径必须是 /oauth/callback"
    );
}

#[test]
fn parts_of_a_callback_are_checked_in_order() {
    let path = "/oauth/callback";
    assert_eq!(check_callback_url("http", Some("::1"), Some(3128), path), Ok(()));
    assert_eq!(
        check_callback_url("gopher", None, None, ""),
        Err(CallbackUrlError::Scheme)
    );
    assert_eq!(check_callback_url("https", None, None, ""), Err(CallbackUrlError::Host));
    assert_eq!(
        check_callback_url("https", Some("localhost"), Some(443), ""),
        Err(CallbackUrlError::Port)
    );
    assert_eq!(
        check_callback_url("https", Some("localhost"), Some(3128), ""),
        Err(CallbackUrlError::Path)
    );
}

#[test]
fn browsers_are_tried_in_order() {
    assert_eq!(open_browser_url(true, None, None), BrowserStep::TryIsolated);
    assert_eq!(
        open_browser_url(true, Some(true), None),
        BrowserStep::Over(BrowserOpenResult::Isolated)
    );
    assert_eq!(open_browser_url(true, Some(false), None), BrowserStep::TryDefault);
    assert_eq!(
        open_browser_url(true, Some(false), Some(true)),
        BrowserStep::Over(BrowserOpenResult::Default)
    );
    assert_eq!(open_browser_url(false, None, None), BrowserStep::TryDefault);
    assert_eq!(
        open_browser_url(false, None, Some(false)),
        BrowserStep::Over(BrowserOpenResult::Failed)
    );
}

#[test]
fn browsers_with_own_profiles() {
    let list = isolated_browsers(Some("/my/browser".to_string()), true);
    assert_eq!(list.len(), 9);
    assert_eq!(list[0], UserPath::Literal("/my/browser".to_string()));
    assert_eq!(
        list[4],
        UserPath::Literal("/Applications/Chromium.app/Contents/MacOS/Chromium".to_string())
    );
    assert_eq!(
        list[8],
        UserPath::UnderHome("Applications/Chromium.app/Contents/MacOS/Chromium".to_string())
    );
    assert_eq!(isolated_browsers(None, false).len(), 4);
    assert_eq!(
        browser_cache_directories(),
        [
            UserPath::UnderHome("Library/Caches/ms-playwright".to_string()),
            UserPath::UnderHome(".cache/puppeteer/chrome".to_string()),
        ]
    );
    assert_eq!(profile_directory_name(12, -3), "kiro-rs-oauth-profile-12--3");
    assert_eq!(
        isolated_browser_arguments("/tmp/p", "http://x"),
        [
            "--user-data-dir=/tmp/p",
            "--no-first-run",
            "--no-default-browser-check",
            "--disable-features=HttpsUpgrades,HttpsFirstBalancedModeAutoEnable",
            "--new-window",
            "http://x",
        ]
    );
}

#[test]
fn downloaded_browsers_are_searched_for() {
    let step = collect_browser_executable_candidates;
    let depth = BROWSER_SEARCH_DEPTH;
    assert_eq!(
        step(EntryKind::File, Some("Google Chrome for Testing"), depth),
        SearchStep::Collect
    );
    assert_eq!(step(EntryKind::File, Some("Chromium"), 1), SearchStep::Collect);
    assert_eq!(step(EntryKind::File, Some("chromium"), 1), SearchStep::Skip);
    assert_eq!(step(EntryKind::File, None, 1), SearchStep::Skip);
    assert_eq!(step(EntryKind::Directory, None, 8), SearchStep::Descend(7));
    assert_eq!(step(EntryKind::Directory, Some("Chromium"), 1), SearchStep::Skip);
    assert_eq!(step(EntryKind::Other, Some("Chromium"), 8), SearchStep::Skip);
}

#[test]
fn each_browser_has_its_turn() {
    // The second of three is missing, the third one starts.
    let present = [true, false, true];
    let starts = [false, true, true];
    let mut trail = Vec::new();
    let (mut at, mut there, mut started) = (0, None, None);
    loop {
        let step = open_isolated_browser_url(3, at, there, started);
        trail.push(step);
        match step {
            TrialStep::Look(i) => {
                at = i;
                there = Some(present[i]);
                started = None;
            }
            TrialStep::Start(i) => started = Some(starts[i]),
            TrialStep::Running | TrialStep::NoneLeft => break,
        }
    }
    assert_eq!(
        trail,
        [
            TrialStep::Look(0),
            TrialStep::Start(0),
            TrialStep::Look(1),
            TrialStep::Look(2),
            TrialStep::Start(2),
            TrialStep::Running,
        ]
    );
    assert_eq!(open_isolated_browser_url(0, 0, None, None), TrialStep::NoneLeft);
    assert_eq!(open_isolated_browser_url(1, 0, Some(false), None), TrialStep::NoneLeft);
}

#[test]
fn repeats_are_dropped() {
    let items = ["b", "a", "b", "c", "a"].iter().map(|s| s.to_string()).collect();
    assert_eq!(without_repeats(items), ["b", "a", "c"]);
}

#[test]
fn cli_lines_are_recorded() {
    let mut status = started();
    status.phase = "running-cli".to_string();
    assert_eq!(page_to_open(&status, "  "), None);
    record_cli_line(&mut status, "  ", BrowserOpenResult::Failed, true);
    assert_eq!(status.phase, "running-cli");
    assert!(status.output.is_empty());

    record_cli_line(&mut status, "hello", BrowserOpenResult::Failed, true);
    assert_eq!(status.phase, "waiting-for-user");
    assert_eq!(status.output, ["hello"]);

    let line = "Open https://a.b/login,";
    assert_eq!(page_to_open(&status, line), Some("https://a.b/login".to_string()));
    record_cli_line(&mut status, line, BrowserOpenResult::Isolated, true);
    assert_eq!(status.login_url.as_deref(), Some("https://a.b/login"));
    assert_eq!(
        status.output[1],
        "已用独立浏览器配置打开官方登录页，避免复用当前浏览器账号"
    );
    assert_eq!(status.output[2], line);

    // A page is opened once.
    assert_eq!(page_to_open(&status, "http://other"), None);
    record_cli_line(&mut status, "http://other", BrowserOpenResult::Failed, true);
    assert_eq!(status.login_url.as_deref(), Some("https://a.b/login"));
    assert_eq!(status.output.len(), 4);
}

#[test]
fn opened_page_is_reported() {
    let report = |result, prefer| {
        let mut status = started();
        record_cli_line(&mut status, "http://x", result, prefer);
        status.output
    };
    assert_eq!(report(BrowserOpenResult::Default, false), ["http://x"]);
    assert_eq!(
        report(BrowserOpenResult::Default, true)[0],
        "未找到可用的独立 Chromium/Chrome/Edge/Brave，已用默认浏览器打开；如果仍自动登录，请把登录链接复制到隐身窗口"
    );
    assert_eq!(
        report(BrowserOpenResult::Failed, false)[0],
        "自动打开浏览器失败，请手动打开登录链接"
    );
}

#[test]
fn safari_tabs_are_taken_over() {
    let mut status = started();
    let mut watcher = SafariWatcher::new();
    let signin = "signin https://app.kiro.dev/signin?redirect_from=kirocli";
    match watcher.watch_line(&mut status, signin) {
        TabAction::OpenIsolated(url) => assert_eq!(url, &signin[7..]),
        other => panic!("{:?}", other),
    }
    assert_eq!(status.login_url.as_deref(), Some(&signin[7..]));
    assert_eq!(last(&status), "已接管 Safari 打开的 Kiro 登录页，改用独立 Chromium 打开");
    // The same tab again.
    assert!(matches!(watcher.watch_line(&mut status, signin), TabAction::Ignore));
    assert_eq!(status.output.len(), 1);
    // Another watcher knows that the page was opened.
    assert!(matches!(
        SafariWatcher::new().watch_line(&mut status, signin),
        TabAction::Ignore
    ));
    assert_eq!(status.output.len(), 2);

    match watcher.watch_line(&mut status, "callback https://localhost:3128/oauth/callback?c=1") {
        TabAction::Submit(url) => assert_eq!(url, "http://127.0.0.1:3128/oauth/callback?c=1"),
        other => panic!("{:?}", other),
    }
    for line in ["callback http://example.com", "callback", "tab http://x"] {
        assert!(matches!(watcher.watch_line(&mut status, line), TabAction::Ignore));
    }
    assert_eq!(watcher.seen.len(), 5);
    assert_eq!(status.output.len(), 2);
}

#[test]
fn helpers_are_reported() {
    let mut status = started();
    record_page_moved(&mut status, true);
    assert_eq!(last(&status), "已用独立 Chromium 打开官方登录页");
    record_page_moved(&mut status, false);
    assert_eq!(
        last(&status),
        "未找到可用的独立 Chromium，可能仍需要手动把登录链接复制到 Chrome 隐身窗口"
    );
    record_callback_sent(&mut status, &CommandOutcome::Succeeded);
    assert_eq!(last(&status), "已自动捕获并提交 Safari OAuth callback");
    record_callback_sent(&mut status, &CommandOutcome::Failed(" curl: (7)\n".to_string()));
    assert_eq!(last(&status), "自动提交 OAuth callback 失败: curl: (7)");
    record_callback_sent(&mut status, &CommandOutcome::NotStarted("no curl".to_string()));
    assert_eq!(last(&status), "自动提交 OAuth callback 失败: no curl");
    close_stale_oauth_callback_tabs(&mut status, &CommandOutcome::Succeeded);
    assert_eq!(last(&status), "已清理 Safari 中旧的 Kiro callback 标签");
    close_stale_oauth_callback_tabs(&mut status, &CommandOutcome::Failed(" x ".to_string()));
    assert_eq!(
        last(&status),
        "清理旧 callback 标签失败，可手动关闭旧 localhost:3128 页面: x"
    );
    close_stale_oauth_callback_tabs(&mut status, &CommandOutcome::NotStarted("y".to_string()));
    assert_eq!(
        last(&status),
        "清理旧 callback 标签失败，可手动关闭旧 localhost:3128 页面: y"
    );
}

#[test]
fn tabs_are_watched_while_the_login_runs() {
    let mut status = started();
    assert!(keeps_watching(&status, WATCH_LIMIT_MILLIS - 1));
    assert!(!keeps_watching(&status, WATCH_LIMIT_MILLIS));
    status.running = false;
    assert!(!keeps_watching(&status, 0));
}

/// How a place is shown.
fn place(place: &CliPlace) -> String {
    match place {
        CliPlace::At(UserPath::Literal(path)) => path.clone(),
        CliPlace::At(UserPath::UnderHome(rest)) => format!("~/{}", rest),
        CliPlace::At(UserPath::Home) => "~".to_string(),
        CliPlace::OnSearchPath(name) => format!("PATH:{}", name),
    }
}

#[test]
fn cli_is_looked_for_in_order() {
    let mut looked = Vec::new();
    loop {
        match resolve_kiro_cli_path(Some("  "), true, looked.len(), false) {
            CliSearch::Look(at) => looked.push(place(&at)),
            CliSearch::Nowhere => break,
            other => panic!("{:?}", other),
        }
    }
    assert_eq!(
        looked,
        [
            "PATH:kiro-cli",
            "PATH:kiro",
            "/Applications/Kiro CLI.app/Contents/MacOS/kiro-cli",
            "/Applications/Kiro.app/Contents/MacOS/kiro-cli",
            "/usr/bin/kiro-cli",
            "/usr/local/bin/kiro-cli",
            "/usr/bin/kiro",
            "/usr/local/bin/kiro",
            "/opt/kiro/kiro-cli",
            "/opt/Kiro/kiro-cli",
            "/opt/Kiro/resources/app/bin/kiro-cli",
            "/opt/homebrew/bin/kiro-cli",
        ]
    );
    match resolve_kiro_cli_path(None, true, 5, true) {
        CliSearch::Found(at) => assert_eq!(place(&at), "/usr/bin/kiro-cli"),
        other => panic!("{:?}", other),
    }
    assert_eq!(
        CliSearch::Nowhere.error_message(""),
        Some("请安装 Kiro CLI，或指定 cliPath".to_string())
    );
}

#[test]
fn named_cli_is_the_only_one() {
    match resolve_kiro_cli_path(Some(" ~/kiro "), true, 0, false) {
        CliSearch::Look(at) => {
            assert_eq!(place(&at), "~/kiro");
            assert_eq!(CliSearch::Look(at).error_message(""), None);
        }
        other => panic!("{:?}", other),
    }
    match resolve_kiro_cli_path(Some(" ~/kiro "), true, 1, true) {
        CliSearch::Found(at) => assert_eq!(place(&at), "~/kiro"),
        other => panic!("{:?}", other),
    }
    match resolve_kiro_cli_path(Some("/no/kiro"), true, 1, false) {
        search => assert_eq!(
            search.error_message("/no/kiro"),
            Some("路径不存在: /no/kiro".to_string())
        ),
    }
}

#[test]
fn logout_without_login_is_safe() {
    assert!(logout_failure_is_safe("error: Not Logged In"));
    assert!(logout_failure_is_safe("you are NOT CURRENTLY logged in"));
    assert!(logout_failure_is_safe("No valid token"));
    assert!(!logout_failure_is_safe("logged in"));
    assert_eq!(shown_exit(Some(-9)), "-9");
    assert_eq!(shown_exit(None), "signal");
}

#[test]
fn logout_is_recorded() {
    let mut status = started();
    assert_eq!(
        run_kiro_cli_logout(&mut status, true, Some(0), " a \n\nb", "c\r\n"),
        Ok(())
    );
    assert_eq!(status.output, ["a", "b", "c", "已准备好登录新的官方 Kiro CLI 账号"]);

    let mut status = started();
    assert_eq!(run_kiro_cli_logout(&mut status, false, Some(1), "", "not logged in"), Ok(()));
    let mut status = started();
    assert_eq!(
        run_kiro_cli_logout(&mut status, false, Some(1), "", "no network"),
        Err("logout 退出码: 1".to_string())
    );
    assert_eq!(status.output, ["no network"]);
    // The words may not be found across the two outputs.
    let mut status = started();
    assert_eq!(
        run_kiro_cli_logout(&mut status, false, None, "not", "logged in"),
        Err("logout 退出码: signal".to_string())
    );
}

#[test]
fn terminal_is_taken_from_the_environment() {
    let pair = |name: &str, value: &str| (name.to_string(), value.to_string());
    let mut command = CliCommand {
        args: vec!["whoami".to_string()],
        removed: vec!["TERM".to_string(), "HOME".to_string(), "STY".to_string()],
        set: vec![pair("STY", "x"), pair("TERM", "xterm"), pair("LANG", "C"), pair("Q_TERM", "1")],
    };
    sanitize_kiro_cli_env(&mut command);
    assert_eq!(command.args, ["whoami"]);
    assert_eq!(
        command.removed,
        [
            "HOME",
            "STY",
            "WINDOW",
            "TERMCAP",
            "TERM_PROGRAM",
            "TERM_PROGRAM_VERSION",
            "Q_TERM",
            "Q_TERM_TMUX",
            "Q_PARENT",
            "Q_SET_PARENT",
            "Q_SET_PARENT_CHECK",
            "Q_NEW_SESSION",
        ]
    );
    assert_eq!(command.set, [pair("LANG", "C"), pair("TERM", "dumb")]);
    let once = command.clone();
    sanitize_kiro_cli_env(&mut command);
    assert_eq!(command.removed, once.removed);
    assert_eq!(command.set, once.set);
}

/// A request for a login.
fn request() -> KiroCliOAuthLoginRequest {
    KiroCliOAuthLoginRequest {
        cli_path: None,
        force_logout: None,
        use_device_flow: None,
        license: None,
        identity_provider: None,
        db_path: None,
        priority: None,
        region: None,
        auth_region: None,
        api_region: None,
    }
}

/// A login that has come to waiting for the Kiro CLI.
fn running(
    status: &mut KiroCliOAuthLoginStatus,
    request: KiroCliOAuthLoginRequest,
) -> LoginTask {
    let task = run_kiro_cli_oauth_task(status, request, "/bin/kiro".to_string());
    task.step(status, LoginEvent::CliStarted, "t")
}

#[test]
fn login_completes() {
    let mut status = started();
    let mut req = request();
    req.force_logout = Some(true);
    req.region = Some("eu".to_string());
    req.db_path = Some("db".to_string());
    let task = run_kiro_cli_oauth_task(&mut status, req, "/bin/kiro".to_string());
    assert_eq!(status.phase, "logging-out");
    assert_eq!(last(&status), "正在退出官方 Kiro CLI 当前账号");
    match task.action() {
        LoginAction::RunLogout(command) => {
            assert_eq!(command.args, ["logout", "-v"]);
            assert_eq!(command.removed.len(), 11);
            assert_eq!(command.removed[0], "STY");
            assert_eq!(command.set, [("TERM".to_string(), "dumb".to_string())]);
        }
        other => panic!("{:?}", other),
    }
    let task = task.step(
        &mut status,
        LoginEvent::LoggedOut {
            success: true,
            code: Some(0),
            stdout: "bye".to_string(),
            stderr: String::new(),
        },
        "t1",
    );
    assert_eq!(status.phase, "running-cli");
    assert_eq!(
        status.output[1..],
        [
            "bye",
            "已准备好登录新的官方 Kiro CLI 账号",
            "启动官方 Kiro CLI: /bin/kiro",
            "使用 Kiro 官方浏览器 OAuth 登录；请在打开的页面选择 GitHub/Google/Kiro 账号",
        ]
    );
    match task.action() {
        LoginAction::StartCli { command, browser_login } => {
            assert!(browser_login);
            assert_eq!(command.args, ["login", "--license", "free", "-v", "--region", "eu"]);
            assert_eq!(command.set.len(), 1);
        }
        other => panic!("{:?}", other),
    }
    let task = task.step(&mut status, LoginEvent::CliStarted, "t2");
    assert!(matches!(task.action(), LoginAction::AwaitCli));
    let task = task.step(
        &mut status,
        LoginEvent::CliExited { success: true, code: Some(0) },
        "t3",
    );
    assert_eq!(status.phase, "importing");
    assert_eq!(last(&status), "Kiro CLI 登录完成，正在导入凭据");
    match task.action() {
        LoginAction::LoadCredential(options) => {
            assert_eq!(options.db_path.as_deref(), Some("db"));
            assert_eq!(options.region.as_deref(), Some("eu"));
            assert_eq!(options.priority, None);
        }
        other => panic!("{:?}", other),
    }
    let credential = KiroCredentials {
        refresh_token: Some("r".to_string()),
        ..Default::default()
    };
    let task = task.step(&mut status, LoginEvent::Loaded(credential.clone()), "t4");
    match task.action() {
        LoginAction::AddCredential(handed) => assert_eq!(handed, credential),
        other => panic!("{:?}", other),
    }
    assert!(status.running);
    let task = task.step(&mut status, LoginEvent::Added(5), "t5");
    assert!(matches!(task.action(), LoginAction::Stop));
    assert!(!status.running);
    assert_eq!(status.phase, "completed");
    assert_eq!(status.exit_code, Some(0));
    assert_eq!(status.finished_at.as_deref(), Some("t5"));
    assert_eq!(status.imported_credential_id, Some(5));
    assert_eq!(status.error, None);
}

#[test]
fn device_flow_has_its_own_arguments() {
    let mut status = started();
    let mut req = request();
    req.use_device_flow = Some(true);
    req.license = Some(" pro ".to_string());
    req.identity_provider = Some("https://idp".to_string());
    req.region = Some("  ".to_string());
    let task = run_kiro_cli_oauth_task(&mut status, req, "kiro".to_string());
    assert_eq!(last(&status), "使用 AWS device flow 登录；这通常对应 Builder ID 免费额度");
    match task.action() {
        LoginAction::StartCli { command, browser_login } => {
            assert!(!browser_login);
            assert_eq!(
                command.args,
                [
                    "login",
                    "--use-device-flow",
                    "--license",
                    "pro",
                    "-v",
                    "--identity-provider",
                    "https://idp",
                ]
            );
            assert_eq!(
                command.set,
                [
                    ("TERM".to_string(), "dumb".to_string()),
                    ("Q_FAKE_IS_REMOTE".to_string(), "1".to_string()),
                ]
            );
        }
        other => panic!("{:?}", other),
    }
}

#[test]
fn login_in_place_serves_unless_logged_out() {
    let failed = LoginEvent::CliExited { success: false, code: Some(1) };

    let mut status = started();
    let task = running(&mut status, request());
    push_oauth_output(&mut status, "error: Already logged in, please logout first");
    let task = task.step(&mut status, failed.clone(), "t");
    assert_eq!(last(&status), "官方 Kiro CLI 已登录，直接导入现有凭据");
    assert!(matches!(task.stage, LoginStage::Loading { code: Some(1) }));

    let mut status = started();
    let mut req = request();
    req.force_logout = Some(true);
    let task = LoginTask {
        request: req,
        shown_cli: String::new(),
        stage: LoginStage::Running,
    };
    push_oauth_output(&mut status, "error: Already logged in, please logout first");
    let task = task.step(&mut status, failed.clone(), "t");
    assert!(matches!(task.stage, LoginStage::Over));
    assert_eq!(status.error.as_deref(), Some("Kiro CLI 登录失败，退出码: 1"));

    let mut status = started();
    let task = running(&mut status, request());
    let task =
        task.step(&mut status, LoginEvent::CliExited { success: false, code: None }, "t");
    assert!(matches!(task.stage, LoginStage::Over));
    assert_eq!(status.error.as_deref(), Some("Kiro CLI 登录失败，退出码: signal"));
    assert_eq!(status.phase, "failed");
    assert_eq!(status.exit_code, None);
}

#[test]
fn failures_end_a_login() {
    let error = |stage: LoginStage, event: LoginEvent| {
        let mut status = started();
        let task = LoginTask { request: request(), shown_cli: String::new(), stage };
        let task = task.step(&mut status, event, "now");
        assert!(matches!(task.stage, LoginStage::Over));
        assert!(!status.running);
        assert_eq!(status.phase, "failed");
        assert_eq!(status.finished_at.as_deref(), Some("now"));
        assert_eq!(status.imported_credential_id, None);
        (status.error.unwrap(), status.exit_code)
    };
    let reason = || "x".to_string();
    assert_eq!(
        error(LoginStage::LoggingOut, LoginEvent::LogoutNotStarted(reason())),
        ("退出官方 Kiro CLI 当前账号失败: 启动 logout 失败: x".to_string(), None)
    );
    assert_eq!(
        error(
            LoginStage::LoggingOut,
            LoginEvent::LoggedOut {
                success: false,
                code: Some(2),
                stdout: String::new(),
                stderr: String::new(),
            }
        ),
        ("退出官方 Kiro CLI 当前账号失败: logout 退出码: 2".to_string(), None)
    );
    assert_eq!(
        error(LoginStage::Starting, LoginEvent::CliNotStarted(reason())),
        ("启动 Kiro CLI 失败: x".to_string(), None)
    );
    assert_eq!(
        error(LoginStage::Running, LoginEvent::CliLost(reason())),
        ("等待 Kiro CLI 登录结束失败: x".to_string(), None)
    );
    assert_eq!(
        error(LoginStage::Loading { code: Some(0) }, LoginEvent::NotLoaded(reason())),
        ("导入 Kiro CLI 凭据失败: x".to_string(), Some(0))
    );
    assert_eq!(
        error(
            LoginStage::Adding { code: Some(0), credential: KiroCredentials::default() },
            LoginEvent::NotAdded(reason())
        ),
        ("添加凭据到当前服务失败: x".to_string(), Some(0))
    );
}

#[test]
fn stray_events_change_nothing() {
    let mut status = started();
    let before = status.clone();
    let task = LoginTask {
        request: request(),
        shown_cli: String::new(),
        stage: LoginStage::Running,
    };
    let task = task.step(&mut status, LoginEvent::Added(1), "t");
    assert!(matches!(task.stage, LoginStage::Running));
    assert_eq!(status, before);
}
