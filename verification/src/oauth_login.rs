//! A login through the official Kiro CLI, from the logout before it to the credentials that it
//! leaves behind.
//!
//! [`LoginTask::action`] says what to do next outside, and [`LoginTask::step`] takes what came of
//! it.
use crate::credential_load::LoadKiroCliCredentialOptions;
use crate::credentials::KiroCredentials;
use crate::kiro_cli;
use crate::kiro_cli::{
    login_command, logout_command, run_kiro_cli_logout, shown_exit, CliCommand, LoginSettings,
    LoginSettingsView,
};
use crate::oauth_status;
use crate::oauth_status::{
    finish_oauth_status, oauth_output_contains, push_oauth_output, KiroCliOAuthLoginStatus,
    StatusView,
};
use crate::text;
use crate::token_record::OverridesView;
use vstd::prelude::*;
use vstd::string::*;

verus! {

/// What a login is asked to do.
#[derive(Debug, Clone)]
pub struct KiroCliOAuthLoginRequest {
    pub cli_path: Option<String>,
    pub force_logout: Option<bool>,
    pub use_device_flow: Option<bool>,
    pub license: Option<String>,
    pub identity_provider: Option<String>,
    pub db_path: Option<String>,
    pub priority: Option<u32>,
    pub region: Option<String>,
    pub auth_region: Option<String>,
    pub api_region: Option<String>,
}

impl KiroCliOAuthLoginRequest {
    /// The current login is to be ended first.
    pub open spec fn logs_out(self) -> bool {
        self.force_logout == Some(true)
    }

    /// The login goes without a browser on this machine.
    pub open spec fn uses_device_flow(self) -> bool {
        self.use_device_flow == Some(true)
    }

    /// How to log in.
    pub open spec fn login_settings(self) -> LoginSettingsView {
        LoginSettingsView {
            use_device_flow: self.uses_device_flow(),
            license: text::opt_text(self.license),
            identity_provider: text::opt_text(self.identity_provider),
            region: text::opt_text(self.region),
        }
    }

    /// The settings that take the place of what the login database says.
    pub open spec fn load_settings(self) -> OverridesView {
        OverridesView {
            priority: self.priority,
            region: text::opt_text(self.region),
            auth_region: text::opt_text(self.auth_region),
            api_region: text::opt_text(self.api_region),
        }
    }

    /// Tells whether the current login is to be ended first.
    fn wants_logout(&self) -> (r: bool)
        ensures
            r == self.logs_out(),
    {
        match self.force_logout {
            Some(wanted) => wanted,
            None => false,
        }
    }

    /// Tells whether the login goes without a browser on this machine.
    fn wants_device_flow(&self) -> (r: bool)
        ensures
            r == self.uses_device_flow(),
    {
        match self.use_device_flow {
            Some(wanted) => wanted,
            None => false,
        }
    }
}

// ---------------------------------------------------------------------------
// Actions and events
// ---------------------------------------------------------------------------

/// What is to be done next.
#[derive(Debug, Clone)]
pub enum LoginAction {
    /// Run the Kiro CLI to its end.
    RunLogout(CliCommand),
    /// Start the Kiro CLI and read its output; `browser_login` tells whether the login goes
    /// through a browser on this machine.
    StartCli { command: CliCommand, browser_login: bool },
    /// Wait for the end of the Kiro CLI and of its output.
    AwaitCli,
    /// Load the credentials that the Kiro CLI stored.
    LoadCredential(LoadKiroCliCredentialOptions),
    /// Hand these credentials on.
    AddCredential(KiroCredentials),
    /// Nothing: the login is over.
    Stop,
}

/// `options` is what is to be loaded for `request`.
pub open spec fn loads_for(
    options: LoadKiroCliCredentialOptions,
    request: KiroCliOAuthLoginRequest,
) -> bool {
    &&& text::opt_text(options.db_path) == text::opt_text(request.db_path)
    &&& options.settings() == request.load_settings()
}

/// What came of a [`LoginAction`].
#[derive(Debug, Clone)]
pub enum LoginEvent {
    /// The logout could not be started, for this reason.
    LogoutNotStarted(String),
    /// The logout ended.
    LoggedOut { success: bool, code: Option<i32>, stdout: String, stderr: String },
    /// The Kiro CLI could not be started, for this reason.
    CliNotStarted(String),
    /// The Kiro CLI is running.
    CliStarted,
    /// Waiting for the Kiro CLI failed, for this reason.
    CliLost(String),
    /// The Kiro CLI ended.
    CliExited { success: bool, code: Option<i32> },
    /// No credentials could be loaded, for this reason.
    NotLoaded(String),
    /// These credentials were loaded.
    Loaded(KiroCredentials),
    /// The credentials could not be handed on, for this reason.
    NotAdded(String),
    /// The credentials were handed on and have this id.
    Added(u64),
}

/// How far a login has come.
#[derive(Debug, Clone)]
pub enum LoginStage {
    /// Ending the login before.
    LoggingOut,
    /// Starting the Kiro CLI.
    Starting,
    /// Waiting for the Kiro CLI.
    Running,
    /// Loading the credentials, after the Kiro CLI ended with this code.
    Loading { code: Option<i32> },
    /// Handing the credentials on, after the Kiro CLI ended with this code.
    Adding { code: Option<i32>, credential: KiroCredentials },
    /// The login is over.
    Over,
}

/// A login.
#[derive(Debug, Clone)]
pub struct LoginTask {
    pub request: KiroCliOAuthLoginRequest,
    /// How the path of the Kiro CLI is shown.
    pub shown_cli: String,
    pub stage: LoginStage,
}

// ---------------------------------------------------------------------------
// The course of a login
// ---------------------------------------------------------------------------

/// `status` when the Kiro CLI is about to start.
pub open spec fn starting_cli(
    status: StatusView,
    shown_cli: Seq<char>,
    device_flow: bool,
) -> StatusView {
    status.enters("running-cli"@).prints("启动官方 Kiro CLI: "@ + shown_cli).prints(
        if device_flow {
            "使用 AWS device flow 登录；这通常对应 Builder ID 免费额度"@
        } else {
            "使用 Kiro 官方浏览器 OAuth 登录；请在打开的页面选择 GitHub/Google/Kiro 账号"@
        },
    )
}

/// `status` when the credentials are about to be loaded.
pub open spec fn importing(status: StatusView, success: bool) -> StatusView {
    status.enters("importing"@).prints(
        if success {
            "Kiro CLI 登录完成，正在导入凭据"@
        } else {
            "官方 Kiro CLI 已登录，直接导入现有凭据"@
        },
    )
}

/// `status` when a login failed.
pub open spec fn failed(
    status: StatusView,
    code: Option<i32>,
    error: Seq<char>,
    now: Seq<char>,
) -> StatusView {
    oauth_status::finished(status, "failed"@, code, Some(error), None, now)
}

/// The Kiro CLI said that an account is logged in already.
pub open spec fn already_logged_in(status: StatusView) -> bool {
    exists|i: int|
        0 <= i < status.output.len() && text::has_text(
            #[trigger] status.output[i],
            "Already logged in"@,
        )
}

/// A Kiro CLI that ended like this has left credentials behind: it succeeded, or it found an
/// account logged in that was not to be logged out.
pub open spec fn leaves_credentials(status: StatusView, success: bool, logs_out: bool) -> bool {
    success || (already_logged_in(status) && !logs_out)
}

impl LoginTask {
    /// This login at another stage.
    pub open spec fn at(self, stage: LoginStage) -> LoginTask {
        LoginTask { stage, ..self }
    }

    /// The login is over.
    pub open spec fn is_over(self) -> bool {
        self.stage is Over
    }

    /// What follows `status` when the Kiro CLI is about to start.
    pub open spec fn cli_start(self, status: StatusView) -> (LoginStage, StatusView) {
        (
            LoginStage::Starting,
            starting_cli(status, self.shown_cli@, self.request.uses_device_flow()),
        )
    }

    /// What follows `status` at the event `event` and the time `now`. An event that answers
    /// another action changes nothing.
    pub open spec fn after(
        self,
        status: StatusView,
        event: LoginEvent,
        now: Seq<char>,
    ) -> (LoginStage, StatusView) {
        match (self.stage, event) {
            (LoginStage::LoggingOut, LoginEvent::LogoutNotStarted(reason)) => (
                LoginStage::Over,
                failed(
                    status,
                    None,
                    "退出官方 Kiro CLI 当前账号失败: "@ + ("启动 logout 失败: "@ + reason@),
                    now,
                ),
            ),
            (LoginStage::LoggingOut, LoginEvent::LoggedOut { success, code, stdout, stderr }) => {
                let ready = kiro_cli::is_logged_out(success, stdout@, stderr@);
                let shown = kiro_cli::after_logout(status, ready, stdout@, stderr@);
                if ready {
                    self.cli_start(shown)
                } else {
                    (
                        LoginStage::Over,
                        failed(
                            shown,
                            None,
                            "退出官方 Kiro CLI 当前账号失败: "@ + ("logout 退出码: "@
                                + kiro_cli::exit_text(code)),
                            now,
                        ),
                    )
                }
            },
            (LoginStage::Starting, LoginEvent::CliNotStarted(reason)) => (
                LoginStage::Over,
                failed(status, None, "启动 Kiro CLI 失败: "@ + reason@, now),
            ),
            (LoginStage::Starting, LoginEvent::CliStarted) => (LoginStage::Running, status),
            (LoginStage::Running, LoginEvent::CliLost(reason)) => (
                LoginStage::Over,
                failed(status, None, "等待 Kiro CLI 登录结束失败: "@ + reason@, now),
            ),
            (LoginStage::Running, LoginEvent::CliExited { success, code }) => {
                if leaves_credentials(status, success, self.request.logs_out()) {
                    (LoginStage::Loading { code }, importing(status, success))
                } else {
                    (
                        LoginStage::Over,
                        failed(
                            status,
                            code,
                            "Kiro CLI 登录失败，退出码: "@ + kiro_cli::exit_text(code),
                            now,
                        ),
                    )
                }
            },
            (LoginStage::Loading { code }, LoginEvent::NotLoaded(reason)) => (
                LoginStage::Over,
                failed(status, code, "导入 Kiro CLI 凭据失败: "@ + reason@, now),
            ),
            (LoginStage::Loading { code }, LoginEvent::Loaded(credential)) => (
                LoginStage::Adding { code, credential },
                status,
            ),
            (LoginStage::Adding { code, credential }, LoginEvent::NotAdded(reason)) => (
                LoginStage::Over,
                failed(status, code, "添加凭据到当前服务失败: "@ + reason@, now),
            ),
            (LoginStage::Adding { code, credential }, LoginEvent::Added(id)) => (
                LoginStage::Over,
                oauth_status::finished(status, "completed"@, code, None, Some(id), now),
            ),
            (stage, _) => (stage, status),
        }
    }

    /// `action` is what is to be done at this stage.
    pub open spec fn calls_for(self, action: LoginAction) -> bool {
        match self.stage {
            LoginStage::LoggingOut => action matches LoginAction::RunLogout(command) && command@
                == kiro_cli::logout_run(),
            LoginStage::Starting => action matches LoginAction::StartCli { command, browser_login }
                && command@ == kiro_cli::login_run(self.request.login_settings())
                && browser_login == !self.request.uses_device_flow(),
            LoginStage::Running => action is AwaitCli,
            LoginStage::Loading { code } => action matches LoginAction::LoadCredential(options)
                && loads_for(options, self.request),
            LoginStage::Adding { code, credential } => action matches LoginAction::AddCredential(
                handed,
            ) && handed == credential,
            LoginStage::Over => action is Stop,
        }
    }

    /// What is to be done next.
    pub fn action(&self) -> (r: LoginAction)
        ensures
            self.calls_for(r),
    {
        match &self.stage {
            LoginStage::LoggingOut => LoginAction::RunLogout(logout_command()),
            LoginStage::Starting => {
                let settings = LoginSettings {
                    use_device_flow: self.request.wants_device_flow(),
                    license: borrowed(&self.request.license),
                    identity_provider: borrowed(&self.request.identity_provider),
                    region: borrowed(&self.request.region),
                };
                LoginAction::StartCli {
                    command: login_command(&settings),
                    browser_login: !self.request.wants_device_flow(),
                }
            },
            LoginStage::Running => LoginAction::AwaitCli,
            LoginStage::Loading { .. } => LoginAction::LoadCredential(
                LoadKiroCliCredentialOptions {
                    db_path: self.request.db_path.clone(),
                    priority: self.request.priority,
                    region: self.request.region.clone(),
                    auth_region: self.request.auth_region.clone(),
                    api_region: self.request.api_region.clone(),
                },
            ),
            LoginStage::Adding { credential, .. } => LoginAction::AddCredential(
                credential.clone(),
            ),
            LoginStage::Over => LoginAction::Stop,
        }
    }

    /// Starts the Kiro CLI: what is said of it goes into `status`.
    fn enter_cli(&self, status: &mut KiroCliOAuthLoginStatus)
        ensures
            final(status)@ == self.cli_start(old(status)@).1,
    {
        status.phase = "running-cli".to_string();
        let line = "启动官方 Kiro CLI: ".to_string().concat(self.shown_cli.as_str());
        push_oauth_output(status, line.as_str());
        if self.request.wants_device_flow() {
            push_oauth_output(
                status,
                "使用 AWS device flow 登录；这通常对应 Builder ID 免费额度",
            );
        } else {
            push_oauth_output(
                status,
                "使用 Kiro 官方浏览器 OAuth 登录；请在打开的页面选择 GitHub/Google/Kiro 账号",
            );
        }
    }

    /// Takes what came of the last action at the time `now`.
    pub fn step(
        self,
        status: &mut KiroCliOAuthLoginStatus,
        event: LoginEvent,
        now: &str,
    ) -> (r: LoginTask)
        ensures
            r.request == self.request,
            r.shown_cli == self.shown_cli,
            (r.stage, final(status)@) == self.after(old(status)@, event, now@),
            self.stage is Running ==> (event matches LoginEvent::CliExited { success, code } ==> (
            success ==> r.stage == (LoginStage::Loading { code }) && final(status)@.phase
                == "importing"@)),
    {
        let LoginTask { request, shown_cli, stage } = self;
        match (stage, event) {
            (LoginStage::LoggingOut, LoginEvent::LogoutNotStarted(reason)) => {
                fail(
                    status,
                    None,
                    "退出官方 Kiro CLI 当前账号失败: ",
                    "启动 logout 失败: ".to_string().concat(reason.as_str()).as_str(),
                    now,
                );
                LoginTask { request, shown_cli, stage: LoginStage::Over }
            },
            (LoginStage::LoggingOut, LoginEvent::LoggedOut { success, code, stdout, stderr }) => {
                match run_kiro_cli_logout(
                    status,
                    success,
                    code,
                    stdout.as_str(),
                    stderr.as_str(),
                ) {
                    Ok(_) => {
                        let task = LoginTask { request, shown_cli, stage: LoginStage::Starting };
                        task.enter_cli(status);
                        task
                    },
                    Err(message) => {
                        fail(
                            status,
                            None,
                            "退出官方 Kiro CLI 当前账号失败: ",
                            message.as_str(),
                            now,
                        );
                        LoginTask { request, shown_cli, stage: LoginStage::Over }
                    },
                }
            },
            (LoginStage::Starting, LoginEvent::CliNotStarted(reason)) => {
                fail(status, None, "启动 Kiro CLI 失败: ", reason.as_str(), now);
                LoginTask { request, shown_cli, stage: LoginStage::Over }
            },
            (LoginStage::Starting, LoginEvent::CliStarted) => LoginTask {
                request,
                shown_cli,
                stage: LoginStage::Running,
            },
            (LoginStage::Running, LoginEvent::CliLost(reason)) => {
                fail(status, None, "等待 Kiro CLI 登录结束失败: ", reason.as_str(), now);
                LoginTask { request, shown_cli, stage: LoginStage::Over }
            },
            (LoginStage::Running, LoginEvent::CliExited { success, code }) => {
                let already = oauth_output_contains(status, "Already logged in");
                if !success && (!already || request.wants_logout()) {
                    fail(
                        status,
                        code,
                        "Kiro CLI 登录失败，退出码: ",
                        shown_exit(code).as_str(),
                        now,
                    );
                    LoginTask { request, shown_cli, stage: LoginStage::Over }
                } else {
                    status.phase = "importing".to_string();
                    if success {
                        push_oauth_output(status, "Kiro CLI 登录完成，正在导入凭据");
                    } else {
                        push_oauth_output(status, "官方 Kiro CLI 已登录，直接导入现有凭据");
                    }
                    LoginTask { request, shown_cli, stage: LoginStage::Loading { code } }
                }
            },
            (LoginStage::Loading { code }, LoginEvent::NotLoaded(reason)) => {
                fail(status, code, "导入 Kiro CLI 凭据失败: ", reason.as_str(), now);
                LoginTask { request, shown_cli, stage: LoginStage::Over }
            },
            (LoginStage::Loading { code }, LoginEvent::Loaded(credential)) => LoginTask {
                request,
                shown_cli,
                stage: LoginStage::Adding { code, credential },
            },
            (LoginStage::Adding { code, .. }, LoginEvent::NotAdded(reason)) => {
                fail(status, code, "添加凭据到当前服务失败: ", reason.as_str(), now);
                LoginTask { request, shown_cli, stage: LoginStage::Over }
            },
            (LoginStage::Adding { code, .. }, LoginEvent::Added(id)) => {
                finish_oauth_status(status, "completed", code, None, Some(id), now);
                LoginTask { request, shown_cli, stage: LoginStage::Over }
            },
            (stage, _) => LoginTask { request, shown_cli, stage },
        }
    }
}

/// The text of an optional string.
fn borrowed(value: &Option<String>) -> (r: Option<&str>)
    ensures
        text::opt_str(r) == text::opt_text(*value),
{
    match value {
        Some(value) => Some(value.as_str()),
        None => None,
    }
}

/// Ends a login that failed.
fn fail(
    status: &mut KiroCliOAuthLoginStatus,
    code: Option<i32>,
    what: &str,
    reason: &str,
    now: &str,
)
    ensures
        final(status)@ == failed(old(status)@, code, what@ + reason@, now@),
{
    let error = what.to_string().concat(reason);
    finish_oauth_status(status, "failed", code, Some(error), None, now);
}

/// `status` when a login begins.
pub open spec fn login_begun(
    status: StatusView,
    request: KiroCliOAuthLoginRequest,
    shown_cli: Seq<char>,
) -> StatusView {
    if request.logs_out() {
        status.enters("logging-out"@).prints("正在退出官方 Kiro CLI 当前账号"@)
    } else {
        starting_cli(status, shown_cli, request.uses_device_flow())
    }
}

/// Begins a login with the Kiro CLI whose path is shown as `shown_cli`.
pub fn run_kiro_cli_oauth_task(
    status: &mut KiroCliOAuthLoginStatus,
    request: KiroCliOAuthLoginRequest,
    shown_cli: String,
) -> (r: LoginTask)
    ensures
        r.request == request,
        r.shown_cli == shown_cli,
        r.stage == (if request.logs_out() {
            LoginStage::LoggingOut
        } else {
            LoginStage::Starting
        }),
        final(status)@ == login_begun(old(status)@, request, shown_cli@),
{
    if request.wants_logout() {
        status.phase = "logging-out".to_string();
        push_oauth_output(status, "正在退出官方 Kiro CLI 当前账号");
        LoginTask { request, shown_cli, stage: LoginStage::LoggingOut }
    } else {
        let task = LoginTask { request, shown_cli, stage: LoginStage::Starting };
        task.enter_cli(status);
        task
    }
}

// ---------------------------------------------------------------------------
// What every login keeps
// ---------------------------------------------------------------------------

/// `status` tells how a login ended: with the id of the credentials, or with an error.
pub open spec fn tells_end(status: StatusView) -> bool {
    &&& status.finished_at is Some
    &&& {
        ||| status.phase == "completed"@ && status.imported_credential_id is Some && status.error
            is None
        ||| status.phase == "failed"@ && status.imported_credential_id is None && status.error
            is Some
    }
}

impl LoginTask {
    /// What every login keeps: the status says that it is running until it is over and then tells
    /// how it ended, and its output stays within bounds and free of secrets.
    pub open spec fn keeps(self, status: StatusView) -> bool {
        &&& status.wf()
        &&& status.running == !self.is_over()
        &&& self.is_over() ==> tells_end(status)
    }

    /// `event` can come of what is to be done at this stage.
    pub open spec fn awaits(self, event: LoginEvent) -> bool {
        match self.stage {
            LoginStage::LoggingOut => event is LogoutNotStarted || event is LoggedOut,
            LoginStage::Starting => event is CliNotStarted || event is CliStarted,
            LoginStage::Running => event is CliLost || event is CliExited,
            LoginStage::Loading { code } => event is NotLoaded || event is Loaded,
            LoginStage::Adding { code, credential } => event is NotAdded || event is Added,
            LoginStage::Over => false,
        }
    }

    /// How many actions this login calls for at most.
    pub open spec fn steps_left(self) -> int {
        match self.stage {
            LoginStage::LoggingOut => 5,
            LoginStage::Starting => 4,
            LoginStage::Running => 3,
            LoginStage::Loading { code } => 2,
            LoginStage::Adding { code, credential } => 1,
            LoginStage::Over => 0,
        }
    }
}

/// A running status that begins a login keeps what every login keeps.
pub proof fn login_begins_well(
    status: StatusView,
    request: KiroCliOAuthLoginRequest,
    shown_cli: String,
    stage: LoginStage,
)
    requires
        status.wf(),
        status.running,
        !(stage is Over),
    ensures
        (LoginTask { request, shown_cli, stage }).keeps(
            login_begun(status, request, shown_cli@),
        ),
{
    if request.logs_out() {
        oauth_status::output_stays_bounded_and_redacted(
            status.enters("logging-out"@),
            "正在退出官方 Kiro CLI 当前账号"@,
        );
    } else {
        starting_keeps_output(status, shown_cli@, request.uses_device_flow());
    }
}

/// What is said when the Kiro CLI starts leaves the output within bounds.
proof fn starting_keeps_output(status: StatusView, shown_cli: Seq<char>, device_flow: bool)
    requires
        status.wf(),
    ensures
        starting_cli(status, shown_cli, device_flow).wf(),
{
    let running = status.enters("running-cli"@);
    let first = "启动官方 Kiro CLI: "@ + shown_cli;
    let second = if device_flow {
        "使用 AWS device flow 登录；这通常对应 Builder ID 免费额度"@
    } else {
        "使用 Kiro 官方浏览器 OAuth 登录；请在打开的页面选择 GitHub/Google/Kiro 账号"@
    };
    assert(running.wf());
    oauth_status::output_stays_bounded_and_redacted(running, first);
    oauth_status::output_stays_bounded_and_redacted(running.prints(first), second);
}

/// The end of a login leaves its output within bounds.
proof fn finishing_keeps_output(
    status: StatusView,
    phase: Seq<char>,
    code: Option<i32>,
    error: Option<Seq<char>>,
    id: Option<u64>,
    now: Seq<char>,
)
    requires
        status.wf(),
    ensures
        oauth_status::finished(status, phase, code, error, id, now).wf(),
{
    if let Some(n) = id {
        let over = StatusView {
            running: false,
            phase,
            finished_at: Some(now),
            exit_code: code,
            error,
            imported_credential_id: id,
            ..status
        };
        assert(over.wf());
        oauth_status::output_stays_bounded_and_redacted(
            over,
            "凭据已导入，ID: "@ + crate::decimal::decimal(n as nat),
        );
    }
}

/// Whatever happens, a login keeps what every login keeps. An event that comes of its last action
/// brings it nearer to its end, and no other event changes anything.
pub proof fn login_step_keeps(
    task: LoginTask,
    status: StatusView,
    event: LoginEvent,
    now: Seq<char>,
)
    requires
        task.keeps(status),
    ensures
        ({
            let (stage, next) = task.after(status, event, now);
            &&& task.at(stage).keeps(next)
            &&& task.awaits(event) ==> 0 <= task.at(stage).steps_left() < task.steps_left()
            &&& !task.awaits(event) ==> (stage, next) == (task.stage, status)
        }),
{
    let (stage, next) = task.after(status, event, now);
    match (task.stage, event) {
        (LoginStage::LoggingOut, LoginEvent::LoggedOut { success, code, stdout, stderr }) => {
            let ready = kiro_cli::is_logged_out(success, stdout@, stderr@);
            let out = crate::words::trimmed_lines(stdout@);
            let err = crate::words::trimmed_lines(stderr@);
            let shown = kiro_cli::after_logout(status, ready, stdout@, stderr@);
            oauth_status::lines_stay_bounded_and_redacted(status, out);
            oauth_status::lines_stay_bounded_and_redacted(status.prints_all(out), err);
            if ready {
                oauth_status::output_stays_bounded_and_redacted(
                    status.prints_all(out).prints_all(err),
                    "已准备好登录新的官方 Kiro CLI 账号"@,
                );
                starting_keeps_output(shown, task.shown_cli@, task.request.uses_device_flow());
            }
        },
        (LoginStage::Running, LoginEvent::CliExited { success, code }) => {
            let waiting = status.enters("importing"@);
            assert(waiting.wf());
            oauth_status::output_stays_bounded_and_redacted(
                waiting,
                if success {
                    "Kiro CLI 登录完成，正在导入凭据"@
                } else {
                    "官方 Kiro CLI 已登录，直接导入现有凭据"@
                },
            );
        },
        (LoginStage::Adding { code, credential }, LoginEvent::Added(id)) => {
            finishing_keeps_output(status, "completed"@, code, None, Some(id), now);
        },
        _ => {},
    }
}

/// A login gives an id to credentials only when they were loaded and handed on, and it tells that
/// id and how the Kiro CLI ended.
pub proof fn completed_login_tells_id(
    task: LoginTask,
    status: StatusView,
    event: LoginEvent,
    now: Seq<char>,
)
    requires
        task.keeps(status),
        !task.is_over(),
        task.after(status, event, now).0 is Over,
    ensures
        task.after(status, event, now).1.phase == "completed"@ <==> (event is Added),
        event matches LoginEvent::Added(id) ==> {
            &&& task.stage is Adding
            &&& task.after(status, event, now).1.imported_credential_id == Some(id)
            &&& task.after(status, event, now).1.exit_code == task.stage->Adding_code
        },
        task.after(status, event, now).1.finished_at == Some(now),
{
    reveal_strlit("completed");
    reveal_strlit("failed");
    assert("completed"@ != "failed"@) by {
        assert("completed"@.len() != "failed"@.len());
    }
}

/// An account that was logged in before serves for a login only when it was not to be logged out.
pub proof fn failed_cli_ends_login(
    task: LoginTask,
    status: StatusView,
    code: Option<i32>,
    now: Seq<char>,
)
    requires
        task.stage is Running,
        task.request.logs_out() || !already_logged_in(status),
    ensures
        task.after(status, LoginEvent::CliExited { success: false, code }, now).0 is Over,
        task.after(status, LoginEvent::CliExited { success: false, code }, now).1.error == Some(
            "Kiro CLI 登录失败，退出码: "@ + kiro_cli::exit_text(code),
        ),
{
}

// ---------------------------------------------------------------------------
// Step by step
// ---------------------------------------------------------------------------

/// Only what is asked for is done: no answer is a no.
pub proof fn only_a_yes_counts(request: KiroCliOAuthLoginRequest)
    ensures
        request.force_logout is None ==> !request.logs_out(),
        request.force_logout matches Some(wanted) ==> request.logs_out() == wanted,
        request.use_device_flow is None ==> !request.uses_device_flow(),
        request.use_device_flow matches Some(wanted) ==> request.uses_device_flow() == wanted,
{
}

/// A login is asked of the Kiro CLI with the device flow, the license, the identity provider and
/// the region of the request, and what is loaded gets its priority and its three regions.
pub proof fn settings_are_those_of_the_request(request: KiroCliOAuthLoginRequest)
    ensures
        request.login_settings().use_device_flow == (request.use_device_flow == Some(true)),
        request.license is None ==> request.login_settings().license is None,
        request.license matches Some(value) ==> request.login_settings().license == Some(value@),
        request.identity_provider is None ==> request.login_settings().identity_provider is None,
        request.identity_provider matches Some(value)
            ==> request.login_settings().identity_provider == Some(value@),
        request.region is None ==> request.login_settings().region is None
            && request.load_settings().region is None,
        request.region matches Some(value) ==> request.login_settings().region == Some(value@)
            && request.load_settings().region == Some(value@),
        request.load_settings().priority == request.priority,
        request.auth_region is None ==> request.load_settings().auth_region is None,
        request.auth_region matches Some(value) ==> request.load_settings().auth_region == Some(
            value@,
        ),
        request.api_region is None ==> request.load_settings().api_region is None,
        request.api_region matches Some(value) ==> request.load_settings().api_region == Some(
            value@,
        ),
{
}

/// Whatever was asked for and whatever was printed, a login whose Kiro CLI succeeds goes on to
/// load the credentials, and says so.
pub proof fn successful_cli_goes_on_to_import(
    task: LoginTask,
    status: StatusView,
    code: Option<i32>,
    now: Seq<char>,
)
    requires
        task.stage is Running,
    ensures
        ({
            let (stage, next) = task.after(
                status,
                LoginEvent::CliExited { success: true, code },
                now,
            );
            &&& stage == (LoginStage::Loading { code })
            &&& next.phase == "importing"@
            &&& next.output == status.prints("Kiro CLI 登录完成，正在导入凭据"@).output
            &&& next.running == status.running
            &&& next.started_at == status.started_at
            &&& next.finished_at == status.finished_at
            &&& next.exit_code == status.exit_code
            &&& next.error == status.error
            &&& next.login_url == status.login_url
            &&& next.imported_credential_id == status.imported_credential_id
        }),
{
}

/// A Kiro CLI that does not succeed still leads to the credentials when some line that it printed
/// says that an account is logged in and no logout was asked for, and to the end of the login in
/// every other case.
pub proof fn unsuccessful_cli_needs_a_login(
    task: LoginTask,
    status: StatusView,
    code: Option<i32>,
    now: Seq<char>,
)
    requires
        task.stage is Running,
    ensures
        ({
            let (stage, next) = task.after(
                status,
                LoginEvent::CliExited { success: false, code },
                now,
            );
            let found = exists|i: int|
                0 <= i < status.output.len() && text::has_text(
                    #[trigger] status.output[i],
                    "Already logged in"@,
                );
            &&& found && task.request.force_logout != Some(true) ==> stage
                == (LoginStage::Loading { code }) && next == status.enters("importing"@).prints(
                "官方 Kiro CLI 已登录，直接导入现有凭据"@,
            )
            &&& !found || task.request.force_logout == Some(true) ==> stage is Over && next == (
            StatusView {
                running: false,
                phase: "failed"@,
                finished_at: Some(now),
                exit_code: code,
                error: Some("Kiro CLI 登录失败，退出码: "@ + kiro_cli::exit_text(code)),
                imported_credential_id: None,
                ..status
            })
        }),
{
}

/// A login that cannot go on is over: it is told as failed, with the reason, what was being done
/// and the code with which the Kiro CLI ended, if it did, and nothing else that is known changes.
pub proof fn failures_tell_the_reason(
    task: LoginTask,
    status: StatusView,
    reason: String,
    now: Seq<char>,
)
    ensures
        task.stage is LoggingOut ==> task.after(
            status,
            LoginEvent::LogoutNotStarted(reason),
            now,
        ) == (
            LoginStage::Over,
            (StatusView {
                running: false,
                phase: "failed"@,
                finished_at: Some(now),
                exit_code: None,
                error: Some("退出官方 Kiro CLI 当前账号失败: "@ + ("启动 logout 失败: "@ + reason@)),
                imported_credential_id: None,
                ..status
            }),
        ),
        task.stage is Starting ==> task.after(
            status,
            LoginEvent::CliNotStarted(reason),
            now,
        ) == (
            LoginStage::Over,
            (StatusView {
                running: false,
                phase: "failed"@,
                finished_at: Some(now),
                exit_code: None,
                error: Some("启动 Kiro CLI 失败: "@ + reason@),
                imported_credential_id: None,
                ..status
            }),
        ),
        task.stage is Running ==> task.after(
            status,
            LoginEvent::CliLost(reason),
            now,
        ) == (
            LoginStage::Over,
            (StatusView {
                running: false,
                phase: "failed"@,
                finished_at: Some(now),
                exit_code: None,
                error: Some("等待 Kiro CLI 登录结束失败: "@ + reason@),
                imported_credential_id: None,
                ..status
            }),
        ),
        task.stage is Loading ==> task.after(
            status,
            LoginEvent::NotLoaded(reason),
            now,
        ) == (
            LoginStage::Over,
            (StatusView {
                running: false,
                phase: "failed"@,
                finished_at: Some(now),
                exit_code: task.stage->Loading_code,
                error: Some("导入 Kiro CLI 凭据失败: "@ + reason@),
                imported_credential_id: None,
                ..status
            }),
        ),
        task.stage is Adding ==> task.after(
            status,
            LoginEvent::NotAdded(reason),
            now,
        ) == (
            LoginStage::Over,
            (StatusView {
                running: false,
                phase: "failed"@,
                finished_at: Some(now),
                exit_code: task.stage->Adding_code,
                error: Some("添加凭据到当前服务失败: "@ + reason@),
                imported_credential_id: None,
                ..status
            }),
        ),
{
}

/// What goes well leads on: a started Kiro CLI runs, loaded credentials are handed on as they are,
/// and credentials that have an id complete the login with that id.
pub proof fn successes_lead_on(
    task: LoginTask,
    status: StatusView,
    credential: KiroCredentials,
    id: u64,
    now: Seq<char>,
)
    ensures
        task.stage is Starting ==> task.after(status, LoginEvent::CliStarted, now) == (
            LoginStage::Running,
            status,
        ),
        task.stage matches LoginStage::Loading { code } ==> task.after(
            status,
            LoginEvent::Loaded(credential),
            now,
        ) == (LoginStage::Adding { code, credential }, status),
        task.stage matches LoginStage::Adding { code, credential: handed } ==> task.after(
            status,
            LoginEvent::Added(id),
            now,
        ) == (
            LoginStage::Over,
            (StatusView {
                running: false,
                phase: "completed"@,
                finished_at: Some(now),
                exit_code: code,
                error: None,
                imported_credential_id: Some(id),
                ..status
            }).prints("凭据已导入，ID: "@ + crate::decimal::decimal(id as nat)),
        ),
{
}

/// A logout prints its lines. One that succeeds, or finds nobody logged in, leads to the Kiro CLI,
/// and any other ends the login with its exit code.
pub proof fn logout_decides(
    task: LoginTask,
    status: StatusView,
    success: bool,
    code: Option<i32>,
    stdout: String,
    stderr: String,
    now: Seq<char>,
)
    requires
        task.stage is LoggingOut,
    ensures
        ({
            let (stage, next) = task.after(
                status,
                LoginEvent::LoggedOut { success, code, stdout, stderr },
                now,
            );
            let printed = status.prints_all(crate::words::trimmed_lines(stdout@)).prints_all(
                crate::words::trimmed_lines(stderr@),
            );
            let ready = success || kiro_cli::says_no_login(stdout@ + seq!['\n'] + stderr@);
            let started = printed.prints("已准备好登录新的官方 Kiro CLI 账号"@).enters(
                "running-cli"@,
            ).prints("启动官方 Kiro CLI: "@ + task.shown_cli@);
            &&& ready ==> stage is Starting
            &&& ready && task.request.use_device_flow == Some(true) ==> next == started.prints(
                "使用 AWS device flow 登录；这通常对应 Builder ID 免费额度"@,
            )
            &&& ready && task.request.use_device_flow != Some(true) ==> next == started.prints(
                "使用 Kiro 官方浏览器 OAuth 登录；请在打开的页面选择 GitHub/Google/Kiro 账号"@,
            )
            &&& !ready ==> stage is Over && next == (StatusView {
                running: false,
                phase: "failed"@,
                finished_at: Some(now),
                exit_code: None,
                error: Some(
                    "退出官方 Kiro CLI 当前账号失败: "@ + ("logout 退出码: "@
                        + kiro_cli::exit_text(code)),
                ),
                imported_credential_id: None,
                ..printed
            })
        }),
{
    reveal_strlit("\n");
    assert("\n"@ =~= seq!['\n']);
}

/// A login begins with a logout exactly when one was asked for, and with the Kiro CLI otherwise.
pub proof fn login_begins_as_asked(
    status: StatusView,
    request: KiroCliOAuthLoginRequest,
    shown_cli: Seq<char>,
)
    ensures
        request.force_logout == Some(true) ==> login_begun(status, request, shown_cli)
            == status.enters("logging-out"@).prints("正在退出官方 Kiro CLI 当前账号"@),
        request.force_logout != Some(true) && request.use_device_flow == Some(true) ==> login_begun(
            status,
            request,
            shown_cli,
        ) == status.enters("running-cli"@).prints("启动官方 Kiro CLI: "@ + shown_cli).prints(
            "使用 AWS device flow 登录；这通常对应 Builder ID 免费额度"@,
        ),
        request.force_logout != Some(true) && request.use_device_flow != Some(true) ==> login_begun(
            status,
            request,
            shown_cli,
        ) == status.enters("running-cli"@).prints("启动官方 Kiro CLI: "@ + shown_cli).prints(
            "使用 Kiro 官方浏览器 OAuth 登录；请在打开的页面选择 GitHub/Google/Kiro 账号"@,
        ),
{
}

/// At each stage there is one thing to do, and it is done with what the request gives.
pub proof fn stage_decides_what_to_do(task: LoginTask, action: LoginAction)
    requires
        task.calls_for(action),
    ensures
        task.stage is LoggingOut <==> action is RunLogout,
        task.stage is Starting <==> action is StartCli,
        task.stage is Running <==> action is AwaitCli,
        task.stage is Loading <==> action is LoadCredential,
        task.stage is Adding <==> action is AddCredential,
        task.stage is Over <==> action is Stop,
        action matches LoginAction::RunLogout(command) ==> command@ == kiro_cli::logout_run(),
        action matches LoginAction::StartCli { command, browser_login } ==> {
            &&& command@ == kiro_cli::login_run(task.request.login_settings())
            &&& browser_login == (task.request.use_device_flow != Some(true))
        },
        action matches LoginAction::LoadCredential(options) ==> {
            &&& options.priority == task.request.priority
            &&& text::opt_text(options.db_path) == text::opt_text(task.request.db_path)
            &&& text::opt_text(options.region) == text::opt_text(task.request.region)
            &&& text::opt_text(options.auth_region) == text::opt_text(task.request.auth_region)
            &&& text::opt_text(options.api_region) == text::opt_text(task.request.api_region)
        },
        action matches LoginAction::AddCredential(handed) ==> handed
            == task.stage->Adding_credential,
{
}

/// What does not answer the last action changes nothing, and after the end nothing does.
pub proof fn other_events_change_nothing(
    task: LoginTask,
    status: StatusView,
    event: LoginEvent,
    now: Seq<char>,
)
    ensures
        ({
            let same = task.after(status, event, now) == (task.stage, status);
            &&& task.stage is LoggingOut && !(event is LogoutNotStarted) && !(event is LoggedOut)
                ==> same
            &&& task.stage is Starting && !(event is CliNotStarted) && !(event is CliStarted)
                ==> same
            &&& task.stage is Running && !(event is CliLost) && !(event is CliExited) ==> same
            &&& task.stage is Loading && !(event is NotLoaded) && !(event is Loaded) ==> same
            &&& task.stage is Adding && !(event is NotAdded) && !(event is Added) ==> same
            &&& task.stage is Over ==> same
        }),
{
}

} // verus!
