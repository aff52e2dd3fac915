//! The admin interface.
use kiro_rs::admin_error::{
    classify_add_error, classify_balance_error, classify_delete_error, classify_error,
    AdminServiceError,
};
use kiro_rs::admin_service::{
    add_imported_credential, find_existing_credential_id, find_fingerprint,
    is_load_balancing_mode, AdminService, ImportedCredential,
};
use kiro_rs::admin_types::{
    AddCredentialRequest, CallbackReply, CredentialEntry, CredentialSnapshot,
    KiroCliOAuthCallbackRequest, SetLoadBalancingModeRequest,
};
use kiro_rs::balance_cache::CachedBalance;
use kiro_rs::credentials::KiroCredentials;

/// An admin interface with two endpoints and nothing to remember.
fn service() -> AdminService<u32> {
    AdminService::new(vec!["ide".to_string(), "cli".to_string()], Vec::new(), 0)
}

/// An account.
fn entry(id: u64, priority: u32) -> CredentialEntry {
    CredentialEntry {
        id,
        priority,
        disabled: false,
        failure_count: 0,
        expires_at: None,
        auth_method: None,
        has_profile_arn: false,
        refresh_token_hash: None,
        api_key_hash: None,
        masked_api_key: None,
        email: None,
        account_id_hash: None,
        success_count: 0,
        last_used_at: None,
        has_proxy: false,
        proxy_url: None,
        refresh_failure_count: 0,
        disabled_reason: None,
        endpoint: None,
    }
}

/// New credentials for an endpoint.
fn new_credential(endpoint: Option<&str>) -> AddCredentialRequest {
    AddCredentialRequest {
        refresh_token: Some("r".to_string()),
        auth_method: "social".to_string(),
        client_id: None,
        client_secret: None,
        priority: 6,
        region: Some("eu".to_string()),
        auth_region: None,
        api_region: None,
        machine_id: None,
        email: Some("a@b".to_string()),
        proxy_url: None,
        proxy_username: None,
        proxy_password: None,
        kiro_api_key: None,
        endpoint: endpoint.map(|s| s.to_string()),
    }
}

fn failure(message: &str) -> Result<(), String> {
    Err(message.to_string())
}

fn invalid(message: &str) -> AdminServiceError {
    AdminServiceError::InvalidCredential(message.to_string())
}

fn internal(message: &str) -> AdminServiceError {
    AdminServiceError::InternalError(message.to_string())
}

fn upstream(message: &str) -> AdminServiceError {
    AdminServiceError::UpstreamError(message.to_string())
}

#[test]
fn accounts_are_shown_by_priority() {
    let mut third = entry(3, 1);
    third.endpoint = Some("cli".to_string());
    third.email = Some("x@y".to_string());
    let shown = service().get_all_credentials(
        CredentialSnapshot {
            entries: vec![entry(1, 5), entry(2, 1), third, entry(4, 5)],
            current_id: 2,
            total: 4,
            available: 3,
        },
        "ide".to_string(),
    );
    assert_eq!(shown.total, 4);
    assert_eq!(shown.available, 3);
    assert_eq!(shown.current_id, 2);
    let ids: Vec<u64> = shown.credentials.iter().map(|c| c.id).collect();
    assert_eq!(ids, [2, 3, 1, 4]);
    assert!(shown.credentials[0].is_current);
    assert!(!shown.credentials[1].is_current);
    assert_eq!(shown.credentials[0].endpoint, "ide");
    assert_eq!(shown.credentials[1].endpoint, "cli");
    assert_eq!(shown.credentials[1].email.as_deref(), Some("x@y"));
}

#[test]
fn switching_the_account_in_use_off_moves_on() {
    let service = service();
    assert_eq!(service.set_disabled(1, true, 1, Ok(())), Ok(true));
    assert_eq!(service.set_disabled(1, false, 1, Ok(())), Ok(false));
    assert_eq!(service.set_disabled(2, true, 1, Ok(())), Ok(false));
    assert_eq!(
        service.set_disabled(2, true, 2, failure("凭据不存在: 2")),
        Err(AdminServiceError::NotFound { id: 2 })
    );
}

#[test]
fn changes_are_answered() {
    let service = service();
    assert_eq!(service.set_priority(1, Ok(())), Ok(()));
    assert_eq!(service.set_priority(1, failure("disk")), Err(internal("disk")));
    assert_eq!(service.reset_and_enable(1, Ok(())), Ok(()));
    assert_eq!(
        service.reset_and_enable(1, failure("不存在")),
        Err(AdminServiceError::NotFound { id: 1 })
    );
    assert_eq!(service.force_refresh_token(1, Ok(())), Ok(()));
    assert_eq!(
        service.force_refresh_token(1, failure("connection reset")),
        Err(upstream("connection reset"))
    );
}

#[test]
fn messages_are_classified() {
    assert_eq!(
        classify_error("凭据不存在".to_string(), 4),
        AdminServiceError::NotFound { id: 4 }
    );
    assert_eq!(classify_error("timeout".to_string(), 4), internal("timeout"));

    let balance = |message: &str| classify_balance_error(message.to_string(), 4);
    assert_eq!(balance("不存在 timeout"), AdminServiceError::NotFound { id: 4 });
    assert_eq!(
        balance("API Key 凭据不支持刷新 timeout"),
        invalid("API Key 凭据不支持刷新 timeout")
    );
    for message in [
        "凭证已过期或无效",
        "权限不足",
        "已被限流",
        "服务器错误",
        "Token 刷新失败",
        "暂时不可用",
        "error trying to connect",
        "connection",
        "timeout",
        "timed out",
    ] {
        assert_eq!(balance(message), upstream(message));
    }
    assert_eq!(balance("缺少 refreshToken"), internal("缺少 refreshToken"));

    let add = |message: &str| classify_add_error(message.to_string());
    for message in [
        "缺少 refreshToken",
        "refreshToken 为空",
        "refreshToken 已被截断",
        "凭据已存在",
        "refreshToken 重复",
        "kiroApiKey 重复",
        "缺少 kiroApiKey",
        "kiroApiKey 为空",
        "凭证已过期或无效",
        "权限不足",
        "已被限流",
    ] {
        assert_eq!(add(message), invalid(message));
    }
    for message in ["error trying to connect", "connection", "timeout"] {
        assert_eq!(add(message), upstream(message));
    }
    assert_eq!(add("timed out"), internal("timed out"));
    assert_eq!(add("不存在"), internal("不存在"));

    let delete = |message: &str| classify_delete_error(message.to_string(), 4);
    assert_eq!(delete("不存在"), AdminServiceError::NotFound { id: 4 });
    assert_eq!(delete("只能删除已禁用的凭据"), invalid("只能删除已禁用的凭据"));
    assert_eq!(delete("请先禁用凭据"), invalid("请先禁用凭据"));
    assert_eq!(delete("disk"), internal("disk"));
}

#[test]
fn balances_are_remembered() {
    let mut service = service();
    assert_eq!(service.get_balance(1, 100), None);
    assert_eq!(service.balance_fetched(1, 100, Ok(42)), Ok(()));
    assert_eq!(service.get_balance(1, 399), Some(&42));
    assert_eq!(service.get_balance(1, 400), None);
    assert_eq!(
        service.balance_fetched(1, 200, Err("timeout".to_string())),
        Err(upstream("timeout"))
    );
    assert_eq!(service.get_balance(1, 399), Some(&42));
    assert_eq!(service.delete_credential(1, failure("请先禁用凭据")), Err(invalid("请先禁用凭据")));
    assert_eq!(service.get_balance(1, 399), Some(&42));
    assert_eq!(service.delete_credential(1, Ok(())), Ok(()));
    assert_eq!(service.get_balance(1, 100), None);
}

#[test]
fn saved_balances_are_read_at_the_start() {
    let service = AdminService::new(
        Vec::new(),
        vec![
            ("1".to_string(), CachedBalance { cached_at: 10, data: "stale" }),
            ("2".to_string(), CachedBalance { cached_at: 11, data: "good" }),
        ],
        310,
    );
    assert_eq!(service.get_balance(1, 310), None);
    assert_eq!(service.get_balance(2, 310), Some(&"good"));
}

#[test]
fn new_credentials_need_a_known_endpoint() {
    let service = service();
    assert_eq!(
        service.add_credential(new_credential(Some("web"))),
        Err(invalid("未知端点 \"web\"，已注册端点: [\"cli\", \"ide\"]"))
    );
    let credential = service.add_credential(new_credential(Some("cli"))).unwrap();
    assert_eq!(
        credential,
        KiroCredentials {
            refresh_token: Some("r".to_string()),
            auth_method: Some("social".to_string()),
            priority: 6,
            region: Some("eu".to_string()),
            email: Some("a@b".to_string()),
            endpoint: Some("cli".to_string()),
            ..Default::default()
        }
    );
    assert!(service.add_credential(new_credential(None)).unwrap().endpoint.is_none());
}

#[test]
fn new_credentials_are_answered() {
    let service = service();
    let response = service.credential_added(Some("a@b".to_string()), Ok(12)).unwrap();
    assert!(response.success);
    assert_eq!(response.message, "凭据添加成功，ID: 12");
    assert_eq!(response.credential_id, 12);
    assert_eq!(response.email.as_deref(), Some("a@b"));
    assert_eq!(
        service.credential_added(None, Err("refreshToken 重复".to_string())).err(),
        Some(invalid("refreshToken 重复"))
    );
}

#[test]
fn load_balancing_has_two_modes() {
    let service = service();
    let request = |mode: &str| SetLoadBalancingModeRequest { mode: mode.to_string() };
    assert_eq!(service.get_load_balancing_mode("balanced".to_string()).mode, "balanced");
    for mode in ["priority", "balanced"] {
        assert!(is_load_balancing_mode(mode));
        assert_eq!(service.set_load_balancing_mode(request(mode), Ok(())).unwrap().mode, mode);
    }
    assert_eq!(
        service.set_load_balancing_mode(request("random"), Ok(())).err(),
        Some(invalid("mode 必须是 'priority' 或 'balanced'"))
    );
    assert_eq!(
        service.set_load_balancing_mode(request("priority"), failure("disk")).err(),
        Some(internal("disk"))
    );
}

#[test]
fn one_login_runs_at_a_time() {
    let mut service = service();
    assert_eq!(
        service.start_kiro_cli_oauth_login(Some("请安装".to_string()), "t0").err(),
        Some(invalid("未找到官方 Kiro CLI: 请安装"))
    );
    assert!(!service.get_kiro_cli_oauth_status().running);
    let response = service.start_kiro_cli_oauth_login(None, "t1").unwrap();
    assert!(response.success);
    assert_eq!(response.message, "Kiro CLI OAuth 登录已启动");
    assert!(response.status.running);
    assert_eq!(response.status.phase, "starting");
    assert_eq!(response.status.started_at.as_deref(), Some("t1"));
    assert_eq!(service.get_kiro_cli_oauth_status(), response.status);
    assert_eq!(
        service.start_kiro_cli_oauth_login(None, "t2").err(),
        Some(invalid("已有 Kiro CLI OAuth 登录任务正在运行"))
    );
    assert_eq!(service.get_kiro_cli_oauth_status(), response.status);
}

#[test]
fn handed_in_callbacks_are_checked() {
    let service = service();
    let accept = |url: &str| {
        service.accept_kiro_cli_oauth_callback(&KiroCliOAuthCallbackRequest {
            callback_url: url.to_string(),
        })
    };
    assert_eq!(
        accept("http://localhost:3128/oauth/callback?code=1"),
        Ok("http://127.0.0.1:3128/oauth/callback?code=1".to_string())
    );
    assert_eq!(
        accept("http://localhost:80/oauth/callback"),
        Err(invalid("callback URL 端口必须是 3128"))
    );
    assert_eq!(accept(""), Err(invalid("relative URL without a base")));
}

#[test]
fn handed_in_callbacks_are_answered() {
    let mut service = service();
    let answered = |success| CallbackReply::Answered {
        success,
        status: "404 Not Found".to_string(),
        body: "no".to_string(),
    };
    assert_eq!(
        service.submit_kiro_cli_oauth_callback(CallbackReply::NoClient("tls".to_string())).err(),
        Some(internal("tls"))
    );
    assert_eq!(
        service.submit_kiro_cli_oauth_callback(CallbackReply::NotSent("refused".to_string())).err(),
        Some(invalid("提交 OAuth callback 到本机 Kiro CLI 失败: refused"))
    );
    assert_eq!(
        service.submit_kiro_cli_oauth_callback(answered(false)).err(),
        Some(invalid("Kiro CLI callback 返回失败: 404 Not Found no"))
    );
    assert!(service.get_kiro_cli_oauth_status().output.is_empty());
    let response = service.submit_kiro_cli_oauth_callback(answered(true)).unwrap();
    assert!(response.success);
    assert_eq!(response.message, "OAuth callback 已提交");
    assert_eq!(
        service.get_kiro_cli_oauth_status().output,
        ["已提交 OAuth callback 给本机 Kiro CLI"]
    );
}

#[test]
fn known_accounts_are_recognised() {
    // The fingerprint of "abc".
    let hash = "ba7816bf8f01cfea414140de5dae2223b00361a396177a9cb410ff61f20015ad";
    let mut by_token = entry(2, 0);
    by_token.refresh_token_hash = Some(hash.to_string());
    let mut by_key = entry(3, 0);
    by_key.api_key_hash = Some(hash.to_string());
    let mut again = entry(4, 0);
    again.refresh_token_hash = Some(hash.to_string());
    let entries = vec![entry(1, 0), by_token, by_key, again];
    let credential = KiroCredentials {
        refresh_token: Some("abc".to_string()),
        kiro_api_key: Some("abc".to_string()),
        ..Default::default()
    };
    assert_eq!(find_existing_credential_id(&entries, &credential, false), Some(2));
    assert_eq!(find_existing_credential_id(&entries, &credential, true), Some(3));
    assert_eq!(find_fingerprint(&entries, false, hash), Some(2));
    assert_eq!(find_fingerprint(&entries, false, "abc"), None);
    let blank = KiroCredentials::default();
    assert_eq!(find_existing_credential_id(&entries, &blank, false), None);

    assert!(matches!(
        add_imported_credential(&entries, credential, false),
        ImportedCredential::Known(2)
    ));
    match add_imported_credential(&entries, blank.clone(), true) {
        ImportedCredential::New(new) => assert_eq!(new, blank),
        other => panic!("{:?}", other),
    }
}
