//! Loading and importing credentials.
use kiro_rs::credential_import::{
    import_kiro_cli_credentials, CredentialImport, ImportKiroCliOptions, ImportKiroCliResult,
    ImportReply, ImportRequest, ImportStage,
};
use kiro_rs::credential_load::{
    load_kiro_cli_credential, CredentialLoad, ImportError, LoadKiroCliCredentialOptions, LoadReply,
    LoadRequest, LoadStage, WriteFault,
};
use kiro_rs::credentials::{merge_credential, KiroCredentials};
use kiro_rs::paths::UserPath;

/// A JSON object with these string members.
fn object(members: &[(&str, &str)]) -> String {
    let mut map = serde_json::Map::new();
    for (name, value) in members {
        map.insert(name.to_string(), serde_json::Value::String(value.to_string()));
    }
    serde_json::Value::Object(map).to_string()
}

/// A login database with these rows.
fn auth_db(rows: &[(&str, &str)]) -> rusqlite::Connection {
    let conn = rusqlite::Connection::open_in_memory().unwrap();
    conn.execute("CREATE TABLE auth_kv (key TEXT PRIMARY KEY, value TEXT)", ())
        .unwrap();
    for (key, value) in rows {
        conn.execute(
            "INSERT INTO auth_kv (key, value) VALUES (?1, ?2)",
            (*key, *value),
        )
        .unwrap();
    }
    conn
}

/// The answer of a database to a request; `path` is where the database is.
fn answer(conn: &rusqlite::Connection, path: &UserPath, request: LoadRequest) -> LoadReply {
    match request {
        LoadRequest::Probe(asked) => LoadReply::Exists(asked == *path),
        LoadRequest::OpenDatabase(asked) => {
            if asked == *path {
                LoadReply::Opened
            } else {
                LoadReply::Failed
            }
        }
        LoadRequest::CountAuthTable => {
            let count: rusqlite::Result<i64> = conn.query_row(
                "SELECT COUNT(*) FROM sqlite_master WHERE type='table' AND name='auth_kv'",
                (),
                |row| row.get(0),
            );
            match count {
                Ok(count) => LoadReply::Count(count),
                Err(_) => LoadReply::Failed,
            }
        }
        LoadRequest::ReadRow(key) => {
            let row: rusqlite::Result<String> = conn.query_row(
                "SELECT value FROM auth_kv WHERE key = ?1",
                [key],
                |row| row.get(0),
            );
            match row {
                Ok(value) => LoadReply::Row(value),
                Err(rusqlite::Error::QueryReturnedNoRows) => LoadReply::NoRow,
                Err(_) => LoadReply::Failed,
            }
        }
    }
}

/// Runs a load to its end.
fn run_load(conn: &rusqlite::Connection, path: &UserPath, load: CredentialLoad) -> CredentialLoad {
    let mut load = load;
    while let Some(request) = load.request() {
        load = load.step(answer(conn, path, request));
    }
    load
}

/// Loads the credentials in a database that the caller names.
fn load_named(
    conn: &rusqlite::Connection,
    name: &str,
) -> Result<KiroCredentials, ImportError> {
    let load = load_kiro_cli_credential(
        LoadKiroCliCredentialOptions {
            db_path: Some(name.to_string()),
            ..LoadKiroCliCredentialOptions::default()
        },
        false,
    );
    let load = run_load(conn, &UserPath::Literal(name.to_string()), load);
    match load.stage {
        LoadStage::Loaded { credential } => Ok(credential),
        LoadStage::Failed { error } => Err(error),
        _ => unreachable!(),
    }
}

/// What went wrong with a load from these rows.
fn load_error(rows: &[(&str, &str)]) -> String {
    load_named(&auth_db(rows), "auth.sqlite3")
        .err()
        .unwrap()
        .message("auth.sqlite3")
}

#[test]
fn imports_social_token_from_sqlite() {
    let token = object(&[
        ("access_token", "access"),
        ("refresh_token", "refresh"),
        ("expires_at", "2026-01-01T00:00:00Z"),
        ("region", "us-east-1"),
        ("email", "user@example.com"),
    ]);
    let db = auth_db(&[("kirocli:social:token", &token)]);

    let credential = load_named(&db, "social.sqlite3").unwrap();
    assert_eq!(credential.auth_method.as_deref(), Some("social"));
    assert_eq!(credential.refresh_token.as_deref(), Some("refresh"));
    assert_eq!(credential.region.as_deref(), Some("us-east-1"));
    assert!(credential.client_id.is_none());
}

#[test]
fn imports_oidc_device_registration_from_sqlite() {
    let token = object(&[
        ("access_token", "access"),
        ("refresh_token", "refresh"),
        ("expires_at", "2026-01-01T00:00:00Z"),
    ]);
    let registration = object(&[
        ("client_id", "client"),
        ("client_secret", "secret"),
        ("sso_region", "eu-west-1"),
    ]);
    let db = auth_db(&[
        ("kirocli:odic:token", &token),
        ("kirocli:odic:device-registration", &registration),
    ]);

    let credential = load_named(&db, "oidc.sqlite3").unwrap();
    assert_eq!(credential.auth_method.as_deref(), Some("idc"));
    assert_eq!(credential.client_id.as_deref(), Some("client"));
    assert_eq!(credential.client_secret.as_deref(), Some("secret"));
    assert_eq!(credential.region.as_deref(), Some("eu-west-1"));
}

/// The list that an import into the file `path` wrote.
fn imported_list(
    path: &str,
    existing: Option<Vec<KiroCredentials>>,
    credential: KiroCredentials,
) -> (Vec<KiroCredentials>, bool) {
    let import = CredentialImport {
        credentials_path: UserPath::Literal(path.to_string()),
        replace: false,
        stage: ImportStage::Reading {
            db_path: UserPath::Literal("auth.sqlite3".to_string()),
            credential,
        },
    };
    match import.request() {
        Some(ImportRequest::ReadCredentials(asked)) => {
            assert_eq!(asked, UserPath::Literal(path.to_string()))
        }
        _ => panic!("the list is to be read"),
    }
    let import = import.step(match existing {
        Some(list) => ImportReply::Credentials(list),
        None => ImportReply::NoCredentials,
    });
    match import.stage {
        ImportStage::Writing { credentials, updated_existing, .. } => {
            (credentials, updated_existing)
        }
        _ => panic!("the list is to be written"),
    }
}

#[test]
fn merge_updates_existing_refresh_token() {
    let path = "credentials.json";
    let existing = vec![KiroCredentials {
        refresh_token: Some("same".to_string()),
        access_token: Some("old".to_string()),
        priority: 7,
        ..Default::default()
    }];

    let (merged, updated) = imported_list(
        path,
        Some(existing),
        KiroCredentials {
            refresh_token: Some("same".to_string()),
            access_token: Some("new".to_string()),
            priority: 1,
            ..Default::default()
        },
    );

    assert!(updated);
    assert_eq!(merged.len(), 1);
    assert_eq!(merged[0].access_token.as_deref(), Some("new"));
    assert_eq!(merged[0].priority, 1);
}

/// Credentials with a refresh token and a priority.
fn account(token: &str, priority: u32) -> KiroCredentials {
    KiroCredentials {
        refresh_token: Some(token.to_string()),
        priority,
        ..Default::default()
    }
}

/// The refresh tokens of a list.
fn tokens(list: &[KiroCredentials]) -> Vec<&str> {
    list.iter().map(|c| c.refresh_token.as_deref().unwrap()).collect()
}

#[test]
fn merge_keeps_order_of_priority() {
    let list = vec![account("c", 5), account("a", 1), account("d", 5), account("b", 1)];
    let (merged, updated) = merge_credential(list, account("e", 1));
    assert!(!updated);
    assert_eq!(tokens(&merged), ["a", "b", "e", "c", "d"]);

    let (merged, updated) = merge_credential(merged, account("e", 9));
    assert!(updated);
    assert_eq!(tokens(&merged), ["a", "b", "c", "d", "e"]);
    assert_eq!(merged.len(), 5);
}

#[test]
fn merge_without_refresh_token_appends() {
    let blank = KiroCredentials::default();
    let (merged, updated) = merge_credential(vec![blank.clone()], blank);
    assert!(!updated);
    assert_eq!(merged.len(), 2);
}

#[test]
fn merge_replaces_first_of_equal_tokens() {
    let mut first = account("t", 2);
    first.email = Some("first".to_string());
    let mut second = account("t", 1);
    second.email = Some("second".to_string());
    let mut newer = account("t", 3);
    newer.email = Some("newer".to_string());
    let (merged, updated) = merge_credential(vec![first, second], newer);
    assert!(updated);
    let emails: Vec<&str> = merged.iter().map(|c| c.email.as_deref().unwrap()).collect();
    assert_eq!(emails, ["first", "newer"]);
}

#[test]
fn preferred_key_wins() {
    let token = object(&[("refresh_token", "q")]);
    let other = object(&[("refreshToken", " kiro ")]);
    let db = auth_db(&[
        ("codewhisperer:odic:token", &token),
        ("kirocli:odic:token", &other),
    ]);
    let credential = load_named(&db, "db").unwrap();
    assert_eq!(credential.refresh_token.as_deref(), Some("kiro"));
}

#[test]
fn blank_members_are_passed_over() {
    let token = object(&[
        ("refresh_token", "  "),
        ("refreshToken", "r"),
        ("access_token", ""),
        ("expires", "later"),
        ("email_address", "\t a@b \n"),
        ("profileArn", "arn"),
    ]);
    let db = auth_db(&[("codewhisperer:social:token", &token)]);
    let credential = load_named(&db, "db").unwrap();
    assert_eq!(credential.refresh_token.as_deref(), Some("r"));
    assert!(credential.access_token.is_none());
    assert_eq!(credential.expires_at.as_deref(), Some("later"));
    assert_eq!(credential.email.as_deref(), Some("a@b"));
    assert_eq!(credential.profile_arn.as_deref(), Some("arn"));
    assert!(!credential.disabled);
    assert!(credential.id.is_none());
}

#[test]
fn member_that_is_no_string_is_passed_over() {
    let db = auth_db(&[(
        "kirocli:social:token",
        r#"{"refresh_token": 7, "refreshToken": "r", "region": null}"#,
    )]);
    let credential = load_named(&db, "db").unwrap();
    assert_eq!(credential.refresh_token.as_deref(), Some("r"));
    assert!(credential.region.is_none());
}

#[test]
fn last_member_of_a_name_counts() {
    let db = auth_db(&[(
        "kirocli:social:token",
        r#"{"refresh_token": "one", "refresh_token": "two"}"#,
    )]);
    let credential = load_named(&db, "db").unwrap();
    assert_eq!(credential.refresh_token.as_deref(), Some("two"));
}

#[test]
fn own_region_stays_with_a_registration() {
    let token = object(&[("refresh_token", "r"), ("region", "us-east-1")]);
    let registration = object(&[("clientId", "client"), ("region", "eu-west-1")]);
    let db = auth_db(&[
        ("kirocli:odic:token", &token),
        ("codewhisperer:odic:device-registration", &registration),
    ]);
    let credential = load_named(&db, "db").unwrap();
    assert_eq!(credential.region.as_deref(), Some("us-east-1"));
    assert_eq!(credential.client_id.as_deref(), Some("client"));
    assert!(credential.client_secret.is_none());
    assert_eq!(credential.auth_method.as_deref(), Some("social"));
}

#[test]
fn settings_override_the_record() {
    let token = object(&[("refresh_token", "r"), ("region", "us-east-1")]);
    let db = auth_db(&[("kirocli:social:token", &token)]);
    let path = UserPath::UnderHome(".local/share/kiro-cli/data.sqlite3".to_string());
    let load = load_kiro_cli_credential(
        LoadKiroCliCredentialOptions {
            db_path: Some("   ".to_string()),
            priority: Some(4),
            region: Some(" ".to_string()),
            auth_region: Some(" eu-west-1 ".to_string()),
            api_region: None,
        },
        true,
    );
    let load = run_load(&db, &path, load);
    assert_eq!(load.db_path, Some(path));
    match load.stage {
        LoadStage::Loaded { credential } => {
            assert_eq!(credential.priority, 4);
            assert_eq!(credential.region.as_deref(), Some("us-east-1"));
            assert_eq!(credential.auth_region.as_deref(), Some("eu-west-1"));
            assert!(credential.api_region.is_none());
        }
        _ => panic!("the credentials are there"),
    }
}

#[test]
fn usual_databases_are_tried_in_order() {
    let mut load =
        load_kiro_cli_credential(LoadKiroCliCredentialOptions::default(), true);
    let mut probed = Vec::new();
    while let Some(LoadRequest::Probe(path)) = load.request() {
        probed.push(path);
        load = load.step(LoadReply::Exists(false));
    }
    assert_eq!(
        probed,
        [
            UserPath::UnderHome(
                "Library/Application Support/kiro-cli/data.sqlite3".to_string()
            ),
            UserPath::UnderHome(".local/share/kiro-cli/data.sqlite3".to_string()),
            UserPath::UnderHome(".local/share/amazon-q/data.sqlite3".to_string()),
        ]
    );
    match load.stage {
        LoadStage::Failed { error } => assert_eq!(
            error.message(""),
            "未找到 Kiro CLI SQLite 数据库。请先运行 `kiro-cli login`，或通过 `--db` 指定 data.sqlite3 路径"
        ),
        _ => panic!("there is no database"),
    }
}

#[test]
fn missing_named_database_is_an_error() {
    let load = load_kiro_cli_credential(
        LoadKiroCliCredentialOptions {
            db_path: Some(" ~/x.sqlite3 ".to_string()),
            ..LoadKiroCliCredentialOptions::default()
        },
        true,
    );
    let load = load.step(LoadReply::Exists(false));
    match load.stage {
        LoadStage::Failed { error: ImportError::DatabaseMissing(path) } => {
            assert_eq!(path, UserPath::UnderHome("x.sqlite3".to_string()));
            assert_eq!(
                ImportError::DatabaseMissing(path).message("/home/u/x.sqlite3"),
                "Kiro CLI SQLite 数据库不存在: /home/u/x.sqlite3"
            );
        }
        _ => panic!("the database is missing"),
    }
}

#[test]
fn unopened_database_is_an_error() {
    let load = load_kiro_cli_credential(
        LoadKiroCliCredentialOptions {
            db_path: Some("x".to_string()),
            ..LoadKiroCliCredentialOptions::default()
        },
        false,
    );
    let load = load.step(LoadReply::Exists(true)).step(LoadReply::Failed);
    match load.stage {
        LoadStage::Failed { error } => {
            assert_eq!(error.message("x"), "打开 SQLite 数据库失败: x")
        }
        _ => panic!("the database does not open"),
    }
}

#[test]
fn missing_table_is_an_error() {
    let conn = rusqlite::Connection::open_in_memory().unwrap();
    let error = load_named(&conn, "empty").err().unwrap();
    assert_eq!(error.message(""), "SQLite 数据库中不存在 auth_kv 表");
}

#[test]
fn failed_table_check_is_an_error() {
    let load = load_kiro_cli_credential(
        LoadKiroCliCredentialOptions {
            db_path: Some("x".to_string()),
            ..LoadKiroCliCredentialOptions::default()
        },
        false,
    );
    let load = load.step(LoadReply::Exists(true)).step(LoadReply::Opened).step(LoadReply::Failed);
    match load.stage {
        LoadStage::Failed { error } => assert_eq!(error.message(""), "检查 auth_kv 表失败"),
        _ => panic!("the check failed"),
    }
}

#[test]
fn bad_rows_are_errors() {
    assert_eq!(load_error(&[]), "auth_kv 中未找到 Kiro CLI token 记录");
    assert_eq!(
        load_error(&[("kirocli:social:token", "{")]),
        "auth_kv[kirocli:social:token] 不是有效 JSON"
    );
    assert_eq!(
        load_error(&[("kirocli:odic:token", "{}")]),
        "解析 token 记录失败: kirocli:odic:token"
    );
    assert_eq!(
        load_error(&[("kirocli:odic:token", "[\"refresh_token\"]")]),
        "解析 token 记录失败: kirocli:odic:token"
    );
    let token = object(&[("refresh_token", "r")]);
    assert_eq!(
        load_error(&[
            ("kirocli:social:token", &token),
            ("codewhisperer:odic:device-registration", "no"),
        ]),
        "auth_kv[codewhisperer:odic:device-registration] 不是有效 JSON"
    );
}

#[test]
fn unreadable_row_is_an_error() {
    // A value that is no text cannot be read as one.
    let conn = rusqlite::Connection::open_in_memory().unwrap();
    conn.execute("CREATE TABLE auth_kv (key TEXT PRIMARY KEY, value BLOB)", ())
        .unwrap();
    conn.execute(
        "INSERT INTO auth_kv (key, value) VALUES ('kirocli:social:token', x'00ff')",
        (),
    )
    .unwrap();
    let error = load_named(&conn, "db").err().unwrap();
    assert_eq!(error.message(""), "读取 auth_kv 失败");
}

#[test]
fn answer_to_another_question_changes_nothing() {
    let load = load_kiro_cli_credential(LoadKiroCliCredentialOptions::default(), false);
    let load = load.step(LoadReply::NoRow);
    match load.request() {
        Some(LoadRequest::Probe(path)) => assert_eq!(
            path,
            UserPath::Literal("~/Library/Application Support/kiro-cli/data.sqlite3".to_string())
        ),
        _ => panic!("the first database is still to be probed"),
    }
}

/// Runs an import to its end and gives the list that was written.
fn run_import(
    conn: &rusqlite::Connection,
    options: ImportKiroCliOptions,
    existing: ImportReply,
    written: ImportReply,
) -> (Result<ImportKiroCliResult, ImportError>, Vec<KiroCredentials>) {
    let db = UserPath::Literal(options.db_path.clone().unwrap());
    let mut import = import_kiro_cli_credentials(options, false);
    let mut list = Vec::new();
    while let Some(request) = import.request() {
        let reply = match request {
            ImportRequest::Load(request) => ImportReply::Load(answer(conn, &db, request)),
            ImportRequest::ReadCredentials(_) => existing.clone(),
            ImportRequest::WriteCredentials(_, credentials) => {
                list = credentials;
                written.clone()
            }
        };
        import = import.step(reply);
    }
    match import.stage {
        ImportStage::Done(result) => (Ok(result), list),
        ImportStage::Failed(error) => (Err(error), list),
        _ => unreachable!(),
    }
}

/// Options for an import into a file.
fn options(replace: bool) -> ImportKiroCliOptions {
    ImportKiroCliOptions {
        db_path: Some("auth.sqlite3".to_string()),
        credentials_path: "~/credentials.json".to_string(),
        replace,
        priority: Some(3),
        region: None,
        auth_region: None,
        api_region: None,
    }
}

#[test]
fn import_merges_into_the_list() {
    let db = auth_db(&[("kirocli:social:token", &object(&[("refresh_token", "b")]))]);
    let existing = ImportReply::Credentials(vec![account("c", 9), account("b", 1)]);
    let (result, list) = run_import(&db, options(false), existing, ImportReply::Written);
    let result = result.unwrap();
    assert_eq!(result.db_path, UserPath::Literal("auth.sqlite3".to_string()));
    assert_eq!(
        result.credentials_path,
        UserPath::Literal("~/credentials.json".to_string())
    );
    assert_eq!(result.auth_method, "social");
    assert!(result.updated_existing);
    assert_eq!(result.total_credentials, 2);
    assert_eq!(tokens(&list), ["b", "c"]);
    assert_eq!(list[0].priority, 3);
}

#[test]
fn import_of_the_same_login_updates() {
    let db = auth_db(&[("kirocli:social:token", &object(&[("refresh_token", "b")]))]);
    let existing = ImportReply::Credentials(vec![account("c", 9)]);
    let (first, list) = run_import(&db, options(false), existing, ImportReply::Written);
    assert!(!first.unwrap().updated_existing);
    assert_eq!(tokens(&list), ["b", "c"]);
    let again = ImportReply::Credentials(list.clone());
    let (second, next) = run_import(&db, options(false), again, ImportReply::Written);
    let second = second.unwrap();
    assert!(second.updated_existing);
    assert_eq!(second.total_credentials, 2);
    assert_eq!(next, list);
}

#[test]
fn load_with_nothing_to_ask_fails() {
    let load = |stage| CredentialLoad {
        db_path: None,
        overrides: load_kiro_cli_credential(LoadKiroCliCredentialOptions::default(), false)
            .overrides,
        stage,
    };
    let error = |stage: LoadStage| {
        let load = load(stage);
        assert!(load.request().is_none());
        match load.step(LoadReply::NoRow).stage {
            LoadStage::Failed { error } => error,
            other => panic!("{:?}", other),
        }
    };
    assert!(matches!(
        error(LoadStage::Probing { rest: Vec::new(), named: true }),
        ImportError::NoDatabase
    ));
    assert!(matches!(
        error(LoadStage::ReadingToken { next: usize::MAX }),
        ImportError::NoToken
    ));
    assert!(matches!(
        error(LoadStage::ReadingRegistration {
            credential: KiroCredentials::default(),
            next: 2,
        }),
        ImportError::RowReadFailed
    ));

    // Credentials that came from no database are not imported.
    let import = CredentialImport {
        credentials_path: UserPath::Home,
        replace: true,
        stage: ImportStage::Loading(load(LoadStage::Loaded {
            credential: account("a", 0),
        })),
    };
    assert!(import.request().is_none());
    let import = import.step(ImportReply::Load(LoadReply::Opened));
    assert!(matches!(import.stage, ImportStage::Failed(ImportError::NoDatabase)));
}

#[test]
fn import_replaces_the_list() {
    let db = auth_db(&[("kirocli:social:token", &object(&[("refresh_token", "b")]))]);
    let (result, list) = run_import(&db, options(true), ImportReply::Failed, ImportReply::Written);
    let result = result.unwrap();
    assert!(!result.updated_existing);
    assert_eq!(result.total_credentials, 1);
    assert_eq!(tokens(&list), ["b"]);
}

#[test]
fn import_errors_name_the_file() {
    let db = auth_db(&[("kirocli:social:token", &object(&[("refresh_token", "b")]))]);
    let message = |existing, written| {
        run_import(&db, options(false), existing, written).0.err().unwrap().message("f")
    };
    assert_eq!(
        message(ImportReply::Failed, ImportReply::Written),
        "加载现有凭据失败: f"
    );
    let none = ImportReply::NoCredentials;
    assert_eq!(
        message(none.clone(), ImportReply::NotWritten(WriteFault::Directory)),
        "创建凭据目录失败: f"
    );
    assert_eq!(
        message(none.clone(), ImportReply::NotWritten(WriteFault::Encoding)),
        "序列化凭据失败"
    );
    assert_eq!(
        message(none, ImportReply::NotWritten(WriteFault::File)),
        "写入凭据文件失败: f"
    );
    assert_eq!(
        run_import(
            &auth_db(&[]),
            options(true),
            ImportReply::NoCredentials,
            ImportReply::Written
        )
        .0
        .err()
        .unwrap()
        .message(""),
        "auth_kv 中未找到 Kiro CLI token 记录"
    );
}

#[test]
fn refresh_token_is_required() {
    assert_eq!(
        ImportError::RefreshTokenMissing.message(""),
        "Kiro CLI token 记录缺少 refresh_token"
    );
}
