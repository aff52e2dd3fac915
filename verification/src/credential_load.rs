//! Loading credentials from the login database of the Kiro CLI or the Amazon Q CLI.
//!
//! The database is read one question at a time: [`CredentialLoad::request`] says what to ask, and
//! [`CredentialLoad::step`] takes the answer.
use crate::credentials::{CredentialView, KiroCredentials};
use crate::json;
use crate::paths;
use crate::paths::{expand_all, expand_tilde, PathView, UserPath};
use crate::text;
use crate::text::non_empty_str;
use crate::token_record;
use crate::token_record::{
    apply_device_registration, apply_overrides, credential_from_token_json, read_token_record,
    settle_auth_method, Overrides, OverridesView,
};
use vstd::prelude::*;

verus! {

// ---------------------------------------------------------------------------
// What can go wrong
// ---------------------------------------------------------------------------

/// What went wrong when the list of credentials was written.
#[derive(Debug, Clone, Copy, PartialEq, Eq, Structural)]
pub enum WriteFault {
    /// Its directory could not be created.
    Directory,
    /// The list could not be encoded.
    Encoding,
    /// The file could not be written.
    File,
}

/// Why credentials could not be imported.
#[derive(Debug, Clone)]
pub enum ImportError {
    /// The database that was named does not exist.
    DatabaseMissing(UserPath),
    /// None of the usual databases exists.
    NoDatabase,
    /// The database could not be opened.
    OpenFailed(UserPath),
    /// The question whether the table of tokens exists failed.
    TableCheckFailed,
    /// There is no table of tokens.
    TableMissing,
    /// Reading a row failed.
    RowReadFailed,
    /// The row of this key does not hold JSON.
    InvalidJson(String),
    /// No row holds a token.
    NoToken,
    /// The token record of this key lacks a refresh token.
    InvalidToken(String),
    /// The credentials lack a refresh token.
    RefreshTokenMissing,
    /// The list of credentials could not be read.
    ExistingUnreadable(UserPath),
    /// The list of credentials could not be written.
    WriteFailed(UserPath, WriteFault),
}

/// The contents of an [`ImportError`].
pub ghost enum ImportErrorView {
    DatabaseMissing(PathView),
    NoDatabase,
    OpenFailed(PathView),
    TableCheckFailed,
    TableMissing,
    RowReadFailed,
    InvalidJson(Seq<char>),
    NoToken,
    InvalidToken(Seq<char>),
    RefreshTokenMissing,
    ExistingUnreadable(PathView),
    WriteFailed(PathView, WriteFault),
}

impl View for ImportError {
    type V = ImportErrorView;

    open spec fn view(&self) -> ImportErrorView {
        match self {
            ImportError::DatabaseMissing(path) => ImportErrorView::DatabaseMissing(path@),
            ImportError::NoDatabase => ImportErrorView::NoDatabase,
            ImportError::OpenFailed(path) => ImportErrorView::OpenFailed(path@),
            ImportError::TableCheckFailed => ImportErrorView::TableCheckFailed,
            ImportError::TableMissing => ImportErrorView::TableMissing,
            ImportError::RowReadFailed => ImportErrorView::RowReadFailed,
            ImportError::InvalidJson(key) => ImportErrorView::InvalidJson(key@),
            ImportError::NoToken => ImportErrorView::NoToken,
            ImportError::InvalidToken(key) => ImportErrorView::InvalidToken(key@),
            ImportError::RefreshTokenMissing => ImportErrorView::RefreshTokenMissing,
            ImportError::ExistingUnreadable(path) => ImportErrorView::ExistingUnreadable(path@),
            ImportError::WriteFailed(path, fault) => ImportErrorView::WriteFailed(path@, *fault),
        }
    }
}

// ---------------------------------------------------------------------------
// Questions and answers
// ---------------------------------------------------------------------------

/// What is to be asked next.
#[derive(Debug, Clone)]
pub enum LoadRequest {
    /// Does this path exist?
    Probe(UserPath),
    /// Open the database.
    OpenDatabase(UserPath),
    /// How many tables of tokens does the database have?
    CountAuthTable,
    /// What does the table of tokens hold for this key?
    ReadRow(String),
}

/// The contents of a [`LoadRequest`].
pub ghost enum LoadRequestView {
    Probe(PathView),
    OpenDatabase(PathView),
    CountAuthTable,
    ReadRow(Seq<char>),
}

impl View for LoadRequest {
    type V = LoadRequestView;

    open spec fn view(&self) -> LoadRequestView {
        match self {
            LoadRequest::Probe(path) => LoadRequestView::Probe(path@),
            LoadRequest::OpenDatabase(path) => LoadRequestView::OpenDatabase(path@),
            LoadRequest::CountAuthTable => LoadRequestView::CountAuthTable,
            LoadRequest::ReadRow(key) => LoadRequestView::ReadRow(key@),
        }
    }
}

/// The answer to a [`LoadRequest`].
#[derive(Debug, Clone)]
pub enum LoadReply {
    Exists(bool),
    Opened,
    Count(i64),
    Row(String),
    NoRow,
    Failed,
}

/// The contents of a [`LoadReply`].
pub ghost enum LoadReplyView {
    Exists(bool),
    Opened,
    Count(i64),
    Row(Seq<char>),
    NoRow,
    Failed,
}

impl View for LoadReply {
    type V = LoadReplyView;

    open spec fn view(&self) -> LoadReplyView {
        match self {
            LoadReply::Exists(exists) => LoadReplyView::Exists(*exists),
            LoadReply::Opened => LoadReplyView::Opened,
            LoadReply::Count(count) => LoadReplyView::Count(*count),
            LoadReply::Row(row) => LoadReplyView::Row(row@),
            LoadReply::NoRow => LoadReplyView::NoRow,
            LoadReply::Failed => LoadReplyView::Failed,
        }
    }
}

// ---------------------------------------------------------------------------
// Keys and paths
// ---------------------------------------------------------------------------

/// The keys under which a token may be stored, the preferred one first.
pub open spec fn token_keys() -> Seq<Seq<char>> {
    seq![
        "kirocli:social:token"@,
        "kirocli:odic:token"@,
        "codewhisperer:social:token"@,
        "codewhisperer:odic:token"@,
    ]
}

/// The keys under which a device registration may be stored, the preferred one first.
pub open spec fn registration_keys() -> Seq<Seq<char>> {
    seq!["kirocli:odic:device-registration"@, "codewhisperer:odic:device-registration"@]
}

/// The key at place `i` among those of tokens.
fn token_key(i: usize) -> (r: &'static str)
    requires
        i < token_keys().len(),
    ensures
        r@ == token_keys()[i as int],
{
    if i == 0 {
        "kirocli:social:token"
    } else if i == 1 {
        "kirocli:odic:token"
    } else if i == 2 {
        "codewhisperer:social:token"
    } else {
        "codewhisperer:odic:token"
    }
}

/// The key at place `i` among those of device registrations.
fn registration_key(i: usize) -> (r: &'static str)
    requires
        i < registration_keys().len(),
    ensures
        r@ == registration_keys()[i as int],
{
    if i == 0 {
        "kirocli:odic:device-registration"
    } else {
        "codewhisperer:odic:device-registration"
    }
}

/// Where the CLIs keep their databases.
pub open spec fn usual_databases() -> Seq<Seq<char>> {
    seq![
        "~/Library/Application Support/kiro-cli/data.sqlite3"@,
        "~/.local/share/kiro-cli/data.sqlite3"@,
        "~/.local/share/amazon-q/data.sqlite3"@,
    ]
}

/// The databases to look for, in order: the one that is named, or else the usual ones.
pub open spec fn db_candidates(named: Option<Seq<char>>, home_known: bool) -> Seq<PathView> {
    match text::opt_non_blank(named) {
        Some(path) => seq![paths::expanded(path, home_known)],
        None => paths::all_expanded(usual_databases(), home_known),
    }
}

/// The databases to look for, in order, and whether the one was named.
fn resolve_db_path(named: &Option<String>, home_known: bool) -> (r: (Vec<UserPath>, bool))
    ensures
        paths::path_views(r.0@) == db_candidates(text::opt_text(*named), home_known),
        r.1 == (text::opt_non_blank(text::opt_text(*named)) is Some),
{
    if let Some(named) = named {
        if let Some(path) = non_empty_str(named.as_str()) {
            let mut one: Vec<UserPath> = Vec::new();
            one.push(expand_tilde(path, home_known));
            assert(paths::path_views(one@) =~= seq![paths::expanded(path@, home_known)]);
            return (one, true);
        }
    }
    let usual: [&str; 3] = [
        "~/Library/Application Support/kiro-cli/data.sqlite3",
        "~/.local/share/kiro-cli/data.sqlite3",
        "~/.local/share/amazon-q/data.sqlite3",
    ];
    assert(text::str_texts(usual@) =~= usual_databases());
    (expand_all(&usual, home_known), false)
}

// ---------------------------------------------------------------------------
// The course of a load
// ---------------------------------------------------------------------------

/// How far a load has come.
#[derive(Debug, Clone)]
pub enum LoadStage {
    /// Looking for the database; `named` tells whether the caller named it.
    Probing { rest: Vec<UserPath>, named: bool },
    /// Opening the database.
    Opening { path: UserPath },
    /// Asking for the table of tokens.
    Counting,
    /// Reading the rows of tokens, from the one at place `next` on.
    ReadingToken { next: usize },
    /// Reading the rows of device registrations, from the one at place `next` on.
    ReadingRegistration { credential: KiroCredentials, next: usize },
    /// The credentials are there.
    Loaded { credential: KiroCredentials },
    /// There are none to be had.
    Failed { error: ImportError },
}

/// The contents of a [`LoadStage`].
pub ghost enum LoadStageView {
    Probing { rest: Seq<PathView>, named: bool },
    Opening { path: PathView },
    Counting,
    ReadingToken { next: int },
    ReadingRegistration { credential: CredentialView, next: int },
    Loaded { credential: CredentialView },
    Failed { error: ImportErrorView },
}

impl View for LoadStage {
    type V = LoadStageView;

    open spec fn view(&self) -> LoadStageView {
        match self {
            LoadStage::Probing { rest, named } => LoadStageView::Probing {
                rest: paths::path_views(rest@),
                named: *named,
            },
            LoadStage::Opening { path } => LoadStageView::Opening { path: path@ },
            LoadStage::Counting => LoadStageView::Counting,
            LoadStage::ReadingToken { next } => LoadStageView::ReadingToken { next: *next as int },
            LoadStage::ReadingRegistration { credential, next } => {
                LoadStageView::ReadingRegistration { credential: credential@, next: *next as int }
            },
            LoadStage::Loaded { credential } => LoadStageView::Loaded { credential: credential@ },
            LoadStage::Failed { error } => LoadStageView::Failed { error: error@ },
        }
    }
}

/// A load of credentials from a login database.
#[derive(Debug, Clone)]
pub struct CredentialLoad {
    /// The database, once it is found.
    pub db_path: Option<UserPath>,
    /// Settings that take the place of what the database says.
    pub overrides: Overrides,
    /// How far the load has come.
    pub stage: LoadStage,
}

/// The contents of a [`CredentialLoad`].
pub ghost struct LoadView {
    pub db_path: Option<PathView>,
    pub overrides: OverridesView,
    pub stage: LoadStageView,
}

impl View for CredentialLoad {
    type V = LoadView;

    open spec fn view(&self) -> LoadView {
        LoadView {
            db_path: match self.db_path {
                Some(path) => Some(path@),
                None => None,
            },
            overrides: self.overrides@,
            stage: self.stage@,
        }
    }
}

impl LoadView {
    /// What every load keeps: there is something left to ask for, and from the time when the
    /// database is opened on it is known.
    pub open spec fn wf(self) -> bool {
        match self.stage {
            LoadStageView::Probing { rest, named } => rest.len() > 0 && self.db_path is None && (
            named ==> rest.len() == 1),
            LoadStageView::Opening { path } => self.db_path == Some(path),
            LoadStageView::Counting => self.db_path is Some,
            LoadStageView::ReadingToken { next } => self.db_path is Some && 0 <= next
                < token_keys().len(),
            LoadStageView::ReadingRegistration { credential, next } => self.db_path is Some && 0
                <= next < registration_keys().len(),
            LoadStageView::Loaded { credential } => self.db_path is Some,
            LoadStageView::Failed { error } => true,
        }
    }

    /// The load is over.
    pub open spec fn is_over(self) -> bool {
        self.stage is Loaded || self.stage is Failed
    }

    /// This load at another stage.
    pub open spec fn at(self, stage: LoadStageView) -> LoadView {
        LoadView { stage, ..self }
    }

    /// This load, failed for the reason `error`.
    pub open spec fn failed(self, error: ImportErrorView) -> LoadView {
        self.at(LoadStageView::Failed { error })
    }

    /// Why this load cannot go on, where it is at a stage with nothing left to ask. No load that
    /// was begun comes to such a stage.
    pub open spec fn stuck(self) -> Option<ImportErrorView> {
        match self.stage {
            LoadStageView::Probing { rest, named } => if rest.len() == 0 {
                Some(ImportErrorView::NoDatabase)
            } else {
                None
            },
            LoadStageView::ReadingToken { next } => if next >= token_keys().len() {
                Some(ImportErrorView::NoToken)
            } else {
                None
            },
            LoadStageView::ReadingRegistration { credential, next } => if next
                >= registration_keys().len() {
                Some(ImportErrorView::RowReadFailed)
            } else {
                None
            },
            _ => None,
        }
    }

    /// What is asked at this stage.
    pub open spec fn asks(self) -> Option<LoadRequestView> {
        if self.stuck() is Some {
            None
        } else {
            match self.stage {
                LoadStageView::Probing { rest, named } => Some(LoadRequestView::Probe(rest[0])),
                LoadStageView::Opening { path } => Some(LoadRequestView::OpenDatabase(path)),
                LoadStageView::Counting => Some(LoadRequestView::CountAuthTable),
                LoadStageView::ReadingToken { next } => Some(
                    LoadRequestView::ReadRow(token_keys()[next]),
                ),
                LoadStageView::ReadingRegistration { credential, next } => Some(
                    LoadRequestView::ReadRow(registration_keys()[next]),
                ),
                LoadStageView::Loaded { credential } => None,
                LoadStageView::Failed { error } => None,
            }
        }
    }

    /// This load after all the rows that matter are read, with these credentials.
    pub open spec fn finished(self, credential: CredentialView) -> LoadView {
        match finished_credential(credential, self.overrides) {
            Ok(credential) => self.at(LoadStageView::Loaded { credential }),
            Err(error) => self.failed(error),
        }
    }

    /// This load after the answer `reply`. An answer to another question changes nothing. A load
    /// that has nothing left to ask fails, whatever the answer.
    pub open spec fn after(self, reply: LoadReplyView) -> LoadView {
        match self.stuck() {
            Some(error) => self.failed(error),
            None => self.answered(reply),
        }
    }

    /// This load after the answer `reply` to what it asked.
    pub open spec fn answered(self, reply: LoadReplyView) -> LoadView {
        match (self.stage, reply) {
            (LoadStageView::Probing { rest, named }, LoadReplyView::Exists(exists)) => {
                if exists {
                    LoadView {
                        db_path: Some(rest[0]),
                        stage: LoadStageView::Opening { path: rest[0] },
                        ..self
                    }
                } else if named {
                    self.failed(ImportErrorView::DatabaseMissing(rest[0]))
                } else if rest.len() == 1 {
                    self.failed(ImportErrorView::NoDatabase)
                } else {
                    self.at(LoadStageView::Probing { rest: rest.skip(1), named })
                }
            },
            (LoadStageView::Opening { path }, LoadReplyView::Opened) => {
                self.at(LoadStageView::Counting)
            },
            (LoadStageView::Opening { path }, LoadReplyView::Failed) => {
                self.failed(ImportErrorView::OpenFailed(path))
            },
            (LoadStageView::Counting, LoadReplyView::Count(count)) => {
                if count == 0 {
                    self.failed(ImportErrorView::TableMissing)
                } else {
                    self.at(LoadStageView::ReadingToken { next: 0 })
                }
            },
            (LoadStageView::Counting, LoadReplyView::Failed) => {
                self.failed(ImportErrorView::TableCheckFailed)
            },
            (LoadStageView::ReadingToken { next }, LoadReplyView::Row(row)) => {
                match json::json_document(row) {
                    None => self.failed(ImportErrorView::InvalidJson(token_keys()[next])),
                    Some(members) => match token_record::token_credential(members) {
                        None => self.failed(ImportErrorView::InvalidToken(token_keys()[next])),
                        Some(credential) => self.at(
                            LoadStageView::ReadingRegistration { credential, next: 0 },
                        ),
                    },
                }
            },
            (LoadStageView::ReadingToken { next }, LoadReplyView::NoRow) => {
                if next + 1 < token_keys().len() {
                    self.at(LoadStageView::ReadingToken { next: next + 1 })
                } else {
                    self.failed(ImportErrorView::NoToken)
                }
            },
            (LoadStageView::ReadingToken { next }, LoadReplyView::Failed) => {
                self.failed(ImportErrorView::RowReadFailed)
            },
            (
                LoadStageView::ReadingRegistration { credential, next },
                LoadReplyView::Row(row),
            ) => {
                match json::json_document(row) {
                    None => self.failed(ImportErrorView::InvalidJson(registration_keys()[next])),
                    Some(members) => self.finished(token_record::registered(credential, members)),
                }
            },
            (LoadStageView::ReadingRegistration { credential, next }, LoadReplyView::NoRow) => {
                if next + 1 < registration_keys().len() {
                    self.at(LoadStageView::ReadingRegistration { credential, next: next + 1 })
                } else {
                    self.finished(credential)
                }
            },
            (LoadStageView::ReadingRegistration { credential, next }, LoadReplyView::Failed) => {
                self.failed(ImportErrorView::RowReadFailed)
            },
            _ => self,
        }
    }
}

/// `credential`, as the rows of the database describe it, with its way of signing in and with the
/// settings of `overrides`; refused without a refresh token.
pub open spec fn finished_credential(
    credential: CredentialView,
    overrides: OverridesView,
) -> Result<CredentialView, ImportErrorView> {
    if credential.refresh_token is None || credential.refresh_token->0.len() == 0 {
        Err(ImportErrorView::RefreshTokenMissing)
    } else {
        Ok(
            token_record::with_overrides(token_record::with_auth_method(credential), overrides),
        )
    }
}

impl CredentialLoad {
    /// Why this load cannot go on, where it has nothing left to ask.
    fn reason_stuck(&self) -> (r: Option<ImportError>)
        ensures
            match r {
                Some(error) => self@.stuck() == Some(error@),
                None => self@.stuck() is None,
            },
    {
        match &self.stage {
            LoadStage::Probing { rest, .. } => if rest.len() == 0 {
                Some(ImportError::NoDatabase)
            } else {
                None
            },
            LoadStage::ReadingToken { next } => if *next >= 4 {
                Some(ImportError::NoToken)
            } else {
                None
            },
            LoadStage::ReadingRegistration { next, .. } => if *next >= 2 {
                Some(ImportError::RowReadFailed)
            } else {
                None
            },
            _ => None,
        }
    }

    /// What is to be asked next; `None` when the load is over or has nothing left to ask.
    pub fn request(&self) -> (r: Option<LoadRequest>)
        ensures
            match r {
                Some(request) => self@.asks() == Some(request@),
                None => self@.asks() is None,
            },
    {
        if self.reason_stuck().is_some() {
            return None;
        }
        match &self.stage {
            LoadStage::Probing { rest, named } => Some(LoadRequest::Probe(rest[0].clone())),
            LoadStage::Opening { path } => Some(LoadRequest::OpenDatabase(path.clone())),
            LoadStage::Counting => Some(LoadRequest::CountAuthTable),
            LoadStage::ReadingToken { next } => Some(
                LoadRequest::ReadRow(token_key(*next).to_string()),
            ),
            LoadStage::ReadingRegistration { credential, next } => Some(
                LoadRequest::ReadRow(registration_key(*next).to_string()),
            ),
            LoadStage::Loaded { credential } => None,
            LoadStage::Failed { error } => None,
        }
    }

    /// Takes the answer to what was asked.
    pub fn step(self, reply: LoadReply) -> (r: CredentialLoad)
        ensures
            r@ == self@.after(reply@),
            self@.wf() ==> r@.wf(),
    {
        if let Some(error) = self.reason_stuck() {
            return CredentialLoad {
                db_path: self.db_path,
                overrides: self.overrides,
                stage: LoadStage::Failed { error },
            };
        }
        let db_path = self.db_path;
        let overrides = self.overrides;
        match (self.stage, reply) {
            (LoadStage::Probing { rest, named }, LoadReply::Exists(exists)) => {
                let ghost views = paths::path_views(rest@);
                let mut rest = rest;
                let first = rest.remove(0);
                assert(paths::path_views(rest@) =~= views.skip(1));
                if exists {
                    CredentialLoad {
                        db_path: Some(first.clone()),
                        overrides,
                        stage: LoadStage::Opening { path: first },
                    }
                } else if named {
                    CredentialLoad {
                        db_path,
                        overrides,
                        stage: LoadStage::Failed { error: ImportError::DatabaseMissing(first) },
                    }
                } else if rest.len() == 0 {
                    CredentialLoad {
                        db_path,
                        overrides,
                        stage: LoadStage::Failed { error: ImportError::NoDatabase },
                    }
                } else {
                    CredentialLoad { db_path, overrides, stage: LoadStage::Probing { rest, named } }
                }
            },
            (LoadStage::Opening { path }, LoadReply::Opened) => CredentialLoad {
                db_path,
                overrides,
                stage: LoadStage::Counting,
            },
            (LoadStage::Opening { path }, LoadReply::Failed) => CredentialLoad {
                db_path,
                overrides,
                stage: LoadStage::Failed { error: ImportError::OpenFailed(path) },
            },
            (LoadStage::Counting, LoadReply::Count(count)) => {
                let stage = if count == 0 {
                    LoadStage::Failed { error: ImportError::TableMissing }
                } else {
                    LoadStage::ReadingToken { next: 0 }
                };
                CredentialLoad { db_path, overrides, stage }
            },
            (LoadStage::Counting, LoadReply::Failed) => CredentialLoad {
                db_path,
                overrides,
                stage: LoadStage::Failed { error: ImportError::TableCheckFailed },
            },
            (LoadStage::ReadingToken { next }, LoadReply::Row(row)) => {
                let key = token_key(next).to_string();
                let stage = match read_token_record(row.as_str()) {
                    None => LoadStage::Failed { error: ImportError::InvalidJson(key) },
                    Some(record) => {
                        proof {
                            token_record::record_says_all(
                                json::json_document(row@)->0,
                                crate::credentials::blank_credentials(),
                            );
                        }
                        match credential_from_token_json(&record) {
                            None => LoadStage::Failed { error: ImportError::InvalidToken(key) },
                            Some(credential) => LoadStage::ReadingRegistration {
                                credential,
                                next: 0,
                            },
                        }
                    },
                };
                CredentialLoad { db_path, overrides, stage }
            },
            (LoadStage::ReadingToken { next }, LoadReply::NoRow) => {
                let stage = if next + 1 < 4 {
                    LoadStage::ReadingToken { next: next + 1 }
                } else {
                    LoadStage::Failed { error: ImportError::NoToken }
                };
                CredentialLoad { db_path, overrides, stage }
            },
            (LoadStage::ReadingRegistration { credential, next }, LoadReply::Row(row)) => {
                let stage = match read_token_record(row.as_str()) {
                    None => LoadStage::Failed {
                        error: ImportError::InvalidJson(registration_key(next).to_string()),
                    },
                    Some(record) => {
                        proof {
                            token_record::record_says_all(
                                json::json_document(row@)->0,
                                credential@,
                            );
                        }
                        let mut credential = credential;
                        apply_device_registration(&mut credential, &record);
                        finish(credential, &overrides)
                    },
                };
                CredentialLoad { db_path, overrides, stage }
            },
            (LoadStage::ReadingRegistration { credential, next }, LoadReply::NoRow) => {
                let stage = if next + 1 < 2 {
                    LoadStage::ReadingRegistration { credential, next: next + 1 }
                } else {
                    finish(credential, &overrides)
                };
                CredentialLoad { db_path, overrides, stage }
            },
            (LoadStage::ReadingToken { next }, LoadReply::Failed) => CredentialLoad {
                db_path,
                overrides,
                stage: LoadStage::Failed { error: ImportError::RowReadFailed },
            },
            (LoadStage::ReadingRegistration { credential, next }, LoadReply::Failed) => {
                CredentialLoad {
                    db_path,
                    overrides,
                    stage: LoadStage::Failed { error: ImportError::RowReadFailed },
                }
            },
            (stage, _) => CredentialLoad { db_path, overrides, stage },
        }
    }
}

/// The last stage of a load that read `credential`.
fn finish(credential: KiroCredentials, overrides: &Overrides) -> (r: LoadStage)
    ensures
        r@ == (match finished_credential(credential@, overrides@) {
            Ok(credential) => LoadStageView::Loaded { credential },
            Err(error) => LoadStageView::Failed { error },
        }),
{
    let has_token = match &credential.refresh_token {
        Some(token) => !token.as_str().is_empty(),
        None => false,
    };
    if has_token {
        let mut credential = credential;
        settle_auth_method(&mut credential);
        apply_overrides(&mut credential, overrides);
        LoadStage::Loaded { credential }
    } else {
        LoadStage::Failed { error: ImportError::RefreshTokenMissing }
    }
}

/// What to load, and the settings that take the place of what the database says.
#[derive(Debug, Clone)]
pub struct LoadKiroCliCredentialOptions {
    pub db_path: Option<String>,
    pub priority: Option<u32>,
    pub region: Option<String>,
    pub auth_region: Option<String>,
    pub api_region: Option<String>,
}

impl LoadKiroCliCredentialOptions {
    /// The settings that take the place of what the database says.
    pub open spec fn settings(self) -> OverridesView {
        OverridesView {
            priority: self.priority,
            region: text::opt_text(self.region),
            auth_region: text::opt_text(self.auth_region),
            api_region: text::opt_text(self.api_region),
        }
    }
}

impl Default for LoadKiroCliCredentialOptions {
    fn default() -> (r: Self)
        ensures
            r.db_path is None,
            r.priority is None,
            r.region is None,
            r.auth_region is None,
            r.api_region is None,
    {
        LoadKiroCliCredentialOptions {
            db_path: None,
            priority: None,
            region: None,
            auth_region: None,
            api_region: None,
        }
    }
}

/// A load that is about to look for its database.
pub open spec fn load_begun(
    named: Option<Seq<char>>,
    home_known: bool,
    overrides: OverridesView,
) -> LoadView {
    LoadView {
        db_path: None,
        overrides,
        stage: LoadStageView::Probing {
            rest: db_candidates(named, home_known),
            named: text::opt_non_blank(named) is Some,
        },
    }
}

/// Begins to load credentials from a login database. `home_known` tells whether there is a home
/// directory.
pub fn load_kiro_cli_credential(
    options: LoadKiroCliCredentialOptions,
    home_known: bool,
) -> (r: CredentialLoad)
    ensures
        r@ == load_begun(text::opt_text(options.db_path), home_known, options.settings()),
        r@.wf(),
{
    let (rest, named) = resolve_db_path(&options.db_path, home_known);
    let overrides = Overrides {
        priority: options.priority,
        region: options.region,
        auth_region: options.auth_region,
        api_region: options.api_region,
    };
    assert(rest@.len() == paths::path_views(rest@).len());
    CredentialLoad { db_path: None, overrides, stage: LoadStage::Probing { rest, named } }
}

// ---------------------------------------------------------------------------
// What a load comes to
// ---------------------------------------------------------------------------

/// What the table of tokens holds for a key.
pub ghost enum RowView {
    Found(Seq<char>),
    Missing,
    Unreadable,
}

/// The files and the database that a load may meet.
pub ghost struct LoginStore {
    /// Which paths exist.
    pub exists: spec_fn(PathView) -> bool,
    /// Which paths can be opened as a database.
    pub opens: spec_fn(PathView) -> bool,
    /// The number of tables of tokens, where it can be found out.
    pub tables: Option<i64>,
    /// The rows of the table of tokens.
    pub rows: spec_fn(Seq<char>) -> RowView,
}

impl LoginStore {
    /// The answer to `request`.
    pub open spec fn answer(self, request: LoadRequestView) -> LoadReplyView {
        match request {
            LoadRequestView::Probe(path) => LoadReplyView::Exists((self.exists)(path)),
            LoadRequestView::OpenDatabase(path) => if (self.opens)(path) {
                LoadReplyView::Opened
            } else {
                LoadReplyView::Failed
            },
            LoadRequestView::CountAuthTable => match self.tables {
                Some(count) => LoadReplyView::Count(count),
                None => LoadReplyView::Failed,
            },
            LoadRequestView::ReadRow(key) => match (self.rows)(key) {
                RowView::Found(row) => LoadReplyView::Row(row),
                RowView::Missing => LoadReplyView::NoRow,
                RowView::Unreadable => LoadReplyView::Failed,
            },
        }
    }

    /// The first of `candidates` that exists.
    pub open spec fn first_existing(self, candidates: Seq<PathView>) -> Option<PathView>
        decreases candidates.len(),
    {
        if candidates.len() == 0 {
            None
        } else if (self.exists)(candidates[0]) {
            Some(candidates[0])
        } else {
            self.first_existing(candidates.skip(1))
        }
    }

    /// The first of `keys` that has a row, and the members of the JSON object in that row.
    pub open spec fn first_record(self, keys: Seq<Seq<char>>) -> Result<
        Option<(Seq<char>, Map<Seq<char>, Seq<char>>)>,
        ImportErrorView,
    >
        decreases keys.len(),
    {
        if keys.len() == 0 {
            Ok(None)
        } else {
            match (self.rows)(keys[0]) {
                RowView::Found(row) => match json::json_document(row) {
                    Some(members) => Ok(Some((keys[0], members))),
                    None => Err(ImportErrorView::InvalidJson(keys[0])),
                },
                RowView::Missing => self.first_record(keys.skip(1)),
                RowView::Unreadable => Err(ImportErrorView::RowReadFailed),
            }
        }
    }

    /// The credentials that the token `token` and the device registration make, where the
    /// registration may stand under `keys`.
    pub open spec fn with_registration(
        self,
        token: CredentialView,
        keys: Seq<Seq<char>>,
        overrides: OverridesView,
    ) -> Result<CredentialView, ImportErrorView> {
        match self.first_record(keys) {
            Err(error) => Err(error),
            Ok(None) => finished_credential(token, overrides),
            Ok(Some((key, members))) => finished_credential(
                token_record::registered(token, members),
                overrides,
            ),
        }
    }

    /// The credentials in the table of tokens, where the token may stand under `keys`.
    pub open spec fn with_token(
        self,
        keys: Seq<Seq<char>>,
        overrides: OverridesView,
    ) -> Result<CredentialView, ImportErrorView> {
        match self.first_record(keys) {
            Err(error) => Err(error),
            Ok(None) => Err(ImportErrorView::NoToken),
            Ok(Some((key, members))) => match token_record::token_credential(members) {
                None => Err(ImportErrorView::InvalidToken(key)),
                Some(token) => self.with_registration(token, registration_keys(), overrides),
            },
        }
    }

    /// The credentials in the database, once it is open.
    pub open spec fn with_table(self, overrides: OverridesView) -> Result<
        CredentialView,
        ImportErrorView,
    > {
        match self.tables {
            None => Err(ImportErrorView::TableCheckFailed),
            Some(count) => if count == 0 {
                Err(ImportErrorView::TableMissing)
            } else {
                self.with_token(token_keys(), overrides)
            },
        }
    }

    /// The credentials in the database at `path`.
    pub open spec fn in_database(self, path: PathView, overrides: OverridesView) -> Result<
        CredentialView,
        ImportErrorView,
    > {
        if (self.opens)(path) {
            self.with_table(overrides)
        } else {
            Err(ImportErrorView::OpenFailed(path))
        }
    }

    /// The database that a load reads, and the credentials in it. The database is the one that is
    /// named, or else the first of the usual ones that exists.
    pub open spec fn credentials(
        self,
        named: Option<Seq<char>>,
        home_known: bool,
        overrides: OverridesView,
    ) -> Result<(PathView, CredentialView), ImportErrorView> {
        self.at_first(
            db_candidates(named, home_known),
            text::opt_non_blank(named) is Some,
            overrides,
        )
    }

    /// The first of `candidates` that exists, and the credentials in it.
    pub open spec fn at_first(
        self,
        candidates: Seq<PathView>,
        named: bool,
        overrides: OverridesView,
    ) -> Result<(PathView, CredentialView), ImportErrorView> {
        match self.first_existing(candidates) {
            None => Err(
                if named {
                    ImportErrorView::DatabaseMissing(candidates[0])
                } else {
                    ImportErrorView::NoDatabase
                },
            ),
            Some(path) => match self.in_database(path, overrides) {
                Ok(credential) => Ok((path, credential)),
                Err(error) => Err(error),
            },
        }
    }

    /// What the load `load` comes to.
    pub open spec fn outcome(self, load: LoadView) -> Result<
        (PathView, CredentialView),
        ImportErrorView,
    > {
        match load.stage {
            LoadStageView::Probing { rest, named } => self.at_first(rest, named, load.overrides),
            LoadStageView::Opening { path } => load.beside(self.in_database(path, load.overrides)),
            LoadStageView::Counting => load.beside(self.with_table(load.overrides)),
            LoadStageView::ReadingToken { next } => load.beside(
                self.with_token(token_keys().skip(next), load.overrides),
            ),
            LoadStageView::ReadingRegistration { credential, next } => load.beside(
                self.with_registration(credential, registration_keys().skip(next), load.overrides),
            ),
            LoadStageView::Loaded { credential } => load.beside(Ok(credential)),
            LoadStageView::Failed { error } => Err(error),
        }
    }

    /// The stage at which a load is over that goes on from `load`.
    pub open spec fn run(self, load: LoadView) -> LoadView
        recommends
            load.wf(),
        decreases load.steps_left(),
        when load.wf()
    {
        if load.is_over() {
            load
        } else {
            proof {
                step_keeps_outcome(self, load);
            }
            self.run(load.after(self.answer(load.asks()->0)))
        }
    }
}

impl LoadView {
    /// The database of this load beside what was found in it.
    pub open spec fn beside(self, found: Result<CredentialView, ImportErrorView>) -> Result<
        (PathView, CredentialView),
        ImportErrorView,
    > {
        match found {
            Ok(credential) => Ok((self.db_path->0, credential)),
            Err(error) => Err(error),
        }
    }

    /// How many questions this load asks at most.
    pub open spec fn steps_left(self) -> int {
        match self.stage {
            LoadStageView::Probing { rest, named } => 10 + rest.len() as int,
            LoadStageView::Opening { path } => 9,
            LoadStageView::Counting => 8,
            LoadStageView::ReadingToken { next } => 7 - next,
            LoadStageView::ReadingRegistration { credential, next } => 3 - next,
            LoadStageView::Loaded { credential } => 0,
            LoadStageView::Failed { error } => 0,
        }
    }
}

/// Each answer of the login store brings a load nearer to its end and does not change what it
/// comes to.
pub proof fn step_keeps_outcome(store: LoginStore, load: LoadView)
    requires
        load.wf(),
        !load.is_over(),
    ensures
        load.asks() is Some,
        load.after(store.answer(load.asks()->0)).wf(),
        0 <= load.after(store.answer(load.asks()->0)).steps_left() < load.steps_left(),
        store.outcome(load.after(store.answer(load.asks()->0))) == store.outcome(load),
{
    match load.stage {
        LoadStageView::Probing { rest, named } => {
            reveal_with_fuel(LoginStore::first_existing, 2);
        },
        LoadStageView::ReadingToken { next } => {
            let keys = token_keys().skip(next);
            assert(keys[0] == token_keys()[next]);
            assert(keys.skip(1) =~= token_keys().skip(next + 1));
            assert(registration_keys().skip(0) =~= registration_keys());
            reveal_with_fuel(LoginStore::first_record, 2);
        },
        LoadStageView::ReadingRegistration { credential, next } => {
            let keys = registration_keys().skip(next);
            assert(keys[0] == registration_keys()[next]);
            assert(keys.skip(1) =~= registration_keys().skip(next + 1));
            reveal_with_fuel(LoginStore::first_record, 2);
        },
        _ => {
            assert(token_keys().skip(0) =~= token_keys());
        },
    }
}

/// A load that is answered from a login store ends with what that store holds: the database that
/// it read and the credentials in it, or the reason why there are none.
pub proof fn load_ends_with_stored_credentials(
    store: LoginStore,
    named: Option<Seq<char>>,
    home_known: bool,
    overrides: OverridesView,
)
    ensures
        match store.credentials(named, home_known, overrides) {
            Ok((path, credential)) => {
                &&& store.run(load_begun(named, home_known, overrides)).db_path == Some(path)
                &&& store.run(load_begun(named, home_known, overrides)).stage
                    == LoadStageView::Loaded { credential }
            },
            Err(error) => store.run(load_begun(named, home_known, overrides)).stage
                == LoadStageView::Failed { error },
        },
{
    let load = load_begun(named, home_known, overrides);
    assert(db_candidates(named, home_known).len() >= 1);
    run_keeps_outcome(store, load);
}

/// Going on to the end does not change what a load comes to.
proof fn run_keeps_outcome(store: LoginStore, load: LoadView)
    requires
        load.wf(),
    ensures
        store.run(load).wf(),
        store.run(load).is_over(),
        store.outcome(store.run(load)) == store.outcome(load),
    decreases load.steps_left(),
{
    if !load.is_over() {
        step_keeps_outcome(store, load);
        run_keeps_outcome(store, load.after(store.answer(load.asks()->0)));
    }
}

/// Credentials that were loaded have a refresh token, name a way of signing in, and carry the
/// settings of the caller.
pub proof fn loaded_credentials_are_complete(
    store: LoginStore,
    named: Option<Seq<char>>,
    home_known: bool,
    overrides: OverridesView,
)
    ensures
        store.credentials(named, home_known, overrides) matches Ok((path, credential)) ==> {
            &&& credential.refresh_token is Some
            &&& credential.refresh_token->0.len() > 0
            &&& credential.auth_method == Some(token_record::auth_method_of(credential))
            &&& overrides.priority matches Some(priority) ==> credential.priority == priority
            &&& text::opt_non_blank(overrides.region) is Some ==> credential.region
                == text::opt_non_blank(overrides.region)
            &&& text::opt_non_blank(overrides.auth_region) == credential.auth_region
            &&& text::opt_non_blank(overrides.api_region) == credential.api_region
            &&& !credential.disabled
            &&& credential.id is None
        },
{
    token_has_refresh_token(store, token_keys());
}

/// A token record that was accepted has a refresh token which is not blank, so that no load fails
/// for the want of one later.
pub proof fn token_has_refresh_token(store: LoginStore, keys: Seq<Seq<char>>)
    ensures
        store.first_record(keys) matches Ok(Some((key, members))) ==> (
        token_record::token_credential(members) matches Some(token) ==> {
            &&& token.refresh_token is Some
            &&& token.refresh_token->0.len() > 0
            &&& token.id is None
            &&& !token.disabled
            &&& forall|overrides: OverridesView|
                #[trigger] store.with_registration(token, registration_keys(), overrides)
                    != Err::<CredentialView, _>(ImportErrorView::RefreshTokenMissing)
        }),
{
    if let Ok(Some((key, members))) = store.first_record(keys) {
        field_is_not_blank(members, token_record::refresh_token_names());
        lookup_reasons(store, registration_keys());
    }
}

/// A field that was found is not empty.
proof fn field_is_not_blank(members: Map<Seq<char>, Seq<char>>, names: Seq<Seq<char>>)
    ensures
        json::first_field(members, names) matches Some(value) ==> value.len() > 0,
    decreases names.len(),
{
    if names.len() > 0 {
        field_is_not_blank(members, names.skip(1));
    }
}

/// Why looking for a row can fail.
proof fn lookup_reasons(store: LoginStore, keys: Seq<Seq<char>>)
    ensures
        store.first_record(keys) matches Err(error) ==> error is InvalidJson
            || error is RowReadFailed,
    decreases keys.len(),
{
    if keys.len() > 0 {
        lookup_reasons(store, keys.skip(1));
    }
}

// ---------------------------------------------------------------------------
// Step by step
// ---------------------------------------------------------------------------

/// Where a login is stored: the keys of tokens and of device registrations and the usual databases,
/// each in the order in which they are tried.
pub proof fn places_of_a_login()
    ensures
        token_keys().len() == 4,
        token_keys()[0] == "kirocli:social:token"@,
        token_keys()[1] == "kirocli:odic:token"@,
        token_keys()[2] == "codewhisperer:social:token"@,
        token_keys()[3] == "codewhisperer:odic:token"@,
        registration_keys().len() == 2,
        registration_keys()[0] == "kirocli:odic:device-registration"@,
        registration_keys()[1] == "codewhisperer:odic:device-registration"@,
        usual_databases().len() == 3,
        usual_databases()[0] == "~/Library/Application Support/kiro-cli/data.sqlite3"@,
        usual_databases()[1] == "~/.local/share/kiro-cli/data.sqlite3"@,
        usual_databases()[2] == "~/.local/share/amazon-q/data.sqlite3"@,
{
}

/// A database that is named, and not blank, is the only one that is looked for; otherwise the three
/// usual ones are, in order.
pub proof fn named_database_is_the_only_one(named: Option<Seq<char>>, home_known: bool)
    ensures
        (named is Some && text::trimmed(named->0).len() > 0) ==> db_candidates(named, home_known)
            == seq![paths::expanded(text::trimmed(named->0), home_known)],
        (named is None || text::trimmed(named->0).len() == 0) ==> db_candidates(named, home_known)
            == seq![
            paths::expanded(
                "~/Library/Application Support/kiro-cli/data.sqlite3"@,
                home_known,
            ),
            paths::expanded("~/.local/share/kiro-cli/data.sqlite3"@, home_known),
            paths::expanded("~/.local/share/amazon-q/data.sqlite3"@, home_known),
        ],
{
    if named is None || text::trimmed(named->0).len() == 0 {
        assert(db_candidates(named, home_known) =~= seq![
            paths::expanded(
                "~/Library/Application Support/kiro-cli/data.sqlite3"@,
                home_known,
            ),
            paths::expanded("~/.local/share/kiro-cli/data.sqlite3"@, home_known),
            paths::expanded("~/.local/share/amazon-q/data.sqlite3"@, home_known),
        ]);
    }
}

/// The settings of a load are those of its options, each under its own name.
pub proof fn options_give_the_settings(options: LoadKiroCliCredentialOptions, overrides: Overrides)
    ensures
        options.settings().priority == options.priority,
        options.settings().region == text::opt_text(options.region),
        options.settings().auth_region == text::opt_text(options.auth_region),
        options.settings().api_region == text::opt_text(options.api_region),
        overrides@.priority == overrides.priority,
        overrides@.region == text::opt_text(overrides.region),
        overrides@.auth_region == text::opt_text(overrides.auth_region),
        overrides@.api_region == text::opt_text(overrides.api_region),
{
}

/// A load begins with the first candidate and without a database. It takes the first candidate that
/// exists, and goes on to the next where one does not; it fails when the one that was named, or the
/// last of the others, does not exist.
pub proof fn candidates_are_tried_in_turn(
    load: LoadView,
    named: Option<Seq<char>>,
    home_known: bool,
    overrides: OverridesView,
)
    ensures
        load_begun(named, home_known, overrides).db_path is None,
        load_begun(named, home_known, overrides).overrides == overrides,
        load_begun(named, home_known, overrides).stage is Probing,
        load_begun(named, home_known, overrides).stage->rest == db_candidates(named, home_known),
        load_begun(named, home_known, overrides).stage->named <==> named is Some && text::trimmed(
            named->0,
        ).len() > 0,
        (load.stage is Probing && load.stage->rest.len() > 0) ==> {
            let first = load.stage->rest[0];
            let next = load.after(LoadReplyView::Exists(false));
            &&& load.asks() == Some(LoadRequestView::Probe(first))
            &&& load.after(LoadReplyView::Exists(true)) == (LoadView {
                db_path: Some(first),
                overrides: load.overrides,
                stage: LoadStageView::Opening { path: first },
            })
            &&& next.db_path == load.db_path && next.overrides == load.overrides
            &&& load.stage->named ==> next.stage == LoadStageView::Failed {
                error: ImportErrorView::DatabaseMissing(first),
            }
            &&& !load.stage->named && load.stage->rest.len() == 1 ==> next.stage
                == LoadStageView::Failed { error: ImportErrorView::NoDatabase }
            &&& !load.stage->named && load.stage->rest.len() > 1 ==> next.stage
                == LoadStageView::Probing { rest: load.stage->rest.skip(1), named: false }
        },
{
}

/// A database is opened and must have a table of tokens before the first key is read.
pub proof fn database_is_opened_and_checked(load: LoadView, count: i64)
    ensures
        load.stage matches LoadStageView::Opening { path } ==> {
            &&& load.asks() == Some(LoadRequestView::OpenDatabase(path))
            &&& load.after(LoadReplyView::Opened) == (LoadView {
                stage: LoadStageView::Counting,
                ..load
            })
            &&& load.after(LoadReplyView::Failed).stage == LoadStageView::Failed {
                error: ImportErrorView::OpenFailed(path),
            }
        },
        load.stage is Counting ==> {
            &&& load.asks() == Some(LoadRequestView::CountAuthTable)
            &&& count != 0 ==> load.after(LoadReplyView::Count(count)) == (LoadView {
                stage: LoadStageView::ReadingToken { next: 0 },
                ..load
            })
            &&& count == 0 ==> load.after(LoadReplyView::Count(count)).stage
                == LoadStageView::Failed { error: ImportErrorView::TableMissing }
            &&& load.after(LoadReplyView::Failed).stage == LoadStageView::Failed {
                error: ImportErrorView::TableCheckFailed,
            }
        },
{
}

/// The four keys of tokens are read in order until one has a row. That row must hold a token record;
/// its credentials are kept and the first key of device registrations follows.
pub proof fn first_token_row_counts(load: LoadView, next: int, row: Seq<char>)
    requires
        load.stage == (LoadStageView::ReadingToken { next }),
        0 <= next < 4,
    ensures
        ({
            let key = if next == 0 {
                "kirocli:social:token"@
            } else if next == 1 {
                "kirocli:odic:token"@
            } else if next == 2 {
                "codewhisperer:social:token"@
            } else {
                "codewhisperer:odic:token"@
            };
            let found = load.after(LoadReplyView::Row(row));
            &&& load.asks() == Some(LoadRequestView::ReadRow(key))
            &&& next < 3 ==> load.after(LoadReplyView::NoRow) == (LoadView {
                stage: LoadStageView::ReadingToken { next: next + 1 },
                ..load
            })
            &&& next == 3 ==> load.after(LoadReplyView::NoRow).stage == LoadStageView::Failed {
                error: ImportErrorView::NoToken,
            }
            &&& load.after(LoadReplyView::Failed).stage == LoadStageView::Failed {
                error: ImportErrorView::RowReadFailed,
            }
            &&& json::json_document(row) is None ==> found.stage == LoadStageView::Failed {
                error: ImportErrorView::InvalidJson(key),
            }
            &&& (json::json_document(row) is Some && token_record::token_credential(
                json::json_document(row)->0,
            ) is None) ==> found.stage == LoadStageView::Failed {
                error: ImportErrorView::InvalidToken(key),
            }
            &&& (json::json_document(row) is Some && token_record::token_credential(
                json::json_document(row)->0,
            ) is Some) ==> found == (LoadView {
                stage: LoadStageView::ReadingRegistration {
                    credential: token_record::token_credential(json::json_document(row)->0)->0,
                    next: 0,
                },
                ..load
            })
        }),
{
}

/// The two keys of device registrations are read in order until one has a row. What that row says,
/// or nothing, is added to the credentials; with a refresh token they are loaded, with their way of
/// signing in and the settings of the caller, and without one they are refused.
pub proof fn first_registration_row_counts(
    load: LoadView,
    credential: CredentialView,
    next: int,
    row: Seq<char>,
)
    requires
        load.stage == (LoadStageView::ReadingRegistration { credential, next }),
        0 <= next < 2,
    ensures
        ({
            let key = if next == 0 {
                "kirocli:odic:device-registration"@
            } else {
                "codewhisperer:odic:device-registration"@
            };
            let found = load.after(LoadReplyView::Row(row));
            let none = load.after(LoadReplyView::NoRow);
            let has_token = credential.refresh_token is Some && credential.refresh_token->0.len()
                > 0;
            &&& load.asks() == Some(LoadRequestView::ReadRow(key))
            &&& load.after(LoadReplyView::Failed).stage == LoadStageView::Failed {
                error: ImportErrorView::RowReadFailed,
            }
            &&& next == 0 ==> none == (LoadView {
                stage: LoadStageView::ReadingRegistration { credential, next: 1 },
                ..load
            })
            &&& next == 1 && has_token ==> none == (LoadView {
                stage: LoadStageView::Loaded {
                    credential: token_record::with_overrides(
                        token_record::with_auth_method(credential),
                        load.overrides,
                    ),
                },
                ..load
            })
            &&& next == 1 && !has_token ==> none.stage == LoadStageView::Failed {
                error: ImportErrorView::RefreshTokenMissing,
            }
            &&& json::json_document(row) is None ==> found.stage == LoadStageView::Failed {
                error: ImportErrorView::InvalidJson(key),
            }
            &&& json::json_document(row) is Some && has_token ==> found == (LoadView {
                stage: LoadStageView::Loaded {
                    credential: token_record::with_overrides(
                        token_record::with_auth_method(
                            token_record::registered(credential, json::json_document(row)->0),
                        ),
                        load.overrides,
                    ),
                },
                ..load
            })
            &&& json::json_document(row) is Some && !has_token ==> found.stage
                == LoadStageView::Failed { error: ImportErrorView::RefreshTokenMissing }
        }),
{
}

/// A load that is over asks nothing and stays as it is, and at every stage an answer to another
/// question leaves it as it is.
pub proof fn other_answers_change_nothing(load: LoadView, reply: LoadReplyView)
    requires
        match load.stage {
            LoadStageView::Probing { rest, named } => rest.len() > 0 && !(reply is Exists),
            LoadStageView::Opening { path } => !(reply is Opened) && !(reply is Failed),
            LoadStageView::Counting => !(reply is Count) && !(reply is Failed),
            LoadStageView::ReadingToken { next } => next < 4 && !(reply is Row) && !(
            reply is NoRow) && !(reply is Failed),
            LoadStageView::ReadingRegistration { credential, next } => next < 2 && !(
            reply is Row) && !(reply is NoRow) && !(reply is Failed),
            LoadStageView::Loaded { credential } => true,
            LoadStageView::Failed { error } => true,
        },
    ensures
        load.after(reply) == load,
        load.is_over() ==> load.asks() is None,
        !load.is_over() ==> load.asks() is Some,
{
}

/// A login whose token stands under the first key that has a row is loaded: its members, with those
/// of the device registration where there is one, and with the settings of the caller.
pub proof fn stored_login_is_loaded(
    store: LoginStore,
    path: Seq<char>,
    home_known: bool,
    overrides: OverridesView,
    at: int,
    row: Seq<char>,
)
    requires
        text::trimmed(path).len() > 0,
        (store.exists)(paths::expanded(text::trimmed(path), home_known)),
        (store.opens)(paths::expanded(text::trimmed(path), home_known)),
        store.tables is Some && store.tables->0 != 0,
        0 <= at < 4,
        forall|i: int| 0 <= i < at ==> (store.rows)(#[trigger] token_keys()[i]) is Missing,
        (store.rows)(token_keys()[at]) == RowView::Found(row),
        json::json_document(row) is Some,
        token_record::token_credential(json::json_document(row)->0) is Some,
        (store.rows)("kirocli:odic:device-registration"@) is Missing,
        !((store.rows)("codewhisperer:odic:device-registration"@) is Unreadable),
        (store.rows)("codewhisperer:odic:device-registration"@) matches RowView::Found(other)
            ==> json::json_document(other) is Some,
    ensures
        ({
            let token = token_record::token_credential(json::json_document(row)->0)->0;
            let full = match (store.rows)("codewhisperer:odic:device-registration"@) {
                RowView::Found(other) => token_record::registered(
                    token,
                    json::json_document(other)->0,
                ),
                _ => token,
            };
            let last = store.run(load_begun(Some(path), home_known, overrides));
            &&& last.db_path == Some(paths::expanded(text::trimmed(path), home_known))
            &&& last.stage == LoadStageView::Loaded {
                credential: token_record::with_overrides(
                    token_record::with_auth_method(full),
                    overrides,
                ),
            }
        }),
{
    load_ends_with_stored_credentials(store, Some(path), home_known, overrides);
    token_record::token_record_gives_its_members(json::json_document(row)->0);
    let keys = token_keys();
    assert(keys.skip(0) =~= keys);
    assert(keys.skip(0)[0] == keys[0] && keys.skip(1)[0] == keys[1] && keys.skip(2)[0] == keys[2]
        && keys.skip(3)[0] == keys[3]);
    assert(keys.skip(1).skip(1) =~= keys.skip(2) && keys.skip(2).skip(1) =~= keys.skip(3));
    let others = registration_keys();
    assert(others.skip(1)[0] == others[1]);
    assert(others.skip(1).skip(1) =~= seq![]);
    reveal_with_fuel(LoginStore::first_record, 5);
    reveal_with_fuel(LoginStore::first_existing, 2);
    if at > 0 {
        assert((store.rows)(keys[0]) is Missing);
    }
    if at > 1 {
        assert((store.rows)(keys[1]) is Missing);
    }
    if at > 2 {
        assert((store.rows)(keys[2]) is Missing);
    }
}

// ---------------------------------------------------------------------------
// What is meant
// ---------------------------------------------------------------------------

/// Errors name the path or the key that they are about.
pub proof fn errors_are_what_they_name(path: UserPath, key: String, fault: WriteFault)
    ensures
        ImportError::DatabaseMissing(path)@ == ImportErrorView::DatabaseMissing(path@),
        ImportError::NoDatabase@ == ImportErrorView::NoDatabase,
        ImportError::OpenFailed(path)@ == ImportErrorView::OpenFailed(path@),
        ImportError::TableCheckFailed@ == ImportErrorView::TableCheckFailed,
        ImportError::TableMissing@ == ImportErrorView::TableMissing,
        ImportError::RowReadFailed@ == ImportErrorView::RowReadFailed,
        ImportError::InvalidJson(key)@ == ImportErrorView::InvalidJson(key@),
        ImportError::NoToken@ == ImportErrorView::NoToken,
        ImportError::InvalidToken(key)@ == ImportErrorView::InvalidToken(key@),
        ImportError::RefreshTokenMissing@ == ImportErrorView::RefreshTokenMissing,
        ImportError::ExistingUnreadable(path)@ == ImportErrorView::ExistingUnreadable(path@),
        ImportError::WriteFailed(path, fault)@ == ImportErrorView::WriteFailed(path@, fault),
{
}

/// Questions and answers name the path, the key, the number or the row that they are about.
pub proof fn questions_are_what_they_name(path: UserPath, key: String, exists: bool, count: i64)
    ensures
        LoadRequest::Probe(path)@ == LoadRequestView::Probe(path@),
        LoadRequest::OpenDatabase(path)@ == LoadRequestView::OpenDatabase(path@),
        LoadRequest::CountAuthTable@ == LoadRequestView::CountAuthTable,
        LoadRequest::ReadRow(key)@ == LoadRequestView::ReadRow(key@),
        LoadReply::Exists(exists)@ == LoadReplyView::Exists(exists),
        LoadReply::Opened@ == LoadReplyView::Opened,
        LoadReply::Count(count)@ == LoadReplyView::Count(count),
        LoadReply::Row(key)@ == LoadReplyView::Row(key@),
        LoadReply::NoRow@ == LoadReplyView::NoRow,
        LoadReply::Failed@ == LoadReplyView::Failed,
{
}

/// A load is its database, its settings and its stage.
pub proof fn loads_are_what_they_hold(load: CredentialLoad)
    ensures
        load.db_path is None ==> load@.db_path is None,
        load.db_path matches Some(path) ==> load@.db_path == Some(path@),
        load@.overrides == load.overrides@,
        load@.stage == load.stage@,
        load.stage matches LoadStage::Loaded { credential } ==> load@.stage == (
        LoadStageView::Loaded { credential: credential@ }),
        load.stage matches LoadStage::Failed { error } ==> load@.stage == (LoadStageView::Failed {
            error: error@,
        }),
        load.stage matches LoadStage::Probing { rest, named } ==> load@.stage == (
        LoadStageView::Probing { rest: paths::path_views(rest@), named }),
        load.stage matches LoadStage::Opening { path } ==> load@.stage == (LoadStageView::Opening {
            path: path@,
        }),
        load.stage matches LoadStage::ReadingToken { next } ==> load@.stage == (
        LoadStageView::ReadingToken { next: next as int }),
        load.stage matches LoadStage::ReadingRegistration { credential, next } ==> load@.stage == (
        LoadStageView::ReadingRegistration { credential: credential@, next: next as int }),
        load.stage is Counting ==> load@.stage is Counting,
{
}

/// A load that has nothing left to ask for asks nothing and fails: without a database, without a
/// token, or without the row that it was to read.
pub proof fn nothing_left_to_ask_is_a_failure(load: LoadView, reply: LoadReplyView)
    ensures
        ({
            let after = load.after(reply);
            let failed = after.db_path == load.db_path && after.overrides == load.overrides
                && load.asks() is None;
            &&& load.stage is Probing && load.stage->rest.len() == 0 ==> failed && after.stage == (
            LoadStageView::Failed { error: ImportErrorView::NoDatabase })
            &&& load.stage is ReadingToken && load.stage->ReadingToken_next >= 4 ==> failed
                && after.stage == (LoadStageView::Failed { error: ImportErrorView::NoToken })
            &&& load.stage is ReadingRegistration && load.stage->ReadingRegistration_next >= 2
                ==> failed && after.stage == (LoadStageView::Failed {
                error: ImportErrorView::RowReadFailed,
            })
        }),
{
}

/// A load is over once the credentials are loaded or it has failed, and not before.
pub proof fn loads_end_in_two_ways(load: LoadView)
    ensures
        load.stage is Loaded ==> load.is_over(),
        load.stage is Failed ==> load.is_over(),
        load.stage is Probing || load.stage is Opening || load.stage is Counting
            || load.stage is ReadingToken || load.stage is ReadingRegistration ==> !load.is_over(),
{
}

} // verus!
