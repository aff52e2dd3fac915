//! Importing the credentials of a CLI login into the list of credentials.
//!
//! [`CredentialImport::request`] says what to do next outside, and [`CredentialImport::step`]
//! takes what came of it.
use crate::credential_load;
use crate::credential_load::{
    load_kiro_cli_credential, CredentialLoad, ImportError, ImportErrorView,
    LoadKiroCliCredentialOptions, LoadReply, LoadReplyView, LoadRequest, LoadRequestView, LoadStage,
    LoadStageView, LoadView, LoginStore, WriteFault,
};
use crate::credentials;
use crate::credentials::{merge_credential, KiroCredentials};
use crate::paths;
use crate::paths::{expand_tilde, PathView, UserPath};
use crate::priority;
use crate::text;
use crate::token_record::OverridesView;
use vstd::prelude::*;
use vstd::string::*;

verus! {

/// What to import, and where to.
#[derive(Debug, Clone)]
pub struct ImportKiroCliOptions {
    pub db_path: Option<String>,
    pub credentials_path: String,
    pub replace: bool,
    pub priority: Option<u32>,
    pub region: Option<String>,
    pub auth_region: Option<String>,
    pub api_region: Option<String>,
}

impl ImportKiroCliOptions {
    /// The settings that take the place of what the database says.
    pub open spec fn settings(self) -> OverridesView {
        OverridesView {
            priority: self.priority,
            region: text::opt_text(self.region),
            auth_region: text::opt_text(self.auth_region),
            api_region: text::opt_text(self.api_region),
        }
    }
}

/// What an import did.
#[derive(Debug, Clone)]
pub struct ImportKiroCliResult {
    pub db_path: UserPath,
    pub credentials_path: UserPath,
    pub auth_method: String,
    pub updated_existing: bool,
    pub total_credentials: usize,
}

/// The contents of an [`ImportKiroCliResult`].
pub ghost struct ImportResultView {
    pub db_path: PathView,
    pub credentials_path: PathView,
    pub auth_method: Seq<char>,
    pub updated_existing: bool,
    pub total_credentials: int,
}

impl View for ImportKiroCliResult {
    type V = ImportResultView;

    open spec fn view(&self) -> ImportResultView {
        ImportResultView {
            db_path: self.db_path@,
            credentials_path: self.credentials_path@,
            auth_method: self.auth_method@,
            updated_existing: self.updated_existing,
            total_credentials: self.total_credentials as int,
        }
    }
}

/// What is to be done next.
#[derive(Debug, Clone)]
pub enum ImportRequest {
    /// Ask this for the load of the credentials.
    Load(LoadRequest),
    /// Read the list of credentials, if the file exists.
    ReadCredentials(UserPath),
    /// Write this list of credentials.
    WriteCredentials(UserPath, Vec<KiroCredentials>),
}

/// The contents of an [`ImportRequest`].
pub ghost enum ImportRequestView {
    Load(LoadRequestView),
    ReadCredentials(PathView),
    WriteCredentials(PathView, Seq<KiroCredentials>),
}

impl View for ImportRequest {
    type V = ImportRequestView;

    open spec fn view(&self) -> ImportRequestView {
        match self {
            ImportRequest::Load(request) => ImportRequestView::Load(request@),
            ImportRequest::ReadCredentials(path) => ImportRequestView::ReadCredentials(path@),
            ImportRequest::WriteCredentials(path, list) => ImportRequestView::WriteCredentials(
                path@,
                list@,
            ),
        }
    }
}

/// What came of an [`ImportRequest`].
#[derive(Debug, Clone)]
pub enum ImportReply {
    Load(LoadReply),
    Credentials(Vec<KiroCredentials>),
    NoCredentials,
    Written,
    NotWritten(WriteFault),
    Failed,
}

/// How far an import has come.
#[derive(Debug, Clone)]
pub enum ImportStage {
    /// Loading the credentials.
    Loading(CredentialLoad),
    /// Reading the list that they go into.
    Reading { db_path: UserPath, credential: KiroCredentials },
    /// Writing the list.
    Writing {
        db_path: UserPath,
        credentials: Vec<KiroCredentials>,
        auth_method: String,
        updated_existing: bool,
    },
    /// The list is written.
    Done(ImportKiroCliResult),
    /// Nothing was imported.
    Failed(ImportError),
}

/// An import of credentials.
#[derive(Debug, Clone)]
pub struct CredentialImport {
    /// The file with the list of credentials.
    pub credentials_path: UserPath,
    /// The list is to hold the imported credentials alone.
    pub replace: bool,
    /// How far the import has come.
    pub stage: ImportStage,
}

/// How an account signs in, where the credentials do not say.
pub open spec fn shown_auth_method(auth_method: Option<Seq<char>>) -> Seq<char> {
    match auth_method {
        Some(method) => method,
        None => "social"@,
    }
}

impl CredentialImport {
    /// What every import keeps.
    pub open spec fn wf(self) -> bool {
        match self.stage {
            ImportStage::Loading(load) => load@.wf() && !load@.is_over(),
            _ => true,
        }
    }

    /// The import is over.
    pub open spec fn is_over(self) -> bool {
        self.stage is Done || self.stage is Failed
    }

    /// What is to be done at this stage.
    pub open spec fn asks(self) -> Option<ImportRequestView> {
        match self.stage {
            ImportStage::Loading(load) => match load@.asks() {
                Some(request) => Some(ImportRequestView::Load(request)),
                None => None,
            },
            ImportStage::Reading { db_path, credential } => Some(
                ImportRequestView::ReadCredentials(self.credentials_path@),
            ),
            ImportStage::Writing { db_path, credentials, auth_method, updated_existing } => Some(
                ImportRequestView::WriteCredentials(self.credentials_path@, credentials@),
            ),
            ImportStage::Done(result) => None,
            ImportStage::Failed(error) => None,
        }
    }

    /// This import is about to write `list`, in which `credential` is.
    pub open spec fn writes(
        self,
        db_path: PathView,
        credential: KiroCredentials,
        list: Seq<KiroCredentials>,
        updated: bool,
    ) -> bool {
        self.stage matches ImportStage::Writing {
            db_path: path,
            credentials,
            auth_method,
            updated_existing,
        } && path@ == db_path && credentials@ == list && auth_method@ == shown_auth_method(
            credential@.auth_method,
        ) && updated_existing == updated
    }

    /// This import failed for the reason `error`.
    pub open spec fn failed_with(self, error: ImportErrorView) -> bool {
        self.stage matches ImportStage::Failed(reason) && reason@ == error
    }

    /// `next` is this import after `reply`. A reply to another request changes nothing.
    pub open spec fn leads_to(self, reply: ImportReply, next: CredentialImport) -> bool {
        &&& next.credentials_path == self.credentials_path
        &&& next.replace == self.replace
        &&& match (self.stage, reply) {
            (ImportStage::Loading(load), ImportReply::Load(answer)) => {
                let after = load@.after(answer@);
                match after.stage {
                    LoadStageView::Loaded { credential } => match after.db_path {
                        Some(found) => exists|loaded: KiroCredentials|
                            {
                                &&& #[trigger] loaded@ == credential
                                &&& if self.replace {
                                    next.writes(found, loaded, seq![loaded], false)
                                } else {
                                    next.stage matches ImportStage::Reading {
                                        db_path,
                                        credential: waiting,
                                    } && db_path@ == found && waiting == loaded
                                }
                            },
                        None => next.failed_with(ImportErrorView::NoDatabase),
                    },
                    LoadStageView::Failed { error } => next.failed_with(error),
                    _ => next.stage matches ImportStage::Loading(rest) && rest@ == after,
                }
            },
            (
                ImportStage::Reading { db_path, credential },
                ImportReply::Credentials(existing),
            ) => next.writes(
                db_path@,
                credential,
                credentials::merged(existing@, credential),
                credentials::is_listed(priority::by_priority(existing@), credential),
            ),
            (ImportStage::Reading { db_path, credential }, ImportReply::NoCredentials) => {
                next.writes(db_path@, credential, seq![credential], false)
            },
            (ImportStage::Reading { db_path, credential }, ImportReply::Failed) => {
                next.failed_with(ImportErrorView::ExistingUnreadable(self.credentials_path@))
            },
            (
                ImportStage::Writing { db_path, credentials, auth_method, updated_existing },
                ImportReply::Written,
            ) => next.stage matches ImportStage::Done(result) && result@ == (ImportResultView {
                db_path: db_path@,
                credentials_path: self.credentials_path@,
                auth_method: auth_method@,
                updated_existing,
                total_credentials: credentials@.len() as int,
            }),
            (
                ImportStage::Writing { db_path, credentials, auth_method, updated_existing },
                ImportReply::NotWritten(fault),
            ) => next.failed_with(ImportErrorView::WriteFailed(self.credentials_path@, fault)),
            _ => next.stage == self.stage,
        }
    }

    /// What is to be done next; `None` when the import is over or has nothing left to ask.
    pub fn request(&self) -> (r: Option<ImportRequest>)
        ensures
            match r {
                Some(request) => self.asks() == Some(request@),
                None => self.asks() is None,
            },
    {
        match &self.stage {
            ImportStage::Loading(load) => match load.request() {
                Some(request) => Some(ImportRequest::Load(request)),
                None => None,
            },
            ImportStage::Reading { .. } => Some(
                ImportRequest::ReadCredentials(self.credentials_path.clone()),
            ),
            ImportStage::Writing { credentials, .. } => {
                let list = credentials.clone();
                assert(list@ =~= credentials@);
                Some(ImportRequest::WriteCredentials(self.credentials_path.clone(), list))
            },
            ImportStage::Done(_) => None,
            ImportStage::Failed(_) => None,
        }
    }

    /// Takes what came of the last request.
    pub fn step(self, reply: ImportReply) -> (r: CredentialImport)
        ensures
            self.leads_to(reply, r),
            self.wf() ==> r.wf(),
    {
        let credentials_path = self.credentials_path;
        let replace = self.replace;
        let stage = match (self.stage, reply) {
            (ImportStage::Loading(load), ImportReply::Load(answer)) => {
                let CredentialLoad { db_path, overrides, stage } = load.step(answer);
                match (stage, db_path) {
                    (LoadStage::Loaded { credential }, Some(db_path)) => {
                        if replace {
                            let mut list: Vec<KiroCredentials> = Vec::new();
                            let auth_method = auth_method_shown(&credential);
                            list.push(credential);
                            assert(list@ =~= seq![credential]);
                            ImportStage::Writing {
                                db_path,
                                credentials: list,
                                auth_method,
                                updated_existing: false,
                            }
                        } else {
                            ImportStage::Reading { db_path, credential }
                        }
                    },
                    (LoadStage::Loaded { .. }, None) => ImportStage::Failed(
                        ImportError::NoDatabase,
                    ),
                    (LoadStage::Failed { error }, _) => ImportStage::Failed(error),
                    (stage, db_path) => ImportStage::Loading(
                        CredentialLoad { db_path, overrides, stage },
                    ),
                }
            },
            (ImportStage::Reading { db_path, credential }, ImportReply::Credentials(existing)) => {
                write_merged(db_path, existing, credential)
            },
            (ImportStage::Reading { db_path, credential }, ImportReply::NoCredentials) => {
                let none: Vec<KiroCredentials> = Vec::new();
                proof {
                    priority::ordered_list_stays(none@);
                    assert(none@.push(credential) =~= seq![credential]);
                    priority::ordered_list_stays(seq![credential]);
                }
                write_merged(db_path, none, credential)
            },
            (ImportStage::Reading { .. }, ImportReply::Failed) => ImportStage::Failed(
                ImportError::ExistingUnreadable(credentials_path.clone()),
            ),
            (
                ImportStage::Writing { db_path, credentials, auth_method, updated_existing },
                ImportReply::Written,
            ) => ImportStage::Done(
                ImportKiroCliResult {
                    db_path,
                    credentials_path: credentials_path.clone(),
                    auth_method,
                    updated_existing,
                    total_credentials: credentials.len(),
                },
            ),
            (ImportStage::Writing { .. }, ImportReply::NotWritten(fault)) => ImportStage::Failed(
                ImportError::WriteFailed(credentials_path.clone(), fault),
            ),
            (stage, _) => stage,
        };
        CredentialImport { credentials_path, replace, stage }
    }
}

/// How the account of `credential` signs in.
fn auth_method_shown(credential: &KiroCredentials) -> (r: String)
    ensures
        r@ == shown_auth_method(credential@.auth_method),
{
    match &credential.auth_method {
        Some(method) => method.clone(),
        None => "social".to_string(),
    }
}

/// The stage at which `existing` is to be written with `credential` merged into it.
fn write_merged(
    db_path: UserPath,
    existing: Vec<KiroCredentials>,
    credential: KiroCredentials,
) -> (r: ImportStage)
    ensures
        r matches ImportStage::Writing {
            db_path: path,
            credentials,
            auth_method,
            updated_existing,
        } && path == db_path && credentials@ == credentials::merged(existing@, credential)
            && auth_method@ == shown_auth_method(credential@.auth_method) && updated_existing
            == credentials::is_listed(priority::by_priority(existing@), credential),
{
    let auth_method = auth_method_shown(&credential);
    let (list, updated_existing) = merge_credential(existing, credential);
    ImportStage::Writing { db_path, credentials: list, auth_method, updated_existing }
}

/// Begins to import the credentials of a CLI login. `home_known` tells whether there is a home
/// directory.
pub fn import_kiro_cli_credentials(options: ImportKiroCliOptions, home_known: bool) -> (r:
    CredentialImport)
    ensures
        r.credentials_path@ == paths::expanded(options.credentials_path@, home_known),
        r.replace == options.replace,
        r.stage matches ImportStage::Loading(load) && load@ == credential_load::load_begun(
            text::opt_text(options.db_path),
            home_known,
            options.settings(),
        ),
        r.wf(),
{
    let load = load_kiro_cli_credential(
        LoadKiroCliCredentialOptions {
            db_path: options.db_path,
            priority: options.priority,
            region: options.region,
            auth_region: options.auth_region,
            api_region: options.api_region,
        },
        home_known,
    );
    CredentialImport {
        credentials_path: expand_tilde(options.credentials_path.as_str(), home_known),
        replace: options.replace,
        stage: ImportStage::Loading(load),
    }
}

// ---------------------------------------------------------------------------
// What an import comes to
// ---------------------------------------------------------------------------

/// The file with the list of credentials.
pub ghost enum ListFile {
    Missing,
    Holds(Seq<KiroCredentials>),
    Unreadable,
}

/// The files and the database that an import may meet.
pub ghost struct ImportStore {
    pub login: LoginStore,
    /// The file with the list of credentials, before the import.
    pub list: ListFile,
    /// What goes wrong when the list is written, if anything does.
    pub write_fault: Option<WriteFault>,
}

impl ImportStore {
    /// The reply to the request of `import`.
    pub open spec fn replies(self, import: CredentialImport, reply: ImportReply) -> bool {
        match import.asks() {
            Some(ImportRequestView::Load(request)) => reply matches ImportReply::Load(answer)
                && answer@ == self.login.answer(request),
            Some(ImportRequestView::ReadCredentials(path)) => match self.list {
                ListFile::Missing => reply is NoCredentials,
                ListFile::Holds(list) => reply matches ImportReply::Credentials(existing)
                    && existing@ == list,
                ListFile::Unreadable => reply is Failed,
            },
            Some(ImportRequestView::WriteCredentials(path, list)) => match self.write_fault {
                None => reply is Written,
                Some(fault) => reply == ImportReply::NotWritten(fault),
            },
            None => false,
        }
    }

    /// What comes of writing a list of `total` credentials.
    pub open spec fn written(
        self,
        db_path: PathView,
        path: PathView,
        auth_method: Seq<char>,
        updated: bool,
        total: int,
    ) -> Result<ImportResultView, ImportErrorView> {
        match self.write_fault {
            None => Ok(
                ImportResultView {
                    db_path,
                    credentials_path: path,
                    auth_method,
                    updated_existing: updated,
                    total_credentials: total,
                },
            ),
            Some(fault) => Err(ImportErrorView::WriteFailed(path, fault)),
        }
    }

    /// What comes of putting credentials with this refresh token and way of signing in into the
    /// list.
    pub open spec fn listed(
        self,
        db_path: PathView,
        path: PathView,
        token: Option<Seq<char>>,
        auth_method: Seq<char>,
    ) -> Result<ImportResultView, ImportErrorView> {
        match self.list {
            ListFile::Unreadable => Err(ImportErrorView::ExistingUnreadable(path)),
            ListFile::Missing => self.written(db_path, path, auth_method, false, 1),
            ListFile::Holds(list) => {
                let updated = credentials::has_token(priority::by_priority(list), token);
                let total = if updated {
                    list.len() as int
                } else {
                    (list.len() + 1) as int
                };
                self.written(db_path, path, auth_method, updated, total)
            },
        }
    }

    /// What comes of a load that ended with `found`.
    pub open spec fn imported(
        self,
        found: Result<(PathView, crate::credentials::CredentialView), ImportErrorView>,
        path: PathView,
        replace: bool,
    ) -> Result<ImportResultView, ImportErrorView> {
        match found {
            Err(error) => Err(error),
            Ok((db_path, credential)) => {
                let auth_method = shown_auth_method(credential.auth_method);
                if replace {
                    self.written(db_path, path, auth_method, false, 1)
                } else {
                    self.listed(db_path, path, credential.refresh_token, auth_method)
                }
            },
        }
    }

    /// What the import `import` comes to.
    pub open spec fn outcome(self, import: CredentialImport) -> Result<
        ImportResultView,
        ImportErrorView,
    > {
        let path = import.credentials_path@;
        match import.stage {
            ImportStage::Loading(load) => self.imported(
                self.login.outcome(load@),
                path,
                import.replace,
            ),
            ImportStage::Reading { db_path, credential } => self.listed(
                db_path@,
                path,
                credential@.refresh_token,
                shown_auth_method(credential@.auth_method),
            ),
            ImportStage::Writing { db_path, credentials, auth_method, updated_existing } => {
                self.written(
                    db_path@,
                    path,
                    auth_method@,
                    updated_existing,
                    credentials@.len() as int,
                )
            },
            ImportStage::Done(result) => Ok(result@),
            ImportStage::Failed(error) => Err(error@),
        }
    }
}

impl CredentialImport {
    /// How many requests this import makes at most.
    pub open spec fn steps_left(self) -> int {
        match self.stage {
            ImportStage::Loading(load) => 2 + load@.steps_left(),
            ImportStage::Reading { db_path, credential } => 2,
            ImportStage::Writing { db_path, credentials, auth_method, updated_existing } => 1,
            ImportStage::Done(result) => 0,
            ImportStage::Failed(error) => 0,
        }
    }
}

/// Each reply of the store brings an import nearer to its end and does not change what it comes
/// to: the credentials in the login database go into the list and the result tells where they
/// came from, whether they took the place of older ones and how long the list is; or nothing is
/// imported, for the reason that the result gives.
pub proof fn import_keeps_outcome(
    store: ImportStore,
    import: CredentialImport,
    reply: ImportReply,
    next: CredentialImport,
)
    requires
        import.wf(),
        !import.is_over(),
        store.replies(import, reply),
        import.leads_to(reply, next),
    ensures
        0 <= next.steps_left() < import.steps_left(),
        store.outcome(next) == store.outcome(import),
{
    match import.stage {
        ImportStage::Loading(load) => {
            credential_load::step_keeps_outcome(store.login, load@);
        },
        ImportStage::Reading { db_path, credential } => {
            if let ListFile::Holds(list) = store.list {
                credentials::merged_list_holds_the_credential(list, credential);
            }
        },
        _ => {},
    }
}

/// An import into a list that does not exist yet writes the imported credentials alone, and so
/// does one that replaces the list.
pub proof fn lone_import(store: ImportStore, import: CredentialImport)
    requires
        import.replace || store.list is Missing,
        import.stage is Loading,
    ensures
        store.outcome(import) matches Ok(result) ==> result.total_credentials == 1
            && !result.updated_existing,
{
}

impl ImportStore {
    /// This store after what `import` asks for was done.
    pub open spec fn after(self, import: CredentialImport) -> ImportStore {
        match import.asks() {
            Some(ImportRequestView::WriteCredentials(path, list)) => if self.write_fault is None {
                ImportStore { list: ListFile::Holds(list), ..self }
            } else {
                self
            },
            _ => self,
        }
    }

    /// With `steps` replies of this store `import` comes to `last`, and the store to `end`.
    pub open spec fn runs(
        self,
        import: CredentialImport,
        steps: nat,
        last: CredentialImport,
        end: ImportStore,
    ) -> bool
        decreases steps,
    {
        if steps == 0 {
            import == last && self == end
        } else {
            exists|reply: ImportReply, next: CredentialImport|
                {
                    &&& self.replies(import, reply)
                    &&& #[trigger] import.leads_to(reply, next)
                    &&& self.after(import).runs(next, (steps - 1) as nat, last, end)
                }
        }
    }

    /// The list after an import of `credential`: those credentials alone when they replace the list
    /// or there is none, and else the list with them merged into it.
    pub open spec fn list_with(self, credential: KiroCredentials, replace: bool) -> Seq<
        KiroCredentials,
    > {
        match self.list {
            ListFile::Holds(existing) if !replace => credentials::merged(existing, credential),
            _ => seq![credential],
        }
    }

    /// `credential` is what `import` finds in the login database.
    pub open spec fn finds(self, import: CredentialImport, credential: KiroCredentials) -> bool {
        import.stage matches ImportStage::Loading(load) && (self.login.outcome(load@) matches Ok(
            (db_path, found),
        ) && credential@ == found)
    }

    /// `list` is what `import` writes.
    pub open spec fn writes_list(self, import: CredentialImport, list: Seq<KiroCredentials>) -> bool {
        match import.stage {
            ImportStage::Loading(load) => exists|credential: KiroCredentials|
                #[trigger] self.finds(import, credential) && list == self.list_with(
                    credential,
                    import.replace,
                ),
            ImportStage::Reading { db_path, credential } => list == self.list_with(
                credential,
                false,
            ),
            ImportStage::Writing { db_path, credentials, auth_method, updated_existing } => list
                == credentials@,
            _ => false,
        }
    }
}

/// Each step of an import stays with the list that it writes.
proof fn step_keeps_list(
    store: ImportStore,
    import: CredentialImport,
    reply: ImportReply,
    next: CredentialImport,
    list: Seq<KiroCredentials>,
)
    requires
        import.wf(),
        store.replies(import, reply),
        import.leads_to(reply, next),
        !(import.stage is Writing),
        store.writes_list(next, list),
    ensures
        store.writes_list(import, list),
{
    match import.stage {
        ImportStage::Loading(load) => {
            credential_load::step_keeps_outcome(store.login, load@);
            let after = load@.after(store.login.answer(load@.asks()->0));
            match after.stage {
                LoadStageView::Loaded { credential } => {
                    let loaded = choose|loaded: KiroCredentials|
                        {
                            &&& #[trigger] loaded@ == credential
                            &&& if import.replace {
                                next.writes(after.db_path->0, loaded, seq![loaded], false)
                            } else {
                                next.stage matches ImportStage::Reading {
                                    db_path,
                                    credential: waiting,
                                } && db_path@ == after.db_path->0 && waiting == loaded
                            }
                        };
                    assert(store.finds(import, loaded));
                },
                LoadStageView::Failed { error } => {},
                _ => {
                    let credential = choose|credential: KiroCredentials|
                        #[trigger] store.finds(next, credential) && list == store.list_with(
                            credential,
                            next.replace,
                        );
                    assert(store.finds(import, credential));
                },
            }
        },
        _ => {},
    }
}

/// An import that has come to its end has done what it comes to: on success the file holds the list
/// that the import writes, and on failure it is as before.
proof fn run_ends_well(
    store: ImportStore,
    import: CredentialImport,
    steps: nat,
    last: CredentialImport,
    end: ImportStore,
)
    requires
        import.wf(),
        store.runs(import, steps, last, end),
        last.is_over(),
    ensures
        end.login == store.login,
        end.write_fault == store.write_fault,
        match store.outcome(import) {
            Ok(result) => {
                &&& last.stage matches ImportStage::Done(done) && done@ == result
                &&& !import.is_over() ==> store.write_fault is None && (
                end.list matches ListFile::Holds(list) && store.writes_list(import, list)
                    && result.total_credentials == list.len())
            },
            Err(error) => last.failed_with(error) && end == store,
        },
    decreases steps,
{
    if steps > 0 {
        let (reply, next) = choose|reply: ImportReply, next: CredentialImport|
            {
                &&& store.replies(import, reply)
                &&& #[trigger] import.leads_to(reply, next)
                &&& store.after(import).runs(next, (steps - 1) as nat, last, end)
            };
        assert(!import.is_over());
        import_keeps_outcome(store, import, reply, next);
        let after = store.after(import);
        run_ends_well(after, next, (steps - 1) as nat, last, end);
        if !(import.stage is Writing) {
            assert(after == store);
            if store.outcome(import) is Ok {
                let list = end.list->Holds_0;
                step_keeps_list(store, import, reply, next, list);
            }
        } else {
            let next_steps = (steps - 1) as nat;
            assert(next.is_over());
            assert(next_steps == 0 && end == after && last == next) by {
                if next_steps > 0 {
                    let (r, n) = choose|r: ImportReply, n: CredentialImport|
                        {
                            &&& after.replies(next, r)
                            &&& #[trigger] next.leads_to(r, n)
                            &&& after.after(next).runs(n, (next_steps - 1) as nat, last, end)
                        };
                    assert(after.replies(next, r));
                }
            }
        }
    }
}

/// A whole import ends with the result that the login database, the file and the options call for.
/// When it succeeds, the file holds the imported credentials alone, if they replace the list or
/// there was none, and else the list before with them merged into it. When it fails, the file is
/// as before.
pub proof fn import_writes_the_list(
    store: ImportStore,
    import: CredentialImport,
    steps: nat,
    last: CredentialImport,
    end: ImportStore,
)
    requires
        import.wf(),
        import.stage is Loading,
        store.runs(import, steps, last, end),
        last.is_over(),
    ensures
        match store.outcome(import) {
            Ok(result) => {
                &&& last.stage matches ImportStage::Done(done) && done@ == result
                &&& exists|credential: KiroCredentials|
                    {
                        &&& #[trigger] store.finds(import, credential)
                        &&& end == (ImportStore {
                            list: ListFile::Holds(store.list_with(credential, import.replace)),
                            ..store
                        })
                        &&& result.total_credentials == store.list_with(
                            credential,
                            import.replace,
                        ).len()
                    }
            },
            Err(error) => last.failed_with(error) && end == store,
        },
{
    run_ends_well(store, import, steps, last, end);
    if store.outcome(import) is Ok {
        let list = end.list->Holds_0;
        let credential = choose|credential: KiroCredentials|
            #[trigger] store.finds(import, credential) && list == store.list_with(
                credential,
                import.replace,
            );
        assert(end == (ImportStore {
            list: ListFile::Holds(store.list_with(credential, import.replace)),
            ..store
        }));
    }
}

/// What an import finds carries a refresh token.
proof fn found_credential_has_token(
    store: ImportStore,
    import: CredentialImport,
    credential: KiroCredentials,
)
    requires
        import.wf(),
        store.finds(import, credential),
    ensures
        credential@.refresh_token is Some,
{
}

/// Importing a login a second time, into the list that the first import wrote, updates that list
/// and does not lengthen it.
pub proof fn importing_again_updates(
    store: ImportStore,
    first: CredentialImport,
    steps: nat,
    done: CredentialImport,
    between: ImportStore,
    second: CredentialImport,
    more: nat,
    last: CredentialImport,
    end: ImportStore,
)
    requires
        first.wf(),
        first.stage is Loading,
        store.runs(first, steps, done, between),
        done.stage is Done,
        second.wf(),
        second.stage is Loading,
        second.stage->Loading_0@ == first.stage->Loading_0@,
        !second.replace,
        between.runs(second, more, last, end),
        last.is_over(),
    ensures
        last.stage matches ImportStage::Done(result) && result@.updated_existing
            && result@.total_credentials == done.stage->Done_0@.total_credentials,
        end.list matches ListFile::Holds(list) && (between.list matches ListFile::Holds(before)
            && list.len() == before.len()),
{
    import_writes_the_list(store, first, steps, done, between);
    let credential = choose|credential: KiroCredentials|
        {
            &&& #[trigger] store.finds(first, credential)
            &&& between == (ImportStore {
                list: ListFile::Holds(store.list_with(credential, first.replace)),
                ..store
            })
            &&& done.stage->Done_0@.total_credentials == store.list_with(
                credential,
                first.replace,
            ).len()
        };
    found_credential_has_token(store, first, credential);
    run_ends_well(store, first, steps, done, between);
    let list = store.list_with(credential, first.replace);
    let token = credential@.refresh_token->0;
    let sorted = priority::by_priority(list);
    if let ListFile::Holds(existing) = store.list {
        credentials::merged_list_holds_the_credential(existing, credential);
    }
    assert(seq![credential].contains(credential)) by {
        assert(seq![credential][0] == credential);
    }
    assert(list.contains(credential));
    priority::sorting_keeps_items(list, credential);
    credentials::token_place_is_first(sorted, token);
    let i = choose|i: int| 0 <= i < sorted.len() && sorted[i] == credential;
    assert(sorted[i]@.refresh_token == Some(token));
    assert(credentials::has_token(sorted, Some(token)));
    import_writes_the_list(between, second, more, last, end);
    let again = choose|again: KiroCredentials|
        {
            &&& #[trigger] between.finds(second, again)
            &&& end == (ImportStore {
                list: ListFile::Holds(between.list_with(again, second.replace)),
                ..between
            })
            &&& between.outcome(second)->Ok_0.total_credentials == between.list_with(
                again,
                second.replace,
            ).len()
        };
    credentials::merged_list_holds_the_credential(list, again);
}

// ---------------------------------------------------------------------------
// Step by step
// ---------------------------------------------------------------------------

/// The settings of an import are those of its options, each under its own name.
pub proof fn import_options_give_the_settings(options: ImportKiroCliOptions)
    ensures
        options.settings().priority == options.priority,
        options.settings().region == text::opt_text(options.region),
        options.settings().auth_region == text::opt_text(options.auth_region),
        options.settings().api_region == text::opt_text(options.api_region),
{
}

/// Whatever happens, an import keeps its file and its mode. Loaded credentials are written alone
/// when they replace the list, and wait for the list otherwise; a load that fails fails the import.
pub proof fn loaded_credentials_go_on(
    import: CredentialImport,
    load: CredentialLoad,
    answer: LoadReply,
    next: CredentialImport,
)
    requires
        import.stage == ImportStage::Loading(load),
        import.leads_to(ImportReply::Load(answer), next),
    ensures
        next.credentials_path == import.credentials_path,
        next.replace == import.replace,
        import.asks() == (match load@.asks() {
            Some(request) => Some(ImportRequestView::Load(request)),
            None => None,
        }),
        load@.after(answer@).stage matches LoadStageView::Failed { error } ==> (
        next.stage matches ImportStage::Failed(reason) && reason@ == error),
        load@.after(answer@).stage matches LoadStageView::Loaded { credential } ==> (
        import.replace && load@.after(answer@).db_path is Some ==> (next.stage matches ImportStage::Writing {
            db_path,
            credentials,
            auth_method,
            updated_existing,
        } && Some(db_path@) == load@.after(answer@).db_path && credentials@.len() == 1
            && credentials@[0]@ == credential && auth_method@ == (match credential.auth_method {
            Some(method) => method,
            None => "social"@,
        }) && !updated_existing)),
        load@.after(answer@).stage matches LoadStageView::Loaded { credential } ==> (
        !import.replace && load@.after(answer@).db_path is Some ==> (next.stage matches ImportStage::Reading {
            db_path,
            credential: waiting,
        } && Some(db_path@) == load@.after(answer@).db_path && waiting@ == credential)),
        !load@.after(answer@).is_over() ==> (next.stage matches ImportStage::Loading(rest)
            && rest@ == load@.after(answer@)),
        load@.after(answer@).stage is Loaded && load@.after(answer@).db_path is None ==> (
        next.stage matches ImportStage::Failed(reason) && reason@ == ImportErrorView::NoDatabase),
{
}

/// The list that is read gets the waiting credentials merged into it and is to be written; a missing
/// list is a list of them alone; one that cannot be read fails the import.
pub proof fn list_is_read_and_merged(
    import: CredentialImport,
    db_path: UserPath,
    credential: KiroCredentials,
    reply: ImportReply,
    next: CredentialImport,
)
    requires
        import.stage == (ImportStage::Reading { db_path, credential }),
        import.leads_to(reply, next),
    ensures
        next.credentials_path == import.credentials_path,
        next.replace == import.replace,
        import.asks() == Some(ImportRequestView::ReadCredentials(import.credentials_path@)),
        reply matches ImportReply::Credentials(existing) ==> (next.stage matches ImportStage::Writing {
            db_path: path,
            credentials: list,
            auth_method,
            updated_existing,
        } && path@ == db_path@ && list@ == credentials::merged(existing@, credential)
            && auth_method@ == (match credential.auth_method {
            Some(method) => method@,
            None => "social"@,
        }) && (updated_existing <==> (credential.refresh_token matches Some(token) && exists|i: int|
            0 <= i < existing@.len() && ((#[trigger] existing@[i]).refresh_token matches Some(other)
                && other@ == token@)))),
        reply is NoCredentials ==> (next.stage matches ImportStage::Writing {
            db_path: path,
            credentials: list,
            auth_method,
            updated_existing,
        } && path@ == db_path@ && list@ == seq![credential] && auth_method@ == (
        match credential.auth_method {
            Some(method) => method@,
            None => "social"@,
        }) && !updated_existing),
        reply is Failed ==> (next.stage matches ImportStage::Failed(reason) && reason@
            == ImportErrorView::ExistingUnreadable(import.credentials_path@)),
        (reply is Load || reply is Written || reply is NotWritten) ==> next.stage == import.stage,
{
    if let ImportReply::Credentials(existing) = reply {
        credentials::merging_updates_or_appends(existing@, credential);
    }
}

/// The list that is to be written is what is asked for. Once it is written the import is done and
/// tells the database, the file, the way of signing in, whether credentials were updated and how
/// long the list is; when it is not, the import fails.
pub proof fn list_is_written(
    import: CredentialImport,
    db_path: UserPath,
    list: Vec<KiroCredentials>,
    auth_method: String,
    updated_existing: bool,
    reply: ImportReply,
    next: CredentialImport,
)
    requires
        import.stage == (ImportStage::Writing {
            db_path,
            credentials: list,
            auth_method,
            updated_existing,
        }),
        import.leads_to(reply, next),
    ensures
        next.credentials_path == import.credentials_path,
        next.replace == import.replace,
        import.asks() == Some(
            ImportRequestView::WriteCredentials(import.credentials_path@, list@),
        ),
        reply is Written ==> (next.stage matches ImportStage::Done(result) && result.db_path@
            == db_path@ && result.credentials_path@ == import.credentials_path@
            && result.auth_method@ == auth_method@ && result.updated_existing == updated_existing
            && result.total_credentials == list@.len()),
        reply matches ImportReply::NotWritten(fault) ==> (next.stage matches ImportStage::Failed(
            reason,
        ) && reason@ == ImportErrorView::WriteFailed(import.credentials_path@, fault)),
        (reply is Load || reply is Credentials || reply is NoCredentials || reply is Failed)
            ==> next.stage == import.stage,
{
    if let ImportReply::Written = reply {
        if let ImportStage::Done(result) = next.stage {
            assert(result@.total_credentials == list@.len() as int);
        }
    }
}

/// An import that is over stays as it is.
pub proof fn finished_import_stays(
    import: CredentialImport,
    reply: ImportReply,
    next: CredentialImport,
)
    requires
        import.stage is Done || import.stage is Failed,
        import.leads_to(reply, next),
    ensures
        next.stage == import.stage,
        import.asks() is None,
{
}

/// A whole import from a login into a list succeeds exactly when the login is found, the list can be
/// read where it is needed and the list can be written. It tells the database that was read, the
/// file, how the account signs in, whether some credentials in the list had its refresh token and
/// how long the list is.
pub proof fn import_tells_what_it_did(
    store: ImportStore,
    import: CredentialImport,
    load: CredentialLoad,
)
    requires
        import.stage == ImportStage::Loading(load),
    ensures
        store.outcome(import) is Ok <==> {
            &&& store.login.outcome(load@) is Ok
            &&& import.replace || !(store.list is Unreadable)
            &&& store.write_fault is None
        },
        store.outcome(import) matches Ok(result) ==> (store.login.outcome(load@) matches Ok(
            (db_path, credential),
        ) ==> {
            &&& result.db_path == db_path
            &&& result.credentials_path == import.credentials_path@
            &&& result.auth_method == (match credential.auth_method {
                Some(method) => method,
                None => "social"@,
            })
            &&& result.updated_existing <==> (!import.replace && (
            store.list matches ListFile::Holds(list) && credential.refresh_token is Some
                && exists|i: int|
                0 <= i < list.len() && (#[trigger] list[i])@.refresh_token
                    == credential.refresh_token))
            &&& import.replace || store.list is Missing ==> result.total_credentials == 1
            &&& !import.replace ==> (store.list matches ListFile::Holds(list)
                ==> result.total_credentials == list.len() + (if result.updated_existing {
                0int
            } else {
                1int
            }))
        }),
        store.login.outcome(load@) matches Err(error) ==> store.outcome(import) == Err::<
            ImportResultView,
            ImportErrorView,
        >(error),
{
    if let Ok((db_path, credential)) = store.login.outcome(load@) {
        if let ListFile::Holds(list) = store.list {
            if let Some(token) = credential.refresh_token {
                let sorted = priority::by_priority(list);
                credentials::token_place_is_first(sorted, token);
                if credentials::token_place(sorted, token) < sorted.len() {
                    let item = sorted[credentials::token_place(sorted, token) as int];
                    assert(sorted.contains(item));
                    priority::sorting_keeps_items(list, item);
                    let i = choose|i: int| 0 <= i < list.len() && list[i] == item;
                    assert(list[i]@.refresh_token == Some(token));
                }
                if exists|i: int|
                    0 <= i < list.len() && (#[trigger] list[i])@.refresh_token == Some(token) {
                    let i = choose|i: int|
                        0 <= i < list.len() && (#[trigger] list[i])@.refresh_token == Some(token);
                    assert(list.contains(list[i]));
                    priority::sorting_keeps_items(list, list[i]);
                    let k = choose|k: int| 0 <= k < sorted.len() && sorted[k] == list[i];
                    assert(sorted[k]@.refresh_token == Some(token));
                }
            }
        }
    }
}

// ---------------------------------------------------------------------------
// Messages
// ---------------------------------------------------------------------------

/// The message for `error`; `shown_path` is how the path is shown that the error names.
pub open spec fn import_error_text(error: ImportErrorView, shown_path: Seq<char>) -> Seq<char> {
    match error {
        ImportErrorView::DatabaseMissing(path) => "Kiro CLI SQLite 数据库不存在: "@ + shown_path,
        ImportErrorView::NoDatabase => {
            "未找到 Kiro CLI SQLite 数据库。请先运行 `kiro-cli login`，或通过 `--db` 指定 data.sqlite3 路径"@
        },
        ImportErrorView::OpenFailed(path) => "打开 SQLite 数据库失败: "@ + shown_path,
        ImportErrorView::TableCheckFailed => "检查 auth_kv 表失败"@,
        ImportErrorView::TableMissing => "SQLite 数据库中不存在 auth_kv 表"@,
        ImportErrorView::RowReadFailed => "读取 auth_kv 失败"@,
        ImportErrorView::InvalidJson(key) => "auth_kv["@ + key + "] 不是有效 JSON"@,
        ImportErrorView::NoToken => "auth_kv 中未找到 Kiro CLI token 记录"@,
        ImportErrorView::InvalidToken(key) => "解析 token 记录失败: "@ + key,
        ImportErrorView::RefreshTokenMissing => "Kiro CLI token 记录缺少 refresh_token"@,
        ImportErrorView::ExistingUnreadable(path) => "加载现有凭据失败: "@ + shown_path,
        ImportErrorView::WriteFailed(path, WriteFault::Directory) => {
            "创建凭据目录失败: "@ + shown_path
        },
        ImportErrorView::WriteFailed(path, WriteFault::Encoding) => "序列化凭据失败"@,
        ImportErrorView::WriteFailed(path, WriteFault::File) => {
            "写入凭据文件失败: "@ + shown_path
        },
    }
}

impl ImportError {
    /// The message for this error; `shown_path` is how the path is shown that the error names.
    pub fn message(&self, shown_path: &str) -> (r: String)
        ensures
            r@ == import_error_text(self@, shown_path@),
    {
        match self {
            ImportError::DatabaseMissing(_) => {
                "Kiro CLI SQLite 数据库不存在: ".to_string().concat(shown_path)
            },
            ImportError::NoDatabase => {
                "未找到 Kiro CLI SQLite 数据库。请先运行 `kiro-cli login`，或通过 `--db` 指定 data.sqlite3 路径".to_string()
            },
            ImportError::OpenFailed(_) => "打开 SQLite 数据库失败: ".to_string().concat(shown_path),
            ImportError::TableCheckFailed => "检查 auth_kv 表失败".to_string(),
            ImportError::TableMissing => "SQLite 数据库中不存在 auth_kv 表".to_string(),
            ImportError::RowReadFailed => "读取 auth_kv 失败".to_string(),
            ImportError::InvalidJson(key) => {
                "auth_kv[".to_string().concat(key.as_str()).concat("] 不是有效 JSON")
            },
            ImportError::NoToken => "auth_kv 中未找到 Kiro CLI token 记录".to_string(),
            ImportError::InvalidToken(key) => {
                "解析 token 记录失败: ".to_string().concat(key.as_str())
            },
            ImportError::RefreshTokenMissing => "Kiro CLI token 记录缺少 refresh_token".to_string(),
            ImportError::ExistingUnreadable(_) => "加载现有凭据失败: ".to_string().concat(shown_path),
            ImportError::WriteFailed(_, fault) => match fault {
                WriteFault::Directory => "创建凭据目录失败: ".to_string().concat(shown_path),
                WriteFault::Encoding => "序列化凭据失败".to_string(),
                WriteFault::File => "写入凭据文件失败: ".to_string().concat(shown_path),
            },
        }
    }
}

/// The result of an import is told as it is, and so is what it asks for.
pub proof fn results_are_what_they_hold(
    result: ImportKiroCliResult,
    request: LoadRequest,
    path: UserPath,
    list: Vec<KiroCredentials>,
)
    ensures
        result@.db_path == result.db_path@,
        result@.credentials_path == result.credentials_path@,
        result@.auth_method == result.auth_method@,
        result@.updated_existing == result.updated_existing,
        result@.total_credentials == result.total_credentials,
        ImportRequest::Load(request)@ == ImportRequestView::Load(request@),
        ImportRequest::ReadCredentials(path)@ == ImportRequestView::ReadCredentials(path@),
        ImportRequest::WriteCredentials(path, list)@ == ImportRequestView::WriteCredentials(
            path@,
            list@,
        ),
{
}

/// Each error has a message of its own, with the path or the key where there is one to name.
pub proof fn errors_have_messages(path: PathView, key: Seq<char>, shown: Seq<char>)
    ensures
        import_error_text(ImportErrorView::DatabaseMissing(path), shown)
            == "Kiro CLI SQLite 数据库不存在: "@ + shown,
        import_error_text(ImportErrorView::NoDatabase, shown)
            == "未找到 Kiro CLI SQLite 数据库。请先运行 `kiro-cli login`，或通过 `--db` 指定 data.sqlite3 路径"@,
        import_error_text(ImportErrorView::OpenFailed(path), shown)
            == "打开 SQLite 数据库失败: "@ + shown,
        import_error_text(ImportErrorView::TableCheckFailed, shown) == "检查 auth_kv 表失败"@,
        import_error_text(ImportErrorView::TableMissing, shown)
            == "SQLite 数据库中不存在 auth_kv 表"@,
        import_error_text(ImportErrorView::RowReadFailed, shown) == "读取 auth_kv 失败"@,
        import_error_text(ImportErrorView::InvalidJson(key), shown) == "auth_kv["@ + key
            + "] 不是有效 JSON"@,
        import_error_text(ImportErrorView::NoToken, shown)
            == "auth_kv 中未找到 Kiro CLI token 记录"@,
        import_error_text(ImportErrorView::InvalidToken(key), shown) == "解析 token 记录失败: "@
            + key,
        import_error_text(ImportErrorView::RefreshTokenMissing, shown)
            == "Kiro CLI token 记录缺少 refresh_token"@,
        import_error_text(ImportErrorView::ExistingUnreadable(path), shown)
            == "加载现有凭据失败: "@ + shown,
        import_error_text(ImportErrorView::WriteFailed(path, WriteFault::Directory), shown)
            == "创建凭据目录失败: "@ + shown,
        import_error_text(ImportErrorView::WriteFailed(path, WriteFault::Encoding), shown)
            == "序列化凭据失败"@,
        import_error_text(ImportErrorView::WriteFailed(path, WriteFault::File), shown)
            == "写入凭据文件失败: "@ + shown,
{
}

/// While credentials are loaded, what answers another question changes nothing.
pub proof fn loading_waits_for_its_answer(
    import: CredentialImport,
    reply: ImportReply,
    next: CredentialImport,
)
    requires
        import.stage is Loading,
        !(reply is Load),
        import.leads_to(reply, next),
    ensures
        next.stage == import.stage,
        next.credentials_path == import.credentials_path,
        next.replace == import.replace,
{
}

/// An import is over once it is done or has failed, and not before.
pub proof fn imports_end_in_two_ways(import: CredentialImport)
    ensures
        import.stage is Done ==> import.is_over(),
        import.stage is Failed ==> import.is_over(),
        import.stage is Loading || import.stage is Reading || import.stage is Writing
            ==> !import.is_over(),
{
}

} // verus!
