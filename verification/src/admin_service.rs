//! The admin interface: what it decides about requests, and what it remembers between them.
//!
//! The accounts themselves are kept elsewhere. Where a request asks something of them, what came of
//! it is handed in, with the message of the error where it failed.
use crate::admin_error;
use crate::admin_error::{
    classify_add_error, classify_balance_error, classify_delete_error, classify_error,
    AdminErrorView, AdminServiceError,
};
use crate::admin_types::{
    AddCredentialRequest, AddCredentialResponse, CallbackReply, CredentialEntry,
    CredentialSnapshot, CredentialStatusItem, CredentialsStatusResponse,
    KiroCliOAuthCallbackRequest, KiroCliOAuthLoginResponse, LoadBalancingModeResponse,
    SetLoadBalancingModeRequest, SuccessResponse,
};
use crate::balance_cache;
use crate::balance_cache::{BalanceCache, CachedBalance};
use crate::callback;
use crate::callback::normalize_kiro_callback_url;
use crate::credentials::KiroCredentials;
use crate::decimal;
use crate::decimal::u64_text;
use crate::digest;
use crate::digest::opt_sha256_hex;
use crate::endpoints;
use crate::endpoints::EndpointSet;
use crate::oauth_status;
use crate::oauth_status::{push_oauth_output, KiroCliOAuthLoginStatus, StatusView};
use crate::priority;
use crate::priority::{sort_by_priority, Prioritized};
use crate::text;
use crate::text::same_text;
use vstd::prelude::*;
use vstd::string::*;

verus! {

/// What the admin interface remembers. `B` is what is known of a balance.
#[derive(Debug)]
pub struct AdminService<B> {
    /// The endpoints that credentials can be used with.
    pub known_endpoints: EndpointSet,
    /// Balances that were asked for.
    pub balance_cache: BalanceCache<B>,
    /// The login that is running or was the last one.
    pub kiro_cli_oauth: KiroCliOAuthLoginStatus,
}

// ---------------------------------------------------------------------------
// Accounts
// ---------------------------------------------------------------------------

/// What is shown of the account `entry`.
pub open spec fn status_item(
    entry: CredentialEntry,
    current_id: u64,
    default_endpoint: String,
) -> CredentialStatusItem {
    CredentialStatusItem {
        id: entry.id,
        priority: entry.priority,
        disabled: entry.disabled,
        failure_count: entry.failure_count,
        is_current: entry.id == current_id,
        expires_at: entry.expires_at,
        auth_method: entry.auth_method,
        has_profile_arn: entry.has_profile_arn,
        refresh_token_hash: entry.refresh_token_hash,
        api_key_hash: entry.api_key_hash,
        masked_api_key: entry.masked_api_key,
        email: entry.email,
        account_id_hash: entry.account_id_hash,
        success_count: entry.success_count,
        last_used_at: entry.last_used_at,
        has_proxy: entry.has_proxy,
        proxy_url: entry.proxy_url,
        refresh_failure_count: entry.refresh_failure_count,
        disabled_reason: entry.disabled_reason,
        endpoint: match entry.endpoint {
            Some(endpoint) => endpoint,
            None => default_endpoint,
        },
    }
}

/// What is shown of each of the accounts `entries`.
pub open spec fn status_items(
    entries: Seq<CredentialEntry>,
    current_id: u64,
    default_endpoint: String,
) -> Seq<CredentialStatusItem> {
    Seq::new(entries.len(), |i: int| status_item(entries[i], current_id, default_endpoint))
}

/// Finds out what to show of the account `entry`.
fn item_of(entry: CredentialEntry, current_id: u64, default_endpoint: &String) -> (r:
    CredentialStatusItem)
    ensures
        r == status_item(entry, current_id, *default_endpoint),
{
    CredentialStatusItem {
        id: entry.id,
        priority: entry.priority,
        disabled: entry.disabled,
        failure_count: entry.failure_count,
        is_current: entry.id == current_id,
        expires_at: entry.expires_at,
        auth_method: entry.auth_method,
        has_profile_arn: entry.has_profile_arn,
        refresh_token_hash: entry.refresh_token_hash,
        api_key_hash: entry.api_key_hash,
        masked_api_key: entry.masked_api_key,
        email: entry.email,
        account_id_hash: entry.account_id_hash,
        success_count: entry.success_count,
        last_used_at: entry.last_used_at,
        has_proxy: entry.has_proxy,
        proxy_url: entry.proxy_url,
        refresh_failure_count: entry.refresh_failure_count,
        disabled_reason: entry.disabled_reason,
        endpoint: match entry.endpoint {
            Some(endpoint) => endpoint,
            None => default_endpoint.clone(),
        },
    }
}

/// The fingerprint by which `entry` is recognised.
pub open spec fn entry_fingerprint(entry: CredentialEntry, by_api_key: bool) -> Option<Seq<char>> {
    if by_api_key {
        text::opt_text(entry.api_key_hash)
    } else {
        text::opt_text(entry.refresh_token_hash)
    }
}

/// The fingerprint by which `credential` is recognised.
pub open spec fn credential_fingerprint(credential: KiroCredentials, by_api_key: bool) -> Option<
    Seq<char>,
> {
    digest::opt_fingerprint(
        if by_api_key {
            text::opt_text(credential.kiro_api_key)
        } else {
            text::opt_text(credential.refresh_token)
        },
    )
}

/// The id of the first of `entries` with the fingerprint `fingerprint`.
pub open spec fn fingerprint_id(
    entries: Seq<CredentialEntry>,
    by_api_key: bool,
    fingerprint: Seq<char>,
) -> Option<u64>
    decreases entries.len(),
{
    if entries.len() == 0 {
        None
    } else if entry_fingerprint(entries[0], by_api_key) == Some(fingerprint) {
        Some(entries[0].id)
    } else {
        fingerprint_id(entries.skip(1), by_api_key, fingerprint)
    }
}

/// The id of the account among `entries` that `credential` belongs to.
pub open spec fn existing_id(
    entries: Seq<CredentialEntry>,
    credential: KiroCredentials,
    by_api_key: bool,
) -> Option<u64> {
    match credential_fingerprint(credential, by_api_key) {
        Some(fingerprint) => fingerprint_id(entries, by_api_key, fingerprint),
        None => None,
    }
}

/// Finds the first of `entries` with the fingerprint `fingerprint`.
pub fn find_fingerprint(
    entries: &Vec<CredentialEntry>,
    by_api_key: bool,
    fingerprint: &str,
) -> (r: Option<u64>)
    ensures
        r == fingerprint_id(entries@, by_api_key, fingerprint@),
{
    let mut i: usize = 0;
    assert(entries@.skip(0) =~= entries@);
    while i < entries.len()
        invariant
            i <= entries@.len(),
            fingerprint_id(entries@, by_api_key, fingerprint@) == fingerprint_id(
                entries@.skip(i as int),
                by_api_key,
                fingerprint@,
            ),
        decreases entries@.len() - i,
    {
        let ghost rest = entries@.skip(i as int);
        assert(rest[0] == entries@[i as int]);
        assert(rest.skip(1) =~= entries@.skip(i + 1));
        let shown = if by_api_key {
            &entries[i].api_key_hash
        } else {
            &entries[i].refresh_token_hash
        };
        if let Some(shown) = shown {
            if same_text(shown.as_str(), fingerprint) {
                return Some(entries[i].id);
            }
        }
        i = i + 1;
    }
    None
}

/// Finds the account among `entries` that `credential` belongs to, by its API key or by its
/// refresh token.
pub fn find_existing_credential_id(
    entries: &Vec<CredentialEntry>,
    credential: &KiroCredentials,
    by_api_key: bool,
) -> (r: Option<u64>)
    ensures
        r == existing_id(entries@, *credential, by_api_key),
{
    let secret = if by_api_key {
        &credential.kiro_api_key
    } else {
        &credential.refresh_token
    };
    match opt_sha256_hex(secret) {
        Some(fingerprint) => find_fingerprint(entries, by_api_key, fingerprint.as_str()),
        None => None,
    }
}

/// What to do with credentials that a login left behind.
#[derive(Debug, Clone)]
pub enum ImportedCredential {
    /// Nothing: the account with this id has them.
    Known(u64),
    /// Add them.
    New(KiroCredentials),
}

/// Decides what to do with credentials that a login left behind.
pub fn add_imported_credential(
    entries: &Vec<CredentialEntry>,
    credential: KiroCredentials,
    by_api_key: bool,
) -> (r: ImportedCredential)
    ensures
        match r {
            ImportedCredential::Known(id) => existing_id(entries@, credential, by_api_key) == Some(
                id,
            ),
            ImportedCredential::New(new) => existing_id(entries@, credential, by_api_key) is None
                && new == credential,
        },
{
    match find_existing_credential_id(entries, &credential, by_api_key) {
        Some(id) => ImportedCredential::Known(id),
        None => ImportedCredential::New(credential),
    }
}

/// An account is recognised when one of those that are known has its fingerprint, and the first of
/// these is meant.
pub proof fn known_account_is_first(
    entries: Seq<CredentialEntry>,
    by_api_key: bool,
    fingerprint: Seq<char>,
)
    ensures
        match fingerprint_id(entries, by_api_key, fingerprint) {
            Some(id) => exists|i: int|
                {
                    &&& 0 <= i < entries.len()
                    &&& (#[trigger] entries[i]).id == id
                    &&& entry_fingerprint(entries[i], by_api_key) == Some(fingerprint)
                    &&& forall|j: int|
                        0 <= j < i ==> entry_fingerprint(#[trigger] entries[j], by_api_key) != Some(
                            fingerprint,
                        )
                },
            None => forall|j: int|
                0 <= j < entries.len() ==> entry_fingerprint(#[trigger] entries[j], by_api_key)
                    != Some(fingerprint),
        },
    decreases entries.len(),
{
    if entries.len() > 0 && entry_fingerprint(entries[0], by_api_key) != Some(fingerprint) {
        let rest = entries.skip(1);
        known_account_is_first(rest, by_api_key, fingerprint);
        match fingerprint_id(rest, by_api_key, fingerprint) {
            Some(id) => {
                let i = choose|i: int|
                    {
                        &&& 0 <= i < rest.len()
                        &&& (#[trigger] rest[i]).id == id
                        &&& entry_fingerprint(rest[i], by_api_key) == Some(fingerprint)
                        &&& forall|j: int|
                            0 <= j < i ==> entry_fingerprint(#[trigger] rest[j], by_api_key)
                                != Some(fingerprint)
                    };
                assert(entries[i + 1] == rest[i]);
                assert forall|j: int| 0 <= j < i + 1 implies entry_fingerprint(
                    #[trigger] entries[j],
                    by_api_key,
                ) != Some(fingerprint) by {
                    if j > 0 {
                        assert(rest[j - 1] == entries[j]);
                    }
                }
            },
            None => {
                assert forall|j: int| 0 <= j < entries.len() implies entry_fingerprint(
                    #[trigger] entries[j],
                    by_api_key,
                ) != Some(fingerprint) by {
                    if j > 0 {
                        assert(rest[j - 1] == entries[j]);
                    }
                }
            },
        }
    }
}

// ---------------------------------------------------------------------------
// Requests
// ---------------------------------------------------------------------------

/// `credential` is what `request` describes, switched on and not known by any id yet.
pub open spec fn requested_credential(request: AddCredentialRequest) -> KiroCredentials {
    KiroCredentials {
        id: None,
        access_token: None,
        refresh_token: request.refresh_token,
        profile_arn: None,
        expires_at: None,
        auth_method: Some(request.auth_method),
        client_id: request.client_id,
        client_secret: request.client_secret,
        priority: request.priority,
        region: request.region,
        auth_region: request.auth_region,
        api_region: request.api_region,
        machine_id: request.machine_id,
        email: request.email,
        account_id_hash: None,
        subscription_title: None,
        proxy_url: request.proxy_url,
        proxy_username: request.proxy_username,
        proxy_password: request.proxy_password,
        disabled: false,
        kiro_api_key: request.kiro_api_key,
        endpoint: request.endpoint,
    }
}

/// `mode` is a way of spreading requests over the accounts.
pub open spec fn is_mode(mode: Seq<char>) -> bool {
    mode == "priority"@ || mode == "balanced"@
}

/// Tells whether `mode` is a way of spreading requests over the accounts.
pub fn is_load_balancing_mode(mode: &str) -> (r: bool)
    ensures
        r == is_mode(mode@),
{
    same_text(mode, "priority") || same_text(mode, "balanced")
}

/// The state of a login that begins at the time `now`.
pub open spec fn login_started(now: Seq<char>) -> StatusView {
    StatusView {
        running: true,
        phase: "starting"@,
        started_at: Some(now),
        ..oauth_status::no_login()
    }
}

/// The answer to a change of the credentials `id` that came to `outcome`.
pub open spec fn change_answer(outcome: Result<(), String>, id: u64) -> Result<(), AdminErrorView> {
    match outcome {
        Ok(_) => Ok(()),
        Err(message) => Err(admin_error::change_error(message@, id)),
    }
}

/// The contents of an answer.
pub open spec fn answer<T>(r: Result<T, AdminServiceError>) -> Result<T, AdminErrorView> {
    match r {
        Ok(value) => Ok(value),
        Err(error) => Err(error@),
    }
}

/// The answer to a callback that was sent to the local Kiro CLI; nothing when the CLI took it.
pub open spec fn callback_error(reply: CallbackReply) -> Option<AdminErrorView> {
    match reply {
        CallbackReply::NoClient(reason) => Some(AdminErrorView::InternalError(reason@)),
        CallbackReply::NotSent(reason) => Some(
            AdminErrorView::InvalidCredential(
                "提交 OAuth callback 到本机 Kiro CLI 失败: "@ + reason@,
            ),
        ),
        CallbackReply::Answered { success, status, body } => if success {
            None
        } else {
            Some(
                AdminErrorView::InvalidCredential(
                    "Kiro CLI callback 返回失败: "@ + status@ + " "@ + body@,
                ),
            )
        },
    }
}

impl<B> AdminService<B> {
    /// An admin interface for these endpoints that remembers the balances in `saved` as far as
    /// they are still good at the time `now`.
    pub fn new(
        known_endpoints: Vec<String>,
        saved: Vec<(String, CachedBalance<B>)>,
        now: i64,
    ) -> (r: Self)
        ensures
            endpoints::is_sorted_set(text::texts(known_endpoints@), r.known_endpoints@),
            r.balance_cache@ == balance_cache::loaded(balance_cache::keyed(saved@), now),
            r.kiro_cli_oauth@ == oauth_status::no_login(),
    {
        AdminService {
            known_endpoints: EndpointSet::new(known_endpoints),
            balance_cache: BalanceCache::load_balance_cache_from(saved, now),
            kiro_cli_oauth: KiroCliOAuthLoginStatus::default(),
        }
    }

    /// Shows all accounts, by priority. An account without an endpoint of its own uses
    /// `default_endpoint`.
    pub fn get_all_credentials(
        &self,
        snapshot: CredentialSnapshot,
        default_endpoint: String,
    ) -> (r: CredentialsStatusResponse)
        ensures
            r.total == snapshot.total,
            r.available == snapshot.available,
            r.current_id == snapshot.current_id,
            r.credentials@ == priority::by_priority(
                status_items(snapshot.entries@, snapshot.current_id, default_endpoint),
            ),
            priority::stably_sorted(
                status_items(snapshot.entries@, snapshot.current_id, default_endpoint),
                r.credentials@,
            ),
            r.credentials@.len() == snapshot.entries@.len(),
            forall|i: int, j: int|
                0 <= i <= j < r.credentials@.len() ==> (#[trigger] r.credentials@[i]).priority <= (
                #[trigger] r.credentials@[j]).priority,
    {
        let CredentialSnapshot { entries, current_id, total, available } = snapshot;
        let mut items: Vec<CredentialStatusItem> = Vec::new();
        for entry in it: entries
            invariant
                it.seq() == snapshot.entries@,
                items@ =~= status_items(
                    snapshot.entries@,
                    current_id,
                    default_endpoint,
                ).take(it.index() as int),
        {
            items.push(item_of(entry, current_id, &default_endpoint));
        }
        assert(items@ =~= status_items(snapshot.entries@, current_id, default_endpoint));
        proof {
            assert forall|i: int, j: int| 0 <= i <= j < snapshot.entries@.len() implies (
            #[trigger] priority::by_priority(items@)[i]).priority <= (
            #[trigger] priority::by_priority(items@)[j]).priority by {
                smallest_number_is_shown_first(
                    snapshot.entries@,
                    current_id,
                    default_endpoint,
                    i,
                    j,
                );
            }
            shown_accounts_are_known(snapshot.entries@, current_id, default_endpoint);
        }
        CredentialsStatusResponse {
            total,
            available,
            current_id,
            credentials: sort_by_priority(items),
        }
    }

    /// Answers a request to switch the credentials `id` off or on. Success tells whether another
    /// account is to be used from now on: when the one is switched off that was in use.
    pub fn set_disabled(
        &self,
        id: u64,
        disabled: bool,
        current_id: u64,
        outcome: Result<(), String>,
    ) -> (r: Result<bool, AdminServiceError>)
        ensures
            answer(r) == (match change_answer(outcome, id) {
                Ok(_) => Ok(disabled && id == current_id),
                Err(error) => Err(error),
            }),
    {
        match outcome {
            Ok(_) => Ok(disabled && id == current_id),
            Err(message) => Err(classify_error(message, id)),
        }
    }

    /// Answers a request to change the priority of the credentials `id`.
    pub fn set_priority(&self, id: u64, outcome: Result<(), String>) -> (r: Result<
        (),
        AdminServiceError,
    >)
        ensures
            answer(r) == change_answer(outcome, id),
    {
        match outcome {
            Ok(_) => Ok(()),
            Err(message) => Err(classify_error(message, id)),
        }
    }

    /// Answers a request to give the credentials `id` a new start.
    pub fn reset_and_enable(&self, id: u64, outcome: Result<(), String>) -> (r: Result<
        (),
        AdminServiceError,
    >)
        ensures
            answer(r) == change_answer(outcome, id),
    {
        match outcome {
            Ok(_) => Ok(()),
            Err(message) => Err(classify_error(message, id)),
        }
    }

    /// The balance of the credentials `id` that is remembered and still good at the time `now`;
    /// `None` when it has to be asked for.
    pub fn get_balance(&self, id: u64, now: i64) -> (r: Option<&B>)
        ensures
            match r {
                Some(balance) => balance_cache::good_balance(self.balance_cache@, id, now) == Some(
                    *balance,
                ),
                None => balance_cache::good_balance(self.balance_cache@, id, now) is None,
            },
    {
        self.balance_cache.get(id, now)
    }

    /// Answers a request for the balance of the credentials `id` that had to be asked for, and
    /// remembers the balance that came at the time `now`.
    pub fn balance_fetched(
        &mut self,
        id: u64,
        now: i64,
        fetched: Result<B, String>,
    ) -> (r: Result<(), AdminServiceError>)
        ensures
            final(self).known_endpoints == old(self).known_endpoints,
            final(self).kiro_cli_oauth == old(self).kiro_cli_oauth,
            match fetched {
                Ok(balance) => {
                    &&& r is Ok
                    &&& final(self).balance_cache@ == old(self).balance_cache@.insert(
                        id,
                        CachedBalance { cached_at: now, data: balance },
                    )
                },
                Err(message) => {
                    &&& answer(r) == Err::<(), AdminErrorView>(
                        admin_error::balance_error(message@, id),
                    )
                    &&& final(self).balance_cache == old(self).balance_cache
                },
            },
    {
        match fetched {
            Ok(balance) => {
                self.balance_cache.insert(id, now, balance);
                Ok(())
            },
            Err(message) => Err(classify_balance_error(message, id)),
        }
    }

    /// Decides about new credentials: the credentials to be added, or an error when their endpoint
    /// is unknown.
    pub fn add_credential(&self, request: AddCredentialRequest) -> (r: Result<
        KiroCredentials,
        AdminServiceError,
    >)
        ensures
            answer(r) == (match request.endpoint {
                Some(name) if !self.known_endpoints@.contains(name@) => Err(
                    AdminErrorView::InvalidCredential(
                        endpoints::unknown_endpoint_text(
                            name@,
                            endpoints::quoted(self.known_endpoints@),
                        ),
                    ),
                ),
                _ => Ok(requested_credential(request)),
            }),
            r is Ok <==> (request.endpoint is None || self.known_endpoints@.contains(
                request.endpoint->0@,
            )),
            r matches Ok(credential) ==> {
                &&& credential.refresh_token == request.refresh_token
                &&& credential.client_id == request.client_id
                &&& credential.client_secret == request.client_secret
                &&& credential.priority == request.priority
                &&& credential.region == request.region
                &&& credential.auth_region == request.auth_region
                &&& credential.api_region == request.api_region
                &&& credential.machine_id == request.machine_id
                &&& credential.email == request.email
                &&& credential.proxy_url == request.proxy_url
                &&& credential.proxy_username == request.proxy_username
                &&& credential.proxy_password == request.proxy_password
                &&& credential.kiro_api_key == request.kiro_api_key
                &&& credential.endpoint == request.endpoint
                &&& credential.auth_method == Some(request.auth_method)
                &&& credential.id is None
                &&& credential.access_token is None
                &&& credential.profile_arn is None
                &&& credential.expires_at is None
                &&& credential.account_id_hash is None
                &&& credential.subscription_title is None
                &&& !credential.disabled
            },
    {
        if let Some(name) = &request.endpoint {
            if !self.known_endpoints.contains(name.as_str()) {
                return Err(
                    AdminServiceError::InvalidCredential(
                        self.known_endpoints.unknown_endpoint(name.as_str()),
                    ),
                );
            }
        }
        Ok(
            KiroCredentials {
                id: None,
                access_token: None,
                refresh_token: request.refresh_token,
                profile_arn: None,
                expires_at: None,
                auth_method: Some(request.auth_method),
                client_id: request.client_id,
                client_secret: request.client_secret,
                priority: request.priority,
                region: request.region,
                auth_region: request.auth_region,
                api_region: request.api_region,
                machine_id: request.machine_id,
                email: request.email,
                account_id_hash: None,
                subscription_title: None,
                proxy_url: request.proxy_url,
                proxy_username: request.proxy_username,
                proxy_password: request.proxy_password,
                disabled: false,
                kiro_api_key: request.kiro_api_key,
                endpoint: request.endpoint,
            },
        )
    }

    /// Answers a request for new credentials that came to `outcome`: the id that they got, or the
    /// message of the error.
    pub fn credential_added(&self, email: Option<String>, outcome: Result<u64, String>) -> (r: Result<
        AddCredentialResponse,
        AdminServiceError,
    >)
        ensures
            match (outcome, r) {
                (Ok(id), Ok(response)) => {
                    &&& response.success
                    &&& response.message@ == "凭据添加成功，ID: "@ + decimal::decimal(id as nat)
                    &&& response.credential_id == id
                    &&& response.email == email
                },
                (Err(message), Err(error)) => error@ == admin_error::add_error(message@),
                _ => false,
            },
    {
        match outcome {
            Ok(id) => Ok(
                AddCredentialResponse {
                    success: true,
                    message: "凭据添加成功，ID: ".to_string().concat(u64_text(id).as_str()),
                    credential_id: id,
                    email,
                },
            ),
            Err(message) => Err(classify_add_error(message)),
        }
    }

    /// Answers a request to delete the credentials `id`, and forgets their balance once they are
    /// gone.
    pub fn delete_credential(&mut self, id: u64, outcome: Result<(), String>) -> (r: Result<
        (),
        AdminServiceError,
    >)
        ensures
            final(self).known_endpoints == old(self).known_endpoints,
            final(self).kiro_cli_oauth == old(self).kiro_cli_oauth,
            match outcome {
                Ok(_) => {
                    &&& r is Ok
                    &&& final(self).balance_cache@ == old(self).balance_cache@.remove(id)
                },
                Err(message) => {
                    &&& answer(r) == Err::<(), AdminErrorView>(
                        admin_error::delete_error(message@, id),
                    )
                    &&& final(self).balance_cache == old(self).balance_cache
                },
            },
    {
        match outcome {
            Ok(_) => {
                self.balance_cache.remove(id);
                Ok(())
            },
            Err(message) => Err(classify_delete_error(message, id)),
        }
    }

    /// Shows how requests are spread over the accounts.
    pub fn get_load_balancing_mode(&self, mode: String) -> (r: LoadBalancingModeResponse)
        ensures
            r.mode == mode,
    {
        LoadBalancingModeResponse { mode }
    }

    /// Answers a request to spread requests over the accounts in another way. `outcome` tells what
    /// came of it, and is of no account when the way that was asked for is none.
    pub fn set_load_balancing_mode(
        &self,
        request: SetLoadBalancingModeRequest,
        outcome: Result<(), String>,
    ) -> (r: Result<LoadBalancingModeResponse, AdminServiceError>)
        ensures
            match r {
                Ok(response) => is_mode(request.mode@) && outcome is Ok && response.mode
                    == request.mode,
                Err(error) => error@ == (if !is_mode(request.mode@) {
                    AdminErrorView::InvalidCredential("mode 必须是 'priority' 或 'balanced'"@)
                } else {
                    AdminErrorView::InternalError(outcome->Err_0@)
                }) && (is_mode(request.mode@) ==> outcome is Err),
            },
    {
        if !is_load_balancing_mode(request.mode.as_str()) {
            return Err(
                AdminServiceError::InvalidCredential(
                    "mode 必须是 'priority' 或 'balanced'".to_string(),
                ),
            );
        }
        match outcome {
            Ok(_) => Ok(LoadBalancingModeResponse { mode: request.mode }),
            Err(message) => Err(AdminServiceError::InternalError(message)),
        }
    }

    /// Answers a request to log in at the time `now`. One login runs at a time. `missing` tells why
    /// the Kiro CLI was not found, where it was not.
    pub fn start_kiro_cli_oauth_login(&mut self, missing: Option<String>, now: &str) -> (r: Result<
        KiroCliOAuthLoginResponse,
        AdminServiceError,
    >)
        ensures
            final(self).known_endpoints == old(self).known_endpoints,
            final(self).balance_cache == old(self).balance_cache,
            match r {
                Ok(response) => {
                    &&& !old(self).kiro_cli_oauth@.running
                    &&& missing is None
                    &&& final(self).kiro_cli_oauth@ == login_started(now@)
                    &&& response.success
                    &&& response.message@ == "Kiro CLI OAuth 登录已启动"@
                    &&& response.status@ == login_started(now@)
                },
                Err(error) => {
                    &&& final(self).kiro_cli_oauth == old(self).kiro_cli_oauth
                    &&& old(self).kiro_cli_oauth@.running || missing is Some
                    &&& error@ == AdminErrorView::InvalidCredential(
                        if old(self).kiro_cli_oauth@.running {
                            "已有 Kiro CLI OAuth 登录任务正在运行"@
                        } else {
                            "未找到官方 Kiro CLI: "@ + missing->0@
                        },
                    )
                },
            },
    {
        if self.kiro_cli_oauth.running {
            return Err(
                AdminServiceError::InvalidCredential(
                    "已有 Kiro CLI OAuth 登录任务正在运行".to_string(),
                ),
            );
        }
        if let Some(reason) = missing {
            return Err(
                AdminServiceError::InvalidCredential(
                    "未找到官方 Kiro CLI: ".to_string().concat(reason.as_str()),
                ),
            );
        }
        let status = KiroCliOAuthLoginStatus {
            running: true,
            phase: "starting".to_string(),
            started_at: Some(now.to_string()),
            ..KiroCliOAuthLoginStatus::default()
        };
        self.kiro_cli_oauth = status.clone();
        Ok(
            KiroCliOAuthLoginResponse {
                success: true,
                message: "Kiro CLI OAuth 登录已启动".to_string(),
                status,
            },
        )
    }

    /// Shows the state of the login.
    pub fn get_kiro_cli_oauth_status(&self) -> (r: KiroCliOAuthLoginStatus)
        ensures
            r@ == self.kiro_cli_oauth@,
    {
        self.kiro_cli_oauth.clone()
    }

    /// Decides about a callback that a user hands in: the address at which the local Kiro CLI
    /// waits for it, or an error when it is none of its callbacks.
    pub fn accept_kiro_cli_oauth_callback(&self, request: &KiroCliOAuthCallbackRequest) -> (r:
        Result<String, AdminServiceError>)
        ensures
            match r {
                Ok(target) => {
                    &&& callback::callback_target(request.callback_url@) == Ok::<
                        Seq<char>,
                        callback::CallbackErrorView,
                    >(target@)
                    &&& callback::reaches_local_cli(target@)
                },
                Err(error) => callback::callback_target(request.callback_url@) matches Err(reason)
                    && error@ == AdminErrorView::InvalidCredential(
                    callback::callback_error_text(reason),
                ),
            },
    {
        match normalize_kiro_callback_url(request.callback_url.as_str()) {
            Ok(target) => Ok(target),
            Err(error) => Err(AdminServiceError::InvalidCredential(error.message())),
        }
    }

    /// Answers a callback that a user handed in and that was sent to the local Kiro CLI.
    pub fn submit_kiro_cli_oauth_callback(&mut self, reply: CallbackReply) -> (r: Result<
        SuccessResponse,
        AdminServiceError,
    >)
        ensures
            final(self).known_endpoints == old(self).known_endpoints,
            final(self).balance_cache == old(self).balance_cache,
            match r {
                Ok(response) => {
                    &&& callback_error(reply) is None
                    &&& final(self).kiro_cli_oauth@ == old(self).kiro_cli_oauth@.prints(
                        "已提交 OAuth callback 给本机 Kiro CLI"@,
                    )
                    &&& response.success
                    &&& response.message@ == "OAuth callback 已提交"@
                },
                Err(error) => {
                    &&& callback_error(reply) == Some(error@)
                    &&& final(self).kiro_cli_oauth == old(self).kiro_cli_oauth
                },
            },
    {
        match reply {
            CallbackReply::NoClient(reason) => Err(AdminServiceError::InternalError(reason)),
            CallbackReply::NotSent(reason) => Err(
                AdminServiceError::InvalidCredential(
                    "提交 OAuth callback 到本机 Kiro CLI 失败: ".to_string().concat(
                        reason.as_str(),
                    ),
                ),
            ),
            CallbackReply::Answered { success, status, body } => {
                if !success {
                    return Err(
                        AdminServiceError::InvalidCredential(
                            "Kiro CLI callback 返回失败: ".to_string().concat(
                                status.as_str(),
                            ).concat(" ").concat(body.as_str()),
                        ),
                    );
                }
                push_oauth_output(
                    &mut self.kiro_cli_oauth,
                    "已提交 OAuth callback 给本机 Kiro CLI",
                );
                Ok(
                    SuccessResponse {
                        success: true,
                        message: "OAuth callback 已提交".to_string(),
                    },
                )
            },
        }
    }

    /// Answers a request to refresh the access token of the credentials `id`.
    pub fn force_refresh_token(&self, id: u64, outcome: Result<(), String>) -> (r: Result<
        (),
        AdminServiceError,
    >)
        ensures
            answer(r) == (match outcome {
                Ok(_) => Ok(()),
                Err(message) => Err(admin_error::balance_error(message@, id)),
            }),
    {
        match outcome {
            Ok(_) => Ok(()),
            Err(message) => Err(classify_balance_error(message, id)),
        }
    }
}

/// A login that has just started is running, and nothing is known of its end.
pub proof fn started_login_is_running(now: Seq<char>)
    ensures
        login_started(now).wf(),
        login_started(now).running,
        login_started(now).started_at == Some(now),
        login_started(now).finished_at is None,
        login_started(now).error is None,
        login_started(now).imported_credential_id is None,
{
}

/// The accounts that are shown are those that are known, and as many, in order of priority; the
/// mark of being in use is on the account that is in use and on no other.
pub proof fn shown_accounts_are_known(
    entries: Seq<CredentialEntry>,
    current_id: u64,
    default_endpoint: String,
)
    ensures
        ({
            let items = status_items(entries, current_id, default_endpoint);
            let shown = priority::by_priority(items);
            &&& shown.len() == entries.len()
            &&& priority::in_rank_order(shown)
            &&& forall|i: int|
                0 <= i < entries.len() ==> shown.contains(
                    status_item(#[trigger] entries[i], current_id, default_endpoint),
                )
            &&& forall|item: CredentialStatusItem| #[trigger]
                shown.contains(item) ==> items.contains(item) && (item.is_current <==> item.id
                    == current_id)
        }),
{
    let items = status_items(entries, current_id, default_endpoint);
    let shown = priority::by_priority(items);
    priority::by_priority_is_stable(items);
    assert forall|i: int| 0 <= i < entries.len() implies shown.contains(
        status_item(#[trigger] entries[i], current_id, default_endpoint),
    ) by {
        assert(items[i] == status_item(entries[i], current_id, default_endpoint));
        priority::sorting_keeps_items(items, items[i]);
    }
    assert forall|item: CredentialStatusItem| #[trigger] shown.contains(item) implies items.contains(
        item,
    ) && (item.is_current <==> item.id == current_id) by {
        priority::sorting_keeps_items(items, item);
        let k = choose|k: int| 0 <= k < items.len() && items[k] == item;
        assert(items[k] == status_item(entries[k], current_id, default_endpoint));
    }
}

// ---------------------------------------------------------------------------
// Part by part
// ---------------------------------------------------------------------------

/// New credentials have what the request gives, each under its name, and nothing that only a login
/// or the accounts can tell; they are switched on.
pub proof fn new_credentials_are_as_requested(request: AddCredentialRequest)
    ensures
        ({
            let credential = requested_credential(request);
            &&& credential.refresh_token == request.refresh_token
            &&& credential.client_id == request.client_id
            &&& credential.client_secret == request.client_secret
            &&& credential.priority == request.priority
            &&& credential.region == request.region
            &&& credential.auth_region == request.auth_region
            &&& credential.api_region == request.api_region
            &&& credential.machine_id == request.machine_id
            &&& credential.email == request.email
            &&& credential.proxy_url == request.proxy_url
            &&& credential.proxy_username == request.proxy_username
            &&& credential.proxy_password == request.proxy_password
            &&& credential.kiro_api_key == request.kiro_api_key
            &&& credential.endpoint == request.endpoint
            &&& credential.auth_method == Some(request.auth_method)
            &&& credential.id is None
            &&& credential.access_token is None
            &&& credential.profile_arn is None
            &&& credential.expires_at is None
            &&& credential.account_id_hash is None
            &&& credential.subscription_title is None
            &&& !credential.disabled
        }),
{
}

/// What is shown of an account is what is known of it, each under its name. It is in use exactly
/// when its id is the current one, and its endpoint is its own or, for want of one, the default.
pub proof fn account_is_shown_as_known(
    entries: Seq<CredentialEntry>,
    current_id: u64,
    default_endpoint: String,
    i: int,
)
    requires
        0 <= i < entries.len(),
    ensures
        status_items(entries, current_id, default_endpoint).len() == entries.len(),
        ({
            let entry = entries[i];
            let item = status_items(entries, current_id, default_endpoint)[i];
            &&& item.id == entry.id
            &&& item.priority == entry.priority
            &&& item.disabled == entry.disabled
            &&& item.failure_count == entry.failure_count
            &&& item.expires_at == entry.expires_at
            &&& item.auth_method == entry.auth_method
            &&& item.has_profile_arn == entry.has_profile_arn
            &&& item.refresh_token_hash == entry.refresh_token_hash
            &&& item.api_key_hash == entry.api_key_hash
            &&& item.masked_api_key == entry.masked_api_key
            &&& item.email == entry.email
            &&& item.account_id_hash == entry.account_id_hash
            &&& item.success_count == entry.success_count
            &&& item.last_used_at == entry.last_used_at
            &&& item.has_proxy == entry.has_proxy
            &&& item.proxy_url == entry.proxy_url
            &&& item.refresh_failure_count == entry.refresh_failure_count
            &&& item.disabled_reason == entry.disabled_reason
            &&& item.is_current == (entry.id == current_id)
            &&& entry.endpoint is None ==> item.endpoint == default_endpoint
            &&& entry.endpoint matches Some(endpoint) ==> item.endpoint == endpoint
        }),
{
}

/// An account is recognised by the fingerprint of its API key or by that of its refresh token, as
/// is asked, and never by the other.
pub proof fn accounts_are_recognised_by_one_secret(
    entry: CredentialEntry,
    credential: KiroCredentials,
)
    ensures
        entry_fingerprint(entry, true) == text::opt_text(entry.api_key_hash),
        entry_fingerprint(entry, false) == text::opt_text(entry.refresh_token_hash),
        credential.kiro_api_key is None ==> credential_fingerprint(credential, true) is None,
        credential.kiro_api_key matches Some(key) ==> credential_fingerprint(credential, true)
            == Some(digest::fingerprint(key@)),
        credential.refresh_token is None ==> credential_fingerprint(credential, false) is None,
        credential.refresh_token matches Some(token) ==> credential_fingerprint(credential, false)
            == Some(digest::fingerprint(token@)),
{
}

/// Credentials without the secret that is asked for belong to no account. Others belong to the
/// first account that shows the fingerprint of that secret, and to none when no account does.
pub proof fn credentials_belong_to_the_first_match(
    entries: Seq<CredentialEntry>,
    credential: KiroCredentials,
    at: int,
)
    ensures
        credential.kiro_api_key is None ==> existing_id(entries, credential, true) is None,
        credential.refresh_token is None ==> existing_id(entries, credential, false) is None,
        credential.kiro_api_key matches Some(key) ==> ((0 <= at < entries.len() && text::opt_text(
            entries[at].api_key_hash,
        ) == Some(digest::fingerprint(key@)) && forall|j: int|
            0 <= j < at ==> text::opt_text((#[trigger] entries[j]).api_key_hash) != Some(
                digest::fingerprint(key@),
            )) ==> existing_id(entries, credential, true) == Some(entries[at].id)),
        credential.refresh_token matches Some(token) ==> ((0 <= at < entries.len()
            && text::opt_text(entries[at].refresh_token_hash) == Some(digest::fingerprint(token@))
            && forall|j: int|
            0 <= j < at ==> text::opt_text((#[trigger] entries[j]).refresh_token_hash) != Some(
                digest::fingerprint(token@),
            )) ==> existing_id(entries, credential, false) == Some(entries[at].id)),
        credential.kiro_api_key matches Some(key) ==> ((forall|j: int|
            0 <= j < entries.len() ==> text::opt_text((#[trigger] entries[j]).api_key_hash) != Some(
                digest::fingerprint(key@),
            )) ==> existing_id(entries, credential, true) is None),
        credential.refresh_token matches Some(token) ==> ((forall|j: int|
            0 <= j < entries.len() ==> text::opt_text((#[trigger] entries[j]).refresh_token_hash)
                != Some(digest::fingerprint(token@))) ==> existing_id(entries, credential, false)
            is None),
{
    if let Some(key) = credential.kiro_api_key {
        known_account_is_first(entries, true, digest::fingerprint(key@));
    }
    if let Some(token) = credential.refresh_token {
        known_account_is_first(entries, false, digest::fingerprint(token@));
    }
}

/// There are two ways of spreading requests.
pub proof fn modes_are_two(mode: Seq<char>)
    ensures
        is_mode("priority"@),
        is_mode("balanced"@),
        mode != "priority"@ && mode != "balanced"@ ==> !is_mode(mode),
{
}

/// A login starts in its first phase at the time that is given, and with nothing else known.
pub proof fn started_login_has_its_time(now: Seq<char>)
    ensures
        login_started(now).running,
        login_started(now).phase == "starting"@,
        login_started(now).started_at == Some(now),
        login_started(now).finished_at is None,
        login_started(now).exit_code is None,
        login_started(now).login_url is None,
        login_started(now).error is None,
        login_started(now).imported_credential_id is None,
        login_started(now).output.len() == 0,
{
}

/// A change that succeeded is answered so. One that failed is answered by the credentials missing
/// when its message says that, and otherwise by the message as an error of this service.
pub proof fn changes_are_answered(message: String, id: u64)
    ensures
        change_answer(Ok(()), id) is Ok,
        text::has_text(message@, "不存在"@) ==> change_answer(Err(message), id) == Err::<
            (),
            AdminErrorView,
        >(AdminErrorView::NotFound { id }),
        !text::has_text(message@, "不存在"@) ==> change_answer(Err(message), id) == Err::<
            (),
            AdminErrorView,
        >(AdminErrorView::InternalError(message@)),
{
    assert(admin_error::missing_words()[0] == "不存在"@);
}

/// An answer is a success exactly when the result is, with the same value, and an error has the
/// same meaning and text.
pub proof fn answers_are_what_they_hold<T>(value: T, id: u64, said: String)
    ensures
        answer(Ok::<T, AdminServiceError>(value)) == Ok::<T, AdminErrorView>(value),
        answer(Err::<T, AdminServiceError>(AdminServiceError::NotFound { id })) == Err::<
            T,
            AdminErrorView,
        >(AdminErrorView::NotFound { id }),
        answer(Err::<T, AdminServiceError>(AdminServiceError::InvalidCredential(said))) == Err::<
            T,
            AdminErrorView,
        >(AdminErrorView::InvalidCredential(said@)),
        answer(Err::<T, AdminServiceError>(AdminServiceError::InternalError(said))) == Err::<
            T,
            AdminErrorView,
        >(AdminErrorView::InternalError(said@)),
        answer(Err::<T, AdminServiceError>(AdminServiceError::UpstreamError(said))) == Err::<
            T,
            AdminErrorView,
        >(AdminErrorView::UpstreamError(said@)),
{
}

/// A callback that the Kiro CLI took is no error. One that it refused, or that was not sent, is an
/// error of the request that tells the answer or the reason, and one that could not be sent at all
/// an error of this service.
pub proof fn callbacks_are_answered(reason: String, status: String, body: String)
    ensures
        callback_error(CallbackReply::Answered { success: true, status, body }) is None,
        callback_error(CallbackReply::Answered { success: false, status, body }) == Some(
            AdminErrorView::InvalidCredential(
                "Kiro CLI callback 返回失败: "@ + status@ + seq![' '] + body@,
            ),
        ),
        callback_error(CallbackReply::NotSent(reason)) == Some(
            AdminErrorView::InvalidCredential(
                "提交 OAuth callback 到本机 Kiro CLI 失败: "@ + reason@,
            ),
        ),
        callback_error(CallbackReply::NoClient(reason)) == Some(
            AdminErrorView::InternalError(reason@),
        ),
{
    reveal_strlit(" ");
    assert(" "@ =~= seq![' ']);
}

/// Accounts are shown in the order of their priorities, the smallest number first.
pub proof fn smallest_number_is_shown_first(
    entries: Seq<CredentialEntry>,
    current_id: u64,
    default_endpoint: String,
    i: int,
    j: int,
)
    requires
        0 <= i <= j < entries.len(),
    ensures
        ({
            let shown = priority::by_priority(
                status_items(entries, current_id, default_endpoint),
            );
            &&& shown.len() == entries.len()
            &&& shown[i].priority <= shown[j].priority
        }),
{
    let items = status_items(entries, current_id, default_endpoint);
    let shown = priority::by_priority(items);
    priority::by_priority_is_stable(items);
    shown_accounts_are_known(entries, current_id, default_endpoint);
    assert(shown[i].rank() <= shown[j].rank());
}

} // verus!
