//! Requests to the admin interface and its answers.
use crate::oauth_status::KiroCliOAuthLoginStatus;
use crate::priority::Prioritized;
use vstd::prelude::*;

verus! {

/// What is known of one account.
#[derive(Debug, Clone)]
pub struct CredentialEntry {
    pub id: u64,
    pub priority: u32,
    pub disabled: bool,
    pub failure_count: u32,
    pub expires_at: Option<String>,
    pub auth_method: Option<String>,
    pub has_profile_arn: bool,
    pub refresh_token_hash: Option<String>,
    pub api_key_hash: Option<String>,
    pub masked_api_key: Option<String>,
    pub email: Option<String>,
    pub account_id_hash: Option<String>,
    pub success_count: u64,
    pub last_used_at: Option<String>,
    pub has_proxy: bool,
    pub proxy_url: Option<String>,
    pub refresh_failure_count: u32,
    pub disabled_reason: Option<String>,
    pub endpoint: Option<String>,
}

/// What is known of all accounts.
#[derive(Debug, Clone)]
pub struct CredentialSnapshot {
    pub entries: Vec<CredentialEntry>,
    pub current_id: u64,
    pub total: usize,
    pub available: usize,
}

/// What the admin interface shows of one account.
#[derive(Debug, Clone)]
pub struct CredentialStatusItem {
    pub id: u64,
    pub priority: u32,
    pub disabled: bool,
    pub failure_count: u32,
    pub is_current: bool,
    pub expires_at: Option<String>,
    pub auth_method: Option<String>,
    pub has_profile_arn: bool,
    pub refresh_token_hash: Option<String>,
    pub api_key_hash: Option<String>,
    pub masked_api_key: Option<String>,
    pub email: Option<String>,
    pub account_id_hash: Option<String>,
    pub success_count: u64,
    pub last_used_at: Option<String>,
    pub has_proxy: bool,
    pub proxy_url: Option<String>,
    pub refresh_failure_count: u32,
    pub disabled_reason: Option<String>,
    pub endpoint: String,
}

impl Prioritized for CredentialStatusItem {
    open spec fn rank(&self) -> u32 {
        self.priority
    }

    fn priority(&self) -> u32 {
        self.priority
    }
}

/// What the admin interface shows of all accounts.
#[derive(Debug, Clone)]
pub struct CredentialsStatusResponse {
    pub total: usize,
    pub available: usize,
    pub current_id: u64,
    pub credentials: Vec<CredentialStatusItem>,
}

/// New credentials.
#[derive(Debug, Clone)]
pub struct AddCredentialRequest {
    pub refresh_token: Option<String>,
    pub auth_method: String,
    pub client_id: Option<String>,
    pub client_secret: Option<String>,
    pub priority: u32,
    pub region: Option<String>,
    pub auth_region: Option<String>,
    pub api_region: Option<String>,
    pub machine_id: Option<String>,
    pub email: Option<String>,
    pub proxy_url: Option<String>,
    pub proxy_username: Option<String>,
    pub proxy_password: Option<String>,
    pub kiro_api_key: Option<String>,
    pub endpoint: Option<String>,
}

/// The answer to new credentials that were accepted.
#[derive(Debug, Clone)]
pub struct AddCredentialResponse {
    pub success: bool,
    pub message: String,
    pub credential_id: u64,
    pub email: Option<String>,
}

/// How requests are to be spread over the accounts.
#[derive(Debug, Clone)]
pub struct SetLoadBalancingModeRequest {
    pub mode: String,
}

/// How requests are spread over the accounts.
#[derive(Debug, Clone)]
pub struct LoadBalancingModeResponse {
    pub mode: String,
}

/// The answer to a login that has begun.
#[derive(Debug, Clone)]
pub struct KiroCliOAuthLoginResponse {
    pub success: bool,
    pub message: String,
    pub status: KiroCliOAuthLoginStatus,
}

/// A callback that a user hands in.
#[derive(Debug, Clone)]
pub struct KiroCliOAuthCallbackRequest {
    pub callback_url: String,
}

/// What came of sending a callback to the local Kiro CLI.
#[derive(Debug, Clone)]
pub enum CallbackReply {
    /// Nothing could be sent, for this reason.
    NoClient(String),
    /// It was not sent, for this reason.
    NotSent(String),
    /// The Kiro CLI answered with this status and body.
    Answered { success: bool, status: String, body: String },
}

/// The answer to a request that succeeded.
#[derive(Debug, Clone)]
pub struct SuccessResponse {
    pub success: bool,
    pub message: String,
}

} // verus!
