//! Credentials as the Kiro CLI and the Amazon Q CLI record them.
use crate::credentials;
use crate::credentials::{CredentialView, KiroCredentials};
use crate::json;
use crate::json::{string_field, JsonRecord};
use crate::text;
use crate::text::non_empty;
use vstd::prelude::*;

verus! {

/// The names under which a record may hold the refresh token, the preferred one first.
pub open spec fn refresh_token_names() -> Seq<Seq<char>> {
    seq!["refresh_token"@, "refreshToken"@]
}

/// The names under which a record may hold the access token.
pub open spec fn access_token_names() -> Seq<Seq<char>> {
    seq!["access_token"@, "accessToken"@]
}

/// The names under which a record may hold the time when the access token expires.
pub open spec fn expires_at_names() -> Seq<Seq<char>> {
    seq!["expires_at"@, "expiresAt"@, "expires"@]
}

/// The names under which a record may hold the profile.
pub open spec fn profile_arn_names() -> Seq<Seq<char>> {
    seq!["profile_arn"@, "profileArn"@]
}

/// The names under which a record may hold the account's mail address.
pub open spec fn email_names() -> Seq<Seq<char>> {
    seq!["email"@, "email_address"@, "emailAddress"@]
}

/// The names under which a record may hold the region.
pub open spec fn region_names() -> Seq<Seq<char>> {
    seq!["region"@, "sso_region"@, "ssoRegion"@]
}

/// The names under which a record may hold the client's id.
pub open spec fn client_id_names() -> Seq<Seq<char>> {
    seq!["client_id"@, "clientId"@]
}

/// The names under which a record may hold the client's secret.
pub open spec fn client_secret_names() -> Seq<Seq<char>> {
    seq!["client_secret"@, "clientSecret"@]
}

/// The credentials that a token record holds; none without a refresh token.
pub open spec fn token_credential(members: Map<Seq<char>, Seq<char>>) -> Option<CredentialView> {
    match json::first_field(members, refresh_token_names()) {
        None => None,
        Some(refresh_token) => Some(
            CredentialView {
                access_token: json::first_field(members, access_token_names()),
                refresh_token: Some(refresh_token),
                profile_arn: json::first_field(members, profile_arn_names()),
                expires_at: json::first_field(members, expires_at_names()),
                email: json::first_field(members, email_names()),
                region: json::first_field(members, region_names()),
                ..credentials::blank_credentials()
            },
        ),
    }
}

/// Takes the credentials out of a token record. `None` without a refresh token.
pub fn credential_from_token_json(record: &JsonRecord) -> (r: Option<KiroCredentials>)
    ensures
        match r {
            Some(credential) => token_credential(record@) == Some(credential@),
            None => token_credential(record@) is None,
        },
{
    let refresh_token = string_field(record, &["refresh_token", "refreshToken"]);
    let access_token = string_field(record, &["access_token", "accessToken"]);
    let expires_at = string_field(record, &["expires_at", "expiresAt", "expires"]);
    let profile_arn = string_field(record, &["profile_arn", "profileArn"]);
    let email = string_field(record, &["email", "email_address", "emailAddress"]);
    let region = string_field(record, &["region", "sso_region", "ssoRegion"]);
    proof {
        let a: [&str; 2] = ["refresh_token", "refreshToken"];
        assert(text::str_texts(a@) =~= refresh_token_names());
        let a: [&str; 2] = ["access_token", "accessToken"];
        assert(text::str_texts(a@) =~= access_token_names());
        let a: [&str; 3] = ["expires_at", "expiresAt", "expires"];
        assert(text::str_texts(a@) =~= expires_at_names());
        let a: [&str; 2] = ["profile_arn", "profileArn"];
        assert(text::str_texts(a@) =~= profile_arn_names());
        let a: [&str; 3] = ["email", "email_address", "emailAddress"];
        assert(text::str_texts(a@) =~= email_names());
        let a: [&str; 3] = ["region", "sso_region", "ssoRegion"];
        assert(text::str_texts(a@) =~= region_names());
    }
    if refresh_token.is_none() {
        return None;
    }
    Some(
        KiroCredentials {
            access_token,
            refresh_token,
            profile_arn,
            expires_at,
            email,
            region,
            ..KiroCredentials::default()
        },
    )
}

/// `credential` with what a device registration record adds: the client's id and secret, and
/// the region where none is known yet.
pub open spec fn registered(
    credential: CredentialView,
    members: Map<Seq<char>, Seq<char>>,
) -> CredentialView {
    CredentialView {
        client_id: json::first_field(members, client_id_names()),
        client_secret: json::first_field(members, client_secret_names()),
        region: if credential.region is None {
            json::first_field(members, region_names())
        } else {
            credential.region
        },
        ..credential
    }
}

/// Adds what a device registration record holds to `credential`.
pub fn apply_device_registration(credential: &mut KiroCredentials, record: &JsonRecord)
    ensures
        final(credential)@ == registered(old(credential)@, record@),
{
    credential.client_id = string_field(record, &["client_id", "clientId"]);
    credential.client_secret = string_field(record, &["client_secret", "clientSecret"]);
    if credential.region.is_none() {
        credential.region = string_field(record, &["region", "sso_region", "ssoRegion"]);
    }
    proof {
        let a: [&str; 2] = ["client_id", "clientId"];
        assert(text::str_texts(a@) =~= client_id_names());
        let a: [&str; 2] = ["client_secret", "clientSecret"];
        assert(text::str_texts(a@) =~= client_secret_names());
        let a: [&str; 3] = ["region", "sso_region", "ssoRegion"];
        assert(text::str_texts(a@) =~= region_names());
    }
}

/// How an account signs in: through the identity center when the client's id and secret are both
/// known, and through a social login otherwise.
pub open spec fn auth_method_of(credential: CredentialView) -> Seq<char> {
    if credential.client_id is Some && credential.client_secret is Some {
        "idc"@
    } else {
        "social"@
    }
}

/// `credential` with its way of signing in.
pub open spec fn with_auth_method(credential: CredentialView) -> CredentialView {
    CredentialView { auth_method: Some(auth_method_of(credential)), ..credential }
}

/// Fills in how the account signs in.
pub fn settle_auth_method(credential: &mut KiroCredentials)
    ensures
        final(credential)@ == with_auth_method(old(credential)@),
{
    if credential.client_id.is_some() && credential.client_secret.is_some() {
        credential.auth_method = Some("idc".to_string());
    } else {
        credential.auth_method = Some("social".to_string());
    }
}

/// Settings that take the place of what a record says.
#[derive(Debug, Clone)]
pub struct Overrides {
    pub priority: Option<u32>,
    pub region: Option<String>,
    pub auth_region: Option<String>,
    pub api_region: Option<String>,
}

/// The contents of [`Overrides`].
pub ghost struct OverridesView {
    pub priority: Option<u32>,
    pub region: Option<Seq<char>>,
    pub auth_region: Option<Seq<char>>,
    pub api_region: Option<Seq<char>>,
}

impl View for Overrides {
    type V = OverridesView;

    open spec fn view(&self) -> OverridesView {
        OverridesView {
            priority: self.priority,
            region: text::opt_text(self.region),
            auth_region: text::opt_text(self.auth_region),
            api_region: text::opt_text(self.api_region),
        }
    }
}

/// `wanted`, trimmed, or `present` where `wanted` is missing or blank.
pub open spec fn overridden(wanted: Option<Seq<char>>, present: Option<Seq<char>>) -> Option<
    Seq<char>,
> {
    match text::opt_non_blank(wanted) {
        Some(value) => Some(value),
        None => present,
    }
}

/// `credential` with the settings that `overrides` gives.
pub open spec fn with_overrides(
    credential: CredentialView,
    overrides: OverridesView,
) -> CredentialView {
    CredentialView {
        priority: match overrides.priority {
            Some(priority) => priority,
            None => credential.priority,
        },
        region: overridden(overrides.region, credential.region),
        auth_region: overridden(overrides.auth_region, credential.auth_region),
        api_region: overridden(overrides.api_region, credential.api_region),
        ..credential
    }
}

/// Puts the settings that `overrides` gives into `credential`.
pub fn apply_overrides(credential: &mut KiroCredentials, overrides: &Overrides)
    ensures
        final(credential)@ == with_overrides(old(credential)@, overrides@),
{
    if let Some(priority) = overrides.priority {
        credential.priority = priority;
    }
    if let Some(region) = non_empty(overrides.region.clone()) {
        credential.region = Some(region);
    }
    if let Some(auth_region) = non_empty(overrides.auth_region.clone()) {
        credential.auth_region = Some(auth_region);
    }
    if let Some(api_region) = non_empty(overrides.api_region.clone()) {
        credential.api_region = Some(api_region);
    }
}

// ---------------------------------------------------------------------------
// The members that are read
// ---------------------------------------------------------------------------

/// Every name under which something is read out of a record.
pub open spec fn record_names() -> Seq<Seq<char>> {
    refresh_token_names() + access_token_names() + expires_at_names() + profile_arn_names()
        + email_names() + region_names() + client_id_names() + client_secret_names()
}

/// Reads the members of a token or registration record. `None` when `record` is not JSON.
pub fn read_token_record(record: &str) -> (r: Option<JsonRecord>)
    ensures
        match r {
            Some(fields) => json::json_document(record@) is Some && fields@ == json::json_document(
                record@,
            )->0.restrict(record_names().to_set()),
            None => json::json_document(record@) is None,
        },
{
    let names: [&str; 19] = [
        "refresh_token",
        "refreshToken",
        "access_token",
        "accessToken",
        "expires_at",
        "expiresAt",
        "expires",
        "profile_arn",
        "profileArn",
        "email",
        "email_address",
        "emailAddress",
        "region",
        "sso_region",
        "ssoRegion",
        "client_id",
        "clientId",
        "client_secret",
        "clientSecret",
    ];
    assert(text::str_texts(names@) =~= record_names());
    json::read_record(record, &names)
}

/// `part` is a stretch of the names that are read.
proof fn part_of_record_names(part: Seq<Seq<char>>, at: int)
    requires
        0 <= at,
        at + part.len() <= record_names().len(),
        record_names().subrange(at, at + part.len()) =~= part,
    ensures
        forall|i: int| 0 <= i < part.len() ==> record_names().to_set().contains(#[trigger] part[i]),
{
    assert forall|i: int| 0 <= i < part.len() implies record_names().to_set().contains(
        #[trigger] part[i],
    ) by {
        assert(record_names().subrange(at, at + part.len())[i] == record_names()[at + i]);
    }
}

/// A record of the members that are read says as much as the whole object it was read from.
pub proof fn record_says_all(members: Map<Seq<char>, Seq<char>>, credential: CredentialView)
    ensures
        token_credential(members.restrict(record_names().to_set())) == token_credential(members),
        registered(credential, members.restrict(record_names().to_set())) == registered(
            credential,
            members,
        ),
{
    let kept = record_names().to_set();
    part_of_record_names(refresh_token_names(), 0);
    json::restricted_field(members, kept, refresh_token_names());
    part_of_record_names(access_token_names(), 2);
    json::restricted_field(members, kept, access_token_names());
    part_of_record_names(expires_at_names(), 4);
    json::restricted_field(members, kept, expires_at_names());
    part_of_record_names(profile_arn_names(), 7);
    json::restricted_field(members, kept, profile_arn_names());
    part_of_record_names(email_names(), 9);
    json::restricted_field(members, kept, email_names());
    part_of_record_names(region_names(), 12);
    json::restricted_field(members, kept, region_names());
    part_of_record_names(client_id_names(), 15);
    json::restricted_field(members, kept, client_id_names());
    part_of_record_names(client_secret_names(), 17);
    json::restricted_field(members, kept, client_secret_names());
}

// ---------------------------------------------------------------------------
// Laws
// ---------------------------------------------------------------------------

/// Of two names the first that is filled counts.
proof fn two_names_in_turn(members: Map<Seq<char>, Seq<char>>, a: Seq<char>, b: Seq<char>)
    ensures
        json::first_field(members, seq![a, b]) == (if members.contains_key(a) && text::trimmed(
            members[a],
        ).len() > 0 {
            Some(text::trimmed(members[a]))
        } else if members.contains_key(b) && text::trimmed(members[b]).len() > 0 {
            Some(text::trimmed(members[b]))
        } else {
            None
        }),
{
    let names = seq![a, b];
    assert(names[0] == a && names[1] == b);
    if members.contains_key(a) && text::trimmed(members[a]).len() > 0 {
        json::first_filled_name_is_found(members, names, 0);
    } else if members.contains_key(b) && text::trimmed(members[b]).len() > 0 {
        json::first_filled_name_is_found(members, names, 1);
    } else {
        json::first_filled_name_is_found(members, names, 2);
    }
}

/// Of three names the first that is filled counts.
proof fn three_names_in_turn(
    members: Map<Seq<char>, Seq<char>>,
    a: Seq<char>,
    b: Seq<char>,
    c: Seq<char>,
)
    ensures
        json::first_field(members, seq![a, b, c]) == (if members.contains_key(a) && text::trimmed(
            members[a],
        ).len() > 0 {
            Some(text::trimmed(members[a]))
        } else if members.contains_key(b) && text::trimmed(members[b]).len() > 0 {
            Some(text::trimmed(members[b]))
        } else if members.contains_key(c) && text::trimmed(members[c]).len() > 0 {
            Some(text::trimmed(members[c]))
        } else {
            None
        }),
{
    let names = seq![a, b, c];
    assert(names[0] == a && names[1] == b && names[2] == c);
    if members.contains_key(a) && text::trimmed(members[a]).len() > 0 {
        json::first_filled_name_is_found(members, names, 0);
    } else if members.contains_key(b) && text::trimmed(members[b]).len() > 0 {
        json::first_filled_name_is_found(members, names, 1);
    } else if members.contains_key(c) && text::trimmed(members[c]).len() > 0 {
        json::first_filled_name_is_found(members, names, 2);
    } else {
        json::first_filled_name_is_found(members, names, 3);
    }
}

/// Each part of the credentials in a token record is the text of its member, trimmed, under the
/// first of its names that is filled. There are credentials exactly when there is a refresh token,
/// and a token record says nothing else.
pub proof fn token_record_gives_its_members(members: Map<Seq<char>, Seq<char>>)
    ensures
        token_credential(members) is Some <==> {
            ||| members.contains_key("refresh_token"@) && text::trimmed(
                members["refresh_token"@],
            ).len() > 0
            ||| members.contains_key("refreshToken"@) && text::trimmed(
                members["refreshToken"@],
            ).len() > 0
        },
        token_credential(members) matches Some(credential) ==> {
            &&& credential.access_token == (if members.contains_key("access_token"@) && text::trimmed(
                members["access_token"@],
            ).len() > 0 {
                Some(text::trimmed(members["access_token"@]))
            } else if members.contains_key("accessToken"@) && text::trimmed(
                members["accessToken"@],
            ).len() > 0 {
                Some(text::trimmed(members["accessToken"@]))
            } else {
                None
            })
            &&& credential.refresh_token == (if members.contains_key("refresh_token"@) && text::trimmed(
                members["refresh_token"@],
            ).len() > 0 {
                Some(text::trimmed(members["refresh_token"@]))
            } else if members.contains_key("refreshToken"@) && text::trimmed(
                members["refreshToken"@],
            ).len() > 0 {
                Some(text::trimmed(members["refreshToken"@]))
            } else {
                None
            })
            &&& credential.profile_arn == (if members.contains_key("profile_arn"@) && text::trimmed(
                members["profile_arn"@],
            ).len() > 0 {
                Some(text::trimmed(members["profile_arn"@]))
            } else if members.contains_key("profileArn"@) && text::trimmed(
                members["profileArn"@],
            ).len() > 0 {
                Some(text::trimmed(members["profileArn"@]))
            } else {
                None
            })
            &&& credential.expires_at == (if members.contains_key("expires_at"@) && text::trimmed(
                members["expires_at"@],
            ).len() > 0 {
                Some(text::trimmed(members["expires_at"@]))
            } else if members.contains_key("expiresAt"@) && text::trimmed(
                members["expiresAt"@],
            ).len() > 0 {
                Some(text::trimmed(members["expiresAt"@]))
            } else if members.contains_key("expires"@) && text::trimmed(
                members["expires"@],
            ).len() > 0 {
                Some(text::trimmed(members["expires"@]))
            } else {
                None
            })
            &&& credential.email == (if members.contains_key("email"@) && text::trimmed(
                members["email"@],
            ).len() > 0 {
                Some(text::trimmed(members["email"@]))
            } else if members.contains_key("email_address"@) && text::trimmed(
                members["email_address"@],
            ).len() > 0 {
                Some(text::trimmed(members["email_address"@]))
            } else if members.contains_key("emailAddress"@) && text::trimmed(
                members["emailAddress"@],
            ).len() > 0 {
                Some(text::trimmed(members["emailAddress"@]))
            } else {
                None
            })
            &&& credential.region == (if members.contains_key("region"@) && text::trimmed(
                members["region"@],
            ).len() > 0 {
                Some(text::trimmed(members["region"@]))
            } else if members.contains_key("sso_region"@) && text::trimmed(
                members["sso_region"@],
            ).len() > 0 {
                Some(text::trimmed(members["sso_region"@]))
            } else if members.contains_key("ssoRegion"@) && text::trimmed(
                members["ssoRegion"@],
            ).len() > 0 {
                Some(text::trimmed(members["ssoRegion"@]))
            } else {
                None
            })
            &&& credential.id is None
            &&& credential.auth_method is None
            &&& credential.client_id is None
            &&& credential.client_secret is None
            &&& credential.auth_region is None
            &&& credential.api_region is None
            &&& credential.machine_id is None
            &&& credential.account_id_hash is None
            &&& credential.subscription_title is None
            &&& credential.proxy_url is None
            &&& credential.proxy_username is None
            &&& credential.proxy_password is None
            &&& credential.kiro_api_key is None
            &&& credential.endpoint is None
            &&& credential.priority == 0
            &&& !credential.disabled
        },
{
    two_names_in_turn(members, "access_token"@, "accessToken"@);
    two_names_in_turn(members, "refresh_token"@, "refreshToken"@);
    two_names_in_turn(members, "profile_arn"@, "profileArn"@);
    three_names_in_turn(members, "expires_at"@, "expiresAt"@, "expires"@);
    three_names_in_turn(members, "email"@, "email_address"@, "emailAddress"@);
    three_names_in_turn(members, "region"@, "sso_region"@, "ssoRegion"@);
}

/// A device registration gives the client's id and secret, each under the first of its names that
/// is filled, and the region where none is known yet; everything else stays.
pub proof fn registration_gives_its_members(
    credential: CredentialView,
    members: Map<Seq<char>, Seq<char>>,
)
    ensures
        registered(credential, members).client_id == (if members.contains_key("client_id"@)
            && text::trimmed(members["client_id"@]).len() > 0 {
                Some(text::trimmed(members["client_id"@]))
            } else if members.contains_key("clientId"@) && text::trimmed(
                members["clientId"@],
            ).len() > 0 {
                Some(text::trimmed(members["clientId"@]))
            } else {
                None
        }),
        registered(credential, members).client_secret == (if members.contains_key("client_secret"@)
            && text::trimmed(members["client_secret"@]).len() > 0 {
                Some(text::trimmed(members["client_secret"@]))
            } else if members.contains_key("clientSecret"@) && text::trimmed(
                members["clientSecret"@],
            ).len() > 0 {
                Some(text::trimmed(members["clientSecret"@]))
            } else {
                None
        }),
        credential.region is Some ==> registered(credential, members).region == credential.region,
        credential.region is None ==> registered(credential, members).region == (if members.contains_key("region"@)
            && text::trimmed(members["region"@]).len() > 0 {
                Some(text::trimmed(members["region"@]))
            } else if members.contains_key("sso_region"@) && text::trimmed(
                members["sso_region"@],
            ).len() > 0 {
                Some(text::trimmed(members["sso_region"@]))
            } else if members.contains_key("ssoRegion"@) && text::trimmed(
                members["ssoRegion"@],
            ).len() > 0 {
                Some(text::trimmed(members["ssoRegion"@]))
            } else {
                None
        }),
        registered(credential, members).id == credential.id,
        registered(credential, members).access_token == credential.access_token,
        registered(credential, members).refresh_token == credential.refresh_token,
        registered(credential, members).profile_arn == credential.profile_arn,
        registered(credential, members).expires_at == credential.expires_at,
        registered(credential, members).auth_method == credential.auth_method,
        registered(credential, members).priority == credential.priority,
        registered(credential, members).auth_region == credential.auth_region,
        registered(credential, members).api_region == credential.api_region,
        registered(credential, members).machine_id == credential.machine_id,
        registered(credential, members).email == credential.email,
        registered(credential, members).account_id_hash == credential.account_id_hash,
        registered(credential, members).subscription_title == credential.subscription_title,
        registered(credential, members).proxy_url == credential.proxy_url,
        registered(credential, members).proxy_username == credential.proxy_username,
        registered(credential, members).proxy_password == credential.proxy_password,
        registered(credential, members).disabled == credential.disabled,
        registered(credential, members).kiro_api_key == credential.kiro_api_key,
        registered(credential, members).endpoint == credential.endpoint,
{
    two_names_in_turn(members, "client_id"@, "clientId"@);
    two_names_in_turn(members, "client_secret"@, "clientSecret"@);
    three_names_in_turn(members, "region"@, "sso_region"@, "ssoRegion"@);
}

/// An account signs in through the identity center exactly when the client's id and secret are both
/// known, and through a social login otherwise; nothing else changes.
pub proof fn client_decides_auth_method(credential: CredentialView)
    ensures
        (credential.client_id is Some && credential.client_secret is Some) ==> with_auth_method(
            credential,
        ).auth_method == Some("idc"@),
        (credential.client_id is None || credential.client_secret is None) ==> with_auth_method(
            credential,
        ).auth_method == Some("social"@),
        with_auth_method(credential).id == credential.id,
        with_auth_method(credential).access_token == credential.access_token,
        with_auth_method(credential).refresh_token == credential.refresh_token,
        with_auth_method(credential).profile_arn == credential.profile_arn,
        with_auth_method(credential).expires_at == credential.expires_at,
        with_auth_method(credential).priority == credential.priority,
        with_auth_method(credential).auth_region == credential.auth_region,
        with_auth_method(credential).api_region == credential.api_region,
        with_auth_method(credential).machine_id == credential.machine_id,
        with_auth_method(credential).email == credential.email,
        with_auth_method(credential).account_id_hash == credential.account_id_hash,
        with_auth_method(credential).subscription_title == credential.subscription_title,
        with_auth_method(credential).proxy_url == credential.proxy_url,
        with_auth_method(credential).proxy_username == credential.proxy_username,
        with_auth_method(credential).proxy_password == credential.proxy_password,
        with_auth_method(credential).disabled == credential.disabled,
        with_auth_method(credential).kiro_api_key == credential.kiro_api_key,
        with_auth_method(credential).endpoint == credential.endpoint,
        with_auth_method(credential).region == credential.region,
        with_auth_method(credential).client_id == credential.client_id,
        with_auth_method(credential).client_secret == credential.client_secret,
{
}

/// A setting that is given, and not blank, takes the place of what was there, trimmed; everything
/// else stays.
pub proof fn given_settings_take_their_place(credential: CredentialView, overrides: OverridesView)
    ensures
        overrides.priority is Some ==> with_overrides(credential, overrides).priority
            == overrides.priority->0,
        overrides.priority is None ==> with_overrides(credential, overrides).priority
            == credential.priority,
        with_overrides(credential, overrides).id == credential.id,
        with_overrides(credential, overrides).access_token == credential.access_token,
        with_overrides(credential, overrides).refresh_token == credential.refresh_token,
        with_overrides(credential, overrides).profile_arn == credential.profile_arn,
        with_overrides(credential, overrides).expires_at == credential.expires_at,
        with_overrides(credential, overrides).auth_method == credential.auth_method,
        with_overrides(credential, overrides).machine_id == credential.machine_id,
        with_overrides(credential, overrides).email == credential.email,
        with_overrides(credential, overrides).account_id_hash == credential.account_id_hash,
        with_overrides(credential, overrides).subscription_title == credential.subscription_title,
        with_overrides(credential, overrides).proxy_url == credential.proxy_url,
        with_overrides(credential, overrides).proxy_username == credential.proxy_username,
        with_overrides(credential, overrides).proxy_password == credential.proxy_password,
        with_overrides(credential, overrides).disabled == credential.disabled,
        with_overrides(credential, overrides).kiro_api_key == credential.kiro_api_key,
        with_overrides(credential, overrides).endpoint == credential.endpoint,
        with_overrides(credential, overrides).client_id == credential.client_id,
        with_overrides(credential, overrides).client_secret == credential.client_secret,
        (overrides.region is Some && text::trimmed(overrides.region->0).len() > 0)
            ==> with_overrides(
            credential,
            overrides,
        ).region == Some(text::trimmed(overrides.region->0)),
        (overrides.region is None || text::trimmed(overrides.region->0).len() == 0)
            ==> with_overrides(
            credential,
            overrides,
        ).region == credential.region,
        (overrides.auth_region is Some && text::trimmed(overrides.auth_region->0).len() > 0)
            ==> with_overrides(
            credential,
            overrides,
        ).auth_region == Some(text::trimmed(overrides.auth_region->0)),
        (overrides.auth_region is None || text::trimmed(overrides.auth_region->0).len() == 0)
            ==> with_overrides(
            credential,
            overrides,
        ).auth_region == credential.auth_region,
        (overrides.api_region is Some && text::trimmed(overrides.api_region->0).len() > 0)
            ==> with_overrides(
            credential,
            overrides,
        ).api_region == Some(text::trimmed(overrides.api_region->0)),
        (overrides.api_region is None || text::trimmed(overrides.api_region->0).len() == 0)
            ==> with_overrides(
            credential,
            overrides,
        ).api_region == credential.api_region,
{
}

/// The settings that take the place of others are a priority and three regions.
pub proof fn settings_are_four(overrides: Overrides)
    ensures
        overrides@.priority == overrides.priority,
        overrides@.region == text::opt_text(overrides.region),
        overrides@.auth_region == text::opt_text(overrides.auth_region),
        overrides@.api_region == text::opt_text(overrides.api_region),
{
}

} // verus!
