//! Kiro credentials, and merging one into a list of them.
use crate::priority;
use crate::priority::{sort_by_priority, Prioritized};
use crate::text;
use vstd::prelude::*;

verus! {

/// One account's credentials and settings.
#[derive(Debug, PartialEq, Eq)]
pub struct KiroCredentials {
    pub id: Option<u64>,
    pub access_token: Option<String>,
    pub refresh_token: Option<String>,
    pub profile_arn: Option<String>,
    pub expires_at: Option<String>,
    pub auth_method: Option<String>,
    pub client_id: Option<String>,
    pub client_secret: Option<String>,
    pub priority: u32,
    pub region: Option<String>,
    pub auth_region: Option<String>,
    pub api_region: Option<String>,
    pub machine_id: Option<String>,
    pub email: Option<String>,
    pub account_id_hash: Option<String>,
    pub subscription_title: Option<String>,
    pub proxy_url: Option<String>,
    pub proxy_username: Option<String>,
    pub proxy_password: Option<String>,
    pub disabled: bool,
    pub kiro_api_key: Option<String>,
    pub endpoint: Option<String>,
}

/// The contents of a [`KiroCredentials`].
pub ghost struct CredentialView {
    pub id: Option<u64>,
    pub access_token: Option<Seq<char>>,
    pub refresh_token: Option<Seq<char>>,
    pub profile_arn: Option<Seq<char>>,
    pub expires_at: Option<Seq<char>>,
    pub auth_method: Option<Seq<char>>,
    pub client_id: Option<Seq<char>>,
    pub client_secret: Option<Seq<char>>,
    pub priority: u32,
    pub region: Option<Seq<char>>,
    pub auth_region: Option<Seq<char>>,
    pub api_region: Option<Seq<char>>,
    pub machine_id: Option<Seq<char>>,
    pub email: Option<Seq<char>>,
    pub account_id_hash: Option<Seq<char>>,
    pub subscription_title: Option<Seq<char>>,
    pub proxy_url: Option<Seq<char>>,
    pub proxy_username: Option<Seq<char>>,
    pub proxy_password: Option<Seq<char>>,
    pub disabled: bool,
    pub kiro_api_key: Option<Seq<char>>,
    pub endpoint: Option<Seq<char>>,
}

impl View for KiroCredentials {
    type V = CredentialView;

    open spec fn view(&self) -> CredentialView {
        CredentialView {
            id: self.id,
            access_token: text::opt_text(self.access_token),
            refresh_token: text::opt_text(self.refresh_token),
            profile_arn: text::opt_text(self.profile_arn),
            expires_at: text::opt_text(self.expires_at),
            auth_method: text::opt_text(self.auth_method),
            client_id: text::opt_text(self.client_id),
            client_secret: text::opt_text(self.client_secret),
            priority: self.priority,
            region: text::opt_text(self.region),
            auth_region: text::opt_text(self.auth_region),
            api_region: text::opt_text(self.api_region),
            machine_id: text::opt_text(self.machine_id),
            email: text::opt_text(self.email),
            account_id_hash: text::opt_text(self.account_id_hash),
            subscription_title: text::opt_text(self.subscription_title),
            proxy_url: text::opt_text(self.proxy_url),
            proxy_username: text::opt_text(self.proxy_username),
            proxy_password: text::opt_text(self.proxy_password),
            disabled: self.disabled,
            kiro_api_key: text::opt_text(self.kiro_api_key),
            endpoint: text::opt_text(self.endpoint),
        }
    }
}

/// Credentials in which nothing is filled in.
pub open spec fn blank_credentials() -> CredentialView {
    CredentialView {
        id: None,
        access_token: None,
        refresh_token: None,
        profile_arn: None,
        expires_at: None,
        auth_method: None,
        client_id: None,
        client_secret: None,
        priority: 0,
        region: None,
        auth_region: None,
        api_region: None,
        machine_id: None,
        email: None,
        account_id_hash: None,
        subscription_title: None,
        proxy_url: None,
        proxy_username: None,
        proxy_password: None,
        disabled: false,
        kiro_api_key: None,
        endpoint: None,
    }
}

impl Default for KiroCredentials {
    fn default() -> (r: Self)
        ensures
            r@ == blank_credentials(),
    {
        KiroCredentials {
            id: None,
            access_token: None,
            refresh_token: None,
            profile_arn: None,
            expires_at: None,
            auth_method: None,
            client_id: None,
            client_secret: None,
            priority: 0,
            region: None,
            auth_region: None,
            api_region: None,
            machine_id: None,
            email: None,
            account_id_hash: None,
            subscription_title: None,
            proxy_url: None,
            proxy_username: None,
            proxy_password: None,
            disabled: false,
            kiro_api_key: None,
            endpoint: None,
        }
    }
}

/// Another copy of an optional string.
fn same(value: &Option<String>) -> (r: Option<String>)
    ensures
        r == *value,
{
    match value {
        Some(value) => Some(value.clone()),
        None => None,
    }
}

impl Clone for KiroCredentials {
    fn clone(&self) -> (r: Self)
        ensures
            r == *self,
    {
        KiroCredentials {
            id: self.id,
            access_token: same(&self.access_token),
            refresh_token: same(&self.refresh_token),
            profile_arn: same(&self.profile_arn),
            expires_at: same(&self.expires_at),
            auth_method: same(&self.auth_method),
            client_id: same(&self.client_id),
            client_secret: same(&self.client_secret),
            priority: self.priority,
            region: same(&self.region),
            auth_region: same(&self.auth_region),
            api_region: same(&self.api_region),
            machine_id: same(&self.machine_id),
            email: same(&self.email),
            account_id_hash: same(&self.account_id_hash),
            subscription_title: same(&self.subscription_title),
            proxy_url: same(&self.proxy_url),
            proxy_username: same(&self.proxy_username),
            proxy_password: same(&self.proxy_password),
            disabled: self.disabled,
            kiro_api_key: same(&self.kiro_api_key),
            endpoint: same(&self.endpoint),
        }
    }
}

impl Prioritized for KiroCredentials {
    open spec fn rank(&self) -> u32 {
        self.priority
    }

    fn priority(&self) -> u32 {
        self.priority
    }
}

/// The place of the first credentials in `list` with the refresh token `token`, or its length.
pub open spec fn token_place(list: Seq<KiroCredentials>, token: Seq<char>) -> nat
    decreases list.len(),
{
    if list.len() == 0 || list[0]@.refresh_token == Some(token) {
        0
    } else {
        1 + token_place(list.skip(1), token)
    }
}

/// Credentials in `list` carry the refresh token `token`, when there is one.
pub open spec fn has_token(list: Seq<KiroCredentials>, token: Option<Seq<char>>) -> bool {
    token matches Some(token) && token_place(list, token) < list.len()
}

/// Credentials in `list` carry the refresh token of `credential`.
pub open spec fn is_listed(list: Seq<KiroCredentials>, credential: KiroCredentials) -> bool {
    has_token(list, credential@.refresh_token)
}

/// `list` with `credential` in place of the first one that carries its refresh token, or at the
/// end when there is none.
pub open spec fn placed(list: Seq<KiroCredentials>, credential: KiroCredentials) -> Seq<
    KiroCredentials,
> {
    if is_listed(list, credential) {
        list.update(token_place(list, credential@.refresh_token->0) as int, credential)
    } else {
        list.push(credential)
    }
}

/// `existing` with `credential` merged into it, by priority.
pub open spec fn merged(existing: Seq<KiroCredentials>, credential: KiroCredentials) -> Seq<
    KiroCredentials,
> {
    priority::by_priority(placed(priority::by_priority(existing), credential))
}

/// Puts `credential` into the list `existing`: it takes the place of the first one, by priority,
/// with the same refresh token, and joins the list otherwise. The second result tells whether it
/// took a place. The list comes back sorted by priority.
pub fn merge_credential(existing: Vec<KiroCredentials>, credential: KiroCredentials) -> (r: (
    Vec<KiroCredentials>,
    bool,
))
    ensures
        r.0@ == merged(existing@, credential),
        r.1 == is_listed(priority::by_priority(existing@), credential),
        r.1 <==> (credential.refresh_token matches Some(token) && exists|i: int|
            0 <= i < existing@.len() && ((#[trigger] existing@[i]).refresh_token matches Some(other)
                && other@ == token@)),
        r.0@.len() == existing@.len() + (if r.1 {
            0int
        } else {
            1int
        }),
        r.0@.contains(credential),
{
    proof {
        merging_updates_or_appends(existing@, credential);
        merged_list_holds_the_credential(existing@, credential);
    }
    let mut list = sort_by_priority(existing);
    let ghost sorted = list@;
    let mut updated = false;
    let n = list.len();
    let mut at: usize = n;
    if let Some(token) = &credential.refresh_token {
        at = find_token(&list, token);
    }
    if at < n {
        list.set(at, credential);
        updated = true;
    } else {
        list.push(credential);
    }
    assert(list@ == placed(sorted, credential));
    (sort_by_priority(list), updated)
}

/// The place of the first credentials with the refresh token `token`, or the list's length.
fn find_token(list: &Vec<KiroCredentials>, token: &String) -> (r: usize)
    ensures
        r == token_place(list@, token@),
        r <= list@.len(),
{
    let mut i: usize = 0;
    assert(list@.skip(0) =~= list@);
    while i < list.len()
        invariant
            i <= list@.len(),
            token_place(list@, token@) == i + token_place(list@.skip(i as int), token@),
        decreases list@.len() - i,
    {
        let ghost rest = list@.skip(i as int);
        assert(rest[0] == list@[i as int]);
        assert(rest.skip(1) =~= list@.skip(i + 1));
        if let Some(t) = &list[i].refresh_token {
            if *t == *token {
                return i;
            }
        }
        i = i + 1;
    }
    i
}

/// What `token_place` finds: the first credentials with the token, when some have it.
pub proof fn token_place_is_first(list: Seq<KiroCredentials>, token: Seq<char>)
    ensures
        token_place(list, token) <= list.len(),
        token_place(list, token) < list.len() ==> list[token_place(
            list,
            token,
        ) as int]@.refresh_token == Some(token),
        forall|i: int|
            0 <= i < token_place(list, token) ==> (#[trigger] list[i])@.refresh_token != Some(token),
    decreases list.len(),
{
    if list.len() > 0 && list[0]@.refresh_token != Some(token) {
        let rest = list.skip(1);
        token_place_is_first(rest, token);
        assert forall|i: int| 0 <= i < token_place(list, token) implies (
        #[trigger] list[i])@.refresh_token != Some(token) by {
            if i > 0 {
                assert(rest[i - 1] == list[i]);
            }
        }
    }
}

/// A merged list is in order of priority and holds the credentials that were merged. It is as
/// long as the list before when they took a place in it, and one longer otherwise.
pub proof fn merged_list_holds_the_credential(
    existing: Seq<KiroCredentials>,
    credential: KiroCredentials,
)
    ensures
        priority::in_rank_order(merged(existing, credential)),
        merged(existing, credential).contains(credential),
        merged(existing, credential).len() == existing.len() + (if is_listed(
            priority::by_priority(existing),
            credential,
        ) {
            0int
        } else {
            1int
        }),
{
    let sorted = priority::by_priority(existing);
    let list = placed(sorted, credential);
    priority::by_priority_is_stable(existing);
    priority::by_priority_is_stable(list);
    priority::sorting_keeps_items(list, credential);
    let at = if is_listed(sorted, credential) {
        token_place(sorted, credential@.refresh_token->0) as int
    } else {
        sorted.len() as int
    };
    assert(list[at] == credential);
}

/// Merging leaves every other account's credentials in the list.
pub proof fn merging_keeps_other_accounts(
    existing: Seq<KiroCredentials>,
    credential: KiroCredentials,
    other: KiroCredentials,
)
    requires
        existing.contains(other),
        credential@.refresh_token is None || other@.refresh_token != credential@.refresh_token,
    ensures
        merged(existing, credential).contains(other),
{
    let sorted = priority::by_priority(existing);
    let list = placed(sorted, credential);
    priority::sorting_keeps_items(existing, other);
    priority::sorting_keeps_items(list, other);
    let i = choose|i: int| 0 <= i < sorted.len() && sorted[i] == other;
    if is_listed(sorted, credential) {
        token_place_is_first(sorted, credential@.refresh_token->0);
    }
    assert(list[i] == other);
}

/// Credentials merged a second time, or newer ones with the same refresh token, update the list
/// and do not lengthen it.
pub proof fn merging_again_updates(
    existing: Seq<KiroCredentials>,
    credential: KiroCredentials,
    newer: KiroCredentials,
)
    requires
        credential@.refresh_token is Some,
        newer@.refresh_token == credential@.refresh_token,
    ensures
        is_listed(priority::by_priority(merged(existing, credential)), newer),
        merged(merged(existing, credential), newer).len() == merged(existing, credential).len(),
{
    let list = merged(existing, credential);
    let sorted = priority::by_priority(list);
    merged_list_holds_the_credential(existing, credential);
    merged_list_holds_the_credential(list, newer);
    priority::sorting_keeps_items(list, credential);
    let token = credential@.refresh_token->0;
    token_place_is_first(sorted, token);
    let i = choose|i: int| 0 <= i < sorted.len() && sorted[i] == credential;
    assert(sorted[i]@.refresh_token == Some(token));
}

/// Credentials with the refresh token of `credential` stand in `existing`.
proof fn listed_when_some_item_has_the_token(
    existing: Seq<KiroCredentials>,
    credential: KiroCredentials,
)
    ensures
        is_listed(priority::by_priority(existing), credential) <==> (
        credential.refresh_token matches Some(token) && exists|i: int|
            0 <= i < existing.len() && ((#[trigger] existing[i]).refresh_token matches Some(other)
                && other@ == token@)),
{
    let sorted = priority::by_priority(existing);
    if let Some(token) = credential.refresh_token {
        token_place_is_first(sorted, token@);
        if token_place(sorted, token@) < sorted.len() {
            let item = sorted[token_place(sorted, token@) as int];
            assert(sorted.contains(item));
            priority::sorting_keeps_items(existing, item);
            let i = choose|i: int| 0 <= i < existing.len() && existing[i] == item;
            assert(existing[i].refresh_token matches Some(other) && other@ == token@);
        }
        if exists|i: int|
            0 <= i < existing.len() && ((#[trigger] existing[i]).refresh_token matches Some(other)
                && other@ == token@) {
            let i = choose|i: int|
                0 <= i < existing.len() && ((#[trigger] existing[i]).refresh_token matches Some(
                    other,
                ) && other@ == token@);
            assert(existing.contains(existing[i]));
            priority::sorting_keeps_items(existing, existing[i]);
            let k = choose|k: int| 0 <= k < sorted.len() && sorted[k] == existing[i];
            assert(sorted[k]@.refresh_token == Some(token@));
        }
    }
}

/// A merge updates exactly when some credentials in the list, at whatever place and of whatever
/// priority, carry the refresh token of the new ones. Then the first of these, by priority, give
/// their place to the new ones and the list is as long as before. Otherwise the new ones join the
/// list behind all others. Either way the list comes out in order of priority.
pub proof fn merging_updates_or_appends(
    existing: Seq<KiroCredentials>,
    credential: KiroCredentials,
)
    ensures
        is_listed(priority::by_priority(existing), credential) <==> (
        credential.refresh_token matches Some(token) && exists|i: int|
            0 <= i < existing.len() && ((#[trigger] existing[i]).refresh_token matches Some(other)
                && other@ == token@)),
        is_listed(priority::by_priority(existing), credential) ==> exists|p: int|
            {
                &&& 0 <= p < existing.len()
                &&& (#[trigger] priority::by_priority(existing)[p]).refresh_token matches Some(
                    other,
                ) && other@ == credential.refresh_token->0@
                &&& forall|q: int|
                    0 <= q < p ==> !((#[trigger] priority::by_priority(existing)[q]).refresh_token matches Some(
                        other,
                    ) && other@ == credential.refresh_token->0@)
                &&& merged(existing, credential) == priority::by_priority(
                    priority::by_priority(existing).update(p, credential),
                )
                &&& merged(existing, credential).len() == existing.len()
            },
        !is_listed(priority::by_priority(existing), credential) ==> merged(existing, credential)
            == priority::by_priority(existing.push(credential)) && merged(
            existing,
            credential,
        ).len() == existing.len() + 1,
        forall|i: int, j: int|
            0 <= i <= j < merged(existing, credential).len() ==> (#[trigger] merged(
                existing,
                credential,
            )[i]).priority <= (#[trigger] merged(existing, credential)[j]).priority,
{
    let sorted = priority::by_priority(existing);
    listed_when_some_item_has_the_token(existing, credential);
    merged_list_holds_the_credential(existing, credential);
    priority::by_priority_is_stable(existing);
    assert forall|i: int, j: int|
        0 <= i <= j < merged(existing, credential).len() implies (#[trigger] merged(
        existing,
        credential,
    )[i]).priority <= (#[trigger] merged(existing, credential)[j]).priority by {
        assert(merged(existing, credential)[i].rank() <= merged(existing, credential)[j].rank());
    }
    if is_listed(sorted, credential) {
        let token = credential.refresh_token->0@;
        token_place_is_first(sorted, token);
        let p = token_place(sorted, token) as int;
        assert(sorted[p]@.refresh_token == Some(token));
        assert forall|q: int| 0 <= q < p implies !((#[trigger] sorted[q]).refresh_token matches Some(
            other,
        ) && other@ == token) by {
            assert(sorted[q]@.refresh_token != Some(token));
        }
    } else {
        let a = sorted.push(credential);
        let b = existing.push(credential);
        priority::by_priority_is_stable(a);
        priority::by_priority_is_stable(b);
        reveal(Seq::filter);
        assert forall|rank: u32| #[trigger] priority::of_rank(priority::by_priority(a), rank)
            == priority::of_rank(b, rank) by {
            assert(priority::of_rank(sorted, rank) == priority::of_rank(existing, rank));
            assert(a.drop_last() =~= sorted);
            assert(b.drop_last() =~= existing);
            assert(priority::of_rank(a, rank) == priority::of_rank(b, rank));
        }
        assert(priority::stably_sorted(b, priority::by_priority(a)));
        priority::stable_order_is_unique(b, priority::by_priority(a), priority::by_priority(b));
    }
}

/// The contents of credentials are their fields, and their place in a list goes by the field
/// `priority`.
pub proof fn contents_are_the_fields(c: KiroCredentials)
    ensures
        c@.id == c.id,
        c@.access_token == text::opt_text(c.access_token),
        c@.refresh_token == text::opt_text(c.refresh_token),
        c@.profile_arn == text::opt_text(c.profile_arn),
        c@.expires_at == text::opt_text(c.expires_at),
        c@.auth_method == text::opt_text(c.auth_method),
        c@.client_id == text::opt_text(c.client_id),
        c@.client_secret == text::opt_text(c.client_secret),
        c@.priority == c.priority,
        c@.region == text::opt_text(c.region),
        c@.auth_region == text::opt_text(c.auth_region),
        c@.api_region == text::opt_text(c.api_region),
        c@.machine_id == text::opt_text(c.machine_id),
        c@.email == text::opt_text(c.email),
        c@.account_id_hash == text::opt_text(c.account_id_hash),
        c@.subscription_title == text::opt_text(c.subscription_title),
        c@.proxy_url == text::opt_text(c.proxy_url),
        c@.proxy_username == text::opt_text(c.proxy_username),
        c@.proxy_password == text::opt_text(c.proxy_password),
        c@.disabled == c.disabled,
        c@.kiro_api_key == text::opt_text(c.kiro_api_key),
        c@.endpoint == text::opt_text(c.endpoint),
        c.rank() == c.priority,
{
}

/// Blank credentials have nothing in them; they have the first priority and are switched on.
pub proof fn blank_credentials_are_blank()
    ensures
        blank_credentials().id is None,
        blank_credentials().access_token is None,
        blank_credentials().refresh_token is None,
        blank_credentials().profile_arn is None,
        blank_credentials().expires_at is None,
        blank_credentials().auth_method is None,
        blank_credentials().client_id is None,
        blank_credentials().client_secret is None,
        blank_credentials().region is None,
        blank_credentials().auth_region is None,
        blank_credentials().api_region is None,
        blank_credentials().machine_id is None,
        blank_credentials().email is None,
        blank_credentials().account_id_hash is None,
        blank_credentials().subscription_title is None,
        blank_credentials().proxy_url is None,
        blank_credentials().proxy_username is None,
        blank_credentials().proxy_password is None,
        blank_credentials().kiro_api_key is None,
        blank_credentials().endpoint is None,
        blank_credentials().priority == 0,
        !blank_credentials().disabled,
{
}

} // verus!
