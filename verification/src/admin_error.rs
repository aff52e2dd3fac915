//! What the admin interface answers when something goes wrong.
use crate::text;
use crate::text::{chars_contain, chars_of};
use vstd::prelude::*;

verus! {

/// The answer to a request that failed.
#[derive(Debug, Clone, PartialEq, Eq)]
pub enum AdminServiceError {
    /// There are no credentials with this id.
    NotFound { id: u64 },
    /// The request is at fault.
    InvalidCredential(String),
    /// Something went wrong here.
    InternalError(String),
    /// Something went wrong at the service behind this one.
    UpstreamError(String),
}

/// The contents of an [`AdminServiceError`].
pub ghost enum AdminErrorView {
    NotFound { id: u64 },
    InvalidCredential(Seq<char>),
    InternalError(Seq<char>),
    UpstreamError(Seq<char>),
}

impl View for AdminServiceError {
    type V = AdminErrorView;

    open spec fn view(&self) -> AdminErrorView {
        match self {
            AdminServiceError::NotFound { id } => AdminErrorView::NotFound { id: *id },
            AdminServiceError::InvalidCredential(message) => {
                AdminErrorView::InvalidCredential(message@)
            },
            AdminServiceError::InternalError(message) => AdminErrorView::InternalError(message@),
            AdminServiceError::UpstreamError(message) => AdminErrorView::UpstreamError(message@),
        }
    }
}

/// One of `needles` stands in `message`.
pub open spec fn has_any(message: Seq<char>, needles: Seq<Seq<char>>) -> bool {
    exists|i: int| 0 <= i < needles.len() && text::has_text(message, #[trigger] needles[i])
}

/// Tells whether one of `needles` stands in `message`.
fn contains_any(message: &str, needles: &[&str]) -> (r: bool)
    ensures
        r == has_any(message@, text::str_texts(needles@)),
{
    let hay = chars_of(message);
    let mut i: usize = 0;
    while i < needles.len()
        invariant
            i <= needles@.len(),
            hay@ == message@,
            forall|j: int|
                0 <= j < i ==> !text::has_text(
                    message@,
                    #[trigger] text::str_texts(needles@)[j],
                ),
        decreases needles@.len() - i,
    {
        assert(text::str_texts(needles@)[i as int] == needles@[i as int]@);
        if chars_contain(&hay, &chars_of(needles[i])) {
            return true;
        }
        i = i + 1;
    }
    false
}

/// What a message says when there are no credentials with the id that was given.
pub open spec fn missing_words() -> Seq<Seq<char>> {
    seq!["不存在"@]
}

/// What a message says when credentials cannot be refreshed.
pub open spec fn not_refreshable_words() -> Seq<Seq<char>> {
    seq!["API Key 凭据不支持刷新"@]
}

/// What a message says when the service behind this one is at fault.
pub open spec fn upstream_words() -> Seq<Seq<char>> {
    seq![
        "凭证已过期或无效"@,
        "权限不足"@,
        "已被限流"@,
        "服务器错误"@,
        "Token 刷新失败"@,
        "暂时不可用"@,
        "error trying to connect"@,
        "connection"@,
        "timeout"@,
        "timed out"@,
    ]
}

/// What a message says when new credentials are at fault.
pub open spec fn refused_words() -> Seq<Seq<char>> {
    seq![
        "缺少 refreshToken"@,
        "refreshToken 为空"@,
        "refreshToken 已被截断"@,
        "凭据已存在"@,
        "refreshToken 重复"@,
        "kiroApiKey 重复"@,
        "缺少 kiroApiKey"@,
        "kiroApiKey 为空"@,
        "凭证已过期或无效"@,
        "权限不足"@,
        "已被限流"@,
    ]
}

/// What a message says when the service behind this one was not reached.
pub open spec fn unreachable_words() -> Seq<Seq<char>> {
    seq!["error trying to connect"@, "connection"@, "timeout"@]
}

/// What a message says when credentials are still in use.
pub open spec fn in_use_words() -> Seq<Seq<char>> {
    seq!["只能删除已禁用的凭据"@, "请先禁用凭据"@]
}

/// Tells whether `message` says that there are no credentials with the id that was given.
fn says_missing(message: &str) -> (r: bool)
    ensures
        r == has_any(message@, missing_words()),
{
    let needles: [&str; 1] = ["不存在"];
    assert(text::str_texts(needles@) =~= missing_words());
    contains_any(message, &needles)
}

/// The answer to a change that failed with the message `message`.
pub open spec fn change_error(message: Seq<char>, id: u64) -> AdminErrorView {
    if has_any(message, missing_words()) {
        AdminErrorView::NotFound { id }
    } else {
        AdminErrorView::InternalError(message)
    }
}

/// Answers a change that failed with the message `message`.
pub fn classify_error(message: String, id: u64) -> (r: AdminServiceError)
    ensures
        r@ == change_error(message@, id),
{
    if says_missing(message.as_str()) {
        AdminServiceError::NotFound { id }
    } else {
        AdminServiceError::InternalError(message)
    }
}

/// The answer to a question to the service behind this one that failed with the message
/// `message`.
pub open spec fn balance_error(message: Seq<char>, id: u64) -> AdminErrorView {
    if has_any(message, missing_words()) {
        AdminErrorView::NotFound { id }
    } else if has_any(message, not_refreshable_words()) {
        AdminErrorView::InvalidCredential(message)
    } else if has_any(message, upstream_words()) {
        AdminErrorView::UpstreamError(message)
    } else {
        AdminErrorView::InternalError(message)
    }
}

/// Answers a question to the service behind this one that failed with the message `message`.
pub fn classify_balance_error(message: String, id: u64) -> (r: AdminServiceError)
    ensures
        r@ == balance_error(message@, id),
{
    if says_missing(message.as_str()) {
        return AdminServiceError::NotFound { id };
    }
    let not_refreshable: [&str; 1] = ["API Key 凭据不支持刷新"];
    assert(text::str_texts(not_refreshable@) =~= not_refreshable_words());
    if contains_any(message.as_str(), &not_refreshable) {
        return AdminServiceError::InvalidCredential(message);
    }
    let upstream: [&str; 10] = [
        "凭证已过期或无效",
        "权限不足",
        "已被限流",
        "服务器错误",
        "Token 刷新失败",
        "暂时不可用",
        "error trying to connect",
        "connection",
        "timeout",
        "timed out",
    ];
    assert(text::str_texts(upstream@) =~= upstream_words());
    if contains_any(message.as_str(), &upstream) {
        AdminServiceError::UpstreamError(message)
    } else {
        AdminServiceError::InternalError(message)
    }
}

/// The answer to new credentials that were refused with the message `message`.
pub open spec fn add_error(message: Seq<char>) -> AdminErrorView {
    if has_any(message, refused_words()) {
        AdminErrorView::InvalidCredential(message)
    } else if has_any(message, unreachable_words()) {
        AdminErrorView::UpstreamError(message)
    } else {
        AdminErrorView::InternalError(message)
    }
}

/// Answers new credentials that were refused with the message `message`.
pub fn classify_add_error(message: String) -> (r: AdminServiceError)
    ensures
        r@ == add_error(message@),
{
    let refused: [&str; 11] = [
        "缺少 refreshToken",
        "refreshToken 为空",
        "refreshToken 已被截断",
        "凭据已存在",
        "refreshToken 重复",
        "kiroApiKey 重复",
        "缺少 kiroApiKey",
        "kiroApiKey 为空",
        "凭证已过期或无效",
        "权限不足",
        "已被限流",
    ];
    assert(text::str_texts(refused@) =~= refused_words());
    if contains_any(message.as_str(), &refused) {
        return AdminServiceError::InvalidCredential(message);
    }
    let unreachable: [&str; 3] = ["error trying to connect", "connection", "timeout"];
    assert(text::str_texts(unreachable@) =~= unreachable_words());
    if contains_any(message.as_str(), &unreachable) {
        AdminServiceError::UpstreamError(message)
    } else {
        AdminServiceError::InternalError(message)
    }
}

/// The answer to a deletion that failed with the message `message`.
pub open spec fn delete_error(message: Seq<char>, id: u64) -> AdminErrorView {
    if has_any(message, missing_words()) {
        AdminErrorView::NotFound { id }
    } else if has_any(message, in_use_words()) {
        AdminErrorView::InvalidCredential(message)
    } else {
        AdminErrorView::InternalError(message)
    }
}

/// Answers a deletion that failed with the message `message`.
pub fn classify_delete_error(message: String, id: u64) -> (r: AdminServiceError)
    ensures
        r@ == delete_error(message@, id),
{
    if says_missing(message.as_str()) {
        return AdminServiceError::NotFound { id };
    }
    let in_use: [&str; 2] = ["只能删除已禁用的凭据", "请先禁用凭据"];
    assert(text::str_texts(in_use@) =~= in_use_words());
    if contains_any(message.as_str(), &in_use) {
        AdminServiceError::InvalidCredential(message)
    } else {
        AdminServiceError::InternalError(message)
    }
}

/// `error` carries the message `message`, or says that there are no credentials with the id `id`.
pub open spec fn answers_for(error: AdminErrorView, message: Seq<char>, id: u64) -> bool {
    match error {
        AdminErrorView::NotFound { id: missing } => missing == id,
        AdminErrorView::InvalidCredential(said) => said == message,
        AdminErrorView::InternalError(said) => said == message,
        AdminErrorView::UpstreamError(said) => said == message,
    }
}

/// No answer loses the message or names other credentials, and where credentials are missing the
/// answer is the same whatever was asked of them.
pub proof fn errors_answer_the_request(message: Seq<char>, id: u64)
    ensures
        answers_for(change_error(message, id), message, id),
        answers_for(balance_error(message, id), message, id),
        answers_for(delete_error(message, id), message, id),
        answers_for(add_error(message), message, id),
        !(add_error(message) is NotFound),
        change_error(message, id) is NotFound <==> has_any(message, missing_words()),
        balance_error(message, id) is NotFound <==> has_any(message, missing_words()),
        delete_error(message, id) is NotFound <==> has_any(message, missing_words()),
{
}

/// New credentials are blamed for a message that is blamed on the service behind this one when it
/// is asked: an expired token, missing rights or too many requests.
pub proof fn refused_words_blame_the_credentials(message: Seq<char>)
    requires
        text::has_text(message, "凭证已过期或无效"@) || text::has_text(message, "权限不足"@)
            || text::has_text(message, "已被限流"@),
    ensures
        add_error(message) == AdminErrorView::InvalidCredential(message),
        forall|id: u64|
            !has_any(message, missing_words()) && !has_any(message, not_refreshable_words())
                ==> #[trigger] balance_error(message, id) == AdminErrorView::UpstreamError(message),
{
    assert(refused_words()[8] == "凭证已过期或无效"@);
    assert(refused_words()[9] == "权限不足"@);
    assert(refused_words()[10] == "已被限流"@);
    assert(upstream_words()[0] == "凭证已过期或无效"@);
    assert(upstream_words()[1] == "权限不足"@);
    assert(upstream_words()[2] == "已被限流"@);
}

// ---------------------------------------------------------------------------
// Word by word
// ---------------------------------------------------------------------------

/// Credentials are missing when a message says this.
pub proof fn missing_is_said(message: Seq<char>)
    ensures
        has_any(message, missing_words()) <==> (text::has_text(message, "不存在"@)),
{
    assert(missing_words()[0] == "不存在"@);
    if has_any(message, missing_words()) {
        let i = choose|i: int|
            0 <= i < missing_words().len() && text::has_text(message, #[trigger] missing_words()[i]);
        assert(0 <= i < 1);
    }
}

/// Credentials cannot be refreshed when a message says this.
pub proof fn not_refreshable_is_said(message: Seq<char>)
    ensures
        has_any(message, not_refreshable_words()) <==> (text::has_text(message, "API Key 凭据不支持刷新"@)),
{
    assert(not_refreshable_words()[0] == "API Key 凭据不支持刷新"@);
    if has_any(message, not_refreshable_words()) {
        let i = choose|i: int|
            0 <= i < not_refreshable_words().len() && text::has_text(message, #[trigger] not_refreshable_words()[i]);
        assert(0 <= i < 1);
    }
}

/// The service behind this one is at fault when a message says one of these.
pub proof fn upstream_fault_is_said(message: Seq<char>)
    ensures
        has_any(message, upstream_words()) <==> (text::has_text(message, "凭证已过期或无效"@)
            || text::has_text(message, "权限不足"@)
            || text::has_text(message, "已被限流"@)
            || text::has_text(message, "服务器错误"@)
            || text::has_text(message, "Token 刷新失败"@)
            || text::has_text(message, "暂时不可用"@)
            || text::has_text(message, "error trying to connect"@)
            || text::has_text(message, "connection"@)
            || text::has_text(message, "timeout"@)
            || text::has_text(message, "timed out"@)),
{
    assert(upstream_words()[0] == "凭证已过期或无效"@);
    assert(upstream_words()[1] == "权限不足"@);
    assert(upstream_words()[2] == "已被限流"@);
    assert(upstream_words()[3] == "服务器错误"@);
    assert(upstream_words()[4] == "Token 刷新失败"@);
    assert(upstream_words()[5] == "暂时不可用"@);
    assert(upstream_words()[6] == "error trying to connect"@);
    assert(upstream_words()[7] == "connection"@);
    assert(upstream_words()[8] == "timeout"@);
    assert(upstream_words()[9] == "timed out"@);
    if has_any(message, upstream_words()) {
        let i = choose|i: int|
            0 <= i < upstream_words().len() && text::has_text(message, #[trigger] upstream_words()[i]);
        assert(0 <= i < 10);
    }
}

/// New credentials are at fault when a message says one of these.
pub proof fn refusal_is_said(message: Seq<char>)
    ensures
        has_any(message, refused_words()) <==> (text::has_text(message, "缺少 refreshToken"@)
            || text::has_text(message, "refreshToken 为空"@)
            || text::has_text(message, "refreshToken 已被截断"@)
            || text::has_text(message, "凭据已存在"@)
            || text::has_text(message, "refreshToken 重复"@)
            || text::has_text(message, "kiroApiKey 重复"@)
            || text::has_text(message, "缺少 kiroApiKey"@)
            || text::has_text(message, "kiroApiKey 为空"@)
            || text::has_text(message, "凭证已过期或无效"@)
            || text::has_text(message, "权限不足"@)
            || text::has_text(message, "已被限流"@)),
{
    assert(refused_words()[0] == "缺少 refreshToken"@);
    assert(refused_words()[1] == "refreshToken 为空"@);
    assert(refused_words()[2] == "refreshToken 已被截断"@);
    assert(refused_words()[3] == "凭据已存在"@);
    assert(refused_words()[4] == "refreshToken 重复"@);
    assert(refused_words()[5] == "kiroApiKey 重复"@);
    assert(refused_words()[6] == "缺少 kiroApiKey"@);
    assert(refused_words()[7] == "kiroApiKey 为空"@);
    assert(refused_words()[8] == "凭证已过期或无效"@);
    assert(refused_words()[9] == "权限不足"@);
    assert(refused_words()[10] == "已被限流"@);
    if has_any(message, refused_words()) {
        let i = choose|i: int|
            0 <= i < refused_words().len() && text::has_text(message, #[trigger] refused_words()[i]);
        assert(0 <= i < 11);
    }
}

/// The service behind this one was not reached when a message says one of these.
pub proof fn unreachable_is_said(message: Seq<char>)
    ensures
        has_any(message, unreachable_words()) <==> (text::has_text(message, "error trying to connect"@)
            || text::has_text(message, "connection"@)
            || text::has_text(message, "timeout"@)),
{
    assert(unreachable_words()[0] == "error trying to connect"@);
    assert(unreachable_words()[1] == "connection"@);
    assert(unreachable_words()[2] == "timeout"@);
    if has_any(message, unreachable_words()) {
        let i = choose|i: int|
            0 <= i < unreachable_words().len() && text::has_text(message, #[trigger] unreachable_words()[i]);
        assert(0 <= i < 3);
    }
}

/// Credentials are in use when a message says one of these.
pub proof fn use_is_said(message: Seq<char>)
    ensures
        has_any(message, in_use_words()) <==> (text::has_text(message, "只能删除已禁用的凭据"@)
            || text::has_text(message, "请先禁用凭据"@)),
{
    assert(in_use_words()[0] == "只能删除已禁用的凭据"@);
    assert(in_use_words()[1] == "请先禁用凭据"@);
    if has_any(message, in_use_words()) {
        let i = choose|i: int|
            0 <= i < in_use_words().len() && text::has_text(message, #[trigger] in_use_words()[i]);
        assert(0 <= i < 2);
    }
}

/// What was asked for and what the message says decide the answer: missing credentials come first,
/// then the request, then the service behind this one, and what is left is blamed on this one.
pub proof fn answers_follow_the_message(message: Seq<char>, id: u64)
    ensures
        ({
            let missing = text::has_text(message, "不存在"@);
            let fixed = text::has_text(message, "API Key 凭据不支持刷新"@);
            let upstream = text::has_text(message, "凭证已过期或无效"@)
                || text::has_text(message, "权限不足"@)
                || text::has_text(message, "已被限流"@)
                || text::has_text(message, "服务器错误"@)
                || text::has_text(message, "Token 刷新失败"@)
                || text::has_text(message, "暂时不可用"@)
                || text::has_text(message, "error trying to connect"@)
                || text::has_text(message, "connection"@)
                || text::has_text(message, "timeout"@)
                || text::has_text(message, "timed out"@);
            let refused = text::has_text(message, "缺少 refreshToken"@)
                || text::has_text(message, "refreshToken 为空"@)
                || text::has_text(message, "refreshToken 已被截断"@)
                || text::has_text(message, "凭据已存在"@)
                || text::has_text(message, "refreshToken 重复"@)
                || text::has_text(message, "kiroApiKey 重复"@)
                || text::has_text(message, "缺少 kiroApiKey"@)
                || text::has_text(message, "kiroApiKey 为空"@)
                || text::has_text(message, "凭证已过期或无效"@)
                || text::has_text(message, "权限不足"@)
                || text::has_text(message, "已被限流"@);
            let unreachable = text::has_text(message, "error trying to connect"@)
                || text::has_text(message, "connection"@)
                || text::has_text(message, "timeout"@);
            let in_use = text::has_text(message, "只能删除已禁用的凭据"@)
                || text::has_text(message, "请先禁用凭据"@);
            &&& missing ==> change_error(message, id) == (AdminErrorView::NotFound { id })
            &&& !missing ==> change_error(message, id) == AdminErrorView::InternalError(message)
            &&& missing ==> balance_error(message, id) == (AdminErrorView::NotFound { id })
            &&& !missing && fixed ==> balance_error(message, id)
                == AdminErrorView::InvalidCredential(message)
            &&& !missing && !fixed && upstream ==> balance_error(message, id)
                == AdminErrorView::UpstreamError(message)
            &&& !missing && !fixed && !upstream ==> balance_error(message, id)
                == AdminErrorView::InternalError(message)
            &&& refused ==> add_error(message) == AdminErrorView::InvalidCredential(message)
            &&& !refused && unreachable ==> add_error(message) == AdminErrorView::UpstreamError(
                message,
            )
            &&& !refused && !unreachable ==> add_error(message) == AdminErrorView::InternalError(
                message,
            )
            &&& missing ==> delete_error(message, id) == (AdminErrorView::NotFound { id })
            &&& !missing && in_use ==> delete_error(message, id)
                == AdminErrorView::InvalidCredential(message)
            &&& !missing && !in_use ==> delete_error(message, id) == AdminErrorView::InternalError(
                message,
            )
        }),
{
    missing_is_said(message);
    not_refreshable_is_said(message);
    upstream_fault_is_said(message);
    refusal_is_said(message);
    unreachable_is_said(message);
    use_is_said(message);
}

} // verus!
