//! The state of a login through the official Kiro CLI.
use crate::decimal;
use crate::decimal::u64_text;
use crate::redaction;
use crate::redaction::redact_oauth_output;
use crate::text;
use crate::text::{chars_contain, chars_of};
use vstd::prelude::*;
use vstd::string::*;

verus! {

/// The state of a login.
#[derive(Debug, PartialEq, Eq)]
pub struct KiroCliOAuthLoginStatus {
    pub running: bool,
    pub phase: String,
    pub started_at: Option<String>,
    pub finished_at: Option<String>,
    pub login_url: Option<String>,
    pub exit_code: Option<i32>,
    pub error: Option<String>,
    pub imported_credential_id: Option<u64>,
    /// The most recent lines of output, in which nothing secret is left.
    pub output: Vec<String>,
}

/// The contents of a [`KiroCliOAuthLoginStatus`].
pub ghost struct StatusView {
    pub running: bool,
    pub phase: Seq<char>,
    pub started_at: Option<Seq<char>>,
    pub finished_at: Option<Seq<char>>,
    pub login_url: Option<Seq<char>>,
    pub exit_code: Option<i32>,
    pub error: Option<Seq<char>>,
    pub imported_credential_id: Option<u64>,
    pub output: Seq<Seq<char>>,
}

impl View for KiroCliOAuthLoginStatus {
    type V = StatusView;

    open spec fn view(&self) -> StatusView {
        StatusView {
            running: self.running,
            phase: self.phase@,
            started_at: text::opt_text(self.started_at),
            finished_at: text::opt_text(self.finished_at),
            login_url: text::opt_text(self.login_url),
            exit_code: self.exit_code,
            error: text::opt_text(self.error),
            imported_credential_id: self.imported_credential_id,
            output: text::texts(self.output@),
        }
    }
}

/// The state before any login.
pub open spec fn no_login() -> StatusView {
    StatusView {
        running: false,
        phase: seq![],
        started_at: None,
        finished_at: None,
        login_url: None,
        exit_code: None,
        error: None,
        imported_credential_id: None,
        output: seq![],
    }
}

impl Default for KiroCliOAuthLoginStatus {
    fn default() -> (r: Self)
        ensures
            r@ == no_login(),
    {
        let r = KiroCliOAuthLoginStatus {
            running: false,
            phase: String::new(),
            started_at: None,
            finished_at: None,
            login_url: None,
            exit_code: None,
            error: None,
            imported_credential_id: None,
            output: Vec::new(),
        };
        assert(r@.output =~= seq![]);
        r
    }
}

impl Clone for KiroCliOAuthLoginStatus {
    fn clone(&self) -> (r: Self)
        ensures
            r@ == self@,
    {
        let output = self.output.clone();
        assert(text::texts(output@) =~= text::texts(self.output@));
        KiroCliOAuthLoginStatus {
            running: self.running,
            phase: self.phase.clone(),
            started_at: self.started_at.clone(),
            finished_at: self.finished_at.clone(),
            login_url: self.login_url.clone(),
            exit_code: self.exit_code,
            error: self.error.clone(),
            imported_credential_id: self.imported_credential_id,
            output,
        }
    }
}

/// How many lines of output are kept.
pub const MAX_OUTPUT_LINES: usize = 200;

/// The most recent of `lines`, as many as are kept.
pub open spec fn recent(lines: Seq<Seq<char>>) -> Seq<Seq<char>> {
    if lines.len() > MAX_OUTPUT_LINES {
        lines.skip(lines.len() - MAX_OUTPUT_LINES)
    } else {
        lines
    }
}

/// `output` after the line `line`.
pub open spec fn with_line(output: Seq<Seq<char>>, line: Seq<char>) -> Seq<Seq<char>> {
    recent(output.push(redaction::redacted(line)))
}

/// `output` after each of `lines`.
pub open spec fn with_lines(output: Seq<Seq<char>>, lines: Seq<Seq<char>>) -> Seq<Seq<char>>
    decreases lines.len(),
{
    if lines.len() == 0 {
        output
    } else {
        with_line(with_lines(output, lines.drop_last()), lines.last())
    }
}

impl StatusView {
    /// This state after the line of output `line`.
    pub open spec fn prints(self, line: Seq<char>) -> StatusView {
        StatusView { output: with_line(self.output, line), ..self }
    }

    /// This state after each of the lines of output `lines`.
    pub open spec fn prints_all(self, lines: Seq<Seq<char>>) -> StatusView {
        StatusView { output: with_lines(self.output, lines), ..self }
    }

    /// This state in the phase `phase`.
    pub open spec fn enters(self, phase: Seq<char>) -> StatusView {
        StatusView { phase, ..self }
    }

    /// What every state of a login keeps: no more lines than are kept, and none that shows a
    /// secret.
    pub open spec fn wf(self) -> bool {
        &&& self.output.len() <= MAX_OUTPUT_LINES
        &&& forall|i: int|
            0 <= i < self.output.len() ==> redaction::redacted(#[trigger] self.output[i])
                == self.output[i]
    }
}

/// Adds a line of output, redacted, and lets go of the oldest lines beyond those that are kept.
pub fn push_oauth_output(status: &mut KiroCliOAuthLoginStatus, line: &str)
    ensures
        final(status)@ == old(status)@.prints(line@),
{
    let shown = redact_oauth_output(line);
    let ghost before = text::texts(status.output@);
    status.output.push(shown);
    assert(text::texts(status.output@) =~= before.push(shown@));
    if status.output.len() > MAX_OUTPUT_LINES {
        let overflow = status.output.len() - MAX_OUTPUT_LINES;
        let ghost all = status.output@;
        status.output = status.output.split_off(overflow);
        assert(text::texts(status.output@) =~= text::texts(all).skip(overflow as int));
    }
}

/// Adds each of `lines` to the output.
pub fn push_oauth_lines(status: &mut KiroCliOAuthLoginStatus, lines: &Vec<&str>)
    ensures
        final(status)@ == old(status)@.prints_all(text::str_texts(lines@)),
{
    let ghost all = text::str_texts(lines@);
    let ghost start = status@;
    let mut i: usize = 0;
    assert(all.take(0) =~= seq![]);
    while i < lines.len()
        invariant
            i <= lines@.len(),
            all == text::str_texts(lines@),
            status@ == start.prints_all(all.take(i as int)),
        decreases lines@.len() - i,
    {
        push_oauth_output(status, lines[i]);
        assert(all.take(i + 1).drop_last() =~= all.take(i as int));
        assert(all.take(i + 1).last() == lines@[i as int]@);
        i = i + 1;
    }
    assert(all.take(lines@.len() as int) =~= all);
}

/// Tells whether a line of output holds `needle`.
pub fn oauth_output_contains(status: &KiroCliOAuthLoginStatus, needle: &str) -> (r: bool)
    ensures
        r == (exists|i: int|
            0 <= i < status@.output.len() && text::has_text(
                #[trigger] status@.output[i],
                needle@,
            )),
{
    let sought = chars_of(needle);
    let mut i: usize = 0;
    while i < status.output.len()
        invariant
            i <= status.output@.len(),
            sought@ == needle@,
            forall|j: int|
                0 <= j < i ==> !text::has_text(#[trigger] status@.output[j], needle@),
        decreases status.output@.len() - i,
    {
        assert(status@.output[i as int] == status.output@[i as int]@);
        if chars_contain(&chars_of(status.output[i].as_str()), &sought) {
            return true;
        }
        i = i + 1;
    }
    false
}

/// `status` at the end of a login.
pub open spec fn finished(
    status: StatusView,
    phase: Seq<char>,
    exit_code: Option<i32>,
    error: Option<Seq<char>>,
    imported_credential_id: Option<u64>,
    now: Seq<char>,
) -> StatusView {
    let over = StatusView {
        running: false,
        phase,
        finished_at: Some(now),
        exit_code,
        error,
        imported_credential_id,
        ..status
    };
    match imported_credential_id {
        Some(id) => over.prints("凭据已导入，ID: "@ + decimal::decimal(id as nat)),
        None => over,
    }
}

/// Ends a login at the time `now`.
pub fn finish_oauth_status(
    status: &mut KiroCliOAuthLoginStatus,
    phase: &str,
    exit_code: Option<i32>,
    error: Option<String>,
    imported_credential_id: Option<u64>,
    now: &str,
)
    ensures
        final(status)@ == finished(
            old(status)@,
            phase@,
            exit_code,
            text::opt_text(error),
            imported_credential_id,
            now@,
        ),
{
    status.running = false;
    status.phase = phase.to_string();
    status.finished_at = Some(now.to_string());
    status.exit_code = exit_code;
    status.error = error;
    status.imported_credential_id = imported_credential_id;
    if let Some(id) = imported_credential_id {
        let line = "凭据已导入，ID: ".to_string().concat(u64_text(id).as_str());
        push_oauth_output(status, line.as_str());
    }
}

/// Output that was within bounds and free of secrets stays so.
pub proof fn output_stays_bounded_and_redacted(status: StatusView, line: Seq<char>)
    requires
        status.wf(),
    ensures
        status.prints(line).wf(),
{
    redaction::redacting_again_changes_nothing(line);
    let next = status.prints(line);
    let all = status.output.push(redaction::redacted(line));
    assert forall|i: int| 0 <= i < next.output.len() implies redaction::redacted(
        #[trigger] next.output[i],
    ) == next.output[i] by {
        let k = if all.len() > MAX_OUTPUT_LINES {
            i + (all.len() - MAX_OUTPUT_LINES)
        } else {
            i
        };
        assert(next.output[i] == all[k]);
        if k < status.output.len() {
            assert(all[k] == status.output[k]);
        }
    }
}

/// Output that was within bounds and free of secrets stays so, however many lines follow.
pub proof fn lines_stay_bounded_and_redacted(status: StatusView, lines: Seq<Seq<char>>)
    requires
        status.wf(),
    ensures
        status.prints_all(lines).wf(),
    decreases lines.len(),
{
    if lines.len() > 0 {
        lines_stay_bounded_and_redacted(status, lines.drop_last());
        output_stays_bounded_and_redacted(status.prints_all(lines.drop_last()), lines.last());
    }
}

/// A line that was just printed is the last one.
pub proof fn printed_line_is_last(status: StatusView, line: Seq<char>)
    ensures
        status.prints(line).output.len() > 0,
        status.prints(line).output.last() == redaction::redacted(line),
{
}

// ---------------------------------------------------------------------------
// Part by part
// ---------------------------------------------------------------------------

/// A line of output is added behind those before, redacted; where there are 200 or more, the last
/// 199 of them stay. Nothing else changes.
pub proof fn printed_line_joins_the_output(status: StatusView, line: Seq<char>)
    ensures
        status.output.len() < 200 ==> status.prints(line).output == status.output.push(
            redaction::redacted(line),
        ),
        status.output.len() >= 200 ==> status.prints(line).output == status.output.skip(
            status.output.len() - 199,
        ).push(redaction::redacted(line)),
        status.prints(line).running == status.running,
        status.prints(line).phase == status.phase,
        status.prints(line).started_at == status.started_at,
        status.prints(line).finished_at == status.finished_at,
        status.prints(line).login_url == status.login_url,
        status.prints(line).exit_code == status.exit_code,
        status.prints(line).error == status.error,
        status.prints(line).imported_credential_id == status.imported_credential_id,
        status.prints_all(seq![]) == status,
        status.prints_all(seq![line]) == status.prints(line),
{
    if status.output.len() >= 200 {
        assert(status.prints(line).output =~= status.output.skip(status.output.len() - 199).push(
            redaction::redacted(line),
        ));
    }
    assert(seq![line].drop_last() =~= seq![]);
    reveal_with_fuel(with_lines, 2);
}

/// Lines of output are added one after the other.
pub proof fn printed_lines_join_one_by_one(
    status: StatusView,
    lines: Seq<Seq<char>>,
    line: Seq<char>,
)
    ensures
        status.prints_all(lines.push(line)) == status.prints_all(lines).prints(line),
{
    assert(lines.push(line).drop_last() =~= lines);
}

/// Entering a phase changes the phase alone.
pub proof fn entering_changes_the_phase(status: StatusView, phase: Seq<char>)
    ensures
        status.enters(phase).phase == phase,
        status.enters(phase).running == status.running,
        status.enters(phase).started_at == status.started_at,
        status.enters(phase).finished_at == status.finished_at,
        status.enters(phase).login_url == status.login_url,
        status.enters(phase).exit_code == status.exit_code,
        status.enters(phase).error == status.error,
        status.enters(phase).imported_credential_id == status.imported_credential_id,
        status.enters(phase).output == status.output,
{
}

/// Before any login nothing is running and nothing is known.
pub proof fn nothing_is_known_before_a_login()
    ensures
        !no_login().running,
        no_login().phase.len() == 0,
        no_login().started_at is None,
        no_login().finished_at is None,
        no_login().login_url is None,
        no_login().exit_code is None,
        no_login().error is None,
        no_login().imported_credential_id is None,
        no_login().output.len() == 0,
{
}

/// The end of a login tells its phase, its time, how the Kiro CLI ended, the error and the id, and
/// says the id in the output; when it began and the page stay.
pub proof fn end_of_a_login_tells_all(
    status: StatusView,
    phase: Seq<char>,
    exit_code: Option<i32>,
    error: Option<Seq<char>>,
    id: Option<u64>,
    now: Seq<char>,
)
    ensures
        ({
            let over = finished(status, phase, exit_code, error, id, now);
            &&& !over.running
            &&& over.phase == phase
            &&& over.started_at == status.started_at
            &&& over.finished_at == Some(now)
            &&& over.login_url == status.login_url
            &&& over.exit_code == exit_code
            &&& over.error == error
            &&& over.imported_credential_id == id
            &&& id is None ==> over.output == status.output
            &&& id is Some ==> over.output == status.prints(
                "凭据已导入，ID: "@ + decimal::decimal(id->0 as nat),
            ).output
        }),
{
}

/// The contents of a status are its fields.
pub proof fn status_contents_are_the_fields(s: KiroCliOAuthLoginStatus)
    ensures
        s@.running == s.running,
        s@.phase == s.phase@,
        s@.started_at == text::opt_text(s.started_at),
        s@.finished_at == text::opt_text(s.finished_at),
        s@.login_url == text::opt_text(s.login_url),
        s@.exit_code == s.exit_code,
        s@.error == text::opt_text(s.error),
        s@.imported_credential_id == s.imported_credential_id,
        s@.output == text::texts(s.output@),
{
}

} // verus!
