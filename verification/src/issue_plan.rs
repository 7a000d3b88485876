//! Deciding what to do with the tracker's issue for a command or an event
//! handler that failed to parse: keep it, update its text, open it or close it,
//! pausing now and then to respect the tracker's rate limit.
use vstd::prelude::*;

use crate::text::{chars_of, concat, eq, string_of};

verus! {

/// An open issue of the tracker.
pub struct OpenIssue {
    pub number: u64,
    pub title: String,
    pub body: Option<String>,
}

/// What to do with the tracker. A pause, in seconds, comes before the request.
#[derive(Debug, PartialEq, Eq)]
pub enum IssueAction {
    /// Nothing to send: no issue to close.
    Nothing,
    /// The issue already says the same.
    Keep { number: u64 },
    /// Replace the text of the issue.
    UpdateBody { number: u64, body: String, pause_secs: u64 },
    /// Open a new issue.
    Create { title: String, body: String, pause_secs: u64 },
    /// Close the issue.
    Close { number: u64, pause_secs: u64 },
}

/// The contents of an `IssueAction`.
pub enum IssueActionView {
    Nothing,
    Keep { number: u64 },
    UpdateBody { number: u64, body: Seq<char>, pause_secs: u64 },
    Create { title: Seq<char>, body: Seq<char>, pause_secs: u64 },
    Close { number: u64, pause_secs: u64 },
}

impl View for IssueAction {
    type V = IssueActionView;

    open spec fn view(&self) -> IssueActionView {
        match self {
            IssueAction::Nothing => IssueActionView::Nothing,
            IssueAction::Keep { number } => IssueActionView::Keep { number: *number },
            IssueAction::UpdateBody { number, body, pause_secs } => IssueActionView::UpdateBody {
                number: *number,
                body: body@,
                pause_secs: *pause_secs,
            },
            IssueAction::Create { title, body, pause_secs } => IssueActionView::Create {
                title: title@,
                body: body@,
                pause_secs: *pause_secs,
            },
            IssueAction::Close { number, pause_secs } => IssueActionView::Close {
                number: *number,
                pause_secs: *pause_secs,
            },
        }
    }
}

/// The seconds to wait before a request to an existing issue.
pub const RATE_SLEEP: u64 = 120;

/// The seconds to wait before opening an issue.
pub const CREATE_SLEEP: u64 = 3;

/// The pause before the `rate`-th request (counting from 0): every twentieth
/// request after the first waits.
pub open spec fn pause_for(rate: usize, secs: u64) -> u64 {
    if rate != 0 && rate % 20 == 0 {
        secs
    } else {
        0
    }
}

/// The title of the issue of a command that failed to parse.
pub open spec fn command_title(command: Seq<char>) -> Seq<char> {
    "Parse Failed: "@ + command
}

/// The title of the issue of an event handler that failed to parse.
pub open spec fn event_handler_title(ns: Seq<char>, handler: Seq<char>) -> Seq<char> {
    "Parse Failed: "@ + ns + "::"@ + handler
}

/// Lines joined with line feeds.
pub open spec fn lines_joined(ls: Seq<Seq<char>>) -> Seq<char>
    decreases ls.len(),
{
    if ls.len() == 0 {
        Seq::empty()
    } else if ls.len() == 1 {
        ls[0]
    } else {
        lines_joined(ls.drop_last()) + seq!['\n'] + ls.last()
    }
}

/// The index of the first issue with the given title.
pub open spec fn issue_with_title(issues: Seq<OpenIssue>, title: Seq<char>) -> Option<int>
    decreases issues.len(),
{
    if issues.len() == 0 {
        None
    } else {
        match issue_with_title(issues.drop_last(), title) {
            Some(k) => Some(k),
            None => if issues.last().title@ == title {
                Some(issues.len() - 1)
            } else {
                None
            },
        }
    }
}

/// What to do to report a failure: keep the issue of that title when it
/// already says the same, else update it, else open one.
pub open spec fn failure_action(issues: Seq<OpenIssue>, title: Seq<char>, body: Seq<char>, rate: usize) -> IssueActionView {
    match issue_with_title(issues, title) {
        Some(k) => if issues[k].body matches Some(b) && b@ == body {
            IssueActionView::Keep { number: issues[k].number }
        } else {
            IssueActionView::UpdateBody { number: issues[k].number, body, pause_secs: pause_for(rate, RATE_SLEEP) }
        },
        None => IssueActionView::Create { title, body, pause_secs: pause_for(rate, CREATE_SLEEP) },
    }
}

/// What to do when the thing parses again: close the issue of that title, if any.
pub open spec fn close_action(issues: Seq<OpenIssue>, title: Seq<char>, rate: usize) -> IssueActionView {
    match issue_with_title(issues, title) {
        Some(k) => IssueActionView::Close { number: issues[k].number, pause_secs: pause_for(rate, RATE_SLEEP) },
        None => IssueActionView::Nothing,
    }
}

proof fn lemma_issue_prefix(issues: Seq<OpenIssue>, title: Seq<char>, i: int)
    requires
        0 <= i <= issues.len(),
        forall|k: int| 0 <= k < i ==> (#[trigger] issues[k]).title@ != title,
    ensures
        issue_with_title(issues.take(i), title) is None,
        i < issues.len() && issues[i].title@ == title ==> issue_with_title(issues.take(i + 1), title) == Some(i),
    decreases i,
{
    if i > 0 {
        assert(issues.take(i).drop_last() =~= issues.take(i - 1));
        lemma_issue_prefix(issues, title, i - 1);
    }
    if i < issues.len() {
        assert(issues.take(i + 1).drop_last() =~= issues.take(i));
    }
}

proof fn lemma_issue_found(issues: Seq<OpenIssue>, title: Seq<char>, i: int)
    requires
        0 <= i <= issues.len(),
        issue_with_title(issues.take(i), title) is Some,
    ensures
        issue_with_title(issues, title) == issue_with_title(issues.take(i), title),
    decreases issues.len() - i,
{
    if i < issues.len() {
        assert(issues.take(i + 1).drop_last() =~= issues.take(i));
        lemma_issue_found(issues, title, i + 1);
    } else {
        assert(issues.take(i) =~= issues);
    }
}

/// The index of the first issue with the given title.
fn find_issue(issues: &[OpenIssue], title: &[char]) -> (r: Option<usize>)
    ensures
        match r {
            Some(k) => issue_with_title(issues@, title@) == Some(k as int) && k < issues@.len(),
            None => issue_with_title(issues@, title@) is None,
        },
{
    let mut i: usize = 0;
    while i < issues.len()
        invariant
            i <= issues@.len(),
            forall|k: int| 0 <= k < i ==> (#[trigger] issues@[k]).title@ != title@,
        decreases issues@.len() - i,
    {
        if eq(&chars_of(issues[i].title.as_str()), title) {
            proof {
                lemma_issue_prefix(issues@, title@, i as int);
                lemma_issue_found(issues@, title@, i + 1);
            }
            return Some(i);
        }
        i += 1;
    }
    proof {
        lemma_issue_prefix(issues@, title@, i as int);
        assert(issues@.take(i as int) =~= issues@);
    }
    None
}

fn pause(rate: usize, secs: u64) -> (r: u64)
    ensures
        r == pause_for(rate, secs),
{
    if rate != 0 && rate % 20 == 0 {
        secs
    } else {
        0
    }
}

/// The title of the issue of a command that failed to parse.
pub fn failed_command_title(command: &str) -> (r: String)
    ensures
        r@ == command_title(command@),
{
    string_of(&concat(&chars_of("Parse Failed: "), &chars_of(command)))
}

/// The title of the issue of an event handler that failed to parse.
pub fn failed_event_handler_title(ns: &str, handler: &str) -> (r: String)
    ensures
        r@ == event_handler_title(ns@, handler@),
{
    let t = concat(&concat(&concat(&chars_of("Parse Failed: "), &chars_of(ns)), &chars_of("::")), &chars_of(handler));
    string_of(&t)
}

/// The reasons of a failure, one per line.
pub fn failure_body(reasons: &[String]) -> (r: String)
    ensures
        r@ == lines_joined(reasons@.map_values(|s: String| s@)),
{
    let ghost rv = reasons@.map_values(|s: String| s@);
    let mut out: Vec<char> = Vec::new();
    let nl = ['\n'];
    assert(nl@ =~= seq!['\n']);
    let mut i: usize = 0;
    assert(rv.take(0) =~= Seq::<Seq<char>>::empty());
    while i < reasons.len()
        invariant
            rv == reasons@.map_values(|s: String| s@),
            nl@ == seq!['\n'],
            i <= reasons@.len(),
            out@ == lines_joined(rv.take(i as int)),
        decreases reasons@.len() - i,
    {
        assert(rv.take(i + 1).drop_last() =~= rv.take(i as int));
        if i == 0 {
            out = chars_of(reasons[0].as_str());
            assert(rv.take(1) =~= seq![rv[0]]);
        } else {
            out = concat(&concat(&out, nl.as_slice()), &chars_of(reasons[i].as_str()));
        }
        i += 1;
    }
    assert(rv.take(reasons@.len() as int) =~= rv);
    string_of(&out)
}

/// What to do to report a failure under the given title and text, when
/// `rate` requests were sent before.
pub fn plan_failure_report(issues: &[OpenIssue], title: &str, body: &str, rate: usize) -> (r: IssueAction)
    ensures
        r@ == failure_action(issues@, title@, body@, rate),
{
    let t = chars_of(title);
    match find_issue(issues, &t) {
        Some(k) => {
            let issue = &issues[k];
            let same = match &issue.body {
                Some(b) => eq(&chars_of(b.as_str()), &chars_of(body)),
                None => false,
            };
            if same {
                IssueAction::Keep { number: issue.number }
            } else {
                IssueAction::UpdateBody {
                    number: issue.number,
                    body: string_of(&chars_of(body)),
                    pause_secs: pause(rate, RATE_SLEEP),
                }
            }
        },
        None => IssueAction::Create {
            title: string_of(&t),
            body: string_of(&chars_of(body)),
            pause_secs: pause(rate, CREATE_SLEEP),
        },
    }
}

/// What to do when the thing parses again, when `rate` requests were sent before.
pub fn plan_close(issues: &[OpenIssue], title: &str, rate: usize) -> (r: IssueAction)
    ensures
        r@ == close_action(issues@, title@, rate),
{
    match find_issue(issues, &chars_of(title)) {
        Some(k) => IssueAction::Close { number: issues[k].number, pause_secs: pause(rate, RATE_SLEEP) },
        None => IssueAction::Nothing,
    }
}

} // verus!
