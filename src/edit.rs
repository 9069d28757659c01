//! The edit / validate / retry cycle of a release configuration.
//!
//! The user edits the document in an external program; the text is parsed
//! and checked against the schema; a refused document is shown with its
//! error and the user decides whether to edit it again or give up. Giving up
//! is not an error: the workflow ends without submitting anything.
//!
//! Running the editor, reading files and asking the user happen outside the
//! library, which is told what came of each and answers with the next step.

use crate::error::{ConfigError, MainError};
use crate::release::{first_invalid, first_missing, none_missing, required_keys, ReleaseDocument};
use vstd::prelude::*;

verus! {

/// How the cycle begins.
#[derive(Debug, Clone, Copy, PartialEq, Eq)]
pub enum StartPlan {
    /// Edit a fresh copy of the template.
    EditTemplate,
    /// Edit the stored document.
    EditStored,
    /// Check the stored document as it is, without an editor.
    ValidateStored,
}

/// Editing is forced when nothing is stored; a reset edits the template even
/// when a document is stored; otherwise the stored document is edited when
/// asked, and only checked when not.
pub fn plan_start(stored: bool, edit: bool, reset: bool) -> (r: StartPlan)
    ensures
        r == (if !stored || reset {
            StartPlan::EditTemplate
        } else if edit {
            StartPlan::EditStored
        } else {
            StartPlan::ValidateStored
        }),
{
    if !stored || reset {
        StartPlan::EditTemplate
    } else if edit {
        StartPlan::EditStored
    } else {
        StartPlan::ValidateStored
    }
}

/// The editor to run: the one given explicitly, else `VISUAL`, else `EDITOR`.
pub fn resolve_editor(flag: Option<String>, visual: Option<String>, editor: Option<String>) -> (r: Result<String, MainError>)
    ensures
        match (flag, visual, editor) {
            (Some(e), _, _) => r == Ok::<String, MainError>(e),
            (None, Some(e), _) => r == Ok::<String, MainError>(e),
            (None, None, Some(e)) => r == Ok::<String, MainError>(e),
            (None, None, None) => r == Err::<String, MainError>(MainError::NoEditor),
        },
{
    match (flag, visual, editor) {
        (Some(e), _, _) => Ok(e),
        (None, Some(e), _) => Ok(e),
        (None, None, Some(e)) => Ok(e),
        (None, None, None) => Err(MainError::NoEditor),
    }
}

/// The arguments the editor is run with: the user's own, then the file.
pub fn editor_args(args: Vec<String>, file: String) -> (r: Vec<String>)
    ensures
        r@ == args@.push(file),
{
    let mut r = args;
    r.push(file);
    r
}

/// The characters with the Unicode `White_Space` property.
pub open spec fn is_white(c: char) -> bool {
    ('\u{9}' <= c <= '\u{d}') || c == ' ' || c == '\u{85}' || c == '\u{a0}' || c == '\u{1680}'
        || ('\u{2000}' <= c <= '\u{200a}') || c == '\u{2028}' || c == '\u{2029}' || c == '\u{202f}'
        || c == '\u{205f}' || c == '\u{3000}'
}

pub fn is_whitespace(c: char) -> (r: bool)
    ensures
        r == is_white(c),
{
    ('\u{9}' <= c && c <= '\u{d}') || c == ' ' || c == '\u{85}' || c == '\u{a0}' || c == '\u{1680}'
        || ('\u{2000}' <= c && c <= '\u{200a}') || c == '\u{2028}' || c == '\u{2029}' || c == '\u{202f}'
        || c == '\u{205f}' || c == '\u{3000}'
}

/// `s` without its leading and trailing white space.
pub open spec fn trimmed(s: Seq<char>) -> Seq<char> {
    s.subrange(lead(s), s.len() - trail(s))
}

/// How many white-space characters `s` starts with.
pub open spec fn lead(s: Seq<char>) -> int
    decreases s.len(),
{
    if s.len() > 0 && is_white(s[0]) {
        1 + lead(s.drop_first())
    } else {
        0
    }
}

/// How many white-space characters `s` ends with, not counting those that
/// `lead` counts.
pub open spec fn trail(s: Seq<char>) -> int
    decreases s.len(),
{
    if s.len() > lead(s) && is_white(s.last()) {
        1 + trail(s.drop_last())
    } else {
        0
    }
}

proof fn lemma_lead(s: Seq<char>, i: int)
    requires
        0 <= i <= s.len(),
        forall|j: int| 0 <= j < i ==> is_white(#[trigger] s[j]),
        i == s.len() || !is_white(s[i]),
    ensures
        lead(s) == i,
    decreases s.len(),
{
    if s.len() > 0 && is_white(s[0]) {
        assert forall|j: int| 0 <= j < i - 1 implies is_white(#[trigger] s.drop_first()[j]) by {
            assert(s.drop_first()[j] == s[j + 1]);
        }
        lemma_lead(s.drop_first(), i - 1);
    }
}

proof fn lemma_lead_bounds(s: Seq<char>)
    ensures
        0 <= lead(s) <= s.len(),
    decreases s.len(),
{
    if s.len() > 0 && is_white(s[0]) {
        lemma_lead_bounds(s.drop_first());
    }
}

proof fn lemma_lead_stops(s: Seq<char>)
    ensures
        lead(s) < s.len() ==> !is_white(s[lead(s)]),
    decreases s.len(),
{
    if s.len() > 0 && is_white(s[0]) {
        lemma_lead_stops(s.drop_first());
        lemma_lead_bounds(s.drop_first());
        if lead(s) < s.len() {
            assert(s.drop_first()[lead(s.drop_first())] == s[lead(s)]);
        }
    }
}

proof fn lemma_lead_prefix(s: Seq<char>, n: int)
    requires
        0 <= n <= s.len(),
        lead(s) < n || (lead(s) == n && (n == s.len() || !is_white(s[n]))),
    ensures
        lead(s.subrange(0, n)) == lead(s),
    decreases s.len(),
{
    lemma_lead_bounds(s.drop_first());
    if s.len() > 0 && is_white(s[0]) {
        assert(n >= 1);
        assert(s.subrange(0, n).drop_first() =~= s.drop_first().subrange(0, n - 1));
        if n - 1 < s.drop_first().len() {
            assert(s.drop_first()[n - 1] == s[n]);
        }
        lemma_lead_prefix(s.drop_first(), n - 1);
    } else if n > 0 {
        assert(s.subrange(0, n)[0] == s[0]);
    }
}

proof fn lemma_trail(s: Seq<char>, e: int)
    requires
        lead(s) <= e <= s.len(),
        forall|j: int| e <= j < s.len() ==> is_white(#[trigger] s[j]),
        e == lead(s) || !is_white(s[e - 1]),
    ensures
        trail(s) == s.len() - e,
    decreases s.len(),
{
    lemma_lead_bounds(s);
    if s.len() > lead(s) && is_white(s.last()) {
        assert(e < s.len());
        lemma_lead_stops(s);
        let t = s.drop_last();
        lemma_lead_prefix(s, s.len() - 1);
        assert(t =~= s.subrange(0, s.len() - 1));
        assert(lead(t) == lead(s));
        assert forall|j: int| e <= j < t.len() implies is_white(#[trigger] t[j]) by {
            assert(t[j] == s[j]);
        }
        if e > lead(s) {
            assert(t[e - 1] == s[e - 1]);
        }
        lemma_trail(t, e);
    } else if e < s.len() {
        assert(is_white(s[s.len() - 1]));
    }
}

/// `line` without its leading and trailing white space.
pub fn trim(line: &str) -> (r: String)
    ensures
        r@ == trimmed(line@),
{
    let n = line.unicode_len();
    let mut b: usize = 0;
    while b < n && is_whitespace(line.get_char(b))
        invariant
            b <= n,
            n == line@.len(),
            forall|j: int| 0 <= j < b ==> is_white(#[trigger] line@[j]),
        decreases n - b,
    {
        b = b + 1;
    }
    proof {
        lemma_lead(line@, b as int);
    }
    let mut e: usize = n;
    while e > b && is_whitespace(line.get_char(e - 1))
        invariant
            b <= e <= n,
            n == line@.len(),
            lead(line@) == b,
            forall|j: int| e <= j < n ==> is_white(#[trigger] line@[j]),
        decreases e,
    {
        e = e - 1;
    }
    proof {
        lemma_trail(line@, e as int);
    }
    line.substring_char(b, e).to_owned()
}

/// What the user answered to a yes / no question.
#[derive(Debug, Clone, PartialEq, Eq)]
pub enum Answer {
    Yes,
    No,
    /// Neither; carries the answer without its surrounding white space.
    Unknown(String),
}

/// The line, trimmed, is `y` or `yes`.
pub open spec fn says_yes(line: Seq<char>) -> bool {
    trimmed(line) == "y"@ || trimmed(line) == "yes"@
}

/// The line, trimmed, is `n` or `no`.
pub open spec fn says_no(line: Seq<char>) -> bool {
    trimmed(line) == "n"@ || trimmed(line) == "no"@
}

/// Reads a line typed in answer to a yes / no question.
pub fn parse_answer(line: &str) -> (r: Answer)
    ensures
        r == Answer::Yes <==> says_yes(line@),
        r == Answer::No <==> says_no(line@),
        r is Unknown <==> !says_yes(line@) && !says_no(line@),
        r matches Answer::Unknown(t) ==> t@ == trimmed(line@),
{
    let t = trim(line);
    proof {
        reveal_strlit("y");
        reveal_strlit("yes");
        reveal_strlit("n");
        reveal_strlit("no");
    }
    let yes = t.eq(&"y".to_owned()) || t.eq(&"yes".to_owned());
    let no = t.eq(&"n".to_owned()) || t.eq(&"no".to_owned());
    assert(yes == says_yes(line@));
    assert(no == says_no(line@));
    assert(!(yes && no)) by {
        assert("y"@[0] != "n"@[0]);
        assert("y"@.len() != "no"@.len());
        assert("yes"@.len() != "n"@.len());
        assert("yes"@.len() != "no"@.len());
    }
    if yes {
        Answer::Yes
    } else if no {
        Answer::No
    } else {
        Answer::Unknown(t)
    }
}

/// The document meets the schema.
pub open spec fn accepted(doc: ReleaseDocument) -> bool {
    first_invalid(doc.entries@) is None && none_missing(doc.entries@)
}

/// `e` is the error that checking `doc` against the schema reports.
pub open spec fn refused_with(doc: ReleaseDocument, e: ConfigError) -> bool {
    match first_invalid(doc.entries@) {
        Some(x) => e == x,
        None => exists|i: int| first_missing(doc.entries@, i)
            && (e matches ConfigError::MissingField(k) && k@ == required_keys()[i]),
    }
}

proof fn lemma_some_first_missing(doc: ReleaseDocument, n: int)
    requires
        0 <= n <= required_keys().len(),
        !none_missing(doc.entries@),
        forall|j: int| 0 <= j < n ==> crate::release::has_key(doc.entries@, #[trigger] required_keys()[j]),
    ensures
        exists|i: int| first_missing(doc.entries@, i),
    decreases required_keys().len() - n,
{
    if n < required_keys().len() {
        if crate::release::has_key(doc.entries@, required_keys()[n]) {
            lemma_some_first_missing(doc, n + 1);
        } else {
            assert(first_missing(doc.entries@, n));
        }
    }
}

/// Checks a document against the schema.
pub fn check(doc: &ReleaseDocument) -> (r: Result<(), ConfigError>)
    ensures
        r is Ok <==> accepted(*doc),
        r matches Err(e) ==> refused_with(*doc, e),
{
    let r = doc.validate();
    proof {
        if first_invalid(doc.entries@) is None && !none_missing(doc.entries@) {
            lemma_some_first_missing(*doc, 0);
        }
    }
    r
}

/// Checks a stored document, which no editor session produced: a refusal is
/// reported as it is, without offering to edit.
pub fn validate_stored(parsed: Result<ReleaseDocument, String>) -> (r: Result<ReleaseDocument, MainError>)
    ensures
        match parsed {
            Err(m) => r == Err::<ReleaseDocument, MainError>(MainError::ParseReleaseConfig(ConfigError::Syntax(m))),
            Ok(doc) => if accepted(doc) {
                r == Ok::<ReleaseDocument, MainError>(doc)
            } else {
                r matches Err(MainError::ParseReleaseConfig(e)) && refused_with(doc, e)
            },
        },
{
    match parsed {
        Err(m) => Err(MainError::ParseReleaseConfig(ConfigError::Syntax(m))),
        Ok(doc) => match check(&doc) {
            Ok(()) => Ok(doc),
            Err(e) => Err(MainError::ParseReleaseConfig(e)),
        },
    }
}

/// Where an editing session stands.
#[derive(Debug, Clone, Copy, PartialEq, Eq)]
pub enum Phase {
    /// The editor is running on the temporary file.
    Editing,
    /// The edited text is being read back and parsed.
    Validating,
    /// A refused document was shown; the user is asked whether to edit again.
    AwaitingUserDecision,
    /// The document met the schema.
    Accepted,
    /// The user gave up.
    Aborted,
}

/// What came of the last step.
#[derive(Debug)]
pub enum Event {
    /// The editor exited normally.
    EditorExited,
    /// The edited text, parsed: the document, or the parser's message.
    Parsed(Result<ReleaseDocument, String>),
    /// The line the user typed when asked whether to edit again.
    Answered(String),
}

/// What to do next.
#[derive(Debug, PartialEq, Eq)]
pub enum Step {
    /// Run the editor on the temporary file (again, keeping the user's edits).
    RunEditor,
    /// Read the temporary file back and parse it.
    Parse,
    /// The document is accepted: store its text at the project's path.
    Accept(ReleaseDocument),
    /// Show the error and ask whether to edit again.
    AskRetry(ConfigError),
    /// The answer, trimmed, was neither yes nor no: say so and ask again.
    AskAgain(String),
    /// The user gave up: end successfully, submitting nothing.
    Abort,
}

/// The session's move from `phase` on `event`: to `next`, with `step` to
/// take; an event that does not fit the phase changes nothing.
pub open spec fn transition(phase: Phase, event: Event, next: Phase, step: Option<Step>) -> bool {
    match (phase, event) {
        (Phase::Editing, Event::EditorExited) => next == Phase::Validating && step == Some(Step::Parse),
        (Phase::Validating, Event::Parsed(Err(m))) => next == Phase::AwaitingUserDecision
            && step == Some(Step::AskRetry(ConfigError::Syntax(m))),
        (Phase::Validating, Event::Parsed(Ok(doc))) => if accepted(doc) {
            next == Phase::Accepted && step == Some(Step::Accept(doc))
        } else {
            next == Phase::AwaitingUserDecision && (step matches Some(Step::AskRetry(e)) && refused_with(doc, e))
        },
        (Phase::AwaitingUserDecision, Event::Answered(line)) => if says_yes(line@) {
            next == Phase::Editing && step == Some(Step::RunEditor)
        } else if says_no(line@) {
            next == Phase::Aborted && step == Some(Step::Abort)
        } else {
            next == Phase::AwaitingUserDecision && (step matches Some(Step::AskAgain(t)) && t@ == trimmed(line@))
        },
        _ => next == phase && step is None,
    }
}

/// An editing session of a release configuration.
pub struct EditSession {
    phase: Phase,
}

impl EditSession {
    pub closed spec fn spec_phase(&self) -> Phase {
        self.phase
    }

    /// A session begins by running the editor.
    pub fn new() -> (r: (EditSession, Step))
        ensures
            r.0.spec_phase() == Phase::Editing,
            r.1 == Step::RunEditor,
    {
        (EditSession { phase: Phase::Editing }, Step::RunEditor)
    }

    pub fn phase(&self) -> (r: Phase)
        ensures
            r == self.spec_phase(),
    {
        self.phase
    }

    /// Moves the session on what came of its last step.
    pub fn advance(&mut self, event: Event) -> (r: Option<Step>)
        ensures
            transition(old(self).spec_phase(), event, final(self).spec_phase(), r),
    {
        match (self.phase, event) {
            (Phase::Editing, Event::EditorExited) => {
                self.phase = Phase::Validating;
                Some(Step::Parse)
            },
            (Phase::Validating, Event::Parsed(Err(m))) => {
                self.phase = Phase::AwaitingUserDecision;
                Some(Step::AskRetry(ConfigError::Syntax(m)))
            },
            (Phase::Validating, Event::Parsed(Ok(doc))) => match check(&doc) {
                Ok(()) => {
                    self.phase = Phase::Accepted;
                    Some(Step::Accept(doc))
                },
                Err(e) => {
                    self.phase = Phase::AwaitingUserDecision;
                    Some(Step::AskRetry(e))
                },
            },
            (Phase::AwaitingUserDecision, Event::Answered(line)) => match parse_answer(line.as_str()) {
                Answer::Yes => {
                    self.phase = Phase::Editing;
                    Some(Step::RunEditor)
                },
                Answer::No => {
                    self.phase = Phase::Aborted;
                    Some(Step::Abort)
                },
                Answer::Unknown(t) => Some(Step::AskAgain(t)),
            },
            _ => None,
        }
    }
}

/// When the edited text does not parse and the user answers no to editing
/// again, the session ends aborted, which is a success that submits nothing,
/// and it stays so whatever comes after.
pub proof fn lemma_unparsable_then_no_aborts(
    message: String,
    line: String,
    shown: Phase,
    shown_step: Option<Step>,
    ended: Phase,
    ended_step: Option<Step>,
    later: Event,
    later_phase: Phase,
    later_step: Option<Step>,
)
    requires
        says_no(line@),
        transition(Phase::Validating, Event::Parsed(Err(message)), shown, shown_step),
        transition(shown, Event::Answered(line), ended, ended_step),
        transition(ended, later, later_phase, later_step),
    ensures
        shown == Phase::AwaitingUserDecision,
        shown_step == Some(Step::AskRetry(ConfigError::Syntax(message))),
        ended == Phase::Aborted,
        ended_step == Some(Step::Abort),
        later_phase == Phase::Aborted,
        later_step is None,
{
    assert(!says_yes(line@)) by {
        reveal_strlit("y");
        reveal_strlit("yes");
        reveal_strlit("n");
        reveal_strlit("no");
        assert("y"@[0] != "n"@[0]);
        assert("y"@.len() != "no"@.len());
        assert("yes"@.len() != "n"@.len());
        assert("yes"@.len() != "no"@.len());
    }
}

} // verus!
