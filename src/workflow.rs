//! Posting a release, as a sequence of outside steps: configure the document
//! (edit and validate it, or check the stored one), upload the screenshots
//! it queued, resolve the project's identifier, and submit. The workflow
//! decides each next step from what came of the last one.

use crate::error::MainError;
use crate::release::{merged, took_new_paths, ReleaseDocument};
use vstd::prelude::*;

verus! {

/// Where a release workflow stands.
#[derive(Debug, Clone, Copy, PartialEq, Eq)]
pub enum Stage {
    Configuring,
    Uploading,
    ResolvingId,
    Submitting,
    Finished,
}

/// What to do next.
#[derive(Debug, PartialEq, Eq)]
pub enum Action {
    /// Produce an accepted document, or learn that the user gave up.
    Configure,
    /// Upload these files as screenshots.
    UploadScreenshots(Vec<String>),
    /// Store the current document, then resolve the project's identifier.
    ResolveId,
    /// Submit the current document for the project with this identifier.
    Submit(String),
    /// The workflow is over: the server's message, nothing when the user
    /// gave up, or the error that ended it.
    Finish(Result<Option<String>, MainError>),
}

/// What came of the last action.
#[derive(Debug)]
pub enum Outcome {
    /// The accepted document, or `None` when the user gave up.
    Configured(Result<Option<ReleaseDocument>, MainError>),
    /// The addresses of the uploaded screenshots.
    Uploaded(Result<Vec<String>, MainError>),
    IdResolved(Result<String, MainError>),
    /// The server's message.
    Submitted(Result<String, MainError>),
}

/// The workflow's move from `stage`, carrying `document`, on `outcome`: to
/// `next`, carrying `next_document`, with `action` to take; an outcome that
/// does not fit the stage changes nothing.
pub open spec fn transition(
    stage: Stage,
    document: Option<ReleaseDocument>,
    outcome: Outcome,
    next: Stage,
    next_document: Option<ReleaseDocument>,
    action: Option<Action>,
) -> bool {
    match (stage, outcome) {
        (Stage::Configuring, Outcome::Configured(Err(e))) => next == Stage::Finished
            && action == Some(Action::Finish(Err(e))),
        (Stage::Configuring, Outcome::Configured(Ok(None))) => next == Stage::Finished
            && action == Some(Action::Finish(Ok(None))),
        (Stage::Configuring, Outcome::Configured(Ok(Some(doc)))) => next_document matches Some(d)
            && match action {
                Some(Action::UploadScreenshots(paths)) => next == Stage::Uploading
                    && paths@.len() > 0 && took_new_paths(doc.entries@, d.entries@, paths@),
                Some(Action::ResolveId) => next == Stage::ResolvingId
                    && took_new_paths(doc.entries@, d.entries@, seq![]),
                _ => false,
            },
        (Stage::Uploading, Outcome::Uploaded(Err(e))) => next == Stage::Finished
            && action == Some(Action::Finish(Err(e))),
        (Stage::Uploading, Outcome::Uploaded(Ok(urls))) => next == Stage::ResolvingId
            && action == Some(Action::ResolveId)
            && (document matches Some(before) && (next_document matches Some(d)
                && merged(before.entries@, urls@, d.entries@))),
        (Stage::ResolvingId, Outcome::IdResolved(Err(e))) => next == Stage::Finished
            && action == Some(Action::Finish(Err(e))),
        (Stage::ResolvingId, Outcome::IdResolved(Ok(id))) => next == Stage::Submitting
            && action == Some(Action::Submit(id))
            && next_document == document,
        (Stage::Submitting, Outcome::Submitted(Err(e))) => next == Stage::Finished
            && action == Some(Action::Finish(Err(e))),
        (Stage::Submitting, Outcome::Submitted(Ok(message))) => next == Stage::Finished
            && action == Some(Action::Finish(Ok(Some(message)))),
        _ => next == stage && next_document == document && action is None,
    }
}

/// A release workflow and the document it carries.
pub struct ReleaseWorkflow {
    stage: Stage,
    document: Option<ReleaseDocument>,
}

impl ReleaseWorkflow {
    pub closed spec fn spec_stage(&self) -> Stage {
        self.stage
    }

    pub closed spec fn spec_document(&self) -> Option<ReleaseDocument> {
        self.document
    }

    /// From the upload on, the workflow carries a document.
    pub open spec fn wf(&self) -> bool {
        (self.spec_stage() == Stage::Uploading || self.spec_stage() == Stage::ResolvingId
            || self.spec_stage() == Stage::Submitting) ==> self.spec_document() is Some
    }

    /// A workflow begins by configuring its document.
    pub fn new() -> (r: (ReleaseWorkflow, Action))
        ensures
            r.0.spec_stage() == Stage::Configuring,
            r.0.spec_document() is None,
            r.0.wf(),
            r.1 == Action::Configure,
    {
        (ReleaseWorkflow { stage: Stage::Configuring, document: None }, Action::Configure)
    }

    pub fn stage(&self) -> (r: Stage)
        ensures
            r == self.spec_stage(),
    {
        self.stage
    }

    /// The document being posted, once configured.
    pub fn document(&self) -> (r: Option<&ReleaseDocument>)
        ensures
            match self.spec_document() {
                Some(d) => r == Some(&d),
                None => r is None,
            },
    {
        self.document.as_ref()
    }

    /// Moves the workflow on what came of its last action; an outcome that
    /// does not fit the stage changes nothing.
    pub fn advance(&mut self, outcome: Outcome) -> (r: Option<Action>)
        requires
            old(self).wf(),
        ensures
            transition(
                old(self).spec_stage(),
                old(self).spec_document(),
                outcome,
                final(self).spec_stage(),
                final(self).spec_document(),
                r,
            ),
            final(self).wf(),
    {
        match (self.stage, outcome) {
            (Stage::Configuring, Outcome::Configured(Err(e))) => {
                self.stage = Stage::Finished;
                Some(Action::Finish(Err(e)))
            },
            (Stage::Configuring, Outcome::Configured(Ok(None))) => {
                self.stage = Stage::Finished;
                Some(Action::Finish(Ok(None)))
            },
            (Stage::Configuring, Outcome::Configured(Ok(Some(doc)))) => {
                let mut doc = doc;
                let paths = doc.take_new_screenshot_paths();
                self.document = Some(doc);
                if paths.len() == 0 {
                    self.stage = Stage::ResolvingId;
                    assert(paths@ =~= seq![]);
                    Some(Action::ResolveId)
                } else {
                    self.stage = Stage::Uploading;
                    Some(Action::UploadScreenshots(paths))
                }
            },
            (Stage::Uploading, Outcome::Uploaded(Err(e))) => {
                self.stage = Stage::Finished;
                Some(Action::Finish(Err(e)))
            },
            (Stage::Uploading, Outcome::Uploaded(Ok(urls))) => {
                match self.document.take() {
                    Some(mut doc) => {
                        doc.merge_screenshots(urls);
                        self.document = Some(doc);
                    },
                    None => {},
                }
                self.stage = Stage::ResolvingId;
                Some(Action::ResolveId)
            },
            (Stage::ResolvingId, Outcome::IdResolved(Err(e))) => {
                self.stage = Stage::Finished;
                Some(Action::Finish(Err(e)))
            },
            (Stage::ResolvingId, Outcome::IdResolved(Ok(id))) => {
                self.stage = Stage::Submitting;
                Some(Action::Submit(id))
            },
            (Stage::Submitting, Outcome::Submitted(Err(e))) => {
                self.stage = Stage::Finished;
                Some(Action::Finish(Err(e)))
            },
            (Stage::Submitting, Outcome::Submitted(Ok(message))) => {
                self.stage = Stage::Finished;
                Some(Action::Finish(Ok(Some(message))))
            },
            _ => None,
        }
    }
}

/// A user who gives up while the document is configured ends the workflow
/// successfully and without a submission; and a finished workflow asks for
/// nothing more, whatever comes after.
pub proof fn lemma_giving_up_submits_nothing(
    document: Option<ReleaseDocument>,
    ended: Stage,
    ended_document: Option<ReleaseDocument>,
    ended_action: Option<Action>,
    later: Outcome,
    later_stage: Stage,
    later_document: Option<ReleaseDocument>,
    later_action: Option<Action>,
)
    requires
        transition(Stage::Configuring, document, Outcome::Configured(Ok(None)), ended, ended_document, ended_action),
        transition(ended, ended_document, later, later_stage, later_document, later_action),
    ensures
        ended == Stage::Finished,
        ended_action == Some(Action::Finish(Ok(None))),
        later_stage == Stage::Finished,
        later_action is None,
{
}

} // verus!
