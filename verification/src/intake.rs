//! The executable submission: it tells its caller what to ask of the store
//! and takes the answers, one at a time.

use crate::entities::{Entity, Message, User};
use crate::error::Error;
use crate::ident::{fresh_id, ID_LEN};
use crate::protocol::{seal, EventView, FreshIds, RequestView, SubmissionView};
use crate::protocol::lemma_step_wf;
use crate::query::{leading_context_query, prior_context_query, MessageQuery};
use crate::report::{DataReportContent, Report, ReportStatus, ReportedContent, Snapshot};
use crate::report::{ReportView, SnapshotContent};
use crate::resolve::{admit_reporter, resolve};
use crate::snapshot::build;
use crate::validate::MAX_CONTEXT_LEN;
use vstd::prelude::*;

verus! {

/// What the store answered to the pending request.
#[derive(Clone, Debug, PartialEq, Eq)]
pub enum Event {
    /// The store holds this under the identifier asked for.
    Found(Entity),
    /// The store holds nothing under the identifier asked for.
    NotFound,
    /// The messages that a query selected, in the order asked for.
    Messages(Vec<Message>),
    /// A write went through.
    Completed,
    /// The store could not do what was asked.
    Failed,
}

impl DeepView for Event {
    type V = EventView;

    open spec fn deep_view(&self) -> EventView {
        match self {
            Event::Found(entity) => EventView::Found(entity.deep_view()),
            Event::NotFound => EventView::NotFound,
            Event::Messages(messages) => EventView::Messages(messages.deep_view()),
            Event::Completed => EventView::Completed,
            Event::Failed => EventView::Failed,
        }
    }
}

/// What a submission asks its caller to do next.
#[derive(Debug, PartialEq, Eq)]
pub enum Request<'a> {
    /// Fetch the message with this identifier.
    FetchMessage(&'a String),
    /// Fetch the server with this identifier.
    FetchServer(&'a String),
    /// Fetch the user with this identifier.
    FetchUser(&'a String),
    /// Fetch the messages that the query selects.
    FetchMessages(MessageQuery),
    /// Flag the attachment with this identifier as part of a report, so that
    /// it is retained.
    MarkAttachment(&'a String),
    /// Write the snapshot.
    InsertSnapshot(&'a Snapshot),
    /// Write the report.
    InsertReport(&'a Report),
    /// Announce to everyone that the report was created.  No answer is
    /// waited for; any event moves the submission on.
    Publish(&'a Report),
    /// The submission has ended.
    Nothing,
}

impl<'a> DeepView for Request<'a> {
    type V = RequestView;

    open spec fn deep_view(&self) -> RequestView {
        match self {
            Request::FetchMessage(id) => RequestView::FetchMessage(id@),
            Request::FetchServer(id) => RequestView::FetchServer(id@),
            Request::FetchUser(id) => RequestView::FetchUser(id@),
            Request::FetchMessages(query) => RequestView::FetchMessages(query.deep_view()),
            Request::MarkAttachment(id) => RequestView::MarkAttachment(id@),
            Request::InsertSnapshot(snapshot) => RequestView::InsertSnapshot(snapshot.deep_view()),
            Request::InsertReport(report) => RequestView::InsertReport(report.deep_view()),
            Request::Publish(report) => RequestView::Publish(report.deep_view()),
            Request::Nothing => RequestView::Nothing,
        }
    }
}

enum Stage {
    AwaitingContent { author_id: String, data: DataReportContent },
    AwaitingPrior { author_id: String, data: DataReportContent, message: Message, files: Vec<String> },
    AwaitingLeading {
        author_id: String,
        data: DataReportContent,
        message: Message,
        files: Vec<String>,
        prior_context: Vec<Message>,
    },
    Marking {
        author_id: String,
        data: DataReportContent,
        content: SnapshotContent,
        files: Vec<String>,
        marked: usize,
    },
    SavingSnapshot { snapshot: Snapshot, report: Report },
    SavingReport { report: Report },
    Announcing { report: Report },
    Finished { outcome: Result<Report, Error> },
}

impl Stage {
    spec fn model(self) -> SubmissionView {
        match self {
            Stage::AwaitingContent { author_id, data } => SubmissionView::AwaitingContent {
                author_id: author_id@,
                data: data.deep_view(),
            },
            Stage::AwaitingPrior { author_id, data, message, files } => {
                SubmissionView::AwaitingPrior {
                    author_id: author_id@,
                    data: data.deep_view(),
                    message: message.deep_view(),
                    files: files.deep_view(),
                }
            },
            Stage::AwaitingLeading { author_id, data, message, files, prior_context } => {
                SubmissionView::AwaitingLeading {
                    author_id: author_id@,
                    data: data.deep_view(),
                    message: message.deep_view(),
                    files: files.deep_view(),
                    prior_context: prior_context.deep_view(),
                }
            },
            Stage::Marking { author_id, data, content, files, marked } => SubmissionView::Marking {
                author_id: author_id@,
                data: data.deep_view(),
                content: content.deep_view(),
                files: files.deep_view(),
                marked: marked as nat,
            },
            Stage::SavingSnapshot { snapshot, report } => SubmissionView::SavingSnapshot {
                snapshot: snapshot.deep_view(),
                report: report.deep_view(),
            },
            Stage::SavingReport { report } => SubmissionView::SavingReport {
                report: report.deep_view(),
            },
            Stage::Announcing { report } => SubmissionView::Announcing {
                report: report.deep_view(),
            },
            Stage::Finished { outcome } => SubmissionView::Finished {
                outcome: match outcome {
                    Ok(report) => Ok(report.deep_view()),
                    Err(error) => Err(error),
                },
            },
        }
    }
}

/// Where an answer leaves a submission: in its next state, or with all
/// evidence safe and the report still to be given its identifiers.
enum Reaction {
    Settled(Stage),
    Unsealed { author_id: String, data: DataReportContent, content: SnapshotContent },
}

spec fn reaction_model(reaction: Reaction, ids: FreshIds) -> SubmissionView {
    match reaction {
        Reaction::Settled(stage) => stage.model(),
        Reaction::Unsealed { author_id, data, content } => seal(
            author_id@,
            data.deep_view(),
            content.deep_view(),
            ids,
        ),
    }
}

fn finish(error: Error) -> (reaction: Reaction)
    ensures
        forall|ids: FreshIds| #[trigger] reaction_model(reaction, ids) == crate::protocol::failed(error),
{
    Reaction::Settled(Stage::Finished { outcome: Err(error) })
}

fn after_marks(
    author_id: String,
    data: DataReportContent,
    content: SnapshotContent,
    files: Vec<String>,
    marked: usize,
) -> (reaction: Reaction)
    ensures
        forall|ids: FreshIds| #[trigger]
            reaction_model(reaction, ids) == crate::protocol::after_marks(
                author_id@,
                data.deep_view(),
                content.deep_view(),
                files.deep_view(),
                marked as nat,
                ids,
            ),
{
    if marked < files.len() {
        Reaction::Settled(Stage::Marking { author_id, data, content, files, marked })
    } else {
        Reaction::Unsealed { author_id, data, content }
    }
}

fn react(stage: Stage, event: Event) -> (reaction: Reaction)
    requires
        stage.model().wf(),
    ensures
        forall|ids: FreshIds| #[trigger]
            reaction_model(reaction, ids) == stage.model().step(event.deep_view(), ids),
{
    match stage {
        Stage::AwaitingContent { author_id, data } => match event {
            Event::Found(found) => match resolve(&data.content, &author_id, found) {
                Ok((Entity::Message(message), files)) => Reaction::Settled(
                    Stage::AwaitingPrior { author_id, data, message, files },
                ),
                Ok((entity, files)) => {
                    let none_before: Vec<Message> = Vec::new();
                    let none_after: Vec<Message> = Vec::new();
                    assert(none_before.deep_view() =~= Seq::empty());
                    assert(none_after.deep_view() =~= Seq::empty());
                    let content = build(entity, none_before, none_after);
                    after_marks(author_id, data, content, files, 0)
                },
                Err(error) => finish(error),
            },
            Event::Failed => finish(Error::PersistenceFailed),
            _ => finish(Error::NotFound),
        },
        Stage::AwaitingPrior { author_id, data, message, files } => match event {
            Event::Messages(prior_context) => Reaction::Settled(
                Stage::AwaitingLeading { author_id, data, message, files, prior_context },
            ),
            _ => finish(Error::PersistenceFailed),
        },
        Stage::AwaitingLeading { author_id, data, message, files, prior_context } => match event {
            Event::Messages(leading_context) => {
                let content = build(Entity::Message(message), prior_context, leading_context);
                after_marks(author_id, data, content, files, 0)
            },
            _ => finish(Error::PersistenceFailed),
        },
        Stage::Marking { author_id, data, content, files, marked } => match event {
            Event::Completed => {
                assert(files.deep_view().len() == files.len());
                after_marks(author_id, data, content, files, marked + 1)
            },
            _ => finish(Error::AttachmentMarkingFailed),
        },
        Stage::SavingSnapshot { snapshot, report } => match event {
            Event::Completed => Reaction::Settled(Stage::SavingReport { report }),
            _ => finish(Error::PersistenceFailed),
        },
        Stage::SavingReport { report } => match event {
            Event::Completed => Reaction::Settled(Stage::Announcing { report }),
            _ => finish(Error::PersistenceFailed),
        },
        Stage::Announcing { report } => Reaction::Settled(Stage::Finished { outcome: Ok(report) }),
        Stage::Finished { outcome } => Reaction::Settled(Stage::Finished { outcome }),
    }
}

fn settle(reaction: Reaction, report_id: String, snapshot_id: String) -> (stage: Stage)
    ensures
        stage.model() == reaction_model(
            reaction,
            FreshIds { report_id: report_id@, snapshot_id: snapshot_id@ },
        ),
{
    match reaction {
        Reaction::Settled(stage) => stage,
        Reaction::Unsealed { author_id, data, content } => {
            let snapshot = Snapshot { id: snapshot_id, report_id: report_id.clone(), content };
            let report = Report {
                id: report_id,
                author_id,
                content: data.content,
                additional_context: data.additional_context,
                status: ReportStatus::Created,
                notes: String::new(),
            };
            Stage::SavingSnapshot { snapshot, report }
        },
    }
}

/// One submission of a report, from the moment it is taken up until the
/// report is filed or the submission has failed.
pub struct Submission {
    stage: Stage,
}

impl DeepView for Submission {
    type V = SubmissionView;

    closed spec fn deep_view(&self) -> SubmissionView {
        self.stage.model()
    }
}

impl Submission {
    #[verifier::type_invariant]
    spec fn inv(self) -> bool {
        self.stage.model().wf()
    }

    /// The request that the submission waits to have answered.
    pub fn pending(&self) -> (request: Request<'_>)
        ensures
            request.deep_view() == self.deep_view().pending(),
            self.deep_view().wf(),
    {
        proof {
            use_type_invariant(self);
        }
        match &self.stage {
            Stage::AwaitingContent { data, .. } => match &data.content {
                ReportedContent::Message { id, .. } => Request::FetchMessage(id),
                ReportedContent::Server { id, .. } => Request::FetchServer(id),
                ReportedContent::User { id, .. } => Request::FetchUser(id),
            },
            Stage::AwaitingPrior { message, .. } => Request::FetchMessages(
                prior_context_query(message),
            ),
            Stage::AwaitingLeading { message, .. } => Request::FetchMessages(
                leading_context_query(message),
            ),
            Stage::Marking { files, marked, .. } => Request::MarkAttachment(&files[*marked]),
            Stage::SavingSnapshot { snapshot, .. } => Request::InsertSnapshot(snapshot),
            Stage::SavingReport { report } => Request::InsertReport(report),
            Stage::Announcing { report } => Request::Publish(report),
            Stage::Finished { .. } => Request::Nothing,
        }
    }

    /// Whether the submission has ended.
    pub fn is_finished(&self) -> (done: bool)
        ensures
            done == (self.deep_view().outcome() is Some),
    {
        match &self.stage {
            Stage::Finished { .. } => true,
            _ => false,
        }
    }

    /// Takes the answer to the pending request and moves on, using the
    /// identifiers given if this is the step that assembles the report.
    pub fn step_with_ids(self, event: Event, report_id: String, snapshot_id: String) -> (next:
        Submission)
        ensures
            next.deep_view() == self.deep_view().step(
                event.deep_view(),
                FreshIds { report_id: report_id@, snapshot_id: snapshot_id@ },
            ),
            next.deep_view().wf(),
    {
        proof {
            use_type_invariant(&self);
        }
        let ghost ids = FreshIds { report_id: report_id@, snapshot_id: snapshot_id@ };
        let ghost before = self.stage.model();
        let reaction = react(self.stage, event);
        assert(reaction_model(reaction, ids) == before.step(event.deep_view(), ids));
        let stage = settle(reaction, report_id, snapshot_id);
        proof {
            lemma_step_wf(before, event.deep_view(), ids);
        }
        Submission { stage }
    }

    /// Takes the answer to the pending request and moves on.  Once every
    /// attachment is flagged, the report and its snapshot get fresh
    /// identifiers.
    pub fn step(self, event: Event) -> (next: Submission)
        ensures
            exists|ids: FreshIds|
                ids.well_formed() && next.deep_view() == #[trigger] self.deep_view().step(
                    event.deep_view(),
                    ids,
                ),
            next.deep_view().wf(),
    {
        proof {
            use_type_invariant(&self);
        }
        let ghost before = self.deep_view();
        let reaction = react(self.stage, event);
        match reaction {
            Reaction::Settled(stage) => {
                let next = Submission { stage };
                proof {
                    let ids = FreshIds {
                        report_id: Seq::new(ID_LEN as nat, |i: int| '0'),
                        snapshot_id: Seq::new(ID_LEN as nat, |i: int| '0'),
                    };
                    assert(reaction_model(reaction, ids) == before.step(event.deep_view(), ids));
                    lemma_step_wf(before, event.deep_view(), ids);
                    assert(ids.well_formed());
                    assert(next.deep_view() == before.step(event.deep_view(), ids));
                }
                next
            },
            Reaction::Unsealed { .. } => {
                let report_id = fresh_id();
                let snapshot_id = fresh_id();
                let ghost ids = FreshIds { report_id: report_id@, snapshot_id: snapshot_id@ };
                assert(reaction_model(reaction, ids) == before.step(event.deep_view(), ids));
                let stage = settle(reaction, report_id, snapshot_id);
                let next = Submission { stage };
                proof {
                    lemma_step_wf(before, event.deep_view(), ids);
                    assert(ids.well_formed());
                    assert(next.deep_view() == before.step(event.deep_view(), ids));
                }
                next
            },
        }
    }

    /// How the submission ended: with the report that was filed, or with the
    /// reason why none was.  `None` while the submission is under way.
    pub fn into_outcome(self) -> (outcome: Option<Result<Report, Error>>)
        ensures
            match outcome {
                Some(Ok(report)) => self.deep_view().outcome() == Some(
                    Ok::<ReportView, Error>(report.deep_view()),
                ),
                Some(Err(error)) => self.deep_view().outcome() == Some(
                    Err::<ReportView, Error>(error),
                ),
                None => self.deep_view().outcome() is None,
            },
    {
        match self.stage {
            Stage::Finished { outcome } => Some(outcome),
            _ => None,
        }
    }
}

/// Takes up the report that `user` submits with `data`.
///
/// The payload is validated and the reporter checked before anything is read
/// or written: a payload that breaks a shape rule fails with
/// `ValidationFailed`; otherwise a bot fails with `ActorNotAllowed`.  Where
/// neither applies the submission starts, by asking for the reported
/// content.
pub fn report_content(user: User, data: DataReportContent) -> (r: Result<Submission, Error>)
    ensures
        match r {
            Ok(submission) => SubmissionView::open(user.deep_view(), data.deep_view()) == Ok::<
                SubmissionView,
                Error,
            >(submission.deep_view()) && submission.deep_view().wf(),
            Err(error) => SubmissionView::open(user.deep_view(), data.deep_view()) == Err::<
                SubmissionView,
                Error,
            >(error),
        },
        data.additional_context@.len() > MAX_CONTEXT_LEN ==> (r matches Err(error) && error
            == Error::ValidationFailed),
        data.additional_context@.len() <= MAX_CONTEXT_LEN && user.bot is Some ==> (r matches Err(
            error,
        ) && error == Error::ActorNotAllowed),
        data.additional_context@.len() <= MAX_CONTEXT_LEN && user.bot is None ==> r is Ok,
{
    match data.validate() {
        Err(error) => Err(error),
        Ok(()) => match admit_reporter(&user) {
            Err(error) => Err(error),
            Ok(()) => Ok(Submission { stage: Stage::AwaitingContent { author_id: user.id, data } }),
        },
    }
}

} // verus!
