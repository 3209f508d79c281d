//! The submission of a report as a mathematical state machine.
//!
//! A submission moves from state to state as the store answers what the
//! submission asks of it.  Each state has one pending request; the answer to
//! it decides the next state.  Everything here is specification: the
//! executable submission is held to it.

use crate::entities::{EntityView, MessageView, UserView};
use crate::error::Error;
use crate::query::{leading_context_query_spec, prior_context_query_spec, MessageQueryView};
use crate::report::{DataReportContentView, ReportStatusView, ReportView, ReportedContentView};
use crate::report::{SnapshotContentView, SnapshotView};
use crate::resolve::{attachment_ids_spec, message_files, resolve_spec};
use crate::snapshot::build_spec;
use vstd::prelude::*;

verus! {

/// What a submission asks the outside to do next.
pub enum RequestView {
    FetchMessage(Seq<char>),
    FetchServer(Seq<char>),
    FetchUser(Seq<char>),
    FetchMessages(MessageQueryView),
    MarkAttachment(Seq<char>),
    InsertSnapshot(SnapshotView),
    InsertReport(ReportView),
    Publish(ReportView),
    Nothing,
}

/// What the outside answers.
pub enum EventView {
    Found(EntityView),
    NotFound,
    Messages(Seq<MessageView>),
    Completed,
    Failed,
}

/// The two identifiers that a submission needs once the evidence is safe:
/// one for the report, one for its snapshot.
pub struct FreshIds {
    pub report_id: Seq<char>,
    pub snapshot_id: Seq<char>,
}

/// The state of one submission.
pub enum SubmissionView {
    /// The reported content has been asked for.
    AwaitingContent { author_id: Seq<char>, data: DataReportContentView },
    /// A message is reported; the messages before it have been asked for.
    AwaitingPrior {
        author_id: Seq<char>,
        data: DataReportContentView,
        message: MessageView,
        files: Seq<Seq<char>>,
    },
    /// A message is reported; the messages after it have been asked for.
    AwaitingLeading {
        author_id: Seq<char>,
        data: DataReportContentView,
        message: MessageView,
        files: Seq<Seq<char>>,
        prior_context: Seq<MessageView>,
    },
    /// The snapshot is assembled; the first `marked` of `files` are flagged
    /// for retention and the next one has been asked to be.
    Marking {
        author_id: Seq<char>,
        data: DataReportContentView,
        content: SnapshotContentView,
        files: Seq<Seq<char>>,
        marked: nat,
    },
    /// The snapshot has been handed over for writing.
    SavingSnapshot { snapshot: SnapshotView, report: ReportView },
    /// The report has been handed over for writing.
    SavingReport { report: ReportView },
    /// The report is written and is being announced.
    Announcing { report: ReportView },
    /// Nothing is left to do.
    Finished { outcome: Result<ReportView, Error> },
}

impl FreshIds {
    /// Both identifiers have the length of an identifier in text form.
    pub open spec fn well_formed(self) -> bool {
        self.report_id.len() == crate::ident::ID_LEN && self.snapshot_id.len()
            == crate::ident::ID_LEN
    }
}

/// The report that a submission files.
pub open spec fn new_report(
    author_id: Seq<char>,
    data: DataReportContentView,
    report_id: Seq<char>,
) -> ReportView {
    ReportView {
        id: report_id,
        author_id,
        content: data.content,
        additional_context: data.additional_context,
        status: ReportStatusView::Created,
        notes: Seq::empty(),
    }
}

/// The state in which the snapshot goes out for writing, with the report
/// that will follow it.
pub open spec fn seal(
    author_id: Seq<char>,
    data: DataReportContentView,
    content: SnapshotContentView,
    ids: FreshIds,
) -> SubmissionView {
    SubmissionView::SavingSnapshot {
        snapshot: SnapshotView { id: ids.snapshot_id, report_id: ids.report_id, content },
        report: new_report(author_id, data, ids.report_id),
    }
}

/// The state once `marked` of `files` are flagged: the next attachment is
/// asked for, or, when none is left, the snapshot goes out.
pub open spec fn after_marks(
    author_id: Seq<char>,
    data: DataReportContentView,
    content: SnapshotContentView,
    files: Seq<Seq<char>>,
    marked: nat,
    ids: FreshIds,
) -> SubmissionView {
    if marked < files.len() {
        SubmissionView::Marking { author_id, data, content, files, marked }
    } else {
        seal(author_id, data, content, ids)
    }
}

/// The state in which a submission ends with `error`.
pub open spec fn failed(error: Error) -> SubmissionView {
    SubmissionView::Finished { outcome: Err(error) }
}

impl SubmissionView {
    /// The state in which a submission starts.
    pub open spec fn start(author_id: Seq<char>, data: DataReportContentView) -> SubmissionView {
        SubmissionView::AwaitingContent { author_id, data }
    }

    /// Whether a submission is taken up at all.  The payload is checked
    /// first, then the reporter; nothing has been read or written by then.
    pub open spec fn open(reporter: UserView, data: DataReportContentView) -> Result<
        SubmissionView,
        Error,
    > {
        if !data.valid() {
            Err(Error::ValidationFailed)
        } else if reporter.is_bot() {
            Err(Error::ActorNotAllowed)
        } else {
            Ok(SubmissionView::start(reporter.id, data))
        }
    }

    /// The request that the state waits to have answered.
    pub open spec fn pending(self) -> RequestView {
        match self {
            SubmissionView::AwaitingContent { data, .. } => match data.content {
                ReportedContentView::Message { id, .. } => RequestView::FetchMessage(id),
                ReportedContentView::Server { id, .. } => RequestView::FetchServer(id),
                ReportedContentView::User { id, .. } => RequestView::FetchUser(id),
            },
            SubmissionView::AwaitingPrior { message, .. } => RequestView::FetchMessages(
                prior_context_query_spec(message),
            ),
            SubmissionView::AwaitingLeading { message, .. } => RequestView::FetchMessages(
                leading_context_query_spec(message),
            ),
            SubmissionView::Marking { files, marked, .. } => RequestView::MarkAttachment(
                files[marked as int],
            ),
            SubmissionView::SavingSnapshot { snapshot, .. } => RequestView::InsertSnapshot(snapshot),
            SubmissionView::SavingReport { report } => RequestView::InsertReport(report),
            SubmissionView::Announcing { report } => RequestView::Publish(report),
            SubmissionView::Finished { .. } => RequestView::Nothing,
        }
    }

    /// How the submission ended, once it has.
    pub open spec fn outcome(self) -> Option<Result<ReportView, Error>> {
        match self {
            SubmissionView::Finished { outcome } => Some(outcome),
            _ => None,
        }
    }

    /// The state that follows when the pending request is answered by
    /// `event`.  `ids` are the identifiers on hand should the step be the one
    /// that assembles the report.
    ///
    /// Each state has one answer on which it goes on.  Any other answer ends
    /// the submission: with `NotFound` while the content is awaited (with
    /// `PersistenceFailed` if the store failed outright), with
    /// `AttachmentMarkingFailed` while an attachment is being flagged, with
    /// `PersistenceFailed` while context is read or a record written.  The
    /// announcement is not waited for: whatever answers it, the submission
    /// has succeeded.
    pub open spec fn step(self, event: EventView, ids: FreshIds) -> SubmissionView {
        match self {
            SubmissionView::AwaitingContent { author_id, data } => match event {
                EventView::Found(found) => match resolve_spec(data.content, author_id, found) {
                    Ok((EntityView::Message(message), files)) => SubmissionView::AwaitingPrior {
                        author_id,
                        data,
                        message,
                        files,
                    },
                    Ok((entity, files)) => after_marks(
                        author_id,
                        data,
                        build_spec(entity, Seq::empty(), Seq::empty()),
                        files,
                        0,
                        ids,
                    ),
                    Err(error) => failed(error),
                },
                EventView::Failed => failed(Error::PersistenceFailed),
                _ => failed(Error::NotFound),
            },
            SubmissionView::AwaitingPrior { author_id, data, message, files } => match event {
                EventView::Messages(prior_context) => SubmissionView::AwaitingLeading {
                    author_id,
                    data,
                    message,
                    files,
                    prior_context,
                },
                _ => failed(Error::PersistenceFailed),
            },
            SubmissionView::AwaitingLeading {
                author_id,
                data,
                message,
                files,
                prior_context,
            } => match event {
                EventView::Messages(leading_context) => after_marks(
                    author_id,
                    data,
                    build_spec(EntityView::Message(message), prior_context, leading_context),
                    files,
                    0,
                    ids,
                ),
                _ => failed(Error::PersistenceFailed),
            },
            SubmissionView::Marking { author_id, data, content, files, marked } => match event {
                EventView::Completed => after_marks(
                    author_id,
                    data,
                    content,
                    files,
                    marked + 1,
                    ids,
                ),
                _ => failed(Error::AttachmentMarkingFailed),
            },
            SubmissionView::SavingSnapshot { snapshot, report } => match event {
                EventView::Completed => SubmissionView::SavingReport { report },
                _ => failed(Error::PersistenceFailed),
            },
            SubmissionView::SavingReport { report } => match event {
                EventView::Completed => SubmissionView::Announcing { report },
                _ => failed(Error::PersistenceFailed),
            },
            SubmissionView::Announcing { report } => SubmissionView::Finished {
                outcome: Ok(report),
            },
            SubmissionView::Finished { .. } => self,
        }
    }

    /// What holds of every state that a submission can be in.
    pub open spec fn wf(self) -> bool {
        match self {
            SubmissionView::AwaitingContent { data, .. } => data.valid(),
            SubmissionView::AwaitingPrior { author_id, data, message, files } => {
                &&& data.valid()
                &&& data.content.names(EntityView::Message(message))
                &&& message.author != author_id
                &&& files == message_files(message)
            },
            SubmissionView::AwaitingLeading { author_id, data, message, files, .. } => {
                &&& data.valid()
                &&& data.content.names(EntityView::Message(message))
                &&& message.author != author_id
                &&& files == message_files(message)
            },
            SubmissionView::Marking { author_id, data, content, files, marked } => {
                &&& data.valid()
                &&& data.content.names(content.entity())
                &&& content.entity().owner() != author_id
                &&& content.bounded()
                &&& files == attachment_ids_spec(content.entity())
                &&& marked < files.len()
            },
            SubmissionView::SavingSnapshot { snapshot, report } => {
                &&& filed(report)
                &&& snapshot.report_id == report.id
                &&& report.content.names(snapshot.content.entity())
                &&& snapshot.content.entity().owner() != report.author_id
                &&& snapshot.content.bounded()
            },
            SubmissionView::SavingReport { report } => filed(report),
            SubmissionView::Announcing { report } => filed(report),
            SubmissionView::Finished { outcome } => match outcome {
                Ok(report) => filed(report),
                Err(error) => error != Error::ValidationFailed && error != Error::ActorNotAllowed,
            },
        }
    }
}

/// What holds of a report as intake files it: it is newly created, carries
/// no moderator notes, and its additional context is within bounds.
pub open spec fn filed(report: ReportView) -> bool {
    &&& report.status == ReportStatusView::Created
    &&& report.notes == Seq::<char>::empty()
    &&& report.additional_context.len() <= crate::validate::MAX_CONTEXT_LEN
}

/// Every step leads from a well-formed state to a well-formed state.
pub proof fn lemma_step_wf(state: SubmissionView, event: EventView, ids: FreshIds)
    requires
        state.wf(),
    ensures
        state.step(event, ids).wf(),
{
}

} // verus!
