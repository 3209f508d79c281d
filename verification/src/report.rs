//! Reports, the payload that asks for one, and the snapshots kept with them.

use crate::entities::{Message, MessageView, Server, ServerView, User, UserView};
use crate::entities::{Entity, EntityView};
use vstd::prelude::*;

verus! {

/// What a report points at.  It is kept in the report exactly as submitted.
#[derive(Clone, Debug, PartialEq, Eq)]
pub enum ReportedContent {
    Message { id: String, reason: String },
    Server { id: String, reason: String },
    User { id: String, reason: String },
}

pub enum ReportedContentView {
    Message { id: Seq<char>, reason: Seq<char> },
    Server { id: Seq<char>, reason: Seq<char> },
    User { id: Seq<char>, reason: Seq<char> },
}

impl DeepView for ReportedContent {
    type V = ReportedContentView;

    open spec fn deep_view(&self) -> ReportedContentView {
        match self {
            ReportedContent::Message { id, reason } => ReportedContentView::Message {
                id: id@,
                reason: reason@,
            },
            ReportedContent::Server { id, reason } => ReportedContentView::Server {
                id: id@,
                reason: reason@,
            },
            ReportedContent::User { id, reason } => ReportedContentView::User {
                id: id@,
                reason: reason@,
            },
        }
    }
}

impl ReportedContentView {
    /// The identifier of the content referred to.
    pub open spec fn id(self) -> Seq<char> {
        match self {
            ReportedContentView::Message { id, .. } => id,
            ReportedContentView::Server { id, .. } => id,
            ReportedContentView::User { id, .. } => id,
        }
    }

    /// Whether `entity` is the content referred to: of the kind named and
    /// held under the identifier named.
    pub open spec fn names(self, entity: EntityView) -> bool {
        match (self, entity) {
            (ReportedContentView::Message { id, .. }, EntityView::Message(m)) => m.id == id,
            (ReportedContentView::Server { id, .. }, EntityView::Server(s)) => s.id == id,
            (ReportedContentView::User { id, .. }, EntityView::User(u)) => u.id == id,
            _ => false,
        }
    }
}

impl ReportedContent {
    /// The identifier of the content referred to.
    pub fn id(&self) -> (id: &String)
        ensures
            id@ == self.deep_view().id(),
    {
        match self {
            ReportedContent::Message { id, .. } => id,
            ReportedContent::Server { id, .. } => id,
            ReportedContent::User { id, .. } => id,
        }
    }

    /// Whether `entity` is the content referred to.
    pub fn names(&self, entity: &Entity) -> (b: bool)
        ensures
            b == self.deep_view().names(entity.deep_view()),
    {
        match (self, entity) {
            (ReportedContent::Message { id, .. }, Entity::Message(m)) => m.id == *id,
            (ReportedContent::Server { id, .. }, Entity::Server(s)) => s.id == *id,
            (ReportedContent::User { id, .. }, Entity::User(u)) => u.id == *id,
            _ => false,
        }
    }
}

/// Where a report stands with the moderators.  Intake only ever files a
/// report as `Created`.
#[derive(Clone, Debug, PartialEq, Eq)]
pub enum ReportStatus {
    Created,
    Rejected { rejection_reason: String },
    Resolved,
}

pub enum ReportStatusView {
    Created,
    Rejected { rejection_reason: Seq<char> },
    Resolved,
}

impl DeepView for ReportStatus {
    type V = ReportStatusView;

    open spec fn deep_view(&self) -> ReportStatusView {
        match self {
            ReportStatus::Created => ReportStatusView::Created,
            ReportStatus::Rejected { rejection_reason } => ReportStatusView::Rejected {
                rejection_reason: rejection_reason@,
            },
            ReportStatus::Resolved => ReportStatusView::Resolved,
        }
    }
}

/// A report as it is filed for moderation.
#[derive(Clone, Debug, PartialEq, Eq)]
pub struct Report {
    pub id: String,
    /// The user who filed the report.
    pub author_id: String,
    pub content: ReportedContent,
    pub additional_context: String,
    pub status: ReportStatus,
    /// Written by moderators; empty when the report is filed.
    pub notes: String,
}

pub struct ReportView {
    pub id: Seq<char>,
    pub author_id: Seq<char>,
    pub content: ReportedContentView,
    pub additional_context: Seq<char>,
    pub status: ReportStatusView,
    pub notes: Seq<char>,
}

impl DeepView for Report {
    type V = ReportView;

    open spec fn deep_view(&self) -> ReportView {
        ReportView {
            id: self.id@,
            author_id: self.author_id@,
            content: self.content.deep_view(),
            additional_context: self.additional_context@,
            status: self.status.deep_view(),
            notes: self.notes@,
        }
    }
}

/// The request to file a report: what is reported, and what the reporter
/// adds in their own words.
#[derive(Clone, Debug, PartialEq, Eq)]
pub struct DataReportContent {
    /// Content being reported.
    pub content: ReportedContent,
    /// Additional report description.
    pub additional_context: String,
}

pub struct DataReportContentView {
    pub content: ReportedContentView,
    pub additional_context: Seq<char>,
}

impl DeepView for DataReportContent {
    type V = DataReportContentView;

    open spec fn deep_view(&self) -> DataReportContentView {
        DataReportContentView {
            content: self.content.deep_view(),
            additional_context: self.additional_context@,
        }
    }
}

/// The reported content as it was when the report was made.
#[derive(Clone, Debug, PartialEq, Eq)]
pub enum SnapshotContent {
    Message {
        message: Message,
        /// The messages just before the reported one, nearest first.
        prior_context: Vec<Message>,
        /// The messages just after the reported one, nearest first.
        leading_context: Vec<Message>,
    },
    Server(Server),
    User(User),
}

pub enum SnapshotContentView {
    Message {
        message: MessageView,
        prior_context: Seq<MessageView>,
        leading_context: Seq<MessageView>,
    },
    Server(ServerView),
    User(UserView),
}

impl DeepView for SnapshotContent {
    type V = SnapshotContentView;

    open spec fn deep_view(&self) -> SnapshotContentView {
        match self {
            SnapshotContent::Message {
                message,
                prior_context,
                leading_context,
            } => SnapshotContentView::Message {
                message: message.deep_view(),
                prior_context: prior_context.deep_view(),
                leading_context: leading_context.deep_view(),
            },
            SnapshotContent::Server(s) => SnapshotContentView::Server(s.deep_view()),
            SnapshotContent::User(u) => SnapshotContentView::User(u.deep_view()),
        }
    }
}

impl SnapshotContentView {
    /// The entity that the snapshot captures.
    pub open spec fn entity(self) -> EntityView {
        match self {
            SnapshotContentView::Message { message, .. } => EntityView::Message(message),
            SnapshotContentView::Server(s) => EntityView::Server(s),
            SnapshotContentView::User(u) => EntityView::User(u),
        }
    }
}

/// A write-once record of reported content, kept for the report that caused
/// it.
#[derive(Clone, Debug, PartialEq, Eq)]
pub struct Snapshot {
    pub id: String,
    /// The report that this snapshot belongs to.
    pub report_id: String,
    pub content: SnapshotContent,
}

pub struct SnapshotView {
    pub id: Seq<char>,
    pub report_id: Seq<char>,
    pub content: SnapshotContentView,
}

impl DeepView for Snapshot {
    type V = SnapshotView;

    open spec fn deep_view(&self) -> SnapshotView {
        SnapshotView {
            id: self.id@,
            report_id: self.report_id@,
            content: self.content.deep_view(),
        }
    }
}

} // verus!
