//! Building the snapshot of reported content.

use crate::entities::{Entity, EntityView, Message, MessageView};
use crate::query::CONTEXT_LIMIT;
use crate::report::{SnapshotContent, SnapshotContentView};
use vstd::prelude::*;

verus! {

/// The part of a fetched run of messages that a snapshot keeps: the first
/// `CONTEXT_LIMIT` of them, which in the order asked for are the nearest to
/// the reported message.  A shorter run is kept whole.
pub open spec fn context_window_spec(fetched: Seq<MessageView>) -> Seq<MessageView> {
    if fetched.len() <= CONTEXT_LIMIT {
        fetched
    } else {
        fetched.subrange(0, CONTEXT_LIMIT as int)
    }
}

/// The snapshot of a message with the messages around it.
pub open spec fn message_snapshot_spec(
    message: MessageView,
    prior: Seq<MessageView>,
    leading: Seq<MessageView>,
) -> SnapshotContentView {
    SnapshotContentView::Message {
        message,
        prior_context: context_window_spec(prior),
        leading_context: context_window_spec(leading),
    }
}

/// The snapshot of an entity, given the messages fetched around it.  Only a
/// message has context; a server or a user is captured as it is.
pub open spec fn build_spec(
    entity: EntityView,
    prior: Seq<MessageView>,
    leading: Seq<MessageView>,
) -> SnapshotContentView {
    match entity {
        EntityView::Message(m) => message_snapshot_spec(m, prior, leading),
        EntityView::Server(s) => SnapshotContentView::Server(s),
        EntityView::User(u) => SnapshotContentView::User(u),
    }
}

impl SnapshotContentView {
    /// Neither context window is longer than `CONTEXT_LIMIT`.
    pub open spec fn bounded(self) -> bool {
        match self {
            SnapshotContentView::Message { prior_context, leading_context, .. } => {
                prior_context.len() <= CONTEXT_LIMIT && leading_context.len() <= CONTEXT_LIMIT
            },
            _ => true,
        }
    }
}

/// Cuts a fetched run of messages down to the window that a snapshot keeps.
pub fn context_window(fetched: Vec<Message>) -> (window: Vec<Message>)
    ensures
        window.deep_view() == context_window_spec(fetched.deep_view()),
        window.len() <= CONTEXT_LIMIT,
{
    let mut window = fetched;
    window.truncate(CONTEXT_LIMIT);
    assert(window.deep_view() =~= context_window_spec(fetched.deep_view()));
    window
}

/// Captures `entity` as it is, together with the messages fetched just
/// before and just after it where it is a message.
pub fn build(entity: Entity, prior: Vec<Message>, leading: Vec<Message>) -> (content:
    SnapshotContent)
    ensures
        content.deep_view() == build_spec(
            entity.deep_view(),
            prior.deep_view(),
            leading.deep_view(),
        ),
        content.deep_view().bounded(),
        content.deep_view().entity() == entity.deep_view(),
{
    match entity {
        Entity::Message(message) => SnapshotContent::Message {
            message,
            prior_context: context_window(prior),
            leading_context: context_window(leading),
        },
        Entity::Server(s) => SnapshotContent::Server(s),
        Entity::User(u) => SnapshotContent::User(u),
    }
}

} // verus!
