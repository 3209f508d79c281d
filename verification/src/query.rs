//! Queries for the messages around a reported message.

use crate::entities::{Message, MessageView};
use vstd::prelude::*;

verus! {

/// Most messages kept on either side of a reported message.
pub const CONTEXT_LIMIT: usize = 15;

/// The order in which a query wants its messages.
#[derive(Clone, Copy, Debug, PartialEq, Eq, Structural)]
pub enum MessageSort {
    /// Newest first.
    Latest,
    /// Oldest first.
    Oldest,
}

/// A request for messages of one channel.
#[derive(Clone, Debug, PartialEq, Eq)]
pub struct MessageQuery {
    /// The channel to read from.
    pub channel: String,
    /// Only messages strictly before the message with this identifier.
    pub before: Option<String>,
    /// Only messages strictly after the message with this identifier.
    pub after: Option<String>,
    /// Most messages to return.
    pub limit: usize,
    pub sort: MessageSort,
}

pub struct MessageQueryView {
    pub channel: Seq<char>,
    pub before: Option<Seq<char>>,
    pub after: Option<Seq<char>>,
    pub limit: usize,
    pub sort: MessageSort,
}

impl DeepView for MessageQuery {
    type V = MessageQueryView;

    open spec fn deep_view(&self) -> MessageQueryView {
        MessageQueryView {
            channel: self.channel@,
            before: self.before.deep_view(),
            after: self.after.deep_view(),
            limit: self.limit,
            sort: self.sort,
        }
    }
}

/// The query for what was said just before `message`: the nearest
/// `CONTEXT_LIMIT` messages of its channel that precede it, newest first.
pub open spec fn prior_context_query_spec(message: MessageView) -> MessageQueryView {
    MessageQueryView {
        channel: message.channel,
        before: Some(message.id),
        after: None,
        limit: CONTEXT_LIMIT,
        sort: MessageSort::Latest,
    }
}

/// The query for what was said just after `message`: the nearest
/// `CONTEXT_LIMIT` messages of its channel that follow it, oldest first.
pub open spec fn leading_context_query_spec(message: MessageView) -> MessageQueryView {
    MessageQueryView {
        channel: message.channel,
        before: None,
        after: Some(message.id),
        limit: CONTEXT_LIMIT,
        sort: MessageSort::Oldest,
    }
}

/// Builds the query for the messages just before `message`.
pub fn prior_context_query(message: &Message) -> (q: MessageQuery)
    ensures
        q.deep_view() == prior_context_query_spec(message.deep_view()),
{
    MessageQuery {
        channel: message.channel.clone(),
        before: Some(message.id.clone()),
        after: None,
        limit: CONTEXT_LIMIT,
        sort: MessageSort::Latest,
    }
}

/// Builds the query for the messages just after `message`.
pub fn leading_context_query(message: &Message) -> (q: MessageQuery)
    ensures
        q.deep_view() == leading_context_query_spec(message.deep_view()),
{
    MessageQuery {
        channel: message.channel.clone(),
        before: None,
        after: Some(message.id.clone()),
        limit: CONTEXT_LIMIT,
        sort: MessageSort::Oldest,
    }
}

} // verus!
