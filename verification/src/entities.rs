//! The platform content that can be reported, as far as a report reads it.

use vstd::prelude::*;

verus! {

/// A stored binary attachment.
#[derive(Clone, Debug, PartialEq, Eq)]
pub struct File {
    pub id: String,
    pub filename: String,
}

pub struct FileView {
    pub id: Seq<char>,
    pub filename: Seq<char>,
}

impl DeepView for File {
    type V = FileView;

    open spec fn deep_view(&self) -> FileView {
        FileView { id: self.id@, filename: self.filename@ }
    }
}

/// A message in a channel.
#[derive(Clone, Debug, PartialEq, Eq)]
pub struct Message {
    pub id: String,
    pub channel: String,
    pub author: String,
    pub content: Option<String>,
    pub attachments: Option<Vec<File>>,
}

pub struct MessageView {
    pub id: Seq<char>,
    pub channel: Seq<char>,
    pub author: Seq<char>,
    pub content: Option<Seq<char>>,
    pub attachments: Option<Seq<FileView>>,
}

impl DeepView for Message {
    type V = MessageView;

    open spec fn deep_view(&self) -> MessageView {
        MessageView {
            id: self.id@,
            channel: self.channel@,
            author: self.author@,
            content: self.content.deep_view(),
            attachments: self.attachments.deep_view(),
        }
    }
}

/// A server (a community with its channels).
#[derive(Clone, Debug, PartialEq, Eq)]
pub struct Server {
    pub id: String,
    pub owner: String,
    pub name: String,
    pub icon: Option<File>,
    pub banner: Option<File>,
}

pub struct ServerView {
    pub id: Seq<char>,
    pub owner: Seq<char>,
    pub name: Seq<char>,
    pub icon: Option<FileView>,
    pub banner: Option<FileView>,
}

impl DeepView for Server {
    type V = ServerView;

    open spec fn deep_view(&self) -> ServerView {
        ServerView {
            id: self.id@,
            owner: self.owner@,
            name: self.name@,
            icon: self.icon.deep_view(),
            banner: self.banner.deep_view(),
        }
    }
}

/// The public profile of a user.
#[derive(Clone, Debug, PartialEq, Eq)]
pub struct UserProfile {
    pub content: Option<String>,
    pub background: Option<File>,
}

pub struct UserProfileView {
    pub content: Option<Seq<char>>,
    pub background: Option<FileView>,
}

impl DeepView for UserProfile {
    type V = UserProfileView;

    open spec fn deep_view(&self) -> UserProfileView {
        UserProfileView {
            content: self.content.deep_view(),
            background: self.background.deep_view(),
        }
    }
}

/// What marks an account as a bot.
#[derive(Clone, Debug, PartialEq, Eq)]
pub struct BotInformation {
    /// The user who runs the bot.
    pub owner: String,
}

pub struct BotInformationView {
    pub owner: Seq<char>,
}

impl DeepView for BotInformation {
    type V = BotInformationView;

    open spec fn deep_view(&self) -> BotInformationView {
        BotInformationView { owner: self.owner@ }
    }
}

/// A user account: the caller who reports, or the user who is reported.
#[derive(Clone, Debug, PartialEq, Eq)]
pub struct User {
    pub id: String,
    pub username: String,
    pub avatar: Option<File>,
    pub profile: Option<UserProfile>,
    /// Present exactly when the account is a bot.
    pub bot: Option<BotInformation>,
}

pub struct UserView {
    pub id: Seq<char>,
    pub username: Seq<char>,
    pub avatar: Option<FileView>,
    pub profile: Option<UserProfileView>,
    pub bot: Option<BotInformationView>,
}

impl DeepView for User {
    type V = UserView;

    open spec fn deep_view(&self) -> UserView {
        UserView {
            id: self.id@,
            username: self.username@,
            avatar: self.avatar.deep_view(),
            profile: self.profile.deep_view(),
            bot: self.bot.deep_view(),
        }
    }
}

impl UserView {
    /// Whether the account is a bot.
    pub open spec fn is_bot(self) -> bool {
        self.bot is Some
    }
}

impl User {
    /// Whether the account is a bot.
    pub fn is_bot(&self) -> (b: bool)
        ensures
            b == self.deep_view().is_bot(),
    {
        self.bot.is_some()
    }
}

/// A piece of content that a report can refer to, as the store holds it.
#[derive(Clone, Debug, PartialEq, Eq)]
pub enum Entity {
    Message(Message),
    Server(Server),
    User(User),
}

pub enum EntityView {
    Message(MessageView),
    Server(ServerView),
    User(UserView),
}

impl DeepView for Entity {
    type V = EntityView;

    open spec fn deep_view(&self) -> EntityView {
        match self {
            Entity::Message(m) => EntityView::Message(m.deep_view()),
            Entity::Server(s) => EntityView::Server(s.deep_view()),
            Entity::User(u) => EntityView::User(u.deep_view()),
        }
    }
}

impl EntityView {
    /// The identifier under which the store holds the entity.
    pub open spec fn id(self) -> Seq<char> {
        match self {
            EntityView::Message(m) => m.id,
            EntityView::Server(s) => s.id,
            EntityView::User(u) => u.id,
        }
    }

    /// The user to whom the entity belongs: the author of a message, the
    /// owner of a server, a user themselves.
    pub open spec fn owner(self) -> Seq<char> {
        match self {
            EntityView::Message(m) => m.author,
            EntityView::Server(s) => s.owner,
            EntityView::User(u) => u.id,
        }
    }
}

} // verus!
