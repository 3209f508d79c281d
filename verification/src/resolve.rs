//! Resolving a report's reference: is the content there, may this reporter
//! report it, and which attachments does it carry.

use crate::entities::{Entity, EntityView, File, FileView, Message, MessageView};
use crate::entities::{Server, ServerView, User, UserView};
use crate::error::Error;
use crate::report::{ReportedContent, ReportedContentView};
use vstd::prelude::*;

verus! {

/// The identifier of an attachment that may be absent, as a list of at most
/// one.
pub open spec fn optional_id(file: Option<FileView>) -> Seq<Seq<char>> {
    match file {
        Some(f) => seq![f.id],
        None => Seq::empty(),
    }
}

/// The identifiers of a message's attachments, in the order the message
/// holds them.
pub open spec fn message_files(message: MessageView) -> Seq<Seq<char>> {
    match message.attachments {
        Some(files) => Seq::new(files.len(), |i: int| files[i].id),
        None => Seq::empty(),
    }
}

/// A server's icon, then its banner, each where it has one.
pub open spec fn server_files(server: ServerView) -> Seq<Seq<char>> {
    optional_id(server.icon) + optional_id(server.banner)
}

/// A user's avatar, then the background of their profile, each where they
/// have one.
pub open spec fn user_files(user: UserView) -> Seq<Seq<char>> {
    optional_id(user.avatar) + optional_id(
        match user.profile {
            Some(profile) => profile.background,
            None => None,
        },
    )
}

/// The identifiers of the attachments that an entity refers to.
pub open spec fn attachment_ids_spec(entity: EntityView) -> Seq<Seq<char>> {
    match entity {
        EntityView::Message(m) => message_files(m),
        EntityView::Server(s) => server_files(s),
        EntityView::User(u) => user_files(u),
    }
}

/// What resolving a reference comes to, once the store has handed over what
/// it holds under it.  Content of another kind or under another identifier
/// is not the content referred to, so the reference is dangling; content
/// that belongs to the reporter cannot be reported by them.
pub open spec fn resolve_spec(
    reference: ReportedContentView,
    reporter: Seq<char>,
    found: EntityView,
) -> Result<(EntityView, Seq<Seq<char>>), Error> {
    if !reference.names(found) {
        Err(Error::NotFound)
    } else if found.owner() == reporter {
        Err(Error::SelfReportForbidden)
    } else {
        Ok((found, attachment_ids_spec(found)))
    }
}

/// What the reporter's account alone decides: a bot cannot report.
pub open spec fn admit_reporter_spec(reporter: UserView) -> Result<(), Error> {
    if reporter.is_bot() {
        Err(Error::ActorNotAllowed)
    } else {
        Ok(())
    }
}

fn push_optional_id(ids: &mut Vec<String>, file: &Option<File>)
    ensures
        final(ids).deep_view() == old(ids).deep_view() + optional_id(file.deep_view()),
{
    match file {
        Some(f) => {
            ids.push(f.id.clone());
        },
        None => {},
    }
    assert(ids.deep_view() =~= old(ids).deep_view() + optional_id(file.deep_view()));
}

fn message_attachment_ids(message: &Message) -> (ids: Vec<String>)
    ensures
        ids.deep_view() == message_files(message.deep_view()),
{
    let mut ids: Vec<String> = Vec::new();
    match &message.attachments {
        Some(files) => {
            let mut i: usize = 0;
            while i < files.len()
                invariant
                    i <= files.len(),
                    ids.len() == i,
                    forall|j: int| 0 <= j < i ==> ids[j]@ == #[trigger] files[j].id@,
                decreases files.len() - i,
            {
                ids.push(files[i].id.clone());
                i += 1;
            }
            assert(ids.deep_view() =~= message_files(message.deep_view()));
        },
        None => {
            assert(ids.deep_view() =~= message_files(message.deep_view()));
        },
    }
    ids
}

/// Lists the identifiers of the attachments that `entity` refers to: all of
/// a message's attachments; a server's icon and banner; a user's avatar and
/// profile background.  What is absent is left out.
pub fn attachment_ids(entity: &Entity) -> (ids: Vec<String>)
    ensures
        ids.deep_view() == attachment_ids_spec(entity.deep_view()),
{
    match entity {
        Entity::Message(m) => message_attachment_ids(m),
        Entity::Server(s) => {
            let mut ids: Vec<String> = Vec::new();
            assert(ids.deep_view() =~= Seq::<Seq<char>>::empty());
            push_optional_id(&mut ids, &s.icon);
            push_optional_id(&mut ids, &s.banner);
            assert(ids.deep_view() =~= server_files(s.deep_view()));
            ids
        },
        Entity::User(u) => {
            let mut ids: Vec<String> = Vec::new();
            assert(ids.deep_view() =~= Seq::<Seq<char>>::empty());
            push_optional_id(&mut ids, &u.avatar);
            match &u.profile {
                Some(profile) => {
                    push_optional_id(&mut ids, &profile.background);
                },
                None => {},
            }
            assert(ids.deep_view() =~= user_files(u.deep_view()));
            ids
        },
    }
}

impl Entity {
    /// The user to whom the entity belongs.
    pub fn owner(&self) -> (owner: &String)
        ensures
            owner@ == self.deep_view().owner(),
    {
        match self {
            Entity::Message(m) => &m.author,
            Entity::Server(s) => &s.owner,
            Entity::User(u) => &u.id,
        }
    }
}

/// Turns away reporters that may not report at all.
pub fn admit_reporter(reporter: &User) -> (r: Result<(), Error>)
    ensures
        r == admit_reporter_spec(reporter.deep_view()),
{
    if reporter.is_bot() {
        Err(Error::ActorNotAllowed)
    } else {
        Ok(())
    }
}

/// Resolves `reference` against `found`, which is what the store holds
/// under the reference's identifier.  On success the entity comes back with
/// the identifiers of its attachments.
pub fn resolve(reference: &ReportedContent, reporter: &String, found: Entity) -> (r: Result<
    (Entity, Vec<String>),
    Error,
>)
    ensures
        match r {
            Ok((entity, ids)) => resolve_spec(reference.deep_view(), reporter@, found.deep_view())
                == Ok::<(EntityView, Seq<Seq<char>>), Error>((entity.deep_view(), ids.deep_view())),
            Err(e) => resolve_spec(reference.deep_view(), reporter@, found.deep_view())
                == Err::<(EntityView, Seq<Seq<char>>), Error>(e),
        },
{
    if !reference.names(&found) {
        Err(Error::NotFound)
    } else if *found.owner() == *reporter {
        Err(Error::SelfReportForbidden)
    } else {
        let ids = attachment_ids(&found);
        Ok((found, ids))
    }
}

} // verus!
