use content_report::entities::{BotInformation, Entity, File, Message, Server, User, UserProfile};
use content_report::error::Error;
use content_report::intake::{report_content, Event, Request};
use content_report::query::{MessageQuery, MessageSort};
use content_report::report::{
    DataReportContent, Report, ReportStatus, ReportedContent, Snapshot, SnapshotContent,
};

/// A store that lives in memory and keeps a log of what it was asked.
#[derive(Default)]
struct Store {
    messages: Vec<Message>,
    servers: Vec<Server>,
    users: Vec<User>,
    reported: Vec<String>,
    snapshots: Vec<Snapshot>,
    reports: Vec<Report>,
    announced: Vec<Report>,
    log: Vec<String>,
    refuse_mark: Option<String>,
    refuse_snapshot: bool,
    refuse_report: bool,
    refuse_publish: bool,
    ignore_limit: bool,
}

impl Store {
    fn select(&self, query: &MessageQuery) -> Vec<Message> {
        let mut found: Vec<Message> = self
            .messages
            .iter()
            .filter(|m| m.channel == query.channel)
            .filter(|m| query.before.as_ref().map_or(true, |id| m.id < *id))
            .filter(|m| query.after.as_ref().map_or(true, |id| m.id > *id))
            .cloned()
            .collect();
        found.sort_by(|a, b| a.id.cmp(&b.id));
        if query.sort == MessageSort::Latest {
            found.reverse();
        }
        if !self.ignore_limit {
            found.truncate(query.limit);
        }
        found
    }

    fn answer(&mut self, request: &Request) -> Event {
        match request {
            Request::FetchMessage(id) => {
                self.log.push(format!("fetch message {}", id));
                match self.messages.iter().find(|m| m.id == **id) {
                    Some(m) => Event::Found(Entity::Message(m.clone())),
                    None => Event::NotFound,
                }
            }
            Request::FetchServer(id) => {
                self.log.push(format!("fetch server {}", id));
                match self.servers.iter().find(|s| s.id == **id) {
                    Some(s) => Event::Found(Entity::Server(s.clone())),
                    None => Event::NotFound,
                }
            }
            Request::FetchUser(id) => {
                self.log.push(format!("fetch user {}", id));
                match self.users.iter().find(|u| u.id == **id) {
                    Some(u) => Event::Found(Entity::User(u.clone())),
                    None => Event::NotFound,
                }
            }
            Request::FetchMessages(query) => {
                self.log.push(format!("fetch messages"));
                Event::Messages(self.select(query))
            }
            Request::MarkAttachment(id) => {
                self.log.push(format!("mark {}", id));
                if self.refuse_mark.as_ref() == Some(*id) {
                    Event::Failed
                } else {
                    self.reported.push((*id).clone());
                    Event::Completed
                }
            }
            Request::InsertSnapshot(snapshot) => {
                self.log.push(format!("insert snapshot"));
                if self.refuse_snapshot {
                    Event::Failed
                } else {
                    self.snapshots.push((*snapshot).clone());
                    Event::Completed
                }
            }
            Request::InsertReport(report) => {
                self.log.push(format!("insert report"));
                if self.refuse_report {
                    Event::Failed
                } else {
                    self.reports.push((*report).clone());
                    Event::Completed
                }
            }
            Request::Publish(report) => {
                self.log.push(format!("publish"));
                if self.refuse_publish {
                    Event::Failed
                } else {
                    self.announced.push((*report).clone());
                    Event::Completed
                }
            }
            Request::Nothing => unreachable!(),
        }
    }
}

fn submit(store: &mut Store, user: User, data: DataReportContent) -> Result<Report, Error> {
    let mut submission = report_content(user, data)?;
    while !submission.is_finished() {
        let event = store.answer(&submission.pending());
        submission = submission.step(event);
    }
    submission.into_outcome().unwrap()
}

fn file(id: &str) -> File {
    File { id: id.to_string(), filename: format!("{}.png", id) }
}

fn user(id: &str) -> User {
    User { id: id.to_string(), username: format!("user {}", id), avatar: None, profile: None, bot: None }
}

fn bot(id: &str) -> User {
    User { bot: Some(BotInformation { owner: "U0".to_string() }), ..user(id) }
}

fn message(id: &str, channel: &str, author: &str) -> Message {
    Message {
        id: id.to_string(),
        channel: channel.to_string(),
        author: author.to_string(),
        content: Some(format!("text of {}", id)),
        attachments: None,
    }
}

fn server(id: &str, owner: &str) -> Server {
    Server { id: id.to_string(), owner: owner.to_string(), name: "a server".to_string(), icon: None, banner: None }
}

fn about_message(id: &str, context: &str) -> DataReportContent {
    DataReportContent {
        content: ReportedContent::Message { id: id.to_string(), reason: "Harassment".to_string() },
        additional_context: context.to_string(),
    }
}

fn about_server(id: &str) -> DataReportContent {
    DataReportContent {
        content: ReportedContent::Server { id: id.to_string(), reason: "Illegal".to_string() },
        additional_context: String::new(),
    }
}

fn about_user(id: &str) -> DataReportContent {
    DataReportContent {
        content: ReportedContent::User { id: id.to_string(), reason: "Impersonation".to_string() },
        additional_context: String::new(),
    }
}

/// Messages `m01` to `m<count>` of channel `C1`, all written by `U2`.
fn channel(count: usize) -> Vec<Message> {
    (1..=count).map(|i| message(&format!("m{:02}", i), "C1", "U2")).collect()
}

fn ids(messages: &[Message]) -> Vec<String> {
    messages.iter().map(|m| m.id.clone()).collect()
}

fn names(list: &[&str]) -> Vec<String> {
    list.iter().map(|s| s.to_string()).collect()
}

#[test]
fn success_files_one_report_and_one_snapshot() {
    let mut store = Store { messages: channel(3), ..Store::default() };
    let report = submit(&mut store, user("U1"), about_message("m02", "rude")).unwrap();
    assert_eq!(store.reports.len(), 1);
    assert_eq!(store.snapshots.len(), 1);
    assert_eq!(store.reports[0], report);
    assert_eq!(store.snapshots[0].report_id, report.id);
    assert_eq!(store.announced, vec![report.clone()]);
    assert_eq!(report.author_id, "U1");
    assert_eq!(report.additional_context, "rude");
    assert_eq!(
        report.content,
        ReportedContent::Message { id: "m02".to_string(), reason: "Harassment".to_string() }
    );
    assert_eq!(report.status, ReportStatus::Created);
    assert_eq!(report.notes, "");
}

#[test]
fn report_and_snapshot_get_fresh_identifiers() {
    let mut store = Store { messages: channel(1), ..Store::default() };
    let first = submit(&mut store, user("U1"), about_message("m01", "")).unwrap();
    let second = submit(&mut store, user("U3"), about_message("m01", "")).unwrap();
    assert_eq!(first.id.chars().count(), 26);
    assert_eq!(store.snapshots[0].id.chars().count(), 26);
    assert_ne!(first.id, store.snapshots[0].id);
    assert_ne!(first.id, second.id);
    assert_eq!(store.reports.len(), 2);
    assert_eq!(store.snapshots.len(), 2);
    assert_eq!(store.snapshots[1].report_id, second.id);
}

#[test]
fn own_message_cannot_be_reported() {
    let mut store = Store { messages: channel(3), ..Store::default() };
    let result = submit(&mut store, user("U2"), about_message("m02", ""));
    assert_eq!(result, Err(Error::SelfReportForbidden));
    assert!(store.reports.is_empty());
    assert!(store.snapshots.is_empty());
    assert!(store.reported.is_empty());
    assert!(store.announced.is_empty());
    assert_eq!(store.log, names(&["fetch message m02"]));
}

#[test]
fn own_server_cannot_be_reported() {
    let mut store = Store { servers: vec![server("S1", "U1")], ..Store::default() };
    let result = submit(&mut store, user("U1"), about_server("S1"));
    assert_eq!(result, Err(Error::SelfReportForbidden));
    assert!(store.reports.is_empty());
    assert!(store.snapshots.is_empty());
}

#[test]
fn own_account_cannot_be_reported() {
    let mut store = Store { users: vec![user("U1")], ..Store::default() };
    let result = submit(&mut store, user("U1"), about_user("U1"));
    assert_eq!(result, Err(Error::SelfReportForbidden));
    assert!(store.reports.is_empty());
    assert!(store.snapshots.is_empty());
}

#[test]
fn bot_is_turned_away_before_anything_is_read() {
    let mut store = Store { messages: channel(3), ..Store::default() };
    assert_eq!(submit(&mut store, bot("B1"), about_message("m02", "")), Err(Error::ActorNotAllowed));
    assert_eq!(submit(&mut store, bot("B1"), about_message("gone", "")), Err(Error::ActorNotAllowed));
    assert_eq!(submit(&mut store, bot("U2"), about_message("m02", "")), Err(Error::ActorNotAllowed));
    assert!(store.log.is_empty());
    assert!(store.reports.is_empty());
}

#[test]
fn long_context_is_rejected_before_anything_is_read() {
    let mut store = Store { messages: channel(3), ..Store::default() };
    let long = "x".repeat(1001);
    assert_eq!(submit(&mut store, user("U1"), about_message("m02", &long)), Err(Error::ValidationFailed));
    assert!(store.log.is_empty());
    assert!(store.reports.is_empty());
    assert!(store.snapshots.is_empty());
}

#[test]
fn long_context_from_a_bot_fails_validation_first() {
    let mut store = Store::default();
    let long = "x".repeat(1001);
    assert_eq!(submit(&mut store, bot("B1"), about_message("m02", &long)), Err(Error::ValidationFailed));
}

#[test]
fn context_of_exactly_the_limit_is_accepted() {
    let mut store = Store { messages: channel(1), ..Store::default() };
    let full = "x".repeat(1000);
    let report = submit(&mut store, user("U1"), about_message("m01", &full)).unwrap();
    assert_eq!(report.additional_context, full);
}

#[test]
fn context_length_counts_characters_not_bytes() {
    let mut store = Store { messages: channel(1), ..Store::default() };
    let full = "\u{e9}".repeat(1000);
    assert_eq!(full.len(), 2000);
    assert!(submit(&mut store, user("U1"), about_message("m01", &full)).is_ok());
    let long = "\u{e9}".repeat(1001);
    assert_eq!(submit(&mut store, user("U1"), about_message("m01", &long)), Err(Error::ValidationFailed));
}

#[test]
fn empty_context_is_accepted() {
    let data = about_message("m01", "");
    assert_eq!(data.validate(), Ok(()));
    assert_eq!(about_message("m01", &"y".repeat(1001)).validate(), Err(Error::ValidationFailed));
}

#[test]
fn message_snapshot_keeps_the_messages_around_it() {
    let mut store = Store { messages: channel(20), ..Store::default() };
    submit(&mut store, user("U1"), about_message("m10", "")).unwrap();
    match &store.snapshots[0].content {
        SnapshotContent::Message { message, prior_context, leading_context } => {
            assert_eq!(message.id, "m10");
            assert_eq!(
                ids(prior_context),
                names(&["m09", "m08", "m07", "m06", "m05", "m04", "m03", "m02", "m01"])
            );
            assert_eq!(
                ids(leading_context),
                names(&["m11", "m12", "m13", "m14", "m15", "m16", "m17", "m18", "m19", "m20"])
            );
        }
        _ => panic!("not a message snapshot"),
    }
}

#[test]
fn message_snapshot_keeps_at_most_fifteen_on_either_side() {
    let mut store = Store { messages: channel(40), ..Store::default() };
    submit(&mut store, user("U1"), about_message("m20", "")).unwrap();
    match &store.snapshots[0].content {
        SnapshotContent::Message { prior_context, leading_context, .. } => {
            assert_eq!(prior_context.len(), 15);
            assert_eq!(prior_context[0].id, "m19");
            assert_eq!(prior_context[14].id, "m05");
            assert_eq!(leading_context.len(), 15);
            assert_eq!(leading_context[0].id, "m21");
            assert_eq!(leading_context[14].id, "m35");
        }
        _ => panic!("not a message snapshot"),
    }
}

#[test]
fn message_snapshot_cuts_what_a_store_returns_beyond_the_limit() {
    let mut store = Store { messages: channel(40), ignore_limit: true, ..Store::default() };
    submit(&mut store, user("U1"), about_message("m20", "")).unwrap();
    match &store.snapshots[0].content {
        SnapshotContent::Message { prior_context, leading_context, .. } => {
            assert_eq!(prior_context.len(), 15);
            assert_eq!(prior_context[0].id, "m19");
            assert_eq!(prior_context[14].id, "m05");
            assert_eq!(leading_context.len(), 15);
            assert_eq!(leading_context[0].id, "m21");
            assert_eq!(leading_context[14].id, "m35");
        }
        _ => panic!("not a message snapshot"),
    }
}

#[test]
fn message_at_the_edge_of_a_channel_has_empty_context() {
    let mut store = Store { messages: channel(1), ..Store::default() };
    assert!(submit(&mut store, user("U1"), about_message("m01", "")).is_ok());
    match &store.snapshots[0].content {
        SnapshotContent::Message { prior_context, leading_context, .. } => {
            assert!(prior_context.is_empty());
            assert!(leading_context.is_empty());
        }
        _ => panic!("not a message snapshot"),
    }
}

#[test]
fn message_context_comes_from_its_own_channel() {
    let mut messages = channel(5);
    messages.push(message("m025", "C2", "U9"));
    messages.push(message("m035", "C2", "U9"));
    let mut store = Store { messages, ..Store::default() };
    submit(&mut store, user("U1"), about_message("m03", "")).unwrap();
    match &store.snapshots[0].content {
        SnapshotContent::Message { prior_context, leading_context, .. } => {
            assert_eq!(ids(prior_context), names(&["m02", "m01"]));
            assert_eq!(ids(leading_context), names(&["m04", "m05"]));
        }
        _ => panic!("not a message snapshot"),
    }
}

#[test]
fn server_with_only_a_banner_has_one_attachment() {
    let reported = Server { banner: Some(file("BANNER")), ..server("S1", "U2") };
    let mut store = Store { servers: vec![reported.clone()], ..Store::default() };
    submit(&mut store, user("U1"), about_server("S1")).unwrap();
    assert_eq!(store.reported, names(&["BANNER"]));
    assert_eq!(store.snapshots[0].content, SnapshotContent::Server(reported));
}

#[test]
fn server_with_icon_and_banner_has_both_marked_in_order() {
    let reported =
        Server { icon: Some(file("ICON")), banner: Some(file("BANNER")), ..server("S1", "U2") };
    let mut store = Store { servers: vec![reported], ..Store::default() };
    submit(&mut store, user("U1"), about_server("S1")).unwrap();
    assert_eq!(store.reported, names(&["ICON", "BANNER"]));
}

#[test]
fn user_without_avatar_or_background_has_no_attachment() {
    let reported = User { profile: Some(UserProfile { content: None, background: None }), ..user("U2") };
    let mut store = Store { users: vec![reported.clone()], ..Store::default() };
    submit(&mut store, user("U1"), about_user("U2")).unwrap();
    assert!(store.reported.is_empty());
    assert_eq!(
        store.log,
        names(&["fetch user U2", "insert snapshot", "insert report", "publish"])
    );
    assert_eq!(store.snapshots[0].content, SnapshotContent::User(reported));
}

#[test]
fn user_with_avatar_and_background_has_both_marked() {
    let reported = User {
        avatar: Some(file("AVATAR")),
        profile: Some(UserProfile { content: None, background: Some(file("BACK")) }),
        ..user("U2")
    };
    let mut store = Store { users: vec![reported], ..Store::default() };
    submit(&mut store, user("U1"), about_user("U2")).unwrap();
    assert_eq!(store.reported, names(&["AVATAR", "BACK"]));
}

#[test]
fn failed_marking_files_nothing() {
    let reported = Message {
        attachments: Some(vec![file("A1"), file("A2"), file("A3")]),
        ..message("m01", "C1", "U2")
    };
    let mut store = Store {
        messages: vec![reported],
        refuse_mark: Some("A2".to_string()),
        ..Store::default()
    };
    let result = submit(&mut store, user("U1"), about_message("m01", ""));
    assert_eq!(result, Err(Error::AttachmentMarkingFailed));
    assert!(store.snapshots.is_empty());
    assert!(store.reports.is_empty());
    assert!(store.announced.is_empty());
    assert_eq!(store.reported, names(&["A1"]));
    assert_eq!(
        store.log,
        names(&["fetch message m01", "fetch messages", "fetch messages", "mark A1", "mark A2"])
    );
}

#[test]
fn missing_content_is_not_found() {
    let mut store = Store { messages: channel(3), ..Store::default() };
    assert_eq!(submit(&mut store, user("U1"), about_message("m99", "")), Err(Error::NotFound));
    assert_eq!(submit(&mut store, user("U1"), about_server("S1")), Err(Error::NotFound));
    assert_eq!(submit(&mut store, user("U1"), about_user("U7")), Err(Error::NotFound));
    assert!(store.reports.is_empty());
    assert!(store.snapshots.is_empty());
}

#[test]
fn failed_snapshot_write_files_no_report() {
    let mut store = Store { messages: channel(3), refuse_snapshot: true, ..Store::default() };
    let result = submit(&mut store, user("U1"), about_message("m02", ""));
    assert_eq!(result, Err(Error::PersistenceFailed));
    assert!(store.snapshots.is_empty());
    assert!(store.reports.is_empty());
    assert!(store.announced.is_empty());
}

#[test]
fn failed_report_write_leaves_only_the_snapshot() {
    let mut store = Store { messages: channel(3), refuse_report: true, ..Store::default() };
    let result = submit(&mut store, user("U1"), about_message("m02", ""));
    assert_eq!(result, Err(Error::PersistenceFailed));
    assert_eq!(store.snapshots.len(), 1);
    assert!(store.reports.is_empty());
    assert!(store.announced.is_empty());
}

#[test]
fn failed_announcement_does_not_fail_the_submission() {
    let mut store = Store { messages: channel(3), refuse_publish: true, ..Store::default() };
    let report = submit(&mut store, user("U1"), about_message("m02", "")).unwrap();
    assert_eq!(store.reports, vec![report]);
    assert_eq!(store.snapshots.len(), 1);
}

#[test]
fn two_reports_of_the_same_content_both_succeed() {
    let mut store = Store { messages: channel(3), ..Store::default() };
    let first = submit(&mut store, user("U1"), about_message("m02", "")).unwrap();
    let second = submit(&mut store, user("U1"), about_message("m02", "")).unwrap();
    assert_ne!(first.id, second.id);
    assert_eq!(store.reports.len(), 2);
    assert_eq!(store.snapshots.len(), 2);
}

#[test]
fn end_to_end_message_report() {
    let mut messages = vec![
        message("L1", "C1", "U3"),
        message("L2", "C1", "U2"),
        message("L3", "C1", "U4"),
        Message { attachments: Some(vec![file("A1")]), ..message("M1", "C1", "U2") },
        message("N1", "C1", "U3"),
        message("N2", "C1", "U2"),
    ];
    messages.push(message("M0", "C2", "U2"));
    let mut store = Store { messages, ..Store::default() };
    let result = submit(&mut store, user("U1"), about_message("M1", "spam"));
    let report = result.unwrap();
    assert_eq!(store.snapshots.len(), 1);
    assert_eq!(store.snapshots[0].report_id, report.id);
    match &store.snapshots[0].content {
        SnapshotContent::Message { message, prior_context, leading_context } => {
            assert_eq!(message.id, "M1");
            assert_eq!(message.author, "U2");
            assert_eq!(ids(prior_context), names(&["L3", "L2", "L1"]));
            assert_eq!(ids(leading_context), names(&["N1", "N2"]));
        }
        _ => panic!("not a message snapshot"),
    }
    assert_eq!(store.reported, names(&["A1"]));
    assert_eq!(store.announced.len(), 1);
    assert_eq!(store.announced[0], report);
    assert_eq!(store.announced[0].status, ReportStatus::Created);
    assert_eq!(store.reports, vec![report]);
    assert_eq!(
        store.log,
        names(&[
            "fetch message M1",
            "fetch messages",
            "fetch messages",
            "mark A1",
            "insert snapshot",
            "insert report",
            "publish",
        ])
    );
}
