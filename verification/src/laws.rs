//! What holds of every submission, whatever the store answers.
//!
//! A ledger records what the store has taken in.  A run feeds a submission
//! one answer after the other and keeps the ledger: a write that the store
//! acknowledged is in it, a write that failed is not.  The laws below relate
//! the state a run ends in to what the ledger has gained.

use crate::entities::{EntityView, MessageView, UserView};
use crate::error::Error;
use crate::protocol::{after_marks, failed, new_report, EventView, FreshIds, RequestView};
use crate::protocol::SubmissionView;
use crate::query::{leading_context_query_spec, prior_context_query_spec};
use crate::protocol::lemma_step_wf;
use crate::report::{DataReportContentView, ReportView, SnapshotView};
use crate::resolve::{attachment_ids_spec, message_files};
use crate::snapshot::message_snapshot_spec;
use vstd::prelude::*;

verus! {

/// What the store holds that submissions put there.
pub struct Ledger {
    /// The attachments flagged for retention, in the order they were flagged.
    pub reported: Seq<Seq<char>>,
    /// The snapshots written.
    pub snapshots: Seq<SnapshotView>,
    /// The reports written.
    pub reports: Seq<ReportView>,
    /// The reports announced as created.
    pub announced: Seq<ReportView>,
}

/// The ledger after `request` was answered by `event`.  A write counts when
/// the store acknowledged it; an announcement counts as soon as it is made.
pub open spec fn record(ledger: Ledger, request: RequestView, event: EventView) -> Ledger {
    match request {
        RequestView::MarkAttachment(id) => if event is Completed {
            Ledger { reported: ledger.reported.push(id), ..ledger }
        } else {
            ledger
        },
        RequestView::InsertSnapshot(snapshot) => if event is Completed {
            Ledger { snapshots: ledger.snapshots.push(snapshot), ..ledger }
        } else {
            ledger
        },
        RequestView::InsertReport(report) => if event is Completed {
            Ledger { reports: ledger.reports.push(report), ..ledger }
        } else {
            ledger
        },
        RequestView::Publish(report) => Ledger {
            announced: ledger.announced.push(report),
            ..ledger
        },
        _ => ledger,
    }
}

/// One answer of the store, with the identifiers on hand when it arrives.
pub struct Turn {
    pub event: EventView,
    pub ids: FreshIds,
}

/// The state and the ledger after the store has given `turns`, in order, to
/// a submission in `state`.
pub open spec fn run(state: SubmissionView, ledger: Ledger, turns: Seq<Turn>) -> (
    SubmissionView,
    Ledger,
)
    decreases turns.len(),
{
    if turns.len() == 0 {
        (state, ledger)
    } else {
        let (reached, kept) = run(state, ledger, turns.drop_last());
        let turn = turns.last();
        (reached.step(turn.event, turn.ids), record(kept, reached.pending(), turn.event))
    }
}

/// The ledger `now` holds one snapshot more than `before`, made for the
/// report with identifier `report_id`, and every attachment of the content
/// it captures is flagged.
pub open spec fn evidence_kept(before: Ledger, now: Ledger, report_id: Seq<char>) -> bool {
    &&& now.snapshots.len() == before.snapshots.len() + 1
    &&& now.snapshots.drop_last() == before.snapshots
    &&& now.snapshots.last().report_id == report_id
    &&& now.reported == before.reported + attachment_ids_spec(
        now.snapshots.last().content.entity(),
    )
}

/// `now` is `before`, or `before` with one snapshot added.
pub open spec fn at_most_one_more(before: Seq<SnapshotView>, now: Seq<SnapshotView>) -> bool {
    now == before || (now.len() == before.len() + 1 && now.drop_last() == before)
}

/// How far the ledger has come for a submission by `author_id` with `data`
/// that is in `state`, from the ledger `before` it started.
pub open spec fn accounted(
    state: SubmissionView,
    author_id: Seq<char>,
    data: DataReportContentView,
    before: Ledger,
    now: Ledger,
) -> bool {
    match state {
        SubmissionView::AwaitingContent { author_id: a, data: d } => {
            a == author_id && d == data && now == before
        },
        SubmissionView::AwaitingPrior { author_id: a, data: d, .. } => {
            a == author_id && d == data && now == before
        },
        SubmissionView::AwaitingLeading { author_id: a, data: d, .. } => {
            a == author_id && d == data && now == before
        },
        SubmissionView::Marking { author_id: a, data: d, files, marked, .. } => {
            &&& a == author_id
            &&& d == data
            &&& now == Ledger { reported: before.reported + files.take(marked as int), ..before }
        },
        SubmissionView::SavingSnapshot { snapshot, report } => {
            &&& report == new_report(author_id, data, report.id)
            &&& now == Ledger {
                reported: before.reported + attachment_ids_spec(snapshot.content.entity()),
                ..before
            }
        },
        SubmissionView::SavingReport { report } => {
            &&& report == new_report(author_id, data, report.id)
            &&& evidence_kept(before, now, report.id)
            &&& now.reports == before.reports
            &&& now.announced == before.announced
        },
        SubmissionView::Announcing { report } => {
            &&& report == new_report(author_id, data, report.id)
            &&& evidence_kept(before, now, report.id)
            &&& now.reports == before.reports.push(report)
            &&& now.announced == before.announced
        },
        SubmissionView::Finished { outcome } => match outcome {
            Ok(report) => {
                &&& report == new_report(author_id, data, report.id)
                &&& evidence_kept(before, now, report.id)
                &&& now.reports == before.reports.push(report)
                &&& now.announced == before.announced.push(report)
            },
            Err(error) => {
                &&& now.reports == before.reports
                &&& now.announced == before.announced
                &&& at_most_one_more(before.snapshots, now.snapshots)
                &&& error != Error::PersistenceFailed ==> now.snapshots == before.snapshots
                &&& (error == Error::NotFound || error == Error::SelfReportForbidden) ==> now
                    == before
            },
        },
    }
}

proof fn lemma_step_accounted(
    state: SubmissionView,
    author_id: Seq<char>,
    data: DataReportContentView,
    before: Ledger,
    now: Ledger,
    turn: Turn,
)
    requires
        state.wf(),
        accounted(state, author_id, data, before, now),
    ensures
        accounted(
            state.step(turn.event, turn.ids),
            author_id,
            data,
            before,
            record(now, state.pending(), turn.event),
        ),
{
    let next = state.step(turn.event, turn.ids);
    let then = record(now, state.pending(), turn.event);
    match state {
        SubmissionView::AwaitingContent { .. } | SubmissionView::AwaitingLeading { .. } => {
            match next {
                SubmissionView::Marking { files, marked, .. } => {
                    assert(before.reported + files.take(marked as int) =~= before.reported);
                },
                SubmissionView::SavingSnapshot { snapshot, .. } => {
                    assert(before.reported + attachment_ids_spec(snapshot.content.entity())
                        =~= before.reported);
                },
                _ => {},
            }
        },
        SubmissionView::Marking { files, marked, .. } => {
            if turn.event is Completed {
                assert(files.take(marked as int).push(files[marked as int]) =~= files.take(
                    marked as int + 1,
                ));
                assert((before.reported + files.take(marked as int)).push(files[marked as int])
                    =~= before.reported + files.take(marked as int + 1));
                if marked + 1 == files.len() {
                    assert(files.take(marked as int + 1) =~= files);
                }
            }
        },
        SubmissionView::SavingSnapshot { snapshot, report } => {
            if turn.event is Completed {
                assert(then.snapshots.drop_last() =~= before.snapshots);
            }
        },
        _ => {},
    }
}

/// The ledger keeps step with the submission: after any run, what the
/// ledger has gained is what the state reached accounts for.  In
/// particular a report is in the ledger only together with its snapshot and
/// with every attachment flagged, and a submission that failed has written
/// no report and announced none.
pub proof fn law_ledger_follows_state(
    author_id: Seq<char>,
    data: DataReportContentView,
    before: Ledger,
    turns: Seq<Turn>,
)
    requires
        data.valid(),
    ensures
        run(SubmissionView::start(author_id, data), before, turns).0.wf(),
        accounted(
            run(SubmissionView::start(author_id, data), before, turns).0,
            author_id,
            data,
            before,
            run(SubmissionView::start(author_id, data), before, turns).1,
        ),
    decreases turns.len(),
{
    if turns.len() > 0 {
        law_ledger_follows_state(author_id, data, before, turns.drop_last());
        let (reached, kept) = run(SubmissionView::start(author_id, data), before, turns.drop_last());
        lemma_step_wf(reached, turns.last().event, turns.last().ids);
        lemma_step_accounted(reached, author_id, data, before, kept, turns.last());
    }
}

/// A submission that succeeds has written exactly one report and exactly one
/// snapshot, and the snapshot names the report.  The report is the one
/// handed back: filed by the reporter, with the payload's content and
/// context as submitted, newly created.  It has been announced once, and
/// every attachment of the captured content was flagged before.
pub proof fn law_success_files_report_with_snapshot(
    reporter: UserView,
    data: DataReportContentView,
    before: Ledger,
    turns: Seq<Turn>,
    report: ReportView,
)
    requires
        SubmissionView::open(reporter, data) is Ok,
        run(SubmissionView::open(reporter, data)->Ok_0, before, turns).0.outcome() == Some(
            Ok::<ReportView, Error>(report),
        ),
    ensures
        ({
            let now = run(SubmissionView::open(reporter, data)->Ok_0, before, turns).1;
            &&& now.reports == before.reports.push(report)
            &&& now.snapshots.len() == before.snapshots.len() + 1
            &&& now.snapshots.drop_last() == before.snapshots
            &&& now.snapshots.last().report_id == report.id
            &&& now.announced == before.announced.push(report)
            &&& now.reported == before.reported + attachment_ids_spec(
                now.snapshots.last().content.entity(),
            )
        }),
        report == new_report(reporter.id, data, report.id),
        report.author_id == reporter.id,
{
    law_ledger_follows_state(reporter.id, data, before, turns);
}

/// A report is never filed by the owner of what it reports.  The snapshot
/// written for it captures the content that the report names, with context
/// windows no longer than the limit.
pub proof fn law_report_is_not_by_owner(
    reporter: UserView,
    data: DataReportContentView,
    before: Ledger,
    turns: Seq<Turn>,
)
    requires
        SubmissionView::open(reporter, data) is Ok,
        run(SubmissionView::open(reporter, data)->Ok_0, before, turns).1.reports
            != before.reports,
    ensures
        ({
            let now = run(SubmissionView::open(reporter, data)->Ok_0, before, turns).1;
            &&& now.reports.len() == before.reports.len() + 1
            &&& now.snapshots.len() == before.snapshots.len() + 1
            &&& now.snapshots.last().report_id == now.reports.last().id
            &&& now.reports.last().author_id == reporter.id
            &&& now.reports.last().content.names(now.snapshots.last().content.entity())
            &&& now.snapshots.last().content.entity().owner() != reporter.id
            &&& now.snapshots.last().content.bounded()
        }),
{
    law_ledger_follows_state(reporter.id, data, before, turns);
    lemma_written_snapshot_matches(reporter.id, data, before, turns);
}

/// Whether the last snapshot in `now` captures what the payload names,
/// within bounds, and that does not belong to the reporter.
spec fn snapshot_matches(now: Ledger, author_id: Seq<char>, data: DataReportContentView) -> bool {
    &&& data.content.names(now.snapshots.last().content.entity())
    &&& now.snapshots.last().content.entity().owner() != author_id
    &&& now.snapshots.last().content.bounded()
}

spec fn matched(
    state: SubmissionView,
    author_id: Seq<char>,
    data: DataReportContentView,
    before: Ledger,
    now: Ledger,
) -> bool {
    match state {
        SubmissionView::SavingReport { .. } => snapshot_matches(now, author_id, data),
        SubmissionView::Announcing { .. } => snapshot_matches(now, author_id, data),
        SubmissionView::Finished { outcome } => outcome is Ok ==> snapshot_matches(
            now,
            author_id,
            data,
        ),
        _ => true,
    }
}

proof fn lemma_written_snapshot_matches(
    author_id: Seq<char>,
    data: DataReportContentView,
    before: Ledger,
    turns: Seq<Turn>,
)
    requires
        data.valid(),
    ensures
        matched(
            run(SubmissionView::start(author_id, data), before, turns).0,
            author_id,
            data,
            before,
            run(SubmissionView::start(author_id, data), before, turns).1,
        ),
    decreases turns.len(),
{
    if turns.len() > 0 {
        lemma_written_snapshot_matches(author_id, data, before, turns.drop_last());
        law_ledger_follows_state(author_id, data, before, turns.drop_last());
    }
}

/// A submission that ends in failure has written no report and announced
/// none.  Unless the store itself failed, it has written no snapshot
/// either, and if the store failed it has left at most the one snapshot
/// behind.  Where the content was missing or the reporter's own, it has
/// changed nothing at all.
pub proof fn law_failure_files_nothing(
    reporter: UserView,
    data: DataReportContentView,
    before: Ledger,
    turns: Seq<Turn>,
    error: Error,
)
    requires
        SubmissionView::open(reporter, data) is Ok,
        run(SubmissionView::open(reporter, data)->Ok_0, before, turns).0.outcome() == Some(
            Err::<ReportView, Error>(error),
        ),
    ensures
        ({
            let now = run(SubmissionView::open(reporter, data)->Ok_0, before, turns).1;
            &&& now.reports == before.reports
            &&& now.announced == before.announced
            &&& at_most_one_more(before.snapshots, now.snapshots)
            &&& error != Error::PersistenceFailed ==> now.snapshots == before.snapshots
            &&& (error == Error::NotFound || error == Error::SelfReportForbidden) ==> now
                == before
        }),
{
    law_ledger_follows_state(reporter.id, data, before, turns);
}

/// Once a submission has ended, further answers change neither its outcome
/// nor the ledger.
pub proof fn law_finished_is_final(state: SubmissionView, ledger: Ledger, turns: Seq<Turn>)
    requires
        state.outcome() is Some,
    ensures
        run(state, ledger, turns) == (state, ledger),
    decreases turns.len(),
{
    if turns.len() > 0 {
        law_finished_is_final(state, ledger, turns.drop_last());
    }
}

/// Running on after `first` is running from where `first` led.
pub proof fn lemma_run_split(
    state: SubmissionView,
    ledger: Ledger,
    first: Seq<Turn>,
    rest: Seq<Turn>,
)
    ensures
        run(state, ledger, first + rest) == run(
            run(state, ledger, first).0,
            run(state, ledger, first).1,
            rest,
        ),
    decreases rest.len(),
{
    if rest.len() == 0 {
        assert(first + rest =~= first);
    } else {
        lemma_run_split(state, ledger, first, rest.drop_last());
        assert((first + rest).drop_last() =~= first + rest.drop_last());
        assert((first + rest).last() == rest.last());
    }
}

/// A reporter cannot report what is their own.  If the content that the
/// store hands over for the report belongs to the reporter, the submission
/// fails with `SelfReportForbidden`, whatever follows, and the ledger is as
/// it was.
pub proof fn law_self_report_is_refused(
    reporter: UserView,
    data: DataReportContentView,
    found: EntityView,
    before: Ledger,
    turns: Seq<Turn>,
)
    requires
        SubmissionView::open(reporter, data) is Ok,
        turns.len() > 0,
        turns[0].event == EventView::Found(found),
        data.content.names(found),
        found.owner() == reporter.id,
    ensures
        run(SubmissionView::open(reporter, data)->Ok_0, before, turns) == (
            failed(Error::SelfReportForbidden),
            before,
        ),
{
    let start = SubmissionView::open(reporter, data)->Ok_0;
    let first = seq![turns[0]];
    let rest = turns.subrange(1, turns.len() as int);
    assert(first + rest =~= turns);
    assert(first.drop_last() =~= Seq::<Turn>::empty());
    assert(run(start, before, first.drop_last()) == (start, before));
    assert(run(start, before, first) == (failed(Error::SelfReportForbidden), before));
    lemma_run_split(start, before, first, rest);
    law_finished_is_final(failed(Error::SelfReportForbidden), before, rest);
}

/// All or nothing.  If the store fails to flag one attachment, the
/// submission ends there with `AttachmentMarkingFailed`: whatever follows,
/// no snapshot and no report is written and nothing is announced.
pub proof fn law_failed_marking_files_nothing(
    reporter: UserView,
    data: DataReportContentView,
    before: Ledger,
    turns: Seq<Turn>,
    refusal: Turn,
    rest: Seq<Turn>,
)
    requires
        SubmissionView::open(reporter, data) is Ok,
        run(SubmissionView::open(reporter, data)->Ok_0, before, turns).0.pending()
            is MarkAttachment,
        !(refusal.event is Completed),
    ensures
        ({
            let (end, now) = run(
                SubmissionView::open(reporter, data)->Ok_0,
                before,
                turns.push(refusal) + rest,
            );
            &&& end == failed(Error::AttachmentMarkingFailed)
            &&& now.snapshots == before.snapshots
            &&& now.reports == before.reports
            &&& now.announced == before.announced
        }),
{
    let start = SubmissionView::open(reporter, data)->Ok_0;
    let struck = turns.push(refusal);
    assert(struck.drop_last() =~= turns);
    assert(struck.last() == refusal);
    let (reached, kept) = run(start, before, turns);
    assert(run(start, before, struck).0 == failed(Error::AttachmentMarkingFailed));
    lemma_run_split(start, before, struck, rest);
    law_finished_is_final(run(start, before, struck).0, run(start, before, struck).1, rest);
    law_ledger_follows_state(reporter.id, data, before, struck);
}

/// A reported message is captured with the messages around it.  When the
/// store hands over the message, then what precedes it, then what follows
/// it, the submission has asked for exactly those, and the snapshot it goes
/// on with holds the message between the nearest of each.
pub proof fn law_message_snapshot_holds_context(
    reporter: UserView,
    data: DataReportContentView,
    message: MessageView,
    prior: Seq<MessageView>,
    leading: Seq<MessageView>,
    ids: FreshIds,
)
    requires
        SubmissionView::open(reporter, data) is Ok,
        data.content.names(EntityView::Message(message)),
        message.author != reporter.id,
    ensures
        ({
            let start = SubmissionView::open(reporter, data)->Ok_0;
            let found = start.step(EventView::Found(EntityView::Message(message)), ids);
            let read = found.step(EventView::Messages(prior), ids);
            let built = read.step(EventView::Messages(leading), ids);
            &&& start.pending() == RequestView::FetchMessage(message.id)
            &&& found.pending() == RequestView::FetchMessages(prior_context_query_spec(message))
            &&& read.pending() == RequestView::FetchMessages(leading_context_query_spec(message))
            &&& built == after_marks(
                reporter.id,
                data,
                message_snapshot_spec(message, prior, leading),
                message_files(message),
                0,
                ids,
            )
        }),
{
}

} // verus!
