//! What holds of every quest, whatever it is made of and whatever it has
//! seen.

use crate::blocks::BlockView;
use crate::quests::model::counted;
use crate::quests::model::QuestModel;
use crate::quests::QuestStatus;
use vstd::prelude::*;

verus! {

/// A complete quest stays complete: whatever event it sees next, it reports
/// completion again.
pub proof fn lemma_complete_stays(quest: QuestModel, event: Option<BlockView>)
    requires
        quest.status() is Complete,
    ensures
        quest.step(event).status() is Complete,
{
}

/// A complete quest stays complete over any sequence of events.
pub proof fn lemma_complete_stays_over(quest: QuestModel, events: Seq<Option<BlockView>>)
    requires
        quest.status() is Complete,
    ensures
        quest.run(events).status() is Complete,
    decreases events.len(),
{
    if events.len() > 0 {
        lemma_complete_stays_over(quest, events.drop_last());
        lemma_complete_stays(quest.run(events.drop_last()), events.last());
    }
}

/// Once a quest has reported completion after some of the events, it
/// reports completion after every one that follows.
pub proof fn lemma_completion_is_kept(quest: QuestModel, events: Seq<Option<BlockView>>, early: int, late: int)
    requires
        0 <= early <= late <= events.len(),
        quest.run(events.take(early)).status() is Complete,
    ensures
        quest.run(events.take(late)).status() is Complete,
    decreases late - early,
{
    if early < late {
        lemma_completion_is_kept(quest, events, early, late - 1);
        assert(events.take(late).drop_last() == events.take(late - 1));
        lemma_complete_stays(quest.run(events.take(late - 1)), events[late - 1]);
    }
}

/// A complete walk, walk repeat or repeat quest takes no further note of
/// events: it is left exactly as it was.
pub proof fn lemma_complete_is_settled(quest: QuestModel, event: Option<BlockView>)
    requires
        quest.status() is Complete,
        quest is Walk || quest is WalkRepeat || quest is Repeat,
    ensures
        quest.step(event) == quest,
{
}

/// A walk quest with all its events ahead is complete after some of them
/// exactly when one of these was a step onto its target.
pub proof fn lemma_walk_is_complete_after_its_block(target: BlockView, events: Seq<Option<BlockView>>)
    ensures
        (QuestModel::Walk { target, status: QuestStatus::Ongoing }).run(events) == (QuestModel::Walk {
            target,
            status: if exists|i: int| 0 <= i < events.len() && events[i] == Some(target) {
                QuestStatus::Complete
            } else {
                QuestStatus::Ongoing
            },
        }),
    decreases events.len(),
{
    if events.len() > 0 {
        let before = events.drop_last();
        lemma_walk_is_complete_after_its_block(target, before);
        if exists|i: int| 0 <= i < before.len() && before[i] == Some(target) {
            let i = choose|i: int| 0 <= i < before.len() && before[i] == Some(target);
            assert(events[i] == Some(target));
        } else if events.last() == Some(target) {
            assert(events[events.len() - 1] == Some(target));
        } else {
            assert forall|i: int| 0 <= i < events.len() implies events[i] != Some(target) by {
                if i < before.len() {
                    assert(before[i] == events[i]);
                }
            }
        }
    }
}

/// How many of the last of `events` were steps onto `target` without a
/// break: the length of the row that the events end in.
pub open spec fn row(target: BlockView, events: Seq<Option<BlockView>>) -> nat
    decreases events.len(),
{
    if events.len() == 0 || events.last() != Some(target) {
        0
    } else {
        row(target, events.drop_last()) + 1
    }
}

/// Whether `events` hold a row of `needed` steps onto `target`: whether they
/// end in such a row at some point.
pub open spec fn has_row(target: BlockView, needed: nat, events: Seq<Option<BlockView>>) -> bool {
    exists|end: int| 0 <= end <= events.len() && row(target, #[trigger] events.take(end)) >= needed
}

/// A walk repeat quest with all its events ahead is complete after some of
/// them exactly when they hold a row of as many steps onto its target as it
/// asks for. Until then it counts the row that the events end in.
pub proof fn lemma_walk_repeat_is_complete_after_its_row(
    target: BlockView,
    needed: nat,
    events: Seq<Option<BlockView>>,
)
    ensures
        (QuestModel::WalkRepeat { target, needed, run: 0, status: counted(0, needed) }).run(events)
            matches QuestModel::WalkRepeat { target: same_target, needed: same_needed, run, status }
            && same_target == target && same_needed == needed && (status is Complete <==> has_row(
            target,
            needed,
            events,
        )) && (status is Ongoing ==> run == row(target, events) && run < needed),
    decreases events.len(),
{
    if events.len() == 0 {
        assert(events.take(0) == events);
        if has_row(target, needed, events) {
            let end = choose|end: int| 0 <= end <= events.len() && row(target, #[trigger] events.take(end)) >= needed;
            assert(end == 0);
        }
    } else {
        let before = events.drop_last();
        lemma_walk_repeat_is_complete_after_its_row(target, needed, before);
        assert forall|end: int| 0 <= end <= before.len() implies #[trigger] events.take(end) == before.take(end) by {
            assert(events.take(end) =~= before.take(end));
        }
        assert(events.take(events.len() as int) == events);
        if has_row(target, needed, before) {
            let end = choose|end: int| 0 <= end <= before.len() && row(target, #[trigger] before.take(end)) >= needed;
            assert(row(target, events.take(end)) >= needed);
        } else {
            assert(before.take(before.len() as int) == before);
            if has_row(target, needed, events) {
                let end = choose|end: int|
                    0 <= end <= events.len() && row(target, #[trigger] events.take(end)) >= needed;
                if end <= before.len() {
                    assert(row(target, before.take(end)) >= needed);
                }
            }
        }
    }
}

/// An event keeps a consistent quest consistent.
pub proof fn lemma_step_keeps_wf(quest: QuestModel, event: Option<BlockView>)
    requires
        quest.wf(),
    ensures
        quest.step(event).wf(),
    decreases quest,
{
    match quest {
        QuestModel::Walk { .. } => {},
        QuestModel::WalkRepeat { .. } => {},
        QuestModel::Then { first, second, status } => {
            lemma_step_keeps_wf(*first, event);
            lemma_step_keeps_wf(*second, event);
            if status is Complete {
                lemma_complete_stays(*first, event);
                lemma_complete_stays(*second, event);
            }
        },
        QuestModel::Repeat { child, status, .. } => {
            if status is Ongoing {
                lemma_step_keeps_wf(*child, event);
                lemma_reset_keeps_wf(child.step(event));
            }
        },
        QuestModel::Majority { first, second, third, first_done, second_done, third_done, .. } => {
            if !first_done {
                lemma_step_keeps_wf(*first, event);
            }
            if !second_done {
                lemma_step_keeps_wf(*second, event);
            }
            if !third_done {
                lemma_step_keeps_wf(*third, event);
            }
        },
    }
}

/// A reset leaves a quest consistent, whatever it was before.
pub proof fn lemma_reset_keeps_wf(quest: QuestModel)
    ensures
        quest.reset().wf(),
    decreases quest,
{
    match quest {
        QuestModel::Walk { .. } => {},
        QuestModel::WalkRepeat { .. } => {},
        QuestModel::Then { first, second, .. } => {
            lemma_reset_keeps_wf(*first);
            lemma_reset_keeps_wf(*second);
        },
        QuestModel::Repeat { child, .. } => {
            lemma_reset_keeps_wf(*child);
        },
        QuestModel::Majority { first, second, third, .. } => {
            lemma_reset_keeps_wf(*first);
            lemma_reset_keeps_wf(*second);
            lemma_reset_keeps_wf(*third);
        },
    }
}

/// Any sequence of events keeps a consistent quest consistent.
pub proof fn lemma_run_keeps_wf(quest: QuestModel, events: Seq<Option<BlockView>>)
    requires
        quest.wf(),
    ensures
        quest.run(events).wf(),
    decreases events.len(),
{
    if events.len() > 0 {
        lemma_run_keeps_wf(quest, events.drop_last());
        lemma_step_keeps_wf(quest.run(events.drop_last()), events.last());
    }
}

/// A second reset changes nothing.
pub proof fn lemma_reset_twice(quest: QuestModel)
    ensures
        quest.reset().fresh(),
    decreases quest,
{
    match quest {
        QuestModel::Walk { .. } => {},
        QuestModel::WalkRepeat { .. } => {},
        QuestModel::Then { first, second, .. } => {
            lemma_reset_twice(*first);
            lemma_reset_twice(*second);
        },
        QuestModel::Repeat { child, .. } => {
            lemma_reset_twice(*child);
        },
        QuestModel::Majority { first, second, third, .. } => {
            lemma_reset_twice(*first);
            lemma_reset_twice(*second);
            lemma_reset_twice(*third);
        },
    }
}

/// A reset undoes an event: the quest is as if it had been reset before the
/// event came.
pub proof fn lemma_reset_undoes_step(quest: QuestModel, event: Option<BlockView>)
    ensures
        quest.step(event).reset() == quest.reset(),
    decreases quest,
{
    match quest {
        QuestModel::Walk { .. } => {},
        QuestModel::WalkRepeat { .. } => {},
        QuestModel::Then { first, second, .. } => {
            lemma_reset_undoes_step(*first, event);
            lemma_reset_undoes_step(*second, event);
        },
        QuestModel::Repeat { child, .. } => {
            lemma_reset_undoes_step(*child, event);
            lemma_reset_twice(child.step(event));
        },
        QuestModel::Majority { first, second, third, .. } => {
            lemma_reset_undoes_step(*first, event);
            lemma_reset_undoes_step(*second, event);
            lemma_reset_undoes_step(*third, event);
        },
    }
}

/// A reset undoes any sequence of events.
pub proof fn lemma_reset_undoes_run(quest: QuestModel, events: Seq<Option<BlockView>>)
    ensures
        quest.run(events).reset() == quest.reset(),
    decreases events.len(),
{
    if events.len() > 0 {
        lemma_reset_undoes_run(quest, events.drop_last());
        lemma_reset_undoes_step(quest.run(events.drop_last()), events.last());
    }
}

/// Reset and replay: take a quest that has made no progress, let it see
/// `seen`, reset it, and let it see `again`. It ends as if it had seen
/// `again` alone, and at every event on the way it reports what it would
/// have reported then. So the events that completed a quest complete it
/// again, at the same event, after a reset.
pub proof fn lemma_reset_and_replay(
    quest: QuestModel,
    seen: Seq<Option<BlockView>>,
    again: Seq<Option<BlockView>>,
)
    requires
        quest.fresh(),
    ensures
        quest.run(seen).reset() == quest,
        quest.run(seen).reset().run(again) == quest.run(again),
        forall|upto: int|
            0 <= upto <= again.len() ==> quest.run(seen).reset().run(#[trigger] again.take(upto)).status()
                == quest.run(again.take(upto)).status(),
{
    lemma_reset_undoes_run(quest, seen);
}

} // verus!
