//! The mathematical model of a quest: a tree of goals, and how an event, a
//! reset or the passing of a whole sequence of events changes it.

use crate::blocks::BlockView;
use crate::quests::QuestStatus;
use crate::text::decimal;
use crate::text::indented;
use vstd::prelude::*;

verus! {

/// The state of a quest, as a tree.
pub enum QuestModel {
    /// Step onto a block like `target` once.
    Walk { target: BlockView, status: QuestStatus },
    /// Step onto blocks like `target` `needed` times in a row; `run` counts
    /// the steps of the current row.
    WalkRepeat { target: BlockView, needed: nat, run: nat, status: QuestStatus },
    /// Complete both quests.
    Then { first: Box<QuestModel>, second: Box<QuestModel>, status: QuestStatus },
    /// Complete `child` `needed` times; `completed` counts the times so far.
    Repeat { child: Box<QuestModel>, needed: nat, completed: nat, status: QuestStatus },
    /// Complete two of the three quests. A flag is set once its quest has
    /// reported completion.
    Majority {
        first: Box<QuestModel>,
        second: Box<QuestModel>,
        third: Box<QuestModel>,
        first_done: bool,
        second_done: bool,
        third_done: bool,
        status: QuestStatus,
    },
}

/// The status of a counter that has reached `count` of `needed`.
pub open spec fn counted(count: nat, needed: nat) -> QuestStatus {
    if count == needed {
        QuestStatus::Complete
    } else {
        QuestStatus::Ongoing
    }
}

/// `Complete` if the quest was complete before or `reached` holds now.
pub open spec fn latched(before: QuestStatus, reached: bool) -> QuestStatus {
    if before is Complete || reached {
        QuestStatus::Complete
    } else {
        QuestStatus::Ongoing
    }
}

/// How many of the three flags are set.
pub open spec fn votes(first: bool, second: bool, third: bool) -> nat {
    (if first { 1nat } else { 0nat }) + (if second { 1nat } else { 0nat }) + (if third { 1nat } else { 0nat })
}

/// The mark that a line of a report starts with: ticked for a complete quest,
/// empty for an ongoing one.
pub open spec fn marker(status: QuestStatus) -> Seq<char> {
    if status is Complete {
        "[\u{2705}] "@
    } else {
        "[ ] "@
    }
}

impl QuestModel {
    /// The status that the quest reports.
    pub open spec fn status(self) -> QuestStatus {
        match self {
            QuestModel::Walk { status, .. } => status,
            QuestModel::WalkRepeat { status, .. } => status,
            QuestModel::Then { status, .. } => status,
            QuestModel::Repeat { status, .. } => status,
            QuestModel::Majority { status, .. } => status,
        }
    }

    /// The quest after it has seen `event`.
    pub open spec fn step(self, event: Option<BlockView>) -> QuestModel
        decreases self,
    {
        match self {
            QuestModel::Walk { target, status } => QuestModel::Walk {
                target,
                status: latched(status, event == Some(target)),
            },
            QuestModel::WalkRepeat { target, needed, run, status } => {
                if status is Complete {
                    self
                } else {
                    let run = if event == Some(target) { run + 1 } else { 0 };
                    QuestModel::WalkRepeat { target, needed, run, status: counted(run, needed) }
                }
            },
            QuestModel::Then { first, second, status } => {
                let first = first.step(event);
                let second = second.step(event);
                QuestModel::Then {
                    first: Box::new(first),
                    second: Box::new(second),
                    status: latched(status, first.status() is Complete && second.status() is Complete),
                }
            },
            QuestModel::Repeat { child, needed, completed, status } => {
                if status is Complete {
                    self
                } else {
                    let child = child.step(event);
                    if child.status() is Complete {
                        let completed = completed + 1;
                        if completed == needed {
                            QuestModel::Repeat {
                                child: Box::new(child),
                                needed,
                                completed,
                                status: QuestStatus::Complete,
                            }
                        } else {
                            QuestModel::Repeat {
                                child: Box::new(child.reset()),
                                needed,
                                completed,
                                status: QuestStatus::Ongoing,
                            }
                        }
                    } else {
                        QuestModel::Repeat { child: Box::new(child), needed, completed, status }
                    }
                }
            },
            QuestModel::Majority { first, second, third, first_done, second_done, third_done, status } => {
                let first = if first_done { *first } else { first.step(event) };
                let second = if second_done { *second } else { second.step(event) };
                let third = if third_done { *third } else { third.step(event) };
                let first_done = first_done || first.status() is Complete;
                let second_done = second_done || second.status() is Complete;
                let third_done = third_done || third.status() is Complete;
                QuestModel::Majority {
                    first: Box::new(first),
                    second: Box::new(second),
                    third: Box::new(third),
                    first_done,
                    second_done,
                    third_done,
                    status: latched(status, votes(first_done, second_done, third_done) >= 2),
                }
            },
        }
    }

    /// The quest started afresh: all progress gone, here and below. A count
    /// of zero needs nothing, so such a quest is complete again at once.
    pub open spec fn reset(self) -> QuestModel
        decreases self,
    {
        match self {
            QuestModel::Walk { target, .. } => QuestModel::Walk { target, status: QuestStatus::Ongoing },
            QuestModel::WalkRepeat { target, needed, .. } => QuestModel::WalkRepeat {
                target,
                needed,
                run: 0,
                status: counted(0, needed),
            },
            QuestModel::Then { first, second, .. } => QuestModel::Then {
                first: Box::new(first.reset()),
                second: Box::new(second.reset()),
                status: QuestStatus::Ongoing,
            },
            QuestModel::Repeat { child, needed, .. } => QuestModel::Repeat {
                child: Box::new(child.reset()),
                needed,
                completed: 0,
                status: counted(0, needed),
            },
            QuestModel::Majority { first, second, third, .. } => QuestModel::Majority {
                first: Box::new(first.reset()),
                second: Box::new(second.reset()),
                third: Box::new(third.reset()),
                first_done: false,
                second_done: false,
                third_done: false,
                status: QuestStatus::Ongoing,
            },
        }
    }

    /// The report on the quest: a line with its mark and its rule, and under
    /// it the reports on the quests that it owns, in their order, each on a
    /// new line and one level further in.
    pub open spec fn text(self) -> Seq<char>
        decreases self,
    {
        match self {
            QuestModel::Walk { target, status } => marker(status) + "Walk on a "@ + target.text() + " block"@,
            QuestModel::WalkRepeat { target, needed, status, .. } => marker(status) + "Walk on exactly "@
                + decimal(needed) + " blocks of "@ + target.text() + " in a row"@,
            QuestModel::Then { first, second, status } => marker(status)
                + "You must, in order, complete each of these quests:"@ + "\n\t"@ + indented(first.text())
                + "\n\t"@ + indented(second.text()),
            QuestModel::Repeat { child, needed, completed, status } => marker(status) + "Repeat "@ + decimal(
                (needed - completed) as nat,
            ) + " times:"@ + "\n\t"@ + indented(child.text()),
            QuestModel::Majority { first, second, third, status, .. } => marker(status)
                + "You must complete at least 2 of these quests:"@ + "\n\t"@ + indented(first.text())
                + "\n\t"@ + indented(second.text()) + "\n\t"@ + indented(third.text()),
        }
    }

    /// Whether the quest is consistent with itself, here and below: a count
    /// has not passed what is needed, a counting quest is complete exactly
    /// when its count is there, the majority quest exactly when two of its
    /// flags are set, a flag is set only for a complete quest, and the then
    /// quest is complete only over two complete quests.
    pub open spec fn wf(self) -> bool
        decreases self,
    {
        match self {
            QuestModel::Walk { .. } => true,
            QuestModel::WalkRepeat { needed, run, status, .. } => {
                &&& run <= needed
                &&& status == counted(run, needed)
            },
            QuestModel::Then { first, second, status } => {
                &&& first.wf()
                &&& second.wf()
                &&& status is Complete ==> first.status() is Complete && second.status() is Complete
            },
            QuestModel::Repeat { child, needed, completed, status } => {
                &&& child.wf()
                &&& completed <= needed
                &&& status == counted(completed, needed)
            },
            QuestModel::Majority { first, second, third, first_done, second_done, third_done, status } => {
                &&& first.wf()
                &&& second.wf()
                &&& third.wf()
                &&& first_done ==> first.status() is Complete
                &&& second_done ==> second.status() is Complete
                &&& third_done ==> third.status() is Complete
                &&& status is Complete <==> votes(first_done, second_done, third_done) >= 2
            },
        }
    }

    /// Whether the quest is as it is right after a reset: without progress,
    /// here and below.
    pub open spec fn fresh(self) -> bool {
        self.reset() == self
    }

    /// The quest after it has seen `events`, first to last.
    pub open spec fn run(self, events: Seq<Option<BlockView>>) -> QuestModel
        decreases events.len(),
    {
        if events.len() == 0 {
            self
        } else {
            self.run(events.drop_last()).step(events.last())
        }
    }
}

} // verus!
