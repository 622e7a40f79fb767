//! The steps of an assembly: the state that follows a state on the event
//! that reports the result of the work it asked for.

use vstd::prelude::*;
use crate::error::AssemblyError;
use crate::library::{
    are_levels_of, densely_numbered, folders, lemma_levels_are_as_many, list_exams,
    list_exercises, list_levels, DirEntry, DiscoveryError, Level,
};
use crate::materialize::TemplateFile;
use crate::names::{holds_name, names_of};
use crate::scaffold::ScaffoldError;
use crate::state::{slots_follow, slots_sound, Slot, Stage, State};

verus! {

/// The result of one piece of outside work.
#[derive(Debug, PartialEq, Eq)]
pub enum Event {
    /// The library's root was listed; `None` where it is missing or cannot
    /// be read.
    LibraryListed(Option<Vec<DirEntry>>),
    /// The operator chose the exam at this place among the exams.
    ExamSelected(usize),
    /// The exam's folder was looked for in the working folder: whether it
    /// is there.
    DestinationProbed(bool),
    /// The operator said whether the exam's folder is to be replaced.
    OverwriteAnswered(bool),
    /// The exam's earlier folder was to be removed: whether it was.
    DestinationRemoved(bool),
    /// The exam's folder was made, and its folder in the library listed.
    LevelsListed(Vec<DirEntry>),
    /// The folder of the level at hand was listed.
    ExercisesListed(Vec<DirEntry>),
    /// The skeleton of the drawn exercise was to be created.
    Scaffolded(Result<(), ScaffoldError>),
    /// The template files of the drawn exercise were to be copied; the
    /// error is the file whose copy failed.
    Materialized(Result<(), TemplateFile>),
}

/// What the operator is told when a level is closed.
#[derive(Debug, PartialEq, Eq)]
pub enum Progress {
    /// Nothing.
    Quiet,
    /// A level offers no exercise and was passed over.
    EmptyLevel {
        /// The level's number.
        ordinal: usize,
        /// The level's folder in the library.
        folder: String,
    },
    /// A level's exercise is laid out.
    LevelReady {
        /// The level's number.
        ordinal: usize,
        /// The exercise.
        exercise: String,
    },
}

impl Event {
    /// The exercises that a listing of a level's folder offers; none for
    /// any other event.
    pub open spec fn offers(self) -> Seq<Seq<char>> {
        match self {
            Event::ExercisesListed(entries) => folders(entries@),
            _ => Seq::empty(),
        }
    }
}

impl State {
    /// Whether `event` reports the work that the state asks for.
    pub open spec fn expects(self, event: Event) -> bool {
        match (self, event) {
            (State::Idle, Event::LibraryListed(_)) => true,
            (State::LibraryDiscovered { exams }, Event::ExamSelected(index)) => index
                < exams.len(),
            (State::ExamChosen { exam, asked }, Event::DestinationProbed(_)) => !asked,
            (State::ExamChosen { exam, asked }, Event::OverwriteAnswered(_)) => asked,
            (
                State::OverwriteConfirmed { exam, cleared },
                Event::DestinationRemoved(_),
            ) => !cleared,
            (State::OverwriteConfirmed { exam, cleared }, Event::LevelsListed(_)) => cleared,
            (
                State::PerLevel { exam, levels, slots, stage },
                Event::ExercisesListed(_),
            ) => stage is Listing,
            (
                State::PerLevel { exam, levels, slots, stage },
                Event::Scaffolded(_),
            ) => stage is Scaffolding,
            (
                State::PerLevel { exam, levels, slots, stage },
                Event::Materialized(_),
            ) => stage is Materializing,
            _ => false,
        }
    }

    /// Whether an exercise is drawn on `event`: the exercises of the level
    /// at hand are listed, and there is one at least.
    pub open spec fn draws_on(self, event: Event) -> bool {
        &&& self matches State::PerLevel { exam, levels, slots, stage: Stage::Listing }
        &&& event matches Event::ExercisesListed(entries)
        &&& folders(entries@).len() > 0
    }

    /// Whether `drawn` serves on `event`: no exercise is drawn on the event,
    /// or `drawn` is one of the exercises that the event offers.
    pub open spec fn served_by(self, event: Event, drawn: Option<String>) -> bool {
        self.draws_on(event) ==> drawn is Some && event.offers().contains(drawn->0@)
    }
}

/// Whether `next` is the state in which the level at hand of `exam` is
/// closed: `slots` has one slot more, which records the level with what it
/// offers and what it got, and the next level is at hand, or the assembly is
/// done where there is no next level.
pub open spec fn closes_level(
    exam: String,
    levels: Vec<Level>,
    slots: Vec<Slot>,
    candidates: Seq<Seq<char>>,
    chosen: Option<Seq<char>>,
    next: State,
) -> bool {
    &&& next.slots().len() == slots.len() + 1
    &&& next.slots().drop_last() == slots@
    &&& next.slots().last().records(levels[slots.len() as int], candidates, chosen)
    &&& if slots.len() + 1 == levels.len() {
        next matches State::Done { exam: e, levels: l, slots: p } && e == exam && l == levels
    } else {
        next matches State::PerLevel { exam: e, levels: l, slots: p, stage: Stage::Listing } && e
            == exam && l == levels
    }
}

/// Whether `next` is the state that follows `state` on `event`.
///
/// An event that does not report the work that the state asks for changes
/// nothing. Where an exercise is drawn, any exercise that the level offers
/// may be the one.
pub open spec fn follows(state: State, event: Event, next: State) -> bool {
    if !state.expects(event) {
        next == state
    } else {
        match (state, event) {
            (State::Idle, Event::LibraryListed(None)) => next == State::Failed {
                error: AssemblyError::Discovery(DiscoveryError::NotFound),
            },
            (State::Idle, Event::LibraryListed(Some(entries))) => if folders(entries@).len()
                == 0 {
                next == State::Failed {
                    error: AssemblyError::Discovery(DiscoveryError::EmptyLibrary),
                }
            } else {
                next matches State::LibraryDiscovered { exams } && names_of(exams@) == folders(
                    entries@,
                )
            },
            (
                State::LibraryDiscovered { exams },
                Event::ExamSelected(index),
            ) => next matches State::ExamChosen { exam, asked } && exam@ == exams[index as int]@
                && !asked,
            (State::ExamChosen { exam, asked }, Event::DestinationProbed(exists)) => if exists {
                next matches State::ExamChosen { exam: e, asked: a } && e == exam && a
            } else {
                next matches State::OverwriteConfirmed { exam: e, cleared } && e == exam
                    && cleared
            },
            (State::ExamChosen { exam, asked }, Event::OverwriteAnswered(agreed)) => if agreed {
                next matches State::OverwriteConfirmed { exam: e, cleared } && e == exam
                    && !cleared
            } else {
                next == State::Aborted
            },
            (
                State::OverwriteConfirmed { exam, cleared },
                Event::DestinationRemoved(removed),
            ) => if removed {
                next matches State::OverwriteConfirmed { exam: e, cleared: c } && e == exam && c
            } else {
                next == State::Failed { error: AssemblyError::CleanupFailure }
            },
            (
                State::OverwriteConfirmed { exam, cleared },
                Event::LevelsListed(entries),
            ) => if folders(entries@).len() == 0 {
                next matches State::Done { exam: e, levels, slots } && e == exam && levels.len()
                    == 0 && slots.len() == 0
            } else {
                next matches State::PerLevel { exam: e, levels, slots, stage: Stage::Listing }
                    && e == exam && are_levels_of(levels@, entries@) && slots.len() == 0
            },
            (
                State::PerLevel { exam, levels, slots, stage },
                Event::ExercisesListed(entries),
            ) => if folders(entries@).len() == 0 {
                closes_level(exam, levels, slots, Seq::empty(), None, next)
            } else {
                next matches State::PerLevel {
                    exam: e,
                    levels: l,
                    slots: p,
                    stage: Stage::Scaffolding { candidates, exercise },
                } && e == exam && l == levels && p == slots && names_of(candidates@) == folders(
                    entries@,
                ) && names_of(candidates@).contains(exercise@)
            },
            (
                State::PerLevel {
                    exam,
                    levels,
                    slots,
                    stage: Stage::Scaffolding { candidates, exercise },
                },
                Event::Scaffolded(result),
            ) => match result {
                Ok(_) => next matches State::PerLevel {
                    exam: e,
                    levels: l,
                    slots: p,
                    stage: Stage::Materializing { candidates: c, exercise: x },
                } && e == exam && l == levels && p == slots && c == candidates && x == exercise,
                Err(ScaffoldError::GeneratorFailure) => next matches State::Failed {
                    error: AssemblyError::GeneratorFailure { exercise: x },
                } && x == exercise,
                Err(ScaffoldError::RelocationFailure) => next matches State::Failed {
                    error: AssemblyError::RelocationFailure { exercise: x },
                } && x == exercise,
            },
            (
                State::PerLevel {
                    exam,
                    levels,
                    slots,
                    stage: Stage::Materializing { candidates, exercise },
                },
                Event::Materialized(result),
            ) => match result {
                Ok(_) => closes_level(
                    exam,
                    levels,
                    slots,
                    names_of(candidates@),
                    Some(exercise@),
                    next,
                ),
                Err(file) => next == State::Failed { error: AssemblyError::CopyFailure { file } },
            },
            _ => next == state,
        }
    }
}

/// The name of a chosen exercise, if one is chosen.
pub open spec fn name_of(chosen: Option<String>) -> Option<Seq<char>> {
    match chosen {
        Some(exercise) => Some(exercise@),
        None => None,
    }
}

/// Whether `progress` tells what `slot` holds: that the level was passed
/// over, or which exercise is laid out for it.
pub open spec fn tells(progress: Progress, slot: Slot) -> bool {
    match slot.chosen {
        None => progress matches Progress::EmptyLevel { ordinal, folder } && ordinal
            == slot.level.ordinal && folder@ == slot.level.folder@,
        Some(chosen) => progress matches Progress::LevelReady { ordinal, exercise } && ordinal
            == slot.level.ordinal && exercise@ == chosen@,
    }
}

/// Whether `progress` is what the operator is told on the step from `state`
/// to `next`: what became of the level that the step closed, and nothing
/// where it closed none.
pub open spec fn reports(state: State, next: State, progress: Progress) -> bool {
    if next.slots().len() == state.slots().len() + 1 {
        tells(progress, next.slots().last())
    } else {
        progress is Quiet
    }
}

/// Closes the level at hand with what it offers and what it got.
fn close_level(
    exam: String,
    levels: Vec<Level>,
    slots: Vec<Slot>,
    candidates: Vec<String>,
    chosen: Option<String>,
) -> (closed: (State, Progress))
    requires
        slots.len() < levels.len(),
        densely_numbered(levels@),
        slots_follow(slots@, levels@),
        slots_sound(slots@),
        chosen is None <==> candidates.len() == 0,
        chosen matches Some(exercise) ==> names_of(candidates@).contains(exercise@),
    ensures
        closes_level(exam, levels, slots, names_of(candidates@), name_of(chosen), closed.0),
        closed.0.wf(),
        tells(closed.1, closed.0.slots().last()),
{
    let ghost before = slots@;
    let level = levels[slots.len()].copy();
    let progress = match &chosen {
        None => Progress::EmptyLevel { ordinal: level.ordinal, folder: level.folder.clone() },
        Some(exercise) => Progress::LevelReady {
            ordinal: level.ordinal,
            exercise: exercise.clone(),
        },
    };
    let mut grown = slots;
    grown.push(Slot { level, candidates, chosen });
    assert(grown@.drop_last() =~= before);
    assert(slots_sound(grown@));
    assert(slots_follow(grown@, levels@));
    if grown.len() == levels.len() {
        (State::Done { exam, levels, slots: grown }, progress)
    } else {
        (State::PerLevel { exam, levels, slots: grown, stage: Stage::Listing }, progress)
    }
}

/// The state that follows `state` on `event`, and what the operator is
/// told; `drawn` is the exercise that was drawn, where the event calls for a
/// draw. An event that does not report the work that the state asks for
/// changes nothing, and neither does an event that calls for a draw where
/// `drawn` is none of the exercises that the level offers.
pub(crate) fn advance(state: State, event: Event, drawn: Option<String>) -> (next: (
    State,
    Progress,
))
    requires
        state.wf(),
    ensures
        state.served_by(event, drawn) ==> follows(state, event, next.0),
        state.served_by(event, drawn) && state.draws_on(event) ==> next.0.at_work() == drawn,
        !state.served_by(event, drawn) ==> next.0 == state,
        next.0.wf(),
        reports(state, next.0, next.1),
{
    match state {
        State::Idle => match event {
            Event::LibraryListed(listing) => match list_exams(listing.as_ref()) {
                Ok(exams) => (State::LibraryDiscovered { exams }, Progress::Quiet),
                Err(error) => (
                    State::Failed { error: AssemblyError::Discovery(error) },
                    Progress::Quiet,
                ),
            },
            _ => (State::Idle, Progress::Quiet),
        },
        State::LibraryDiscovered { exams } => match event {
            Event::ExamSelected(index) => if index < exams.len() {
                let exam = exams[index].clone();
                (State::ExamChosen { exam, asked: false }, Progress::Quiet)
            } else {
                (State::LibraryDiscovered { exams }, Progress::Quiet)
            },
            _ => (State::LibraryDiscovered { exams }, Progress::Quiet),
        },
        State::ExamChosen { exam, asked } => match event {
            Event::DestinationProbed(exists) => if asked {
                (State::ExamChosen { exam, asked }, Progress::Quiet)
            } else if exists {
                (State::ExamChosen { exam, asked: true }, Progress::Quiet)
            } else {
                (State::OverwriteConfirmed { exam, cleared: true }, Progress::Quiet)
            },
            Event::OverwriteAnswered(agreed) => if !asked {
                (State::ExamChosen { exam, asked }, Progress::Quiet)
            } else if agreed {
                (State::OverwriteConfirmed { exam, cleared: false }, Progress::Quiet)
            } else {
                (State::Aborted, Progress::Quiet)
            },
            _ => (State::ExamChosen { exam, asked }, Progress::Quiet),
        },
        State::OverwriteConfirmed { exam, cleared } => match event {
            Event::DestinationRemoved(removed) => if cleared {
                (State::OverwriteConfirmed { exam, cleared }, Progress::Quiet)
            } else if removed {
                (State::OverwriteConfirmed { exam, cleared: true }, Progress::Quiet)
            } else {
                (State::Failed { error: AssemblyError::CleanupFailure }, Progress::Quiet)
            },
            Event::LevelsListed(entries) => if !cleared {
                (State::OverwriteConfirmed { exam, cleared }, Progress::Quiet)
            } else {
                let levels = list_levels(&entries);
                proof {
                    lemma_levels_are_as_many(levels@, entries@);
                }
                let slots: Vec<Slot> = Vec::new();
                if levels.len() == 0 {
                    (State::Done { exam, levels, slots }, Progress::Quiet)
                } else {
                    (
                        State::PerLevel { exam, levels, slots, stage: Stage::Listing },
                        Progress::Quiet,
                    )
                }
            },
            _ => (State::OverwriteConfirmed { exam, cleared }, Progress::Quiet),
        },
        State::PerLevel { exam, levels, slots, stage } => match stage {
            Stage::Listing => match event {
                Event::ExercisesListed(entries) => {
                    let candidates = list_exercises(&entries);
                    if candidates.len() == 0 {
                        assert(names_of(candidates@) =~= Seq::<Seq<char>>::empty());
                        close_level(exam, levels, slots, candidates, None)
                    } else {
                        let served = match &drawn {
                            Some(exercise) => holds_name(&candidates, exercise),
                            None => false,
                        };
                        match drawn {
                            Some(exercise) => if served {
                                (
                                    State::PerLevel {
                                        exam,
                                        levels,
                                        slots,
                                        stage: Stage::Scaffolding { candidates, exercise },
                                    },
                                    Progress::Quiet,
                                )
                            } else {
                                (
                                    State::PerLevel { exam, levels, slots, stage: Stage::Listing },
                                    Progress::Quiet,
                                )
                            },
                            None => (
                                State::PerLevel { exam, levels, slots, stage: Stage::Listing },
                                Progress::Quiet,
                            ),
                        }
                    }
                },
                _ => (
                    State::PerLevel { exam, levels, slots, stage: Stage::Listing },
                    Progress::Quiet,
                ),
            },
            Stage::Scaffolding { candidates, exercise } => match event {
                Event::Scaffolded(result) => match result {
                    Ok(_) => (
                        State::PerLevel {
                            exam,
                            levels,
                            slots,
                            stage: Stage::Materializing { candidates, exercise },
                        },
                        Progress::Quiet,
                    ),
                    Err(ScaffoldError::GeneratorFailure) => (
                        State::Failed { error: AssemblyError::GeneratorFailure { exercise } },
                        Progress::Quiet,
                    ),
                    Err(ScaffoldError::RelocationFailure) => (
                        State::Failed { error: AssemblyError::RelocationFailure { exercise } },
                        Progress::Quiet,
                    ),
                },
                _ => (
                    State::PerLevel {
                        exam,
                        levels,
                        slots,
                        stage: Stage::Scaffolding { candidates, exercise },
                    },
                    Progress::Quiet,
                ),
            },
            Stage::Materializing { candidates, exercise } => match event {
                Event::Materialized(result) => match result {
                    Ok(_) => {
                        close_level(exam, levels, slots, candidates, Some(exercise))
                    },
                    Err(file) => (
                        State::Failed { error: AssemblyError::CopyFailure { file } },
                        Progress::Quiet,
                    ),
                },
                _ => (
                    State::PerLevel {
                        exam,
                        levels,
                        slots,
                        stage: Stage::Materializing { candidates, exercise },
                    },
                    Progress::Quiet,
                ),
            },
        },
        State::Done { exam, levels, slots } => (
            State::Done { exam, levels, slots },
            Progress::Quiet,
        ),
        State::Aborted => (State::Aborted, Progress::Quiet),
        State::Failed { error } => (State::Failed { error }, Progress::Quiet),
    }
}

} // verus!
