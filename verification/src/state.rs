//! The states of the assembly of one exam, and what each holds.

use vstd::prelude::*;
use crate::error::AssemblyError;
use crate::library::{densely_numbered, Level};
use crate::names::names_of;

verus! {

/// What became of one level of the exam.
#[derive(Debug, PartialEq, Eq)]
pub struct Slot {
    /// The level.
    pub level: Level,
    /// The exercises that the level offers.
    pub candidates: Vec<String>,
    /// The exercise that was drawn and laid out, or nothing for a level that
    /// was passed over.
    pub chosen: Option<String>,
}

/// What is being done for the level at hand.
#[derive(Debug, PartialEq, Eq)]
pub enum Stage {
    /// Its exercises are being listed.
    Listing,
    /// The skeleton of the drawn exercise is being created.
    Scaffolding {
        /// The exercises that the level offers.
        candidates: Vec<String>,
        /// The exercise that was drawn.
        exercise: String,
    },
    /// The template files of the drawn exercise are being copied.
    Materializing {
        /// The exercises that the level offers.
        candidates: Vec<String>,
        /// The exercise that was drawn.
        exercise: String,
    },
}

/// The state of an assembly.
#[derive(Debug, PartialEq, Eq)]
pub enum State {
    /// Nothing is known yet. The library's root is being listed.
    Idle,
    /// The library's exams are known. The operator is choosing one.
    LibraryDiscovered {
        /// The exams.
        exams: Vec<String>,
    },
    /// An exam is chosen.
    ExamChosen {
        /// The exam.
        exam: String,
        /// Whether the exam's folder was found in the working folder, so
        /// that the operator is being asked whether to replace it. Before
        /// that, the folder is being looked for.
        asked: bool,
    },
    /// The exam may be written: nothing stood in its place, or the operator
    /// agreed to replace what did.
    OverwriteConfirmed {
        /// The exam.
        exam: String,
        /// Whether the exam's place is free, so that the exam's levels are
        /// being listed. Before that, the earlier folder is being removed.
        cleared: bool,
    },
    /// The levels are taken in turn. The level at hand is the first that
    /// `slots` does not hold yet.
    PerLevel {
        /// The exam.
        exam: String,
        /// The exam's levels, in the order in which they are taken.
        levels: Vec<Level>,
        /// What became of the levels before the one at hand.
        slots: Vec<Slot>,
        /// What is being done for the level at hand.
        stage: Stage,
    },
    /// Every level was laid out or passed over.
    Done {
        /// The exam.
        exam: String,
        /// The exam's levels, in the order in which they were taken.
        levels: Vec<Level>,
        /// What became of each level.
        slots: Vec<Slot>,
    },
    /// The operator declined to replace the exam's folder.
    Aborted,
    /// The assembly failed.
    Failed {
        /// Why.
        error: AssemblyError,
    },
}

impl Slot {
    /// Whether the slot holds a project for a level that offers exercises,
    /// an exercise that the level offers, and none for a level that offers
    /// no exercise.
    pub open spec fn sound(self) -> bool {
        &&& self.chosen is None <==> self.candidates.len() == 0
        &&& self.chosen matches Some(exercise) ==> names_of(self.candidates@).contains(
            exercise@,
        )
    }

    /// Whether the slot records that `level`, which offers `candidates`, got
    /// the exercise `chosen`.
    pub open spec fn records(
        self,
        level: Level,
        candidates: Seq<Seq<char>>,
        chosen: Option<Seq<char>>,
    ) -> bool {
        &&& self.level.ordinal == level.ordinal
        &&& self.level.folder@ == level.folder@
        &&& names_of(self.candidates@) == candidates
        &&& match self.chosen {
            None => chosen is None,
            Some(exercise) => chosen == Some(exercise@),
        }
    }
}

/// The exam plan that `slots` amount to: the exercise that is laid out under
/// each level number, for the levels that got one.
pub open spec fn exam_plan(slots: Seq<Slot>) -> Map<int, Seq<char>> {
    Map::new(
        |number: int| 1 <= number <= slots.len() && slots[number - 1].chosen is Some,
        |number: int| slots[number - 1].chosen->0@,
    )
}

/// What `slots` holds of the levels `levels`: the levels, in order.
pub open spec fn slots_follow(slots: Seq<Slot>, levels: Seq<Level>) -> bool {
    &&& slots.len() <= levels.len()
    &&& forall|k: int|
        0 <= k < slots.len() ==> (#[trigger] slots[k]).level.ordinal == levels[k].ordinal
            && slots[k].level.folder@ == levels[k].folder@
}

/// Whether every slot of `slots` is sound.
pub open spec fn slots_sound(slots: Seq<Slot>) -> bool {
    forall|k: int| 0 <= k < slots.len() ==> (#[trigger] slots[k]).sound()
}

impl State {
    /// Whether the state is one that an assembly can be in.
    pub open spec fn wf(self) -> bool {
        match self {
            State::PerLevel { exam, levels, slots, stage } => {
                &&& slots.len() < levels.len()
                &&& densely_numbered(levels@)
                &&& slots_follow(slots@, levels@)
                &&& slots_sound(slots@)
                &&& match stage {
                    Stage::Listing => true,
                    Stage::Scaffolding { candidates, exercise } => names_of(
                        candidates@,
                    ).contains(exercise@),
                    Stage::Materializing { candidates, exercise } => names_of(
                        candidates@,
                    ).contains(exercise@),
                }
            },
            State::Done { exam, levels, slots } => {
                &&& slots.len() == levels.len()
                &&& densely_numbered(levels@)
                &&& slots_follow(slots@, levels@)
                &&& slots_sound(slots@)
            },
            _ => true,
        }
    }

    /// What became of the levels that are closed.
    pub open spec fn slots(self) -> Seq<Slot> {
        match self {
            State::PerLevel { exam, levels, slots, stage } => slots@,
            State::Done { exam, levels, slots } => slots@,
            _ => Seq::empty(),
        }
    }

    /// The exam that is chosen, once one is and as long as the assembly has
    /// neither failed nor been declined.
    pub open spec fn exam(self) -> Option<Seq<char>> {
        match self {
            State::ExamChosen { exam, asked } => Some(exam@),
            State::OverwriteConfirmed { exam, cleared } => Some(exam@),
            State::PerLevel { exam, levels, slots, stage } => Some(exam@),
            State::Done { exam, levels, slots } => Some(exam@),
            _ => None,
        }
    }

    /// Whether the assembly is over.
    pub open spec fn over(self) -> bool {
        self is Done || self is Aborted || self is Failed
    }

    /// Whether the assembly is over and has ended well: every level was
    /// laid out or passed over, or the operator declined to replace the
    /// exam's folder.
    pub open spec fn ended_well(self) -> bool {
        self is Done || self is Aborted
    }

    /// The exercise that is being laid out, if one is.
    pub open spec fn at_work(self) -> Option<String> {
        match self {
            State::PerLevel {
                exam,
                levels,
                slots,
                stage: Stage::Scaffolding { candidates, exercise },
            } => Some(exercise),
            State::PerLevel {
                exam,
                levels,
                slots,
                stage: Stage::Materializing { candidates, exercise },
            } => Some(exercise),
            _ => None,
        }
    }

    /// Whether the assembly is over, and if so, whether it ended well; it
    /// did not where it failed.
    pub fn ended(&self) -> (end: Option<bool>)
        ensures
            end is Some <==> self.over(),
            end == Some(true) <==> self.ended_well(),
            end == Some(false) <==> self is Failed,
    {
        match self {
            State::Done { exam, levels, slots } => Some(true),
            State::Aborted => Some(true),
            State::Failed { error } => Some(false),
            _ => None,
        }
    }
}

} // verus!
