//! The outside work that each state of an assembly asks for.

use vstd::prelude::*;
use crate::names::copy_names;
use crate::numeral::{decimal, numeral};
use crate::paths::RelPath;
use crate::state::{Stage, State};

verus! {

/// The outside work that a state asks for.
#[derive(Debug, PartialEq, Eq)]
pub enum Command {
    /// List the library's root.
    ListLibrary,
    /// Let the operator choose one of the exams.
    SelectExam {
        /// The exams.
        exams: Vec<String>,
    },
    /// Look whether `destination` is there in the working folder.
    ProbeDestination {
        /// The exam's folder.
        destination: RelPath,
    },
    /// Ask the operator whether the folder of `exam` is to be replaced.
    ConfirmOverwrite {
        /// The exam.
        exam: String,
    },
    /// Remove `destination` from the working folder, with all that it
    /// holds.
    RemoveDestination {
        /// The exam's folder.
        destination: RelPath,
    },
    /// Make `destination` in the working folder, and list `source` in the
    /// library.
    OpenExam {
        /// The exam's folder in the working folder.
        destination: RelPath,
        /// The exam's folder in the library.
        source: RelPath,
    },
    /// List `source` in the library.
    ListExercises {
        /// The folder of the level at hand.
        source: RelPath,
    },
    /// Create the skeleton of `exercise` at `destination` in the working
    /// folder.
    Scaffold {
        /// The folder of the exercise's project.
        destination: RelPath,
        /// The exercise.
        exercise: String,
    },
    /// Copy the template files that `source` in the library holds into the
    /// project at `destination` in the working folder.
    Materialize {
        /// The exercise's folder in the library.
        source: RelPath,
        /// The folder of the exercise's project.
        destination: RelPath,
    },
    /// Nothing: the assembly is over.
    Stop,
}

/// The exam's folder, in the working folder as in the library.
pub open spec fn exam_path(exam: Seq<char>) -> Seq<Seq<char>> {
    seq![exam]
}

/// A level's folder in the library.
pub open spec fn level_path(exam: Seq<char>, folder: Seq<char>) -> Seq<Seq<char>> {
    seq![exam, folder]
}

/// An exercise's folder in the library.
pub open spec fn exercise_path(exam: Seq<char>, folder: Seq<char>, exercise: Seq<char>) -> Seq<
    Seq<char>,
> {
    seq![exam, folder, exercise]
}

/// The folder of an exercise's project in the working folder: the level is
/// named by its number, whatever its folder in the library is called.
pub open spec fn project_path(exam: Seq<char>, ordinal: nat, exercise: Seq<char>) -> Seq<
    Seq<char>,
> {
    seq![exam, decimal(ordinal), exercise]
}

impl Command {
    /// Whether the work changes what the working folder holds.
    pub open spec fn writes(self) -> bool {
        self is RemoveDestination || self is OpenExam || self is Scaffold || self is Materialize
    }

    /// Whether the work puts something into the exam's folder.
    pub open spec fn creates(self) -> bool {
        self is OpenExam || self is Scaffold || self is Materialize
    }
}

impl State {
    /// Whether `command` is the work that the state asks for.
    pub open spec fn asks(self, command: Command) -> bool {
        match self {
            State::Idle => command is ListLibrary,
            State::LibraryDiscovered { exams } => command matches Command::SelectExam {
                exams: offered,
            } && offered@ == exams@,
            State::ExamChosen { exam, asked } => if asked {
                command matches Command::ConfirmOverwrite { exam: e } && e == exam
            } else {
                command matches Command::ProbeDestination { destination } && destination@
                    == exam_path(exam@)
            },
            State::OverwriteConfirmed { exam, cleared } => if cleared {
                command matches Command::OpenExam { destination, source } && destination@
                    == exam_path(exam@) && source@ == exam_path(exam@)
            } else {
                command matches Command::RemoveDestination { destination } && destination@
                    == exam_path(exam@)
            },
            State::PerLevel { exam, levels, slots, stage } => {
                let level = levels[slots.len() as int];
                match stage {
                    Stage::Listing => command matches Command::ListExercises { source }
                        && source@ == level_path(exam@, level.folder@),
                    Stage::Scaffolding {
                        candidates,
                        exercise,
                    } => command matches Command::Scaffold { destination, exercise: x }
                        && destination@ == project_path(exam@, level.ordinal as nat, exercise@)
                        && x == exercise,
                    Stage::Materializing {
                        candidates,
                        exercise,
                    } => command matches Command::Materialize { source, destination } && source@
                        == exercise_path(exam@, level.folder@, exercise@) && destination@
                        == project_path(exam@, level.ordinal as nat, exercise@),
                }
            },
            State::Done { exam, levels, slots } => command is Stop,
            State::Aborted => command is Stop,
            State::Failed { error } => command is Stop,
        }
    }

    /// Whether the work that the state asks for changes what the working
    /// folder holds.
    pub open spec fn asks_to_write(self) -> bool {
        ||| self is OverwriteConfirmed
        ||| self matches State::PerLevel { exam, levels, slots, stage } && !(stage is Listing)
    }

    /// Whether the work that the state asks for puts something into the
    /// exam's folder.
    pub open spec fn asks_to_create(self) -> bool {
        ||| self matches State::OverwriteConfirmed { exam, cleared } && cleared
        ||| self matches State::PerLevel { exam, levels, slots, stage } && !(stage is Listing)
    }

    /// The outside work that the state asks for.
    pub(crate) fn command(&self) -> (command: Command)
        requires
            self.wf(),
        ensures
            self.asks(command),
            command.writes() == self.asks_to_write(),
            command.creates() == self.asks_to_create(),
            command is Stop <==> self.over(),
    {
        match self {
            State::Idle => Command::ListLibrary,
            State::LibraryDiscovered { exams } => Command::SelectExam { exams: copy_names(exams) },
            State::ExamChosen { exam, asked } => if *asked {
                Command::ConfirmOverwrite { exam: exam.clone() }
            } else {
                let destination = RelPath::base().join(exam.as_str());
                Command::ProbeDestination { destination }
            },
            State::OverwriteConfirmed { exam, cleared } => {
                let destination = RelPath::base().join(exam.as_str());
                if *cleared {
                    let source = destination.copy();
                    Command::OpenExam { destination, source }
                } else {
                    Command::RemoveDestination { destination }
                }
            },
            State::PerLevel { exam, levels, slots, stage } => {
                let level = &levels[slots.len()];
                let root = RelPath::base().join(exam.as_str());
                match stage {
                    Stage::Listing => {
                        let source = root.join(level.folder.as_str());
                        assert(source@ =~= level_path(exam@, level.folder@));
                        Command::ListExercises { source }
                    },
                    Stage::Scaffolding { candidates, exercise } => {
                        let number = numeral(level.ordinal);
                        let destination = root.join(number.as_str()).join(exercise.as_str());
                        assert(destination@ =~= project_path(
                            exam@,
                            level.ordinal as nat,
                            exercise@,
                        ));
                        Command::Scaffold { destination, exercise: exercise.clone() }
                    },
                    Stage::Materializing { candidates, exercise } => {
                        let number = numeral(level.ordinal);
                        let source = root.join(level.folder.as_str()).join(exercise.as_str());
                        let destination = root.join(number.as_str()).join(exercise.as_str());
                        assert(source@ =~= exercise_path(exam@, level.folder@, exercise@));
                        assert(destination@ =~= project_path(
                            exam@,
                            level.ordinal as nat,
                            exercise@,
                        ));
                        Command::Materialize { source, destination }
                    },
                }
            },
            State::Done { exam, levels, slots } => Command::Stop,
            State::Aborted => Command::Stop,
            State::Failed { error } => Command::Stop,
        }
    }
}

} // verus!
