use exam_builder::assembly::Assembly;
use exam_builder::command::Command;
use exam_builder::error::AssemblyError;
use exam_builder::library::{DirEntry, DiscoveryError, Level};
use exam_builder::materialize::TemplateFile;
use exam_builder::paths::RelPath;
use exam_builder::scaffold::ScaffoldError;
use exam_builder::selector::Selector;
use exam_builder::state::{Slot, Stage, State};
use exam_builder::transition::{Event, Progress};

fn dir(name: &str) -> DirEntry {
    DirEntry { name: name.to_string(), is_dir: true }
}

fn file(name: &str) -> DirEntry {
    DirEntry { name: name.to_string(), is_dir: false }
}

fn dirs(names: &[&str]) -> Vec<DirEntry> {
    names.iter().map(|name| dir(name)).collect()
}

fn names(list: &[&str]) -> Vec<String> {
    list.iter().map(|name| name.to_string()).collect()
}

fn path(names: &[&str]) -> RelPath {
    RelPath { components: names.iter().map(|name| name.to_string()).collect() }
}

fn level(ordinal: usize, folder: &str) -> Level {
    Level { ordinal, folder: folder.to_string() }
}

fn slot(ordinal: usize, folder: &str, candidates: &[&str], chosen: Option<&str>) -> Slot {
    Slot {
        level: level(ordinal, folder),
        candidates: names(candidates),
        chosen: chosen.map(|name| name.to_string()),
    }
}

fn exam_chosen(exam: &str, asked: bool) -> State {
    State::ExamChosen { exam: exam.to_string(), asked }
}

fn overwrite_confirmed(exam: &str, cleared: bool) -> State {
    State::OverwriteConfirmed { exam: exam.to_string(), cleared }
}

fn failed(error: AssemblyError) -> State {
    State::Failed { error }
}

fn quiet(assembly: Assembly, event: Event) -> Assembly {
    let (next, progress) = assembly.advance(event, None);
    assert_eq!(progress, Progress::Quiet);
    next
}

fn chosen_algo() -> Assembly {
    let assembly = quiet(
        Assembly::start(),
        Event::LibraryListed(Some(vec![dir("algo"), file("README.md"), dir("exam_2")])),
    );
    quiet(assembly, Event::ExamSelected(0))
}

fn algo_levels_listed() -> Assembly {
    let assembly = quiet(chosen_algo(), Event::DestinationProbed(false));
    quiet(assembly, Event::LevelsListed(vec![dir("3"), file("notes"), dir("1")]))
}

fn sort_drawn() -> Assembly {
    let event = Event::ExercisesListed(dirs(&["sort"]));
    algo_levels_listed().advance(event, Some("sort".to_string())).0
}

#[test]
fn an_assembly_begins_by_listing_the_library() {
    let assembly = Assembly::start();
    assert_eq!(*assembly.state(), State::Idle);
    assert_eq!(assembly.command(), Command::ListLibrary);
    assert_eq!(assembly.ended(), None);
}

#[test]
fn a_missing_library_fails_the_assembly() {
    let assembly = quiet(Assembly::start(), Event::LibraryListed(None));
    assert_eq!(
        *assembly.state(),
        failed(AssemblyError::Discovery(DiscoveryError::NotFound))
    );
    assert_eq!(assembly.command(), Command::Stop);
    assert_eq!(assembly.ended(), Some(false));
}

#[test]
fn an_empty_library_fails_the_assembly() {
    let assembly = quiet(Assembly::start(), Event::LibraryListed(Some(vec![file("README.md")])));
    assert_eq!(
        *assembly.state(),
        failed(AssemblyError::Discovery(DiscoveryError::EmptyLibrary))
    );
    assert_eq!(assembly.ended(), Some(false));
}

#[test]
fn the_operator_chooses_among_the_exams_of_the_library() {
    let assembly = quiet(
        Assembly::start(),
        Event::LibraryListed(Some(vec![dir("algo"), file("README.md"), dir("exam_2")])),
    );
    assert_eq!(
        *assembly.state(),
        State::LibraryDiscovered { exams: names(&["algo", "exam_2"]) }
    );
    assert_eq!(assembly.command(), Command::SelectExam { exams: names(&["algo", "exam_2"]) });
    let assembly = quiet(assembly, Event::ExamSelected(1));
    assert_eq!(*assembly.state(), exam_chosen("exam_2", false));
    assert_eq!(
        assembly.command(),
        Command::ProbeDestination { destination: path(&["exam_2"]) }
    );
}

#[test]
fn a_choice_beyond_the_exams_changes_nothing() {
    let assembly = quiet(Assembly::start(), Event::LibraryListed(Some(dirs(&["algo"]))));
    let assembly = quiet(assembly, Event::ExamSelected(1));
    assert_eq!(*assembly.state(), State::LibraryDiscovered { exams: names(&["algo"]) });
}

#[test]
fn a_new_exam_is_written_without_asking() {
    let assembly = quiet(chosen_algo(), Event::DestinationProbed(false));
    assert_eq!(*assembly.state(), overwrite_confirmed("algo", true));
    assert_eq!(
        assembly.command(),
        Command::OpenExam { destination: path(&["algo"]), source: path(&["algo"]) }
    );
}

#[test]
fn an_existing_exam_is_replaced_only_after_the_operator_agrees() {
    let assembly = quiet(chosen_algo(), Event::DestinationProbed(true));
    assert_eq!(*assembly.state(), exam_chosen("algo", true));
    assert_eq!(assembly.command(), Command::ConfirmOverwrite { exam: "algo".to_string() });
}

#[test]
fn declining_aborts_the_assembly_and_ends_it_well() {
    let assembly = quiet(chosen_algo(), Event::DestinationProbed(true));
    let assembly = quiet(assembly, Event::OverwriteAnswered(false));
    assert_eq!(*assembly.state(), State::Aborted);
    assert_eq!(assembly.command(), Command::Stop);
    assert_eq!(assembly.ended(), Some(true));
}

#[test]
fn a_declined_run_asks_for_no_work_that_writes() {
    let events = vec![
        Event::LibraryListed(Some(dirs(&["algo"]))),
        Event::ExamSelected(0),
        Event::DestinationProbed(true),
        Event::OverwriteAnswered(false),
    ];
    let mut assembly = Assembly::start();
    let mut commands = vec![assembly.command()];
    for event in events {
        assembly = quiet(assembly, event);
        commands.push(assembly.command());
    }
    assert_eq!(
        commands,
        vec![
            Command::ListLibrary,
            Command::SelectExam { exams: names(&["algo"]) },
            Command::ProbeDestination { destination: path(&["algo"]) },
            Command::ConfirmOverwrite { exam: "algo".to_string() },
            Command::Stop,
        ]
    );
}

#[test]
fn agreeing_removes_the_earlier_folder_before_the_exam_is_opened() {
    let assembly = quiet(chosen_algo(), Event::DestinationProbed(true));
    let assembly = quiet(assembly, Event::OverwriteAnswered(true));
    assert_eq!(*assembly.state(), overwrite_confirmed("algo", false));
    assert_eq!(
        assembly.command(),
        Command::RemoveDestination { destination: path(&["algo"]) }
    );
    let assembly = quiet(assembly, Event::DestinationRemoved(true));
    assert_eq!(*assembly.state(), overwrite_confirmed("algo", true));
    assert_eq!(
        assembly.command(),
        Command::OpenExam { destination: path(&["algo"]), source: path(&["algo"]) }
    );
}

#[test]
fn a_folder_that_cannot_be_removed_fails_the_assembly() {
    let assembly = quiet(chosen_algo(), Event::DestinationProbed(true));
    let assembly = quiet(assembly, Event::OverwriteAnswered(true));
    let assembly = quiet(assembly, Event::DestinationRemoved(false));
    assert_eq!(*assembly.state(), failed(AssemblyError::CleanupFailure));
    assert_eq!(assembly.command(), Command::Stop);
    assert_eq!(assembly.ended(), Some(false));
}

#[test]
fn levels_are_taken_in_order_under_dense_numbers() {
    let assembly = algo_levels_listed();
    assert_eq!(
        *assembly.state(),
        State::PerLevel {
            exam: "algo".to_string(),
            levels: vec![level(1, "1"), level(2, "3")],
            slots: vec![],
            stage: Stage::Listing,
        }
    );
    assert_eq!(assembly.command(), Command::ListExercises { source: path(&["algo", "1"]) });
}

#[test]
fn an_exam_without_levels_is_done_at_once() {
    let assembly = quiet(chosen_algo(), Event::DestinationProbed(false));
    let assembly = quiet(assembly, Event::LevelsListed(vec![file("README.md")]));
    assert_eq!(
        *assembly.state(),
        State::Done { exam: "algo".to_string(), levels: vec![], slots: vec![] }
    );
    assert_eq!(assembly.ended(), Some(true));
}

#[test]
fn the_algo_exam_is_laid_out_level_by_level() {
    let assembly = algo_levels_listed();

    let (assembly, progress) = assembly.advance(
        Event::ExercisesListed(vec![dir("sort"), dir("search")]),
        Some("search".to_string()),
    );
    assert_eq!(progress, Progress::Quiet);
    assert_eq!(
        assembly.command(),
        Command::Scaffold {
            destination: path(&["algo", "1", "search"]),
            exercise: "search".to_string(),
        }
    );

    let assembly = quiet(assembly, Event::Scaffolded(Ok(())));
    assert_eq!(
        assembly.command(),
        Command::Materialize {
            source: path(&["algo", "1", "search"]),
            destination: path(&["algo", "1", "search"]),
        }
    );

    let (assembly, progress) = assembly.advance(Event::Materialized(Ok(())), None);
    assert_eq!(progress, Progress::LevelReady { ordinal: 1, exercise: "search".to_string() });
    assert_eq!(assembly.command(), Command::ListExercises { source: path(&["algo", "3"]) });

    let (assembly, progress) =
        assembly.advance(Event::ExercisesListed(vec![dir("graph")]), Some("graph".to_string()));
    assert_eq!(progress, Progress::Quiet);
    assert_eq!(
        assembly.command(),
        Command::Scaffold {
            destination: path(&["algo", "2", "graph"]),
            exercise: "graph".to_string(),
        }
    );

    let assembly = quiet(assembly, Event::Scaffolded(Ok(())));
    assert_eq!(
        assembly.command(),
        Command::Materialize {
            source: path(&["algo", "3", "graph"]),
            destination: path(&["algo", "2", "graph"]),
        }
    );

    let (assembly, progress) = assembly.advance(Event::Materialized(Ok(())), None);
    assert_eq!(progress, Progress::LevelReady { ordinal: 2, exercise: "graph".to_string() });
    assert_eq!(
        *assembly.state(),
        State::Done {
            exam: "algo".to_string(),
            levels: vec![level(1, "1"), level(2, "3")],
            slots: vec![
                slot(1, "1", &["sort", "search"], Some("search")),
                slot(2, "3", &["graph"], Some("graph")),
            ],
        }
    );
    assert_eq!(assembly.command(), Command::Stop);
    assert_eq!(assembly.ended(), Some(true));
}

#[test]
fn the_algo_exam_is_laid_out_with_a_random_draw() {
    let mut selector = Selector::new();
    let assembly = algo_levels_listed();
    let (assembly, _) =
        assembly.step(Event::ExercisesListed(vec![dir("sort"), dir("search")]), &mut selector);
    let first = match assembly.command() {
        Command::Scaffold { destination, exercise } => {
            assert!(exercise == "sort" || exercise == "search");
            assert_eq!(destination, path(&["algo", "1", exercise.as_str()]));
            exercise
        },
        other => panic!("unexpected command: {other:?}"),
    };
    let (assembly, _) = assembly.step(Event::Scaffolded(Ok(())), &mut selector);
    let (assembly, progress) = assembly.step(Event::Materialized(Ok(())), &mut selector);
    assert_eq!(progress, Progress::LevelReady { ordinal: 1, exercise: first });
    let (assembly, _) = assembly.step(Event::ExercisesListed(vec![dir("graph")]), &mut selector);
    assert_eq!(
        assembly.command(),
        Command::Scaffold {
            destination: path(&["algo", "2", "graph"]),
            exercise: "graph".to_string(),
        }
    );
    let (assembly, _) = assembly.step(Event::Scaffolded(Ok(())), &mut selector);
    let (assembly, progress) = assembly.step(Event::Materialized(Ok(())), &mut selector);
    assert_eq!(progress, Progress::LevelReady { ordinal: 2, exercise: "graph".to_string() });
    assert_eq!(assembly.ended(), Some(true));
    match assembly.state() {
        State::Done { slots, .. } => {
            assert_eq!(slots.len(), 2);
            assert!(slots.iter().all(|slot| slot.chosen.is_some()));
        },
        other => panic!("unexpected state: {other:?}"),
    }
}

#[test]
fn a_level_without_exercises_is_passed_over() {
    let assembly = algo_levels_listed();
    let (assembly, progress) =
        assembly.advance(Event::ExercisesListed(vec![file("README.md")]), None);
    assert_eq!(progress, Progress::EmptyLevel { ordinal: 1, folder: "1".to_string() });
    assert_eq!(assembly.command(), Command::ListExercises { source: path(&["algo", "3"]) });
    let (assembly, progress) = assembly.advance(Event::ExercisesListed(vec![]), None);
    assert_eq!(progress, Progress::EmptyLevel { ordinal: 2, folder: "3".to_string() });
    assert_eq!(
        *assembly.state(),
        State::Done {
            exam: "algo".to_string(),
            levels: vec![level(1, "1"), level(2, "3")],
            slots: vec![slot(1, "1", &[], None), slot(2, "3", &[], None)],
        }
    );
    assert_eq!(assembly.ended(), Some(true));
}

#[test]
fn one_project_is_laid_out_for_each_level_that_offers_exercises() {
    let mut selector = Selector::new();
    let assembly = quiet(chosen_algo(), Event::DestinationProbed(false));
    let mut assembly = quiet(assembly, Event::LevelsListed(dirs(&["4", "2", "bonus", "9"])));
    let offers: [&[&str]; 4] = [&["a", "b"], &[], &["c"], &[]];
    let mut scaffolds = 0;
    let mut offered = offers.iter();
    loop {
        let event = match assembly.command() {
            Command::ListExercises { .. } => match offered.next() {
                Some(exercises) => Event::ExercisesListed(dirs(exercises)),
                None => panic!("more levels than the exam has"),
            },
            Command::Scaffold { .. } => {
                scaffolds += 1;
                Event::Scaffolded(Ok(()))
            },
            Command::Materialize { .. } => Event::Materialized(Ok(())),
            Command::Stop => break,
            other => panic!("unexpected command: {other:?}"),
        };
        assembly = assembly.step(event, &mut selector).0;
    }
    assert_eq!(scaffolds, 2);
    match assembly.state() {
        State::Done { levels, slots, .. } => {
            assert_eq!(
                *levels,
                vec![level(1, "2"), level(2, "4"), level(3, "9"), level(4, "bonus")]
            );
            let built: Vec<bool> = slots.iter().map(|slot| slot.chosen.is_some()).collect();
            assert_eq!(built, vec![true, false, true, false]);
            assert_eq!(slots[0].chosen.as_deref().map(|x| x == "a" || x == "b"), Some(true));
            assert_eq!(slots[2].chosen.as_deref(), Some("c"));
        },
        other => panic!("unexpected state: {other:?}"),
    }
}

#[test]
fn a_generator_failure_fails_the_assembly() {
    let assembly = quiet(sort_drawn(), Event::Scaffolded(Err(ScaffoldError::GeneratorFailure)));
    assert_eq!(
        *assembly.state(),
        failed(AssemblyError::GeneratorFailure { exercise: "sort".to_string() })
    );
    assert_eq!(assembly.command(), Command::Stop);
    assert_eq!(assembly.ended(), Some(false));
}

#[test]
fn a_relocation_failure_fails_the_assembly() {
    let assembly = quiet(sort_drawn(), Event::Scaffolded(Err(ScaffoldError::RelocationFailure)));
    assert_eq!(
        *assembly.state(),
        failed(AssemblyError::RelocationFailure { exercise: "sort".to_string() })
    );
    assert_eq!(assembly.ended(), Some(false));
}

#[test]
fn a_copy_failure_fails_the_assembly_and_names_the_file() {
    let assembly = quiet(sort_drawn(), Event::Scaffolded(Ok(())));
    let assembly = quiet(assembly, Event::Materialized(Err(TemplateFile::Readme)));
    assert_eq!(
        *assembly.state(),
        failed(AssemblyError::CopyFailure { file: TemplateFile::Readme })
    );
    assert_eq!(assembly.ended(), Some(false));
}

#[test]
fn a_failure_keeps_the_levels_after_it_from_being_taken() {
    let assembly = quiet(sort_drawn(), Event::Scaffolded(Err(ScaffoldError::GeneratorFailure)));
    let assembly = quiet(assembly, Event::ExercisesListed(dirs(&["graph"])));
    assert_eq!(
        *assembly.state(),
        failed(AssemblyError::GeneratorFailure { exercise: "sort".to_string() })
    );
    assert_eq!(assembly.command(), Command::Stop);
}

#[test]
fn an_event_that_was_not_asked_for_changes_nothing() {
    assert_eq!(*quiet(Assembly::start(), Event::ExamSelected(0)).state(), State::Idle);
    assert_eq!(*quiet(Assembly::start(), Event::OverwriteAnswered(true)).state(), State::Idle);
    assert_eq!(
        *quiet(chosen_algo(), Event::OverwriteAnswered(true)).state(),
        exam_chosen("algo", false)
    );
    assert_eq!(
        *quiet(chosen_algo(), Event::LevelsListed(dirs(&["1"]))).state(),
        exam_chosen("algo", false)
    );
    let declined = quiet(
        quiet(chosen_algo(), Event::DestinationProbed(true)),
        Event::OverwriteAnswered(false),
    );
    assert_eq!(*quiet(declined, Event::DestinationRemoved(true)).state(), State::Aborted);
    assert_eq!(
        quiet(algo_levels_listed(), Event::Materialized(Ok(()))).state(),
        algo_levels_listed().state()
    );
    assert_eq!(
        quiet(algo_levels_listed(), Event::Scaffolded(Ok(()))).state(),
        algo_levels_listed().state()
    );
}

#[test]
fn a_draw_that_the_level_does_not_offer_changes_nothing() {
    let (assembly, progress) = algo_levels_listed().advance(
        Event::ExercisesListed(dirs(&["sort", "search"])),
        Some("graph".to_string()),
    );
    assert_eq!(progress, Progress::Quiet);
    assert_eq!(assembly.state(), algo_levels_listed().state());
    let (assembly, _) =
        algo_levels_listed().advance(Event::ExercisesListed(dirs(&["sort", "search"])), None);
    assert_eq!(assembly.state(), algo_levels_listed().state());
}

#[test]
fn failures_are_described() {
    assert_eq!(
        AssemblyError::Discovery(DiscoveryError::NotFound).describe(),
        "Library not found"
    );
    assert_eq!(
        AssemblyError::Discovery(DiscoveryError::EmptyLibrary).describe(),
        "No exams found in lib/"
    );
    assert_eq!(
        AssemblyError::GeneratorFailure { exercise: "sort".to_string() }.describe(),
        "Cargo new failed for sort"
    );
    assert_eq!(
        AssemblyError::RelocationFailure { exercise: "sort".to_string() }.describe(),
        "Failed to move cargo project sort"
    );
    assert_eq!(
        AssemblyError::CopyFailure { file: TemplateFile::MainSource }.describe(),
        "Failed to copy main.rs"
    );
    assert_eq!(
        AssemblyError::CleanupFailure.describe(),
        "Failed to remove existing exam folder"
    );
}
