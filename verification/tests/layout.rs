use exam_builder::materialize::{
    after_copy, destination_of, first_copy, plan_copies, source_of, template_files, CopyStep,
    Present, TemplateFile,
};
use exam_builder::names::{copy_names, holds_name};
use exam_builder::paths::RelPath;
use exam_builder::scaffold::{
    after_generation, after_relocation, plan_generation, Relocation, ScaffoldError,
};

fn path(names: &[&str]) -> RelPath {
    RelPath { components: names.iter().map(|name| name.to_string()).collect() }
}

fn brings(main_source: bool, lib_source: bool, readme: bool, manifest: bool) -> Present {
    Present { main_source, lib_source, readme, manifest }
}

fn copies_for(present: Present) -> Vec<CopyStep> {
    plan_copies(&path(&["algo", "3", "graph"]), &path(&["algo", "2", "graph"]), present)
}

#[test]
fn paths_are_joined_name_by_name() {
    assert_eq!(RelPath::base(), path(&[]));
    assert_eq!(RelPath::base().join("algo"), path(&["algo"]));
    assert_eq!(path(&["algo", "1"]).join("sort"), path(&["algo", "1", "sort"]));
}

#[test]
fn the_parent_drops_the_last_name() {
    assert_eq!(path(&["algo", "1", "sort"]).parent(), Some(path(&["algo", "1"])));
    assert_eq!(path(&["algo"]).parent(), Some(path(&[])));
    assert_eq!(path(&[]).parent(), None);
}

#[test]
fn paths_are_the_same_when_their_names_are() {
    assert!(path(&[]).same_as(&path(&[])));
    assert!(path(&["a", "b"]).same_as(&path(&["a", "b"])));
    assert!(!path(&["a", "b"]).same_as(&path(&["a", "c"])));
    assert!(!path(&["a", "b"]).same_as(&path(&["a"])));
    assert!(!path(&["a"]).same_as(&path(&["a", "b"])));
    assert_eq!(path(&["a", "b"]).copy(), path(&["a", "b"]));
}

#[test]
fn names_are_copied_and_found() {
    let list = vec!["sort".to_string(), "search".to_string()];
    assert_eq!(copy_names(&list), list);
    assert!(holds_name(&list, &"search".to_string()));
    assert!(!holds_name(&list, &"graph".to_string()));
    assert!(!holds_name(&Vec::new(), &"graph".to_string()));
}

#[test]
fn the_generator_runs_in_the_folder_of_the_destination() {
    let plan = plan_generation(&path(&["algo", "1", "sort"]), "sort");
    assert_eq!(plan.program, "cargo");
    assert_eq!(plan.arguments, vec!["new", "--bin", "sort"]);
    assert_eq!(plan.working_dir, path(&["algo", "1"]));
    assert_eq!(plan.staging, path(&["algo", "1", "sort"]));
}

#[test]
fn the_skeleton_is_staged_under_the_name_of_the_exercise() {
    let plan = plan_generation(&path(&["algo", "1", "first"]), "sort");
    assert_eq!(plan.arguments, vec!["new", "--bin", "sort"]);
    assert_eq!(plan.working_dir, path(&["algo", "1"]));
    assert_eq!(plan.staging, path(&["algo", "1", "sort"]));
}

#[test]
fn a_generator_that_does_not_return_zero_has_failed() {
    let destination = path(&["algo", "1", "sort"]);
    let plan = plan_generation(&destination, "sort");
    assert_eq!(
        after_generation(&plan, &destination, Some(101), true),
        Err(ScaffoldError::GeneratorFailure)
    );
    assert_eq!(
        after_generation(&plan, &destination, Some(-1), false),
        Err(ScaffoldError::GeneratorFailure)
    );
    assert_eq!(
        after_generation(&plan, &destination, None, true),
        Err(ScaffoldError::GeneratorFailure)
    );
}

#[test]
fn a_skeleton_at_its_destination_is_not_moved() {
    let destination = path(&["algo", "1", "sort"]);
    let plan = plan_generation(&destination, "sort");
    assert_eq!(after_generation(&plan, &destination, Some(0), true), Ok(None));
    assert_eq!(after_generation(&plan, &destination, Some(0), false), Ok(None));
}

#[test]
fn a_skeleton_elsewhere_is_moved_to_its_destination() {
    let destination = path(&["algo", "1", "first"]);
    let plan = plan_generation(&destination, "sort");
    assert_eq!(
        after_generation(&plan, &destination, Some(0), true),
        Ok(Some(Relocation {
            from: path(&["algo", "1", "sort"]),
            to: path(&["algo", "1", "first"]),
        }))
    );
}

#[test]
fn a_skeleton_that_is_missing_elsewhere_cannot_be_moved() {
    let destination = path(&["algo", "1", "first"]);
    let plan = plan_generation(&destination, "sort");
    assert_eq!(
        after_generation(&plan, &destination, Some(0), false),
        Err(ScaffoldError::RelocationFailure)
    );
    assert_eq!(
        after_generation(&plan, &destination, Some(1), false),
        Err(ScaffoldError::GeneratorFailure)
    );
}

#[test]
fn a_move_that_was_not_made_is_a_failure() {
    assert_eq!(after_relocation(true), Ok(()));
    assert_eq!(after_relocation(false), Err(ScaffoldError::RelocationFailure));
}

#[test]
fn template_files_have_their_names_and_kinds() {
    assert_eq!(
        template_files(),
        vec![
            TemplateFile::MainSource,
            TemplateFile::LibSource,
            TemplateFile::Readme,
            TemplateFile::Manifest,
        ]
    );
    assert_eq!(TemplateFile::MainSource.file_name(), "main.rs");
    assert_eq!(TemplateFile::LibSource.file_name(), "lib.rs");
    assert_eq!(TemplateFile::Readme.file_name(), "README.md");
    assert_eq!(TemplateFile::Manifest.file_name(), "Cargo.toml");
    assert!(TemplateFile::MainSource.is_source());
    assert!(TemplateFile::LibSource.is_source());
    assert!(!TemplateFile::Readme.is_source());
    assert!(!TemplateFile::Manifest.is_source());
}

#[test]
fn source_files_go_to_the_source_folder() {
    let project = path(&["algo", "1", "sort"]);
    assert_eq!(
        destination_of(&project, TemplateFile::MainSource),
        path(&["algo", "1", "sort", "src", "main.rs"])
    );
    assert_eq!(
        destination_of(&project, TemplateFile::LibSource),
        path(&["algo", "1", "sort", "src", "lib.rs"])
    );
}

#[test]
fn other_files_go_to_the_root_of_the_project() {
    let project = path(&["algo", "1", "sort"]);
    assert_eq!(
        destination_of(&project, TemplateFile::Readme),
        path(&["algo", "1", "sort", "README.md"])
    );
    assert_eq!(
        destination_of(&project, TemplateFile::Manifest),
        path(&["algo", "1", "sort", "Cargo.toml"])
    );
}

#[test]
fn template_files_lie_in_the_folder_of_the_exercise() {
    let exercise = path(&["exam_2", "5", "queens"]);
    assert_eq!(
        source_of(&exercise, TemplateFile::LibSource),
        path(&["exam_2", "5", "queens", "lib.rs"])
    );
    assert_eq!(
        source_of(&exercise, TemplateFile::Manifest),
        path(&["exam_2", "5", "queens", "Cargo.toml"])
    );
}

#[test]
fn an_exercise_with_a_library_source_only_gets_that_file_only() {
    let exercise = path(&["exam_2", "5", "queens"]);
    let project = path(&["exam_2", "1", "queens"]);
    let steps = plan_copies(&exercise, &project, brings(false, true, false, false));
    assert_eq!(
        steps,
        vec![CopyStep {
            file: TemplateFile::LibSource,
            from: path(&["exam_2", "5", "queens", "lib.rs"]),
            to: path(&["exam_2", "1", "queens", "src", "lib.rs"]),
        }]
    );
    assert!(steps.iter().all(|step| step.file != TemplateFile::MainSource));
}

#[test]
fn an_exercise_that_brings_nothing_gets_no_copy() {
    let nothing = brings(false, false, false, false);
    let steps = plan_copies(&path(&["a", "1", "x"]), &path(&["a", "1", "x"]), nothing);
    assert_eq!(steps, vec![]);
}

#[test]
fn an_exercise_that_brings_everything_gets_every_file_in_order() {
    let exercise = path(&["algo", "3", "graph"]);
    let project = path(&["algo", "2", "graph"]);
    let steps = plan_copies(&exercise, &project, brings(true, true, true, true));
    let files: Vec<TemplateFile> = steps.iter().map(|step| step.file).collect();
    assert_eq!(files, template_files());
    assert_eq!(steps[0].from, path(&["algo", "3", "graph", "main.rs"]));
    assert_eq!(steps[0].to, path(&["algo", "2", "graph", "src", "main.rs"]));
    assert_eq!(steps[3].from, path(&["algo", "3", "graph", "Cargo.toml"]));
    assert_eq!(steps[3].to, path(&["algo", "2", "graph", "Cargo.toml"]));
}

#[test]
fn each_file_is_copied_exactly_when_it_is_brought() {
    for bits in 0..16u8 {
        let present = brings(bits & 1 != 0, bits & 2 != 0, bits & 4 != 0, bits & 8 != 0);
        let steps = plan_copies(&path(&["e", "1", "x"]), &path(&["e", "1", "x"]), present);
        for file in template_files() {
            let copied = steps.iter().filter(|step| step.file == file).count();
            assert_eq!(copied, if present.brings(file) { 1 } else { 0 });
        }
    }
}

#[test]
fn copying_begins_with_the_first_copy() {
    assert_eq!(first_copy(&copies_for(brings(true, true, true, true))), Some(0));
    assert_eq!(first_copy(&copies_for(brings(false, false, false, true))), Some(0));
    assert_eq!(first_copy(&copies_for(brings(false, false, false, false))), None);
}

#[test]
fn a_copy_that_was_made_leads_to_the_next() {
    let steps = copies_for(brings(true, true, true, true));
    assert_eq!(after_copy(&steps, 0, true), Ok(Some(1)));
    assert_eq!(after_copy(&steps, 1, true), Ok(Some(2)));
    assert_eq!(after_copy(&steps, 2, true), Ok(Some(3)));
    assert_eq!(after_copy(&steps, 3, true), Ok(None));
}

#[test]
fn a_copy_that_failed_ends_the_copying_and_names_its_file() {
    let steps = copies_for(brings(true, true, true, true));
    assert_eq!(after_copy(&steps, 0, false), Err(TemplateFile::MainSource));
    assert_eq!(after_copy(&steps, 1, false), Err(TemplateFile::LibSource));
    assert_eq!(after_copy(&steps, 2, false), Err(TemplateFile::Readme));
    assert_eq!(after_copy(&steps, 3, false), Err(TemplateFile::Manifest));
    let steps = copies_for(brings(false, true, false, true));
    assert_eq!(after_copy(&steps, 0, false), Err(TemplateFile::LibSource));
    assert_eq!(after_copy(&steps, 1, false), Err(TemplateFile::Manifest));
}

#[test]
fn copying_stops_at_the_first_copy_that_fails() {
    let steps = copies_for(brings(true, true, true, true));
    let mut made = Vec::new();
    let mut turn = first_copy(&steps);
    let mut end = Ok(());
    while let Some(done) = turn {
        let copied = steps[done].file != TemplateFile::LibSource;
        if copied {
            made.push(steps[done].file);
        }
        match after_copy(&steps, done, copied) {
            Ok(next) => turn = next,
            Err(file) => {
                end = Err(file);
                turn = None;
            },
        }
    }
    assert_eq!(end, Err(TemplateFile::LibSource));
    assert_eq!(made, vec![TemplateFile::MainSource]);
}
