//! The materializer: which template files of an exercise are copied into its
//! project, and where each goes.

use vstd::prelude::*;
use crate::paths::RelPath;

verus! {

/// The files that an exercise may bring for its project.
#[derive(Clone, Copy, Debug, PartialEq, Eq, Structural)]
pub enum TemplateFile {
    /// The source of the program's entry point.
    MainSource,
    /// The source of the library.
    LibSource,
    /// The readme.
    Readme,
    /// The manifest, which replaces the one of the skeleton.
    Manifest,
}

/// Which template files an exercise brings.
#[derive(Clone, Copy, Debug, PartialEq, Eq, Structural)]
pub struct Present {
    /// Whether it brings the source of the entry point.
    pub main_source: bool,
    /// Whether it brings the source of the library.
    pub lib_source: bool,
    /// Whether it brings a readme.
    pub readme: bool,
    /// Whether it brings a manifest.
    pub manifest: bool,
}

/// One copy of a template file.
#[derive(Debug, PartialEq, Eq)]
pub struct CopyStep {
    /// The file that is copied.
    pub file: TemplateFile,
    /// The file in the library.
    pub from: RelPath,
    /// The file in the project.
    pub to: RelPath,
}

/// The name of a template file.
pub open spec fn spec_file_name(file: TemplateFile) -> Seq<char> {
    match file {
        TemplateFile::MainSource => "main.rs"@,
        TemplateFile::LibSource => "lib.rs"@,
        TemplateFile::Readme => "README.md"@,
        TemplateFile::Manifest => "Cargo.toml"@,
    }
}

/// Whether a template file is a source file: those belong in the project's
/// source folder, the others at its root.
pub open spec fn spec_is_source(file: TemplateFile) -> bool {
    file == TemplateFile::MainSource || file == TemplateFile::LibSource
}

/// Whether an exercise brings `file`.
pub open spec fn spec_brings(present: Present, file: TemplateFile) -> bool {
    match file {
        TemplateFile::MainSource => present.main_source,
        TemplateFile::LibSource => present.lib_source,
        TemplateFile::Readme => present.readme,
        TemplateFile::Manifest => present.manifest,
    }
}

/// The template files, in the order in which they are copied.
pub open spec fn spec_template_files() -> Seq<TemplateFile> {
    seq![
        TemplateFile::MainSource,
        TemplateFile::LibSource,
        TemplateFile::Readme,
        TemplateFile::Manifest,
    ]
}

/// Where `file` lies in the exercise's folder `exercise`.
pub open spec fn spec_source_of(exercise: Seq<Seq<char>>, file: TemplateFile) -> Seq<Seq<char>> {
    exercise.push(spec_file_name(file))
}

/// Where `file` goes in the project at `project`.
pub open spec fn spec_destination_of(project: Seq<Seq<char>>, file: TemplateFile) -> Seq<
    Seq<char>,
> {
    if spec_is_source(file) {
        project.push("src"@).push(spec_file_name(file))
    } else {
        project.push(spec_file_name(file))
    }
}

/// The list that holds `file` where `wanted` holds, and nothing where it
/// does not.
pub open spec fn spec_only_if(wanted: bool, file: TemplateFile) -> Seq<TemplateFile> {
    if wanted {
        seq![file]
    } else {
        Seq::empty()
    }
}

/// The template files that are copied for an exercise that brings
/// `present`: those that it brings, in the order of the template files.
pub open spec fn spec_copied(present: Present) -> Seq<TemplateFile> {
    spec_only_if(present.main_source, TemplateFile::MainSource) + spec_only_if(
        present.lib_source,
        TemplateFile::LibSource,
    ) + spec_only_if(present.readme, TemplateFile::Readme) + spec_only_if(
        present.manifest,
        TemplateFile::Manifest,
    )
}

/// A template file is copied if the exercise brings it, and only then,
/// whatever else it brings; and no file is copied twice.
pub proof fn lemma_copied_iff_brought(present: Present, file: TemplateFile)
    ensures
        spec_copied(present).contains(file) <==> spec_brings(present, file),
        spec_copied(present).no_duplicates(),
{
    let a = spec_only_if(present.main_source, TemplateFile::MainSource);
    let b = spec_only_if(present.lib_source, TemplateFile::LibSource);
    let c = spec_only_if(present.readme, TemplateFile::Readme);
    let copied = spec_copied(present);
    if spec_brings(present, file) {
        let i: int = match file {
            TemplateFile::MainSource => 0,
            TemplateFile::LibSource => a.len() as int,
            TemplateFile::Readme => (a.len() + b.len()) as int,
            TemplateFile::Manifest => (a.len() + b.len() + c.len()) as int,
        };
        assert(copied[i] == file);
    }
}

/// Whether `step` copies `file` from the exercise's folder `exercise` to its
/// place in the project at `project`.
pub open spec fn copies(
    step: CopyStep,
    exercise: Seq<Seq<char>>,
    project: Seq<Seq<char>>,
    file: TemplateFile,
) -> bool {
    &&& step.file == file
    &&& step.from@ == spec_source_of(exercise, file)
    &&& step.to@ == spec_destination_of(project, file)
}

impl TemplateFile {
    /// The file's name.
    pub fn file_name(self) -> (name: &'static str)
        ensures
            name@ == spec_file_name(self),
    {
        match self {
            TemplateFile::MainSource => "main.rs",
            TemplateFile::LibSource => "lib.rs",
            TemplateFile::Readme => "README.md",
            TemplateFile::Manifest => "Cargo.toml",
        }
    }

    /// Whether the file is a source file.
    pub fn is_source(self) -> (source: bool)
        ensures
            source == spec_is_source(self),
    {
        match self {
            TemplateFile::MainSource => true,
            TemplateFile::LibSource => true,
            TemplateFile::Readme => false,
            TemplateFile::Manifest => false,
        }
    }
}

impl Present {
    /// Whether the exercise brings `file`.
    pub fn brings(&self, file: TemplateFile) -> (brought: bool)
        ensures
            brought == spec_brings(*self, file),
    {
        match file {
            TemplateFile::MainSource => self.main_source,
            TemplateFile::LibSource => self.lib_source,
            TemplateFile::Readme => self.readme,
            TemplateFile::Manifest => self.manifest,
        }
    }
}

/// The template files, in the order in which they are copied.
pub fn template_files() -> (files: Vec<TemplateFile>)
    ensures
        files@ == spec_template_files(),
{
    let mut files: Vec<TemplateFile> = Vec::new();
    files.push(TemplateFile::MainSource);
    files.push(TemplateFile::LibSource);
    files.push(TemplateFile::Readme);
    files.push(TemplateFile::Manifest);
    files
}

/// Where `file` lies in the exercise's folder `exercise`.
pub fn source_of(exercise: &RelPath, file: TemplateFile) -> (path: RelPath)
    ensures
        path@ == spec_source_of(exercise@, file),
{
    exercise.join(file.file_name())
}

/// Where `file` goes in the project at `project`: a source file into the
/// project's source folder, any other to the project's root.
pub fn destination_of(project: &RelPath, file: TemplateFile) -> (path: RelPath)
    ensures
        path@ == spec_destination_of(project@, file),
{
    if file.is_source() {
        project.join("src").join(file.file_name())
    } else {
        project.join(file.file_name())
    }
}

/// The copies that bring the template files of the exercise at `exercise`
/// into the project at `project`: one for each file that the exercise
/// brings, in the order of the template files, and none for a file that it
/// does not bring.
pub fn plan_copies(exercise: &RelPath, project: &RelPath, present: Present) -> (steps: Vec<
    CopyStep,
>)
    ensures
        steps.len() == spec_copied(present).len(),
        forall|i: int|
            0 <= i < steps.len() ==> copies(
                #[trigger] steps[i],
                exercise@,
                project@,
                spec_copied(present)[i],
            ),
{
    let files = template_files();
    let mut steps: Vec<CopyStep> = Vec::new();
    let ghost mut planned: Seq<TemplateFile> = Seq::empty();
    let mut k: usize = 0;
    while k < 4
        invariant
            k <= 4,
            files@ == spec_template_files(),
            steps.len() == planned.len(),
            forall|i: int|
                0 <= i < steps.len() ==> copies(
                    #[trigger] steps[i],
                    exercise@,
                    project@,
                    planned[i],
                ),
            planned == spec_only_if(k >= 1 && present.main_source, TemplateFile::MainSource)
                + spec_only_if(k >= 2 && present.lib_source, TemplateFile::LibSource)
                + spec_only_if(k >= 3 && present.readme, TemplateFile::Readme) + spec_only_if(
                k >= 4 && present.manifest,
                TemplateFile::Manifest,
            ),
        decreases 4 - k,
    {
        let file = files[k];
        if present.brings(file) {
            steps.push(
                CopyStep {
                    file,
                    from: source_of(exercise, file),
                    to: destination_of(project, file),
                },
            );
            proof {
                planned = planned.push(file);
            }
        }
        k = k + 1;
    }
    steps
}

/// The copy to begin with: the first of `steps`, or nothing where there is
/// no copy to make.
pub fn first_copy(steps: &Vec<CopyStep>) -> (first: Option<usize>)
    ensures
        first == (if steps.len() > 0 {
            Some(0usize)
        } else {
            None
        }),
{
    if steps.len() > 0 {
        Some(0)
    } else {
        None
    }
}

/// What follows the copy at place `done` of `steps`, which was made or was
/// not, as `copied` says. A copy that was not made ends the copying at
/// once, with the file that it was to bring as the error: no later copy is
/// made. After a copy that was made the next copy follows, or nothing after
/// the last.
pub fn after_copy(steps: &Vec<CopyStep>, done: usize, copied: bool) -> (next: Result<
    Option<usize>,
    TemplateFile,
>)
    requires
        done < steps.len(),
    ensures
        !copied ==> next == Err::<Option<usize>, TemplateFile>(steps[done as int].file),
        copied && done + 1 < steps.len() ==> next == Ok::<Option<usize>, TemplateFile>(
            Some((done + 1) as usize),
        ),
        copied && done + 1 == steps.len() ==> next == Ok::<Option<usize>, TemplateFile>(None),
{
    if !copied {
        Err(steps[done].file)
    } else if done + 1 < steps.len() {
        Ok(Some(done + 1))
    } else {
        Ok(None)
    }
}

} // verus!
