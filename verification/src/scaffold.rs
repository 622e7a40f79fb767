//! The scaffolder: how the project generator is run for an exercise, and what
//! follows from how it ended.

use vstd::prelude::*;
use crate::names::names_of;
use crate::paths::RelPath;

verus! {

/// Why an exercise got no project skeleton.
#[derive(Clone, Copy, Debug, PartialEq, Eq, Structural)]
pub enum ScaffoldError {
    /// The generator did not end with exit code zero.
    GeneratorFailure,
    /// The skeleton could not be moved to its destination, or there was no
    /// skeleton to move.
    RelocationFailure,
}

/// One run of the project generator.
#[derive(Debug, PartialEq, Eq)]
pub struct Generation {
    /// The program to run.
    pub program: String,
    /// Its arguments, in order.
    pub arguments: Vec<String>,
    /// The folder to run it in: the one that holds the destination. It is
    /// made first where it is not there.
    pub working_dir: RelPath,
    /// Where the generator puts the skeleton: in the working folder, under
    /// the exercise's name.
    pub staging: RelPath,
}

/// A move of a skeleton from where the generator put it to its destination.
#[derive(Debug, PartialEq, Eq)]
pub struct Relocation {
    /// Where the skeleton is.
    pub from: RelPath,
    /// Where it belongs.
    pub to: RelPath,
}

/// The arguments that make the generator create a program named `name`.
pub open spec fn generator_arguments(name: Seq<char>) -> Seq<Seq<char>> {
    seq!["new"@, "--bin"@, name]
}

/// Whether an exit code reports success: the generator ran, ended by itself,
/// and returned zero.
pub open spec fn exited_well(exit_code: Option<i32>) -> bool {
    exit_code == Some(0i32)
}

/// Whether a skeleton at `staging` has to be moved to get to `destination`.
pub open spec fn needs_relocation(staging: Seq<Seq<char>>, destination: Seq<Seq<char>>) -> bool {
    staging != destination
}

/// The run of the generator that creates the skeleton of the exercise
/// `name`, which is to stand at `destination`: the generator runs in the
/// folder that holds `destination` and creates a folder `name` there. Where
/// `destination` itself ends in `name`, that folder is the destination.
pub fn plan_generation(destination: &RelPath, name: &str) -> (plan: Generation)
    requires
        destination@.len() > 0,
    ensures
        plan.program@ == "cargo"@,
        names_of(plan.arguments@) == generator_arguments(name@),
        plan.working_dir@ == destination@.drop_last(),
        plan.staging@ == destination@.drop_last().push(name@),
        destination@.last() == name@ ==> plan.staging@ == destination@,
{
    let mut arguments: Vec<String> = Vec::new();
    arguments.push(String::from_str("new"));
    arguments.push(String::from_str("--bin"));
    arguments.push(String::from_str(name));
    let working_dir = match destination.parent() {
        Some(above) => above,
        None => RelPath::base(),
    };
    let staging = working_dir.join(name);
    Generation { program: String::from_str("cargo"), arguments, working_dir, staging }
}

/// What follows the run of the generator.
///
/// The generator has failed unless its exit code is zero. Where it ended
/// well and the skeleton is staged at `destination`, nothing is left to do.
/// Where the skeleton is staged elsewhere, it is moved to `destination`;
/// and where nothing stands at the staging place, so that no move can be
/// made, the relocation has failed.
pub fn after_generation(
    plan: &Generation,
    destination: &RelPath,
    exit_code: Option<i32>,
    staging_exists: bool,
) -> (next: Result<Option<Relocation>, ScaffoldError>)
    ensures
        match next {
            Err(ScaffoldError::GeneratorFailure) => !exited_well(exit_code),
            Err(ScaffoldError::RelocationFailure) => exited_well(exit_code) && needs_relocation(
                plan.staging@,
                destination@,
            ) && !staging_exists,
            Ok(Some(relocation)) => exited_well(exit_code) && needs_relocation(
                plan.staging@,
                destination@,
            ) && staging_exists && relocation.from@ == plan.staging@ && relocation.to@
                == destination@,
            Ok(None) => exited_well(exit_code) && !needs_relocation(plan.staging@, destination@),
        },
{
    let well = match exit_code {
        Some(code) => code == 0,
        None => false,
    };
    if !well {
        Err(ScaffoldError::GeneratorFailure)
    } else if plan.staging.same_as(destination) {
        Ok(None)
    } else if staging_exists {
        Ok(Some(Relocation { from: plan.staging.copy(), to: destination.copy() }))
    } else {
        Err(ScaffoldError::RelocationFailure)
    }
}

/// What follows the move of a skeleton: the exercise is scaffolded if the
/// move was made, and scaffolding has failed if it was not.
pub fn after_relocation(moved: bool) -> (end: Result<(), ScaffoldError>)
    ensures
        end is Ok <==> moved,
        end matches Err(error) ==> error == ScaffoldError::RelocationFailure,
{
    if moved {
        Ok(())
    } else {
        Err(ScaffoldError::RelocationFailure)
    }
}

} // verus!
