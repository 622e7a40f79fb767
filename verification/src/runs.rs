//! What holds of every run of an assembly: of the states that it goes
//! through from the first, one event after the other.

use vstd::prelude::*;
use crate::state::{exam_plan, slots_follow, slots_sound, Slot, Stage, State};
use crate::transition::{closes_level, follows, Event};
use crate::library::{densely_numbered, folders, lemma_levels_are_as_many, Level};
use crate::names::names_of;

verus! {

/// Whether the state at `i` is followed by the state behind it on the event
/// at `i`.
pub open spec fn step_holds(states: Seq<State>, events: Seq<Event>, i: int) -> bool {
    follows(states[i], events[i], states[i + 1])
}

/// Whether `states` are the states of a run on `events`: the run begins
/// idle, and each event leads from one state to the next.
pub open spec fn is_run(states: Seq<State>, events: Seq<Event>) -> bool {
    &&& states.len() == events.len() + 1
    &&& states[0] is Idle
    &&& forall|i: int| 0 <= i < events.len() ==> #[trigger] step_holds(states, events, i)
}

/// Whether the exam's folder is found to be there already.
pub open spec fn finds_present(state: State, event: Event) -> bool {
    &&& state matches State::ExamChosen { exam, asked }
    &&& !asked
    &&& event matches Event::DestinationProbed(exists)
    &&& exists
}

/// Whether the exam's folder is found not to be there.
pub open spec fn finds_absent(state: State, event: Event) -> bool {
    &&& state matches State::ExamChosen { exam, asked }
    &&& !asked
    &&& event matches Event::DestinationProbed(exists)
    &&& !exists
}

/// Whether the exam's earlier folder is reported as removed, after its
/// removal was asked for.
pub open spec fn removes(state: State, event: Event) -> bool {
    &&& state matches State::OverwriteConfirmed { exam, cleared }
    &&& !cleared
    &&& event matches Event::DestinationRemoved(removed)
    &&& removed
}

/// Whether nothing was asked for yet that changes the working folder: the
/// state is one of those before the exam may be written, or the one in
/// which the operator has declined.
pub open spec fn untouched(state: State) -> bool {
    state is Idle || state is LibraryDiscovered || state is ExamChosen || state is Aborted
}

/// Whether the operator was asked and has not agreed, or has agreed and
/// the earlier folder is not removed, or the run is over without a level
/// done.
spec fn held_back(state: State) -> bool {
    ||| state matches State::ExamChosen { exam, asked } && asked
    ||| state matches State::OverwriteConfirmed { exam, cleared } && !cleared
    ||| state is Aborted
    ||| state is Failed
}

/// A state that an assembly can be in is followed by such a state only.
pub proof fn lemma_follows_keeps_wf(state: State, event: Event, next: State)
    requires
        state.wf(),
        follows(state, event, next),
    ensures
        next.wf(),
{
    if state.expects(event) {
        match (state, event) {
            (State::OverwriteConfirmed { exam, cleared }, Event::LevelsListed(entries)) => {
                match next {
                    State::PerLevel { exam: e, levels, slots, stage } => {
                        lemma_levels_are_as_many(levels@, entries@);
                    },
                    _ => {},
                }
            },
            (State::PerLevel { exam, levels, slots, stage }, Event::ExercisesListed(entries)) => {
                if folders(entries@).len() == 0 {
                    lemma_closing_keeps_wf(exam, levels, slots, Seq::empty(), None, next);
                }
            },
            (
                State::PerLevel {
                    exam,
                    levels,
                    slots,
                    stage: Stage::Materializing { candidates, exercise },
                },
                Event::Materialized(Ok(_)),
            ) => {
                lemma_closing_keeps_wf(
                    exam,
                    levels,
                    slots,
                    names_of(candidates@),
                    Some(exercise@),
                    next,
                );
            },
            _ => {},
        }
    }
}

proof fn lemma_closing_keeps_wf(
    exam: String,
    levels: Vec<Level>,
    slots: Vec<Slot>,
    candidates: Seq<Seq<char>>,
    chosen: Option<Seq<char>>,
    next: State,
)
    requires
        slots.len() < levels.len(),
        densely_numbered(levels@),
        slots_follow(slots@, levels@),
        slots_sound(slots@),
        chosen is None <==> candidates.len() == 0,
        chosen matches Some(exercise) ==> candidates.contains(exercise),
        closes_level(exam, levels, slots, candidates, chosen, next),
    ensures
        next.wf(),
{
    let after = next.slots();
    assert forall|k: int| 0 <= k < after.len() implies (#[trigger] after[k]).sound()
        && after[k].level.ordinal == levels@[k].ordinal && after[k].level.folder@
        == levels@[k].folder@ by {
        if k < slots@.len() {
            assert(after[k] == after.drop_last()[k]);
        }
    }
}

/// Every state of a run is one that an assembly can be in.
pub proof fn lemma_run_is_well_formed(states: Seq<State>, events: Seq<Event>, i: int)
    requires
        is_run(states, events),
        0 <= i < states.len(),
    ensures
        states[i].wf(),
    decreases i,
{
    if i > 0 {
        lemma_run_is_well_formed(states, events, i - 1);
        assert(step_holds(states, events, i - 1));
        lemma_follows_keeps_wf(states[i - 1], events[i - 1], states[i]);
    }
}

/// Whether the run, at `i`, gets the listing of the level at place `k` of
/// the exam's levels, and the listing offers `offered`.
pub open spec fn lists_level(
    states: Seq<State>,
    events: Seq<Event>,
    i: int,
    k: int,
    offered: Seq<Seq<char>>,
) -> bool {
    &&& states[i] matches State::PerLevel { exam, levels, slots, stage: Stage::Listing }
    &&& slots.len() == k
    &&& events[i] matches Event::ExercisesListed(entries)
    &&& folders(entries@) == offered
}

/// Whether the exercises in the slot at place `k` of the state at `j` are
/// those that the run was told of before, by a listing of that level.
pub open spec fn slot_was_listed(states: Seq<State>, events: Seq<Event>, j: int, k: int) -> bool {
    exists|i: int|
        0 <= i < j && #[trigger] lists_level(
            states,
            events,
            i,
            k,
            names_of(states[j].slots()[k].candidates@),
        )
}

/// Whether what the state at `j` holds of each closed level is what the run
/// was told of before.
pub open spec fn slots_were_listed(states: Seq<State>, events: Seq<Event>, j: int) -> bool {
    forall|k: int|
        0 <= k < states[j].slots().len() ==> #[trigger] slot_was_listed(states, events, j, k)
}

/// Whether the exercises among which the exercise at work was drawn are
/// those that a listing of the level at hand offered.
spec fn draw_was_listed(states: Seq<State>, events: Seq<Event>, j: int) -> bool {
    match states[j] {
        State::PerLevel {
            exam,
            levels,
            slots,
            stage: Stage::Scaffolding { candidates, exercise },
        } => exists|i: int|
            0 <= i < j && #[trigger] lists_level(
                states,
                events,
                i,
                slots.len() as int,
                names_of(candidates@),
            ),
        State::PerLevel {
            exam,
            levels,
            slots,
            stage: Stage::Materializing { candidates, exercise },
        } => exists|i: int|
            0 <= i < j && #[trigger] lists_level(
                states,
                events,
                i,
                slots.len() as int,
                names_of(candidates@),
            ),
        _ => true,
    }
}

proof fn lemma_slots_were_listed(states: Seq<State>, events: Seq<Event>, j: int)
    requires
        is_run(states, events),
        0 <= j < states.len(),
    ensures
        slots_were_listed(states, events, j),
        draw_was_listed(states, events, j),
    decreases j,
{
    if j > 0 {
        lemma_slots_were_listed(states, events, j - 1);
        lemma_run_is_well_formed(states, events, j - 1);
        assert(step_holds(states, events, j - 1));
        let before = states[j - 1];
        let event = events[j - 1];
        let after = states[j];
        assert forall|k: int| 0 <= k < after.slots().len() implies #[trigger] slot_was_listed(
            states,
            events,
            j,
            k,
        ) by {
            let offered = names_of(after.slots()[k].candidates@);
            if k < before.slots().len() && after.slots()[k] == before.slots()[k] {
                assert(slot_was_listed(states, events, j - 1, k));
                let i = choose|i: int|
                    0 <= i < j - 1 && #[trigger] lists_level(states, events, i, k, offered);
                assert(lists_level(states, events, i, k, offered));
            } else {
                assert(after.slots().drop_last() == before.slots());
                assert(k == before.slots().len());
                match before {
                    State::PerLevel { exam, levels, slots, stage: Stage::Listing } => {
                        assert(event.offers() =~= Seq::<Seq<char>>::empty());
                        assert(lists_level(states, events, j - 1, k, offered));
                    },
                    State::PerLevel {
                        exam,
                        levels,
                        slots,
                        stage: Stage::Materializing { candidates, exercise },
                    } => {
                        let i = choose|i: int|
                            0 <= i < j - 1 && #[trigger] lists_level(states, events, i, k, offered);
                        assert(lists_level(states, events, i, k, offered));
                    },
                    _ => {},
                }
            }
        }
        match after {
            State::PerLevel {
                exam,
                levels,
                slots,
                stage: Stage::Scaffolding { candidates, exercise },
            } => {
                let k = slots.len() as int;
                let offered = names_of(candidates@);
                if before.expects(event) {
                    assert(lists_level(states, events, j - 1, k, offered));
                } else {
                    let i = choose|i: int|
                        0 <= i < j - 1 && #[trigger] lists_level(states, events, i, k, offered);
                    assert(lists_level(states, events, i, k, offered));
                }
            },
            State::PerLevel {
                exam,
                levels,
                slots,
                stage: Stage::Materializing { candidates, exercise },
            } => {
                let k = slots.len() as int;
                let offered = names_of(candidates@);
                let i = choose|i: int|
                    0 <= i < j - 1 && #[trigger] lists_level(states, events, i, k, offered);
                assert(lists_level(states, events, i, k, offered));
            },
            _ => {},
        }
    }
}

/// A run that is done has laid out one project for each level that offers
/// exercises, and none for a level that offers none.
///
/// Every level of the exam has its slot, in the order and under the number
/// of the level, counted from one without a gap. The exercises in the slot
/// are those that the listing of the level offered. Where there is one at
/// least, the slot holds the one exercise that was laid out, and it is one
/// of them; where there is none, the slot holds no exercise. So the exam
/// plan has an exercise under the number of a level exactly where the level
/// offers exercises.
pub proof fn lemma_done_run_has_one_project_per_offering_level(
    states: Seq<State>,
    events: Seq<Event>,
    k: int,
)
    requires
        is_run(states, events),
        states.last() is Done,
        0 <= k < states.last()->Done_levels.len(),
    ensures
        states.last()->Done_slots.len() == states.last()->Done_levels.len(),
        states.last()->Done_slots[k].level.ordinal == k + 1,
        states.last()->Done_slots[k].level.folder@ == states.last()->Done_levels[k].folder@,
        exists|i: int|
            0 <= i < events.len() && #[trigger] lists_level(
                states,
                events,
                i,
                k,
                names_of(states.last()->Done_slots[k].candidates@),
            ),
        states.last()->Done_slots[k].chosen is Some <==> names_of(
            states.last()->Done_slots[k].candidates@,
        ).len() > 0,
        states.last()->Done_slots[k].chosen matches Some(exercise) ==> names_of(
            states.last()->Done_slots[k].candidates@,
        ).contains(exercise@),
        exam_plan(states.last().slots()).contains_key(k + 1) <==> names_of(
            states.last()->Done_slots[k].candidates@,
        ).len() > 0,
{
    let last = states.len() - 1;
    lemma_run_is_well_formed(states, events, last);
    lemma_slots_were_listed(states, events, last);
    assert(slot_was_listed(states, events, last, k));
}

/// Whether the run is over without an exam at hand: it failed, or the
/// operator declined.
spec fn given_up(state: State) -> bool {
    state is Aborted || state is Failed
}

proof fn lemma_exam_is_kept_or_given_up(states: Seq<State>, events: Seq<Event>, i: int, j: int)
    requires
        is_run(states, events),
        0 <= i <= j < states.len(),
        states[i].exam() is Some,
    ensures
        states[j].exam() == states[i].exam() || given_up(states[j]),
    decreases j - i,
{
    if i < j {
        lemma_exam_is_kept_or_given_up(states, events, i, j - 1);
        assert(step_holds(states, events, j - 1));
    }
}

/// Once an exam is chosen, the run stays with it: any two states of a run
/// that have an exam at hand have the same.
pub proof fn lemma_exam_is_kept(states: Seq<State>, events: Seq<Event>, i: int, j: int)
    requires
        is_run(states, events),
        0 <= i <= j < states.len(),
        states[i].exam() is Some,
        states[j].exam() is Some,
    ensures
        states[i].exam() == states[j].exam(),
{
    lemma_exam_is_kept_or_given_up(states, events, i, j);
}

/// In a run that ends with the operator declining to replace the exam's
/// folder, no state asks for work that changes the working folder; and
/// such a run has ended well.
pub proof fn lemma_declined_run_writes_nothing(states: Seq<State>, events: Seq<Event>, i: int)
    requires
        is_run(states, events),
        states.last() is Aborted,
        0 <= i < states.len(),
    ensures
        !states[i].asks_to_write(),
        untouched(states[i]),
        states.last().ended_well(),
    decreases states.len() - i,
{
    if i < states.len() - 1 {
        lemma_declined_run_writes_nothing(states, events, i + 1);
        assert(step_holds(states, events, i));
    }
}

/// Whether the exam's place is free: the exam's levels are being listed or
/// taken, or are done.
spec fn in_the_clear(state: State) -> bool {
    ||| state matches State::OverwriteConfirmed { exam, cleared } && cleared
    ||| state is PerLevel
    ||| state is Done
}

proof fn lemma_clear_follows_clearance(states: Seq<State>, events: Seq<Event>, i: int)
    requires
        is_run(states, events),
        0 <= i < states.len(),
        in_the_clear(states[i]),
    ensures
        exists|j: int|
            0 <= j < i && (#[trigger] finds_absent(states[j], events[j]) || removes(
                states[j],
                events[j],
            )),
    decreases i,
{
    if i > 0 {
        assert(step_holds(states, events, i - 1));
        let before = states[i - 1];
        let event = events[i - 1];
        if !finds_absent(before, event) && !removes(before, event) {
            lemma_clear_follows_clearance(states, events, i - 1);
            let j = choose|j: int|
                0 <= j < i - 1 && (#[trigger] finds_absent(states[j], events[j]) || removes(
                    states[j],
                    events[j],
                ));
            assert(finds_absent(states[j], events[j]) || removes(states[j], events[j]));
        }
    }
}

/// In a run, a state that asks for something to be put into the exam's
/// folder comes after the folder was found not to be there, or after it was
/// reported as removed.
pub proof fn lemma_creation_follows_clearance(states: Seq<State>, events: Seq<Event>, i: int)
    requires
        is_run(states, events),
        0 <= i < states.len(),
        states[i].asks_to_create(),
    ensures
        exists|j: int|
            0 <= j < i && (#[trigger] finds_absent(states[j], events[j]) || removes(
                states[j],
                events[j],
            )),
{
    lemma_clear_follows_clearance(states, events, i);
}

/// In a run that finds the exam's folder there already, the folder has been
/// removed before anything is put into it: between the state that finds it
/// and any later state that asks for something to be put into the exam's
/// folder, the run reports the removal.
pub proof fn lemma_replaced_folder_is_removed_first(
    states: Seq<State>,
    events: Seq<Event>,
    found: int,
    i: int,
)
    requires
        is_run(states, events),
        0 <= found < i < states.len(),
        finds_present(states[found], events[found]),
        states[i].asks_to_create(),
    ensures
        exists|m: int| found < m < i && #[trigger] removes(states[m], events[m]),
{
    lemma_held_back_until_removed(states, events, found, i);
}

proof fn lemma_held_back_until_removed(
    states: Seq<State>,
    events: Seq<Event>,
    found: int,
    k: int,
)
    requires
        is_run(states, events),
        0 <= found < k < states.len(),
        finds_present(states[found], events[found]),
    ensures
        held_back(states[k]) || exists|m: int|
            found < m < k && #[trigger] removes(states[m], events[m]),
    decreases k,
{
    assert(step_holds(states, events, k - 1));
    if k - 1 > found {
        lemma_held_back_until_removed(states, events, found, k - 1);
        if held_back(states[k - 1]) {
            if !held_back(states[k]) {
                assert(removes(states[k - 1], events[k - 1]));
            }
        } else {
            let m = choose|m: int| found < m < k - 1 && #[trigger] removes(states[m], events[m]);
            assert(removes(states[m], events[m]));
        }
    }
}

} // verus!
