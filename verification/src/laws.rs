//! What holds of the layer as a whole, proved over its model.

use crate::chord::{asserted_after, emission, is_chord, lemma_emission_is_not_empty};
use crate::dispatch::{
    consults_report, initial_state, is_modifier_key, run, step, Input, RemapperState,
};
use crate::event::KeyEvent;
use crate::flags::Direction;
use crate::hold::{escape_tap, lemma_escape_tap, ModifierHoldState};
use crate::guard::active_after;
use crate::keys::PhysicalKeyId;
use crate::resync::corrective_release;
use crate::table::{bespoke_entry, primary_modifier, table_action, Action};
use vstd::prelude::*;

verus! {

/// A key without an entry of its own becomes, while the modifier is held, a
/// chord of the primary modifier and the key itself, and never a
/// passthrough.
pub proof fn lemma_unmapped_key_becomes_chord(key_id: PhysicalKeyId)
    requires
        bespoke_entry(key_id) is None,
    ensures
        table_action(key_id, true) == Action::Chord(primary_modifier(), key_id),
        table_action(key_id, true) != Action::Passthrough,
{
}

/// While the modifier is held no key passes through, whatever its entry.
pub proof fn lemma_held_key_never_passes_through(key_id: PhysicalKeyId)
    ensures
        table_action(key_id, true) != Action::Passthrough,
        table_action(key_id, false) == Action::Passthrough,
{
}

/// The state at start is well formed, and every step keeps it so: the hold
/// is never marked as used while the modifier is released, and no key is
/// active then.
pub proof fn lemma_step_preserves_wf(state: RemapperState, event: KeyEvent, modifier_reported_down: bool)
    requires
        state.wf(),
    ensures
        initial_state().wf(),
        step(state, event, modifier_reported_down).0.wf(),
{
}

/// Every run from a well-formed state ends in a well-formed state.
pub proof fn lemma_run_preserves_wf(state: RemapperState, inputs: Seq<Input>)
    requires
        state.wf(),
    ensures
        run(state, inputs).0.wf(),
    decreases inputs.len(),
{
    if inputs.len() > 0 {
        let first = step(state, inputs[0].event, inputs[0].modifier_reported_down);
        lemma_step_preserves_wf(state, inputs[0].event, inputs[0].modifier_reported_down);
        lemma_run_preserves_wf(first.0, inputs.subrange(1, inputs.len() as int));
    }
}

/// A run over two sequences of inputs, one after the other, is the run over
/// the first followed by the run over the second.
pub proof fn lemma_run_concat(state: RemapperState, front: Seq<Input>, back: Seq<Input>)
    ensures
        run(state, front + back).0 == run(run(state, front).0, back).0,
        run(state, front + back).1 == run(state, front).1 + run(run(state, front).0, back).1,
    decreases front.len(),
{
    if front.len() == 0 {
        assert(front + back =~= back);
        assert(Seq::<KeyEvent>::empty() + run(state, back).1 =~= run(state, back).1);
    } else {
        let all = front + back;
        let first = step(state, front[0].event, front[0].modifier_reported_down);
        assert(all[0] == front[0]);
        assert(all.subrange(1, all.len() as int) =~= front.subrange(1, front.len() as int) + back);
        lemma_run_concat(first.0, front.subrange(1, front.len() as int), back);
        let tail_front = run(first.0, front.subrange(1, front.len() as int));
        let tail_back = run(tail_front.0, back);
        assert(first.1 + (tail_front.1 + tail_back.1) =~= (first.1 + tail_front.1) + tail_back.1);
    }
}

/// A run over one input is one step.
pub proof fn lemma_run_single(state: RemapperState, input: Input)
    ensures
        run(state, seq![input]) == step(state, input.event, input.modifier_reported_down),
{
    let inputs = seq![input];
    let first = step(state, input.event, input.modifier_reported_down);
    assert(inputs.subrange(1, inputs.len() as int) =~= Seq::<Input>::empty());
    assert(run(first.0, inputs.subrange(1, inputs.len() as int)) == (first.0, Seq::<KeyEvent>::empty()));
    assert(first.1 + Seq::<KeyEvent>::empty() =~= first.1);
}

/// An event of the modifier key is never forwarded: what is injected for it
/// is nothing or the Escape of a tap.
pub proof fn lemma_modifier_event_is_suppressed(state: RemapperState, event: KeyEvent, modifier_reported_down: bool)
    requires
        is_modifier_key(event.key_id),
    ensures
        ({
            let batch = step(state, event, modifier_reported_down).1;
            &&& batch == Seq::<KeyEvent>::empty() || batch == escape_tap(event.payload)
            &&& forall|i: int| 0 <= i < batch.len() ==> !is_modifier_key(#[trigger] batch[i].key_id)
        }),
{
    lemma_escape_tap(event.payload);
}

/// Nothing that is injected is an event of the modifier key, whatever the
/// state and the event: the key's own effect never reaches the operating
/// system.
pub proof fn lemma_modifier_key_is_never_injected(
    state: RemapperState,
    event: KeyEvent,
    modifier_reported_down: bool,
)
    ensures
        forall|i: int|
            0 <= i < step(state, event, modifier_reported_down).1.len() ==> !is_modifier_key(
                #[trigger] step(state, event, modifier_reported_down).1[i].key_id,
            ),
{
    let batch = step(state, event, modifier_reported_down).1;
    if is_modifier_key(event.key_id) {
        lemma_modifier_event_is_suppressed(state, event, modifier_reported_down);
    } else if state.hold.held {
        let action = table_action(event.key_id, true);
        lemma_emission_is_not_empty(action, event);
        assert forall|i: int| 0 <= i < batch.len() implies !is_modifier_key(
            #[trigger] batch[i].key_id,
        ) by {
            if batch.len() > 0 {
                assert(batch == emission(action, event));
                assert(i == 0 || i == 1);
            }
        }
    } else {
        assert forall|i: int| 0 <= i < batch.len() implies !is_modifier_key(
            #[trigger] batch[i].key_id,
        ) by {
            assert(i == 0 || i == 1);
        }
    }
}

/// Inputs that leave no trace: none of them releases the modifier, and for
/// none of them anything is injected.
pub open spec fn is_quiet(state: RemapperState, inputs: Seq<Input>) -> bool
    decreases inputs.len(),
{
    inputs.len() == 0 || {
        let first = step(state, inputs[0].event, inputs[0].modifier_reported_down);
        &&& first.1.len() == 0
        &&& !(is_modifier_key(inputs[0].event.key_id) && inputs[0].event.spec_direction()
            == Direction::Release)
        &&& is_quiet(first.0, inputs.subrange(1, inputs.len() as int))
    }
}

/// While the modifier is held, quiet inputs change nothing.
pub proof fn lemma_quiet_inputs_change_nothing(state: RemapperState, inputs: Seq<Input>)
    requires
        state.hold.held,
        is_quiet(state, inputs),
    ensures
        run(state, inputs) == (state, Seq::<KeyEvent>::empty()),
    decreases inputs.len(),
{
    if inputs.len() > 0 {
        let event = inputs[0].event;
        let first = step(state, event, inputs[0].modifier_reported_down);
        if !is_modifier_key(event.key_id) {
            lemma_emission_is_not_empty(table_action(event.key_id, true), event);
        }
        assert(first.0 == state);
        lemma_quiet_inputs_change_nothing(state, inputs.subrange(1, inputs.len() as int));
        assert(first.1 + Seq::<KeyEvent>::empty() =~= Seq::<KeyEvent>::empty());
    }
}

/// A tap of the modifier alone: the press is swallowed, and the release is
/// replaced by exactly one press and one release of Escape.
pub proof fn lemma_bare_tap_yields_escape(
    state: RemapperState,
    press: KeyEvent,
    release: KeyEvent,
    reported_at_press: bool,
    reported_at_release: bool,
)
    requires
        state.wf(),
        !state.hold.held,
        is_modifier_key(press.key_id),
        press.spec_direction() == Direction::Press,
        is_modifier_key(release.key_id),
        release.spec_direction() == Direction::Release,
    ensures
        ({
            let pressed = step(state, press, reported_at_press);
            let released = step(pressed.0, release, reported_at_release);
            &&& pressed.1 == Seq::<KeyEvent>::empty()
            &&& pressed.0.hold == (ModifierHoldState { held: true, combo_used: false })
            &&& released.1 == escape_tap(release.payload)
            &&& released.0 == state
        }),
{
    let pressed = step(state, press, reported_at_press);
    let released = step(pressed.0, release, reported_at_release);
    assert(released.0.active =~= state.active);
}

/// A tap of the modifier with quiet inputs in between, such as the
/// keyboard repeating the press: all that is injected from the press to the
/// release is one press and one release of Escape.
pub proof fn lemma_tap_with_quiet_interval(
    state: RemapperState,
    press: Input,
    between: Seq<Input>,
    release: Input,
)
    requires
        state.wf(),
        !state.hold.held,
        is_modifier_key(press.event.key_id),
        press.event.spec_direction() == Direction::Press,
        is_modifier_key(release.event.key_id),
        release.event.spec_direction() == Direction::Release,
        is_quiet(step(state, press.event, press.modifier_reported_down).0, between),
    ensures
        run(state, seq![press] + between + seq![release]) == (
            state,
            escape_tap(release.event.payload),
        ),
{
    let pressed = step(state, press.event, press.modifier_reported_down);
    lemma_bare_tap_yields_escape(
        state,
        press.event,
        release.event,
        press.modifier_reported_down,
        release.modifier_reported_down,
    );
    lemma_run_single(state, press);
    lemma_quiet_inputs_change_nothing(pressed.0, between);
    lemma_run_single(pressed.0, release);
    lemma_run_concat(state, seq![press], between);
    lemma_run_concat(state, seq![press] + between, seq![release]);
    let empty = Seq::<KeyEvent>::empty();
    assert(empty + empty =~= empty);
    assert(empty + escape_tap(release.event.payload) =~= escape_tap(release.event.payload));
}

/// The modifier held around one key: the press of the modifier is
/// swallowed; the press and the release of the key are each replaced by what
/// the table says for the key; the release of the modifier is swallowed and
/// no Escape is injected. The hold counts as used from the key's press until
/// the modifier's release has been processed, and only then as unused again.
pub proof fn lemma_hold_with_mapped_key(
    state: RemapperState,
    modifier_press: KeyEvent,
    key_press: KeyEvent,
    key_release: KeyEvent,
    modifier_release: KeyEvent,
    reported: Seq<bool>,
)
    requires
        state.wf(),
        !state.hold.held,
        reported.len() == 4,
        is_modifier_key(modifier_press.key_id),
        modifier_press.spec_direction() == Direction::Press,
        !is_modifier_key(key_press.key_id),
        key_press.spec_direction() == Direction::Press,
        key_release.key_id == key_press.key_id,
        key_release.spec_direction() == Direction::Release,
        is_modifier_key(modifier_release.key_id),
        modifier_release.spec_direction() == Direction::Release,
    ensures
        ({
            let action = table_action(key_press.key_id, true);
            let first = step(state, modifier_press, reported[0]);
            let second = step(first.0, key_press, reported[1]);
            let third = step(second.0, key_release, reported[2]);
            let fourth = step(third.0, modifier_release, reported[3]);
            &&& first.1 == Seq::<KeyEvent>::empty()
            &&& second.1 == emission(action, key_press)
            &&& third.1 == emission(action, key_release)
            &&& fourth.1 == Seq::<KeyEvent>::empty()
            &&& first.0.hold == (ModifierHoldState { held: true, combo_used: false })
            &&& second.0.hold == (ModifierHoldState { held: true, combo_used: true })
            &&& third.0.hold == (ModifierHoldState { held: true, combo_used: true })
            &&& fourth.0.hold == (ModifierHoldState { held: false, combo_used: false })
            &&& fourth.0.active == Set::<PhysicalKeyId>::empty()
            &&& fourth.0.expected_modifier_asserted == (!is_chord(action)
                && state.expected_modifier_asserted)
        }),
{
}

/// A hold that counts as used stops doing so at one point only: when the
/// release of the modifier is processed.
pub proof fn lemma_combo_is_reset_by_modifier_release_only(
    state: RemapperState,
    event: KeyEvent,
    modifier_reported_down: bool,
)
    requires
        state.wf(),
        state.hold.combo_used,
        !step(state, event, modifier_reported_down).0.hold.combo_used,
    ensures
        is_modifier_key(event.key_id),
        event.spec_direction() == Direction::Release,
        state.hold.held,
        !step(state, event, modifier_reported_down).0.hold.held,
{
}

/// How the active keys change. A release of the modifier forgets them all.
/// While the modifier is held, an event of another key makes the key active
/// on a press and ends that on a release, and is let through exactly when
/// this changes something. Nothing else touches them.
pub proof fn lemma_active_keys_follow_the_guard(
    state: RemapperState,
    event: KeyEvent,
    modifier_reported_down: bool,
)
    ensures
        ({
            let after = step(state, event, modifier_reported_down).0.active;
            if is_modifier_key(event.key_id) {
                after == if state.hold.held && event.spec_direction() == Direction::Release {
                    Set::<PhysicalKeyId>::empty()
                } else {
                    state.active
                }
            } else if state.hold.held {
                after == active_after(state.active, event.key_id, event.spec_direction())
            } else {
                after == state.active
            }
        }),
{
    let after = step(state, event, modifier_reported_down).0.active;
    if !is_modifier_key(event.key_id) && state.hold.held {
        assert(after =~= active_after(state.active, event.key_id, event.spec_direction()));
    }
}

/// Every chord that goes out settles what this layer believes of the
/// modifier: asserted after the chord of a press, withdrawn after the chord
/// of a release. Apart from that only the stuck-modifier guard changes the
/// belief, and only by withdrawing it.
pub proof fn lemma_assertion_follows_the_chords(
    state: RemapperState,
    event: KeyEvent,
    modifier_reported_down: bool,
)
    ensures
        ({
            let stepped = step(state, event, modifier_reported_down);
            let action = table_action(event.key_id, true);
            if !is_modifier_key(event.key_id) && state.hold.held && stepped.1.len() > 0 {
                stepped.0.expected_modifier_asserted == asserted_after(
                    action,
                    event,
                    state.expected_modifier_asserted,
                )
            } else if consults_report(state, event) && !modifier_reported_down {
                !stepped.0.expected_modifier_asserted
            } else {
                stepped.0.expected_modifier_asserted == state.expected_modifier_asserted
            }
        }),
{
}

/// A repeated press of a key that is active is swallowed and changes
/// nothing.
pub proof fn lemma_press_of_active_key_is_swallowed(state: RemapperState, press: KeyEvent, modifier_reported_down: bool)
    requires
        state.hold.held,
        !is_modifier_key(press.key_id),
        press.spec_direction() == Direction::Press,
        state.active.contains(press.key_id),
    ensures
        step(state, press, modifier_reported_down) == (state, Seq::<KeyEvent>::empty()),
{
}

/// Pressing a key twice while the modifier is held is the same as pressing
/// it once: after the first press the key is active, and the second press
/// injects nothing and leaves the state as the first press left it.
pub proof fn lemma_repeated_press_is_idempotent(
    state: RemapperState,
    first_press: Input,
    second_press: Input,
)
    requires
        state.hold.held,
        !is_modifier_key(first_press.event.key_id),
        first_press.event.spec_direction() == Direction::Press,
        second_press.event.key_id == first_press.event.key_id,
        second_press.event.spec_direction() == Direction::Press,
    ensures
        step(state, first_press.event, first_press.modifier_reported_down).0.active.contains(
            first_press.event.key_id,
        ),
        run(state, seq![first_press, second_press]) == run(state, seq![first_press]),
{
    let once = step(state, first_press.event, first_press.modifier_reported_down);
    lemma_press_of_active_key_is_swallowed(
        once.0,
        second_press.event,
        second_press.modifier_reported_down,
    );
    lemma_run_single(state, first_press);
    lemma_run_single(once.0, second_press);
    assert(seq![first_press, second_press] =~= seq![first_press] + seq![second_press]);
    lemma_run_concat(state, seq![first_press], seq![second_press]);
    assert(once.1 + Seq::<KeyEvent>::empty() =~= once.1);
}

/// Where this layer believes the modifier asserted and the operating system
/// reports it as up, the next event that reaches the guard has exactly one
/// corrective release injected ahead of it, and the belief is withdrawn, so
/// that the event after it goes out alone. The guard is reached by events of
/// other keys than the modifier while the modifier is released.
pub proof fn lemma_desync_is_corrected_once(
    state: RemapperState,
    event: KeyEvent,
    next: KeyEvent,
    next_reported_down: bool,
)
    requires
        state.expected_modifier_asserted,
        !state.hold.held,
        !is_modifier_key(event.key_id),
        !is_modifier_key(next.key_id),
    ensures
        consults_report(state, event),
        ({
            let corrected = step(state, event, false);
            let after = step(corrected.0, next, next_reported_down);
            &&& corrected.1 == seq![corrective_release(), event]
            &&& corrected.0 == (RemapperState { expected_modifier_asserted: false, ..state })
            &&& after.1 == seq![next]
            &&& after.0 == corrected.0
        }),
{
}

/// Where the two views of the modifier agree, an event that reaches the
/// guard is forwarded alone and nothing changes.
pub proof fn lemma_agreement_forwards_event(state: RemapperState, event: KeyEvent, modifier_reported_down: bool)
    requires
        !state.hold.held,
        !is_modifier_key(event.key_id),
        !state.expected_modifier_asserted || modifier_reported_down,
    ensures
        step(state, event, modifier_reported_down) == (state, seq![event]),
{
}

} // verus!
