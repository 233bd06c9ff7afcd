//! Properties of the transform handle's state machine, stated over its
//! abstract model and proved once for every handle.

use vstd::prelude::*;
use crate::setup::SetupModel;

verus! {

/// Loading a caller's input of the right length fills the aligned input
/// window with exactly that data, and touches nothing else: width, plan,
/// the output and work buffers, and well-formedness are all preserved.
pub proof fn lemma_loaded_input_region<T>(s: SetupModel<T>, data: Seq<T>)
    requires
        s.wf(),
        data.len() == s.width,
    ensures
        s.loaded(data).wf(),
        s.loaded(data).input_region() =~= data,
        s.loaded(data).width == s.width,
        s.loaded(data).plan_present == s.plan_present,
        s.loaded(data).output == s.output,
        s.loaded(data).output_region() == s.output_region(),
        s.loaded(data).work == s.work,
{
}

/// A transform whose argument lengths disagree with the handle's width is
/// refused, whatever else holds of the handle.
pub proof fn lemma_size_mismatch_refused<T>(s: SetupModel<T>, input_len: nat, output_len: nat)
    requires
        input_len != s.width || output_len != s.width,
    ensures
        !s.accepts(input_len, output_len),
{
}

/// A handle without a plan is permanently unusable: it accepts no transform,
/// whatever the argument lengths, and no transition of the state machine
/// ever makes the plan present again.
pub proof fn lemma_unusable_plan_stays<T>(
    s: SetupModel<T>,
    data: Seq<T>,
    input_len: nat,
    output_len: nat,
)
    requires
        !s.plan_present,
    ensures
        !s.accepts(input_len, output_len),
        !s.loaded(data).plan_present,
        !s.released().plan_present,
{
}

/// Releasing the plan is idempotent: after one release the plan is absent,
/// and a second release changes nothing at all, so the plan can never be
/// given back to the engine twice.
pub proof fn lemma_release_idempotent<T>(s: SetupModel<T>)
    ensures
        !s.released().plan_present,
        s.released().released() == s.released(),
        s.released().width == s.width,
        s.released().input == s.input,
        s.released().output == s.output,
        s.released().work == s.work,
{
}

/// Two independently built handles of the same width carry no hidden state
/// that a transform could see: once the same input is loaded, their aligned
/// input windows are equal, and equal output windows stay equal — so the
/// engine, a function of the windows it is given, is shown the same data by
/// both.
pub proof fn lemma_independent_handles<T>(a: SetupModel<T>, b: SetupModel<T>, data: Seq<T>)
    requires
        a.wf(),
        b.wf(),
        a.width == b.width,
        a.output_region() == b.output_region(),
        data.len() == a.width,
    ensures
        a.loaded(data).input_region() =~= b.loaded(data).input_region(),
        a.loaded(data).output_region() == b.loaded(data).output_region(),
{
    lemma_loaded_input_region(a, data);
    lemma_loaded_input_region(b, data);
}

} // verus!
