//! The transform handle: a fixed-width plan, three aligned buffers, and the
//! checked operations around one transform call.

use vstd::prelude::*;
use crate::align::vec_and_alignment_offset;

verus! {

/// The abstract state of a [`PffftSetup`]: the fixed width, whether the
/// engine's plan is present, and the three buffers together with the offsets
/// of their aligned windows.
#[verifier::ext_equal]
pub ghost struct SetupModel<T> {
    pub width: nat,
    pub plan_present: bool,
    pub input: Seq<T>,
    pub input_off: nat,
    pub output: Seq<T>,
    pub output_off: nat,
    pub work: Seq<T>,
    pub work_off: nat,
}

impl<T> SetupModel<T> {
    /// Well-formedness: each buffer holds three elements more than the width,
    /// and each window offset leaves the whole window inside its buffer.
    pub open spec fn wf(self) -> bool {
        &&& self.input.len() == self.width + 3
        &&& self.output.len() == self.width + 3
        &&& self.work.len() == self.width + 3
        &&& self.input_off < 4
        &&& self.output_off < 4
        &&& self.work_off < 4
    }

    /// The aligned window of the input buffer.
    pub open spec fn input_region(self) -> Seq<T> {
        self.input.subrange(self.input_off as int, self.input_off as int + self.width as int)
    }

    /// The aligned window of the output buffer.
    pub open spec fn output_region(self) -> Seq<T> {
        self.output.subrange(self.output_off as int, self.output_off as int + self.width as int)
    }

    /// Whether a transform with these argument lengths is accepted: the plan
    /// must be present and both lengths must agree with the width.
    pub open spec fn accepts(self, input_len: nat, output_len: nat) -> bool {
        self.plan_present && input_len == self.width && output_len == self.width
    }

    /// The state after the caller's input has been written into the aligned
    /// input window; everything else is untouched.
    pub open spec fn loaded(self, data: Seq<T>) -> Self
        recommends
            self.wf(),
            data.len() == self.width,
    {
        SetupModel {
            input: self.input.subrange(0, self.input_off as int) + data
                + self.input.subrange(
                    self.input_off as int + self.width as int,
                    self.input.len() as int,
                ),
            ..self
        }
    }

    /// The state after the plan has been released.
    pub open spec fn released(self) -> Self {
        SetupModel { plan_present: false, ..self }
    }
}

/// A reusable real-valued transform plan of a fixed width, owning its three
/// aligned buffers (input, output, work scratch).
///
/// The engine's opaque plan object itself lives with the unverified caller
/// that links the engine; this handle tracks its presence and decides, once,
/// when it must be given back.
pub struct PffftSetup<T> {
    width: usize,
    work: Vec<T>,
    work_buf_offset: usize,
    input: Vec<T>,
    input_buf_offset: usize,
    output: Vec<T>,
    output_buf_offset: usize,
    plan_present: bool,
}

impl<T> View for PffftSetup<T> {
    type V = SetupModel<T>;

    closed spec fn view(&self) -> SetupModel<T> {
        SetupModel {
            width: self.width as nat,
            plan_present: self.plan_present,
            input: self.input@,
            input_off: self.input_buf_offset as nat,
            output: self.output@,
            output_off: self.output_buf_offset as nat,
            work: self.work@,
            work_off: self.work_buf_offset as nat,
        }
    }
}

impl<T: Copy> PffftSetup<T> {
    /// Builds a handle for the given width, with all three buffers filled
    /// with `fill`.
    ///
    /// A plan is requested only when `forward` is true; `backward` is
    /// accepted but deliberately ignored, so a handle built with
    /// `(width, false, true)` has no plan and both directions fail.  This
    /// mirrors the engine binding's observed behaviour; callers who want a
    /// usable handle must pass `forward = true`.
    pub fn new(width: usize, forward: bool, backward: bool, fill: T) -> (r: Self)
        requires
            width + 3 <= usize::MAX,
        ensures
            r@.wf(),
            r@.width == width,
            r@.plan_present == forward,
            forall|i: int| 0 <= i < r@.input.len() ==> r@.input[i] == fill,
            forall|i: int| 0 <= i < r@.output.len() ==> r@.output[i] == fill,
            forall|i: int| 0 <= i < r@.work.len() ==> r@.work[i] == fill,
    {
        let (work_buf, work_buf_offset) = vec_and_alignment_offset(fill, width);
        let (input_buf, input_buf_offset) = vec_and_alignment_offset(fill, width);
        let (output_buf, output_buf_offset) = vec_and_alignment_offset(fill, width);
        PffftSetup {
            width,
            work: work_buf,
            work_buf_offset,
            input: input_buf,
            input_buf_offset,
            output: output_buf,
            output_buf_offset,
            plan_present: forward,
        }
    }

    /// The handle's fixed width.
    pub fn width(&self) -> (r: usize)
        ensures
            r == self@.width,
    {
        self.width
    }

    /// Whether the engine's plan is present.
    pub fn plan_present(&self) -> (r: bool)
        ensures
            r == self@.plan_present,
    {
        self.plan_present
    }

    /// Checks the preconditions of one transform call and, only when all of
    /// them hold, copies the caller's input into the aligned input window.
    ///
    /// Returns false — with the handle untouched — when the plan is absent
    /// or either argument length disagrees with the width; no partial copy
    /// ever happens.
    pub fn prepare_transform(&mut self, data: &[T], output_len: usize) -> (r: bool)
        requires
            old(self)@.wf(),
        ensures
            r == old(self)@.accepts(data@.len(), output_len as nat),
            r ==> final(self)@ =~= old(self)@.loaded(data@),
            !r ==> final(self)@ == old(self)@,
            final(self)@.wf(),
    {
        if !self.plan_present {
            return false;
        }
        if output_len != self.width {
            return false;
        }
        if data.len() != self.width {
            return false;
        }
        let off = self.input_buf_offset;
        let n = self.input.len();
        let mut i: usize = 0;
        while i < self.width
            invariant
                i <= self.width,
                off == self@.input_off,
                n == self@.input.len(),
                off + self.width <= n,
                self.width == self@.width,
                data@.len() == self@.width,
                self@.wf(),
                self@.width == old(self)@.width,
                self@.plan_present == old(self)@.plan_present,
                self@.output == old(self)@.output,
                self@.output_off == old(self)@.output_off,
                self@.work == old(self)@.work,
                self@.work_off == old(self)@.work_off,
                self@.input_off == old(self)@.input_off,
                self@.input.len() == old(self)@.input.len(),
                forall|j: int| 0 <= j < i ==> self@.input[self@.input_off + j] == data@[j],
                forall|j: int|
                    0 <= j < self@.input.len()
                        && !(self@.input_off <= j < self@.input_off + i)
                        ==> self@.input[j] == old(self)@.input[j],
            decreases self.width - i,
        {
            let v = data[i];
            self.input[off + i] = v;
            i += 1;
        }
        true
    }

    /// Copies the aligned output window into the caller's output buffer.
    ///
    /// In one transform call this runs after the engine has written the
    /// aligned output window; the caller's buffer then receives exactly
    /// those values.
    pub fn collect_output(&self, out: &mut [T])
        requires
            self@.wf(),
            old(out)@.len() == self@.width,
        ensures
            final(out)@ =~= self@.output_region(),
    {
        let off = self.output_buf_offset;
        let n = self.output.len();
        let mut i: usize = 0;
        while i < self.width
            invariant
                i <= self.width,
                off == self@.output_off,
                n == self@.output.len(),
                off + self.width <= n,
                self.width == self@.width,
                self@.wf(),
                out@.len() == self@.width,
                forall|j: int| 0 <= j < i ==> out@[j] == self@.output[self@.output_off + j],
            decreases self.width - i,
        {
            let v = self.output[off + i];
            out[i] = v;
            i += 1;
        }
    }

    /// The element offset of the aligned input window.
    pub fn input_offset(&self) -> (r: usize)
        ensures
            r == self@.input_off,
    {
        self.input_buf_offset
    }

    /// The element offset of the aligned output window.
    pub fn output_offset(&self) -> (r: usize)
        ensures
            r == self@.output_off,
    {
        self.output_buf_offset
    }

    /// The element offset of the aligned work window.
    pub fn work_offset(&self) -> (r: usize)
        ensures
            r == self@.work_off,
    {
        self.work_buf_offset
    }

    /// Grants the engine-facing caller direct access to the three buffers,
    /// in the order input, output, work, so that their aligned windows can
    /// be handed to the transform engine for one call.  Width, plan and
    /// offsets are untouched; the buffers become whatever the caller leaves
    /// in them.
    pub fn buffers_mut(&mut self) -> (r: (&mut Vec<T>, &mut Vec<T>, &mut Vec<T>))
        ensures
            (*r.0)@ == old(self)@.input,
            (*r.1)@ == old(self)@.output,
            (*r.2)@ == old(self)@.work,
            final(self)@ == (SetupModel {
                input: (*final(r.0))@,
                output: (*final(r.1))@,
                work: (*final(r.2))@,
                ..old(self)@
            }),
    {
        (&mut self.input, &mut self.output, &mut self.work)
    }

    /// The teardown decision: reports whether the plan must now be given
    /// back to the engine, and marks it absent, so a later call never
    /// reports it again.  Buffers and width are untouched.
    pub fn take_plan(&mut self) -> (r: bool)
        ensures
            r == old(self)@.plan_present,
            final(self)@ == old(self)@.released(),
    {
        let r = self.plan_present;
        self.plan_present = false;
        r
    }
}

} // verus!
