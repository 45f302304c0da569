use vstd::prelude::*;

use crate::geometry::{spec_field_workgroup_count, Extent2, FieldLayout};

verus! {

/// What the host found when it looked for a new field-setting kernel.
pub enum KernelUpdate<S> {
    /// The kernel source did not change since the last look.
    Unchanged,
    /// The changed source compiled into a new field-setting stage, bound to the
    /// simulator's own field uniform and field buffer.
    Compiled(S),
    /// The changed source did not compile.
    Rejected,
}

/// What `update_by` decided.
#[derive(Clone, Copy, Debug)]
pub enum UpdateOutcome {
    /// Nothing was replaced and nothing is to run.
    Unchanged,
    /// The field-setting stage was replaced: the field is to be reseeded by a
    /// standalone dispatch of the new stage with this workgroup count.
    Reloaded((u32, u32, u32)),
    /// The new source did not compile: the previous stage stays, nothing runs.
    KernelRejected,
}

/// The state of a `FieldSimulator` as a value.
pub ghost struct FieldSimulatorView<S> {
    /// Geometry of the lattice and the canvas.
    pub layout: FieldLayout,
    /// Dispatch size of the field-setting stage.
    pub field_workgroup_count: (u32, u32, u32),
    /// The field-setting stage in use; it is replaced whole, never edited.
    pub field_setting_node: S,
    /// Dispatch size of the particle-update stage.
    pub particles_workgroup_count: (u32, u32, u32),
    /// Number of completed draws.
    pub frame_num: nat,
}

impl<S> FieldSimulatorView<S> {
    /// The layout comes from its canvas size, and the field-setting dispatch
    /// covers that lattice.
    pub open spec fn wf(self) -> bool {
        &&& self.layout.wf()
        &&& self.field_workgroup_count == spec_field_workgroup_count(self.layout.lattice_size)
    }
}

/// The field-setting dispatch size depends on the canvas size alone: every
/// well-formed state reached through `reset`, `update_by` or
/// `update_workgroup_count` for one canvas has the same one, whatever stage
/// or particle dispatch size it holds.
pub proof fn lemma_field_workgroup_count_fixed<S>(a: FieldSimulatorView<S>, b: FieldSimulatorView<S>)
    requires
        a.wf(),
        b.wf(),
        a.layout.canvas_size == b.layout.canvas_size,
    ensures
        a.field_workgroup_count == b.field_workgroup_count,
        a.layout == b.layout,
{
}

/// Orchestrates the field-setting, particle-update and render stages of a
/// lattice field simulation. `S` is the compiled field-setting stage, which
/// the simulator holds and swaps but never looks into. The GPU work itself is
/// done by the host: each operation says which dispatch is to run, and with
/// which workgroup count.
pub struct FieldSimulator<S> {
    layout: FieldLayout,
    field_workgroup_count: (u32, u32, u32),
    field_setting_node: S,
    particles_workgroup_count: (u32, u32, u32),
    frame_num: usize,
}

impl<S> View for FieldSimulator<S> {
    type V = FieldSimulatorView<S>;

    closed spec fn view(&self) -> FieldSimulatorView<S> {
        FieldSimulatorView {
            layout: self.layout,
            field_workgroup_count: self.field_workgroup_count,
            field_setting_node: self.field_setting_node,
            particles_workgroup_count: self.particles_workgroup_count,
            frame_num: self.frame_num as nat,
        }
    }
}

impl<S> FieldSimulator<S> {
    /// Sets up the simulator for a canvas of `canvas_size` pixels, with the
    /// given field-setting stage and particle dispatch size. Returns it with
    /// the workgroup count of the initial reset, which seeds the field.
    pub fn new(
        canvas_size: Extent2,
        particles_workgroup_count: (u32, u32, u32),
        field_setting_node: S,
    ) -> (r: (Self, (u32, u32, u32)))
        ensures
            r.0@ == (FieldSimulatorView {
                layout: FieldLayout::spec_for_canvas(canvas_size),
                field_workgroup_count: spec_field_workgroup_count(
                    FieldLayout::spec_for_canvas(canvas_size).lattice_size,
                ),
                field_setting_node,
                particles_workgroup_count,
                frame_num: 0,
            }),
            r.0@.wf(),
            r.1 == r.0@.field_workgroup_count,
    {
        let layout = FieldLayout::for_canvas(canvas_size);
        let field_workgroup_count = layout.field_workgroup_count();
        let sim = FieldSimulator {
            layout,
            field_workgroup_count,
            field_setting_node,
            particles_workgroup_count,
            frame_num: 0,
        };
        let seed = sim.reset();
        (sim, seed)
    }

    /// Workgroup count of the standalone dispatch of the field-setting stage
    /// that reseeds the whole field buffer.
    pub fn reset(&self) -> (r: (u32, u32, u32))
        ensures
            r == self@.field_workgroup_count,
    {
        self.field_workgroup_count
    }

    /// Workgroup count with which the field-setting stage is dispatched inside
    /// a compute pass that the caller owns.
    pub fn update_field_by_cpass(&self) -> (r: (u32, u32, u32))
        ensures
            r == self@.field_workgroup_count,
    {
        self.field_workgroup_count
    }

    /// Hot reload of the field-setting kernel. Only a newly compiled stage
    /// replaces the current one, and then the field is reseeded with the
    /// unchanged field-setting dispatch size; an unchanged or rejected source
    /// leaves everything as it was.
    pub fn update_by(&mut self, update: KernelUpdate<S>) -> (r: UpdateOutcome)
        requires
            old(self)@.wf(),
        ensures
            final(self)@.wf(),
            final(self)@.field_workgroup_count == old(self)@.field_workgroup_count,
            final(self)@.particles_workgroup_count == old(self)@.particles_workgroup_count,
            match update {
                KernelUpdate::Unchanged => {
                    &&& r == UpdateOutcome::Unchanged
                    &&& final(self)@ == old(self)@
                },
                KernelUpdate::Compiled(node) => {
                    &&& r == UpdateOutcome::Reloaded(old(self)@.field_workgroup_count)
                    &&& final(self)@ == (FieldSimulatorView {
                        field_setting_node: node,
                        ..old(self)@
                    })
                },
                KernelUpdate::Rejected => {
                    &&& r == UpdateOutcome::KernelRejected
                    &&& final(self)@ == old(self)@
                },
            },
    {
        match update {
            KernelUpdate::Unchanged => UpdateOutcome::Unchanged,
            KernelUpdate::Compiled(node) => {
                self.field_setting_node = node;
                UpdateOutcome::Reloaded(self.reset())
            },
            KernelUpdate::Rejected => UpdateOutcome::KernelRejected,
        }
    }

    /// Replaces the particle-update dispatch size; it takes effect at the next
    /// `compute`, and nothing else changes.
    pub fn update_workgroup_count(&mut self, workgroup_count: (u32, u32, u32))
        ensures
            final(self)@ == (FieldSimulatorView {
                particles_workgroup_count: workgroup_count,
                ..old(self)@
            }),
    {
        self.particles_workgroup_count = workgroup_count;
    }

    /// Workgroup count of the particle-update dispatch that the caller appends
    /// to its command sequence on every tick.
    pub fn compute(&self) -> (r: (u32, u32, u32))
        ensures
            r == self@.particles_workgroup_count,
    {
        self.particles_workgroup_count
    }

    /// Records one draw of the render stage: the frame counter goes up by one.
    pub fn draw_by_rpass(&mut self)
        requires
            old(self)@.frame_num < usize::MAX,
        ensures
            final(self)@ == (FieldSimulatorView { frame_num: old(self)@.frame_num + 1, ..old(self)@ }),
    {
        self.frame_num = self.frame_num + 1;
    }

    /// The geometry of the lattice and the canvas.
    pub fn layout(&self) -> (r: FieldLayout)
        ensures
            r == self@.layout,
    {
        self.layout
    }

    /// Dispatch size of the field-setting stage.
    pub fn field_workgroup_count(&self) -> (r: (u32, u32, u32))
        ensures
            r == self@.field_workgroup_count,
    {
        self.field_workgroup_count
    }

    /// The field-setting stage in use.
    pub fn field_setting_node(&self) -> (r: &S)
        ensures
            *r == self@.field_setting_node,
    {
        &self.field_setting_node
    }

    /// Number of completed draws.
    pub fn frame_num(&self) -> (r: usize)
        ensures
            r == self@.frame_num,
    {
        self.frame_num
    }
}

} // verus!
