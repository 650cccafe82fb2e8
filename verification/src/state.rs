//! The owning context behind the event loop: surface configuration, input
//! color state, pipeline selection and geometry, mutated one event at a time.

use vstd::prelude::*;
use crate::color::{initial_colors, spec_pointer_move, spec_primary_press, spec_scroll, InputColorModel};
use crate::geometry::{heart_indices, heart_vertices, GeometryStore};
use crate::pipeline::{next_index, PipelineKind, PipelineSet, SelectPolicy};
use crate::surface::SurfaceConfig;

verus! {

/// The fixed vocabulary of input events the driver delivers. Window-level
/// events (close, escape, redraw, resize) go to their own entry points; these
/// are the ones the input handler consumes.
#[derive(Clone, Copy, PartialEq, Eq, Structural, Debug)]
pub enum InputEvent {
    /// The pointer moved to `(x, y)` in surface pixels.
    PointerMoved { x: u32, y: u32 },
    /// The scroll wheel moved by a whole number of lines.
    ScrollLines { delta: i32 },
    /// A pixel-precise scroll; consumed but deliberately ignored.
    ScrollPixels,
    /// The primary button was pressed.
    PrimaryPress,
    /// The pipeline-selection key was pressed.
    SelectPress,
    /// The pipeline-selection key was released.
    SelectRelease,
}

/// All mutable render and input state, passed by exclusive reference into
/// each handler; each field has exactly one writer path.
pub struct State {
    pub config: SurfaceConfig,
    pub colors: InputColorModel,
    pub pipelines: PipelineSet,
    pub geometry: GeometryStore,
}

impl State {
    pub open spec fn wf(self) -> bool {
        self.config.wf() && self.colors.wf() && self.pipelines.wf() && self.geometry.wf()
    }

    /// The starting state over a surface of the given size: opaque white,
    /// unlocked, the last pipeline active, the authored mesh loaded, and the
    /// given selection policy.
    pub fn new_with_policy(width: u32, height: u32, policy: SelectPolicy) -> (s: State)
        requires
            width > 0,
            height > 0,
        ensures
            s.config == (SurfaceConfig { width, height }),
            s.colors == initial_colors(),
            s.pipelines.kinds@.len() == 3,
            s.pipelines.kinds@[0] == PipelineKind::NonIndexed,
            s.pipelines.kinds@[1] == PipelineKind::NonIndexed,
            s.pipelines.kinds@[2] == PipelineKind::IndexedMesh,
            s.pipelines.active == 2,
            s.pipelines.policy == policy,
            s.geometry.vertices@ == heart_vertices(),
            s.geometry.indices@ == heart_indices(),
            s.wf(),
    {
        State {
            config: SurfaceConfig::new(width, height),
            colors: InputColorModel::new(),
            pipelines: PipelineSet::new(policy),
            geometry: GeometryStore::new(),
        }
    }

    /// `new_with_policy` under the cycling policy, the default.
    pub fn new(width: u32, height: u32) -> (s: State)
        requires
            width > 0,
            height > 0,
        ensures
            s.config == (SurfaceConfig { width, height }),
            s.colors == initial_colors(),
            s.pipelines.kinds@.len() == 3,
            s.pipelines.kinds@[0] == PipelineKind::NonIndexed,
            s.pipelines.kinds@[1] == PipelineKind::NonIndexed,
            s.pipelines.kinds@[2] == PipelineKind::IndexedMesh,
            s.pipelines.active == 2,
            s.pipelines.policy == SelectPolicy::Toggle,
            s.geometry.vertices@ == heart_vertices(),
            s.geometry.indices@ == heart_indices(),
            s.wf(),
    {
        State::new_with_policy(width, height, SelectPolicy::Toggle)
    }

    /// Store a new surface size, skipping degenerate sizes: a zero dimension
    /// leaves the previous valid configuration untouched. Returns whether the
    /// caller must reconfigure the underlying surface.
    pub fn resize(&mut self, width: u32, height: u32) -> (reconfigure: bool)
        requires
            old(self).wf(),
        ensures
            width > 0 && height > 0 ==> final(self).config == (SurfaceConfig { width, height })
                && reconfigure,
            width == 0 || height == 0 ==> final(self).config == old(self).config && !reconfigure,
            final(self).colors == old(self).colors,
            final(self).pipelines == old(self).pipelines,
            final(self).geometry == old(self).geometry,
            final(self).wf(),
    {
        self.config.configure(width, height)
    }

    /// Consume one input event, returning whether it was handled. Pointer
    /// and press events read the current surface size, so a reconfiguration
    /// always happens before the state it feeds is read.
    pub fn input(&mut self, event: InputEvent) -> (handled: bool)
        requires
            old(self).wf(),
        ensures
            final(self).config == old(self).config,
            final(self).geometry == old(self).geometry,
            final(self).wf(),
            event matches InputEvent::PointerMoved { x, y } ==> {
                &&& handled
                &&& final(self).colors == spec_pointer_move(old(self).colors, x, y, old(self).config.width, old(self).config.height)
                &&& final(self).pipelines == old(self).pipelines
            },
            event matches InputEvent::ScrollLines { delta } ==> {
                &&& handled
                &&& final(self).colors == spec_scroll(old(self).colors, delta)
                &&& final(self).pipelines == old(self).pipelines
            },
            event == InputEvent::ScrollPixels ==> handled && *final(self) == *old(self),
            event == InputEvent::PrimaryPress ==> {
                &&& handled
                &&& final(self).colors == spec_primary_press(old(self).colors, old(self).config.width, old(self).config.height)
                &&& final(self).pipelines == old(self).pipelines
            },
            event == InputEvent::SelectPress ==> {
                &&& handled
                &&& final(self).colors == old(self).colors
                &&& final(self).pipelines.kinds == old(self).pipelines.kinds
                &&& final(self).pipelines.policy == old(self).pipelines.policy
                &&& old(self).pipelines.policy == SelectPolicy::Toggle
                    ==> final(self).pipelines.active as int
                    == next_index(old(self).pipelines.active as int, old(self).pipelines.kinds@.len() as int)
                &&& old(self).pipelines.policy == SelectPolicy::Hold
                    ==> final(self).pipelines.active as int
                    == 1int % (old(self).pipelines.kinds@.len() as int)
            },
            event == InputEvent::SelectRelease ==> {
                &&& final(self).colors == old(self).colors
                &&& old(self).pipelines.policy == SelectPolicy::Toggle
                    ==> !handled && *final(self) == *old(self)
                &&& old(self).pipelines.policy == SelectPolicy::Hold ==> {
                    &&& handled
                    &&& final(self).pipelines.active == 0
                    &&& final(self).pipelines.kinds == old(self).pipelines.kinds
                    &&& final(self).pipelines.policy == old(self).pipelines.policy
                }
            },
    {
        match event {
            InputEvent::PointerMoved { x, y } => {
                let w = self.config.width;
                let h = self.config.height;
                self.colors.on_pointer_move(x, y, w, h);
                true
            },
            InputEvent::ScrollLines { delta } => {
                self.colors.on_scroll(delta);
                true
            },
            InputEvent::ScrollPixels => true,
            InputEvent::PrimaryPress => {
                let w = self.config.width;
                let h = self.config.height;
                self.colors.on_primary_press(w, h);
                true
            },
            InputEvent::SelectPress => {
                self.pipelines.on_select_press();
                true
            },
            InputEvent::SelectRelease => self.pipelines.on_select_release(),
        }
    }

    /// Per-frame bookkeeping before rendering; this scene has none.
    pub fn update(&mut self)
        ensures
            *final(self) == *old(self),
    {
    }
}

} // verus!
