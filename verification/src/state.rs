//! The window render state and its transitions.
//!
//! One owned state models what the event loop reads and writes: the run
//! mode, the last non-zero window size, the surface configuration kept in
//! sync with it, the background clear colour, and the settings the one
//! render pipeline was built from. The GPU handles themselves (surface,
//! device, queue, pipeline, window) live with the driver layer, which
//! mirrors every change this model makes.

use vstd::prelude::*;

use crate::color::{spec_cursor_color, spec_default_background, Color};
use crate::events::{Flow, WindowEvent};
use crate::pipeline::Inputs;
use crate::size::Size;

verus! {

/// How rendered frames are handed to the display: vsynced or immediate.
#[derive(Clone, Copy, Debug, PartialEq, Eq, Structural)]
pub enum PresentMode {
    Fifo,
    Immediate,
}

/// The two run modes of the demo: one draws a fixed primitive chosen by a
/// command-line argument, the other recolours the background from the
/// cursor position.
#[derive(Clone, Copy, Debug, PartialEq, Eq, Structural)]
pub enum Mode {
    Primitive,
    CursorColor,
}

impl Mode {
    /// The present mode each run mode configures the surface with: the
    /// primitive demo vsyncs, the cursor demo presents immediately.
    pub open spec fn spec_present_mode(self) -> PresentMode {
        match self {
            Mode::Primitive => PresentMode::Fifo,
            Mode::CursorColor => PresentMode::Immediate,
        }
    }

    pub fn present_mode(self) -> (m: PresentMode)
        ensures
            m == self.spec_present_mode(),
    {
        match self {
            Mode::Primitive => PresentMode::Fifo,
            Mode::CursorColor => PresentMode::Immediate,
        }
    }
}

/// The part of the surface configuration the logic reads and writes: its
/// extent and present mode. Format, usage and alpha mode are negotiated
/// once by the driver layer and never change.
#[derive(Clone, Copy, Debug, PartialEq, Eq, Structural)]
pub struct SurfaceConfig {
    pub width: u32,
    pub height: u32,
    pub present_mode: PresentMode,
}

/// Why acquiring the next presentable texture failed.
#[derive(Clone, Copy, Debug, PartialEq, Eq, Structural)]
pub enum SurfaceError {
    Lost,
    Outdated,
    OutOfMemory,
    Timeout,
}

/// One draw call: `vertex_count` vertices, synthesised in the shader from
/// the vertex index, over `instance_count` instances; no buffers bound.
#[derive(Clone, Copy, Debug, PartialEq, Eq, Structural)]
pub struct DrawCall {
    pub vertex_count: u32,
    pub instance_count: u32,
}

/// What one frame does: clear the colour attachment to `clear_color` and,
/// when `draw` is present, bind the pipeline and issue that one draw call.
#[derive(Clone, Copy, Debug, PartialEq, Eq, Structural)]
pub struct FramePlan {
    pub clear_color: Color,
    pub draw: Option<DrawCall>,
}

/// What the loop does after one frame attempt: whether it carries on,
/// whether the surface must be reconfigured at the given size first, and
/// whether a timeout warning is logged.
#[derive(Clone, Copy, Debug, PartialEq, Eq, Structural)]
pub struct FrameReaction {
    pub flow: Flow,
    pub reconfigure: Option<Size>,
    pub warn_timeout: bool,
}

/// The model of the window render state.
#[derive(Clone, Copy, Debug, PartialEq, Eq, Structural)]
pub struct State {
    pub mode: Mode,
    pub size: Size,
    pub background: Color,
    pub config: SurfaceConfig,
    pub pipeline: Inputs,
}

impl State {
    /// The state's invariant: the surface configuration's extent always
    /// equals the last non-zero window size observed, the present mode
    /// matches the run mode, and colour and pipeline are well formed.
    pub open spec fn wf(self) -> bool {
        &&& self.size.is_nonzero()
        &&& self.config.width == self.size.width
        &&& self.config.height == self.size.height
        &&& self.config.present_mode == self.mode.spec_present_mode()
        &&& self.background.wf()
        &&& self.pipeline.wf()
    }

    /// The resize transition: a size with both dimensions non-zero
    /// replaces the stored size and the configuration extent; a zero-area
    /// size leaves the state unchanged.
    pub open spec fn spec_resize(self, new_size: Size) -> State {
        if new_size.is_nonzero() {
            State {
                size: new_size,
                config: SurfaceConfig {
                    width: new_size.width,
                    height: new_size.height,
                    ..self.config
                },
                ..self
            }
        } else {
            self
        }
    }

    /// Whether the input handler consumes an event: only the cursor demo
    /// consumes pointer movement.
    pub open spec fn spec_consumes(self, event: WindowEvent) -> bool {
        self.mode == Mode::CursorColor && event is CursorMoved
    }

    /// The input transition: a consumed pointer movement recolours the
    /// background from the cursor position; everything else leaves the
    /// state unchanged.
    pub open spec fn spec_input(self, event: WindowEvent) -> State {
        match event {
            WindowEvent::CursorMoved { x, y } => if self.mode == Mode::CursorColor {
                State { background: spec_cursor_color(x, y, self.size), ..self }
            } else {
                self
            },
            _ => self,
        }
    }

    /// The loop's reaction to one frame attempt: success carries on; a
    /// lost or outdated surface asks for a reconfigure at the stored size
    /// and skips the frame; out of memory ends the loop; a timeout logs a
    /// warning and skips the frame.
    pub open spec fn spec_after_render(self, result: Result<(), SurfaceError>) -> FrameReaction {
        match result {
            Ok(_) => FrameReaction {
                flow: Flow::Continue,
                reconfigure: None,
                warn_timeout: false,
            },
            Err(SurfaceError::Lost) | Err(SurfaceError::Outdated) => FrameReaction {
                flow: Flow::Continue,
                reconfigure: Some(self.size),
                warn_timeout: false,
            },
            Err(SurfaceError::OutOfMemory) => FrameReaction {
                flow: Flow::Exit,
                reconfigure: None,
                warn_timeout: false,
            },
            Err(SurfaceError::Timeout) => FrameReaction {
                flow: Flow::Continue,
                reconfigure: None,
                warn_timeout: true,
            },
        }
    }

    /// The startup state: the window's initial (non-zero) size, the fixed
    /// dark background, a configuration at that size with the run mode's
    /// present mode, and the selected pipeline settings.
    pub fn new(mode: Mode, size: Size, pipeline: Inputs) -> (s: State)
        requires
            size.is_nonzero(),
            pipeline.wf(),
        ensures
            s.mode == mode,
            s.size == size,
            s.background == spec_default_background(),
            s.config == (SurfaceConfig {
                width: size.width,
                height: size.height,
                present_mode: mode.spec_present_mode(),
            }),
            s.pipeline == pipeline,
            s.wf(),
    {
        let config = SurfaceConfig {
            width: size.width,
            height: size.height,
            present_mode: mode.present_mode(),
        };
        State { mode, size, background: Color::default_background(), config, pipeline }
    }

    /// The resize handler: a new size with both dimensions non-zero is
    /// stored and the surface configuration follows it; a zero-area size
    /// (a minimised window) is a no-op. Returns whether the surface must
    /// be reconfigured.
    pub fn resize(&mut self, new_size: Size) -> (reconfigure: bool)
        requires
            old(self).wf(),
        ensures
            final(self).wf(),
            *final(self) == old(self).spec_resize(new_size),
            reconfigure == new_size.is_nonzero(),
            new_size.is_nonzero() ==> final(self).size == new_size
                && final(self).config.width == new_size.width
                && final(self).config.height == new_size.height
                && final(self).mode == old(self).mode
                && final(self).background == old(self).background
                && final(self).pipeline == old(self).pipeline
                && final(self).config.present_mode == old(self).config.present_mode,
            !new_size.is_nonzero() ==> *final(self) == *old(self),
    {
        if new_size.nonzero() {
            self.size = new_size;
            self.config.width = new_size.width;
            self.config.height = new_size.height;
            true
        } else {
            false
        }
    }

    /// Nothing evolves between events besides what the handlers above
    /// change; the per-frame update is a no-op.
    pub fn update(&mut self)
        ensures
            *final(self) == *old(self),
    {
    }

    /// The input handler: in the cursor demo a pointer movement sets the
    /// background colour from the cursor position and is consumed; every
    /// other event — and every event in the primitive demo — is not.
    pub fn input(&mut self, event: &WindowEvent) -> (consumed: bool)
        requires
            old(self).wf(),
        ensures
            final(self).wf(),
            *final(self) == old(self).spec_input(*event),
            consumed == old(self).spec_consumes(*event),
            !consumed ==> *final(self) == *old(self),
    {
        match event {
            WindowEvent::CursorMoved { x, y } => match self.mode {
                Mode::CursorColor => {
                    self.background = Color::from_cursor(*x, *y, self.size);
                    true
                },
                Mode::Primitive => false,
            },
            _ => false,
        }
    }

    /// What the next frame does: clear to the current background; the
    /// primitive demo additionally issues its one draw call of nine
    /// shader-synthesised vertices in one instance.
    pub fn frame_plan(&self) -> (p: FramePlan)
        ensures
            p.clear_color == self.background,
            self.mode == Mode::Primitive ==> p.draw == Some(DrawCall {
                vertex_count: 9,
                instance_count: 1,
            }),
            self.mode == Mode::CursorColor ==> p.draw == None::<DrawCall>,
    {
        let draw = match self.mode {
            Mode::Primitive => Some(DrawCall { vertex_count: 9, instance_count: 1 }),
            Mode::CursorColor => None,
        };
        FramePlan { clear_color: self.background, draw }
    }

    /// Classifies the outcome of one frame attempt; see `spec_after_render`.
    /// A lost or outdated surface never ends the loop and always asks for
    /// a reconfigure at the last stored size; only out of memory exits.
    pub fn after_render(&self, result: &Result<(), SurfaceError>) -> (rx: FrameReaction)
        ensures
            rx == self.spec_after_render(*result),
            rx.flow == Flow::Exit <==> (*result matches Err(SurfaceError::OutOfMemory)),
            ((*result matches Err(SurfaceError::Lost)) || (*result matches Err(
                SurfaceError::Outdated,
            ))) ==> rx.reconfigure == Some(self.size) && rx.flow == Flow::Continue,
    {
        match result {
            Ok(_) => FrameReaction { flow: Flow::Continue, reconfigure: None, warn_timeout: false },
            Err(SurfaceError::Lost) | Err(SurfaceError::Outdated) => FrameReaction {
                flow: Flow::Continue,
                reconfigure: Some(self.size),
                warn_timeout: false,
            },
            Err(SurfaceError::OutOfMemory) => FrameReaction {
                flow: Flow::Exit,
                reconfigure: None,
                warn_timeout: false,
            },
            Err(SurfaceError::Timeout) => FrameReaction {
                flow: Flow::Continue,
                reconfigure: None,
                warn_timeout: true,
            },
        }
    }
}

} // verus!
