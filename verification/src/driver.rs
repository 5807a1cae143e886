//! The frame driver: the state that changes from frame to frame, and the
//! rule by which each event changes it.
//!
//! The driver performs nothing itself. It is told what happened (an
//! [`Event`]), updates its state, and answers with what has to be done (an
//! [`Action`]). Whoever owns the window and the graphics device delivers the
//! events in the order in which they arrive and carries out each action before
//! delivering the next event.
//!
//! A redraw is a short exchange. The driver answers a redraw request with
//! [`Action::AcquireFrame`] and waits in [`Phase::Rendering`]; the owner writes
//! the uniform block, asks the surface for a frame and reports the outcome;
//! the driver answers that with the pass to draw, or with what a failure calls
//! for, and is idle again.

use crate::binary32::Binary32;
use crate::pipeline::FramePass;
use crate::surface::{SurfaceConfig, SurfaceError};
use crate::uniforms::{Uniforms, Vec2};
use vstd::prelude::*;

verus! {

/// Where the driver stands in its cycle.
#[derive(Clone, Copy, Debug, PartialEq, Eq, Structural)]
pub enum Phase {
    /// Between frames.
    Idle,
    /// A frame was asked for; its outcome has not been reported yet.
    Rendering,
    /// The run is over. No event leads out of this phase.
    Terminating,
}

/// A key of the keyboard, as far as the driver tells keys apart.
#[derive(Clone, Copy, Debug, PartialEq, Eq, Structural)]
pub enum Key {
    /// The cancel key.
    Escape,
    /// Any other key.
    Other,
}

/// What happened to a key.
#[derive(Clone, Copy, Debug, PartialEq, Eq, Structural)]
pub enum KeyState {
    Pressed,
    Released,
}

/// Something that happened outside the driver.
#[derive(Clone, Copy, Debug, PartialEq, Eq, Structural)]
pub enum Event {
    /// The window wants a new frame. `elapsed` is the time since the start of
    /// the run, in seconds.
    RedrawRequested { elapsed: Binary32 },
    /// The surface handed out the frame that was asked for.
    FrameAcquired,
    /// The surface handed out no frame.
    AcquireFailed { error: SurfaceError },
    /// The window was resized to this size in pixels.
    Resized { width: u32, height: u32 },
    /// The scale of the display changed, which gave the window this size in
    /// pixels.
    ScaleFactorChanged { width: u32, height: u32 },
    /// The pointer is at a new position, in pixels of the surface.
    PointerMoved { x: Binary32, y: Binary32 },
    /// A key went down or came up.
    KeyInput { key: Key, state: KeyState },
    /// The user asked to close the window.
    CloseRequested,
}

/// What the owner of the window and the device has to do next.
#[derive(Clone, Copy, Debug, PartialEq)]
pub enum Action {
    /// Nothing.
    Nothing,
    /// Apply this configuration to the surface.
    Configure(SurfaceConfig),
    /// Copy the memory image of these uniforms into the uniform buffer, then
    /// ask the surface for a frame and report the outcome.
    AcquireFrame(Uniforms),
    /// Record this pass on the acquired frame, submit it and present.
    Draw(FramePass),
    /// Let go of this frame and say so in the log; the next redraw tries
    /// again.
    SkipFrame,
    /// Leave the event loop.
    Exit,
}

/// The state of a run: the phase, the uniforms, and the configuration that
/// the surface has.
#[derive(Clone, Copy, Debug, PartialEq)]
pub struct FrameDriver {
    pub phase: Phase,
    pub uniforms: Uniforms,
    pub config: SurfaceConfig,
}

impl FrameDriver {
    /// The state is consistent: the configuration may be applied to a surface,
    /// the resolution in the uniforms is the size in the configuration, and
    /// the padding is zero.
    pub open spec fn is_consistent(self) -> bool {
        &&& self.config.is_valid()
        &&& self.uniforms.resolution == Vec2 {
            x: Binary32::of_u32(self.config.width),
            y: Binary32::of_u32(self.config.height),
        }
        &&& self.uniforms.padding == Binary32::zero()
    }

    /// The state at the start of a run on a surface with this configuration.
    pub open spec fn initial(config: SurfaceConfig) -> FrameDriver {
        FrameDriver {
            phase: Phase::Idle,
            uniforms: Uniforms::initial(config.width, config.height),
            config,
        }
    }

    /// The state in another phase.
    pub open spec fn in_phase(self, phase: Phase) -> FrameDriver {
        FrameDriver { phase, ..self }
    }

    /// The state after a key went down or came up, and the answer: pressing
    /// the cancel key ends the run, nothing else on the keyboard does
    /// anything.
    pub open spec fn after_key(self, key: Key, state: KeyState) -> (FrameDriver, Action) {
        if key is Escape && state is Pressed {
            self.after_close()
        } else {
            (self, Action::Nothing)
        }
    }

    /// The state after the end of the run was asked for, and the answer.
    pub open spec fn after_close(self) -> (FrameDriver, Action) {
        if self.phase is Terminating {
            (self, Action::Nothing)
        } else {
            (self.in_phase(Phase::Terminating), Action::Exit)
        }
    }

    /// The state after the window took a new size, and the answer. A size
    /// with a zero dimension (a minimised window) changes nothing.
    pub open spec fn after_resize(self, width: u32, height: u32) -> (FrameDriver, Action) {
        if self.phase is Terminating || width == 0 || height == 0 {
            (self, Action::Nothing)
        } else {
            let config = self.config.with_size(width, height);
            let resolution = Vec2 { x: Binary32::of_u32(width), y: Binary32::of_u32(height) };
            (
                FrameDriver { uniforms: Uniforms { resolution, ..self.uniforms }, config, ..self },
                Action::Configure(config),
            )
        }
    }

    /// The state after the pointer moved, and the answer. The position is
    /// taken as it is reported.
    pub open spec fn after_pointer(self, x: Binary32, y: Binary32) -> (FrameDriver, Action) {
        if self.phase is Terminating {
            (self, Action::Nothing)
        } else {
            (
                FrameDriver { uniforms: Uniforms { mouse: Vec2 { x, y }, ..self.uniforms }, ..self },
                Action::Nothing,
            )
        }
    }

    /// The state after a redraw request, and the answer. Only an idle driver
    /// starts a frame: while one is under way, and once the run is over, the
    /// request changes nothing.
    pub open spec fn after_redraw(self, elapsed: Binary32) -> (FrameDriver, Action) {
        if self.phase is Idle {
            let uniforms = Uniforms { time: elapsed, ..self.uniforms };
            (
                FrameDriver { phase: Phase::Rendering, uniforms, ..self },
                Action::AcquireFrame(uniforms),
            )
        } else {
            (self, Action::Nothing)
        }
    }

    /// The state after the outcome of an acquisition was reported, and the
    /// answer. An outcome that no frame is waiting for changes nothing.
    pub open spec fn after_acquire(self, outcome: Result<(), SurfaceError>) -> (
        FrameDriver,
        Action,
    ) {
        if self.phase is Rendering {
            match outcome {
                Ok(()) => (self.in_phase(Phase::Idle), Action::Draw(FramePass::spec_full_screen())),
                Err(SurfaceError::Recoverable) => (
                    self.in_phase(Phase::Idle),
                    Action::Configure(self.config),
                ),
                Err(SurfaceError::Transient) => (self.in_phase(Phase::Idle), Action::SkipFrame),
                Err(SurfaceError::Fatal) => (self.in_phase(Phase::Terminating), Action::Exit),
            }
        } else {
            (self, Action::Nothing)
        }
    }

    /// The state after an event, and the answer to it.
    pub open spec fn step(self, event: Event) -> (FrameDriver, Action) {
        match event {
            Event::RedrawRequested { elapsed } => self.after_redraw(elapsed),
            Event::FrameAcquired => self.after_acquire(Ok(())),
            Event::AcquireFailed { error } => self.after_acquire(Err(error)),
            Event::Resized { width, height } => self.after_resize(width, height),
            Event::ScaleFactorChanged { width, height } => self.after_resize(width, height),
            Event::PointerMoved { x, y } => self.after_pointer(x, y),
            Event::KeyInput { key, state } => self.after_key(key, state),
            Event::CloseRequested => self.after_close(),
        }
    }

    /// Starts a run on a surface that has been given `config`: idle, the
    /// pointer at the origin, the resolution that of the configuration, time
    /// zero.
    pub fn new(config: SurfaceConfig) -> (driver: FrameDriver)
        ensures
            driver == FrameDriver::initial(config),
            config.is_valid() ==> driver.is_consistent(),
    {
        FrameDriver {
            phase: Phase::Idle,
            uniforms: Uniforms::new(config.width, config.height),
            config,
        }
    }

    /// True once the run is over.
    pub fn is_terminating(&self) -> (b: bool)
        ensures
            b == (self.phase is Terminating),
    {
        match self.phase {
            Phase::Terminating => true,
            _ => false,
        }
    }

    /// Takes note of a new window size. With both dimensions positive the
    /// configuration and the resolution take the new size and the answer is
    /// to configure the surface; with a zero dimension nothing changes and
    /// nothing is to be done.
    pub fn resize(&mut self, width: u32, height: u32) -> (action: Action)
        ensures
            (*final(self), action) == old(self).after_resize(width, height),
            width == 0 || height == 0 ==> *final(self) == *old(self) && action is Nothing,
            action matches Action::Configure(c) ==> c.is_valid() && c == final(self).config,
            old(self).is_consistent() ==> final(self).is_consistent(),
    {
        if self.is_terminating() || width == 0 || height == 0 {
            return Action::Nothing;
        }
        self.config.width = width;
        self.config.height = height;
        self.uniforms.resolution = Vec2 {
            x: Binary32::from_u32(width),
            y: Binary32::from_u32(height),
        };
        Action::Configure(self.config)
    }

    /// Takes note of a new pointer position.
    pub fn pointer_moved(&mut self, x: Binary32, y: Binary32) -> (action: Action)
        ensures
            (*final(self), action) == old(self).after_pointer(x, y),
            action is Nothing,
            old(self).is_consistent() ==> final(self).is_consistent(),
    {
        if !self.is_terminating() {
            self.uniforms.mouse = Vec2 { x, y };
        }
        Action::Nothing
    }

    /// Ends the run.
    pub fn close(&mut self) -> (action: Action)
        ensures
            (*final(self), action) == old(self).after_close(),
            final(self).phase is Terminating,
            old(self).is_consistent() ==> final(self).is_consistent(),
    {
        if self.is_terminating() {
            Action::Nothing
        } else {
            self.phase = Phase::Terminating;
            Action::Exit
        }
    }

    /// Takes note of a key that went down or came up: pressing the cancel key
    /// ends the run.
    pub fn key_input(&mut self, key: Key, state: KeyState) -> (action: Action)
        ensures
            (*final(self), action) == old(self).after_key(key, state),
            key is Escape && state is Pressed ==> final(self).phase is Terminating,
            !(key is Escape && state is Pressed) ==> *final(self) == *old(self) && action
                is Nothing,
            old(self).is_consistent() ==> final(self).is_consistent(),
    {
        match (key, state) {
            (Key::Escape, KeyState::Pressed) => self.close(),
            _ => Action::Nothing,
        }
    }

    /// Starts a frame if the driver is idle: the time in the uniforms becomes
    /// `elapsed`, and the answer carries the uniforms to write before the
    /// frame is acquired.
    pub fn begin_frame(&mut self, elapsed: Binary32) -> (action: Action)
        ensures
            (*final(self), action) == old(self).after_redraw(elapsed),
            old(self).phase is Idle ==> final(self).uniforms.time == elapsed
                && action == Action::AcquireFrame(final(self).uniforms),
            !(old(self).phase is Idle) ==> *final(self) == *old(self) && action is Nothing,
            old(self).is_consistent() ==> final(self).is_consistent(),
    {
        match self.phase {
            Phase::Idle => {
                self.phase = Phase::Rendering;
                self.uniforms.time = elapsed;
                Action::AcquireFrame(self.uniforms)
            },
            _ => Action::Nothing,
        }
    }

    /// Finishes the frame under way with the outcome of its acquisition. With
    /// a frame in hand the answer is the pass to draw. A recoverable error
    /// asks for the surface to be configured again as it was, a transient one
    /// for the frame to be skipped; after either the driver is idle. A fatal
    /// error ends the run.
    pub fn end_frame(&mut self, outcome: Result<(), SurfaceError>) -> (action: Action)
        ensures
            (*final(self), action) == old(self).after_acquire(outcome),
            final(self).uniforms == old(self).uniforms,
            final(self).config == old(self).config,
            !(final(self).phase is Rendering),
            old(self).is_consistent() ==> final(self).is_consistent(),
    {
        match self.phase {
            Phase::Rendering => {},
            _ => {
                return Action::Nothing;
            },
        }
        match outcome {
            Ok(()) => {
                self.phase = Phase::Idle;
                Action::Draw(FramePass::full_screen())
            },
            Err(SurfaceError::Recoverable) => {
                self.phase = Phase::Idle;
                Action::Configure(self.config)
            },
            Err(SurfaceError::Transient) => {
                self.phase = Phase::Idle;
                Action::SkipFrame
            },
            Err(SurfaceError::Fatal) => {
                self.phase = Phase::Terminating;
                Action::Exit
            },
        }
    }

    /// Takes an event, updates the state and answers with what is to be done.
    pub fn handle_event(&mut self, event: Event) -> (action: Action)
        ensures
            (*final(self), action) == old(self).step(event),
            old(self).phase is Terminating ==> *final(self) == *old(self) && action is Nothing,
            action matches Action::Configure(c) ==> c == final(self).config,
            old(self).is_consistent() ==> final(self).is_consistent(),
    {
        match event {
            Event::RedrawRequested { elapsed } => self.begin_frame(elapsed),
            Event::FrameAcquired => self.end_frame(Ok(())),
            Event::AcquireFailed { error } => self.end_frame(Err(error)),
            Event::Resized { width, height } => self.resize(width, height),
            Event::ScaleFactorChanged { width, height } => self.resize(width, height),
            Event::PointerMoved { x, y } => self.pointer_moved(x, y),
            Event::KeyInput { key, state } => self.key_input(key, state),
            Event::CloseRequested => self.close(),
        }
    }
}

} // verus!
