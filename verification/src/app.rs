//! The lifecycle controller of the application shell.
//!
//! The shell opens a window, has a graphics context built asynchronously, and
//! forwards platform events (resize, redraw, close) to that context once it
//! exists. This module holds the decisions of that shell as a two-phase state
//! machine: every event is mapped to the one action the surrounding event
//! loop must take. The platform resources themselves (the window, the
//! graphics context, the one-shot completion callback) live with the
//! unverified event-loop glue, which performs each action as instructed.

use vstd::prelude::*;

verus! {

/// A window size in physical pixels.
#[derive(Clone, Copy, Debug, PartialEq, Eq, Structural)]
pub struct Size {
    pub width: u32,
    pub height: u32,
}

/// A platform window event, reduced to the cases the shell reacts to.
#[derive(Clone, Copy, Debug, PartialEq, Eq, Structural)]
pub enum WindowEvent {
    Resized(Size),
    RedrawRequested,
    CloseRequested,
    Other,
}

/// What the event loop must do after the controller has handled an event.
/// Each handled event yields exactly one action.
#[derive(Clone, Copy, Debug, PartialEq, Eq, Structural)]
pub enum Action {
    /// Render one frame with the graphics context.
    Draw,
    /// Reconfigure the graphics context's render targets to the new size.
    Resize(Size),
    /// Log a warning: a frame was requested before graphics were ready.
    WarnNotReady,
    /// Create the platform window and begin the asynchronous construction of
    /// the graphics context; its completion comes back as a user event.
    StartGraphicsInit,
    /// Signal the event loop to terminate.
    Exit,
    /// Nothing to do.
    Ignore,
}

/// The lifecycle phase of the application.
#[derive(Clone, Copy, Debug, PartialEq, Eq, Structural)]
pub enum Phase {
    /// No graphics context yet. `has_callback` records whether the one-shot
    /// completion callback is still unconsumed.
    Init { has_callback: bool },
    /// The graphics context has been delivered.
    Ready,
}

/// The action a redraw request causes in the given phase.
pub open spec fn draw_action(phase: Phase) -> Action {
    if phase is Ready {
        Action::Draw
    } else {
        Action::WarnNotReady
    }
}

/// The action a resize event causes in the given phase.
pub open spec fn resize_action(phase: Phase, size: Size) -> Action {
    if phase is Ready {
        Action::Resize(size)
    } else {
        Action::Ignore
    }
}

/// The action a window event causes in the given phase.
pub open spec fn window_action(phase: Phase, event: WindowEvent) -> Action {
    match event {
        WindowEvent::Resized(size) => resize_action(phase, size),
        WindowEvent::RedrawRequested => draw_action(phase),
        WindowEvent::CloseRequested => Action::Exit,
        WindowEvent::Other => Action::Ignore,
    }
}

/// The phase after the platform has resumed the application: resuming
/// consumes the completion callback, and changes nothing else.
pub open spec fn resumed_phase(phase: Phase) -> Phase {
    if phase == (Phase::Init { has_callback: true }) {
        Phase::Init { has_callback: false }
    } else {
        phase
    }
}

/// The action a resume causes: construction starts exactly when the
/// completion callback is still there to deliver its result.
pub open spec fn resumed_action(phase: Phase) -> Action {
    if phase == (Phase::Init { has_callback: true }) {
        Action::StartGraphicsInit
    } else {
        Action::Ignore
    }
}

/// The application controller: the name shown in the window title, and the
/// current lifecycle phase.
pub struct App {
    pub name: String,
    pub phase: Phase,
}

impl App {
    /// A fresh controller: initializing, no completion callback installed.
    pub fn new() -> (app: App)
        ensures
            app.phase == (Phase::Init { has_callback: false }),
            app.name@ == "tinywgpu"@,
    {
        App { name: "tinywgpu".to_owned(), phase: Phase::Init { has_callback: false } }
    }

    /// Replace the application name; the phase is untouched.
    pub fn configure(self, name: String) -> (app: App)
        ensures
            app.name == name,
            app.phase == self.phase,
    {
        App { name, phase: self.phase }
    }

    /// Install the one-shot completion callback that the event loop offers,
    /// putting the controller (back) at the start of initialization.
    pub fn with_event_loop(self) -> (app: App)
        ensures
            app.name == self.name,
            app.phase == (Phase::Init { has_callback: true }),
    {
        App { name: self.name, phase: Phase::Init { has_callback: true } }
    }

    /// Decide what a redraw request does: draw one frame when ready, warn
    /// otherwise (no graphics context exists yet to draw with).
    pub fn draw(&self) -> (action: Action)
        ensures
            action == draw_action(self.phase),
    {
        match self.phase {
            Phase::Ready => Action::Draw,
            Phase::Init { .. } => Action::WarnNotReady,
        }
    }

    /// Decide what a resize does: reconfigure when ready, silently ignore
    /// otherwise.
    pub fn resized(&self, size: Size) -> (action: Action)
        ensures
            action == resize_action(self.phase, size),
    {
        match self.phase {
            Phase::Ready => Action::Resize(size),
            Phase::Init { .. } => Action::Ignore,
        }
    }

    /// Handle one window event: resizes and redraw requests go to the
    /// graphics context exactly when ready, a close request always exits,
    /// anything else is ignored. The phase never changes here.
    pub fn window_event(&self, event: WindowEvent) -> (action: Action)
        ensures
            action == window_action(self.phase, event),
    {
        match event {
            WindowEvent::Resized(size) => self.resized(size),
            WindowEvent::RedrawRequested => self.draw(),
            WindowEvent::CloseRequested => Action::Exit,
            WindowEvent::Other => Action::Ignore,
        }
    }

    /// The platform resumed the application. If the completion callback is
    /// still unconsumed, consume it and ask the event loop to create the
    /// window and start building the graphics context; otherwise nothing
    /// happens.
    pub fn resumed(&mut self) -> (action: Action)
        ensures
            final(self).phase == resumed_phase(old(self).phase),
            final(self).name == old(self).name,
            action == resumed_action(old(self).phase),
    {
        match self.phase {
            Phase::Init { has_callback: true } => {
                self.phase = Phase::Init { has_callback: false };
                Action::StartGraphicsInit
            },
            _ => Action::Ignore,
        }
    }

    /// The asynchronous construction delivered the graphics context: become
    /// ready, and draw one frame immediately.
    pub fn user_event(&mut self) -> (action: Action)
        ensures
            final(self).phase == Phase::Ready,
            final(self).name == old(self).name,
            action == Action::Draw,
    {
        self.phase = Phase::Ready;
        Action::Draw
    }
}

impl Phase {
    /// A short label for log messages.
    pub fn label(&self) -> (s: String)
        ensures
            self is Ready ==> s@ == "Ready"@,
            self is Init ==> s@ == "Init"@,
    {
        match self {
            Phase::Ready => "Ready".to_owned(),
            Phase::Init { .. } => "Init".to_owned(),
        }
    }
}

} // verus!
