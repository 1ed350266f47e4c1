//! The event-loop adapter: a state machine from host window signals to the
//! actions the driver performs.

use vstd::prelude::*;
use crate::surface::Extent;
use crate::surface::InitError;
use crate::surface::SurfaceManager;

verus! {

/// A window signal delivered by the host event loop once the window exists.
#[derive(Clone, Copy, Debug, PartialEq, Eq, Structural)]
pub enum Signal {
    /// The user asked to close the window.
    CloseRequested,
    /// The window wants to be redrawn.
    RedrawRequested,
    /// The window's physical size changed.
    Resized { size: Extent },
    /// Any other signal; all are ignored.
    Other,
}

/// The unrecoverable condition the driver aborts the process on.
#[derive(Clone, Copy, Debug, PartialEq, Eq, Structural)]
pub enum Fault {
    /// Initialization failed on an environment error.
    Initialization { error: InitError },
    /// A window signal arrived before the application was initialized: a
    /// contract violation by the host.
    NotInitialized,
}

/// What the driver must do next, as decided by the adapter.
#[derive(Clone, Copy, Debug, PartialEq, Eq, Structural)]
pub enum Action {
    /// Create the window, negotiate adapter, device and surface, and hand
    /// the outcome back through `App::on_initialized`.
    CreateWindowAndInitialize,
    /// Apply the manager's configuration to the surface, then schedule the
    /// first redraw.
    ConfigureAndScheduleRedraw,
    /// Acquire a texture, execute the plan of one frame, then schedule the
    /// next redraw.
    RenderAndScheduleRedraw,
    /// Apply the manager's (re-built) configuration to the surface.
    ApplySurfaceConfig,
    /// Leave the run loop.
    ExitRunLoop,
    /// Do nothing.
    Ignore,
    /// Abort the process with a diagnostic.
    Abort { fault: Fault },
}

/// Where the application stands: not yet initialized, or ready with its
/// surface manager.
#[derive(Clone, Debug, PartialEq, Eq)]
pub enum Phase {
    Uninitialized,
    Ready { manager: SurfaceManager },
}

impl Phase {
    /// A ready phase always carries a well-formed manager.
    pub open spec fn wf(self) -> bool {
        self matches Phase::Ready { manager } ==> manager.wf()
    }
}

/// The application: exactly one per process, `Uninitialized` until the
/// host's activation signal has been acted on.
#[derive(Clone, Debug, PartialEq, Eq)]
pub struct App {
    pub phase: Phase,
}

impl App {
    /// The application's invariant.
    pub open spec fn wf(self) -> bool {
        self.phase.wf()
    }

    /// A fresh application, not yet initialized.
    pub fn new() -> (a: App)
        ensures
            a.phase == Phase::Uninitialized,
            a.wf(),
    {
        App { phase: Phase::Uninitialized }
    }

    /// The host's "activated" signal: initialization must be performed (or
    /// re-performed) and its outcome handed to `on_initialized`. The phase
    /// does not change until that outcome arrives.
    pub fn on_activated(&mut self) -> (a: Action)
        ensures
            a == Action::CreateWindowAndInitialize,
            *final(self) == *old(self),
    {
        Action::CreateWindowAndInitialize
    }

    /// The outcome of initialization. On success the application becomes
    /// `Ready` with the negotiated manager, and the first redraw is
    /// scheduled; on failure the phase is unchanged and the driver aborts.
    pub fn on_initialized(&mut self, outcome: Result<SurfaceManager, InitError>) -> (a: Action)
        requires
            outcome matches Ok(m) ==> m.wf(),
            old(self).wf(),
        ensures
            final(self).wf(),
            outcome matches Ok(m) ==> final(self).phase == (Phase::Ready { manager: m })
                && a == Action::ConfigureAndScheduleRedraw,
            outcome matches Err(e) ==> *final(self) == *old(self)
                && a == (Action::Abort { fault: Fault::Initialization { error: e } }),
    {
        match outcome {
            Ok(manager) => {
                self.phase = Phase::Ready { manager };
                Action::ConfigureAndScheduleRedraw
            },
            Err(error) => Action::Abort { fault: Fault::Initialization { error } },
        }
    }

    /// A window signal. Before initialization every signal is a contract
    /// violation and aborts. Once ready: close requests leave the run loop,
    /// redraw requests render one frame and schedule the next (the
    /// continuous redraw loop), resizes re-track the size and reconfigure
    /// the surface — after which the configured extent equals the new size —
    /// and everything else is ignored; no signal but a resize changes the
    /// phase.
    pub fn on_window_event(&mut self, signal: Signal) -> (a: Action)
        requires
            old(self).wf(),
        ensures
            final(self).wf(),
            old(self).phase is Uninitialized ==> *final(self) == *old(self)
                && a == (Action::Abort { fault: Fault::NotInitialized }),
            old(self).phase is Ready && signal is CloseRequested ==> *final(self) == *old(self)
                && a == Action::ExitRunLoop,
            old(self).phase is Ready && signal is RedrawRequested ==> *final(self) == *old(self)
                && a == Action::RenderAndScheduleRedraw,
            old(self).phase matches Phase::Ready { manager }
                ==> signal matches Signal::Resized { size }
                ==> (final(self).phase matches Phase::Ready { manager: m2 }
                    && m2.format == manager.format
                    && m2.size == size
                    && m2.wf()
                    && m2.config.extent() == size
                    && a == Action::ApplySurfaceConfig),
            old(self).phase is Ready && signal is Other ==> *final(self) == *old(self)
                && a == Action::Ignore,
    {
        match &mut self.phase {
            Phase::Uninitialized => Action::Abort { fault: Fault::NotInitialized },
            Phase::Ready { manager } => {
                match signal {
                    Signal::CloseRequested => Action::ExitRunLoop,
                    Signal::RedrawRequested => Action::RenderAndScheduleRedraw,
                    Signal::Resized { size } => {
                        manager.resize(size);
                        Action::ApplySurfaceConfig
                    },
                    Signal::Other => Action::Ignore,
                }
            },
        }
    }
}

} // verus!
