use vstd::prelude::*;

use crate::instance::BootstrapError;

verus! {

/// A live instance handle, as the driver identifies it. The runtime object
/// itself lives with the driver; the lifecycle tracks it by this plain
/// value and decides when it must be released.
#[derive(Clone, Copy, Debug, PartialEq, Eq, Structural)]
pub struct InstanceHandle {
    pub id: u64,
}

/// What the runtime reported for a submitted creation request.
#[derive(Clone, Copy, Debug, PartialEq, Eq, Structural)]
pub enum CreationOutcome {
    /// The runtime allocated a live instance.
    Created { instance: InstanceHandle },
    /// The runtime rejected the request; carries its diagnostic code.
    Failed { code: i32 },
}

/// The lifecycle states an application passes through after construction.
#[derive(Clone, Copy, Debug, PartialEq, Eq, Structural)]
enum LifecycleState {
    Ready,
    Destroyed,
}

/// The application: owner of the instance handle, driven through
/// `Ready -> Destroyed` by the event loop. A value exists only once a
/// creation attempt succeeded; a failed attempt leaves no application
/// behind.
#[derive(Clone, Debug)]
pub struct App {
    state: LifecycleState,
    instance: InstanceHandle,
}

impl App {
    /// The application has been destroyed; no further operation is valid.
    pub closed spec fn destroyed(self) -> bool {
        self.state is Destroyed
    }

    /// The application is ready: its instance is live and render may run.
    pub open spec fn ready(self) -> bool {
        !self.destroyed()
    }

    /// The handle of the instance this application owns (or owned, once
    /// destroyed).
    pub closed spec fn handle(self) -> InstanceHandle {
        self.instance
    }

    /// Completes creation from the runtime's reported outcome: a live
    /// instance yields a `Ready` application owning it; a rejection is
    /// surfaced with the runtime's diagnostic code and yields nothing.
    pub fn create(outcome: CreationOutcome) -> (r: Result<App, BootstrapError>)
        ensures
            match outcome {
                CreationOutcome::Created { instance } => match r {
                    Ok(app) => app.ready() && app.handle() == instance,
                    Err(_) => false,
                },
                CreationOutcome::Failed { code } => match r {
                    Ok(_) => false,
                    Err(e) => e == (BootstrapError::InstanceCreation { code }),
                },
            },
    {
        match outcome {
            CreationOutcome::Created { instance } => {
                Ok(App { state: LifecycleState::Ready, instance })
            },
            CreationOutcome::Failed { code } => Err(BootstrapError::InstanceCreation { code }),
        }
    }

    /// Renders one frame. In the current scope this draws nothing: it never
    /// mutates the application and succeeds whenever the application is
    /// ready. Invoked after destruction it reports the lifecycle violation.
    pub fn render(&mut self) -> (r: Result<(), BootstrapError>)
        ensures
            *final(self) == *old(self),
            old(self).ready() ==> r is Ok,
            old(self).destroyed() ==> r == Err::<(), BootstrapError>(
                BootstrapError::LifecycleViolation,
            ),
    {
        match self.state {
            LifecycleState::Ready => Ok(()),
            LifecycleState::Destroyed => Err(BootstrapError::LifecycleViolation),
        }
    }

    /// Destroys the application: from `Ready` it transitions to `Destroyed`
    /// and hands back the one instance handle, which the caller must release
    /// with the runtime. A second destroy releases nothing and reports the
    /// lifecycle violation.
    pub fn destroy(&mut self) -> (r: Result<InstanceHandle, BootstrapError>)
        ensures
            final(self).destroyed(),
            final(self).handle() == old(self).handle(),
            old(self).ready() ==> r == Ok::<InstanceHandle, BootstrapError>(old(self).handle()),
            old(self).destroyed() ==> r == Err::<InstanceHandle, BootstrapError>(
                BootstrapError::LifecycleViolation,
            ),
    {
        match self.state {
            LifecycleState::Ready => {
                self.state = LifecycleState::Destroyed;
                Ok(self.instance)
            },
            LifecycleState::Destroyed => Err(BootstrapError::LifecycleViolation),
        }
    }

    /// Whether the application is still ready (observable by the driver).
    pub fn is_ready(&self) -> (b: bool)
        ensures
            b == self.ready(),
    {
        match self.state {
            LifecycleState::Ready => true,
            LifecycleState::Destroyed => false,
        }
    }
}

} // verus!
