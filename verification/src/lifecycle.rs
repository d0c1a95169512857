//! Starting and stopping a server, an ingress or an egress: at most one running
//! process at a time, and the error that each refused request is answered with.
use vstd::prelude::*;

use crate::error::Error;

verus! {

/// The state an ingress or an egress reports to whoever watches it.
#[derive(Clone, Copy, Debug, PartialEq, Eq, Structural)]
pub enum State {
    Stopped,
    Starting,
    Started,
    Ready,
}

/// What is being started and stopped; the errors differ between them.
#[derive(Clone, Copy, Debug, PartialEq, Eq, Structural)]
pub enum Component {
    Server,
    Ingress,
    Egress,
}

/// The error for a request to start a component that is already running.
pub open spec fn spec_already_running(c: Component, e: Error) -> bool {
    match c {
        Component::Server => e is ServerAlreadyListening,
        Component::Ingress => e is IngressAlreadyStarted,
        Component::Egress => e is EgressAlreadyStarted,
    }
}

/// The error for a request that needs a running component when it is not running.
pub open spec fn spec_not_running(c: Component, e: Error) -> bool {
    match c {
        Component::Server => e is ServerNotListening,
        Component::Ingress => e is IngressNotStarted,
        Component::Egress => e is EgressNotStarted,
    }
}

/// The running process of a component, if any.
pub struct Lifecycle<P> {
    component: Component,
    process: Option<P>,
}

fn already_running(c: Component) -> (e: Error)
    ensures
        spec_already_running(c, e),
{
    match c {
        Component::Server => Error::ServerAlreadyListening,
        Component::Ingress => Error::IngressAlreadyStarted,
        Component::Egress => Error::EgressAlreadyStarted,
    }
}

fn not_running(c: Component) -> (e: Error)
    ensures
        spec_not_running(c, e),
{
    match c {
        Component::Server => Error::ServerNotListening,
        Component::Ingress => Error::IngressNotStarted,
        Component::Egress => Error::EgressNotStarted,
    }
}

impl<P> Lifecycle<P> {
    /// What is being started and stopped.
    pub closed spec fn spec_component(&self) -> Component {
        self.component
    }

    /// The running process, if any.
    pub closed spec fn spec_process(&self) -> Option<P> {
        self.process
    }

    /// A stopped component.
    pub fn new(component: Component) -> (r: Self)
        ensures
            r.spec_component() == component,
            r.spec_process() is None,
    {
        Lifecycle { component, process: None }
    }

    /// What is being started and stopped.
    pub fn component(&self) -> (r: Component)
        ensures
            r == self.spec_component(),
    {
        self.component
    }

    /// Whether a process is running.
    pub fn is_running(&self) -> (r: bool)
        ensures
            r == self.spec_process() is Some,
    {
        self.process.is_some()
    }

    /// The running process, if any.
    pub fn process(&self) -> (r: Option<&P>)
        ensures
            r matches Some(p) ==> self.spec_process() == Some(*p),
            r is None ==> self.spec_process() is None,
    {
        match &self.process {
            Some(p) => Some(p),
            None => None,
        }
    }

    /// Whether the component may be started now: it fails with the "already
    /// started" error of the component exactly when a process is running.
    pub fn check_start(&self) -> (r: Result<(), Error>)
        ensures
            r is Ok <==> self.spec_process() is None,
            r matches Err(e) ==> spec_already_running(self.spec_component(), e),
    {
        if self.process.is_some() {
            Err(already_running(self.component))
        } else {
            Ok(())
        }
    }

    /// Records `process` as the running process. Fails with the "already started"
    /// error of the component, and keeps the running process, when one is running.
    pub fn start(&mut self, process: P) -> (r: Result<(), Error>)
        ensures
            final(self).spec_component() == old(self).spec_component(),
            r is Ok <==> old(self).spec_process() is None,
            r is Ok ==> final(self).spec_process() == Some(process),
            r matches Err(e) ==> spec_already_running(old(self).spec_component(), e)
                && final(self).spec_process() == old(self).spec_process(),
    {
        if self.process.is_some() {
            Err(already_running(self.component))
        } else {
            self.process = Some(process);
            Ok(())
        }
    }

    /// Takes the running process out, leaving the component stopped. Fails with the
    /// "not started" error of the component when no process is running.
    pub fn stop(&mut self) -> (r: Result<P, Error>)
        ensures
            final(self).spec_component() == old(self).spec_component(),
            final(self).spec_process() is None,
            match old(self).spec_process() {
                Some(p) => r == Ok::<P, Error>(p),
                None => r matches Err(e) && spec_not_running(old(self).spec_component(), e),
            },
    {
        match self.process.take() {
            Some(p) => Ok(p),
            None => Err(not_running(self.component)),
        }
    }

    /// The running process, or the "not started" error of the component.
    pub fn require_running(&self) -> (r: Result<&P, Error>)
        ensures
            match self.spec_process() {
                Some(p) => r matches Ok(q) && *q == p,
                None => r matches Err(e) && spec_not_running(self.spec_component(), e),
            },
    {
        match &self.process {
            Some(p) => Ok(p),
            None => Err(not_running(self.component)),
        }
    }

    /// The process ended by itself: it is taken out, if it is still there.
    pub fn finished(&mut self) -> (r: Option<P>)
        ensures
            final(self).spec_component() == old(self).spec_component(),
            final(self).spec_process() is None,
            r == old(self).spec_process(),
    {
        self.process.take()
    }
}

} // verus!
