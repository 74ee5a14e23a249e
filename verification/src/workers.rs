//! Service worker state and the worker error handler.

use vstd::prelude::*;

verus! {

/// A handler that reports a worker error to the worker object at `addr`.
pub struct SimpleWorkerErrorHandler<T> {
    pub addr: T,
}

impl<T> SimpleWorkerErrorHandler<T> {
    /// The handler for the worker at `addr`.
    pub fn new(addr: T) -> (r: SimpleWorkerErrorHandler<T>)
        ensures
            r.addr == addr,
    {
        SimpleWorkerErrorHandler { addr }
    }
}

/// The state of a service worker (`ServiceWorkerState`).
#[derive(Clone, Copy, Debug)]
pub enum ServiceWorkerState {
    Installing,
    Installed,
    Activating,
    Activated,
    Redundant,
}

/// Why a service worker operation is refused (`Error`).
#[derive(Clone, Copy, Debug)]
pub enum ServiceWorkerError {
    InvalidState,
}

/// The `ServiceWorker` interface object.
pub struct ServiceWorker {
    pub script_url: String,
    pub scope_url: String,
    pub state: ServiceWorkerState,
    pub worker_id: u64,
}

impl ServiceWorker {
    /// A worker for `script_url` serving `scope_url`, installing.
    pub fn new_inherited(script_url: &str, scope_url: String, worker_id: u64) -> (r: ServiceWorker)
        ensures
            r.script_url@ == script_url@,
            r.scope_url@ == scope_url@,
            r.state == ServiceWorkerState::Installing,
            r.worker_id == worker_id,
    {
        ServiceWorker {
            script_url: String::from_str(script_url),
            scope_url,
            state: ServiceWorkerState::Installing,
            worker_id,
        }
    }

    /// A worker for `script_url` serving `scope_url`, installing.
    pub fn new(script_url: &str, scope_url: String, worker_id: u64) -> (r: ServiceWorker)
        ensures
            r.script_url@ == script_url@,
            r.scope_url@ == scope_url@,
            r.state == ServiceWorkerState::Installing,
            r.worker_id == worker_id,
    {
        ServiceWorker::new_inherited(script_url, scope_url, worker_id)
    }

    /// Moves the worker to `state` (the caller then fires `statechange`).
    pub fn set_transition_state(&mut self, state: ServiceWorkerState)
        ensures
            final(self).state == state,
            final(self).script_url == old(self).script_url,
            final(self).scope_url == old(self).scope_url,
            final(self).worker_id == old(self).worker_id,
    {
        self.state = state;
    }

    /// The worker's state.
    #[allow(non_snake_case)]
    pub fn State(&self) -> (r: ServiceWorkerState)
        ensures
            r == self.state,
    {
        self.state
    }

    /// The worker's script URL.
    #[allow(non_snake_case)]
    pub fn ScriptURL(&self) -> (r: String)
        ensures
            r@ == self.script_url@,
    {
        self.script_url.clone()
    }

    /// Step 1 of `postMessage`: a redundant worker accepts no message.
    pub fn post_message_allowed(&self) -> (r: Result<(), ServiceWorkerError>)
        ensures
            r is Err <==> self.state == ServiceWorkerState::Redundant,
            r matches Err(e) ==> e == ServiceWorkerError::InvalidState,
    {
        match self.state {
            ServiceWorkerState::Redundant => Err(ServiceWorkerError::InvalidState),
            _ => Ok(()),
        }
    }
}

} // verus!
