//! A self-contained supervisor with a built-in default bind address. It
//! serves one fixed router for the life of the process: a reload moves the
//! listener to the newly configured address but keeps the router.

use vstd::prelude::*;

use crate::config::{Configuration, SocketAddress};
use crate::server::{
    is_serving, outcome_steps, BindTask, DrainTask, ReloadOutcome, ServerModel, StepModel,
    GRACE_PERIOD_SECS,
};

verus! {

/// The address a handler starts at before any reload: all interfaces, port
/// 3000.
pub open spec fn spec_default_address() -> SocketAddress {
    SocketAddress { octet_a: 0, octet_b: 0, octet_c: 0, octet_d: 0, port: 3000 }
}

/// Like `Server`, but born at the default address and married to the one
/// router it is given.
pub struct ServerHandler {
    handle: Option<axum_server::Handle>,
    address: SocketAddress,
    router: axum::Router,
}

impl View for ServerHandler {
    type V = ServerModel;

    closed spec fn view(&self) -> ServerModel {
        ServerModel { handle: self.handle, address: self.address, router: self.router }
    }
}

impl ServerHandler {
    /// A stopped handler for the given router at the default address.
    pub fn new(router: axum::Router) -> (s: ServerHandler)
        ensures
            !is_serving(s@),
            s@.address == spec_default_address(),
            s@.router == router,
    {
        ServerHandler {
            handle: None,
            address: SocketAddress { octet_a: 0, octet_b: 0, octet_c: 0, octet_d: 0, port: 3000 },
            router,
        }
    }

    /// Starts serving; see `Server::serve`.
    pub fn serve(&mut self) -> (task: Option<BindTask>)
        ensures
            is_serving(final(self)@),
            final(self)@.address == old(self)@.address,
            final(self)@.router == old(self)@.router,
            is_serving(old(self)@) ==> final(self)@.handle == old(self)@.handle && task is None,
            !is_serving(old(self)@) ==> (task matches Some(t) && final(self)@.handle == Some(
                t.handle,
            ) && t.address == old(self)@.address && t.router == old(self)@.router),
    {
        match &self.handle {
            Some(_) => None,
            None => {
                let handle = axum_server::Handle::new();
                let task = BindTask {
                    handle: handle.clone(),
                    router: self.router.clone(),
                    address: self.address,
                };
                self.handle = Some(handle);
                Some(task)
            },
        }
    }

    /// Stops serving; see `Server::stop`.
    pub fn stop(&mut self) -> (drain: Option<DrainTask>)
        ensures
            !is_serving(final(self)@),
            final(self)@.address == old(self)@.address,
            final(self)@.router == old(self)@.router,
            !is_serving(old(self)@) ==> drain is None && final(self)@ == old(self)@,
            is_serving(old(self)@) ==> (drain matches Some(d) && Some(d.handle) == old(
                self,
            )@.handle && d.address == old(self)@.address),
    {
        let taken = self.handle.take();
        match taken {
            None => None,
            Some(handle) => {
                handle.graceful_shutdown(Some(core::time::Duration::from_secs(GRACE_PERIOD_SECS)));
                Some(DrainTask { handle, address: self.address })
            },
        }
    }

    /// Reacts to a configuration change; see `Server::reload`. The handler
    /// keeps serving its own router at the new address.
    pub fn reload(&mut self, configuration: &Configuration) -> (r: ReloadOutcome)
        ensures
            old(self)@.address == configuration@.address ==> final(self)@ == old(self)@
                && r is Unchanged && outcome_steps(r) == Seq::<StepModel>::empty(),
            old(self)@.address != configuration@.address ==> {
                &&& is_serving(final(self)@)
                &&& final(self)@.address == configuration@.address
                &&& final(self)@.router == old(self)@.router
                &&& r matches ReloadOutcome::Rebound { drain, bind } && (match drain {
                    Some(d) => is_serving(old(self)@) && Some(d.handle) == old(self)@.handle
                        && d.address == old(self)@.address && outcome_steps(r) == seq![
                        StepModel::DrainAt(old(self)@.address),
                        StepModel::BindAt(configuration@.address),
                    ],
                    None => !is_serving(old(self)@) && outcome_steps(r) == seq![
                        StepModel::BindAt(configuration@.address),
                    ],
                }) && bind.address == configuration@.address && bind.router == old(self)@.router
                    && final(self)@.handle == Some(bind.handle)
            },
    {
        let new_address = configuration.address();
        if self.address == new_address {
            return ReloadOutcome::Unchanged;
        }
        let drain = self.stop();
        self.address = new_address;
        let task = self.serve();
        match task {
            Some(bind) => {
                let r = ReloadOutcome::Rebound { drain, bind };
                proof {
                    if old(self)@.handle is Some {
                        assert(outcome_steps(r) =~= seq![
                            StepModel::DrainAt(old(self)@.address),
                            StepModel::BindAt(configuration@.address),
                        ]);
                    } else {
                        assert(outcome_steps(r) =~= seq![
                            StepModel::BindAt(configuration@.address),
                        ]);
                    }
                }
                r
            },
            None => {
                proof {
                    assert(false);
                }
                ReloadOutcome::Unchanged
            },
        }
    }
}

} // verus!
