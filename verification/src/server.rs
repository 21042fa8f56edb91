//! The server supervisor: owner of the listener handle, the bind address and
//! the current router.
//!
//! The supervisor is a state machine. `serve` attaches a fresh listener
//! handle and hands out a bind task, `reload` drains and rebinds only when
//! the configured address changed, and `stop` issues the graceful-shutdown
//! signal and hands the handle out for the drain poll. Spawning the accept
//! loop and sleeping between drain polls are async work and stay with the
//! unverified shell, which performs the tasks in the order they are handed
//! out.

use vstd::prelude::*;

use crate::config::{Configuration, SocketAddress};

verus! {

#[verifier::external_type_specification]
#[verifier::external_body]
#[verifier::reject_recursive_types(S)]
pub struct ExRouter<S>(axum::Router<S>);

#[verifier::external_type_specification]
#[verifier::external_body]
pub struct ExHandle(axum_server::Handle);

/// Relies on axum_server::Handle::new: a fresh handle, attached to no server
/// yet.
pub assume_specification[ axum_server::Handle::new ]() -> axum_server::Handle;

/// Relies on axum_server::Handle::connection_count: the number of live
/// connections of the server the handle controls, at the moment of the call.
pub assume_specification[ axum_server::Handle::connection_count ](
    h: &axum_server::Handle,
) -> usize;

/// Relies on axum_server::Handle::graceful_shutdown: signals the server the
/// handle controls to stop accepting and to finish in-flight requests within
/// the given grace period.
pub assume_specification[ axum_server::Handle::graceful_shutdown ](
    h: &axum_server::Handle,
    duration: Option<core::time::Duration>,
);

/// Relies on axum_server::Handle's derived Clone: the handle is a shared
/// reference to one server's state, so a clone is the same handle.
pub assume_specification[ <axum_server::Handle as Clone>::clone ](
    h: &axum_server::Handle,
) -> (r: axum_server::Handle)
    ensures
        r == *h,
;

/// Relies on axum::Router's Clone: the router is a shared reference to one
/// routing table, so a clone is the same router.
pub assume_specification<S>[ <axum::Router<S> as Clone>::clone ](r: &axum::Router<S>) -> (c: axum::Router<S>)
    ensures
        c == *r,
;

/// Relies on core::time::Duration::from_secs building the duration of that
/// many seconds.
pub assume_specification[ core::time::Duration::from_secs ](secs: u64) -> core::time::Duration;

/// How many seconds in-flight requests are given to finish once a graceful
/// shutdown is signalled.
pub const GRACE_PERIOD_SECS: u64 = 3;

/// How many seconds pass between two polls of the live-connection count
/// while draining.
pub const DRAIN_POLL_SECS: u64 = 1;

/// An accept loop to be spawned: bind the address, serve the router, answer
/// to the handle.
pub struct BindTask {
    pub handle: axum_server::Handle,
    pub router: axum::Router,
    pub address: SocketAddress,
}

/// A drain to be carried out: the graceful-shutdown signal has been issued
/// on this handle; poll its connection count every `DRAIN_POLL_SECS` until
/// `drain_complete` says it reached zero.
pub struct DrainTask {
    pub handle: axum_server::Handle,
    pub address: SocketAddress,
}

/// Whether the drain poll may conclude: no live connections remain.
pub fn drain_complete(connection_count: usize) -> (r: bool)
    ensures
        r == (connection_count == 0),
{
    connection_count == 0
}

/// Reads the live-connection count of a drain in progress.
pub fn poll_connection_count(task: &DrainTask) -> usize {
    axum_server::Handle::connection_count(&task.handle)
}

/// What a reload asks the shell to do.
pub enum ReloadOutcome {
    /// The bind address did not change: nothing to do, the running listener
    /// and its connections are untouched.
    Unchanged,
    /// The address changed: finish the drain (when one is handed out), then
    /// spawn the bind task. Never the other way around.
    Rebound { drain: Option<DrainTask>, bind: BindTask },
}

/// The listener actions of an outcome, in the order they must happen.
pub open spec fn outcome_steps(r: ReloadOutcome) -> Seq<StepModel> {
    match r {
        ReloadOutcome::Unchanged => Seq::empty(),
        ReloadOutcome::Rebound { drain, bind } => (match drain {
            Some(d) => seq![StepModel::DrainAt(d.address)],
            None => Seq::empty(),
        }) + seq![StepModel::BindAt(bind.address)],
    }
}

/// A listener action, reduced to the address it affects.
pub enum StepModel {
    DrainAt(SocketAddress),
    BindAt(SocketAddress),
}

/// What an action does to the set of addresses with a bound listener.
pub open spec fn apply_step(bound: Set<SocketAddress>, step: StepModel) -> Set<SocketAddress> {
    match step {
        StepModel::DrainAt(a) => bound.remove(a),
        StepModel::BindAt(a) => bound.insert(a),
    }
}

/// The set of bound addresses after the first `n` actions.
pub open spec fn bound_after(
    bound: Set<SocketAddress>,
    steps: Seq<StepModel>,
    n: int,
) -> Set<SocketAddress>
    decreases n,
{
    if n <= 0 {
        bound
    } else {
        apply_step(bound_after(bound, steps, n - 1), steps[n - 1])
    }
}

/// The supervisor of the HTTP server: holds the listener handle while one is
/// attached, the current bind address and the current router. The handle is
/// present exactly while the supervisor is serving.
pub struct Server {
    handle: Option<axum_server::Handle>,
    address: SocketAddress,
    router: axum::Router,
}

/// The supervisor's state as contracts see it.
pub struct ServerModel {
    pub handle: Option<axum_server::Handle>,
    pub address: SocketAddress,
    pub router: axum::Router,
}

/// Whether a supervisor in this state is serving.
pub open spec fn is_serving(m: ServerModel) -> bool {
    m.handle is Some
}

impl View for Server {
    type V = ServerModel;

    closed spec fn view(&self) -> ServerModel {
        ServerModel { handle: self.handle, address: self.address, router: self.router }
    }
}

impl Server {
    /// A stopped supervisor for the router the collaborators built, bound-to
    /// -be at the configured address.
    pub fn new(router: axum::Router, configuration: &Configuration) -> (s: Server)
        ensures
            !is_serving(s@),
            s@.address == configuration@.address,
            s@.router == router,
    {
        Server { handle: None, address: configuration.address(), router }
    }

    /// Starts serving: attaches a fresh handle and hands out the accept loop
    /// to spawn. While already serving this reuses the existing handle and
    /// hands out nothing, so no second listener can come from it.
    pub fn serve(&mut self) -> (task: Option<BindTask>)
        ensures
            is_serving(final(self)@),
            final(self)@.address == old(self)@.address,
            final(self)@.router == old(self)@.router,
            is_serving(old(self)@) ==> final(self)@.handle == old(self)@.handle && task is None,
            !is_serving(old(self)@) ==> (task matches Some(t) && final(self)@.handle == Some(
                t.handle,
            ) && t.address == old(self)@.address && t.router == old(self)@.router),
    {
        match &self.handle {
            Some(_) => None,
            None => {
                let handle = axum_server::Handle::new();
                let task = BindTask {
                    handle: handle.clone(),
                    router: self.router.clone(),
                    address: self.address,
                };
                self.handle = Some(handle);
                Some(task)
            },
        }
    }

    /// Stops serving: issues the graceful-shutdown signal with the fixed
    /// grace period and hands the handle out for the drain poll. A stopped
    /// supervisor is left as it is.
    pub fn stop(&mut self) -> (drain: Option<DrainTask>)
        ensures
            !is_serving(final(self)@),
            final(self)@.address == old(self)@.address,
            final(self)@.router == old(self)@.router,
            !is_serving(old(self)@) ==> drain is None && final(self)@ == old(self)@,
            is_serving(old(self)@) ==> (drain matches Some(d) && Some(d.handle) == old(
                self,
            )@.handle && d.address == old(self)@.address),
    {
        let taken = self.handle.take();
        match taken {
            None => None,
            Some(handle) => {
                handle.graceful_shutdown(Some(core::time::Duration::from_secs(GRACE_PERIOD_SECS)));
                Some(DrainTask { handle, address: self.address })
            },
        }
    }

    /// Reacts to a configuration change. An unchanged bind address is a
    /// no-op: neither the listener nor the router is replaced, even when
    /// other settings changed. A changed address drains the old listener
    /// completely, then installs the new address and router and serves.
    pub fn reload(&mut self, router: axum::Router, configuration: &Configuration) -> (r:
        ReloadOutcome)
        ensures
            old(self)@.address == configuration@.address ==> final(self)@ == old(self)@
                && r is Unchanged && outcome_steps(r) == Seq::<StepModel>::empty(),
            old(self)@.address != configuration@.address ==> {
                &&& is_serving(final(self)@)
                &&& final(self)@.address == configuration@.address
                &&& final(self)@.router == router
                &&& r matches ReloadOutcome::Rebound { drain, bind } && (match drain {
                    Some(d) => is_serving(old(self)@) && Some(d.handle) == old(self)@.handle
                        && d.address == old(self)@.address && outcome_steps(r) == seq![
                        StepModel::DrainAt(old(self)@.address),
                        StepModel::BindAt(configuration@.address),
                    ],
                    None => !is_serving(old(self)@) && outcome_steps(r) == seq![
                        StepModel::BindAt(configuration@.address),
                    ],
                }) && bind.address == configuration@.address && bind.router == router
                    && final(self)@.handle == Some(bind.handle)
            },
    {
        let new_address = configuration.address();
        if self.address == new_address {
            return ReloadOutcome::Unchanged;
        }
        let drain = self.stop();
        self.address = new_address;
        self.router = router;
        let task = self.serve();
        match task {
            Some(bind) => {
                let r = ReloadOutcome::Rebound { drain, bind };
                proof {
                    if old(self)@.handle is Some {
                        assert(outcome_steps(r) =~= seq![
                            StepModel::DrainAt(old(self)@.address),
                            StepModel::BindAt(configuration@.address),
                        ]);
                    } else {
                        assert(outcome_steps(r) =~= seq![
                            StepModel::BindAt(configuration@.address),
                        ]);
                    }
                }
                r
            },
            None => {
                proof {
                    assert(false);
                }
                ReloadOutcome::Unchanged
            },
        }
    }
}

/// The law of an address change while serving: the plan a reload hands out
/// first unbinds the old address and only then binds the new one. Starting
/// from the old address alone, no point of the plan has both addresses
/// bound, and the plan ends with exactly the new address bound.
pub proof fn lemma_reload_rebinds_exclusively(
    old_addr: SocketAddress,
    new_addr: SocketAddress,
    steps: Seq<StepModel>,
)
    requires
        old_addr != new_addr,
        steps == seq![StepModel::DrainAt(old_addr), StepModel::BindAt(new_addr)],
    ensures
        forall|n: int|
            0 <= n <= steps.len() ==> !(bound_after(set![old_addr], steps, n).contains(old_addr)
                && bound_after(set![old_addr], steps, n).contains(new_addr)),
        bound_after(set![old_addr], steps, steps.len() as int) =~= set![new_addr],
{
    let initial = set![old_addr];
    assert(steps[0] == StepModel::DrainAt(old_addr));
    assert(steps[1] == StepModel::BindAt(new_addr));
    assert(bound_after(initial, steps, 0) == initial);
    assert(bound_after(initial, steps, 1) == initial.remove(old_addr));
    assert(bound_after(initial, steps, 2) == initial.remove(old_addr).insert(new_addr));
    assert forall|n: int|
        0 <= n <= steps.len() implies !(bound_after(initial, steps, n).contains(old_addr)
        && bound_after(initial, steps, n).contains(new_addr)) by {
        if n == 0 {
            assert(!initial.contains(new_addr));
        } else if n == 1 {
            assert(!initial.remove(old_addr).contains(old_addr));
        } else {
            assert(!initial.remove(old_addr).insert(new_addr).contains(old_addr));
        }
    }
    assert(initial.remove(old_addr).insert(new_addr) =~= set![new_addr]);
}

/// The law of an address change while stopped: the plan only binds the new
/// address; the old address is never bound along the way.
pub proof fn lemma_reload_from_stopped(
    old_addr: SocketAddress,
    new_addr: SocketAddress,
    steps: Seq<StepModel>,
)
    requires
        old_addr != new_addr,
        steps == seq![StepModel::BindAt(new_addr)],
    ensures
        forall|n: int|
            0 <= n <= steps.len() ==> !bound_after(
                Set::<SocketAddress>::empty(),
                steps,
                n,
            ).contains(old_addr),
        bound_after(Set::<SocketAddress>::empty(), steps, steps.len() as int) =~= set![new_addr],
{
    let initial = Set::<SocketAddress>::empty();
    assert(steps[0] == StepModel::BindAt(new_addr));
    assert(bound_after(initial, steps, 0) == initial);
    assert(bound_after(initial, steps, 1) == initial.insert(new_addr));
    assert forall|n: int|
        0 <= n <= steps.len() implies !bound_after(initial, steps, n).contains(old_addr) by {
        if n == 0 {
            assert(!initial.contains(old_addr));
        } else {
            assert(!initial.insert(new_addr).contains(old_addr));
        }
    }
    assert(initial.insert(new_addr) =~= set![new_addr]);
}

} // verus!
