use vstd::prelude::*;

use crate::message::{shutdown_notice, ReplyModel, ServerReply, SHUTTING_DOWN};
use crate::registry::{lemma_without_contains, lemma_without_no_duplicates, without, Registry};

verus! {

/// Where a server is in its one-way life: `Created`, then `Running`, then `Stopped`.
#[derive(Clone, Copy, Debug, PartialEq, Eq, Structural)]
pub enum Phase {
    Created,
    Running,
    Stopped,
}

/// How one pass of a connection's service loop ended.
#[derive(Clone, Copy, Debug, PartialEq, Eq, Structural)]
pub enum StepResult {
    /// A reply was written.
    Replied,
    /// The peer closed the connection.
    Closed,
    /// A read or a write failed.
    Failed,
}

/// The mathematical value of a server: its phase, its registry, and the key that the
/// next accepted connection gets.
pub ghost struct ServerModel {
    pub phase: Phase,
    pub registry: Seq<u64>,
    pub next_id: u64,
}

/// The state after `run`: a created server starts running; any other stays as it is.
pub open spec fn run_model(s: ServerModel) -> ServerModel {
    if s.phase == Phase::Created {
        ServerModel { phase: Phase::Running, ..s }
    } else {
        s
    }
}

/// The key that an accepted connection gets, if the server takes it.
pub open spec fn accepted_id(s: ServerModel) -> Option<u64> {
    if s.phase == Phase::Running && s.next_id < u64::MAX {
        Some(s.next_id)
    } else {
        None
    }
}

/// The state after a connection was accepted: it is registered under a fresh key.
pub open spec fn accept_model(s: ServerModel) -> ServerModel {
    if s.phase == Phase::Running && s.next_id < u64::MAX {
        ServerModel { registry: s.registry.push(s.next_id), next_id: (s.next_id + 1) as u64, ..s }
    } else {
        s
    }
}

/// The state after the worker of connection `id` exited: it is no longer registered.
pub open spec fn finish_model(s: ServerModel, id: u64) -> ServerModel {
    ServerModel { registry: without(s.registry, id), ..s }
}

/// Whether a worker goes on serving its connection after a pass that ended in `step`.
pub open spec fn keeps_serving(s: ServerModel, step: StepResult) -> bool {
    s.phase == Phase::Running && step == StepResult::Replied
}

/// The state after `stop`, and the connections to notify: a running server stops and
/// notifies every registered connection; any other stays as it is and notifies nobody.
pub open spec fn stop_model(s: ServerModel) -> (ServerModel, Option<Seq<u64>>) {
    if s.phase == Phase::Running {
        (ServerModel { phase: Phase::Stopped, ..s }, Some(s.registry))
    } else {
        (s, None)
    }
}

/// Stopping a stopped server changes nothing and notifies nobody.
pub proof fn lemma_stop_idempotent(s: ServerModel)
    ensures
        stop_model(stop_model(s).0) == (stop_model(s).0, None::<Seq<u64>>),
{
}

/// Once a running server is stopped, every connection registered at that moment is
/// notified, no worker goes on serving, no connection is accepted, and the server
/// never runs again.
pub proof fn lemma_shutdown(s: ServerModel, step: StepResult)
    requires
        s.phase == Phase::Running,
    ensures
        stop_model(s).1 == Some(s.registry),
        stop_model(s).0.registry == s.registry,
        !keeps_serving(stop_model(s).0, step),
        accepted_id(stop_model(s).0) is None,
        run_model(stop_model(s).0) == stop_model(s).0,
{
}

/// The server's lifecycle and its registry of live connections. It performs no I/O: the
/// caller accepts, reads and writes, and asks it what to do.
pub struct Server {
    phase: Phase,
    registry: Registry,
    next_id: u64,
    /// The connections whose worker has exited.
    exited: Ghost<Set<u64>>,
}

impl View for Server {
    type V = ServerModel;

    closed spec fn view(&self) -> ServerModel {
        ServerModel { phase: self.phase, registry: self.registry@, next_id: self.next_id }
    }
}

impl Server {
    /// The connections accepted whose worker has not exited yet.
    pub closed spec fn live(&self) -> Set<u64> {
        Set::new(|x: u64| x < self.next_id && !self.exited@.contains(x))
    }

    /// The registry holds each live connection once, and nothing else.
    pub closed spec fn wf(&self) -> bool {
        &&& self.registry@.no_duplicates()
        &&& forall|x: u64| #[trigger] self.exited@.contains(x) ==> x < self.next_id
        &&& forall|x: u64| #[trigger] self.registry@.contains(x) <==> self.live().contains(x)
    }

    /// A server that has not started yet, with an empty registry.
    pub fn new() -> (r: Server)
        ensures
            r.wf(),
            r@ == (ServerModel { phase: Phase::Created, registry: Seq::empty(), next_id: 0 }),
            r.live() == Set::<u64>::empty(),
    {
        let r = Server { phase: Phase::Created, registry: Registry::new(), next_id: 0, exited: Ghost(Set::empty()) };
        assert forall|x: u64| #[trigger] r.registry@.contains(x) <==> r.live().contains(x) by {
            assert(!r.live().contains(x));
        }
        assert(r.live() =~= Set::<u64>::empty());
        r
    }

    /// Where the server is in its life.
    pub fn phase(&self) -> (r: Phase)
        ensures
            r == self@.phase,
    {
        self.phase
    }

    /// Starts a created server; returns whether it started. A server that runs or has
    /// stopped is left as it is.
    pub fn run(&mut self) -> (r: bool)
        requires
            old(self).wf(),
        ensures
            final(self).wf(),
            final(self)@ == run_model(old(self)@),
            final(self).live() == old(self).live(),
            r == (old(self)@.phase == Phase::Created),
    {
        if self.phase == Phase::Created {
            self.phase = Phase::Running;
            true
        } else {
            false
        }
    }

    /// Whether the server is running.
    pub fn is_running(&self) -> (r: bool)
        ensures
            r == (self@.phase == Phase::Running),
    {
        self.phase == Phase::Running
    }

    /// Registers a newly accepted connection and returns its key; `None` where the server
    /// is not running or has no key left, and then nothing changes.
    pub fn accept(&mut self) -> (r: Option<u64>)
        requires
            old(self).wf(),
        ensures
            final(self).wf(),
            final(self)@ == accept_model(old(self)@),
            r == accepted_id(old(self)@),
            final(self).live() == (match r {
                Some(id) => old(self).live().insert(id),
                None => old(self).live(),
            }),
    {
        if self.phase == Phase::Running && self.next_id < u64::MAX {
            let id = self.next_id;
            proof {
                assert(!self.registry@.contains(id));
                assert(!self.exited@.contains(id));
            }
            self.registry.insert(id);
            self.next_id = id + 1;
            assert forall|x: u64| #[trigger] self.registry@.contains(x) <==> self.live().contains(x) by {
                if x != id {
                    if self.registry@.contains(x) {
                        let k = choose|k: int| 0 <= k < self.registry@.len() && self.registry@[k] == x;
                        assert(old(self).registry@[k] == x);
                    }
                    if old(self).registry@.contains(x) {
                        let k = choose|k: int| 0 <= k < old(self).registry@.len() && old(self).registry@[k] == x;
                        assert(self.registry@[k] == x);
                    }
                } else {
                    assert(self.registry@[self.registry@.len() - 1] == x);
                }
            }
            assert(self.live() =~= old(self).live().insert(id));
            Some(id)
        } else {
            None
        }
    }

    /// Whether the worker of a connection goes on after a pass that ended in `step`: only
    /// while the server runs and the pass wrote a reply.
    pub fn keep_serving(&self, step: StepResult) -> (r: bool)
        ensures
            r == keeps_serving(self@, step),
    {
        self.phase == Phase::Running && step == StepResult::Replied
    }

    /// Records that the worker of connection `id` has exited: it leaves the registry.
    pub fn finish(&mut self, id: u64)
        requires
            old(self).wf(),
        ensures
            final(self).wf(),
            final(self)@ == finish_model(old(self)@, id),
            final(self).live() == old(self).live().remove(id),
    {
        self.registry.remove(id);
        proof {
            if id < self.next_id {
                self.exited@ = self.exited@.insert(id);
            }
            lemma_without_no_duplicates(old(self).registry@, id);
            assert forall|x: u64| #[trigger] self.registry@.contains(x) <==> self.live().contains(x) by {
                lemma_without_contains(old(self).registry@, id, x);
            }
            assert(self.live() =~= old(self).live().remove(id));
        }
    }

    /// The registered connections, in the order they were accepted.
    pub fn connections(&self) -> (r: Vec<u64>)
        ensures
            r@ == self@.registry,
    {
        self.registry.entries()
    }

    /// The shutdown broadcast: every registered connection, in order, and the notice that
    /// each of them is sent.
    pub fn notify_clients_of_shutdown(&self) -> (r: (Vec<u64>, ServerReply))
        ensures
            r.0@ == self@.registry,
            r.1@ == ReplyModel::Error(SHUTTING_DOWN@),
    {
        (self.registry.entries(), shutdown_notice())
    }

    /// Stops a running server and returns the shutdown broadcast to send before any worker
    /// sees the server stopped. A server that is not running is left as it is, and nobody
    /// is notified.
    pub fn stop(&mut self) -> (r: Option<(Vec<u64>, ServerReply)>)
        requires
            old(self).wf(),
        ensures
            final(self).wf(),
            final(self)@ == stop_model(old(self)@).0,
            final(self).live() == old(self).live(),
            match r {
                Some(b) => stop_model(old(self)@).1 == Some(b.0@)
                    && b.1@ == ReplyModel::Error(SHUTTING_DOWN@),
                None => stop_model(old(self)@).1 is None,
            },
    {
        if self.phase == Phase::Running {
            let b = self.notify_clients_of_shutdown();
            self.phase = Phase::Stopped;
            Some(b)
        } else {
            None
        }
    }

    /// The registry consistency of a well-formed server: the registered connections are
    /// exactly the accepted ones whose worker has not exited, each registered once.
    pub proof fn lemma_registry_consistent(&self)
        requires
            self.wf(),
        ensures
            self@.registry.to_set() == self.live(),
            self@.registry.no_duplicates(),
    {
        assert(self@.registry.to_set() =~= self.live());
    }
}

} // verus!
