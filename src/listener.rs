//! The accept cycle of the IPC listener.
//!
//! On the IPC transport served here the listening handle itself becomes the
//! connection once a client arrives. A listener therefore cannot listen once
//! and accept in a loop: every accept must create a brand-new handle, wait on
//! it, and hand that same handle out as the connected endpoint. The
//! `NamedPipeServerManager` keeps that rule; a driver performs the creation
//! and the wait and reports how each went.
use vstd::prelude::*;

verus! {

/// How the pipe carries data.
#[derive(Clone, Copy, Debug, PartialEq, Eq, Structural)]
pub enum PipeMode {
    /// A stream of bytes.
    Byte,
    /// A stream of messages.
    Message,
}

/// The options each listening handle is created with.
#[derive(Clone, Copy, Debug, PartialEq, Eq, Structural)]
pub struct PipeOptions {
    pub pipe_mode: PipeMode,
    /// Fail creation unless this is the first instance of the name.
    pub first_pipe_instance: bool,
}

impl PipeOptions {
    /// Byte mode, any instance.
    pub fn new() -> (r: PipeOptions)
        ensures
            r.pipe_mode == PipeMode::Byte,
            !r.first_pipe_instance,
    {
        PipeOptions { pipe_mode: PipeMode::Byte, first_pipe_instance: false }
    }

    pub fn with_pipe_mode(self, pipe_mode: PipeMode) -> (r: PipeOptions)
        ensures
            r == (PipeOptions { pipe_mode, ..self }),
    {
        PipeOptions { pipe_mode, ..self }
    }

    pub fn with_first_pipe_instance(self, first: bool) -> (r: PipeOptions)
        ensures
            r == (PipeOptions { first_pipe_instance: first, ..self }),
    {
        PipeOptions { first_pipe_instance: first, ..self }
    }
}

/// Why an accept cycle failed.
#[derive(Clone, Copy, Debug, PartialEq, Eq, Structural)]
pub enum AcceptError {
    /// The listening handle could not be created or bound.
    Bind,
    /// Waiting for a client on the handle failed.
    Connect,
}

/// Where the listener stands in its accept cycle.
#[derive(Clone, Copy, Debug, PartialEq, Eq, Structural)]
pub enum ListenerPhase {
    /// No accept in progress and no live handle.
    Idle,
    /// A fresh handle is to be created.
    Creating,
    /// One handle is live and waits for a client.
    Listening,
}

/// What the driver of an accept cycle must do next.
#[derive(Clone, Copy, Debug, PartialEq, Eq, Structural)]
pub enum AcceptStep {
    /// Create a new listening handle with the manager's name and options.
    CreateHandle,
    /// Wait on the live handle until a client connects.
    WaitForClient,
    /// The live handle is now connected: hand it out as the endpoint.
    Connected,
    /// The cycle failed; the handle, if any, is to be dropped.
    Failed(AcceptError),
}

/// The abstract history of a listener. Handles are numbered in the order in
/// which they were created, from zero.
pub struct ListenerModel {
    pub phase: ListenerPhase,
    /// How many handles have been created.
    pub created: nat,
    /// The handles handed out as connected endpoints, in order.
    pub served: Seq<nat>,
}

impl ListenerModel {
    pub open spec fn initial() -> ListenerModel {
        ListenerModel { phase: ListenerPhase::Idle, created: 0, served: Seq::empty() }
    }

    /// Which handle is live, if one is.
    pub open spec fn live(self) -> Option<nat> {
        if self.phase == ListenerPhase::Listening {
            Some((self.created - 1) as nat)
        } else {
            None
        }
    }

    /// Handles are handed out once each, in order of creation, and the live
    /// handle is never one that was handed out.
    pub open spec fn wf(self) -> bool {
        &&& forall|i: int, j: int|
            0 <= i < j < self.served.len() ==> #[trigger] self.served[i] < #[trigger] self.served[j]
        &&& forall|i: int| 0 <= i < self.served.len() ==> #[trigger] self.served[i] < self.created
        &&& self.phase == ListenerPhase::Listening ==> self.created > 0 && (self.served.len()
            == 0 || self.served.last() < self.created - 1)
    }

    pub open spec fn step(self) -> AcceptStep {
        match self.phase {
            ListenerPhase::Idle => AcceptStep::CreateHandle,
            ListenerPhase::Creating => AcceptStep::CreateHandle,
            ListenerPhase::Listening => AcceptStep::WaitForClient,
        }
    }

    pub open spec fn after_begin(self) -> ListenerModel {
        ListenerModel { phase: ListenerPhase::Creating, ..self }
    }

    pub open spec fn after_created(self, ok: bool) -> ListenerModel {
        if ok {
            ListenerModel { phase: ListenerPhase::Listening, created: self.created + 1, ..self }
        } else {
            ListenerModel { phase: ListenerPhase::Idle, ..self }
        }
    }

    pub open spec fn after_connected(self, ok: bool) -> ListenerModel {
        if ok {
            ListenerModel {
                phase: ListenerPhase::Idle,
                served: self.served.push((self.created - 1) as nat),
                ..self
            }
        } else {
            ListenerModel { phase: ListenerPhase::Idle, ..self }
        }
    }
}

/// Creates one listening handle per client and hands each out once
/// connected. Name and options are fixed at construction.
pub struct NamedPipeServerManager {
    name: String,
    options: PipeOptions,
    phase: ListenerPhase,
    model: Ghost<ListenerModel>,
}

impl View for NamedPipeServerManager {
    type V = ListenerModel;

    closed spec fn view(&self) -> ListenerModel {
        self.model@
    }
}

impl NamedPipeServerManager {
    pub closed spec fn wf(&self) -> bool {
        &&& self.phase == self.model@.phase
        &&& self.model@.wf()
    }

    pub closed spec fn spec_name(&self) -> Seq<char> {
        self.name@
    }

    pub closed spec fn spec_options(&self) -> PipeOptions {
        self.options
    }

    /// A manager for the pipe `name`, in message mode.
    pub fn new(name: String) -> (r: NamedPipeServerManager)
        ensures
            r.wf(),
            r@ == ListenerModel::initial(),
            r.spec_name() == name@,
            r.spec_options() == (PipeOptions { pipe_mode: PipeMode::Message, first_pipe_instance: false }),
    {
        let options = PipeOptions::new().with_pipe_mode(PipeMode::Message);
        NamedPipeServerManager::with_options(name, options)
    }

    /// A manager for the pipe `name` whose handles use `options`.
    pub fn with_options(name: String, options: PipeOptions) -> (r: NamedPipeServerManager)
        ensures
            r.wf(),
            r@ == ListenerModel::initial(),
            r.spec_name() == name@,
            r.spec_options() == options,
    {
        NamedPipeServerManager {
            name,
            options,
            phase: ListenerPhase::Idle,
            model: Ghost(ListenerModel::initial()),
        }
    }

    /// The name every handle is created under.
    pub fn name(&self) -> (r: &str)
        ensures
            r@ == self.spec_name(),
    {
        self.name.as_str()
    }

    /// The options every handle is created with.
    pub fn options(&self) -> (r: PipeOptions)
        ensures
            r == self.spec_options(),
    {
        self.options
    }

    pub fn phase(&self) -> (r: ListenerPhase)
        requires
            self.wf(),
        ensures
            r == self@.phase,
    {
        self.phase
    }

    fn current_step(&self) -> (r: AcceptStep)
        requires
            self.wf(),
        ensures
            r == self@.step(),
    {
        match self.phase {
            ListenerPhase::Idle => AcceptStep::CreateHandle,
            ListenerPhase::Creating => AcceptStep::CreateHandle,
            ListenerPhase::Listening => AcceptStep::WaitForClient,
        }
    }

    /// Starts an accept cycle: a new handle is always the first thing asked
    /// for, whatever earlier cycles did.
    pub fn begin_accept(&mut self) -> (r: AcceptStep)
        requires
            old(self).wf(),
            old(self)@.phase == ListenerPhase::Idle,
        ensures
            final(self).wf(),
            final(self)@ == old(self)@.after_begin(),
            final(self).spec_name() == old(self).spec_name(),
            final(self).spec_options() == old(self).spec_options(),
            r == AcceptStep::CreateHandle,
    {
        self.phase = ListenerPhase::Creating;
        self.model = Ghost(self.model@.after_begin());
        self.current_step()
    }

    /// Reports whether creating the handle succeeded. On success the new
    /// handle is the live one; on failure the cycle ends in a bind error.
    pub fn on_created(&mut self, ok: bool) -> (r: AcceptStep)
        requires
            old(self).wf(),
            old(self)@.phase == ListenerPhase::Creating,
        ensures
            final(self).wf(),
            final(self)@ == old(self)@.after_created(ok),
            final(self).spec_name() == old(self).spec_name(),
            final(self).spec_options() == old(self).spec_options(),
            r == (if ok {
                AcceptStep::WaitForClient
            } else {
                AcceptStep::Failed(AcceptError::Bind)
            }),
    {
        self.model = Ghost(self.model@.after_created(ok));
        if ok {
            self.phase = ListenerPhase::Listening;
            AcceptStep::WaitForClient
        } else {
            self.phase = ListenerPhase::Idle;
            AcceptStep::Failed(AcceptError::Bind)
        }
    }

    /// Reports whether a client connected to the live handle. Either way
    /// the handle stops being a listener: it is handed out, or dropped.
    pub fn on_connected(&mut self, ok: bool) -> (r: AcceptStep)
        requires
            old(self).wf(),
            old(self)@.phase == ListenerPhase::Listening,
        ensures
            final(self).wf(),
            final(self)@ == old(self)@.after_connected(ok),
            final(self).spec_name() == old(self).spec_name(),
            final(self).spec_options() == old(self).spec_options(),
            r == (if ok {
                AcceptStep::Connected
            } else {
                AcceptStep::Failed(AcceptError::Connect)
            }),
    {
        let ghost m = self.model@;
        self.model = Ghost(m.after_connected(ok));
        self.phase = ListenerPhase::Idle;
        if ok {
            let ghost n = self.model@;
            assert forall|i: int, j: int|
                0 <= i < j < n.served.len() implies #[trigger] n.served[i] < #[trigger] n.served[j] by {
                if j < m.served.len() as int {
                    assert(n.served[i] == m.served[i] && n.served[j] == m.served[j]);
                } else {
                    assert(m.served[i] <= m.served.last());
                }
            }
            assert forall|i: int| 0 <= i < n.served.len() implies #[trigger] n.served[i]
                < n.created by {
                if i < m.served.len() as int {
                    assert(n.served[i] == m.served[i]);
                }
            }
            AcceptStep::Connected
        } else {
            AcceptStep::Failed(AcceptError::Connect)
        }
    }
}

/// A listener can be used again and again: from any idle state, in
/// particular right after a client was handed out, a cycle whose creation
/// and wait succeed hands out a new handle, one never handed out before,
/// after creating exactly one.
pub proof fn lemma_listener_reusable(m: ListenerModel)
    requires
        m.wf(),
        m.phase == ListenerPhase::Idle,
    ensures
        ({
            let n = m.after_begin().after_created(true).after_connected(true);
            &&& n.wf()
            &&& n.phase == ListenerPhase::Idle
            &&& n.created == m.created + 1
            &&& n.served == m.served.push(m.created)
            &&& !m.served.contains(m.created)
        }),
{
    let l = m.after_begin().after_created(true);
    assert(l.wf());
    let n = l.after_connected(true);
    assert forall|i: int, j: int| 0 <= i < j < n.served.len() implies #[trigger] n.served[i]
        < #[trigger] n.served[j] by {
        if j < m.served.len() as int {
            assert(n.served[i] == m.served[i] && n.served[j] == m.served[j]);
        } else {
            assert(n.served[i] == m.served[i]);
        }
    }
    assert forall|i: int| 0 <= i < n.served.len() implies #[trigger] n.served[i] < n.created by {
        if i < m.served.len() as int {
            assert(n.served[i] == m.served[i]);
        }
    }
    if m.served.contains(m.created) {
        let k = choose|k: int| 0 <= k < m.served.len() && m.served[k] == m.created;
        assert(m.served[k] < m.created);
    }
}

} // verus!
