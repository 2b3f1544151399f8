//! The steps that open the multicast socket, and which of them may fail.

use vstd::prelude::*;

verus! {

/// The group that discovery messages are sent to.
pub const MULTICAST_ADDR: &'static str = "224.0.0.251";

/// The port that discovery uses. It is not the one of multicast DNS.
pub const MULTICAST_PORT: u16 = 55301;

/// A step in opening the socket. The steps are taken in this order.
#[derive(Clone, Copy, Debug, PartialEq, Eq, Structural)]
pub enum SetupStep {
    CreateSocket,
    /// Lets several instances on one machine share the address.
    ReuseAddress,
    /// The same for the port. Not every platform has it.
    ReusePort,
    /// Binds to the discovery port on every interface.
    Bind,
    NonBlocking,
    /// Hands the socket to the asynchronous runtime.
    Register,
    Broadcast,
}

/// What to do after a step.
#[derive(Clone, Copy, Debug, PartialEq, Eq, Structural)]
pub enum SetupProgress {
    /// Take this step next.
    Next(SetupStep),
    /// The socket cannot be opened: this step failed.
    Failed(SetupStep),
    /// The socket is ready to join the multicast group.
    JoinGroup,
}

/// The place of a step in the order.
pub open spec fn step_index(step: SetupStep) -> int {
    match step {
        SetupStep::CreateSocket => 0,
        SetupStep::ReuseAddress => 1,
        SetupStep::ReusePort => 2,
        SetupStep::Bind => 3,
        SetupStep::NonBlocking => 4,
        SetupStep::Register => 5,
        SetupStep::Broadcast => 6,
    }
}

/// Whether the socket is given up where the step fails.
pub open spec fn is_vital(step: SetupStep) -> bool {
    step != SetupStep::ReusePort
}

/// What follows a step that went as `ok` says.
pub open spec fn progress(step: SetupStep, ok: bool) -> SetupProgress {
    if !ok && is_vital(step) {
        SetupProgress::Failed(step)
    } else {
        match step {
            SetupStep::CreateSocket => SetupProgress::Next(SetupStep::ReuseAddress),
            SetupStep::ReuseAddress => SetupProgress::Next(SetupStep::ReusePort),
            SetupStep::ReusePort => SetupProgress::Next(SetupStep::Bind),
            SetupStep::Bind => SetupProgress::Next(SetupStep::NonBlocking),
            SetupStep::NonBlocking => SetupProgress::Next(SetupStep::Register),
            SetupStep::Register => SetupProgress::Next(SetupStep::Broadcast),
            SetupStep::Broadcast => SetupProgress::JoinGroup,
        }
    }
}

/// Where the steps from `step` on lead, when the step at place `i` goes as
/// `ok[i]` says.
pub open spec fn setup_run(step: SetupStep, ok: Seq<bool>) -> SetupProgress
    decreases 7 - step_index(step),
{
    match progress(step, ok[step_index(step)]) {
        SetupProgress::Next(next) => if step_index(next) > step_index(step) {
            setup_run(next, ok)
        } else {
            SetupProgress::Next(next)
        },
        end => end,
    }
}

/// Law: the socket is opened exactly where every vital step goes well, and
/// otherwise the first vital step that fails is the one reported.
pub proof fn law_setup_needs_vital_steps(ok: Seq<bool>)
    ensures
        setup_run(SetupStep::CreateSocket, ok) == SetupProgress::JoinGroup <==> (
        forall|s: SetupStep| is_vital(s) ==> ok[#[trigger] step_index(s)]),
        forall|s: SetupStep|
            setup_run(SetupStep::CreateSocket, ok) == SetupProgress::Failed(s) <==> (is_vital(s)
                && !ok[#[trigger] step_index(s)] && (forall|t: SetupStep|
                is_vital(t) && #[trigger] step_index(t) < step_index(s) ==> ok[step_index(t)])),
{
    reveal_with_fuel(setup_run, 8);
    assert(step_index(SetupStep::CreateSocket) == 0);
    assert(step_index(SetupStep::ReuseAddress) == 1);
    assert(step_index(SetupStep::ReusePort) == 2);
    assert(step_index(SetupStep::Bind) == 3);
    assert(step_index(SetupStep::NonBlocking) == 4);
    assert(step_index(SetupStep::Register) == 5);
    assert(step_index(SetupStep::Broadcast) == 6);
}

/// What is said of a step that failed.
pub open spec fn failure_text_spec(step: SetupStep) -> Seq<char> {
    match step {
        SetupStep::CreateSocket => "Failed to create socket"@,
        SetupStep::ReuseAddress => "Failed to set SO_REUSEADDR"@,
        SetupStep::ReusePort => "Failed to set SO_REUSEPORT, continuing anyway"@,
        SetupStep::Bind => "Failed to bind multicast socket to 0.0.0.0:55301"@,
        SetupStep::NonBlocking => "Failed to set non-blocking"@,
        SetupStep::Register => "Failed to convert to tokio socket"@,
        SetupStep::Broadcast => "Failed to set broadcast"@,
    }
}

/// What is said of a step that failed.
pub fn failure_text(step: SetupStep) -> (r: &'static str)
    ensures
        r@ == failure_text_spec(step),
{
    match step {
        SetupStep::CreateSocket => "Failed to create socket",
        SetupStep::ReuseAddress => "Failed to set SO_REUSEADDR",
        SetupStep::ReusePort => "Failed to set SO_REUSEPORT, continuing anyway",
        SetupStep::Bind => "Failed to bind multicast socket to 0.0.0.0:55301",
        SetupStep::NonBlocking => "Failed to set non-blocking",
        SetupStep::Register => "Failed to convert to tokio socket",
        SetupStep::Broadcast => "Failed to set broadcast",
    }
}

/// Decides what follows a step that went as `ok` says.
pub fn create_multicast_socket(step: SetupStep, ok: bool) -> (r: SetupProgress)
    ensures
        r == progress(step, ok),
{
    match step {
        SetupStep::CreateSocket => {
            if ok {
                SetupProgress::Next(SetupStep::ReuseAddress)
            } else {
                SetupProgress::Failed(step)
            }
        },
        SetupStep::ReuseAddress => {
            if ok {
                SetupProgress::Next(SetupStep::ReusePort)
            } else {
                SetupProgress::Failed(step)
            }
        },
        SetupStep::ReusePort => SetupProgress::Next(SetupStep::Bind),
        SetupStep::Bind => {
            if ok {
                SetupProgress::Next(SetupStep::NonBlocking)
            } else {
                SetupProgress::Failed(step)
            }
        },
        SetupStep::NonBlocking => {
            if ok {
                SetupProgress::Next(SetupStep::Register)
            } else {
                SetupProgress::Failed(step)
            }
        },
        SetupStep::Register => {
            if ok {
                SetupProgress::Next(SetupStep::Broadcast)
            } else {
                SetupProgress::Failed(step)
            }
        },
        SetupStep::Broadcast => {
            if ok {
                SetupProgress::JoinGroup
            } else {
                SetupProgress::Failed(step)
            }
        },
    }
}

/// Where to join the multicast group next.
#[derive(Clone, Copy, Debug, PartialEq, Eq, Structural)]
pub enum JoinTarget {
    /// On the interface at this place in the list of interfaces.
    Interface(usize),
    /// On the interface that the system picks.
    Default,
    /// Nowhere: the socket is ready.
    Done,
}

/// How far joining the multicast group has come.
#[derive(Clone, Copy, Debug, PartialEq, Eq, Structural)]
pub struct GroupJoin {
    interfaces: usize,
    next: usize,
    joined: usize,
    default_tried: bool,
}

/// The mathematical value of a [`GroupJoin`].
pub struct JoinView {
    /// The number of interfaces.
    pub interfaces: nat,
    /// How many interfaces were tried.
    pub tried: nat,
    /// How many attempts went well.
    pub joined: nat,
    /// Whether the default interface was tried.
    pub default_tried: bool,
}

/// How many of the attempts went well.
pub open spec fn successes(ok: Seq<bool>) -> nat
    decreases ok.len(),
{
    if ok.len() == 0 {
        0
    } else {
        successes(ok.drop_last()) + if ok.last() {
            1nat
        } else {
            0nat
        }
    }
}

impl JoinView {
    /// Nothing tried yet.
    pub open spec fn start(interfaces: nat) -> JoinView {
        JoinView { interfaces, tried: 0, joined: 0, default_tried: false }
    }

    /// Where to join next: each interface in turn, then, if none was joined,
    /// the default.
    pub open spec fn target(self) -> JoinTarget {
        if self.tried < self.interfaces {
            JoinTarget::Interface(self.tried as usize)
        } else if self.joined == 0 && !self.default_tried {
            JoinTarget::Default
        } else {
            JoinTarget::Done
        }
    }

    /// After the attempt at the target went as `ok` says.
    pub open spec fn reported(self, ok: bool) -> JoinView {
        let joined = if ok {
            self.joined + 1
        } else {
            self.joined
        };
        match self.target() {
            JoinTarget::Interface(_) => JoinView { tried: self.tried + 1, joined, ..self },
            JoinTarget::Default => JoinView { default_tried: true, joined, ..self },
            JoinTarget::Done => self,
        }
    }

    /// After several attempts.
    pub open spec fn run(self, ok: Seq<bool>) -> JoinView
        decreases ok.len(),
    {
        if ok.len() == 0 {
            self
        } else {
            self.run(ok.drop_last()).reported(ok.last())
        }
    }
}

/// Law: whatever the attempts bring, each interface is tried once and in order,
/// and the successes are counted.
pub proof fn law_each_interface_tried(interfaces: nat, ok: Seq<bool>)
    requires
        ok.len() <= interfaces <= usize::MAX,
    ensures
        JoinView::start(interfaces).run(ok) == (JoinView {
            interfaces,
            tried: ok.len(),
            joined: successes(ok),
            default_tried: false,
        }),
        ok.len() < interfaces ==> JoinView::start(interfaces).run(ok).target()
            == JoinTarget::Interface(ok.len() as usize),
    decreases ok.len(),
{
    if ok.len() > 0 {
        law_each_interface_tried(interfaces, ok.drop_last());
    }
}

/// Law: once every interface was tried, the default interface is tried exactly
/// where none was joined, and once. Joining never fails the socket: after that
/// there is nothing left to do, however the default went.
pub proof fn law_default_only_as_last_resort(interfaces: nat, ok: Seq<bool>, default_ok: bool)
    requires
        ok.len() == interfaces <= usize::MAX,
    ensures
        successes(ok) == 0 ==> JoinView::start(interfaces).run(ok).target() == JoinTarget::Default,
        successes(ok) > 0 ==> JoinView::start(interfaces).run(ok).target() == JoinTarget::Done,
        JoinView::start(interfaces).run(ok.push(default_ok)).target() == JoinTarget::Done,
{
    law_each_interface_tried(interfaces, ok);
    assert(ok.push(default_ok).drop_last() =~= ok);
}

impl View for GroupJoin {
    type V = JoinView;

    closed spec fn view(&self) -> JoinView {
        JoinView {
            interfaces: self.interfaces as nat,
            tried: self.next as nat,
            joined: self.joined as nat,
            default_tried: self.default_tried,
        }
    }
}

impl GroupJoin {
    /// No more joins than attempts.
    pub open spec fn wf(&self) -> bool {
        &&& self@.tried <= self@.interfaces <= usize::MAX
        &&& self@.default_tried ==> self@.tried == self@.interfaces && self@.joined <= 1
        &&& !self@.default_tried ==> self@.joined <= self@.tried
    }

    /// Nothing tried yet.
    pub fn new(interfaces: usize) -> (r: GroupJoin)
        ensures
            r.wf(),
            r@ == JoinView::start(interfaces as nat),
    {
        GroupJoin { interfaces, next: 0, joined: 0, default_tried: false }
    }

    /// Where to join next.
    pub fn next_target(&self) -> (r: JoinTarget)
        requires
            self.wf(),
        ensures
            r == self@.target(),
    {
        if self.next < self.interfaces {
            JoinTarget::Interface(self.next)
        } else if self.joined == 0 && !self.default_tried {
            JoinTarget::Default
        } else {
            JoinTarget::Done
        }
    }

    /// Takes note of how the attempt at the target went. Where there is none
    /// left, nothing changes.
    pub fn report(&mut self, ok: bool)
        requires
            old(self).wf(),
        ensures
            final(self).wf(),
            final(self)@ == old(self)@.reported(ok),
    {
        if self.next < self.interfaces {
            self.next = self.next + 1;
            if ok {
                self.joined = self.joined + 1;
            }
        } else if self.joined == 0 && !self.default_tried {
            self.default_tried = true;
            if ok {
                self.joined = self.joined + 1;
            }
        }
    }

    /// How many attempts went well.
    pub fn join_count(&self) -> (r: usize)
        ensures
            r == self@.joined,
    {
        self.joined
    }
}

/// Law: each interface that is left is tried in its turn, and each success is
/// counted. When none is left, the default interface is tried if nothing was
/// joined, and then there is nothing more to try.
pub proof fn law_join_goes_on(v: JoinView, ok: bool)
    requires
        v.interfaces <= usize::MAX,
    ensures
        v.tried < v.interfaces ==> {
            &&& v.target() == JoinTarget::Interface(v.tried as usize)
            &&& v.reported(ok).tried == v.tried + 1
            &&& v.reported(ok).default_tried == v.default_tried
            &&& v.reported(ok).joined == v.joined + if ok {
                1int
            } else {
                0int
            }
        },
        v.tried >= v.interfaces && v.joined == 0 && !v.default_tried ==> {
            &&& v.target() == JoinTarget::Default
            &&& v.reported(ok).tried == v.tried
            &&& v.reported(ok).default_tried
            &&& v.reported(ok).joined == if ok {
                1int
            } else {
                0int
            }
        },
        v.tried >= v.interfaces && (v.joined > 0 || v.default_tried) ==> v.target()
            == JoinTarget::Done && v.reported(ok) == v,
        v.reported(ok).interfaces == v.interfaces,
        JoinView::start(v.interfaces).interfaces == v.interfaces,
        JoinView::start(v.interfaces).tried == 0,
        JoinView::start(v.interfaces).joined == 0,
        !JoinView::start(v.interfaces).default_tried,
{
}

/// Law: opening goes from creating the socket through reuse of the address and of
/// the port, binding, non-blocking mode and registration to broadcast, and then
/// to the group. A step that fails ends it, except reuse of the port.
pub proof fn law_setup_order(step: SetupStep, ok: bool)
    ensures
        !ok && step != SetupStep::ReusePort ==> progress(step, ok) == SetupProgress::Failed(step),
        ok || step == SetupStep::ReusePort ==> progress(step, ok) == match step {
            SetupStep::CreateSocket => SetupProgress::Next(SetupStep::ReuseAddress),
            SetupStep::ReuseAddress => SetupProgress::Next(SetupStep::ReusePort),
            SetupStep::ReusePort => SetupProgress::Next(SetupStep::Bind),
            SetupStep::Bind => SetupProgress::Next(SetupStep::NonBlocking),
            SetupStep::NonBlocking => SetupProgress::Next(SetupStep::Register),
            SetupStep::Register => SetupProgress::Next(SetupStep::Broadcast),
            SetupStep::Broadcast => SetupProgress::JoinGroup,
        },
{
}

/// Law: what is said of a step that failed names what the step was to do.
pub proof fn law_failures_in_words()
    ensures
        failure_text_spec(SetupStep::CreateSocket) == "Failed to create socket"@,
        failure_text_spec(SetupStep::ReuseAddress) == "Failed to set SO_REUSEADDR"@,
        failure_text_spec(SetupStep::ReusePort) == "Failed to set SO_REUSEPORT, continuing anyway"@,
        failure_text_spec(SetupStep::Bind) == "Failed to bind multicast socket to 0.0.0.0:55301"@,
        failure_text_spec(SetupStep::NonBlocking) == "Failed to set non-blocking"@,
        failure_text_spec(SetupStep::Register) == "Failed to convert to tokio socket"@,
        failure_text_spec(SetupStep::Broadcast) == "Failed to set broadcast"@,
{
}

} // verus!
