//! The link itself: its medium, how it is built, and where a read or a
//! write goes.
//!
//! A link is built by a fixed sequence of operations on a socket or on a
//! serial device. The library names each operation with its parameters and
//! keeps count of those that were accepted; the caller performs them and
//! reports back. Only a link whose every operation was accepted is ready,
//! and only a ready link sends a read or a write to a transport.

use crate::config::LinkConfig;
use crate::port::{line_settings, port_settings, PortSettings, PORT_TIMEOUT_MS};
use vstd::prelude::*;

verus! {

/// The medium of a link.
#[derive(Clone, Copy, Debug, PartialEq, Eq, Structural)]
pub enum LinkCommType {
    Serial,
    Udp,
}

/// What can go wrong with a link, apart from the errors of a read or a
/// write on its transport, which reach the caller as they are.
#[derive(Clone, Copy, Debug, PartialEq, Eq, Structural)]
pub enum LinkError {
    /// The serial device did not take the line settings or the timeout.
    ConfigInvalid,
    /// The serial device could not be opened.
    DeviceOpenFailed,
    /// The socket could not be bound, connected or given its timeouts.
    SocketFailed,
    /// A read or a write was asked of a link that was never completed.
    NotInitialized,
}

impl LinkError {
    /// What the `NotInitialized` condition says of a link on `medium`.
    pub open spec fn spec_not_initialized_text(medium: LinkCommType) -> Seq<char> {
        match medium {
            LinkCommType::Serial => "Port not initialized"@,
            LinkCommType::Udp => "Tx socket not initialized"@,
        }
    }

    /// What the `NotInitialized` condition says of a link on `medium`.
    pub fn not_initialized_text(medium: LinkCommType) -> (text: &'static str)
        ensures
            text@ == LinkError::spec_not_initialized_text(medium),
    {
        match medium {
            LinkCommType::Serial => "Port not initialized",
            LinkCommType::Udp => "Tx socket not initialized",
        }
    }
}

/// Timeout of every receive and send on the socket, in nanoseconds.
pub const SOCKET_TIMEOUT_NS: u32 = 1_000_000;

/// One operation of the construction of a link, with its parameters.
#[derive(Debug, PartialEq, Eq)]
pub enum SetupAction {
    /// Bind a UDP socket to the wildcard address on `port`.
    BindWildcard { port: u16 },
    /// Connect the socket to the peer `remote`, written `address:port`.
    Connect { remote: String },
    /// Set the socket's read timeout.
    SetReadTimeout { nanos: u32 },
    /// Set the socket's write timeout.
    SetWriteTimeout { nanos: u32 },
    /// Open the serial device at `path`.
    OpenDevice { path: String },
    /// Write the line settings to the serial device.
    ConfigureDevice { settings: PortSettings },
    /// Set the timeout of reads and writes on the serial device.
    SetDeviceTimeout { millis: u64 },
}

/// A `SetupAction` as a mathematical value.
pub ghost enum ActionModel {
    BindWildcard { port: u16 },
    Connect { remote: Seq<char> },
    SetReadTimeout { nanos: u32 },
    SetWriteTimeout { nanos: u32 },
    OpenDevice { path: Seq<char> },
    ConfigureDevice { settings: PortSettings },
    SetDeviceTimeout { millis: u64 },
}

impl View for SetupAction {
    type V = ActionModel;

    open spec fn view(&self) -> ActionModel {
        match *self {
            SetupAction::BindWildcard { port } => ActionModel::BindWildcard { port },
            SetupAction::Connect { remote } => ActionModel::Connect { remote: remote@ },
            SetupAction::SetReadTimeout { nanos } => ActionModel::SetReadTimeout { nanos },
            SetupAction::SetWriteTimeout { nanos } => ActionModel::SetWriteTimeout { nanos },
            SetupAction::OpenDevice { path } => ActionModel::OpenDevice { path: path@ },
            SetupAction::ConfigureDevice { settings } => ActionModel::ConfigureDevice { settings },
            SetupAction::SetDeviceTimeout { millis } => ActionModel::SetDeviceTimeout { millis },
        }
    }
}

impl ActionModel {
    /// The error that a link ends with when this operation is rejected.
    pub open spec fn failure(self) -> LinkError {
        match self {
            ActionModel::BindWildcard { .. } => LinkError::SocketFailed,
            ActionModel::Connect { .. } => LinkError::SocketFailed,
            ActionModel::SetReadTimeout { .. } => LinkError::SocketFailed,
            ActionModel::SetWriteTimeout { .. } => LinkError::SocketFailed,
            ActionModel::OpenDevice { .. } => LinkError::DeviceOpenFailed,
            ActionModel::ConfigureDevice { .. } => LinkError::ConfigInvalid,
            ActionModel::SetDeviceTimeout { .. } => LinkError::ConfigInvalid,
        }
    }
}

/// The transport of a link and the parameters it is built with: exactly one
/// of the two media.
pub ghost enum PlanModel {
    Udp { local_port: u16, remote: Seq<char> },
    Serial { path: Seq<char>, settings: PortSettings },
}

impl PlanModel {
    /// The transport that `config` describes.
    pub open spec fn of(config: &LinkConfig) -> PlanModel {
        if config.udp {
            PlanModel::Udp { local_port: config.udp_port, remote: config.spec_remote_endpoint() }
        } else {
            PlanModel::Serial { path: config.port@, settings: line_settings(config.baudrate) }
        }
    }

    pub open spec fn medium(self) -> LinkCommType {
        match self {
            PlanModel::Udp { .. } => LinkCommType::Udp,
            PlanModel::Serial { .. } => LinkCommType::Serial,
        }
    }

    /// The operations that build the transport, in the order in which they
    /// are performed.
    pub open spec fn steps(self) -> Seq<ActionModel> {
        match self {
            PlanModel::Udp { local_port, remote } => seq![
                ActionModel::BindWildcard { port: local_port },
                ActionModel::Connect { remote },
                ActionModel::SetReadTimeout { nanos: SOCKET_TIMEOUT_NS },
                ActionModel::SetWriteTimeout { nanos: SOCKET_TIMEOUT_NS },
            ],
            PlanModel::Serial { path, settings } => seq![
                ActionModel::OpenDevice { path },
                ActionModel::ConfigureDevice { settings },
                ActionModel::SetDeviceTimeout { millis: PORT_TIMEOUT_MS },
            ],
        }
    }
}

/// A primitive of a transport.
#[derive(Clone, Copy, Debug, PartialEq, Eq, Structural)]
pub enum IoPrimitive {
    /// A write on the serial device, bounded by the device's timeout.
    PortWrite,
    /// A read on the serial device, bounded by the device's timeout.
    PortRead,
    /// A send on the connected socket.
    SocketSend,
    /// A receive on the connected socket.
    SocketRecv,
}

/// A link as a mathematical value: what it is built from, how many of its
/// operations were accepted, and the error it ended with if one was
/// rejected.
pub ghost struct LinkModel {
    pub plan: PlanModel,
    pub done: nat,
    pub failure: Option<LinkError>,
}

impl LinkModel {
    /// A link on which no operation has been performed yet.
    pub open spec fn start(config: &LinkConfig) -> LinkModel {
        LinkModel { plan: PlanModel::of(config), done: 0, failure: None }
    }

    /// The count never passes the number of operations, and a link that
    /// failed stopped short of its last operation, with that operation's
    /// error.
    pub open spec fn wf(self) -> bool {
        &&& self.done <= self.plan.steps().len()
        &&& self.failure matches Some(e) ==> self.done < self.plan.steps().len()
            && e == self.plan.steps()[self.done as int].failure()
    }

    pub open spec fn medium(self) -> LinkCommType {
        self.plan.medium()
    }

    /// Every operation was accepted.
    pub open spec fn ready(self) -> bool {
        self.failure is None && self.done == self.plan.steps().len()
    }

    /// An operation is still to be performed.
    pub open spec fn pending(self) -> bool {
        self.failure is None && self.done < self.plan.steps().len()
    }

    /// The operation to perform next, if there is one.
    pub open spec fn next(self) -> Option<ActionModel> {
        if self.pending() {
            Some(self.plan.steps()[self.done as int])
        } else {
            None
        }
    }

    /// The link after the caller has reported on the operation that was
    /// next: one step further if it was accepted, failed with that
    /// operation's error if not. A link that is ready or has failed stays
    /// as it is.
    pub open spec fn advance(self, accepted: bool) -> LinkModel {
        if !self.pending() {
            self
        } else if accepted {
            LinkModel { done: self.done + 1, ..self }
        } else {
            LinkModel { failure: Some(self.plan.steps()[self.done as int].failure()), ..self }
        }
    }

    /// The link after a sequence of reports, taken in order.
    pub open spec fn run(self, reports: Seq<bool>) -> LinkModel
        decreases reports.len(),
    {
        if reports.len() == 0 {
            self
        } else {
            self.advance(reports[0]).run(reports.skip(1))
        }
    }

    /// Where a write goes.
    pub open spec fn write_target(self) -> Result<IoPrimitive, LinkError> {
        if !self.ready() {
            Err(LinkError::NotInitialized)
        } else {
            match self.medium() {
                LinkCommType::Serial => Ok(IoPrimitive::PortWrite),
                LinkCommType::Udp => Ok(IoPrimitive::SocketSend),
            }
        }
    }

    /// Where a read goes.
    pub open spec fn read_target(self) -> Result<IoPrimitive, LinkError> {
        if !self.ready() {
            Err(LinkError::NotInitialized)
        } else {
            match self.medium() {
                LinkCommType::Serial => Ok(IoPrimitive::PortRead),
                LinkCommType::Udp => Ok(IoPrimitive::SocketRecv),
            }
        }
    }
}

/// Reports on a link never change what it is built from nor break its
/// validity; a link that is not pending ignores them; and a pending link
/// whose next report accepts takes the rest of the reports one step further.
proof fn lemma_run_unfolds(m: LinkModel, reports: Seq<bool>)
    requires
        m.wf(),
    ensures
        m.run(reports).wf(),
        m.run(reports).plan == m.plan,
        !m.pending() ==> m.run(reports) == m,
        m.pending() && reports.len() > 0 ==> m.run(reports) == m.advance(reports[0]).run(
            reports.skip(1),
        ),
    decreases reports.len(),
{
    if reports.len() > 0 {
        lemma_run_unfolds(m.advance(reports[0]), reports.skip(1));
    }
}

/// The state of a valid link after a sequence of reports: it is ready
/// exactly when it had not failed and the reports accept every operation
/// that was still to be performed.
proof fn lemma_run_ready(m: LinkModel, reports: Seq<bool>)
    requires
        m.wf(),
    ensures
        m.run(reports).ready() <==> m.failure is None && reports.len() >= m.plan.steps().len()
            - m.done && forall|i: int| 0 <= i < m.plan.steps().len() - m.done ==> reports[i],
    decreases reports.len(),
{
    lemma_run_unfolds(m, reports);
    if m.pending() && reports.len() > 0 {
        let rest = reports.skip(1);
        let next = m.advance(reports[0]);
        let left = m.plan.steps().len() - m.done;
        lemma_run_ready(next, rest);
        if reports[0] {
            if rest.len() >= left - 1 && forall|j: int| 0 <= j < left - 1 ==> rest[j] {
                assert forall|i: int| 0 <= i < left implies reports[i] by {
                    if i > 0 {
                        assert(rest[i - 1] == reports[i]);
                    }
                }
            }
            if reports.len() >= left && forall|i: int| 0 <= i < left ==> reports[i] {
                assert forall|j: int| 0 <= j < left - 1 implies rest[j] by {
                    assert(rest[j] == reports[j + 1]);
                }
            }
        }
    }
}

/// The state of a valid link after a sequence of reports of which the
/// first `k` accept and the next one rejects, with at least `k + 1`
/// operations still to be performed.
proof fn lemma_run_rejected(m: LinkModel, reports: Seq<bool>, k: int)
    requires
        m.wf(),
        m.failure is None,
        0 <= k < reports.len(),
        m.done + k < m.plan.steps().len(),
        forall|i: int| 0 <= i < k ==> reports[i],
        !reports[k],
    ensures
        m.run(reports).done == m.done + k,
        m.run(reports).failure == Some(m.plan.steps()[m.done + k].failure()),
    decreases k,
{
    lemma_run_unfolds(m, reports);
    let next = m.advance(reports[0]);
    let rest = reports.skip(1);
    if k == 0 {
        lemma_run_unfolds(next, rest);
    } else {
        assert(reports[0]);
        assert forall|i: int| 0 <= i < k - 1 implies rest[i] by {
            assert(rest[i] == reports[i + 1]);
        }
        assert(rest[k - 1] == reports[k]);
        lemma_run_rejected(next, rest, k - 1);
    }
}

/// Construction is all or nothing: after any sequence of reports, a link
/// started from `config` is ready exactly when the reports cover every
/// operation of its medium and accept each of them.
pub proof fn lemma_ready_iff_all_accepted(config: &LinkConfig, reports: Seq<bool>)
    ensures
        LinkModel::start(config).run(reports).ready() <==> reports.len() >= PlanModel::of(
            config,
        ).steps().len() && forall|i: int|
            0 <= i < PlanModel::of(config).steps().len() ==> reports[i],
{
    lemma_run_ready(LinkModel::start(config), reports);
}

/// The first rejection decides: where the reports accept the first `k`
/// operations of a link started from `config` and reject the next, the
/// link has failed with the error of that operation, whatever is reported
/// afterwards, and is not ready.
pub proof fn lemma_first_rejection_fails(config: &LinkConfig, reports: Seq<bool>, k: int)
    requires
        0 <= k < reports.len(),
        k < PlanModel::of(config).steps().len(),
        forall|i: int| 0 <= i < k ==> reports[i],
        !reports[k],
    ensures
        LinkModel::start(config).run(reports).failure == Some(
            PlanModel::of(config).steps()[k].failure(),
        ),
        LinkModel::start(config).run(reports).done == k,
        !LinkModel::start(config).run(reports).ready(),
{
    lemma_run_rejected(LinkModel::start(config), reports, k);
}

/// A link serves one medium from start to end: no report changes the
/// medium that the configuration selected, and once the link is ready a
/// write and a read go to the two primitives of that medium.
pub proof fn lemma_one_medium(config: &LinkConfig, reports: Seq<bool>)
    ensures
        ({
            let link = LinkModel::start(config).run(reports);
            &&& link.medium() == config.spec_medium()
            &&& link.ready() && config.udp ==> link.write_target() == Ok::<
                IoPrimitive,
                LinkError,
            >(IoPrimitive::SocketSend) && link.read_target() == Ok::<IoPrimitive, LinkError>(
                IoPrimitive::SocketRecv,
            )
            &&& link.ready() && !config.udp ==> link.write_target() == Ok::<
                IoPrimitive,
                LinkError,
            >(IoPrimitive::PortWrite) && link.read_target() == Ok::<IoPrimitive, LinkError>(
                IoPrimitive::PortRead,
            )
        }),
{
    lemma_run_unfolds(LinkModel::start(config), reports);
}

/// No read and no write reaches a transport before the link is ready: both
/// meet the `NotInitialized` condition, whatever was reported so far.
pub proof fn lemma_not_initialized_until_ready(config: &LinkConfig, reports: Seq<bool>)
    requires
        !LinkModel::start(config).run(reports).ready(),
    ensures
        LinkModel::start(config).run(reports).write_target() == Err::<IoPrimitive, LinkError>(
            LinkError::NotInitialized,
        ),
        LinkModel::start(config).run(reports).read_target() == Err::<IoPrimitive, LinkError>(
            LinkError::NotInitialized,
        ),
{
}

/// The transport of a link with its parameters.
enum TransportPlan {
    Udp { local_port: u16, remote: String },
    Serial { path: String, settings: PortSettings },
}

impl View for TransportPlan {
    type V = PlanModel;

    closed spec fn view(&self) -> PlanModel {
        match *self {
            TransportPlan::Udp { local_port, remote } => PlanModel::Udp {
                local_port,
                remote: remote@,
            },
            TransportPlan::Serial { path, settings } => PlanModel::Serial { path: path@, settings },
        }
    }
}

/// A link over a serial device or a UDP socket.
pub struct LinkComm {
    plan: TransportPlan,
    done: usize,
    failure: Option<LinkError>,
}

impl View for LinkComm {
    type V = LinkModel;

    closed spec fn view(&self) -> LinkModel {
        LinkModel { plan: self.plan@, done: self.done as nat, failure: self.failure }
    }
}

impl LinkComm {
    #[verifier::type_invariant]
    spec fn inv(&self) -> bool {
        self@.wf()
    }

    /// Starts a link on the medium that `config` selects. Nothing has been
    /// performed yet: the link becomes ready when the caller has performed
    /// every operation that `next_action` names and each was accepted.
    pub fn new(config: &LinkConfig) -> (com: LinkComm)
        ensures
            com@ == LinkModel::start(config),
            com@.wf(),
    {
        let plan = if config.udp {
            TransportPlan::Udp { local_port: config.udp_port, remote: config.remote_endpoint() }
        } else {
            TransportPlan::Serial {
                path: config.port.clone(),
                settings: port_settings(config.baudrate),
            }
        };
        LinkComm { plan, done: 0, failure: None }
    }

    /// The medium of this link.
    pub fn com_type(&self) -> (medium: LinkCommType)
        ensures
            medium == self@.medium(),
    {
        match self.plan {
            TransportPlan::Udp { .. } => LinkCommType::Udp,
            TransportPlan::Serial { .. } => LinkCommType::Serial,
        }
    }

    /// The number of operations that build this link.
    fn step_count(&self) -> (n: usize)
        ensures
            n == self@.plan.steps().len(),
    {
        match self.plan {
            TransportPlan::Udp { .. } => 4,
            TransportPlan::Serial { .. } => 3,
        }
    }

    /// Whether every operation was accepted.
    pub fn is_ready(&self) -> (ready: bool)
        ensures
            ready == self@.ready(),
            self@.wf(),
    {
        proof {
            use_type_invariant(self);
        }
        self.failure.is_none() && self.done == self.step_count()
    }

    /// The error that the construction ended with, if it failed.
    pub fn failure(&self) -> (failure: Option<LinkError>)
        ensures
            failure == self@.failure,
    {
        self.failure
    }

    /// The operation that the caller is to perform next; `None` when the
    /// link is ready or has failed.
    pub fn next_action(&self) -> (action: Option<SetupAction>)
        ensures
            match action {
                Some(a) => self@.next() == Some(a@),
                None => self@.next() is None,
            },
    {
        proof {
            use_type_invariant(self);
        }
        if self.failure.is_some() {
            return None;
        }
        match &self.plan {
            TransportPlan::Udp { local_port, remote } => {
                if self.done == 0 {
                    Some(SetupAction::BindWildcard { port: *local_port })
                } else if self.done == 1 {
                    Some(SetupAction::Connect { remote: remote.clone() })
                } else if self.done == 2 {
                    Some(SetupAction::SetReadTimeout { nanos: SOCKET_TIMEOUT_NS })
                } else if self.done == 3 {
                    Some(SetupAction::SetWriteTimeout { nanos: SOCKET_TIMEOUT_NS })
                } else {
                    None
                }
            },
            TransportPlan::Serial { path, settings } => {
                if self.done == 0 {
                    Some(SetupAction::OpenDevice { path: path.clone() })
                } else if self.done == 1 {
                    Some(SetupAction::ConfigureDevice { settings: *settings })
                } else if self.done == 2 {
                    Some(SetupAction::SetDeviceTimeout { millis: PORT_TIMEOUT_MS })
                } else {
                    None
                }
            },
        }
    }

    /// Takes the caller's report on the operation that `next_action` named:
    /// `accepted` is whether the device or the socket took it. A link that
    /// is ready or has failed is left as it is.
    pub fn advance(&mut self, accepted: bool)
        ensures
            final(self)@ == old(self)@.advance(accepted),
            final(self)@.wf(),
    {
        proof {
            use_type_invariant(&*self);
        }
        if self.failure.is_some() || self.done >= self.step_count() {
            return;
        }
        if accepted {
            self.done = self.done + 1;
        } else {
            let error = match &self.plan {
                TransportPlan::Udp { .. } => LinkError::SocketFailed,
                TransportPlan::Serial { .. } => {
                    if self.done == 0 {
                        LinkError::DeviceOpenFailed
                    } else {
                        LinkError::ConfigInvalid
                    }
                },
            };
            self.failure = Some(error);
        }
    }

    /// Decides where a write goes: to the send primitive of the link's
    /// transport if the link is ready, nowhere if it is not.
    pub fn com_write(&self) -> (target: Result<IoPrimitive, LinkError>)
        ensures
            target == self@.write_target(),
    {
        if !self.is_ready() {
            return Err(LinkError::NotInitialized);
        }
        match self.plan {
            TransportPlan::Serial { .. } => Ok(IoPrimitive::PortWrite),
            TransportPlan::Udp { .. } => Ok(IoPrimitive::SocketSend),
        }
    }

    /// Decides where a read goes: to the receive primitive of the link's
    /// transport if the link is ready, nowhere if it is not.
    pub fn com_read(&self) -> (target: Result<IoPrimitive, LinkError>)
        ensures
            target == self@.read_target(),
    {
        if !self.is_ready() {
            return Err(LinkError::NotInitialized);
        }
        match self.plan {
            TransportPlan::Serial { .. } => Ok(IoPrimitive::PortRead),
            TransportPlan::Udp { .. } => Ok(IoPrimitive::SocketRecv),
        }
    }
}

} // verus!
