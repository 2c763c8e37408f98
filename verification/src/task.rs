//! What a worker is made of: channels, and tasks that read from and write to them.

use crate::address::components;
use crate::keys::{PublicKey, WorkerId};
use crate::receiver::ReconfigureNotification;
use core::time::Duration;
use multiaddr::Multiaddr;
use vstd::prelude::*;

verus! {

/// The capacity of each channel of the worker.
pub const CHANNEL_CAPACITY: usize = 1_000;

/// The channels of a worker, each named after the task that reads from it.
#[derive(Debug, Clone, Copy, PartialEq, Eq)]
pub enum Channel {
    /// To the primary connector: messages for the primary.
    Primary,
    /// To the synchronizer: messages of the primary.
    Synchronizer,
    /// To the batch maker: transactions of clients.
    BatchMaker,
    /// To the quorum waiter: batches of our own.
    QuorumWaiter,
    /// To the processor of our own batches: those that a quorum has acknowledged.
    ClientProcessor,
    /// To the helper: batch requests of other workers.
    WorkerHelper,
    /// To the helper: batch requests of clients.
    ClientHelper,
    /// To the processor of the batches of other workers.
    WorkerProcessor,
}

/// The gauges that measure how full the channels are.
#[derive(Debug, Clone, Copy, PartialEq, Eq)]
pub enum ChannelGauge {
    TxPrimary,
    TxSynchronizer,
    TxBatchMaker,
    TxQuorumWaiter,
    TxClientProcessor,
    TxWorkerHelper,
    TxClientHelper,
    TxWorkerProcessor,
}

impl ChannelGauge {
    /// The name of the gauge among the metrics of the channels.
    pub open spec fn text(self) -> Seq<char> {
        match self {
            ChannelGauge::TxPrimary => "tx_primary"@,
            ChannelGauge::TxSynchronizer => "tx_synchronizer"@,
            ChannelGauge::TxBatchMaker => "tx_batch_maker"@,
            ChannelGauge::TxQuorumWaiter => "tx_quorum_waiter"@,
            ChannelGauge::TxClientProcessor => "tx_client_processor"@,
            ChannelGauge::TxWorkerHelper => "tx_worker_helper"@,
            ChannelGauge::TxClientHelper => "tx_client_helper"@,
            ChannelGauge::TxWorkerProcessor => "tx_worker_processor"@,
        }
    }

    /// The name of the gauge among the metrics of the channels.
    pub fn name(self) -> (name: &'static str)
        ensures
            name@ == self.text(),
    {
        match self {
            ChannelGauge::TxPrimary => "tx_primary",
            ChannelGauge::TxSynchronizer => "tx_synchronizer",
            ChannelGauge::TxBatchMaker => "tx_batch_maker",
            ChannelGauge::TxQuorumWaiter => "tx_quorum_waiter",
            ChannelGauge::TxClientProcessor => "tx_client_processor",
            ChannelGauge::TxWorkerHelper => "tx_worker_helper",
            ChannelGauge::TxClientHelper => "tx_client_helper",
            ChannelGauge::TxWorkerProcessor => "tx_worker_processor",
        }
    }
}

/// The gauge of a channel: the one of its own name.
pub open spec fn gauge_of(channel: Channel) -> ChannelGauge {
    match channel {
        Channel::Primary => ChannelGauge::TxPrimary,
        Channel::Synchronizer => ChannelGauge::TxSynchronizer,
        Channel::BatchMaker => ChannelGauge::TxBatchMaker,
        Channel::QuorumWaiter => ChannelGauge::TxQuorumWaiter,
        Channel::ClientProcessor => ChannelGauge::TxClientProcessor,
        Channel::WorkerHelper => ChannelGauge::TxWorkerHelper,
        Channel::ClientHelper => ChannelGauge::TxClientHelper,
        Channel::WorkerProcessor => ChannelGauge::TxWorkerProcessor,
    }
}

impl Channel {
    /// The gauge of the channel.
    pub fn gauge(self) -> (gauge: ChannelGauge)
        ensures
            gauge == gauge_of(self),
    {
        match self {
            Channel::Primary => ChannelGauge::TxPrimary,
            Channel::Synchronizer => ChannelGauge::TxSynchronizer,
            Channel::BatchMaker => ChannelGauge::TxBatchMaker,
            Channel::QuorumWaiter => ChannelGauge::TxQuorumWaiter,
            Channel::ClientProcessor => ChannelGauge::TxClientProcessor,
            Channel::WorkerHelper => ChannelGauge::TxWorkerHelper,
            Channel::ClientHelper => ChannelGauge::TxClientHelper,
            Channel::WorkerProcessor => ChannelGauge::TxWorkerProcessor,
        }
    }
}

/// A channel to make: how much it holds, and the gauge that measures how full it is.
#[derive(Debug, Clone, Copy, PartialEq, Eq)]
pub struct BoundedChannel {
    pub channel: Channel,
    pub capacity: usize,
    pub gauge: ChannelGauge,
}

/// The channel to make for a purpose.
pub open spec fn bounded(channel: Channel) -> BoundedChannel {
    BoundedChannel { channel, capacity: CHANNEL_CAPACITY, gauge: gauge_of(channel) }
}

impl BoundedChannel {
    /// The channel to make for a purpose: all have the same capacity, and each has its own
    /// gauge.
    pub fn new(channel: Channel) -> (made: BoundedChannel)
        ensures
            made == bounded(channel),
            made.channel == channel,
            made.capacity == 1_000,
    {
        BoundedChannel { channel, capacity: CHANNEL_CAPACITY, gauge: channel.gauge() }
    }
}

/// Every gauge is known by the name of its channel.
pub proof fn law_gauges_are_known_by_name(channel: Channel, gauge: ChannelGauge, name: &str)
    requires
        call_ensures(Channel::gauge, (channel,), gauge),
        call_ensures(ChannelGauge::name, (gauge,), name),
    ensures
        name@ == match channel {
            Channel::Primary => "tx_primary"@,
            Channel::Synchronizer => "tx_synchronizer"@,
            Channel::BatchMaker => "tx_batch_maker"@,
            Channel::QuorumWaiter => "tx_quorum_waiter"@,
            Channel::ClientProcessor => "tx_client_processor"@,
            Channel::WorkerHelper => "tx_worker_helper"@,
            Channel::ClientHelper => "tx_client_helper"@,
            Channel::WorkerProcessor => "tx_worker_processor"@,
        },
{
}

/// A channel to make is the one that was asked for, holds a thousand messages, and is measured
/// by the gauge whose name is `tx_` and the name of the channel.
pub proof fn law_channels_are_made_as_named(channel: Channel)
    ensures
        bounded(channel).channel == channel,
        bounded(channel).capacity == 1_000,
        match channel {
            Channel::Primary => bounded(channel).gauge == ChannelGauge::TxPrimary
                && bounded(channel).gauge.text() == "tx_primary"@,
            Channel::Synchronizer => bounded(channel).gauge == ChannelGauge::TxSynchronizer
                && bounded(channel).gauge.text() == "tx_synchronizer"@,
            Channel::BatchMaker => bounded(channel).gauge == ChannelGauge::TxBatchMaker
                && bounded(channel).gauge.text() == "tx_batch_maker"@,
            Channel::QuorumWaiter => bounded(channel).gauge == ChannelGauge::TxQuorumWaiter
                && bounded(channel).gauge.text() == "tx_quorum_waiter"@,
            Channel::ClientProcessor => bounded(channel).gauge == ChannelGauge::TxClientProcessor
                && bounded(channel).gauge.text() == "tx_client_processor"@,
            Channel::WorkerHelper => bounded(channel).gauge == ChannelGauge::TxWorkerHelper
                && bounded(channel).gauge.text() == "tx_worker_helper"@,
            Channel::ClientHelper => bounded(channel).gauge == ChannelGauge::TxClientHelper
                && bounded(channel).gauge.text() == "tx_client_helper"@,
            Channel::WorkerProcessor => bounded(channel).gauge == ChannelGauge::TxWorkerProcessor
                && bounded(channel).gauge.text() == "tx_worker_processor"@,
        },
{
}

/// The end of the reconfiguration channel that a task holds.
#[derive(Debug, Clone, Copy, PartialEq, Eq)]
pub enum ReconfigureEnd {
    /// It announces reconfigurations.
    Sender,
    /// It is told of reconfigurations, by the receiver that was made with the channel.
    FirstReceiver,
    /// It is told of reconfigurations, by a receiver that is made when the task is spawned.
    Subscriber,
}

/// In which form a task gets the committee.
#[derive(Debug, Clone, Copy, PartialEq, Eq)]
pub enum CommitteeUse {
    /// It gets none.
    Unused,
    /// The committee with which the worker began to boot, which is also the first value of
    /// the reconfiguration channel.
    Initial,
    /// The committee as it is when the task is spawned.
    Current,
    /// The committee that is shared with the rest of the node, and changes with it.
    Shared,
}

/// The networks whose traffic is measured apart.
#[derive(Debug, Clone, Copy, PartialEq, Eq)]
pub enum NetworkLabel {
    Synchronizer,
    QuorumWaiter,
    WorkerHelper,
}

impl NetworkLabel {
    /// The label in the metrics.
    pub open spec fn text(self) -> Seq<char> {
        match self {
            NetworkLabel::Synchronizer => "synchronizer"@,
            NetworkLabel::QuorumWaiter => "quorum_waiter"@,
            NetworkLabel::WorkerHelper => "worker_helper"@,
        }
    }

    /// The label in the metrics.
    pub fn name(self) -> (name: &'static str)
        ensures
            name@ == self.text(),
    {
        match self {
            NetworkLabel::Synchronizer => "synchronizer",
            NetworkLabel::QuorumWaiter => "quorum_waiter",
            NetworkLabel::WorkerHelper => "worker_helper",
        }
    }
}

/// Every network is labelled with the name of the task that uses it.
pub proof fn law_networks_are_labelled_by_their_tasks(label: NetworkLabel, name: &str)
    requires
        call_ensures(NetworkLabel::name, (label,), name),
    ensures
        label is Synchronizer ==> name@ == "synchronizer"@,
        label is QuorumWaiter ==> name@ == "quorum_waiter"@,
        label is WorkerHelper ==> name@ == "worker_helper"@,
{
}

/// What a task shares with the rest of the node.
#[derive(Debug, Clone, Copy, PartialEq, Eq)]
pub struct Resources {
    pub committee: CommitteeUse,
    /// Whether it gets the shared worker cache.
    pub worker_cache: bool,
    /// Whether it gets the store of batches.
    pub store: bool,
    /// Whether it gets the metrics of the worker.
    pub node_metrics: bool,
    /// Whether it gets the metrics of the endpoint.
    pub endpoint_metrics: bool,
    /// The network that it gets, if any.
    pub network: Option<NetworkLabel>,
}

/// A task that shares nothing with the rest of the node.
pub open spec fn no_resources() -> Resources {
    Resources {
        committee: CommitteeUse::Unused,
        worker_cache: false,
        store: false,
        node_metrics: false,
        endpoint_metrics: false,
        network: None,
    }
}

impl Resources {
    /// A task that shares nothing with the rest of the node.
    pub fn none() -> (resources: Resources)
        ensures
            resources == no_resources(),
    {
        Resources {
            committee: CommitteeUse::Unused,
            worker_cache: false,
            store: false,
            node_metrics: false,
            endpoint_metrics: false,
            network: None,
        }
    }
}

/// How a listener is set up.
#[derive(Debug, PartialEq, Eq)]
pub struct Server {
    /// The address on which it listens.
    pub address: Multiaddr,
    /// How many requests of one connection it handles at a time, where that is not left to
    /// the default of the network.
    pub concurrency_limit_per_connection: Option<usize>,
}

/// A `Server`, its address by its components.
pub struct ServerView {
    pub address: Seq<Seq<u8>>,
    pub concurrency_limit_per_connection: Option<usize>,
}

impl View for Server {
    type V = ServerView;

    open spec fn view(&self) -> ServerView {
        ServerView {
            address: components(self.address),
            concurrency_limit_per_connection: self.concurrency_limit_per_connection,
        }
    }
}

/// What a task does.
#[derive(Debug, PartialEq, Eq)]
pub enum Component {
    /// Sends messages to the primary.
    PrimaryConnector { primary_name: PublicKey },
    /// Keeps the worker in sync with the others, on the orders of the primary.
    Synchronizer {
        primary_name: PublicKey,
        id: WorkerId,
        gc_depth: u64,
        sync_retry_delay: Duration,
        sync_retry_nodes: usize,
    },
    /// Listens to the primary.
    PrimaryReceiver(Server),
    /// Assembles transactions into batches.
    BatchMaker { batch_size: usize, max_batch_delay: Duration },
    /// Waits until a quorum has acknowledged a batch.
    QuorumWaiter { primary_name: PublicKey, id: WorkerId },
    /// Hashes and stores batches, our own or those of other workers.
    Processor { id: WorkerId, own_batch: bool },
    /// Listens to clients.
    TxReceiver(Server),
    /// Answers batch requests.
    Helper { id: WorkerId },
    /// Listens to other workers.
    WorkerReceiver(Server),
}

/// A `Component`, its keys by their bytes and its server by its view.
pub enum ComponentView {
    PrimaryConnector { primary_name: Seq<u8> },
    Synchronizer {
        primary_name: Seq<u8>,
        id: WorkerId,
        gc_depth: u64,
        sync_retry_delay: Duration,
        sync_retry_nodes: usize,
    },
    PrimaryReceiver(ServerView),
    BatchMaker { batch_size: usize, max_batch_delay: Duration },
    QuorumWaiter { primary_name: Seq<u8>, id: WorkerId },
    Processor { id: WorkerId, own_batch: bool },
    TxReceiver(ServerView),
    Helper { id: WorkerId },
    WorkerReceiver(ServerView),
}

impl View for Component {
    type V = ComponentView;

    open spec fn view(&self) -> ComponentView {
        match self {
            Component::PrimaryConnector { primary_name } => ComponentView::PrimaryConnector {
                primary_name: primary_name@,
            },
            Component::Synchronizer {
                primary_name,
                id,
                gc_depth,
                sync_retry_delay,
                sync_retry_nodes,
            } => ComponentView::Synchronizer {
                primary_name: primary_name@,
                id: *id,
                gc_depth: *gc_depth,
                sync_retry_delay: *sync_retry_delay,
                sync_retry_nodes: *sync_retry_nodes,
            },
            Component::PrimaryReceiver(server) => ComponentView::PrimaryReceiver(server@),
            Component::BatchMaker { batch_size, max_batch_delay } => ComponentView::BatchMaker {
                batch_size: *batch_size,
                max_batch_delay: *max_batch_delay,
            },
            Component::QuorumWaiter { primary_name, id } => ComponentView::QuorumWaiter {
                primary_name: primary_name@,
                id: *id,
            },
            Component::Processor { id, own_batch } => ComponentView::Processor {
                id: *id,
                own_batch: *own_batch,
            },
            Component::TxReceiver(server) => ComponentView::TxReceiver(server@),
            Component::Helper { id } => ComponentView::Helper { id: *id },
            Component::WorkerReceiver(server) => ComponentView::WorkerReceiver(server@),
        }
    }
}

/// A task to spawn.
#[derive(Debug, PartialEq, Eq)]
pub struct Task {
    pub component: Component,
    /// The channels that it reads from.
    pub inputs: Vec<Channel>,
    /// The channels that it writes to.
    pub outputs: Vec<Channel>,
    pub reconfigure: ReconfigureEnd,
    pub resources: Resources,
}

/// A `Task`, its component by its view and its channels as sequences.
pub struct TaskView {
    pub component: ComponentView,
    pub inputs: Seq<Channel>,
    pub outputs: Seq<Channel>,
    pub reconfigure: ReconfigureEnd,
    pub resources: Resources,
}

impl View for Task {
    type V = TaskView;

    open spec fn view(&self) -> TaskView {
        TaskView {
            component: self.component@,
            inputs: self.inputs@,
            outputs: self.outputs@,
            reconfigure: self.reconfigure,
            resources: self.resources,
        }
    }
}

/// Tasks by their views.
pub open spec fn task_views(tasks: Seq<Task>) -> Seq<TaskView> {
    tasks.map_values(|task: Task| task@)
}

/// A part of the worker to set up: the channels to make, the tasks to spawn, in that order,
/// and, of the handles of the tasks, which one to return at which place, each by the
/// position of its task.
#[derive(Debug, PartialEq, Eq)]
pub struct Flow {
    pub channels: Vec<BoundedChannel>,
    pub tasks: Vec<Task>,
    pub handles: Vec<usize>,
}

/// A `Flow`, its tasks by their views.
pub struct FlowView {
    pub channels: Seq<BoundedChannel>,
    pub tasks: Seq<TaskView>,
    pub handles: Seq<int>,
}

/// Positions as integers.
pub open spec fn positions(handles: Seq<usize>) -> Seq<int> {
    handles.map_values(|handle: usize| handle as int)
}

/// What a reconfiguration channel announces: a notification, and the committee that goes
/// with it.
#[derive(Debug, Clone, Copy, PartialEq, Eq)]
pub struct Announcement {
    pub notification: ReconfigureNotification,
    pub committee: CommitteeUse,
}

/// A whole worker to set up: the first value of its reconfiguration channel, which is made
/// before any task is spawned, and its channels and tasks.
#[derive(Debug, PartialEq, Eq)]
pub struct Boot {
    pub first: Announcement,
    pub flow: Flow,
}

/// A `Boot`, its flow by its view.
pub struct BootView {
    pub first: Announcement,
    pub flow: FlowView,
}

impl View for Boot {
    type V = BootView;

    open spec fn view(&self) -> BootView {
        BootView { first: self.first, flow: self.flow@ }
    }
}

impl Flow {
    /// Every handle is that of a task.
    pub open spec fn well_formed(self) -> bool {
        forall|i: int|
            0 <= i < self.handles@.len() ==> #[trigger] self.handles@[i] < self.tasks@.len()
    }
}

impl View for Flow {
    type V = FlowView;

    open spec fn view(&self) -> FlowView {
        FlowView {
            channels: self.channels@,
            tasks: task_views(self.tasks@),
            handles: positions(self.handles@),
        }
    }
}

} // verus!
