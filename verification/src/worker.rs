//! How a worker boots: the channels that it makes and the tasks that it spawns.

use crate::address::{components, listen_address, on_all_interfaces};
use crate::cache::{WorkerCache, WorkerInfoView};
use crate::keys::{PublicKey, WorkerId};
use crate::primary_messages::{primary_receiver_task, PrimaryReceiverHandler};
use crate::receiver::ReconfigureNotification;
use crate::task::{
    bounded, no_resources, positions, Announcement, Boot, BootView, BoundedChannel, Channel,
    CommitteeUse, Component, ComponentView, Flow, FlowView, NetworkLabel, ReconfigureEnd, Resources,
    Task, TaskView,
};
use crate::transactions::{tx_receiver_task, TxReceiverHandler};
use crate::worker_messages::{worker_receiver_task, WorkerReceiverHandler};
use core::time::Duration;
use multiaddr::Multiaddr;
use vstd::prelude::*;

verus! {

/// The configuration of a worker.
#[derive(Debug, Clone, Copy, PartialEq, Eq)]
pub struct Parameters {
    /// How many rounds are kept before they are garbage collected.
    pub gc_depth: u64,
    /// The delay after which a synchronization request is sent again.
    pub sync_retry_delay: Duration,
    /// To how many nodes it is then sent.
    pub sync_retry_nodes: usize,
    /// The size at which a batch is sealed.
    pub batch_size: usize,
    /// The delay after which a batch is sealed, whatever its size.
    pub max_batch_delay: Duration,
    /// How many requests of one worker are handled at a time.
    pub max_concurrent_requests: usize,
}

/// Which metrics are registered.
#[derive(Debug, Clone, Copy, PartialEq, Eq)]
pub struct Metrics {
    pub worker_metrics: bool,
    pub channel_metrics: bool,
    pub endpoint_metrics: bool,
    pub network_metrics: bool,
}

impl Metrics {
    /// Whether all of them are.
    pub open spec fn complete(self) -> bool {
        self.worker_metrics && self.channel_metrics && self.endpoint_metrics
            && self.network_metrics
    }
}

/// The shared worker cache as a booting worker finds it, each time that it looks: the cache
/// can be replaced in between.
#[derive(Debug, PartialEq, Eq)]
pub struct CacheReads {
    /// When the tasks for clients are set up.
    pub clients: WorkerCache,
    /// When the tasks for other workers are set up.
    pub workers: WorkerCache,
    /// When the tasks for the primary are set up.
    pub primary: WorkerCache,
    /// When everything is set up.
    pub booted: WorkerCache,
}

/// A worker cache as a map.
pub type CacheView = Map<(Seq<u8>, WorkerId), WorkerInfoView>;

/// `CacheReads`, each cache as a map.
pub struct CacheReadsView {
    pub clients: CacheView,
    pub workers: CacheView,
    pub primary: CacheView,
    pub booted: CacheView,
}

impl View for CacheReads {
    type V = CacheReadsView;

    open spec fn view(&self) -> CacheReadsView {
        CacheReadsView {
            clients: self.clients@,
            workers: self.workers@,
            primary: self.primary@,
            booted: self.booted@,
        }
    }
}

/// Why a worker cannot boot.
#[derive(Debug, Clone, Copy, PartialEq, Eq)]
pub enum SpawnError {
    /// Some metrics are not registered.
    MissingMetrics,
    /// Our public key or worker id is not in the worker cache.
    NotInWorkerCache,
    /// The address on which to listen has no component to replace.
    EmptyAddress,
}

/// A worker.
#[derive(Debug, PartialEq, Eq)]
pub struct Worker {
    /// The public key of this authority.
    pub primary_name: PublicKey,
    /// The id of this worker, used for index-based lookup by other nodes.
    pub id: WorkerId,
    /// The configuration.
    pub parameters: Parameters,
}

/// A `Worker`, its key by its bytes.
pub struct WorkerView {
    pub primary_name: Seq<u8>,
    pub id: WorkerId,
    pub parameters: Parameters,
}

impl View for Worker {
    type V = WorkerView;

    open spec fn view(&self) -> WorkerView {
        WorkerView {
            primary_name: self.primary_name@,
            id: self.id,
            parameters: self.parameters,
        }
    }
}

impl WorkerView {
    /// Under which key the worker stands in a worker cache.
    pub open spec fn key(self) -> (Seq<u8>, WorkerId) {
        (self.primary_name, self.id)
    }
}

/// The `BatchMaker` assembles transactions into batches, which it hands to the
/// `QuorumWaiter`.
pub open spec fn batch_maker_task(worker: WorkerView) -> TaskView {
    TaskView {
        component: ComponentView::BatchMaker {
            batch_size: worker.parameters.batch_size,
            max_batch_delay: worker.parameters.max_batch_delay,
        },
        inputs: seq![Channel::BatchMaker],
        outputs: seq![Channel::QuorumWaiter],
        reconfigure: ReconfigureEnd::Subscriber,
        resources: Resources {
            committee: CommitteeUse::Current,
            node_metrics: true,
            ..no_resources()
        },
    }
}

/// The `QuorumWaiter` waits until enough authorities have acknowledged a batch, and hands it
/// to the processor of our own batches.
pub open spec fn quorum_waiter_task(worker: WorkerView) -> TaskView {
    TaskView {
        component: ComponentView::QuorumWaiter {
            primary_name: worker.primary_name,
            id: worker.id,
        },
        inputs: seq![Channel::QuorumWaiter],
        outputs: seq![Channel::ClientProcessor],
        reconfigure: ReconfigureEnd::Subscriber,
        resources: Resources {
            committee: CommitteeUse::Current,
            worker_cache: true,
            network: Some(NetworkLabel::QuorumWaiter),
            ..no_resources()
        },
    }
}

/// A `Processor` hashes and stores batches, and hands their digests to the
/// `PrimaryConnector`.
pub open spec fn processor_task(worker: WorkerView, input: Channel, own_batch: bool) -> TaskView {
    TaskView {
        component: ComponentView::Processor { id: worker.id, own_batch },
        inputs: seq![input],
        outputs: seq![Channel::Primary],
        reconfigure: ReconfigureEnd::Subscriber,
        resources: Resources { store: true, ..no_resources() },
    }
}

/// The `Helper` answers batch requests, of other workers and of clients.
pub open spec fn helper_task(worker: WorkerView) -> TaskView {
    TaskView {
        component: ComponentView::Helper { id: worker.id },
        inputs: seq![Channel::WorkerHelper, Channel::ClientHelper],
        outputs: seq![],
        reconfigure: ReconfigureEnd::Subscriber,
        resources: Resources {
            committee: CommitteeUse::Current,
            worker_cache: true,
            store: true,
            network: Some(NetworkLabel::WorkerHelper),
            ..no_resources()
        },
    }
}

/// The `Synchronizer` keeps the worker in sync with the others. It announces
/// reconfigurations to all other tasks.
pub open spec fn synchronizer_task(worker: WorkerView) -> TaskView {
    TaskView {
        component: ComponentView::Synchronizer {
            primary_name: worker.primary_name,
            id: worker.id,
            gc_depth: worker.parameters.gc_depth,
            sync_retry_delay: worker.parameters.sync_retry_delay,
            sync_retry_nodes: worker.parameters.sync_retry_nodes,
        },
        inputs: seq![Channel::Synchronizer],
        outputs: seq![Channel::Primary],
        reconfigure: ReconfigureEnd::Sender,
        resources: Resources {
            committee: CommitteeUse::Shared,
            worker_cache: true,
            store: true,
            node_metrics: true,
            network: Some(NetworkLabel::Synchronizer),
            ..no_resources()
        },
    }
}

/// The `PrimaryConnector` sends messages to the primary. It is told of reconfigurations by
/// the receiver that was made with their channel.
pub open spec fn primary_connector_task(worker: WorkerView) -> TaskView {
    TaskView {
        component: ComponentView::PrimaryConnector { primary_name: worker.primary_name },
        inputs: seq![Channel::Primary],
        outputs: seq![],
        reconfigure: ReconfigureEnd::FirstReceiver,
        resources: Resources { committee: CommitteeUse::Initial, ..no_resources() },
    }
}

/// What handles the transactions of clients, which are listened to on `address`.
pub open spec fn clients_flow(worker: WorkerView, address: Seq<Seq<u8>>) -> FlowView {
    FlowView {
        channels: seq![
            bounded(Channel::BatchMaker),
            bounded(Channel::QuorumWaiter),
            bounded(Channel::ClientProcessor),
        ],
        tasks: seq![
            tx_receiver_task(address),
            batch_maker_task(worker),
            quorum_waiter_task(worker),
            processor_task(worker, Channel::ClientProcessor, true),
        ],
        handles: seq![1, 2, 3, 0],
    }
}

/// What handles the messages of other workers, which are listened to on `address`.
pub open spec fn workers_flow(worker: WorkerView, address: Seq<Seq<u8>>) -> FlowView {
    FlowView {
        channels: seq![
            bounded(Channel::WorkerHelper),
            bounded(Channel::ClientHelper),
            bounded(Channel::WorkerProcessor),
        ],
        tasks: seq![
            worker_receiver_task(address, worker.parameters.max_concurrent_requests),
            helper_task(worker),
            processor_task(worker, Channel::WorkerProcessor, false),
        ],
        handles: seq![1, 2, 0],
    }
}

/// What handles the messages of the primary, which is listened to on `address`.
pub open spec fn primary_flow(worker: WorkerView, address: Seq<Seq<u8>>) -> FlowView {
    FlowView {
        channels: seq![bounded(Channel::Synchronizer)],
        tasks: seq![primary_receiver_task(address), synchronizer_task(worker)],
        handles: seq![1, 0],
    }
}

/// The address on which to listen, given where the worker is known.
pub open spec fn listening_on(known_at: Seq<Seq<u8>>) -> Result<Seq<Seq<u8>>, SpawnError> {
    if known_at.len() == 0 {
        Err(SpawnError::EmptyAddress)
    } else {
        Ok(on_all_interfaces(known_at))
    }
}

/// What is set up for clients, with this worker cache.
pub open spec fn planned_for_clients(worker: WorkerView, cache: CacheView) -> Result<
    FlowView,
    SpawnError,
> {
    if !cache.contains_key(worker.key()) {
        Err(SpawnError::NotInWorkerCache)
    } else {
        match listening_on(cache[worker.key()].transactions) {
            Err(error) => Err(error),
            Ok(address) => Ok(clients_flow(worker, address)),
        }
    }
}

/// What is set up for other workers, with this worker cache.
pub open spec fn planned_for_workers(worker: WorkerView, cache: CacheView) -> Result<
    FlowView,
    SpawnError,
> {
    if !cache.contains_key(worker.key()) {
        Err(SpawnError::NotInWorkerCache)
    } else {
        match listening_on(cache[worker.key()].worker_to_worker) {
            Err(error) => Err(error),
            Ok(address) => Ok(workers_flow(worker, address)),
        }
    }
}

/// What is set up for the primary, with this worker cache.
pub open spec fn planned_for_primary(worker: WorkerView, cache: CacheView) -> Result<
    FlowView,
    SpawnError,
> {
    if !cache.contains_key(worker.key()) {
        Err(SpawnError::NotInWorkerCache)
    } else {
        match listening_on(cache[worker.key()].primary_to_worker) {
            Err(error) => Err(error),
            Ok(address) => Ok(primary_flow(worker, address)),
        }
    }
}

/// Positions, each moved by an offset.
pub open spec fn moved(handles: Seq<int>, offset: int) -> Seq<int> {
    handles.map_values(|handle: int| handle + offset)
}

/// The whole worker. The tasks for clients are spawned first, then those for other workers,
/// those for the primary, and last the connector to the primary. The handles come back in
/// another order: that of the connector, then those for the primary, for clients and for
/// other workers.
pub open spec fn boot_flow(
    worker: WorkerView,
    clients: FlowView,
    workers: FlowView,
    primary: FlowView,
) -> FlowView {
    let before_workers = clients.tasks.len() as int;
    let before_primary = before_workers + workers.tasks.len();
    let before_connector = before_primary + primary.tasks.len();
    FlowView {
        channels: seq![bounded(Channel::Primary)] + clients.channels + workers.channels
            + primary.channels,
        tasks: clients.tasks + workers.tasks + primary.tasks + seq![primary_connector_task(worker)],
        handles: seq![before_connector] + moved(primary.handles, before_primary)
            + clients.handles + moved(workers.handles, before_workers),
    }
}

/// The first value of the reconfiguration channel: a new epoch, with the committee with which
/// the worker begins to boot.
pub open spec fn first_announcement() -> Announcement {
    Announcement {
        notification: ReconfigureNotification::NewEpoch,
        committee: CommitteeUse::Initial,
    }
}

/// What is set up before anything else: the first value of the reconfiguration channel, and the
/// channel to the connector to the primary.
#[derive(Debug, Clone, Copy, PartialEq, Eq)]
pub struct Opening {
    pub first: Announcement,
    pub channel: BoundedChannel,
}

/// What is set up before anything else, with these metrics.
pub open spec fn planned_opening(metrics: Metrics) -> Result<Opening, SpawnError> {
    if !metrics.complete() {
        Err(SpawnError::MissingMetrics)
    } else {
        Ok(Opening { first: first_announcement(), channel: bounded(Channel::Primary) })
    }
}

/// What booting comes to.
pub open spec fn planned_boot(worker: WorkerView, metrics: Metrics, reads: CacheReadsView) -> Result<
    BootView,
    SpawnError,
> {
    if !metrics.complete() {
        Err(SpawnError::MissingMetrics)
    } else {
        match (
            planned_for_clients(worker, reads.clients),
            planned_for_workers(worker, reads.workers),
            planned_for_primary(worker, reads.primary),
        ) {
            (Err(error), _, _) => Err(error),
            (_, Err(error), _) => Err(error),
            (_, _, Err(error)) => Err(error),
            (Ok(clients), Ok(workers), Ok(primary)) => {
                if !reads.booted.contains_key(worker.key()) {
                    Err(SpawnError::NotInWorkerCache)
                } else {
                    Ok(
                        BootView {
                            first: first_announcement(),
                            flow: boot_flow(worker, clients, workers, primary),
                        },
                    )
                }
            },
        }
    }
}

/// Whether an outcome is the planned one.
pub open spec fn as_planned(
    outcome: Result<Flow, SpawnError>,
    planned: Result<FlowView, SpawnError>,
) -> bool {
    match (outcome, planned) {
        (Ok(flow), Ok(view)) => flow@ == view,
        (Err(error), Err(expected)) => error == expected,
        _ => false,
    }
}

/// Whether booting came to what is planned.
pub open spec fn boots_as_planned(
    outcome: Result<Boot, SpawnError>,
    planned: Result<BootView, SpawnError>,
) -> bool {
    match (outcome, planned) {
        (Ok(boot), Ok(view)) => boot@ == view,
        (Err(error), Err(expected)) => error == expected,
        _ => false,
    }
}

impl Worker {
    fn batch_maker(&self) -> (task: Task)
        ensures
            task@ == batch_maker_task(self@),
    {
        let inputs: Vec<Channel> = vec![Channel::BatchMaker];
        let outputs: Vec<Channel> = vec![Channel::QuorumWaiter];
        assert(inputs@ =~= seq![Channel::BatchMaker]);
        assert(outputs@ =~= seq![Channel::QuorumWaiter]);
        Task {
            component: Component::BatchMaker {
                batch_size: self.parameters.batch_size,
                max_batch_delay: self.parameters.max_batch_delay,
            },
            inputs,
            outputs,
            reconfigure: ReconfigureEnd::Subscriber,
            resources: Resources {
                committee: CommitteeUse::Current,
                node_metrics: true,
                ..Resources::none()
            },
        }
    }

    fn quorum_waiter(&self) -> (task: Task)
        ensures
            task@ == quorum_waiter_task(self@),
    {
        let inputs: Vec<Channel> = vec![Channel::QuorumWaiter];
        let outputs: Vec<Channel> = vec![Channel::ClientProcessor];
        assert(inputs@ =~= seq![Channel::QuorumWaiter]);
        assert(outputs@ =~= seq![Channel::ClientProcessor]);
        Task {
            component: Component::QuorumWaiter {
                primary_name: self.primary_name.clone(),
                id: self.id,
            },
            inputs,
            outputs,
            reconfigure: ReconfigureEnd::Subscriber,
            resources: Resources {
                committee: CommitteeUse::Current,
                worker_cache: true,
                network: Some(NetworkLabel::QuorumWaiter),
                ..Resources::none()
            },
        }
    }

    fn processor(&self, input: Channel, own_batch: bool) -> (task: Task)
        ensures
            task@ == processor_task(self@, input, own_batch),
    {
        let inputs: Vec<Channel> = vec![input];
        let outputs: Vec<Channel> = vec![Channel::Primary];
        assert(inputs@ =~= seq![input]);
        assert(outputs@ =~= seq![Channel::Primary]);
        Task {
            component: Component::Processor { id: self.id, own_batch },
            inputs,
            outputs,
            reconfigure: ReconfigureEnd::Subscriber,
            resources: Resources { store: true, ..Resources::none() },
        }
    }

    fn helper(&self) -> (task: Task)
        ensures
            task@ == helper_task(self@),
    {
        let inputs: Vec<Channel> = vec![Channel::WorkerHelper, Channel::ClientHelper];
        let outputs: Vec<Channel> = vec![];
        assert(inputs@ =~= seq![Channel::WorkerHelper, Channel::ClientHelper]);
        assert(outputs@ =~= seq![]);
        Task {
            component: Component::Helper { id: self.id },
            inputs,
            outputs,
            reconfigure: ReconfigureEnd::Subscriber,
            resources: Resources {
                committee: CommitteeUse::Current,
                worker_cache: true,
                store: true,
                network: Some(NetworkLabel::WorkerHelper),
                ..Resources::none()
            },
        }
    }

    fn synchronizer(&self) -> (task: Task)
        ensures
            task@ == synchronizer_task(self@),
    {
        let inputs: Vec<Channel> = vec![Channel::Synchronizer];
        let outputs: Vec<Channel> = vec![Channel::Primary];
        assert(inputs@ =~= seq![Channel::Synchronizer]);
        assert(outputs@ =~= seq![Channel::Primary]);
        Task {
            component: Component::Synchronizer {
                primary_name: self.primary_name.clone(),
                id: self.id,
                gc_depth: self.parameters.gc_depth,
                sync_retry_delay: self.parameters.sync_retry_delay,
                sync_retry_nodes: self.parameters.sync_retry_nodes,
            },
            inputs,
            outputs,
            reconfigure: ReconfigureEnd::Sender,
            resources: Resources {
                committee: CommitteeUse::Shared,
                worker_cache: true,
                store: true,
                node_metrics: true,
                network: Some(NetworkLabel::Synchronizer),
                ..Resources::none()
            },
        }
    }

    fn primary_connector(&self) -> (task: Task)
        ensures
            task@ == primary_connector_task(self@),
    {
        let inputs: Vec<Channel> = vec![Channel::Primary];
        let outputs: Vec<Channel> = vec![];
        assert(inputs@ =~= seq![Channel::Primary]);
        assert(outputs@ =~= seq![]);
        Task {
            component: Component::PrimaryConnector { primary_name: self.primary_name.clone() },
            inputs,
            outputs,
            reconfigure: ReconfigureEnd::FirstReceiver,
            resources: Resources { committee: CommitteeUse::Initial, ..Resources::none() },
        }
    }

    /// The tasks that handle the transactions of clients.
    pub fn handle_clients_transactions(&self, worker_cache: &WorkerCache) -> (flow: Result<
        Flow,
        SpawnError,
    >)
        ensures
            as_planned(flow, planned_for_clients(self@, worker_cache@)),
    {
        let info = match worker_cache.worker(&self.primary_name, &self.id) {
            Err(_) => return Err(SpawnError::NotInWorkerCache),
            Ok(info) => info,
        };
        // We first receive clients' transactions from the network.
        let address = match listen_address(&info.transactions) {
            None => return Err(SpawnError::EmptyAddress),
            Some(address) => address,
        };
        let ghost listening = components(address);
        let tx_receiver = TxReceiverHandler::spawn(address);
        // The transactions are assembled into batches, which wait for a quorum.
        let batch_maker = self.batch_maker();
        let quorum_waiter = self.quorum_waiter();
        // The batches are then hashed and stored.
        let processor = self.processor(Channel::ClientProcessor, true);
        let flow = Flow {
            channels: vec![
                BoundedChannel::new(Channel::BatchMaker),
                BoundedChannel::new(Channel::QuorumWaiter),
                BoundedChannel::new(Channel::ClientProcessor),
            ],
            tasks: vec![tx_receiver, batch_maker, quorum_waiter, processor],
            handles: vec![1, 2, 3, 0],
        };
        proof {
            let expected = clients_flow(self@, listening);
            assert(flow@.channels =~= expected.channels);
            assert(flow@.tasks =~= expected.tasks);
            assert(flow@.handles =~= expected.handles);
        }
        Ok(flow)
    }

    /// The tasks that handle the messages of other workers.
    pub fn handle_workers_messages(&self, worker_cache: &WorkerCache) -> (flow: Result<
        Flow,
        SpawnError,
    >)
        ensures
            as_planned(flow, planned_for_workers(self@, worker_cache@)),
    {
        let info = match worker_cache.worker(&self.primary_name, &self.id) {
            Err(_) => return Err(SpawnError::NotInWorkerCache),
            Ok(info) => info,
        };
        // Receive incoming messages from other workers.
        let address = match listen_address(&info.worker_to_worker) {
            None => return Err(SpawnError::EmptyAddress),
            Some(address) => address,
        };
        let ghost listening = components(address);
        let worker_receiver = WorkerReceiverHandler::spawn(
            address,
            self.parameters.max_concurrent_requests,
        );
        // Batch requests are answered, batches are hashed and stored.
        let helper = self.helper();
        let processor = self.processor(Channel::WorkerProcessor, false);
        let flow = Flow {
            channels: vec![
                BoundedChannel::new(Channel::WorkerHelper),
                BoundedChannel::new(Channel::ClientHelper),
                BoundedChannel::new(Channel::WorkerProcessor),
            ],
            tasks: vec![worker_receiver, helper, processor],
            handles: vec![1, 2, 0],
        };
        proof {
            let expected = workers_flow(self@, listening);
            assert(flow@.channels =~= expected.channels);
            assert(flow@.tasks =~= expected.tasks);
            assert(flow@.handles =~= expected.handles);
        }
        Ok(flow)
    }

    /// The tasks that handle the messages of the primary.
    pub fn handle_primary_messages(&self, worker_cache: &WorkerCache) -> (flow: Result<
        Flow,
        SpawnError,
    >)
        ensures
            as_planned(flow, planned_for_primary(self@, worker_cache@)),
    {
        let info = match worker_cache.worker(&self.primary_name, &self.id) {
            Err(_) => return Err(SpawnError::NotInWorkerCache),
            Ok(info) => info,
        };
        // Receive incoming messages from our primary.
        let address = match listen_address(&info.primary_to_worker) {
            None => return Err(SpawnError::EmptyAddress),
            Some(address) => address,
        };
        let ghost listening = components(address);
        let primary_receiver = PrimaryReceiverHandler::spawn(address);
        // The commands of the primary are carried out.
        let synchronizer = self.synchronizer();
        let flow = Flow {
            channels: vec![BoundedChannel::new(Channel::Synchronizer)],
            tasks: vec![primary_receiver, synchronizer],
            handles: vec![1, 0],
        };
        proof {
            let expected = primary_flow(self@, listening);
            assert(flow@.channels =~= expected.channels);
            assert(flow@.tasks =~= expected.tasks);
            assert(flow@.handles =~= expected.handles);
        }
        Ok(flow)
    }

    /// What is set up before anything else.
    pub fn open(metrics: Metrics) -> (opening: Result<Opening, SpawnError>)
        ensures
            opening == planned_opening(metrics),
    {
        if !(metrics.worker_metrics && metrics.endpoint_metrics && metrics.network_metrics
            && metrics.channel_metrics) {
            return Err(SpawnError::MissingMetrics);
        }
        let first = Announcement {
            notification: ReconfigureNotification::NewEpoch,
            committee: CommitteeUse::Initial,
        };
        Ok(Opening { first, channel: BoundedChannel::new(Channel::Primary) })
    }

    /// The address that a booted worker reports: where its clients find it, as the worker cache
    /// has it when everything is set up. There is none when the worker is not in the cache by
    /// then.
    pub fn booted_on<'a>(&self, worker_cache: &'a CacheReads) -> (address: Option<&'a Multiaddr>)
        ensures
            address is Some <==> worker_cache@.booted.contains_key(self@.key()),
            address matches Some(found) ==> components(*found)
                == worker_cache@.booted[self@.key()].transactions,
            address is Some <==> worker_cache.booted@.contains_key(
                (self.primary_name.bytes@, self.id),
            ),
            address matches Some(found) ==> components(*found) == worker_cache.booted@[(
                self.primary_name.bytes@,
                self.id,
            )].transactions,
    {
        match worker_cache.booted.worker(&self.primary_name, &self.id) {
            Err(_) => None,
            Ok(info) => Some(&info.transactions),
        }
    }

    /// Boots a worker: the reconfiguration channel, what handles the transactions of clients,
    /// the messages of other workers and the messages of the primary, and the connector to the
    /// primary.
    pub fn spawn(
        primary_name: PublicKey,
        id: WorkerId,
        parameters: Parameters,
        metrics: Metrics,
        worker_cache: &CacheReads,
    ) -> (booted: Result<Boot, SpawnError>)
        ensures
            boots_as_planned(
                booted,
                planned_boot(
                    WorkerView { primary_name: primary_name@, id, parameters },
                    metrics,
                    worker_cache@,
                ),
            ),
    {
        let worker = Worker { primary_name, id, parameters };
        let opening = match Worker::open(metrics) {
            Err(error) => return Err(error),
            Ok(opening) => opening,
        };
        let clients = match worker.handle_clients_transactions(&worker_cache.clients) {
            Err(error) => return Err(error),
            Ok(flow) => flow,
        };
        let workers = match worker.handle_workers_messages(&worker_cache.workers) {
            Err(error) => return Err(error),
            Ok(flow) => flow,
        };
        let primary = match worker.handle_primary_messages(&worker_cache.primary) {
            Err(error) => return Err(error),
            Ok(flow) => flow,
        };
        if worker.booted_on(worker_cache).is_none() {
            return Err(SpawnError::NotInWorkerCache);
        }
        let flow = worker.assemble(opening.channel, clients, workers, primary);
        Ok(Boot { first: opening.first, flow })
    }

    /// Puts the parts of the worker together, and adds the connector to the primary.
    fn assemble(
        &self,
        to_connector: BoundedChannel,
        clients: Flow,
        workers: Flow,
        primary: Flow,
    ) -> (flow: Flow)
        requires
            to_connector == bounded(Channel::Primary),
            clients@.tasks.len() + workers@.tasks.len() + primary@.tasks.len() <= usize::MAX,
            clients.well_formed(),
            workers.well_formed(),
            primary.well_formed(),
        ensures
            flow@ == boot_flow(self@, clients@, workers@, primary@),
    {
        let before_workers: usize = clients.tasks.len();
        let before_primary: usize = before_workers + workers.tasks.len();
        let before_connector: usize = before_primary + primary.tasks.len();
        let mut handles: Vec<usize> = vec![before_connector];
        append_moved(&mut handles, &primary.handles, before_primary);
        append_moved(&mut handles, &clients.handles, 0);
        append_moved(&mut handles, &workers.handles, before_workers);
        let ghost parts = (clients, workers, primary);
        let mut channels: Vec<BoundedChannel> = vec![to_connector];
        let mut tasks: Vec<Task> = clients.tasks;
        let mut client_channels = clients.channels;
        let mut worker_channels = workers.channels;
        let mut primary_channels = primary.channels;
        channels.append(&mut client_channels);
        channels.append(&mut worker_channels);
        channels.append(&mut primary_channels);
        let mut worker_tasks = workers.tasks;
        let mut primary_tasks = primary.tasks;
        tasks.append(&mut worker_tasks);
        tasks.append(&mut primary_tasks);
        tasks.push(self.primary_connector());
        let flow = Flow { channels, tasks, handles };
        proof {
            let expected = boot_flow(self@, parts.0@, parts.1@, parts.2@);
            assert(flow@.channels =~= expected.channels);
            assert(flow@.tasks =~= expected.tasks);
            assert(flow@.handles =~= expected.handles);
        }
        flow
    }
}

/// Appends positions, each moved by an offset.
fn append_moved(handles: &mut Vec<usize>, more: &Vec<usize>, offset: usize)
    requires
        forall|i: int| 0 <= i < more@.len() ==> #[trigger] more@[i] + offset <= usize::MAX,
    ensures
        positions(final(handles)@) == positions(old(handles)@) + moved(
            positions(more@),
            offset as int,
        ),
{
    let ghost before = handles@;
    let mut i: usize = 0;
    while i < more.len()
        invariant
            i <= more.len(),
            forall|k: int| 0 <= k < more@.len() ==> #[trigger] more@[k] + offset <= usize::MAX,
            handles@.len() == before.len() + i,
            forall|k: int| 0 <= k < before.len() ==> #[trigger] handles@[k] == before[k],
            forall|k: int| 0 <= k < i ==> handles@[before.len() + k] == #[trigger] more@[k] + offset,
        decreases more.len() - i,
    {
        handles.push(more[i] + offset);
        i = i + 1;
    }
    proof {
        let expected = positions(before) + moved(positions(more@), offset as int);
        assert forall|k: int| 0 <= k < expected.len() implies positions(handles@)[k]
            == expected[k] by {
            if k >= before.len() {
                assert(handles@[before.len() + (k - before.len())] == more@[k - before.len()]
                    + offset);
            }
        }
        assert(positions(handles@) =~= expected);
    }
}

} // verus!
