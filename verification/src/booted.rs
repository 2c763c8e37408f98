//! What a worker is given when it is set up, told from what it was set up with: who it is, its
//! parameters, and the lines of the worker cache.

use crate::address::{components, law_listening_keeps_the_rest, on_all_interfaces};
use crate::cache::{law_first_line_counts, law_only_lines_are_found, WorkerCache};
use crate::keys::{PublicKey, WorkerId};
use crate::primary_messages::primary_receiver_task;
use crate::receiver::ReconfigureNotification;
use crate::task::{
    Boot, Channel, ChannelGauge, CommitteeUse, Component, Flow, NetworkLabel, ReconfigureEnd, TaskView,
};
use crate::transactions::tx_receiver_task;
use crate::worker::{
    batch_maker_task, helper_task, planned_for_clients, planned_for_primary, planned_for_workers,
    primary_connector_task, processor_task, quorum_waiter_task, synchronizer_task, CacheReads,
    CacheView, Metrics, Opening, Parameters, SpawnError, Worker, WorkerView,
};
use crate::worker_messages::worker_receiver_task;
use multiaddr::Multiaddr;
use vstd::prelude::*;

verus! {

/// The flow is set up for the worker: for its clients, for other workers, for its primary, or as
/// a whole.
pub open spec fn is_set_up_for(flow: Flow, worker: Worker) -> bool {
    ||| exists|cache: WorkerCache| #[trigger]
        call_ensures(Worker::handle_clients_transactions, (&worker, &cache), Ok(flow))
    ||| exists|cache: WorkerCache| #[trigger]
        call_ensures(Worker::handle_workers_messages, (&worker, &cache), Ok(flow))
    ||| exists|cache: WorkerCache| #[trigger]
        call_ensures(Worker::handle_primary_messages, (&worker, &cache), Ok(flow))
    ||| exists|boot: Boot, metrics: Metrics, reads: CacheReads|
        boot.flow == flow && #[trigger] call_ensures(
            Worker::spawn,
            (worker.primary_name, worker.id, worker.parameters, metrics, &reads),
            Ok(boot),
        )
}

/// The task is one of those that a worker can have.
spec fn is_task_of(view: TaskView, worker: WorkerView) -> bool {
    ||| exists|address: Seq<Seq<u8>>| view == #[trigger] tx_receiver_task(address)
    ||| exists|address: Seq<Seq<u8>>|
        view == #[trigger] worker_receiver_task(address, worker.parameters.max_concurrent_requests)
    ||| exists|address: Seq<Seq<u8>>| view == #[trigger] primary_receiver_task(address)
    ||| view == batch_maker_task(worker)
    ||| view == quorum_waiter_task(worker)
    ||| view == processor_task(worker, Channel::ClientProcessor, true)
    ||| view == helper_task(worker)
    ||| view == processor_task(worker, Channel::WorkerProcessor, false)
    ||| view == synchronizer_task(worker)
    ||| view == primary_connector_task(worker)
}

proof fn lemma_client_tasks(worker: WorkerView, cache: CacheView)
    requires
        planned_for_clients(worker, cache) is Ok,
    ensures
        planned_for_clients(worker, cache)->Ok_0.tasks.len() == 4,
        forall|i: int|
            0 <= i < 4 ==> is_task_of(
                #[trigger] planned_for_clients(worker, cache)->Ok_0.tasks[i],
                worker,
            ),
{
    let address = on_all_interfaces(cache[worker.key()].transactions);
    let tasks = planned_for_clients(worker, cache)->Ok_0.tasks;
    assert(tasks[0] == tx_receiver_task(address));
    assert(tasks[1] == batch_maker_task(worker));
    assert(tasks[2] == quorum_waiter_task(worker));
    assert(tasks[3] == processor_task(worker, Channel::ClientProcessor, true));
}

proof fn lemma_worker_tasks(worker: WorkerView, cache: CacheView)
    requires
        planned_for_workers(worker, cache) is Ok,
    ensures
        planned_for_workers(worker, cache)->Ok_0.tasks.len() == 3,
        forall|i: int|
            0 <= i < 3 ==> is_task_of(
                #[trigger] planned_for_workers(worker, cache)->Ok_0.tasks[i],
                worker,
            ),
{
    let address = on_all_interfaces(cache[worker.key()].worker_to_worker);
    let tasks = planned_for_workers(worker, cache)->Ok_0.tasks;
    assert(tasks[0] == worker_receiver_task(address, worker.parameters.max_concurrent_requests));
    assert(tasks[1] == helper_task(worker));
    assert(tasks[2] == processor_task(worker, Channel::WorkerProcessor, false));
}

proof fn lemma_primary_tasks(worker: WorkerView, cache: CacheView)
    requires
        planned_for_primary(worker, cache) is Ok,
    ensures
        planned_for_primary(worker, cache)->Ok_0.tasks.len() == 2,
        forall|i: int|
            0 <= i < 2 ==> is_task_of(
                #[trigger] planned_for_primary(worker, cache)->Ok_0.tasks[i],
                worker,
            ),
{
    let address = on_all_interfaces(cache[worker.key()].primary_to_worker);
    let tasks = planned_for_primary(worker, cache)->Ok_0.tasks;
    assert(tasks[0] == primary_receiver_task(address));
    assert(tasks[1] == synchronizer_task(worker));
}

/// Every task of a flow is one of those that the worker can have.
proof fn lemma_kinds(flow: Flow, worker: Worker, i: int)
    requires
        is_set_up_for(flow, worker),
        0 <= i < flow.tasks@.len(),
    ensures
        is_task_of(flow.tasks@[i]@, worker@),
{
    let view = flow.tasks@[i]@;
    assert(flow@.tasks.len() == flow.tasks@.len());
    assert(flow@.tasks[i] == view);
    if exists|cache: WorkerCache| #[trigger]
        call_ensures(Worker::handle_clients_transactions, (&worker, &cache), Ok(flow)) {
        let cache = choose|cache: WorkerCache| #[trigger]
            call_ensures(Worker::handle_clients_transactions, (&worker, &cache), Ok(flow));
        lemma_client_tasks(worker@, cache@);
        assert(view == planned_for_clients(worker@, cache@)->Ok_0.tasks[i]);
    } else if exists|cache: WorkerCache| #[trigger]
        call_ensures(Worker::handle_workers_messages, (&worker, &cache), Ok(flow)) {
        let cache = choose|cache: WorkerCache| #[trigger]
            call_ensures(Worker::handle_workers_messages, (&worker, &cache), Ok(flow));
        lemma_worker_tasks(worker@, cache@);
        assert(view == planned_for_workers(worker@, cache@)->Ok_0.tasks[i]);
    } else if exists|cache: WorkerCache| #[trigger]
        call_ensures(Worker::handle_primary_messages, (&worker, &cache), Ok(flow)) {
        let cache = choose|cache: WorkerCache| #[trigger]
            call_ensures(Worker::handle_primary_messages, (&worker, &cache), Ok(flow));
        lemma_primary_tasks(worker@, cache@);
        assert(view == planned_for_primary(worker@, cache@)->Ok_0.tasks[i]);
    } else {
        let (boot, metrics, reads) = choose|boot: Boot, metrics: Metrics, reads: CacheReads|
            boot.flow == flow && #[trigger] call_ensures(
                Worker::spawn,
                (worker.primary_name, worker.id, worker.parameters, metrics, &reads),
                Ok(boot),
            );
        let clients = planned_for_clients(worker@, reads@.clients)->Ok_0;
        let workers = planned_for_workers(worker@, reads@.workers)->Ok_0;
        let primary = planned_for_primary(worker@, reads@.primary)->Ok_0;
        lemma_client_tasks(worker@, reads@.clients);
        lemma_worker_tasks(worker@, reads@.workers);
        lemma_primary_tasks(worker@, reads@.primary);
        assert(boot@.flow == flow@);
        assert(view == (clients.tasks + workers.tasks + primary.tasks + seq![
            primary_connector_task(worker@),
        ])[i]);
        if i < 4 {
            assert(view == clients.tasks[i]);
        } else if i < 7 {
            assert(view == workers.tasks[i - 4]);
        } else if i < 9 {
            assert(view == primary.tasks[i - 7]);
        }
    }
}

/// Every task that is told who it works for is told the key of the authority and the id that the
/// worker has.
pub proof fn law_tasks_are_told_who_they_work_for(flow: Flow, worker: Worker, i: int)
    requires
        is_set_up_for(flow, worker),
        0 <= i < flow.tasks@.len(),
    ensures
        match flow.tasks@[i].component {
            Component::PrimaryConnector { primary_name } => primary_name.bytes@
                == worker.primary_name.bytes@,
            Component::Synchronizer { primary_name, id, .. } => primary_name.bytes@
                == worker.primary_name.bytes@ && id == worker.id,
            Component::QuorumWaiter { primary_name, id } => primary_name.bytes@
                == worker.primary_name.bytes@ && id == worker.id,
            Component::Processor { id, .. } => id == worker.id,
            Component::Helper { id } => id == worker.id,
            _ => true,
        },
{
    lemma_kinds(flow, worker, i);
}

/// Every task that is configured gets the parameters of the same names. Of the listeners, the one
/// for other workers alone is limited, to the number of requests that the parameters allow.
pub proof fn law_tasks_are_configured_by_the_parameters(flow: Flow, worker: Worker, i: int)
    requires
        is_set_up_for(flow, worker),
        0 <= i < flow.tasks@.len(),
    ensures
        match flow.tasks@[i].component {
            Component::BatchMaker { batch_size, max_batch_delay } => batch_size
                == worker.parameters.batch_size && max_batch_delay
                == worker.parameters.max_batch_delay,
            Component::Synchronizer { gc_depth, sync_retry_delay, sync_retry_nodes, .. } => gc_depth
                == worker.parameters.gc_depth && sync_retry_delay
                == worker.parameters.sync_retry_delay && sync_retry_nodes
                == worker.parameters.sync_retry_nodes,
            Component::WorkerReceiver(server) => server.concurrency_limit_per_connection == Some(
                worker.parameters.max_concurrent_requests,
            ),
            Component::TxReceiver(server) => server.concurrency_limit_per_connection is None,
            Component::PrimaryReceiver(server) => server.concurrency_limit_per_connection is None,
            _ => true,
        },
{
    lemma_kinds(flow, worker, i);
}

/// The store is given to the tasks that keep batches or look them up, and to no other: the
/// processors, the helper and the synchronizer. The worker cache is given to those that reach
/// other workers, and each of them has a network of its own.
pub proof fn law_tasks_reach_batches_and_workers(flow: Flow, worker: Worker, i: int)
    requires
        is_set_up_for(flow, worker),
        0 <= i < flow.tasks@.len(),
    ensures
        ({
            let component = flow.tasks@[i].component;
            let resources = flow.tasks@[i].resources;
            &&& resources.store <==> (component is Processor || component is Helper
                || component is Synchronizer)
            &&& resources.worker_cache <==> (component is QuorumWaiter || component is Helper
                || component is Synchronizer)
            &&& match resources.network {
                Some(NetworkLabel::QuorumWaiter) => component is QuorumWaiter,
                Some(NetworkLabel::WorkerHelper) => component is Helper,
                Some(NetworkLabel::Synchronizer) => component is Synchronizer,
                None => !resources.worker_cache,
            }
        }),
{
    lemma_kinds(flow, worker, i);
}

/// In which form each task gets the committee, and which tasks report metrics.
pub proof fn law_tasks_follow_the_committee_and_report(flow: Flow, worker: Worker, i: int)
    requires
        is_set_up_for(flow, worker),
        0 <= i < flow.tasks@.len(),
    ensures
        ({
            let component = flow.tasks@[i].component;
            let resources = flow.tasks@[i].resources;
            &&& resources.committee == CommitteeUse::Initial <==> component is PrimaryConnector
            &&& resources.committee == CommitteeUse::Shared <==> component is Synchronizer
            &&& resources.committee == CommitteeUse::Current <==> (component is BatchMaker
                || component is QuorumWaiter || component is Helper)
            &&& resources.node_metrics <==> (component is BatchMaker || component is Synchronizer)
            &&& resources.endpoint_metrics <==> component is TxReceiver
        }),
{
    lemma_kinds(flow, worker, i);
}

/// Which channels each task reads from and writes to, and in which order it is given them. A
/// processor takes the batches that a quorum has acknowledged, and no others, for our own.
pub proof fn law_tasks_hold_the_right_channels(flow: Flow, worker: Worker, i: int)
    requires
        is_set_up_for(flow, worker),
        0 <= i < flow.tasks@.len(),
    ensures
        ({
            let task = flow.tasks@[i];
            match task.component {
                Component::TxReceiver(_) => task.inputs@ =~= seq![] && task.outputs@ =~= seq![
                    Channel::BatchMaker,
                ],
                Component::BatchMaker { .. } => task.inputs@ =~= seq![Channel::BatchMaker]
                    && task.outputs@ =~= seq![Channel::QuorumWaiter],
                Component::QuorumWaiter { .. } => task.inputs@ =~= seq![Channel::QuorumWaiter]
                    && task.outputs@ =~= seq![Channel::ClientProcessor],
                Component::Processor { own_batch, .. } => task.inputs@ =~= (if own_batch {
                    seq![Channel::ClientProcessor]
                } else {
                    seq![Channel::WorkerProcessor]
                }) && task.outputs@ =~= seq![Channel::Primary],
                Component::WorkerReceiver(_) => task.inputs@ =~= seq![] && task.outputs@ =~= seq![
                    Channel::WorkerHelper,
                    Channel::ClientHelper,
                    Channel::WorkerProcessor,
                ],
                Component::Helper { .. } => task.inputs@ =~= seq![
                    Channel::WorkerHelper,
                    Channel::ClientHelper,
                ] && task.outputs@ =~= seq![],
                Component::PrimaryReceiver(_) => task.inputs@ =~= seq![] && task.outputs@ =~= seq![
                    Channel::Synchronizer,
                ],
                Component::Synchronizer { .. } => task.inputs@ =~= seq![Channel::Synchronizer]
                    && task.outputs@ =~= seq![Channel::Primary],
                Component::PrimaryConnector { .. } => task.inputs@ =~= seq![Channel::Primary]
                    && task.outputs@ =~= seq![],
            }
        }),
        flow.tasks@[i].reconfigure == ReconfigureEnd::Sender
            <==> flow.tasks@[i].component is Synchronizer,
        flow.tasks@[i].reconfigure == ReconfigureEnd::FirstReceiver
            <==> flow.tasks@[i].component is PrimaryConnector,
{
    lemma_kinds(flow, worker, i);
}

/// Every channel that is made holds a thousand messages and is measured by the gauge of its own
/// name.
pub proof fn law_channels_are_measured_by_their_names(flow: Flow, worker: Worker, i: int)
    requires
        is_set_up_for(flow, worker),
        0 <= i < flow.channels@.len(),
    ensures
        flow.channels@[i].capacity == 1_000,
        flow.channels@[i].gauge == match flow.channels@[i].channel {
            Channel::Primary => ChannelGauge::TxPrimary,
            Channel::Synchronizer => ChannelGauge::TxSynchronizer,
            Channel::BatchMaker => ChannelGauge::TxBatchMaker,
            Channel::QuorumWaiter => ChannelGauge::TxQuorumWaiter,
            Channel::ClientProcessor => ChannelGauge::TxClientProcessor,
            Channel::WorkerHelper => ChannelGauge::TxWorkerHelper,
            Channel::ClientHelper => ChannelGauge::TxClientHelper,
            Channel::WorkerProcessor => ChannelGauge::TxWorkerProcessor,
        },
{
    assert(flow@.channels[i] == flow.channels@[i]);
}

/// A booted worker is set up for the key, the id and the parameters with which it was spawned.
/// Its ten tasks are spawned in this order: those that serve clients, those that serve other
/// workers, those that serve the primary, and the connector to the primary. In each part the
/// listener comes first.
pub proof fn law_tasks_are_spawned_in_order(
    primary_name: PublicKey,
    id: WorkerId,
    parameters: Parameters,
    metrics: Metrics,
    reads: CacheReads,
    boot: Boot,
)
    requires
        call_ensures(Worker::spawn, (primary_name, id, parameters, metrics, &reads), Ok(boot)),
    ensures
        is_set_up_for(boot.flow, (Worker { primary_name, id, parameters })),
        boot.flow.tasks@.len() == 10,
        boot.flow.tasks@[0].component is TxReceiver,
        boot.flow.tasks@[1].component is BatchMaker,
        boot.flow.tasks@[2].component is QuorumWaiter,
        boot.flow.tasks@[3].component matches Component::Processor { own_batch: true, .. },
        boot.flow.tasks@[4].component is WorkerReceiver,
        boot.flow.tasks@[5].component is Helper,
        boot.flow.tasks@[6].component matches Component::Processor { own_batch: false, .. },
        boot.flow.tasks@[7].component is PrimaryReceiver,
        boot.flow.tasks@[8].component is Synchronizer,
        boot.flow.tasks@[9].component is PrimaryConnector,
{
    let worker = Worker { primary_name, id, parameters };
    assert(call_ensures(
        Worker::spawn,
        (worker.primary_name, worker.id, worker.parameters, metrics, &reads),
        Ok(boot),
    ));
    let tasks = boot@.flow.tasks;
    assert(tasks.len() == 10);
    assert(tasks.len() == boot.flow.tasks@.len());
    assert(boot.flow.tasks@[0]@ == tasks[0]);
    assert(boot.flow.tasks@[1]@ == tasks[1]);
    assert(boot.flow.tasks@[2]@ == tasks[2]);
    assert(boot.flow.tasks@[3]@ == tasks[3]);
    assert(boot.flow.tasks@[4]@ == tasks[4]);
    assert(boot.flow.tasks@[5]@ == tasks[5]);
    assert(boot.flow.tasks@[6]@ == tasks[6]);
    assert(boot.flow.tasks@[7]@ == tasks[7]);
    assert(boot.flow.tasks@[8]@ == tasks[8]);
    assert(boot.flow.tasks@[9]@ == tasks[9]);
}

/// The handles of a booted worker come back in this order: that of the connector, those of the
/// synchronizer and of its listener, those of the tasks that serve clients, and those of the
/// tasks that serve other workers, in each part the listener last.
pub proof fn law_handles_come_back_in_order(
    primary_name: PublicKey,
    id: WorkerId,
    parameters: Parameters,
    metrics: Metrics,
    reads: CacheReads,
    boot: Boot,
)
    requires
        call_ensures(Worker::spawn, (primary_name, id, parameters, metrics, &reads), Ok(boot)),
    ensures
        boot.flow.handles@ == seq![
            9usize,
            8usize,
            7usize,
            1usize,
            2usize,
            3usize,
            0usize,
            5usize,
            6usize,
            4usize,
        ],
{
    let handles = boot@.flow.handles;
    let expected: Seq<int> = seq![9, 8, 7, 1, 2, 3, 0, 5, 6, 4];
    assert(handles =~= expected);
    assert(boot.flow.handles@.len() == handles.len());
    assert forall|i: int| 0 <= i < 10 implies #[trigger] boot.flow.handles@[i] == expected[i] by {
        assert(boot.flow.handles@[i] as int == handles[i]);
    }
}

/// A worker that boots makes every channel exactly once, that of the connector first. The
/// reconfiguration channel starts with a new epoch and the committee of the beginning.
pub proof fn law_channels_are_made_in_order(
    primary_name: PublicKey,
    id: WorkerId,
    parameters: Parameters,
    metrics: Metrics,
    reads: CacheReads,
    boot: Boot,
)
    requires
        call_ensures(Worker::spawn, (primary_name, id, parameters, metrics, &reads), Ok(boot)),
    ensures
        boot.first.notification == ReconfigureNotification::NewEpoch,
        boot.first.committee == CommitteeUse::Initial,
        boot.flow.channels@.len() == 8,
        boot.flow.channels@[0].channel == Channel::Primary,
        boot.flow.channels@[1].channel == Channel::BatchMaker,
        boot.flow.channels@[2].channel == Channel::QuorumWaiter,
        boot.flow.channels@[3].channel == Channel::ClientProcessor,
        boot.flow.channels@[4].channel == Channel::WorkerHelper,
        boot.flow.channels@[5].channel == Channel::ClientHelper,
        boot.flow.channels@[6].channel == Channel::WorkerProcessor,
        boot.flow.channels@[7].channel == Channel::Synchronizer,
{
}

/// A booted worker listens to clients at the address in the line of the worker cache that has its
/// key and its id, on all interfaces: the first component gives way to `/ip4/0.0.0.0`, the
/// others stay.
pub proof fn law_listens_to_clients_at_its_line(
    primary_name: PublicKey,
    id: WorkerId,
    parameters: Parameters,
    metrics: Metrics,
    reads: CacheReads,
    boot: Boot,
    k: int,
)
    requires
        call_ensures(Worker::spawn, (primary_name, id, parameters, metrics, &reads), Ok(boot)),
        0 <= k < reads.clients.workers@.len(),
        reads.clients.workers@[k].authority.bytes@ == primary_name.bytes@,
        reads.clients.workers@[k].id == id,
        forall|a: int|
            0 <= a < k && (#[trigger] reads.clients.workers@[a]).id == id
                ==> reads.clients.workers@[a].authority.bytes@ != primary_name.bytes@,
    ensures
        boot.flow.tasks@[0].component matches Component::TxReceiver(server) && {
            let known = components(reads.clients.workers@[k].info.transactions);
            &&& known.len() > 0
            &&& components(server.address).len() == known.len()
            &&& components(server.address)[0] == seq![4u8, 0u8, 0u8, 0u8, 0u8]
            &&& forall|j: int|
                0 < j < known.len() ==> #[trigger] components(server.address)[j] == known[j]
        },
{
    law_first_line_counts(reads.clients, k);
    law_tasks_are_spawned_in_order(primary_name, id, parameters, metrics, reads, boot);
    let known = components(reads.clients.workers@[k].info.transactions);
    law_listening_keeps_the_rest(known);
    assert(boot@.flow.tasks[0] == boot.flow.tasks@[0]@);
}

/// A booted worker listens to other workers at the address in the line of the worker cache that has its
/// key and its id, on all interfaces: the first component gives way to `/ip4/0.0.0.0`, the
/// others stay.
pub proof fn law_listens_to_workers_at_its_line(
    primary_name: PublicKey,
    id: WorkerId,
    parameters: Parameters,
    metrics: Metrics,
    reads: CacheReads,
    boot: Boot,
    k: int,
)
    requires
        call_ensures(Worker::spawn, (primary_name, id, parameters, metrics, &reads), Ok(boot)),
        0 <= k < reads.workers.workers@.len(),
        reads.workers.workers@[k].authority.bytes@ == primary_name.bytes@,
        reads.workers.workers@[k].id == id,
        forall|a: int|
            0 <= a < k && (#[trigger] reads.workers.workers@[a]).id == id
                ==> reads.workers.workers@[a].authority.bytes@ != primary_name.bytes@,
    ensures
        boot.flow.tasks@[4].component matches Component::WorkerReceiver(server) && {
            let known = components(reads.workers.workers@[k].info.worker_to_worker);
            &&& known.len() > 0
            &&& components(server.address).len() == known.len()
            &&& components(server.address)[0] == seq![4u8, 0u8, 0u8, 0u8, 0u8]
            &&& forall|j: int|
                0 < j < known.len() ==> #[trigger] components(server.address)[j] == known[j]
        },
{
    law_first_line_counts(reads.workers, k);
    law_tasks_are_spawned_in_order(primary_name, id, parameters, metrics, reads, boot);
    let known = components(reads.workers.workers@[k].info.worker_to_worker);
    law_listening_keeps_the_rest(known);
    assert(boot@.flow.tasks[4] == boot.flow.tasks@[4]@);
}

/// A booted worker listens to the primary at the address in the line of the worker cache that has its
/// key and its id, on all interfaces: the first component gives way to `/ip4/0.0.0.0`, the
/// others stay.
pub proof fn law_listens_to_the_primary_at_its_line(
    primary_name: PublicKey,
    id: WorkerId,
    parameters: Parameters,
    metrics: Metrics,
    reads: CacheReads,
    boot: Boot,
    k: int,
)
    requires
        call_ensures(Worker::spawn, (primary_name, id, parameters, metrics, &reads), Ok(boot)),
        0 <= k < reads.primary.workers@.len(),
        reads.primary.workers@[k].authority.bytes@ == primary_name.bytes@,
        reads.primary.workers@[k].id == id,
        forall|a: int|
            0 <= a < k && (#[trigger] reads.primary.workers@[a]).id == id
                ==> reads.primary.workers@[a].authority.bytes@ != primary_name.bytes@,
    ensures
        boot.flow.tasks@[7].component matches Component::PrimaryReceiver(server) && {
            let known = components(reads.primary.workers@[k].info.primary_to_worker);
            &&& known.len() > 0
            &&& components(server.address).len() == known.len()
            &&& components(server.address)[0] == seq![4u8, 0u8, 0u8, 0u8, 0u8]
            &&& forall|j: int|
                0 < j < known.len() ==> #[trigger] components(server.address)[j] == known[j]
        },
{
    law_first_line_counts(reads.primary, k);
    law_tasks_are_spawned_in_order(primary_name, id, parameters, metrics, reads, boot);
    let known = components(reads.primary.workers@[k].info.primary_to_worker);
    law_listening_keeps_the_rest(known);
    assert(boot@.flow.tasks[7] == boot.flow.tasks@[7]@);
}

/// The address that a booted worker reports is the one for clients in the line of the worker cache
/// that has its key and its id, as it is.
pub proof fn law_reports_the_address_of_its_line(
    worker: Worker,
    reads: CacheReads,
    address: Option<&Multiaddr>,
    k: int,
)
    requires
        call_ensures(Worker::booted_on, (&worker, &reads), address),
        0 <= k < reads.booted.workers@.len(),
        reads.booted.workers@[k].authority.bytes@ == worker.primary_name.bytes@,
        reads.booted.workers@[k].id == worker.id,
        forall|a: int|
            0 <= a < k && (#[trigger] reads.booted.workers@[a]).id == worker.id
                ==> reads.booted.workers@[a].authority.bytes@ != worker.primary_name.bytes@,
    ensures
        address matches Some(found) && components(*found) == components(
            reads.booted.workers@[k].info.transactions,
        ),
{
    law_first_line_counts(reads.booted, k);
}

/// A worker whose key and id no line of the worker cache has reports no address.
pub proof fn law_reports_nothing_without_a_line(
    worker: Worker,
    reads: CacheReads,
    address: Option<&Multiaddr>,
)
    requires
        call_ensures(Worker::booted_on, (&worker, &reads), address),
        forall|a: int|
            0 <= a < reads.booted.workers@.len() && (#[trigger] reads.booted.workers@[a]).id
                == worker.id ==> reads.booted.workers@[a].authority.bytes@
                != worker.primary_name.bytes@,
    ensures
        address is None,
{
    law_only_lines_are_found(reads.booted, worker.primary_name.bytes@, worker.id);
}

/// What is set up to serve clients listens at the address in the line of the worker cache that has
/// the key and the id of the worker, on all interfaces. Only an empty address is refused. The
/// listener is spawned first, and its handle comes back last.
pub proof fn law_serves_clients_at_its_line(
    worker: Worker,
    cache: WorkerCache,
    outcome: Result<Flow, SpawnError>,
    k: int,
)
    requires
        call_ensures(Worker::handle_clients_transactions, (&worker, &cache), outcome),
        0 <= k < cache.workers@.len(),
        cache.workers@[k].authority.bytes@ == worker.primary_name.bytes@,
        cache.workers@[k].id == worker.id,
        forall|a: int|
            0 <= a < k && (#[trigger] cache.workers@[a]).id == worker.id
                ==> cache.workers@[a].authority.bytes@ != worker.primary_name.bytes@,
    ensures
        components(cache.workers@[k].info.transactions).len() == 0 ==> outcome == Err::<Flow, _>(
            SpawnError::EmptyAddress,
        ),
        components(cache.workers@[k].info.transactions).len() > 0 ==> (outcome matches Ok(flow) && {
            &&& is_set_up_for(flow, worker)
            &&& flow.tasks@.len() == 4
            &&& flow.tasks@[0].component matches Component::TxReceiver(server) && components(
                server.address,
            ) == components(cache.workers@[k].info.transactions).update(
                0,
                seq![4u8, 0u8, 0u8, 0u8, 0u8],
            )
            &&& flow.tasks@[1].component is BatchMaker
            &&& flow.tasks@[2].component is QuorumWaiter
            &&& flow.tasks@[3].component matches Component::Processor { own_batch: true, .. }
            &&& flow.channels@.len() == 3
            &&& flow.channels@[0].channel == Channel::BatchMaker
            &&& flow.channels@[1].channel == Channel::QuorumWaiter
            &&& flow.channels@[2].channel == Channel::ClientProcessor
            &&& flow.handles@ =~= seq![1usize, 2usize, 3usize, 0usize]
        }),
{
    law_first_line_counts(cache, k);
    let known = components(cache.workers@[k].info.transactions);
    if known.len() > 0 {
        law_listening_keeps_the_rest(known);
        assert(on_all_interfaces(known) =~= known.update(0, seq![4u8, 0u8, 0u8, 0u8, 0u8]));
        let flow = outcome->Ok_0;
        assert(flow.tasks@.len() == flow@.tasks.len());
        assert(flow.handles@.len() == flow@.handles.len());
        assert(flow.tasks@[0]@ == flow@.tasks[0]);
        assert(flow.handles@[0] == flow@.handles[0]);
        assert(flow.tasks@[1]@ == flow@.tasks[1]);
        assert(flow.handles@[1] == flow@.handles[1]);
        assert(flow.tasks@[2]@ == flow@.tasks[2]);
        assert(flow.handles@[2] == flow@.handles[2]);
        assert(flow.tasks@[3]@ == flow@.tasks[3]);
        assert(flow.handles@[3] == flow@.handles[3]);
    }
}

/// What is set up to serve other workers listens at the address in the line of the worker cache that has
/// the key and the id of the worker, on all interfaces. Only an empty address is refused. The
/// listener is spawned first, and its handle comes back last.
pub proof fn law_serves_workers_at_its_line(
    worker: Worker,
    cache: WorkerCache,
    outcome: Result<Flow, SpawnError>,
    k: int,
)
    requires
        call_ensures(Worker::handle_workers_messages, (&worker, &cache), outcome),
        0 <= k < cache.workers@.len(),
        cache.workers@[k].authority.bytes@ == worker.primary_name.bytes@,
        cache.workers@[k].id == worker.id,
        forall|a: int|
            0 <= a < k && (#[trigger] cache.workers@[a]).id == worker.id
                ==> cache.workers@[a].authority.bytes@ != worker.primary_name.bytes@,
    ensures
        components(cache.workers@[k].info.worker_to_worker).len() == 0 ==> outcome == Err::<Flow, _>(
            SpawnError::EmptyAddress,
        ),
        components(cache.workers@[k].info.worker_to_worker).len() > 0 ==> (outcome matches Ok(flow) && {
            &&& is_set_up_for(flow, worker)
            &&& flow.tasks@.len() == 3
            &&& flow.tasks@[0].component matches Component::WorkerReceiver(server) && components(
                server.address,
            ) == components(cache.workers@[k].info.worker_to_worker).update(
                0,
                seq![4u8, 0u8, 0u8, 0u8, 0u8],
            )
            &&& flow.tasks@[1].component is Helper
            &&& flow.tasks@[2].component matches Component::Processor { own_batch: false, .. }
            &&& flow.channels@.len() == 3
            &&& flow.channels@[0].channel == Channel::WorkerHelper
            &&& flow.channels@[1].channel == Channel::ClientHelper
            &&& flow.channels@[2].channel == Channel::WorkerProcessor
            &&& flow.handles@ =~= seq![1usize, 2usize, 0usize]
        }),
{
    law_first_line_counts(cache, k);
    let known = components(cache.workers@[k].info.worker_to_worker);
    if known.len() > 0 {
        law_listening_keeps_the_rest(known);
        assert(on_all_interfaces(known) =~= known.update(0, seq![4u8, 0u8, 0u8, 0u8, 0u8]));
        let flow = outcome->Ok_0;
        assert(flow.tasks@.len() == flow@.tasks.len());
        assert(flow.handles@.len() == flow@.handles.len());
        assert(flow.tasks@[0]@ == flow@.tasks[0]);
        assert(flow.handles@[0] == flow@.handles[0]);
        assert(flow.tasks@[1]@ == flow@.tasks[1]);
        assert(flow.handles@[1] == flow@.handles[1]);
        assert(flow.tasks@[2]@ == flow@.tasks[2]);
        assert(flow.handles@[2] == flow@.handles[2]);
    }
}

/// What is set up to serve the primary listens at the address in the line of the worker cache that has
/// the key and the id of the worker, on all interfaces. Only an empty address is refused. The
/// listener is spawned first, and its handle comes back last.
pub proof fn law_serves_the_primary_at_its_line(
    worker: Worker,
    cache: WorkerCache,
    outcome: Result<Flow, SpawnError>,
    k: int,
)
    requires
        call_ensures(Worker::handle_primary_messages, (&worker, &cache), outcome),
        0 <= k < cache.workers@.len(),
        cache.workers@[k].authority.bytes@ == worker.primary_name.bytes@,
        cache.workers@[k].id == worker.id,
        forall|a: int|
            0 <= a < k && (#[trigger] cache.workers@[a]).id == worker.id
                ==> cache.workers@[a].authority.bytes@ != worker.primary_name.bytes@,
    ensures
        components(cache.workers@[k].info.primary_to_worker).len() == 0 ==> outcome == Err::<Flow, _>(
            SpawnError::EmptyAddress,
        ),
        components(cache.workers@[k].info.primary_to_worker).len() > 0 ==> (outcome matches Ok(flow) && {
            &&& is_set_up_for(flow, worker)
            &&& flow.tasks@.len() == 2
            &&& flow.tasks@[0].component matches Component::PrimaryReceiver(server) && components(
                server.address,
            ) == components(cache.workers@[k].info.primary_to_worker).update(
                0,
                seq![4u8, 0u8, 0u8, 0u8, 0u8],
            )
            &&& flow.tasks@[1].component is Synchronizer
            &&& flow.channels@.len() == 1
            &&& flow.channels@[0].channel == Channel::Synchronizer
            &&& flow.handles@ =~= seq![1usize, 0usize]
        }),
{
    law_first_line_counts(cache, k);
    let known = components(cache.workers@[k].info.primary_to_worker);
    if known.len() > 0 {
        law_listening_keeps_the_rest(known);
        assert(on_all_interfaces(known) =~= known.update(0, seq![4u8, 0u8, 0u8, 0u8, 0u8]));
        let flow = outcome->Ok_0;
        assert(flow.tasks@.len() == flow@.tasks.len());
        assert(flow.handles@.len() == flow@.handles.len());
        assert(flow.tasks@[0]@ == flow@.tasks[0]);
        assert(flow.handles@[0] == flow@.handles[0]);
        assert(flow.tasks@[1]@ == flow@.tasks[1]);
        assert(flow.handles@[1] == flow@.handles[1]);
    }
}

/// A worker whose key and id no line of the worker cache has is refused, whomever it is to serve.
pub proof fn law_serves_nobody_without_a_line(
    worker: Worker,
    cache: WorkerCache,
    outcome: Result<Flow, SpawnError>,
)
    requires
        call_ensures(Worker::handle_clients_transactions, (&worker, &cache), outcome)
            || call_ensures(Worker::handle_workers_messages, (&worker, &cache), outcome)
            || call_ensures(Worker::handle_primary_messages, (&worker, &cache), outcome),
        forall|a: int|
            0 <= a < cache.workers@.len() && (#[trigger] cache.workers@[a]).id == worker.id
                ==> cache.workers@[a].authority.bytes@ != worker.primary_name.bytes@,
    ensures
        outcome == Err::<Flow, _>(SpawnError::NotInWorkerCache),
{
    law_only_lines_are_found(cache, worker.primary_name.bytes@, worker.id);
}

/// The channel of the connector is made, and the reconfiguration channel started, exactly if all
/// four kinds of metrics are registered.
pub proof fn law_opens_with_all_metrics(metrics: Metrics, outcome: Result<Opening, SpawnError>)
    requires
        call_ensures(Worker::open, (metrics,), outcome),
    ensures
        outcome is Ok <==> metrics.worker_metrics && metrics.channel_metrics
            && metrics.endpoint_metrics && metrics.network_metrics,
        outcome matches Err(error) ==> error == SpawnError::MissingMetrics,
        outcome matches Ok(opening) ==> {
            &&& opening.first.notification == ReconfigureNotification::NewEpoch
            &&& opening.first.committee == CommitteeUse::Initial
            &&& opening.channel.channel == Channel::Primary
            &&& opening.channel.capacity == 1_000
            &&& opening.channel.gauge == ChannelGauge::TxPrimary
        },
{
}

/// Booting fails with the first failure of its parts, in this order: the metrics, what serves
/// clients, what serves other workers, what serves the primary, and the line of the worker in the
/// worker cache when all is set up. Where none fails it succeeds, and its tasks are those of the
/// parts, one after the other, and one more.
pub proof fn law_the_first_failure_stops_the_boot(
    primary_name: PublicKey,
    id: WorkerId,
    parameters: Parameters,
    metrics: Metrics,
    reads: CacheReads,
    outcome: Result<Boot, SpawnError>,
    clients: Result<Flow, SpawnError>,
    workers: Result<Flow, SpawnError>,
    primary: Result<Flow, SpawnError>,
)
    requires
        call_ensures(Worker::spawn, (primary_name, id, parameters, metrics, &reads), outcome),
        call_ensures(
            Worker::handle_clients_transactions,
            (&(Worker { primary_name, id, parameters }), &reads.clients),
            clients,
        ),
        call_ensures(
            Worker::handle_workers_messages,
            (&(Worker { primary_name, id, parameters }), &reads.workers),
            workers,
        ),
        call_ensures(
            Worker::handle_primary_messages,
            (&(Worker { primary_name, id, parameters }), &reads.primary),
            primary,
        ),
    ensures
        ({
            let measured = metrics.worker_metrics && metrics.channel_metrics
                && metrics.endpoint_metrics && metrics.network_metrics;
            let listed = exists|a: int|
                0 <= a < reads.booted.workers@.len() && (
                #[trigger] reads.booted.workers@[a]).authority.bytes@ == primary_name.bytes@
                    && reads.booted.workers@[a].id == id;
            &&& !measured ==> outcome == Err::<Boot, _>(SpawnError::MissingMetrics)
            &&& measured ==> match (clients, workers, primary) {
                (Err(error), _, _) => outcome == Err::<Boot, _>(error),
                (Ok(_), Err(error), _) => outcome == Err::<Boot, _>(error),
                (Ok(_), Ok(_), Err(error)) => outcome == Err::<Boot, _>(error),
                (Ok(c), Ok(w), Ok(p)) => if listed {
                    outcome matches Ok(boot) && boot.flow@.tasks.drop_last() == c@.tasks + w@.tasks
                        + p@.tasks
                } else {
                    outcome == Err::<Boot, _>(SpawnError::NotInWorkerCache)
                },
            }
        }),
{
    let lines = reads.booted.workers@;
    if exists|a: int|
        0 <= a < lines.len() && (#[trigger] lines[a]).authority.bytes@ == primary_name.bytes@
            && lines[a].id == id {
        lemma_found(reads.booted, primary_name.bytes@, id);
    } else {
        law_only_lines_are_found(reads.booted, primary_name.bytes@, id);
    }
    if clients is Ok && workers is Ok && primary is Ok && outcome is Ok {
        assert(outcome->Ok_0.flow@.tasks.drop_last() =~= clients->Ok_0@.tasks
            + workers->Ok_0@.tasks + primary->Ok_0@.tasks);
    }
}

/// Where a line has the authority and the id, they are found.
proof fn lemma_found(cache: WorkerCache, authority: Seq<u8>, id: WorkerId)
    requires
        exists|a: int|
            0 <= a < cache.workers@.len() && (#[trigger] cache.workers@[a]).authority.bytes@
                == authority && cache.workers@[a].id == id,
    ensures
        cache@.contains_key((authority, id)),
{
    let a = choose|a: int|
        0 <= a < cache.workers@.len() && (#[trigger] cache.workers@[a]).authority.bytes@
            == authority && cache.workers@[a].id == id;
    lemma_found_up_to(cache, authority, id, a);
}

proof fn lemma_found_up_to(cache: WorkerCache, authority: Seq<u8>, id: WorkerId, a: int)
    requires
        0 <= a < cache.workers@.len(),
        cache.workers@[a].authority.bytes@ == authority,
        cache.workers@[a].id == id,
    ensures
        cache@.contains_key((authority, id)),
    decreases a,
{
    if exists|b: int|
        0 <= b < a && (#[trigger] cache.workers@[b]).authority.bytes@ == authority
            && cache.workers@[b].id == id {
        let b = choose|b: int|
            0 <= b < a && (#[trigger] cache.workers@[b]).authority.bytes@ == authority
                && cache.workers@[b].id == id;
        lemma_found_up_to(cache, authority, id, b);
    } else {
        law_first_line_counts(cache, a);
    }
}

} // verus!
