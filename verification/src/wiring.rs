//! What holds of a booted worker as a whole: that its tasks and channels fit together.

use crate::address::on_all_interfaces;
use crate::receiver::ReconfigureNotification;
use crate::task::{
    gauge_of, BootView, Channel, CommitteeUse, ComponentView, FlowView, ReconfigureEnd, ServerView,
    CHANNEL_CAPACITY,
};
use crate::worker::{
    boot_flow, clients_flow, planned_boot, planned_for_clients, planned_for_primary,
    planned_for_workers, planned_opening, primary_flow, workers_flow, CacheReadsView, Metrics,
    SpawnError, WorkerView,
};
use vstd::prelude::*;

verus! {

/// A worker that listens to clients, to other workers and to the primary on these addresses.
spec fn booted(
    worker: WorkerView,
    to_clients: Seq<Seq<u8>>,
    to_workers: Seq<Seq<u8>>,
    to_primary: Seq<Seq<u8>>,
) -> FlowView {
    boot_flow(
        worker,
        clients_flow(worker, to_clients),
        workers_flow(worker, to_workers),
        primary_flow(worker, to_primary),
    )
}

/// Task `i` reads from the channel.
pub open spec fn reads_from(flow: FlowView, i: int, channel: Channel) -> bool {
    0 <= i < flow.tasks.len() && flow.tasks[i].inputs.contains(channel)
}

/// Task `i` writes to the channel.
pub open spec fn writes_to(flow: FlowView, i: int, channel: Channel) -> bool {
    0 <= i < flow.tasks.len() && flow.tasks[i].outputs.contains(channel)
}

/// What task `i` writes to the channel is read by task `j`.
pub open spec fn feeds(flow: FlowView, i: int, channel: Channel, j: int) -> bool {
    writes_to(flow, i, channel) && reads_from(flow, j, channel)
}

/// The flow makes the channel at place `i`.
pub open spec fn makes(flow: FlowView, i: int, channel: Channel) -> bool {
    0 <= i < flow.channels.len() && flow.channels[i].channel == channel
}

/// The position of the task that reads from a channel.
spec fn reader_of(channel: Channel) -> int {
    match channel {
        Channel::BatchMaker => 1,
        Channel::QuorumWaiter => 2,
        Channel::ClientProcessor => 3,
        Channel::WorkerHelper => 5,
        Channel::ClientHelper => 5,
        Channel::WorkerProcessor => 6,
        Channel::Synchronizer => 8,
        Channel::Primary => 9,
    }
}

/// Whether the task at a position writes to a channel.
spec fn is_writer_of(i: int, channel: Channel) -> bool {
    match channel {
        Channel::BatchMaker => i == 0,
        Channel::QuorumWaiter => i == 1,
        Channel::ClientProcessor => i == 2,
        Channel::WorkerHelper => i == 4,
        Channel::ClientHelper => i == 4,
        Channel::WorkerProcessor => i == 4,
        Channel::Synchronizer => i == 7,
        Channel::Primary => i == 3 || i == 6 || i == 8,
    }
}

/// A singleton holds its element and nothing else.
proof fn lemma_singleton(a: Channel)
    ensures
        forall|c: Channel| #[trigger] seq![a].contains(c) <==> c == a,
{
    assert(seq![a][0] == a);
}

/// From which channels each task of a worker reads, and to which it writes.
proof fn lemma_tasks(
    worker: WorkerView,
    to_clients: Seq<Seq<u8>>,
    to_workers: Seq<Seq<u8>>,
    to_primary: Seq<Seq<u8>>,
)
    ensures
        ({
            let flow = booted(worker, to_clients, to_workers, to_primary);
            &&& flow.tasks.len() == 10
            &&& forall|i: int, c: Channel| #[trigger]
                reads_from(flow, i, c) <==> i == reader_of(c)
            &&& forall|i: int, c: Channel| #[trigger]
                writes_to(flow, i, c) <==> is_writer_of(i, c)
        }),
{
    let flow = booted(worker, to_clients, to_workers, to_primary);
    lemma_singleton(Channel::BatchMaker);
    lemma_singleton(Channel::QuorumWaiter);
    lemma_singleton(Channel::ClientProcessor);
    lemma_singleton(Channel::WorkerProcessor);
    lemma_singleton(Channel::Synchronizer);
    lemma_singleton(Channel::Primary);
    let requests = seq![Channel::WorkerHelper, Channel::ClientHelper];
    assert(forall|c: Channel| #[trigger]
        requests.contains(c) <==> c == Channel::WorkerHelper || c == Channel::ClientHelper) by {
        assert(requests[0] == Channel::WorkerHelper);
        assert(requests[1] == Channel::ClientHelper);
    }
    let messages = seq![Channel::WorkerHelper, Channel::ClientHelper, Channel::WorkerProcessor];
    assert(forall|c: Channel| #[trigger]
        messages.contains(c) <==> c == Channel::WorkerHelper || c == Channel::ClientHelper || c
            == Channel::WorkerProcessor) by {
        assert(messages[0] == Channel::WorkerHelper);
        assert(messages[1] == Channel::ClientHelper);
        assert(messages[2] == Channel::WorkerProcessor);
    }
}

/// A worker that boots listens where the worker cache says, on every interface.
proof fn lemma_boot(worker: WorkerView, metrics: Metrics, reads: CacheReadsView, flow: FlowView)
    requires
        planned_boot(worker, metrics, reads) matches Ok(boot) && boot.flow == flow,
    ensures
        flow == booted(
            worker,
            on_all_interfaces(reads.clients[worker.key()].transactions),
            on_all_interfaces(reads.workers[worker.key()].worker_to_worker),
            on_all_interfaces(reads.primary[worker.key()].primary_to_worker),
        ),
{
}

/// What `lemma_tasks` says of a worker that boots.
proof fn lemma_boot_tasks(
    worker: WorkerView,
    metrics: Metrics,
    reads: CacheReadsView,
    flow: FlowView,
)
    requires
        planned_boot(worker, metrics, reads) matches Ok(boot) && boot.flow == flow,
    ensures
        flow.tasks.len() == 10,
        forall|i: int, c: Channel| #[trigger] reads_from(flow, i, c) <==> i == reader_of(c),
        forall|i: int, c: Channel| #[trigger] writes_to(flow, i, c) <==> is_writer_of(i, c),
{
    lemma_boot(worker, metrics, reads, flow);
    lemma_tasks(
        worker,
        on_all_interfaces(reads.clients[worker.key()].transactions),
        on_all_interfaces(reads.workers[worker.key()].worker_to_worker),
        on_all_interfaces(reads.primary[worker.key()].primary_to_worker),
    );
}

/// A worker boots exactly when all metrics are registered, it is in the worker cache each
/// time that it looks, and none of the addresses on which it has to listen is empty.
pub proof fn law_boots_exactly_when(worker: WorkerView, metrics: Metrics, reads: CacheReadsView)
    ensures
        planned_boot(worker, metrics, reads) is Ok <==> {
            &&& metrics.worker_metrics && metrics.channel_metrics && metrics.endpoint_metrics
                && metrics.network_metrics
            &&& reads.clients.contains_key((worker.primary_name, worker.id))
            &&& reads.clients[(worker.primary_name, worker.id)].transactions.len() > 0
            &&& reads.workers.contains_key((worker.primary_name, worker.id))
            &&& reads.workers[(worker.primary_name, worker.id)].worker_to_worker.len() > 0
            &&& reads.primary.contains_key((worker.primary_name, worker.id))
            &&& reads.primary[(worker.primary_name, worker.id)].primary_to_worker.len() > 0
            &&& reads.booted.contains_key((worker.primary_name, worker.id))
        },
{
}

/// A worker can be set up part by part: what is planned for the opening, for clients, for other
/// workers and for the primary, each with the worker cache at that time, is what booting comes
/// to, but for one task at the end, the connector to the primary.
pub proof fn law_parts_make_the_whole(
    worker: WorkerView,
    metrics: Metrics,
    reads: CacheReadsView,
    boot: BootView,
)
    requires
        planned_boot(worker, metrics, reads) == Ok::<_, SpawnError>(boot),
    ensures
        planned_opening(metrics) matches Ok(opening) && planned_for_clients(
            worker,
            reads.clients,
        ) matches Ok(clients) && planned_for_workers(worker, reads.workers) matches Ok(workers)
            && planned_for_primary(worker, reads.primary) matches Ok(primary) && {
            &&& boot.first == opening.first
            &&& boot.flow.channels == seq![opening.channel] + clients.channels + workers.channels
                + primary.channels
            &&& boot.flow.tasks.drop_last() == clients.tasks + workers.tasks + primary.tasks
            &&& boot.flow.tasks.last().component is PrimaryConnector
        },
{
    let clients = planned_for_clients(worker, reads.clients)->Ok_0;
    let workers = planned_for_workers(worker, reads.workers)->Ok_0;
    let primary = planned_for_primary(worker, reads.primary)->Ok_0;
    assert(boot.flow.tasks.drop_last() =~= clients.tasks + workers.tasks + primary.tasks);
}

/// Every channel of a worker has exactly one reader.
pub proof fn law_every_channel_has_one_reader(
    worker: WorkerView,
    metrics: Metrics,
    reads: CacheReadsView,
    flow: FlowView,
    channel: Channel,
)
    requires
        planned_boot(worker, metrics, reads) matches Ok(boot) && boot.flow == flow,
    ensures
        exists|i: int| reads_from(flow, i, channel),
        forall|i: int, j: int|
            reads_from(flow, i, channel) && reads_from(flow, j, channel) ==> i == j,
{
    lemma_boot_tasks(worker, metrics, reads, flow);
    assert(reads_from(flow, reader_of(channel), channel));
}

/// Every channel of a worker is written to, and never by its own reader.
pub proof fn law_every_channel_is_written_to(
    worker: WorkerView,
    metrics: Metrics,
    reads: CacheReadsView,
    flow: FlowView,
    channel: Channel,
)
    requires
        planned_boot(worker, metrics, reads) matches Ok(boot) && boot.flow == flow,
    ensures
        exists|i: int| writes_to(flow, i, channel),
        forall|i: int| !(writes_to(flow, i, channel) && reads_from(flow, i, channel)),
{
    lemma_boot_tasks(worker, metrics, reads, flow);
    let writer: int = match channel {
        Channel::BatchMaker => 0,
        Channel::QuorumWaiter => 1,
        Channel::ClientProcessor => 2,
        Channel::Synchronizer => 7,
        Channel::Primary => 3,
        _ => 4,
    };
    assert(is_writer_of(writer, channel));
    assert(writes_to(flow, writer, channel));
}

/// Every channel is made exactly once, all have the same capacity, and each is measured by
/// the gauge of its own name.
pub proof fn law_every_channel_is_made_once(
    worker: WorkerView,
    metrics: Metrics,
    reads: CacheReadsView,
    flow: FlowView,
    channel: Channel,
)
    requires
        planned_boot(worker, metrics, reads) matches Ok(boot) && boot.flow == flow,
    ensures
        exists|i: int| makes(flow, i, channel),
        forall|i: int, j: int| makes(flow, i, channel) && makes(flow, j, channel) ==> i == j,
        forall|i: int|
            0 <= i < flow.channels.len() ==> (#[trigger] flow.channels[i]).capacity
                == CHANNEL_CAPACITY,
        CHANNEL_CAPACITY == 1_000,
        forall|i: int| #[trigger]
            makes(flow, i, channel) ==> flow.channels[i].gauge == gauge_of(channel),
{
    lemma_boot(worker, metrics, reads, flow);
    let place: int = match channel {
        Channel::Primary => 0,
        Channel::BatchMaker => 1,
        Channel::QuorumWaiter => 2,
        Channel::ClientProcessor => 3,
        Channel::WorkerHelper => 4,
        Channel::ClientHelper => 5,
        Channel::WorkerProcessor => 6,
        Channel::Synchronizer => 7,
    };
    assert(makes(flow, place, channel));
}

/// The handle of every task that is spawned is returned exactly once, and no other handle is.
pub proof fn law_every_handle_is_returned_once(
    worker: WorkerView,
    metrics: Metrics,
    reads: CacheReadsView,
    flow: FlowView,
)
    requires
        planned_boot(worker, metrics, reads) matches Ok(boot) && boot.flow == flow,
    ensures
        flow.handles.len() == flow.tasks.len(),
        forall|i: int|
            0 <= i < flow.handles.len() ==> 0 <= #[trigger] flow.handles[i] < flow.tasks.len(),
        forall|i: int, j: int|
            0 <= i < j < flow.handles.len() ==> #[trigger] flow.handles[i]
                != #[trigger] flow.handles[j],
        forall|task: int|
            0 <= task < flow.tasks.len() ==> #[trigger] flow.handles.contains(task),
{
    lemma_boot(worker, metrics, reads, flow);
    let expected: Seq<int> = seq![9, 8, 7, 1, 2, 3, 0, 5, 6, 4];
    assert(flow.tasks.len() == 10);
    assert(flow.handles =~= expected);
    assert forall|task: int| 0 <= task < 10 implies #[trigger] expected.contains(task) by {
        assert(expected[0] == 9 && expected[1] == 8 && expected[2] == 7 && expected[3] == 1);
        assert(expected[4] == 2 && expected[5] == 3 && expected[6] == 0 && expected[7] == 5);
        assert(expected[8] == 6 && expected[9] == 4);
    }
}

/// No two channels are measured by one gauge.
pub proof fn law_every_channel_has_its_own_gauge(a: Channel, b: Channel)
    requires
        gauge_of(a).text() == gauge_of(b).text(),
    ensures
        a == b,
{
    reveal_strlit("tx_primary");
    reveal_strlit("tx_synchronizer");
    reveal_strlit("tx_batch_maker");
    reveal_strlit("tx_quorum_waiter");
    reveal_strlit("tx_client_processor");
    reveal_strlit("tx_worker_helper");
    reveal_strlit("tx_client_helper");
    reveal_strlit("tx_worker_processor");
    let text = gauge_of(a).text();
    assert(text.len() == gauge_of(b).text().len());
    assert(text[3] == gauge_of(b).text()[3]);
}

/// The reconfiguration channel starts with a new epoch and the committee with which the worker
/// begins to boot. The connector to the primary is given that same committee, and no other
/// task is.
pub proof fn law_first_committee_goes_to_the_connector(
    worker: WorkerView,
    metrics: Metrics,
    reads: CacheReadsView,
    boot: BootView,
)
    requires
        planned_boot(worker, metrics, reads) == Ok::<_, SpawnError>(boot),
    ensures
        boot.first.notification == ReconfigureNotification::NewEpoch,
        boot.first.committee == CommitteeUse::Initial,
        forall|i: int|
            0 <= i < boot.flow.tasks.len() ==> ((
            #[trigger] boot.flow.tasks[i]).resources.committee == boot.first.committee
                <==> boot.flow.tasks[i].component is PrimaryConnector),
        exists|i: int|
            0 <= i < boot.flow.tasks.len() && (
            #[trigger] boot.flow.tasks[i]).component is PrimaryConnector,
{
    lemma_boot(worker, metrics, reads, boot.flow);
    assert(boot.flow.tasks[9].component is PrimaryConnector);
}

/// Whether the receiver of task `i` of the reconfiguration channel exists when task `j` is
/// spawned: it was made with the channel, or when a task before `j` was spawned.
pub open spec fn is_told_before(flow: FlowView, i: int, j: int) -> bool {
    match flow.tasks[i].reconfigure {
        ReconfigureEnd::Sender => false,
        ReconfigureEnd::FirstReceiver => true,
        ReconfigureEnd::Subscriber => i < j,
    }
}

/// Every other task has its receiver of the reconfiguration channel before the synchronizer,
/// which holds the only sender, is spawned: no task can miss what it announces. The receiver
/// that is made with the channel is that of the connector to the primary alone.
pub proof fn law_receivers_exist_before_the_sender_runs(
    worker: WorkerView,
    metrics: Metrics,
    reads: CacheReadsView,
    flow: FlowView,
    synchronizer: int,
    i: int,
)
    requires
        planned_boot(worker, metrics, reads) matches Ok(boot) && boot.flow == flow,
        0 <= synchronizer < flow.tasks.len(),
        flow.tasks[synchronizer].reconfigure == ReconfigureEnd::Sender,
        0 <= i < flow.tasks.len(),
    ensures
        flow.tasks[synchronizer].component is Synchronizer,
        i != synchronizer ==> is_told_before(flow, i, synchronizer),
        flow.tasks[i].reconfigure == ReconfigureEnd::FirstReceiver
            <==> flow.tasks[i].component is PrimaryConnector,
        flow.tasks[i].reconfigure == ReconfigureEnd::Subscriber ==> i < synchronizer,
{
    lemma_boot(worker, metrics, reads, flow);
}

/// One task announces reconfigurations, the synchronizer, and every other task is told of
/// them.
pub proof fn law_all_tasks_follow_the_synchronizer(
    worker: WorkerView,
    metrics: Metrics,
    reads: CacheReadsView,
    flow: FlowView,
)
    requires
        planned_boot(worker, metrics, reads) matches Ok(boot) && boot.flow == flow,
    ensures
        exists|i: int|
            0 <= i < flow.tasks.len() && (#[trigger] flow.tasks[i]).component is Synchronizer,
        forall|i: int, j: int|
            0 <= i < flow.tasks.len() && 0 <= j < flow.tasks.len() && (
            #[trigger] flow.tasks[i]).component is Synchronizer && (
            #[trigger] flow.tasks[j]).component is Synchronizer ==> i == j,
        forall|i: int|
            0 <= i < flow.tasks.len() ==> ((#[trigger] flow.tasks[i]).reconfigure
                == ReconfigureEnd::Sender <==> flow.tasks[i].component is Synchronizer),
{
    lemma_boot(worker, metrics, reads, flow);
    assert(flow.tasks[8].component is Synchronizer);
}

/// The transactions of clients go from the listener through the batch maker, the quorum
/// waiter and a processor, which takes the batches for our own, to the primary.
pub proof fn law_transactions_reach_the_primary(
    worker: WorkerView,
    metrics: Metrics,
    reads: CacheReadsView,
    flow: FlowView,
)
    requires
        planned_boot(worker, metrics, reads) matches Ok(boot) && boot.flow == flow,
    ensures
        exists|listener: int, batch_maker: int, quorum_waiter: int, processor: int, connector: int|
            {
                &&& #[trigger] feeds(flow, listener, Channel::BatchMaker, batch_maker)
                &&& #[trigger] feeds(flow, batch_maker, Channel::QuorumWaiter, quorum_waiter)
                &&& #[trigger] feeds(flow, quorum_waiter, Channel::ClientProcessor, processor)
                &&& #[trigger] feeds(flow, processor, Channel::Primary, connector)
                &&& flow.tasks[listener].component is TxReceiver
                &&& flow.tasks[batch_maker].component is BatchMaker
                &&& flow.tasks[quorum_waiter].component is QuorumWaiter
                &&& flow.tasks[processor].component == (ComponentView::Processor {
                    id: worker.id,
                    own_batch: true,
                })
                &&& flow.tasks[connector].component is PrimaryConnector
            },
{
    lemma_boot(worker, metrics, reads, flow);
    lemma_boot_tasks(worker, metrics, reads, flow);
    assert(writes_to(flow, 0, Channel::BatchMaker) && reads_from(flow, 1, Channel::BatchMaker));
    assert(writes_to(flow, 1, Channel::QuorumWaiter) && reads_from(flow, 2, Channel::QuorumWaiter));
    assert(writes_to(flow, 2, Channel::ClientProcessor)
        && reads_from(flow, 3, Channel::ClientProcessor));
    assert(writes_to(flow, 3, Channel::Primary) && reads_from(flow, 9, Channel::Primary));
    assert(feeds(flow, 0, Channel::BatchMaker, 1));
    assert(feeds(flow, 1, Channel::QuorumWaiter, 2));
    assert(feeds(flow, 2, Channel::ClientProcessor, 3));
    assert(feeds(flow, 3, Channel::Primary, 9));
}

/// What other workers and clients ask for goes from the listener to the helper, and the
/// batches of other workers go through a processor, which takes them for those of others,
/// to the primary.
pub proof fn law_worker_messages_find_their_tasks(
    worker: WorkerView,
    metrics: Metrics,
    reads: CacheReadsView,
    flow: FlowView,
)
    requires
        planned_boot(worker, metrics, reads) matches Ok(boot) && boot.flow == flow,
    ensures
        exists|listener: int, helper: int, processor: int, connector: int|
            {
                &&& #[trigger] feeds(flow, listener, Channel::WorkerHelper, helper)
                &&& feeds(flow, listener, Channel::ClientHelper, helper)
                &&& #[trigger] feeds(flow, listener, Channel::WorkerProcessor, processor)
                &&& #[trigger] feeds(flow, processor, Channel::Primary, connector)
                &&& flow.tasks[listener].component is WorkerReceiver
                &&& flow.tasks[helper].component is Helper
                &&& flow.tasks[processor].component == (ComponentView::Processor {
                    id: worker.id,
                    own_batch: false,
                })
                &&& flow.tasks[connector].component is PrimaryConnector
            },
{
    lemma_boot(worker, metrics, reads, flow);
    lemma_boot_tasks(worker, metrics, reads, flow);
    assert(writes_to(flow, 4, Channel::WorkerHelper) && reads_from(flow, 5, Channel::WorkerHelper));
    assert(writes_to(flow, 4, Channel::ClientHelper) && reads_from(flow, 5, Channel::ClientHelper));
    assert(writes_to(flow, 4, Channel::WorkerProcessor)
        && reads_from(flow, 6, Channel::WorkerProcessor));
    assert(writes_to(flow, 6, Channel::Primary) && reads_from(flow, 9, Channel::Primary));
    assert(feeds(flow, 4, Channel::WorkerHelper, 5));
    assert(feeds(flow, 4, Channel::ClientHelper, 5));
    assert(feeds(flow, 4, Channel::WorkerProcessor, 6));
    assert(feeds(flow, 6, Channel::Primary, 9));
}

/// The messages of the primary go from the listener to the synchronizer, which can answer
/// the primary.
pub proof fn law_primary_messages_reach_the_synchronizer(
    worker: WorkerView,
    metrics: Metrics,
    reads: CacheReadsView,
    flow: FlowView,
)
    requires
        planned_boot(worker, metrics, reads) matches Ok(boot) && boot.flow == flow,
    ensures
        exists|listener: int, synchronizer: int, connector: int|
            {
                &&& #[trigger] feeds(flow, listener, Channel::Synchronizer, synchronizer)
                &&& #[trigger] feeds(flow, synchronizer, Channel::Primary, connector)
                &&& flow.tasks[listener].component is PrimaryReceiver
                &&& flow.tasks[synchronizer].component is Synchronizer
                &&& flow.tasks[connector].component is PrimaryConnector
            },
{
    lemma_boot(worker, metrics, reads, flow);
    lemma_boot_tasks(worker, metrics, reads, flow);
    assert(writes_to(flow, 7, Channel::Synchronizer) && reads_from(flow, 8, Channel::Synchronizer));
    assert(writes_to(flow, 8, Channel::Primary) && reads_from(flow, 9, Channel::Primary));
    assert(feeds(flow, 7, Channel::Synchronizer, 8));
    assert(feeds(flow, 8, Channel::Primary, 9));
}

/// Every listener listens on all interfaces, at the address at which the worker cache has
/// the worker. Only what other workers send is limited in how much of it is handled at a
/// time.
pub proof fn law_listens_where_it_is_known(
    worker: WorkerView,
    metrics: Metrics,
    reads: CacheReadsView,
    flow: FlowView,
    i: int,
)
    requires
        planned_boot(worker, metrics, reads) matches Ok(boot) && boot.flow == flow,
        0 <= i < flow.tasks.len(),
    ensures
        flow.tasks[i].component matches ComponentView::TxReceiver(server) ==> server == (
        ServerView {
            address: on_all_interfaces(
                reads.clients[(worker.primary_name, worker.id)].transactions,
            ),
            concurrency_limit_per_connection: None,
        }),
        flow.tasks[i].component matches ComponentView::WorkerReceiver(server) ==> server == (
        ServerView {
            address: on_all_interfaces(
                reads.workers[(worker.primary_name, worker.id)].worker_to_worker,
            ),
            concurrency_limit_per_connection: Some(worker.parameters.max_concurrent_requests),
        }),
        flow.tasks[i].component matches ComponentView::PrimaryReceiver(server) ==> server == (
        ServerView {
            address: on_all_interfaces(
                reads.primary[(worker.primary_name, worker.id)].primary_to_worker,
            ),
            concurrency_limit_per_connection: None,
        }),
{
    lemma_boot(worker, metrics, reads, flow);
}

/// Every task that is told who it works for is told the identity of the worker.
pub proof fn law_tasks_work_for_the_worker(
    worker: WorkerView,
    metrics: Metrics,
    reads: CacheReadsView,
    flow: FlowView,
    i: int,
)
    requires
        planned_boot(worker, metrics, reads) matches Ok(boot) && boot.flow == flow,
        0 <= i < flow.tasks.len(),
    ensures
        match flow.tasks[i].component {
            ComponentView::PrimaryConnector { primary_name } => primary_name
                == worker.primary_name,
            ComponentView::Synchronizer { primary_name, id, .. } => (primary_name, id)
                == (worker.primary_name, worker.id),
            ComponentView::QuorumWaiter { primary_name, id } => (primary_name, id)
                == (worker.primary_name, worker.id),
            ComponentView::Processor { id, .. } => id == worker.id,
            ComponentView::Helper { id } => id == worker.id,
            _ => true,
        },
{
    lemma_boot(worker, metrics, reads, flow);
}

} // verus!
