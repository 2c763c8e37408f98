use multiaddr::Multiaddr;
use narwhal_worker::cache::{WorkerCache, WorkerEntry, WorkerInfo};
use narwhal_worker::keys::PublicKey;
use narwhal_worker::receiver::ReconfigureNotification;
use narwhal_worker::task::{
    Announcement, Boot, Channel, ChannelGauge, CommitteeUse, Component, Flow, NetworkLabel,
    ReconfigureEnd, Resources, Server, CHANNEL_CAPACITY,
};
use narwhal_worker::worker::{CacheReads, Metrics, Parameters, SpawnError, Worker};
use std::time::Duration;

fn key(byte: u8) -> PublicKey {
    PublicKey { bytes: vec![byte; 4] }
}

fn address(text: &str) -> Multiaddr {
    text.parse().unwrap()
}

fn info(base: u16) -> WorkerInfo {
    WorkerInfo {
        transactions: address(&format!("/ip4/10.0.0.1/tcp/{}/http", base)),
        worker_to_worker: address(&format!("/dns/worker.example/tcp/{}/http", base + 1)),
        primary_to_worker: address(&format!("/ip6/::1/tcp/{}", base + 2)),
    }
}

fn cache() -> WorkerCache {
    WorkerCache {
        workers: vec![
            WorkerEntry { authority: key(1), id: 0, info: info(1000) },
            WorkerEntry { authority: key(2), id: 0, info: info(2000) },
            WorkerEntry { authority: key(2), id: 1, info: info(3000) },
        ],
    }
}

fn without_us() -> WorkerCache {
    WorkerCache { workers: vec![WorkerEntry { authority: key(2), id: 0, info: info(2000) }] }
}

fn with_info(info: WorkerInfo) -> WorkerCache {
    WorkerCache { workers: vec![WorkerEntry { authority: key(2), id: 1, info }] }
}

fn reads() -> CacheReads {
    CacheReads { clients: cache(), workers: cache(), primary: cache(), booted: cache() }
}

fn parameters() -> Parameters {
    Parameters {
        gc_depth: 50,
        sync_retry_delay: Duration::from_millis(5_000),
        sync_retry_nodes: 3,
        batch_size: 500_000,
        max_batch_delay: Duration::from_millis(100),
        max_concurrent_requests: 500_000,
    }
}

fn metrics() -> Metrics {
    Metrics {
        worker_metrics: true,
        channel_metrics: true,
        endpoint_metrics: true,
        network_metrics: true,
    }
}

fn boot() -> Boot {
    Worker::spawn(key(2), 1, parameters(), metrics(), &reads()).unwrap()
}

fn spawn(metrics: Metrics, reads: &CacheReads) -> Result<Flow, SpawnError> {
    Worker::spawn(key(2), 1, parameters(), metrics, reads).map(|boot| boot.flow)
}

fn worker() -> Worker {
    Worker { primary_name: key(2), id: 1, parameters: parameters() }
}

fn readers(flow: &Flow, channel: Channel) -> Vec<usize> {
    (0..flow.tasks.len()).filter(|i| flow.tasks[*i].inputs.contains(&channel)).collect()
}

fn writers(flow: &Flow, channel: Channel) -> Vec<usize> {
    (0..flow.tasks.len()).filter(|i| flow.tasks[*i].outputs.contains(&channel)).collect()
}

const ALL: [Channel; 8] = [
    Channel::Primary,
    Channel::Synchronizer,
    Channel::BatchMaker,
    Channel::QuorumWaiter,
    Channel::ClientProcessor,
    Channel::WorkerHelper,
    Channel::ClientHelper,
    Channel::WorkerProcessor,
];

#[test]
fn the_cache_is_searched_by_authority_and_id() {
    assert_eq!(cache().worker(&key(2), &1), Ok(&info(3000)));
    assert_eq!(cache().worker(&key(1), &0), Ok(&info(1000)));
    assert!(cache().worker(&key(1), &1).is_err());
    assert!(cache().worker(&key(3), &0).is_err());
}

#[test]
fn the_first_line_about_a_worker_counts() {
    let twice = WorkerCache {
        workers: vec![
            WorkerEntry { authority: key(2), id: 1, info: info(7000) },
            WorkerEntry { authority: key(2), id: 1, info: info(8000) },
        ],
    };
    assert_eq!(twice.worker(&key(2), &1), Ok(&info(7000)));
}

#[test]
fn keys_are_compared_byte_for_byte() {
    assert!(key(7).same_as(&key(7)));
    assert!(!key(7).same_as(&key(8)));
    assert!(!PublicKey { bytes: vec![7; 3] }.same_as(&key(7)));
    assert_eq!(key(7).clone(), key(7));
}

#[test]
fn tasks_are_spawned_in_order() {
    let flow = spawn(metrics(), &reads()).unwrap();
    let components: Vec<Component> = flow.tasks.into_iter().map(|task| task.component).collect();
    assert_eq!(
        components,
        vec![
            Component::TxReceiver(Server {
                address: address("/ip4/0.0.0.0/tcp/3000/http"),
                concurrency_limit_per_connection: None,
            }),
            Component::BatchMaker {
                batch_size: 500_000,
                max_batch_delay: Duration::from_millis(100),
            },
            Component::QuorumWaiter { primary_name: key(2), id: 1 },
            Component::Processor { id: 1, own_batch: true },
            Component::WorkerReceiver(Server {
                address: address("/ip4/0.0.0.0/tcp/3001/http"),
                concurrency_limit_per_connection: Some(500_000),
            }),
            Component::Helper { id: 1 },
            Component::Processor { id: 1, own_batch: false },
            Component::PrimaryReceiver(Server {
                address: address("/ip4/0.0.0.0/tcp/3002"),
                concurrency_limit_per_connection: None,
            }),
            Component::Synchronizer {
                primary_name: key(2),
                id: 1,
                gc_depth: 50,
                sync_retry_delay: Duration::from_millis(5_000),
                sync_retry_nodes: 3,
            },
            Component::PrimaryConnector { primary_name: key(2) },
        ]
    );
}

#[test]
fn handles_come_back_in_order() {
    let flow = spawn(metrics(), &reads()).unwrap();
    assert_eq!(flow.handles, vec![9, 8, 7, 1, 2, 3, 0, 5, 6, 4]);
}

#[test]
fn channels_are_made_once() {
    let flow = spawn(metrics(), &reads()).unwrap();
    assert_eq!(CHANNEL_CAPACITY, 1_000);
    assert_eq!(flow.channels.len(), 8);
    assert_eq!(flow.channels[0].channel, Channel::Primary);
    for channel in ALL {
        assert_eq!(flow.channels.iter().filter(|made| made.channel == channel).count(), 1);
    }
    assert!(flow.channels.iter().all(|made| made.capacity == 1_000));
}

#[test]
fn channels_have_one_reader() {
    let flow = spawn(metrics(), &reads()).unwrap();
    for channel in ALL {
        assert_eq!(readers(&flow, channel).len(), 1);
        assert!(!writers(&flow, channel).is_empty());
        assert!(!writers(&flow, channel).contains(&readers(&flow, channel)[0]));
    }
    assert_eq!(writers(&flow, Channel::Primary), vec![3, 6, 8]);
    assert_eq!(readers(&flow, Channel::Primary), vec![9]);
}

#[test]
fn transactions_reach_the_primary() {
    let flow = spawn(metrics(), &reads()).unwrap();
    let path = [
        Channel::BatchMaker,
        Channel::QuorumWaiter,
        Channel::ClientProcessor,
        Channel::Primary,
    ];
    let mut at = 0;
    for channel in path {
        assert!(writers(&flow, channel).contains(&at));
        at = readers(&flow, channel)[0];
    }
    assert_eq!(flow.tasks[at].component, Component::PrimaryConnector { primary_name: key(2) });
}

#[test]
fn messages_of_workers_and_of_the_primary_find_their_tasks() {
    let flow = spawn(metrics(), &reads()).unwrap();
    assert_eq!(
        flow.tasks[4].outputs,
        vec![Channel::WorkerHelper, Channel::ClientHelper, Channel::WorkerProcessor]
    );
    assert_eq!(flow.tasks[5].inputs, vec![Channel::WorkerHelper, Channel::ClientHelper]);
    assert_eq!(flow.tasks[6].inputs, vec![Channel::WorkerProcessor]);
    assert_eq!(flow.tasks[7].outputs, vec![Channel::Synchronizer]);
    assert_eq!(flow.tasks[8].inputs, vec![Channel::Synchronizer]);
    assert_eq!(flow.tasks[8].outputs, vec![Channel::Primary]);
}

#[test]
fn channels_are_metered_by_their_own_gauges() {
    let flow = spawn(metrics(), &reads()).unwrap();
    let metered: Vec<(Channel, &str)> =
        flow.channels.iter().map(|made| (made.channel, made.gauge.name())).collect();
    assert_eq!(
        metered,
        vec![
            (Channel::Primary, "tx_primary"),
            (Channel::BatchMaker, "tx_batch_maker"),
            (Channel::QuorumWaiter, "tx_quorum_waiter"),
            (Channel::ClientProcessor, "tx_client_processor"),
            (Channel::WorkerHelper, "tx_worker_helper"),
            (Channel::ClientHelper, "tx_client_helper"),
            (Channel::WorkerProcessor, "tx_worker_processor"),
            (Channel::Synchronizer, "tx_synchronizer"),
        ]
    );
    assert_eq!(Channel::Primary.gauge(), ChannelGauge::TxPrimary);
}

#[test]
fn the_synchronizer_announces_reconfigurations() {
    let flow = spawn(metrics(), &reads()).unwrap();
    for (i, task) in flow.tasks.iter().enumerate() {
        let end = match i {
            8 => ReconfigureEnd::Sender,
            9 => ReconfigureEnd::FirstReceiver,
            _ => ReconfigureEnd::Subscriber,
        };
        assert_eq!(task.reconfigure, end);
    }
}

#[test]
fn receivers_exist_before_the_sender_runs() {
    let tasks = boot().flow.tasks;
    let sender =
        tasks.iter().position(|task| task.reconfigure == ReconfigureEnd::Sender).unwrap();
    for (i, task) in tasks.iter().enumerate() {
        if task.reconfigure == ReconfigureEnd::Subscriber {
            assert!(i < sender);
        }
    }
}

#[test]
fn the_first_committee_goes_to_the_connector() {
    let boot = boot();
    assert_eq!(
        boot.first,
        Announcement {
            notification: ReconfigureNotification::NewEpoch,
            committee: CommitteeUse::Initial,
        }
    );
    for (i, task) in boot.flow.tasks.iter().enumerate() {
        assert_eq!(task.resources.committee == boot.first.committee, i == 9);
    }
}

#[test]
fn a_worker_reports_where_clients_find_it() {
    let replaced = CacheReads { booted: with_info(info(5000)), ..reads() };
    assert_eq!(worker().booted_on(&reads()), Some(&info(3000).transactions));
    assert_eq!(worker().booted_on(&replaced), Some(&address("/ip4/10.0.0.1/tcp/5000/http")));
    assert_eq!(worker().booted_on(&CacheReads { booted: without_us(), ..reads() }), None);
}

#[test]
fn parts_make_the_whole() {
    let opening = Worker::open(metrics()).unwrap();
    let boot = boot();
    assert_eq!(opening.first, boot.first);
    assert_eq!(opening.channel, boot.flow.channels[0]);
    let mut tasks = worker().handle_clients_transactions(&cache()).unwrap().tasks;
    tasks.extend(worker().handle_workers_messages(&cache()).unwrap().tasks);
    tasks.extend(worker().handle_primary_messages(&cache()).unwrap().tasks);
    assert_eq!(tasks.as_slice(), &boot.flow.tasks[..9]);
    let incomplete = Metrics { endpoint_metrics: false, ..metrics() };
    assert_eq!(Worker::open(incomplete), Err(SpawnError::MissingMetrics));
}

#[test]
fn tasks_get_what_they_share() {
    let flow = spawn(metrics(), &reads()).unwrap();
    let none = Resources::none();
    let current = CommitteeUse::Current;
    let expected = vec![
        Resources { endpoint_metrics: true, ..none },
        Resources { committee: current, node_metrics: true, ..none },
        Resources {
            committee: current,
            worker_cache: true,
            network: Some(NetworkLabel::QuorumWaiter),
            ..none
        },
        Resources { store: true, ..none },
        none,
        Resources {
            committee: current,
            worker_cache: true,
            store: true,
            network: Some(NetworkLabel::WorkerHelper),
            ..none
        },
        Resources { store: true, ..none },
        none,
        Resources {
            committee: CommitteeUse::Shared,
            worker_cache: true,
            store: true,
            node_metrics: true,
            endpoint_metrics: false,
            network: Some(NetworkLabel::Synchronizer),
        },
        Resources { committee: CommitteeUse::Initial, ..none },
    ];
    let found: Vec<Resources> = flow.tasks.iter().map(|task| task.resources).collect();
    assert_eq!(found, expected);
}

#[test]
fn networks_are_labelled() {
    assert_eq!(NetworkLabel::Synchronizer.name(), "synchronizer");
    assert_eq!(NetworkLabel::QuorumWaiter.name(), "quorum_waiter");
    assert_eq!(NetworkLabel::WorkerHelper.name(), "worker_helper");
}

#[test]
fn each_flow_returns_its_own_handles() {
    assert_eq!(worker().handle_clients_transactions(&cache()).unwrap().handles, vec![1, 2, 3, 0]);
    assert_eq!(worker().handle_workers_messages(&cache()).unwrap().handles, vec![1, 2, 0]);
    assert_eq!(worker().handle_primary_messages(&cache()).unwrap().handles, vec![1, 0]);
}

#[test]
fn missing_metrics_are_an_error() {
    let error = Err(SpawnError::MissingMetrics);
    assert_eq!(spawn(Metrics { worker_metrics: false, ..metrics() }, &reads()), error);
    assert_eq!(spawn(Metrics { channel_metrics: false, ..metrics() }, &reads()), error);
    assert_eq!(spawn(Metrics { endpoint_metrics: false, ..metrics() }, &reads()), error);
    assert_eq!(spawn(Metrics { network_metrics: false, ..metrics() }, &reads()), error);
}

#[test]
fn a_worker_that_is_not_in_the_cache_cannot_boot() {
    let error = Err(SpawnError::NotInWorkerCache);
    assert_eq!(spawn(metrics(), &CacheReads { clients: without_us(), ..reads() }), error);
    assert_eq!(spawn(metrics(), &CacheReads { workers: without_us(), ..reads() }), error);
    assert_eq!(spawn(metrics(), &CacheReads { primary: without_us(), ..reads() }), error);
    assert_eq!(spawn(metrics(), &CacheReads { booted: without_us(), ..reads() }), error);
    assert_eq!(worker().handle_clients_transactions(&without_us()), error);
    assert_eq!(worker().handle_workers_messages(&without_us()), error);
    assert_eq!(worker().handle_primary_messages(&without_us()), error);
}

#[test]
fn an_empty_address_cannot_be_listened_on() {
    let error = Err(SpawnError::EmptyAddress);
    let transactions = with_info(WorkerInfo { transactions: Multiaddr::empty(), ..info(1) });
    assert_eq!(worker().handle_clients_transactions(&transactions), error);
    assert!(worker().handle_workers_messages(&transactions).is_ok());
    let others = with_info(WorkerInfo { worker_to_worker: Multiaddr::empty(), ..info(1) });
    assert_eq!(worker().handle_workers_messages(&others), error);
    let primary = with_info(WorkerInfo { primary_to_worker: Multiaddr::empty(), ..info(1) });
    assert_eq!(worker().handle_primary_messages(&primary), error);
    assert_eq!(spawn(metrics(), &CacheReads { primary, ..reads() }), error);
}

#[test]
fn a_replaced_cache_counts_from_the_next_look_on() {
    let replaced = with_info(info(5000));
    let flow = spawn(metrics(), &CacheReads { primary: replaced, ..reads() }).unwrap();
    assert_eq!(
        flow.tasks[0].component,
        Component::TxReceiver(Server {
            address: address("/ip4/0.0.0.0/tcp/3000/http"),
            concurrency_limit_per_connection: None,
        })
    );
    assert_eq!(
        flow.tasks[7].component,
        Component::PrimaryReceiver(Server {
            address: address("/ip4/0.0.0.0/tcp/5002"),
            concurrency_limit_per_connection: None,
        })
    );
}
