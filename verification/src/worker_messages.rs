//! Messages from other workers, and the batch requests of clients.

use crate::address::components;
use crate::keys::PublicKey;
use crate::payload::{bytes_from_vec, bytes_to_vec, contents, BincodeEncodedPayload};
use crate::status::{malformed, reply, shutting_down, Code, DagError, Empty, Message, Status};
use crate::task::{
    no_resources, Channel, CommitteeUse, Component, ComponentView, ReconfigureEnd, Resources, Server, ServerView, Task,
    TaskView,
};
use crate::transactions::Transaction;
use multiaddr::Multiaddr;
use vstd::prelude::*;

verus! {

/// The digest by which a batch is known.
#[derive(Debug, PartialEq, Eq)]
pub struct BatchDigest {
    pub bytes: Vec<u8>,
}

/// Transactions that travel together.
#[derive(Debug, PartialEq, Eq)]
pub struct Batch {
    pub transactions: Vec<Transaction>,
}

/// What workers tell each other.
#[derive(Debug, PartialEq, Eq)]
pub enum WorkerMessage {
    /// A batch of the sending worker.
    Batch(Batch),
    /// A request for the batches with these digests, by a worker of this authority.
    BatchRequest(Vec<BatchDigest>, PublicKey),
}

/// A request of a client for the batches with these digests.
#[derive(Debug, PartialEq, Eq)]
pub struct ClientBatchRequest {
    pub missing: Vec<BatchDigest>,
}

/// A message of another worker on its way to the task that deals with it.
#[derive(Debug, PartialEq, Eq)]
pub enum WorkerDelivery {
    /// For the processor: the batch, still encoded.
    Processor(Vec<u8>),
    /// For the helper: what is asked for, and by whom.
    WorkerHelper(Vec<BatchDigest>, PublicKey),
}

/// A request of a client on its way to the helper.
#[derive(Debug, PartialEq, Eq)]
pub struct ClientDelivery {
    /// What is asked for.
    pub missing: Vec<BatchDigest>,
    /// The capacity of the channel on which the helper sends the batches.
    pub capacity: usize,
}

/// Handles what other workers send, and the batch requests of clients.
pub struct WorkerReceiverHandler {}

/// The task that listens to other workers on an address, and handles at most
/// `max_concurrent_requests` requests of one connection at a time.
pub open spec fn worker_receiver_task(
    address: Seq<Seq<u8>>,
    max_concurrent_requests: usize,
) -> TaskView {
    TaskView {
        component: ComponentView::WorkerReceiver(
            ServerView {
                address,
                concurrency_limit_per_connection: Some(max_concurrent_requests),
            },
        ),
        inputs: seq![],
        outputs: seq![Channel::WorkerHelper, Channel::ClientHelper, Channel::WorkerProcessor],
        reconfigure: ReconfigureEnd::Subscriber,
        resources: no_resources(),
    }
}

impl WorkerReceiverHandler {
    /// The task that listens to other workers on an address.
    pub fn spawn(address: Multiaddr, max_concurrent_requests: usize) -> (task: Task)
        ensures
            task@ == worker_receiver_task(components(address), max_concurrent_requests),
            task.component matches Component::WorkerReceiver(server) && server.address == address
                && server.concurrency_limit_per_connection == Some(max_concurrent_requests),
            task.inputs@ == Seq::<Channel>::empty(),
            task.outputs@ == seq![
                Channel::WorkerHelper,
                Channel::ClientHelper,
                Channel::WorkerProcessor,
            ],
            task.reconfigure == ReconfigureEnd::Subscriber,
            task.resources == (Resources {
                committee: CommitteeUse::Unused,
                worker_cache: false,
                store: false,
                node_metrics: false,
                endpoint_metrics: false,
                network: None,
            }),
    {
        let inputs: Vec<Channel> = vec![];
        let outputs: Vec<Channel> = vec![
            Channel::WorkerHelper,
            Channel::ClientHelper,
            Channel::WorkerProcessor,
        ];
        assert(inputs@ =~= seq![]);
        assert(outputs@ =~= seq![
            Channel::WorkerHelper,
            Channel::ClientHelper,
            Channel::WorkerProcessor,
        ]);
        Task {
            component: Component::WorkerReceiver(
                Server {
                    address,
                    concurrency_limit_per_connection: Some(max_concurrent_requests),
                },
            ),
            inputs,
            outputs,
            reconfigure: ReconfigureEnd::Subscriber,
            resources: Resources::none(),
        }
    }

    /// Where a message of another worker goes. `decoded` is the outcome of decoding the
    /// request: the message, or the text of the error. A batch goes to the processor as it
    /// came, a batch request to the helper.
    pub fn send_message(
        request: &BincodeEncodedPayload,
        decoded: Result<WorkerMessage, String>,
    ) -> (delivery: Result<WorkerDelivery, Status>)
        ensures
            match decoded {
                Err(error) => delivery matches Err(status) && status@ == malformed(error@) && status.code
                    == Code::InvalidArgument && status.message == Message::Text(error),
                Ok(WorkerMessage::Batch(_)) => delivery matches Ok(
                    WorkerDelivery::Processor(batch),
                ) && batch@ == request@ && batch@ == contents(request.payload),
                Ok(WorkerMessage::BatchRequest(missing, requestor)) => delivery == Ok::<_, Status>(
                    WorkerDelivery::WorkerHelper(missing, requestor),
                ),
            },
    {
        match decoded {
            Err(error) => Err(Status::malformed(error)),
            Ok(message) => match message {
                WorkerMessage::Batch(_) => Ok(
                    WorkerDelivery::Processor(bytes_to_vec(&request.payload)),
                ),
                WorkerMessage::BatchRequest(missing, requestor) => Ok(
                    WorkerDelivery::WorkerHelper(missing, requestor),
                ),
            },
        }
    }

    /// What the other worker gets for its message, once the task has taken it or has
    /// turned out to be gone.
    pub fn send_message_reply(delivered: bool) -> (answer: Result<Empty, Status>)
        ensures
            answer is Ok <==> delivered,
            answer matches Err(status) ==> status@ == shutting_down(),
            answer matches Err(status) ==> status.code == Code::NotFound && status.message
                == Message::Error(DagError::ShuttingDown),
    {
        reply(delivered)
    }

    /// What the helper gets for the batch request of a client. `decoded` is the outcome of
    /// decoding the request: the request, or the text of the error. The channel for the
    /// batches has room for every one that is asked for. No channel can be made without
    /// room for anything, so a request has to ask for at least one batch.
    pub fn client_batch_request(decoded: Result<ClientBatchRequest, String>) -> (delivery: Result<
        ClientDelivery,
        Status,
    >)
        requires
            decoded matches Ok(request) ==> request.missing.len() > 0,
        ensures
            match decoded {
                Err(error) => delivery matches Err(status) && status@ == malformed(error@) && status.code
                    == Code::InvalidArgument && status.message == Message::Text(error),
                Ok(request) => delivery matches Ok(found) && found.missing == request.missing
                    && found.capacity == request.missing.len() && found.capacity > 0,
            },
    {
        match decoded {
            Err(error) => Err(Status::malformed(error)),
            Ok(request) => {
                let capacity: usize = request.missing.len();
                Ok(ClientDelivery { missing: request.missing, capacity })
            },
        }
    }

    /// Whether the client gets the stream of batches: it does once the helper has taken the
    /// request, and is refused where the helper has turned out to be gone.
    pub fn client_batch_request_reply(delivered: bool) -> (answer: Result<(), Status>)
        ensures
            answer is Ok <==> delivered,
            answer matches Err(status) ==> status@ == shutting_down(),
            answer matches Err(status) ==> status.code == Code::NotFound && status.message
                == Message::Error(DagError::ShuttingDown),
    {
        if delivered {
            Ok(())
        } else {
            Err(Status::shutting_down())
        }
    }

    /// What the client gets for a batch that the helper sent: the batch as it is, encoded.
    pub fn client_batch(batch: Vec<u8>) -> (payload: BincodeEncodedPayload)
        ensures
            payload@ == batch@,
            contents(payload.payload) == batch@,
    {
        BincodeEncodedPayload { payload: bytes_from_vec(batch) }
    }
}

/// A batch that goes out to a client and comes in again as the message of a worker reaches the
/// processor byte for byte, whatever was decoded from it.
pub proof fn law_batches_travel_unchanged(
    batch: Vec<u8>,
    payload: BincodeEncodedPayload,
    decoded: Batch,
    delivery: Result<WorkerDelivery, Status>,
)
    requires
        call_ensures(WorkerReceiverHandler::client_batch, (batch,), payload),
        call_ensures(
            WorkerReceiverHandler::send_message,
            (&payload, Ok(WorkerMessage::Batch(decoded))),
            delivery,
        ),
    ensures
        contents(payload.payload) == batch@,
        delivery matches Ok(WorkerDelivery::Processor(bytes)) && bytes@ == batch@,
{
}

/// A batch request of another worker reaches the helper with all that is asked for and who asks,
/// whatever bytes it came in.
pub proof fn law_batch_requests_reach_the_helper(
    request: BincodeEncodedPayload,
    missing: Vec<BatchDigest>,
    requestor: PublicKey,
    delivery: Result<WorkerDelivery, Status>,
)
    requires
        call_ensures(
            WorkerReceiverHandler::send_message,
            (&request, Ok(WorkerMessage::BatchRequest(missing, requestor))),
            delivery,
        ),
    ensures
        delivery == Ok::<_, Status>(WorkerDelivery::WorkerHelper(missing, requestor)),
{
}

/// A batch request of a client reaches the helper with all that is asked for, and with room for
/// exactly as many batches.
pub proof fn law_client_requests_have_room(
    request: ClientBatchRequest,
    delivery: Result<ClientDelivery, Status>,
)
    requires
        request.missing@.len() > 0,
        call_ensures(WorkerReceiverHandler::client_batch_request, (Ok(request),), delivery),
    ensures
        delivery matches Ok(found) && found.missing == request.missing && found.capacity
            == request.missing@.len(),
{
}

/// A message of a worker, or a request of a client, that could not be decoded is refused as an
/// invalid argument, with the text of the error.
pub proof fn law_undecodable_messages_are_refused(
    request: BincodeEncodedPayload,
    error: String,
    delivery: Result<WorkerDelivery, Status>,
    to_client: Result<ClientDelivery, Status>,
)
    requires
        call_ensures(WorkerReceiverHandler::send_message, (&request, Err(error)), delivery),
        call_ensures(WorkerReceiverHandler::client_batch_request, (Err(error),), to_client),
    ensures
        delivery matches Err(status) && status.code == Code::InvalidArgument && status.message
            == Message::Text(error),
        to_client matches Err(status) && status.code == Code::InvalidArgument && status.message
            == Message::Text(error),
{
}

/// Workers and clients are answered exactly if the task took what they sent, and are otherwise
/// told that the worker is shutting down.
pub proof fn law_workers_learn_of_the_end(
    delivered: bool,
    answer: Result<Empty, Status>,
    to_client: Result<(), Status>,
)
    requires
        call_ensures(WorkerReceiverHandler::send_message_reply, (delivered,), answer),
        call_ensures(WorkerReceiverHandler::client_batch_request_reply, (delivered,), to_client),
    ensures
        answer is Ok <==> delivered,
        to_client is Ok <==> delivered,
        answer matches Err(status) ==> status.code == Code::NotFound && status.message
            == Message::Error(DagError::ShuttingDown),
        to_client matches Err(status) ==> status.code == Code::NotFound && status.message
            == Message::Error(DagError::ShuttingDown),
{
}

} // verus!
