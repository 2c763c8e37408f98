//! Messages from the primary: each goes to the synchronizer.

use crate::address::components;
use crate::status::{malformed, reply, shutting_down, Code, DagError, Empty, Message, Status};
use crate::task::{
    no_resources, Channel, CommitteeUse, Component, ComponentView, ReconfigureEnd, Resources, Server, ServerView, Task,
    TaskView,
};
use multiaddr::Multiaddr;
use vstd::prelude::*;

verus! {

/// Handles what the primary sends.
pub struct PrimaryReceiverHandler {}

/// The task that listens to the primary on an address.
pub open spec fn primary_receiver_task(address: Seq<Seq<u8>>) -> TaskView {
    TaskView {
        component: ComponentView::PrimaryReceiver(
            ServerView { address, concurrency_limit_per_connection: None },
        ),
        inputs: seq![],
        outputs: seq![Channel::Synchronizer],
        reconfigure: ReconfigureEnd::Subscriber,
        resources: no_resources(),
    }
}

impl PrimaryReceiverHandler {
    /// The task that listens to the primary on an address.
    pub fn spawn(address: Multiaddr) -> (task: Task)
        ensures
            task@ == primary_receiver_task(components(address)),
            task.component matches Component::PrimaryReceiver(server) && server.address == address
                && server.concurrency_limit_per_connection is None,
            task.inputs@ == Seq::<Channel>::empty(),
            task.outputs@ == seq![Channel::Synchronizer],
            task.reconfigure == ReconfigureEnd::Subscriber,
            task.resources == (Resources {
                committee: CommitteeUse::Unused,
                worker_cache: false,
                store: false,
                node_metrics: false,
                endpoint_metrics: false,
                network: None,
            }),
    {
        let inputs: Vec<Channel> = vec![];
        let outputs: Vec<Channel> = vec![Channel::Synchronizer];
        assert(inputs@ =~= seq![]);
        assert(outputs@ =~= seq![Channel::Synchronizer]);
        Task {
            component: Component::PrimaryReceiver(
                Server { address, concurrency_limit_per_connection: None },
            ),
            inputs,
            outputs,
            reconfigure: ReconfigureEnd::Subscriber,
            resources: Resources::none(),
        }
    }

    /// What the synchronizer gets for a message of the primary. `decoded` is the outcome of
    /// decoding the request: the message, which is handed on as it is, or the text of the
    /// error.
    pub fn send_message<M>(decoded: Result<M, String>) -> (delivery: Result<M, Status>)
        ensures
            match decoded {
                Err(error) => delivery matches Err(status) && status@ == malformed(error@) && status.code
                    == Code::InvalidArgument && status.message == Message::Text(error),
                Ok(message) => delivery == Ok::<M, Status>(message),
            },
    {
        match decoded {
            Err(error) => Err(Status::malformed(error)),
            Ok(message) => Ok(message),
        }
    }

    /// What the primary gets for its message, once the synchronizer has taken it or has
    /// turned out to be gone.
    pub fn send_message_reply(delivered: bool) -> (answer: Result<Empty, Status>)
        ensures
            answer is Ok <==> delivered,
            answer matches Err(status) ==> status@ == shutting_down(),
            answer matches Err(status) ==> status.code == Code::NotFound && status.message
                == Message::Error(DagError::ShuttingDown),
    {
        reply(delivered)
    }
}

/// What the primary sends reaches the synchronizer as it is, whatever it is. Only a message that
/// could not be decoded is refused, with the text of the error.
pub proof fn law_primary_messages_are_handed_on<M>(
    decoded: Result<M, String>,
    delivery: Result<M, Status>,
)
    requires
        call_ensures(PrimaryReceiverHandler::send_message::<M>, (decoded,), delivery),
    ensures
        decoded is Ok ==> delivery is Ok && delivery->Ok_0 == decoded->Ok_0,
        decoded matches Err(error) ==> (delivery matches Err(status) && status.code
            == Code::InvalidArgument && status.message == Message::Text(error)),
{
}

/// The primary is answered exactly if the synchronizer took the message, and is otherwise told
/// that the worker is shutting down.
pub proof fn law_the_primary_learns_of_the_end(delivered: bool, answer: Result<Empty, Status>)
    requires
        call_ensures(PrimaryReceiverHandler::send_message_reply, (delivered,), answer),
    ensures
        answer is Ok <==> delivered,
        answer matches Err(status) ==> status.code == Code::NotFound && status.message
            == Message::Error(DagError::ShuttingDown),
{
}

} // verus!
