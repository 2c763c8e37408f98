//! Transactions from clients: each goes to the batch maker.

use crate::address::components;
use crate::payload::{bytes_to_vec, contents, TransactionProto};
use crate::status::{reply, shutting_down, Code, DagError, Empty, Message, Status};
use crate::task::{
    no_resources, Channel, CommitteeUse, Component, ComponentView, ReconfigureEnd, Resources, Server, ServerView, Task,
    TaskView,
};
use multiaddr::Multiaddr;
use vstd::prelude::*;

verus! {

/// A transaction, by its bytes.
pub type Transaction = Vec<u8>;

/// Handles what clients submit.
pub struct TxReceiverHandler {}

/// What the next element of a stream of transactions turned out to be.
#[derive(Debug, PartialEq, Eq)]
pub enum StreamItem {
    /// A transaction.
    Transaction(TransactionProto),
    /// An error of the stream.
    Broken,
    /// The stream has no more elements.
    Closed,
}

/// A `StreamItem`, the transaction by its bytes.
pub enum StreamItemView {
    Transaction(Seq<u8>),
    Broken,
    Closed,
}

impl View for StreamItem {
    type V = StreamItemView;

    open spec fn view(&self) -> StreamItemView {
        match self {
            StreamItem::Transaction(transaction) => StreamItemView::Transaction(transaction@),
            StreamItem::Broken => StreamItemView::Broken,
            StreamItem::Closed => StreamItemView::Closed,
        }
    }
}

/// What happens while a stream of transactions is handled.
#[derive(Debug, PartialEq, Eq)]
pub enum StreamEvent {
    /// The stream yielded its next element.
    Next(StreamItem),
    /// The transaction was handed to the batch maker; the flag says whether it was taken.
    Sent(bool),
}

/// A `StreamEvent`, its element by its view.
pub enum StreamEventView {
    Next(StreamItemView),
    Sent(bool),
}

impl View for StreamEvent {
    type V = StreamEventView;

    open spec fn view(&self) -> StreamEventView {
        match self {
            StreamEvent::Next(item) => StreamEventView::Next(item@),
            StreamEvent::Sent(taken) => StreamEventView::Sent(*taken),
        }
    }
}

/// What the handler of a stream does next.
#[derive(Debug, PartialEq, Eq)]
pub enum StreamAction {
    /// Waits for the next element of the stream.
    Poll,
    /// Hands a transaction to the batch maker.
    Send(Transaction),
    /// Answers the request, and is done.
    Answer(Empty),
    /// Panics: the transaction could not be sent.
    FailedToSend,
}

/// A `StreamAction`, the transaction by its bytes.
pub enum StreamActionView {
    Poll,
    Send(Seq<u8>),
    Answer(Empty),
    FailedToSend,
}

impl View for StreamAction {
    type V = StreamActionView;

    open spec fn view(&self) -> StreamActionView {
        match self {
            StreamAction::Poll => StreamActionView::Poll,
            StreamAction::Send(transaction) => StreamActionView::Send(transaction@),
            StreamAction::Answer(empty) => StreamActionView::Answer(*empty),
            StreamAction::FailedToSend => StreamActionView::FailedToSend,
        }
    }
}

/// What follows an event of a stream. An error of the stream ends it as its natural end
/// does: the request is answered, and what came before stays submitted.
pub open spec fn action_after(event: StreamEventView) -> StreamActionView {
    match event {
        StreamEventView::Next(StreamItemView::Transaction(transaction)) => StreamActionView::Send(
            transaction,
        ),
        StreamEventView::Next(_) => StreamActionView::Answer(Empty {  }),
        StreamEventView::Sent(true) => StreamActionView::Poll,
        StreamEventView::Sent(false) => StreamActionView::FailedToSend,
    }
}

/// The task that listens to clients on an address.
pub open spec fn tx_receiver_task(address: Seq<Seq<u8>>) -> TaskView {
    TaskView {
        component: ComponentView::TxReceiver(
            ServerView { address, concurrency_limit_per_connection: None },
        ),
        inputs: seq![],
        outputs: seq![Channel::BatchMaker],
        reconfigure: ReconfigureEnd::Subscriber,
        resources: Resources { endpoint_metrics: true, ..no_resources() },
    }
}

impl TxReceiverHandler {
    /// The task that listens to clients on an address.
    pub fn spawn(address: Multiaddr) -> (task: Task)
        ensures
            task@ == tx_receiver_task(components(address)),
            task.component matches Component::TxReceiver(server) && server.address == address
                && server.concurrency_limit_per_connection is None,
            task.inputs@ == Seq::<Channel>::empty(),
            task.outputs@ == seq![Channel::BatchMaker],
            task.reconfigure == ReconfigureEnd::Subscriber,
            task.resources == (Resources {
                committee: CommitteeUse::Unused,
                worker_cache: false,
                store: false,
                node_metrics: false,
                endpoint_metrics: true,
                network: None,
            }),
    {
        let inputs: Vec<Channel> = vec![];
        let outputs: Vec<Channel> = vec![Channel::BatchMaker];
        assert(inputs@ =~= seq![]);
        assert(outputs@ =~= seq![Channel::BatchMaker]);
        Task {
            component: Component::TxReceiver(
                Server { address, concurrency_limit_per_connection: None },
            ),
            inputs,
            outputs,
            reconfigure: ReconfigureEnd::Subscriber,
            resources: Resources { endpoint_metrics: true, ..Resources::none() },
        }
    }

    /// What the batch maker gets for a submitted transaction: its bytes.
    pub fn submit_transaction(request: &TransactionProto) -> (message: Transaction)
        ensures
            message@ == request@,
            message@ == contents(request.transaction),
    {
        bytes_to_vec(&request.transaction)
    }

    /// What the client gets for a submitted transaction, once the batch maker has taken it
    /// or has turned out to be gone.
    pub fn submit_transaction_reply(delivered: bool) -> (answer: Result<Empty, Status>)
        ensures
            answer is Ok <==> delivered,
            answer matches Err(status) ==> status@ == shutting_down(),
            answer matches Err(status) ==> status.code == Code::NotFound && status.message
                == Message::Error(DagError::ShuttingDown),
    {
        reply(delivered)
    }

    /// One turn of handling a stream of transactions.
    pub fn submit_transaction_stream(event: &StreamEvent) -> (action: StreamAction)
        ensures
            action@ == action_after(event@),
            match *event {
                StreamEvent::Next(StreamItem::Transaction(proto)) => action matches StreamAction::Send(
                    transaction,
                ) && transaction@ == contents(proto.transaction),
                StreamEvent::Next(StreamItem::Broken) => action is Answer,
                StreamEvent::Next(StreamItem::Closed) => action is Answer,
                StreamEvent::Sent(taken) => if taken {
                    action is Poll
                } else {
                    action is FailedToSend
                },
            },
    {
        match event {
            StreamEvent::Next(item) => match item {
                StreamItem::Transaction(transaction) => StreamAction::Send(
                    bytes_to_vec(&transaction.transaction),
                ),
                StreamItem::Broken => StreamAction::Answer(Empty {  }),
                StreamItem::Closed => StreamAction::Answer(Empty {  }),
            },
            StreamEvent::Sent(taken) => {
                if *taken {
                    StreamAction::Poll
                } else {
                    StreamAction::FailedToSend
                }
            },
        }
    }
}

/// Of every element of a stream, the bytes of a transaction are what the batch maker is handed,
/// and only an element that carries none answers the request. Then the stream goes on exactly
/// if the batch maker took the transaction.
pub proof fn law_stream_hands_on_what_came(event: StreamEvent, action: StreamAction)
    requires
        call_ensures(TxReceiverHandler::submit_transaction_stream, (&event,), action),
    ensures
        event matches StreamEvent::Next(StreamItem::Transaction(proto)) ==> (
        action matches StreamAction::Send(transaction) && transaction@ == contents(
            proto.transaction,
        )),
        action is Answer <==> (event matches StreamEvent::Next(item) && item !is Transaction),
        action is Poll <==> event == StreamEvent::Sent(true),
        action is FailedToSend <==> event == StreamEvent::Sent(false),
{
}

/// How the handling of a stream stands.
pub enum StreamEnd {
    /// It waits for an element.
    Waiting,
    /// It has answered the request.
    Answered,
    /// It has panicked.
    Failed,
}

/// What handling a stream comes to: the transactions that the batch maker took, in order,
/// and how the handling stands. `items` is what the stream has yielded, and the batch maker
/// takes `room` transactions before it is gone.
pub open spec fn handle_stream(items: Seq<StreamItemView>, room: nat) -> (Seq<Seq<u8>>, StreamEnd)
    decreases items.len(),
{
    if items.len() == 0 {
        (Seq::empty(), StreamEnd::Waiting)
    } else {
        match action_after(StreamEventView::Next(items.first())) {
            StreamActionView::Send(transaction) => {
                if action_after(StreamEventView::Sent(room > 0)) is Poll {
                    let (taken, end) = handle_stream(items.drop_first(), (room - 1) as nat);
                    (seq![transaction] + taken, end)
                } else {
                    (Seq::empty(), StreamEnd::Failed)
                }
            },
            _ => (Seq::empty(), StreamEnd::Answered),
        }
    }
}

/// The elements that carry these transactions.
pub open spec fn carrying(transactions: Seq<Seq<u8>>) -> Seq<StreamItemView> {
    transactions.map_values(|transaction: Seq<u8>| StreamItemView::Transaction(transaction))
}

/// While the stream goes on and the batch maker takes what it is given, every transaction
/// reaches it, in order, and nothing else does.
pub proof fn law_stream_forwards_in_order(transactions: Seq<Seq<u8>>, room: nat)
    requires
        transactions.len() <= room,
    ensures
        handle_stream(carrying(transactions), room) == (transactions, StreamEnd::Waiting),
    decreases transactions.len(),
{
    let items = carrying(transactions);
    if transactions.len() > 0 {
        let rest = transactions.drop_first();
        assert(items.drop_first() =~= carrying(rest));
        law_stream_forwards_in_order(rest, (room - 1) as nat);
        assert(seq![transactions.first()] + rest =~= transactions);
    } else {
        assert(transactions =~= Seq::<Seq<u8>>::empty());
    }
}

/// The first element that carries no transaction, an error as well as the end, ends the
/// stream with an answer: what came before it was forwarded, what follows it is not.
pub proof fn law_stream_ends_with_an_answer(
    transactions: Seq<Seq<u8>>,
    last: StreamItemView,
    ignored: Seq<StreamItemView>,
    room: nat,
)
    requires
        last !is Transaction,
        transactions.len() <= room,
    ensures
        handle_stream(carrying(transactions) + seq![last] + ignored, room) == (
            transactions,
            StreamEnd::Answered,
        ),
    decreases transactions.len(),
{
    let items = carrying(transactions) + seq![last] + ignored;
    if transactions.len() > 0 {
        let rest = transactions.drop_first();
        assert(items.first() == StreamItemView::Transaction(transactions.first()));
        assert(items.drop_first() =~= carrying(rest) + seq![last] + ignored);
        law_stream_ends_with_an_answer(rest, last, ignored, (room - 1) as nat);
        assert(seq![transactions.first()] + rest =~= transactions);
    } else {
        assert(items.first() == last);
        assert(transactions =~= Seq::<Seq<u8>>::empty());
    }
}

/// A batch maker that is gone makes the handler panic at the first transaction that it
/// does not take; the ones before it were forwarded.
pub proof fn law_stream_fails_when_the_batch_maker_is_gone(
    transactions: Seq<Seq<u8>>,
    following: Seq<StreamItemView>,
    room: nat,
)
    requires
        room < transactions.len(),
    ensures
        handle_stream(carrying(transactions) + following, room) == (
            transactions.take(room as int),
            StreamEnd::Failed,
        ),
    decreases transactions.len(),
{
    let items = carrying(transactions) + following;
    let rest = transactions.drop_first();
    assert(items.first() == StreamItemView::Transaction(transactions.first()));
    assert(items.drop_first() =~= carrying(rest) + following);
    if room > 0 {
        law_stream_fails_when_the_batch_maker_is_gone(rest, following, (room - 1) as nat);
        assert(seq![transactions.first()] + rest.take(room - 1) =~= transactions.take(
            room as int,
        ));
    } else {
        assert(transactions.take(0) =~= Seq::<Seq<u8>>::empty());
    }
}

/// The batch maker gets the same bytes for a transaction whether it is submitted alone or as an
/// element of a stream: those that the client sent.
pub proof fn law_one_or_a_stream_is_the_same(
    proto: TransactionProto,
    message: Transaction,
    action: StreamAction,
)
    requires
        call_ensures(TxReceiverHandler::submit_transaction, (&proto,), message),
        call_ensures(
            TxReceiverHandler::submit_transaction_stream,
            (&StreamEvent::Next(StreamItem::Transaction(proto)),),
            action,
        ),
    ensures
        message@ == contents(proto.transaction),
        action matches StreamAction::Send(transaction) && transaction@ == message@,
{
}

/// A client is answered exactly if the batch maker took the transaction, and is otherwise told
/// that the worker is shutting down.
pub proof fn law_clients_learn_of_the_end(delivered: bool, answer: Result<Empty, Status>)
    requires
        call_ensures(TxReceiverHandler::submit_transaction_reply, (delivered,), answer),
    ensures
        answer is Ok <==> delivered,
        answer matches Err(status) ==> status.code == Code::NotFound && status.message
            == Message::Error(DagError::ShuttingDown),
{
}

} // verus!
