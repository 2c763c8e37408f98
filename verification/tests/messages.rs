use bytes::Bytes;
use narwhal_worker::keys::PublicKey;
use narwhal_worker::payload::{BincodeEncodedPayload, TransactionProto};
use narwhal_worker::primary_messages::PrimaryReceiverHandler;
use narwhal_worker::status::{reply, Code, DagError, Empty, Message, Status};
use narwhal_worker::transactions::{StreamAction, StreamEvent, StreamItem, TxReceiverHandler};
use narwhal_worker::worker_messages::{
    Batch, BatchDigest, ClientBatchRequest, WorkerDelivery, WorkerMessage, WorkerReceiverHandler,
};

fn proto(bytes: &'static [u8]) -> TransactionProto {
    TransactionProto { transaction: Bytes::from_static(bytes) }
}

fn digest(byte: u8) -> BatchDigest {
    BatchDigest { bytes: vec![byte; 32] }
}

fn malformed() -> Status {
    Status { code: Code::InvalidArgument, message: Message::Text("bad tag".to_string()) }
}

fn shutting_down() -> Status {
    Status { code: Code::NotFound, message: Message::Error(DagError::ShuttingDown) }
}

/// Handles a stream, with a batch maker that takes `room` transactions.
fn handle(items: Vec<StreamItem>, room: usize) -> (Vec<Vec<u8>>, Option<StreamAction>) {
    let mut taken = Vec::new();
    for item in items {
        match TxReceiverHandler::submit_transaction_stream(&StreamEvent::Next(item)) {
            StreamAction::Send(transaction) => {
                let accepted = taken.len() < room;
                if accepted {
                    taken.push(transaction);
                }
                let sent = StreamEvent::Sent(accepted);
                match TxReceiverHandler::submit_transaction_stream(&sent) {
                    StreamAction::Poll => (),
                    end => return (taken, Some(end)),
                }
            }
            end => return (taken, Some(end)),
        }
    }
    (taken, None)
}

#[test]
fn a_transaction_goes_to_the_batch_maker_as_it_is() {
    assert_eq!(TxReceiverHandler::submit_transaction(&proto(&[3, 1, 4])), vec![3, 1, 4]);
    assert_eq!(TxReceiverHandler::submit_transaction(&proto(&[])), Vec::<u8>::new());
}

#[test]
fn requests_are_answered_by_delivery() {
    assert_eq!(reply(true), Ok(Empty {}));
    assert_eq!(reply(false), Err(shutting_down()));
    assert_eq!(TxReceiverHandler::submit_transaction_reply(true), Ok(Empty {}));
    assert_eq!(TxReceiverHandler::submit_transaction_reply(false), Err(shutting_down()));
    assert_eq!(WorkerReceiverHandler::send_message_reply(true), Ok(Empty {}));
    assert_eq!(WorkerReceiverHandler::send_message_reply(false), Err(shutting_down()));
    assert_eq!(WorkerReceiverHandler::client_batch_request_reply(true), Ok(()));
    assert_eq!(WorkerReceiverHandler::client_batch_request_reply(false), Err(shutting_down()));
    assert_eq!(PrimaryReceiverHandler::send_message_reply(true), Ok(Empty {}));
    assert_eq!(PrimaryReceiverHandler::send_message_reply(false), Err(shutting_down()));
}

#[test]
fn a_stream_is_forwarded_in_order() {
    let items = vec![
        StreamItem::Transaction(proto(&[1])),
        StreamItem::Transaction(proto(&[2, 2])),
    ];
    assert_eq!(handle(items, 10), (vec![vec![1], vec![2, 2]], None));
}

#[test]
fn a_stream_ends_with_an_answer() {
    for end in [StreamItem::Closed, StreamItem::Broken] {
        let items = vec![
            StreamItem::Transaction(proto(&[1])),
            end,
            StreamItem::Transaction(proto(&[2])),
        ];
        assert_eq!(handle(items, 10), (vec![vec![1]], Some(StreamAction::Answer(Empty {}))));
    }
}

#[test]
fn a_stream_fails_when_the_batch_maker_is_gone() {
    let items = vec![
        StreamItem::Transaction(proto(&[1])),
        StreamItem::Transaction(proto(&[2])),
        StreamItem::Transaction(proto(&[3])),
    ];
    assert_eq!(handle(items, 2), (vec![vec![1], vec![2]], Some(StreamAction::FailedToSend)));
}

#[test]
fn a_batch_goes_to_the_processor_as_it_came() {
    let request = BincodeEncodedPayload { payload: Bytes::from_static(&[9, 8, 7]) };
    let batch = WorkerMessage::Batch(Batch { transactions: vec![vec![1], vec![2]] });
    assert_eq!(
        WorkerReceiverHandler::send_message(&request, Ok(batch)),
        Ok(WorkerDelivery::Processor(vec![9, 8, 7]))
    );
}

#[test]
fn a_batch_request_goes_to_the_helper() {
    let request = BincodeEncodedPayload { payload: Bytes::from_static(&[9, 8, 7]) };
    let requestor = PublicKey { bytes: vec![5; 4] };
    let message = WorkerMessage::BatchRequest(vec![digest(1), digest(2)], requestor.clone());
    assert_eq!(
        WorkerReceiverHandler::send_message(&request, Ok(message)),
        Ok(WorkerDelivery::WorkerHelper(vec![digest(1), digest(2)], requestor))
    );
}

#[test]
fn malformed_requests_are_refused() {
    let error = "bad tag".to_string();
    let request = BincodeEncodedPayload { payload: Bytes::from_static(&[9, 8, 7]) };
    assert_eq!(
        WorkerReceiverHandler::send_message(&request, Err(error.clone())),
        Err(malformed())
    );
    assert_eq!(WorkerReceiverHandler::client_batch_request(Err(error.clone())), Err(malformed()));
    assert_eq!(PrimaryReceiverHandler::send_message::<u8>(Err(error)), Err(malformed()));
}

#[test]
fn a_client_gets_room_for_every_batch() {
    let request = ClientBatchRequest { missing: vec![digest(1), digest(2), digest(3)] };
    let delivery = WorkerReceiverHandler::client_batch_request(Ok(request)).unwrap();
    assert_eq!(delivery.missing, vec![digest(1), digest(2), digest(3)]);
    assert_eq!(delivery.capacity, 3);
}

#[test]
fn a_client_gets_batches_as_they_are() {
    let payload = WorkerReceiverHandler::client_batch(vec![4, 5, 6]);
    assert_eq!(payload.payload, Bytes::from_static(&[4, 5, 6]));
}

#[test]
fn a_served_batch_can_be_sent_on() {
    let payload = WorkerReceiverHandler::client_batch(vec![4, 5, 6]);
    let batch = WorkerMessage::Batch(Batch { transactions: vec![] });
    assert_eq!(
        WorkerReceiverHandler::send_message(&payload, Ok(batch)),
        Ok(WorkerDelivery::Processor(vec![4, 5, 6]))
    );
}

#[test]
fn a_message_of_the_primary_is_handed_on() {
    assert_eq!(PrimaryReceiverHandler::send_message(Ok(17u64)), Ok(17u64));
}
