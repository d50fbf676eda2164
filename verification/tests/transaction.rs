use hedera::backoff::Backoff;
use hedera::execute::{Action, Event};
use hedera::status::StatusPolicy;
use hedera::transaction::chunk::{chunk_count, chunk_infos, chunk_transaction_ids};
use hedera::transaction::{ChunkInfo, ServiceMethod, TransactionExecute};
use hedera::wire;
use hedera::{
    AccountId, Client, Duration, Error, Hbar, PrivateKey, PublicKey, TokenPauseTransaction,
    TransactionId, TransactionResponse, TransferTransaction,
};

struct CountingKey {
    public: u8,
    signed: std::cell::Cell<usize>,
}

impl PrivateKey for CountingKey {
    fn public_key(&self) -> PublicKey {
        key(self.public)
    }

    fn sign(&self, body: &wire::TransactionBody) -> Vec<u8> {
        self.signed.set(self.signed.get() + 1);
        vec![self.public, body.node_account_id.unwrap().account_num as u8]
    }
}

fn account(num: u64) -> AccountId {
    AccountId::from(num)
}

fn client() -> Client {
    Client {
        nodes: vec![account(3), account(4), account(5)],
        operator: Some(account(1001)),
        max_attempts: 10,
        backoff: Backoff { base_delay: 250, max_delay: 8000 },
        status_policy: StatusPolicy::new(vec![0], vec![12]),
    }
}

fn key(byte: u8) -> PublicKey {
    PublicKey::from_bytes(vec![byte; 32])
}

fn frozen_transfer() -> TransferTransaction {
    let mut tx = TransferTransaction::new();
    tx.hbar_transfer(account(1001), Hbar::from_tinybars(-20)).unwrap();
    tx.hbar_transfer(account(1002), Hbar::from_tinybars(20)).unwrap();
    tx.freeze_with(Some(account(1001)), 1_700_000_000_000_000_123, &client().nodes).unwrap();
    tx
}

#[test]
fn new_transaction_has_nothing_set() {
    let tx = TransferTransaction::new();
    assert!(!tx.is_frozen());
    assert!(!tx.is_executed());
    assert_eq!(tx.get_transaction_id(), None);
    assert_eq!(tx.get_node_account_ids(), None);
    assert_eq!(tx.get_transaction_valid_duration(), Duration::seconds(120));
    assert_eq!(tx.get_max_transaction_fee(), None);
    assert_eq!(tx.get_transaction_memo(), "");
    assert_eq!(tx.get_payer_account_id(), None);
    assert_eq!(tx.signature_count(), 0);
}

#[test]
fn setters_set_and_chain() {
    let mut tx = TransferTransaction::new();
    tx.node_account_ids(vec![account(7)])
        .unwrap()
        .transaction_valid_duration(Duration::seconds(30))
        .unwrap()
        .max_transaction_fee(Hbar::from_tinybars(99))
        .unwrap()
        .transaction_memo("hello")
        .unwrap()
        .payer_account_id(account(6189))
        .unwrap();
    assert_eq!(tx.get_node_account_ids(), Some(&vec![account(7)]));
    assert_eq!(tx.get_transaction_valid_duration(), Duration::seconds(30));
    assert_eq!(tx.get_max_transaction_fee(), Some(Hbar::from_tinybars(99)));
    assert_eq!(tx.get_transaction_memo(), "hello");
    assert_eq!(tx.get_payer_account_id(), Some(account(6189)));
}

#[test]
fn memo_is_limited_to_a_hundred_characters() {
    let mut tx = TransferTransaction::new();
    let longest = "é".repeat(100);
    assert!(tx.transaction_memo(&longest).is_ok());
    assert_eq!(tx.get_transaction_memo(), longest);
    let too_long = "a".repeat(101);
    assert!(matches!(tx.transaction_memo(&too_long), Err(Error::MemoTooLong)));
    assert_eq!(tx.get_transaction_memo(), longest);
}

#[test]
fn freeze_makes_the_id_from_operator_and_time() {
    let mut tx = TransferTransaction::new();
    assert_eq!(tx.freeze_with(Some(account(1001)), 42, &client().nodes), Ok(()));
    assert!(tx.is_frozen());
    assert_eq!(
        tx.get_transaction_id(),
        Some(TransactionId { account_id: account(1001), valid_start: 42, scheduled: false, nonce: 0 })
    );
    assert_eq!(tx.get_node_account_ids(), Some(&client().nodes));
}

#[test]
fn freeze_prefers_the_payer_of_the_transaction() {
    let mut tx = TransferTransaction::new();
    tx.payer_account_id(account(6189)).unwrap();
    tx.freeze_with(Some(account(1001)), 42, &client().nodes).unwrap();
    assert_eq!(tx.get_transaction_id().unwrap().account_id, account(6189));
}

#[test]
fn freeze_keeps_what_was_set() {
    let id = TransactionId { account_id: account(9), valid_start: 7, scheduled: true, nonce: 3 };
    let mut tx = TransferTransaction::new();
    tx.transaction_id(id).unwrap().node_account_ids(vec![account(4)]).unwrap();
    assert_eq!(tx.freeze_with(None, 42, &client().nodes), Ok(()));
    assert_eq!(tx.get_transaction_id(), Some(id));
    assert_eq!(tx.get_node_account_ids(), Some(&vec![account(4)]));
}

#[test]
fn freeze_without_a_payer_fails() {
    let mut tx = TransferTransaction::new();
    assert_eq!(tx.freeze_with(None, 42, &client().nodes), Err(Error::NoPayerSet));
    assert!(!tx.is_frozen());
    assert_eq!(tx.get_transaction_id(), None);
    assert_eq!(tx.get_node_account_ids(), None);
}

#[test]
fn freezing_twice_changes_nothing() {
    let mut tx = TransferTransaction::new();
    tx.freeze_with(Some(account(1001)), 42, &client().nodes).unwrap();
    let id = tx.get_transaction_id();
    let nodes = tx.get_node_account_ids().cloned();
    assert_eq!(tx.freeze_with(Some(account(2002)), 43, &vec![account(9)]), Ok(()));
    assert_eq!(tx.freeze_with(None, 44, &vec![]), Ok(()));
    assert_eq!(tx.get_transaction_id(), id);
    assert_eq!(tx.get_node_account_ids().cloned(), nodes);
}

#[test]
fn frozen_node_list_is_a_snapshot() {
    let mut client = client();
    let mut tx = TransferTransaction::new();
    tx.freeze_with(client.operator, 42, &client.nodes).unwrap();
    client.nodes.push(account(6));
    client.nodes[0] = account(99);
    assert_eq!(tx.get_node_account_ids(), Some(&vec![account(3), account(4), account(5)]));
}

#[test]
fn setters_fail_once_frozen() {
    let mut tx = frozen_transfer();
    assert!(matches!(tx.node_account_ids(vec![account(9)]), Err(Error::InvalidState)));
    assert!(matches!(
        tx.transaction_valid_duration(Duration::seconds(1)),
        Err(Error::InvalidState)
    ));
    assert!(matches!(tx.max_transaction_fee(Hbar::from_tinybars(1)), Err(Error::InvalidState)));
    assert!(matches!(tx.transaction_memo("late"), Err(Error::InvalidState)));
    assert!(matches!(tx.payer_account_id(account(9)), Err(Error::InvalidState)));
    assert!(matches!(
        tx.transaction_id(TransactionId::generate(account(9), 1)),
        Err(Error::InvalidState)
    ));
    assert!(matches!(
        tx.hbar_transfer(account(9), Hbar::from_tinybars(1)),
        Err(Error::InvalidState)
    ));
    assert!(matches!(tx.data_mut(), Err(Error::InvalidState)));
    assert_eq!(tx.get_transaction_memo(), "");
    assert_eq!(tx.data().transfers.len(), 2);
    assert_eq!(tx.get_node_account_ids(), Some(&client().nodes));
}

#[test]
fn signing_stores_one_signature_for_each_node() {
    let mut tx = frozen_transfer();
    let signer = |body: &wire::TransactionBody| {
        vec![body.node_account_id.unwrap().account_num as u8]
    };
    assert_eq!(tx.sign_with(key(1), signer), Ok(()));
    assert_eq!(tx.signature_count(), 3);
    for node in [3, 4, 5] {
        assert!(tx.has_signature(&key(1), account(node)));
        assert!(!tx.has_signature(&key(2), account(node)));
    }
    assert!(!tx.has_signature(&key(1), account(6)));
    let request = tx.make_request(1).unwrap();
    assert_eq!(
        request.sig_pairs,
        vec![wire::SignaturePair { pub_key_prefix: vec![1; 32], signature: vec![4] }]
    );
}

#[test]
fn signing_twice_with_one_key_stores_nothing_new() {
    let mut tx = frozen_transfer();
    tx.sign_with(key(1), |_: &wire::TransactionBody| vec![1]).unwrap();
    assert_eq!(tx.signature_count(), 3);
    tx.sign_with(key(1), |_: &wire::TransactionBody| vec![2]).unwrap();
    assert_eq!(tx.signature_count(), 3);
    let request = tx.make_request(0).unwrap();
    assert_eq!(
        request.sig_pairs,
        vec![wire::SignaturePair { pub_key_prefix: vec![1; 32], signature: vec![1] }]
    );
    tx.sign_with(key(2), |_: &wire::TransactionBody| vec![3]).unwrap();
    assert_eq!(tx.signature_count(), 6);
    let request = tx.make_request(0).unwrap();
    assert_eq!(
        request.sig_pairs,
        vec![
            wire::SignaturePair { pub_key_prefix: vec![1; 32], signature: vec![1] },
            wire::SignaturePair { pub_key_prefix: vec![2; 32], signature: vec![3] },
        ]
    );
}

#[test]
fn node_named_twice_is_signed_for_once() {
    let mut tx = TransferTransaction::new();
    tx.node_account_ids(vec![account(3), account(4), account(3)]).unwrap();
    tx.freeze_with(Some(account(1001)), 42, &vec![]).unwrap();
    tx.sign_with(key(1), |_: &wire::TransactionBody| vec![9]).unwrap();
    assert_eq!(tx.signature_count(), 2);
}

#[test]
fn signer_is_handed_the_body_for_each_node() {
    let mut tx = frozen_transfer();
    let signer = |body: &wire::TransactionBody| {
        let id = body.transaction_id.unwrap();
        assert_eq!(
            id.transaction_valid_start,
            Some(wire::Timestamp { seconds: 1_700_000_000, nanos: 123 })
        );
        assert_eq!(
            id.account_id,
            Some(wire::AccountId { shard_num: 0, realm_num: 0, account_num: 1001 })
        );
        assert_eq!(body.transaction_fee, 200_000_000);
        assert_eq!(body.transaction_valid_duration, Some(wire::Duration { seconds: 120 }));
        assert!(matches!(body.data, Some(wire::TransactionData::CryptoTransfer(_))));
        Vec::new()
    };
    tx.sign_with(key(1), signer).unwrap();
}

#[test]
fn unfrozen_transaction_cannot_be_signed() {
    let mut tx = TransferTransaction::new();
    assert_eq!(
        tx.sign_with(key(1), |_: &wire::TransactionBody| vec![1]),
        Err(Error::InvalidState)
    );
    assert_eq!(tx.signature_count(), 0);
}

#[test]
fn executed_transaction_cannot_be_signed() {
    let mut tx = frozen_transfer();
    tx.sign_with(key(1), |_: &wire::TransactionBody| vec![1]).unwrap();
    tx.execute(&client(), 50).unwrap();
    assert!(tx.is_executed());
    assert_eq!(
        tx.sign_with(key(2), |_: &wire::TransactionBody| vec![2]),
        Err(Error::AlreadyExecuted)
    );
    assert_eq!(tx.signature_count(), 3);
}

#[test]
fn transaction_without_its_target_cannot_be_signed_or_sent() {
    let mut tx = TokenPauseTransaction::new();
    tx.freeze_with(Some(account(1001)), 42, &client().nodes).unwrap();
    assert_eq!(
        tx.sign_with(key(1), |_: &wire::TransactionBody| vec![1]),
        Err(Error::MissingRequiredField)
    );
    assert_eq!(tx.signature_count(), 0);
    assert!(matches!(tx.make_request(0), Err(Error::MissingRequiredField)));
}

#[test]
fn request_holds_body_and_fee_of_the_transaction() {
    let mut tx = TransferTransaction::new();
    tx.max_transaction_fee(Hbar::from_tinybars(5))
        .unwrap()
        .transaction_valid_duration(Duration::seconds(60))
        .unwrap()
        .transaction_memo("memo")
        .unwrap();
    tx.freeze_with(Some(account(1001)), 2_000_000_001, &client().nodes).unwrap();
    let request = tx.make_request(2).unwrap();
    assert_eq!(
        request.body.node_account_id,
        Some(wire::AccountId { shard_num: 0, realm_num: 0, account_num: 5 })
    );
    assert_eq!(
        request.body.transaction_id,
        Some(wire::TransactionId {
            transaction_valid_start: Some(wire::Timestamp { seconds: 2, nanos: 1 }),
            account_id: Some(wire::AccountId { shard_num: 0, realm_num: 0, account_num: 1001 }),
            scheduled: false,
            nonce: 0,
        })
    );
    assert_eq!(request.body.transaction_fee, 5);
    assert_eq!(request.body.transaction_valid_duration, Some(wire::Duration { seconds: 60 }));
    assert_eq!(request.body.memo, "memo");
    assert!(request.sig_pairs.is_empty());
    assert!(matches!(tx.make_request(3), Err(Error::InvalidState)));
    assert!(matches!(TransferTransaction::new().make_request(0), Err(Error::InvalidState)));
}

#[test]
fn response_names_node_and_transaction() {
    let tx = frozen_transfer();
    assert_eq!(
        tx.make_response(1),
        Ok(TransactionResponse {
            node_account_id: account(4),
            transaction_id: tx.get_transaction_id().unwrap(),
        })
    );
    assert_eq!(tx.make_response(3), Err(Error::InvalidState));
    assert_eq!(TransferTransaction::new().make_response(0), Err(Error::InvalidState));
}

#[test]
fn execute_freezes_and_hands_out_the_engine() {
    let mut tx = TransferTransaction::new();
    let mut dispatcher = tx.execute(&client(), 77).unwrap();
    assert!(tx.is_frozen());
    assert!(tx.is_executed());
    assert_eq!(tx.get_transaction_id(), Some(TransactionId::generate(account(1001), 77)));
    assert_eq!(dispatcher.step(Event::Begin, 0), Action::Send { node: 0 });
    assert_eq!(dispatcher.step(Event::TransportError, 0), Action::Send { node: 1 });
    assert_eq!(dispatcher.step(Event::TransportError, 0), Action::Send { node: 2 });
    assert_eq!(dispatcher.step(Event::Response { status: 12 }, 0), Action::Wait { delay: 250 });
}

#[test]
fn execute_with_timeout_sets_the_deadline() {
    let mut tx = TransferTransaction::new();
    let mut dispatcher = tx.execute_with_timeout(&client(), 77, 100).unwrap();
    assert_eq!(dispatcher.step(Event::Begin, 0), Action::Send { node: 0 });
    assert_eq!(dispatcher.step(Event::Response { status: 12 }, 0), Action::Wait { delay: 250 });
    assert_eq!(
        dispatcher.step(Event::Resumed, 250),
        Action::Fail { error: Error::DeadlineExceeded }
    );
}

#[test]
fn execute_fails_where_freeze_fails_or_no_node_is_known() {
    let mut without_operator = client();
    without_operator.operator = None;
    let mut tx = TransferTransaction::new();
    assert!(matches!(tx.execute(&without_operator, 1), Err(Error::NoPayerSet)));
    assert!(!tx.is_frozen());
    let mut without_nodes = client();
    without_nodes.nodes.clear();
    let mut tx = TransferTransaction::new();
    assert!(matches!(tx.execute(&without_nodes, 1), Err(Error::InvalidState)));
    assert!(tx.is_frozen());
    assert!(!tx.is_executed());
}

#[test]
fn three_chunk_sizes_make_three_chunks() {
    let base = TransactionId { account_id: account(1001), valid_start: 5_000, scheduled: false, nonce: 7 };
    let chunks = chunk_infos(base, 3 * 1024, 1024, 1, true, account(3)).unwrap();
    assert_eq!(chunks.len(), 3);
    for (index, chunk) in chunks.iter().enumerate() {
        assert_eq!(
            *chunk,
            ChunkInfo {
                current: index,
                total: 3,
                initial_transaction_id: base,
                current_transaction_id: TransactionId {
                    account_id: account(1001),
                    valid_start: 5_000 + index as u64,
                    scheduled: false,
                    nonce: 7,
                },
                node_account_id: account(3),
            }
        );
    }
}

#[test]
fn chunk_starts_lie_one_increment_apart() {
    let base = TransactionId::generate(account(1), 1_000);
    let ids = chunk_transaction_ids(base, 10, 3, 250, true).unwrap();
    let starts: Vec<u64> = ids.iter().map(|id| id.valid_start).collect();
    assert_eq!(starts, vec![1_000, 1_250, 1_500, 1_750]);
    assert!(ids.iter().all(|id| id.account_id == account(1) && id.nonce == 0 && !id.scheduled));
}

#[test]
fn chunks_are_counted_by_rounding_up() {
    assert_eq!(chunk_count(0, 0), 1);
    assert_eq!(chunk_count(0, 10), 1);
    assert_eq!(chunk_count(1, 10), 1);
    assert_eq!(chunk_count(10, 10), 1);
    assert_eq!(chunk_count(11, 10), 2);
    assert_eq!(chunk_count(30, 10), 3);
    assert_eq!(chunk_count(usize::MAX, 1), usize::MAX);
    assert_eq!(chunk_count(usize::MAX, 2), usize::MAX / 2 + 1);
    assert_eq!(chunk_count(usize::MAX, usize::MAX), 1);
}

#[test]
fn oversized_payload_of_a_single_chunk_type_is_refused() {
    let base = TransactionId::generate(account(1), 1_000);
    assert_eq!(chunk_transaction_ids(base, 11, 10, 1, false), Err(Error::BodySizeExceeded));
    assert_eq!(chunk_transaction_ids(base, 10, 10, 1, false), Ok(vec![base]));
    assert_eq!(chunk_transaction_ids(base, 0, 0, 1, false), Ok(vec![base]));
    assert_eq!(chunk_transaction_ids(base, 1, 0, 1, true), Err(Error::BodySizeExceeded));
}

#[test]
fn chunk_start_beyond_the_end_of_time_is_refused() {
    let base = TransactionId::generate(account(1), u64::MAX - 1);
    assert_eq!(chunk_transaction_ids(base, 3, 1, 1, true), Err(Error::BasicNum));
    assert_eq!(chunk_transaction_ids(base, 2, 1, 1, true).map(|ids| ids.len()), Ok(2));
    assert_eq!(chunk_transaction_ids(base, 1, 1, u64::MAX, true), Ok(vec![base]));
}

#[test]
fn transfer_transaction_is_a_single_chunk() {
    let tx = frozen_transfer();
    let id = tx.get_transaction_id().unwrap();
    let chunks = tx.chunk(100, 1024, 1, account(3)).unwrap();
    assert_eq!(
        chunks,
        vec![ChunkInfo {
            current: 0,
            total: 1,
            initial_transaction_id: id,
            current_transaction_id: id,
            node_account_id: account(3),
        }]
    );
    assert_eq!(tx.chunk(3 * 1024, 1024, 1, account(3)), Err(Error::BodySizeExceeded));
    assert_eq!(TransferTransaction::new().chunk(1, 1, 1, account(3)), Err(Error::InvalidState));
}

#[test]
fn single_chunk_payload_refuses_to_be_one_of_many() {
    let tx = frozen_transfer();
    let id = tx.get_transaction_id().unwrap();
    let second_of_two = ChunkInfo {
        current: 1,
        total: 2,
        initial_transaction_id: id,
        current_transaction_id: id,
        node_account_id: account(3),
    };
    assert!(matches!(
        tx.data().to_transaction_data_protobuf(&second_of_two),
        Err(Error::BodySizeExceeded)
    ));
    assert!(matches!(tx.make_body(&second_of_two), Err(Error::BodySizeExceeded)));
    assert!(!tx.data().chunkable());
    assert_eq!(tx.data().service_method(), ServiceMethod::CryptoTransfer);
}

#[test]
fn transaction_id_splits_into_seconds_and_nanoseconds() {
    let id = TransactionId::generate(account(1), 1_700_000_000_999_999_999);
    assert_eq!(id.valid_start_seconds(), 1_700_000_000);
    assert_eq!(id.valid_start_nanos(), 999_999_999);
}

#[test]
fn signing_with_a_private_key_signs_under_its_public_key() {
    let mut tx = frozen_transfer();
    let private_key = CountingKey { public: 8, signed: std::cell::Cell::new(0) };
    assert_eq!(tx.sign(&private_key), Ok(()));
    assert_eq!(private_key.signed.get(), 3);
    assert_eq!(tx.signature_count(), 3);
    assert!(tx.has_signature(&key(8), account(4)));
    assert_eq!(tx.sign(&private_key), Ok(()));
    assert_eq!(private_key.signed.get(), 3);
    assert_eq!(tx.signature_count(), 3);
    assert_eq!(
        tx.make_request(2).unwrap().sig_pairs,
        vec![wire::SignaturePair { pub_key_prefix: vec![8; 32], signature: vec![8, 5] }]
    );
}

#[test]
fn private_key_is_not_asked_when_the_transaction_refuses() {
    let private_key = CountingKey { public: 8, signed: std::cell::Cell::new(0) };
    let mut tx = TransferTransaction::new();
    assert_eq!(tx.sign(&private_key), Err(Error::InvalidState));
    let mut tx = frozen_transfer();
    tx.execute(&client(), 1).unwrap();
    assert_eq!(tx.sign(&private_key), Err(Error::AlreadyExecuted));
    let mut tx = TokenPauseTransaction::new();
    tx.freeze_with(Some(account(1)), 1, &client().nodes).unwrap();
    assert_eq!(tx.sign(&private_key), Err(Error::MissingRequiredField));
    assert_eq!(private_key.signed.get(), 0);
}
