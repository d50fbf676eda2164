use hedera::contract::contract_update_transaction::{
    account_id_from_protobuf, account_id_to_protobuf,
};
use hedera::transaction::{ChunkInfo, ServiceMethod, TransactionExecute};
use hedera::wire;
use hedera::{
    AccountId, ContractId, ContractUpdateTransaction, ContractUpdateTransactionData, Duration,
    EntityId, Error, Key, StakedId, Timestamp, TransactionId,
};

fn filled() -> ContractUpdateTransaction {
    let mut tx = ContractUpdateTransaction::new();
    tx.contract_id(ContractId::from(5007))
        .unwrap()
        .admin_key(Key { bytes: vec![1, 2, 3] })
        .unwrap()
        .expiration_time(Timestamp { seconds: 1_554_158_542, nanos: 7 })
        .unwrap()
        .auto_renew_period(Duration::seconds(86_400))
        .unwrap()
        .contract_memo("3")
        .unwrap()
        .max_automatic_token_associations(1026)
        .unwrap()
        .auto_renew_account_id(AccountId::from(30))
        .unwrap()
        .proxy_account_id(AccountId::from(4))
        .unwrap()
        .staked_account_id(AccountId::from(3))
        .unwrap()
        .decline_staking_reward(true)
        .unwrap();
    tx
}

#[test]
fn new_payload_updates_nothing() {
    let tx = ContractUpdateTransaction::new();
    assert_eq!(tx.get_contract_id(), None);
    assert_eq!(tx.get_admin_key(), None);
    assert_eq!(tx.get_expiration_time(), None);
    assert_eq!(tx.get_auto_renew_period(), None);
    assert_eq!(tx.get_contract_memo(), None);
    assert_eq!(tx.get_max_automatic_token_associations(), None);
    assert_eq!(tx.get_auto_renew_account_id(), None);
    assert_eq!(tx.get_proxy_account_id(), None);
    assert_eq!(tx.get_staked_account_id(), None);
    assert_eq!(tx.get_staked_node_id(), None);
    assert_eq!(tx.get_decline_staking_reward(), None);
}

#[test]
fn getters_give_what_the_setters_took() {
    let tx = filled();
    assert_eq!(tx.get_contract_id(), Some(ContractId::from(5007)));
    assert_eq!(tx.get_admin_key(), Some(&Key { bytes: vec![1, 2, 3] }));
    assert_eq!(tx.get_expiration_time(), Some(Timestamp { seconds: 1_554_158_542, nanos: 7 }));
    assert_eq!(tx.get_auto_renew_period(), Some(Duration::seconds(86_400)));
    assert_eq!(tx.get_contract_memo(), Some("3"));
    assert_eq!(tx.get_max_automatic_token_associations(), Some(1026));
    assert_eq!(tx.get_auto_renew_account_id(), Some(AccountId::from(30)));
    assert_eq!(tx.get_proxy_account_id(), Some(AccountId::from(4)));
    assert_eq!(tx.get_staked_account_id(), Some(AccountId::from(3)));
    assert_eq!(tx.get_staked_node_id(), None);
    assert_eq!(tx.get_decline_staking_reward(), Some(true));
}

#[test]
fn staking_to_a_node_replaces_staking_to_an_account() {
    let mut tx = filled();
    tx.staked_node_id(9).unwrap();
    assert_eq!(tx.get_staked_node_id(), Some(9));
    assert_eq!(tx.get_staked_account_id(), None);
    tx.staked_account_id(AccountId::from(8)).unwrap();
    assert_eq!(tx.get_staked_node_id(), None);
    assert_eq!(tx.get_staked_account_id(), Some(AccountId::from(8)));
    assert_eq!(StakedId::NodeId(4).to_node_id(), Some(4));
    assert_eq!(StakedId::NodeId(4).to_account_id(), None);
}

#[test]
fn setters_fail_once_the_transaction_is_frozen() {
    let mut tx = filled();
    tx.freeze_with(Some(AccountId::from(2)), 1, &vec![AccountId::from(3)]).unwrap();
    assert!(matches!(tx.contract_id(ContractId::from(1)), Err(Error::InvalidState)));
    assert!(matches!(tx.admin_key(Key { bytes: vec![] }), Err(Error::InvalidState)));
    assert!(matches!(
        tx.expiration_time(Timestamp { seconds: 0, nanos: 0 }),
        Err(Error::InvalidState)
    ));
    assert!(matches!(tx.auto_renew_period(Duration::seconds(1)), Err(Error::InvalidState)));
    assert!(matches!(tx.contract_memo("x"), Err(Error::InvalidState)));
    assert!(matches!(tx.max_automatic_token_associations(1), Err(Error::InvalidState)));
    assert!(matches!(tx.auto_renew_account_id(AccountId::from(1)), Err(Error::InvalidState)));
    assert!(matches!(tx.proxy_account_id(AccountId::from(1)), Err(Error::InvalidState)));
    assert!(matches!(tx.staked_account_id(AccountId::from(1)), Err(Error::InvalidState)));
    assert!(matches!(tx.staked_node_id(1), Err(Error::InvalidState)));
    assert!(matches!(tx.decline_staking_reward(false), Err(Error::InvalidState)));
    assert_eq!(tx.get_contract_id(), Some(ContractId::from(5007)));
    assert_eq!(tx.get_contract_memo(), Some("3"));
    assert_eq!(tx.get_staked_account_id(), Some(AccountId::from(3)));
}

#[test]
fn update_payload_is_written_for_the_wire() {
    let pb = filled().data().to_protobuf();
    assert_eq!(
        pb,
        wire::ContractUpdateTransactionBody {
            contract_id: Some(wire::ContractId { shard_num: 0, realm_num: 0, contract_num: 5007 }),
            expiration_time: Some(wire::Timestamp { seconds: 1_554_158_542, nanos: 7 }),
            admin_key: Some(wire::Key { bytes: vec![1, 2, 3] }),
            proxy_account_id: Some(wire::AccountId { shard_num: 0, realm_num: 0, account_num: 4 }),
            auto_renew_period: Some(wire::Duration { seconds: 86_400 }),
            max_automatic_token_associations: Some(1026),
            auto_renew_account_id: Some(wire::AccountId {
                shard_num: 0,
                realm_num: 0,
                account_num: 30,
            }),
            decline_reward: Some(true),
            staked_id: Some(wire::StakedId::StakedAccountId(wire::AccountId {
                shard_num: 0,
                realm_num: 0,
                account_num: 3,
            })),
            memo_field: Some(wire::MemoField::MemoWrapper("3".to_string())),
        }
    );
}

#[test]
fn empty_payload_is_written_as_an_empty_body() {
    let pb = ContractUpdateTransactionData::new().to_protobuf();
    assert_eq!(
        pb,
        wire::ContractUpdateTransactionBody {
            contract_id: None,
            expiration_time: None,
            admin_key: None,
            proxy_account_id: None,
            auto_renew_period: None,
            max_automatic_token_associations: None,
            auto_renew_account_id: None,
            decline_reward: None,
            staked_id: None,
            memo_field: None,
        }
    );
}

#[test]
fn numbers_change_sign_on_the_wire_and_come_back() {
    let mut data = ContractUpdateTransactionData::new();
    data.max_automatic_token_associations = Some(u32::MAX);
    data.staked_id = Some(StakedId::NodeId(u64::MAX));
    data.expiration_time = Some(Timestamp { seconds: -5, nanos: u32::MAX });
    let pb = data.to_protobuf();
    assert_eq!(pb.max_automatic_token_associations, Some(-1));
    assert_eq!(pb.staked_id, Some(wire::StakedId::StakedNodeId(-1)));
    assert_eq!(pb.expiration_time, Some(wire::Timestamp { seconds: -5, nanos: -1 }));
    let back = ContractUpdateTransactionData::from_protobuf(pb).unwrap();
    assert_eq!(back.max_automatic_token_associations, Some(u32::MAX));
    assert_eq!(back.staked_id, Some(StakedId::NodeId(u64::MAX)));
    assert_eq!(back.expiration_time, Some(Timestamp { seconds: -5, nanos: u32::MAX }));
}

#[test]
fn payload_is_read_back_from_the_wire() {
    let tx = filled();
    let back = ContractUpdateTransactionData::from_protobuf(tx.data().to_protobuf()).unwrap();
    assert_eq!(back.contract_id, tx.get_contract_id());
    assert_eq!(back.expiration_time, tx.get_expiration_time());
    assert_eq!(back.admin_key.as_ref(), tx.get_admin_key());
    assert_eq!(back.auto_renew_period, tx.get_auto_renew_period());
    assert_eq!(back.contract_memo.as_deref(), tx.get_contract_memo());
    assert_eq!(back.max_automatic_token_associations, Some(1026));
    assert_eq!(back.auto_renew_account_id, tx.get_auto_renew_account_id());
    assert_eq!(back.proxy_account_id, tx.get_proxy_account_id());
    assert_eq!(back.staked_id, Some(StakedId::AccountId(AccountId::from(3))));
    assert_eq!(back.decline_staking_reward, Some(true));
}

#[test]
fn memo_is_read_from_either_form() {
    let mut pb = ContractUpdateTransactionData::new().to_protobuf();
    pb.memo_field = Some(wire::MemoField::Memo("plain".to_string()));
    let data = ContractUpdateTransactionData::from_protobuf(pb.clone()).unwrap();
    assert_eq!(data.contract_memo.as_deref(), Some("plain"));
    pb.memo_field = Some(wire::MemoField::MemoWrapper("wrapped".to_string()));
    let data = ContractUpdateTransactionData::from_protobuf(pb).unwrap();
    assert_eq!(data.contract_memo.as_deref(), Some("wrapped"));
}

#[test]
fn update_payload_goes_into_transaction_bodies() {
    let tx = filled();
    let id = TransactionId::generate(AccountId::from(2), 1);
    let only = ChunkInfo {
        current: 0,
        total: 1,
        initial_transaction_id: id,
        current_transaction_id: id,
        node_account_id: AccountId::from(3),
    };
    assert_eq!(
        tx.data().to_transaction_data_protobuf(&only),
        Ok(wire::TransactionData::ContractUpdateInstance(tx.data().to_protobuf()))
    );
    assert_eq!(
        tx.data().to_schedulable_transaction_data_protobuf(),
        wire::SchedulableTransactionData::ContractUpdateInstance(tx.data().to_protobuf())
    );
    let one_of_two = ChunkInfo { total: 2, ..only };
    assert_eq!(
        tx.data().to_transaction_data_protobuf(&one_of_two),
        Err(Error::BodySizeExceeded)
    );
    assert_eq!(
        ContractUpdateTransactionData::new().to_transaction_data_protobuf(&only),
        Err(Error::MissingRequiredField)
    );
    assert_eq!(
        ContractUpdateTransactionData::new().to_transaction_data_protobuf(&one_of_two),
        Err(Error::MissingRequiredField)
    );
    assert_eq!(tx.data().service_method(), ServiceMethod::UpdateContract);
    assert!(!tx.data().chunkable());
    assert!(tx.data().complete());
}

#[test]
fn embedded_ids_are_checked_in_order() {
    let tx = filled();
    let seen = std::cell::RefCell::new(Vec::new());
    let result = tx.data().validate_checksums(&|id: EntityId| {
        seen.borrow_mut().push(id.num);
        Ok(())
    });
    assert_eq!(result, Ok(()));
    assert_eq!(*seen.borrow(), vec![5007, 30, 3, 4]);
}

#[test]
fn first_failing_id_stops_the_check() {
    let tx = filled();
    let seen = std::cell::RefCell::new(Vec::new());
    let result = tx.data().validate_checksums(&|id: EntityId| {
        seen.borrow_mut().push(id.num);
        if id.num == 30 || id.num == 4 {
            Err(Error::PreCheckStatus { status: id.num as i32 })
        } else {
            Ok(())
        }
    });
    assert_eq!(result, Err(Error::PreCheckStatus { status: 30 }));
    assert_eq!(*seen.borrow(), vec![5007, 30]);
}

#[test]
fn node_staking_has_no_id_to_check() {
    let mut data = ContractUpdateTransactionData::new();
    data.staked_id = Some(StakedId::NodeId(3));
    let result = data.validate_checksums(&|_: EntityId| Err(Error::BasicParse));
    assert_eq!(result, Ok(()));
}

#[test]
fn optional_account_ids_cross_the_wire() {
    assert_eq!(account_id_to_protobuf(None), None);
    assert_eq!(account_id_from_protobuf(None), None);
    let id = AccountId { shard: 1, realm: 2, num: 3 };
    let pb = wire::AccountId { shard_num: 1, realm_num: 2, account_num: 3 };
    assert_eq!(account_id_to_protobuf(Some(id)), Some(pb));
    assert_eq!(account_id_from_protobuf(Some(pb)), Some(id));
}
