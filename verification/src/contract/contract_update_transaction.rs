//! Updates of the fields of a smart contract.

use vstd::prelude::*;
use crate::checksum::{spec_validated, validate_ids};
use crate::duration::{Duration, Timestamp};
use crate::entity_id::{AccountId, ContractId, EntityId};
use crate::error::Error;
use crate::key::{copy_bytes, Key};
use crate::staked_id::StakedId;
use crate::transaction::{ChunkInfo, ServiceMethod, Transaction, TransactionExecute, TransactionView};
use crate::wire;

verus! {

/// Updates the fields of a smart contract to the given values.
pub type ContractUpdateTransaction = Transaction<ContractUpdateTransactionData>;

#[derive(Debug, Clone)]
pub struct ContractUpdateTransactionData {
    pub contract_id: Option<ContractId>,
    pub expiration_time: Option<Timestamp>,
    pub admin_key: Option<Key>,
    pub auto_renew_period: Option<Duration>,
    pub contract_memo: Option<String>,
    pub max_automatic_token_associations: Option<u32>,
    pub auto_renew_account_id: Option<AccountId>,
    pub proxy_account_id: Option<AccountId>,
    /// ID of the account or node to which this contract is staking, if any.
    pub staked_id: Option<StakedId>,
    pub decline_staking_reward: Option<bool>,
}

pub struct ContractUpdateTransactionDataView {
    pub contract_id: Option<ContractId>,
    pub expiration_time: Option<Timestamp>,
    pub admin_key: Option<Seq<u8>>,
    pub auto_renew_period: Option<Duration>,
    pub contract_memo: Option<Seq<char>>,
    pub max_automatic_token_associations: Option<u32>,
    pub auto_renew_account_id: Option<AccountId>,
    pub proxy_account_id: Option<AccountId>,
    pub staked_id: Option<StakedId>,
    pub decline_staking_reward: Option<bool>,
}

impl View for ContractUpdateTransactionData {
    type V = ContractUpdateTransactionDataView;

    open spec fn view(&self) -> ContractUpdateTransactionDataView {
        ContractUpdateTransactionDataView {
            contract_id: self.contract_id,
            expiration_time: self.expiration_time,
            admin_key: match self.admin_key {
                Some(key) => Some(key.bytes@),
                None => None,
            },
            auto_renew_period: self.auto_renew_period,
            contract_memo: match self.contract_memo {
                Some(memo) => Some(memo@),
                None => None,
            },
            max_automatic_token_associations: self.max_automatic_token_associations,
            auto_renew_account_id: self.auto_renew_account_id,
            proxy_account_id: self.proxy_account_id,
            staked_id: self.staked_id,
            decline_staking_reward: self.decline_staking_reward,
        }
    }
}

/// The wire form of an optional account ID.
pub open spec fn spec_account_id_to_protobuf(id: Option<AccountId>) -> Option<wire::AccountId> {
    match id {
        Some(id) => Some(wire::AccountId::spec_from_id(id)),
        None => None,
    }
}

/// The optional account ID that a wire form stands for.
pub open spec fn spec_account_id_from_protobuf(pb: Option<wire::AccountId>) -> Option<AccountId> {
    match pb {
        Some(pb) => Some(pb.spec_to_id()),
        None => None,
    }
}

pub fn account_id_to_protobuf(id: Option<AccountId>) -> (pb: Option<wire::AccountId>)
    ensures
        pb == spec_account_id_to_protobuf(id),
{
    match id {
        Some(id) => Some(wire::AccountId::from_id(id)),
        None => None,
    }
}

pub fn account_id_from_protobuf(pb: Option<wire::AccountId>) -> (id: Option<AccountId>)
    ensures
        id == spec_account_id_from_protobuf(pb),
{
    match pb {
        Some(pb) => Some(pb.to_id()),
        None => None,
    }
}

impl ContractUpdateTransactionDataView {
    /// The payload in which nothing is to be updated.
    pub open spec fn empty() -> ContractUpdateTransactionDataView {
        ContractUpdateTransactionDataView {
            contract_id: None,
            expiration_time: None,
            admin_key: None,
            auto_renew_period: None,
            contract_memo: None,
            max_automatic_token_associations: None,
            auto_renew_account_id: None,
            proxy_account_id: None,
            staked_id: None,
            decline_staking_reward: None,
        }
    }

    /// The IDs that this payload embeds, in the order in which they are checked: the
    /// contract, the account that renews it, the account that it stakes to, and the
    /// proxy account, as far as they are set.
    pub open spec fn embedded_ids(self) -> Seq<EntityId> {
        let contract = match self.contract_id {
            Some(id) => seq![id],
            None => Seq::empty(),
        };
        let auto_renew = match self.auto_renew_account_id {
            Some(id) => seq![id],
            None => Seq::empty(),
        };
        let staked = match self.staked_id {
            Some(StakedId::AccountId(id)) => seq![id],
            _ => Seq::empty(),
        };
        let proxy = match self.proxy_account_id {
            Some(id) => seq![id],
            None => Seq::empty(),
        };
        contract + auto_renew + staked + proxy
    }

    /// The wire form of the payload: every field that is set goes out, each number bit
    /// for bit, and the memo goes out in its wrapped form.
    pub open spec fn to_protobuf(self) -> wire::ContractUpdateTransactionBodyView {
        wire::ContractUpdateTransactionBodyView {
            contract_id: match self.contract_id {
                Some(id) => Some(wire::ContractId::spec_from_id(id)),
                None => None,
            },
            expiration_time: match self.expiration_time {
                Some(at) => Some(wire::Timestamp { seconds: at.seconds, nanos: at.nanos as i32 }),
                None => None,
            },
            admin_key: self.admin_key,
            proxy_account_id: spec_account_id_to_protobuf(self.proxy_account_id),
            auto_renew_period: match self.auto_renew_period {
                Some(period) => Some(wire::Duration { seconds: period.seconds }),
                None => None,
            },
            max_automatic_token_associations: match self.max_automatic_token_associations {
                Some(max) => Some(max as i32),
                None => None,
            },
            auto_renew_account_id: spec_account_id_to_protobuf(self.auto_renew_account_id),
            decline_reward: self.decline_staking_reward,
            staked_id: match self.staked_id {
                Some(StakedId::NodeId(id)) => Some(wire::StakedId::StakedNodeId(id as i64)),
                Some(StakedId::AccountId(id)) => Some(
                    wire::StakedId::StakedAccountId(wire::AccountId::spec_from_id(id)),
                ),
                None => None,
            },
            memo_field: match self.contract_memo {
                Some(memo) => Some(wire::MemoFieldView::MemoWrapper(memo)),
                None => None,
            },
        }
    }

    /// The payload that a wire form stands for. The memo is taken from either of its
    /// two forms.
    pub open spec fn from_protobuf(pb: wire::ContractUpdateTransactionBodyView)
        -> ContractUpdateTransactionDataView {
        ContractUpdateTransactionDataView {
            contract_id: match pb.contract_id {
                Some(id) => Some(id.spec_to_id()),
                None => None,
            },
            expiration_time: match pb.expiration_time {
                Some(at) => Some(Timestamp { seconds: at.seconds, nanos: at.nanos as u32 }),
                None => None,
            },
            admin_key: pb.admin_key,
            auto_renew_period: match pb.auto_renew_period {
                Some(period) => Some(Duration { seconds: period.seconds }),
                None => None,
            },
            contract_memo: match pb.memo_field {
                Some(wire::MemoFieldView::Memo(memo)) => Some(memo),
                Some(wire::MemoFieldView::MemoWrapper(memo)) => Some(memo),
                None => None,
            },
            max_automatic_token_associations: match pb.max_automatic_token_associations {
                Some(max) => Some(max as u32),
                None => None,
            },
            auto_renew_account_id: spec_account_id_from_protobuf(pb.auto_renew_account_id),
            proxy_account_id: spec_account_id_from_protobuf(pb.proxy_account_id),
            staked_id: match pb.staked_id {
                Some(wire::StakedId::StakedNodeId(id)) => Some(StakedId::NodeId(id as u64)),
                Some(wire::StakedId::StakedAccountId(id)) => Some(
                    StakedId::AccountId(id.spec_to_id()),
                ),
                None => None,
            },
            decline_staking_reward: pb.decline_reward,
        }
    }
}

/// What a setter does to a transaction: a frozen transaction refuses and stays as it
/// is; any other has its payload changed to one that looks like `data`, and nothing
/// else.
pub open spec fn spec_updated(
    before: TransactionView<ContractUpdateTransactionData>,
    after: TransactionView<ContractUpdateTransactionData>,
    data: ContractUpdateTransactionDataView,
    ok: bool,
) -> bool {
    if before.frozen {
        !ok && after == before
    } else {
        ok && after.data@ == data && after == (TransactionView { data: after.data, ..before })
    }
}

impl ContractUpdateTransaction {
    /// Returns the contract to be updated.
    pub fn get_contract_id(&self) -> (value: Option<ContractId>)
        ensures
            value == self@.data@.contract_id,
    {
        self.data().contract_id
    }

    /// Sets the contract to be updated.
    pub fn contract_id(&mut self, contract_id: ContractId) -> (result: Result<&mut Self, Error>)
        ensures
            result is Err ==> result->Err_0 == Error::InvalidState && spec_updated(
                old(self)@,
                final(self)@,
                old(self)@.data@,
                false,
            ),
            result is Ok ==> *final(self) == *final(result->Ok_0) && spec_updated(
                old(self)@,
                result->Ok_0@,
                ContractUpdateTransactionDataView { contract_id: Some(contract_id), ..old(self)@.data@ },
                true,
            ),
    {
        match self.data_mut() {
            Ok(data) => {
                data.contract_id = Some(contract_id);
            },
            Err(error) => {
                return Err(error);
            },
        }
        Ok(self)
    }

    /// Returns the new admin key.
    pub fn get_admin_key(&self) -> (key: Option<&Key>)
        ensures
            key is Some <==> self@.data@.admin_key is Some,
            key is Some ==> key->0.bytes@ == self@.data@.admin_key->0,
    {
        self.data().admin_key.as_ref()
    }

    /// Sets the new admin key.
    pub fn admin_key(&mut self, key: Key) -> (result: Result<&mut Self, Error>)
        ensures
            result is Err ==> result->Err_0 == Error::InvalidState && spec_updated(
                old(self)@,
                final(self)@,
                old(self)@.data@,
                false,
            ),
            result is Ok ==> *final(self) == *final(result->Ok_0) && spec_updated(
                old(self)@,
                result->Ok_0@,
                ContractUpdateTransactionDataView { admin_key: Some(key.bytes@), ..old(self)@.data@ },
                true,
            ),
    {
        match self.data_mut() {
            Ok(data) => {
                data.admin_key = Some(key);
            },
            Err(error) => {
                return Err(error);
            },
        }
        Ok(self)
    }

    /// Returns the new expiration time to extend to (ignored if equal to or before the current one).
    pub fn get_expiration_time(&self) -> (value: Option<Timestamp>)
        ensures
            value == self@.data@.expiration_time,
    {
        self.data().expiration_time
    }

    /// Sets the new expiration time to extend to (ignored if equal to or before the current one).
    pub fn expiration_time(&mut self, at: Timestamp) -> (result: Result<&mut Self, Error>)
        ensures
            result is Err ==> result->Err_0 == Error::InvalidState && spec_updated(
                old(self)@,
                final(self)@,
                old(self)@.data@,
                false,
            ),
            result is Ok ==> *final(self) == *final(result->Ok_0) && spec_updated(
                old(self)@,
                result->Ok_0@,
                ContractUpdateTransactionDataView { expiration_time: Some(at), ..old(self)@.data@ },
                true,
            ),
    {
        match self.data_mut() {
            Ok(data) => {
                data.expiration_time = Some(at);
            },
            Err(error) => {
                return Err(error);
            },
        }
        Ok(self)
    }

    /// Returns the auto renew period for this smart contract.
    pub fn get_auto_renew_period(&self) -> (value: Option<Duration>)
        ensures
            value == self@.data@.auto_renew_period,
    {
        self.data().auto_renew_period
    }

    /// Sets the auto renew period for this smart contract.
    pub fn auto_renew_period(&mut self, period: Duration) -> (result: Result<&mut Self, Error>)
        ensures
            result is Err ==> result->Err_0 == Error::InvalidState && spec_updated(
                old(self)@,
                final(self)@,
                old(self)@.data@,
                false,
            ),
            result is Ok ==> *final(self) == *final(result->Ok_0) && spec_updated(
                old(self)@,
                result->Ok_0@,
                ContractUpdateTransactionDataView { auto_renew_period: Some(period), ..old(self)@.data@ },
                true,
            ),
    {
        match self.data_mut() {
            Ok(data) => {
                data.auto_renew_period = Some(period);
            },
            Err(error) => {
                return Err(error);
            },
        }
        Ok(self)
    }

    /// Returns the new memo for the smart contract.
    pub fn get_contract_memo(&self) -> (memo: Option<&str>)
        ensures
            memo is Some <==> self@.data@.contract_memo is Some,
            memo is Some ==> memo->0@ == self@.data@.contract_memo->0,
    {
        match &self.data().contract_memo {
            Some(memo) => Some(memo.as_str()),
            None => None,
        }
    }

    /// Sets the new memo for the smart contract.
    pub fn contract_memo(&mut self, memo: &str) -> (result: Result<&mut Self, Error>)
        ensures
            result is Err ==> result->Err_0 == Error::InvalidState && spec_updated(
                old(self)@,
                final(self)@,
                old(self)@.data@,
                false,
            ),
            result is Ok ==> *final(self) == *final(result->Ok_0) && spec_updated(
                old(self)@,
                result->Ok_0@,
                ContractUpdateTransactionDataView { contract_memo: Some(memo@), ..old(self)@.data@ },
                true,
            ),
    {
        match self.data_mut() {
            Ok(data) => {
                data.contract_memo = Some(memo.to_owned());
            },
            Err(error) => {
                return Err(error);
            },
        }
        Ok(self)
    }

    /// Returns the maximum number of tokens that this contract can be automatically associated with.
    pub fn get_max_automatic_token_associations(&self) -> (value: Option<u32>)
        ensures
            value == self@.data@.max_automatic_token_associations,
    {
        self.data().max_automatic_token_associations
    }

    /// Sets the maximum number of tokens that this contract can be automatically associated with.
    pub fn max_automatic_token_associations(&mut self, max: u32) -> (result: Result<&mut Self, Error>)
        ensures
            result is Err ==> result->Err_0 == Error::InvalidState && spec_updated(
                old(self)@,
                final(self)@,
                old(self)@.data@,
                false,
            ),
            result is Ok ==> *final(self) == *final(result->Ok_0) && spec_updated(
                old(self)@,
                result->Ok_0@,
                ContractUpdateTransactionDataView { max_automatic_token_associations: Some(max), ..old(self)@.data@ },
                true,
            ),
    {
        match self.data_mut() {
            Ok(data) => {
                data.max_automatic_token_associations = Some(max);
            },
            Err(error) => {
                return Err(error);
            },
        }
        Ok(self)
    }

    /// Returns the account to be used at the contract's expiration time to extend the
    /// life of the contract.
    pub fn get_auto_renew_account_id(&self) -> (value: Option<AccountId>)
        ensures
            value == self@.data@.auto_renew_account_id,
    {
        self.data().auto_renew_account_id
    }

    /// Sets the account to be used at the contract's expiration time to extend the
    /// life of the contract.
    pub fn auto_renew_account_id(&mut self, account_id: AccountId) -> (result: Result<&mut Self, Error>)
        ensures
            result is Err ==> result->Err_0 == Error::InvalidState && spec_updated(
                old(self)@,
                final(self)@,
                old(self)@.data@,
                false,
            ),
            result is Ok ==> *final(self) == *final(result->Ok_0) && spec_updated(
                old(self)@,
                result->Ok_0@,
                ContractUpdateTransactionDataView { auto_renew_account_id: Some(account_id), ..old(self)@.data@ },
                true,
            ),
    {
        match self.data_mut() {
            Ok(data) => {
                data.auto_renew_account_id = Some(account_id);
            },
            Err(error) => {
                return Err(error);
            },
        }
        Ok(self)
    }

    /// Returns the ID of the account to which this contract is proxy staked.
    pub fn get_proxy_account_id(&self) -> (value: Option<AccountId>)
        ensures
            value == self@.data@.proxy_account_id,
    {
        self.data().proxy_account_id
    }

    /// Sets the ID of the account to which this contract is proxy staked.
    pub fn proxy_account_id(&mut self, id: AccountId) -> (result: Result<&mut Self, Error>)
        ensures
            result is Err ==> result->Err_0 == Error::InvalidState && spec_updated(
                old(self)@,
                final(self)@,
                old(self)@.data@,
                false,
            ),
            result is Ok ==> *final(self) == *final(result->Ok_0) && spec_updated(
                old(self)@,
                result->Ok_0@,
                ContractUpdateTransactionDataView { proxy_account_id: Some(id), ..old(self)@.data@ },
                true,
            ),
    {
        match self.data_mut() {
            Ok(data) => {
                data.proxy_account_id = Some(id);
            },
            Err(error) => {
                return Err(error);
            },
        }
        Ok(self)
    }

    /// Returns the ID of the account to which this contract is staking.
    pub fn get_staked_account_id(&self) -> (id: Option<AccountId>)
        ensures
            id == (match self@.data@.staked_id {
                Some(StakedId::AccountId(id)) => Some(id),
                _ => None,
            }),
    {
        match self.data().staked_id {
            Some(id) => id.to_account_id(),
            None => None,
        }
    }

    /// Sets the ID of the account to which this contract is staking.
    /// This is mutually exclusive with `staked_node_id`.
    pub fn staked_account_id(&mut self, id: AccountId) -> (result: Result<&mut Self, Error>)
        ensures
            result is Err ==> result->Err_0 == Error::InvalidState && spec_updated(
                old(self)@,
                final(self)@,
                old(self)@.data@,
                false,
            ),
            result is Ok ==> *final(self) == *final(result->Ok_0) && spec_updated(
                old(self)@,
                result->Ok_0@,
                ContractUpdateTransactionDataView { staked_id: Some(StakedId::AccountId(id)), ..old(self)@.data@ },
                true,
            ),
    {
        match self.data_mut() {
            Ok(data) => {
                data.staked_id = Some(StakedId::AccountId(id));
            },
            Err(error) => {
                return Err(error);
            },
        }
        Ok(self)
    }

    /// Returns the ID of the node to which this contract is staking.
    pub fn get_staked_node_id(&self) -> (id: Option<u64>)
        ensures
            id == (match self@.data@.staked_id {
                Some(StakedId::NodeId(id)) => Some(id),
                _ => None,
            }),
    {
        match self.data().staked_id {
            Some(id) => id.to_node_id(),
            None => None,
        }
    }

    /// Sets the ID of the node to which this contract is staking.
    /// This is mutually exclusive with `staked_account_id`.
    pub fn staked_node_id(&mut self, id: u64) -> (result: Result<&mut Self, Error>)
        ensures
            result is Err ==> result->Err_0 == Error::InvalidState && spec_updated(
                old(self)@,
                final(self)@,
                old(self)@.data@,
                false,
            ),
            result is Ok ==> *final(self) == *final(result->Ok_0) && spec_updated(
                old(self)@,
                result->Ok_0@,
                ContractUpdateTransactionDataView { staked_id: Some(StakedId::NodeId(id)), ..old(self)@.data@ },
                true,
            ),
    {
        match self.data_mut() {
            Ok(data) => {
                data.staked_id = Some(StakedId::NodeId(id));
            },
            Err(error) => {
                return Err(error);
            },
        }
        Ok(self)
    }

    /// Returns `true` if the contract will be updated decline staking rewards,
    /// `false` if it will be updated to _not_,
    /// and `None` if it will not be updated.
    pub fn get_decline_staking_reward(&self) -> (value: Option<bool>)
        ensures
            value == self@.data@.decline_staking_reward,
    {
        self.data().decline_staking_reward
    }

    /// Sets to true, the contract declines receiving a staking reward. The default value is false.
    pub fn decline_staking_reward(&mut self, decline: bool) -> (result: Result<&mut Self, Error>)
        ensures
            result is Err ==> result->Err_0 == Error::InvalidState && spec_updated(
                old(self)@,
                final(self)@,
                old(self)@.data@,
                false,
            ),
            result is Ok ==> *final(self) == *final(result->Ok_0) && spec_updated(
                old(self)@,
                result->Ok_0@,
                ContractUpdateTransactionDataView { decline_staking_reward: Some(decline), ..old(self)@.data@ },
                true,
            ),
    {
        match self.data_mut() {
            Ok(data) => {
                data.decline_staking_reward = Some(decline);
            },
            Err(error) => {
                return Err(error);
            },
        }
        Ok(self)
    }
}

impl ContractUpdateTransactionData {
    /// A payload in which nothing is to be updated.
    pub fn new() -> (data: Self)
        ensures
            data@ == ContractUpdateTransactionDataView::empty(),
    {
        ContractUpdateTransactionData {
            contract_id: None,
            expiration_time: None,
            admin_key: None,
            auto_renew_period: None,
            contract_memo: None,
            max_automatic_token_associations: None,
            auto_renew_account_id: None,
            proxy_account_id: None,
            staked_id: None,
            decline_staking_reward: None,
        }
    }

    /// Checks the IDs that this payload embeds with `validate`, and stops at the first
    /// one that fails.
    pub fn validate_checksums<F: Fn(EntityId) -> Result<(), Error>>(&self, validate: &F) -> (result:
        Result<(), Error>)
        requires
            forall|id: EntityId| call_requires(*validate, (id,)),
        ensures
            spec_validated(*validate, self@.embedded_ids(), result),
    {
        let mut ids: Vec<EntityId> = Vec::new();
        match self.contract_id {
            Some(id) => {
                ids.push(id);
            },
            None => {},
        }
        match self.auto_renew_account_id {
            Some(id) => {
                ids.push(id);
            },
            None => {},
        }
        match self.staked_id {
            Some(StakedId::AccountId(id)) => {
                ids.push(id);
            },
            _ => {},
        }
        match self.proxy_account_id {
            Some(id) => {
                ids.push(id);
            },
            None => {},
        }
        assert(ids@ =~= self@.embedded_ids());
        validate_ids(&ids, validate)
    }

    /// The wire form of the payload.
    pub fn to_protobuf(&self) -> (pb: wire::ContractUpdateTransactionBody)
        ensures
            pb@ == self@.to_protobuf(),
    {
        let contract_id = match self.contract_id {
            Some(id) => Some(wire::ContractId::from_id(id)),
            None => None,
        };
        let expiration_time = match self.expiration_time {
            Some(at) => Some(wire::Timestamp { seconds: at.seconds, nanos: at.nanos as i32 }),
            None => None,
        };
        let admin_key = match &self.admin_key {
            Some(key) => Some(wire::Key { bytes: copy_bytes(&key.bytes) }),
            None => None,
        };
        let auto_renew_period = match self.auto_renew_period {
            Some(period) => Some(wire::Duration { seconds: period.whole_seconds() }),
            None => None,
        };
        let auto_renew_account_id = account_id_to_protobuf(self.auto_renew_account_id);
        let staked_id = match self.staked_id {
            Some(StakedId::NodeId(id)) => Some(wire::StakedId::StakedNodeId(id as i64)),
            Some(StakedId::AccountId(id)) => Some(
                wire::StakedId::StakedAccountId(wire::AccountId::from_id(id)),
            ),
            None => None,
        };
        let memo_field = match &self.contract_memo {
            Some(memo) => Some(wire::MemoField::MemoWrapper(memo.clone())),
            None => None,
        };
        let max_automatic_token_associations = match self.max_automatic_token_associations {
            Some(max) => Some(max as i32),
            None => None,
        };
        wire::ContractUpdateTransactionBody {
            contract_id,
            expiration_time,
            admin_key,
            proxy_account_id: account_id_to_protobuf(self.proxy_account_id),
            auto_renew_period,
            max_automatic_token_associations,
            auto_renew_account_id,
            decline_reward: self.decline_staking_reward,
            staked_id,
            memo_field,
        }
    }

    /// The payload that a wire form stands for.
    pub fn from_protobuf(pb: wire::ContractUpdateTransactionBody) -> (result: Result<Self, Error>)
        ensures
            result is Ok,
            result->Ok_0@ == ContractUpdateTransactionDataView::from_protobuf(pb@),
    {
        let contract_id = match pb.contract_id {
            Some(id) => Some(id.to_id()),
            None => None,
        };
        let expiration_time = match pb.expiration_time {
            Some(at) => Some(Timestamp { seconds: at.seconds, nanos: at.nanos as u32 }),
            None => None,
        };
        let auto_renew_period = match pb.auto_renew_period {
            Some(period) => Some(Duration::seconds(period.seconds)),
            None => None,
        };
        let max_automatic_token_associations = match pb.max_automatic_token_associations {
            Some(max) => Some(max as u32),
            None => None,
        };
        let staked_id = match pb.staked_id {
            Some(wire::StakedId::StakedNodeId(id)) => Some(StakedId::NodeId(id as u64)),
            Some(wire::StakedId::StakedAccountId(id)) => Some(StakedId::AccountId(id.to_id())),
            None => None,
        };
        let auto_renew_account_id = account_id_from_protobuf(pb.auto_renew_account_id);
        let proxy_account_id = account_id_from_protobuf(pb.proxy_account_id);
        let decline_staking_reward = pb.decline_reward;
        let admin_key = match pb.admin_key {
            Some(key) => Some(Key { bytes: key.bytes }),
            None => None,
        };
        let contract_memo = match pb.memo_field {
            Some(wire::MemoField::Memo(memo)) => Some(memo),
            Some(wire::MemoField::MemoWrapper(memo)) => Some(memo),
            None => None,
        };
        Ok(
            ContractUpdateTransactionData {
                contract_id,
                expiration_time,
                admin_key,
                auto_renew_period,
                contract_memo,
                max_automatic_token_associations,
                auto_renew_account_id,
                proxy_account_id,
                staked_id,
                decline_staking_reward,
            },
        )
    }

    /// The payload of a transaction body that is to be scheduled.
    pub fn to_schedulable_transaction_data_protobuf(&self) -> (data:
        wire::SchedulableTransactionData)
        ensures
            data@ == wire::SchedulableTransactionDataView::ContractUpdateInstance(
                self@.to_protobuf(),
            ),
    {
        wire::SchedulableTransactionData::ContractUpdateInstance(self.to_protobuf())
    }
}

impl Default for ContractUpdateTransactionData {
    fn default() -> (data: Self)
        ensures
            data@ == ContractUpdateTransactionDataView::empty(),
    {
        ContractUpdateTransactionData::new()
    }
}

impl TransactionExecute for ContractUpdateTransactionData {
    open spec fn spec_chunkable(&self) -> bool {
        false
    }

    open spec fn spec_service_method(&self) -> ServiceMethod {
        ServiceMethod::UpdateContract
    }

    open spec fn spec_complete(&self) -> bool {
        self.contract_id is Some
    }

    open spec fn spec_transaction_data(&self, chunk_info: ChunkInfo) -> wire::TransactionDataView {
        wire::TransactionDataView::ContractUpdateInstance(self@.to_protobuf())
    }

    fn chunkable(&self) -> (chunkable: bool) {
        false
    }

    fn complete(&self) -> (complete: bool) {
        self.contract_id.is_some()
    }

    fn service_method(&self) -> (method: ServiceMethod) {
        ServiceMethod::UpdateContract
    }

    fn to_transaction_data_protobuf(&self, chunk_info: &ChunkInfo) -> (data: Result<
        wire::TransactionData,
        Error,
    >) {
        if !self.complete() {
            return Err(Error::MissingRequiredField);
        }
        if chunk_info.total != 1 {
            return Err(Error::BodySizeExceeded);
        }
        Ok(wire::TransactionData::ContractUpdateInstance(self.to_protobuf()))
    }
}

/// Writing a payload out and reading it back gives the same payload: its unsigned
/// numbers change sign on the wire, and come back bit for bit.
pub proof fn lemma_protobuf_round_trip(data: ContractUpdateTransactionDataView)
    ensures
        ContractUpdateTransactionDataView::from_protobuf(data.to_protobuf()) == data,
{
    let back = ContractUpdateTransactionDataView::from_protobuf(data.to_protobuf());
    lemma_ids_round_trip();
    if let Some(at) = data.expiration_time {
        let nanos = at.nanos;
        assert((nanos as i32) as u32 == nanos) by (bit_vector);
    }
    if let Some(max) = data.max_automatic_token_associations {
        assert((max as i32) as u32 == max) by (bit_vector);
    }
    if let Some(StakedId::NodeId(id)) = data.staked_id {
        assert((id as i64) as u64 == id) by (bit_vector);
    }
}

/// An identifier survives the wire bit for bit.
pub proof fn lemma_ids_round_trip()
    ensures
        forall|id: AccountId| (#[trigger] wire::AccountId::spec_from_id(id)).spec_to_id() == id,
        forall|id: ContractId| (#[trigger] wire::ContractId::spec_from_id(id)).spec_to_id() == id,
        forall|id: AccountId| (#[trigger] wire::TokenId::spec_from_id(id)).spec_to_id() == id,
{
    assert forall|n: u64| (#[trigger] (n as i64)) as u64 == n by {
        assert((n as i64) as u64 == n) by (bit_vector);
    }
}

} // verus!
