//! Stored signatures: one for each key and node, and never two.

use vstd::prelude::*;
use crate::entity_id::AccountId;
use crate::key::PublicKey;

verus! {

/// One stored signature: who signed, for which node, and the signature itself.
#[derive(Debug, Clone, PartialEq, Eq)]
pub struct SignaturePair {
    pub public_key: PublicKey,
    pub node_account_id: AccountId,
    pub signature: Vec<u8>,
}

pub struct SignaturePairView {
    pub public_key: Seq<u8>,
    pub node_account_id: AccountId,
    pub signature: Seq<u8>,
}

impl View for SignaturePair {
    type V = SignaturePairView;

    open spec fn view(&self) -> SignaturePairView {
        SignaturePairView {
            public_key: self.public_key.bytes@,
            node_account_id: self.node_account_id,
            signature: self.signature@,
        }
    }
}

/// Whether `signatures` holds one made with `public_key` for `node`.
pub open spec fn spec_has_signature(
    signatures: Seq<SignaturePairView>,
    public_key: Seq<u8>,
    node: AccountId,
) -> bool {
    exists|i: int|
        0 <= i < signatures.len() && (#[trigger] signatures[i]).public_key == public_key
            && signatures[i].node_account_id == node
}

/// Whether no two of `signatures` were made with the same key for the same node.
pub open spec fn spec_distinct_signatures(signatures: Seq<SignaturePairView>) -> bool {
    forall|i: int, j: int|
        0 <= i < j < signatures.len() ==> !((#[trigger] signatures[i]).public_key == (
        #[trigger] signatures[j]).public_key && signatures[i].node_account_id
            == signatures[j].node_account_id)
}

/// The nodes of `nodes` for which signing with `public_key` makes a new signature, in
/// order: every node for which none of `signatures` was made with that key, once.
pub open spec fn spec_nodes_to_sign(
    signatures: Seq<SignaturePairView>,
    public_key: Seq<u8>,
    nodes: Seq<AccountId>,
) -> Seq<AccountId>
    decreases nodes.len(),
{
    if nodes.len() == 0 {
        Seq::empty()
    } else {
        let before = spec_nodes_to_sign(signatures, public_key, nodes.drop_last());
        if spec_has_signature(signatures, public_key, nodes.last()) || before.contains(
            nodes.last(),
        ) {
            before
        } else {
            before.push(nodes.last())
        }
    }
}

/// Whether `after` is `before` followed by one signature with `public_key` for each of
/// `nodes`, in order.
pub open spec fn spec_signed(
    before: Seq<SignaturePairView>,
    after: Seq<SignaturePairView>,
    public_key: Seq<u8>,
    nodes: Seq<AccountId>,
) -> bool {
    &&& after.len() == before.len() + nodes.len()
    &&& after.subrange(0, before.len() as int) == before
    &&& forall|k: int|
        0 <= k < nodes.len() ==> (#[trigger] after[before.len() + k]).public_key == public_key
            && after[before.len() + k].node_account_id == nodes[k]
}

/// No node is signed for twice: the nodes to sign for are distinct, and none of them
/// has a signature of the key yet.
pub proof fn lemma_nodes_to_sign_distinct(
    signatures: Seq<SignaturePairView>,
    public_key: Seq<u8>,
    nodes: Seq<AccountId>,
)
    ensures
        forall|i: int, j: int|
            0 <= i < j < spec_nodes_to_sign(signatures, public_key, nodes).len()
                ==> spec_nodes_to_sign(signatures, public_key, nodes)[i] != spec_nodes_to_sign(
                signatures,
                public_key,
                nodes,
            )[j],
        forall|i: int|
            0 <= i < spec_nodes_to_sign(signatures, public_key, nodes).len()
                ==> !spec_has_signature(
                signatures,
                public_key,
                #[trigger] spec_nodes_to_sign(signatures, public_key, nodes)[i],
            ) && nodes.contains(spec_nodes_to_sign(signatures, public_key, nodes)[i]),
        forall|i: int|
            0 <= i < nodes.len() ==> spec_has_signature(signatures, public_key, #[trigger] nodes[i])
                || spec_nodes_to_sign(signatures, public_key, nodes).contains(nodes[i]),
    decreases nodes.len(),
{
    if nodes.len() > 0 {
        let front = nodes.drop_last();
        lemma_nodes_to_sign_distinct(signatures, public_key, front);
        let before = spec_nodes_to_sign(signatures, public_key, front);
        let all = spec_nodes_to_sign(signatures, public_key, nodes);
        assert forall|i: int| 0 <= i < all.len() implies nodes.contains(#[trigger] all[i]) by {
            if i < before.len() {
                let at = choose|at: int| 0 <= at < front.len() && front[at] == before[i];
                assert(nodes[at] == before[i]);
            } else {
                assert(nodes[nodes.len() - 1] == all[i]);
            }
        }
        assert forall|i: int| 0 <= i < nodes.len() implies spec_has_signature(
            signatures,
            public_key,
            #[trigger] nodes[i],
        ) || all.contains(nodes[i]) by {
            if i < front.len() {
                assert(front[i] == nodes[i]);
                if before.contains(front[i]) {
                    let at = choose|at: int| 0 <= at < before.len() && before[at] == front[i];
                    assert(all[at] == nodes[i]);
                }
            } else if !spec_has_signature(signatures, public_key, nodes[i]) {
                if before.contains(nodes.last()) {
                    let at = choose|at: int| 0 <= at < before.len() && before[at] == nodes.last();
                    assert(all[at] == nodes[i]);
                } else {
                    assert(all[all.len() - 1] == nodes[i]);
                }
            }
        }
    }
}

/// Signing keeps the stored signatures distinct, and afterwards every node of the list
/// has a signature of the key: exactly one, since they are distinct.
pub proof fn lemma_signed_once(
    before: Seq<SignaturePairView>,
    after: Seq<SignaturePairView>,
    public_key: Seq<u8>,
    nodes: Seq<AccountId>,
)
    requires
        spec_distinct_signatures(before),
        spec_signed(before, after, public_key, spec_nodes_to_sign(before, public_key, nodes)),
    ensures
        spec_distinct_signatures(after),
        forall|i: int| 0 <= i < nodes.len() ==> spec_has_signature(after, public_key, #[trigger] nodes[i]),
{
    let new_nodes = spec_nodes_to_sign(before, public_key, nodes);
    lemma_nodes_to_sign_distinct(before, public_key, nodes);
    let n = before.len() as int;
    assert forall|i: int, j: int| 0 <= i < j < after.len() implies !((#[trigger] after[i]).public_key
        == (#[trigger] after[j]).public_key && after[i].node_account_id
        == after[j].node_account_id) by {
        if j < n {
            assert(after[i] == after.subrange(0, n)[i]);
            assert(after[j] == after.subrange(0, n)[j]);
        } else if i < n {
            assert(after[i] == after.subrange(0, n)[i]);
            assert(after[j] == after[n + (j - n)]);
            assert(!spec_has_signature(before, public_key, new_nodes[j - n]));
        } else {
            assert(after[i] == after[n + (i - n)]);
            assert(after[j] == after[n + (j - n)]);
        }
    }
    assert forall|i: int| 0 <= i < nodes.len() implies spec_has_signature(
        after,
        public_key,
        #[trigger] nodes[i],
    ) by {
        if spec_has_signature(before, public_key, nodes[i]) {
            let at = choose|at: int|
                0 <= at < before.len() && (#[trigger] before[at]).public_key == public_key
                    && before[at].node_account_id == nodes[i];
            assert(after[at] == after.subrange(0, n)[at]);
        } else {
            let at = choose|at: int| 0 <= at < new_nodes.len() && new_nodes[at] == nodes[i];
            assert(after[n + at].node_account_id == nodes[i]);
        }
    }
}

/// The number of `signatures` that were made with `public_key` for `node`.
pub open spec fn spec_signature_count(
    signatures: Seq<SignaturePairView>,
    public_key: Seq<u8>,
    node: AccountId,
) -> nat
    decreases signatures.len(),
{
    if signatures.len() == 0 {
        0
    } else {
        spec_signature_count(signatures.drop_last(), public_key, node) + (if signatures.last().public_key
            == public_key && signatures.last().node_account_id == node {
            1nat
        } else {
            0nat
        })
    }
}

/// Among distinct signatures, a key has signed for a node once or not at all.
pub proof fn lemma_signature_count(
    signatures: Seq<SignaturePairView>,
    public_key: Seq<u8>,
    node: AccountId,
)
    requires
        spec_distinct_signatures(signatures),
    ensures
        spec_signature_count(signatures, public_key, node) == (if spec_has_signature(
            signatures,
            public_key,
            node,
        ) {
            1nat
        } else {
            0nat
        }),
    decreases signatures.len(),
{
    if signatures.len() > 0 {
        let front = signatures.drop_last();
        let last = signatures.last();
        assert forall|i: int, j: int| 0 <= i < j < front.len() implies !((#[trigger] front[i]).public_key
            == (#[trigger] front[j]).public_key && front[i].node_account_id
            == front[j].node_account_id) by {
            assert(front[i] == signatures[i] && front[j] == signatures[j]);
        }
        lemma_signature_count(front, public_key, node);
        if spec_has_signature(front, public_key, node) {
            let at = choose|at: int|
                0 <= at < front.len() && (#[trigger] front[at]).public_key == public_key
                    && front[at].node_account_id == node;
            assert(signatures[at] == front[at]);
            assert(signatures[signatures.len() - 1] == last);
        } else if spec_has_signature(signatures, public_key, node) {
            let at = choose|at: int|
                0 <= at < signatures.len() && (#[trigger] signatures[at]).public_key == public_key
                    && signatures[at].node_account_id == node;
            if at < front.len() {
                assert(front[at] == signatures[at]);
            }
        } else {
            assert(signatures[signatures.len() - 1] == last);
        }
    }
}

/// Signing with one key twice stores exactly one signature for each node under that
/// key: the second signing stores nothing.
pub proof fn lemma_sign_twice(
    before: Seq<SignaturePairView>,
    once: Seq<SignaturePairView>,
    twice: Seq<SignaturePairView>,
    public_key: Seq<u8>,
    nodes: Seq<AccountId>,
)
    requires
        spec_distinct_signatures(before),
        spec_signed(before, once, public_key, spec_nodes_to_sign(before, public_key, nodes)),
        spec_signed(once, twice, public_key, spec_nodes_to_sign(once, public_key, nodes)),
    ensures
        twice == once,
        forall|i: int|
            0 <= i < nodes.len() ==> spec_signature_count(twice, public_key, #[trigger] nodes[i])
                == 1,
{
    lemma_signed_once(before, once, public_key, nodes);
    lemma_sign_idempotent(once, public_key, nodes);
    assert(twice =~= twice.subrange(0, once.len() as int));
    assert forall|i: int| 0 <= i < nodes.len() implies spec_signature_count(
        twice,
        public_key,
        #[trigger] nodes[i],
    ) == 1 by {
        lemma_signature_count(once, public_key, nodes[i]);
    }
}

/// Signing with the same key a second time makes no signature: once every node of the
/// list has one, there is no node left to sign for.
pub proof fn lemma_sign_idempotent(
    signatures: Seq<SignaturePairView>,
    public_key: Seq<u8>,
    nodes: Seq<AccountId>,
)
    requires
        forall|i: int|
            0 <= i < nodes.len() ==> spec_has_signature(signatures, public_key, #[trigger] nodes[i]),
    ensures
        spec_nodes_to_sign(signatures, public_key, nodes) == Seq::<AccountId>::empty(),
    decreases nodes.len(),
{
    if nodes.len() > 0 {
        let front = nodes.drop_last();
        assert forall|i: int| 0 <= i < front.len() implies spec_has_signature(
            signatures,
            public_key,
            #[trigger] front[i],
        ) by {
            assert(front[i] == nodes[i]);
        }
        lemma_sign_idempotent(signatures, public_key, front);
        assert(nodes.last() == nodes[nodes.len() - 1]);
    }
}

/// The signatures among `signatures` that were made for `node`, in order, each with
/// its key.
pub open spec fn spec_signatures_for(signatures: Seq<SignaturePairView>, node: AccountId) -> Seq<
    (Seq<u8>, Seq<u8>),
>
    decreases signatures.len(),
{
    if signatures.len() == 0 {
        Seq::empty()
    } else if signatures.last().node_account_id == node {
        spec_signatures_for(signatures.drop_last(), node).push(
            (signatures.last().public_key, signatures.last().signature),
        )
    } else {
        spec_signatures_for(signatures.drop_last(), node)
    }
}

} // verus!
