//! The purpose tags of the vault's derived identities, and their seeds.

use crate::identity::{derivation_seeds, Identity};
use vstd::prelude::*;

verus! {

/// The tag `vault`: the address of a vault record.
pub open spec fn vault_tag() -> Seq<u8> {
    seq![118u8, 97u8, 117u8, 108u8, 116u8]
}

/// The tag `authority`: the identity that signs for a vault's custody.
pub open spec fn authority_tag() -> Seq<u8> {
    seq![97u8, 117u8, 116u8, 104u8, 111u8, 114u8, 105u8, 116u8, 121u8]
}

/// The tag `tokens`: the custody account of a vault.
pub open spec fn custody_tag() -> Seq<u8> {
    seq![116u8, 111u8, 107u8, 101u8, 110u8, 115u8]
}

/// The tag `user_transfers`: the record of one depositor in a vault.
pub open spec fn user_transfers_tag() -> Seq<u8> {
    seq![
        117u8,
        115u8,
        101u8,
        114u8,
        95u8,
        116u8,
        114u8,
        97u8,
        110u8,
        115u8,
        102u8,
        101u8,
        114u8,
        115u8,
    ]
}

/// The seeds of a vault's address: the tag, the owner, the token type.
pub open spec fn vault_seeds(owner: Identity, mint: Identity) -> Seq<Seq<u8>> {
    derivation_seeds(vault_tag(), seq![owner, mint])
}

/// The seeds of a vault's authority: the tag, the vault.
pub open spec fn authority_seeds(vault: Identity) -> Seq<Seq<u8>> {
    derivation_seeds(authority_tag(), seq![vault])
}

/// The seeds of a vault's custody account: the tag, the vault.
pub open spec fn custody_seeds(vault: Identity) -> Seq<Seq<u8>> {
    derivation_seeds(custody_tag(), seq![vault])
}

/// The seeds of a depositor's record: the tag, the vault, the depositor.
pub open spec fn user_transfers_seeds(vault: Identity, user: Identity) -> Seq<Seq<u8>> {
    derivation_seeds(user_transfers_tag(), seq![vault, user])
}

/// The bytes of the tag `vault`.
pub fn vault_purpose() -> (r: Vec<u8>)
    ensures
        r@ == vault_tag(),
{
    let r: Vec<u8> = vec![118u8, 97u8, 117u8, 108u8, 116u8];
    proof {
        assert(r@ =~= vault_tag());
    }
    r
}

/// The bytes of the tag `authority`.
pub fn authority_purpose() -> (r: Vec<u8>)
    ensures
        r@ == authority_tag(),
{
    let r: Vec<u8> = vec![97u8, 117u8, 116u8, 104u8, 111u8, 114u8, 105u8, 116u8, 121u8];
    proof {
        assert(r@ =~= authority_tag());
    }
    r
}

/// The bytes of the tag `tokens`.
pub fn custody_purpose() -> (r: Vec<u8>)
    ensures
        r@ == custody_tag(),
{
    let r: Vec<u8> = vec![116u8, 111u8, 107u8, 101u8, 110u8, 115u8];
    proof {
        assert(r@ =~= custody_tag());
    }
    r
}

/// The bytes of the tag `user_transfers`.
pub fn user_transfers_purpose() -> (r: Vec<u8>)
    ensures
        r@ == user_transfers_tag(),
{
    let r: Vec<u8> = vec![
        117u8,
        115u8,
        101u8,
        114u8,
        95u8,
        116u8,
        114u8,
        97u8,
        110u8,
        115u8,
        102u8,
        101u8,
        114u8,
        115u8,
    ];
    proof {
        assert(r@ =~= user_transfers_tag());
    }
    r
}

/// One parent.
pub fn one_parent(a: Identity) -> (r: Vec<Identity>)
    ensures
        r@ == seq![a],
{
    let r: Vec<Identity> = vec![a];
    proof {
        assert(r@ =~= seq![a]);
    }
    r
}

/// Two parents, in this order.
pub fn two_parents(a: Identity, b: Identity) -> (r: Vec<Identity>)
    ensures
        r@ == seq![a, b],
{
    let r: Vec<Identity> = vec![a, b];
    proof {
        assert(r@ =~= seq![a, b]);
    }
    r
}

} // verus!
