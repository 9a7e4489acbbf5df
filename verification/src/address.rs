use vstd::prelude::*;

use vstd::bytes::{lemma_auto_spec_u64_to_from_le_bytes, spec_u64_to_le_bytes, u64_to_le_bytes};

verus! {

/// The three durable ledger kinds, each addressed under its own fixed
/// namespace tag.
#[derive(Clone, Copy, Debug, PartialEq, Eq, Structural)]
pub enum LedgerKind {
    /// The singleton configuration ledger, tag `b"init"`.
    Config,
    /// A worker's allowance ledger, tag `b"worker"`.
    Worker,
    /// A demander's escrow ledger, tag `b"demander"`.
    Demander,
}

/// The fixed namespace tag of a ledger kind.
pub open spec fn kind_tag(kind: LedgerKind) -> Seq<u8> {
    match kind {
        LedgerKind::Config => seq![105u8, 110u8, 105u8, 116u8],  // b"init"
        LedgerKind::Worker => seq![119u8, 111u8, 114u8, 107u8, 101u8, 114u8],  // b"worker"
        LedgerKind::Demander => seq![
            100u8,
            101u8,
            109u8,
            97u8,
            110u8,
            100u8,
            101u8,
            114u8,
        ],  // b"demander"
    }
}

/// The address of a ledger record: the kind's namespace tag,
/// concatenated — for the per-identity kinds — with the owning identity
/// in fixed-width little-endian bytes. The configuration ledger is a
/// singleton and is addressed by its tag alone.
pub open spec fn spec_ledger_address(kind: LedgerKind, identity: u64) -> Seq<u8> {
    match kind {
        LedgerKind::Config => kind_tag(kind),
        LedgerKind::Worker => kind_tag(kind) + spec_u64_to_le_bytes(identity),
        LedgerKind::Demander => kind_tag(kind) + spec_u64_to_le_bytes(identity),
    }
}

/// Derives a ledger record's address. The derivation is a pure function
/// of kind and identity, so any two independent computations of an
/// address agree bit for bit.
pub fn ledger_address(kind: LedgerKind, identity: u64) -> (r: Vec<u8>)
    ensures
        r@ == spec_ledger_address(kind, identity),
{
    let mut address: Vec<u8> = Vec::new();
    match kind {
        LedgerKind::Config => {
            address.push(105);
            address.push(110);
            address.push(105);
            address.push(116);
        },
        LedgerKind::Worker => {
            address.push(119);
            address.push(111);
            address.push(114);
            address.push(107);
            address.push(101);
            address.push(114);
            let mut id_bytes = u64_to_le_bytes(identity);
            address.append(&mut id_bytes);
        },
        LedgerKind::Demander => {
            address.push(100);
            address.push(101);
            address.push(109);
            address.push(97);
            address.push(110);
            address.push(100);
            address.push(101);
            address.push(114);
            let mut id_bytes = u64_to_le_bytes(identity);
            address.append(&mut id_bytes);
        },
    }
    proof {
        assert(address@ =~= spec_ledger_address(kind, identity));
    }
    address
}

/// Deterministic addressing is collision-free: two records share an
/// address only if they are the same kind — and, for the per-identity
/// kinds, belong to the same identity. Create-once ledgers can
/// therefore never be silently aliased by the store.
pub proof fn lemma_ledger_address_injective(k1: LedgerKind, i1: u64, k2: LedgerKind, i2: u64)
    requires
        spec_ledger_address(k1, i1) == spec_ledger_address(k2, i2),
    ensures
        k1 == k2,
        k1 != LedgerKind::Config ==> i1 == i2,
{
    lemma_auto_spec_u64_to_from_le_bytes();
    let s1 = spec_ledger_address(k1, i1);
    let s2 = spec_ledger_address(k2, i2);
    assert(spec_u64_to_le_bytes(i1).len() == 8);
    assert(spec_u64_to_le_bytes(i2).len() == 8);
    // The three kinds produce addresses of three distinct lengths
    // (4, 14 and 16 bytes), so equal addresses mean equal kinds.
    let len1 = match k1 {
        LedgerKind::Config => 4int,
        LedgerKind::Worker => 14int,
        LedgerKind::Demander => 16int,
    };
    let len2 = match k2 {
        LedgerKind::Config => 4int,
        LedgerKind::Worker => 14int,
        LedgerKind::Demander => 16int,
    };
    assert(s1.len() == len1);
    assert(s2.len() == len2);
    assert(k1 == k2);
    if k1 != LedgerKind::Config {
        let tag_len = kind_tag(k1).len() as int;
        assert(spec_u64_to_le_bytes(i1) =~= s1.subrange(tag_len, s1.len() as int));
        assert(spec_u64_to_le_bytes(i2) =~= s2.subrange(tag_len, s2.len() as int));
        assert(i1 == i2);
    }
}

} // verus!
