use vstd::prelude::*;

verus! {

/// What kind of ledger entity an address names.
#[derive(Clone, Copy, Debug, PartialEq, Eq, Structural)]
pub enum AddressKind {
    /// An account controlled by an ed25519 key.
    Account,
    /// A deployed contract.
    Contract,
}

/// The identity of an account or a contract: its kind and its 32-byte key.
#[derive(Clone, Copy, Debug)]
pub struct AccountId {
    pub kind: AddressKind,
    pub key: [u8; 32],
}

impl AccountId {
    /// Builds an identity from its kind and key.
    pub fn new(kind: AddressKind, key: [u8; 32]) -> (r: AccountId)
        ensures
            r.kind == kind,
            r.key == key,
    {
        AccountId { kind, key }
    }

    /// Whether two identities are the same address.
    pub fn same_as(&self, other: &AccountId) -> (r: bool)
        ensures
            r == (*self == *other),
    {
        if self.kind != other.kind {
            return false;
        }
        let mut i: usize = 0;
        while i < 32
            invariant
                i <= 32,
                forall|j: int| 0 <= j < i ==> self.key[j] == other.key[j],
            decreases 32 - i,
        {
            if self.key[i] != other.key[i] {
                assert(self.key[i as int] != other.key[i as int]);
                return false;
            }
            i = i + 1;
        }
        assert(self.key =~= other.key);
        true
    }
}

/// Whether `who` occurs in `list`.
pub fn list_contains(list: &Vec<AccountId>, who: &AccountId) -> (r: bool)
    ensures
        r == list@.contains(*who),
{
    let mut i: usize = 0;
    while i < list.len()
        invariant
            i <= list.len(),
            forall|j: int| 0 <= j < i ==> list@[j] != *who,
        decreases list.len() - i,
    {
        if list[i].same_as(who) {
            assert(list@[i as int] == *who);
            return true;
        }
        i = i + 1;
    }
    false
}

/// The tag that opens the ledger's binary encoding of an address value.
pub open spec fn address_value_tag() -> Seq<u8> {
    seq![0u8, 0u8, 0u8, 18u8]
}

/// The ledger's binary encoding of an address value: the value tag, the
/// address kind, for an account the key type (ed25519), then the 32-byte key.
pub open spec fn xdr_encoding(a: AccountId) -> Seq<u8> {
    match a.kind {
        AddressKind::Account => address_value_tag() + seq![0u8, 0u8, 0u8, 0u8, 0u8, 0u8, 0u8, 0u8]
            + a.key@,
        AddressKind::Contract => address_value_tag() + seq![0u8, 0u8, 0u8, 1u8] + a.key@,
    }
}

/// Copies `bytes[start..start + 32]` into a key.
fn key_at(bytes: &[u8], start: usize) -> (r: [u8; 32])
    requires
        start + 32 <= bytes@.len(),
    ensures
        r@ == bytes@.subrange(start as int, start + 32),
{
    let n = bytes.len();
    let mut key = [0u8; 32];
    let mut i: usize = 0;
    while i < 32
        invariant
            i <= 32,
            n == bytes@.len(),
            start + 32 <= bytes@.len(),
            forall|j: int| 0 <= j < i ==> key@[j] == bytes@[start + j],
        decreases 32 - i,
    {
        key[i] = bytes[start + i];
        i = i + 1;
    }
    assert(key@ =~= bytes@.subrange(start as int, start + 32));
    key
}

impl AccountId {
    /// The ledger's binary encoding of this address.
    pub fn to_xdr(&self) -> (r: Vec<u8>)
        ensures
            r@ == xdr_encoding(*self),
    {
        let mut out: Vec<u8> = Vec::new();
        out.push(0);
        out.push(0);
        out.push(0);
        out.push(18);
        match self.kind {
            AddressKind::Account => {
                let mut i: usize = 0;
                while i < 8
                    invariant
                        i <= 8,
                        out@ == address_value_tag() + Seq::new(i as nat, |j: int| 0u8),
                    decreases 8 - i,
                {
                    out.push(0);
                    i = i + 1;
                    assert(out@ =~= address_value_tag() + Seq::new(i as nat, |j: int| 0u8));
                }
                assert(Seq::new(8, |j: int| 0u8) =~= seq![0u8, 0u8, 0u8, 0u8, 0u8, 0u8, 0u8, 0u8]);
            },
            AddressKind::Contract => {
                out.push(0);
                out.push(0);
                out.push(0);
                out.push(1);
                assert(out@ =~= address_value_tag() + seq![0u8, 0u8, 0u8, 1u8]);
            },
        }
        let ghost head = out@;
        let mut i: usize = 0;
        while i < 32
            invariant
                i <= 32,
                out@ == head + self.key@.subrange(0, i as int),
            decreases 32 - i,
        {
            out.push(self.key[i]);
            i = i + 1;
            assert(out@ =~= head + self.key@.subrange(0, i as int));
        }
        assert(self.key@.subrange(0, 32) =~= self.key@);
        out
    }

    /// The address whose ledger encoding is `bytes`, if there is one.
    pub fn from_xdr(bytes: &[u8]) -> (r: Option<AccountId>)
        ensures
            r matches Some(a) ==> xdr_encoding(a) == bytes@,
            r is None ==> forall|a: AccountId| xdr_encoding(a) != bytes@,
    {
        let n = bytes.len();
        if n < 8 || bytes[0] != 0 || bytes[1] != 0 || bytes[2] != 0 || bytes[3] != 18
            || bytes[4] != 0 || bytes[5] != 0 || bytes[6] != 0 || (bytes[7] != 0 && bytes[7] != 1) {
            proof {
                assert forall|a: AccountId| xdr_encoding(a) != bytes@ by {
                    if xdr_encoding(a) == bytes@ {
                        assert(bytes@[0] == xdr_encoding(a)[0]);
                        assert(bytes@[3] == xdr_encoding(a)[3]);
                        assert(bytes@[7] == xdr_encoding(a)[7]);
                        assert(bytes@[4] == xdr_encoding(a)[4]);
                        assert(bytes@[5] == xdr_encoding(a)[5]);
                        assert(bytes@[6] == xdr_encoding(a)[6]);
                        assert(bytes@[1] == xdr_encoding(a)[1]);
                        assert(bytes@[2] == xdr_encoding(a)[2]);
                    }
                }
            }
            return None;
        }
        if bytes[7] == 1 {
            if n != 40 {
                proof {
                    assert forall|a: AccountId| xdr_encoding(a) != bytes@ by {
                        if xdr_encoding(a) == bytes@ {
                            assert(bytes@[7] == xdr_encoding(a)[7]);
                        }
                    }
                }
                return None;
            }
            let key = key_at(bytes, 8);
            let a = AccountId { kind: AddressKind::Contract, key };
            assert(xdr_encoding(a) =~= bytes@);
            Some(a)
        } else {
            if n != 44 || bytes[8] != 0 || bytes[9] != 0 || bytes[10] != 0 || bytes[11] != 0 {
                proof {
                    assert forall|a: AccountId| xdr_encoding(a) != bytes@ by {
                        if xdr_encoding(a) == bytes@ {
                            assert(bytes@[7] == xdr_encoding(a)[7]);
                            assert(bytes@[8] == xdr_encoding(a)[8]);
                            assert(bytes@[9] == xdr_encoding(a)[9]);
                            assert(bytes@[10] == xdr_encoding(a)[10]);
                            assert(bytes@[11] == xdr_encoding(a)[11]);
                        }
                    }
                }
                return None;
            }
            let key = key_at(bytes, 12);
            let a = AccountId { kind: AddressKind::Account, key };
            assert(xdr_encoding(a) =~= bytes@);
            Some(a)
        }
    }
}

/// Distinct addresses have distinct encodings, so decoding an encoding gives
/// back the address that was encoded.
pub proof fn law_xdr_encoding_is_injective(a: AccountId, b: AccountId)
    requires
        xdr_encoding(a) == xdr_encoding(b),
    ensures
        a == b,
{
    assert(xdr_encoding(a)[7] == xdr_encoding(b)[7]);
    assert(a.kind == b.kind) by {
        if a.kind != b.kind {
            if a.kind == AddressKind::Account {
                assert(xdr_encoding(a)[7] == 0u8);
                assert(xdr_encoding(b)[7] == 1u8);
            } else {
                assert(xdr_encoding(a)[7] == 1u8);
                assert(xdr_encoding(b)[7] == 0u8);
            }
        }
    }
    if a.kind == AddressKind::Account {
        assert(a.key@ =~= xdr_encoding(a).subrange(12, 44));
        assert(b.key@ =~= xdr_encoding(b).subrange(12, 44));
    } else {
        assert(a.key@ =~= xdr_encoding(a).subrange(8, 40));
        assert(b.key@ =~= xdr_encoding(b).subrange(8, 40));
    }
    assert(a.key =~= b.key);
}

} // verus!
