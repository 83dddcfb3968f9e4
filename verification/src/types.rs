//! The plain values that the account's rules speak of.

use crate::encoding::{be_order, be_value, Order};
use vstd::prelude::*;

verus! {

/// Who holds or moves tokens on the ledger: a classic account, named by its
/// public key, or a contract, named by the hash that identifies it.
#[derive(Clone, Copy, Debug, PartialEq, Eq)]
pub enum Address {
    Account([u8; 32]),
    Contract([u8; 32]),
}

impl Address {
    /// The 32 bytes that name the address within its kind.
    pub open spec fn id(self) -> [u8; 32] {
        match self {
            Address::Account(id) => id,
            Address::Contract(id) => id,
        }
    }

    /// Accounts come before contracts.
    pub open spec fn rank(self) -> nat {
        match self {
            Address::Account(_) => 0,
            Address::Contract(_) => 1,
        }
    }

    /// The order in which the ledger keeps addresses: by kind, then by the
    /// number that the identifier spells.
    pub open spec fn less(self, other: Address) -> bool {
        self.rank() < other.rank() || (self.rank() == other.rank() && be_value(self.id()@)
            < be_value(other.id()@))
    }

    /// How `self` stands to `other` in that order.
    pub fn order(&self, other: &Address) -> (r: Order)
        ensures
            r == Order::Less ==> self.less(*other),
            r == Order::Greater ==> other.less(*self),
            r == Order::Equal ==> *self == *other,
    {
        match (self, other) {
            (Address::Account(_), Address::Contract(_)) => Order::Less,
            (Address::Contract(_), Address::Account(_)) => Order::Greater,
            (Address::Account(a), Address::Account(b)) => {
                let r = be_order(a, 0, b);
                proof {
                    assert(a@.subrange(0, 32) =~= a@);
                    if r == Order::Equal {
                        assert(*a =~= *b);
                    }
                }
                r
            },
            (Address::Contract(a), Address::Contract(b)) => {
                let r = be_order(a, 0, b);
                proof {
                    assert(a@.subrange(0, 32) =~= a@);
                    if r == Order::Equal {
                        assert(*a =~= *b);
                    }
                }
                r
            },
        }
    }

    /// The XDR form of the address as a value: the type word of an address,
    /// the kind of the address, for an account the type word of its key,
    /// and the 32 bytes.
    pub open spec fn xdr(self) -> Seq<u8> {
        match self {
            Address::Account(id) => seq![0u8, 0, 0, 18, 0, 0, 0, 0, 0, 0, 0, 0] + id@,
            Address::Contract(id) => seq![0u8, 0, 0, 18, 0, 0, 0, 1] + id@,
        }
    }

    /// The XDR form of the address.
    pub fn xdr_bytes(&self) -> (bytes: Vec<u8>)
        ensures
            bytes@ == self.xdr(),
    {
        let mut bytes: Vec<u8> = Vec::new();
        bytes.push(0);
        bytes.push(0);
        bytes.push(0);
        bytes.push(18);
        bytes.push(0);
        bytes.push(0);
        bytes.push(0);
        let id = match self {
            Address::Account(id) => {
                bytes.push(0);
                bytes.push(0);
                bytes.push(0);
                bytes.push(0);
                bytes.push(0);
                id
            },
            Address::Contract(id) => {
                bytes.push(1);
                id
            },
        };
        let ghost head = bytes@;
        let mut i: usize = 0;
        while i < 32
            invariant
                0 <= i <= 32,
                bytes@ == head + id@.subrange(0, i as int),
            decreases 32 - i,
        {
            bytes.push(id[i]);
            assert(bytes@ =~= head + id@.subrange(0, i + 1));
            i += 1;
        }
        assert(id@.subrange(0, 32) =~= id@);
        assert(bytes@ =~= self.xdr());
        bytes
    }

    /// The address whose XDR form `bytes` is, if it is one.
    pub fn from_xdr_bytes(bytes: &[u8]) -> (r: Option<Address>)
        ensures
            match r {
                Some(address) => address.xdr() == bytes@,
                None => forall|address: Address| address.xdr() != bytes@,
            },
    {
        let n = bytes.len();
        if n < 8 || bytes[0] != 0 || bytes[1] != 0 || bytes[2] != 0 || bytes[3] != 18 || bytes[4]
            != 0 || bytes[5] != 0 || bytes[6] != 0 {
            return None;
        }
        let start: usize = if bytes[7] == 0 {
            if n != 44 || bytes[8] != 0 || bytes[9] != 0 || bytes[10] != 0 || bytes[11] != 0 {
                return None;
            }
            12
        } else if bytes[7] == 1 {
            if n != 40 {
                return None;
            }
            8
        } else {
            return None;
        };
        let mut id = [0u8; 32];
        let mut i: usize = 0;
        while i < 32
            invariant
                0 <= i <= 32,
                start + 32 == n,
                n == bytes@.len(),
                forall|j: int| 0 <= j < i ==> id@[j] == bytes@[start + j],
            decreases 32 - i,
        {
            id[i] = bytes[start + i];
            i += 1;
        }
        let address = if start == 12 {
            Address::Account(id)
        } else {
            Address::Contract(id)
        };
        assert(address.xdr() =~= bytes@);
        Some(address)
    }

    /// An address is known by its XDR form.
    pub proof fn lemma_xdr_injective(a: Address, b: Address)
        requires
            a.xdr() == b.xdr(),
        ensures
            a == b,
    {
        let xa = a.xdr();
        let xb = b.xdr();
        assert(xa.len() == (if a is Account { 44int } else { 40int }));
        assert(xb.len() == (if b is Account { 44int } else { 40int }));
        assert((a is Account) == (b is Account));
        assert(a.id()@ =~= b.id()@) by {
            assert forall|i: int| 0 <= i < 32 implies a.id()@[i] == b.id()@[i] by {
                if a is Account {
                    assert(xa[12 + i] == a.id()@[i]);
                    assert(xb[12 + i] == b.id()@[i]);
                } else {
                    assert(xa[8 + i] == a.id()@[i]);
                    assert(xb[8 + i] == b.id()@[i]);
                }
            }
        }
        assert(a.id() =~= b.id());
    }

    /// Whether the two addresses are the same.
    pub fn same(&self, other: &Address) -> (r: bool)
        ensures
            r == (*self == *other),
    {
        match self.order(other) {
            Order::Equal => true,
            _ => false,
        }
    }
}

/// The record by which an owner who lost the signing keys is found again.
#[derive(Debug, PartialEq, Eq)]
pub struct WebKeyDetails {
    /// The auxiliary public key.
    pub web_public_key: [u8; 77],
    /// The owner's handle on the platform, in lower case.
    pub primary_social_acct: Vec<u8>,
    /// The platform's name, in lower case.
    pub platform: Vec<u8>,
}

/// What a `WebKeyDetails` holds.
pub struct WebKeyDetailsView {
    pub web_public_key: [u8; 77],
    pub primary_social_acct: Seq<u8>,
    pub platform: Seq<u8>,
}

impl View for WebKeyDetails {
    type V = WebKeyDetailsView;

    open spec fn view(&self) -> WebKeyDetailsView {
        WebKeyDetailsView {
            web_public_key: self.web_public_key,
            primary_social_acct: self.primary_social_acct@,
            platform: self.platform@,
        }
    }
}

} // verus!
