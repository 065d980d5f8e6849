use vstd::bytes::{
    spec_u32_from_le_bytes,
    spec_u32_to_le_bytes,
    spec_u64_from_le_bytes,
    spec_u64_to_le_bytes,
    u32_from_le_bytes,
    u32_to_le_bytes,
    u64_from_le_bytes,
    u64_to_le_bytes,
};
use vstd::prelude::*;
use crate::primitives::ids::{Fungible, Nft, RoomId};
use crate::primitives::types::AccountId;

verus! {

/// This type can be converted into and possibly from an `AccountId` (which
/// itself is generic).
pub trait AccountIdConversion<AccountId>: Sized {
    /// The account that stands for the value.
    spec fn spec_into_account(&self) -> AccountId;

    /// The value that an account stands for, if it stands for one.
    spec fn spec_try_from_account(a: AccountId) -> Option<Self>;

    /// Convert into an account ID. This is infallible.
    fn into_account(&self) -> (r: AccountId)
        ensures
            r == self.spec_into_account(),
    ;

    /// Try to convert an account ID into this type. Might not succeed.
    fn try_from_account(a: &AccountId) -> (r: Option<Self>)
        ensures
            r == Self::spec_try_from_account(*a),
    ;
}

/// `n` bytes read from `data`: the bytes of `data` as far as they reach, and
/// zeros after them.
pub open spec fn padded(data: Seq<u8>, n: nat) -> Seq<u8> {
    Seq::new(
        n,
        |i: int|
            if i < data.len() {
                data[i]
            } else {
                0u8
            },
    )
}

/// What is left of `data` after `n` bytes were read from it.
pub open spec fn rest(data: Seq<u8>, n: nat) -> Seq<u8> {
    if n <= data.len() {
        data.skip(n as int)
    } else {
        Seq::empty()
    }
}

/// Input that never ends: after the bytes it holds it gives zeros.
pub struct TrailingZeroInput<'a>(pub &'a [u8]);

impl<'a> TrailingZeroInput<'a> {
    /// How many bytes are left: the input has no end, so no number is.
    pub fn remaining_len(&mut self) -> (r: Option<usize>)
        ensures
            r.is_none(),
            final(self).0@ == old(self).0@,
    {
        None
    }

    /// Fills `into`: with the bytes that are left, as far as they reach, and
    /// with zeros after them. The bytes that were read are used up.
    pub fn read(&mut self, into: &mut Vec<u8>)
        ensures
            final(into)@ == padded(old(self).0@, old(into)@.len()),
            final(self).0@ == rest(old(self).0@, old(into)@.len()),
    {
        let n: usize = into.len();
        let len: usize = if n < self.0.len() {
            n
        } else {
            self.0.len()
        };
        let ghost data = self.0@;
        let mut i: usize = 0;
        while i < n
            invariant
                i <= n,
                into@.len() == n,
                self.0@ == data,
                len <= data.len(),
                len <= n,
                len == n || len == data.len(),
                forall|k: int| 0 <= k < i ==> into@[k] == padded(data, n as nat)[k],
            decreases n - i,
        {
            if i < len {
                into[i] = self.0[i];
            } else {
                into[i] = 0;
            }
            i += 1;
        }
        assert(into@ =~= padded(data, n as nat));
        self.0 = vstd::slice::slice_subrange(self.0, len, self.0.len());
        assert(self.0@ =~= rest(data, n as nat));
    }
}

/// The account that stands for `id` under the four bytes `tag`: the tag and
/// the bytes of `id`, lowest first, read as a number.
pub open spec fn tagged_account(tag: Seq<u8>, id: u32) -> AccountId {
    spec_u64_from_le_bytes(padded(tag + spec_u32_to_le_bytes(id), 8))
}

/// The number that `a` stands for under the four bytes `tag`, if its bytes
/// begin with the tag.
pub open spec fn tagged_id(tag: Seq<u8>, a: AccountId) -> Option<u32> {
    let d = spec_u64_to_le_bytes(a);
    if d.subrange(0, 4) == tag {
        Some(spec_u32_from_le_bytes(d.subrange(4, 8)))
    } else {
        None
    }
}

/// The bytes `nft `.
pub open spec fn nft_tag() -> Seq<u8> {
    seq![110u8, 102u8, 116u8, 32u8]
}

/// The bytes `fung`.
pub open spec fn fungible_tag() -> Seq<u8> {
    seq![102u8, 117u8, 110u8, 103u8]
}

/// The bytes `room`.
pub open spec fn room_tag() -> Seq<u8> {
    seq![114u8, 111u8, 111u8, 109u8]
}

/// The account that stands for `id` under `tag`.
pub fn account_of(tag: [u8; 4], id: u32) -> (r: AccountId)
    ensures
        r == tagged_account(tag@, id),
{
    let mut bytes: Vec<u8> = Vec::new();
    bytes.push(tag[0]);
    bytes.push(tag[1]);
    bytes.push(tag[2]);
    bytes.push(tag[3]);
    let mut id_bytes = u32_to_le_bytes(id);
    bytes.append(&mut id_bytes);
    assert(bytes@ =~= tag@ + spec_u32_to_le_bytes(id));
    let mut input = TrailingZeroInput(bytes.as_slice());
    let mut buf: Vec<u8> = Vec::new();
    let mut k: usize = 0;
    while k < 8
        invariant
            k <= 8,
            buf@.len() == k,
        decreases 8 - k,
    {
        buf.push(0);
        k += 1;
    }
    input.read(&mut buf);
    u64_from_le_bytes(buf.as_slice())
}

/// The number that `a` stands for under `tag`, if it stands for one.
pub fn id_of(tag: [u8; 4], a: AccountId) -> (r: Option<u32>)
    ensures
        r == tagged_id(tag@, a),
{
    let d = u64_to_le_bytes(a);
    proof {
        vstd::bytes::lemma_auto_spec_u64_to_from_le_bytes();
    }
    assert(d@.len() == 8);
    if d[0] != tag[0] || d[1] != tag[1] || d[2] != tag[2] || d[3] != tag[3] {
        assert(d@.subrange(0, 4) != tag@) by {
            if d@.subrange(0, 4) == tag@ {
                assert(d@.subrange(0, 4)[0] == d@[0]);
                assert(d@.subrange(0, 4)[1] == d@[1]);
                assert(d@.subrange(0, 4)[2] == d@[2]);
                assert(d@.subrange(0, 4)[3] == d@[3]);
            }
        }
        return None;
    }
    assert(d@.subrange(0, 4) =~= tag@);
    let cursor = vstd::slice::slice_subrange(d.as_slice(), 4, 8);
    Some(u32_from_le_bytes(cursor))
}

impl AccountIdConversion<AccountId> for Nft<u32> {
    open spec fn spec_into_account(&self) -> AccountId {
        tagged_account(nft_tag(), self.0)
    }

    open spec fn spec_try_from_account(a: AccountId) -> Option<Self> {
        match tagged_id(nft_tag(), a) {
            Some(id) => Some(Nft(id)),
            None => None,
        }
    }

    fn into_account(&self) -> (r: AccountId) {
        let tag: [u8; 4] = [110, 102, 116, 32];
        assert(tag@ =~= nft_tag());
        account_of(tag, self.0)
    }

    fn try_from_account(x: &AccountId) -> (r: Option<Self>) {
        let tag: [u8; 4] = [110, 102, 116, 32];
        assert(tag@ =~= nft_tag());
        match id_of(tag, *x) {
            Some(id) => Some(Nft(id)),
            None => None,
        }
    }
}

impl AccountIdConversion<AccountId> for Fungible<u32> {
    open spec fn spec_into_account(&self) -> AccountId {
        tagged_account(fungible_tag(), self.0)
    }

    open spec fn spec_try_from_account(a: AccountId) -> Option<Self> {
        match tagged_id(fungible_tag(), a) {
            Some(id) => Some(Fungible(id)),
            None => None,
        }
    }

    fn into_account(&self) -> (r: AccountId) {
        let tag: [u8; 4] = [102, 117, 110, 103];
        assert(tag@ =~= fungible_tag());
        account_of(tag, self.0)
    }

    fn try_from_account(x: &AccountId) -> (r: Option<Self>) {
        let tag: [u8; 4] = [102, 117, 110, 103];
        assert(tag@ =~= fungible_tag());
        match id_of(tag, *x) {
            Some(id) => Some(Fungible(id)),
            None => None,
        }
    }
}

impl AccountIdConversion<AccountId> for RoomId<u32> {
    open spec fn spec_into_account(&self) -> AccountId {
        tagged_account(room_tag(), self.0)
    }

    open spec fn spec_try_from_account(a: AccountId) -> Option<Self> {
        match tagged_id(room_tag(), a) {
            Some(id) => Some(RoomId(id)),
            None => None,
        }
    }

    fn into_account(&self) -> (r: AccountId) {
        let tag: [u8; 4] = [114, 111, 111, 109];
        assert(tag@ =~= room_tag());
        account_of(tag, self.0)
    }

    fn try_from_account(x: &AccountId) -> (r: Option<Self>) {
        let tag: [u8; 4] = [114, 111, 111, 109];
        assert(tag@ =~= room_tag());
        match id_of(tag, *x) {
            Some(id) => Some(RoomId(id)),
            None => None,
        }
    }
}

/// An account made from a number under a tag stands for that number under
/// the tag.
pub proof fn lemma_account_round_trip(tag: Seq<u8>, id: u32)
    requires
        tag.len() == 4,
    ensures
        tagged_id(tag, tagged_account(tag, id)) == Some(id),
{
    vstd::bytes::lemma_auto_spec_u64_to_from_le_bytes();
    vstd::bytes::lemma_auto_spec_u32_to_from_le_bytes();
    let bytes = tag + spec_u32_to_le_bytes(id);
    assert(bytes.len() == 8);
    assert(padded(bytes, 8) =~= bytes);
    let a = tagged_account(tag, id);
    assert(spec_u64_to_le_bytes(a) == bytes);
    assert(bytes.subrange(0, 4) =~= tag);
    assert(bytes.subrange(4, 8) =~= spec_u32_to_le_bytes(id));
}

} // verus!
