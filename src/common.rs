//! Types shared by the pallets: deal and message records, the power
//! collaborator's interface, and the mapping between miner ids and the
//! accounts that stand for them.
use vstd::prelude::*;

use crate::address::Address;
use crate::registered_proof::RegisteredPoStProof;
use crate::scale::{
    decode_u32, decode_u64, encode_u32, encode_u64, le_bytes, le_value, lemma_bytes_of_le_value,
    lemma_le_bytes_len, lemma_le_value_of_bytes,
};

verus! {

/// Identifier for actors, builtin and initialized ones.
pub type ActorID = u64;

/// Identifier for a content id.
pub type Cid = String;

/// An account of the ledger.
pub type AccountId = u64;

/// A 32-byte account: the width of the accounts that stand for miners.
pub type MinerAccountId = [u8; 32];

/// A libp2p peer id, as bytes.
pub type PeerId = Vec<u8>;

/// The host's time index: a block height.
pub type BlockNumber = u64;

/// Unit of storage power.
pub type StoragePower = u64;

/// Data reference structure.
#[derive(Clone, Debug, Default)]
pub struct DataRef {
    pub piece_cid: Cid,
    pub piece_size: u32,
    pub root: Cid,
    pub transfer_type: String,
}

/// Deal information structure.
#[derive(Clone, Debug, Default)]
pub struct DealInfo {
    pub creation_time: u64,
    pub data_ref: DataRef,
    pub deal_id: u32,
    pub duration: u32,
    pub message: String,
    pub piece_cid: Cid,
    pub price_per_epoch: String,
    pub proposal_cid: Cid,
    pub provider: String,
    pub size: u32,
    pub state: u32,
    pub verified: bool,
}

/// Structure describing a message.
#[derive(Clone, Debug, Default)]
pub struct Message {
    pub from: String,
    pub gas_fee_cap: String,
    pub gas_limit: u32,
    pub gas_premium: String,
    pub method: u32,
    pub nonce: u32,
    pub params: String,
    pub to: String,
    pub value: String,
    pub version: u32,
}

/// The storage claimed by a miner, checked when it submits a replication proof.
/// Claims change as miners update their storage and deals.
#[derive(Clone, Copy, Debug, PartialEq, Eq)]
pub struct Claim<P> {
    /// Raw bytes stored by the miner.
    raw_bytes_power: P,
    /// Raw bytes times the sector quality multiplier; equal to the raw bytes for now.
    quality_adjusted_power: P,
}

impl<P: Copy> Claim<P> {
    pub fn new(raw_bytes_power: P, quality_adjusted_power: P) -> (r: Claim<P>)
        ensures
            r.spec_raw_bytes_power() == raw_bytes_power,
            r.spec_quality_adjusted_power() == quality_adjusted_power,
    {
        Claim { raw_bytes_power, quality_adjusted_power }
    }

    pub closed spec fn spec_raw_bytes_power(&self) -> P {
        self.raw_bytes_power
    }

    pub closed spec fn spec_quality_adjusted_power(&self) -> P {
        self.quality_adjusted_power
    }

    pub fn raw_bytes_power(&self) -> (r: P)
        ensures
            r == self.spec_raw_bytes_power(),
    {
        self.raw_bytes_power
    }

    pub fn quality_adjusted_power(&self) -> (r: P)
        ensures
            r == self.spec_quality_adjusted_power(),
    {
        self.quality_adjusted_power
    }
}

/// The power table, which the registry asks to take on each new miner.
pub trait Power {
    /// Whether the table, in its present state, takes on a miner registered
    /// with these arguments.
    spec fn grants(
        &self,
        miner: MinerAccountId,
        owner: AccountId,
        worker: Address,
        window_post_proof_type: RegisteredPoStProof,
        peer: Seq<u8>,
        multiaddrs: Seq<Vec<u8>>,
    ) -> bool;

    /// Registers a miner with its initial claim; `None` when the table declines it.
    fn create_miner(
        &mut self,
        miner: MinerAccountId,
        owner: AccountId,
        worker: Address,
        window_post_proof_type: RegisteredPoStProof,
        peer: PeerId,
        multiaddrs: Vec<Vec<u8>>,
    ) -> (r: Option<Claim<StoragePower>>)
        ensures
            r is Some <==> old(self).grants(
                miner,
                owner,
                worker,
                window_post_proof_type,
                peer@,
                multiaddrs@,
            ),
    ;
}

/// The sequential number of a miner.
#[derive(Clone, Copy, Debug, Default, PartialEq, Eq, Structural)]
pub struct MinerId(pub u32);

/// A type that can be converted into an account id, and possibly back.
pub trait AccountIdConversion<T>: Sized {
    /// The account that the value converts into.
    spec fn account_of(&self) -> T;

    /// The value that an account converts back into, if any.
    spec fn from_account(a: T) -> Option<Self>;

    /// Convert into an account id. This is infallible.
    fn into_account(&self) -> (r: T)
        ensures
            r == self.account_of(),
    ;

    /// Try to convert an account id into this type. Might not succeed.
    fn try_from_account(a: &T) -> (r: Option<Self>)
        ensures
            r == Self::from_account(*a),
    ;
}

/// `b"miner"`: the tag in front of every miner account.
pub open spec fn miner_tag() -> Seq<u8> {
    seq![109u8, 105u8, 110u8, 101u8, 114u8]
}

/// The tag followed by the four little-endian bytes of the id.
pub open spec fn tagged_id(id: u32) -> Seq<u8> {
    miner_tag() + le_bytes(id as nat, 4)
}

/// `s` cut or padded with zeros to exactly `width` bytes.
pub open spec fn zero_extend(s: Seq<u8>, width: nat) -> Seq<u8> {
    Seq::new(width, |i: int| if i < s.len() { s[i] } else { 0u8 })
}

/// The account of `width` bytes that stands for the miner with id `id`.
pub open spec fn miner_address(id: u32, width: nat) -> Seq<u8> {
    zero_extend(tagged_id(id), width)
}

/// The miner id that an account encodes, if it is one: the tag, four bytes
/// of id, and nothing but zeros after them.
pub open spec fn miner_id_of(d: Seq<u8>) -> Option<u32> {
    if d.len() >= 9 && d.take(5) == miner_tag() && (forall|i: int| 9 <= i < d.len() ==> d[i] == 0) {
        Some(le_value(d.subrange(5, 9)) as u32)
    } else {
        None
    }
}

/// The 32-byte account that stands for the miner with id `id`.
pub open spec fn miner_account(id: u32) -> MinerAccountId {
    choose|a: MinerAccountId| a@ == miner_address(id, 32)
}

/// The 8-byte account, read as a little-endian `u64`, that the tagged id
/// converts into. Only three bytes of the id fit after the tag.
pub open spec fn miner_account_word(id: u32) -> u64 {
    le_value(miner_address(id, 8)) as u64
}

/// Reads from a byte string, and past its end reads zeros without end.
pub(crate) struct TrailingZeroInput<'a>(pub(crate) &'a [u8]);

impl<'a> TrailingZeroInput<'a> {
    /// Fills `into` from the bytes left, with zeros where they run out.
    pub(crate) fn read(&mut self, into: &mut [u8])
        ensures
            final(into)@ == zero_extend(old(self).0@, old(into)@.len()),
            old(into)@.len() <= old(self).0@.len() ==> final(self).0@ == old(self).0@.skip(
                old(into)@.len() as int,
            ),
            old(into)@.len() > old(self).0@.len() ==> final(self).0@.len() == 0,
    {
        let len = if into.len() < self.0.len() {
            into.len()
        } else {
            self.0.len()
        };
        let ghost src = self.0@;
        let ghost n = into@.len();
        let mut i: usize = 0;
        while i < into.len()
            invariant
                len <= src.len(),
                len <= n,
                len == n || len == src.len(),
                self.0@ == src,
                into@.len() == n,
                i <= n,
                forall|j: int| 0 <= j < i ==> into@[j] == zero_extend(src, n)[j],
            decreases n - i,
        {
            if i < len {
                into[i] = self.0[i];
            } else {
                into[i] = 0;
            }
            i += 1;
        }
        assert(into@ =~= zero_extend(src, n));
        self.0 = &self.0[len..self.0.len()];
        assert(self.0@ =~= src.skip(len as int));
    }
}

impl MinerId {
    /// `("miner", id)` as the SCALE codec encodes the pair: the tag bytes
    /// followed by the id's encoding.
    fn tagged_encoding(&self) -> (r: Vec<u8>)
        ensures
            r@ == tagged_id(self.0),
    {
        let mut r: Vec<u8> = vec![109u8, 105u8, 110u8, 101u8, 114u8];
        let mut id = encode_u32(self.0);
        r.append(&mut id);
        assert(r@ =~= tagged_id(self.0));
        r
    }

    /// The miner whose account encodes as `d`, if `d` has the tag, an id,
    /// and only zeros after it.
    fn from_encoded(d: &[u8]) -> (r: Option<MinerId>)
        requires
            d@.len() >= 5,
        ensures
            r == match miner_id_of(d@) {
                Some(id) => Some(MinerId(id)),
                None => None::<MinerId>,
            },
    {
        let tag: Vec<u8> = vec![109u8, 105u8, 110u8, 101u8, 114u8];
        let mut k: usize = 0;
        while k < 5
            invariant
                k <= 5,
                d@.len() >= 5,
                tag@ == miner_tag(),
                forall|j: int| 0 <= j < k ==> d@[j] == miner_tag()[j],
            decreases 5 - k,
        {
            if d[k] != tag[k] {
                assert(d@.take(5)[k as int] != miner_tag()[k as int]);
                return None;
            }
            k += 1;
        }
        assert(d@.take(5) =~= miner_tag());
        let mut cursor: &[u8] = &d[5..d.len()];
        let result = match decode_u32(&mut cursor) {
            Some(v) => v,
            None => {
                return None;
            },
        };
        assert(d@.subrange(5, d@.len() as int).take(4) =~= d@.subrange(5, 9));
        let ghost rest = cursor@;
        assert(rest =~= d@.skip(9));
        let mut i: usize = 0;
        while i < cursor.len()
            invariant
                cursor@ == rest,
                rest == d@.skip(9),
                d@.len() >= 9,
                i <= rest.len(),
                forall|j: int| 9 <= j < 9 + i ==> d@[j] == 0,
            decreases rest.len() - i,
        {
            if cursor[i] != 0 {
                assert(d@[9 + i] != 0);
                return None;
            }
            i += 1;
        }
        Some(MinerId(result))
    }
}

impl AccountIdConversion<u64> for MinerId {
    open spec fn account_of(&self) -> u64 {
        miner_account_word(self.0)
    }

    /// Always `None`: after the tag an 8-byte account leaves three bytes,
    /// and an id takes four.
    open spec fn from_account(a: u64) -> Option<MinerId> {
        None
    }

    /// The tagged encoding padded with zeros and read back as a `u64`.
    fn into_account(&self) -> (r: u64) {
        let encoded = self.tagged_encoding();
        let mut input = TrailingZeroInput(encoded.as_slice());
        let mut buf: Vec<u8> = vec![0u8; 8];
        assert(buf@.len() == 8);
        input.read(buf.as_mut_slice());
        let mut cursor: &[u8] = buf.as_slice();
        assert(cursor@.take(8) =~= miner_address(self.0, 8));
        decode_u64(&mut cursor).unwrap()
    }

    fn try_from_account(a: &u64) -> (r: Option<MinerId>) {
        let encoded = encode_u64(*a);
        proof {
            lemma_le_bytes_len(*a as nat, 8);
        }
        MinerId::from_encoded(encoded.as_slice())
    }
}

impl AccountIdConversion<[u8; 32]> for MinerId {
    /// The tagged encoding padded with zeros to 32 bytes.
    open spec fn account_of(&self) -> [u8; 32] {
        miner_account(self.0)
    }

    open spec fn from_account(a: [u8; 32]) -> Option<MinerId> {
        match miner_id_of(a@) {
            Some(id) => Some(MinerId(id)),
            None => None,
        }
    }

    fn into_account(&self) -> (r: [u8; 32]) {
        let encoded = self.tagged_encoding();
        let mut input = TrailingZeroInput(encoded.as_slice());
        let mut account = [0u8; 32];
        input.read(&mut account);
        account
    }

    fn try_from_account(a: &[u8; 32]) -> (r: Option<MinerId>) {
        MinerId::from_encoded(a.as_slice())
    }
}

/// Every miner id is recovered from the account derived for it, at any
/// account width that holds the tag and the four bytes of the id.
pub proof fn lemma_recover_derived(id: u32, width: nat)
    requires
        width >= 9,
    ensures
        miner_id_of(miner_address(id, width)) == Some(id),
{
    let d = miner_address(id, width);
    lemma_le_bytes_len(id as nat, 4);
    assert(d.take(5) =~= miner_tag());
    assert(d.subrange(5, 9) =~= le_bytes(id as nat, 4));
    lemma_capacity_of_four_bytes();
    lemma_le_value_of_bytes(id as nat, 4);
}

/// Recovery succeeds only on derived accounts: a byte string that yields an
/// id is the account derived for that id at its own width.
pub proof fn lemma_recover_only_derived(d: Seq<u8>)
    ensures
        miner_id_of(d) matches Some(id) ==> d == miner_address(id, d.len()),
{
    if let Some(id) = miner_id_of(d) {
        let s = d.subrange(5, 9);
        lemma_bytes_of_le_value(s);
        lemma_le_value_below_capacity(s);
        lemma_capacity_of_four_bytes();
        assert(le_bytes(id as nat, 4) == s);
        lemma_le_bytes_len(id as nat, 4);
        assert(d =~= miner_address(id, d.len()));
    }
}

/// No two miner ids share an account of a width that holds the whole id.
pub proof fn lemma_miner_address_injective(a: u32, b: u32, width: nat)
    requires
        width >= 9,
        miner_address(a, width) == miner_address(b, width),
    ensures
        a == b,
{
    lemma_recover_derived(a, width);
    lemma_recover_derived(b, width);
}

/// The account derived for a miner id holds the tag, the id's four bytes
/// and zeros.
pub proof fn lemma_miner_account_view(id: u32)
    ensures
        miner_account(id)@ == miner_address(id, 32),
{
    let t = tagged_id(id);
    lemma_le_bytes_len(id as nat, 4);
    let z = vstd::array::spec_array_fill_for_copy_type::<u8, 32>(0u8);
    let w = vstd::array::spec_array_update(
        vstd::array::spec_array_update(
            vstd::array::spec_array_update(
                vstd::array::spec_array_update(
                    vstd::array::spec_array_update(
                        vstd::array::spec_array_update(
                            vstd::array::spec_array_update(
                                vstd::array::spec_array_update(
                                    vstd::array::spec_array_update(z, 0, t[0]),
                                    1,
                                    t[1],
                                ),
                                2,
                                t[2],
                            ),
                            3,
                            t[3],
                        ),
                        4,
                        t[4],
                    ),
                    5,
                    t[5],
                ),
                6,
                t[6],
            ),
            7,
            t[7],
        ),
        8,
        t[8],
    );
    assert(w@ =~= miner_address(id, 32));
}

/// No two miner ids share a 32-byte account.
pub proof fn lemma_miner_account_injective(a: u32, b: u32)
    ensures
        miner_account(a) == miner_account(b) ==> a == b,
{
    lemma_miner_account_view(a);
    lemma_miner_account_view(b);
    if miner_account(a) == miner_account(b) {
        lemma_miner_address_injective(a, b, 32);
    }
}

proof fn lemma_capacity_of_four_bytes()
    ensures
        crate::scale::byte_capacity(4) == 4294967296,
{
    reveal_with_fuel(crate::scale::byte_capacity, 5);
}

pub proof fn lemma_le_value_below_capacity(s: Seq<u8>)
    ensures
        le_value(s) < crate::scale::byte_capacity(s.len()),
    decreases s.len(),
{
    if s.len() > 0 {
        lemma_le_value_below_capacity(s.drop_first());
        let c = crate::scale::byte_capacity((s.len() - 1) as nat);
        let v = le_value(s.drop_first());
        assert(s[0] as nat + 256 * v < 256 * c) by (nonlinear_arith)
            requires
                v < c,
                s[0] < 256,
        ;
    }
}

} // verus!
