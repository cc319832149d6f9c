//! The append-only, hash-linked record chain: deterministic digest
//! computation, genesis handling, and the append operation.

use vstd::prelude::*;
use vstd::utf8::encode_utf8;

verus! {

broadcast use vstd::array::group_array_axioms;

/// The SHA-256 digest of a byte sequence: a fixed function of the
/// input bytes alone, left uninterpreted here and computed by an
/// outside implementation.
pub uninterp spec fn sha256_of(input: Seq<u8>) -> Seq<u8>;

/// Relies on sha2::Sha256::digest: the 32-byte SHA-256 digest of the
/// input, a function of the input bytes alone.
#[verifier::external_body]
fn sha256(input: &[u8]) -> (r: [u8; 32])
    ensures
        r@ == sha256_of(input@),
{
    <sha2::Sha256 as sha2::Digest>::digest(input).into()
}

/// The ASCII digit for a value below ten.
pub open spec fn decimal_digit(d: nat) -> u8
    recommends
        d < 10,
{
    (48 + d) as u8
}

/// The decimal representation of `n` as ASCII bytes, most significant
/// digit first, with no leading zeros (zero itself is one `'0'` byte).
pub open spec fn decimal_rep(n: nat) -> Seq<u8>
    decreases n,
{
    if n < 10 {
        seq![decimal_digit(n)]
    } else {
        decimal_rep(n / 10).push(decimal_digit(n % 10))
    }
}

/// Appends the decimal representation of `n` to `out`.
fn push_decimal(n: u128, out: &mut Vec<u8>)
    ensures
        final(out)@ == old(out)@ + decimal_rep(n as nat),
    decreases n,
{
    if n < 10 {
        out.push(48 + (n as u8));
        proof {
            assert(out@ =~= old(out)@ + decimal_rep(n as nat));
        }
    } else {
        push_decimal(n / 10, out);
        out.push(48 + ((n % 10) as u8));
        proof {
            assert(out@ =~= old(out)@ + decimal_rep(n as nat));
        }
    }
}

/// The all-zero 32-byte sentinel that stands in for a predecessor
/// where none exists.
pub open spec fn zero_link() -> Seq<u8> {
    Seq::new(32, |i: int| 0u8)
}

/// The byte sequence fed to the hash function: predecessor identity,
/// UTF-8 bytes of the data, then the decimal-string bytes of height
/// and timestamp, in that fixed order.
pub open spec fn hash_input(
    previous_hash: Seq<u8>,
    data: Seq<char>,
    height: u32,
    timestamp: u128,
) -> Seq<u8> {
    previous_hash + encode_utf8(data) + decimal_rep(height as nat) + decimal_rep(
        timestamp as nat,
    )
}

/// The digest that binds a record to its predecessor: a deterministic
/// function of the predecessor identity, data, height and timestamp.
pub open spec fn digest_of(
    previous_hash: Seq<u8>,
    data: Seq<char>,
    height: u32,
    timestamp: u128,
) -> Seq<u8> {
    sha256_of(hash_input(previous_hash, data, height, timestamp))
}

/// One entry in the hash-linked sequence.
///
/// A note on the two digest fields, kept as the construction populates
/// them: for the genesis record, `hash` holds the record's own computed
/// digest and `previous_hash` holds the all-zero sentinel; for every
/// later record, `hash` carries the predecessor's stored `hash` value
/// forward while `previous_hash` holds the digest newly computed from
/// the predecessor's stored identity. Readers that expect the
/// conventional assignment (digest identifies self, link identifies the
/// predecessor) must read the fields accordingly.
pub struct Block {
    pub height: u32,
    pub hash: [u8; 32],
    pub previous_hash: [u8; 32],
    pub data: String,
    pub timestamp: u128,
}

/// The mathematical shape of a `Block`: the two digest fields as byte
/// sequences and the data as a character sequence.
pub ghost struct BlockModel {
    pub height: u32,
    pub hash: Seq<u8>,
    pub previous_hash: Seq<u8>,
    pub data: Seq<char>,
    pub timestamp: u128,
}

impl View for Block {
    type V = BlockModel;

    open spec fn view(&self) -> BlockModel {
        BlockModel {
            height: self.height,
            hash: self.hash@,
            previous_hash: self.previous_hash@,
            data: self.data@,
            timestamp: self.timestamp,
        }
    }
}

impl Block {
    /// A record with exactly the given fields.
    pub fn new(
        height: u32,
        hash: [u8; 32],
        previous_hash: [u8; 32],
        data: String,
        timestamp: u128,
    ) -> (b: Block)
        ensures
            b@ == (BlockModel {
                height,
                hash: hash@,
                previous_hash: previous_hash@,
                data: data@,
                timestamp,
            }),
    {
        Block { height, hash, previous_hash, data, timestamp }
    }
}

/// The record appended to a chain in state `chain` for the given data
/// and timestamp: the genesis shape when the chain is empty, otherwise
/// the successor of the chain's last record.
pub open spec fn next_block_model(
    chain: Seq<BlockModel>,
    data: Seq<char>,
    timestamp: u128,
) -> BlockModel {
    if chain.len() == 0 {
        BlockModel {
            height: 0,
            hash: digest_of(zero_link(), data, 0, timestamp),
            previous_hash: zero_link(),
            data,
            timestamp,
        }
    } else {
        let prev = chain.last();
        let height = (prev.height + 1) as u32;
        BlockModel {
            height,
            hash: prev.hash,
            previous_hash: digest_of(prev.hash, data, height, timestamp),
            data,
            timestamp,
        }
    }
}

/// Well-formedness of a chain: heights run 0, 1, 2, ... with no gaps
/// or repeats; the genesis record links to the all-zero sentinel and
/// holds its own digest; and every later record carries the
/// predecessor's stored identity forward and binds its link field to
/// that identity, its data, its height and its timestamp through the
/// digest function.
pub open spec fn chain_wf(chain: Seq<BlockModel>) -> bool {
    &&& forall|i: int| 0 <= i < chain.len() ==> (#[trigger] chain[i]).height as int == i
    &&& chain.len() > 0 ==> {
        &&& chain[0].previous_hash == zero_link()
        &&& chain[0].hash == digest_of(zero_link(), chain[0].data, 0, chain[0].timestamp)
    }
    &&& forall|i: int|
        1 <= i < chain.len() ==> {
            &&& (#[trigger] chain[i]).hash == chain[i - 1].hash
            &&& chain[i].previous_hash == digest_of(
                chain[i - 1].hash,
                chain[i].data,
                chain[i].height,
                chain[i].timestamp,
            )
        }
}

/// An ordered, append-only sequence of records. Created empty; grown
/// only through the append operation, which computes each new record's
/// linkage deterministically from the predecessor's stored state.
pub struct BlockChain {
    blocks: Vec<Block>,
}

impl View for BlockChain {
    type V = Seq<BlockModel>;

    closed spec fn view(&self) -> Seq<BlockModel> {
        self.blocks@.map_values(|b: Block| b@)
    }
}

/// Relies on std::time::SystemTime::now, duration_since and
/// Duration::as_millis: the wall-clock time as milliseconds since the
/// Unix epoch. Nothing is promised of the value, which the environment
/// decides; a clock before the epoch is an unrecoverable fault.
#[verifier::external_body]
fn now_millis() -> u128 {
    std::time::SystemTime::now()
        .duration_since(std::time::SystemTime::UNIX_EPOCH)
        .expect("could not get system time")
        .as_millis()
}

impl BlockChain {
    /// An empty chain: no genesis yet.
    pub fn new() -> (c: BlockChain)
        ensures
            c@ == Seq::<BlockModel>::empty(),
    {
        let c = BlockChain { blocks: Vec::new() };
        proof {
            assert(c@ =~= Seq::<BlockModel>::empty());
        }
        c
    }

    /// The number of records in the chain.
    pub fn len(&self) -> (n: usize)
        ensures
            n == self@.len(),
    {
        self.blocks.len()
    }

    /// The record at the given position.
    pub fn get(&self, i: usize) -> (b: &Block)
        requires
            i < self@.len(),
        ensures
            b@ == self@[i as int],
    {
        &self.blocks[i]
    }

    /// The digest over `(predecessor identity, data, height, timestamp)`:
    /// SHA-256 of the predecessor identity bytes, the UTF-8 bytes of the
    /// data, and the decimal-string bytes of height and timestamp,
    /// concatenated in that fixed order.
    pub fn calculate_hash(
        data: &String,
        previous_hash: &[u8; 32],
        height: &u32,
        timestamp: &u128,
    ) -> (r: [u8; 32])
        ensures
            r@ == digest_of(previous_hash@, data@, *height, *timestamp),
    {
        let mut payload: Vec<u8> = Vec::new();
        payload.extend_from_slice(previous_hash.as_slice());
        payload.extend_from_slice(data.as_str().as_bytes());
        push_decimal(*height as u128, &mut payload);
        push_decimal(*timestamp, &mut payload);
        proof {
            assert(payload@ =~= hash_input(previous_hash@, data@, *height, *timestamp));
        }
        sha256(payload.as_slice())
    }

    /// The last record, or the distinguished empty condition when no
    /// genesis exists yet.
    pub fn get_latest_block(&self) -> (r: Result<&Block, ()>)
        ensures
            r is Ok <==> self@.len() > 0,
            r matches Ok(b) ==> b@ == self@.last(),
    {
        let height = self.blocks.len();
        if height == 0 {
            Err(())
        } else {
            Ok(&self.blocks[self.blocks.len() - 1])
        }
    }

    /// Appends exactly one record built from `data` and the given
    /// timestamp: the genesis record when the chain is empty, otherwise
    /// the successor of the last record.
    pub fn append_at(&mut self, block_data: String, timestamp: u128)
        requires
            old(self)@.len() == 0 || old(self)@.last().height < u32::MAX,
        ensures
            final(self)@ == old(self)@.push(next_block_model(old(self)@, block_data@, timestamp)),
            chain_wf(old(self)@) ==> chain_wf(final(self)@),
    {
        let ghost data_view = block_data@;
        let n = self.blocks.len();
        if n == 0 {
            let sentinel: [u8; 32] = [0;32];
            let height: u32 = 0;
            let next_hash = Self::calculate_hash(&block_data, &sentinel, &height, &timestamp);
            proof {
                assert(sentinel@ =~= zero_link());
            }
            self.blocks.push(Block::new(0, next_hash, sentinel, block_data, timestamp));
            proof {
                old(self).blocks@.lemma_push_map_commute(
                    |b: Block| b@,
                    self.blocks@.last(),
                );
                assert(self@ =~= old(self)@.push(
                    next_block_model(old(self)@, self.blocks@.last().data@, timestamp),
                ));
            }
        } else {
            let previous_hash: [u8; 32] = self.blocks[n - 1].hash;
            let next_height: u32 = self.blocks[n - 1].height + 1;
            let next_hash = Self::calculate_hash(
                &block_data,
                &previous_hash,
                &next_height,
                &timestamp,
            );
            self.blocks.push(
                Block::new(next_height, previous_hash, next_hash, block_data, timestamp),
            );
            proof {
                old(self).blocks@.lemma_push_map_commute(
                    |b: Block| b@,
                    self.blocks@.last(),
                );
                assert(old(self)@.last() == old(self).blocks@.last()@);
                assert(self@ =~= old(self)@.push(
                    next_block_model(old(self)@, self.blocks@.last().data@, timestamp),
                ));
            }
        }
        proof {
            if chain_wf(old(self)@) {
                lemma_append_preserves_wf(old(self)@, data_view, timestamp);
            }
        }
    }

    /// Appends exactly one record built from `data` and the wall-clock
    /// time captured at the moment of the call. Never fails.
    pub fn generate_next_block(&mut self, block_data: String)
        requires
            old(self)@.len() == 0 || old(self)@.last().height < u32::MAX,
        ensures
            exists|t: u128|
                final(self)@ == old(self)@.push(
                    #[trigger] next_block_model(old(self)@, block_data@, t),
                ),
            chain_wf(old(self)@) ==> chain_wf(final(self)@),
    {
        let timestamp = now_millis();
        let ghost data_view = block_data@;
        self.append_at(block_data, timestamp);
        proof {
            assert(self@ == old(self)@.push(next_block_model(old(self)@, data_view, timestamp)));
        }
    }
}

/// Law: appending to a well-formed chain keeps it well-formed; in
/// particular the new record extends the heights 0, 1, 2, ... by one
/// and binds its linkage to its immediate predecessor only.
pub proof fn lemma_append_preserves_wf(chain: Seq<BlockModel>, data: Seq<char>, timestamp: u128)
    requires
        chain_wf(chain),
        chain.len() == 0 || chain.last().height < u32::MAX,
    ensures
        chain_wf(chain.push(next_block_model(chain, data, timestamp))),
{
    let grown = chain.push(next_block_model(chain, data, timestamp));
    assert(forall|i: int| 0 <= i < chain.len() ==> grown[i] == chain[i]);
    assert(grown[chain.len() as int].height as int == chain.len() as int);
}

/// Law: a well-formed chain's heights are exactly 0, 1, 2, ... — no
/// gaps and no repeats.
pub proof fn lemma_heights_sequential(chain: Seq<BlockModel>, i: int)
    requires
        chain_wf(chain),
        0 <= i < chain.len(),
    ensures
        chain[i].height as int == i,
{
}

/// Law: a well-formed, non-empty chain's genesis record links to the
/// all-zero sentinel, regardless of its data.
pub proof fn lemma_genesis_link_is_zero(chain: Seq<BlockModel>)
    requires
        chain_wf(chain),
        chain.len() > 0,
    ensures
        chain[0].previous_hash == zero_link(),
{
}

/// Law: the digest is deterministic — equal inputs give equal digests,
/// so recomputing it from a record's stored inputs reproduces the
/// stored value exactly.
pub proof fn lemma_digest_deterministic(
    previous_hash1: Seq<u8>,
    data1: Seq<char>,
    height1: u32,
    timestamp1: u128,
    previous_hash2: Seq<u8>,
    data2: Seq<char>,
    height2: u32,
    timestamp2: u128,
)
    requires
        previous_hash1 == previous_hash2,
        data1 == data2,
        height1 == height2,
        timestamp1 == timestamp2,
    ensures
        digest_of(previous_hash1, data1, height1, timestamp1) == digest_of(
            previous_hash2,
            data2,
            height2,
            timestamp2,
        ),
{
}

/// Law: in a well-formed chain, every non-genesis record's linkage
/// field is the digest of its immediate predecessor's stored identity
/// together with the record's own data, height and timestamp.
pub proof fn lemma_link_binds_predecessor(chain: Seq<BlockModel>, i: int)
    requires
        chain_wf(chain),
        1 <= i < chain.len(),
    ensures
        chain[i].previous_hash == digest_of(
            chain[i - 1].hash,
            chain[i].data,
            chain[i].height,
            chain[i].timestamp,
        ),
{
}

} // verus!
