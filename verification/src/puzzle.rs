//! The puzzle/difficulty engine: deriving puzzle targets, verifying claimed
//! solutions, and advancing the puzzle state on an accepted claim.

use vstd::prelude::*;
use vstd::bytes::spec_u64_to_le_bytes;
use vstd::bytes::u64_to_le_bytes;

use crate::hashing::sha256_of;
use crate::hashing::sha256_digest;
use crate::state::ClaimError;
use crate::state::Pluto;

verus! {

/// Reward minted per accepted claim; also the starting supply handed to the
/// initializing caller.
pub const REWARD_TOKENS: u64 = 100000000000;

/// Difficulty a fresh puzzle starts at.
pub const INITIAL_DIFF: u8 = 2;

/// Height span after which the epoch boundary policy fires.
pub const EPOCH_SPAN: u64 = 5000;

/// Claims within one epoch needed before the boundary raises the difficulty.
pub const EPOCH_CLAIM_THRESHOLD: u64 = 1000;

/// The magic template a winning digest must begin with: byte 0 is 0x21,
/// byte 1 is 0xE8, and every later byte is zero.
pub open spec fn magic_byte(i: int) -> u8 {
    if i == 0 {
        33u8
    } else if i == 1 {
        232u8
    } else {
        0u8
    }
}

/// A digest satisfies difficulty `diff` when its first `diff` bytes equal
/// the magic template byte for byte.
pub open spec fn digest_matches(digest: Seq<u8>, diff: u8) -> bool {
    forall|i: int| 0 <= i < diff ==> #[trigger] digest[i] == magic_byte(i)
}

/// The bytes hashed to judge a claim: the current puzzle hash, then the
/// claimant's identity, then the claimed nonce.
pub open spec fn claim_seed(puzzle_hash: Seq<u8>, sender: Seq<u8>, nonce: Seq<u8>) -> Seq<u8> {
    puzzle_hash + sender + nonce
}

/// A claim is accepted exactly when the difficulty fits the 32-byte magic
/// template (the engine fails closed on a larger value) and the digest of
/// the claim seed matches the template to that depth.
pub open spec fn claim_accepted(sender: Seq<u8>, nonce: Seq<u8>, puzzle_hash: Seq<u8>, diff: u8) -> bool {
    &&& diff <= 32
    &&& digest_matches(sha256_of(claim_seed(puzzle_hash, sender, nonce)), diff)
}

/// Append `src` to `dst`, byte for byte.
fn append_bytes(dst: &mut Vec<u8>, src: &[u8])
    ensures
        final(dst)@ == old(dst)@ + src@,
{
    dst.extend_from_slice(src);
    proof {
        assert(dst@ =~= old(dst)@ + src@);
    }
}

/// The bytes hashed into the genesis puzzle target: the contract identity,
/// then the block time and the block height, each as eight little-endian
/// bytes.
pub open spec fn genesis_seed(contract_addr: Seq<u8>, block_time_nanos: u64, block_height: u64) -> Seq<u8> {
    contract_addr + spec_u64_to_le_bytes(block_time_nanos) + spec_u64_to_le_bytes(block_height)
}

/// The bytes hashed into the puzzle target that follows an accepted claim:
/// the genesis material, then the puzzle hash and the lifetime claim count
/// as they stood before the claim.
pub open spec fn next_seed(
    contract_addr: Seq<u8>,
    block_time_nanos: u64,
    block_height: u64,
    prev_hash: Seq<u8>,
    total_mined: u64,
) -> Seq<u8> {
    contract_addr + spec_u64_to_le_bytes(block_time_nanos) + spec_u64_to_le_bytes(block_height)
        + prev_hash + spec_u64_to_le_bytes(total_mined)
}

/// The puzzle record created at initialization: counters at zero, the epoch
/// anchored at the current height, difficulty and reward at their fixed
/// starting values, and the target seeded from the contract's identity and
/// the current block.
pub fn genesis(contract_addr: &[u8], block_time_nanos: u64, block_height: u64) -> (p: Pluto)
    ensures
        p.epoch == 0,
        p.epoch_start_block == block_height,
        p.total_mined == 0,
        p.mined_this_epoch == 0,
        p.hash@ == sha256_of(genesis_seed(contract_addr@, block_time_nanos, block_height)),
        p.diff == INITIAL_DIFF,
        p.tokens == REWARD_TOKENS,
{
    let mut data_vec: Vec<u8> = Vec::new();
    append_bytes(&mut data_vec, contract_addr);
    let time_bytes = u64_to_le_bytes(block_time_nanos);
    append_bytes(&mut data_vec, time_bytes.as_slice());
    let height_bytes = u64_to_le_bytes(block_height);
    append_bytes(&mut data_vec, height_bytes.as_slice());
    let hash = sha256_digest(&data_vec);
    Pluto {
        epoch: 0,
        epoch_start_block: block_height,
        total_mined: 0,
        mined_this_epoch: 0,
        hash,
        diff: INITIAL_DIFF,
        tokens: REWARD_TOKENS,
    }
}

/// Does the nonce solve the current puzzle? True exactly when the SHA-256
/// digest of `sha256 || sender || nonce` begins with the first `diff` bytes
/// of the magic template; difficulties above the 32-byte template are
/// rejected outright.
pub fn check_claim(sender: &[u8], nonce: &[u8; 32], sha256: &[u8; 32], diff: &u8) -> (r: bool)
    ensures
        r == claim_accepted(sender@, nonce@, sha256@, *diff),
{
    if *diff > 32 {
        return false;
    }
    let mut data_vec: Vec<u8> = Vec::new();
    append_bytes(&mut data_vec, sha256.as_slice());
    append_bytes(&mut data_vec, sender);
    append_bytes(&mut data_vec, nonce.as_slice());
    let digest = sha256_digest(&data_vec);
    let d = *diff as usize;
    let mut i: usize = 0;
    while i < d
        invariant
            d == *diff as usize,
            d <= 32,
            i <= d,
            digest@ == sha256_of(claim_seed(sha256@, sender@, nonce@)),
            digest@.len() == 32,
            forall|j: int| 0 <= j < i ==> #[trigger] digest@[j] == magic_byte(j),
        decreases d - i,
    {
        let expected: u8 = if i == 0 {
            33
        } else if i == 1 {
            232
        } else {
            0
        };
        if digest[i] != expected {
            return false;
        }
        i += 1;
    }
    true
}

/// Whether the epoch boundary policy fires for a claim accepted at
/// `block_height` against a puzzle whose epoch began at `epoch_start_block`.
pub open spec fn epoch_boundary(block_height: u64, epoch_start_block: u64) -> bool {
    block_height - epoch_start_block > EPOCH_SPAN
}

/// How an accepted claim advances the puzzle record. The target is rechained
/// from the contract identity, the current block, and the pre-claim hash and
/// claim count; the lifetime count grows by one; and when the epoch boundary
/// fires, the difficulty rises by one exactly when the epoch's claim count
/// reached the threshold, the epoch count resets, and the epoch is
/// re-anchored at the current height.
pub open spec fn claim_transition(
    pre: Pluto,
    post: Pluto,
    contract_addr: Seq<u8>,
    block_time_nanos: u64,
    block_height: u64,
) -> bool {
    &&& post.hash@ == sha256_of(
        next_seed(contract_addr, block_time_nanos, block_height, pre.hash@, pre.total_mined),
    )
    &&& post.total_mined == pre.total_mined + 1
    &&& post.epoch == pre.epoch
    &&& post.tokens == pre.tokens
    &&& if epoch_boundary(block_height, pre.epoch_start_block) {
        &&& post.diff == if pre.mined_this_epoch >= EPOCH_CLAIM_THRESHOLD {
            (pre.diff + 1) as u8
        } else {
            pre.diff
        }
        &&& post.mined_this_epoch == 0
        &&& post.epoch_start_block == block_height
    } else {
        &&& post.diff == pre.diff
        &&& post.mined_this_epoch == pre.mined_this_epoch
        &&& post.epoch_start_block == pre.epoch_start_block
    }
}

/// Process one claim attempt against the puzzle record. On a winning nonce
/// the record advances by `claim_transition` and the fixed reward amount is
/// returned for the caller to mint to the claimant; on a losing nonce (or a
/// difficulty past the 32-byte template) the record is left untouched and
/// the claim is refused.
pub fn execute_claim(
    work: &mut Pluto,
    sender: &[u8],
    nonce: &[u8; 32],
    contract_addr: &[u8],
    block_time_nanos: u64,
    block_height: u64,
) -> (r: Result<u64, ClaimError>)
    requires
        old(work).total_mined < u64::MAX,
        old(work).epoch_start_block <= block_height,
    ensures
        r is Ok <==> claim_accepted(sender@, nonce@, old(work).hash@, old(work).diff),
        r is Ok ==> r->Ok_0 == old(work).tokens
            && claim_transition(*old(work), *final(work), contract_addr@, block_time_nanos, block_height),
        r is Err ==> r->Err_0 == ClaimError::InvalidClaim && *final(work) == *old(work),
{
    if !check_claim(sender, nonce, &work.hash, &work.diff) {
        return Err(ClaimError::InvalidClaim);
    }
    let mut data_vec: Vec<u8> = Vec::new();
    append_bytes(&mut data_vec, contract_addr);
    let time_bytes = u64_to_le_bytes(block_time_nanos);
    append_bytes(&mut data_vec, time_bytes.as_slice());
    let height_bytes = u64_to_le_bytes(block_height);
    append_bytes(&mut data_vec, height_bytes.as_slice());
    append_bytes(&mut data_vec, work.hash.as_slice());
    let mined_bytes = u64_to_le_bytes(work.total_mined);
    append_bytes(&mut data_vec, mined_bytes.as_slice());
    work.hash = sha256_digest(&data_vec);
    work.total_mined = work.total_mined + 1;
    if block_height - work.epoch_start_block > EPOCH_SPAN {
        if work.mined_this_epoch >= EPOCH_CLAIM_THRESHOLD {
            work.diff = work.diff + 1;
        }
        work.mined_this_epoch = 0;
        work.epoch_start_block = block_height;
    }
    Ok(work.tokens)
}

/// Determinism of the state advance: identical environment inputs applied to
/// identical prior records produce identical next records — the next puzzle
/// hash is a function solely of the contract identity, the block time and
/// height, and the pre-claim hash and claim count, with no hidden entropy.
pub proof fn lemma_claim_transition_deterministic(
    pre: Pluto,
    post1: Pluto,
    post2: Pluto,
    contract_addr: Seq<u8>,
    block_time_nanos: u64,
    block_height: u64,
)
    requires
        claim_transition(pre, post1, contract_addr, block_time_nanos, block_height),
        claim_transition(pre, post2, contract_addr, block_time_nanos, block_height),
    ensures
        post1 == post2,
{
    broadcast use vstd::array::group_array_axioms;

    assert(post1.hash@ =~= post2.hash@);
    assert(post1.hash == post2.hash);
}

/// The magic-prefix rule spelled out at low difficulties: at difficulty two
/// a digest passes exactly when its first two bytes are 0x21 and 0xE8,
/// whatever the remaining bytes hold; at difficulty three it additionally
/// needs a zero in the third byte.
pub proof fn lemma_magic_prefix(digest: Seq<u8>)
    requires
        digest.len() == 32,
    ensures
        digest_matches(digest, 2) <==> (digest[0] == 0x21 && digest[1] == 0xe8),
        digest_matches(digest, 3) <==> (digest[0] == 0x21 && digest[1] == 0xe8 && digest[2]
            == 0x00),
{
    if digest[0] == 0x21 && digest[1] == 0xe8 {
        assert forall|i: int| 0 <= i < 2 implies #[trigger] digest[i] == magic_byte(i) by {
            if i == 0 {
            } else {
                assert(i == 1);
            }
        }
    }
    if digest[0] == 0x21 && digest[1] == 0xe8 && digest[2] == 0x00 {
        assert forall|i: int| 0 <= i < 3 implies #[trigger] digest[i] == magic_byte(i) by {
            if i == 0 {
            } else if i == 1 {
            } else {
                assert(i == 2);
            }
        }
    }
}

/// Monotonicity of the lifetime claim count: every accepted claim raises
/// `total_mined` by exactly one (a rejected claim leaves the whole record
/// untouched, as `execute_claim` ensures directly).
pub proof fn lemma_total_mined_monotonic(
    pre: Pluto,
    post: Pluto,
    contract_addr: Seq<u8>,
    block_time_nanos: u64,
    block_height: u64,
)
    requires
        claim_transition(pre, post, contract_addr, block_time_nanos, block_height),
    ensures
        post.total_mined == pre.total_mined + 1,
{
}

/// The epoch boundary policy: when an accepted claim lands more than
/// `EPOCH_SPAN` blocks past the epoch start and the epoch's claim count has
/// reached the threshold, the difficulty rises by exactly one and the epoch
/// is re-anchored at the current height; when the span is not exceeded,
/// neither the difficulty nor the epoch start moves. A claim is only
/// accepted at a difficulty within the 32-byte template, so the rise cannot
/// wrap.
pub proof fn lemma_epoch_boundary(
    pre: Pluto,
    post: Pluto,
    contract_addr: Seq<u8>,
    block_time_nanos: u64,
    block_height: u64,
)
    requires
        claim_transition(pre, post, contract_addr, block_time_nanos, block_height),
        pre.diff <= 32,
    ensures
        epoch_boundary(block_height, pre.epoch_start_block) && pre.mined_this_epoch
            >= EPOCH_CLAIM_THRESHOLD ==> post.diff == pre.diff + 1 && post.epoch_start_block
            == block_height,
        epoch_boundary(block_height, pre.epoch_start_block) && pre.mined_this_epoch
            < EPOCH_CLAIM_THRESHOLD ==> post.diff == pre.diff && post.epoch_start_block
            == block_height,
        !epoch_boundary(block_height, pre.epoch_start_block) ==> post.diff == pre.diff
            && post.epoch_start_block == pre.epoch_start_block,
{
}

} // verus!

