use pluto::puzzle::check_claim;
use pluto::puzzle::execute_claim;
use pluto::puzzle::genesis;
use pluto::puzzle::EPOCH_CLAIM_THRESHOLD;
use pluto::puzzle::INITIAL_DIFF;
use pluto::puzzle::REWARD_TOKENS;
use pluto::state::ClaimError;
use pluto::state::Pluto;

use sha2::Digest;

// A fixed mock environment: contract address, block time and block height.
const CONTRACT_ADDR: &[u8] = b"cosmos2contract";
const BLOCK_TIME_NANOS: u64 = 1_571_797_419_879_305_533;
const BLOCK_HEIGHT: u64 = 12_345;
const INITER: &[u8] = b"terra1dcegyrekltswvyy0xy69ydgxn9x8x32zdtapd8";

// SHA-256(CONTRACT_ADDR || le(BLOCK_TIME_NANOS) || le(BLOCK_HEIGHT)).
const GENESIS_HASH: [u8; 32] = [
    176, 173, 218, 117, 128, 165, 172, 13, 19, 17, 172, 228, 127, 131, 116, 38, 122, 7, 179, 202,
    129, 231, 169, 242, 203, 11, 107, 198, 253, 55, 244, 91,
];

// SHA-256(CONTRACT_ADDR || le(BLOCK_TIME_NANOS) || le(BLOCK_HEIGHT) || GENESIS_HASH || le(0)).
const NEXT_HASH: [u8; 32] = [
    76, 127, 66, 113, 157, 75, 156, 24, 55, 158, 114, 178, 71, 202, 23, 70, 20, 224, 42, 6, 240,
    179, 55, 27, 186, 167, 94, 150, 8, 214, 116, 241,
];

fn setup() -> Pluto {
    genesis(CONTRACT_ADDR, BLOCK_TIME_NANOS, BLOCK_HEIGHT)
}

/// Brute-force a winning nonce: start from SHA-256(b"start") and rehash
/// until the claim verifies.
fn mine_nonce(work: &Pluto, sender: &[u8]) -> [u8; 32] {
    let mut nonce: [u8; 32] = sha2::Sha256::digest(b"start").into();
    loop {
        if check_claim(sender, &nonce, &work.hash, &work.diff) {
            return nonce;
        }
        nonce = sha2::Sha256::digest(&nonce[..]).into();
    }
}

#[test]
fn _0_instantiation() {
    let work = setup();
    assert_eq!(work.epoch, 0);
    assert_eq!(work.epoch_start_block, BLOCK_HEIGHT);
    assert_eq!(work.total_mined, 0);
    assert_eq!(work.mined_this_epoch, 0);
    assert_eq!(work.hash, GENESIS_HASH);
    assert_eq!(work.diff, INITIAL_DIFF);
    assert_eq!(work.diff, 2);
    assert_eq!(work.tokens, REWARD_TOKENS);
    assert_eq!(work.tokens, 100_000_000_000);
}

#[test]
fn _1_claim() {
    let mut work = setup();
    let nonce = mine_nonce(&work, INITER);
    let before = work.clone();

    let reward = execute_claim(
        &mut work,
        INITER,
        &nonce,
        CONTRACT_ADDR,
        BLOCK_TIME_NANOS,
        BLOCK_HEIGHT,
    )
    .unwrap();

    assert_eq!(reward, 100_000_000_000);
    assert_eq!(work.total_mined, 1);
    assert_eq!(work.hash, NEXT_HASH);
    // The height delta is zero, so the epoch boundary must not fire.
    assert_eq!(work.diff, before.diff);
    assert_eq!(work.epoch_start_block, before.epoch_start_block);
    assert_eq!(work.mined_this_epoch, before.mined_this_epoch);
    assert_eq!(work.epoch, before.epoch);
    assert_eq!(work.tokens, before.tokens);
}

#[test]
fn generator_and_verifier_are_deterministic() {
    let a = setup();
    let b = setup();
    assert_eq!(a, b);

    let nonce = [7u8; 32];
    let r1 = check_claim(INITER, &nonce, &a.hash, &a.diff);
    let r2 = check_claim(INITER, &nonce, &a.hash, &a.diff);
    assert_eq!(r1, r2);
}

#[test]
fn magic_prefix_at_difficulty_two_and_three() {
    let work = setup();
    let nonce = mine_nonce(&work, INITER);

    // The mined digest starts 0x21 0xE8, so it passes every difficulty up
    // to two.
    assert!(check_claim(INITER, &nonce, &work.hash, &0));
    assert!(check_claim(INITER, &nonce, &work.hash, &1));
    assert!(check_claim(INITER, &nonce, &work.hash, &2));

    // For this nonce the digest's third byte is 0x13, not zero, so the same
    // digest fails difficulty three.
    let digest: [u8; 32] = {
        let mut data = work.hash.to_vec();
        data.extend_from_slice(INITER);
        data.extend_from_slice(&nonce);
        sha2::Sha256::digest(&data).into()
    };
    assert_eq!(digest[0], 0x21);
    assert_eq!(digest[1], 0xE8);
    assert_eq!(digest[2], 0x13);
    assert!(!check_claim(INITER, &nonce, &work.hash, &3));
}

#[test]
fn rejected_claim_leaves_state_unchanged() {
    let mut work = setup();
    let before = work.clone();
    let zero_nonce = [0u8; 32];

    // The all-zero nonce does not satisfy the prefix for this puzzle.
    assert!(!check_claim(INITER, &zero_nonce, &work.hash, &work.diff));

    let res = execute_claim(
        &mut work,
        INITER,
        &zero_nonce,
        CONTRACT_ADDR,
        BLOCK_TIME_NANOS,
        BLOCK_HEIGHT,
    );
    assert_eq!(res, Err(ClaimError::InvalidClaim));
    assert_eq!(work, before);
}

#[test]
fn epoch_boundary_raises_difficulty() {
    // At difficulty zero every nonce wins, so the boundary policy itself is
    // exercised in isolation.
    let base = Pluto {
        epoch: 0,
        epoch_start_block: 0,
        total_mined: 5,
        mined_this_epoch: EPOCH_CLAIM_THRESHOLD,
        hash: GENESIS_HASH,
        diff: 0,
        tokens: REWARD_TOKENS,
    };
    let nonce = [0u8; 32];

    // Height delta above the span with enough claims: difficulty rises by
    // one, the epoch counter resets, and the epoch re-anchors.
    let mut work = base.clone();
    execute_claim(&mut work, INITER, &nonce, CONTRACT_ADDR, 1, 5001).unwrap();
    assert_eq!(work.diff, 1);
    assert_eq!(work.mined_this_epoch, 0);
    assert_eq!(work.epoch_start_block, 5001);
    assert_eq!(work.total_mined, 6);

    // Height delta above the span but too few claims: the epoch re-anchors
    // without a difficulty rise.
    let mut work = base.clone();
    work.mined_this_epoch = EPOCH_CLAIM_THRESHOLD - 1;
    execute_claim(&mut work, INITER, &nonce, CONTRACT_ADDR, 1, 5001).unwrap();
    assert_eq!(work.diff, 0);
    assert_eq!(work.mined_this_epoch, 0);
    assert_eq!(work.epoch_start_block, 5001);

    // Height delta exactly at the span: nothing about the epoch moves.
    let mut work = base.clone();
    execute_claim(&mut work, INITER, &nonce, CONTRACT_ADDR, 1, 5000).unwrap();
    assert_eq!(work.diff, 0);
    assert_eq!(work.mined_this_epoch, EPOCH_CLAIM_THRESHOLD);
    assert_eq!(work.epoch_start_block, 0);
    assert_eq!(work.total_mined, 6);
}

#[test]
fn oversized_difficulty_fails_closed() {
    let mut work = setup();
    work.diff = 33;
    let before = work.clone();
    let nonce = [0u8; 32];

    assert!(!check_claim(INITER, &nonce, &work.hash, &work.diff));

    let res = execute_claim(
        &mut work,
        INITER,
        &nonce,
        CONTRACT_ADDR,
        BLOCK_TIME_NANOS,
        BLOCK_HEIGHT,
    );
    assert_eq!(res, Err(ClaimError::InvalidClaim));
    assert_eq!(work, before);
}
