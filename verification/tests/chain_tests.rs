use hashchain::chain::BlockChain;

#[test]
fn it_works() {
    assert_eq!(2 + 2, 4);
}

#[test]
fn latest_on_empty_chain_reports_empty_condition() {
    let chain = BlockChain::new();
    assert_eq!(chain.len(), 0);
    assert!(chain.get_latest_block().is_err());
}

#[test]
fn four_appends_yield_heights_zero_through_three() {
    let mut chain = BlockChain::new();
    chain.generate_next_block(String::from("first block"));
    chain.generate_next_block(String::from("second block"));
    chain.generate_next_block(String::from("third block"));
    chain.generate_next_block(String::from("fourth block"));

    assert_eq!(chain.len(), 4);
    for i in 0..4 {
        assert_eq!(chain.get(i).height, i as u32);
    }
    let latest = chain.get_latest_block().unwrap();
    assert_eq!(latest.height, 3);
    assert_eq!(latest.data, "fourth block");
}

#[test]
fn genesis_links_to_all_zero_sentinel() {
    let mut chain = BlockChain::new();
    chain.generate_next_block(String::from("anything at all"));
    assert_eq!(chain.get(0).previous_hash, [0u8; 32]);

    let mut other = BlockChain::new();
    other.generate_next_block(String::new());
    assert_eq!(other.get(0).previous_hash, [0u8; 32]);
}

#[test]
fn each_linkage_field_derives_from_immediate_predecessor() {
    let mut chain = BlockChain::new();
    chain.append_at(String::from("first block"), 1_000);
    chain.append_at(String::from("second block"), 2_000);
    chain.append_at(String::from("third block"), 3_000);
    chain.append_at(String::from("fourth block"), 4_000);

    let genesis = chain.get(0);
    assert_eq!(
        genesis.hash,
        BlockChain::calculate_hash(&genesis.data, &[0u8; 32], &0, &genesis.timestamp)
    );
    for i in 1..4 {
        let prev = chain.get(i - 1);
        let prev_hash = prev.hash;
        let block = chain.get(i);
        assert_eq!(block.hash, prev_hash);
        assert_eq!(
            block.previous_hash,
            BlockChain::calculate_hash(&block.data, &prev_hash, &block.height, &block.timestamp)
        );
    }
}

#[test]
fn digest_is_deterministic_for_fixed_inputs() {
    let data = String::from("some record data");
    let previous_hash = [7u8; 32];
    let first = BlockChain::calculate_hash(&data, &previous_hash, &5, &1_234_567);
    let second = BlockChain::calculate_hash(&data, &previous_hash, &5, &1_234_567);
    assert_eq!(first, second);
}

#[test]
fn digest_matches_external_recomputation() {
    let data = String::from("first block");
    let previous_hash = [0u8; 32];
    let height: u32 = 0;
    let timestamp: u128 = 1_555_000_000_000;

    let stored = BlockChain::calculate_hash(&data, &previous_hash, &height, &timestamp);

    let mut payload = Vec::new();
    payload.extend_from_slice(&previous_hash);
    payload.extend_from_slice(data.as_bytes());
    payload.extend_from_slice(height.to_string().as_bytes());
    payload.extend_from_slice(timestamp.to_string().as_bytes());
    let expected: [u8; 32] = <sha2::Sha256 as sha2::Digest>::digest(&payload).into();

    assert_eq!(stored, expected);
}

#[test]
fn appended_record_keeps_data_and_timestamp() {
    let mut chain = BlockChain::new();
    chain.append_at(String::from("payload"), 42);
    let block = chain.get_latest_block().unwrap();
    assert_eq!(block.height, 0);
    assert_eq!(block.data, "payload");
    assert_eq!(block.timestamp, 42);
}
