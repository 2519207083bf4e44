use multimixer_128::BLOCK_SIZE;
use multimixer_128::DIGEST_SIZE;
use multimixer_128::MultimixerError;
use multimixer_128::f_128;
use multimixer_128::get_data_block;
use multimixer_128::multimixer_128;
use multimixer_128::multimixer_128_checked;

#[test]
fn test_empty_key_and_msg() {
    let mut dig = [0u8; DIGEST_SIZE];
    let result = multimixer_128_checked(&[], &[], &mut dig);
    assert_eq!(result, Err(MultimixerError::EmptyInput));
    assert_eq!(dig, [0u8; DIGEST_SIZE]);
}

#[test]
fn test_empty_key_and_nonempty_msg() {
    let msg = [0u8; BLOCK_SIZE];
    let mut dig = [0u8; DIGEST_SIZE];
    let result = multimixer_128_checked(&[], &msg, &mut dig);
    assert_eq!(result, Err(MultimixerError::LengthMismatch));
    assert_eq!(dig, [0u8; DIGEST_SIZE]);
}

#[test]
fn test_unsupported_msg_len() {
    let mut dig = [0u8; DIGEST_SIZE];
    let mut mlen = 1usize;

    while mlen <= BLOCK_SIZE * 2 {
        let key = vec![0x0fu8; mlen];
        let msg = vec![0xf0u8; mlen];

        let result = multimixer_128_checked(&key, &msg, &mut dig);
        assert_eq!(result, Err(MultimixerError::UnalignedLength));
        assert_eq!(dig, [0u8; DIGEST_SIZE]);

        mlen = if (mlen + 1) % BLOCK_SIZE == 0 {
            mlen + 2
        } else {
            mlen + 1
        };
    }
}

#[test]
fn test_length_mismatch_reported_before_alignment() {
    let key = [0u8; 32];
    let msg = [0u8; 33];
    let mut dig = [0u8; DIGEST_SIZE];
    let result = multimixer_128_checked(&key, &msg, &mut dig);
    assert_eq!(result, Err(MultimixerError::LengthMismatch));
}

/// Known-answer records in the fixture format `Mlen`/`Key`/`Msg`/`MD`,
/// derived from the published F-128 vector: an all-zero key leaves the
/// message words unchanged, so the accumulator of one block whose words
/// are all `0xff00ff00` is the known mixer output, and two equal blocks
/// double each accumulator word modulo 2^64.
fn known_answer_records() -> String {
    let mut kat = String::new();

    // All-zero key and message: every mixer output word is 0.
    kat.push_str("Mlen = 32\n");
    kat.push_str(&format!("Key = {}\n", "00".repeat(32)));
    kat.push_str(&format!("Msg = {}\n", "00".repeat(32)));
    kat.push_str(&format!("MD = {}\n", "00".repeat(64)));
    kat.push_str("\n");

    // One block whose combined words are all 0xff00ff00.
    kat.push_str("Mlen = 32\n");
    kat.push_str(&format!("Key = {}\n", "00".repeat(32)));
    kat.push_str(&format!("Msg = {}\n", "00ff00ff".repeat(8)));
    kat.push_str(&format!(
        "MD = {}{}\n",
        "000001fe02fc02fe".repeat(4),
        "000009ee1ae80efa".repeat(4)
    ));
    kat.push_str("\n");

    // The same block twice: each accumulator word doubles modulo 2^64.
    kat.push_str("Mlen = 64\n");
    kat.push_str(&format!("Key = {}\n", "00".repeat(64)));
    kat.push_str(&format!("Msg = {}\n", "00ff00ff".repeat(16)));
    kat.push_str(&format!(
        "MD = {}{}\n",
        "000002fc05f805fc".repeat(4),
        "000012dc35d01df4".repeat(4)
    ));
    kat.push_str("\n");

    // Key and message swapped: the combiner is commutative word-wise.
    kat.push_str("Mlen = 32\n");
    kat.push_str(&format!("Key = {}\n", "00ff00ff".repeat(8)));
    kat.push_str(&format!("Msg = {}\n", "00".repeat(32)));
    kat.push_str(&format!(
        "MD = {}{}\n",
        "000001fe02fc02fe".repeat(4),
        "000009ee1ae80efa".repeat(4)
    ));
    kat.push_str("\n");

    kat
}

#[test]
fn test_known_answer_tests() {
    let kat = known_answer_records();
    let mut lines = kat.lines();

    while let Some(line) = lines.next() {
        let mlen = line.split(" = ").collect::<Vec<&str>>()[1]
            .parse::<usize>()
            .unwrap();
        let key = hex::decode(lines.next().unwrap().split(" = ").collect::<Vec<&str>>()[1]).unwrap();
        let msg = hex::decode(lines.next().unwrap().split(" = ").collect::<Vec<&str>>()[1]).unwrap();
        let md = hex::decode(lines.next().unwrap().split(" = ").collect::<Vec<&str>>()[1]).unwrap();

        assert!(mlen > 0);
        assert!(mlen % BLOCK_SIZE == 0);
        assert_eq!(key.len(), mlen);
        assert_eq!(msg.len(), mlen);
        let mut computed_md = [0u8; DIGEST_SIZE];

        multimixer_128(&key, &msg, &mut computed_md);
        assert_eq!(md, computed_md);

        lines.next(); // empty line, at end of each record
    }
}

#[test]
fn test_f_128_known_vector() {
    let x = [0xff00ff00u32; 8];
    let z = f_128(&x);
    let expected = [
        0xfe02fc02fe010000u64,
        0xfe02fc02fe010000,
        0xfe02fc02fe010000,
        0xfe02fc02fe010000,
        0xfa0ee81aee090000,
        0xfa0ee81aee090000,
        0xfa0ee81aee090000,
        0xfa0ee81aee090000,
    ];
    assert_eq!(z, expected);
}

#[test]
fn test_determinism_repeated_calls() {
    let key: Vec<u8> = (0..96).map(|i: usize| (i as u8).wrapping_mul(37).wrapping_add(11)).collect();
    let msg: Vec<u8> = (0..96).map(|i: usize| (i as u8).wrapping_mul(101).wrapping_add(5)).collect();

    let mut dig1 = [0u8; DIGEST_SIZE];
    let mut dig2 = [0u8; DIGEST_SIZE];
    multimixer_128(&key, &msg, &mut dig1);
    multimixer_128(&key, &msg, &mut dig2);
    assert_eq!(dig1, dig2);
}

#[test]
fn test_bit_flip_changes_digest() {
    let key: Vec<u8> = (0..64).map(|i: usize| (i as u8).wrapping_mul(53).wrapping_add(3)).collect();
    let msg: Vec<u8> = (0..64).map(|i: usize| (i as u8).wrapping_mul(29).wrapping_add(17)).collect();

    let mut base = [0u8; DIGEST_SIZE];
    multimixer_128(&key, &msg, &mut base);

    let mut flipped_key = key.clone();
    flipped_key[5] ^= 0x10;
    let mut dig_key = [0u8; DIGEST_SIZE];
    multimixer_128(&flipped_key, &msg, &mut dig_key);
    assert_ne!(base, dig_key);

    let mut flipped_msg = msg.clone();
    flipped_msg[40] ^= 0x01;
    let mut dig_msg = [0u8; DIGEST_SIZE];
    multimixer_128(&key, &flipped_msg, &mut dig_msg);
    assert_ne!(base, dig_msg);
}

#[test]
fn test_block_count_scaling() {
    for &blocks in &[1usize, 2, 4, 8] {
        let len = blocks * BLOCK_SIZE;
        let key: Vec<u8> = (0..len).map(|i| (i as u8).wrapping_mul(31).wrapping_add(7)).collect();
        let msg: Vec<u8> = (0..len).map(|i| (i as u8).wrapping_mul(73).wrapping_add(41)).collect();

        // The accumulator must equal the direct modular sum of each
        // block's independently computed mixer output.
        let mut acc = [0u64; 8];
        for b in 0..blocks {
            let mut key_block = [0u8; 32];
            key_block.copy_from_slice(&key[b * 32..b * 32 + 32]);
            let mut msg_block = [0u8; 32];
            msg_block.copy_from_slice(&msg[b * 32..b * 32 + 32]);

            let key_words = get_data_block(&key_block);
            let msg_words = get_data_block(&msg_block);
            let mut x = [0u32; 8];
            for i in 0..8 {
                x[i] = key_words[i].wrapping_add(msg_words[i]);
            }
            let z = f_128(&x);
            for i in 0..8 {
                acc[i] = acc[i].wrapping_add(z[i]);
            }
        }
        let mut expected = [0u8; DIGEST_SIZE];
        for i in 0..8 {
            expected[i * 8..i * 8 + 8].copy_from_slice(&acc[i].to_le_bytes());
        }

        let mut dig = [0u8; DIGEST_SIZE];
        multimixer_128(&key, &msg, &mut dig);
        assert_eq!(dig, expected);
    }
}

#[test]
fn test_endianness_round_trip() {
    let mut block = [0u8; BLOCK_SIZE];
    for i in 0..BLOCK_SIZE {
        block[i] = (i as u8) + 1;
    }

    let words = get_data_block(&block);
    let expected = [
        0x04030201u32,
        0x08070605,
        0x0c0b0a09,
        0x100f0e0d,
        0x14131211,
        0x18171615,
        0x1c1b1a19,
        0x201f1e1d,
    ];
    assert_eq!(words, expected);

    // Re-serializing the decoded words little-endian restores the block.
    let mut rebuilt = [0u8; BLOCK_SIZE];
    for i in 0..8 {
        rebuilt[i * 4..i * 4 + 4].copy_from_slice(&words[i].to_le_bytes());
    }
    assert_eq!(rebuilt, block);
}

#[test]
fn test_checked_matches_unchecked_on_valid_input() {
    let key: Vec<u8> = (0..32).map(|i: usize| i as u8).collect();
    let msg: Vec<u8> = (0..32).map(|i: usize| (i as u8).wrapping_mul(3)).collect();

    let mut dig_checked = [0u8; DIGEST_SIZE];
    let result = multimixer_128_checked(&key, &msg, &mut dig_checked);
    assert_eq!(result, Ok(()));

    let mut dig_plain = [0u8; DIGEST_SIZE];
    multimixer_128(&key, &msg, &mut dig_plain);
    assert_eq!(dig_checked, dig_plain);
}
