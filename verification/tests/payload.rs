use tegra_rcm::intermezzo::{INTERMEZZO, INTERMEZZO_LENGTH};
use tegra_rcm::payload::{
    Payload, PayloadError, BLOCK_SIZE, BUILT_PAYLOAD_MAX_LENGTH, CODE_OFFSET, HEADER_LENGTH,
    PADDING_SIZE_1, PADDING_SIZE_2, PAYLOAD_MAX_LENGTH, PAYLOAD_MIN_LENGTH, RCM_PAYLOAD_ADDR,
    REPEAT_COUNT, SPRAY_OFFSET, TAIL_OFFSET,
};

/// The stub, as the words of its listing.
const STUB_WORDS: [u32; 31] = [
    0xe3a00101, 0xe59f1058, 0xe59f2058, 0xe0422001, 0xeb00000e, 0xe3a00101, 0xe12fff10, 0xe1a00000,
    0xe59f0044, 0xe59f1044, 0xe3a02901, 0xeb000007, 0xe59f0034, 0xe3a01901, 0xe0800001, 0xe59f1030,
    0xe59f2030, 0xeb000001, 0xe59f001c, 0xe12fff10, 0xe4913004, 0xe4803004, 0xe2522004, 0x1afffffb,
    0xe12fff1e, 0x40010020, 0x4001007c, 0x40010000, 0x40010e40, 0x40017000, 0x00029000,
];

/// Code of `len` bytes that no two offsets nearby share.
fn sample_code(len: usize) -> Vec<u8> {
    let mut state: u32 = 0x2545_f491;
    let mut code = Vec::with_capacity(len);
    for _ in 0..len {
        state ^= state << 13;
        state ^= state >> 17;
        state ^= state << 5;
        code.push((state >> 11) as u8);
    }
    code
}

/// The image of `code`, laid out region by region into a buffer of zeros.
fn reference_image(code: &[u8]) -> Vec<u8> {
    let unpadded = 680 + 0xe40 + 0x4000 + 0x21c0 + (code.len() - 0x4000);
    let mut image = vec![0u8; (unpadded / 0x1000 + 1) * 0x1000];
    image[0..4].copy_from_slice(&[0x98, 0x02, 0x03, 0x00]);
    for (i, word) in STUB_WORDS.iter().enumerate() {
        image[680 + 4 * i..684 + 4 * i].copy_from_slice(&word.to_le_bytes());
    }
    image[4328..20712].copy_from_slice(&code[..0x4000]);
    for word in 0..2160 {
        image[20712 + 4 * word..20716 + 4 * word].copy_from_slice(&[0x00, 0x00, 0x01, 0x40]);
    }
    image[29352..29352 + code.len() - 0x4000].copy_from_slice(&code[0x4000..]);
    image
}

/// Tests that we generate the same bin as the reference layout
#[test]
fn basic_correctness() {
    let code = sample_code(126_976);
    let correct = reference_image(&code);
    let payload = Payload::new(&code).expect("This should give us a valid payload");

    assert_eq!(payload.data(), correct.as_slice());
}

#[test]
fn reference_for_every_kind_of_length() {
    for len in [16_384, 16_385, 19_799, 19_800, 19_801, 65_536, 100_000, 183_639] {
        let code = sample_code(len);
        let payload = Payload::new(&code).unwrap();
        assert_eq!(payload.data(), reference_image(&code).as_slice(), "length {len}");
    }
}

#[test]
fn constants_have_their_values() {
    assert_eq!(BUILT_PAYLOAD_MAX_LENGTH, 197_272);
    assert_eq!(PAYLOAD_MIN_LENGTH, 16_384);
    assert_eq!(PAYLOAD_MAX_LENGTH, 183_640);
    assert_eq!(HEADER_LENGTH, 680);
    assert_eq!(INTERMEZZO_LENGTH, 124);
    assert_eq!(PADDING_SIZE_1, 3_524);
    assert_eq!(PADDING_SIZE_2, 0x4000);
    assert_eq!(REPEAT_COUNT, 2_160);
    assert_eq!(CODE_OFFSET, 4_328);
    assert_eq!(SPRAY_OFFSET, 20_712);
    assert_eq!(TAIL_OFFSET, 29_352);
    assert_eq!(BLOCK_SIZE, 4_096);
    assert_eq!(RCM_PAYLOAD_ADDR, 0x4001_0000);
}

#[test]
fn stub_is_its_listing() {
    let mut bytes = Vec::new();
    for word in STUB_WORDS {
        bytes.extend(word.to_le_bytes());
    }
    assert_eq!(bytes.len(), 124);
    assert_eq!(INTERMEZZO.as_slice(), bytes.as_slice());
}

#[test]
fn boundary_rejection() {
    let short = vec![0u8; PAYLOAD_MIN_LENGTH - 1];
    assert_eq!(
        Payload::new(&short),
        Err(PayloadError::PayloadTooShort(PAYLOAD_MIN_LENGTH - 1))
    );
    let long = vec![0u8; PAYLOAD_MAX_LENGTH];
    assert_eq!(
        Payload::new(&long),
        Err(PayloadError::PayloadTooLong(PAYLOAD_MAX_LENGTH))
    );
    let least = vec![0u8; PAYLOAD_MIN_LENGTH];
    assert!(Payload::new(&least).is_ok());
    let most = vec![0u8; PAYLOAD_MAX_LENGTH - 1];
    assert!(Payload::new(&most).is_ok());
}

#[test]
fn empty_and_huge_inputs_are_rejected() {
    assert_eq!(Payload::new(&[]), Err(PayloadError::PayloadTooShort(0)));
    let huge = vec![0u8; 1_000_000];
    assert_eq!(Payload::new(&huge), Err(PayloadError::PayloadTooLong(1_000_000)));
}

#[test]
fn length_invariants() {
    for len in [16_384, 16_385, 20_000, 19_800, 50_000, 131_072, 183_639] {
        let payload = Payload::new(&sample_code(len)).unwrap();
        let built = payload.data().len();
        assert!(built > 0);
        assert_eq!(built % 4096, 0);
        assert!(built <= 0x30298);
    }
}

#[test]
fn exact_lengths() {
    assert_eq!(Payload::new(&sample_code(16_384)).unwrap().data().len(), 32_768);
    // 12968 bytes stand around the code: 19800 bytes of code end on a block
    // boundary, and a whole block of zeros follows
    assert_eq!(Payload::new(&sample_code(19_799)).unwrap().data().len(), 32_768);
    assert_eq!(Payload::new(&sample_code(19_800)).unwrap().data().len(), 36_864);
    assert_eq!(Payload::new(&sample_code(19_801)).unwrap().data().len(), 36_864);
    assert_eq!(Payload::new(&sample_code(183_639)).unwrap().data().len(), 196_608);
}

#[test]
fn whole_block_of_zeros_after_aligned_code() {
    let code = vec![0xffu8; 19_800];
    let payload = Payload::new(&code).unwrap();
    let data = payload.data();
    assert_eq!(data[32_767], 0xff);
    assert!(data[32_768..].iter().all(|byte| *byte == 0));
    assert_eq!(data.len() - 32_768, 4_096);
}

#[test]
fn header_holds_the_built_length() {
    let payload = Payload::new(&sample_code(20_000)).unwrap();
    let data = payload.data();
    assert_eq!(&data[0..4], &[0x98, 0x02, 0x03, 0x00]);
    assert_eq!(u32::from_le_bytes([data[0], data[1], data[2], data[3]]), 0x30298);
    assert!(data[4..680].iter().all(|byte| *byte == 0));
}

#[test]
fn stub_stands_at_the_start_of_iram() {
    let payload = Payload::new(&sample_code(20_000)).unwrap();
    let data = payload.data();
    assert_eq!(&data[680..804], INTERMEZZO.as_slice());
    assert!(data[804..4_328].iter().all(|byte| *byte == 0));
}

#[test]
fn stack_spray_content() {
    let payload = Payload::new(&sample_code(70_001)).unwrap();
    let data = payload.data();
    let spray = &data[SPRAY_OFFSET..TAIL_OFFSET];
    assert_eq!(spray.len(), 4 * REPEAT_COUNT);
    let mut words = 0;
    for word in spray.chunks(4) {
        assert_eq!(u32::from_le_bytes([word[0], word[1], word[2], word[3]]), 0x4001_0000);
        words += 1;
    }
    assert_eq!(words, 2_160);
}

#[test]
fn code_stands_on_both_sides_of_the_spray() {
    let code = sample_code(70_001);
    let payload = Payload::new(&code).unwrap();
    let data = payload.data();
    assert_eq!(&data[CODE_OFFSET..SPRAY_OFFSET], &code[..PADDING_SIZE_2]);
    assert_eq!(
        &data[TAIL_OFFSET..TAIL_OFFSET + code.len() - PADDING_SIZE_2],
        &code[PADDING_SIZE_2..]
    );
    assert!(data[TAIL_OFFSET + code.len() - PADDING_SIZE_2..]
        .iter()
        .all(|byte| *byte == 0));
}

#[test]
fn code_of_the_least_length_has_nothing_behind_the_spray() {
    let code = vec![0xabu8; PAYLOAD_MIN_LENGTH];
    let payload = Payload::new(&code).unwrap();
    let data = payload.data();
    assert!(data[TAIL_OFFSET..].iter().all(|byte| *byte == 0));
    assert!(data[CODE_OFFSET..SPRAY_OFFSET].iter().all(|byte| *byte == 0xab));
}

#[test]
fn copies_hold_the_same_bytes() {
    let payload = Payload::new(&sample_code(30_000)).unwrap();
    let copy = payload.clone();
    assert_eq!(copy, payload);
    assert_eq!(copy.data(), payload.data());
}

#[test]
fn payload_error_texts() {
    assert_eq!(
        PayloadError::PayloadTooShort(5).to_string(),
        "Payload invalid size: `5` (expected >= 16384)"
    );
    assert_eq!(
        PayloadError::PayloadTooShort(0).to_string(),
        "Payload invalid size: `0` (expected >= 16384)"
    );
    assert_eq!(
        PayloadError::PayloadTooLong(183_640).to_string(),
        "Payload invalid size: `183640` (expected < 183640)"
    );
    assert_eq!(
        PayloadError::Io("/tmp/missing.bin".to_string()).to_string(),
        "Payload failed to read from file: /tmp/missing.bin"
    );
}

#[test]
fn read_builds_what_was_read() {
    let code = sample_code(40_000);
    assert_eq!(
        Payload::read("hekate.bin", Some(&code)),
        Payload::new(&code)
    );
    assert_eq!(
        Payload::read("small.bin", Some(&[1, 2, 3])),
        Err(PayloadError::PayloadTooShort(3))
    );
}

#[test]
fn unreadable_file_is_reported_with_its_path() {
    assert_eq!(
        Payload::read("/no/such/file.bin", None),
        Err(PayloadError::Io("/no/such/file.bin".to_string()))
    );
}
