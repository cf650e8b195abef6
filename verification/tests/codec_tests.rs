use escrow::accounts::EscrowAccount;
use escrow::codec::{decode_record, encode_record, RECORD_LEN};
use escrow::identity::Identity;

fn sample() -> EscrowAccount {
    EscrowAccount {
        initializer_key: Identity::new(1, 2, 3, 4),
        initializer_deposit_token_account: Identity::new(5, 6, 7, 8),
        initializer_receive_wallet_account: Identity::new(9, 10, 11, 12),
        initializer_amount: 100,
        taker_amount: 5,
    }
}

#[test]
fn record_encodes_to_112_bytes() {
    assert_eq!(RECORD_LEN, 112);
    assert_eq!(encode_record(&sample()).len(), 112);
}

#[test]
fn encoding_is_little_endian_field_by_field() {
    let bytes = encode_record(&sample());
    // first identifier word: 1, little-endian
    assert_eq!(&bytes[0..8], &[1, 0, 0, 0, 0, 0, 0, 0]);
    // second word of the first identifier: 2
    assert_eq!(&bytes[8..16], &[2, 0, 0, 0, 0, 0, 0, 0]);
    // the deposit holding reference starts at byte 32
    assert_eq!(&bytes[32..40], &[5, 0, 0, 0, 0, 0, 0, 0]);
    // the payout reference starts at byte 64
    assert_eq!(&bytes[64..72], &[9, 0, 0, 0, 0, 0, 0, 0]);
    // offered amount at byte 96, requested amount at byte 104
    assert_eq!(&bytes[96..104], &[100, 0, 0, 0, 0, 0, 0, 0]);
    assert_eq!(&bytes[104..112], &[5, 0, 0, 0, 0, 0, 0, 0]);
}

#[test]
fn multi_byte_words_encode_little_endian() {
    let mut r = sample();
    r.initializer_amount = 0x0102030405060708;
    let bytes = encode_record(&r);
    assert_eq!(&bytes[96..104], &[8, 7, 6, 5, 4, 3, 2, 1]);
}

#[test]
fn decode_inverts_encode() {
    let r = EscrowAccount {
        initializer_key: Identity::new(
            u64::MAX,
            0x1122334455667788,
            0,
            9_876_543_210_123_456_789,
        ),
        initializer_deposit_token_account: Identity::new(13, 14, 15, 16),
        initializer_receive_wallet_account: Identity::new(17, 18, 19, 20),
        initializer_amount: u64::MAX,
        taker_amount: 0,
    };
    let bytes = encode_record(&r);
    assert_eq!(decode_record(&bytes), Some(r));
}

#[test]
fn decode_rejects_wrong_length() {
    let mut bytes = encode_record(&sample());
    bytes.push(0);
    assert_eq!(decode_record(&bytes), None);
    assert_eq!(decode_record(&Vec::new()), None);
    assert_eq!(decode_record(&vec![0u8; 111]), None);
}

#[test]
fn decode_reads_any_112_bytes_back_to_their_record() {
    let mut bytes = vec![0u8; 112];
    bytes[0] = 3;
    bytes[39] = 1;
    bytes[96] = 200;
    bytes[111] = 0xff;
    let rec = decode_record(&bytes).expect("112 bytes must decode");
    assert_eq!(rec.initializer_key, Identity::new(3, 0, 0, 0));
    assert_eq!(rec.initializer_deposit_token_account, Identity::new(1 << 56, 0, 0, 0));
    assert_eq!(rec.initializer_amount, 200);
    assert_eq!(rec.taker_amount, 0xff << 56);
    // and the record re-encodes to the same bytes
    assert_eq!(encode_record(&rec), bytes);
}
