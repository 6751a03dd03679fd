use ed25519_offsets::wire::{PUBLIC_KEY_LEN, SIGNATURE_LEN};
use ed25519_offsets::{DecodeError, Ed25519Signature, Ed25519SignatureOffsets, PublicKey};

fn offsets(sig: u16, key: u16, msg: u16, size: u16) -> Ed25519SignatureOffsets {
    Ed25519SignatureOffsets {
        signature_offset: sig,
        signature_instruction_index: 0,
        public_key_offset: key,
        public_key_instruction_index: 0,
        message_data_offset: msg,
        message_data_size: size,
        message_instruction_index: 0,
    }
}

fn buffer(len: usize) -> Vec<u8> {
    (0..len).map(|i| (i * 7 + 3) as u8).collect()
}

#[test]
fn key_and_signature_sizes() {
    assert_eq!(PUBLIC_KEY_LEN, 32);
    assert_eq!(SIGNATURE_LEN, 64);
}

#[test]
fn signer_is_the_32_bytes_at_the_key_offset() {
    let data = buffer(200);
    let key = offsets(0, 70, 0, 0).get_signer(&data).unwrap();
    assert_eq!(&key.0[..], &data[70..102]);
}

#[test]
fn signature_is_the_64_bytes_at_the_signature_offset() {
    let data = buffer(200);
    let signature = offsets(5, 0, 0, 0).get_signature(&data).unwrap();
    assert_eq!(&signature[..], &data[5..69]);
}

#[test]
fn message_is_the_sized_range_at_the_message_offset() {
    let data = buffer(200);
    let message = offsets(0, 0, 102, 5).get_data(&data).unwrap();
    assert_eq!(message, data[102..107].to_vec());
}

#[test]
fn message_is_an_independent_copy() {
    let mut data = buffer(50);
    let message = offsets(0, 0, 10, 4).get_data(&data).unwrap();
    let before = data[10..14].to_vec();
    data[10] = data[10].wrapping_add(1);
    assert_eq!(message, before);
}

#[test]
fn empty_message_is_allowed_up_to_the_end_of_the_buffer() {
    let data = buffer(20);
    assert_eq!(offsets(0, 0, 0, 0).get_data(&data), Ok(vec![]));
    assert_eq!(offsets(0, 0, 20, 0).get_data(&data), Ok(vec![]));
    assert_eq!(offsets(0, 0, 21, 0).get_data(&data), Err(DecodeError::OutOfRange));
    assert_eq!(offsets(0, 0, 0, 0).get_data(&[]), Ok(vec![]));
}

#[test]
fn ranges_may_end_exactly_at_the_end_of_the_buffer() {
    let data = buffer(100);
    let r = offsets(36, 68, 90, 10);
    assert_eq!(&r.get_signature(&data).unwrap()[..], &data[36..100]);
    assert_eq!(&r.get_signer(&data).unwrap().0[..], &data[68..100]);
    assert_eq!(r.get_data(&data).unwrap(), data[90..100].to_vec());
}

#[test]
fn signer_past_the_end_is_out_of_range() {
    let data = buffer(100);
    assert_eq!(offsets(0, 69, 0, 0).get_signer(&data), Err(DecodeError::OutOfRange));
    assert_eq!(offsets(0, 100, 0, 0).get_signer(&data), Err(DecodeError::OutOfRange));
    assert_eq!(offsets(0, u16::MAX, 0, 0).get_signer(&data), Err(DecodeError::OutOfRange));
    assert_eq!(offsets(0, 0, 0, 0).get_signer(&data[..31]), Err(DecodeError::OutOfRange));
    assert_eq!(offsets(0, 0, 0, 0).get_signer(&[]), Err(DecodeError::OutOfRange));
}

#[test]
fn signature_past_the_end_is_out_of_range() {
    let data = buffer(100);
    assert_eq!(offsets(37, 0, 0, 0).get_signature(&data), Err(DecodeError::OutOfRange));
    assert_eq!(offsets(u16::MAX, 0, 0, 0).get_signature(&data), Err(DecodeError::OutOfRange));
    assert_eq!(offsets(0, 0, 0, 0).get_signature(&data[..63]), Err(DecodeError::OutOfRange));
}

#[test]
fn message_past_the_end_is_out_of_range() {
    let data = buffer(100);
    assert_eq!(offsets(0, 0, 96, 5).get_data(&data), Err(DecodeError::OutOfRange));
    assert_eq!(offsets(0, 0, 0, 101).get_data(&data), Err(DecodeError::OutOfRange));
    assert_eq!(offsets(0, 0, 100, 1).get_data(&data), Err(DecodeError::OutOfRange));
    assert_eq!(
        offsets(0, 0, u16::MAX, u16::MAX).get_data(&data),
        Err(DecodeError::OutOfRange)
    );
}

#[test]
fn each_range_is_checked_on_its_own() {
    let data = buffer(50);
    let r = offsets(0, 10, 45, 5);
    assert_eq!(r.get_signature(&data), Err(DecodeError::OutOfRange));
    assert_eq!(r.get_signer(&data), Ok(PublicKey(data[10..42].try_into().unwrap())));
    assert_eq!(r.get_data(&data), Ok(data[45..50].to_vec()));
}

#[test]
fn ranges_may_overlap() {
    let data = buffer(64);
    let r = offsets(0, 0, 0, 64);
    assert_eq!(&r.get_signature(&data).unwrap()[..], &data[..]);
    assert_eq!(&r.get_signer(&data).unwrap().0[..], &data[..32]);
    assert_eq!(r.get_data(&data).unwrap(), data);
}

#[test]
fn out_of_range_differs_from_truncated() {
    assert_ne!(DecodeError::OutOfRange, DecodeError::Truncated);
    let data = buffer(10);
    assert_eq!(offsets(0, 0, 0, 11).get_data(&data), Err(DecodeError::OutOfRange));
    assert_eq!(Ed25519Signature::decode(&[1, 0]), Err(DecodeError::Truncated));
}

#[test]
fn one_record_scenario_extracts_key_and_message() {
    let table_bytes = [
        0x01, 0x00, 0x02, 0x00, 0x00, 0x00, 0x46, 0x00, 0x00, 0x00, 0x66, 0x00, 0x05, 0x00,
        0x00, 0x00,
    ];
    let mut data = vec![0u8; 128];
    for i in 0..32 {
        data[70 + i] = 0xa0 + i as u8;
    }
    let message = [b'h', b'e', b'l', b'l', b'o'];
    data[102..107].copy_from_slice(&message);

    let table = Ed25519Signature::decode(&table_bytes).unwrap();
    assert_eq!(table.offsets().len(), 1);
    let record = table.offsets()[0];

    let key = record.get_signer(&data).unwrap();
    let expected_key: Vec<u8> = (0..32).map(|i| 0xa0 + i as u8).collect();
    assert_eq!(key.0.to_vec(), expected_key);
    assert_eq!(record.get_data(&data).unwrap(), message.to_vec());
    assert_eq!(&record.get_signature(&data).unwrap()[..], &data[2..66]);
}
