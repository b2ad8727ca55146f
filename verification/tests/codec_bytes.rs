use proposal_router::codec::decode_operation;
use proposal_router::codec::encode_operation;
use proposal_router::Operation;

#[test]
fn transfer_encodes_to_tagged_little_endian_bytes() {
    let op = Operation::Transfer { dest: 1, value: 1_000 };
    let bytes = encode_operation(&op);
    let mut expected: Vec<u8> = vec![0];
    expected.extend_from_slice(&[1, 0, 0, 0, 0, 0, 0, 0]);
    expected.extend_from_slice(&[0xe8, 0x03, 0, 0, 0, 0, 0, 0, 0, 0, 0, 0, 0, 0, 0, 0]);
    assert_eq!(bytes, expected);
}

#[test]
fn noop_encodes_to_its_tag_alone() {
    assert_eq!(encode_operation(&Operation::Noop), vec![1]);
}

#[test]
fn operations_round_trip_through_the_wire_format() {
    let ops = [
        Operation::Transfer { dest: 0, value: 0 },
        Operation::Transfer { dest: u64::MAX, value: u128::MAX },
        Operation::Transfer { dest: 0xdead_beef, value: 42 },
        Operation::Noop,
    ];
    for op in ops {
        let bytes = encode_operation(&op);
        assert_eq!(decode_operation(&bytes), Some(op));
    }
}

#[test]
fn malformed_bytes_decode_to_nothing() {
    // Empty input.
    assert_eq!(decode_operation(&vec![]), None);
    // Unknown tag.
    assert_eq!(decode_operation(&vec![2]), None);
    // A transfer tag with a truncated payload.
    assert_eq!(decode_operation(&vec![0, 1, 2, 3]), None);
    // A transfer with one trailing byte: the format is exact.
    let mut padded = encode_operation(&Operation::Transfer { dest: 1, value: 1 });
    padded.push(0);
    assert_eq!(decode_operation(&padded), None);
    // A no-op with a trailing byte.
    assert_eq!(decode_operation(&vec![1, 0]), None);
}

#[test]
fn decoded_values_read_bytes_little_endian() {
    let mut bytes: Vec<u8> = vec![0];
    bytes.extend_from_slice(&[0x01, 0x02, 0, 0, 0, 0, 0, 0]);
    bytes.extend_from_slice(&[0xff, 0, 0, 0, 0, 0, 0, 0, 0, 0, 0, 0, 0, 0, 0, 0x01]);
    let op = decode_operation(&bytes).unwrap();
    assert_eq!(
        op,
        Operation::Transfer { dest: 0x0201, value: (1u128 << 120) + 0xff }
    );
}
