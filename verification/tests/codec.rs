use advanca::advanca::primitives::{Enclave, Encoded, User};
use advanca::codec::{from_bytes, to_bytes, try_to_bytes, Decode, Encode};
use advanca::frame::balances::Status;
use advanca::primitives::{take_id, AccountId32, FixedBytes, H256};
use advanca::scale::{compact_len, decode_len, encode_len};

fn id(first: u8) -> [u8; 32] {
    let mut bytes = [0u8; 32];
    for (i, b) in bytes.iter_mut().enumerate() {
        *b = first.wrapping_add(i as u8);
    }
    bytes
}

#[test]
fn u8_is_one_byte() {
    assert_eq!(to_bytes(&0xabu8), vec![0xab]);
    assert_eq!(from_bytes::<u8>(&[0xab]), Some(0xab));
    assert_eq!(from_bytes::<u8>(&[]), None);
    assert_eq!(from_bytes::<u8>(&[1, 2]), None);
}

#[test]
fn u32_is_four_bytes_little_endian() {
    assert_eq!(to_bytes(&7u32), vec![7, 0, 0, 0]);
    assert_eq!(to_bytes(&0x0102_0304u32), vec![4, 3, 2, 1]);
    assert_eq!(to_bytes(&u32::MAX), vec![0xff; 4]);
    assert_eq!(from_bytes::<u32>(&[4, 3, 2, 1]), Some(0x0102_0304));
    assert_eq!(u32::decode(&[4, 3, 2, 1, 9, 9]), Some((0x0102_0304, 4)));
}

#[test]
fn u32_rejects_short_and_long_input() {
    assert_eq!(from_bytes::<u32>(&[1, 2, 3]), None);
    assert_eq!(from_bytes::<u32>(&[]), None);
    assert_eq!(from_bytes::<u32>(&[1, 2, 3, 4, 5]), None);
    assert_eq!(u32::decode(&[1, 2, 3]), None);
}

#[test]
fn u128_is_sixteen_bytes_little_endian() {
    let mut expected = vec![0x10, 0x27];
    expected.extend_from_slice(&[0u8; 14]);
    assert_eq!(to_bytes(&10_000u128), expected);
    let mut transfer = vec![0x00, 0xe4, 0x0b, 0x54, 0x02];
    transfer.extend_from_slice(&[0u8; 11]);
    assert_eq!(to_bytes(&10_000_000_000u128), transfer);
    assert_eq!(from_bytes::<u128>(&transfer), Some(10_000_000_000));
    assert_eq!(to_bytes(&u128::MAX), vec![0xff; 16]);
    assert_eq!(from_bytes::<u128>(&[0xff; 16]), Some(u128::MAX));
    assert_eq!(from_bytes::<u128>(&[0xff; 15]), None);
}

#[test]
fn integers_agree_with_the_codec_crate() {
    for v in [0u32, 1, 255, 256, 65_535, 65_536, 0xdead_beef, u32::MAX] {
        assert_eq!(to_bytes(&v), parity_scale_codec::Encode::encode(&v));
    }
    for v in [0u128, 1, 10_000, 10_000_000_000, 1 << 64, u128::MAX] {
        assert_eq!(to_bytes(&v), parity_scale_codec::Encode::encode(&v));
    }
}

#[test]
fn byte_strings_carry_a_compact_length() {
    assert_eq!(to_bytes(&Vec::<u8>::new()), vec![0]);
    assert_eq!(to_bytes(&"alice".as_bytes().to_vec()), vec![20, b'a', b'l', b'i', b'c', b'e']);
    let sixty_three = vec![7u8; 63];
    let bytes = to_bytes(&sixty_three);
    assert_eq!(bytes[0], 252);
    assert_eq!(bytes.len(), 64);
    let sixty_four = vec![7u8; 64];
    let bytes = to_bytes(&sixty_four);
    assert_eq!(&bytes[..2], &[0x01, 0x01]);
    assert_eq!(bytes.len(), 66);
    let largest_two = vec![1u8; 16_383];
    let bytes = to_bytes(&largest_two);
    assert_eq!(&bytes[..2], &[0xfd, 0xff]);
    assert_eq!(bytes.len(), 16_385);
    let smallest_four = vec![1u8; 16_384];
    let bytes = to_bytes(&smallest_four);
    assert_eq!(&bytes[..4], &[0x02, 0x00, 0x01, 0x00]);
    assert_eq!(bytes.len(), 16_388);
}

#[test]
fn byte_strings_round_trip() {
    for n in [0usize, 1, 5, 63, 64, 65, 300, 16_383, 16_384, 20_000] {
        let v: Vec<u8> = (0..n).map(|i| (i % 251) as u8).collect();
        let bytes = to_bytes(&v);
        assert_eq!(bytes, parity_scale_codec::Encode::encode(&v));
        assert_eq!(from_bytes::<Vec<u8>>(&bytes), Some(v));
    }
}

#[test]
fn compact_len_counts_the_prefix() {
    assert_eq!(compact_len(0), 1);
    assert_eq!(compact_len(63), 1);
    assert_eq!(compact_len(64), 2);
    assert_eq!(compact_len(16_383), 2);
    assert_eq!(compact_len(16_384), 4);
    assert_eq!(compact_len(0x3fff_ffff), 4);
    assert_eq!(compact_len(0x4000_0000), 5);
    assert_eq!(compact_len(u32::MAX), 5);
}

#[test]
fn only_the_shortest_length_prefix_is_accepted() {
    // 0 in the two-byte form, 1 in the four-byte form, 5 in the five-byte form
    assert_eq!(from_bytes::<Vec<u8>>(&[0x01, 0x00]), None);
    assert_eq!(from_bytes::<Vec<u8>>(&[0x06, 0x00, 0x00, 0x00, 9]), None);
    assert_eq!(from_bytes::<Vec<u8>>(&[0x03, 5, 0, 0, 0, 1, 2, 3, 4, 5]), None);
    // a first byte that announces more than four more bytes
    assert_eq!(from_bytes::<Vec<u8>>(&[0x07, 1, 0, 0, 0, 0]), None);
}

#[test]
fn truncated_byte_strings_are_rejected() {
    assert_eq!(from_bytes::<Vec<u8>>(&[]), None);
    assert_eq!(from_bytes::<Vec<u8>>(&[20, b'a', b'l', b'i', b'c']), None);
    assert_eq!(from_bytes::<Vec<u8>>(&[0x01]), None);
    assert_eq!(from_bytes::<Vec<u8>>(&[0x02, 0x00, 0x01]), None);
    // the largest length, with no bytes behind it
    assert_eq!(from_bytes::<Vec<u8>>(&[0x03, 0xff, 0xff, 0xff, 0xff]), None);
}

#[test]
fn trailing_bytes_are_rejected() {
    assert_eq!(from_bytes::<Vec<u8>>(&[4, 1, 2]), None);
    assert_eq!(Vec::<u8>::decode(&[4, 1, 2]), Some((vec![1], 2)));
}

#[test]
fn nested_sequences() {
    let v: Vec<Vec<u8>> = vec![vec![1], vec![2, 3]];
    let bytes = to_bytes(&v);
    assert_eq!(bytes, vec![8, 4, 1, 8, 2, 3]);
    assert_eq!(bytes, parity_scale_codec::Encode::encode(&v));
    assert_eq!(from_bytes::<Vec<Vec<u8>>>(&bytes), Some(v));
    assert_eq!(from_bytes::<Vec<Vec<u8>>>(&[8, 4, 1, 8, 2]), None);
    assert_eq!(from_bytes::<Vec<Vec<u8>>>(&[0]), Some(vec![]));
}

#[test]
fn sequences_of_hashes() {
    let v = vec![H256(id(1)), H256(id(100))];
    let bytes = to_bytes(&v);
    let mut expected = vec![8u8];
    expected.extend_from_slice(&id(1));
    expected.extend_from_slice(&id(100));
    assert_eq!(bytes, expected);
    assert_eq!(from_bytes::<Vec<H256>>(&bytes), Some(v));
}

#[test]
fn identifiers_are_their_bytes() {
    let hash = H256(id(3));
    assert_eq!(to_bytes(&hash), id(3).to_vec());
    assert_eq!(from_bytes::<H256>(&id(3)), Some(hash));
    let account = AccountId32(id(9));
    assert_eq!(to_bytes(&account), id(9).to_vec());
    assert_eq!(from_bytes::<AccountId32>(&id(9)), Some(account));
    assert_eq!(from_bytes::<AccountId32>(&id(9)[..31]), None);
    assert_eq!(from_bytes::<H256>(&[0u8; 33]), None);
    assert_eq!(H256::decode(&[5u8; 40]), Some((H256([5u8; 32]), 32)));
}

#[test]
fn pairs_and_triples_are_concatenations() {
    let pair = (7u32, "ab".as_bytes().to_vec());
    assert_eq!(to_bytes(&pair), vec![7, 0, 0, 0, 8, b'a', b'b']);
    assert_eq!(from_bytes::<(u32, Vec<u8>)>(&[7, 0, 0, 0, 8, b'a', b'b']), Some(pair));
    let triple = (1u8, 2u32, 3u8);
    assert_eq!(to_bytes(&triple), vec![1, 2, 0, 0, 0, 3]);
    assert_eq!(from_bytes::<(u8, u32, u8)>(&[1, 2, 0, 0, 0, 3]), Some(triple));
    assert_eq!(from_bytes::<(u8, u32, u8)>(&[1, 2, 0, 0, 0]), None);
    assert_eq!(to_bytes(&()), Vec::<u8>::new());
    assert_eq!(from_bytes::<()>(&[]), Some(()));
    assert_eq!(from_bytes::<()>(&[0]), None);
}

#[test]
fn status_is_one_byte() {
    assert_eq!(to_bytes(&Status::Free), vec![0]);
    assert_eq!(to_bytes(&Status::Reserved), vec![1]);
    assert_eq!(from_bytes::<Status>(&[0]), Some(Status::Free));
    assert_eq!(from_bytes::<Status>(&[1]), Some(Status::Reserved));
    assert_eq!(from_bytes::<Status>(&[2]), None);
    assert_eq!(from_bytes::<Status>(&[]), None);
}

#[test]
fn user_record_round_trips() {
    let user = User { account_id: AccountId32(id(1)), public_key: "alice".as_bytes().to_vec() };
    let bytes = to_bytes(&user);
    let mut expected = id(1).to_vec();
    expected.push(20);
    expected.extend_from_slice("alice".as_bytes());
    assert_eq!(bytes, expected);
    assert_eq!(from_bytes::<User<AccountId32>>(&bytes), Some(user));
    assert_eq!(from_bytes::<User<AccountId32>>(&bytes[..bytes.len() - 1]), None);
}

#[test]
fn enclave_record_round_trips() {
    let enclave = Enclave {
        account_id: AccountId32(id(2)),
        public_key: "bob".as_bytes().to_vec(),
        attestation: "attestation".as_bytes().to_vec(),
    };
    let bytes = to_bytes(&enclave);
    let mut expected = id(2).to_vec();
    expected.push(12);
    expected.extend_from_slice("bob".as_bytes());
    expected.push(44);
    expected.extend_from_slice("attestation".as_bytes());
    assert_eq!(bytes, expected);
    assert_eq!(from_bytes::<Enclave<AccountId32>>(&bytes), Some(enclave));
}

#[test]
fn encoded_values_go_out_as_they_are() {
    let raw = Encoded { bytes: vec![9, 8, 7] };
    assert_eq!(to_bytes(&raw), vec![9, 8, 7]);
    assert!(raw.encodable());
    let mut out = vec![1u8];
    raw.encode_to(&mut out);
    assert_eq!(out, vec![1, 9, 8, 7]);
}

#[test]
fn try_to_bytes_encodes_what_has_a_byte_form() {
    assert_eq!(try_to_bytes(&5u32), Some(vec![5, 0, 0, 0]));
    assert_eq!(try_to_bytes(&vec![1u8, 2]), Some(vec![8, 1, 2]));
    assert!(vec![vec![1u8], vec![]].encodable());
}

#[test]
fn encode_to_appends() {
    let mut out = vec![0xaa];
    7u32.encode_to(&mut out);
    1u8.encode_to(&mut out);
    vec![3u8].encode_to(&mut out);
    assert_eq!(out, vec![0xaa, 7, 0, 0, 0, 1, 4, 3]);
}

#[test]
fn a_sequence_with_too_many_items_has_no_byte_form() {
    let too_many = vec![(); 0x1_0000_0000];
    assert!(!too_many.encodable());
    assert_eq!(try_to_bytes(&too_many), None);
    assert_eq!(try_to_bytes(&vec![(); 3]), Some(vec![12]));
}


#[test]
fn identifiers_convert_to_and_from_their_bytes() {
    assert_eq!(H256(id(4)).to_fixed_bytes(), id(4));
    assert_eq!(H256::from_fixed_bytes(id(4)), H256(id(4)));
    assert_eq!(AccountId32(id(5)).to_fixed_bytes(), id(5));
    assert_eq!(AccountId32::from_fixed_bytes(id(5)), AccountId32(id(5)));
    assert_eq!(to_bytes(&H256::from_fixed_bytes(id(6))), id(6).to_vec());
}

#[test]
fn take_id_copies_the_first_32_bytes() {
    let mut input = id(1).to_vec();
    assert_eq!(take_id(&input), Some(id(1)));
    input.push(0xff);
    assert_eq!(take_id(&input), Some(id(1)));
    assert_eq!(take_id(&input[..31]), None);
    assert_eq!(take_id(&[]), None);
}

fn outside_compact(input: &[u8]) -> Option<(u32, usize)> {
    let mut rest = input;
    let n = <parity_scale_codec::Compact<u32> as parity_scale_codec::Decode>::decode(&mut rest);
    n.ok().map(|n| (n.0, input.len() - rest.len()))
}

fn compact_of(n: u32) -> Vec<u8> {
    let mut out = Vec::new();
    encode_len(n, &mut out);
    out
}

#[test]
fn length_prefixes_are_read_as_the_codec_crate_reads_them() {
    let tails: [&[u8]; 6] = [
        &[],
        &[0x00],
        &[0x00, 0x00, 0x00],
        &[0xff, 0xff, 0xff],
        &[0x00, 0x01, 0x00, 0x40],
        &[0x34, 0x12, 0xcd, 0xab],
    ];
    assert_eq!(decode_len(&[]), None);
    assert_eq!(outside_compact(&[]), None);
    for first in 0..=255u8 {
        assert_eq!(decode_len(&[first]), outside_compact(&[first]));
        for second in 0..=255u8 {
            for tail in tails {
                let mut input = vec![first, second];
                input.extend_from_slice(tail);
                assert_eq!(decode_len(&input), outside_compact(&input), "{:?}", input);
            }
        }
    }
}

#[test]
fn length_prefixes_are_written_as_the_codec_crate_writes_them() {
    let all = [
        0u32, 1, 62, 63, 64, 65, 255, 256, 16_383, 16_384, 16_385, 65_535, 65_536, 0x3fff_ffff,
        0x4000_0000, 0x4000_0001, 0xffff_fffe, 0xffff_ffff,
    ];
    for n in all {
        let bytes = compact_of(n);
        assert_eq!(bytes, parity_scale_codec::Encode::encode(&parity_scale_codec::Compact(n)));
        assert_eq!(bytes.len(), compact_len(n));
        assert_eq!(decode_len(&bytes), Some((n, bytes.len())));
    }
}

#[test]
fn length_prefix_bytes() {
    assert_eq!(compact_of(0), vec![0x00]);
    assert_eq!(compact_of(1), vec![0x04]);
    assert_eq!(compact_of(63), vec![0xfc]);
    assert_eq!(compact_of(64), vec![0x01, 0x01]);
    assert_eq!(compact_of(16_383), vec![0xfd, 0xff]);
    assert_eq!(compact_of(16_384), vec![0x02, 0x00, 0x01, 0x00]);
    assert_eq!(compact_of(0x3fff_ffff), vec![0xfe, 0xff, 0xff, 0xff]);
    assert_eq!(compact_of(0x4000_0000), vec![0x03, 0x00, 0x00, 0x00, 0x40]);
    assert_eq!(compact_of(u32::MAX), vec![0x03, 0xff, 0xff, 0xff, 0xff]);
    assert_eq!(decode_len(&[0x03, 0x00, 0x00, 0x00, 0x40, 9]), Some((0x4000_0000, 5)));
    assert_eq!(decode_len(&[0x03, 0xff, 0xff, 0xff, 0x3f]), None);
    assert_eq!(decode_len(&[0x03, 0x00, 0x00, 0x00]), None);
    assert_eq!(decode_len(&[0x07, 0x00, 0x00, 0x00, 0x40]), None);
    let mut out = vec![0xaa];
    encode_len(5, &mut out);
    assert_eq!(out, vec![0xaa, 20]);
}
