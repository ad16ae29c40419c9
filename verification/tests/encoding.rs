use abi_returns::EncodableReturnType;

use alloy_sol_types::SolType;

fn word(tail: &[u8]) -> Vec<u8> {
    let mut w = vec![0u8; 32 - tail.len()];
    w.extend_from_slice(tail);
    w
}

#[test]
fn encode_u64_is_one_big_endian_word() {
    let r = 5u64.encode();
    let mut expected = vec![0u8; 32];
    expected[31] = 5;
    assert_eq!(r, Ok(expected));

    let r = 0x0102030405060708u64.encode();
    assert_eq!(r, Ok(word(&[1, 2, 3, 4, 5, 6, 7, 8])));
}

#[test]
fn encode_u64_max() {
    let r = u64::MAX.encode();
    assert_eq!(r, Ok(word(&[0xff; 8])));
}

#[test]
fn encode_bool_words() {
    assert_eq!(true.encode(), Ok(word(&[1])));
    assert_eq!(false.encode(), Ok(vec![0u8; 32]));
}

#[test]
fn encode_unit_is_empty() {
    assert_eq!(().encode(), Ok(Vec::new()));
}

#[test]
fn encode_pair_concatenates_member_words() {
    let r = (7u64, true).encode();
    let mut expected = word(&[7]);
    expected.extend_from_slice(&word(&[1]));
    assert_eq!(r, Ok(expected));
}

#[test]
fn encode_array_offset_length_elements() {
    let r = vec![1u64, 2u64].encode();
    let mut expected = word(&[0x20]);
    expected.extend_from_slice(&word(&[2]));
    expected.extend_from_slice(&word(&[1]));
    expected.extend_from_slice(&word(&[2]));
    assert_eq!(r, Ok(expected));
}

#[test]
fn encode_empty_array() {
    let r = Vec::<u64>::new().encode();
    let mut expected = word(&[0x20]);
    expected.extend_from_slice(&vec![0u8; 32]);
    assert_eq!(r, Ok(expected));
}

#[test]
fn encode_matches_idl_library() {
    let enc = 42u64.encode().unwrap();
    let direct = <alloy_sol_types::sol_data::Uint<64> as SolType>::abi_encode(&42u64);
    assert_eq!(enc, direct);

    let enc = vec![3u64, 9u64, 27u64].encode().unwrap();
    let direct = <alloy_sol_types::sol_data::Array<alloy_sol_types::sol_data::Uint<64>> as SolType>::abi_encode(&vec![3u64, 9u64, 27u64]);
    assert_eq!(enc, direct);
}

#[test]
fn encode_ok_delegates_exactly() {
    let plain = 99u64.encode();
    let fallible = Ok::<u64, Vec<u8>>(99u64).encode();
    assert_eq!(plain, fallible);

    let plain = (3u64, false).encode();
    let fallible = Ok::<(u64, bool), Vec<u8>>((3u64, false)).encode();
    assert_eq!(plain, fallible);
}

#[test]
fn encode_err_passes_bytes_verbatim() {
    let r = Err::<u64, Vec<u8>>(vec![9, 8, 7]).encode();
    assert_eq!(r, Err(vec![9, 8, 7]));

    let r = Err::<u64, Vec<u8>>(Vec::new()).encode();
    assert_eq!(r, Err(Vec::new()));
}

#[test]
fn encode_err_string_is_its_utf8_bytes() {
    let r = Err::<bool, String>(String::from("boom")).encode();
    assert_eq!(r, Err(b"boom".to_vec()));
}

#[test]
fn round_trip_scalar() {
    let enc = 123456789u64.encode().unwrap();
    let back = <alloy_sol_types::sol_data::Uint<64> as SolType>::abi_decode(&enc).unwrap();
    assert_eq!(back, 123456789u64);

    let enc = true.encode().unwrap();
    let back = <alloy_sol_types::sol_data::Bool as SolType>::abi_decode(&enc).unwrap();
    assert!(back);
}

#[test]
fn round_trip_tuple() {
    let enc = (17u64, true).encode().unwrap();
    let back = <(alloy_sol_types::sol_data::Uint<64>, alloy_sol_types::sol_data::Bool) as SolType>::abi_decode(&enc).unwrap();
    assert_eq!(back, (17u64, true));
}

#[test]
fn round_trip_array() {
    let v = vec![0u64, 1, u64::MAX, 42];
    let enc = v.clone().encode().unwrap();
    let back = <alloy_sol_types::sol_data::Array<alloy_sol_types::sol_data::Uint<64>> as SolType>::abi_decode(&enc).unwrap();
    assert_eq!(back, v);
}
