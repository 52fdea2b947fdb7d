use base64::Engine;
use paladin_sol_stake_view_program::client::{
    decode_return_data_base64, GetStakeActivatingAndDeactivatingReturnData as ClientData,
    ReturnDataError,
};
use paladin_sol_stake_view_program::state::{
    GetStakeActivatingAndDeactivatingReturnData as ProgramData, RETURN_DATA_LEN,
};

fn key(byte: u8) -> [u8; 32] {
    let mut k = [0u8; 32];
    for (i, b) in k.iter_mut().enumerate() {
        *b = byte.wrapping_add(i as u8);
    }
    k
}

fn sample() -> ProgramData {
    ProgramData {
        staker: key(1),
        withdrawer: key(40),
        delegated_vote: key(80),
        effective: 1_000_000_000,
        activating: 0x0102_0304_0506_0708,
        deactivating: u64::MAX,
    }
}

#[test]
fn default_program_record_is_all_zero_bytes() {
    let bytes = ProgramData::default().to_bytes();
    assert_eq!(bytes, vec![0u8; RETURN_DATA_LEN]);
}

#[test]
fn program_record_layout_is_fields_in_order_little_endian() {
    let data = sample();
    let bytes = data.to_bytes();
    let mut expected = Vec::new();
    expected.extend_from_slice(&data.staker);
    expected.extend_from_slice(&data.withdrawer);
    expected.extend_from_slice(&data.delegated_vote);
    expected.extend_from_slice(&data.effective.to_le_bytes());
    expected.extend_from_slice(&data.activating.to_le_bytes());
    expected.extend_from_slice(&data.deactivating.to_le_bytes());
    assert_eq!(bytes.len(), 120);
    assert_eq!(bytes, expected);
    assert_eq!(&bytes[104..112], &[8, 7, 6, 5, 4, 3, 2, 1]);
}

#[test]
fn client_reads_what_program_wrote() {
    let data = sample();
    let read = ClientData::try_from_bytes(&data.to_bytes()).unwrap();
    assert_eq!(
        read,
        ClientData {
            staker: Some(key(1)),
            withdrawer: Some(key(40)),
            delegated_vote: Some(key(80)),
            effective: 1_000_000_000,
            activating: 0x0102_0304_0506_0708,
            deactivating: u64::MAX,
        }
    );
}

#[test]
fn client_reads_zero_addresses_as_none() {
    let mut data = sample();
    data.delegated_vote = [0u8; 32];
    data.staker = [0u8; 32];
    let read = ClientData::try_from_bytes(&data.to_bytes()).unwrap();
    assert_eq!(read.staker, None);
    assert_eq!(read.withdrawer, Some(key(40)));
    assert_eq!(read.delegated_vote, None);
}

#[test]
fn client_reads_default_record_as_default() {
    let read = ClientData::try_from_bytes(&ProgramData::default().to_bytes()).unwrap();
    assert_eq!(read, ClientData::default());
    assert_eq!(ClientData::default().staker, None);
    assert_eq!(ClientData::default().effective, 0);
}

#[test]
fn client_refuses_wrong_sizes() {
    let bytes = sample().to_bytes();
    assert_eq!(
        ClientData::try_from_bytes(&bytes[..119]),
        Err(ReturnDataError::SizeMismatch)
    );
    let mut longer = bytes.clone();
    longer.push(0);
    assert_eq!(
        ClientData::try_from_bytes(&longer),
        Err(ReturnDataError::SizeMismatch)
    );
    assert_eq!(ClientData::try_from_bytes(&[]), Err(ReturnDataError::SizeMismatch));
}

#[test]
fn base64_return_data_decodes_to_record() {
    let bytes = sample().to_bytes();
    let encoded = base64::prelude::BASE64_STANDARD.encode(&bytes);
    let read = decode_return_data_base64(&encoded).unwrap();
    assert_eq!(read, ClientData::try_from_bytes(&bytes).unwrap());
    assert_eq!(read.effective, 1_000_000_000);
}

#[test]
fn invalid_base64_is_refused() {
    assert_eq!(
        decode_return_data_base64("not base64!"),
        Err(ReturnDataError::InvalidBase64)
    );
}

#[test]
fn base64_of_wrong_size_is_refused() {
    assert_eq!(
        decode_return_data_base64("AAAA"),
        Err(ReturnDataError::SizeMismatch)
    );
}
