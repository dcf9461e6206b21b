use jupiter_swap_api_client::address::{Pubkey, PUBKEY_BYTES};
use jupiter_swap_api_client::error::RequestError;

const NATIVE_MINT: &str = "So11111111111111111111111111111111111111112";
const NATIVE_MINT_BYTES: [u8; 32] = [
    6, 155, 136, 87, 254, 171, 129, 132, 251, 104, 127, 99, 70, 24, 192, 53, 218, 196, 57, 220,
    26, 235, 59, 85, 152, 160, 240, 0, 0, 0, 0, 1,
];

#[test]
fn an_address_has_32_bytes() {
    assert_eq!(PUBKEY_BYTES, 32);
}

#[test]
fn from_bytes_takes_exactly_32_bytes() {
    assert_eq!(Pubkey::from_bytes(&[7u8; 31]), None);
    assert_eq!(Pubkey::from_bytes(&[7u8; 33]), None);
    assert_eq!(Pubkey::from_bytes(&[]), None);
    assert_eq!(Pubkey::from_bytes(&[7u8; 32]), Some(Pubkey { bytes: [7u8; 32] }));
}

#[test]
fn from_bytes_keeps_every_byte_in_place() {
    let address = Pubkey::from_bytes(&NATIVE_MINT_BYTES).unwrap();
    assert_eq!(address.bytes, NATIVE_MINT_BYTES);
}

#[test]
fn parse_decodes_the_system_program() {
    let address = Pubkey::parse("11111111111111111111111111111111").unwrap();
    assert_eq!(address.bytes, [0u8; 32]);
}

#[test]
fn parse_decodes_wrapped_sol() {
    let address = Pubkey::parse(NATIVE_MINT).unwrap();
    assert_eq!(address.bytes, NATIVE_MINT_BYTES);
}

#[test]
fn parse_refuses_a_character_outside_the_alphabet() {
    let text = "So1111111111111111111111111111111111111111O";
    assert_eq!(
        Pubkey::parse(text),
        Err(RequestError::Decode(format!("malformed address: {}", text)))
    );
}

#[test]
fn parse_refuses_text_that_stands_for_too_few_bytes() {
    assert_eq!(
        Pubkey::parse("abc"),
        Err(RequestError::Decode("malformed address: abc".to_string()))
    );
    assert_eq!(
        Pubkey::parse(""),
        Err(RequestError::Decode("malformed address: ".to_string()))
    );
}

#[test]
fn parse_refuses_text_that_stands_for_too_many_bytes() {
    let text = "111111111111111111111111111111111";
    assert_eq!(text.len(), 33);
    assert_eq!(
        Pubkey::parse(text),
        Err(RequestError::Decode(format!("malformed address: {}", text)))
    );
}

#[test]
fn to_base58_writes_the_wire_text() {
    assert_eq!(Pubkey { bytes: [0u8; 32] }.to_base58(), "11111111111111111111111111111111");
    assert_eq!(Pubkey { bytes: NATIVE_MINT_BYTES }.to_base58(), NATIVE_MINT);
}

#[test]
fn parse_reads_back_what_to_base58_wrote() {
    let mut bytes = [0u8; 32];
    for (i, b) in bytes.iter_mut().enumerate() {
        *b = (i as u8).wrapping_mul(37).wrapping_add(11);
    }
    let address = Pubkey { bytes };
    assert_eq!(Pubkey::parse(&address.to_base58()), Ok(address));
}
