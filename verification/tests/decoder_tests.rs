use cia_decoder::cia_header::encode_header;
use cia_decoder::cia_header::parse_header;
use cia_decoder::ticket::parse_ticket;
use cia_decoder::ticket::ECDSA;
use cia_decoder::ticket::RSA2048;
use cia_decoder::ticket::RSA4096;
use cia_decoder::CIAHeaderInfo;
use cia_decoder::CiaError;
use cia_decoder::SignatureAlgorithm;
use cia_decoder::Ticket;

fn sample_header_bytes() -> Vec<u8> {
    let mut b: Vec<u8> = Vec::new();
    b.extend_from_slice(&0x20u32.to_le_bytes()); // header_size
    b.extend_from_slice(&0x1234u16.to_le_bytes()); // type_tag
    b.extend_from_slice(&0xABCDu16.to_le_bytes()); // format_version
    b.extend_from_slice(&0x0A00u32.to_le_bytes()); // cert_chain_size
    b.extend_from_slice(&0x0350u32.to_le_bytes()); // ticket_size
    b.extend_from_slice(&0x0B34u32.to_le_bytes()); // title_metadata_size
    b.extend_from_slice(&0x3456u32.to_le_bytes()); // meta_size
    b.extend_from_slice(&0x0123456789ABCDEFu64.to_le_bytes()); // content_size
    b
}

fn header_with_sizes(header_size: u32, cert_chain_size: u32, ticket_size: u32) -> CIAHeaderInfo {
    CIAHeaderInfo {
        header_size,
        type_tag: 0,
        format_version: 0,
        cert_chain_size,
        ticket_size,
        title_metadata_size: 0,
        meta_size: 0,
        content_size: 0,
    }
}

fn sample_ticket_bytes(tag: u32, sig_len: usize, pad_len: usize) -> Vec<u8> {
    let mut b: Vec<u8> = Vec::new();
    b.extend_from_slice(&tag.to_be_bytes());
    b.extend_from_slice(&vec![0xA5u8; sig_len]);
    b.extend_from_slice(&vec![0x5Au8; pad_len]);
    let mut issuer = vec![0xCCu8; 64];
    issuer[0] = 0xC1;
    issuer[63] = 0xC2;
    b.extend_from_slice(&issuer);
    b.extend_from_slice(&vec![0xEEu8; 0x3C]); // ecc_public_key
    b.push(0x01); // ticket_format_version
    b.push(0x02); // ca_crl_version
    b.push(0x03); // signer_crl_version
    let title_key: Vec<u8> = (0x10u8..0x20u8).collect();
    b.extend_from_slice(&title_key);
    b.push(0xFF); // reserved byte
    b.extend_from_slice(&0x0102030405060708u64.to_be_bytes()); // ticket_id
    b.extend_from_slice(&0x0A0B0C0Du32.to_be_bytes()); // console_id
    b.extend_from_slice(&0x0004000000126100u64.to_be_bytes()); // title_id
    b
}

fn check_parsed_ticket(t: &Ticket, alg: SignatureAlgorithm, sig_len: usize) {
    assert_eq!(t.signature_algorithm, alg);
    assert_eq!(t.signature_bytes.len(), sig_len);
    assert!(t.signature_bytes.iter().all(|&x| x == 0xA5));
    assert_eq!(t.issuer.len(), 64);
    assert_eq!(t.issuer[0], 0xC1);
    assert_eq!(t.issuer[63], 0xC2);
    assert_eq!(t.ecc_public_key.len(), 0x3C);
    assert!(t.ecc_public_key.iter().all(|&x| x == 0xEE));
    assert_eq!(t.ticket_format_version, 0x01);
    assert_eq!(t.ca_crl_version, 0x02);
    assert_eq!(t.signer_crl_version, 0x03);
    assert_eq!(t.title_key, (0x10u8..0x20u8).collect::<Vec<u8>>());
    assert_eq!(t.ticket_id, 0x0102030405060708);
    assert_eq!(t.console_id, 0x0A0B0C0D);
    assert_eq!(t.title_id, 0x0004000000126100);
}

#[test]
fn header_fields_parse_little_endian() {
    let bytes = sample_header_bytes();
    let h = parse_header(&bytes).unwrap();
    assert_eq!(h.header_size, 0x20);
    assert_eq!(h.type_tag, 0x1234);
    assert_eq!(h.format_version, 0xABCD);
    assert_eq!(h.cert_chain_size, 0x0A00);
    assert_eq!(h.ticket_size, 0x0350);
    assert_eq!(h.title_metadata_size, 0x0B34);
    assert_eq!(h.meta_size, 0x3456);
    assert_eq!(h.content_size, 0x0123456789ABCDEF);
}

#[test]
fn header_round_trip_is_identity() {
    let bytes = sample_header_bytes();
    let h = parse_header(&bytes).unwrap();
    let reencoded = encode_header(&h);
    assert_eq!(reencoded, bytes);
    let h2 = parse_header(&reencoded).unwrap();
    assert_eq!(h2, h);
}

#[test]
fn header_ignores_trailing_bytes() {
    let mut bytes = sample_header_bytes();
    bytes.extend_from_slice(&[0xDE, 0xAD, 0xBE, 0xEF]);
    let h = parse_header(&bytes).unwrap();
    assert_eq!(h.header_size, 0x20);
    assert_eq!(h.content_size, 0x0123456789ABCDEF);
}

#[test]
fn truncated_header_is_rejected() {
    let bytes = sample_header_bytes();
    assert_eq!(parse_header(&bytes[..31]).unwrap_err(), CiaError::TruncatedInput);
    assert_eq!(parse_header(&[]).unwrap_err(), CiaError::TruncatedInput);
    assert_eq!(parse_header(&bytes[..4]).unwrap_err(), CiaError::TruncatedInput);
}

#[test]
fn pad_adds_nothing_on_64_byte_multiples() {
    for &n in &[0u32, 64, 128] {
        let h = header_with_sizes(n, 64, 128);
        assert_eq!(h.get_cert_chain_offset(), n);
        assert_eq!(h.get_ticket_offset(), n + 64);
        assert_eq!(h.get_tmd_offset(), n + 64 + 128);
    }
}

#[test]
fn ticket_offset_uses_exact_remainder_formula() {
    let h = header_with_sizes(0x20, 0xA00, 0);
    // pad(0x20) = 0x20 + 0x20 % 64 = 0x40; pad(0xA00) = 0xA00 + 0 = 0xA00.
    assert_eq!(h.get_cert_chain_offset(), 0x20 + 0x20 % 64);
    assert_eq!(h.get_ticket_offset(), (0x20 + 0x20 % 64) + (0xA00 + 0xA00 % 64));
    assert_eq!(h.get_ticket_offset(), 0xA40);
}

#[test]
fn offsets_grow_by_the_remainder_not_to_the_boundary() {
    // 100 % 64 = 36, so the padded footprint is 136, not 128.
    let h = header_with_sizes(100, 0, 0);
    assert_eq!(h.get_cert_chain_offset(), 136);
}

#[test]
fn ticket_rsa4096_consumes_tag_signature_and_padding() {
    let bytes = sample_ticket_bytes(RSA4096, 0x200, 0x3C);
    let t = parse_ticket(&bytes, 0).unwrap();
    check_parsed_ticket(&t, SignatureAlgorithm::Rsa4096, 0x200);
}

#[test]
fn ticket_rsa2048_consumes_tag_signature_and_padding() {
    let bytes = sample_ticket_bytes(RSA2048, 0x100, 0x3C);
    let t = parse_ticket(&bytes, 0).unwrap();
    check_parsed_ticket(&t, SignatureAlgorithm::Rsa2048, 0x100);
}

#[test]
fn ticket_ecdsa_consumes_tag_signature_and_padding() {
    let bytes = sample_ticket_bytes(ECDSA, 0x3C, 0x40);
    let t = parse_ticket(&bytes, 0).unwrap();
    check_parsed_ticket(&t, SignatureAlgorithm::Ecdsa, 0x3C);
}

#[test]
fn ticket_parses_at_nonzero_offset() {
    let mut bytes = vec![0u8; 0xA40];
    bytes.extend_from_slice(&sample_ticket_bytes(RSA2048, 0x100, 0x3C));
    let t = parse_ticket(&bytes, 0xA40).unwrap();
    check_parsed_ticket(&t, SignatureAlgorithm::Rsa2048, 0x100);
}

#[test]
fn zero_tag_is_unrecognized() {
    let bytes = sample_ticket_bytes(0x00000000, 0x100, 0x3C);
    assert_eq!(parse_ticket(&bytes, 0).unwrap_err(), CiaError::UnrecognizedSignatureAlgorithm);
}

#[test]
fn unknown_nonzero_tag_is_unrecognized() {
    let bytes = sample_ticket_bytes(0x010006, 0x100, 0x3C);
    assert_eq!(parse_ticket(&bytes, 0).unwrap_err(), CiaError::UnrecognizedSignatureAlgorithm);
}

#[test]
fn ticket_too_short_for_tag_is_truncated() {
    let bytes = sample_ticket_bytes(RSA2048, 0x100, 0x3C);
    assert_eq!(parse_ticket(&bytes, bytes.len() - 2).unwrap_err(), CiaError::TruncatedInput);
    assert_eq!(parse_ticket(&[], 0).unwrap_err(), CiaError::TruncatedInput);
}

#[test]
fn ticket_too_short_for_record_is_truncated() {
    let bytes = sample_ticket_bytes(RSA2048, 0x100, 0x3C);
    assert_eq!(parse_ticket(&bytes[..bytes.len() - 1], 0).unwrap_err(), CiaError::TruncatedInput);
    assert_eq!(parse_ticket(&bytes[..8], 0).unwrap_err(), CiaError::TruncatedInput);
}

#[test]
fn title_id_renders_as_sixteen_hex_digits() {
    let bytes = sample_ticket_bytes(RSA2048, 0x100, 0x3C);
    let t = parse_ticket(&bytes, 0).unwrap();
    assert_eq!(t.get_ticket_id_hex_string(), "0004000000126100");
}

#[test]
fn title_id_hex_covers_all_digits_and_pads_with_zeros() {
    let mut bytes = sample_ticket_bytes(ECDSA, 0x3C, 0x40);
    let n = bytes.len();
    bytes[n - 8..].copy_from_slice(&0x89ABCDEF01234567u64.to_be_bytes());
    let t = parse_ticket(&bytes, 0).unwrap();
    assert_eq!(t.get_ticket_id_hex_string(), "89abcdef01234567");

    let mut bytes2 = sample_ticket_bytes(ECDSA, 0x3C, 0x40);
    let n2 = bytes2.len();
    bytes2[n2 - 8..].copy_from_slice(&0u64.to_be_bytes());
    let t2 = parse_ticket(&bytes2, 0).unwrap();
    assert_eq!(t2.get_ticket_id_hex_string(), "0000000000000000");
}
