use tdx_quote::quote::{
    parse_quote, parse_td_quote_body, QuoteError, TeeType, QUOTE_FIXED_LEN, TD_QUOTE_BODY_LEN,
};

/// The seventeen body field widths in declaration order.
const BODY_WIDTHS: [usize; 17] = [
    16, 48, 48, 8, 8, 8, 48, 48, 48, 48, 48, 48, 48, 48, 64, 16, 48,
];

/// A body whose k-th field is filled with the byte k + 1.
fn synthetic_body() -> Vec<u8> {
    let mut body = Vec::new();
    for (k, w) in BODY_WIDTHS.iter().enumerate() {
        body.extend(std::iter::repeat((k + 1) as u8).take(*w));
    }
    assert_eq!(body.len(), TD_QUOTE_BODY_LEN);
    body
}

/// A full fixed-region buffer with distinct known values in every field.
fn synthetic_quote(tee_type_bytes: [u8; 4]) -> Vec<u8> {
    let mut buf = Vec::new();
    buf.extend([0x34, 0x12]); // version = 0x1234
    buf.extend([0x02, 0x00]); // attestation key type = 2
    buf.extend(tee_type_bytes);
    buf.extend([0xaa, 0xbb]); // reserved1
    buf.extend([0xcc, 0xdd]); // reserved2
    buf.extend((0x40u8..0x50).collect::<Vec<u8>>()); // qe_vendor_id
    buf.extend((0x60u8..0x74).collect::<Vec<u8>>()); // user_data
    buf.extend([0x02, 0x00]); // body type = 2
    buf.extend([0x48, 0x02, 0x00, 0x00]); // declared size = 584
    buf.extend(synthetic_body());
    assert_eq!(buf.len(), QUOTE_FIXED_LEN);
    buf
}

#[test]
fn truncated_empty_buffer() {
    assert_eq!(parse_quote(&[]), Err(QuoteError::TruncatedInput));
}

#[test]
fn truncated_small_buffers() {
    for len in [1, 7, 47, 48, 100, 637] {
        let buf = vec![0u8; len];
        assert_eq!(parse_quote(&buf), Err(QuoteError::TruncatedInput));
    }
}

#[test]
fn truncated_one_byte_short() {
    let mut buf = synthetic_quote([0x81, 0, 0, 0]);
    buf.pop();
    assert_eq!(parse_quote(&buf), Err(QuoteError::TruncatedInput));
}

#[test]
fn unrecognized_tee_type() {
    for bad in [[0x01, 0, 0, 0], [0x82, 0, 0, 0], [0x81, 0, 0, 0x01], [0xff, 0xff, 0xff, 0xff]] {
        let buf = synthetic_quote(bad);
        assert_eq!(parse_quote(&buf), Err(QuoteError::UnrecognizedTeeType));
    }
}

#[test]
fn decode_sgx_tee_type() {
    let buf = synthetic_quote([0, 0, 0, 0]);
    let quote = parse_quote(&buf).expect("a well-formed SGX-typed quote must decode");
    assert_eq!(quote.header.tee_type, TeeType::Sgx);
}

#[test]
fn decode_round_trip_field_for_field() {
    let buf = synthetic_quote([0x81, 0, 0, 0]);
    let quote = parse_quote(&buf).expect("a well-formed TDX quote must decode");

    assert_eq!(quote.header.version, 0x1234);
    assert_eq!(quote.header.attestation_key_type, 2);
    assert_eq!(quote.header.tee_type, TeeType::Tdx);
    assert_eq!(quote.header.reserved1, vec![0xaa, 0xbb]);
    assert_eq!(quote.header.reserved2, vec![0xcc, 0xdd]);
    assert_eq!(quote.header.qe_vendor_id, (0x40u8..0x50).collect::<Vec<u8>>());
    assert_eq!(quote.header.user_data, (0x60u8..0x74).collect::<Vec<u8>>());

    assert_eq!(quote.body.td_quote_body_type, 2);
    assert_eq!(quote.body.size, 584);

    let body = &quote.body.td_quote_body;
    assert_eq!(body.tee_tcb_svn, vec![1u8; 16]);
    assert_eq!(body.mrseam, vec![2u8; 48]);
    assert_eq!(body.mrsignerseam, vec![3u8; 48]);
    assert_eq!(body.seamattributes, vec![4u8; 8]);
    assert_eq!(body.tdattributes, vec![5u8; 8]);
    assert_eq!(body.xfam, vec![6u8; 8]);
    assert_eq!(body.mrtd, vec![7u8; 48]);
    assert_eq!(body.mrconfigid, vec![8u8; 48]);
    assert_eq!(body.mrowner, vec![9u8; 48]);
    assert_eq!(body.mrownerconfig, vec![10u8; 48]);
    assert_eq!(body.rtmr0, vec![11u8; 48]);
    assert_eq!(body.rtmr1, vec![12u8; 48]);
    assert_eq!(body.rtmr2, vec![13u8; 48]);
    assert_eq!(body.rtmr3, vec![14u8; 48]);
    assert_eq!(body.reportdata, vec![15u8; 64]);
    assert_eq!(body.tee_tcb_svn_2, vec![16u8; 16]);
    assert_eq!(body.mrservicetd, vec![17u8; 48]);
}

#[test]
fn trailing_bytes_are_ignored() {
    let mut buf = synthetic_quote([0x81, 0, 0, 0]);
    buf.extend([0xee; 37]);
    let quote = parse_quote(&buf).expect("trailing bytes must not prevent decoding");
    assert_eq!(quote.header.version, 0x1234);
    assert_eq!(quote.body.td_quote_body.mrservicetd, vec![17u8; 48]);
}

#[test]
fn parse_body_at_offset() {
    let mut buf = vec![0xf0u8; 5];
    buf.extend(synthetic_body());
    let body = parse_td_quote_body(&buf, 5);
    assert_eq!(body.tee_tcb_svn, vec![1u8; 16]);
    assert_eq!(body.reportdata, vec![15u8; 64]);
    assert_eq!(body.mrservicetd, vec![17u8; 48]);
}
