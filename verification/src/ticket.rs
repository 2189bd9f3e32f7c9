//! The signed license record ("ticket") and its decoder.
//!
//! The record starts with a 4-byte big-endian signature-algorithm tag.
//! The tag fixes the length of the signature block that follows and the
//! reserved padding after it; after the padding comes a common body of
//! identity and key-material fields, read in one strict sequence.

use vstd::prelude::*;
use vstd::slice::slice_subrange;
use vstd::slice::slice_to_vec;
use vstd::string::StringExecFns;

use crate::bytes_util::be_u32;
use crate::bytes_util::be_u64;
use crate::bytes_util::read_be_u32;
use crate::bytes_util::read_be_u64;
use crate::error::CiaError;

verus! {

/// Big-endian tag of the RSA-4096 signature algorithm.
pub const RSA4096: u32 = 0x010003;

/// Big-endian tag of the RSA-2048 signature algorithm.
pub const RSA2048: u32 = 0x010004;

/// Big-endian tag of the ECDSA signature algorithm.
pub const ECDSA: u32 = 0x010005;

/// Bytes of the ticket body common to every algorithm: issuer (64),
/// ECC public key (0x3C), three version bytes, title key (16), one
/// reserved byte, ticket id (8), console id (4), title id (8).
pub const TICKET_BODY_LEN: usize = 164;

/// The signature algorithm a ticket's leading 4-byte tag selects. It
/// determines the signature block's length and the reserved padding that
/// follows it.
#[derive(Clone, Copy, Debug, PartialEq, Eq, Structural)]
pub enum SignatureAlgorithm {
    Rsa4096,
    Rsa2048,
    Ecdsa,
}

/// The algorithm a leading tag value selects, `None` for every tag
/// outside the known set.
pub open spec fn spec_algorithm_of_tag(tag: int) -> Option<SignatureAlgorithm> {
    if tag == RSA4096 {
        Some(SignatureAlgorithm::Rsa4096)
    } else if tag == RSA2048 {
        Some(SignatureAlgorithm::Rsa2048)
    } else if tag == ECDSA {
        Some(SignatureAlgorithm::Ecdsa)
    } else {
        None
    }
}

/// Length in bytes of the signature block `alg` signs with.
pub open spec fn spec_signature_length(alg: SignatureAlgorithm) -> int {
    match alg {
        SignatureAlgorithm::Rsa4096 => 0x200,
        SignatureAlgorithm::Rsa2048 => 0x100,
        SignatureAlgorithm::Ecdsa => 0x3C,
    }
}

/// Length in bytes of the reserved padding between `alg`'s signature
/// block and the common ticket body.
pub open spec fn spec_padding_length(alg: SignatureAlgorithm) -> int {
    match alg {
        SignatureAlgorithm::Rsa4096 => 0x3C,
        SignatureAlgorithm::Rsa2048 => 0x3C,
        SignatureAlgorithm::Ecdsa => 0x40,
    }
}

/// Total bytes a ticket signed with `alg` occupies: tag, signature
/// block, reserved padding, then the common body.
pub open spec fn spec_ticket_length(alg: SignatureAlgorithm) -> int {
    4 + spec_signature_length(alg) + spec_padding_length(alg) + TICKET_BODY_LEN
}

impl SignatureAlgorithm {
    /// Length in bytes of this algorithm's signature block.
    pub fn signature_length(&self) -> (r: usize)
        ensures
            r == spec_signature_length(*self),
    {
        match self {
            SignatureAlgorithm::Rsa4096 => 0x200,
            SignatureAlgorithm::Rsa2048 => 0x100,
            SignatureAlgorithm::Ecdsa => 0x3C,
        }
    }

    /// Length in bytes of the reserved padding after this algorithm's
    /// signature block.
    pub fn padding_length(&self) -> (r: usize)
        ensures
            r == spec_padding_length(*self),
    {
        match self {
            SignatureAlgorithm::Rsa4096 => 0x3C,
            SignatureAlgorithm::Rsa2048 => 0x3C,
            SignatureAlgorithm::Ecdsa => 0x40,
        }
    }
}

/// Maps a leading tag to its algorithm, `None` outside the known set.
pub fn algorithm_of_tag(tag: u32) -> (r: Option<SignatureAlgorithm>)
    ensures
        r == spec_algorithm_of_tag(tag as int),
{
    if tag == RSA4096 {
        Some(SignatureAlgorithm::Rsa4096)
    } else if tag == RSA2048 {
        Some(SignatureAlgorithm::Rsa2048)
    } else if tag == ECDSA {
        Some(SignatureAlgorithm::Ecdsa)
    } else {
        None
    }
}

/// The parsed license record, immutable once constructed.
#[derive(Debug)]
pub struct Ticket {
    pub signature_algorithm: SignatureAlgorithm,
    pub signature_bytes: Vec<u8>,
    pub issuer: Vec<u8>,
    pub ecc_public_key: Vec<u8>,
    pub ticket_format_version: u8,
    pub ca_crl_version: u8,
    pub signer_crl_version: u8,
    pub title_key: Vec<u8>,
    pub ticket_id: u64,
    pub console_id: u32,
    pub title_id: u64,
}

impl Ticket {
    /// Well-formedness: every raw field has the length its position in
    /// the record dictates.
    pub open spec fn wf(self) -> bool {
        &&& self.signature_bytes@.len() == spec_signature_length(self.signature_algorithm)
        &&& self.issuer@.len() == 0x40
        &&& self.ecc_public_key@.len() == 0x3C
        &&& self.title_key@.len() == 16
    }
}

/// `t` holds exactly the field values of the ticket record laid out in
/// `b` at offset `off`: the tag selects `t.signature_algorithm`, the
/// signature block of that algorithm's length follows the tag, and the
/// common body starts right after the algorithm's reserved padding —
/// exactly `4 + signature length + padding length` bytes past `off`.
pub open spec fn ticket_parsed_from(t: Ticket, b: Seq<u8>, off: int) -> bool
    recommends
        0 <= off,
        off + spec_ticket_length(t.signature_algorithm) <= b.len(),
{
    let alg = t.signature_algorithm;
    let body = off + 4 + spec_signature_length(alg) + spec_padding_length(alg);
    &&& spec_algorithm_of_tag(be_u32(b, off)) == Some(alg)
    &&& t.signature_bytes@ == b.subrange(off + 4, off + 4 + spec_signature_length(alg))
    &&& t.issuer@ == b.subrange(body, body + 0x40)
    &&& t.ecc_public_key@ == b.subrange(body + 0x40, body + 0x7C)
    &&& t.ticket_format_version == b[body + 0x7C]
    &&& t.ca_crl_version == b[body + 0x7D]
    &&& t.signer_crl_version == b[body + 0x7E]
    &&& t.title_key@ == b.subrange(body + 0x7F, body + 0x8F)
    &&& t.ticket_id == be_u64(b, body + 0x90)
    &&& t.console_id == be_u32(b, body + 0x98)
    &&& t.title_id == be_u64(b, body + 0x9C)
}

/// What `parse_ticket` returns on `b` at `off`, case by case: too short
/// for the tag is `TruncatedInput`; an unknown tag is
/// `UnrecognizedSignatureAlgorithm`; too short for the tag's full record
/// is `TruncatedInput`; otherwise the parsed ticket.
pub open spec fn spec_parse_ticket_result(r: Result<Ticket, CiaError>, b: Seq<u8>, off: int) -> bool {
    if b.len() < off + 4 {
        r is Err && r->Err_0 == CiaError::TruncatedInput
    } else {
        match spec_algorithm_of_tag(be_u32(b, off)) {
            None => r is Err && r->Err_0 == CiaError::UnrecognizedSignatureAlgorithm,
            Some(alg) => {
                if b.len() < off + spec_ticket_length(alg) {
                    r is Err && r->Err_0 == CiaError::TruncatedInput
                } else {
                    r is Ok && r->Ok_0.wf() && ticket_parsed_from(r->Ok_0, b, off)
                }
            },
        }
    }
}

/// Parses the ticket record that starts at `ticket_offset` in `bytes`.
/// Reads, in order: the 4-byte big-endian algorithm tag, the signature
/// block whose length the tag fixes, the reserved padding, then the
/// common body fields.
pub fn parse_ticket(bytes: &[u8], ticket_offset: usize) -> (r: Result<Ticket, CiaError>)
    ensures
        spec_parse_ticket_result(r, bytes@, ticket_offset as int),
{
    let len = bytes.len();
    if ticket_offset > len || len - ticket_offset < 4 {
        return Err(CiaError::TruncatedInput);
    }
    let tag = read_be_u32(bytes, ticket_offset);
    let alg = match algorithm_of_tag(tag) {
        Some(a) => a,
        None => {
            return Err(CiaError::UnrecognizedSignatureAlgorithm);
        },
    };
    let sig_len = alg.signature_length();
    let pad_len = alg.padding_length();
    if len - ticket_offset - 4 < sig_len + pad_len + TICKET_BODY_LEN {
        return Err(CiaError::TruncatedInput);
    }
    let sig_start = ticket_offset + 4;
    let body = sig_start + sig_len + pad_len;
    Ok(
        Ticket {
            signature_algorithm: alg,
            signature_bytes: slice_to_vec(slice_subrange(bytes, sig_start, sig_start + sig_len)),
            issuer: slice_to_vec(slice_subrange(bytes, body, body + 0x40)),
            ecc_public_key: slice_to_vec(slice_subrange(bytes, body + 0x40, body + 0x7C)),
            ticket_format_version: bytes[body + 0x7C],
            ca_crl_version: bytes[body + 0x7D],
            signer_crl_version: bytes[body + 0x7E],
            title_key: slice_to_vec(slice_subrange(bytes, body + 0x7F, body + 0x8F)),
            ticket_id: read_be_u64(bytes, body + 0x90),
            console_id: read_be_u32(bytes, body + 0x98),
            title_id: read_be_u64(bytes, body + 0x9C),
        },
    )
}

/// The hexadecimal digit for `n`, lowercase.
pub open spec fn spec_hex_char(n: int) -> char {
    if n == 0 {
        '0'
    } else if n == 1 {
        '1'
    } else if n == 2 {
        '2'
    } else if n == 3 {
        '3'
    } else if n == 4 {
        '4'
    } else if n == 5 {
        '5'
    } else if n == 6 {
        '6'
    } else if n == 7 {
        '7'
    } else if n == 8 {
        '8'
    } else if n == 9 {
        '9'
    } else if n == 10 {
        'a'
    } else if n == 11 {
        'b'
    } else if n == 12 {
        'c'
    } else if n == 13 {
        'd'
    } else if n == 14 {
        'e'
    } else {
        'f'
    }
}

/// Hex digit `i` of `v`, counting from the most significant.
pub open spec fn spec_nibble(v: u64, i: int) -> u64 {
    (v >> (((15 - i) * 4) as u64)) & 0xF
}

/// The sixteen-digit, zero-padded, lowercase hexadecimal rendering of
/// the big-endian value `v`.
pub open spec fn spec_u64_hex(v: u64) -> Seq<char> {
    Seq::new(16, |i: int| spec_hex_char(spec_nibble(v, i) as int))
}

/// The one-character string of the hexadecimal digit for `n`.
fn hex_char_str(n: u8) -> (r: &'static str)
    requires
        n < 16,
    ensures
        r@.len() == 1,
        r@[0] == spec_hex_char(n as int),
{
    if n == 0 {
        proof {
            reveal_strlit("0");
        }
        "0"
    } else if n == 1 {
        proof {
            reveal_strlit("1");
        }
        "1"
    } else if n == 2 {
        proof {
            reveal_strlit("2");
        }
        "2"
    } else if n == 3 {
        proof {
            reveal_strlit("3");
        }
        "3"
    } else if n == 4 {
        proof {
            reveal_strlit("4");
        }
        "4"
    } else if n == 5 {
        proof {
            reveal_strlit("5");
        }
        "5"
    } else if n == 6 {
        proof {
            reveal_strlit("6");
        }
        "6"
    } else if n == 7 {
        proof {
            reveal_strlit("7");
        }
        "7"
    } else if n == 8 {
        proof {
            reveal_strlit("8");
        }
        "8"
    } else if n == 9 {
        proof {
            reveal_strlit("9");
        }
        "9"
    } else if n == 10 {
        proof {
            reveal_strlit("a");
        }
        "a"
    } else if n == 11 {
        proof {
            reveal_strlit("b");
        }
        "b"
    } else if n == 12 {
        proof {
            reveal_strlit("c");
        }
        "c"
    } else if n == 13 {
        proof {
            reveal_strlit("d");
        }
        "d"
    } else if n == 14 {
        proof {
            reveal_strlit("e");
        }
        "e"
    } else {
        proof {
            reveal_strlit("f");
        }
        "f"
    }
}

impl Ticket {
    /// The canonical human-readable title identifier: the big-endian
    /// `title_id` as sixteen zero-padded lowercase hexadecimal digits.
    pub fn get_ticket_id_hex_string(&self) -> (r: String)
        ensures
            r@ == spec_u64_hex(self.title_id),
            r@.len() == 16,
    {
        let v = self.title_id;
        let mut s = String::new();
        let mut i: usize = 0;
        while i < 16
            invariant
                i <= 16,
                s@ == spec_u64_hex(v).subrange(0, i as int),
            decreases 16 - i,
        {
            let sh: u64 = ((15 - i) * 4) as u64;
            let nib: u64 = (v >> sh) & 0xF;
            proof {
                assert((v >> sh) & 0xF < 16) by (bit_vector);
                assert(nib == spec_nibble(v, i as int));
            }
            let d = hex_char_str(nib as u8);
            s.append(d);
            proof {
                assert(s@ =~= spec_u64_hex(v).subrange(0, i as int + 1));
            }
            i = i + 1;
        }
        proof {
            assert(spec_u64_hex(v).subrange(0, 16) =~= spec_u64_hex(v));
        }
        s
    }
}

} // verus!
