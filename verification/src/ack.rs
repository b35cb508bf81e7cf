//! Wire format of the child-creation acknowledgment.
//!
//! After the host instantiates a requested child contract, it hands the
//! factory a binary acknowledgment whose schema is a single required field:
//! the new child's address.  The field is framed as a length-delimited
//! record in protocol-buffer wire encoding — the tag byte `0x0A` (field
//! number 1, wire type 2), one length byte, then the address bytes.  An
//! address on this chain is a short ASCII string, so its length always fits
//! the one-byte form; anything longer, and any other framing, is rejected
//! as malformed.

use vstd::prelude::*;
use vstd::string::StringSliceAdditionalSpecFns;
use vstd::utf8::{encode_utf8, valid_utf8};

verus! {

/// The tag of the address field: field number 1, length-delimited.
pub const ACK_ADDRESS_TAG: u8 = 0x0A;

/// The longest address payload the one-byte length form can carry.
pub const ACK_MAX_ADDRESS_LEN: usize = 127;

/// The acknowledgment framing of an address payload.
pub open spec fn spec_ack_bytes(addr: Seq<u8>) -> Seq<u8> {
    seq![ACK_ADDRESS_TAG, addr.len() as u8] + addr
}

/// A byte string is a well-formed acknowledgment when some short payload
/// frames to exactly it.
pub open spec fn is_ack_encoding(data: Seq<u8>) -> bool {
    exists|addr: Seq<u8>|
        addr.len() <= ACK_MAX_ADDRESS_LEN && data == #[trigger] spec_ack_bytes(addr)
}

/// The framing is injective: equal acknowledgments carry equal payloads.
pub proof fn lemma_ack_bytes_injective(a: Seq<u8>, b: Seq<u8>)
    requires
        a.len() <= ACK_MAX_ADDRESS_LEN,
        b.len() <= ACK_MAX_ADDRESS_LEN,
        spec_ack_bytes(a) == spec_ack_bytes(b),
    ensures
        a == b,
{
    assert(spec_ack_bytes(a).len() == 2 + a.len());
    assert(spec_ack_bytes(b).len() == 2 + b.len());
    assert forall|i: int| 0 <= i < a.len() implies a[i] == b[i] by {
        assert(spec_ack_bytes(a)[i + 2] == a[i]);
        assert(spec_ack_bytes(b)[i + 2] == b[i]);
    }
    assert(a =~= b);
}

/// Extracts the address payload of an acknowledgment, or `None` when the
/// bytes are not a well-formed acknowledgment.
pub fn parse_ack(data: &Vec<u8>) -> (r: Option<Vec<u8>>)
    ensures
        r is Some <==> is_ack_encoding(data@),
        r is Some ==> data@ == spec_ack_bytes(r->0@) && r->0@.len() <= ACK_MAX_ADDRESS_LEN,
{
    let len = data.len();
    if len < 2 {
        proof {
            assert forall|addr: Seq<u8>|
                addr.len() <= ACK_MAX_ADDRESS_LEN implies data@ != spec_ack_bytes(addr) by {
                assert(spec_ack_bytes(addr).len() >= 2);
            }
        }
        return None;
    }
    if data[0] != ACK_ADDRESS_TAG {
        proof {
            assert forall|addr: Seq<u8>|
                addr.len() <= ACK_MAX_ADDRESS_LEN implies data@ != spec_ack_bytes(addr) by {
                assert(spec_ack_bytes(addr)[0] == ACK_ADDRESS_TAG);
            }
        }
        return None;
    }
    let n = data[1];
    if n as usize > ACK_MAX_ADDRESS_LEN || len - 2 != n as usize {
        proof {
            assert forall|addr: Seq<u8>|
                addr.len() <= ACK_MAX_ADDRESS_LEN implies data@ != spec_ack_bytes(addr) by {
                assert(spec_ack_bytes(addr)[1] == addr.len() as u8);
                assert(spec_ack_bytes(addr).len() == 2 + addr.len());
            }
        }
        return None;
    }
    let mut addr: Vec<u8> = Vec::new();
    let mut i: usize = 2;
    while i < len
        invariant
            2 <= i <= len,
            len == data@.len(),
            addr@ == data@.subrange(2, i as int),
        decreases len - i,
    {
        let ghost pre = addr@;
        addr.push(data[i]);
        assert(addr@ =~= data@.subrange(2, i + 1));
        i = i + 1;
    }
    assert(data@ =~= spec_ack_bytes(addr@));
    Some(addr)
}

/// Frames an address as the acknowledgment the host would deliver.
pub fn encode_ack(address: &str) -> (r: Vec<u8>)
    requires
        address.spec_bytes().len() <= ACK_MAX_ADDRESS_LEN,
    ensures
        r@ == spec_ack_bytes(address.spec_bytes()),
{
    let bytes = address.as_bytes();
    let n = bytes.len();
    let mut out: Vec<u8> = Vec::new();
    out.push(ACK_ADDRESS_TAG);
    out.push(n as u8);
    let mut i: usize = 0;
    while i < n
        invariant
            i <= n,
            n == address.spec_bytes().len(),
            bytes@ == address.spec_bytes(),
            out@ == spec_ack_bytes(address.spec_bytes()).take(2 + i),
        decreases n - i,
    {
        out.push(bytes[i]);
        assert(out@ =~= spec_ack_bytes(address.spec_bytes()).take(2 + i + 1));
        i = i + 1;
    }
    assert(out@ =~= spec_ack_bytes(address.spec_bytes()));
    out
}

/// Relies on `String::from_utf8`: it succeeds exactly on valid UTF-8 input,
/// and the returned string re-encodes to the input bytes.
#[verifier::external_body]
pub(crate) fn string_from_utf8(bytes: Vec<u8>) -> (r: Option<String>)
    ensures
        r is Some <==> valid_utf8(bytes@),
        r is Some ==> encode_utf8(r->0@) == bytes@,
{
    match String::from_utf8(bytes) {
        Ok(s) => Some(s),
        Err(_) => None,
    }
}

} // verus!
