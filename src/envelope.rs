use vstd::prelude::*;
use crate::address::u64_bytes;

verus! {

#[verifier::external_type_specification]
#[verifier::external_body]
pub struct ExEncodingError(fvm_ipld_encoding::Error);

/// The CBOR head of a byte string of `len` bytes, in its shortest form.
pub open spec fn byte_string_head(len: nat) -> Seq<u8> {
    if len < 24 {
        seq![(0x40 + len) as u8]
    } else if len < 0x100 {
        seq![0x58u8, len as u8]
    } else if len < 0x1_0000 {
        seq![0x59u8] + u64_bytes(len as u64).subrange(6, 8)
    } else if len < 0x1_0000_0000 {
        seq![0x5au8] + u64_bytes(len as u64).subrange(4, 8)
    } else {
        seq![0x5bu8] + u64_bytes(len as u64)
    }
}

/// The DAG-CBOR byte string that carries `data`: its head, then the bytes.
pub open spec fn bytes_envelope(data: Seq<u8>) -> Seq<u8> {
    byte_string_head(data.len()) + data
}

/// The bytes carried by a DAG-CBOR byte string, where `raw` is one.
pub uninterp spec fn envelope_content(raw: Seq<u8>) -> Option<Seq<u8>>;

/// Relies on `fvm_ipld_encoding::to_vec` of a `BytesSer`: the byte-string
/// encoding of `data`. It writes into a growable buffer, so it fails only
/// where memory cannot be allocated.
#[verifier::external_body]
pub(crate) fn seal_envelope(data: &[u8]) -> (r: Result<Vec<u8>, fvm_ipld_encoding::Error>)
    ensures
        r is Ok,
        r matches Ok(v) ==> v@ == bytes_envelope(data@),
        r matches Ok(v) ==> envelope_content(v@) == Some(data@),
{
    fvm_ipld_encoding::to_vec(&fvm_ipld_encoding::BytesSer(data))
}

/// Relies on `fvm_ipld_encoding::from_slice` into a `BytesDe`: the bytes that
/// a byte-string encoding carries; it fails where `raw` is not one.
#[verifier::external_body]
pub(crate) fn open_envelope(raw: &[u8]) -> (r: Result<Vec<u8>, fvm_ipld_encoding::Error>)
    ensures
        match r {
            Ok(v) => envelope_content(raw@) == Some(v@),
            Err(_) => envelope_content(raw@) == None::<Seq<u8>>,
        },
{
    fvm_ipld_encoding::from_slice::<fvm_ipld_encoding::BytesDe>(raw).map(|b| b.into_vec())
}

} // verus!
