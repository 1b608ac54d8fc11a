//! The fixed per-file compression codec: LZMA at maximum compression
//! level. Encoding and decoding are deterministic functions of the input
//! bytes alone, and the codec is lossless.

use std::io::Write;
use vstd::prelude::*;

verus! {

/// Failure inside the compression codec, with its diagnostic text.
#[derive(Debug)]
pub struct CodecError {
    pub message: String,
}

/// What the LZMA encoder at maximum compression level returns for the
/// given input bytes.
pub uninterp spec fn xz_of(data: Seq<u8>) -> Seq<u8>;

/// What the LZMA decoder returns for the given input bytes.
pub uninterp spec fn unxz_of(data: Seq<u8>) -> Seq<u8>;

/// Relies on xz2::write::XzEncoder at preset 9 writing into an in-memory
/// buffer: encoding cannot fail there (memory exhaustion aside), the
/// encoded stream is a function of the input bytes alone, and the codec
/// is lossless, so the matching decoder recovers the input exactly.
#[verifier::external_body]
fn xz_compress(data: &Vec<u8>) -> (r: Vec<u8>)
    ensures
        r@ == xz_of(data@),
        unxz_of(r@) == data@,
{
    let mut encoder = xz2::write::XzEncoder::new(Vec::new(), 9);
    encoder
        .write_all(data.as_slice())
        .expect("encoding into memory cannot fail");
    encoder.finish().expect("encoding into memory cannot fail")
}

/// Relies on xz2::write::XzDecoder: decoding is a function of the input
/// bytes alone, and every stream the encoder produced decodes
/// successfully.
#[verifier::external_body]
fn xz_decompress(data: &Vec<u8>) -> (r: Result<Vec<u8>, CodecError>)
    ensures
        r matches Ok(d) ==> d@ == unxz_of(data@),
        (exists|x: Seq<u8>| data@ == xz_of(x)) ==> r is Ok,
{
    let mut decoder = xz2::write::XzDecoder::new(Vec::new());
    if let Err(e) = decoder.write_all(data.as_slice()) {
        return Err(CodecError { message: format!("{}", e) });
    }
    match decoder.finish() {
        Ok(bytes) => Ok(bytes),
        Err(e) => Err(CodecError { message: format!("{}", e) }),
    }
}

/// Compresses one regular file's contents with the fixed codec. The
/// compression never fails, and its result decompresses back to the
/// input exactly.
pub fn compress_file_contents(data: &Vec<u8>) -> (r: Vec<u8>)
    ensures
        r@ == xz_of(data@),
        unxz_of(r@) == data@,
{
    xz_compress(data)
}

/// Applies the inverse of the compression transform; whatever reads the
/// packaged filesystem at runtime undoes the encoding with exactly this
/// decoding. It is owed success on every encoder-produced stream.
pub fn decompress_file_contents(data: &Vec<u8>) -> (r: Result<Vec<u8>, CodecError>)
    ensures
        r matches Ok(d) ==> d@ == unxz_of(data@),
        (exists|x: Seq<u8>| data@ == xz_of(x)) ==> r is Ok,
{
    xz_decompress(data)
}

} // verus!
