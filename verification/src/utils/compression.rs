//! Response compression utilities

use crate::error::Error;
use vstd::prelude::*;

verus! {

/// What gzip compression at the default level produces for a run of bytes.
/// The encoding depends on the bytes alone.
pub uninterp spec fn gzip_of(data: Seq<u8>) -> Seq<u8>;

/// Compress data with gzip at the default level.
///
/// Relies on `flate2::write::GzEncoder` over a byte vector: the encoding
/// depends on the input alone, and writing into a vector never fails, so
/// the result is always the encoded bytes.
#[verifier::external_body]
pub fn gzip_compress(data: &[u8]) -> (r: Result<Vec<u8>, Error>)
    ensures
        r is Ok,
        (match r {
            Ok(v) => v@ == gzip_of(data@),
            Err(_) => false,
        }),
{
    let mut encoder = flate2::write::GzEncoder::new(Vec::new(), flate2::Compression::default());
    std::io::Write::write_all(&mut encoder, data)
        .map_err(|e| Error::Other(format!("Gzip compression failed: {e}")))?;
    encoder
        .finish()
        .map_err(|e| Error::Other(format!("Gzip compression finalize failed: {e}")))
}

/// Decompress gzip data.
///
/// Relies on `flate2::read::GzDecoder`: decoding inverts the gzip
/// encoding, so on the output of the compression it returns the original
/// bytes; on other inputs it may fail with an error message.
#[verifier::external_body]
pub fn gzip_decompress(data: &[u8]) -> (r: Result<Vec<u8>, Error>)
    ensures
        (forall|orig: Seq<u8>| data@ == #[trigger] gzip_of(orig) ==> r is Ok),
        (match r {
            Ok(v) => forall|orig: Seq<u8>| data@ == #[trigger] gzip_of(orig) ==> v@ == orig,
            Err(e) => e is Other,
        }),
{
    let mut decoder = flate2::read::GzDecoder::new(data);
    let mut decompressed = Vec::new();
    std::io::Read::read_to_end(&mut decoder, &mut decompressed)
        .map_err(|e| Error::Other(format!("Gzip decompression failed: {e}")))?;
    Ok(decompressed)
}

} // verus!
