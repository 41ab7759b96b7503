use vstd::prelude::*;
use crate::errors::TwrptarxError;

verus! {

/// Look-ahead capacity of the buffering reader wrapped around the raw
/// input. It must be large enough to contain the encryption magic marker;
/// four file blocks comfortably are.
pub const PEEK_CAPACITY: usize = 16384;

/// A raw input byte source (a file, standard input, an in-memory buffer),
/// erased to a plain reader and carried through the pipeline opaquely.
#[verifier::external_body]
pub struct RawSource {
    inner: Box<dyn std::io::Read>,
}

impl RawSource {
    /// Erases any reader into the pipeline's input type. The value is only
    /// carried, never inspected, so nothing is assumed of it.
    #[verifier::external_body]
    pub fn new<R: std::io::Read + 'static>(inner: R) -> (r: RawSource) {
        RawSource { inner: Box::new(inner) }
    }
}

/// The raw source wrapped in a buffering reader with a fixed look-ahead
/// capacity, so that the sniffer can peek without consuming.
#[verifier::external_body]
pub struct BufferedSource {
    inner: std::io::BufReader<Box<dyn std::io::Read>>,
}

/// Relies on std::io::BufReader::with_capacity: wraps the reader with an
/// internal buffer of at least the given capacity, consuming nothing yet.
#[verifier::external_body]
fn buffer_source(src: RawSource, capacity: usize) -> (r: BufferedSource) {
    BufferedSource { inner: std::io::BufReader::with_capacity(capacity, src.inner) }
}

/// Relies on std::io::BufReader::fill_buf: fills the internal buffer from
/// the underlying reader without consuming it (a pure peek) and returns a
/// copy of the buffered bytes, or the transport's error description.
#[verifier::external_body]
fn peek_fill(src: &mut BufferedSource) -> (r: Result<Vec<u8>, String>) {
    match std::io::BufRead::fill_buf(&mut src.inner) {
        Ok(b) => Ok(b.to_vec()),
        Err(e) => Err(format!("unable to pre-fill reader buffer: {}", e)),
    }
}

/// The decryption provider's magic marker: the input begins with the four
/// bytes `OAES`.
pub open spec fn oaes_magic_marked(b: Seq<u8>) -> bool {
    b.len() >= 4 && b[0] == 79u8 && b[1] == 65u8 && b[2] == 69u8 && b[3] == 83u8
}

/// Relies on roaes::RoaesSource::has_magic_number: over an in-memory slice
/// it reads four bytes and compares them with `OAES`; a shorter slice reads
/// as end-of-file, which it reports as `false`, and a slice reader raises no
/// other error.
#[verifier::external_body]
fn sniff_oaes_marker(peeked: &Vec<u8>) -> (r: bool)
    ensures
        r == oaes_magic_marked(peeked@),
{
    roaes::RoaesSource::<&[u8]>::has_magic_number(peeked.as_slice()).unwrap_or(false)
}

/// The widest cipher key the decryption provider accepts. The provider
/// pads a shorter key up to the cipher width it selects by the key's
/// length; a wider key does not fit its key block.
pub const OAES_MAX_KEY_BYTES: usize = 32;

/// The buffered source wrapped by the decryption provider: reading it
/// yields plaintext.
#[verifier::external_body]
pub struct DecryptedSource {
    inner: roaes::RoaesSource<std::io::BufReader<Box<dyn std::io::Read>>>,
}

/// Relies on roaes::RoaesSource::new: derives a cipher from the key, reads
/// and validates the first encrypted file block, and yields a plaintext
/// reader on success; reports malformed headers, truncated input and
/// transport failures as a descriptive error. The provider copies the key
/// into a key block of the widest cipher width and would abort on a wider
/// key, so the caller must bound the key's length.
#[verifier::external_body]
fn decrypt_source(src: BufferedSource, key: &[u8]) -> (r: Result<DecryptedSource, String>)
    requires
        key@.len() <= OAES_MAX_KEY_BYTES,
{
    match roaes::RoaesSource::new(src.inner, key) {
        Ok(inner) => Ok(DecryptedSource { inner }),
        Err(e) => Err(format!("{}", e)),
    }
}

/// The stage below the transparent decompression layer: either the plain
/// buffered source or the decrypted stream.
pub enum DecodedInput {
    Plain(BufferedSource),
    Decrypted(DecryptedSource),
}

/// The stream after transparent decompression, feeding the container
/// parser.
#[verifier::external_body]
pub struct DecompressedSource {
    inner: egzreader::EgzReader<Box<dyn std::io::Read>>,
}

/// Relies on egzreader::EgzReader::new: wraps any reader; gzip input is
/// decompressed transparently, other input passes through unchanged.
#[verifier::external_body]
fn decompress_source(src: DecodedInput) -> (r: DecompressedSource) {
    let erased: Box<dyn std::io::Read> = match src {
        DecodedInput::Plain(b) => Box::new(b.inner),
        DecodedInput::Decrypted(d) => Box::new(d.inner),
    };
    DecompressedSource { inner: egzreader::EgzReader::new(erased) }
}

/// A composed backup container: the layered reader stack, owned exclusively
/// by the container parser.
#[verifier::external_body]
pub struct TwrpTarFile {
    pub(crate) archive: tar::Archive<egzreader::EgzReader<Box<dyn std::io::Read>>>,
}

/// Relies on tar::Archive::new: takes ownership of the reader; entries are
/// parsed lazily, on iteration only, so composition itself reads nothing.
#[verifier::external_body]
fn open_archive(src: DecompressedSource) -> (r: TwrpTarFile) {
    TwrpTarFile { archive: tar::Archive::new(src.inner) }
}

/// The two pipeline shapes: a plaintext stream, or one whose bytes pass
/// through the decryption provider first. Both expose identical iteration
/// behavior, so callers branch on the variant only once, at composition
/// time.
pub enum TwrpTarKind {
    Plain(TwrpTarFile),
    Encrypted(TwrpTarFile),
}

/// Decides the pipeline shape from the peeked bytes and the optional key,
/// by the 2x2 policy table, and composes the layered stream: marker with
/// key builds the encrypted branch, no marker without key the plain branch,
/// and the two mixed cases are caller errors. A key wider than the widest
/// cipher key is a decryption failure, reported before the provider is
/// asked. No partial success: either a fully composed stream or a typed
/// error comes back.
pub fn compose_sniffed(buf: BufferedSource, peeked: &Vec<u8>, key: Option<&[u8]>) -> (r: Result<
    TwrpTarKind,
    TwrptarxError,
>)
    ensures
        oaes_magic_marked(peeked@) && key is None ==> (r matches Err(e) && e is TMissingKey),
        !oaes_magic_marked(peeked@) && key is Some ==> (r matches Err(e) && e is TKeyForNonOAES),
        !oaes_magic_marked(peeked@) && key is None ==> (r matches Ok(k) && k is Plain),
        oaes_magic_marked(peeked@) && key is Some ==> ((r matches Ok(k) ==> k is Encrypted) && (
        r matches Err(e) ==> e is TRoaes)),
        oaes_magic_marked(peeked@) && (key matches Some(k) && k@.len() > OAES_MAX_KEY_BYTES) ==> (
        r matches Err(e) && e is TRoaes),
{
    let magic_number = sniff_oaes_marker(peeked);
    match (magic_number, key) {
        (true, Some(key)) => {
            if key.len() > OAES_MAX_KEY_BYTES {
                return Err(
                    TwrptarxError::TRoaes {
                        desc: "key is wider than the widest supported cipher key".to_owned(),
                    },
                );
            }
            let foundation = match decrypt_source(buf, key) {
                Ok(d) => d,
                Err(desc) => {
                    return Err(TwrptarxError::TRoaes { desc });
                },
            };
            let uncompressed = decompress_source(DecodedInput::Decrypted(foundation));
            Ok(TwrpTarKind::Encrypted(open_archive(uncompressed)))
        },
        (false, None) => {
            let uncompressed = decompress_source(DecodedInput::Plain(buf));
            Ok(TwrpTarKind::Plain(open_archive(uncompressed)))
        },
        (true, None) => Err(TwrptarxError::TMissingKey),
        (false, Some(_)) => Err(TwrptarxError::TKeyForNonOAES),
    }
}

/// Sniffs a raw byte source for the encryption marker and composes the
/// backup stream: the source is buffered, peeked without consumption, and
/// handed with the peeked bytes to the policy table of
/// [`compose_sniffed`]. The result tags which pipeline shape was built.
pub fn try_iter_twrp_backup(src: RawSource, key: Option<&[u8]>) -> (r: Result<
    TwrpTarKind,
    TwrptarxError,
>)
    ensures
        r matches Ok(k) ==> (k is Encrypted <==> key is Some),
        r matches Err(e) ==> !(e is CallBackSignalError) && !(e is TIOTar),
        r matches Err(e) && e is TMissingKey ==> key is None,
        r matches Err(e) && e is TKeyForNonOAES ==> key is Some,
        r matches Err(e) && e is TRoaes ==> key is Some,
{
    let mut buf = buffer_source(src, PEEK_CAPACITY);
    let peeked = match peek_fill(&mut buf) {
        Ok(p) => p,
        Err(desc) => {
            return Err(TwrptarxError::TIO { desc });
        },
    };
    compose_sniffed(buf, &peeked, key)
}

} // verus!
