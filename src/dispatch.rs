//! The format dispatcher: builds the decode transducer that the command's
//! format calls for, over the normalized reader, and exposes its output as a
//! byte stream for the host to pull from.
use crate::command::DecompressCommand;
use bzip2::bufread::BzDecoder;
use flate2::read::MultiGzDecoder;
use nu_protocol::{ByteStream, ByteStreamType, Reader, Signals, Span};
use std::io::BufReader;
use vstd::prelude::*;
use xz2::bufread::XzDecoder;

verus! {

#[verifier::external_type_specification]
#[verifier::external_body]
#[verifier::reject_recursive_types(R)]
pub struct ExMultiGzDecoder<R>(MultiGzDecoder<R>);

#[verifier::external_type_specification]
#[verifier::external_body]
#[verifier::reject_recursive_types(R)]
pub struct ExZstdDecoder<'a, R>(zstd::stream::read::Decoder<'a, R>);

#[verifier::external_type_specification]
#[verifier::external_body]
#[verifier::reject_recursive_types(R)]
pub struct ExXzDecoder<R>(XzDecoder<R>);

#[verifier::external_type_specification]
#[verifier::external_body]
#[verifier::reject_recursive_types(R)]
pub struct ExBzDecoder<R>(BzDecoder<R>);

#[verifier::external_type_specification]
#[verifier::external_body]
#[verifier::reject_recursive_types(R)]
pub struct ExBufReader<R: ?Sized>(BufReader<R>);

/// The zstd decoder as `zstd::stream::read::Decoder::new` builds it.
pub type ZstdDecoder = zstd::stream::read::Decoder<'static, BufReader<Reader>>;

/// A decode transducer: owns its reader and yields decoded bytes as it is
/// pulled from.
pub enum Transducer {
    Gzip(MultiGzDecoder<Reader>),
    Zstd(ZstdDecoder),
    Xz(XzDecoder<Reader>),
    Bzip2(BzDecoder<Reader>),
}

impl Transducer {
    /// The format that this transducer decodes.
    pub open spec fn format(&self) -> DecompressCommand {
        match self {
            Transducer::Gzip(_) => DecompressCommand::Gzip,
            Transducer::Zstd(_) => DecompressCommand::Zstd,
            Transducer::Xz(_) => DecompressCommand::Xz,
            Transducer::Bzip2(_) => DecompressCommand::Bzip2,
        }
    }
}

/// Relies on `flate2::read::MultiGzDecoder::new`: decodes every gzip member
/// of the input in turn. It parses the first member's header as it is
/// built, keeps any error for the first pull, and so cannot fail here.
#[verifier::external_body]
fn gzip_decoder(reader: Reader) -> MultiGzDecoder<Reader> {
    MultiGzDecoder::new(reader)
}

/// Relies on `zstd::stream::read::Decoder::new`: sets up a zstd decoding
/// context over the buffered reader, or reports why it could not.
#[verifier::external_body]
fn zstd_decoder(reader: Reader) -> std::io::Result<ZstdDecoder> {
    zstd::stream::read::Decoder::new(reader)
}

/// Relies on `xz2::bufread::XzDecoder::new`: decodes one xz stream; cannot
/// fail here.
#[verifier::external_body]
fn xz_decoder(reader: Reader) -> XzDecoder<Reader> {
    XzDecoder::new(reader)
}

/// Relies on `bzip2::bufread::BzDecoder::new`: decodes a bzip2 stream;
/// cannot fail here.
#[verifier::external_body]
fn bzip2_decoder(reader: Reader) -> BzDecoder<Reader> {
    BzDecoder::new(reader)
}

/// Relies on `ByteStream::read`: a binary stream that pulls from `reader`
/// and stops at the next pull once `signals` reports a cancellation.
#[verifier::external_body]
fn binary_stream<R: std::io::Read + Send + 'static>(reader: R, span: Span, signals: Signals) -> ByteStream {
    ByteStream::read(reader, span, signals, ByteStreamType::Binary)
}

/// Takes the outcome of setting up a zstd decoder.
pub fn zstd_transducer(decoder: std::io::Result<ZstdDecoder>) -> (r: std::io::Result<Transducer>)
    ensures
        match decoder {
            Ok(d) => r == Ok::<Transducer, std::io::Error>(Transducer::Zstd(d)),
            Err(e) => r == Err::<Transducer, std::io::Error>(e),
        },
{
    match decoder {
        Ok(d) => Ok(Transducer::Zstd(d)),
        Err(e) => Err(e),
    }
}

impl DecompressCommand {
    /// Builds the decode transducer for this command's format over `reader`.
    /// Only zstd sets anything up before the first pull, so only zstd can
    /// fail here.
    pub fn transducer(&self, reader: Reader) -> (r: std::io::Result<Transducer>)
        ensures
            r is Ok ==> r->Ok_0.format() == *self,
            *self != DecompressCommand::Zstd ==> r is Ok,
    {
        match self {
            DecompressCommand::Gzip => Ok(Transducer::Gzip(gzip_decoder(reader))),
            DecompressCommand::Zstd => zstd_transducer(zstd_decoder(reader)),
            DecompressCommand::Xz => Ok(Transducer::Xz(xz_decoder(reader))),
            DecompressCommand::Bzip2 => Ok(Transducer::Bzip2(bzip2_decoder(reader))),
        }
    }
}

impl Transducer {
    /// Wraps the transducer in a binary byte stream, tagged with `span` and
    /// watching `signals` for cancellation between pulls.
    pub fn into_stream(self, span: Span, signals: Signals) -> ByteStream {
        match self {
            Transducer::Gzip(d) => binary_stream(d, span, signals),
            Transducer::Zstd(d) => binary_stream(d, span, signals),
            Transducer::Xz(d) => binary_stream(d, span, signals),
            Transducer::Bzip2(d) => binary_stream(d, span, signals),
        }
    }
}

} // verus!
