//! The host pipeline's types, as this library sees them: opaque values that
//! are carried through, and the few calls that make and take them apart.
use nu_protocol::{ByteStream, PipelineData, PipelineMetadata, Reader, Signals, Span};
use vstd::prelude::*;

verus! {

#[verifier::external_type_specification]
#[verifier::external_body]
pub struct ExPipelineData(PipelineData);

#[verifier::external_type_specification]
#[verifier::external_body]
pub struct ExPipelineMetadata(PipelineMetadata);

#[verifier::external_type_specification]
#[verifier::external_body]
pub struct ExByteStream(ByteStream);

#[verifier::external_type_specification]
#[verifier::external_body]
pub struct ExReader(Reader);

#[verifier::external_type_specification]
#[verifier::external_body]
pub struct ExSignals(Signals);

#[verifier::external_type_specification]
#[verifier::external_body]
pub struct ExSpan(Span);

#[verifier::external_type_specification]
#[verifier::external_body]
pub struct ExIoError(std::io::Error);

/// Relies on `ByteStream::span`: the location the stream's bytes came from.
pub assume_specification[ ByteStream::span ](s: &ByteStream) -> Span;

/// Relies on `ByteStream::reader`: a pull-based reader over the stream, or
/// `None` where the stream has none left to give.
pub assume_specification[ ByteStream::reader ](s: ByteStream) -> Option<Reader>;

/// Relies on `ByteStream::read_binary`: a binary stream over an owned buffer
/// that consults `signals` between reads.
pub assume_specification[ ByteStream::read_binary ](bytes: Vec<u8>, span: Span, signals: Signals) -> ByteStream;

/// Relies on the derived `Clone` of `Signals`: a second handle on the same
/// cancellation flag.
pub assume_specification[ <Signals as Clone>::clone ](s: &Signals) -> Signals;

} // verus!
