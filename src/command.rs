//! The format tag: one command identity per supported compression format.
use crate::normalize::{normalize, DecompressError, Input};
use nu_protocol::{ByteStream, PipelineData, PipelineMetadata, Signals, Span};
use vstd::prelude::*;

verus! {

/// A decompression command; each variant selects one compression format.
#[derive(Clone, Copy, Debug, PartialEq, Eq, Structural)]
pub enum DecompressCommand {
    Gzip,
    Zstd,
    Xz,
    Bzip2,
}

/// The name under which the host registers the command for `c`.
pub open spec fn command_name(c: DecompressCommand) -> Seq<char> {
    match c {
        DecompressCommand::Gzip => "from gz"@,
        DecompressCommand::Zstd => "from zst"@,
        DecompressCommand::Xz => "from xz"@,
        DecompressCommand::Bzip2 => "from bz2"@,
    }
}

/// The one-line human-readable description of the command for `c`.
pub open spec fn command_description(c: DecompressCommand) -> Seq<char> {
    match c {
        DecompressCommand::Gzip => "Decompress with gzip."@,
        DecompressCommand::Zstd => "Decompress with zstd."@,
        DecompressCommand::Xz => "Decompress with xz."@,
        DecompressCommand::Bzip2 => "Decompress with bzip2."@,
    }
}

impl DecompressCommand {
    /// The command's registered name.
    pub fn name(&self) -> (r: &'static str)
        ensures
            r@ == command_name(*self),
    {
        match self {
            DecompressCommand::Gzip => "from gz",
            DecompressCommand::Zstd => "from zst",
            DecompressCommand::Xz => "from xz",
            DecompressCommand::Bzip2 => "from bz2",
        }
    }

    /// The command's description.
    pub fn description(&self) -> (r: &'static str)
        ensures
            r@ == command_description(*self),
    {
        match self {
            DecompressCommand::Gzip => "Decompress with gzip.",
            DecompressCommand::Zstd => "Decompress with zstd.",
            DecompressCommand::Xz => "Decompress with xz.",
            DecompressCommand::Bzip2 => "Decompress with bzip2.",
        }
    }
}

/// The decoded output: a lazily decoding byte stream and the input's
/// metadata, to be handed back to the host together.
pub struct Decoded {
    pub stream: ByteStream,
    pub metadata: Option<PipelineMetadata>,
}

/// Relies on the `ByteStream` variant of `PipelineData`: the stream and its
/// metadata as one pipeline value.
#[verifier::external_body]
fn stream_data(stream: ByteStream, metadata: Option<PipelineMetadata>) -> PipelineData {
    PipelineData::ByteStream(stream, metadata)
}

/// Whether the input is a binary value of no bytes at all.
pub open spec fn is_empty_binary(input: Input) -> bool {
    input matches Input::Binary(bytes, _, _) && bytes@.len() == 0
}

impl DecompressCommand {
    /// Resolves `input` into a reader and decodes it with this command's
    /// format. Refusals come before any decoder is built. An empty binary
    /// value is valid input: it becomes an empty stream, in every format,
    /// without a decoder. A corrupt payload is only found by pulling from the
    /// returned stream, which also stops once `signals` reports a
    /// cancellation.
    pub fn decompress(&self, input: Input, head: Span, signals: &Signals) -> (r: Result<Decoded, DecompressError>)
        ensures
            input is Other <==> r matches Err(DecompressError::InputType { .. }),
            r matches Err(DecompressError::InputType { head: h, .. }) ==> h == head,
            r matches Err(DecompressError::CodecInit { .. }) ==> *self == DecompressCommand::Zstd
                && !is_empty_binary(input),
            input is Binary ==> !(r matches Err(DecompressError::SourceUnavailable { .. })),
            input is Binary && *self != DecompressCommand::Zstd ==> r is Ok,
            is_empty_binary(input) ==> r is Ok,
            input matches Input::Binary(_, _, metadata) ==> (r is Ok ==> r->Ok_0.metadata == metadata),
            input matches Input::Stream(_, metadata) ==> match r {
                Ok(d) => d.metadata == metadata,
                Err(e) => e is SourceUnavailable || e is CodecInit,
            },
    {
        let input = match input {
            Input::Binary(bytes, span, metadata) => {
                if bytes.len() == 0 {
                    let stream = ByteStream::read_binary(bytes, span, signals.clone());
                    return Ok(Decoded { stream, metadata });
                }
                Input::Binary(bytes, span, metadata)
            },
            other => other,
        };
        let source = match normalize(input, head, signals) {
            Ok(source) => source,
            Err(e) => return Err(e),
        };
        let span = source.span;
        let transducer = match self.transducer(source.reader) {
            Ok(t) => t,
            Err(error) => return Err(DecompressError::CodecInit { error }),
        };
        Ok(Decoded { stream: transducer.into_stream(span, signals.clone()), metadata: source.metadata })
    }

    /// Runs the command on the pipeline's input and hands the decoding
    /// stream back as a pipeline value with the input's metadata; any input
    /// other than a byte stream or a binary value is refused, anchored at
    /// `head`.
    pub fn run(&self, input: Input, head: Span, signals: &Signals) -> (r: Result<PipelineData, DecompressError>)
        ensures
            input is Other <==> r matches Err(DecompressError::InputType { .. }),
            r matches Err(DecompressError::InputType { head: h, .. }) ==> h == head,
            r matches Err(DecompressError::CodecInit { .. }) ==> *self == DecompressCommand::Zstd
                && !is_empty_binary(input),
            input is Binary ==> !(r matches Err(DecompressError::SourceUnavailable { .. })),
            input is Binary && *self != DecompressCommand::Zstd ==> r is Ok,
            is_empty_binary(input) ==> r is Ok,
            input is Stream ==> (r is Err ==> r matches Err(DecompressError::SourceUnavailable { .. })
                || r matches Err(DecompressError::CodecInit { .. })),
    {
        match self.decompress(input, head, signals) {
            Ok(d) => Ok(stream_data(d.stream, d.metadata)),
            Err(e) => Err(e),
        }
    }
}

} // verus!
