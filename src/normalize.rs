//! The input normalizer: resolves the pipeline's input, whatever its shape,
//! into one pull-based reader with its location and metadata.
use nu_protocol::{ByteStream, PipelineData, PipelineMetadata, Reader, Signals, Span};
use vstd::prelude::*;

verus! {

/// The shapes in which the pipeline hands a command its input.
pub enum Input {
    /// Bytes that are already streaming, with the pipeline's metadata.
    Stream(ByteStream, Option<PipelineMetadata>),
    /// A fully materialized binary value, where it came from, and metadata.
    Binary(Vec<u8>, Span, Option<PipelineMetadata>),
    /// Anything else (text, records, lists, nothing), kept for the error.
    Other(PipelineData),
}

/// A reader resolved from the input, ready to be handed to a decoder.
pub struct Source {
    pub reader: Reader,
    /// Where the bytes came from, for errors raised while decoding.
    pub span: Span,
    /// The input's metadata, to be attached unchanged to the output.
    pub metadata: Option<PipelineMetadata>,
}

/// Why a command hands back no output stream.
#[derive(Debug)]
pub enum DecompressError {
    /// The input was neither a byte stream nor a binary value; anchored at
    /// the command's own call site.
    InputType { found: String, head: Span },
    /// The byte stream could not produce a reader; anchored at the data.
    SourceUnavailable { span: Span },
    /// The decoder could not be set up before any byte was read.
    CodecInit { error: std::io::Error },
}

/// Relies on `ByteStream::read_binary` and `ByteStream::reader`: a stream
/// over an owned buffer is read from a `Read` source, and such a source
/// always gives a reader.
#[verifier::external_body]
fn binary_reader(bytes: Vec<u8>, span: Span, signals: Signals) -> (r: Option<Reader>)
    ensures
        r is Some,
{
    ByteStream::read_binary(bytes, span, signals).reader()
}

/// Relies on `PipelineData::get_type` and `Type`'s `Display`: the name of the
/// input's type, as the host writes it.
#[verifier::external_body]
fn input_type_of(data: &PipelineData) -> String {
    data.get_type().to_string()
}

/// Completes a source from the reader that a byte stream gave, or did not.
pub fn attach(reader: Option<Reader>, span: Span, metadata: Option<PipelineMetadata>) -> (r: Result<Source, DecompressError>)
    ensures
        reader is None <==> r is Err,
        r is Err ==> r == Err::<Source, DecompressError>(DecompressError::SourceUnavailable { span }),
        r is Ok ==> r->Ok_0.reader == reader->Some_0 && r->Ok_0.span == span && r->Ok_0.metadata == metadata,
{
    match reader {
        Some(reader) => Ok(Source { reader, span, metadata }),
        None => Err(DecompressError::SourceUnavailable { span }),
    }
}

/// Resolves the input into a reader. Text and other non-binary values are
/// refused with an error anchored at `head`, the command's call site; a
/// binary value is read through a new stream that honours `signals`.
pub fn normalize(input: Input, head: Span, signals: &Signals) -> (r: Result<Source, DecompressError>)
    ensures
        input is Other <==> r matches Err(DecompressError::InputType { .. }),
        r matches Err(DecompressError::InputType { head: h, .. }) ==> h == head,
        !(r matches Err(DecompressError::CodecInit { .. })),
        input is Binary ==> r is Ok,
        input matches Input::Binary(_, span, metadata) ==> (r is Ok ==> r->Ok_0.span == span && r->Ok_0.metadata == metadata),
        input matches Input::Stream(_, metadata) ==> match r {
            Ok(s) => s.metadata == metadata,
            Err(e) => e is SourceUnavailable,
        },
{
    match input {
        Input::Stream(stream, metadata) => {
            let span = stream.span();
            attach(stream.reader(), span, metadata)
        },
        Input::Binary(bytes, span, metadata) => {
            attach(binary_reader(bytes, span, signals.clone()), span, metadata)
        },
        Input::Other(data) => Err(DecompressError::InputType { found: input_type_of(&data), head }),
    }
}

} // verus!
