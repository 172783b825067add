//! The two coder stages, their streaming protocol, and their model.
//!
//! A decode or encode call either consumes all of the input it was handed or
//! stops because the buffer it writes into has no room left; the two-valued
//! status drives the pipeline's retry loops.  Each stage carries a ghost
//! record of every byte or unit ever fed to it and everything it has emitted,
//! and a flag that latches when it completes its stream: once the stream has
//! ended the stage must not be used again.  The total emission of a completed
//! stream is a function of the stage's encoding and everything fed, named by
//! `decoded_units` and `encoded_bytes`; how the stream was cut into calls
//! does not appear in either name.

use vstd::prelude::*;

verus! {

/// Outcome of one decode or encode call.
#[derive(Clone, Copy, Debug, PartialEq, Eq, Structural)]
pub enum StageStatus {
    /// Every input byte or unit handed to the call was consumed.
    InputConsumed,
    /// The destination buffer filled before the input ran out; the caller must
    /// drain the buffer and present the unconsumed remainder again.
    BufferFull,
}

/// Stateful converter from source-encoding bytes to UTF-16 code units; it
/// retains an incomplete multi-byte sequence across calls.
#[verifier::external_type_specification]
#[verifier::external_body]
pub struct ExDecoder(encoding_rs::Decoder);

/// Stateful converter from UTF-16 code units to destination-encoding bytes;
/// it retains pending shift state across calls until finalization.
#[verifier::external_type_specification]
#[verifier::external_body]
pub struct ExEncoder(encoding_rs::Encoder);

/// The lossy decode of a whole byte stream: the UTF-16 code units that a
/// fresh decoder for `encoding` emits over a complete stream whose bytes,
/// in order, are `fed` — a function of the encoding and those bytes alone,
/// however the stream was cut into calls.
pub uninterp spec fn decoded_units(encoding: &'static encoding_rs::Encoding, fed: Seq<u8>) -> Seq<
    u16,
>;

/// The encoding of a whole unit stream, finalization included: the bytes that
/// a fresh encoder for `encoding` emits over a complete stream whose units,
/// in order, are `fed`, handed over in calls none of which ends between the
/// halves of a surrogate pair — a function of the encoding and those units
/// alone, wherever else the stream was cut into calls (an unpaired surrogate
/// within the sequence is replaced the same way at any cut).
pub uninterp spec fn encoded_bytes(encoding: &'static encoding_rs::Encoding, fed: Seq<u16>) -> Seq<
    u8,
>;

/// Whether bytes 0x00 through 0x7F and the characters U+0000 through U+007F
/// map to one another exclusively in this encoding: what
/// Encoding::is_ascii_compatible reports, a constant of the descriptor.
pub uninterp spec fn ascii_compatible(encoding: &'static encoding_rs::Encoding) -> bool;

/// Every byte is ASCII.
pub open spec fn ascii_bytes(s: Seq<u8>) -> bool {
    forall|i: int| 0 <= i < s.len() ==> #[trigger] s[i] < 0x80
}

/// Every unit is an ASCII code point.
pub open spec fn ascii_units(s: Seq<u16>) -> bool {
    forall|i: int| 0 <= i < s.len() ==> #[trigger] s[i] < 0x80
}

/// The byte sequence read as UTF-16 code units, one for one.
pub open spec fn widened(s: Seq<u8>) -> Seq<u16> {
    Seq::new(s.len(), |i: int| s[i] as u16)
}

/// The unit sequence cut down to bytes, one for one.
pub open spec fn narrowed(s: Seq<u16>) -> Seq<u8> {
    Seq::new(s.len(), |i: int| s[i] as u8)
}

/// Relies on encoding_rs::Encoding::is_ascii_compatible: whether ASCII bytes
/// and the ASCII characters map to one another exclusively, a function of the
/// descriptor alone.
#[verifier::external_body]
pub(crate) fn is_ascii_compatible(encoding: &'static encoding_rs::Encoding) -> (r: bool)
    ensures
        r == ascii_compatible(encoding),
{
    encoding.is_ascii_compatible()
}

/// A decoder together with the model of its stream: which encoding it is
/// bound to, every byte it has consumed, every unit it has emitted, and
/// whether its stream has ended.
pub struct StreamDecoder {
    inner: encoding_rs::Decoder,
    encoding: Ghost<&'static encoding_rs::Encoding>,
    fed: Ghost<Seq<u8>>,
    emitted: Ghost<Seq<u16>>,
    done: Ghost<bool>,
}

/// An encoder together with the model of its stream: which encoding it is
/// bound to, every unit it has consumed, every byte it has emitted, and
/// whether its stream has ended (finalization emitted).
pub struct StreamEncoder {
    inner: encoding_rs::Encoder,
    encoding: Ghost<&'static encoding_rs::Encoding>,
    fed: Ghost<Seq<u16>>,
    emitted: Ghost<Seq<u8>>,
    done: Ghost<bool>,
}

/// Relies on encoding_rs::Encoding::new_decoder: a fresh decoder bound to
/// this encoding, holding no residue of any earlier stream.
#[verifier::external_body]
fn new_raw_decoder(encoding: &'static encoding_rs::Encoding) -> (r: encoding_rs::Decoder) {
    encoding.new_decoder()
}

/// Relies on encoding_rs::Encoding::new_encoder: a fresh encoder bound to
/// this encoding, with finalization still pending.
#[verifier::external_body]
fn new_raw_encoder(encoding: &'static encoding_rs::Encoding) -> (r: encoding_rs::Encoder) {
    encoding.new_encoder()
}

impl StreamDecoder {
    /// The encoding this decoder is bound to.
    pub closed spec fn encoding(&self) -> &'static encoding_rs::Encoding {
        self.encoding@
    }

    /// Every byte this decoder has consumed, in order, over its whole life.
    pub closed spec fn fed(&self) -> Seq<u8> {
        self.fed@
    }

    /// Every unit this decoder has emitted, in order, over its whole life.
    pub closed spec fn emitted(&self) -> Seq<u16> {
        self.emitted@
    }

    /// Whether this decoder's stream has ended; a finished decoder must not
    /// be handed further input.
    pub closed spec fn done(&self) -> bool {
        self.done@
    }

    /// A fresh decoder for one stream in the given encoding.
    pub fn new(encoding: &'static encoding_rs::Encoding) -> (r: StreamDecoder)
        ensures
            r.encoding() == encoding,
            r.fed() == Seq::<u8>::empty(),
            r.emitted() == Seq::<u16>::empty(),
            !r.done(),
    {
        StreamDecoder {
            inner: new_raw_decoder(encoding),
            encoding: Ghost(encoding),
            fed: Ghost(Seq::empty()),
            emitted: Ghost(Seq::empty()),
            done: Ghost(false),
        }
    }
}

impl StreamEncoder {
    /// The encoding this encoder is bound to.
    pub closed spec fn encoding(&self) -> &'static encoding_rs::Encoding {
        self.encoding@
    }

    /// Every unit this encoder has consumed, in order, over its whole life.
    pub closed spec fn fed(&self) -> Seq<u16> {
        self.fed@
    }

    /// Every byte this encoder has emitted, in order, over its whole life.
    pub closed spec fn emitted(&self) -> Seq<u8> {
        self.emitted@
    }

    /// Whether this encoder's stream has ended, its finalization emitted; a
    /// finished encoder must not be handed further input.
    pub closed spec fn done(&self) -> bool {
        self.done@
    }

    /// A fresh encoder for one stream in the given encoding.
    pub fn new(encoding: &'static encoding_rs::Encoding) -> (r: StreamEncoder)
        ensures
            r.encoding() == encoding,
            r.fed() == Seq::<u16>::empty(),
            r.emitted() == Seq::<u8>::empty(),
            !r.done(),
    {
        StreamEncoder {
            inner: new_raw_encoder(encoding),
            encoding: Ghost(encoding),
            fed: Ghost(Seq::empty()),
            emitted: Ghost(Seq::empty()),
            done: Ghost(false),
        }
    }
}

/// Relies on encoding_rs::Decoder::decode_to_utf16.  Bounds: it reads at most
/// the bytes handed to it, writes at most the buffer's length in units, never
/// resizes the buffer, and reports the input exhausted only when it consumed
/// every byte.  The buffer must offer at least the documented two units of
/// space, and a decoder whose stream has ended (a call with the last flag
/// that consumed everything) panics if used again, so such a call is ruled
/// out.  Progress: a buffer of at least max_utf16_buffer_length is documented
/// to rule out the full-buffer status, and that quantity never exceeds the
/// input length plus 16 units, over every converter variant and
/// byte-order-mark state.  Model: the consumed prefix extends the fed record,
/// the written prefix extends the emitted record; when the stream ends, the
/// whole emission is the lossy decode of the whole fed record, a function of
/// the encoding and those bytes alone (the streaming calls compose to the
/// conversion of the concatenated input); the written units end on a
/// character boundary (the documented guarantee that the last character's
/// unit sequence is never split across output buffers), so they never end
/// with the unpaired high half of a surrogate pair; a decoder that was never
/// fed and is handed nothing emits nothing.  In an ASCII-compatible encoding
/// every lead and byte-order-mark byte is 0x80 or above, so a stream of
/// ASCII bytes holds none, and each byte decodes alone to its own code
/// point.
#[verifier::external_body]
pub(crate) fn decoder_step(
    decoder: &mut StreamDecoder,
    src: &[u8],
    dst: &mut Vec<u16>,
    last: bool,
) -> (r: (StageStatus, usize, usize))
    requires
        !old(decoder).done(),
        old(dst)@.len() >= 2,
    ensures
        final(decoder).encoding() == old(decoder).encoding(),
        final(dst)@.len() == old(dst)@.len(),
        r.1 <= src@.len(),
        r.2 <= final(dst)@.len(),
        r.0 is InputConsumed ==> r.1 == src@.len(),
        src@.len() + 16 <= old(dst)@.len() ==> r.0 is InputConsumed,
        final(decoder).fed() == old(decoder).fed() + src@.subrange(0, r.1 as int),
        final(decoder).emitted() == old(decoder).emitted() + final(dst)@.subrange(0, r.2 as int),
        final(decoder).done() == (last && r.0 is InputConsumed),
        final(decoder).done() ==> final(decoder).emitted() == decoded_units(
            old(decoder).encoding(),
            final(decoder).fed(),
        ),
        final(decoder).done() && ascii_compatible(old(decoder).encoding()) && ascii_bytes(
            final(decoder).fed(),
        ) ==> final(decoder).emitted() == widened(final(decoder).fed()),
        r.2 > 0 ==> !(0xd800 <= final(dst)@[r.2 - 1] < 0xdc00),
        old(decoder).fed().len() == 0 && src@.len() == 0 ==> r.2 == 0,
{
    let (result, read, written, _) = decoder.inner.decode_to_utf16(src, dst.as_mut_slice(), last);
    let status = match result {
        encoding_rs::CoderResult::InputEmpty => StageStatus::InputConsumed,
        encoding_rs::CoderResult::OutputFull => StageStatus::BufferFull,
    };
    (status, read, written)
}

/// Relies on encoding_rs::Encoder::encode_from_utf16.  Bounds: it reads at
/// most the units handed to it, writes at most the buffer's length in bytes,
/// never resizes the buffer, and reports the input exhausted only when it
/// consumed every unit; an encoder whose stream has ended must not be used
/// again, so such a call is ruled out, and — since the encoder keeps no
/// surrogate state across calls and replaces a high surrogate standing last
/// in a non-final buffer with the replacement character at once — so is a
/// non-final call whose input ends with the high half of a surrogate pair.  Progress: with at least 32 bytes of
/// space a full-buffer return has consumed at least one unit — the method
/// reserves 10 bytes for a numeric character reference and otherwise stops
/// only when a unit's output (at most a shift sequence plus one character's
/// bytes) cannot fit the remaining space.  Model: the consumed prefix extends
/// the fed record, the written prefix extends the emitted record; when the
/// stream ends, the whole emission, finalization included, is the encoding of
/// the whole fed record, a function of the encoding and those units alone;
/// an encoder that was never fed and is handed nothing emits nothing, since
/// it is still in its initial shift state.  An ASCII-compatible encoding
/// maps each ASCII code point to its own byte, its encoder holds no shift
/// state, and finalization adds nothing; the guard excludes ISO-2022-JP,
/// whose encoder turns the code points 0x0E, 0x0F and 0x1B into numeric
/// character references.
#[verifier::external_body]
pub(crate) fn encoder_step(
    encoder: &mut StreamEncoder,
    src: &[u16],
    dst: &mut Vec<u8>,
    last: bool,
) -> (r: (StageStatus, usize, usize))
    requires
        !old(encoder).done(),
        !last ==> src@.len() == 0 || !(0xd800 <= src@[src@.len() - 1] < 0xdc00),
    ensures
        final(encoder).encoding() == old(encoder).encoding(),
        final(dst)@.len() == old(dst)@.len(),
        r.1 <= src@.len(),
        r.2 <= final(dst)@.len(),
        r.0 is InputConsumed ==> r.1 == src@.len(),
        32 <= old(dst)@.len() && r.0 is BufferFull ==> 1 <= r.1,
        final(encoder).fed() == old(encoder).fed() + src@.subrange(0, r.1 as int),
        final(encoder).emitted() == old(encoder).emitted() + final(dst)@.subrange(0, r.2 as int),
        final(encoder).done() == (last && r.0 is InputConsumed),
        final(encoder).done() ==> final(encoder).emitted() == encoded_bytes(
            old(encoder).encoding(),
            final(encoder).fed(),
        ),
        final(encoder).done() && ascii_compatible(old(encoder).encoding()) && ascii_units(
            final(encoder).fed(),
        ) ==> final(encoder).emitted() == narrowed(final(encoder).fed()),
        old(encoder).fed().len() == 0 && src@.len() == 0 ==> r.2 == 0,
{
    let (result, read, written, _) = encoder.inner.encode_from_utf16(src, dst.as_mut_slice(), last);
    let status = match result {
        encoding_rs::CoderResult::InputEmpty => StageStatus::InputConsumed,
        encoding_rs::CoderResult::OutputFull => StageStatus::BufferFull,
    };
    (status, read, written)
}

/// Finalization is owed exactly when the end of the source has been reached
/// and the decode call that observed it consumed all of its input: a full
/// buffer means more decode rounds remain even on the last read.
pub open spec fn spec_finalize_now(end_of_source: bool, decode_status: StageStatus) -> bool {
    end_of_source && decode_status is InputConsumed
}

/// Decides whether the encoder drain that follows a decode call is the
/// stream's one finalizing drain.
pub fn finalize_now(end_of_source: bool, decode_status: StageStatus) -> (r: bool)
    ensures
        r == spec_finalize_now(end_of_source, decode_status),
{
    end_of_source && decode_status == StageStatus::InputConsumed
}

/// Finalization is never requested before the end of the source, and never on
/// a decode round that left input unconsumed.
pub proof fn lemma_finalize_only_at_end(end_of_source: bool, decode_status: StageStatus)
    ensures
        !end_of_source ==> !spec_finalize_now(end_of_source, decode_status),
        decode_status is BufferFull ==> !spec_finalize_now(end_of_source, decode_status),
        spec_finalize_now(end_of_source, decode_status) ==> end_of_source
            && decode_status is InputConsumed,
{
}

} // verus!
