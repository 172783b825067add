//! Orchestration of one source-to-sink transcoding pass.
//!
//! A pipeline owns a decoder, an encoder and the two fixed-capacity buffers
//! between the stages, reused for every chunk.  Each read's worth of source
//! bytes is decoded, the produced units are drained through the encoder after
//! every decode call, and the encoded bytes are appended to the caller's
//! output.  Finalization fires exactly on the chunk marked as the end of the
//! source, after which the pipeline accepts no further input.
//!
//! The decoder is handed at most [`DECODER_FEED_LEN`] bytes per call, few
//! enough that the intermediate buffer always suffices for one call's output,
//! so the decoder never reports a full buffer; the encoder drain keeps the
//! two-status retry loop, bounded because a full output buffer always means
//! at least one unit of progress.

use vstd::prelude::*;
use vstd::slice::slice_subrange;

use crate::codec::{
    ascii_bytes, ascii_compatible, ascii_units, decoded_units, decoder_step, encoded_bytes,
    encoder_step, finalize_now, is_ascii_compatible, narrowed, widened, StageStatus,
    StreamDecoder, StreamEncoder,
};

verus! {

/// Capacity of the buffer one source read fills.
pub const INPUT_BUFFER_LEN: usize = 2048;

/// Capacity, in UTF-16 code units, of the buffer between the two stages.
pub const INTERMEDIATE_BUFFER_LEN: usize = 2048;

/// Capacity of the buffer the encoder writes into.
pub const OUTPUT_BUFFER_LEN: usize = 4096;

/// Most bytes handed to the decoder in one call: 16 units fewer than the
/// intermediate buffer holds, so one call can never need more room than the
/// buffer offers.
pub const DECODER_FEED_LEN: usize = INTERMEDIATE_BUFFER_LEN - 16;

/// One source-to-sink transcoding pass: a decoder, an encoder, and the two
/// buffers between the stages, reused for every chunk of the stream.
pub struct TranscodePipeline {
    decoder: StreamDecoder,
    encoder: StreamEncoder,
    intermediate: Vec<u16>,
    output: Vec<u8>,
    finished: bool,
    ascii_verbatim: bool,
}

impl TranscodePipeline {
    /// The encoding the source bytes are read in.
    pub closed spec fn source_encoding(&self) -> &'static encoding_rs::Encoding {
        self.decoder.encoding()
    }

    /// The encoding the emitted bytes are written in.
    pub closed spec fn destination_encoding(&self) -> &'static encoding_rs::Encoding {
        self.encoder.encoding()
    }

    /// Every source byte the pipeline has consumed, in order, over its life.
    pub closed spec fn src_fed(&self) -> Seq<u8> {
        self.decoder.fed()
    }

    /// Every byte the pipeline has emitted, in order, over its life.
    pub closed spec fn sink_emitted(&self) -> Seq<u8> {
        self.encoder.emitted()
    }

    /// Whether the stream's finalizing chunk has been processed; after that
    /// the pipeline accepts no further input.
    pub closed spec fn finished(&self) -> bool {
        self.finished
    }

    /// Whether the source and destination encodings both map ASCII bytes and
    /// ASCII characters to one another exclusively, so that an all-ASCII
    /// source passes through the pipeline verbatim.
    pub closed spec fn ascii_verbatim(&self) -> bool {
        self.ascii_verbatim
    }

    /// The pipeline's invariant: the stage buffers keep their fixed capacity;
    /// every decoded unit has been fed on to the encoder; both stages end
    /// their streams exactly when the pipeline finishes, at which point each
    /// stage's whole emission is the named conversion of everything fed to
    /// it; and a decoder that was never fed has emitted nothing.
    pub closed spec fn wf(&self) -> bool {
        &&& self.intermediate@.len() == INTERMEDIATE_BUFFER_LEN
        &&& self.output@.len() == OUTPUT_BUFFER_LEN
        &&& self.encoder.fed() == self.decoder.emitted()
        &&& self.decoder.done() == self.finished
        &&& self.encoder.done() == self.finished
        &&& (self.decoder.fed().len() == 0 ==> self.decoder.emitted().len() == 0)
        &&& (self.finished ==> self.decoder.emitted() == decoded_units(
            self.decoder.encoding(),
            self.decoder.fed(),
        ))
        &&& (self.finished ==> self.encoder.emitted() == encoded_bytes(
            self.encoder.encoding(),
            self.encoder.fed(),
        ))
        &&& self.ascii_verbatim == (ascii_compatible(self.decoder.encoding())
            && ascii_compatible(self.encoder.encoding()))
    }

    /// A pipeline bound to a resolved source and destination encoding, its
    /// finalization still ahead of it and nothing fed or emitted yet.
    pub fn new(
        source: &'static encoding_rs::Encoding,
        destination: &'static encoding_rs::Encoding,
    ) -> (r: TranscodePipeline)
        ensures
            r.wf(),
            !r.finished(),
            r.source_encoding() == source,
            r.destination_encoding() == destination,
            r.src_fed() == Seq::<u8>::empty(),
            r.sink_emitted() == Seq::<u8>::empty(),
            r.ascii_verbatim() == (ascii_compatible(source) && ascii_compatible(destination)),
    {
        TranscodePipeline {
            decoder: StreamDecoder::new(source),
            encoder: StreamEncoder::new(destination),
            intermediate: vec![0u16; INTERMEDIATE_BUFFER_LEN],
            output: vec![0u8; OUTPUT_BUFFER_LEN],
            finished: false,
            ascii_verbatim: is_ascii_compatible(source) && is_ascii_compatible(destination),
        }
    }

    /// Whether an all-ASCII source is owed verbatim in the output: both
    /// encodings map ASCII bytes and ASCII characters to one another
    /// exclusively.
    pub fn transcodes_ascii_verbatim(&self) -> (r: bool)
        ensures
            r == self.ascii_verbatim(),
    {
        self.ascii_verbatim
    }

    /// Whether the pipeline may be handed another chunk: its buffers are
    /// intact and finalization has not happened yet.
    pub fn is_ready(&self) -> (r: bool)
        ensures
            r ==> !self.finished(),
            self.wf() ==> (r <==> !self.finished()),
    {
        self.intermediate.len() == INTERMEDIATE_BUFFER_LEN && self.output.len()
            == OUTPUT_BUFFER_LEN && !self.finished
    }

    /// Processes one read's worth of source bytes: decodes every byte of the
    /// chunk exactly once, drains every unit produced through the encoder
    /// after each decode call, and appends exactly what the encoder emits to
    /// `out`.  `end_of_source` marks the stream's final read; exactly that
    /// call triggers finalization and finishes the pipeline, and once the
    /// pipeline has finished, its whole emission is the named transcode of
    /// everything it was ever fed.
    #[verifier::loop_isolation(false)]
    pub fn process_chunk(&mut self, chunk: &[u8], end_of_source: bool, out: &mut Vec<u8>)
        requires
            old(self).wf(),
            !old(self).finished(),
        ensures
            final(self).wf(),
            final(self).finished() <==> end_of_source,
            final(self).source_encoding() == old(self).source_encoding(),
            final(self).destination_encoding() == old(self).destination_encoding(),
            final(self).ascii_verbatim() == old(self).ascii_verbatim(),
            final(self).src_fed() == old(self).src_fed() + chunk@,
            final(self).sink_emitted().len() >= old(self).sink_emitted().len(),
            final(self).sink_emitted().subrange(0, old(self).sink_emitted().len() as int) == old(
                self,
            ).sink_emitted(),
            final(out)@ == old(out)@ + final(self).sink_emitted().skip(
                old(self).sink_emitted().len() as int,
            ),
            end_of_source ==> final(self).sink_emitted() == encoded_bytes(
                old(self).destination_encoding(),
                decoded_units(old(self).source_encoding(), final(self).src_fed()),
            ),
            end_of_source && old(self).src_fed().len() == 0 && chunk@.len() == 0 ==> final(out)@
                == old(out)@,
            end_of_source && old(self).ascii_verbatim() && ascii_bytes(final(self).src_fed())
                ==> final(self).sink_emitted() == final(self).src_fed(),
    {
        let ghost out0 = out@;
        let ghost emitted0 = old(self).encoder.emitted();
        let mut start: usize = 0;
        while chunk.len() - start > DECODER_FEED_LEN
            invariant
                start <= chunk@.len(),
                self.intermediate@.len() == INTERMEDIATE_BUFFER_LEN,
                self.output@.len() == OUTPUT_BUFFER_LEN,
                !self.decoder.done(),
                !self.encoder.done(),
                !self.finished,
                self.ascii_verbatim == old(self).ascii_verbatim,
                self.decoder.encoding() == old(self).decoder.encoding(),
                self.encoder.encoding() == old(self).encoder.encoding(),
                self.decoder.fed() == old(self).decoder.fed() + chunk@.subrange(0, start as int),
                self.encoder.fed() == self.decoder.emitted(),
                self.decoder.fed().len() == 0 ==> self.decoder.emitted().len() == 0,
                self.encoder.emitted().len() >= emitted0.len(),
                self.encoder.emitted().subrange(0, emitted0.len() as int) == emitted0,
                out@ == out0 + self.encoder.emitted().skip(emitted0.len() as int),
                chunk@.len() == 0 ==> self.encoder.emitted() == emitted0,
            decreases chunk@.len() - start,
        {
            let ghost emitted_mid = self.encoder.emitted();
            let feed_end = start + DECODER_FEED_LEN;
            let src = slice_subrange(chunk, start, feed_end);
            let (status, read, written) = decoder_step(
                &mut self.decoder,
                src,
                &mut self.intermediate,
                false,
            );
            let ghost prev_start = start;
            start = start + read;
            proof {
                assert(src@.subrange(0, read as int) =~= chunk@.subrange(
                    prev_start as int,
                    start as int,
                ));
                assert(self.decoder.fed() =~= old(self).decoder.fed() + chunk@.subrange(
                    0,
                    start as int,
                ));
            }
            let finalize = finalize_now(false, status);
            drain_intermediate(
                &mut self.encoder,
                self.intermediate.as_slice(),
                written,
                finalize,
                &mut self.output,
                out,
            );
            proof {
                assert(self.encoder.fed() =~= self.decoder.emitted());
                assert(self.encoder.emitted().subrange(0, emitted0.len() as int)
                    =~= emitted_mid.subrange(0, emitted0.len() as int));
                assert(self.encoder.emitted().skip(emitted0.len() as int) =~= emitted_mid.skip(
                    emitted0.len() as int,
                ) + self.encoder.emitted().skip(emitted_mid.len() as int));
            }
        }
        // the final feed of this chunk: the remaining bytes, with the end flag
        let ghost emitted_mid = self.encoder.emitted();
        let src = slice_subrange(chunk, start, chunk.len());
        let (status, read, written) = decoder_step(
            &mut self.decoder,
            src,
            &mut self.intermediate,
            end_of_source,
        );
        let ghost prev_start = start;
        start = start + read;
        proof {
            assert(src@.subrange(0, read as int) =~= chunk@.subrange(
                prev_start as int,
                start as int,
            ));
            assert(chunk@.subrange(0, chunk@.len() as int) =~= chunk@);
            assert(self.decoder.fed() =~= old(self).decoder.fed() + chunk@);
        }
        let finalize = finalize_now(end_of_source, status);
        drain_intermediate(
            &mut self.encoder,
            self.intermediate.as_slice(),
            written,
            finalize,
            &mut self.output,
            out,
        );
        if end_of_source {
            self.finished = true;
        }
        proof {
            assert(self.encoder.fed() =~= self.decoder.emitted());
            assert(self.encoder.emitted().subrange(0, emitted0.len() as int) =~= emitted_mid.subrange(
                0,
                emitted0.len() as int,
            ));
            assert(self.encoder.emitted().skip(emitted0.len() as int) =~= emitted_mid.skip(
                emitted0.len() as int,
            ) + self.encoder.emitted().skip(emitted_mid.len() as int));
            if old(self).src_fed().len() == 0 && chunk@.len() == 0 {
                assert(written == 0);
                assert(self.encoder.emitted() =~= emitted0);
                assert(out@ =~= out0);
            }
            if end_of_source && old(self).ascii_verbatim && ascii_bytes(self.decoder.fed()) {
                assert(ascii_units(widened(self.decoder.fed())));
                assert(narrowed(widened(self.decoder.fed())) =~= self.decoder.fed());
            }
        }
    }
}

/// Pushes the first `count` units of `units` through the encoder, appending
/// every byte the encoder writes into `scratch` onto `out`, until the encoder
/// has consumed them all.  A non-finalizing drain must not end with the high
/// half of a surrogate pair, which the decoder's character-boundary guarantee
/// supplies.  When `finalize` holds, this drain is the stream's finalizing
/// one: it ends the encoder's stream, and what the encoder has then emitted
/// over its whole life is the encoding of everything fed to it.
#[verifier::loop_isolation(false)]
fn drain_intermediate(
    encoder: &mut StreamEncoder,
    units: &[u16],
    count: usize,
    finalize: bool,
    scratch: &mut Vec<u8>,
    out: &mut Vec<u8>,
)
    requires
        !old(encoder).done(),
        count <= units@.len(),
        !finalize && count > 0 ==> !(0xd800 <= units@[count - 1] < 0xdc00),
        old(scratch)@.len() == OUTPUT_BUFFER_LEN,
    ensures
        final(scratch)@.len() == OUTPUT_BUFFER_LEN,
        final(encoder).encoding() == old(encoder).encoding(),
        final(encoder).fed() == old(encoder).fed() + units@.subrange(0, count as int),
        final(encoder).done() == finalize,
        final(encoder).emitted().len() >= old(encoder).emitted().len(),
        final(encoder).emitted().subrange(0, old(encoder).emitted().len() as int) == old(
            encoder,
        ).emitted(),
        final(out)@ == old(out)@ + final(encoder).emitted().skip(
            old(encoder).emitted().len() as int,
        ),
        finalize ==> final(encoder).emitted() == encoded_bytes(
            old(encoder).encoding(),
            final(encoder).fed(),
        ),
        finalize && ascii_compatible(old(encoder).encoding()) && ascii_units(
            final(encoder).fed(),
        ) ==> final(encoder).emitted() == narrowed(final(encoder).fed()),
        old(encoder).fed().len() == 0 && count == 0 ==> final(encoder).emitted() == old(
            encoder,
        ).emitted(),
{
    let ghost out0 = out@;
    let mut consumed: usize = 0;
    let mut pending = true;
    while pending
        invariant
            consumed <= count,
            count <= units@.len(),
            scratch@.len() == OUTPUT_BUFFER_LEN,
            encoder.encoding() == old(encoder).encoding(),
            encoder.fed() == old(encoder).fed() + units@.subrange(0, consumed as int),
            encoder.emitted().len() >= old(encoder).emitted().len(),
            encoder.emitted().subrange(0, old(encoder).emitted().len() as int) == old(
                encoder,
            ).emitted(),
            out@ == out0 + encoder.emitted().skip(old(encoder).emitted().len() as int),
            pending ==> !encoder.done(),
            !pending ==> consumed == count && encoder.done() == finalize,
            !pending && finalize ==> encoder.emitted() == encoded_bytes(
                old(encoder).encoding(),
                encoder.fed(),
            ),
            !pending && finalize && ascii_compatible(old(encoder).encoding()) && ascii_units(
                encoder.fed(),
            ) ==> encoder.emitted() == narrowed(encoder.fed()),
            old(encoder).fed().len() == 0 && count == 0 ==> encoder.emitted() == old(
                encoder,
            ).emitted(),
        decreases count - consumed + (if pending {
            1int
        } else {
            0int
        }),
    {
        let ghost emitted_before = encoder.emitted();
        let src = slice_subrange(units, consumed, count);
        let (status, read, written) = encoder_step(encoder, src, scratch, finalize);
        let ghost prev_consumed = consumed;
        consumed = consumed + read;
        proof {
            assert(src@.subrange(0, read as int) =~= units@.subrange(
                prev_consumed as int,
                consumed as int,
            ));
            assert(encoder.fed() =~= old(encoder).fed() + units@.subrange(0, consumed as int));
        }
        append_prefix(out, scratch, written);
        proof {
            assert(encoder.emitted().subrange(0, old(encoder).emitted().len() as int)
                =~= emitted_before.subrange(0, old(encoder).emitted().len() as int));
            assert(encoder.emitted().skip(old(encoder).emitted().len() as int)
                =~= emitted_before.skip(old(encoder).emitted().len() as int) + scratch@.subrange(
                0,
                written as int,
            ));
        }
        pending = status == StageStatus::BufferFull;
    }
}

/// Appends the first `n` bytes of `src` onto `out`.
fn append_prefix(out: &mut Vec<u8>, src: &Vec<u8>, n: usize)
    requires
        n <= src@.len(),
    ensures
        final(out)@ == old(out)@ + src@.subrange(0, n as int),
{
    let s = slice_subrange(src.as_slice(), 0, n);
    out.extend_from_slice(s);
}

/// Transcodes an in-memory source as the stream of reads that a fixed input
/// buffer yields: full slices of it, then the zero-length read that ends the
/// source.  `end_of_source` holds only for the last of the streams the
/// pipeline serves, so finalization fires once over the whole run; after a
/// finishing run, everything the pipeline emitted is the named transcode of
/// everything it was fed.
#[verifier::loop_isolation(false)]
pub fn convert(
    pipeline: &mut TranscodePipeline,
    source: &[u8],
    end_of_source: bool,
    out: &mut Vec<u8>,
)
    requires
        old(pipeline).wf(),
        !old(pipeline).finished(),
    ensures
        final(pipeline).wf(),
        final(pipeline).finished() <==> end_of_source,
        final(pipeline).source_encoding() == old(pipeline).source_encoding(),
        final(pipeline).destination_encoding() == old(pipeline).destination_encoding(),
        final(pipeline).ascii_verbatim() == old(pipeline).ascii_verbatim(),
        final(pipeline).src_fed() == old(pipeline).src_fed() + source@,
        final(pipeline).sink_emitted().len() >= old(pipeline).sink_emitted().len(),
        final(pipeline).sink_emitted().subrange(0, old(pipeline).sink_emitted().len() as int)
            == old(pipeline).sink_emitted(),
        final(out)@ == old(out)@ + final(pipeline).sink_emitted().skip(
            old(pipeline).sink_emitted().len() as int,
        ),
        end_of_source ==> final(pipeline).sink_emitted() == encoded_bytes(
            old(pipeline).destination_encoding(),
            decoded_units(old(pipeline).source_encoding(), final(pipeline).src_fed()),
        ),
        end_of_source && old(pipeline).src_fed().len() == 0 && source@.len() == 0 ==> final(out)@
            == old(out)@,
        end_of_source && old(pipeline).ascii_verbatim() && ascii_bytes(final(pipeline).src_fed())
            ==> final(pipeline).sink_emitted() == final(pipeline).src_fed(),
{
    let ghost out0 = out@;
    let ghost emitted0 = old(pipeline).sink_emitted();
    let mut pos: usize = 0;
    while pos < source.len()
        invariant
            pos <= source@.len(),
            pipeline.wf(),
            !pipeline.finished(),
            pipeline.ascii_verbatim() == old(pipeline).ascii_verbatim(),
            pipeline.source_encoding() == old(pipeline).source_encoding(),
            pipeline.destination_encoding() == old(pipeline).destination_encoding(),
            pipeline.src_fed() == old(pipeline).src_fed() + source@.subrange(0, pos as int),
            pipeline.sink_emitted().len() >= emitted0.len(),
            pipeline.sink_emitted().subrange(0, emitted0.len() as int) == emitted0,
            out@ == out0 + pipeline.sink_emitted().skip(emitted0.len() as int),
            source@.len() == 0 ==> pipeline.sink_emitted() == emitted0,
        decreases source@.len() - pos,
    {
        let end = if source.len() - pos < INPUT_BUFFER_LEN {
            source.len()
        } else {
            pos + INPUT_BUFFER_LEN
        };
        let ghost emitted_mid = pipeline.sink_emitted();
        let chunk = slice_subrange(source, pos, end);
        pipeline.process_chunk(chunk, false, out);
        proof {
            assert(pipeline.src_fed() =~= old(pipeline).src_fed() + source@.subrange(
                0,
                end as int,
            ));
            assert(pipeline.sink_emitted().subrange(0, emitted0.len() as int)
                =~= emitted_mid.subrange(0, emitted0.len() as int));
            assert(pipeline.sink_emitted().skip(emitted0.len() as int) =~= emitted_mid.skip(
                emitted0.len() as int,
            ) + pipeline.sink_emitted().skip(emitted_mid.len() as int));
        }
        pos = end;
    }
    let ghost emitted_mid = pipeline.sink_emitted();
    let ghost out_mid = out@;
    let tail = slice_subrange(source, pos, pos);
    pipeline.process_chunk(tail, end_of_source, out);
    proof {
        assert(source@.subrange(0, source@.len() as int) =~= source@);
        assert(pipeline.src_fed() =~= old(pipeline).src_fed() + source@);
        assert(pipeline.sink_emitted().subrange(0, emitted0.len() as int) =~= emitted_mid.subrange(
            0,
            emitted0.len() as int,
        ));
        assert(pipeline.sink_emitted().skip(emitted0.len() as int) =~= emitted_mid.skip(
            emitted0.len() as int,
        ) + pipeline.sink_emitted().skip(emitted_mid.len() as int));
        if end_of_source && old(pipeline).src_fed().len() == 0 && source@.len() == 0 {
            assert(out_mid =~= out0);
            assert(out@ =~= out0);
        }
    }
}

/// A finished run's whole emission is the one complete transcode —
/// finalization included, emitted exactly once — of everything the pipeline
/// was fed: the destination encoding of the lossy decode of the source bytes.
pub proof fn lemma_finished_emission(pipeline: &TranscodePipeline)
    requires
        pipeline.wf(),
        pipeline.finished(),
    ensures
        pipeline.sink_emitted() == encoded_bytes(
            pipeline.destination_encoding(),
            decoded_units(pipeline.source_encoding(), pipeline.src_fed()),
        ),
{
}

/// Chunk-boundary independence: what a finished pipeline emitted is a
/// function of its encodings and of the whole byte sequence it was fed, never
/// of how that sequence was cut into reads; two finished runs over the same
/// encodings and the same bytes emitted the same bytes.
pub proof fn lemma_split_independent(a: &TranscodePipeline, b: &TranscodePipeline)
    requires
        a.wf(),
        b.wf(),
        a.finished(),
        b.finished(),
        a.source_encoding() == b.source_encoding(),
        a.destination_encoding() == b.destination_encoding(),
        a.src_fed() == b.src_fed(),
    ensures
        a.sink_emitted() == b.sink_emitted(),
{
}

} // verus!
