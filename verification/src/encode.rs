//! The encoder: a single pass over the pixel buffer that emits, for every
//! pixel, the shortest legal opcode, preceded by the header and followed by
//! the end marker.
//!
//! The specification functions in this module define the emitted stream
//! byte for byte: [`spec_step`] is one transition of the opcode-selection
//! machine, [`spec_fold`] runs it over a pixel sequence, and
//! [`spec_encoded_stream`] is the complete stream.  `encode` ensures that the
//! sink receives exactly that stream.

use crate::constants::{QOI_OP_DIFF, QOI_OP_INDEX, QOI_OP_LUMA, QOI_OP_RGB, QOI_OP_RGBA, QOI_OP_RUN};
use crate::error::Error;
use crate::header::{spec_header_bytes, ColorChannel, ColorSpace, Header, QOI_HEADER_SIZE};
use crate::pixel::{initial_pixel, spec_index_hash, zero_pixel, Pixel, PixelView, SupportedChannels};
use crate::writer::Writer;
use vstd::prelude::*;

verus! {

/// State of the opcode-selection machine, together with the opcode bytes
/// emitted so far (header not included).
pub ghost struct EncState {
    /// Opcode bytes emitted so far.
    pub out: Seq<u8>,
    /// The last pixel processed; the first pixel is compared against opaque black.
    pub prev: PixelView,
    /// The 64-slot direct-mapped cache of recently seen pixels.
    pub cache: Seq<PixelView>,
    /// Length of the current run of identical pixels, seen but not yet flushed.
    pub run: nat,
}

/// The state every encode call starts from: nothing emitted, previous pixel
/// opaque black, the cache full of true zero pixels, no pending run.
pub open spec fn initial_state() -> EncState {
    EncState {
        out: Seq::empty(),
        prev: initial_pixel(),
        cache: Seq::new(64, |i: int| zero_pixel()),
        run: 0,
    }
}

/// The one-byte run opcode for a run of `run` pixels (1 to 62): the length
/// minus one in the low six bits.
pub open spec fn spec_run_opcode(run: nat) -> u8
    recommends
        1 <= run <= 62,
{
    QOI_OP_RUN | (run - 1) as u8
}

/// The bytes that encode pixel `p` after `prev` once run and cache have been
/// ruled out: RGBA fallback on an alpha change (four-channel streams only),
/// else small-difference, else luma difference, else raw RGB — the first
/// matching opcode wins.
pub open spec fn spec_pixel_opcode(p: PixelView, prev: PixelView, channels: ColorChannel) -> Seq<
    u8,
> {
    if channels is Rgba && p.a != prev.a {
        seq![QOI_OP_RGBA, p.r, p.g, p.b, p.a]
    } else {
        let dr = p.r.wrapping_sub(prev.r);
        let dg = p.g.wrapping_sub(prev.g);
        let db = p.b.wrapping_sub(prev.b);
        if dr.wrapping_add(2) <= 3 && dg.wrapping_add(2) <= 3 && db.wrapping_add(2) <= 3 {
            seq![
                QOI_OP_DIFF | (dr.wrapping_add(2) << 4) | (dg.wrapping_add(2) << 2)
                    | db.wrapping_add(2),
            ]
        } else {
            let dr_dg = dr.wrapping_sub(dg);
            let db_dg = db.wrapping_sub(dg);
            if dg.wrapping_add(32) <= 63 && dr_dg.wrapping_add(8) <= 15 && db_dg.wrapping_add(8)
                <= 15 {
                seq![
                    QOI_OP_LUMA | dg.wrapping_add(32),
                    (dr_dg.wrapping_add(8) << 4) | db_dg.wrapping_add(8),
                ]
            } else {
                seq![QOI_OP_RGB, p.r, p.g, p.b]
            }
        }
    }
}

/// One transition of the machine on pixel `p`.
///
/// A pixel equal to the previous one only grows the pending run, flushing it
/// when it reaches the maximum of 62.  A break first flushes any pending run,
/// then either hits the cache — one index byte, cache untouched — or misses,
/// in which case the slot is overwritten and the pixel is encoded by
/// [`spec_pixel_opcode`].
pub open spec fn spec_step(s: EncState, p: PixelView, channels: ColorChannel) -> EncState {
    if p == s.prev {
        if s.run + 1 == 62 {
            EncState { out: s.out.push(spec_run_opcode(62)), prev: p, cache: s.cache, run: 0 }
        } else {
            EncState { out: s.out, prev: p, cache: s.cache, run: s.run + 1 }
        }
    } else {
        let flushed = if s.run > 0 {
            s.out.push(spec_run_opcode(s.run))
        } else {
            s.out
        };
        let h = spec_index_hash(p);
        if s.cache[h] == p {
            EncState {
                out: flushed.push(QOI_OP_INDEX | spec_index_hash(p) as u8),
                prev: p,
                cache: s.cache,
                run: 0,
            }
        } else {
            EncState {
                out: flushed + spec_pixel_opcode(p, s.prev, channels),
                prev: p,
                cache: s.cache.update(h, p),
                run: 0,
            }
        }
    }
}

/// The machine run from state `s` over a whole pixel sequence.
pub open spec fn spec_fold(s: EncState, ps: Seq<PixelView>, channels: ColorChannel) -> EncState
    decreases ps.len(),
{
    if ps.len() == 0 {
        s
    } else {
        spec_step(spec_fold(s, ps.drop_last(), channels), ps.last(), channels)
    }
}

/// The fixed eight bytes that end every stream.
pub open spec fn spec_end_marker() -> Seq<u8> {
    seq![0u8, 0u8, 0u8, 0u8, 0u8, 0u8, 0u8, 1u8]
}

/// The pixel count the dimensions announce: width times height, saturated at
/// `usize::MAX` exactly as the implementation computes it.
pub open spec fn spec_image_size(width: u32, height: u32) -> usize {
    if width * height <= usize::MAX {
        (width * height) as usize
    } else {
        usize::MAX
    }
}

/// The views of a pixel slice, in order.
pub open spec fn spec_pixel_views<const N: usize>(ps: Seq<Pixel<N>>) -> Seq<PixelView> {
    ps.map_values(|p: Pixel<N>| p@)
}

/// The complete stream `encode` emits for a pixel sequence: header, the
/// opcodes of every pixel, the flush of a run still pending at the end, and
/// the end marker.
pub open spec fn spec_encoded_stream(
    ps: Seq<PixelView>,
    channels: ColorChannel,
    width: u32,
    height: u32,
    color_space: ColorSpace,
) -> Seq<u8> {
    let st = spec_fold(initial_state(), ps, channels);
    let flush = if st.run > 0 {
        seq![spec_run_opcode(st.run)]
    } else {
        Seq::<u8>::empty()
    };
    spec_header_bytes(Header { width, height, channels, color_space }) + st.out + flush
        + spec_end_marker()
}

/// Every pixel contributes at most five bytes, counting the pending run as
/// one byte not yet emitted.
proof fn lemma_fold_out_len(s: EncState, ps: Seq<PixelView>, channels: ColorChannel)
    ensures
        spec_fold(s, ps, channels).out.len() + spec_fold(s, ps, channels).run <= s.out.len()
            + s.run + 5 * ps.len(),
    decreases ps.len(),
{
    if ps.len() > 0 {
        lemma_fold_out_len(s, ps.drop_last(), channels);
    }
}

/// Encode `pixels` as a QOI stream into `writer`: header, one opcode per
/// pixel transition, end marker.
///
/// Fails with [`Error::UnmatchedDataSize`] — before anything is written —
/// exactly when the buffer length differs from `width * height`, and
/// otherwise only propagates a sink failure; a sink that never fails makes
/// the whole call succeed.  On success the sink has received exactly
/// [`spec_encoded_stream`] for the pixel views, and the returned count is
/// that stream's length.
#[verifier::rlimit(100)]
pub fn encode<W: Writer, const N: usize>(
    writer: &mut W,
    pixels: &[Pixel<N>],
    width: u32,
    height: u32,
    color_space: ColorSpace,
) -> (r: Result<usize, Error>) where Pixel<N>: SupportedChannels
    requires
        pixels@.len() == spec_image_size(width, height) ==> 5 * pixels@.len() + 23 <= usize::MAX,
    ensures
        ({
            let ps = spec_pixel_views(pixels@);
            let channels = <Pixel<N> as SupportedChannels>::spec_color_channel();
            let stream = spec_encoded_stream(ps, channels, width, height, color_space);
            match r {
                Ok(n) => pixels@.len() == spec_image_size(width, height) && final(writer).bytes()
                    == old(writer).bytes() + stream && n == stream.len(),
                Err(Error::UnmatchedDataSize { data_size, header_size }) => pixels@.len()
                    != spec_image_size(width, height) && data_size == pixels@.len() && header_size
                    == spec_image_size(width, height) && final(writer).bytes() == old(
                    writer,
                ).bytes(),
                Err(e) => e is IoError && pixels@.len() == spec_image_size(width, height) && !old(
                    writer,
                ).never_fails(),
            }
        }),
        old(writer).never_fails() && pixels@.len() == spec_image_size(width, height) ==> r is Ok,
{
    let ghost ps = spec_pixel_views(pixels@);
    let ghost chan = <Pixel<N> as SupportedChannels>::spec_color_channel();

    // Validate the buffer length against the declared dimensions.
    let image_size: usize = match (width as usize).checked_mul(height as usize) {
        Some(s) => s,
        None => usize::MAX,
    };
    proof {
        assert(image_size == spec_image_size(width, height));
    }
    if pixels.len() != image_size {
        return Err(
            Error::UnmatchedDataSize { data_size: pixels.len(), header_size: image_size },
        );
    }
    let mut written: usize = 0;

    // Write the header.
    let channels = <Pixel<N> as SupportedChannels>::color_channel();
    let header = Header::new(width, height, channels, color_space);
    let header_bytes = header.as_bytes();
    let n = match writer.write_from_slice(header_bytes.as_slice()) {
        Ok(n) => n,
        Err(e) => {
            return Err(e);
        },
    };
    written += n;

    let mut previous_pixel = <Pixel<N> as SupportedChannels>::new_initial();
    let mut seen_pixels: [Pixel<4>; 64] = [Pixel::<4>::default(); 64];
    let mut run: u8 = 0;
    let mut idx: usize = 0;

    proof {
        assert(ps.take(0) =~= Seq::<PixelView>::empty());
        assert(writer.bytes() =~= old(writer).bytes() + spec_header_bytes(header)
            + initial_state().out);
    }
    while idx < pixels.len()
        invariant
            idx <= pixels@.len(),
            ps == spec_pixel_views(pixels@),
            ps.len() == pixels@.len(),
            chan == <Pixel<N> as SupportedChannels>::spec_color_channel(),
            channels == chan,
            header == (Header { width, height, channels: chan, color_space }),
            pixels@.len() == spec_image_size(width, height),
            5 * pixels@.len() + 23 <= usize::MAX,
            run <= 61,
            seen_pixels@.len() == 64,
            ({
                let st = spec_fold(initial_state(), ps.take(idx as int), chan);
                &&& st.cache.len() == 64
                &&& writer.bytes() == old(writer).bytes() + spec_header_bytes(header) + st.out
                &&& previous_pixel@ == st.prev
                &&& run as nat == st.run
                &&& (forall|k: int| 0 <= k < 64 ==> seen_pixels@[k]@ == st.cache[k])
                &&& written == QOI_HEADER_SIZE + st.out.len()
            }),
            old(writer).never_fails() ==> writer.never_fails(),
        decreases pixels@.len() - idx,
    {
        let ghost st = spec_fold(initial_state(), ps.take(idx as int), chan);
        let pixel = pixels[idx];
        proof {
            assert(ps[idx as int] == pixel@);
            assert(ps.take(idx as int + 1).drop_last() =~= ps.take(idx as int));
            assert(ps.take(idx as int + 1).last() == ps[idx as int]);
            assert(spec_fold(initial_state(), ps.take(idx as int + 1), chan) == spec_step(
                st,
                pixel@,
                chan,
            ));
            lemma_fold_out_len(initial_state(), ps.take(idx as int), chan);
        }
        if pixel == previous_pixel {
            run += 1;
            // A run can carry at most 62 pixels: flush as soon as it fills.
            if run == 62 {
                let n = match writer.write_byte(QOI_OP_RUN | (run - 1)) {
                    Ok(n) => n,
                    Err(e) => {
                        return Err(e);
                    },
                };
                written += n;
                run = 0;
            }
        } else {
            // A break: flush the pending run before encoding this pixel.
            if run > 0 {
                let n = match writer.write_byte(QOI_OP_RUN | (run - 1)) {
                    Ok(n) => n,
                    Err(e) => {
                        return Err(e);
                    },
                };
                written += n;
                run = 0;
            }
            let index = pixel.index_hash();
            if pixel.as_rgba() == seen_pixels[index] {
                // Cache hit: the cheapest opcode, one index byte.
                let n = match writer.write_byte(QOI_OP_INDEX | index as u8) {
                    Ok(n) => n,
                    Err(e) => {
                        return Err(e);
                    },
                };
                written += n;
            } else {
                // Cache miss: remember the pixel, whatever opcode follows.
                seen_pixels[index] = pixel.as_rgba();
                if channels == ColorChannel::Rgba && pixel.alpha() != previous_pixel.alpha() {
                    // An alpha change: only the full RGBA opcode can carry it.
                    let n = match writer.write_byte(QOI_OP_RGBA) {
                        Ok(n) => n,
                        Err(e) => {
                            return Err(e);
                        },
                    };
                    written += n;
                    let rgba = pixel.as_inner_rgba();
                    let n = match writer.write_from_slice(rgba.as_slice()) {
                        Ok(n) => n,
                        Err(e) => {
                            return Err(e);
                        },
                    };
                    written += n;
                } else {
                    // Per-channel deltas, wrapping over the 8-bit domain.
                    let diff_red = pixel.red().wrapping_sub(previous_pixel.red());
                    let diff_green = pixel.green().wrapping_sub(previous_pixel.green());
                    let diff_blue = pixel.blue().wrapping_sub(previous_pixel.blue());
                    let dr2 = diff_red.wrapping_add(2);
                    let dg2 = diff_green.wrapping_add(2);
                    let db2 = diff_blue.wrapping_add(2);
                    if dr2 <= 3 && dg2 <= 3 && db2 <= 3 {
                        let n = match writer.write_byte(
                            QOI_OP_DIFF | (dr2 << 4u8) | (dg2 << 2u8) | db2,
                        ) {
                            Ok(n) => n,
                            Err(e) => {
                                return Err(e);
                            },
                        };
                        written += n;
                    } else {
                        let diff_red_green = diff_red.wrapping_sub(diff_green);
                        let diff_blue_green = diff_blue.wrapping_sub(diff_green);
                        let dg32 = diff_green.wrapping_add(32);
                        let drg8 = diff_red_green.wrapping_add(8);
                        let dbg8 = diff_blue_green.wrapping_add(8);
                        if dg32 <= 63 && drg8 <= 15 && dbg8 <= 15 {
                            let luma = [QOI_OP_LUMA | dg32, (drg8 << 4u8) | dbg8];
                            proof {
                                assert(luma@ =~= seq![
                                    QOI_OP_LUMA | dg32,
                                    (drg8 << 4u8) | dbg8,
                                ]);
                            }
                            let n = match writer.write_from_slice(luma.as_slice()) {
                                Ok(n) => n,
                                Err(e) => {
                                    return Err(e);
                                },
                            };
                            written += n;
                        } else {
                            // Fallback: the raw three channel bytes.
                            let n = match writer.write_byte(QOI_OP_RGB) {
                                Ok(n) => n,
                                Err(e) => {
                                    return Err(e);
                                },
                            };
                            written += n;
                            let rgb = pixel.as_inner_rgb();
                            let n = match writer.write_from_slice(rgb.as_slice()) {
                                Ok(n) => n,
                                Err(e) => {
                                    return Err(e);
                                },
                            };
                            written += n;
                        }
                    }
                }
            }
        }
        previous_pixel = pixel;
        idx += 1;
    }

    // Flush a run still pending after the last pixel.
    let ghost st_end = spec_fold(initial_state(), ps, chan);
    proof {
        assert(ps.take(idx as int) =~= ps);
        lemma_fold_out_len(initial_state(), ps, chan);
    }
    if run > 0 {
        let n = match writer.write_byte(QOI_OP_RUN | (run - 1)) {
            Ok(n) => n,
            Err(e) => {
                return Err(e);
            },
        };
        written += n;
    }

    // The end marker.
    let marker = [0u8, 0u8, 0u8, 0u8, 0u8, 0u8, 0u8, 1u8];
    proof {
        assert(marker@ =~= spec_end_marker());
    }
    let n = match writer.write_from_slice(marker.as_slice()) {
        Ok(n) => n,
        Err(e) => {
            return Err(e);
        },
    };
    written += n;

    proof {
        let stream = spec_encoded_stream(ps, chan, width, height, color_space);
        assert(writer.bytes() =~= old(writer).bytes() + stream);
        assert(written == stream.len());
    }
    Ok(written)
}

/// A run of up to 61 identical pixels emits no bytes at all: it only grows
/// the pending run counter, which the next break — or the end of the stream —
/// flushes as a single run opcode carrying the exact length.
pub proof fn lemma_run_accumulates(s: EncState, p: PixelView, n: nat, channels: ColorChannel)
    requires
        s.prev == p,
        s.run == 0,
        n <= 61,
    ensures
        spec_fold(s, Seq::new(n, |i: int| p), channels) == (EncState {
            out: s.out,
            prev: p,
            cache: s.cache,
            run: n,
        }),
    decreases n,
{
    let ps = Seq::new(n, |i: int| p);
    if n == 0 {
        assert(ps =~= Seq::<PixelView>::empty());
    } else {
        lemma_run_accumulates(s, p, (n - 1) as nat, channels);
        assert(ps.drop_last() =~= Seq::new((n - 1) as nat, |i: int| p));
        assert(ps.last() == p);
    }
}

/// The sixty-second identical pixel flushes on the spot: exactly one run
/// opcode of length 62 is emitted and the counter starts over at zero.
pub proof fn lemma_run_flushes_at_62(s: EncState, p: PixelView, channels: ColorChannel)
    requires
        s.prev == p,
        s.run == 0,
    ensures
        spec_fold(s, Seq::new(62, |i: int| p), channels) == (EncState {
            out: s.out.push(spec_run_opcode(62)),
            prev: p,
            cache: s.cache,
            run: 0,
        }),
{
    lemma_run_accumulates(s, p, 61, channels);
    assert(Seq::new(62, |i: int| p).drop_last() =~= Seq::new(61, |i: int| p));
    assert(Seq::new(62, |i: int| p).last() == p);
}

/// A pending run is flushed as one opcode carrying its exact length as soon
/// as a different pixel breaks it; the bytes of the breaking pixel follow it.
pub proof fn lemma_run_flush_on_break(s: EncState, p: PixelView, channels: ColorChannel)
    requires
        0 < s.run,
        s.cache.len() == 64,
        p != s.prev,
    ensures
        spec_step(s, p, channels).out.subrange(0, s.out.len() as int + 1) == s.out.push(
            spec_run_opcode(s.run),
        ),
        spec_step(s, p, channels).run == 0,
{
    let flushed = s.out.push(spec_run_opcode(s.run));
    let h = spec_index_hash(p);
    if s.cache[h] == p {
        assert(spec_step(s, p, channels).out.subrange(0, s.out.len() as int + 1) =~= flushed);
    } else {
        assert(spec_step(s, p, channels).out.subrange(0, s.out.len() as int + 1) =~= flushed);
    }
}

/// A pixel that hits its cache slot — it equals the pixel cached there, and
/// neither extends a run — is encoded as exactly one index opcode byte, and
/// the cache is left as it was.
pub proof fn lemma_cache_hit_encodes_as_index(s: EncState, p: PixelView, channels: ColorChannel)
    requires
        s.run == 0,
        s.cache.len() == 64,
        p != s.prev,
        s.cache[spec_index_hash(p)] == p,
    ensures
        spec_step(s, p, channels) == (EncState {
            out: s.out.push(QOI_OP_INDEX | spec_index_hash(p) as u8),
            prev: p,
            cache: s.cache,
            run: 0,
        }),
{
}

/// In a four-channel stream, a transition that changes alpha (and misses the
/// cache, not extending a run) is encoded as the five-byte RGBA opcode —
/// never as a diff, luma or index opcode — even if the RGB channels are
/// unchanged.
pub proof fn lemma_alpha_change_encodes_as_rgba(s: EncState, p: PixelView)
    requires
        s.run == 0,
        s.cache.len() == 64,
        p.a != s.prev.a,
        s.cache[spec_index_hash(p)] != p,
    ensures
        spec_step(s, p, ColorChannel::Rgba) == (EncState {
            out: s.out + seq![QOI_OP_RGBA, p.r, p.g, p.b, p.a],
            prev: p,
            cache: s.cache.update(spec_index_hash(p), p),
            run: 0,
        }),
{
    assert(p != s.prev);
}

} // verus!
