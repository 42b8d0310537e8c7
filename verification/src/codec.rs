//! The animation codec boundary: frame delays, rates, and the GIF stream.
//!
//! An animation stores one delay per frame in centiseconds; a session's rate
//! is frames per second. Encoding quantizes `100 / fps` to the nearest
//! centisecond; decoding recovers `100 / delay` the same way. The byte-level
//! stream itself is the business of the `gif` crate behind the trusted
//! wrappers at the end of this module; every decision above the bytes —
//! delays, order, counts, sizes — is verified here.

use crate::error::Error;
use crate::frame::{images_model, Frames, Image, ImageModel};
use crate::geometry::Geometry;
use vstd::prelude::*;

verus! {

/// The per-frame delay an animation stores for a rate of `fps` frames per
/// second: `100 / fps` centiseconds, rounded to nearest (half away from
/// zero).
pub open spec fn spec_delay_cs(fps: int) -> int {
    (200 + fps) / (2 * fps)
}

/// The rate a stored per-frame delay stands for: `100 / delay` frames per
/// second, rounded to nearest (half away from zero).
pub open spec fn spec_fps_of_delay(delay: int) -> int {
    (200 + delay) / (2 * delay)
}

/// The per-frame delay for a rate, in centiseconds. Rates above 200 frames
/// per second are outside the format's resolution: their delay would be
/// zero.
pub fn delay_cs(fps: u32) -> (r: u16)
    requires
        1 <= fps <= 200,
    ensures
        r == spec_delay_cs(fps as int),
        1 <= r <= 100,
{
    proof {
        lemma_delay_cs_bounds(fps as int);
    }
    ((200u64 + fps as u64) / (2 * fps as u64)) as u16
}

/// The rate a stored delay stands for, clamped into the playable range: a
/// zero delay asks for the fastest playback and counts as 100 frames per
/// second, and a delay beyond a second still plays at 1 frame per second.
pub open spec fn spec_rate_of_delay(delay: int) -> int {
    if delay == 0 {
        100int
    } else if spec_fps_of_delay(delay) < 1 {
        1int
    } else {
        spec_fps_of_delay(delay)
    }
}

/// The rate a stored delay stands for.
pub fn fps_of_delay(delay: u16) -> (r: u32)
    ensures
        r == spec_rate_of_delay(delay as int),
        1 <= r <= 100,
{
    if delay == 0 {
        100
    } else {
        proof {
            assert(0 <= (200 + delay as int) / (2 * delay as int) <= 100) by (nonlinear_arith)
                requires
                    1 <= delay as int,
            ;
        }
        let f = ((200u64 + delay as u64) / (2 * delay as u64)) as u32;
        if f == 0 {
            1
        } else {
            f
        }
    }
}

/// For rates up to 200 frames per second the stored delay is at least one
/// centisecond and at most a second.
pub proof fn lemma_delay_cs_bounds(fps: int)
    requires
        1 <= fps <= 200,
    ensures
        1 <= spec_delay_cs(fps) <= 100,
{
    assert(1 <= (200 + fps) / (2 * fps) <= 100) by (nonlinear_arith)
        requires
            1 <= fps <= 200,
    ;
}

/// A delay within the encoder's own range stands for a rate between 1 and
/// 100 frames per second.
pub proof fn lemma_fps_of_delay_bounds(delay: int)
    requires
        1 <= delay <= 200,
    ensures
        1 <= spec_fps_of_delay(delay) <= 100,
{
    assert(1 <= (200 + delay) / (2 * delay) <= 100) by (nonlinear_arith)
        requires
            1 <= delay <= 200,
    ;
}

/// Encoding at rate `fps` and decoding again loses at most the format's
/// centisecond resolution: the stored delay `d` is within half a centisecond
/// of the ideal `100 / fps` (first pair of bounds), and the recovered rate's
/// own ideal delay is within half a centisecond of `d` (second pair). The
/// recovered frame time therefore differs from `1 / fps` by less than one
/// centisecond step.
pub proof fn lemma_fps_round_trip(fps: int)
    requires
        1 <= fps <= 200,
    ensures
        ({
            let d = spec_delay_cs(fps);
            let back = spec_fps_of_delay(d);
            &&& 1 <= d <= 100
            &&& 1 <= back <= 100
            &&& 200 - fps < 2 * fps * d <= 200 + fps
            &&& 200 - d < 2 * d * back <= 200 + d
        }),
{
    let d = spec_delay_cs(fps);
    lemma_delay_cs_bounds(fps);
    let back = spec_fps_of_delay(d);
    lemma_fps_of_delay_bounds(d);
    assert(200 - fps < 2 * fps * d <= 200 + fps) by (nonlinear_arith)
        requires
            1 <= fps,
            d == (200 + fps) / (2 * fps),
    ;
    assert(200 - d < 2 * d * back <= 200 + d) by (nonlinear_arith)
        requires
            1 <= d,
            back == (200 + d) / (2 * d),
    ;
}

/// An encoder of the `gif` crate writing into a byte buffer, held opaquely:
/// Verus sees nothing inside, and the trusted wrappers below are its only
/// doors. What it holds is abstracted by [`encoder_model`].
#[verifier::external_body]
pub struct GifEncoderHandle {
    inner: gif::Encoder<Vec<u8>>,
}

/// A decoder of the `gif` crate reading from a byte buffer, held opaquely.
/// What it still has to hand out is abstracted by [`decoder_model`].
#[verifier::external_body]
pub struct GifDecoderHandle {
    inner: gif::Decoder<std::io::Cursor<Vec<u8>>>,
}

#[verifier::external_type_specification]
#[verifier::external_body]
pub struct ExEncodingError(gif::EncodingError);

#[verifier::external_type_specification]
#[verifier::external_body]
pub struct ExDecodingError(gif::DecodingError);

/// What an encoder has been asked to repeat; `Unset` before the repeat
/// extension is chosen.
pub enum RepeatState {
    Unset,
    Infinite,
    Finite(u16),
}

/// One frame as the encoder's model holds it: the RGBA bytes handed in,
/// the declared size, the stored delay in centiseconds, and the
/// quantization speed.
pub struct EncFrameModel {
    pub data: Seq<u8>,
    pub width: u16,
    pub height: u16,
    pub delay: u16,
    pub speed: i32,
}

/// The mathematical content of an encoder handle: the logical screen size,
/// the requested repetition, and the frames appended so far, in order.
pub struct EncoderModel {
    pub width: u16,
    pub height: u16,
    pub repeat: RepeatState,
    pub frames: Seq<EncFrameModel>,
}

/// What an encoder handle holds; the wrappers below say how each call
/// changes it.
pub uninterp spec fn encoder_model(enc: GifEncoderHandle) -> EncoderModel;

/// The byte stream the encoder produces for a given model. The encoding
/// (palette quantization included) depends on nothing but the frames,
/// size and repetition it was given, so the bytes are a function of the
/// model alone.
pub uninterp spec fn gif_stream(m: EncoderModel) -> Seq<u8>;

/// One frame as the decoder's model holds it: its RGBA bytes, its size,
/// and the delay stored for it, in centiseconds.
pub struct DecFrameModel {
    pub data: Seq<u8>,
    pub width: u16,
    pub height: u16,
    pub delay: u16,
}

/// The mathematical content of a decoder handle: the frames it will still
/// hand out, in order, and whether the stream behind them ends cleanly
/// (trailer reached) rather than in a decoding error.
pub struct DecoderModel {
    pub frames: Seq<DecFrameModel>,
    pub clean: bool,
}

/// What a decoder handle still holds; the wrappers below say how each
/// read consumes it.
pub uninterp spec fn decoder_model(dec: GifDecoderHandle) -> DecoderModel;

/// Whether a byte stream's header parses as an animation. A function of
/// the bytes alone.
pub uninterp spec fn gif_header_ok(bytes: Seq<u8>) -> bool;

/// The frames a byte stream holds, and whether it ends cleanly: the whole
/// parse, a function of the bytes alone.
pub uninterp spec fn gif_scan(bytes: Seq<u8>) -> DecoderModel;

/// Relies on gif::Encoder::new: starts a GIF stream of the given logical
/// screen size into a fresh byte buffer, with no global palette (every
/// frame carries its own). Writing the header into a byte buffer cannot
/// fail (allocation failure aside, as with the growth of a vector).
#[verifier::external_body]
fn encoder_new(width: u16, height: u16) -> (r: Result<GifEncoderHandle, gif::EncodingError>)
    ensures
        r is Ok,
        encoder_model(r->Ok_0) == (EncoderModel {
            width,
            height,
            repeat: RepeatState::Unset,
            frames: Seq::<EncFrameModel>::empty(),
        }),
{
    Ok(GifEncoderHandle { inner: gif::Encoder::new(Vec::new(), width, height, &[])? })
}

/// Relies on gif::Encoder::set_repeat: asks for playback to loop forever
/// (`None`) or a finite number of times. Writing into a byte buffer, it
/// cannot fail; for a finite count of zero the crate writes no extension
/// block, which the model records all the same.
#[verifier::external_body]
fn encoder_set_repeat(enc: &mut GifEncoderHandle, count: Option<u16>) -> (r: Result<
    (),
    gif::EncodingError,
>)
    ensures
        r is Ok,
        encoder_model(*final(enc)) == (EncoderModel {
            repeat: match count {
                None => RepeatState::Infinite,
                Some(n) => RepeatState::Finite(n),
            },
            ..encoder_model(*old(enc))
        }),
{
    match count {
        None => enc.inner.set_repeat(gif::Repeat::Infinite),
        Some(n) => enc.inner.set_repeat(gif::Repeat::Finite(n)),
    }
}

/// Relies on gif::Frame::from_rgba_speed and gif::Encoder::write_frame:
/// quantizes one RGBA frame to its own palette at the given quantization
/// speed and appends it to the stream with the given delay. Both panic on
/// a buffer that does not hold `width * height * 4` bytes or a speed
/// outside `1..=30`; the `requires` rules those inputs out. On such input
/// every other failure path would need an I/O error, impossible on a byte
/// buffer, so the call succeeds (allocation failure aside).
#[verifier::external_body]
fn encoder_write_frame(
    enc: &mut GifEncoderHandle,
    data: &Vec<u8>,
    width: u16,
    height: u16,
    delay: u16,
    speed: i32,
) -> (r: Result<(), gif::EncodingError>)
    requires
        data@.len() == width as int * height as int * 4,
        1 <= speed <= 30,
    ensures
        r is Ok,
        encoder_model(*final(enc)) == (EncoderModel {
            frames: encoder_model(*old(enc)).frames.push(
                EncFrameModel { data: data@, width, height, delay, speed },
            ),
            ..encoder_model(*old(enc))
        }),
{
    let mut pixels = data.clone();
    let mut frame = gif::Frame::from_rgba_speed(width, height, &mut pixels, speed);
    frame.delay = delay;
    enc.inner.write_frame(&frame)
}

/// Relies on gif::Encoder::into_inner: writes the stream trailer and hands
/// back the byte buffer the whole stream was written into. Writing into a
/// byte buffer, it cannot fail, and the header alone makes the stream
/// non-empty.
#[verifier::external_body]
fn encoder_finish(enc: GifEncoderHandle) -> (r: Result<Vec<u8>, gif::EncodingError>)
    ensures
        r is Ok,
        r->Ok_0@ == gif_stream(encoder_model(enc)),
        r->Ok_0@.len() > 0,
{
    enc.inner.into_inner()
}

/// One frame as the decoder hands it out: its RGBA bytes, its size, and the
/// delay stored for it, in centiseconds.
#[derive(Debug)]
pub struct DecodedFrame {
    pub data: Vec<u8>,
    pub width: u16,
    pub height: u16,
    pub delay_cs: u16,
}

/// Relies on gif::DecodeOptions::read_info: parses the stream header and
/// readies a decoder configured for RGBA output. It succeeds exactly when
/// the header parses, and the decoder then holds the stream's frames.
#[verifier::external_body]
fn decoder_new(bytes: Vec<u8>) -> (r: Result<GifDecoderHandle, gif::DecodingError>)
    ensures
        r is Ok <==> gif_header_ok(bytes@),
        r is Ok ==> decoder_model(r->Ok_0) == gif_scan(bytes@),
{
    let mut options = gif::DecodeOptions::new();
    options.set_color_output(gif::ColorOutput::RGBA);
    Ok(GifDecoderHandle { inner: options.read_info(std::io::Cursor::new(bytes))? })
}

/// Relies on gif::Decoder::read_next_frame: decodes the next frame the
/// model still holds, `None` past a clean end, an error past a malformed
/// one. With RGBA output the decoder fills the frame's buffer with exactly
/// `width * height * 4` bytes.
#[verifier::external_body]
fn decoder_next_frame(dec: &mut GifDecoderHandle) -> (r: Result<
    Option<DecodedFrame>,
    gif::DecodingError,
>)
    ensures
        ({
            let m = decoder_model(*old(dec));
            &&& (m.frames.len() > 0 ==> {
                &&& r is Ok
                &&& r->Ok_0 is Some
                &&& r->Ok_0->0.data@ == m.frames[0].data
                &&& r->Ok_0->0.width == m.frames[0].width
                &&& r->Ok_0->0.height == m.frames[0].height
                &&& r->Ok_0->0.delay_cs == m.frames[0].delay
                &&& decoder_model(*final(dec)) == (DecoderModel {
                    frames: m.frames.drop_first(),
                    clean: m.clean,
                })
            })
            &&& (m.frames.len() == 0 && m.clean ==> r is Ok && r->Ok_0 is None)
            &&& (m.frames.len() == 0 && !m.clean ==> r is Err)
        }),
        r matches Ok(Some(f)) ==> f.data@.len() == f.width as int * f.height as int * 4,
{
    match dec.inner.read_next_frame() {
        Ok(Some(frame)) => Ok(
            Some(
                DecodedFrame {
                    data: frame.buffer.to_vec(),
                    width: frame.width,
                    height: frame.height,
                    delay_cs: frame.delay,
                },
            ),
        ),
        Ok(None) => Ok(None),
        Err(e) => Err(e),
    }
}

/// How often an encoded animation repeats.
#[derive(Clone, Copy, Debug, PartialEq, Eq, Structural)]
pub enum LoopCount {
    Infinite,
    Finite(u16),
}

/// The repetition an encoded session asked for, as its model records it.
pub open spec fn repeat_state_of(c: LoopCount) -> RepeatState {
    match c {
        LoopCount::Infinite => RepeatState::Infinite,
        LoopCount::Finite(n) => RepeatState::Finite(n),
    }
}

/// The model frame one captured image becomes when appended with the given
/// delay and quantization speed.
pub open spec fn enc_frame_of(img: ImageModel, delay: u16, speed: i32) -> EncFrameModel {
    EncFrameModel {
        data: img.data,
        width: img.geometry.width as u16,
        height: img.geometry.height as u16,
        delay,
        speed,
    }
}

/// A whole image sequence appended with one delay and speed.
pub open spec fn enc_frames_of(images: Seq<ImageModel>, delay: u16, speed: i32) -> Seq<
    EncFrameModel,
> {
    images.map_values(|m: ImageModel| enc_frame_of(m, delay, speed))
}

/// An animation stream being encoded: every frame is appended with the
/// session's current per-frame delay, in the order it arrives. Each frame
/// is quantized to its own palette (no shared global palette: fidelity is
/// kept per frame at the cost of stream size), and the accelerated mode
/// raises the quantization speed from 10 to 30, trading palette fidelity
/// for throughput.
pub struct Gif {
    pub encoder: GifEncoderHandle,
    pub width: u16,
    pub height: u16,
    pub delay_cs: u16,
    pub speed: i32,
    pub loop_count: LoopCount,
    pub frames_written: usize,
    pub written: Ghost<Seq<EncFrameModel>>,
}

impl Gif {
    /// The quantization speed is one the quantizer accepts, the frame
    /// count matches the model of what was written, and the encoder handle
    /// holds exactly the session's size, repetition and written frames.
    pub open spec fn inv(self) -> bool {
        &&& 1 <= self.speed <= 30
        &&& self.frames_written == self.written@.len()
        &&& encoder_model(self.encoder) == (EncoderModel {
            width: self.width,
            height: self.height,
            repeat: repeat_state_of(self.loop_count),
            frames: self.written@,
        })
    }

    /// Start an animation stream for frames of `geometry`'s size at `fps`
    /// frames per second, repeating as `repeat` says. `fast` selects the
    /// accelerated quality mode.
    pub fn new(fps: u32, geometry: Geometry, fast: bool, repeat: LoopCount) -> (r: Result<
        Gif,
        Error,
    >)
        requires
            1 <= fps <= 200,
            1 <= geometry.width <= u16::MAX,
            1 <= geometry.height <= u16::MAX,
        ensures
            r is Ok,
            r matches Ok(g) ==> ({
                &&& g.inv()
                &&& g.width == geometry.width
                &&& g.height == geometry.height
                &&& g.delay_cs == spec_delay_cs(fps as int)
                &&& g.speed == (if fast {
                    30int
                } else {
                    10int
                })
                &&& g.loop_count == repeat
                &&& g.frames_written == 0
                &&& g.written@ == Seq::<EncFrameModel>::empty()
            }),
    {
        let delay = delay_cs(fps);
        let mut encoder = match encoder_new(geometry.width as u16, geometry.height as u16) {
            Ok(e) => e,
            Err(_) => {
                return Err(Error::EncodeFailed);
            },
        };
        let count = match repeat {
            LoopCount::Infinite => None,
            LoopCount::Finite(n) => Some(n),
        };
        match encoder_set_repeat(&mut encoder, count) {
            Ok(()) => {},
            Err(_) => {
                return Err(Error::EncodeFailed);
            },
        }
        Ok(
            Gif {
                encoder,
                width: geometry.width as u16,
                height: geometry.height as u16,
                delay_cs: delay,
                speed: if fast {
                    30
                } else {
                    10
                },
                loop_count: repeat,
                frames_written: 0,
                written: Ghost(Seq::empty()),
            },
        )
    }

    /// Append one frame to the stream with the session's current delay and
    /// quantization speed.
    pub fn add_frame(&mut self, image: &Image) -> (r: Result<(), Error>)
        requires
            old(self).inv(),
            image.well_formed(),
            image.geometry.width == old(self).width,
            image.geometry.height == old(self).height,
            old(self).frames_written < usize::MAX,
        ensures
            r is Ok,
            final(self).inv(),
            final(self).width == old(self).width,
            final(self).height == old(self).height,
            final(self).delay_cs == old(self).delay_cs,
            final(self).speed == old(self).speed,
            final(self).loop_count == old(self).loop_count,
            final(self).written@ == old(self).written@.push(
                enc_frame_of(image@, old(self).delay_cs, old(self).speed),
            ),
            final(self).frames_written == old(self).frames_written + 1,
    {
        match encoder_write_frame(
            &mut self.encoder,
            &image.data,
            self.width,
            self.height,
            self.delay_cs,
            self.speed,
        ) {
            Ok(()) => {
                self.frames_written = self.frames_written + 1;
                self.written = Ghost(
                    self.written@.push(enc_frame_of(image@, self.delay_cs, self.speed)),
                );
                Ok(())
            },
            Err(_) => Err(Error::EncodeFailed),
        }
    }

    /// Append a whole frame sequence in its order, every frame with the
    /// session's current delay and speed.
    pub fn save(&mut self, frames: &Frames) -> (r: Result<(), Error>)
        requires
            old(self).inv(),
            frames.well_formed(),
            forall|i: int|
                0 <= i < frames.images@.len() ==> (#[trigger] frames.images@[i]).geometry.width
                    == old(self).width && frames.images@[i].geometry.height == old(self).height,
            old(self).frames_written + frames.images@.len() <= usize::MAX,
        ensures
            r is Ok,
            final(self).inv(),
            final(self).width == old(self).width,
            final(self).height == old(self).height,
            final(self).delay_cs == old(self).delay_cs,
            final(self).speed == old(self).speed,
            final(self).loop_count == old(self).loop_count,
            final(self).written@ == old(self).written@ + enc_frames_of(
                images_model(frames.images@),
                old(self).delay_cs,
                old(self).speed,
            ),
            final(self).frames_written == old(self).frames_written + frames.images@.len(),
    {
        let mut i: usize = 0;
        assert(old(self).written@ + enc_frames_of(
            images_model(frames.images@.take(0)),
            old(self).delay_cs,
            old(self).speed,
        ) =~= old(self).written@);
        while i < frames.images.len()
            invariant
                i <= frames.images@.len(),
                self.inv(),
                frames.well_formed(),
                forall|j: int|
                    0 <= j < frames.images@.len() ==> (#[trigger] frames.images@[j]).geometry.width
                        == old(self).width && frames.images@[j].geometry.height == old(
                        self,
                    ).height,
                old(self).frames_written + frames.images@.len() <= usize::MAX,
                self.width == old(self).width,
                self.height == old(self).height,
                self.delay_cs == old(self).delay_cs,
                self.speed == old(self).speed,
                self.loop_count == old(self).loop_count,
                self.frames_written == old(self).frames_written + i,
                self.written@ == old(self).written@ + enc_frames_of(
                    images_model(frames.images@.take(i as int)),
                    old(self).delay_cs,
                    old(self).speed,
                ),
            decreases frames.images@.len() - i,
        {
            match self.add_frame(&frames.images[i]) {
                Ok(()) => {
                    proof {
                        assert(self.written@ =~= old(self).written@ + enc_frames_of(
                            images_model(frames.images@.take(i + 1)),
                            old(self).delay_cs,
                            old(self).speed,
                        ));
                    }
                },
                Err(e) => {
                    return Err(e);
                },
            }
            i += 1;
        }
        proof {
            assert(frames.images@.take(frames.images@.len() as int) =~= frames.images@);
        }
        Ok(())
    }

    /// Scale the delay of every frame written from now on by the
    /// reciprocal of the speed factor: above 1 plays faster, below 1
    /// slower.
    pub fn set_speed_factor(&mut self, speed: crate::edit::Ratio)
        requires
            speed.num >= 1,
            speed.den >= 1,
        ensures
            *final(self) == (Gif {
                delay_cs: crate::edit::spec_scaled_delay(
                    old(self).delay_cs as int,
                    speed,
                ) as u16,
                ..*old(self)
            }),
    {
        self.delay_cs = crate::edit::scaled_delay_cs(self.delay_cs, speed);
    }

    /// Finish the stream: write the trailer and hand back the encoded
    /// bytes — exactly the stream of the session's size, repetition and
    /// written frames, and never empty.
    pub fn finish(self) -> (r: Result<Vec<u8>, Error>)
        requires
            self.inv(),
        ensures
            r is Ok,
            r matches Ok(bytes) ==> ({
                &&& bytes@ == gif_stream(
                    EncoderModel {
                        width: self.width,
                        height: self.height,
                        repeat: repeat_state_of(self.loop_count),
                        frames: self.written@,
                    },
                )
                &&& bytes@.len() > 0
            }),
    {
        match encoder_finish(self.encoder) {
            Ok(bytes) => Ok(bytes),
            Err(_) => Err(Error::EncodeFailed),
        }
    }
}

/// Parse an animation stream into an ordered frame sequence, expanding
/// every palette into RGBA, with the rate derived from the first frame's
/// stored delay. Success returns exactly the frames the stream holds, in
/// order; a stream whose header does not parse, that does not end cleanly,
/// or that holds at least as many frames as bytes (impossible in a real
/// stream) is a `DecodeFailed`.
pub fn decode_gif(bytes: Vec<u8>) -> (r: Result<Frames, Error>)
    ensures
        r matches Ok(f) ==> ({
            let scan = gif_scan(bytes@);
            &&& gif_header_ok(bytes@)
            &&& scan.clean
            &&& scan.frames.len() < bytes@.len()
            &&& f.images@.len() == scan.frames.len()
            &&& (forall|k: int|
                0 <= k < scan.frames.len() ==> {
                    &&& (#[trigger] f.images@[k]).data@ == scan.frames[k].data
                    &&& f.images@[k].geometry == (Geometry {
                        x: 0i32,
                        y: 0i32,
                        width: scan.frames[k].width as u32,
                        height: scan.frames[k].height as u32,
                    })
                })
            &&& f.fps == (if scan.frames.len() == 0 {
                10int
            } else {
                spec_rate_of_delay(scan.frames[0].delay as int)
            })
            &&& f.well_formed()
            &&& 1 <= f.fps <= 100
        }),
        r matches Err(e) ==> ({
            &&& e == Error::DecodeFailed
            &&& (!gif_header_ok(bytes@) || !gif_scan(bytes@).clean || gif_scan(
                bytes@,
            ).frames.len() >= bytes@.len())
        }),
{
    let cap = bytes.len();
    let mut dec = match decoder_new(bytes) {
        Ok(d) => d,
        Err(_) => {
            return Err(Error::DecodeFailed);
        },
    };
    let mut images: Vec<Image> = Vec::new();
    let mut fps: u32 = 10;
    let mut i: usize = 0;
    proof {
        assert(gif_scan(bytes@).frames.skip(0) =~= gif_scan(bytes@).frames);
    }
    while i < cap
        invariant
            cap == bytes@.len(),
            gif_header_ok(bytes@),
            i <= cap,
            i <= gif_scan(bytes@).frames.len(),
            decoder_model(dec) == (DecoderModel {
                frames: gif_scan(bytes@).frames.skip(i as int),
                clean: gif_scan(bytes@).clean,
            }),
            images@.len() == i,
            forall|k: int|
                0 <= k < i ==> {
                    &&& (#[trigger] images@[k]).well_formed()
                    &&& images@[k].data@ == gif_scan(bytes@).frames[k].data
                    &&& images@[k].geometry == (Geometry {
                        x: 0i32,
                        y: 0i32,
                        width: gif_scan(bytes@).frames[k].width as u32,
                        height: gif_scan(bytes@).frames[k].height as u32,
                    })
                },
            i == 0 ==> fps == 10,
            i > 0 ==> fps == spec_rate_of_delay(gif_scan(bytes@).frames[0].delay as int),
            1 <= fps <= 100,
        decreases cap - i,
    {
        let ghost m = decoder_model(dec);
        match decoder_next_frame(&mut dec) {
            Ok(Some(f)) => {
                proof {
                    assert(m.frames.len() > 0);
                    assert(m.frames[0] == gif_scan(bytes@).frames[i as int]);
                    assert(m.frames.drop_first() =~= gif_scan(bytes@).frames.skip(i as int + 1));
                }
                if images.len() == 0 {
                    fps = fps_of_delay(f.delay_cs);
                }
                let geometry = Geometry::new(0, 0, f.width as u32, f.height as u32);
                let img = Image::new(f.data, geometry);
                assert(img.well_formed());
                images.push(img);
            },
            Ok(None) => {
                proof {
                    assert(m.frames.len() == 0 && m.clean);
                    assert(gif_scan(bytes@).frames.len() == i);
                }
                return Ok(Frames::new(images, fps));
            },
            Err(_) => {
                proof {
                    assert(m.frames.len() == 0 && !m.clean);
                }
                return Err(Error::DecodeFailed);
            },
        }
        i += 1;
    }
    Err(Error::DecodeFailed)
}

} // verus!
