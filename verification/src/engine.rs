//! The codec engine boundary: the session type that owns one engine-side
//! decoder instance, the per-step outcome codes, and the trusted contracts
//! of the few engine calls the driver makes.

#![allow(non_camel_case_types)]

use vstd::prelude::*;
use xz2::stream::{Action, Error, Status, Stream};

verus! {

#[verifier::external_type_specification]
#[verifier::external_body]
pub struct ExStream(Stream);

/// What the engine's decode is, as a function of the exact bytes of one
/// complete `.xz` stream: `Some(b)` when the engine, fed exactly `s` (in any
/// chunking), reports a successful end of stream having consumed all of `s`
/// and produced `b`; `None` otherwise.  The engine is deterministic, so this
/// is a function of the bytes alone.
pub uninterp spec fn xz_decoded(s: Seq<u8>) -> Option<Seq<u8>>;

/// The abstract state of a decoder session: the input bytes it has consumed
/// and the output bytes it has produced so far, each in order, and whether
/// the most recent step made no progress at all.
pub struct SessionView {
    /// Every input byte the session has consumed, oldest first.
    pub consumed: Seq<u8>,
    /// Every output byte the session has produced, oldest first.
    pub produced: Seq<u8>,
    /// The most recent step neither consumed nor produced a byte.  The
    /// engine reports the no-progress failure on the second consecutive such
    /// step, so a session never answers two stalled steps in a row with the
    /// plain continue code.
    pub stalled: bool,
    /// A step has returned a failure code.  Past that point the engine's
    /// parse state may no longer track the stream grammar (a failed parse
    /// can resume at the wrong offset), so a failed session is never
    /// stepped again.
    pub failed: bool,
}

/// The six bytes that open every `.xz` stream.
pub open spec fn spec_xz_magic() -> Seq<u8> {
    seq![0xfdu8, 0x37u8, 0x7au8, 0x58u8, 0x5au8, 0x00u8]
}

/// The session has reached its one terminal success: what it consumed is
/// exactly one complete stream (so it opens with the stream magic), what it
/// produced is that stream's decode, and no extension of the consumed bytes
/// is itself one complete stream (the format is self-delimiting, so a
/// complete stream is never a strict prefix of another).
pub open spec fn decode_complete(v: SessionView) -> bool {
    &&& xz_decoded(v.consumed) == Some(v.produced)
    &&& v.consumed.len() >= 6
    &&& v.consumed.subrange(0, 6) == spec_xz_magic()
    &&& forall|t: Seq<u8>| t.len() > 0 ==> #[trigger] xz_decoded(v.consumed + t) is None
}

/// No prefix of what the session has consumed is itself one complete
/// stream.  The decoder reports success on the very step that crosses a
/// stream's end and never consumes past it, so every other outcome means no
/// complete stream has gone by yet.
pub open spec fn no_complete_prefix(v: SessionView) -> bool {
    forall|i: int|
        0 <= i <= v.consumed.len() ==> #[trigger] xz_decoded(v.consumed.subrange(0, i)) is None
}

/// Bytes no continuation can redeem: nothing that extends `s` is exactly
/// one complete stream.  The deterministic failure verdicts (format,
/// options, corruption, unsupported check) are decided by the consumed
/// bytes alone, so once one is returned the consumed bytes are dead.
pub open spec fn dead_bytes(s: Seq<u8>) -> bool {
    forall|t: Seq<u8>| #[trigger] xz_decoded(s + t) is None
}

/// Operation mode requested when a decoder session is created.
///
/// This crate drives the engine only in the bounded dynamic-allocation mode:
/// the dictionary is sized from the stream's own header, capped by the limit
/// handed to [`xz_dec::init`], so a hostile header cannot force unbounded
/// memory use.
#[derive(Debug, Clone, Copy, PartialEq, Eq, Structural)]
pub enum xz_mode {
    /// Single-call mode: the whole stream in one step.
    XZ_SINGLE,
    /// Multi-call mode with a preallocated dictionary buffer.
    XZ_PREALLOC,
    /// Multi-call mode; the dictionary is allocated once its size has been
    /// parsed from the stream header, capped by the session's limit.
    XZ_DYNALLOC,
}

/// Outcome of one engine step.
///
/// `XZ_OK` and `XZ_STREAM_END` are the two non-failure shapes: continue, and
/// stream fully decoded.  Every other code is a distinct failure reason.
#[derive(Debug, Clone, Copy, PartialEq, Eq, Structural)]
pub enum xz_ret {
    /// Everything is OK so far; more input or more output space is required.
    XZ_OK,
    /// Operation finished successfully.
    XZ_STREAM_END,
    /// The stream's integrity-check type is not supported.
    XZ_UNSUPPORTED_CHECK,
    /// Allocating memory failed.
    XZ_MEM_ERROR,
    /// A bigger dictionary is needed than the session's limit allows.
    XZ_MEMLIMIT_ERROR,
    /// File format was not recognized (wrong magic bytes).
    XZ_FORMAT_ERROR,
    /// The header is intact but requests options this engine does not support.
    XZ_OPTIONS_ERROR,
    /// Compressed data is corrupt.
    XZ_DATA_ERROR,
    /// The engine cannot make any progress.
    XZ_BUF_ERROR,
}

/// True of the codes that a step may return as a terminal failure, i.e.
/// everything but the two non-failure shapes.
pub open spec fn is_failure_code(c: xz_ret) -> bool {
    c != xz_ret::XZ_OK && c != xz_ret::XZ_STREAM_END
}

/// A raw engine outcome code carried as the cause inside a classified error.
#[derive(Debug, Clone, Copy, PartialEq, Eq, Structural)]
pub struct XZRawError {
    /// The outcome code of the step that failed.
    pub code: xz_ret,
}

/// What [`XZRawError::description`] returns for each outcome code.
pub open spec fn spec_raw_description(c: xz_ret) -> Seq<char> {
    match c {
        xz_ret::XZ_OK => "Everything is OK so far"@,
        xz_ret::XZ_STREAM_END => "Operation finished successfully"@,
        xz_ret::XZ_UNSUPPORTED_CHECK => "Integrity check type is not supported"@,
        xz_ret::XZ_MEM_ERROR => "Allocating memory failed"@,
        xz_ret::XZ_MEMLIMIT_ERROR => "A bigger LZMA2 dictionary is needed than allowed by dict_max"@,
        xz_ret::XZ_FORMAT_ERROR => "File format was not recognized"@,
        xz_ret::XZ_OPTIONS_ERROR => "This implementation doesn't support the requested compression options"@,
        xz_ret::XZ_DATA_ERROR => "Compressed data is corrupt"@,
        xz_ret::XZ_BUF_ERROR => "Cannot make any progress"@,
    }
}

impl XZRawError {
    /// A short human-readable summary of the outcome code.
    pub fn description(&self) -> (r: &'static str)
        ensures
            r@ == spec_raw_description(self.code),
    {
        match self.code {
            xz_ret::XZ_OK => "Everything is OK so far",
            xz_ret::XZ_STREAM_END => "Operation finished successfully",
            xz_ret::XZ_UNSUPPORTED_CHECK => "Integrity check type is not supported",
            xz_ret::XZ_MEM_ERROR => "Allocating memory failed",
            xz_ret::XZ_MEMLIMIT_ERROR => "A bigger LZMA2 dictionary is needed than allowed by dict_max",
            xz_ret::XZ_FORMAT_ERROR => "File format was not recognized",
            xz_ret::XZ_OPTIONS_ERROR => "This implementation doesn't support the requested compression options",
            xz_ret::XZ_DATA_ERROR => "Compressed data is corrupt",
            xz_ret::XZ_BUF_ERROR => "Cannot make any progress",
        }
    }
}

impl From<xz_ret> for XZRawError {
    fn from(e: xz_ret) -> (r: XZRawError) {
        XZRawError { code: e }
    }
}

impl vstd::std_specs::convert::FromSpecImpl<xz_ret> for XZRawError {
    open spec fn obeys_from_spec() -> bool {
        true
    }

    open spec fn from_spec(e: xz_ret) -> XZRawError {
        XZRawError { code: e }
    }
}

/// A decoder session: owns one engine-allocated decoder state for the
/// lifetime of a single decompress call.  The engine-side resources are
/// released when the session is dropped, so exactly once per session and on
/// every exit path of its owner.
pub struct xz_dec {
    inner: Stream,
    model: Ghost<SessionView>,
}

impl View for xz_dec {
    type V = SessionView;

    closed spec fn view(&self) -> SessionView {
        self.model@
    }
}

/// Relies on `xz2::stream::Stream::new_stream_decoder`: allocates a fresh
/// `.xz` decoder whose engine-side memory use is capped at `memlimit` bytes;
/// a fresh decoder has consumed and produced nothing.  Returns `None` when
/// the engine refuses the allocation.
#[verifier::external_body]
fn stream_decoder_new(memlimit: u64) -> (r: Option<Stream>)
{
    match Stream::new_stream_decoder(memlimit, 0) {
        Ok(inner) => Some(inner),
        Err(_) => None,
    }
}

/// Relies on `xz2::stream::Stream::total_in`: the engine's running count of
/// input bytes this session has consumed over its whole life.
#[verifier::external_body]
fn engine_total_in(s: &xz_dec) -> (r: u64)
    ensures
        r == s@.consumed.len(),
{
    s.inner.total_in()
}

/// Relies on `xz2::stream::Stream::total_out`: the engine's running count of
/// output bytes this session has produced over its whole life.
#[verifier::external_body]
fn engine_total_out(s: &xz_dec) -> (r: u64)
    ensures
        r == s@.produced.len(),
{
    s.inner.total_out()
}

/// Relies on `xz2::stream::Stream::process` with `Action::Run`: one bounded
/// decode step.  It consumes a prefix of `input[in_pos..]`, writes what it
/// produces contiguously into `out[out_pos..]` leaving the bytes before
/// `out_pos` untouched, and advances monotonically.  On a successful end of
/// stream the session's consumed bytes are exactly one complete stream and
/// its produced bytes are that stream's decode; a complete stream opens
/// with the six stream-magic bytes and is self-delimiting, so it is never a
/// strict prefix of another complete stream.  Success is reported on the
/// very step that crosses a stream's end and nothing past that end is ever
/// consumed (after it, further steps keep answering success), so on every
/// other outcome no prefix of what the session has consumed is one complete
/// stream.  The remaining outcomes
/// of `process` are mapped one arm each onto the engine outcome codes, the
/// no-progress status onto the no-progress code.  Of two consecutive steps
/// that neither consume nor produce a byte, `process` answers the second
/// with the no-progress status, never with the plain continue status, and
/// it reports no progress only when the step was offered no input or no
/// output room; the statuses tied to the check-telling decoder flags cannot
/// arise, since the session is created with no flags set.  The
/// format-not-recognized, unsupported-options, corrupt-data and
/// unsupported-check verdicts are decided by the consumed bytes alone, so
/// they come only when no continuation of those bytes is one complete
/// stream.  The session must not have failed before: after a failure code
/// the engine's parse state may sit at the wrong offset, and nothing here
/// holds of a step taken past it.
#[verifier::external_body]
fn engine_step_raw(s: &mut xz_dec, input: &[u8], in_pos: usize, out: &mut Vec<u8>, out_pos: usize) -> (r: xz_ret)
    requires
        !old(s)@.failed,
        in_pos <= input@.len(),
        out_pos <= old(out)@.len(),
    ensures
        final(s)@.failed <==> is_failure_code(r),
        final(out)@.len() == old(out)@.len(),
        final(out)@.subrange(0, out_pos as int) == old(out)@.subrange(0, out_pos as int),
        old(s)@.consumed.len() <= final(s)@.consumed.len(),
        final(s)@.consumed.len() - old(s)@.consumed.len() <= input@.len() - in_pos,
        final(s)@.consumed == old(s)@.consumed + input@.subrange(
            in_pos as int,
            in_pos + final(s)@.consumed.len() - old(s)@.consumed.len(),
        ),
        old(s)@.produced.len() <= final(s)@.produced.len(),
        final(s)@.produced.len() - old(s)@.produced.len() <= old(out)@.len() - out_pos,
        final(s)@.produced == old(s)@.produced + final(out)@.subrange(
            out_pos as int,
            out_pos + final(s)@.produced.len() - old(s)@.produced.len(),
        ),
        r == xz_ret::XZ_STREAM_END ==> xz_decoded(final(s)@.consumed) == Some(final(s)@.produced),
        r == xz_ret::XZ_STREAM_END ==> final(s)@.consumed.len() >= 6
            && final(s)@.consumed.subrange(0, 6) == spec_xz_magic(),
        r == xz_ret::XZ_STREAM_END ==> forall|t: Seq<u8>| t.len() > 0
            ==> #[trigger] xz_decoded(final(s)@.consumed + t) is None,
        r != xz_ret::XZ_STREAM_END ==> forall|i: int| 0 <= i <= final(s)@.consumed.len()
            ==> #[trigger] xz_decoded(final(s)@.consumed.subrange(0, i)) is None,
        (r == xz_ret::XZ_FORMAT_ERROR || r == xz_ret::XZ_OPTIONS_ERROR || r
            == xz_ret::XZ_DATA_ERROR || r == xz_ret::XZ_UNSUPPORTED_CHECK) ==> forall|t: Seq<u8>|
            #[trigger] xz_decoded(final(s)@.consumed + t) is None,
        r == xz_ret::XZ_BUF_ERROR ==> (in_pos == input@.len() || out_pos == old(out)@.len()),
        final(s)@.stalled <==> (final(s)@.consumed.len() == old(s)@.consumed.len()
            && final(s)@.produced.len() == old(s)@.produced.len()),
        (old(s)@.stalled && final(s)@.stalled) ==> r != xz_ret::XZ_OK,
{
    match s.inner.process(&input[in_pos..], &mut out[out_pos..], Action::Run) {
        Ok(Status::Ok) => xz_ret::XZ_OK,
        Ok(Status::StreamEnd) => xz_ret::XZ_STREAM_END,
        Ok(Status::GetCheck) => xz_ret::XZ_OK,
        Ok(Status::MemNeeded) => xz_ret::XZ_BUF_ERROR,
        Err(Error::Mem) => xz_ret::XZ_MEM_ERROR,
        Err(Error::MemLimit) => xz_ret::XZ_MEMLIMIT_ERROR,
        Err(Error::Format) => xz_ret::XZ_FORMAT_ERROR,
        Err(Error::Options) => xz_ret::XZ_OPTIONS_ERROR,
        Err(Error::Data) => xz_ret::XZ_DATA_ERROR,
        Err(Error::NoCheck) => xz_ret::XZ_UNSUPPORTED_CHECK,
        Err(Error::UnsupportedCheck) => xz_ret::XZ_UNSUPPORTED_CHECK,
        Err(Error::Program) => xz_ret::XZ_BUF_ERROR,
    }
}

impl xz_dec {
    /// Creates one decoder session in the bounded dynamic-allocation mode:
    /// the dictionary is sized from the stream's own header once parsed,
    /// capped by `dict_max` bytes of engine-side memory, so a hostile or
    /// malformed header cannot force unbounded memory use.  Returns `None`
    /// when the engine cannot allocate the session.
    pub fn init(mode: xz_mode, dict_max: u32) -> (r: Option<xz_dec>)
        requires
            mode == xz_mode::XZ_DYNALLOC,
        ensures
            r matches Some(s) ==> s@.consumed == Seq::<u8>::empty() && s@.produced
                == Seq::<u8>::empty() && !s@.stalled && !s@.failed,
    {
        match stream_decoder_new(dict_max as u64) {
            Some(inner) => Some(
                xz_dec {
                    inner,
                    model: Ghost(
                        SessionView {
                            consumed: Seq::empty(),
                            produced: Seq::empty(),
                            stalled: false,
                            failed: false,
                        },
                    ),
                },
            ),
            None => None,
        }
    }

    /// Runs one engine step: reads input from `*in_pos` on, writes output
    /// from `*out_pos` on, and advances both cursors by exactly what the
    /// step consumed and produced.  Cursors never move backwards and never
    /// pass their bounds, bytes before `*out_pos` are untouched, and the
    /// session's abstract state grows by exactly the bytes the cursors
    /// passed over.  The success code comes exactly when the consumed bytes
    /// form one complete stream; on every other outcome no prefix of them
    /// does, and the deterministic failure verdicts mean no continuation of
    /// them is one either.  A session that has returned a failure code is
    /// terminal and must not be stepped again.
    pub fn run(&mut self, input: &[u8], in_pos: &mut usize, out: &mut Vec<u8>, out_pos: &mut usize) -> (r: xz_ret)
        requires
            !old(self)@.failed,
            *old(in_pos) <= input@.len(),
            *old(out_pos) <= old(out)@.len(),
        ensures
            final(self)@.failed <==> is_failure_code(r),
            final(out)@.len() == old(out)@.len(),
            *old(in_pos) <= *final(in_pos) <= input@.len(),
            *old(out_pos) <= *final(out_pos) <= old(out)@.len(),
            final(out)@.subrange(0, *old(out_pos) as int) == old(out)@.subrange(
                0,
                *old(out_pos) as int,
            ),
            final(self)@.consumed == old(self)@.consumed + input@.subrange(
                *old(in_pos) as int,
                *final(in_pos) as int,
            ),
            final(self)@.produced == old(self)@.produced + final(out)@.subrange(
                *old(out_pos) as int,
                *final(out_pos) as int,
            ),
            final(self)@.produced.len() <= u64::MAX,
            final(self)@.stalled <==> (*final(in_pos) == *old(in_pos)
                && *final(out_pos) == *old(out_pos)),
            (old(self)@.stalled && final(self)@.stalled) ==> r != xz_ret::XZ_OK,
            r == xz_ret::XZ_STREAM_END ==> decode_complete(final(self)@),
            r != xz_ret::XZ_STREAM_END ==> no_complete_prefix(final(self)@),
            (r == xz_ret::XZ_FORMAT_ERROR || r == xz_ret::XZ_OPTIONS_ERROR || r
                == xz_ret::XZ_DATA_ERROR || r == xz_ret::XZ_UNSUPPORTED_CHECK) ==> dead_bytes(
                final(self)@.consumed,
            ),
            r == xz_ret::XZ_BUF_ERROR ==> (*old(in_pos) == input@.len() || *old(out_pos) == old(
                out,
            )@.len()),
    {
        let n: usize = input.len();
        let m: usize = out.len();
        let t_in0 = engine_total_in(self);
        let t_out0 = engine_total_out(self);
        let r = engine_step_raw(self, input, *in_pos, out, *out_pos);
        let t_in1 = engine_total_in(self);
        let t_out1 = engine_total_out(self);
        proof {
            assert(t_in1 - t_in0 <= n - *in_pos);
            assert(t_out1 - t_out0 <= m - *out_pos);
        }
        let dj = (t_in1 - t_in0) as usize;
        let dk = (t_out1 - t_out0) as usize;
        *in_pos = *in_pos + dj;
        *out_pos = *out_pos + dk;
        r
    }
}

} // verus!
