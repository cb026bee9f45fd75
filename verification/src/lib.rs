//! Whole-buffer `.xz` decompression built around a bounded, multi-call codec
//! engine.
//!
//! The engine itself (liblzma, reached through the `xz2` crate) is a black
//! box that performs one bounded decode step at a time.  This crate owns the
//! orchestration around it: driving repeated steps to completion, draining a
//! fixed-capacity transfer buffer into the growing output, classifying each
//! outcome code into a closed error taxonomy, and detecting truncated input
//! that the engine never flags with a terminal status.

use vstd::prelude::*;

pub mod engine;

use crate::engine::{XZRawError, dead_bytes, xz_dec, xz_mode, xz_ret, is_failure_code, no_complete_prefix, spec_xz_magic, xz_decoded};

verus! {

/// Error type for problems during decompression.
///
/// Carries a short static summary and, for failures the engine itself
/// reported, the raw outcome code as a chained cause.  Driver-level failures
/// (initialization, exhausted input) carry no cause.
#[derive(Debug)]
pub struct XZError {
    msg: &'static str,
    code: Option<XZRawError>,
}

impl XZError {
    /// The summary text, as a sequence of characters.
    pub closed spec fn spec_msg(&self) -> Seq<char> {
        self.msg@
    }

    /// The chained engine outcome code, if the engine reported the failure.
    pub closed spec fn spec_code(&self) -> Option<xz_ret> {
        match self.code {
            Some(raw) => Some(raw.code),
            None => None,
        }
    }

    /// A short human-readable summary of the failure.
    pub fn description(&self) -> (r: &'static str)
        ensures
            r@ == self.spec_msg(),
    {
        self.msg
    }

    /// The raw engine outcome behind this failure, absent for the
    /// driver-level failures.
    pub fn cause(&self) -> (r: Option<&XZRawError>)
        ensures
            r is Some <==> self.spec_code() is Some,
            r is Some ==> Some(r->Some_0.code) == self.spec_code(),
    {
        match &self.code {
            Some(e) => Some(e),
            None => None,
        }
    }
}

/// The driver could not obtain a decoder session from the engine.
pub open spec fn is_init_failure(e: XZError) -> bool {
    e.spec_msg() == "Failed to initialize"@ && e.spec_code() is None
}

/// The input was used up before the engine reported a terminal outcome:
/// the stream is truncated, or otherwise never reaches its end marker.
pub open spec fn is_input_exhausted(e: XZError) -> bool {
    e.spec_msg() == "Reached end of input buffer"@ && e.spec_code() is None
}

/// The engine itself reported a failure; the raw code is chained as cause.
pub open spec fn is_engine_failure(e: XZError) -> bool {
    &&& e.spec_msg() == "Decompressing error"@
    &&& e.spec_code() matches Some(c) && is_failure_code(c)
}

/// Every error this crate returns falls under exactly one of the three
/// shapes of the taxonomy.
pub open spec fn is_classified_error(e: XZError) -> bool {
    ||| is_init_failure(e)
    ||| is_input_exhausted(e)
    ||| is_engine_failure(e)
}

/// The first `n` bytes of `s` are exactly one complete stream and `b` is its
/// decode.  The last conjunct is the self-delimiting nature of the format:
/// nothing that extends those `n` bytes is itself one complete stream, so
/// `n` and `b` are determined by `s` alone.
pub open spec fn complete_prefix(s: Seq<u8>, n: int, b: Seq<u8>) -> bool {
    &&& 0 <= n <= s.len()
    &&& xz_decoded(s.subrange(0, n)) == Some(b)
    &&& forall|t: Seq<u8>| t.len() > 0 ==> #[trigger] xz_decoded(s.subrange(0, n) + t) is None
}

/// `s` opens with one complete stream whose decode is `b`: what a
/// successful whole-buffer decompression of `s` must return.
pub open spec fn decodes_to(s: Seq<u8>, b: Seq<u8>) -> bool {
    exists|n: int| complete_prefix(s, n, b)
}

/// The dictionary-size ceiling handed to the engine: a hard cap on what a
/// stream header may demand, the sole defense against memory exhaustion from
/// a crafted header.
const DICT_MAX: u32 = 1 << 26;

/// The default transfer-buffer capacity.
const TRANSFER_CAPACITY: usize = 4096;

/// Appends the first `n` bytes of `src` to `dst`: one drain of the transfer
/// buffer into the output accumulator.
fn append_from(dst: &mut Vec<u8>, src: &Vec<u8>, n: usize)
    requires
        n <= src@.len(),
    ensures
        final(dst)@ == old(dst)@ + src@.subrange(0, n as int),
{
    proof {
        assert(dst@ =~= dst@ + src@.subrange(0, 0));
    }
    let mut i: usize = 0;
    while i < n
        invariant
            i <= n,
            n <= src@.len(),
            dst@ == old(dst)@ + src@.subrange(0, i as int),
        decreases n - i,
    {
        dst.push(src[i]);
        proof {
            assert(old(dst)@ + src@.subrange(0, i + 1) =~= (old(dst)@ + src@.subrange(
                0,
                i as int,
            )).push(src@[i as int]));
        }
        i = i + 1;
    }
}

/// The Error Classifier: maps one non-terminal step outcome, together with
/// the driver's own exhausted-input observation, to the error the caller
/// gets, and says exactly which error comes for each value.  An engine
/// failure wraps the raw code as its chained cause and takes precedence
/// over exhaustion; the continue code with input left, and the terminal
/// success code, classify as no error at all.
pub fn classify_outcome(ret: xz_ret, input_exhausted: bool) -> (r: Option<XZError>)
    ensures
        is_failure_code(ret) ==> (r matches Some(e) && is_engine_failure(e) && e.spec_code()
            == Some(ret)),
        (ret == xz_ret::XZ_OK && input_exhausted) ==> (r matches Some(e) && is_input_exhausted(e)),
        (ret == xz_ret::XZ_OK && !input_exhausted) ==> r is None,
        ret == xz_ret::XZ_STREAM_END ==> r is None,
{
    if ret == xz_ret::XZ_STREAM_END {
        None
    } else if ret == xz_ret::XZ_OK {
        if input_exhausted {
            Some(XZError { msg: "Reached end of input buffer", code: None })
        } else {
            None
        }
    } else {
        Some(XZError { msg: "Decompressing error", code: Some(XZRawError { code: ret }) })
    }
}

/// Decompress a whole compressed buffer, driving the engine with a transfer
/// buffer of `capacity` bytes.
///
/// The input slice must hold the full stream: on success the returned bytes
/// are the decode of the complete stream that opens the input.  Failure is
/// classified: the engine could not be set up, the input ran out before the
/// engine reported a terminal outcome (a truncated stream), or the engine
/// itself failed, with the raw outcome code chained as the cause.  Success
/// comes only on input that opens with the stream magic; the exhausted-input
/// failure comes only when no prefix of the input is one complete stream,
/// so never on input whose decompression the engine could have completed.
/// Success is owed: on input that opens with one complete stream, with any
/// usable transfer capacity, the only failures left to the engine are the
/// memory ones — allocation, or a dictionary demand over this crate's
/// ceiling.
/// A zero-length input cannot hold a complete stream and always fails.  The
/// decoder session is destroyed on every exit path, exactly once.
pub fn decompress_with_capacity(compressed_data: &[u8], capacity: usize) -> (r: Result<
    Vec<u8>,
    XZError,
>)
    ensures
        r is Ok ==> decodes_to(compressed_data@, r->Ok_0@),
        r is Ok ==> compressed_data@.len() >= 6 && compressed_data@.subrange(0, 6)
            == spec_xz_magic(),
        compressed_data@.len() == 0 ==> r is Err,
        r is Err ==> is_classified_error(r->Err_0),
        (r is Err && is_input_exhausted(r->Err_0)) ==> forall|b: Seq<u8>|
            !#[trigger] decodes_to(compressed_data@, b),
        (r is Err && capacity >= 1 && exists|b: Seq<u8>| #[trigger] decodes_to(
            compressed_data@,
            b,
        )) ==> is_init_failure(r->Err_0) || r->Err_0.spec_code() == Some(xz_ret::XZ_MEM_ERROR)
            || r->Err_0.spec_code() == Some(xz_ret::XZ_MEMLIMIT_ERROR),
{
    let mut session = match xz_dec::init(xz_mode::XZ_DYNALLOC, DICT_MAX) {
        Some(s) => s,
        None => {
            proof {
                reveal_strlit("Failed to initialize");
                reveal_strlit("Reached end of input buffer");
                assert("Failed to initialize"@.len() == 20);
                assert("Reached end of input buffer"@.len() == 27);
            }
            return Err(XZError { msg: "Failed to initialize", code: None });
        },
    };
    let mut out_vec: Vec<u8> = Vec::new();
    let mut buf: Vec<u8> = vec![0u8; capacity];
    let mut in_pos: usize = 0;
    proof {
        assert(session@.consumed =~= compressed_data@.subrange(0, 0));
    }
    loop
        invariant
            !session@.failed,
            in_pos <= compressed_data@.len(),
            session@.consumed == compressed_data@.subrange(0, in_pos as int),
            session@.produced == out_vec@,
            session@.produced.len() <= u64::MAX,
            buf@.len() == capacity,
        decreases
            compressed_data@.len() - in_pos,
            u64::MAX - session@.produced.len(),
            (if session@.stalled {
                0int
            } else {
                1int
            }),
    {
        let ghost in_pos0 = in_pos as int;
        let mut out_pos: usize = 0;
        let ret = session.run(compressed_data, &mut in_pos, &mut buf, &mut out_pos);
        proof {
            assert(compressed_data@.subrange(0, in_pos as int) =~= compressed_data@.subrange(
                0,
                in_pos0,
            ) + compressed_data@.subrange(in_pos0, in_pos as int));
        }
        append_from(&mut out_vec, &buf, out_pos);
        if ret == xz_ret::XZ_STREAM_END {
            proof {
                let n = in_pos as int;
                assert(session@.consumed == compressed_data@.subrange(0, n));
                assert forall|t: Seq<u8>| t.len() > 0 implies #[trigger] xz_decoded(
                    compressed_data@.subrange(0, n) + t,
                ) is None by {
                    assert(compressed_data@.subrange(0, n) + t == session@.consumed + t);
                    assert(xz_decoded(session@.consumed + t) is None);
                }
                assert(complete_prefix(compressed_data@, n, out_vec@));
                assert(decodes_to(compressed_data@, out_vec@));
                assert(compressed_data@.subrange(0, n).subrange(0, 6) =~= compressed_data@.subrange(
                    0,
                    6,
                ));
            }
            return Ok(out_vec);
        }
        let input_exhausted = in_pos == compressed_data.len();
        match classify_outcome(ret, input_exhausted) {
            Some(e) => {
                proof {
                    if ret == xz_ret::XZ_OK || (ret == xz_ret::XZ_BUF_ERROR && capacity >= 1) {
                        assert(in_pos == compressed_data@.len());
                        assert forall|b: Seq<u8>| !#[trigger] decodes_to(
                            compressed_data@,
                            b,
                        ) by {
                            if decodes_to(compressed_data@, b) {
                                let n = choose|n: int| complete_prefix(compressed_data@, n, b);
                                assert(session@.consumed.subrange(0, n)
                                    =~= compressed_data@.subrange(0, n));
                                assert(xz_decoded(session@.consumed.subrange(0, n)) is None);
                            }
                        }
                    }
                    if ret == xz_ret::XZ_FORMAT_ERROR || ret == xz_ret::XZ_OPTIONS_ERROR || ret
                        == xz_ret::XZ_DATA_ERROR || ret == xz_ret::XZ_UNSUPPORTED_CHECK {
                        assert forall|b: Seq<u8>| !#[trigger] decodes_to(
                            compressed_data@,
                            b,
                        ) by {
                            if decodes_to(compressed_data@, b) {
                                let n = choose|n: int| complete_prefix(compressed_data@, n, b);
                                if n <= in_pos {
                                    assert(session@.consumed.subrange(0, n)
                                        =~= compressed_data@.subrange(0, n));
                                    assert(xz_decoded(session@.consumed.subrange(0, n)) is None);
                                } else {
                                    let t = compressed_data@.subrange(in_pos as int, n);
                                    assert(session@.consumed + t =~= compressed_data@.subrange(
                                        0,
                                        n,
                                    ));
                                    assert(xz_decoded(session@.consumed + t) is None);
                                }
                            }
                        }
                    }
                }
                return Err(e);
            },
            None => {},
        }
    }
}

/// Round trip: when the input is, whole, one validly encoded stream of `b`,
/// any successful decompression of it returns exactly `b`.
pub proof fn lemma_round_trip(s: Seq<u8>, b: Seq<u8>, v: Seq<u8>)
    requires
        xz_decoded(s) == Some(b),
        decodes_to(s, v),
    ensures
        v == b,
{
    let n = choose|n: int| complete_prefix(s, n, v);
    if n < s.len() {
        let t = s.subrange(n, s.len() as int);
        assert(t.len() > 0);
        assert(s.subrange(0, n) + t =~= s);
        assert(xz_decoded(s.subrange(0, n) + t) is None);
        assert(false);
    }
    assert(s.subrange(0, s.len() as int) =~= s);
}

/// Chunking invariance: every successful decompression of the same input
/// returns the same bytes, whatever transfer-buffer capacity drove it.
pub proof fn lemma_chunking_invariance(s: Seq<u8>, v1: Seq<u8>, v2: Seq<u8>)
    requires
        decodes_to(s, v1),
        decodes_to(s, v2),
    ensures
        v1 == v2,
{
    let n1 = choose|n: int| complete_prefix(s, n, v1);
    let n2 = choose|n: int| complete_prefix(s, n, v2);
    if n1 < n2 {
        let t = s.subrange(n1, n2);
        assert(t.len() > 0);
        assert(s.subrange(0, n1) + t =~= s.subrange(0, n2));
        assert(xz_decoded(s.subrange(0, n1) + t) is None);
        assert(false);
    }
    if n2 < n1 {
        let t = s.subrange(n2, n1);
        assert(t.len() > 0);
        assert(s.subrange(0, n2) + t =~= s.subrange(0, n1));
        assert(xz_decoded(s.subrange(0, n2) + t) is None);
        assert(false);
    }
}

/// Truncation detection: a strict prefix of one complete stream never
/// allows a successful decompression, so decompressing it always fails.
pub proof fn lemma_truncation_rejected(s: Seq<u8>, b: Seq<u8>, k: int)
    requires
        xz_decoded(s) == Some(b),
        0 <= k < s.len(),
    ensures
        forall|v: Seq<u8>| !#[trigger] decodes_to(s.subrange(0, k), v),
{
    assert forall|v: Seq<u8>| !#[trigger] decodes_to(s.subrange(0, k), v) by {
        if decodes_to(s.subrange(0, k), v) {
            let n = choose|n: int| complete_prefix(s.subrange(0, k), n, v);
            assert(s.subrange(0, k).subrange(0, n) =~= s.subrange(0, n));
            let t = s.subrange(n, s.len() as int);
            assert(t.len() > 0);
            assert(s.subrange(0, n) + t =~= s);
            assert(xz_decoded(s.subrange(0, n) + t) is None);
        }
    }
}

/// Decompress some data.
///
/// The input slice should contain the full chunk of data to decompress:
/// there is no support for partial decompression.  Uses the default
/// transfer-buffer capacity.
pub fn decompress(compressed_data: &[u8]) -> (r: Result<Vec<u8>, XZError>)
    ensures
        r is Ok ==> decodes_to(compressed_data@, r->Ok_0@),
        r is Ok ==> compressed_data@.len() >= 6 && compressed_data@.subrange(0, 6)
            == spec_xz_magic(),
        compressed_data@.len() == 0 ==> r is Err,
        r is Err ==> is_classified_error(r->Err_0),
        (r is Err && is_input_exhausted(r->Err_0)) ==> forall|b: Seq<u8>|
            !#[trigger] decodes_to(compressed_data@, b),
        (r is Err && exists|b: Seq<u8>| #[trigger] decodes_to(compressed_data@, b))
            ==> is_init_failure(r->Err_0) || r->Err_0.spec_code() == Some(xz_ret::XZ_MEM_ERROR)
            || r->Err_0.spec_code() == Some(xz_ret::XZ_MEMLIMIT_ERROR),
{
    decompress_with_capacity(compressed_data, TRANSFER_CAPACITY)
}

} // verus!
