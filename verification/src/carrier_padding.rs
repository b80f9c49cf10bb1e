//! Padding frames: they hide the lengths of what a carrier sends.
//!
//! A frame is two big-endian `u16` lengths, of the payload and of the pad, then the
//! payload, then the pad.

use vstd::prelude::*;

verus! {

/// The longest payload one frame can carry.
pub const MAX_PADDING_SEGMENT: usize = 65535;

/// How much pad a carrier's frames get: between `min` and `max` bytes, or none at
/// all and no framing either.
#[derive(Clone, Copy, Debug, PartialEq, Eq, Structural)]
pub struct PaddingScheme {
    pub enabled: bool,
    pub min: u16,
    pub max: u16,
}

impl PaddingScheme {
    /// A scheme that pads by `min` to `max` bytes.
    pub fn new(min: u16, max: u16) -> (scheme: PaddingScheme)
        ensures
            scheme == (PaddingScheme { enabled: true, min, max }),
    {
        PaddingScheme { enabled: true, min, max }
    }

    /// No padding, and no framing.
    pub fn disabled() -> (scheme: PaddingScheme)
        ensures
            scheme == (PaddingScheme { enabled: false, min: 0, max: 0 }),
    {
        PaddingScheme { enabled: false, min: 0, max: 0 }
    }

    /// Whether a carrier frames what it sends.
    pub fn is_enabled(&self) -> (enabled: bool)
        ensures
            enabled == self.enabled,
    {
        self.enabled
    }

    pub open spec fn pad_for(self, draw: u16) -> int {
        if self.max <= self.min {
            self.min as int
        } else {
            self.min + draw as int % (self.max - self.min + 1)
        }
    }

    /// Whether a pad of this length is one the scheme can draw.
    pub open spec fn draws(self, len: nat) -> bool {
        exists|draw: u16| len == #[trigger] self.pad_for(draw)
    }

    /// Whether `framed` is `data`, framed with a pad that the scheme can draw.
    pub open spec fn frames_as(self, data: Seq<u8>, framed: Seq<u8>) -> bool {
        exists|pad: Seq<u8>|
            framed == #[trigger] frames(data, pad) && self.draws(pad.len()) && pad.len() <= 65535
    }

    /// The pad length a random draw stands for.
    pub fn pad_len(&self, draw: u16) -> (len: u16)
        ensures
            len == self.pad_for(draw),
            self.min <= len,
            len <= self.max || len == self.min,
    {
        if self.max <= self.min {
            self.min
        } else {
            let span: u32 = (self.max - self.min) as u32 + 1;
            self.min + (draw as u32 % span) as u16
        }
    }
}

// ── Frames ──────────────────────────────────────────────────────────────────

/// A `u16` in two bytes, the high one first.
pub open spec fn be_bytes(value: int) -> Seq<u8> {
    seq![(value / 256) as u8, (value % 256) as u8]
}

/// One frame.
pub open spec fn frame(payload: Seq<u8>, pad: Seq<u8>) -> Seq<u8> {
    be_bytes(payload.len() as int) + be_bytes(pad.len() as int) + payload + pad
}

/// A payload in frames: as many full ones as it takes, and a last one with the pad.
/// No payload at all still makes one frame.
pub open spec fn frames(data: Seq<u8>, pad: Seq<u8>) -> Seq<u8>
    decreases data.len(),
{
    if data.len() <= MAX_PADDING_SEGMENT {
        frame(data, pad)
    } else {
        frame(data.take(MAX_PADDING_SEGMENT as int), Seq::empty()) + frames(
            data.skip(MAX_PADDING_SEGMENT as int),
            pad,
        )
    }
}

fn push_range(out: &mut Vec<u8>, data: &[u8], from: usize, to: usize)
    requires
        from <= to <= data@.len(),
    ensures
        final(out)@ == old(out)@ + data@.subrange(from as int, to as int),
{
    let ghost before = out@;
    let mut i: usize = from;
    assert(out@ =~= before + data@.subrange(from as int, from as int));
    while i < to
        invariant
            from <= i <= to <= data@.len(),
            out@ == before + data@.subrange(from as int, i as int),
        decreases to - i,
    {
        out.push(data[i]);
        assert(out@ =~= before + data@.subrange(from as int, i + 1));
        i = i + 1;
    }
}

fn encode_frame_into(out: &mut Vec<u8>, data: &[u8], from: usize, to: usize, pad: &[u8])
    requires
        from <= to <= data@.len(),
        to - from <= MAX_PADDING_SEGMENT,
        pad@.len() <= 65535,
    ensures
        final(out)@ == old(out)@ + frame(data@.subrange(from as int, to as int), pad@),
{
    let ghost before = out@;
    let real_len: usize = to - from;
    let pad_len: usize = pad.len();
    out.push((real_len / 256) as u8);
    out.push((real_len % 256) as u8);
    out.push((pad_len / 256) as u8);
    out.push((pad_len % 256) as u8);
    assert(out@ =~= before + be_bytes(real_len as int) + be_bytes(pad_len as int));
    push_range(out, data, from, to);
    push_range(out, pad, 0, pad_len);
    assert(pad@.subrange(0, pad_len as int) =~= pad@);
    assert(out@ =~= before + frame(data@.subrange(from as int, to as int), pad@));
}

/// Frames `data` into `out`, with `pad` behind the last segment.
pub fn frame_payload_into(data: &[u8], pad: &[u8], out: &mut Vec<u8>)
    requires
        pad@.len() <= 65535,
    ensures
        final(out)@ == old(out)@ + frames(data@, pad@),
{
    let ghost before = out@;
    let none: Vec<u8> = Vec::new();
    let mut at: usize = 0;
    assert(data@.skip(0) =~= data@);
    while data.len() - at > MAX_PADDING_SEGMENT
        invariant
            at <= data@.len(),
            none@.len() == 0,
            out@ + frames(data@.skip(at as int), pad@) == before + frames(data@, pad@),
        decreases data@.len() - at,
    {
        let ghost rest = data@.skip(at as int);
        let ghost sofar = out@;
        encode_frame_into(out, data, at, at + MAX_PADDING_SEGMENT, none.as_slice());
        proof {
            let head = frame(rest.take(MAX_PADDING_SEGMENT as int), Seq::empty());
            let tail = frames(rest.skip(MAX_PADDING_SEGMENT as int), pad@);
            assert(rest.take(MAX_PADDING_SEGMENT as int) =~= data@.subrange(
                at as int,
                at + MAX_PADDING_SEGMENT,
            ));
            assert(none@ =~= Seq::<u8>::empty());
            assert(rest.skip(MAX_PADDING_SEGMENT as int) =~= data@.skip(at + MAX_PADDING_SEGMENT));
            assert(out@ + tail =~= sofar + (head + tail));
        }
        at = at + MAX_PADDING_SEGMENT;
    }
    encode_frame_into(out, data, at, data.len(), pad);
    assert(data@.skip(at as int) =~= data@.subrange(at as int, data@.len() as int));
}

// ── Reading frames ──────────────────────────────────────────────────────────

/// Where in a frame a decoder stands.
#[derive(Clone, Copy, Debug, PartialEq, Eq, Structural)]
pub enum DecodePhase {
    Boundary,
    Header1(u8),
    Header2(u8, u8),
    Header3(u8, u8, u8),
    /// `left` payload bytes to come, then `pad` bytes of pad. `left` is not 0.
    Real { left: u16, pad: u16 },
    /// `left` bytes of pad to come; not 0.
    Pad { left: u16 },
}

/// Takes the padding off a carrier's bytes, however they are cut up.
#[derive(Clone, Copy, Debug, PartialEq, Eq, Structural)]
pub struct PaddingDecoder {
    pub phase: DecodePhase,
}

pub open spec fn be_value(high: u8, low: u8) -> int {
    high * 256 + low
}

pub open spec fn after_header(payload: int, pad: int) -> DecodePhase {
    if payload > 0 {
        DecodePhase::Real { left: payload as u16, pad: pad as u16 }
    } else if pad > 0 {
        DecodePhase::Pad { left: pad as u16 }
    } else {
        DecodePhase::Boundary
    }
}

/// What one byte makes of a decoder.
pub open spec fn decode_byte(phase: DecodePhase, byte: u8) -> DecodePhase {
    match phase {
        DecodePhase::Boundary => DecodePhase::Header1(byte),
        DecodePhase::Header1(a) => DecodePhase::Header2(a, byte),
        DecodePhase::Header2(a, b) => DecodePhase::Header3(a, b, byte),
        DecodePhase::Header3(a, b, c) => after_header(be_value(a, b), be_value(c, byte)),
        DecodePhase::Real { left, pad } => after_header(left - 1, pad as int),
        DecodePhase::Pad { left } => after_header(0, left - 1),
    }
}

/// Whether the next byte is payload.
pub open spec fn yields(phase: DecodePhase) -> bool {
    phase is Real
}

pub open spec fn decode_run(phase: DecodePhase, bytes: Seq<u8>) -> (DecodePhase, Seq<u8>)
    decreases bytes.len(),
{
    if bytes.len() == 0 {
        (phase, Seq::empty())
    } else {
        let (before, out) = decode_run(phase, bytes.drop_last());
        (
            decode_byte(before, bytes.last()),
            if yields(before) {
                out.push(bytes.last())
            } else {
                out
            },
        )
    }
}

impl PaddingDecoder {
    pub open spec fn wf(self) -> bool {
        match self.phase {
            DecodePhase::Real { left, .. } => left > 0,
            DecodePhase::Pad { left } => left > 0,
            _ => true,
        }
    }

    /// A decoder between frames.
    pub fn new() -> (decoder: PaddingDecoder)
        ensures
            decoder.wf(),
            decoder.phase == DecodePhase::Boundary,
    {
        PaddingDecoder { phase: DecodePhase::Boundary }
    }

    /// Whether the decoder stands between frames.
    pub fn is_at_frame_boundary(&self) -> (boundary: bool)
        ensures
            boundary == (self.phase == DecodePhase::Boundary),
    {
        matches!(self.phase, DecodePhase::Boundary)
    }

    fn take_byte(&mut self, byte: u8)
        requires
            old(self).wf(),
        ensures
            final(self).wf(),
            final(self).phase == decode_byte(old(self).phase, byte),
    {
        self.phase = match self.phase {
            DecodePhase::Boundary => DecodePhase::Header1(byte),
            DecodePhase::Header1(a) => DecodePhase::Header2(a, byte),
            DecodePhase::Header2(a, b) => DecodePhase::Header3(a, b, byte),
            DecodePhase::Header3(a, b, c) => next_phase(
                a as u16 * 256 + b as u16,
                c as u16 * 256 + byte as u16,
            ),
            DecodePhase::Real { left, pad } => next_phase((left - 1) as u16, pad),
            DecodePhase::Pad { left } => next_phase(0, (left - 1) as u16),
        };
    }

    /// Takes bytes off the carrier and appends the payload among them to `out`.
    pub fn push(&mut self, bytes: &[u8], out: &mut Vec<u8>)
        requires
            old(self).wf(),
        ensures
            final(self).wf(),
            final(self).phase == decode_run(old(self).phase, bytes@).0,
            final(out)@ == old(out)@ + decode_run(old(self).phase, bytes@).1,
    {
        let ghost start = self.phase;
        let ghost before = out@;
        let mut i: usize = 0;
        assert(out@ =~= before + decode_run(start, bytes@.take(0)).1);
        while i < bytes.len()
            invariant
                i <= bytes@.len(),
                self.wf(),
                self.phase == decode_run(start, bytes@.take(i as int)).0,
                out@ == before + decode_run(start, bytes@.take(i as int)).1,
            decreases bytes@.len() - i,
        {
            let byte: u8 = bytes[i];
            assert(bytes@.take(i + 1).drop_last() =~= bytes@.take(i as int));
            if matches!(self.phase, DecodePhase::Real { .. }) {
                out.push(byte);
            }
            self.take_byte(byte);
            assert(out@ =~= before + decode_run(start, bytes@.take(i + 1)).1);
            i = i + 1;
        }
        assert(bytes@.take(bytes@.len() as int) =~= bytes@);
    }
}

fn next_phase(payload: u16, pad: u16) -> (phase: DecodePhase)
    ensures
        phase == after_header(payload as int, pad as int),
{
    if payload > 0 {
        DecodePhase::Real { left: payload, pad }
    } else if pad > 0 {
        DecodePhase::Pad { left: pad }
    } else {
        DecodePhase::Boundary
    }
}

// ── Laws ────────────────────────────────────────────────────────────────────

/// How a carrier's bytes are cut up makes no difference to what is read.
pub proof fn law_decoding_does_not_depend_on_cuts(phase: DecodePhase, a: Seq<u8>, b: Seq<u8>)
    ensures
        decode_run(phase, a + b).0 == decode_run(decode_run(phase, a).0, b).0,
        decode_run(phase, a + b).1 == decode_run(phase, a).1 + decode_run(decode_run(phase, a).0, b).1,
    decreases b.len(),
{
    if b.len() == 0 {
        assert(a + b =~= a);
        assert(decode_run(phase, a).1 + Seq::<u8>::empty() =~= decode_run(phase, a).1);
    } else {
        law_decoding_does_not_depend_on_cuts(phase, a, b.drop_last());
        assert((a + b).drop_last() =~= a + b.drop_last());
        let middle = decode_run(phase, a).0;
        let front = decode_run(phase, a).1;
        let back = decode_run(middle, b.drop_last()).1;
        assert((front + back).push(b.last()) =~= front + back.push(b.last()));
    }
}

proof fn lemma_pad_run(left: int, bytes: Seq<u8>)
    requires
        bytes.len() == left,
        0 <= left <= 65535,
    ensures
        decode_run(after_header(0, left), bytes) == (DecodePhase::Boundary, Seq::<u8>::empty()),
    decreases left,
{
    if left > 0 {
        let first = seq![bytes[0]];
        let rest = bytes.skip(1);
        assert(bytes =~= first + rest);
        law_decoding_does_not_depend_on_cuts(after_header(0, left), first, rest);
        assert(first.drop_last() =~= Seq::<u8>::empty());
        assert(decode_run(after_header(0, left), Seq::<u8>::empty()) == (
            after_header(0, left),
            Seq::<u8>::empty(),
        ));
        assert(decode_run(after_header(0, left), first) == (
            after_header(0, left - 1),
            Seq::<u8>::empty(),
        ));
        lemma_pad_run(left - 1, rest);
        assert(Seq::<u8>::empty() + Seq::<u8>::empty() =~= Seq::<u8>::empty());
    }
}

proof fn lemma_real_run(left: int, pad: int, bytes: Seq<u8>)
    requires
        bytes.len() == left,
        0 <= left <= 65535,
        0 <= pad <= 65535,
    ensures
        decode_run(after_header(left, pad), bytes) == (after_header(0, pad), bytes),
    decreases left,
{
    if left > 0 {
        let first = seq![bytes[0]];
        let rest = bytes.skip(1);
        assert(bytes =~= first + rest);
        law_decoding_does_not_depend_on_cuts(after_header(left, pad), first, rest);
        assert(first.drop_last() =~= Seq::<u8>::empty());
        assert(decode_run(after_header(left, pad), Seq::<u8>::empty()) == (
            after_header(left, pad),
            Seq::<u8>::empty(),
        ));
        assert(Seq::<u8>::empty().push(bytes[0]) =~= first);
        assert(decode_run(after_header(left, pad), first) == (after_header(left - 1, pad), first));
        lemma_real_run(left - 1, pad, rest);
    } else {
        assert(bytes =~= Seq::<u8>::empty());
    }
}

proof fn lemma_header_run(payload: int, pad: int)
    requires
        0 <= payload <= 65535,
        0 <= pad <= 65535,
    ensures
        decode_run(DecodePhase::Boundary, be_bytes(payload) + be_bytes(pad)) == (
            after_header(payload, pad),
            Seq::<u8>::empty(),
        ),
{
    let header = be_bytes(payload) + be_bytes(pad);
    let three = header.drop_last();
    let two = three.drop_last();
    let one = two.drop_last();
    assert(one.drop_last() =~= Seq::<u8>::empty());
    reveal_with_fuel(decode_run, 5);
    assert(header[0] == (payload / 256) as u8 && header[1] == (payload % 256) as u8);
    assert(header[2] == (pad / 256) as u8 && header[3] == (pad % 256) as u8);
    assert(be_value(header[0], header[1]) == payload);
    assert(be_value(header[2], header[3]) == pad);
}

/// A frame reads back as its payload, and leaves the decoder between frames.
pub proof fn law_a_frame_reads_back(payload: Seq<u8>, pad: Seq<u8>)
    requires
        payload.len() <= MAX_PADDING_SEGMENT,
        pad.len() <= 65535,
    ensures
        decode_run(DecodePhase::Boundary, frame(payload, pad)) == (DecodePhase::Boundary, payload),
{
    let header = be_bytes(payload.len() as int) + be_bytes(pad.len() as int);
    lemma_header_run(payload.len() as int, pad.len() as int);
    law_decoding_does_not_depend_on_cuts(DecodePhase::Boundary, header, payload);
    lemma_real_run(payload.len() as int, pad.len() as int, payload);
    law_decoding_does_not_depend_on_cuts(DecodePhase::Boundary, header + payload, pad);
    lemma_pad_run(pad.len() as int, pad);
    assert(Seq::<u8>::empty() + payload =~= payload);
    assert(payload + Seq::<u8>::empty() =~= payload);
}

/// Whatever is framed, with whatever pad, reads back byte for byte, and leaves the
/// decoder between frames; a frame of nothing but pad reads back as nothing.
pub proof fn law_framing_round_trips(data: Seq<u8>, pad: Seq<u8>)
    requires
        pad.len() <= 65535,
    ensures
        decode_run(DecodePhase::Boundary, frames(data, pad)) == (DecodePhase::Boundary, data),
    decreases data.len(),
{
    if data.len() <= MAX_PADDING_SEGMENT {
        law_a_frame_reads_back(data, pad);
    } else {
        let head = data.take(MAX_PADDING_SEGMENT as int);
        let tail = data.skip(MAX_PADDING_SEGMENT as int);
        law_a_frame_reads_back(head, Seq::empty());
        law_framing_round_trips(tail, pad);
        law_decoding_does_not_depend_on_cuts(
            DecodePhase::Boundary,
            frame(head, Seq::empty()),
            frames(tail, pad),
        );
        assert(head + tail =~= data);
    }
}

// ── Chance ──────────────────────────────────────────────────────────────────

/// Calls `rand::random`: any `u16`.
#[verifier::external_body]
fn random_u16() -> (draw: u16) {
    rand::random::<u16>()
}

/// Calls `rand::random`: any `u64`.
#[verifier::external_body]
fn random_u64() -> (draw: u64) {
    rand::random::<u64>()
}

/// Calls `rand::fill`: `len` bytes of any values.
#[verifier::external_body]
fn random_bytes(len: usize) -> (bytes: Vec<u8>)
    ensures
        bytes@.len() == len,
{
    let mut bytes = vec![0u8; len];
    rand::fill(&mut bytes[..]);
    bytes
}

/// Draws a pad within the scheme.
pub fn draw_pad(scheme: PaddingScheme) -> (pad: Vec<u8>)
    ensures
        scheme.draws(pad@.len()),
        pad@.len() <= 65535,
{
    let draw: u16 = random_u16();
    let len: u16 = scheme.pad_len(draw);
    random_bytes(len as usize)
}

/// Frames `data` with a pad drawn within the scheme, behind what `out` holds.
pub fn frame_downlink_into(scheme: PaddingScheme, data: &[u8], out: &mut Vec<u8>)
    ensures
        final(out)@.len() >= old(out)@.len(),
        final(out)@.take(old(out)@.len() as int) == old(out)@,
        scheme.frames_as(data@, final(out)@.skip(old(out)@.len() as int)),
{
    let ghost before = out@;
    let pad = draw_pad(scheme);
    frame_payload_into(data, pad.as_slice(), out);
    proof {
        let framed = frames(data@, pad@);
        assert(out@ == before + framed);
        assert(out@.take(before.len() as int) =~= before);
        assert(out@.skip(before.len() as int) =~= framed);
    }
}

/// What a carrier sends for `data`: frames where it pads, the bytes as they are where
/// it does not.
pub fn frame_downlink_message(scheme: PaddingScheme, data: Vec<u8>) -> (message: Vec<u8>)
    ensures
        !scheme.enabled ==> message@ == data@,
        scheme.enabled ==> scheme.frames_as(data@, message@),
{
    if !scheme.is_enabled() {
        return data;
    }
    let mut message: Vec<u8> = Vec::new();
    frame_downlink_into(scheme, data.as_slice(), &mut message);
    assert(message@.skip(0) =~= message@);
    message
}

// ── Policy ──────────────────────────────────────────────────────────────────

/// The padding policy of the process.
#[derive(Debug)]
pub struct PaddingConfig {
    pub enabled: bool,
    pub min: u16,
    pub max: u16,
    /// The paths whose carriers are padded.
    pub paths: Vec<String>,
    pub cover: bool,
    pub cover_jitter_min_ms: u64,
    pub cover_jitter_max_ms: u64,
}

/// Idle cover traffic: a frame of nothing but pad after each gap.
#[derive(Clone, Copy, Debug, PartialEq, Eq, Structural)]
pub struct CoverParams {
    pub scheme: PaddingScheme,
    pub jitter_min_ms: u64,
    pub jitter_max_ms: u64,
}

impl PaddingConfig {
    /// Whether carriers on `path` are padded.
    pub open spec fn pads(self, path: Seq<char>) -> bool {
        self.enabled && exists|i: int| 0 <= i < self.paths@.len() && #[trigger] self.paths@[i]@ == path
    }

    pub open spec fn padding(self) -> PaddingScheme {
        PaddingScheme { enabled: self.enabled, min: self.min, max: self.max }
    }

    /// Whether carriers on `path` are padded.
    pub fn applies_to(&self, path: &String) -> (applies: bool)
        ensures
            applies == self.pads(path@),
    {
        if !self.enabled {
            return false;
        }
        let mut i: usize = 0;
        while i < self.paths.len()
            invariant
                i <= self.paths@.len(),
                self.enabled,
                forall|j: int| 0 <= j < i ==> #[trigger] self.paths@[j]@ != path@,
            decreases self.paths@.len() - i,
        {
            if self.paths[i] == *path {
                return true;
            }
            i = i + 1;
        }
        false
    }
}

/// Sets the process's policy, once: a later call changes nothing.
pub fn init(policy: &mut Option<PaddingConfig>, config: PaddingConfig) -> (set: bool)
    ensures
        set == old(policy).is_none(),
        *final(policy) == if old(policy).is_none() {
            Some(config)
        } else {
            *old(policy)
        },
{
    if policy.is_none() {
        *policy = Some(config);
        true
    } else {
        false
    }
}

/// The padding of a carrier on `path`: none without a policy or off its paths.
pub fn scheme_for_path(policy: &Option<PaddingConfig>, path: &String) -> (scheme: PaddingScheme)
    ensures
        scheme == if policy is Some && policy->0.pads(path@) {
            policy->0.padding()
        } else {
            PaddingScheme { enabled: false, min: 0, max: 0 }
        },
{
    match policy {
        Some(config) => if config.applies_to(path) {
            PaddingScheme { enabled: config.enabled, min: config.min, max: config.max }
        } else {
            PaddingScheme::disabled()
        },
        None => PaddingScheme::disabled(),
    }
}

/// The cover traffic of a carrier on `path`: none unless the policy wants it and the
/// path is padded.
pub fn cover_for_path(policy: &Option<PaddingConfig>, path: &String) -> (cover: Option<CoverParams>)
    ensures
        cover == if policy is Some && policy->0.cover && policy->0.pads(path@) {
            Some(
                CoverParams {
                    scheme: policy->0.padding(),
                    jitter_min_ms: policy->0.cover_jitter_min_ms,
                    jitter_max_ms: policy->0.cover_jitter_max_ms,
                },
            )
        } else {
            None
        },
{
    match policy {
        Some(config) => if config.cover && config.applies_to(path) {
            Some(
                CoverParams {
                    scheme: PaddingScheme {
                        enabled: config.enabled,
                        min: config.min,
                        max: config.max,
                    },
                    jitter_min_ms: config.cover_jitter_min_ms,
                    jitter_max_ms: config.cover_jitter_max_ms,
                },
            )
        } else {
            None
        },
        None => None,
    }
}

/// The gap a random draw stands for.
pub open spec fn jitter(min_ms: u64, max_ms: u64, draw: u64) -> int {
    if max_ms <= min_ms {
        min_ms as int
    } else if max_ms - min_ms == u64::MAX {
        draw as int % u64::MAX as int
    } else {
        min_ms + draw as int % (max_ms - min_ms + 1)
    }
}

/// The gap a random draw stands for, between the two bounds; a range that is upside
/// down is its lower bound.
pub fn jitter_for(min_ms: u64, max_ms: u64, draw: u64) -> (gap_ms: u64)
    ensures
        gap_ms == jitter(min_ms, max_ms, draw),
        min_ms <= gap_ms,
        gap_ms <= max_ms || gap_ms == min_ms,
{
    let span: u64 = max_ms.saturating_sub(min_ms).saturating_add(1);
    min_ms + draw % span
}

impl CoverParams {
    /// Draws the gap before the next cover frame.
    pub fn next_gap(&self) -> (gap_ms: u64)
        ensures
            exists|draw: u64| gap_ms == #[trigger] jitter(self.jitter_min_ms, self.jitter_max_ms, draw),
            self.jitter_min_ms <= gap_ms,
            gap_ms <= self.jitter_max_ms || gap_ms == self.jitter_min_ms,
    {
        let draw: u64 = random_u64();
        jitter_for(self.jitter_min_ms, self.jitter_max_ms, draw)
    }

    /// Builds one cover frame: nothing but a pad drawn within the scheme, which reads
    /// back as nothing.
    pub fn frame(&self) -> (framed: Vec<u8>)
        ensures
            self.scheme.frames_as(Seq::empty(), framed@),
            decode_run(DecodePhase::Boundary, framed@) == (DecodePhase::Boundary, Seq::<u8>::empty()),
    {
        let mut framed: Vec<u8> = Vec::new();
        let nothing: Vec<u8> = Vec::new();
        frame_downlink_into(self.scheme, nothing.as_slice(), &mut framed);
        proof {
            assert(framed@.skip(0) =~= framed@);
            assert(nothing@ =~= Seq::<u8>::empty());
            let pad = choose|pad: Seq<u8>|
                framed@ == #[trigger] frames(nothing@, pad) && pad.len() <= 65535;
            law_framing_round_trips(nothing@, pad);
        }
        framed
    }
}

// ── What padding is for ─────────────────────────────────────────────────────

/// Every pad length of a scheme can be drawn, and no other: a draw stands for the least
/// length and what it is over within the range.
pub proof fn law_a_scheme_draws_its_whole_range(scheme: PaddingScheme, draw: u16, len: u16)
    ensures
        scheme.min <= scheme.max ==> scheme.min <= scheme.pad_for(draw) <= scheme.max,
        scheme.max <= scheme.min ==> scheme.pad_for(draw) == scheme.min,
        scheme.min <= len <= scheme.max ==> scheme.pad_for((len - scheme.min) as u16) == len,
        scheme.min <= len <= scheme.max ==> scheme.draws(len as nat),
        scheme.draws(len as nat) && scheme.min <= scheme.max ==> scheme.min <= len <= scheme.max,
{
    if scheme.min <= len <= scheme.max {
        let draw = (len - scheme.min) as u16;
        if scheme.max > scheme.min {
            assert((len - scheme.min) % (scheme.max - scheme.min + 1) == len - scheme.min)
                by (nonlinear_arith)
                requires
                    0 <= len - scheme.min < scheme.max - scheme.min + 1,
            ;
        }
        assert(scheme.pad_for(draw) == len);
    }
}

/// Padding hides lengths and nothing else: what is framed is longer by the pad and by four
/// bytes for each segment, and what a message is framed as reads back as the message.
pub proof fn law_a_padded_message_reads_back(scheme: PaddingScheme, data: Seq<u8>, framed: Seq<u8>)
    requires
        scheme.frames_as(data, framed),
    ensures
        decode_run(DecodePhase::Boundary, framed) == (DecodePhase::Boundary, data),
        framed.len() >= data.len() + 4,
        data.len() <= MAX_PADDING_SEGMENT ==> scheme.draws((framed.len() - data.len() - 4) as nat),
{
    let pad = choose|pad: Seq<u8>|
        framed == #[trigger] frames(data, pad) && scheme.draws(pad.len()) && pad.len() <= 65535;
    law_framing_round_trips(data, pad);
    lemma_frames_are_longer(data, pad);
}

proof fn lemma_frames_are_longer(data: Seq<u8>, pad: Seq<u8>)
    ensures
        frames(data, pad).len() >= data.len() + 4,
        data.len() <= MAX_PADDING_SEGMENT ==> frames(data, pad).len() == data.len() + pad.len() + 4,
    decreases data.len(),
{
    if data.len() > MAX_PADDING_SEGMENT {
        lemma_frames_are_longer(data.skip(MAX_PADDING_SEGMENT as int), pad);
    }
}

/// A frame begins with the length of its payload and that of its pad, the high byte of
/// each first; then come the payload and the pad.
pub proof fn law_a_frame_begins_with_its_lengths(payload: Seq<u8>, pad: Seq<u8>, i: int)
    requires
        payload.len() <= 65535,
        pad.len() <= 65535,
    ensures
        frame(payload, pad).len() == 4 + payload.len() + pad.len(),
        frame(payload, pad)[0] * 256 + frame(payload, pad)[1] == payload.len(),
        frame(payload, pad)[2] * 256 + frame(payload, pad)[3] == pad.len(),
        0 <= i < payload.len() ==> frame(payload, pad)[4 + i] == payload[i],
        0 <= i < pad.len() ==> frame(payload, pad)[4 + payload.len() + i] == pad[i],
{
}

/// A carrier is padded exactly where padding is on and its path is listed, and then as the
/// policy says.
pub proof fn law_a_listed_path_is_padded(config: PaddingConfig, path: Seq<char>, at: int)
    ensures
        config.enabled && 0 <= at < config.paths@.len() && config.paths@[at]@ == path ==> config.pads(
            path,
        ),
        config.pads(path) ==> config.enabled && exists|i: int|
            0 <= i < config.paths@.len() && #[trigger] config.paths@[i]@ == path,
        config.padding().enabled == config.enabled,
        config.padding().min == config.min,
        config.padding().max == config.max,
{
}

/// A gap lies within its bounds, and a range of one is that one.
pub proof fn law_a_gap_lies_within_its_bounds(min_ms: u64, max_ms: u64, draw: u64, gap_ms: u64)
    ensures
        min_ms <= max_ms ==> min_ms <= jitter(min_ms, max_ms, draw) <= max_ms,
        max_ms <= min_ms ==> jitter(min_ms, max_ms, draw) == min_ms,
        min_ms <= gap_ms <= max_ms && max_ms - min_ms < u64::MAX ==> jitter(
            min_ms,
            max_ms,
            (gap_ms - min_ms) as u64,
        ) == gap_ms,
{
    if min_ms <= gap_ms <= max_ms && min_ms < max_ms && max_ms - min_ms < u64::MAX {
        assert((gap_ms - min_ms) % (max_ms - min_ms + 1) == gap_ms - min_ms) by (nonlinear_arith)
            requires
                0 <= gap_ms - min_ms < max_ms - min_ms + 1,
        ;
    }
}

/// A carrier is padded exactly where the policy pads its path, and has cover traffic only
/// where it is padded.
pub proof fn law_cover_needs_padding(
    policy: Option<PaddingConfig>,
    path: String,
    scheme: PaddingScheme,
    cover: Option<CoverParams>,
)
    requires
        call_ensures(scheme_for_path, (&policy, &path), scheme),
        call_ensures(cover_for_path, (&policy, &path), cover),
    ensures
        scheme.enabled <==> policy is Some && policy->0.enabled && policy->0.pads(path@),
        scheme.enabled ==> scheme.min == policy->0.min && scheme.max == policy->0.max,
        cover is Some <==> scheme.enabled && policy->0.cover,
        cover matches Some(cover) ==> cover.scheme == scheme && cover.jitter_min_ms
            == policy->0.cover_jitter_min_ms && cover.jitter_max_ms == policy->0.cover_jitter_max_ms,
{
}

} // verus!
