use vstd::prelude::*;

verus! {

/// Number of pending bytes at which an unterminated buffer is flushed, so a
/// framing-free binary protocol does not stall delivery indefinitely.
pub const SIZE_THRESHOLD: usize = 64;

/// A byte that completes a line-framed message. Either byte alone suffices;
/// a carriage return followed by a line feed simply leaves the second
/// terminator acting on an already empty buffer.
pub open spec fn is_terminator(b: u8) -> bool {
    b == 13 || b == 10
}

/// How a message left the framer: completed by a terminator byte, or flushed
/// because the pending buffer reached the size threshold.
#[derive(Debug, Clone, Copy, PartialEq, Eq, Structural)]
pub enum FlushKind {
    Line,
    Size,
}

/// A framed message as mathematics: payload bytes and the rule that emitted
/// them.
pub struct MsgSpec {
    pub bytes: Seq<u8>,
    pub kind: FlushKind,
}

/// A completed message: the payload bytes (terminators excluded) and the rule
/// that emitted it.
pub struct FramedMessage {
    pub bytes: Vec<u8>,
    pub kind: FlushKind,
}

impl View for FramedMessage {
    type V = MsgSpec;

    open spec fn view(&self) -> MsgSpec {
        MsgSpec { bytes: self.bytes@, kind: self.kind }
    }
}

/// The messages a sequence of `FramedMessage`s stands for.
pub open spec fn msgs_view(s: Seq<FramedMessage>) -> Seq<MsgSpec> {
    s.map_values(|m: FramedMessage| m@)
}

/// The message an `Option<FramedMessage>` stands for.
pub open spec fn msg_opt_view(r: Option<FramedMessage>) -> Option<MsgSpec> {
    match r {
        Option::None => Option::None,
        Option::Some(m) => Option::Some(m@),
    }
}

/// One byte against a pending buffer. A terminator emits the buffer as a line
/// message if it is non-empty and is otherwise a no-op; any other byte is
/// appended, and a buffer that thereby reaches the size threshold is flushed
/// at once as a size message.
pub open spec fn spec_step(buf: Seq<u8>, b: u8) -> (Seq<u8>, Option<MsgSpec>) {
    if is_terminator(b) {
        if buf.len() == 0 {
            (buf, Option::<MsgSpec>::None)
        } else {
            (Seq::<u8>::empty(), Option::Some(MsgSpec { bytes: buf, kind: FlushKind::Line }))
        }
    } else {
        let grown = buf.push(b);
        if grown.len() >= SIZE_THRESHOLD {
            (Seq::<u8>::empty(), Option::Some(MsgSpec { bytes: grown, kind: FlushKind::Size }))
        } else {
            (grown, Option::<MsgSpec>::None)
        }
    }
}

/// A whole chunk fed byte by byte: the final pending buffer and the emitted
/// messages, in arrival order.
pub open spec fn spec_feed(buf: Seq<u8>, input: Seq<u8>) -> (Seq<u8>, Seq<MsgSpec>)
    decreases input.len(),
{
    if input.len() == 0 {
        (buf, Seq::<MsgSpec>::empty())
    } else {
        let step = spec_step(buf, input[0]);
        let rest = spec_feed(step.0, input.skip(1));
        let emitted = match step.1 {
            Option::None => rest.1,
            Option::Some(m) => seq![m] + rest.1,
        };
        (rest.0, emitted)
    }
}

/// Stateful per-device framer: exactly one pending buffer, never shared
/// across devices. Bytes accumulate until a terminator or the size threshold
/// completes a message; completed messages come out in FIFO order.
pub struct Framer {
    buf: Vec<u8>,
}

impl Framer {
    /// The bytes accumulated and not yet emitted.
    pub closed spec fn pending(self) -> Seq<u8> {
        self.buf@
    }

    /// The pending buffer stays below the size threshold, because reaching it
    /// flushes at once.
    pub open spec fn wf(self) -> bool {
        self.pending().len() < SIZE_THRESHOLD
    }

    pub fn new() -> (r: Framer)
        ensures
            r.pending() == Seq::<u8>::empty(),
            r.wf(),
    {
        Framer { buf: Vec::new() }
    }

    /// How many bytes wait for a terminator or the threshold.
    pub fn pending_len(&self) -> (n: usize)
        ensures
            n == self.pending().len(),
    {
        self.buf.len()
    }

    /// Feeds one byte; returns the completed message, if this byte completed
    /// one.
    pub fn push_byte(&mut self, b: u8) -> (r: Option<FramedMessage>)
        requires
            old(self).wf(),
        ensures
            final(self).wf(),
            final(self).pending() == spec_step(old(self).pending(), b).0,
            msg_opt_view(r) == spec_step(old(self).pending(), b).1,
    {
        if b == 13 || b == 10 {
            if self.buf.len() == 0 {
                None
            } else {
                let mut out: Vec<u8> = Vec::new();
                core::mem::swap(&mut out, &mut self.buf);
                Some(FramedMessage { bytes: out, kind: FlushKind::Line })
            }
        } else {
            self.buf.push(b);
            if self.buf.len() >= SIZE_THRESHOLD {
                let mut out: Vec<u8> = Vec::new();
                core::mem::swap(&mut out, &mut self.buf);
                Some(FramedMessage { bytes: out, kind: FlushKind::Size })
            } else {
                None
            }
        }
    }

    /// Feeds a chunk in order and returns the completed messages, FIFO.
    pub fn feed(&mut self, chunk: &[u8]) -> (msgs: Vec<FramedMessage>)
        requires
            old(self).wf(),
        ensures
            final(self).wf(),
            final(self).pending() == spec_feed(old(self).pending(), chunk@).0,
            msgs_view(msgs@) == spec_feed(old(self).pending(), chunk@).1,
    {
        let ghost orig: Seq<u8> = self.pending();
        let mut msgs: Vec<FramedMessage> = Vec::new();
        let n = chunk.len();
        proof {
            assert(chunk@.skip(0) =~= chunk@);
            assert(msgs_view(msgs@) =~= Seq::<MsgSpec>::empty());
            assert(Seq::<MsgSpec>::empty() + spec_feed(orig, chunk@).1 =~= spec_feed(
                orig,
                chunk@,
            ).1);
        }
        for i in 0..n
            invariant
                n == chunk@.len(),
                self.wf(),
                spec_feed(orig, chunk@).0 == spec_feed(self.pending(), chunk@.skip(i as int)).0,
                spec_feed(orig, chunk@).1 == msgs_view(msgs@) + spec_feed(
                    self.pending(),
                    chunk@.skip(i as int),
                ).1,
        {
            let ghost before: Seq<u8> = self.pending();
            let ghost mapped_before: Seq<MsgSpec> = msgs_view(msgs@);
            proof {
                assert(chunk@.skip(i as int).len() > 0);
                assert(chunk@.skip(i as int)[0] == chunk@[i as int]);
                assert(chunk@.skip(i as int).skip(1) =~= chunk@.skip(i as int + 1));
            }
            let r = self.push_byte(chunk[i]);
            if let Some(m) = r {
                let ghost mv: MsgSpec = m@;
                msgs.push(m);
                proof {
                    assert(msgs_view(msgs@) =~= mapped_before.push(mv));
                    assert(mapped_before.push(mv) =~= mapped_before + seq![mv]);
                    assert(spec_feed(before, chunk@.skip(i as int)).1 == seq![mv] + spec_feed(
                        self.pending(),
                        chunk@.skip(i as int + 1),
                    ).1);
                    assert(spec_feed(orig, chunk@).1 =~= (mapped_before + seq![mv]) + spec_feed(
                        self.pending(),
                        chunk@.skip(i as int + 1),
                    ).1);
                }
            }
        }
        proof {
            assert(chunk@.skip(n as int) =~= Seq::<u8>::empty());
            assert(spec_feed(orig, chunk@).1 =~= msgs_view(msgs@));
        }
        msgs
    }

    /// The flush a read timeout performs: a pending buffer that has reached
    /// the size threshold comes out as one size message; a shorter one is
    /// left untouched. `push_byte` already flushes at the threshold, so under
    /// this type's invariant the check finds nothing; the read loop still
    /// performs it on every timeout.
    pub fn take_full(&mut self) -> (r: Option<FramedMessage>)
        ensures
            old(self).pending().len() >= SIZE_THRESHOLD ==> {
                &&& final(self).pending() == Seq::<u8>::empty()
                &&& final(self).wf()
                &&& (r matches Some(m) && m@ == MsgSpec {
                    bytes: old(self).pending(),
                    kind: FlushKind::Size,
                })
            },
            old(self).pending().len() < SIZE_THRESHOLD ==> {
                &&& final(self).pending() == old(self).pending()
                &&& r is None
            },
    {
        if self.buf.len() >= SIZE_THRESHOLD {
            let mut out: Vec<u8> = Vec::new();
            core::mem::swap(&mut out, &mut self.buf);
            Some(FramedMessage { bytes: out, kind: FlushKind::Size })
        } else {
            None
        }
    }
}

/// Feeding a concatenation is feeding the parts one after the other.
pub proof fn lemma_feed_split(buf: Seq<u8>, a: Seq<u8>, b: Seq<u8>)
    ensures
        spec_feed(buf, a + b).0 == spec_feed(spec_feed(buf, a).0, b).0,
        spec_feed(buf, a + b).1 == spec_feed(buf, a).1 + spec_feed(spec_feed(buf, a).0, b).1,
    decreases a.len(),
{
    if a.len() == 0 {
        assert(a + b =~= b);
        assert(spec_feed(buf, a).1 + spec_feed(buf, b).1 =~= spec_feed(buf, b).1);
    } else {
        let step = spec_step(buf, a[0]);
        assert((a + b)[0] == a[0]);
        assert((a + b).skip(1) =~= a.skip(1) + b);
        lemma_feed_split(step.0, a.skip(1), b);
        match step.1 {
            Option::None => {},
            Option::Some(m) => {
                assert(seq![m] + (spec_feed(step.0, a.skip(1)).1 + spec_feed(
                    spec_feed(step.0, a.skip(1)).0,
                    b,
                ).1) =~= (seq![m] + spec_feed(step.0, a.skip(1)).1) + spec_feed(
                    spec_feed(step.0, a.skip(1)).0,
                    b,
                ).1);
            },
        }
    }
}

/// Bytes without a terminator that stay below the threshold only accumulate:
/// nothing is emitted and the pending buffer grows by exactly those bytes.
pub proof fn lemma_feed_plain(buf: Seq<u8>, s: Seq<u8>)
    requires
        buf.len() + s.len() < SIZE_THRESHOLD,
        forall|i: int| 0 <= i < s.len() ==> !is_terminator(#[trigger] s[i]),
    ensures
        spec_feed(buf, s).0 == buf + s,
        spec_feed(buf, s).1 == Seq::<MsgSpec>::empty(),
    decreases s.len(),
{
    if s.len() == 0 {
        assert(buf + s =~= buf);
    } else {
        let grown = buf.push(s[0]);
        lemma_feed_plain(grown, s.skip(1));
        assert(grown + s.skip(1) =~= buf + s);
    }
}

/// A run of terminator bytes flushes a non-empty buffer as one line message
/// with the first terminator; the rest, and all of them on an empty buffer,
/// are no-ops.
pub proof fn lemma_feed_terminators(buf: Seq<u8>, t: Seq<u8>)
    requires
        t.len() > 0,
        forall|i: int| 0 <= i < t.len() ==> is_terminator(#[trigger] t[i]),
    ensures
        spec_feed(buf, t).0 == Seq::<u8>::empty(),
        buf.len() > 0 ==> spec_feed(buf, t).1 == seq![
            MsgSpec { bytes: buf, kind: FlushKind::Line },
        ],
        buf.len() == 0 ==> spec_feed(buf, t).1 == Seq::<MsgSpec>::empty(),
    decreases t.len(),
{
    reveal_with_fuel(spec_feed, 2);
    if buf.len() == 0 {
        assert(buf =~= Seq::<u8>::empty());
        if t.len() == 1 {
            assert(t.skip(1) =~= Seq::<u8>::empty());
        } else {
            lemma_feed_terminators(buf, t.skip(1));
        }
    } else {
        if t.len() == 1 {
            assert(t.skip(1) =~= Seq::<u8>::empty());
        } else {
            lemma_feed_terminators(Seq::<u8>::empty(), t.skip(1));
        }
        assert(seq![MsgSpec { bytes: buf, kind: FlushKind::Line }] + Seq::<MsgSpec>::empty()
            =~= seq![MsgSpec { bytes: buf, kind: FlushKind::Line }]);
    }
}

/// One line-framed record on the wire: a payload without terminators, short
/// enough for the line rule, followed by a non-empty run of terminators.
pub open spec fn valid_record(payload: Seq<u8>, delim: Seq<u8>) -> bool {
    &&& 0 < payload.len() < SIZE_THRESHOLD
    &&& (forall|i: int| 0 <= i < payload.len() ==> !is_terminator(#[trigger] payload[i]))
    &&& delim.len() > 0
    &&& (forall|i: int| 0 <= i < delim.len() ==> is_terminator(#[trigger] delim[i]))
}

/// The exact bytes of the given records, one after the other.
pub open spec fn encode_records(payloads: Seq<Seq<u8>>, delims: Seq<Seq<u8>>) -> Seq<u8>
    decreases payloads.len(),
{
    if payloads.len() == 0 {
        Seq::<u8>::empty()
    } else {
        payloads[0] + delims[0] + encode_records(payloads.skip(1), delims.skip(1))
    }
}

/// Round trip: feeding the exact bytes of N line-terminated records into an
/// empty framer emits exactly N line messages whose payloads are the original
/// contents minus terminators, in the original order, and leaves nothing
/// pending.
pub proof fn lemma_line_round_trip(payloads: Seq<Seq<u8>>, delims: Seq<Seq<u8>>)
    requires
        payloads.len() == delims.len(),
        forall|k: int|
            0 <= k < payloads.len() ==> valid_record(#[trigger] payloads[k], #[trigger] delims[k]),
    ensures
        spec_feed(Seq::<u8>::empty(), encode_records(payloads, delims)).0 == Seq::<u8>::empty(),
        spec_feed(Seq::<u8>::empty(), encode_records(payloads, delims)).1 == payloads.map_values(
            |p: Seq<u8>| MsgSpec { bytes: p, kind: FlushKind::Line },
        ),
    decreases payloads.len(),
{
    let to_msg = |p: Seq<u8>| MsgSpec { bytes: p, kind: FlushKind::Line };
    if payloads.len() == 0 {
        assert(payloads.map_values(to_msg) =~= Seq::<MsgSpec>::empty());
    } else {
        let p0 = payloads[0];
        let d0 = delims[0];
        let rest = encode_records(payloads.skip(1), delims.skip(1));
        let whole = p0 + d0 + rest;
        assert(valid_record(p0, d0));
        lemma_feed_plain(Seq::<u8>::empty(), p0);
        assert(Seq::<u8>::empty() + p0 =~= p0);
        lemma_feed_terminators(p0, d0);
        lemma_line_round_trip(payloads.skip(1), delims.skip(1));
        lemma_feed_split(Seq::<u8>::empty(), p0, d0 + rest);
        lemma_feed_split(p0, d0, rest);
        assert(p0 + (d0 + rest) =~= p0 + d0 + rest);
        assert(spec_feed(Seq::<u8>::empty(), whole).1 =~= seq![to_msg(p0)] + payloads.skip(
            1,
        ).map_values(to_msg));
        assert(seq![to_msg(p0)] + payloads.skip(1).map_values(to_msg) =~= payloads.map_values(
            to_msg,
        ));
    }
}

/// Size fallback, reaching the threshold: exactly the threshold's worth of
/// bytes with no terminator emits exactly one size message holding all of
/// them, with nothing left pending.
pub proof fn lemma_size_fallback(s: Seq<u8>)
    requires
        s.len() == SIZE_THRESHOLD,
        forall|i: int| 0 <= i < s.len() ==> !is_terminator(#[trigger] s[i]),
    ensures
        spec_feed(Seq::<u8>::empty(), s).0 == Seq::<u8>::empty(),
        spec_feed(Seq::<u8>::empty(), s).1 == seq![MsgSpec { bytes: s, kind: FlushKind::Size }],
{
    reveal_with_fuel(spec_feed, 3);
    let head = s.take(SIZE_THRESHOLD - 1);
    let tail = s.skip(SIZE_THRESHOLD - 1);
    assert(head + tail =~= s);
    lemma_feed_plain(Seq::<u8>::empty(), head);
    assert(Seq::<u8>::empty() + head =~= head);
    lemma_feed_split(Seq::<u8>::empty(), head, tail);
    assert(tail.len() == 1);
    assert(!is_terminator(tail[0]));
    assert(head.push(tail[0]) =~= s);
    assert(tail.skip(1) =~= Seq::<u8>::empty());
    assert(spec_feed(head, tail).1 =~= seq![MsgSpec { bytes: s, kind: FlushKind::Size }]);
    assert(spec_feed(Seq::<u8>::empty(), s).1 =~= Seq::<MsgSpec>::empty() + seq![
        MsgSpec { bytes: s, kind: FlushKind::Size },
    ]);
    assert(Seq::<MsgSpec>::empty() + seq![MsgSpec { bytes: s, kind: FlushKind::Size }] =~= seq![
        MsgSpec { bytes: s, kind: FlushKind::Size },
    ]);
}

/// Size fallback, below the threshold: fewer bytes than the threshold with no
/// terminator emit nothing and stay pending in full.
pub proof fn lemma_below_threshold_pends(s: Seq<u8>)
    requires
        s.len() < SIZE_THRESHOLD,
        forall|i: int| 0 <= i < s.len() ==> !is_terminator(#[trigger] s[i]),
    ensures
        spec_feed(Seq::<u8>::empty(), s).0 == s,
        spec_feed(Seq::<u8>::empty(), s).1 == Seq::<MsgSpec>::empty(),
{
    lemma_feed_plain(Seq::<u8>::empty(), s);
    assert(Seq::<u8>::empty() + s =~= s);
}

/// Round trip with an unterminated remainder: after the records, bytes that
/// have seen no terminator yet are not emitted — they stay pending in full
/// until a terminator or the size threshold arrives.
pub proof fn lemma_round_trip_with_partial_tail(
    payloads: Seq<Seq<u8>>,
    delims: Seq<Seq<u8>>,
    tail: Seq<u8>,
)
    requires
        payloads.len() == delims.len(),
        forall|k: int|
            0 <= k < payloads.len() ==> valid_record(#[trigger] payloads[k], #[trigger] delims[k]),
        tail.len() < SIZE_THRESHOLD,
        forall|i: int| 0 <= i < tail.len() ==> !is_terminator(#[trigger] tail[i]),
    ensures
        spec_feed(Seq::<u8>::empty(), encode_records(payloads, delims) + tail).0 == tail,
        spec_feed(Seq::<u8>::empty(), encode_records(payloads, delims) + tail).1
            == payloads.map_values(|p: Seq<u8>| MsgSpec { bytes: p, kind: FlushKind::Line }),
{
    let encoded = encode_records(payloads, delims);
    lemma_line_round_trip(payloads, delims);
    lemma_feed_split(Seq::<u8>::empty(), encoded, tail);
    lemma_feed_plain(Seq::<u8>::empty(), tail);
    assert(Seq::<u8>::empty() + tail =~= tail);
    assert(payloads.map_values(|p: Seq<u8>| MsgSpec { bytes: p, kind: FlushKind::Line })
        + Seq::<MsgSpec>::empty() =~= payloads.map_values(
        |p: Seq<u8>| MsgSpec { bytes: p, kind: FlushKind::Line },
    ));
}

} // verus!
