//! The consumer side: from channel messages to an image, or to a sequence of frames.
use vstd::prelude::*;

verus! {

/// A message on a capture's channel.
#[derive(Debug)]
pub enum Message {
    /// The valid bytes of one delivered buffer, and whether it closes a frame.
    Data { bytes: Vec<u8>, frame_end: bool },
    /// End of stream: the channel carries nothing after it.
    End,
}

/// The image of a still capture: the chunks up to and including the first one that
/// closes a frame, or all chunks before the end of the stream.
pub open spec fn still_bytes(msgs: Seq<Message>) -> Seq<u8>
    decreases msgs.len(),
{
    if msgs.len() == 0 {
        seq![]
    } else {
        match msgs[0] {
            Message::End => seq![],
            Message::Data { bytes, frame_end } => if frame_end {
                bytes@
            } else {
                bytes@ + still_bytes(msgs.drop_first())
            },
        }
    }
}

/// The frames of a video capture: after the bytes `pending` of an unfinished frame,
/// each run of chunks that ends in one closing a frame, up to the end of the stream.
/// An unfinished frame at the end of the stream is not a frame.
pub open spec fn frames_of(msgs: Seq<Message>, pending: Seq<u8>) -> Seq<Seq<u8>>
    decreases msgs.len(),
{
    if msgs.len() == 0 {
        seq![]
    } else {
        match msgs[0] {
            Message::End => seq![],
            Message::Data { bytes, frame_end } => if frame_end {
                seq![pending + bytes@] + frames_of(msgs.drop_first(), seq![])
            } else {
                frames_of(msgs.drop_first(), pending + bytes@)
            },
        }
    }
}

/// The bytes of all chunks, in order.
pub open spec fn all_bytes(msgs: Seq<Message>) -> Seq<u8>
    decreases msgs.len(),
{
    if msgs.len() == 0 {
        seq![]
    } else {
        match msgs[0] {
            Message::End => all_bytes(msgs.drop_first()),
            Message::Data { bytes, .. } => bytes@ + all_bytes(msgs.drop_first()),
        }
    }
}

/// The sum of the chunks' lengths.
pub open spec fn total_len(msgs: Seq<Message>) -> nat
    decreases msgs.len(),
{
    if msgs.len() == 0 {
        0
    } else {
        match msgs[0] {
            Message::End => total_len(msgs.drop_first()),
            Message::Data { bytes, .. } => bytes@.len() + total_len(msgs.drop_first()),
        }
    }
}

/// A still capture as delivered: one or more chunks, of which only the last closes the
/// frame.
pub open spec fn is_still_delivery(msgs: Seq<Message>) -> bool {
    &&& msgs.len() > 0
    &&& forall|i: int| 0 <= i < msgs.len() ==> #[trigger] msgs[i] is Data
    &&& forall|i: int| 0 <= i < msgs.len() - 1 ==> !(#[trigger] msgs[i])->frame_end
    &&& msgs[msgs.len() - 1]->frame_end
}

fn append_bytes(v: &mut Vec<u8>, bytes: &[u8])
    ensures
        final(v)@ == old(v)@ + bytes@,
{
    let ghost start = v@;
    let mut i: usize = 0;
    while i < bytes.len()
        invariant
            i <= bytes@.len(),
            v@ == start + bytes@.subrange(0, i as int),
        decreases bytes@.len() - i,
    {
        v.push(bytes[i]);
        i = i + 1;
        proof {
            assert(bytes@.subrange(0, i as int) =~= bytes@.subrange(0, i - 1 as int).push(
                bytes@[i - 1],
            ));
        }
    }
    proof {
        assert(bytes@.subrange(0, bytes@.len() as int) =~= bytes@);
    }
}

/// Collects chunks into frames, one closing chunk at a time.
#[derive(Debug)]
pub struct FrameAssembler {
    frame: Vec<u8>,
}

impl FrameAssembler {
    /// The bytes of the unfinished frame.
    pub closed spec fn pending(&self) -> Seq<u8> {
        self.frame@
    }

    pub fn new() -> (r: FrameAssembler)
        ensures
            r.pending() == Seq::<u8>::empty(),
    {
        FrameAssembler { frame: Vec::new() }
    }

    /// Adds a chunk; where it closes the frame, hands the whole frame out.
    pub fn push(&mut self, bytes: &[u8], frame_end: bool) -> (r: Option<Vec<u8>>)
        ensures
            frame_end ==> (r matches Some(f) && f@ == old(self).pending() + bytes@),
            frame_end ==> final(self).pending() == Seq::<u8>::empty(),
            !frame_end ==> r is None && final(self).pending() == old(self).pending() + bytes@,
    {
        append_bytes(&mut self.frame, bytes);
        if frame_end {
            let mut done: Vec<u8> = Vec::new();
            std::mem::swap(&mut done, &mut self.frame);
            Some(done)
        } else {
            None
        }
    }

    /// The bytes gathered so far, where the stream ends before the frame is closed.
    pub fn finish(self) -> (r: Vec<u8>)
        ensures
            r@ == self.pending(),
    {
        self.frame
    }
}

/// The image a still capture delivers: every chunk is written out until one closes
/// the frame or the stream ends.
pub fn take_one_bytes(msgs: &Vec<Message>) -> (r: Vec<u8>)
    ensures
        r@ == still_bytes(msgs@),
{
    let mut out: Vec<u8> = Vec::new();
    let mut i: usize = 0;
    proof {
        assert(msgs@.subrange(0, msgs@.len() as int) =~= msgs@);
        assert(out@ + still_bytes(msgs@) =~= still_bytes(msgs@));
    }
    while i < msgs.len()
        invariant
            i <= msgs@.len(),
            out@ + still_bytes(msgs@.subrange(i as int, msgs@.len() as int)) == still_bytes(msgs@),
        decreases msgs@.len() - i,
    {
        let ghost rest = msgs@.subrange(i as int, msgs@.len() as int);
        proof {
            assert(rest.drop_first() =~= msgs@.subrange(i + 1, msgs@.len() as int));
        }
        match &msgs[i] {
            Message::End => {
                proof {
                    assert(still_bytes(rest) == Seq::<u8>::empty());
                    assert(out@ + Seq::<u8>::empty() =~= out@);
                }
                return out;
            },
            Message::Data { bytes, frame_end } => {
                let ghost before = out@;
                append_bytes(&mut out, bytes.as_slice());
                if *frame_end {
                    proof {
                        assert(still_bytes(rest) == bytes@);
                    }
                    return out;
                }
                proof {
                    assert(still_bytes(rest) == bytes@ + still_bytes(rest.drop_first()));
                    assert(before + (bytes@ + still_bytes(rest.drop_first())) =~= out@
                        + still_bytes(rest.drop_first()));
                }
            },
        }
        i = i + 1;
    }
    proof {
        assert(msgs@.subrange(i as int, msgs@.len() as int).len() == 0);
        assert(out@ + Seq::<u8>::empty() =~= out@);
    }
    out
}

/// The frames a video capture delivers until its end of stream, each the chunks up to
/// and including one that closes a frame.
pub fn take_video_frames(msgs: &Vec<Message>) -> (r: Vec<Vec<u8>>)
    ensures
        r@.len() == frames_of(msgs@, seq![]).len(),
        forall|k: int| 0 <= k < r@.len() ==> (#[trigger] r@[k])@ == frames_of(msgs@, seq![])[k],
{
    let mut out: Vec<Vec<u8>> = Vec::new();
    let mut assembler = FrameAssembler::new();
    let mut i: usize = 0;
    let ghost outv: Seq<Seq<u8>> = seq![];
    proof {
        assert(msgs@.subrange(0, msgs@.len() as int) =~= msgs@);
        assert(outv + frames_of(msgs@, seq![]) =~= frames_of(msgs@, seq![]));
    }
    while i < msgs.len()
        invariant
            i <= msgs@.len(),
            outv.len() == out@.len(),
            forall|k: int| 0 <= k < out@.len() ==> (#[trigger] out@[k])@ == outv[k],
            outv + frames_of(msgs@.subrange(i as int, msgs@.len() as int), assembler.pending())
                == frames_of(msgs@, seq![]),
        decreases msgs@.len() - i,
    {
        let ghost rest = msgs@.subrange(i as int, msgs@.len() as int);
        proof {
            assert(rest.drop_first() =~= msgs@.subrange(i + 1, msgs@.len() as int));
        }
        match &msgs[i] {
            Message::End => {
                proof {
                    assert(outv + Seq::<Seq<u8>>::empty() =~= outv);
                }
                return out;
            },
            Message::Data { bytes, frame_end } => {
                let ghost p = assembler.pending();
                let done = assembler.push(bytes.as_slice(), *frame_end);
                match done {
                    Some(f) => {
                        proof {
                            assert(frames_of(rest, p) == seq![p + bytes@] + frames_of(
                                rest.drop_first(),
                                seq![],
                            ));
                            outv = outv.push(f@);
                            assert(outv + frames_of(rest.drop_first(), seq![]) =~= outv.drop_last()
                                + (seq![p + bytes@] + frames_of(rest.drop_first(), seq![])));
                        }
                        out.push(f);
                    },
                    None => {
                        proof {
                            assert(frames_of(rest, p) == frames_of(rest.drop_first(), p + bytes@));
                        }
                    },
                }
            },
        }
        i = i + 1;
    }
    proof {
        assert(msgs@.subrange(i as int, msgs@.len() as int).len() == 0);
        assert(outv + Seq::<Seq<u8>>::empty() =~= outv);
    }
    out
}

proof fn lemma_still_prefix(msgs: Seq<Message>, extra: Seq<Message>)
    requires
        msgs.len() > 0,
        forall|i: int| 0 <= i < msgs.len() ==> #[trigger] msgs[i] is Data,
        forall|i: int| 0 <= i < msgs.len() - 1 ==> !(#[trigger] msgs[i])->frame_end,
        msgs[msgs.len() - 1]->frame_end,
    ensures
        still_bytes(msgs + extra) == all_bytes(msgs),
        all_bytes(msgs).len() == total_len(msgs),
    decreases msgs.len(),
{
    let m = msgs + extra;
    assert(m[0] == msgs[0]);
    if msgs.len() == 1 {
        assert(msgs.drop_first() =~= Seq::<Message>::empty());
        assert(all_bytes(msgs.drop_first()) == Seq::<u8>::empty());
        assert(total_len(msgs.drop_first()) == 0);
        assert(msgs[0]->bytes@ + Seq::<u8>::empty() =~= msgs[0]->bytes@);
    } else {
        let tail = msgs.drop_first();
        assert(m.drop_first() =~= tail + extra);
        assert forall|i: int| 0 <= i < tail.len() implies #[trigger] tail[i] is Data by {
            assert(tail[i] == msgs[i + 1]);
        }
        assert forall|i: int| 0 <= i < tail.len() - 1 implies !(#[trigger] tail[i])->frame_end by {
            assert(tail[i] == msgs[i + 1]);
        }
        assert(tail[tail.len() - 1] == msgs[msgs.len() - 1]);
        lemma_still_prefix(tail, extra);
        assert(!msgs[0]->frame_end);
    }
}

/// A still capture's image is every byte delivered: its length is the sum of the
/// chunks' lengths, and nothing delivered after the closing chunk is read.
pub proof fn lemma_still_round_trip(msgs: Seq<Message>, extra: Seq<Message>)
    requires
        is_still_delivery(msgs),
    ensures
        still_bytes(msgs) == all_bytes(msgs),
        still_bytes(msgs).len() == total_len(msgs),
        still_bytes(msgs + extra) == still_bytes(msgs),
{
    lemma_still_prefix(msgs, extra);
    lemma_still_prefix(msgs, seq![]);
    assert(msgs + Seq::<Message>::empty() =~= msgs);
}

/// Nothing after the end of the stream is read: the frames of a stream are those
/// delivered before its end marker, whatever follows it.
pub proof fn lemma_frames_stop_at_end(msgs: Seq<Message>, extra: Seq<Message>, pending: Seq<u8>)
    ensures
        frames_of(msgs.push(Message::End) + extra, pending) == frames_of(msgs, pending),
        still_bytes(msgs.push(Message::End) + extra) == still_bytes(msgs),
    decreases msgs.len(),
{
    let m = msgs.push(Message::End) + extra;
    if msgs.len() == 0 {
        assert(m[0] == Message::End);
    } else {
        assert(m[0] == msgs[0]);
        assert(m.drop_first() =~= msgs.drop_first().push(Message::End) + extra);
        lemma_frames_stop_at_end(msgs.drop_first(), extra, seq![]);
        match msgs[0] {
            Message::End => {},
            Message::Data { bytes, .. } => {
                lemma_frames_stop_at_end(msgs.drop_first(), extra, pending + bytes@);
            },
        }
    }
}

} // verus!
