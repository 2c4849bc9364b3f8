//! Newline-delimited frames in a byte stream.
use crate::protocol::{protocol_error, ProtocolError, ProtocolErrorCode, MAX_FRAME_BYTES};
use vstd::prelude::*;

verus! {

/// The byte that ends a frame.
pub const DELIMITER: u8 = 10;

/// The complete frames of a byte stream, without their delimiters, and the bytes after the last.
pub open spec fn split(bytes: Seq<u8>) -> (Seq<Seq<u8>>, Seq<u8>)
    decreases bytes.len(),
{
    if bytes.len() == 0 {
        (Seq::empty(), Seq::empty())
    } else {
        let before = split(bytes.drop_last());
        if bytes.last() == DELIMITER {
            (before.0.push(before.1), Seq::empty())
        } else {
            (before.0, before.1.push(bytes.last()))
        }
    }
}

/// The bytes of a list of frames, each followed by its delimiter.
pub open spec fn join(frames: Seq<Seq<u8>>) -> Seq<u8>
    decreases frames.len(),
{
    if frames.len() == 0 {
        Seq::empty()
    } else {
        join(frames.drop_last()) + frames.last().push(DELIMITER)
    }
}

/// Whether no frame, complete or not, is over the limit.
pub open spec fn all_within_limit(frames: Seq<Seq<u8>>, rest: Seq<u8>) -> bool {
    &&& rest.len() <= MAX_FRAME_BYTES
    &&& forall|i: int| 0 <= i < frames.len() ==> (#[trigger] frames[i]).len() <= MAX_FRAME_BYTES
}

/// Whether no frame of a byte stream, complete or not, is over the limit.
pub open spec fn within_limit(bytes: Seq<u8>) -> bool {
    all_within_limit(split(bytes).0, split(bytes).1)
}

/// The values of a list of byte vectors.
pub open spec fn contents(frames: Seq<Vec<u8>>) -> Seq<Seq<u8>> {
    frames.map_values(|frame: Vec<u8>| frame@)
}

/// The bytes of the frame that is being received.
#[derive(Debug)]
pub struct FrameBuffer {
    partial: Vec<u8>,
}

impl View for FrameBuffer {
    type V = Seq<u8>;

    closed spec fn view(&self) -> Seq<u8> {
        self.partial@
    }
}

impl FrameBuffer {
    /// Whether the buffer holds a part of one frame that is not over the limit.
    pub open spec fn well_formed(self) -> bool {
        &&& self@.len() <= MAX_FRAME_BYTES
        &&& forall|i: int| 0 <= i < self@.len() ==> #[trigger] self@[i] != DELIMITER
    }

    /// A buffer that has received nothing.
    pub fn new() -> (buffer: FrameBuffer)
        ensures
            buffer@ == Seq::<u8>::empty(),
            buffer.well_formed(),
    {
        FrameBuffer { partial: Vec::new() }
    }

    /// How many bytes of an incomplete frame are held.
    pub fn len(&self) -> (len: usize)
        ensures
            len == self@.len(),
    {
        self.partial.len()
    }

    /// Takes a chunk of the stream and gives the frames that it completes. Where a frame is over
    /// the limit, the chunk is refused and the buffer stays as it was.
    pub fn push(&mut self, chunk: &[u8]) -> (result: Result<Vec<Vec<u8>>, ProtocolError>)
        requires
            old(self).well_formed(),
        ensures
            final(self).well_formed(),
            result is Ok <==> within_limit(old(self)@ + chunk@),
            match result {
                Ok(frames) => contents(frames@) == split(old(self)@ + chunk@).0 && final(self)@
                    == split(old(self)@ + chunk@).1,
                Err(error) => final(self)@ == old(self)@ && error.is(
                    ProtocolErrorCode::FrameTooLarge,
                    "IPC frame exceeds the maximum size"@,
                ),
            },
    {
        let ghost held = self@;
        let mut frames: Vec<Vec<u8>> = Vec::new();
        let mut partial: Vec<u8> = Vec::new();
        proof {
            lemma_split_without_delimiter(held);
            assert(held + chunk@.subrange(0, 0) =~= held);
            assert(contents(frames@) =~= Seq::empty());
        }
        copy_bytes(&self.partial, &mut partial);
        let mut i: usize = 0;
        while i < chunk.len()
            invariant
                i <= chunk.len(),
                old(self).well_formed(),
                *self == *old(self),
                held == self@,
                (contents(frames@), partial@) == split(held + chunk@.subrange(0, i as int)),
                all_within_limit(contents(frames@), partial@),
                forall|k: int| 0 <= k < partial@.len() ==> #[trigger] partial@[k] != DELIMITER,
            decreases chunk.len() - i,
        {
            let byte = chunk[i];
            let ghost seen = held + chunk@.subrange(0, i as int);
            let ghost next = held + chunk@.subrange(0, i + 1);
            proof {
                assert(next.drop_last() =~= seen);
                assert(next.last() == byte);
                assert(held + chunk@ =~= next + chunk@.subrange(i + 1, chunk@.len() as int));
            }
            if byte == DELIMITER {
                let ghost old_frames = contents(frames@);
                let ghost frame = partial@;
                frames.push(partial);
                partial = Vec::new();
                assert(contents(frames@) =~= old_frames.push(frame));
                assert forall|k: int| 0 <= k < contents(frames@).len() implies (
                #[trigger] contents(frames@)[k]).len() <= MAX_FRAME_BYTES by {
                    if k < old_frames.len() {
                        assert(contents(frames@)[k] == old_frames[k]);
                    }
                }
            } else {
                if partial.len() == MAX_FRAME_BYTES {
                    proof {
                        assert(split(next).1.len() > MAX_FRAME_BYTES);
                        lemma_oversize_stays(next, chunk@.subrange(i + 1, chunk@.len() as int));
                    }
                    return Err(
                        protocol_error(
                            ProtocolErrorCode::FrameTooLarge,
                            "IPC frame exceeds the maximum size",
                        ),
                    );
                }
                let ghost before = partial@;
                let ghost complete = contents(frames@);
                partial.push(byte);
                assert(partial@ == before.push(byte));
                assert(all_within_limit(complete, before));
                assert forall|k: int| 0 <= k < contents(frames@).len() implies (
                #[trigger] contents(frames@)[k]).len() <= MAX_FRAME_BYTES by {
                    assert(contents(frames@)[k] == complete[k]);
                }
            }
            i = i + 1;
        }
        proof {
            assert(chunk@.subrange(0, chunk@.len() as int) =~= chunk@);
        }
        self.partial = partial;
        Ok(frames)
    }
}

fn copy_bytes(from: &Vec<u8>, to: &mut Vec<u8>)
    requires
        old(to)@.len() == 0,
    ensures
        final(to)@ == from@,
{
    let mut i: usize = 0;
    while i < from.len()
        invariant
            i <= from.len(),
            to@ == from@.subrange(0, i as int),
        decreases from.len() - i,
    {
        to.push(from[i]);
        assert(from@.subrange(0, i + 1) =~= from@.subrange(0, i as int).push(from@[i as int]));
        i = i + 1;
    }
    assert(from@.subrange(0, from@.len() as int) =~= from@);
}

/// The bytes of a message as a frame, unless they are over the limit.
pub fn encode_frame(body: Vec<u8>) -> (result: Result<Vec<u8>, ProtocolError>)
    ensures
        if body@.len() <= MAX_FRAME_BYTES {
            result matches Ok(bytes) && bytes@ == body@.push(DELIMITER)
        } else {
            result matches Err(error) && error.is(
                ProtocolErrorCode::FrameTooLarge,
                "IPC frame exceeds the maximum size"@,
            )
        },
{
    if body.len() > MAX_FRAME_BYTES {
        return Err(
            protocol_error(ProtocolErrorCode::FrameTooLarge, "IPC frame exceeds the maximum size"),
        );
    }
    let mut bytes = body;
    bytes.push(DELIMITER);
    Ok(bytes)
}

proof fn lemma_split_without_delimiter(bytes: Seq<u8>)
    requires
        forall|i: int| 0 <= i < bytes.len() ==> #[trigger] bytes[i] != DELIMITER,
    ensures
        split(bytes) == (Seq::<Seq<u8>>::empty(), bytes),
    decreases bytes.len(),
{
    if bytes.len() > 0 {
        lemma_split_without_delimiter(bytes.drop_last());
        assert(bytes.drop_last().push(bytes.last()) =~= bytes);
    }
}

proof fn lemma_oversize_stays(bytes: Seq<u8>, more: Seq<u8>)
    requires
        !within_limit(bytes),
    ensures
        !within_limit(bytes + more),
    decreases more.len(),
{
    if more.len() == 0 {
        assert(bytes + more =~= bytes);
    } else {
        lemma_oversize_stays(bytes, more.drop_last());
        let all = bytes + more;
        assert(all.drop_last() =~= bytes + more.drop_last());
        let before = split(all.drop_last());
        let after = split(all);
        if before.1.len() > MAX_FRAME_BYTES {
            if all.last() == DELIMITER {
                assert(after.0[before.0.len() as int] == before.1);
            }
        } else {
            let i = choose|i: int|
                0 <= i < before.0.len() && (#[trigger] before.0[i]).len() > MAX_FRAME_BYTES;
            assert(after.0[i] == before.0[i]);
        }
    }
}

/// Framing loses and invents nothing: the frames with their delimiters, followed by what is left,
/// are the bytes that came in, and no frame holds a delimiter.
pub proof fn frames_conserve_bytes(bytes: Seq<u8>)
    ensures
        join(split(bytes).0) + split(bytes).1 == bytes,
        forall|i: int, k: int|
            0 <= i < split(bytes).0.len() && 0 <= k < split(bytes).0[i].len()
                ==> #[trigger] split(bytes).0[i][k] != DELIMITER,
        forall|k: int| 0 <= k < split(bytes).1.len() ==> #[trigger] split(bytes).1[k] != DELIMITER,
    decreases bytes.len(),
{
    if bytes.len() > 0 {
        let before = split(bytes.drop_last());
        frames_conserve_bytes(bytes.drop_last());
        let head = join(before.0);
        assert(head + before.1.push(bytes.last()) =~= (head + before.1).push(bytes.last()));
        assert((head + before.1).push(bytes.last()) =~= bytes);
        if bytes.last() == DELIMITER {
            let frames = before.0.push(before.1);
            assert(frames.drop_last() =~= before.0);
            assert(frames.last() == before.1);
            assert(join(frames) == head + before.1.push(DELIMITER));
            assert(join(frames) + Seq::<u8>::empty() =~= join(frames));
        }
    } else {
        assert(join(split(bytes).0) + split(bytes).1 =~= bytes);
    }
}

/// How a stream is cut into chunks does not matter: the frames of two chunks are those of the
/// first, followed by those that the second completes.
pub proof fn chunking_does_not_matter(first: Seq<u8>, second: Seq<u8>)
    ensures
        split(first + second).0 == split(first).0 + split(split(first).1 + second).0,
        split(first + second).1 == split(split(first).1 + second).1,
    decreases second.len(),
{
    let rest = split(first).1;
    if second.len() == 0 {
        assert(first + second =~= first);
        assert(rest + second =~= rest);
        frames_conserve_bytes(first);
        lemma_split_without_delimiter(rest);
        assert(split(first).0 + Seq::<Seq<u8>>::empty() =~= split(first).0);
    } else {
        chunking_does_not_matter(first, second.drop_last());
        assert((first + second).drop_last() =~= first + second.drop_last());
        assert((rest + second).drop_last() =~= rest + second.drop_last());
        assert(split(first + second).0 =~= split(first).0 + split(rest + second).0);
    }
}

/// A frame that was written reads back as its body, with nothing left over. Only a body that holds a
/// delimiter would be cut.
pub proof fn written_frames_read_back(body: Seq<u8>)
    requires
        body.len() <= MAX_FRAME_BYTES,
        !body.contains(DELIMITER),
    ensures
        split(body.push(DELIMITER)) == (seq![body], Seq::<u8>::empty()),
        within_limit(body.push(DELIMITER)),
{
    assert forall|i: int| 0 <= i < body.len() implies #[trigger] body[i] != DELIMITER by {
        assert(body.contains(body[i]));
    }
    lemma_split_without_delimiter(body);
    assert(body.push(DELIMITER).drop_last() =~= body);
    assert(Seq::<Seq<u8>>::empty().push(body) =~= seq![body]);
}

} // verus!
