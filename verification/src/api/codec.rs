use vstd::prelude::*;

verus! {

/// How many bytes the first MessagePack value at the start of `bytes`
/// occupies, as rmp_serde reads it; `None` where no complete, well-formed
/// value starts there.
pub uninterp spec fn msgpack_value_len(bytes: Seq<u8>) -> Option<usize>;

/// Reads one MessagePack value from the start of `bytes` with
/// `rmp_serde::from_read` (into `serde::de::IgnoredAny`, which keeps nothing
/// of it) and reports the reader's position afterwards.
///
/// Trusted: the result is `msgpack_value_len(bytes)`; a value read leaves the
/// cursor past at least its marker byte and never past the end of the slice.
#[verifier::external_body]
fn first_value_len(bytes: &[u8]) -> (r: Option<usize>)
    ensures
        r == msgpack_value_len(bytes@),
        r matches Some(n) ==> 0 < n <= bytes@.len(),
{
    let mut cursor = std::io::Cursor::new(bytes);
    match rmp_serde::from_read::<_, serde::de::IgnoredAny>(&mut cursor) {
        Ok(_) => Some(cursor.position() as usize),
        Err(_) => None,
    }
}

/// The MessagePack values found one after another at the start of `bytes`,
/// up to the first place where no further value can be read.
pub open spec fn frames_of(bytes: Seq<u8>) -> Seq<Seq<u8>>
    decreases bytes.len(),
{
    match msgpack_value_len(bytes) {
        Some(n) => if 0 < n <= bytes.len() {
            seq![bytes.take(n as int)] + frames_of(bytes.skip(n as int))
        } else {
            Seq::empty()
        },
        None => Seq::empty(),
    }
}

/// The frames one after another.
pub open spec fn concat(frames: Seq<Seq<u8>>) -> Seq<u8>
    decreases frames.len(),
{
    if frames.len() == 0 {
        Seq::empty()
    } else {
        frames[0] + concat(frames.drop_first())
    }
}

/// The frames are the buffer's own bytes, in order and without gaps: laid
/// end to end they give back the start of the buffer.
pub proof fn lemma_frames_tile_a_prefix(bytes: Seq<u8>)
    ensures
        concat(frames_of(bytes)).len() <= bytes.len(),
        concat(frames_of(bytes)) == bytes.take(concat(frames_of(bytes)).len() as int),
    decreases bytes.len(),
{
    match msgpack_value_len(bytes) {
        Some(n) => if 0 < n <= bytes.len() {
            let rest = bytes.skip(n as int);
            lemma_frames_tile_a_prefix(rest);
            let fs = frames_of(bytes);
            assert(fs.drop_first() =~= frames_of(rest));
            let tail = concat(frames_of(rest));
            assert(concat(fs) == bytes.take(n as int) + tail);
            assert(bytes.take(n as int) + tail =~= bytes.take(n + tail.len()));
        } else {
            assert(bytes.take(0) =~= Seq::<u8>::empty());
        },
        None => {
            assert(bytes.take(0) =~= Seq::<u8>::empty());
        },
    }
}

/// Splits a receive buffer into the encoded messages it holds: one
/// MessagePack value after another, from the start, until none can be read.
/// Each frame is handed on to be turned into a [`crate::api::message::Message`];
/// the stream of messages ends at the first frame that does not hold one.
pub fn split_frames(bytes: &[u8]) -> (r: Vec<Vec<u8>>)
    ensures
        r@.len() == frames_of(bytes@).len(),
        forall|i: int| 0 <= i < r@.len() ==> #[trigger] r@[i]@ == frames_of(bytes@)[i],
{
    let mut frames: Vec<Vec<u8>> = Vec::new();
    let mut offset: usize = 0;
    let ghost done: Seq<Seq<u8>> = Seq::empty();
    assert(bytes@.skip(0) =~= bytes@);
    assert(done + frames_of(bytes@) =~= frames_of(bytes@));
    loop
        invariant
            offset <= bytes@.len(),
            frames@.len() == done.len(),
            forall|i: int| 0 <= i < frames@.len() ==> #[trigger] frames@[i]@ == done[i],
            frames_of(bytes@) == done + frames_of(bytes@.skip(offset as int)),
        decreases bytes@.len() - offset,
    {
        let rest = &bytes[offset..bytes.len()];
        assert(rest@ == bytes@.skip(offset as int));
        match first_value_len(rest) {
            Some(n) => {
                let frame = vstd::slice::slice_to_vec(&rest[0..n]);
                proof {
                    assert(frame@ == rest@.take(n as int));
                    assert(bytes@.skip(offset as int).skip(n as int) =~= bytes@.skip(
                        (offset + n) as int,
                    ));
                    assert(frames_of(rest@) == seq![rest@.take(n as int)] + frames_of(
                        rest@.skip(n as int),
                    ));
                    assert(done.push(frame@) + frames_of(bytes@.skip((offset + n) as int))
                        =~= done + (seq![rest@.take(n as int)] + frames_of(rest@.skip(n as int))));
                    done = done.push(frame@);
                }
                frames.push(frame);
                offset = offset + n;
            },
            None => {
                proof {
                    assert(frames_of(rest@) == Seq::<Seq<u8>>::empty());
                    assert(frames_of(bytes@) =~= done);
                }
                return frames;
            },
        }
    }
}

} // verus!
