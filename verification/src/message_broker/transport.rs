//! What a connection delivers to the protocol logic, and the byte-level
//! helpers that the protocol's sides share.
use vstd::prelude::*;

verus! {

/// `std::io::Error`, carried through the library's error types unopened.
#[verifier::external_type_specification]
#[verifier::external_body]
pub struct ExIoError(std::io::Error);

/// The byte that ends every frame of the broker's protocol.
pub const FRAME_END: u8 = 0u8;

/// One outcome of reading from a connection: the peer closed it (a read of
/// zero bytes), or a chunk of bytes arrived. A chunk is never empty.
pub enum Received {
    Closed,
    Chunk(Vec<u8>),
}

/// A chunk may be handed to the protocol: it holds at least one byte.
pub open spec fn received_well_formed(r: Received) -> bool {
    r matches Received::Chunk(c) ==> c@.len() > 0
}

/// The chunk's last byte is the frame terminator.
pub open spec fn ends_frame(chunk: Seq<u8>) -> bool {
    chunk.len() > 0 && chunk.last() == FRAME_END
}

/// The bytes held and, once a frame ends, the frame's bytes, after `chunk`
/// arrives on a connection that holds `value` and is read up to a terminator.
/// A chunk that ends a frame adds all of its bytes but the terminator; any other
/// chunk adds all of its bytes. The bytes held are not reset when a frame ends.
pub open spec fn collect_step(value: Seq<u8>, chunk: Seq<u8>) -> (Seq<u8>, Option<Seq<u8>>) {
    if ends_frame(chunk) {
        let v = value + chunk.drop_last();
        (v, Some(v))
    } else {
        (value + chunk, None)
    }
}

/// Whether the chunk's last byte is the frame terminator.
pub fn chunk_ends_frame(chunk: &Vec<u8>) -> (b: bool)
    ensures
        b == ends_frame(chunk@),
{
    chunk.len() > 0 && chunk[chunk.len() - 1] == FRAME_END
}

/// Appends `src[lo..hi]` to `dst`.
pub fn append_range(dst: &mut Vec<u8>, src: &Vec<u8>, lo: usize, hi: usize)
    requires
        lo <= hi <= src@.len(),
    ensures
        final(dst)@ == old(dst)@ + src@.subrange(lo as int, hi as int),
{
    let mut i: usize = lo;
    while i < hi
        invariant
            lo <= i <= hi <= src@.len(),
            dst@ == old(dst)@ + src@.subrange(lo as int, i as int),
        decreases hi - i,
    {
        dst.push(src[i]);
        i = i + 1;
        assert(dst@ =~= old(dst)@ + src@.subrange(lo as int, i as int));
    }
}

} // verus!
