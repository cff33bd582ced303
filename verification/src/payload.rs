//! Byte strings, and the payload of an object as a list of them.
use bytes::{Bytes, BytesMut};
use vstd::prelude::*;

verus! {

/// `bytes::Bytes`, an immutable byte string that is cheap to share.
#[verifier::external_type_specification]
#[verifier::external_body]
pub struct ExBytes(bytes::Bytes);

/// `bytes::BytesMut`, a growing byte string.
#[verifier::external_type_specification]
#[verifier::external_body]
pub struct ExBytesMut(bytes::BytesMut);

/// The bytes that a `Bytes` holds.
pub uninterp spec fn bytes_content(bytes: bytes::Bytes) -> Seq<u8>;

/// The bytes that a `BytesMut` holds.
pub uninterp spec fn buffer_content(buffer: bytes::BytesMut) -> Seq<u8>;

/// The number of bytes for which a `BytesMut` was made.
pub uninterp spec fn buffer_limit(buffer: bytes::BytesMut) -> nat;

/// `Bytes::new` makes an empty byte string.
pub assume_specification[ bytes::Bytes::new ]() -> (bytes: bytes::Bytes)
    ensures
        bytes_content(bytes) == Seq::<u8>::empty(),
;

/// `Bytes::len` returns the number of bytes held.
pub assume_specification[ bytes::Bytes::len ](bytes: &bytes::Bytes) -> (len: usize)
    ensures
        len == bytes_content(*bytes).len(),
;

/// `Bytes::is_empty` tells whether no byte is held.
pub assume_specification[ bytes::Bytes::is_empty ](bytes: &bytes::Bytes) -> (empty: bool)
    ensures
        empty == (bytes_content(*bytes).len() == 0),
;

/// `BytesMut::with_capacity` makes an empty buffer that holds up to `capacity`
/// bytes without growing. It panics where no allocation can be that large.
pub assume_specification[ bytes::BytesMut::with_capacity ](capacity: usize) -> (buffer:
    bytes::BytesMut)
    requires
        capacity <= isize::MAX,
    ensures
        buffer_content(buffer) == Seq::<u8>::empty(),
        buffer_limit(buffer) == capacity,
;

/// `BytesMut::extend_from_slice` appends the slice to the buffer. Within the
/// size that the buffer was made for it does not grow, so it cannot panic.
pub assume_specification[ bytes::BytesMut::extend_from_slice ](
    buffer: &mut bytes::BytesMut,
    extend: &[u8],
)
    requires
        buffer_content(*old(buffer)).len() + extend@.len() <= buffer_limit(*old(buffer)),
    ensures
        buffer_content(*final(buffer)) == buffer_content(*old(buffer)) + extend@,
        buffer_limit(*final(buffer)) == buffer_limit(*old(buffer)),
;

/// `BytesMut::freeze` turns the buffer into a `Bytes` with the same content.
pub assume_specification[ bytes::BytesMut::freeze ](buffer: bytes::BytesMut) -> (bytes:
    bytes::Bytes)
    ensures
        bytes_content(bytes) == buffer_content(buffer),
;

/// The `Deref` impl of `Bytes`: its content as a slice.
#[verifier::external_body]
fn as_slice(bytes: &Bytes) -> (slice: &[u8])
    ensures
        slice@ == bytes_content(*bytes),
{
    bytes
}

/// The data of an object, as the chunks in which its writer holds it.
#[derive(Debug)]
pub struct PutPayload {
    pub chunks: Vec<Bytes>,
}

/// The contents of `chunks`, one after the other.
pub open spec fn chunk_contents(chunks: Seq<Bytes>) -> Seq<Seq<u8>> {
    chunks.map_values(|chunk: Bytes| bytes_content(chunk))
}

impl View for PutPayload {
    type V = Seq<u8>;

    /// The data of the object: the contents of all chunks in order.
    open spec fn view(&self) -> Seq<u8> {
        chunk_contents(self.chunks@).flatten()
    }
}

/// Adding a chunk adds its content at the end.
proof fn lemma_chunk_step(chunks: Seq<Bytes>, k: int)
    requires
        0 <= k < chunks.len(),
    ensures
        chunk_contents(chunks.take(k + 1)).flatten() == chunk_contents(chunks.take(k)).flatten()
            + bytes_content(chunks[k]),
{
    broadcast use Seq::lemma_flatten_push;

    assert(chunk_contents(chunks.take(k + 1)) =~= chunk_contents(chunks.take(k)).push(
        bytes_content(chunks[k]),
    ));
}

/// The first chunks hold no more than all of them.
proof fn lemma_prefix_len(chunks: Seq<Bytes>, k: int)
    requires
        0 <= k <= chunks.len(),
    ensures
        chunk_contents(chunks.take(k)).flatten().len() <= chunk_contents(chunks).flatten().len(),
    decreases chunks.len() - k,
{
    if k < chunks.len() {
        lemma_chunk_step(chunks, k);
        lemma_prefix_len(chunks, k + 1);
    } else {
        assert(chunks.take(k) =~= chunks);
    }
}

impl PutPayload {
    /// The number of bytes in all chunks together.
    pub fn content_length(&self) -> (len: usize)
        requires
            self@.len() <= usize::MAX,
        ensures
            len == self@.len(),
    {
        let mut total: usize = 0;
        assert(chunk_contents(self.chunks@.take(0)) =~= Seq::<Seq<u8>>::empty());
        for i in 0..self.chunks.len()
            invariant
                self@.len() <= usize::MAX,
                total == chunk_contents(self.chunks@.take(i as int)).flatten().len(),
        {
            proof {
                lemma_chunk_step(self.chunks@, i as int);
                lemma_prefix_len(self.chunks@, i + 1);
            }
            total = total + self.chunks[i].len();
        }
        assert(self.chunks@.take(self.chunks@.len() as int) =~= self.chunks@);
        total
    }

    /// The number of bytes in all chunks together, if one byte string can hold
    /// as many.
    pub fn checked_content_length(&self) -> (len: Option<usize>)
        ensures
            match len {
                Some(len) => len == self@.len() && self@.len() <= isize::MAX,
                None => self@.len() > isize::MAX,
            },
    {
        let limit: usize = isize::MAX as usize;
        let mut total: usize = 0;
        assert(chunk_contents(self.chunks@.take(0)) =~= Seq::<Seq<u8>>::empty());
        for i in 0..self.chunks.len()
            invariant
                limit == isize::MAX,
                total <= limit,
                total == chunk_contents(self.chunks@.take(i as int)).flatten().len(),
        {
            proof {
                lemma_chunk_step(self.chunks@, i as int);
                lemma_prefix_len(self.chunks@, i + 1);
            }
            let len: usize = self.chunks[i].len();
            if len > limit - total {
                return None;
            }
            total = total + len;
        }
        assert(self.chunks@.take(self.chunks@.len() as int) =~= self.chunks@);
        Some(total)
    }

    /// All chunks as one byte string.
    pub fn collect(&self) -> (data: Bytes)
        requires
            self@.len() <= isize::MAX,
        ensures
            bytes_content(data) == self@,
            bytes_content(data) == self.chunks@.map_values(
                |chunk: Bytes| bytes_content(chunk),
            ).flatten(),
    {
        let total_len: usize = self.content_length();
        if total_len == 0 {
            let data = Bytes::new();
            assert(bytes_content(data) =~= self@);
            data
        } else {
            let mut buffer = BytesMut::with_capacity(total_len);
            assert(chunk_contents(self.chunks@.take(0)) =~= Seq::<Seq<u8>>::empty());
            for i in 0..self.chunks.len()
                invariant
                    self@.len() == total_len,
                    buffer_limit(buffer) == total_len,
                    buffer_content(buffer) == chunk_contents(
                        self.chunks@.take(i as int),
                    ).flatten(),
            {
                proof {
                    lemma_chunk_step(self.chunks@, i as int);
                    lemma_prefix_len(self.chunks@, i + 1);
                }
                buffer.extend_from_slice(as_slice(&self.chunks[i]));
            }
            assert(self.chunks@.take(self.chunks@.len() as int) =~= self.chunks@);
            buffer.freeze()
        }
    }
}

/// The data of a payload is that of its chunks, each whole and in order.
pub proof fn law_payload_is_its_chunks(payload: PutPayload)
    ensures
        payload@ == Seq::new(
            payload.chunks@.len(),
            |i: int| bytes_content(payload.chunks@[i]),
        ).flatten(),
        chunk_contents(payload.chunks@).len() == payload.chunks@.len(),
        forall|i: int|
            0 <= i < payload.chunks@.len() ==> #[trigger] chunk_contents(payload.chunks@)[i]
                == bytes_content(payload.chunks@[i]),
{
    assert(chunk_contents(payload.chunks@) =~= Seq::new(
        payload.chunks@.len(),
        |i: int| bytes_content(payload.chunks@[i]),
    ));
}

} // verus!
