//! What it means for a filesystem to read and write a file faithfully, as
//! operations on the file's content.
use vstd::prelude::*;

verus! {

/// The bytes that a faithful `read` of `size` bytes at `offset` returns from
/// a file holding `content`: `size` bytes, or fewer where the file ends first.
pub open spec fn read_at(content: Seq<u8>, offset: int, size: int) -> Seq<u8> {
    if offset >= content.len() {
        Seq::empty()
    } else if offset + size <= content.len() {
        content.subrange(offset, offset + size)
    } else {
        content.subrange(offset, content.len() as int)
    }
}

/// The content of a file holding `content` after a faithful `write` of `data`
/// at `offset`: a gap between the old end and `offset` reads as zeros, and the
/// bytes past the written range are kept.
pub open spec fn write_at(content: Seq<u8>, offset: int, data: Seq<u8>) -> Seq<u8> {
    let padded = if offset > content.len() {
        content + Seq::new((offset - content.len()) as nat, |i: int| 0u8)
    } else {
        content
    };
    let end = offset + data.len();
    padded.subrange(0, offset) + data + if end < padded.len() {
        padded.subrange(end, padded.len() as int)
    } else {
        Seq::empty()
    }
}

/// The number of bytes a faithful `write` of `data` reports.
pub open spec fn written_count(data: Seq<u8>) -> nat {
    data.len()
}

/// A faithful `read` reports exactly the bytes asked for unless it reaches
/// the end of the file, and then the bytes up to that end.
pub proof fn lemma_read_count(content: Seq<u8>, offset: int, size: int)
    requires
        0 <= offset,
        0 <= size,
    ensures
        offset + size <= content.len() ==> read_at(content, offset, size).len() == size,
        offset + size > content.len() && offset < content.len() ==> read_at(
            content,
            offset,
            size,
        ).len() == content.len() - offset,
        offset >= content.len() ==> read_at(content, offset, size).len() == 0,
{
}

/// Writing bytes at an offset and then reading as many bytes at that offset
/// gives back the bytes written, and the write reports all of them.
pub proof fn lemma_write_then_read(content: Seq<u8>, offset: int, data: Seq<u8>)
    requires
        0 <= offset,
    ensures
        read_at(write_at(content, offset, data), offset, data.len() as int) == data,
        written_count(data) == data.len(),
{
    let after = write_at(content, offset, data);
    let padded = if offset > content.len() {
        content + Seq::new((offset - content.len()) as nat, |i: int| 0u8)
    } else {
        content
    };
    let end = offset + data.len();
    assert(padded.len() >= offset);
    assert(padded.subrange(0, offset).len() == offset);
    assert(after.len() >= end);
    assert(after.subrange(offset, end) =~= data);
}

} // verus!
