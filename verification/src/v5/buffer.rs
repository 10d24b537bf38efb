//! Byte buffers of the `bytes` crate, and the one operation on them that a
//! reply is framed with.

use bytes::BytesMut;
use vstd::prelude::*;

verus! {

/// The growable byte buffer of the `bytes` crate.
#[verifier::external_type_specification]
#[verifier::external_body]
pub struct ExBytesMut(bytes::BytesMut);

/// The bytes that a buffer holds, first to last.
pub uninterp spec fn contents(buffer: BytesMut) -> Seq<u8>;

/// Calls `BytesMut::len`: how many bytes the buffer holds.
#[verifier::external_body]
fn len(buffer: &BytesMut) -> (len: usize)
    ensures
        len == contents(*buffer).len(),
{
    buffer.len()
}

/// Calls `BytesMut::resize`: the buffer keeps its first `len` bytes, and where it
/// held fewer, holds `value` in each place that is new. Room that the buffer has
/// already is used, and more is allocated only where it has too little.
///
/// A length beyond `isize::MAX` is more than any allocation can have, and is
/// left out. The contents do not show how large the allocation behind them is:
/// where it takes more than half of what can be addressed and has to grow, that
/// it can be had is left unsaid, as it is of every allocation.
#[verifier::external_body]
fn resize(buffer: &mut BytesMut, len: usize, value: u8)
    requires
        len <= isize::MAX,
    ensures
        contents(*final(buffer)) == if len <= contents(*old(buffer)).len() {
            contents(*old(buffer)).take(len as int)
        } else {
            contents(*old(buffer)) + Seq::new(
                (len - contents(*old(buffer)).len()) as nat,
                |i: int| value,
            )
        },
{
    buffer.resize(len, value)
}

/// Calls `BytesMut::from` on a slice: a new buffer that holds a copy of its
/// bytes.
#[verifier::external_body]
pub(crate) fn from_slice(bytes: &[u8]) -> (buffer: BytesMut)
    ensures
        contents(buffer) == bytes@,
{
    BytesMut::from(bytes)
}

/// Calls `BytesMut::as_mut`: the bytes that the buffer holds, as a slice that
/// can be written to. The buffer ends up holding what the slice ends up holding.
#[verifier::external_body]
fn as_mut_slice(buffer: &mut BytesMut) -> (bytes: &mut [u8])
    ensures
        bytes@ == contents(*old(buffer)),
        contents(*final(buffer)) == final(bytes)@,
{
    buffer.as_mut()
}

/// Moves every byte of `target` but the last one place on, and writes `value` to
/// the first place. The last byte is lost.
fn shift_in(target: &mut [u8], value: u8)
    requires
        old(target)@.len() > 0,
    ensures
        final(target)@ == seq![value] + old(target)@.drop_last(),
{
    let ghost before = target@;
    let mut at: usize = target.len() - 1;
    while at > 0
        invariant
            at < target@.len(),
            target@.len() == before.len(),
            forall|i: int| 0 <= i <= at ==> #[trigger] target@[i] == before[i],
            forall|i: int| at < i < before.len() ==> #[trigger] target@[i] == before[i - 1],
        decreases at,
    {
        target[at] = target[at - 1];
        at = at - 1;
    }
    target[0] = value;
    assert(target@ =~= seq![value] + before.drop_last());
}

/// Puts one byte in front of what a buffer holds, in the buffer itself.
///
/// A buffer that is as long as an allocation can be has no room for one more.
pub fn prepend_u8(bytes: BytesMut, value: u8) -> (framed: BytesMut)
    requires
        contents(bytes).len() < isize::MAX,
    ensures
        contents(framed) == seq![value] + contents(bytes),
{
    let mut framed = bytes;
    let grown: usize = len(&framed) + 1;
    resize(&mut framed, grown, 0);
    assert(contents(framed).drop_last() =~= contents(bytes));
    shift_in(as_mut_slice(&mut framed), value);
    framed
}

} // verus!
