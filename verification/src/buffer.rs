//! The buffer-writing protocol: render a textual value into a caller-supplied
//! fixed-capacity byte buffer, or report the required capacity when the buffer
//! is absent or too small.
//!
//! The protocol is size-query-then-fill: a capacity of 0 asks only for the
//! size of the rendering; a positive capacity asks for the rendering followed
//! by a single zero terminator byte. When the rendering plus terminator does
//! not fit, no partial result is surfaced: the first byte becomes the
//! terminator (an empty string, defensive against a caller that reads before
//! checking the return value) and the true required size is returned, so the
//! caller can allocate `returned + 1` bytes and retry once.

use vstd::prelude::*;

verus! {

/// Number of content bytes the rendering occupies, excluding the terminator.
pub open spec fn required_size(rendering: Seq<u8>) -> nat {
    rendering.len()
}

/// The buffer contents after `render(rendering, buf)`, as a function of the
/// rendering and the buffer's initial contents. The buffer's length (its
/// declared capacity) never changes; bytes the protocol does not write keep
/// their initial values.
pub open spec fn rendered_buf(rendering: Seq<u8>, buf: Seq<u8>) -> Seq<u8> {
    if buf.len() == 0 {
        // Size query: the buffer is untouched.
        buf
    } else if required_size(rendering) + 1 <= buf.len() {
        // The rendering and its terminator fit.
        rendering + seq![0u8] + buf.skip(required_size(rendering) as int + 1)
    } else {
        // Overflow: only the first byte is marked as the terminator.
        seq![0u8] + buf.skip(1)
    }
}

/// Renders `rendering` into `buf` under the size-query-then-fill protocol.
///
/// `buf.len()` is the caller's declared capacity. With capacity 0 the call is
/// a pure size query. With positive capacity the rendering is written followed
/// by one zero terminator byte when both fit; otherwise the first byte is set
/// to the terminator and nothing else is written. Either way the return value
/// is the full size of the rendering, never a truncated length, so a caller
/// whose buffer was too small learns the capacity to retry with.
pub fn render(rendering: &[u8], buf: &mut Vec<u8>) -> (n: usize)
    ensures
        n == required_size(rendering@),
        final(buf)@ == rendered_buf(rendering@, old(buf)@),
        final(buf)@.len() == old(buf)@.len(),
{
    let size = rendering.len();
    if buf.len() == 0 {
        // Size query only: report the capacity a retry will need (plus one
        // byte for the terminator).
        size
    } else if size < buf.len() {
        // The rendering plus terminator fits: fill, terminate, report.
        let mut i: usize = 0;
        while i < size
            invariant
                i <= size,
                size == rendering@.len(),
                size < buf@.len(),
                buf@.len() == old(buf)@.len(),
                forall|j: int| 0 <= j < i ==> buf@[j] == rendering@[j],
                forall|j: int| i <= j < buf@.len() ==> buf@[j] == old(buf)@[j],
            decreases size - i,
        {
            buf[i] = rendering[i];
            i += 1;
        }
        buf[size] = 0;
        proof {
            assert(buf@ =~= rendered_buf(rendering@, old(buf)@));
        }
        size
    } else {
        // Overflow (including the exact-fill case, which leaves no room for
        // the terminator): mark the buffer as empty and report the true size,
        // the single bounded retry of the protocol.
        buf[0] = 0;
        proof {
            assert(buf@ =~= rendered_buf(rendering@, old(buf)@));
        }
        size
    }
}

/// Relies on std's `Display` formatting (`ToString::to_string`, then
/// `String::into_bytes`): the UTF-8 bytes of the value's display rendering.
/// A `Display` implementation is caller-supplied code, so nothing is stated
/// of the bytes that come back.
#[verifier::external_body]
fn display_bytes<T: core::fmt::Display>(obj: &T) -> (r: Vec<u8>) {
    obj.to_string().into_bytes()
}

/// Relies on std's `Debug` formatting (`format!("{:?}", ..)`): the UTF-8
/// bytes of the value's structural rendering. A `Debug` implementation is
/// caller-supplied code, so nothing is stated of the bytes that come back.
#[verifier::external_body]
fn debug_bytes<T: core::fmt::Debug>(obj: &T) -> (r: Vec<u8>) {
    format!("{:?}", obj).into_bytes()
}

/// Renders a displayable value into `buf` under the size-query-then-fill
/// protocol. The display rendering itself is caller-supplied code, so the
/// contract states that the outcome is the protocol applied to some byte
/// sequence: whatever bytes the rendering produced, the buffer and the
/// returned count agree on them, and the capacity never changes.
pub fn write_into_buf<T: core::fmt::Display>(obj: &T, buf: &mut Vec<u8>) -> (n: usize)
    ensures
        final(buf)@.len() == old(buf)@.len(),
        exists|r: Seq<u8>|
            {
                &&& #[trigger] rendered_buf(r, old(buf)@) == final(buf)@
                &&& n == required_size(r)
            },
{
    let rendering = display_bytes(obj);
    render(rendering.as_slice(), buf)
}

/// The debug-rendering variant of [`write_into_buf`]: the identical protocol,
/// delegating to the same core algorithm, with the value rendered through its
/// structural (`Debug`) representation instead of its display representation.
pub fn write_debug_into_buf<T: core::fmt::Debug>(obj: &T, buf: &mut Vec<u8>) -> (n: usize)
    ensures
        final(buf)@.len() == old(buf)@.len(),
        exists|r: Seq<u8>|
            {
                &&& #[trigger] rendered_buf(r, old(buf)@) == final(buf)@
                &&& n == required_size(r)
            },
{
    let rendering = debug_bytes(obj);
    render(rendering.as_slice(), buf)
}

/// Law: with capacity at least `required_size(rendering) + 1`, the rendering
/// is written in full, followed by one terminator byte; bytes past the
/// terminator keep their initial values, and the capacity is unchanged.
pub proof fn lemma_render_fits(rendering: Seq<u8>, buf: Seq<u8>)
    requires
        required_size(rendering) + 1 <= buf.len(),
    ensures
        rendered_buf(rendering, buf).len() == buf.len(),
        rendered_buf(rendering, buf).subrange(0, required_size(rendering) as int)
            == rendering,
        rendered_buf(rendering, buf)[required_size(rendering) as int] == 0,
        forall|j: int|
            required_size(rendering) + 1 <= j < buf.len()
                ==> rendered_buf(rendering, buf)[j] == buf[j],
{
    assert(rendered_buf(rendering, buf).subrange(0, required_size(rendering) as int)
        =~= rendering);
}

/// Law: with a positive capacity of at most `required_size(rendering)`, no
/// partial rendering is surfaced: byte 0 becomes the terminator (an empty
/// string at the caller's pointer) and every other byte keeps its initial
/// value. The protocol's return value is still the full required size, so the
/// caller learns what capacity to retry with.
pub proof fn lemma_render_overflow(rendering: Seq<u8>, buf: Seq<u8>)
    requires
        0 < buf.len() <= required_size(rendering),
    ensures
        rendered_buf(rendering, buf).len() == buf.len(),
        rendered_buf(rendering, buf)[0] == 0,
        forall|j: int|
            1 <= j < buf.len() ==> rendered_buf(rendering, buf)[j] == buf[j],
{
}

/// Law: a size query (capacity 0) never touches the buffer, for every
/// rendering including the empty one.
pub proof fn lemma_render_size_query(rendering: Seq<u8>, buf: Seq<u8>)
    requires
        buf.len() == 0,
    ensures
        rendered_buf(rendering, buf) == buf,
{
}

/// Law: rendering is idempotent. With a correctly sized buffer (capacity
/// exactly `required_size(rendering) + 1`) the resulting contents are the
/// rendering plus one terminator byte, independent of the buffer's initial
/// contents; rendering the same value again therefore leaves the buffer
/// identical.
pub proof fn lemma_render_idempotent(rendering: Seq<u8>, buf: Seq<u8>)
    requires
        buf.len() == required_size(rendering) + 1,
    ensures
        rendered_buf(rendering, buf) == rendering + seq![0u8],
        rendered_buf(rendering, rendered_buf(rendering, buf))
            == rendered_buf(rendering, buf),
{
    assert(rendered_buf(rendering, buf) =~= rendering + seq![0u8]);
    assert(rendered_buf(rendering, rendered_buf(rendering, buf))
        =~= rendered_buf(rendering, buf));
}

} // verus!
