use vstd::prelude::*;

verus! {

/// How many UTF-16 code units of a window title are requested from the
/// operating system.
pub const TITLE_CAPACITY: usize = 255;

/// The text that lossy UTF-16 decoding gives for `units`.
pub uninterp spec fn utf16_lossy(units: Seq<u16>) -> Seq<char>;

/// Relies on `String::from_utf16_lossy`: the result depends on the code
/// units alone, and no units decode to the empty string.
#[verifier::external_body]
fn decode_utf16_lossy(units: &[u16]) -> (s: String)
    ensures
        s@ == utf16_lossy(units@),
        units@.len() == 0 ==> s@.len() == 0,
{
    String::from_utf16_lossy(units)
}

/// The number of code units of a title to keep when the operating system
/// reports `reported` units read into a buffer of `capacity` units: a
/// negative report counts as nothing read, and a report beyond the buffer
/// is cut to the buffer.
pub open spec fn clamped_len(reported: int, capacity: int) -> int {
    if reported <= 0 {
        0
    } else if reported > capacity {
        capacity
    } else {
        reported
    }
}

/// The title held in `buffer` after the operating system reported having
/// written `reported` code units into it. The reported length is never
/// trusted beyond the buffer's own length.
pub fn title_from_buffer(buffer: &Vec<u16>, reported: i32) -> (s: String)
    ensures
        s@ == utf16_lossy(buffer@.subrange(0, clamped_len(reported as int, buffer@.len() as int))),
{
    let n: usize = if reported <= 0 {
        0
    } else if reported as usize > buffer.len() {
        buffer.len()
    } else {
        reported as usize
    };
    let mut units: Vec<u16> = Vec::new();
    let mut i: usize = 0;
    while i < n
        invariant
            n <= buffer@.len(),
            i <= n,
            units@ == buffer@.subrange(0, i as int),
        decreases n - i,
    {
        units.push(buffer[i]);
        i = i + 1;
    }
    decode_utf16_lossy(units.as_slice())
}

/// A title read never reaches past the buffer it was read into: what is kept
/// lies between nothing and the whole buffer; a report at or beyond the
/// buffer's length keeps exactly the buffer, and any other report within it
/// keeps what was reported.
pub proof fn lemma_title_read_stays_in_buffer(reported: int, capacity: nat)
    ensures
        0 <= clamped_len(reported, capacity as int) <= capacity,
        reported >= capacity ==> clamped_len(reported, capacity as int) == capacity,
        0 <= reported <= capacity ==> clamped_len(reported, capacity as int) == reported,
{
}

} // verus!
