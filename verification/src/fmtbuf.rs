//! A fixed-capacity, append-only text buffer for one display line.
//!
//! The display shows short status lines; each line is formatted into one
//! of these buffers. A fragment that does not fit in the remaining space
//! is rejected whole: the buffer never holds a truncated fragment and
//! never grows past its capacity.

use vstd::prelude::*;

verus! {

/// How many bytes one display line can hold. Large enough for every line
/// rendered from an in-range reading (see `textfmt`).
pub const LINE_CAPACITY: usize = 16;

/// Returned by [`FmtBuf::write`] when a fragment does not fit in the
/// remaining space.
#[derive(Clone, Copy, Debug, PartialEq, Eq, Structural)]
pub struct BufferFull;

/// Whether a fragment fits a buffer of capacity `cap` holding `content`.
pub open spec fn write_fits(content: Seq<u8>, frag: Seq<u8>, cap: nat) -> bool {
    content.len() + frag.len() <= cap
}

/// What a buffer of capacity `cap` holds after writing `frag` to it:
/// the fragment is appended whole, or the content is left untouched.
pub open spec fn write_result(content: Seq<u8>, frag: Seq<u8>, cap: nat) -> Seq<u8> {
    if write_fits(content, frag, cap) {
        content + frag
    } else {
        content
    }
}

/// An append-only text sink of fixed capacity `LINE_CAPACITY`.
pub struct FmtBuf {
    bytes: Vec<u8>,
}

impl View for FmtBuf {
    type V = Seq<u8>;

    closed spec fn view(&self) -> Seq<u8> {
        self.bytes@
    }
}

impl FmtBuf {
    /// The buffer never holds more than its capacity.
    pub open spec fn wf(&self) -> bool {
        self@.len() <= LINE_CAPACITY
    }

    /// A fresh, empty line buffer.
    pub fn new() -> (r: FmtBuf)
        ensures
            r@ == Seq::<u8>::empty(),
            r.wf(),
    {
        FmtBuf { bytes: Vec::new() }
    }

    /// Sets the logical length back to zero; the capacity is unchanged.
    pub fn reset(&mut self)
        ensures
            final(self)@ == Seq::<u8>::empty(),
            final(self).wf(),
    {
        self.bytes.clear();
    }

    /// Appends `frag` if it fits in the remaining space; otherwise leaves
    /// the content exactly as it was and reports `BufferFull`.
    pub fn write(&mut self, frag: &[u8]) -> (r: Result<(), BufferFull>)
        requires
            old(self).wf(),
        ensures
            final(self).wf(),
            final(self)@ == write_result(old(self)@, frag@, LINE_CAPACITY as nat),
            write_fits(old(self)@, frag@, LINE_CAPACITY as nat) ==> r == Ok::<(), BufferFull>(()),
            !write_fits(old(self)@, frag@, LINE_CAPACITY as nat) ==> r == Err::<(), BufferFull>(BufferFull),
    {
        if frag.len() <= LINE_CAPACITY - self.bytes.len() {
            let ghost orig: Seq<u8> = self.bytes@;
            let mut i: usize = 0;
            while i < frag.len()
                invariant
                    i <= frag@.len(),
                    orig.len() + frag@.len() <= LINE_CAPACITY,
                    self.bytes@ == orig + frag@.subrange(0, i as int),
                decreases frag@.len() - i,
            {
                self.bytes.push(frag[i]);
                proof {
                    assert(orig + frag@.subrange(0, i as int) + seq![frag@[i as int]] =~= orig
                        + frag@.subrange(0, i + 1));
                }
                i = i + 1;
            }
            proof {
                assert(self.bytes@ =~= orig + frag@);
            }
            Ok(())
        } else {
            Err(BufferFull)
        }
    }

    /// The bytes written so far, for the renderer to draw.
    pub fn as_text(&self) -> (r: &[u8])
        ensures
            r@ == self@,
    {
        self.bytes.as_slice()
    }
}

/// Law: a fragment that does not fit leaves the previously written
/// content exactly as it was — no partial write, whatever the capacity.
pub proof fn write_overflow_preserves_content(content: Seq<u8>, frag: Seq<u8>, cap: nat)
    requires
        content.len() + frag.len() > cap,
    ensures
        write_result(content, frag, cap) == content,
{
}

} // verus!
