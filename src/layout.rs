use vstd::prelude::*;

verus! {

/// Bytes at the start of a region that hold its initialisation flag.
pub const INIT_FLAG_LEN: usize = 8;

/// The abstract state of a cursor: region length and next free offset.
pub struct CursorView {
    pub len: nat,
    pub next: nat,
}

/// The next free offset inside a region of fixed length; control blocks and
/// payloads are placed one after another by advancing it.
pub struct Cursor {
    len: usize,
    next: usize,
}

impl View for Cursor {
    type V = CursorView;

    closed spec fn view(&self) -> CursorView {
        CursorView { len: self.len as nat, next: self.next as nat }
    }
}

impl Cursor {
    /// The offset never passes the end of the region.
    pub closed spec fn wf(&self) -> bool {
        self.next <= self.len
    }

    /// A cursor over a region of `len` bytes, past the initialisation flag
    /// where the region has room for it.
    pub fn after_flag(len: usize) -> (r: Cursor)
        ensures
            r.wf(),
            r@.len == len,
            r@.next == if len >= INIT_FLAG_LEN { INIT_FLAG_LEN as nat } else { len as nat },
    {
        let next = if len >= INIT_FLAG_LEN { INIT_FLAG_LEN } else { len };
        Cursor { len, next }
    }

    /// A cursor at the start of a region of `len` bytes.
    pub fn new(len: usize) -> (r: Cursor)
        ensures
            r.wf(),
            r@ == (CursorView { len: len as nat, next: 0 }),
    {
        Cursor { len, next: 0 }
    }

    pub fn offset(&self) -> (r: usize)
        ensures
            r == self@.next,
    {
        self.next
    }

    pub fn remaining(&self) -> (r: usize)
        requires
            self.wf(),
        ensures
            r == self@.len - self@.next,
    {
        self.len - self.next
    }

    /// Reserves `bytes` bytes at the offset and returns where they start, or
    /// `None`, with the cursor unchanged, where the region has no room.
    pub fn reserve(&mut self, bytes: usize) -> (r: Option<usize>)
        requires
            old(self).wf(),
        ensures
            final(self).wf(),
            final(self)@.len == old(self)@.len,
            old(self)@.next + bytes <= old(self)@.len ==> r == Some(old(self)@.next as usize)
                && final(self)@.next == old(self)@.next + bytes,
            old(self)@.next + bytes > old(self)@.len ==> r.is_none() && final(self)@ == old(self)@,
    {
        if bytes <= self.len - self.next {
            let at = self.next;
            self.next = self.next + bytes;
            Some(at)
        } else {
            None
        }
    }

    /// Places a control block of `control_len` bytes and, right after it,
    /// the `payload_len` bytes it protects. Returns the offsets of both, or
    /// `None`, with the cursor unchanged, where the region has no room.
    pub fn place(&mut self, control_len: usize, payload_len: usize) -> (r: Option<(usize, usize)>)
        requires
            old(self).wf(),
        ensures
            final(self).wf(),
            final(self)@.len == old(self)@.len,
            old(self)@.next + control_len + payload_len <= old(self)@.len ==> r == Some(
                (old(self)@.next as usize, (old(self)@.next + control_len) as usize),
            ) && final(self)@.next == old(self)@.next + control_len + payload_len,
            old(self)@.next + control_len + payload_len > old(self)@.len ==> r.is_none()
                && final(self)@ == old(self)@,
    {
        if control_len <= self.len - self.next && payload_len <= self.len - self.next - control_len {
            let base = self.next;
            let data = self.next + control_len;
            self.next = data + payload_len;
            Some((base, data))
        } else {
            None
        }
    }
}

} // verus!
