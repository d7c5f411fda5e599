use vstd::prelude::*;

verus! {

/// A borrowed, read-only sequence of bytes.
pub struct Str<'a> {
    data: &'a [u8],
}

impl<'a> View for Str<'a> {
    type V = Seq<u8>;

    closed spec fn view(&self) -> Seq<u8> {
        self.data@
    }
}

impl<'a> Str<'a> {
    /// Wraps a byte slice.
    pub fn new(data: &'a [u8]) -> (r: Str<'a>)
        ensures
            r@ == data@,
    {
        Str { data }
    }

    /// The byte at `idx`, or `None` when `idx` is past the end.
    pub fn get(&self, idx: usize) -> (r: Option<u8>)
        ensures
            idx < self@.len() ==> r == Some(self@[idx as int]),
            idx >= self@.len() ==> r is None,
    {
        if idx < self.data.len() {
            Some(self.data[idx])
        } else {
            None
        }
    }

    /// Splits into the bytes before `idx` and the bytes from `idx` on.
    /// The split is made only when `idx` indexes a byte, so the second part
    /// is never empty; otherwise the result is `None`.
    pub fn split_at(&self, idx: usize) -> (r: Option<(&[u8], &[u8])>)
        ensures
            idx < self@.len() <==> r is Some,
            r matches Some((a, b)) ==> a@ == self@.subrange(0, idx as int) && b@ == self@.subrange(
                idx as int,
                self@.len() as int,
            ),
    {
        if self.data.len() > idx {
            Some(self.data.split_at(idx))
        } else {
            None
        }
    }
}

} // verus!
