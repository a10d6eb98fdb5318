use vstd::prelude::*;

verus! {

/// Single-cell storage for an optional, in-flight failure payload.
///
/// One such cell serves one thread of execution for its whole lifetime; it is
/// never shared. Between a write of a payload and the matching read the cell
/// holds exactly that one payload; at every other moment it is empty. The
/// cell is handed from frame to frame as an owned value, so exclusive access
/// is a property of the type rather than of a runtime check.
///
/// The view of a slot is the optional payload it currently holds.
pub struct Slot<E> {
    cell: Option<E>,
}

impl<E> View for Slot<E> {
    type V = Option<E>;

    closed spec fn view(&self) -> Option<E> {
        self.cell
    }
}

impl<E> Slot<E> {
    /// A fresh, empty cell.
    pub fn new() -> (s: Self)
        ensures
            s@ is None,
    {
        Slot { cell: None }
    }

    /// Store a payload, or clear the cell.
    ///
    /// No observable effect beyond the mutation itself.
    pub fn write(&mut self, payload: Option<E>)
        ensures
            final(self)@ == payload,
    {
        self.cell = payload;
    }

    /// Remove and return the payload, leaving the cell empty.
    pub fn read(&mut self) -> (r: Option<E>)
        ensures
            r == old(self)@,
            final(self)@ is None,
    {
        self.cell.take()
    }

    /// Change the payload type of an empty cell.
    ///
    /// The underlying storage is type-erased; which type the next write/read
    /// pair uses is a convention between the writer and the reader. Only an
    /// empty cell may move from one such convention to the next, so retyping
    /// never reinterprets a stored payload.
    pub fn recast<F>(self) -> (s: Slot<F>)
        requires
            self@ is None,
        ensures
            s@ is None,
    {
        Slot { cell: None }
    }
}

} // verus!
