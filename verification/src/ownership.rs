//! Who owns a GL handle or a block of vertex data.
use vstd::prelude::*;

verus! {

/// A GL object handle that is either owned (deleted on drop by its holder),
/// borrowed from somebody else, or absent.
pub enum Ownership<T> {
    Borrowed(T),
    Owned(T),
    Empty,
}

impl<T> Ownership<T> {
    /// The handle, whether owned or borrowed.
    pub open spec fn spec_held(&self) -> Option<T> {
        match self {
            Ownership::Borrowed(x) => Some(*x),
            Ownership::Owned(x) => Some(*x),
            Ownership::Empty => None,
        }
    }

    /// Returns the held value; there must be one.
    pub fn unwrap(&self) -> (r: &T)
        requires
            !(self is Empty),
        ensures
            self.spec_held() == Some(*r),
    {
        match self {
            Ownership::Borrowed(x) => x,
            Ownership::Owned(x) => x,
            Ownership::Empty => vstd::pervasive::unreached(),
        }
    }

    /// The handle that whoever drops this ownership must release: the owned
    /// one; a borrowed handle belongs to somebody else.
    pub fn handle_to_release(&self) -> (r: Option<&T>)
        ensures
            match self {
                Ownership::Owned(x) => r == Some(x),
                _ => r is None,
            },
    {
        match self {
            Ownership::Owned(x) => Some(x),
            _ => None,
        }
    }
}

/// Data for a GPU buffer: a borrowed slice, an owned vector, or nothing yet.
pub enum BufferOwnership<'a, T> {
    Reference(&'a [T]),
    Owned(Vec<T>),
    Empty,
}

impl<'a, T> BufferOwnership<'a, T> {
    /// The elements held, if any.
    pub open spec fn spec_data(&self) -> Option<Seq<T>> {
        match self {
            BufferOwnership::Reference(s) => Some(s@),
            BufferOwnership::Owned(v) => Some(v@),
            BufferOwnership::Empty => None,
        }
    }

    /// The held elements as a slice; there must be some.
    pub fn as_slice<'b: 'a>(&'b self) -> (r: &'a [T])
        requires
            !(self is Empty),
        ensures
            self.spec_data() == Some(r@),
    {
        match self {
            BufferOwnership::Reference(slice) => slice,
            BufferOwnership::Owned(vec) => vec.as_slice(),
            BufferOwnership::Empty => vstd::pervasive::unreached(),
        }
    }
}

impl<'a, T> From<&'a [T]> for BufferOwnership<'a, T> {
    /// Borrows the slice.
    fn from(value: &'a [T]) -> (r: Self) {
        BufferOwnership::Reference(value)
    }
}

impl<'a, T> vstd::std_specs::convert::FromSpecImpl<&'a [T]> for BufferOwnership<'a, T> {
    open spec fn obeys_from_spec() -> bool {
        true
    }

    open spec fn from_spec(v: &'a [T]) -> Self {
        BufferOwnership::Reference(v)
    }
}

impl<'a, T, const N: usize> From<&'a [T; N]> for BufferOwnership<'a, T> {
    /// Borrows the array as a slice.
    fn from(value: &'a [T; N]) -> (r: Self) {
        BufferOwnership::Reference(value)
    }
}

impl<'a, T, const N: usize> vstd::std_specs::convert::FromSpecImpl<&'a [T; N]> for BufferOwnership<'a, T> {
    open spec fn obeys_from_spec() -> bool {
        true
    }

    open spec fn from_spec(v: &'a [T; N]) -> Self {
        BufferOwnership::Reference(v)
    }
}

impl<'a, T> From<Vec<T>> for BufferOwnership<'a, T> {
    /// Takes ownership of the vector.
    fn from(value: Vec<T>) -> (r: Self) {
        BufferOwnership::Owned(value)
    }
}

impl<'a, T> vstd::std_specs::convert::FromSpecImpl<Vec<T>> for BufferOwnership<'a, T> {
    open spec fn obeys_from_spec() -> bool {
        true
    }

    open spec fn from_spec(v: Vec<T>) -> Self {
        BufferOwnership::Owned(v)
    }
}

/// The handle put into an ownership, owned or borrowed, is the one that
/// `unwrap` gives back.
pub proof fn lemma_ownership_holds_handle<T>(x: T)
    ensures
        Ownership::Owned(x).spec_held() == Some(x),
        Ownership::Borrowed(x).spec_held() == Some(x),
        Ownership::<T>::Empty.spec_held() is None,
{
}

/// The elements wrapped from a slice or a vector are the ones `as_slice`
/// gives back.
pub proof fn lemma_buffer_data_round_trip<'a, T>(s: &'a [T], v: Vec<T>)
    ensures
        BufferOwnership::Reference(s).spec_data() == Some(s@),
        BufferOwnership::<'a, T>::Owned(v).spec_data() == Some(v@),
        BufferOwnership::<'a, T>::Empty.spec_data() is None,
{
}

} // verus!
