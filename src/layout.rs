use vstd::layout::{align_of, size_of, valid_layout};
use vstd::prelude::*;

verus! {

/// The size in bytes and the alignment of an allocation request.
#[derive(Clone, Copy, Debug, PartialEq, Eq, Structural)]
pub struct AllocLayout {
    pub size: usize,
    pub align: usize,
}

/// The byte length of `len` consecutive values of `T`.
pub open spec fn array_bytes<T>(len: nat) -> nat {
    size_of::<T>() * len
}

impl AllocLayout {
    /// The alignment is a power of two and the size, rounded up to it, fits in an `isize`.
    pub open spec fn wf(&self) -> bool {
        valid_layout(self.size, self.align)
    }

    /// The layout of one value of `T`.
    pub fn new<T>() -> (r: AllocLayout)
        ensures
            r.size == size_of::<T>(),
            r.align == align_of::<T>(),
            r.wf(),
    {
        vstd::layout::layout_for_type_is_valid::<T>();
        AllocLayout { size: core::mem::size_of::<T>(), align: core::mem::align_of::<T>() }
    }

    /// The layout of `len` consecutive values of `T`, or `None` where its size does
    /// not fit in an `isize` once rounded up to the alignment.
    pub fn array<T>(len: usize) -> (r: Option<AllocLayout>)
        ensures
            r is Some <==> valid_layout(
                array_bytes::<T>(len as nat) as usize,
                align_of::<T>() as usize,
            ) && array_bytes::<T>(len as nat) <= usize::MAX,
            r matches Some(l) ==> l.size == array_bytes::<T>(len as nat) && l.align
                == align_of::<T>() && l.wf(),
    {
        vstd::layout::layout_for_type_is_valid::<T>();
        let elem = core::mem::size_of::<T>();
        let align = core::mem::align_of::<T>();
        let bytes = match elem.checked_mul(len) {
            Some(b) => b,
            None => { return None; },
        };
        let max = (isize::MAX as usize) - (isize::MAX as usize) % align;
        if bytes <= max {
            Some(AllocLayout { size: bytes, align })
        } else {
            None
        }
    }

    pub fn size(&self) -> (r: usize)
        ensures
            r == self.size,
    {
        self.size
    }

    pub fn align(&self) -> (r: usize)
        ensures
            r == self.align,
    {
        self.align
    }
}

} // verus!
