use vstd::prelude::*;

verus! {

/// The size and alignment of a region of task storage, in bytes.
#[derive(Debug, Clone, Copy, PartialEq, Eq, Structural)]
pub struct Layout {
    pub size: usize,
    pub align: usize,
}

impl Layout {
    /// The layout of a value of type `F`.
    pub open spec fn of<F>() -> Layout {
        Layout {
            size: vstd::layout::size_of::<F>() as usize,
            align: vstd::layout::align_of::<F>() as usize,
        }
    }

    /// Computes the layout of a value of type `F`.
    pub fn new<F>() -> (layout: Layout)
        ensures
            layout == Layout::of::<F>(),
    {
        Layout { size: core::mem::size_of::<F>(), align: core::mem::align_of::<F>() }
    }

    /// The size in bytes.
    pub fn size(&self) -> (n: usize)
        ensures
            n == self.size,
    {
        self.size
    }

    /// The alignment in bytes.
    pub fn align(&self) -> (n: usize)
        ensures
            n == self.align,
    {
        self.align
    }

    /// Whether this layout is the layout of `F`.
    pub fn fits<F>(&self) -> (b: bool)
        ensures
            b == (*self == Layout::of::<F>()),
    {
        self.size == core::mem::size_of::<F>() && self.align == core::mem::align_of::<F>()
    }
}

} // verus!
