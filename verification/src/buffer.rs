use vstd::prelude::*;

verus! {

/// The sizes that a storage or uniform buffer is created with: the binding it takes in
/// its bind group, its size in bytes, and the smallest size that a binding of it must
/// have (none when the layout does not ask for one).
#[derive(Clone, Copy, Debug)]
pub struct BufferLayout {
    pub binding: u32,
    pub size: u64,
    pub min_binding_size: Option<u64>,
}

impl BufferLayout {
    /// A buffer holds no zero-sized minimum binding size: the device would reject it.
    pub open spec fn wf(&self) -> bool {
        self.min_binding_size != Some(0u64)
    }

    /// A buffer of `size` bytes at `binding`, with no minimum binding size.
    pub fn create(binding: u32, size: u64) -> (layout: BufferLayout)
        ensures
            layout == (BufferLayout { binding, size, min_binding_size: None }),
            layout.wf(),
    {
        BufferLayout { binding, size, min_binding_size: None }
    }

    /// A buffer at `binding` that holds `length` elements of `element_size` bytes each.
    /// A binding of it must cover at least one element, unless elements take no room.
    pub fn create_with_data(binding: u32, element_size: u64, length: u64) -> (layout: BufferLayout)
        requires
            element_size * length <= u64::MAX,
        ensures
            layout.binding == binding,
            layout.size == element_size * length,
            layout.min_binding_size == (if element_size == 0 {
                None
            } else {
                Some(element_size)
            }),
            layout.wf(),
    {
        let size = length * element_size;
        assert(size == element_size * length) by (nonlinear_arith)
            requires
                size == length * element_size,
        ;
        let min_binding_size = if element_size == 0 {
            None
        } else {
            Some(element_size)
        };
        BufferLayout { binding, size, min_binding_size }
    }
}

} // verus!
