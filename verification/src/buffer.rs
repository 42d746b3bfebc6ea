//! GPU-visible buffer model: memory-type selection for an allocation
//! request, and the element bookkeeping of a buffer — bytes of capacity,
//! logical length, the host mapping, and the contiguously written
//! prefix of the mapped region.

use vstd::prelude::*;
use vstd::layout::size_of;
use crate::flags::has_bits;
use crate::flags::contains_bits;
use crate::flags::MEMORY_DEVICE_LOCAL;
use crate::image::CopyRegion;
use crate::image::copy_region_spec;

verus! {

/// Why a buffer allocation failed.
#[derive(Clone, Copy, PartialEq, Eq, Structural, Debug)]
pub enum AllocError {
    /// No memory type is admitted by the requirements' type bitmask and
    /// offers every requested property flag.
    NoSuitableMemoryType,
}

/// Whether memory type `i` is admitted by the requirements' type bitmask
/// and offers every bit of the requested properties.
pub open spec fn memory_type_matches(
    type_bits: u32,
    memory_types: Seq<u32>,
    properties: u32,
    i: int,
) -> bool {
    &&& type_bits & (1u32 << (i as u32)) == (1u32 << (i as u32))
    &&& has_bits(memory_types[i], properties)
}

/// Whether some memory type satisfies both constraints.
pub open spec fn some_memory_type_matches(
    type_bits: u32,
    memory_types: Seq<u32>,
    properties: u32,
) -> bool {
    exists|i: int| 0 <= i < memory_types.len()
        && memory_type_matches(type_bits, memory_types, properties, i)
}

/// Select the first memory type admitted by the type bitmask whose
/// property flags are a superset of the requested properties; `None`
/// exactly when no type satisfies both.  The property list has at most
/// the API's fixed count of thirty-two memory types.
pub fn get_memory_type_index(
    properties: u32,
    type_bits: u32,
    memory_types: &Vec<u32>,
) -> (r: Option<u32>)
    requires
        memory_types@.len() <= 32,
    ensures
        match r {
            Some(i) => {
                &&& i < memory_types@.len()
                &&& memory_type_matches(type_bits, memory_types@, properties, i as int)
                &&& forall|k: int| 0 <= k < i
                    ==> !memory_type_matches(type_bits, memory_types@, properties, k)
            },
            None => !some_memory_type_matches(type_bits, memory_types@, properties),
        },
{
    let mut i: usize = 0;
    while i < memory_types.len()
        invariant
            memory_types@.len() <= 32,
            i <= memory_types@.len(),
            forall|k: int| 0 <= k < i
                ==> !memory_type_matches(type_bits, memory_types@, properties, k),
        decreases memory_types@.len() - i,
    {
        let bit: u32 = 1u32 << (i as u32);
        if type_bits & bit == bit && contains_bits(memory_types[i], properties) {
            return Some(i as u32);
        }
        i = i + 1;
    }
    None
}

/// The memory type the image allocation path picks: the first
/// device-local type admitted by the bitmask; fails exactly when no
/// device-local type is admitted, a fatal condition.
pub fn image_memory_type_index(type_bits: u32, memory_types: &Vec<u32>) -> (r: Result<
    u32,
    AllocError,
>)
    requires
        memory_types@.len() <= 32,
    ensures
        match r {
            Ok(i) => {
                &&& i < memory_types@.len()
                &&& memory_type_matches(type_bits, memory_types@, MEMORY_DEVICE_LOCAL, i as int)
                &&& forall|k: int| 0 <= k < i
                    ==> !memory_type_matches(type_bits, memory_types@, MEMORY_DEVICE_LOCAL, k)
            },
            Err(e) => {
                &&& e == AllocError::NoSuitableMemoryType
                &&& !some_memory_type_matches(type_bits, memory_types@, MEMORY_DEVICE_LOCAL)
            },
        },
{
    match get_memory_type_index(MEMORY_DEVICE_LOCAL, type_bits, memory_types) {
        Some(i) => Ok(i),
        None => Err(AllocError::NoSuitableMemoryType),
    }
}

/// The contiguously written prefix of a mapped region after an append:
/// extended by the data when the buffer is mapped and the prefix is
/// dense up to the logical length, else unchanged.
pub open spec fn appended_contents<T>(
    contents: Seq<T>,
    length: nat,
    mapped: bool,
    data: Seq<T>,
) -> Seq<T> {
    if mapped && contents.len() == length {
        contents + data
    } else {
        contents
    }
}

/// A buffer with one memory allocation: capacity in bytes, the logical
/// element length (elements appended, whether or not they were written),
/// whether the allocation is host-mapped, and the contiguously written
/// prefix of the mapped region.
pub struct Buffer<T> {
    capacity: u64,
    memory_type: u32,
    length: usize,
    mapped: bool,
    contents: Vec<T>,
}

impl<T: Copy> Buffer<T> {
    /// Byte capacity of the allocation.
    pub closed spec fn spec_capacity(&self) -> u64 {
        self.capacity
    }

    /// Memory type index the allocation was made from.
    pub closed spec fn spec_memory_type(&self) -> u32 {
        self.memory_type
    }

    /// Elements appended so far.
    pub closed spec fn spec_len(&self) -> nat {
        self.length as nat
    }

    /// Whether the allocation is host-mapped.
    pub closed spec fn spec_mapped(&self) -> bool {
        self.mapped
    }

    /// The contiguously written prefix of the mapped region.
    pub closed spec fn spec_contents(&self) -> Seq<T> {
        self.contents@
    }

    /// Well-formedness: elements occupy at least a byte, the capacity is
    /// addressable, the appended elements fit the capacity, and the
    /// written prefix never exceeds the logical length.
    pub closed spec fn wf(&self) -> bool {
        &&& 1 <= size_of::<T>()
        &&& self.capacity as int <= usize::MAX as int
        &&& self.spec_len() * size_of::<T>() <= self.capacity as int
        &&& self.spec_contents().len() <= self.spec_len()
    }

    /// Allocate a buffer of `size` bytes from the first memory type that
    /// the requirements' bitmask admits and that offers the requested
    /// properties; fail exactly when no memory type satisfies both.
    /// The usage bits are carried by the driver-side buffer object and
    /// do not constrain the choice.
    pub fn new(
        size: usize,
        usage: u32,
        properties: u32,
        type_bits: u32,
        memory_types: &Vec<u32>,
    ) -> (r: Result<Self, AllocError>)
        requires
            1 <= size_of::<T>(),
            memory_types@.len() <= 32,
        ensures
            match r {
                Ok(b) => {
                    &&& some_memory_type_matches(type_bits, memory_types@, properties)
                    &&& b.spec_capacity() == size
                    &&& memory_type_matches(type_bits, memory_types@, properties,
                        b.spec_memory_type() as int)
                    &&& forall|k: int| 0 <= k < b.spec_memory_type()
                        ==> !memory_type_matches(type_bits, memory_types@, properties, k)
                    &&& b.spec_len() == 0
                    &&& !b.spec_mapped()
                    &&& b.spec_contents() == Seq::<T>::empty()
                    &&& b.wf()
                },
                Err(e) => {
                    &&& e == AllocError::NoSuitableMemoryType
                    &&& !some_memory_type_matches(type_bits, memory_types@, properties)
                },
            },
    {
        let _ = usage;
        let memory_type = match get_memory_type_index(properties, type_bits, memory_types) {
            Some(i) => i,
            None => {
                return Err(AllocError::NoSuitableMemoryType);
            },
        };
        let b = Self {
            capacity: size as u64,
            memory_type,
            length: 0,
            mapped: false,
            contents: Vec::new(),
        };
        proof {
            assert(b.spec_contents() =~= Seq::<T>::empty());
        }
        Ok(b)
    }

    /// Map the allocation (or a sub-range of it) for host access.  The
    /// range is handed to the driver; the model records that the buffer
    /// is mapped.
    pub fn mapping(&mut self, size: usize, offset: u64)
        ensures
            final(self).wf() == old(self).wf(),
            final(self).spec_mapped(),
            final(self).spec_capacity() == old(self).spec_capacity(),
            final(self).spec_memory_type() == old(self).spec_memory_type(),
            final(self).spec_len() == old(self).spec_len(),
            final(self).spec_contents() == old(self).spec_contents(),
    {
        let _ = size;
        let _ = offset;
        self.mapped = true;
    }

    /// End host access to the allocation.
    pub fn unmapping(&mut self)
        ensures
            final(self).wf() == old(self).wf(),
            !final(self).spec_mapped(),
            final(self).spec_capacity() == old(self).spec_capacity(),
            final(self).spec_memory_type() == old(self).spec_memory_type(),
            final(self).spec_len() == old(self).spec_len(),
            final(self).spec_contents() == old(self).spec_contents(),
    {
        self.mapped = false;
    }

    /// Append elements at the current logical length: when the buffer is
    /// mapped the bytes are written there, and the logical length
    /// advances in every case — an unmapped append advances the length
    /// without writing, which the caller acknowledges as a staging-order
    /// obligation.  The appended elements must fit the capacity.
    pub fn append(&mut self, data: &Vec<T>)
        requires
            old(self).wf(),
            (old(self).spec_len() + data@.len()) * size_of::<T>() <= old(self).spec_capacity() as int,
        ensures
            final(self).wf(),
            final(self).spec_capacity() == old(self).spec_capacity(),
            final(self).spec_memory_type() == old(self).spec_memory_type(),
            final(self).spec_mapped() == old(self).spec_mapped(),
            final(self).spec_len() == old(self).spec_len() + data@.len(),
            final(self).spec_contents() == appended_contents(
                old(self).spec_contents(),
                old(self).spec_len(),
                old(self).spec_mapped(),
                data@,
            ),
    {
        proof {
            let total = old(self).spec_len() + data@.len();
            let elem = size_of::<T>();
            assert(total <= total * elem) by (nonlinear_arith)
                requires
                    1 <= elem,
                    0 <= total,
            ;
        }
        if self.mapped && self.contents.len() == self.length {
            let mut j: usize = 0;
            while j < data.len()
                invariant
                    j <= data@.len(),
                    self.contents@ == old(self).spec_contents() + data@.take(j as int),
                    self.length == old(self).spec_len(),
                    self.mapped,
                    self.capacity == old(self).capacity,
                    self.memory_type == old(self).memory_type,
                decreases data@.len() - j,
            {
                self.contents.push(data[j]);
                proof {
                    assert(data@.take(j + 1) =~= data@.take(j as int).push(data@[j as int]));
                }
                j = j + 1;
            }
            proof {
                assert(data@.take(data@.len() as int) =~= data@);
            }
        }
        self.length = self.length + data.len();
    }

    /// Allocate a buffer sized for the given elements, map it, and
    /// append them all; the result is left mapped with every element
    /// written.  Fails exactly when no memory type satisfies the
    /// request.
    pub fn from_vec(
        usage: u32,
        properties: u32,
        type_bits: u32,
        memory_types: &Vec<u32>,
        vec: &Vec<T>,
    ) -> (r: Result<Self, AllocError>)
        requires
            1 <= size_of::<T>(),
            memory_types@.len() <= 32,
            vec@.len() * size_of::<T>() <= usize::MAX as int,
        ensures
            match r {
                Ok(b) => {
                    &&& some_memory_type_matches(type_bits, memory_types@, properties)
                    &&& b.wf()
                    &&& b.spec_capacity() == vec@.len() * size_of::<T>()
                    &&& b.spec_len() == vec@.len()
                    &&& b.spec_mapped()
                    &&& b.spec_contents() == vec@
                },
                Err(e) => {
                    &&& e == AllocError::NoSuitableMemoryType
                    &&& !some_memory_type_matches(type_bits, memory_types@, properties)
                },
            },
    {
        proof {
            assert(vec@.len() * size_of::<T>() == size_of::<T>() * vec@.len()) by (nonlinear_arith);
        }
        let size: usize = vec.len() * core::mem::size_of::<T>();
        let mut b = Self::new(size, usage, properties, type_bits, memory_types)?;
        b.mapping(size, 0);
        b.append(vec);
        proof {
            assert(b.spec_contents() =~= vec@);
        }
        Ok(b)
    }

    /// Memory type index the allocation was made from.
    pub fn memory_type(&self) -> (r: u32)
        ensures
            r == self.spec_memory_type(),
    {
        self.memory_type
    }

    /// Elements appended so far.
    pub fn len(&self) -> (r: usize)
        ensures
            r == self.spec_len(),
    {
        self.length
    }

    /// Capacity in elements: the byte capacity divided by the element
    /// size.
    pub fn capacity(&self) -> (r: usize)
        requires
            self.wf(),
        ensures
            r == self.spec_capacity() as int / size_of::<T>() as int,
    {
        let cap: usize = self.capacity as usize;
        cap / core::mem::size_of::<T>()
    }

    /// Capacity in bytes, as requested at allocation.
    pub fn capacity_in_bytes(&self) -> (r: usize)
        requires
            self.wf(),
        ensures
            r == self.spec_capacity(),
    {
        self.capacity as usize
    }

    /// The written prefix of the mapped region, in write order.
    pub fn read_memory(&self) -> (r: &[T])
        ensures
            r@ == self.spec_contents(),
    {
        self.contents.as_slice()
    }

    /// The copy region for moving this staging buffer's pixels into a
    /// full two-dimensional image extent.
    pub fn to_image(&self, width: u32, height: u32) -> (r: CopyRegion)
        ensures
            r == copy_region_spec(width, height),
    {
        CopyRegion {
            buffer_offset: 0,
            buffer_row_length: 0,
            buffer_image_height: 0,
            mip_level: 0,
            base_array_layer: 0,
            layer_count: 1,
            width,
            height,
            depth: 1,
        }
    }
}

/// Round trip: appending elements to a freshly allocated, mapped buffer
/// writes exactly those elements, so reading the written prefix back
/// yields the same elements in the same order.
pub proof fn lemma_append_round_trip<T>(data: Seq<T>)
    ensures
        appended_contents(Seq::<T>::empty(), 0, true, data) == data,
{
    assert(appended_contents(Seq::<T>::empty(), 0, true, data) =~= data);
}

} // verus!
