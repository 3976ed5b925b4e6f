use vstd::prelude::*;
use crate::error::Error;

verus! {

/// The abstract state of a mapping descriptor.
pub struct MappingView {
    pub name: Seq<char>,
    /// Size of the region that this descriptor grants access to.
    pub size: usize,
    /// Whether this descriptor is responsible for unmapping the view.
    pub owner: bool,
    /// This process's OS handle to the mapping object.
    pub handle: u64,
    /// Address at which the view is mapped in this process.
    pub base: usize,
    /// Whether teardown has already run.
    pub released: bool,
}

/// What a teardown asks of the operating system.
#[derive(Debug, Clone, Copy, PartialEq, Eq, Structural)]
pub struct Release {
    /// The view to unmap, at this base address.
    pub unmap: Option<usize>,
    /// The handle to close.
    pub close: Option<u64>,
}

/// The teardown that a descriptor in state `v` asks for: the view is unmapped
/// only by its owner, the handle is always closed, and both happen once.
pub open spec fn release_of(v: MappingView) -> Release {
    if v.released {
        Release { unmap: None, close: None }
    } else {
        Release { unmap: if v.owner { Some(v.base) } else { None }, close: Some(v.handle) }
    }
}

/// Number of unmap operations that a teardown request holds.
pub open spec fn unmap_count(r: Release) -> nat {
    if r.unmap.is_some() { 1 } else { 0 }
}

/// One named memory region mapped into this process.
pub struct SharedMemory {
    name: String,
    size: usize,
    owner: bool,
    handle: u64,
    base: usize,
    released: bool,
}

impl View for SharedMemory {
    type V = MappingView;

    closed spec fn view(&self) -> MappingView {
        MappingView {
            name: self.name@,
            size: self.size,
            owner: self.owner,
            handle: self.handle,
            base: self.base,
            released: self.released,
        }
    }
}

impl SharedMemory {
    /// A fresh descriptor for a view that the OS has mapped.
    pub fn assemble(name: String, size: usize, owner: bool, handle: u64, base: usize) -> (r: Self)
        ensures
            r@ == (MappingView { name: name@, size, owner, handle, base, released: false }),
    {
        SharedMemory { name, size, owner, handle, base, released: false }
    }

    pub fn size(&self) -> (r: usize)
        ensures
            r == self@.size,
    {
        self.size
    }

    pub fn name(&self) -> (r: &str)
        ensures
            r@ == self@.name,
    {
        self.name.as_str()
    }

    pub fn owner(&self) -> (r: bool)
        ensures
            r == self@.owner,
    {
        self.owner
    }

    /// Hands cleanup responsibility to or from this descriptor; returns the
    /// previous value.
    pub fn set_owner(&mut self, owner: bool) -> (r: bool)
        ensures
            r == old(self)@.owner,
            final(self)@ == (MappingView { owner, ..old(self)@ }),
    {
        let prev = self.owner;
        self.owner = owner;
        prev
    }

    /// Address of the view in this process, as an integer.
    pub fn as_ptr(&self) -> (r: usize)
        ensures
            r == self@.base,
    {
        self.base
    }

    /// This process's handle to the mapping object.
    pub fn handle(&self) -> (r: u64)
        ensures
            r == self@.handle,
    {
        self.handle
    }

    pub fn is_released(&self) -> (r: bool)
        ensures
            r == self@.released,
    {
        self.released
    }

    /// Marks the descriptor as torn down and says what to release: the view
    /// only if this descriptor owns it, the handle always, and nothing at all
    /// on any later call.
    pub fn release(&mut self) -> (r: Release)
        ensures
            r == release_of(old(self)@),
            final(self)@ == (MappingView { released: true, ..old(self)@ }),
    {
        if self.released {
            Release { unmap: None, close: None }
        } else {
            self.released = true;
            Release { unmap: if self.owner { Some(self.base) } else { None }, close: Some(self.handle) }
        }
    }

    /// Number of elements of `elem_size` bytes that the region holds, or
    /// `MapSizeUnmatched` where its size is no multiple of `elem_size`.
    pub fn element_count(&self, elem_size: usize) -> (r: Result<usize, Error>)
        requires
            elem_size > 0,
        ensures
            self@.size % elem_size == 0 ==> r == Ok::<usize, Error>((self@.size / elem_size) as usize),
            self@.size % elem_size != 0 ==> r == Err::<usize, Error>(Error::MapSizeUnmatched(self@.size, elem_size)),
    {
        if self.size % elem_size == 0 {
            Ok(self.size / elem_size)
        } else {
            Err(Error::MapSizeUnmatched(self.size, elem_size))
        }
    }

    /// Number of values of type `T` that the region holds, or
    /// `MapSizeUnmatched` where its size is no multiple of the size of `T`.
    pub fn element_count_of<T>(&self) -> (r: Result<usize, Error>)
        requires
            vstd::layout::size_of::<T>() > 0,
        ensures
            self@.size % (vstd::layout::size_of::<T>() as usize) == 0 ==> r == Ok::<usize, Error>(
                (self@.size / (vstd::layout::size_of::<T>() as usize)) as usize,
            ),
            self@.size % (vstd::layout::size_of::<T>() as usize) != 0 ==> r == Err::<usize, Error>(
                Error::MapSizeUnmatched(self@.size, vstd::layout::size_of::<T>() as usize),
            ),
    {
        let elem = core::mem::size_of::<T>();
        self.element_count(elem)
    }
}

/// Tearing down two descriptors of one region, the owner and another, in
/// either order, unmaps the view exactly once; a repeated teardown of either
/// releases nothing more.
pub proof fn lemma_single_unmap(a: MappingView, b: MappingView)
    requires
        a.owner,
        !b.owner,
        !a.released,
        !b.released,
    ensures
        unmap_count(release_of(a)) + unmap_count(release_of(b)) == 1,
        unmap_count(release_of(b)) + unmap_count(release_of(a)) == 1,
        release_of(MappingView { released: true, ..a }) == (Release { unmap: None, close: None }),
        release_of(MappingView { released: true, ..b }) == (Release { unmap: None, close: None }),
{
}

} // verus!
