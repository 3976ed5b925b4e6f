use vstd::prelude::*;
use crate::mapping::{MappingView, SharedMemory};
use crate::resolver::{start_of, Resolver, Step};

verus! {

/// A mapped region held by a configuration's user.
pub struct MapData {
    pub view: SharedMemory,
}

/// Platform options of a mapping configuration.
#[derive(Debug, Clone, Copy, Default)]
pub struct ShmemConfExt {
    allow_raw: bool,
}

impl View for ShmemConfExt {
    type V = bool;

    /// Whether raw mappings not managed by this library may be opened.
    closed spec fn view(&self) -> bool {
        self.allow_raw
    }
}

/// The abstract state of a mapping configuration.
pub struct ConfView {
    pub os_id: Seq<char>,
    pub size: usize,
    pub allow_raw: bool,
}

/// What a mapping is to be created or opened with.
pub struct ShmemConf {
    os_id: String,
    size: usize,
    ext: ShmemConfExt,
}

impl View for ShmemConf {
    type V = ConfView;

    closed spec fn view(&self) -> ConfView {
        ConfView { os_id: self.os_id@, size: self.size, allow_raw: self.ext@ }
    }
}

impl ShmemConf {
    /// A configuration with no name, size 0 and raw mappings refused.
    pub fn new() -> (r: Self)
        ensures
            r@ == (ConfView { os_id: Seq::empty(), size: 0, allow_raw: false }),
    {
        ShmemConf { os_id: String::new(), size: 0, ext: ShmemConfExt { allow_raw: false } }
    }

    /// Sets the OS identifier of the mapping.
    pub fn os_id(self, os_id: &str) -> (r: Self)
        ensures
            r@ == (ConfView { os_id: os_id@, ..self@ }),
    {
        ShmemConf { os_id: os_id.to_string(), ..self }
    }

    /// Sets the size to create, or the size expected on open (0: whatever it is).
    pub fn size(self, size: usize) -> (r: Self)
        ensures
            r@ == (ConfView { size, ..self@ }),
    {
        ShmemConf { size, ..self }
    }

    /// If set to true, enables opening raw shared memory that is not managed by this library.
    pub fn allow_raw(self, allow: bool) -> (r: Self)
        ensures
            r@ == (ConfView { allow_raw: allow, ..self@ }),
    {
        let mut s = self;
        s.ext.allow_raw = allow;
        s
    }

    /// Starts creating the configured mapping; fails with `LinkExists` where
    /// the name is taken.
    pub fn create(&self) -> (r: (Resolver, Step))
        ensures
            r.0@.name == self@.os_id,
            r.0@.requested == self@.size,
            !r.0@.fallback,
            (r.0@.phase, r.1@) == start_of(self@.os_id, self@.size, true),
    {
        create_mapping(self.os_id.as_str(), self.size)
    }

    /// Starts opening the configured mapping.
    pub fn open(&self) -> (r: (Resolver, Step))
        ensures
            r.0@.name == self@.os_id,
            r.0@.requested == self@.size,
            !r.0@.fallback,
            (r.0@.phase, r.1@) == start_of(self@.os_id, self@.size, false),
    {
        open_mapping(self.os_id.as_str(), self.size, &self.ext)
    }

    /// Starts creating the configured mapping, falling back to opening it
    /// where another process created it first.
    pub fn create_or_open(&self) -> (r: (Resolver, Step))
        ensures
            r.0@.name == self@.os_id,
            r.0@.requested == self@.size,
            r.0@.fallback,
            (r.0@.phase, r.1@) == start_of(self@.os_id, self@.size, true),
    {
        Resolver::start(self.os_id.as_str(), self.size, true, true)
    }
}

impl MapData {
    /// Hands cleanup responsibility to or from this mapping; returns the previous value.
    pub fn set_owner(&mut self, is_owner: bool) -> (r: bool)
        ensures
            r == old(self).view@.owner,
            final(self).view@ == (MappingView { owner: is_owner, ..old(self).view@ }),
    {
        self.view.set_owner(is_owner)
    }

    /// Address of the mapped view in this process.
    pub fn as_mut_ptr(&self) -> (r: usize)
        ensures
            r == self.view@.base,
    {
        self.view.as_ptr()
    }

    pub fn name(&self) -> (r: &str)
        ensures
            r@ == self.view@.name,
    {
        self.view.name()
    }

    pub fn map_size(&self) -> (r: usize)
        ensures
            r == self.view@.size,
    {
        self.view.size()
    }
}

fn new_map(unique_id: &str, map_size: usize, create: bool, _allow_raw: bool) -> (r: (Resolver, Step))
    ensures
        r.0@.name == unique_id@,
        r.0@.requested == map_size,
        !r.0@.fallback,
        (r.0@.phase, r.1@) == start_of(unique_id@, map_size, create),
{
    Resolver::start(unique_id, map_size, create, false)
}

/// Starts creating a mapping of `map_size` bytes named `unique_id`.
pub fn create_mapping(unique_id: &str, map_size: usize) -> (r: (Resolver, Step))
    ensures
        r.0@.name == unique_id@,
        r.0@.requested == map_size,
        !r.0@.fallback,
        (r.0@.phase, r.1@) == start_of(unique_id@, map_size, true),
{
    new_map(unique_id, map_size, true, false)
}

/// Starts opening the existing mapping named `unique_id`; `map_size` 0 asks
/// for the whole region.
pub fn open_mapping(unique_id: &str, map_size: usize, ext: &ShmemConfExt) -> (r: (Resolver, Step))
    ensures
        r.0@.name == unique_id@,
        r.0@.requested == map_size,
        !r.0@.fallback,
        (r.0@.phase, r.1@) == start_of(unique_id@, map_size, false),
{
    new_map(unique_id, map_size, false, ext.allow_raw)
}

} // verus!
