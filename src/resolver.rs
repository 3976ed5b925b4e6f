use vstd::prelude::*;
use crate::error::Error;
use crate::mapping::{MappingView, SharedMemory};
use crate::windows::MapData;

verus! {

/// Where a create-or-open sequence stands.
#[derive(Debug, Clone, Copy, PartialEq, Eq, Structural)]
pub enum Phase {
    /// Waiting for the outcome of an exclusive create.
    Creating,
    /// Waiting for the outcome of an open by name.
    Opening,
    /// Holding a handle; waiting for the view to be mapped.
    Mapping { handle: u64, created: bool },
    /// Holding a handle and an opened view; waiting for the region's real extent.
    Querying { handle: u64, base: usize },
    /// A descriptor was handed out.
    Done,
    /// The sequence failed; nothing is held.
    Failed,
}

/// What the operating system answered to the last request.
#[derive(Debug, Clone, Copy, PartialEq, Eq, Structural)]
pub enum Outcome {
    /// A handle to the mapping object.
    Handle(u64),
    /// An exclusive create found the name taken.
    AlreadyExists,
    /// An open found no mapping of that name.
    NotFound,
    /// The call failed with this OS status code.
    Failed(u32),
    /// The view was mapped at this address.
    View(usize),
    /// The region behind the view spans this many bytes.
    Region(usize),
}

/// What the resolver asks for next.
pub enum Step {
    /// Create the named mapping exclusively, with this size.
    CreateMapping { size: usize },
    /// Open the existing mapping of that name.
    OpenMapping,
    /// Map a view of the object behind `handle`; a size of 0 maps all of it.
    MapView { handle: u64, size: usize },
    /// Report the extent of the region mapped at `base`.
    QueryRegion { base: usize },
    /// The mapping is ready.
    Ready(MapData),
    /// The sequence failed: release what is named here, then report `error`.
    Abort { error: Error, unmap: Option<usize>, close: Option<u64> },
}

/// The abstract form of a [`Step`].
pub enum StepView {
    CreateMapping { size: usize },
    OpenMapping,
    MapView { handle: u64, size: usize },
    QueryRegion { base: usize },
    Ready(MappingView),
    Abort { error: Error, unmap: Option<usize>, close: Option<u64> },
}

impl View for Step {
    type V = StepView;

    open spec fn view(&self) -> StepView {
        match self {
            Step::CreateMapping { size } => StepView::CreateMapping { size: *size },
            Step::OpenMapping => StepView::OpenMapping,
            Step::MapView { handle, size } => StepView::MapView { handle: *handle, size: *size },
            Step::QueryRegion { base } => StepView::QueryRegion { base: *base },
            Step::Ready(m) => StepView::Ready(m.view@),
            Step::Abort { error, unmap, close } => StepView::Abort {
                error: *error,
                unmap: *unmap,
                close: *close,
            },
        }
    }
}

/// The abstract state of a resolver.
pub struct ResolverView {
    pub name: Seq<char>,
    pub requested: usize,
    /// Whether a create that finds the name taken falls back to an open.
    pub fallback: bool,
    pub phase: Phase,
}

/// Size of a descriptor for an opened region: the requested size, unless it
/// is 0 or exceeds the region's real extent, in which case that extent.
pub open spec fn open_size(requested: usize, region: usize) -> usize {
    if requested == 0 || requested > region {
        region
    } else {
        requested
    }
}

/// The OS resources held in a phase: a view to unmap and a handle to close.
pub open spec fn held(p: Phase) -> (Option<usize>, Option<u64>) {
    match p {
        Phase::Mapping { handle, .. } => (None, Some(handle)),
        Phase::Querying { handle, base } => (Some(base), Some(handle)),
        _ => (None, None),
    }
}

/// An abort that releases what is held in phase `p` and reports `e`.
pub open spec fn abort_in(p: Phase, e: Error) -> StepView {
    StepView::Abort { error: e, unmap: held(p).0, close: held(p).1 }
}

/// The first phase and request of a sequence for `name` and `size`.
pub open spec fn start_of(name: Seq<char>, size: usize, create: bool) -> (Phase, StepView) {
    if create && size == 0 {
        (Phase::Failed, abort_in(Phase::Failed, Error::MapSizeZero))
    } else if name.len() == 0 {
        (Phase::Failed, abort_in(Phase::Failed, Error::NoLinkOrOsId))
    } else if create {
        (Phase::Creating, StepView::CreateMapping { size })
    } else {
        (Phase::Opening, StepView::OpenMapping)
    }
}

/// The transition of a resolver in state `v` on outcome `o`: the next phase
/// and the next request.
pub open spec fn next_of(v: ResolverView, o: Outcome) -> (Phase, StepView) {
    let fail = |e: Error| (Phase::Failed, abort_in(v.phase, e));
    match (v.phase, o) {
        (Phase::Creating, Outcome::Handle(h)) => (
            Phase::Mapping { handle: h, created: true },
            StepView::MapView { handle: h, size: v.requested },
        ),
        (Phase::Creating, Outcome::AlreadyExists) => if v.fallback {
            (Phase::Opening, StepView::OpenMapping)
        } else {
            fail(Error::LinkExists)
        },
        (Phase::Creating, Outcome::Failed(c)) => fail(Error::MapCreateFailed(c)),
        (Phase::Opening, Outcome::Handle(h)) => (
            Phase::Mapping { handle: h, created: false },
            StepView::MapView { handle: h, size: v.requested },
        ),
        (Phase::Opening, Outcome::NotFound) => fail(Error::LinkDoesNotExist),
        (Phase::Opening, Outcome::Failed(c)) => fail(Error::MapOpenFailed(c)),
        (Phase::Mapping { handle, created }, Outcome::View(b)) => if created {
            (
                Phase::Done,
                StepView::Ready(
                    MappingView {
                        name: v.name,
                        size: v.requested,
                        owner: true,
                        handle,
                        base: b,
                        released: false,
                    },
                ),
            )
        } else {
            (Phase::Querying { handle, base: b }, StepView::QueryRegion { base: b })
        },
        (Phase::Querying { handle, base }, Outcome::Region(g)) => (
            Phase::Done,
            StepView::Ready(
                MappingView {
                    name: v.name,
                    size: open_size(v.requested, g),
                    owner: false,
                    handle,
                    base,
                    released: false,
                },
            ),
        ),
        (_, Outcome::Failed(c)) => fail(Error::UnknownOsError(c)),
        _ => fail(Error::UnknownOsError(0)),
    }
}

/// Drives the create-or-open sequence of one named mapping: it decides each
/// OS request from the outcome of the one before.
pub struct Resolver {
    name: String,
    requested: usize,
    fallback: bool,
    phase: Phase,
}

impl View for Resolver {
    type V = ResolverView;

    closed spec fn view(&self) -> ResolverView {
        ResolverView {
            name: self.name@,
            requested: self.requested,
            fallback: self.fallback,
            phase: self.phase,
        }
    }
}

impl Resolver {
    /// Starts a sequence for `name`: an exclusive create of `size` bytes when
    /// `create` holds, else an open. A create of size 0 fails at once with
    /// `MapSizeZero`, and an empty name with `NoLinkOrOsId`, before any OS
    /// request.
    pub fn start(name: &str, size: usize, create: bool, fallback: bool) -> (r: (Resolver, Step))
        ensures
            r.0@.name == name@,
            r.0@.requested == size,
            r.0@.fallback == fallback,
            (r.0@.phase, r.1@) == start_of(name@, size, create),
    {
        let phase: Phase;
        let step: Step;
        if create && size == 0 {
            phase = Phase::Failed;
            step = Step::Abort { error: Error::MapSizeZero, unmap: None, close: None };
        } else if name.unicode_len() == 0 {
            phase = Phase::Failed;
            step = Step::Abort { error: Error::NoLinkOrOsId, unmap: None, close: None };
        } else if create {
            phase = Phase::Creating;
            step = Step::CreateMapping { size };
        } else {
            phase = Phase::Opening;
            step = Step::OpenMapping;
        }
        (Resolver { name: name.to_string(), requested: size, fallback, phase }, step)
    }

    pub fn name(&self) -> (r: &str)
        ensures
            r@ == self@.name,
    {
        self.name.as_str()
    }

    pub fn phase(&self) -> (r: Phase)
        ensures
            r == self@.phase,
    {
        self.phase
    }

    fn fail(&mut self, error: Error) -> (r: Step)
        ensures
            final(self)@ == (ResolverView { phase: Phase::Failed, ..old(self)@ }),
            r@ == abort_in(old(self)@.phase, error),
    {
        let (unmap, close) = match self.phase {
            Phase::Mapping { handle, .. } => (None, Some(handle)),
            Phase::Querying { handle, base } => (Some(base), Some(handle)),
            _ => (None, None),
        };
        self.phase = Phase::Failed;
        Step::Abort { error, unmap, close }
    }

    /// Takes the outcome of the last request and returns the next one.
    ///
    /// An abort always names exactly the view and handle that the sequence
    /// held, so a failed sequence leaves nothing open.
    pub fn resume(&mut self, outcome: Outcome) -> (r: Step)
        ensures
            final(self)@.name == old(self)@.name,
            final(self)@.requested == old(self)@.requested,
            final(self)@.fallback == old(self)@.fallback,
            (final(self)@.phase, r@) == next_of(old(self)@, outcome),
    {
        match (self.phase, outcome) {
            (Phase::Creating, Outcome::Handle(h)) => {
                self.phase = Phase::Mapping { handle: h, created: true };
                Step::MapView { handle: h, size: self.requested }
            },
            (Phase::Creating, Outcome::AlreadyExists) => {
                if self.fallback {
                    self.phase = Phase::Opening;
                    Step::OpenMapping
                } else {
                    self.fail(Error::LinkExists)
                }
            },
            (Phase::Creating, Outcome::Failed(c)) => self.fail(Error::MapCreateFailed(c)),
            (Phase::Opening, Outcome::Handle(h)) => {
                self.phase = Phase::Mapping { handle: h, created: false };
                Step::MapView { handle: h, size: self.requested }
            },
            (Phase::Opening, Outcome::NotFound) => self.fail(Error::LinkDoesNotExist),
            (Phase::Opening, Outcome::Failed(c)) => self.fail(Error::MapOpenFailed(c)),
            (Phase::Mapping { handle, created }, Outcome::View(b)) => {
                if created {
                    self.phase = Phase::Done;
                    let view = SharedMemory::assemble(self.name.clone(), self.requested, true, handle, b);
                    Step::Ready(MapData { view })
                } else {
                    self.phase = Phase::Querying { handle, base: b };
                    Step::QueryRegion { base: b }
                }
            },
            (Phase::Querying { handle, base }, Outcome::Region(g)) => {
                let size = if self.requested == 0 || self.requested > g {
                    g
                } else {
                    self.requested
                };
                self.phase = Phase::Done;
                let view = SharedMemory::assemble(self.name.clone(), size, false, handle, base);
                Step::Ready(MapData { view })
            },
            (_, Outcome::Failed(c)) => self.fail(Error::UnknownOsError(c)),
            _ => self.fail(Error::UnknownOsError(0)),
        }
    }
}

} // verus!

verus! {

/// A create of size 0 fails with `MapSizeZero` before any OS request, so
/// nothing is held or released.
pub proof fn lemma_zero_size_create(name: Seq<char>)
    ensures
        start_of(name, 0, true) == (
            Phase::Failed,
            StepView::Abort { error: Error::MapSizeZero, unmap: None, close: None },
        ),
{
}

/// A second process that opens the region which a first process created
/// with size `created`, and that asks for size 0 or at least `created`,
/// gets a descriptor of the creator's size, where the OS reports the region
/// at that size.
pub proof fn lemma_reopen_size(creator: ResolverView, handle: u64, base: usize, opener: ResolverView, handle2: u64, base2: usize)
    requires
        creator.phase == (Phase::Mapping { handle, created: true }),
        opener.phase == (Phase::Querying { handle: handle2, base: base2 }),
        opener.name == creator.name,
        opener.requested == 0 || opener.requested >= creator.requested,
    ensures
        next_of(creator, Outcome::View(base)).1 is Ready,
        next_of(opener, Outcome::Region(creator.requested)).1 is Ready,
        (next_of(opener, Outcome::Region(creator.requested)).1)->Ready_0.size
            == (next_of(creator, Outcome::View(base)).1)->Ready_0.size,
{
}

/// Every abort releases exactly what the sequence held before it: a failed
/// create or open leaves no view mapped and no handle open.
pub proof fn lemma_abort_releases_held(v: ResolverView, o: Outcome)
    ensures
        (next_of(v, o).1 is Abort) ==> next_of(v, o).1 == abort_in(v.phase, (next_of(v, o).1)->error),
        (next_of(v, o).1 is Abort) ==> next_of(v, o).0 == Phase::Failed,
{
}

} // verus!
