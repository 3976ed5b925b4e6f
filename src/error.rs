use vstd::prelude::*;

verus! {

/// Everything that can go wrong while creating, opening or using a mapping.
///
/// Operating system failures carry the OS status code.
#[derive(Debug, Clone, Copy, PartialEq, Eq, Structural)]
pub enum Error {
    /// A mapping of size 0 was asked to be created.
    MapSizeZero,
    /// A mapping was asked for without a name.
    NoLinkOrOsId,
    /// Creating the link file failed, with this OS status code.
    LinkCreateFailed(u32),
    /// Writing the link file failed, with this OS status code.
    LinkWriteFailed(u32),
    /// The mapping asked to be created already exists.
    LinkExists,
    /// Opening the link file failed, with this OS status code.
    LinkOpenFailed(u32),
    /// Reading the link file failed, with this OS status code.
    LinkReadFailed(u32),
    /// The mapping asked to be opened does not exist.
    LinkDoesNotExist,
    /// The OS identifier of the mapping is already taken.
    MappingIdExists,
    /// The OS refused to create the mapping.
    MapCreateFailed(u32),
    /// The OS refused to open the mapping.
    MapOpenFailed(u32),
    /// Any other OS failure.
    UnknownOsError(u32),
    /// A failure reported by the OS API layer, with its status code.
    WindowCoreError(i32),
    /// The region's size is no multiple of the element size: region size, element size.
    MapSizeUnmatched(usize, usize),
    /// A blocking wait ended because its timeout elapsed.
    Timeout,
    /// The previous holder of a lock ended while holding it.
    LockAbandoned,
}

} // verus!
