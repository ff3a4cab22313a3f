//! The bridge from page faults on file-backed mappings to file reads.

use vstd::prelude::*;

verus! {

/// The cause of a trap, as far as the fault bridge distinguishes it.
#[derive(Clone, Copy, PartialEq, Eq, Structural, Debug)]
pub enum TrapCause {
    LoadPageFault,
    StorePageFault,
    Other,
}

/// Which kind of page fault is being resolved.
#[derive(Clone, Copy, PartialEq, Eq, Structural, Debug)]
pub enum FaultAccess {
    Load,
    Store,
}

/// Why a fault could not be resolved; fatal to the faulting task.
#[derive(Clone, Copy, PartialEq, Eq, Structural, Debug)]
pub enum FaultError {
    /// The memory-region table could not resolve the address.
    Unresolved,
    /// The trap is not a page fault.
    NotPageFault,
}

/// A read that fills a freshly mapped page: `len` bytes of VFS file `file`
/// from byte `offset`, into the page's buffer.
#[derive(Clone, Copy, PartialEq, Eq, Structural, Debug)]
pub struct PageFill {
    pub file: u64,
    pub len: usize,
    pub offset: u64,
}

/// What the memory-region table hands back for a fault it resolved: the
/// backing file if any, the length of the destination buffer, and the
/// offset in the file.
#[derive(Clone, Copy, PartialEq, Eq, Structural, Debug)]
pub struct FaultInfo {
    pub file: Option<u64>,
    pub len: usize,
    pub offset: u64,
}

/// The read that `info` calls for: exactly the destination buffer, at the
/// file offset, when a file backs the page; none for anonymous memory.
pub open spec fn spec_fill(info: FaultInfo) -> Option<PageFill> {
    match info.file {
        Some(f) => Some(PageFill { file: f, len: info.len, offset: info.offset }),
        None => None,
    }
}

/// Routes a trap to the load or the store bridge; any other cause is
/// `NotPageFault`.
pub fn page_fault_access(cause: TrapCause) -> (r: Result<FaultAccess, FaultError>)
    ensures
        cause == TrapCause::LoadPageFault ==> r == Ok::<FaultAccess, FaultError>(FaultAccess::Load),
        cause == TrapCause::StorePageFault ==> r == Ok::<FaultAccess, FaultError>(FaultAccess::Store),
        cause == TrapCause::Other ==> r == Err::<FaultAccess, FaultError>(FaultError::NotPageFault),
{
    match cause {
        TrapCause::LoadPageFault => Ok(FaultAccess::Load),
        TrapCause::StorePageFault => Ok(FaultAccess::Store),
        TrapCause::Other => Err(FaultError::NotPageFault),
    }
}

/// Resolves a load fault from the region table's answer: a failed
/// resolution is `Unresolved`; otherwise the read to issue, if a file backs
/// the page.
pub fn load_fault_fill(info: Result<FaultInfo, ()>) -> (r: Result<Option<PageFill>, FaultError>)
    ensures
        info matches Ok(i) ==> r == Ok::<Option<PageFill>, FaultError>(spec_fill(i)),
        info is Err ==> r == Err::<Option<PageFill>, FaultError>(FaultError::Unresolved),
{
    match info {
        Ok(i) => Ok(fill_of(i)),
        Err(()) => Err(FaultError::Unresolved),
    }
}

/// Resolves a store fault from the region table's answer, given after its
/// copy-on-write bookkeeping: a failed resolution is `Unresolved`; a page
/// that needs no hydration asks for no read.
pub fn store_fault_fill(info: Result<Option<FaultInfo>, ()>) -> (r: Result<Option<PageFill>, FaultError>)
    ensures
        info matches Ok(Some(i)) ==> r == Ok::<Option<PageFill>, FaultError>(spec_fill(i)),
        info matches Ok(None) ==> r == Ok::<Option<PageFill>, FaultError>(None),
        info is Err ==> r == Err::<Option<PageFill>, FaultError>(FaultError::Unresolved),
{
    match info {
        Ok(Some(i)) => Ok(fill_of(i)),
        Ok(None) => Ok(None),
        Err(()) => Err(FaultError::Unresolved),
    }
}

fn fill_of(info: FaultInfo) -> (r: Option<PageFill>)
    ensures
        r == spec_fill(info),
{
    match info.file {
        Some(f) => Some(PageFill { file: f, len: info.len, offset: info.offset }),
        None => None,
    }
}

} // verus!
