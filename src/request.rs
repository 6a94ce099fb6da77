//! The catalogue of requests the kernel transport delivers, and how the bridge
//! schedules each of them.
use vstd::prelude::*;
use crate::types::SetAttrChanges;

verus! {

/// A request with its parameters held as owned values, so that the work that
/// answers it may outlive the call that delivered it. Names and paths are the
/// raw bytes the kernel sent.
#[derive(Clone, Debug, PartialEq, Eq)]
pub enum Request {
    Init,
    Destroy,
    Lookup { parent: u64, name: Vec<u8> },
    Forget { ino: u64, nlookup: u64 },
    GetAttr { ino: u64 },
    SetAttr { ino: u64, changes: SetAttrChanges },
    ReadLink { ino: u64 },
    MkNod { parent: u64, name: Vec<u8>, mode: u32, umask: u32, rdev: u32 },
    MkDir { parent: u64, name: Vec<u8>, mode: u32, umask: u32 },
    Unlink { parent: u64, name: Vec<u8> },
    RmDir { parent: u64, name: Vec<u8> },
    SymLink { parent: u64, name: Vec<u8>, link: Vec<u8> },
    Rename { parent: u64, name: Vec<u8>, newparent: u64, newname: Vec<u8>, flags: u32 },
    Link { ino: u64, newparent: u64, newname: Vec<u8> },
    Open { ino: u64, flags: i32 },
    Read { ino: u64, fh: u64, offset: i64, size: u32, flags: i32, lock_owner: Option<u64> },
    Write {
        ino: u64,
        fh: u64,
        offset: i64,
        data: Vec<u8>,
        write_flags: u32,
        flags: i32,
        lock_owner: Option<u64>,
    },
    Flush { ino: u64, fh: u64, lock_owner: u64 },
    Release { ino: u64, fh: u64, flags: i32, lock_owner: Option<u64>, flush: bool },
    Fsync { ino: u64, fh: u64, datasync: bool },
    OpenDir { ino: u64, flags: i32 },
    ReadDir { ino: u64, fh: u64, offset: i64 },
    ReadDirPlus { ino: u64, fh: u64, offset: i64 },
    ReleaseDir { ino: u64, fh: u64, flags: i32 },
    FsyncDir { ino: u64, fh: u64, datasync: bool },
    Statfs { ino: u64 },
    SetXattr { ino: u64, name: Vec<u8>, value: Vec<u8>, flags: i32, position: u32 },
    GetXattr { ino: u64, name: Vec<u8>, size: u32 },
    ListXattr { ino: u64, size: u32 },
    RemoveXattr { ino: u64, name: Vec<u8> },
    Access { ino: u64, mask: i32 },
    Create { parent: u64, name: Vec<u8>, mode: u32, umask: u32, flags: i32 },
    GetLk { ino: u64, fh: u64, lock_owner: u64, start: u64, end: u64, typ: i32, pid: u32 },
    SetLk {
        ino: u64,
        fh: u64,
        lock_owner: u64,
        start: u64,
        end: u64,
        typ: i32,
        pid: u32,
        sleep: bool,
    },
    Bmap { ino: u64, blocksize: u32, idx: u64 },
    Ioctl { ino: u64, fh: u64, flags: u32, cmd: u32, in_data: Vec<u8>, out_size: u32 },
    Fallocate { ino: u64, fh: u64, offset: i64, length: i64, mode: i32 },
    Lseek { ino: u64, fh: u64, offset: i64, whence: i32 },
    CopyFileRange {
        ino_in: u64,
        fh_in: u64,
        offset_in: i64,
        ino_out: u64,
        fh_out: u64,
        offset_out: i64,
        len: u64,
        flags: u32,
    },
    SetVolName { name: Vec<u8> },
    Exchange { parent: u64, name: Vec<u8>, newparent: u64, newname: Vec<u8>, options: u64 },
    GetXTimes { ino: u64 },
}

/// The operation a request asks for, without its parameters.
#[derive(Clone, Copy, Debug, PartialEq, Eq, Structural)]
pub enum OpKind {
    Init,
    Destroy,
    Lookup,
    Forget,
    GetAttr,
    SetAttr,
    ReadLink,
    MkNod,
    MkDir,
    Unlink,
    RmDir,
    SymLink,
    Rename,
    Link,
    Open,
    Read,
    Write,
    Flush,
    Release,
    Fsync,
    OpenDir,
    ReadDir,
    ReadDirPlus,
    ReleaseDir,
    FsyncDir,
    Statfs,
    SetXattr,
    GetXattr,
    ListXattr,
    RemoveXattr,
    Access,
    Create,
    GetLk,
    SetLk,
    Bmap,
    Ioctl,
    Fallocate,
    Lseek,
    CopyFileRange,
    SetVolName,
    Exchange,
    GetXTimes,
}

impl Request {
    pub open spec fn op_kind(&self) -> OpKind {
        match self {
            Request::Init => OpKind::Init,
            Request::Destroy => OpKind::Destroy,
            Request::Lookup { .. } => OpKind::Lookup,
            Request::Forget { .. } => OpKind::Forget,
            Request::GetAttr { .. } => OpKind::GetAttr,
            Request::SetAttr { .. } => OpKind::SetAttr,
            Request::ReadLink { .. } => OpKind::ReadLink,
            Request::MkNod { .. } => OpKind::MkNod,
            Request::MkDir { .. } => OpKind::MkDir,
            Request::Unlink { .. } => OpKind::Unlink,
            Request::RmDir { .. } => OpKind::RmDir,
            Request::SymLink { .. } => OpKind::SymLink,
            Request::Rename { .. } => OpKind::Rename,
            Request::Link { .. } => OpKind::Link,
            Request::Open { .. } => OpKind::Open,
            Request::Read { .. } => OpKind::Read,
            Request::Write { .. } => OpKind::Write,
            Request::Flush { .. } => OpKind::Flush,
            Request::Release { .. } => OpKind::Release,
            Request::Fsync { .. } => OpKind::Fsync,
            Request::OpenDir { .. } => OpKind::OpenDir,
            Request::ReadDir { .. } => OpKind::ReadDir,
            Request::ReadDirPlus { .. } => OpKind::ReadDirPlus,
            Request::ReleaseDir { .. } => OpKind::ReleaseDir,
            Request::FsyncDir { .. } => OpKind::FsyncDir,
            Request::Statfs { .. } => OpKind::Statfs,
            Request::SetXattr { .. } => OpKind::SetXattr,
            Request::GetXattr { .. } => OpKind::GetXattr,
            Request::ListXattr { .. } => OpKind::ListXattr,
            Request::RemoveXattr { .. } => OpKind::RemoveXattr,
            Request::Access { .. } => OpKind::Access,
            Request::Create { .. } => OpKind::Create,
            Request::GetLk { .. } => OpKind::GetLk,
            Request::SetLk { .. } => OpKind::SetLk,
            Request::Bmap { .. } => OpKind::Bmap,
            Request::Ioctl { .. } => OpKind::Ioctl,
            Request::Fallocate { .. } => OpKind::Fallocate,
            Request::Lseek { .. } => OpKind::Lseek,
            Request::CopyFileRange { .. } => OpKind::CopyFileRange,
            Request::SetVolName { .. } => OpKind::SetVolName,
            Request::Exchange { .. } => OpKind::Exchange,
            Request::GetXTimes { .. } => OpKind::GetXTimes,
        }
    }

    /// The operation this request asks for.
    pub fn kind(&self) -> (k: OpKind)
        ensures
            k == self.op_kind(),
    {
        match self {
            Request::Init => OpKind::Init,
            Request::Destroy => OpKind::Destroy,
            Request::Lookup { .. } => OpKind::Lookup,
            Request::Forget { .. } => OpKind::Forget,
            Request::GetAttr { .. } => OpKind::GetAttr,
            Request::SetAttr { .. } => OpKind::SetAttr,
            Request::ReadLink { .. } => OpKind::ReadLink,
            Request::MkNod { .. } => OpKind::MkNod,
            Request::MkDir { .. } => OpKind::MkDir,
            Request::Unlink { .. } => OpKind::Unlink,
            Request::RmDir { .. } => OpKind::RmDir,
            Request::SymLink { .. } => OpKind::SymLink,
            Request::Rename { .. } => OpKind::Rename,
            Request::Link { .. } => OpKind::Link,
            Request::Open { .. } => OpKind::Open,
            Request::Read { .. } => OpKind::Read,
            Request::Write { .. } => OpKind::Write,
            Request::Flush { .. } => OpKind::Flush,
            Request::Release { .. } => OpKind::Release,
            Request::Fsync { .. } => OpKind::Fsync,
            Request::OpenDir { .. } => OpKind::OpenDir,
            Request::ReadDir { .. } => OpKind::ReadDir,
            Request::ReadDirPlus { .. } => OpKind::ReadDirPlus,
            Request::ReleaseDir { .. } => OpKind::ReleaseDir,
            Request::FsyncDir { .. } => OpKind::FsyncDir,
            Request::Statfs { .. } => OpKind::Statfs,
            Request::SetXattr { .. } => OpKind::SetXattr,
            Request::GetXattr { .. } => OpKind::GetXattr,
            Request::ListXattr { .. } => OpKind::ListXattr,
            Request::RemoveXattr { .. } => OpKind::RemoveXattr,
            Request::Access { .. } => OpKind::Access,
            Request::Create { .. } => OpKind::Create,
            Request::GetLk { .. } => OpKind::GetLk,
            Request::SetLk { .. } => OpKind::SetLk,
            Request::Bmap { .. } => OpKind::Bmap,
            Request::Ioctl { .. } => OpKind::Ioctl,
            Request::Fallocate { .. } => OpKind::Fallocate,
            Request::Lseek { .. } => OpKind::Lseek,
            Request::CopyFileRange { .. } => OpKind::CopyFileRange,
            Request::SetVolName { .. } => OpKind::SetVolName,
            Request::Exchange { .. } => OpKind::Exchange,
            Request::GetXTimes { .. } => OpKind::GetXTimes,
        }
    }
}

/// How the bridge runs the work that answers a request.
#[derive(Clone, Copy, Debug, PartialEq, Eq, Structural)]
pub enum Schedule {
    /// Run to completion on the calling thread before it proceeds.
    Blocking,
    /// Run as an independent task whose completion sends no reply.
    Detached,
    /// Run as an independent task whose completion sends exactly one reply.
    Replying,
}

/// The lifecycle calls, which gate or end the filesystem's operational life.
pub open spec fn is_lifecycle(k: OpKind) -> bool {
    k == OpKind::Init || k == OpKind::Destroy
}

/// The requests the protocol expects a reply to through a reply sink.
pub open spec fn expects_reply(k: OpKind) -> bool {
    !is_lifecycle(k) && k != OpKind::Forget
}

/// How a request of kind `k` is run.
pub open spec fn schedule_of(k: OpKind) -> Schedule {
    if is_lifecycle(k) {
        Schedule::Blocking
    } else if k == OpKind::Forget {
        Schedule::Detached
    } else {
        Schedule::Replying
    }
}

/// How a request of kind `k` is run. Only the lifecycle calls hold the calling
/// thread; every other request runs as its own task, so that a slow operation
/// never holds up another; of those, only `forget` sends no reply.
pub fn schedule(k: OpKind) -> (r: Schedule)
    ensures
        r == schedule_of(k),
        r == Schedule::Blocking <==> is_lifecycle(k),
        r == Schedule::Detached <==> k == OpKind::Forget,
        r == Schedule::Replying <==> expects_reply(k),
{
    match k {
        OpKind::Init | OpKind::Destroy => Schedule::Blocking,
        OpKind::Forget => Schedule::Detached,
        _ => Schedule::Replying,
    }
}

} // verus!
