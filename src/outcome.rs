//! What an operation returns, and what it returns when a filesystem does not
//! provide it.
use vstd::prelude::*;
use crate::error::FsError;
use crate::request::OpKind;
use crate::types::{Attr, DirEntry, DirEntryPlus, Entry, IoctlOut, Lock, Open, Statfs, Timestamp};

verus! {

/// The result of one operation, in the shape its kind of request returns.
#[derive(Debug, PartialEq, Eq)]
pub enum Outcome {
    /// `destroy` and `forget`, which return nothing.
    Nothing,
    /// Operations that only succeed or fail, `init` among them.
    Done(Result<(), FsError>),
    /// `lookup`, `mknod`, `mkdir`, `symlink`, `link`.
    Entry(Result<Entry, FsError>),
    /// `getattr`, `setattr`.
    Attr(Result<Attr, FsError>),
    /// `readlink` (the target) and `read` (the bytes read).
    Data(Result<Vec<u8>, FsError>),
    /// `write` and `copy_file_range`: the number of bytes written.
    Written(Result<u32, FsError>),
    /// `open`, `opendir`.
    Opened(Result<Open, FsError>),
    /// `readdir`: the entries from the requested offset on.
    Directory(Result<Vec<DirEntry>, FsError>),
    /// `readdirplus`.
    DirectoryPlus(Result<Vec<DirEntryPlus>, FsError>),
    Statfs(Result<Statfs, FsError>),
    /// `getxattr` (the whole value) and `listxattr` (the whole name list).
    Xattr(Result<Vec<u8>, FsError>),
    /// `create`: the new entry and the open handle.
    Created(Result<(Entry, Open), FsError>),
    /// `getlk`: the conflicting lock, if any, as the lock test reports it.
    Lock(Result<Lock, FsError>),
    /// `bmap`: the block index within the device.
    Block(Result<u64, FsError>),
    Ioctl(Result<IoctlOut, FsError>),
    /// `lseek`: the new offset.
    Offset(Result<i64, FsError>),
    /// `getxtimes`: the backup time and the creation time.
    XTimes(Result<(Timestamp, Timestamp), FsError>),
}

/// Whether outcome `o` has the shape that operations of kind `k` return.
pub open spec fn fits(k: OpKind, o: Outcome) -> bool {
    match k {
        OpKind::Destroy | OpKind::Forget => o is Nothing,
        OpKind::Init | OpKind::Unlink | OpKind::RmDir | OpKind::Rename | OpKind::Flush
        | OpKind::Release | OpKind::Fsync | OpKind::ReleaseDir | OpKind::FsyncDir
        | OpKind::SetXattr | OpKind::RemoveXattr | OpKind::Access | OpKind::SetLk
        | OpKind::Fallocate | OpKind::SetVolName | OpKind::Exchange => o is Done,
        OpKind::Lookup | OpKind::MkNod | OpKind::MkDir | OpKind::SymLink
        | OpKind::Link => o is Entry,
        OpKind::GetAttr | OpKind::SetAttr => o is Attr,
        OpKind::ReadLink | OpKind::Read => o is Data,
        OpKind::Write | OpKind::CopyFileRange => o is Written,
        OpKind::Open | OpKind::OpenDir => o is Opened,
        OpKind::ReadDir => o is Directory,
        OpKind::ReadDirPlus => o is DirectoryPlus,
        OpKind::Statfs => o is Statfs,
        OpKind::GetXattr | OpKind::ListXattr => o is Xattr,
        OpKind::Create => o is Created,
        OpKind::GetLk => o is Lock,
        OpKind::Bmap => o is Block,
        OpKind::Ioctl => o is Ioctl,
        OpKind::Lseek => o is Offset,
        OpKind::GetXTimes => o is XTimes,
    }
}

/// The failure an outcome carries, if it is one.
pub open spec fn failure_of(o: Outcome) -> Option<FsError> {
    match o {
        Outcome::Nothing => None,
        Outcome::Done(r) => if r is Err { Some(r->Err_0) } else { None },
        Outcome::Entry(r) => if r is Err { Some(r->Err_0) } else { None },
        Outcome::Attr(r) => if r is Err { Some(r->Err_0) } else { None },
        Outcome::Data(r) => if r is Err { Some(r->Err_0) } else { None },
        Outcome::Written(r) => if r is Err { Some(r->Err_0) } else { None },
        Outcome::Opened(r) => if r is Err { Some(r->Err_0) } else { None },
        Outcome::Directory(r) => if r is Err { Some(r->Err_0) } else { None },
        Outcome::DirectoryPlus(r) => if r is Err { Some(r->Err_0) } else { None },
        Outcome::Statfs(r) => if r is Err { Some(r->Err_0) } else { None },
        Outcome::Xattr(r) => if r is Err { Some(r->Err_0) } else { None },
        Outcome::Created(r) => if r is Err { Some(r->Err_0) } else { None },
        Outcome::Lock(r) => if r is Err { Some(r->Err_0) } else { None },
        Outcome::Block(r) => if r is Err { Some(r->Err_0) } else { None },
        Outcome::Ioctl(r) => if r is Err { Some(r->Err_0) } else { None },
        Outcome::Offset(r) => if r is Err { Some(r->Err_0) } else { None },
        Outcome::XTimes(r) => if r is Err { Some(r->Err_0) } else { None },
    }
}

/// The operations that succeed when a filesystem does not provide them:
/// `init`, opening a file or a directory, and releasing one.
pub open spec fn defaults_to_success(k: OpKind) -> bool {
    k == OpKind::Init || k == OpKind::Open || k == OpKind::OpenDir || k == OpKind::Release
        || k == OpKind::ReleaseDir
}

/// The "not implemented" failure in the shape that operations of kind `k`
/// return.
pub open spec fn unimplemented_of(k: OpKind) -> Outcome {
    let e = FsError::NotImplemented;
    match k {
        OpKind::Destroy | OpKind::Forget => Outcome::Nothing,
        OpKind::Init | OpKind::Unlink | OpKind::RmDir | OpKind::Rename | OpKind::Flush
        | OpKind::Release | OpKind::Fsync | OpKind::ReleaseDir | OpKind::FsyncDir
        | OpKind::SetXattr | OpKind::RemoveXattr | OpKind::Access | OpKind::SetLk
        | OpKind::Fallocate | OpKind::SetVolName | OpKind::Exchange => Outcome::Done(Err(e)),
        OpKind::Lookup | OpKind::MkNod | OpKind::MkDir | OpKind::SymLink
        | OpKind::Link => Outcome::Entry(Err(e)),
        OpKind::GetAttr | OpKind::SetAttr => Outcome::Attr(Err(e)),
        OpKind::ReadLink | OpKind::Read => Outcome::Data(Err(e)),
        OpKind::Write | OpKind::CopyFileRange => Outcome::Written(Err(e)),
        OpKind::Open | OpKind::OpenDir => Outcome::Opened(Err(e)),
        OpKind::ReadDir => Outcome::Directory(Err(e)),
        OpKind::ReadDirPlus => Outcome::DirectoryPlus(Err(e)),
        OpKind::Statfs => Outcome::Statfs(Err(e)),
        OpKind::GetXattr | OpKind::ListXattr => Outcome::Xattr(Err(e)),
        OpKind::Create => Outcome::Created(Err(e)),
        OpKind::GetLk => Outcome::Lock(Err(e)),
        OpKind::Bmap => Outcome::Block(Err(e)),
        OpKind::Ioctl => Outcome::Ioctl(Err(e)),
        OpKind::Lseek => Outcome::Offset(Err(e)),
        OpKind::GetXTimes => Outcome::XTimes(Err(e)),
    }
}

/// What an operation of kind `k` returns when the filesystem does not
/// provide it.
pub open spec fn default_of(k: OpKind) -> Outcome {
    if k == OpKind::Destroy || k == OpKind::Forget {
        Outcome::Nothing
    } else if k == OpKind::Open || k == OpKind::OpenDir {
        Outcome::Opened(Ok(Open { fh: 0, flags: 0 }))
    } else if defaults_to_success(k) {
        Outcome::Done(Ok(()))
    } else {
        unimplemented_of(k)
    }
}

/// What an operation of kind `k` returns when the filesystem does not
/// provide it: a handle of 0 with no flags for `open` and `opendir`, success
/// for `init`, `release` and `releasedir`, nothing for `destroy` and
/// `forget`, and "not implemented" for every other operation.
pub fn default_outcome(k: OpKind) -> (r: Outcome)
    ensures
        r == default_of(k),
        fits(k, r),
        k == OpKind::Open || k == OpKind::OpenDir ==> r == Outcome::Opened(
            Ok::<Open, FsError>(Open { fh: 0, flags: 0 }),
        ),
        k == OpKind::Init || k == OpKind::Release || k == OpKind::ReleaseDir ==> r
            == Outcome::Done(Ok::<(), FsError>(())),
        k == OpKind::Destroy || k == OpKind::Forget ==> r == Outcome::Nothing,
        !defaults_to_success(k) && k != OpKind::Destroy && k != OpKind::Forget ==> failure_of(r)
            == Some(FsError::NotImplemented),
{
    let e = FsError::unimplemented();
    match k {
        OpKind::Destroy | OpKind::Forget => Outcome::Nothing,
        OpKind::Init | OpKind::Release | OpKind::ReleaseDir => Outcome::Done(Ok(())),
        OpKind::Open | OpKind::OpenDir => Outcome::Opened(Ok(Open::new(0, 0))),
        OpKind::Unlink | OpKind::RmDir | OpKind::Rename | OpKind::Flush | OpKind::Fsync
        | OpKind::FsyncDir | OpKind::SetXattr | OpKind::RemoveXattr | OpKind::Access
        | OpKind::SetLk | OpKind::Fallocate | OpKind::SetVolName
        | OpKind::Exchange => Outcome::Done(Err(e)),
        OpKind::Lookup | OpKind::MkNod | OpKind::MkDir | OpKind::SymLink
        | OpKind::Link => Outcome::Entry(Err(e)),
        OpKind::GetAttr | OpKind::SetAttr => Outcome::Attr(Err(e)),
        OpKind::ReadLink | OpKind::Read => Outcome::Data(Err(e)),
        OpKind::Write | OpKind::CopyFileRange => Outcome::Written(Err(e)),
        OpKind::ReadDir => Outcome::Directory(Err(e)),
        OpKind::ReadDirPlus => Outcome::DirectoryPlus(Err(e)),
        OpKind::Statfs => Outcome::Statfs(Err(e)),
        OpKind::GetXattr | OpKind::ListXattr => Outcome::Xattr(Err(e)),
        OpKind::Create => Outcome::Created(Err(e)),
        OpKind::GetLk => Outcome::Lock(Err(e)),
        OpKind::Bmap => Outcome::Block(Err(e)),
        OpKind::Ioctl => Outcome::Ioctl(Err(e)),
        OpKind::Lseek => Outcome::Offset(Err(e)),
        OpKind::GetXTimes => Outcome::XTimes(Err(e)),
    }
}

} // verus!
