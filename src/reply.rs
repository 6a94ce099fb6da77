//! The single reply that answers a request, built from the outcome of its
//! operation.
use vstd::prelude::*;
use crate::error::{errno_of, FsError, E2BIG, EIO, ENOSYS, ERANGE};
use crate::outcome::{default_of, failure_of, fits, Outcome};
use crate::request::{expects_reply, is_lifecycle, schedule_of, OpKind, Request, Schedule};
use crate::types::{Attr, DirEntry, DirEntryPlus, Entry, IoctlOut, Lock, Open, Statfs, Timestamp};

verus! {

/// One call on a request's reply sink.
#[derive(Clone, Debug, PartialEq, Eq)]
pub enum Reply {
    /// Success with nothing to return.
    Empty,
    Entry(Entry),
    Attr(Attr),
    Data(Vec<u8>),
    Written(u32),
    Opened(Open),
    Directory(Vec<DirEntry>),
    DirectoryPlus(Vec<DirEntryPlus>),
    Statfs(Statfs),
    /// The size an extended attribute value or name list needs.
    XattrSize(u32),
    /// An extended attribute value or name list.
    XattrData(Vec<u8>),
    Created(Entry, Open),
    Lock(Lock),
    Bmap(u64),
    Ioctl(IoctlOut),
    Lseek(i64),
    /// The backup time and the creation time.
    XTimes(Timestamp, Timestamp),
    /// Failure, with its OS error code.
    Error(i32),
}

/// The reply to a `getxattr` or `listxattr` that asked for `size` bytes of a
/// value that is `value`: its size when `size` is 0, "out of range" when it
/// does not fit in `size` bytes, else the value itself.
pub open spec fn xattr_reply_of(size: u32, value: Vec<u8>) -> Reply {
    if size == 0 {
        if value@.len() <= u32::MAX {
            Reply::XattrSize(value@.len() as u32)
        } else {
            Reply::Error(E2BIG)
        }
    } else if value@.len() <= size {
        Reply::XattrData(value)
    } else {
        Reply::Error(ERANGE)
    }
}

/// The buffer size an extended attribute request asked for.
pub open spec fn requested_size(req: Request) -> u32 {
    match req {
        Request::GetXattr { size, .. } => size,
        Request::ListXattr { size, .. } => size,
        _ => 0,
    }
}

/// The reply to a request whose operation succeeded with outcome `o`.
pub open spec fn success_reply(req: Request, o: Outcome) -> Reply {
    match o {
        Outcome::Done(_) => Reply::Empty,
        Outcome::Entry(r) => Reply::Entry(r->Ok_0),
        Outcome::Attr(r) => Reply::Attr(r->Ok_0),
        Outcome::Data(r) => Reply::Data(r->Ok_0),
        Outcome::Written(r) => Reply::Written(r->Ok_0),
        Outcome::Opened(r) => Reply::Opened(r->Ok_0),
        Outcome::Directory(r) => Reply::Directory(r->Ok_0),
        Outcome::DirectoryPlus(r) => Reply::DirectoryPlus(r->Ok_0),
        Outcome::Statfs(r) => Reply::Statfs(r->Ok_0),
        Outcome::Xattr(r) => xattr_reply_of(requested_size(req), r->Ok_0),
        Outcome::Created(r) => Reply::Created(r->Ok_0.0, r->Ok_0.1),
        Outcome::Lock(r) => Reply::Lock(r->Ok_0),
        Outcome::Block(r) => Reply::Bmap(r->Ok_0),
        Outcome::Ioctl(r) => Reply::Ioctl(r->Ok_0),
        Outcome::Offset(r) => Reply::Lseek(r->Ok_0),
        Outcome::XTimes(r) => Reply::XTimes(r->Ok_0.0, r->Ok_0.1),
        Outcome::Nothing => Reply::Empty,
    }
}

/// The replies a request gets when its operation ends with outcome `o`: none
/// for the lifecycle calls and `forget`; else exactly one, which reports the
/// failure's error code when the operation failed, and "I/O error" when the
/// outcome does not have the shape of the request's operation.
pub open spec fn reply_of(req: Request, o: Outcome) -> Option<Reply> {
    if !expects_reply(req.op_kind()) {
        None
    } else if !fits(req.op_kind(), o) {
        Some(Reply::Error(EIO))
    } else {
        match failure_of(o) {
            Some(e) => Some(Reply::Error(errno_of(e))),
            None => Some(success_reply(req, o)),
        }
    }
}

/// The reply to a `getxattr` or `listxattr` that asked for `size` bytes of an
/// attribute whose whole value (or name list) is `value`.
pub fn xattr_reply(size: u32, value: Vec<u8>) -> (r: Reply)
    ensures
        r == xattr_reply_of(size, value),
        size == 0 && value@.len() <= u32::MAX ==> r == Reply::XattrSize(value@.len() as u32),
        size != 0 && value@.len() > size ==> r == Reply::Error(ERANGE),
        size != 0 && value@.len() <= size ==> r == Reply::XattrData(value),
{
    let len = value.len();
    if size == 0 {
        if len <= u32::MAX as usize {
            Reply::XattrSize(len as u32)
        } else {
            Reply::Error(E2BIG)
        }
    } else if len <= size as usize {
        Reply::XattrData(value)
    } else {
        Reply::Error(ERANGE)
    }
}

/// Whether outcome `o` has the shape that operations of kind `k` return.
pub fn outcome_fits(k: OpKind, o: &Outcome) -> (r: bool)
    ensures
        r == fits(k, *o),
{
    match k {
        OpKind::Destroy | OpKind::Forget => matches!(o, Outcome::Nothing),
        OpKind::Init | OpKind::Unlink | OpKind::RmDir | OpKind::Rename | OpKind::Flush
        | OpKind::Release | OpKind::Fsync | OpKind::ReleaseDir | OpKind::FsyncDir
        | OpKind::SetXattr | OpKind::RemoveXattr | OpKind::Access | OpKind::SetLk
        | OpKind::Fallocate | OpKind::SetVolName | OpKind::Exchange => matches!(o, Outcome::Done(_)),
        OpKind::Lookup | OpKind::MkNod | OpKind::MkDir | OpKind::SymLink
        | OpKind::Link => matches!(o, Outcome::Entry(_)),
        OpKind::GetAttr | OpKind::SetAttr => matches!(o, Outcome::Attr(_)),
        OpKind::ReadLink | OpKind::Read => matches!(o, Outcome::Data(_)),
        OpKind::Write | OpKind::CopyFileRange => matches!(o, Outcome::Written(_)),
        OpKind::Open | OpKind::OpenDir => matches!(o, Outcome::Opened(_)),
        OpKind::ReadDir => matches!(o, Outcome::Directory(_)),
        OpKind::ReadDirPlus => matches!(o, Outcome::DirectoryPlus(_)),
        OpKind::Statfs => matches!(o, Outcome::Statfs(_)),
        OpKind::GetXattr | OpKind::ListXattr => matches!(o, Outcome::Xattr(_)),
        OpKind::Create => matches!(o, Outcome::Created(_)),
        OpKind::GetLk => matches!(o, Outcome::Lock(_)),
        OpKind::Bmap => matches!(o, Outcome::Block(_)),
        OpKind::Ioctl => matches!(o, Outcome::Ioctl(_)),
        OpKind::Lseek => matches!(o, Outcome::Offset(_)),
        OpKind::GetXTimes => matches!(o, Outcome::XTimes(_)),
    }
}

fn error_reply(e: FsError) -> (r: Reply)
    ensures
        r == Reply::Error(errno_of(e)),
{
    Reply::Error(e.errno())
}

/// The reply that answers `req` once its operation has ended with `outcome`,
/// or `None` where the protocol expects no reply.
pub fn reply_for(req: &Request, outcome: Outcome) -> (r: Option<Reply>)
    ensures
        r == reply_of(*req, outcome),
{
    let k = req.kind();
    if matches!(k, OpKind::Init | OpKind::Destroy | OpKind::Forget) {
        return None;
    }
    if !outcome_fits(k, &outcome) {
        return Some(Reply::Error(EIO));
    }
    let reply = match outcome {
        Outcome::Nothing => Reply::Empty,
        Outcome::Done(r) => match r {
            Ok(()) => Reply::Empty,
            Err(e) => error_reply(e),
        },
        Outcome::Entry(r) => match r {
            Ok(v) => Reply::Entry(v),
            Err(e) => error_reply(e),
        },
        Outcome::Attr(r) => match r {
            Ok(v) => Reply::Attr(v),
            Err(e) => error_reply(e),
        },
        Outcome::Data(r) => match r {
            Ok(v) => Reply::Data(v),
            Err(e) => error_reply(e),
        },
        Outcome::Written(r) => match r {
            Ok(v) => Reply::Written(v),
            Err(e) => error_reply(e),
        },
        Outcome::Opened(r) => match r {
            Ok(v) => Reply::Opened(v),
            Err(e) => error_reply(e),
        },
        Outcome::Directory(r) => match r {
            Ok(v) => Reply::Directory(v),
            Err(e) => error_reply(e),
        },
        Outcome::DirectoryPlus(r) => match r {
            Ok(v) => Reply::DirectoryPlus(v),
            Err(e) => error_reply(e),
        },
        Outcome::Statfs(r) => match r {
            Ok(v) => Reply::Statfs(v),
            Err(e) => error_reply(e),
        },
        Outcome::Xattr(r) => match r {
            Ok(v) => {
                let size = match req {
                    Request::GetXattr { size, .. } => *size,
                    Request::ListXattr { size, .. } => *size,
                    _ => 0,
                };
                xattr_reply(size, v)
            },
            Err(e) => error_reply(e),
        },
        Outcome::Created(r) => match r {
            Ok((entry, open)) => Reply::Created(entry, open),
            Err(e) => error_reply(e),
        },
        Outcome::Lock(r) => match r {
            Ok(v) => Reply::Lock(v),
            Err(e) => error_reply(e),
        },
        Outcome::Block(r) => match r {
            Ok(v) => Reply::Bmap(v),
            Err(e) => error_reply(e),
        },
        Outcome::Ioctl(r) => match r {
            Ok(v) => Reply::Ioctl(v),
            Err(e) => error_reply(e),
        },
        Outcome::Offset(r) => match r {
            Ok(v) => Reply::Lseek(v),
            Err(e) => error_reply(e),
        },
        Outcome::XTimes(r) => match r {
            Ok((bkuptime, crtime)) => Reply::XTimes(bkuptime, crtime),
            Err(e) => error_reply(e),
        },
    };
    Some(reply)
}

} // verus!

verus! {

/// An operation that a filesystem does not provide answers its request with
/// the "not implemented" error code, except `open` and `opendir`, which grant
/// handle 0 with no flags, and `release` and `releasedir`, which succeed.
pub proof fn lemma_default_replies(req: Request)
    requires
        expects_reply(req.op_kind()),
    ensures
        reply_of(req, default_of(req.op_kind())) == Some(
            if req.op_kind() == OpKind::Open || req.op_kind() == OpKind::OpenDir {
                Reply::Opened(Open { fh: 0, flags: 0 })
            } else if req.op_kind() == OpKind::Release || req.op_kind() == OpKind::ReleaseDir {
                Reply::Empty
            } else {
                Reply::Error(ENOSYS)
            },
        ),
{
}

/// Every request that reaches a filesystem operation gets exactly one reply,
/// whether the operation succeeded or failed, except `forget`, which gets
/// none; a failure reaches the kernel as its error code.
pub proof fn lemma_one_reply_per_request(req: Request, o: Outcome)
    requires
        !is_lifecycle(req.op_kind()),
    ensures
        reply_of(req, o) is Some <==> req.op_kind() != OpKind::Forget,
        reply_of(req, o) is Some <==> schedule_of(req.op_kind()) == Schedule::Replying,
        req.op_kind() != OpKind::Forget && fits(req.op_kind(), o) && failure_of(o) is Some
            ==> reply_of(req, o) == Some(Reply::Error(errno_of(failure_of(o)->Some_0))),
{
}

/// Extended attributes: asked for 0 bytes, the reply gives the size the value
/// needs and no data; asked for fewer bytes than the value holds, the reply is
/// "out of range"; asked for enough, the reply is the whole value unchanged.
pub proof fn lemma_xattr_replies(req: Request, value: Vec<u8>)
    requires
        req.op_kind() == OpKind::GetXattr || req.op_kind() == OpKind::ListXattr,
    ensures
        requested_size(req) == 0 && value@.len() <= u32::MAX ==> reply_of(
            req,
            Outcome::Xattr(Ok(value)),
        ) == Some(Reply::XattrSize(value@.len() as u32)),
        requested_size(req) != 0 && value@.len() > requested_size(req) ==> reply_of(
            req,
            Outcome::Xattr(Ok(value)),
        ) == Some(Reply::Error(ERANGE)),
        requested_size(req) != 0 && value@.len() <= requested_size(req) ==> reply_of(
            req,
            Outcome::Xattr(Ok(value)),
        ) == Some(Reply::XattrData(value)),
{
}

} // verus!
