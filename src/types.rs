//! Values carried by requests and replies, held as plain numbers and bytes.
use vstd::prelude::*;

verus! {

/// A point in time: whole seconds since the Unix epoch (negative before it)
/// and the nanoseconds past that second.
#[derive(Clone, Copy, Debug, PartialEq, Eq, Structural)]
pub struct Timestamp {
    pub secs: i64,
    pub nanos: u32,
}

/// A length of time for which the kernel may cache a reply.
#[derive(Clone, Copy, Debug, PartialEq, Eq, Structural)]
pub struct Ttl {
    pub secs: u64,
    pub nanos: u32,
}

/// A time to set: a given one, or the time at which the filesystem applies it.
#[derive(Clone, Copy, Debug, PartialEq, Eq, Structural)]
pub enum TimeOrNow {
    SpecificTime(Timestamp),
    Now,
}

/// The kind of a filesystem object.
#[derive(Clone, Copy, Debug, PartialEq, Eq, Structural)]
pub enum FileType {
    NamedPipe,
    CharDevice,
    BlockDevice,
    Directory,
    RegularFile,
    Symlink,
    Socket,
}

/// The attributes of a filesystem object.
#[derive(Clone, Copy, Debug, PartialEq, Eq, Structural)]
pub struct FileAttr {
    pub ino: u64,
    pub size: u64,
    pub blocks: u64,
    pub atime: Timestamp,
    pub mtime: Timestamp,
    pub ctime: Timestamp,
    pub crtime: Timestamp,
    pub kind: FileType,
    pub perm: u16,
    pub nlink: u32,
    pub uid: u32,
    pub gid: u32,
    pub rdev: u32,
    pub blksize: u32,
    pub flags: u32,
}

/// Attributes with the time for which the kernel may cache them.
#[derive(Clone, Copy, Debug, PartialEq, Eq, Structural)]
pub struct Attr {
    pub ttl: Ttl,
    pub attr: FileAttr,
}

/// A directory entry as a lookup or a creation returns it.
#[derive(Clone, Copy, Debug, PartialEq, Eq, Structural)]
pub struct Entry {
    pub ttl: Ttl,
    pub attr: FileAttr,
    pub generation: u64,
}

/// An open file or directory: the handle the filesystem chose and the open
/// flags it sets (direct I/O, keep cache).
#[derive(Clone, Copy, Debug, PartialEq, Eq, Structural)]
pub struct Open {
    pub fh: u64,
    pub flags: u32,
}

impl Open {
    pub fn new(fh: u64, flags: u32) -> (r: Open)
        ensures
            r == (Open { fh, flags }),
    {
        Open { fh, flags }
    }
}

/// Filesystem statistics.
#[derive(Clone, Copy, Debug, PartialEq, Eq, Structural)]
pub struct Statfs {
    pub blocks: u64,
    pub bfree: u64,
    pub bavail: u64,
    pub files: u64,
    pub ffree: u64,
    pub bsize: u32,
    pub namelen: u32,
    pub frsize: u32,
}

/// A POSIX lock, as a lock test reports it.
#[derive(Clone, Copy, Debug, PartialEq, Eq, Structural)]
pub struct Lock {
    pub start: u64,
    pub end: u64,
    pub typ: i32,
    pub pid: u32,
}

/// One entry of a directory listing. `offset` is the position from which a
/// later listing resumes after this entry.
#[derive(Clone, Debug, PartialEq, Eq)]
pub struct DirEntry {
    pub ino: u64,
    pub offset: i64,
    pub kind: FileType,
    pub name: Vec<u8>,
}

/// One entry of a directory listing together with its attributes.
#[derive(Clone, Debug, PartialEq, Eq)]
pub struct DirEntryPlus {
    pub offset: i64,
    pub name: Vec<u8>,
    pub entry: Entry,
}

/// The result of an ioctl: its return value and its output bytes.
#[derive(Clone, Debug, PartialEq, Eq)]
pub struct IoctlOut {
    pub result: i32,
    pub data: Vec<u8>,
}

/// The attribute changes of a `setattr` request; only present fields change.
#[derive(Clone, Copy, Debug, PartialEq, Eq, Structural)]
pub struct SetAttrChanges {
    pub mode: Option<u32>,
    pub uid: Option<u32>,
    pub gid: Option<u32>,
    pub size: Option<u64>,
    pub atime: Option<TimeOrNow>,
    pub mtime: Option<TimeOrNow>,
    pub ctime: Option<Timestamp>,
    pub fh: Option<u64>,
    pub crtime: Option<Timestamp>,
    pub chgtime: Option<Timestamp>,
    pub bkuptime: Option<Timestamp>,
    pub flags: Option<u32>,
}

/// The time a `TimeOrNow` stands for, given the time now.
pub open spec fn time_of(t: TimeOrNow, now: Timestamp) -> Timestamp {
    match t {
        TimeOrNow::SpecificTime(s) => s,
        TimeOrNow::Now => now,
    }
}

/// The value `change` sets, or `current` where it is absent.
pub open spec fn changed<T>(change: Option<T>, current: T) -> T {
    match change {
        Some(v) => v,
        None => current,
    }
}

/// The permission bits of a mode.
pub open spec fn perm_of(mode: u32) -> u16 {
    (mode & 0o7777) as u16
}

impl SetAttrChanges {
    /// The attributes `attr` after these changes, `now` being the time at
    /// which they apply. Only the fields that are present change; a new mode
    /// sets the permission bits, and the type of the object stays.
    pub fn apply_to(&self, attr: FileAttr, now: Timestamp) -> (r: FileAttr)
        ensures
            r.perm == (if self.mode is Some { perm_of(self.mode->Some_0) } else { attr.perm }),
            r.uid == changed(self.uid, attr.uid),
            r.gid == changed(self.gid, attr.gid),
            r.size == changed(self.size, attr.size),
            r.atime == (if self.atime is Some { time_of(self.atime->Some_0, now) } else { attr.atime }),
            r.mtime == (if self.mtime is Some { time_of(self.mtime->Some_0, now) } else { attr.mtime }),
            r.ctime == changed(self.ctime, attr.ctime),
            r.crtime == changed(self.crtime, attr.crtime),
            r.flags == changed(self.flags, attr.flags),
            r.ino == attr.ino,
            r.blocks == attr.blocks,
            r.kind == attr.kind,
            r.nlink == attr.nlink,
            r.rdev == attr.rdev,
            r.blksize == attr.blksize,
    {
        let mut r = attr;
        if let Some(mode) = self.mode {
            r.perm = (mode & 0o7777) as u16;
        }
        if let Some(uid) = self.uid {
            r.uid = uid;
        }
        if let Some(gid) = self.gid {
            r.gid = gid;
        }
        if let Some(size) = self.size {
            r.size = size;
        }
        if let Some(t) = self.atime {
            r.atime = match t {
                TimeOrNow::SpecificTime(s) => s,
                TimeOrNow::Now => now,
            };
        }
        if let Some(t) = self.mtime {
            r.mtime = match t {
                TimeOrNow::SpecificTime(s) => s,
                TimeOrNow::Now => now,
            };
        }
        if let Some(t) = self.ctime {
            r.ctime = t;
        }
        if let Some(t) = self.crtime {
            r.crtime = t;
        }
        if let Some(f) = self.flags {
            r.flags = f;
        }
        r
    }
}

} // verus!
