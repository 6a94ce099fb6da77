use async_fuse_bridge::error::{
    init_result, FsError, E2BIG, EACCES, EINVAL, EIO, ENOENT, ENOSYS, EOPNOTSUPP, ERANGE,
};
use async_fuse_bridge::outcome::{default_outcome, Outcome};
use async_fuse_bridge::reply::{reply_for, xattr_reply, Reply};
use async_fuse_bridge::request::{schedule, OpKind, Request, Schedule};
use async_fuse_bridge::types::{
    Attr, DirEntry, Entry, FileAttr, FileType, Open, SetAttrChanges, TimeOrNow, Timestamp, Ttl,
};

fn sample_attr(ino: u64) -> FileAttr {
    let t = Timestamp { secs: 1_600_000_000, nanos: 5 };
    FileAttr {
        ino,
        size: 42,
        blocks: 1,
        atime: t,
        mtime: t,
        ctime: t,
        crtime: t,
        kind: FileType::RegularFile,
        perm: 0o644,
        nlink: 1,
        uid: 1000,
        gid: 1000,
        rdev: 0,
        blksize: 4096,
        flags: 0,
    }
}

fn sample_entry(ino: u64) -> Entry {
    Entry { ttl: Ttl { secs: 1, nanos: 0 }, attr: sample_attr(ino), generation: 7 }
}

fn no_changes() -> SetAttrChanges {
    SetAttrChanges {
        mode: None,
        uid: None,
        gid: None,
        size: None,
        atime: None,
        mtime: None,
        ctime: None,
        fh: None,
        crtime: None,
        chgtime: None,
        bkuptime: None,
        flags: None,
    }
}

/// One request of every kind.
fn every_request() -> Vec<Request> {
    let n = || b"a".to_vec();
    vec![
        Request::Init,
        Request::Destroy,
        Request::Lookup { parent: 1, name: n() },
        Request::Forget { ino: 2, nlookup: 3 },
        Request::GetAttr { ino: 2 },
        Request::SetAttr { ino: 2, changes: no_changes() },
        Request::ReadLink { ino: 2 },
        Request::MkNod { parent: 1, name: n(), mode: 0o644, umask: 0o22, rdev: 0 },
        Request::MkDir { parent: 1, name: n(), mode: 0o755, umask: 0o22 },
        Request::Unlink { parent: 1, name: n() },
        Request::RmDir { parent: 1, name: n() },
        Request::SymLink { parent: 1, name: n(), link: b"/tmp/x".to_vec() },
        Request::Rename { parent: 1, name: n(), newparent: 3, newname: b"b".to_vec(), flags: 0 },
        Request::Link { ino: 2, newparent: 1, newname: b"b".to_vec() },
        Request::Open { ino: 5, flags: 0 },
        Request::Read { ino: 5, fh: 0, offset: 0, size: 10, flags: 0, lock_owner: None },
        Request::Write {
            ino: 5,
            fh: 0,
            offset: 0,
            data: vec![1, 2, 3],
            write_flags: 0,
            flags: 0,
            lock_owner: Some(9),
        },
        Request::Flush { ino: 5, fh: 0, lock_owner: 9 },
        Request::Release { ino: 5, fh: 0, flags: 0, lock_owner: None, flush: false },
        Request::Fsync { ino: 5, fh: 0, datasync: true },
        Request::OpenDir { ino: 1, flags: 0 },
        Request::ReadDir { ino: 1, fh: 0, offset: 0 },
        Request::ReadDirPlus { ino: 1, fh: 0, offset: 0 },
        Request::ReleaseDir { ino: 1, fh: 0, flags: 0 },
        Request::FsyncDir { ino: 1, fh: 0, datasync: false },
        Request::Statfs { ino: 1 },
        Request::SetXattr { ino: 2, name: n(), value: vec![1], flags: 0, position: 0 },
        Request::GetXattr { ino: 2, name: n(), size: 0 },
        Request::ListXattr { ino: 2, size: 0 },
        Request::RemoveXattr { ino: 2, name: n() },
        Request::Access { ino: 2, mask: 4 },
        Request::Create { parent: 1, name: n(), mode: 0o644, umask: 0o22, flags: 0 },
        Request::GetLk { ino: 2, fh: 0, lock_owner: 9, start: 0, end: 10, typ: 1, pid: 77 },
        Request::SetLk {
            ino: 2,
            fh: 0,
            lock_owner: 9,
            start: 0,
            end: 10,
            typ: 1,
            pid: 77,
            sleep: true,
        },
        Request::Bmap { ino: 2, blocksize: 512, idx: 3 },
        Request::Ioctl { ino: 2, fh: 0, flags: 0, cmd: 1, in_data: vec![], out_size: 0 },
        Request::Fallocate { ino: 2, fh: 0, offset: 0, length: 100, mode: 0 },
        Request::Lseek { ino: 2, fh: 0, offset: 0, whence: 3 },
        Request::CopyFileRange {
            ino_in: 2,
            fh_in: 0,
            offset_in: 0,
            ino_out: 3,
            fh_out: 0,
            offset_out: 0,
            len: 10,
            flags: 0,
        },
        Request::SetVolName { name: n() },
        Request::Exchange { parent: 1, name: n(), newparent: 1, newname: b"b".to_vec(), options: 0 },
        Request::GetXTimes { ino: 2 },
    ]
}

#[test]
fn lookup_without_override_is_not_implemented() {
    let req = Request::Lookup { parent: 1, name: b"a".to_vec() };
    let outcome = default_outcome(req.kind());
    assert_eq!(outcome, Outcome::Entry(Err(FsError::NotImplemented)));
    assert_eq!(reply_for(&req, outcome), Some(Reply::Error(ENOSYS)));
    assert_eq!(ENOSYS, nix::libc::ENOSYS);
}

#[test]
fn open_without_override_grants_handle_zero_and_release_succeeds() {
    let open = Request::Open { ino: 5, flags: 0 };
    let reply = reply_for(&open, default_outcome(open.kind()));
    assert_eq!(reply, Some(Reply::Opened(Open { fh: 0, flags: 0 })));
    let release = Request::Release { ino: 5, fh: 0, flags: 0, lock_owner: None, flush: false };
    assert_eq!(reply_for(&release, default_outcome(release.kind())), Some(Reply::Empty));
}

#[test]
fn every_operation_without_override_gives_its_default() {
    for req in every_request() {
        let kind = req.kind();
        let reply = reply_for(&req, default_outcome(kind));
        let expected = match kind {
            OpKind::Init | OpKind::Destroy | OpKind::Forget => None,
            OpKind::Open | OpKind::OpenDir => Some(Reply::Opened(Open::new(0, 0))),
            OpKind::Release | OpKind::ReleaseDir => Some(Reply::Empty),
            _ => Some(Reply::Error(ENOSYS)),
        };
        assert_eq!(reply, expected, "{:?}", kind);
    }
}

#[test]
fn defaults_of_lifecycle_calls() {
    assert_eq!(default_outcome(OpKind::Init), Outcome::Done(Ok(())));
    assert_eq!(default_outcome(OpKind::Destroy), Outcome::Nothing);
    assert_eq!(default_outcome(OpKind::Forget), Outcome::Nothing);
    assert_eq!(default_outcome(OpKind::Statfs), Outcome::Statfs(Err(FsError::NotImplemented)));
}

#[test]
fn every_request_gets_one_reply_even_on_failure_and_forget_none() {
    for req in every_request() {
        let kind = req.kind();
        let failed = match default_outcome(kind) {
            Outcome::Nothing => Outcome::Nothing,
            Outcome::Done(_) => Outcome::Done(Err(FsError::Io)),
            Outcome::Entry(_) => Outcome::Entry(Err(FsError::Io)),
            Outcome::Attr(_) => Outcome::Attr(Err(FsError::Io)),
            Outcome::Data(_) => Outcome::Data(Err(FsError::Io)),
            Outcome::Written(_) => Outcome::Written(Err(FsError::Io)),
            Outcome::Opened(_) => Outcome::Opened(Err(FsError::Io)),
            Outcome::Directory(_) => Outcome::Directory(Err(FsError::Io)),
            Outcome::DirectoryPlus(_) => Outcome::DirectoryPlus(Err(FsError::Io)),
            Outcome::Statfs(_) => Outcome::Statfs(Err(FsError::Io)),
            Outcome::Xattr(_) => Outcome::Xattr(Err(FsError::Io)),
            Outcome::Created(_) => Outcome::Created(Err(FsError::Io)),
            Outcome::Lock(_) => Outcome::Lock(Err(FsError::Io)),
            Outcome::Block(_) => Outcome::Block(Err(FsError::Io)),
            Outcome::Ioctl(_) => Outcome::Ioctl(Err(FsError::Io)),
            Outcome::Offset(_) => Outcome::Offset(Err(FsError::Io)),
            Outcome::XTimes(_) => Outcome::XTimes(Err(FsError::Io)),
        };
        let reply = reply_for(&req, failed);
        match kind {
            OpKind::Init | OpKind::Destroy | OpKind::Forget => assert_eq!(reply, None),
            _ => assert_eq!(reply, Some(Reply::Error(EIO)), "{:?}", kind),
        }
    }
}

#[test]
fn outcome_of_the_wrong_shape_is_an_io_error() {
    let req = Request::GetAttr { ino: 2 };
    assert_eq!(reply_for(&req, Outcome::Done(Ok(()))), Some(Reply::Error(EIO)));
    let forget = Request::Forget { ino: 2, nlookup: 1 };
    assert_eq!(reply_for(&forget, Outcome::Done(Ok(()))), None);
}

#[test]
fn successful_outcomes_become_their_replies() {
    let lookup = Request::Lookup { parent: 1, name: b"a".to_vec() };
    assert_eq!(
        reply_for(&lookup, Outcome::Entry(Ok(sample_entry(2)))),
        Some(Reply::Entry(sample_entry(2)))
    );
    let getattr = Request::GetAttr { ino: 2 };
    let attr = Attr { ttl: Ttl { secs: 1, nanos: 0 }, attr: sample_attr(2) };
    assert_eq!(reply_for(&getattr, Outcome::Attr(Ok(attr))), Some(Reply::Attr(attr)));
    let read = Request::Read { ino: 5, fh: 3, offset: 0, size: 4, flags: 0, lock_owner: None };
    assert_eq!(
        reply_for(&read, Outcome::Data(Ok(vec![1, 2, 3, 4]))),
        Some(Reply::Data(vec![1, 2, 3, 4]))
    );
    let write = Request::Write {
        ino: 5,
        fh: 3,
        offset: 0,
        data: vec![9; 6],
        write_flags: 0,
        flags: 0,
        lock_owner: None,
    };
    assert_eq!(reply_for(&write, Outcome::Written(Ok(6))), Some(Reply::Written(6)));
    let create = Request::Create { parent: 1, name: b"f".to_vec(), mode: 0o644, umask: 0, flags: 0 };
    assert_eq!(
        reply_for(&create, Outcome::Created(Ok((sample_entry(9), Open::new(4, 1))))),
        Some(Reply::Created(sample_entry(9), Open { fh: 4, flags: 1 }))
    );
    let readdir = Request::ReadDir { ino: 1, fh: 0, offset: 0 };
    let entries = vec![
        DirEntry { ino: 1, offset: 1, kind: FileType::Directory, name: b".".to_vec() },
        DirEntry { ino: 2, offset: 2, kind: FileType::RegularFile, name: b"a".to_vec() },
    ];
    assert_eq!(
        reply_for(&readdir, Outcome::Directory(Ok(entries.clone()))),
        Some(Reply::Directory(entries))
    );
    let bmap = Request::Bmap { ino: 2, blocksize: 512, idx: 3 };
    assert_eq!(reply_for(&bmap, Outcome::Block(Ok(77))), Some(Reply::Bmap(77)));
    let lseek = Request::Lseek { ino: 2, fh: 0, offset: 0, whence: 3 };
    assert_eq!(reply_for(&lseek, Outcome::Offset(Ok(4096))), Some(Reply::Lseek(4096)));
    let unlink = Request::Unlink { parent: 1, name: b"a".to_vec() };
    assert_eq!(reply_for(&unlink, Outcome::Done(Ok(()))), Some(Reply::Empty));
}

#[test]
fn xattr_size_zero_reports_required_size() {
    assert_eq!(xattr_reply(0, b"hello".to_vec()), Reply::XattrSize(5));
    assert_eq!(xattr_reply(0, Vec::new()), Reply::XattrSize(0));
}

#[test]
fn xattr_small_buffer_is_out_of_range() {
    assert_eq!(xattr_reply(4, b"hello".to_vec()), Reply::Error(ERANGE));
    assert_eq!(xattr_reply(1, b"hello".to_vec()), Reply::Error(ERANGE));
}

#[test]
fn xattr_large_enough_buffer_returns_whole_value() {
    assert_eq!(xattr_reply(5, b"hello".to_vec()), Reply::XattrData(b"hello".to_vec()));
    assert_eq!(xattr_reply(100, b"hello".to_vec()), Reply::XattrData(b"hello".to_vec()));
}

#[test]
fn xattr_requests_go_through_the_size_rule() {
    let get0 = Request::GetXattr { ino: 2, name: b"user.x".to_vec(), size: 0 };
    assert_eq!(reply_for(&get0, Outcome::Xattr(Ok(b"abc".to_vec()))), Some(Reply::XattrSize(3)));
    let get2 = Request::GetXattr { ino: 2, name: b"user.x".to_vec(), size: 2 };
    assert_eq!(reply_for(&get2, Outcome::Xattr(Ok(b"abc".to_vec()))), Some(Reply::Error(ERANGE)));
    let list = Request::ListXattr { ino: 2, size: 64 };
    assert_eq!(
        reply_for(&list, Outcome::Xattr(Ok(b"user.x\0".to_vec()))),
        Some(Reply::XattrData(b"user.x\0".to_vec()))
    );
    assert_eq!(
        reply_for(&list, Outcome::Xattr(Err(FsError::NotFound))),
        Some(Reply::Error(ENOENT))
    );
}

#[test]
fn error_codes_match_the_os() {
    assert_eq!(ENOENT, nix::libc::ENOENT);
    assert_eq!(EIO, nix::libc::EIO);
    assert_eq!(E2BIG, nix::libc::E2BIG);
    assert_eq!(EACCES, nix::libc::EACCES);
    assert_eq!(EINVAL, nix::libc::EINVAL);
    assert_eq!(ERANGE, nix::libc::ERANGE);
    assert_eq!(ENOSYS, nix::libc::ENOSYS);
    assert_eq!(EOPNOTSUPP, nix::libc::EOPNOTSUPP);
}

#[test]
fn each_failure_maps_to_its_code() {
    assert_eq!(FsError::unimplemented().errno(), 38);
    assert_eq!(FsError::NotImplemented.errno(), ENOSYS);
    assert_eq!(FsError::InvalidArgument.errno(), EINVAL);
    assert_eq!(FsError::NotFound.errno(), ENOENT);
    assert_eq!(FsError::PermissionDenied.errno(), EACCES);
    assert_eq!(FsError::RangeExceeded.errno(), ERANGE);
    assert_eq!(FsError::Io.errno(), EIO);
    assert_eq!(FsError::Unsupported.errno(), EOPNOTSUPP);
    assert_eq!(FsError::Os(17).errno(), 17);
    assert_eq!(FsError::Os(4095).errno(), 4095);
}

#[test]
fn unknown_codes_map_to_not_implemented() {
    assert_eq!(FsError::Os(0).errno(), ENOSYS);
    assert_eq!(FsError::Os(-5).errno(), ENOSYS);
    assert_eq!(FsError::Os(4096).errno(), ENOSYS);
    assert_eq!(FsError::Os(i32::MIN).errno(), ENOSYS);
}

#[test]
fn init_failure_becomes_its_code() {
    assert_eq!(init_result(Ok(())), Ok(()));
    assert_eq!(init_result(Err(FsError::PermissionDenied)), Err(EACCES));
    assert_eq!(init_result(Err(FsError::Os(-1))), Err(ENOSYS));
}

#[test]
fn only_lifecycle_calls_block_and_only_forget_is_detached() {
    for req in every_request() {
        let kind = req.kind();
        let expected = match kind {
            OpKind::Init | OpKind::Destroy => Schedule::Blocking,
            OpKind::Forget => Schedule::Detached,
            _ => Schedule::Replying,
        };
        assert_eq!(schedule(kind), expected);
    }
}

#[test]
fn request_kinds() {
    assert_eq!(Request::Lookup { parent: 1, name: b"a".to_vec() }.kind(), OpKind::Lookup);
    assert_eq!(Request::ReadDirPlus { ino: 1, fh: 0, offset: 3 }.kind(), OpKind::ReadDirPlus);
    assert_eq!(Request::GetXTimes { ino: 1 }.kind(), OpKind::GetXTimes);
    assert_eq!(every_request().len(), 42);
}

#[test]
fn setattr_changes_only_present_fields() {
    let before = sample_attr(2);
    let now = Timestamp { secs: 1_700_000_000, nanos: 9 };
    assert_eq!(no_changes().apply_to(before, now), before);

    let mut changes = no_changes();
    changes.mode = Some(0o100_755);
    changes.size = Some(0);
    changes.mtime = Some(TimeOrNow::Now);
    changes.atime = Some(TimeOrNow::SpecificTime(Timestamp { secs: 10, nanos: 0 }));
    let after = changes.apply_to(before, now);
    assert_eq!(after.perm, 0o755);
    assert_eq!(after.size, 0);
    assert_eq!(after.mtime, now);
    assert_eq!(after.atime, Timestamp { secs: 10, nanos: 0 });
    assert_eq!(after.uid, before.uid);
    assert_eq!(after.gid, before.gid);
    assert_eq!(after.ctime, before.ctime);
    assert_eq!(after.kind, FileType::RegularFile);
    assert_eq!(after.ino, 2);
}

#[test]
fn setattr_changes_owner_and_flags() {
    let before = sample_attr(3);
    let mut changes = no_changes();
    changes.uid = Some(0);
    changes.gid = Some(5);
    changes.flags = Some(2);
    changes.ctime = Some(Timestamp { secs: -1, nanos: 500 });
    let after = changes.apply_to(before, Timestamp { secs: 0, nanos: 0 });
    assert_eq!((after.uid, after.gid, after.flags), (0, 5, 2));
    assert_eq!(after.ctime, Timestamp { secs: -1, nanos: 500 });
    assert_eq!(after.perm, before.perm);
    assert_eq!(after.size, before.size);
}
