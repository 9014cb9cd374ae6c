//! File system requests: resolving paths against the working directory or a directory
//! descriptor, and the requests that name paths.

use vstd::prelude::*;

use crate::error::LxError;
use crate::fs::{AccessFlags, AtFlags, OpenFlags, UmountFlags};
use crate::flags::flags_to_apple;
use crate::ipc::Request;
use crate::ToApple;
use crate::rtenv::vfd::VfdTable;

pub mod vfd;

verus! {

/// The byte `/` that separates the components of a path.
pub const SLASH: u8 = 0x2f;

/// The descriptor that stands for the working directory in the `*at` calls.
pub const AT_FDCWD: i32 = -100;

/// The root and the working directory of the process.
#[derive(Debug, Clone)]
pub struct FilesystemContext {
    pub root: Vec<u8>,
    pub cwd: Vec<u8>,
}

impl FilesystemContext {
    /// Both directories at `/`.
    pub fn new() -> (r: Self)
        ensures
            r.root@ == seq![SLASH],
            r.cwd@ == seq![SLASH],
    {
        FilesystemContext { root: vec![SLASH], cwd: vec![SLASH] }
    }

    /// The working directory.
    pub fn getcwd(&self) -> (r: Vec<u8>)
        ensures
            r@ == self.cwd@,
    {
        self.cwd.clone()
    }

    /// Sets the working directory to an absolute path; a relative one is `EINVAL` and changes
    /// nothing.
    pub fn init_cwd(&mut self, new: Vec<u8>) -> (r: Result<(), LxError>)
        ensures
            new@.len() > 0 && new@[0] == SLASH ==> r is Ok && final(self).cwd@ == new@
                && final(self).root@ == old(self).root@,
            !(new@.len() > 0 && new@[0] == SLASH) ==> r == Err::<(), LxError>(
                LxError(LxError::EINVAL),
            ) && final(self).cwd@ == old(self).cwd@ && final(self).root@ == old(self).root@,
    {
        if !(new.len() > 0 && new[0] == SLASH) {
            return Err(LxError(LxError::EINVAL));
        }
        self.cwd = new;
        Ok(())
    }

    /// Makes the original path of a virtual directory the working directory.
    pub fn chdir_to(&mut self, orig_path: Vec<u8>)
        ensures
            final(self).cwd@ == orig_path@,
            final(self).root@ == old(self).root@,
    {
        self.cwd = orig_path;
    }
}

/// `path` taken from the directory `base`: itself where it is absolute, else `base`, a slash
/// and `path`.
pub open spec fn joined(base: Seq<u8>, path: Seq<u8>) -> Seq<u8> {
    if path.len() > 0 && path[0] == SLASH {
        path
    } else {
        base.push(SLASH) + path
    }
}

/// Takes `path` from the directory `base`.
pub fn at_path(base: &[u8], path: Vec<u8>) -> (r: Vec<u8>)
    ensures
        r@ == joined(base@, path@),
{
    if path.len() > 0 && path[0] == SLASH {
        return path;
    }
    let mut r: Vec<u8> = Vec::new();
    let mut i: usize = 0;
    while i < base.len()
        invariant
            i <= base@.len(),
            r@ == base@.take(i as int),
        decreases base@.len() - i,
    {
        r.push(base[i]);
        i = i + 1;
        assert(r@ =~= base@.take(i as int));
    }
    r.push(SLASH);
    let ghost head = r@;
    let mut k: usize = 0;
    while k < path.len()
        invariant
            k <= path@.len(),
            head == base@.push(SLASH),
            r@ == head + path@.take(k as int),
        decreases path@.len() - k,
    {
        r.push(path[k]);
        k = k + 1;
        assert(r@ =~= head + path@.take(k as int));
    }
    assert(path@.take(path@.len() as int) =~= path@);
    r
}

/// Where the relative paths of an `*at` call start.
#[derive(Debug, Clone)]
pub enum AtBase {
    /// A directory of this path.
    Path(Vec<u8>),
    /// The virtual directory behind the descriptor, whose original path the server knows.
    Virtual(u64),
    /// The descriptor is no directory that paths can start from.
    NotDir,
}

/// Where relative paths start for the descriptor `fd`: the original path of a virtual
/// descriptor, the working directory for `AT_FDCWD`, else no directory (`ENOTDIR`).
pub fn at_base_path(table: &VfdTable, fs: &FilesystemContext, fd: i32) -> (r: AtBase)
    ensures
        match table@.get(fd) {
            Some(v) => r matches AtBase::Virtual(x) && x == v,
            None => if fd == AT_FDCWD {
                r matches AtBase::Path(p) && p@ == fs.cwd@
            } else {
                r is NotDir
            },
        },
{
    match table.get(fd) {
        Some(v) => AtBase::Virtual(v),
        None => if fd == AT_FDCWD {
            AtBase::Path(fs.getcwd())
        } else {
            AtBase::NotDir
        },
    }
}

/// The request of `openat`: the path from `base` and the open flags, with `O_NOFOLLOW` added
/// where the call does not follow a final symbolic link.
pub fn openat(base: &[u8], path: Vec<u8>, oflags: OpenFlags, atflags: AtFlags, mode: u32) -> (r:
    Request)
    ensures
        r matches Request::Open(p, f, m) && p@ == joined(base@, path@) && m == mode && f == (
        if atflags.0 & AtFlags::AT_SYMLINK_NOFOLLOW == AtFlags::AT_SYMLINK_NOFOLLOW {
            oflags.0 | OpenFlags::O_NOFOLLOW
        } else {
            oflags.0
        }),
{
    let f = if atflags.0 & AtFlags::AT_SYMLINK_NOFOLLOW == AtFlags::AT_SYMLINK_NOFOLLOW {
        oflags.0 | OpenFlags::O_NOFOLLOW
    } else {
        oflags.0
    };
    Request::Open(at_path(base, path), f, mode)
}

/// Whether an `openat` call duplicates its directory descriptor: an empty path with
/// `AT_EMPTY_PATH`.
pub fn openat_dups(path: &[u8], atflags: AtFlags) -> (r: bool)
    ensures
        r == (path@.len() == 0 && atflags.0 & AtFlags::AT_EMPTY_PATH == AtFlags::AT_EMPTY_PATH),
{
    path.len() == 0 && atflags.0 & AtFlags::AT_EMPTY_PATH == AtFlags::AT_EMPTY_PATH
}

/// The request of `faccessat2`, or `None` where an empty path with `AT_EMPTY_PATH` succeeds
/// without asking.
pub fn faccessat2(base: &[u8], path: Vec<u8>, mode: AccessFlags, flags: AtFlags) -> (r: Option<
    Request,
>)
    ensures
        flags.0 & AtFlags::AT_EMPTY_PATH == AtFlags::AT_EMPTY_PATH && path@.len() == 0 ==> r is None,
        !(flags.0 & AtFlags::AT_EMPTY_PATH == AtFlags::AT_EMPTY_PATH && path@.len() == 0) ==> (r
            matches Some(Request::Access(p, m)) && p@ == joined(base@, path@) && m == mode.0),
{
    if flags.0 & AtFlags::AT_EMPTY_PATH == AtFlags::AT_EMPTY_PATH && path.len() == 0 {
        return None;
    }
    Some(Request::Access(at_path(base, path), mode.0))
}

/// The request of `symlink`: the target as given, the link from the working directory.
pub fn symlink(cwd: &[u8], src: Vec<u8>, dst: Vec<u8>) -> (r: Request)
    ensures
        r matches Request::Symlink(a, b) && a@ == src@ && b@ == joined(cwd@, dst@),
{
    Request::Symlink(src, at_path(cwd, dst))
}

/// The request of `rename`: both paths from the working directory.
pub fn rename(cwd: &[u8], src: Vec<u8>, dst: Vec<u8>) -> (r: Request)
    ensures
        r matches Request::Rename(a, b) && a@ == joined(cwd@, src@) && b@ == joined(cwd@, dst@),
{
    let a = at_path(cwd, src);
    Request::Rename(a, at_path(cwd, dst))
}

/// The request of `unlink`.
pub fn unlink(cwd: &[u8], path: Vec<u8>) -> (r: Request)
    ensures
        r matches Request::Unlink(p) && p@ == joined(cwd@, path@),
{
    Request::Unlink(at_path(cwd, path))
}

/// The request of `rmdir`.
pub fn rmdir(cwd: &[u8], path: Vec<u8>) -> (r: Request)
    ensures
        r matches Request::Rmdir(p) && p@ == joined(cwd@, path@),
{
    Request::Rmdir(at_path(cwd, path))
}

/// The request of `mkdir`.
pub fn mkdir(cwd: &[u8], path: Vec<u8>, mode: u32) -> (r: Request)
    ensures
        r matches Request::Mkdir(p, m) && p@ == joined(cwd@, path@) && m == mode,
{
    Request::Mkdir(at_path(cwd, path), mode)
}

/// The request of `umount2`.
pub fn umount(cwd: &[u8], path: Vec<u8>, flags: UmountFlags) -> (r: Request)
    ensures
        r matches Request::Umount(p, f) && p@ == joined(cwd@, path@) && f == flags.0,
{
    Request::Umount(at_path(cwd, path), flags.0)
}

/// The request for the host path of a local socket, made if `create`.
pub fn get_sock_path(cwd: &[u8], path: Vec<u8>, create: bool) -> (r: Request)
    ensures
        r matches Request::GetSockPath(p, c) && p@ == joined(cwd@, path@) && c == create,
{
    Request::GetSockPath(at_path(cwd, path), create)
}

/// The extended attribute names of a file: none are kept.
pub fn listxattr(fd: i32) -> (r: Result<Vec<u8>, LxError>)
    ensures
        r matches Ok(v) && v@.len() == 0,
{
    Ok(Vec::new())
}


/// The request of `getdents64` on `fd`: descriptors that are not virtual cannot be read this
/// way (`EBADF`).
pub fn getdents64(table: &VfdTable, fd: i32) -> (r: Result<Request, LxError>)
    ensures
        match table@.get(fd) {
            Some(v) => r matches Ok(Request::VirtualFdGetDents64(x)) && x == v,
            None => r == Err::<Request, LxError>(LxError(LxError::EBADF)),
        },
{
    match table.get(fd) {
        Some(v) => Ok(vfd::getdents64(v)),
        None => Err(LxError(LxError::EBADF)),
    }
}

/// The request of `fstat` on `fd` where it is virtual; `None` where Darwin answers.
pub fn stat(table: &VfdTable, fd: i32) -> (r: Option<Request>)
    ensures
        match table@.get(fd) {
            Some(v) => r matches Some(Request::VirtualFdStat(x)) && x == v,
            None => r is None,
        },
{
    match table.get(fd) {
        Some(v) => Some(vfd::stat(v)),
        None => None,
    }
}

/// The request of `fchown` on `fd` where it is virtual; `None` where Darwin answers.
pub fn chown(table: &VfdTable, fd: i32, uid: u32, gid: u32) -> (r: Option<Request>)
    ensures
        match table@.get(fd) {
            Some(v) => r matches Some(Request::VirtualFdChown(x, u, g)) && x == v && u == uid && g
                == gid,
            None => r is None,
        },
{
    match table.get(fd) {
        Some(v) => Some(vfd::chown(v, uid, gid)),
        None => None,
    }
}

/// The request of `fchdir` on `fd`: the original path of a virtual directory; other
/// descriptors are no directory the runtime can enter (`ENOTDIR`).
pub fn chdir(table: &VfdTable, fd: i32) -> (r: Result<Request, LxError>)
    ensures
        match table@.get(fd) {
            Some(v) => r matches Ok(Request::VirtualFdOrigPath(x)) && x == v,
            None => r == Err::<Request, LxError>(LxError(LxError::ENOTDIR)),
        },
{
    match table.get(fd) {
        Some(v) => Ok(vfd::orig_path(v)),
        None => Err(LxError(LxError::ENOTDIR)),
    }
}


/// The Darwin flag that creates a missing file, which takes a mode.
pub const APPLE_O_CREAT: i32 = 0x200;

/// How to open a path on the host: the Darwin open flags, and whether the call passes the
/// mode, which it does where it may create the file.
pub fn open_native(oflags: OpenFlags) -> (r: (i32, bool))
    ensures
        r.0 == flags_to_apple(OpenFlags::table(), oflags.0 as u64) as i32,
        r.1 == (r.0 & APPLE_O_CREAT != 0),
{
    let flags = match oflags.to_apple() {
        Ok(f) => f,
        Err(_) => 0,
    };
    (flags, flags & APPLE_O_CREAT != 0)
}


/// A path as the server takes it: taken from the working directory.
pub fn full_path(cwd: &[u8], path: Vec<u8>) -> (r: Vec<u8>)
    ensures
        r@ == joined(cwd@, path@),
{
    at_path(cwd, path)
}

/// The request of `access`: `faccessat2` from the working directory with no flags.
pub fn access(cwd: &[u8], path: Vec<u8>, mode: AccessFlags) -> (r: Request)
    ensures
        r matches Request::Access(p, m) && p@ == joined(cwd@, path@) && m == mode.0,
{
    Request::Access(at_path(cwd, path), mode.0)
}

} // verus!
