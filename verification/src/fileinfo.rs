//! What the display needs to know about a file: whether it is a directory,
//! and the mode bits of the file and of the link that may stand before it.

use vstd::prelude::*;

verus! {

/// Mask of the file type bits of a mode.
pub const S_IFMT: u32 = 0o170000;

/// File type: symbolic link.
pub const S_IFLNK: u32 = 0o120000;

/// Read, write and execute for owner, group and others.
pub const S_IRWXUGO: u32 = 0o777;

/// Execute for owner, group or others.
pub const S_IXUGO: u32 = 0o111;

/// A mode whose file type bits hold those of a symbolic link.
pub open spec fn symbolic_link(mode: u32) -> bool {
    (mode & S_IFMT) & S_IFLNK == S_IFLNK
}

/// A mode that lets owner, group and others read, write and execute.
pub open spec fn unrestricted(mode: u32) -> bool {
    mode & S_IRWXUGO == S_IRWXUGO
}

/// A mode that lets owner, group or others execute.
pub open spec fn executable(mode: u32) -> bool {
    mode & S_IXUGO > 0
}

/// Facts about one file, as the file system reported them.
pub struct FileInfo {
    is_dir: bool,
    mode: u32,
    l_mode: u32,
}

impl FileInfo {
    /// `mode` is the mode of the file that the path leads to, `l_mode` the
    /// mode of the path itself, which differs when the path is a link.
    pub fn new(is_dir: bool, mode: u32, l_mode: u32) -> (info: FileInfo)
        ensures
            info.spec_is_dir() == is_dir,
            info.spec_mode() == mode,
            info.spec_l_mode() == l_mode,
    {
        FileInfo { is_dir, mode, l_mode }
    }

    pub closed spec fn spec_is_dir(&self) -> bool {
        self.is_dir
    }

    pub closed spec fn spec_mode(&self) -> u32 {
        self.mode
    }

    pub closed spec fn spec_l_mode(&self) -> u32 {
        self.l_mode
    }

    /// The path itself is a symbolic link.
    pub fn is_symbolic_link(&self) -> (b: bool)
        ensures
            b == symbolic_link(self.spec_l_mode()),
    {
        (self.l_mode & S_IFMT) & S_IFLNK == S_IFLNK
    }

    /// Owner, group and others may all read, write and execute.
    pub fn everyone_can_do_everything(&self) -> (b: bool)
        ensures
            b == unrestricted(self.spec_mode()),
    {
        self.mode & S_IRWXUGO == S_IRWXUGO
    }

    #[verifier::when_used_as_spec(spec_is_dir)]
    pub fn is_dir(&self) -> (b: bool)
        ensures
            b == self.spec_is_dir(),
    {
        self.is_dir
    }

    /// Someone may execute the file.
    pub fn is_executable(&self) -> (b: bool)
        ensures
            b == executable(self.spec_mode()),
    {
        self.mode & S_IXUGO > 0
    }

    #[verifier::when_used_as_spec(spec_mode)]
    pub fn mode(&self) -> (m: u32)
        ensures
            m == self.spec_mode(),
    {
        self.mode
    }
}

} // verus!
