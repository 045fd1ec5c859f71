//! The overlay filesystem: one read-only capability surface over a
//! static file table, a backing virtual-filesystem image and an
//! optional dependency resolution snapshot, scoped to one bundle.
//!
//! Reads of bundled files are answered here from the table. Reads that
//! belong to the backing image are answered as an [`ImageRequest`],
//! which the surrounding runtime performs against the image (its I/O
//! may block and cannot run here); a request is only ever produced for
//! a path contained in the image's managed root. Every mutating
//! operation fails as not-supported, whatever the path.

use vstd::prelude::*;
use vstd::string::StrSliceExecFns;

use crate::file_table::StaticFileTable;
use crate::pathutil::{contained_in, is_path_within, normalize_path, normalize_spec, path_segments, split_segments};
use crate::strutil::{is_prefix_of, str_eq, str_starts_with};
use crate::version::{parse_standard_version, parsed_standard_version, Version};

verus! {

/// The error kinds the surface shows the sandboxed code: an operation
/// the sandbox never allows, or a file it does not hold.
#[derive(Clone, Copy, Debug, PartialEq, Eq, Structural)]
pub enum FsError {
    NotSupported,
    NotFound,
}

/// The read operations the backing image can perform.
#[derive(Clone, Copy, Debug, PartialEq, Eq, Structural)]
pub enum ImageOp {
    Open,
    Stat,
    Lstat,
    Realpath,
    ReadDir,
    ReadLink,
    ReadFile,
}

/// A read delegated to the backing image: which operation, on which
/// path. Produced only for paths contained in the image's managed
/// root.
pub struct ImageRequest {
    pub op: ImageOp,
    pub path: String,
}

/// The answer to a file read: bytes served from the static table, or a
/// read the backing image must perform.
pub enum FileRead {
    Data(Vec<u8>),
    Image(ImageRequest),
}

/// What the overlay knows of the backing virtual-filesystem image: the
/// root under which the image manages paths. The image's own reads
/// stay outside; only reads under this root are ever delegated to it.
#[derive(Clone, Debug)]
pub struct VfsImage {
    pub root: String,
}

/// The kind a symbolic link should get on creation; the sandbox
/// refuses the operation whatever the kind.
#[derive(Clone, Copy, Debug, PartialEq, Eq, Structural)]
pub enum FsFileType {
    File,
    Directory,
    Junction,
}

/// One resolved package install: its name and parsed version.
#[derive(Clone, Debug)]
pub struct PackageRecord {
    pub name: String,
    pub version: Version,
}

/// The resolved `(name, version)` records of a bundle, used only to
/// validate npm-style paths.
#[derive(Clone, Debug)]
pub struct ResolutionSnapshot {
    pub packages: Vec<PackageRecord>,
}

/// The overlay filesystem of one bundle, shared read-only across all
/// workers using that bundle.
pub struct StaticFs {
    pub files: StaticFileTable,
    pub vfs_path: String,
    pub snapshot: Option<ResolutionSnapshot>,
    pub vfs: VfsImage,
}

impl StaticFs {
    /// The file table holds no duplicate path.
    pub open spec fn wf(self) -> bool {
        self.files.wf()
    }

    /// The path names a resolved, real package install: it lies under
    /// the package root, and its first two remaining segments are the
    /// name and the parsed version of some snapshot record. Without a
    /// snapshot no path is an npm path, whatever its prefix.
    pub open spec fn spec_is_npm_package(self, p: Seq<char>) -> bool {
        match self.snapshot {
            None => false,
            Some(snap) => {
                let root = self.vfs_path@;
                is_prefix_of(root, p) && {
                    let rest = p.skip(root.len() as int);
                    let rest2 = if rest.len() > 0 && rest[0] == '/' {
                        rest.skip(1)
                    } else {
                        rest
                    };
                    let segs = path_segments(rest2);
                    segs.len() >= 2 && exists|i: int|
                        0 <= i < snap.packages@.len() && (#[trigger] snap.packages@[i]).name@
                            == segs[0] && parsed_standard_version(segs[1]) == Some(
                            snap.packages@[i].version@,
                        )
                }
            },
        }
    }

    /// A path validates as an npm-package path only when a snapshot is
    /// configured and the path lies under the package root; no other
    /// path is ever treated as npm, whatever its prefix.
    pub proof fn lemma_npm_path_is_under_root(self, p: Seq<char>)
        ensures
            self.spec_is_npm_package(p) ==> self.snapshot is Some && is_prefix_of(
                self.vfs_path@,
                p,
            ),
    {
    }

    /// Builds the overlay for one bundle.
    pub fn new(
        static_files: StaticFileTable,
        vfs_path: String,
        vfs: VfsImage,
        snapshot: Option<ResolutionSnapshot>,
    ) -> (fs: StaticFs)
        ensures
            fs == (StaticFs { files: static_files, vfs_path, snapshot, vfs }),
    {
        StaticFs { files: static_files, vfs_path, snapshot, vfs }
    }

    /// Decides whether a path names a resolved, real package install.
    /// Total: an unparsable candidate version means "not an npm path",
    /// never a failure.
    pub fn is_valid_npm_package(&self, path: &str) -> (r: bool)
        ensures
            r == self.spec_is_npm_package(path@),
    {
        match &self.snapshot {
            None => false,
            Some(snap) => {
                if !str_starts_with(path, self.vfs_path.as_str()) {
                    return false;
                }
                let root_len = self.vfs_path.as_str().unicode_len();
                let n = path.unicode_len();
                let rest = path.substring_char(root_len, n);
                let m = rest.unicode_len();
                let rest2 = if m > 0 && rest.get_char(0) == '/' {
                    rest.substring_char(1, m)
                } else {
                    rest
                };
                proof {
                    let spec_rest = path@.skip(self.vfs_path@.len() as int);
                    assert(rest@ == spec_rest);
                }
                let segs = split_segments(rest2);
                let ghost spec_segs = path_segments(rest2@);
                proof {
                    assert(segs.deep_view() == spec_segs);
                    assert(segs@.len() == spec_segs.len());
                }
                if segs.len() < 2 {
                    return false;
                }
                let ghost name0 = spec_segs[0];
                let ghost ver1 = spec_segs[1];
                proof {
                    assert(segs.deep_view()[0] == segs@[0]@);
                    assert(segs.deep_view()[1] == segs@[1]@);
                }
                let ghost npm = self.spec_is_npm_package(path@);
                proof {
                    assert(npm == (exists|k: int|
                        0 <= k < snap.packages@.len() && (#[trigger] snap.packages@[k]).name@
                            == name0 && parsed_standard_version(ver1) == Some(
                            snap.packages@[k].version@,
                        )));
                }
                match parse_standard_version(segs[1].as_str()) {
                    None => false,
                    Some(v) => {
                        let mut i: usize = 0;
                        while i < snap.packages.len()
                            invariant
                                i <= snap.packages@.len(),
                                segs@.len() >= 2,
                                segs@[0]@ == name0,
                                parsed_standard_version(ver1) == Some(v@),
                                npm == (exists|k: int|
                                    0 <= k < snap.packages@.len() && (
                                    #[trigger] snap.packages@[k]).name@ == name0
                                        && parsed_standard_version(ver1) == Some(
                                        snap.packages@[k].version@,
                                    )),
                                npm == self.spec_is_npm_package(path@),
                                forall|k: int|
                                    0 <= k < i ==> !((#[trigger] snap.packages@[k]).name@ == name0
                                        && parsed_standard_version(ver1) == Some(
                                        snap.packages@[k].version@,
                                    )),
                            decreases snap.packages@.len() - i,
                        {
                            let record = &snap.packages[i];
                            if str_eq(record.name.as_str(), segs[0].as_str())
                                && v.same_version(&record.version) {
                                proof {
                                    assert(snap.packages@[i as int].name@ == name0);
                                    assert(parsed_standard_version(ver1) == Some(
                                        snap.packages@[i as int].version@,
                                    ));
                                }
                                return true;
                            }
                            i += 1;
                        }
                        false
                    },
                }
            },
        }
    }

    /// Routes one read to the backing image: allowed only for a path
    /// contained in the image's managed root, not-supported otherwise.
    fn route_to_image(&self, op: ImageOp, path: &str) -> (r: Result<ImageRequest, FsError>)
        ensures
            contained_in(path@, self.vfs.root@) ==> (r matches Ok(q) && q.op == op && q.path@
                == path@),
            !contained_in(path@, self.vfs.root@) ==> r == Err::<ImageRequest, FsError>(
                FsError::NotSupported,
            ),
    {
        if is_path_within(path, self.vfs.root.as_str()) {
            Ok(ImageRequest { op, path: path.to_owned() })
        } else {
            Err(FsError::NotSupported)
        }
    }

    /// The sandbox has no working-directory concept: its current
    /// directory is the empty path.
    pub fn cwd(&self) -> (r: Result<String, FsError>)
        ensures
            r matches Ok(p) && p@ == Seq::<char>::empty(),
    {
        Ok(String::new())
    }

    pub fn tmp_dir(&self) -> (r: Result<String, FsError>)
        ensures
            r == Err::<String, FsError>(FsError::NotSupported),
    {
        Err(FsError::NotSupported)
    }

    pub fn chdir(&self, _path: &str) -> (r: Result<(), FsError>)
        ensures
            r == Err::<(), FsError>(FsError::NotSupported),
    {
        Err(FsError::NotSupported)
    }

    pub fn umask(&self, _mask: Option<u32>) -> (r: Result<u32, FsError>)
        ensures
            r == Err::<u32, FsError>(FsError::NotSupported),
    {
        Err(FsError::NotSupported)
    }

    /// Opens a file through the backing image, for a contained path.
    pub fn open_sync(&self, path: &str) -> (r: Result<ImageRequest, FsError>)
        ensures
            contained_in(path@, self.vfs.root@) ==> (r matches Ok(q) && q.op == ImageOp::Open
                && q.path@ == path@),
            !contained_in(path@, self.vfs.root@) ==> r == Err::<ImageRequest, FsError>(
                FsError::NotSupported,
            ),
    {
        self.route_to_image(ImageOp::Open, path)
    }

    pub fn stat_sync(&self, path: &str) -> (r: Result<ImageRequest, FsError>)
        ensures
            contained_in(path@, self.vfs.root@) ==> (r matches Ok(q) && q.op == ImageOp::Stat
                && q.path@ == path@),
            !contained_in(path@, self.vfs.root@) ==> r == Err::<ImageRequest, FsError>(
                FsError::NotSupported,
            ),
    {
        self.route_to_image(ImageOp::Stat, path)
    }

    pub fn lstat_sync(&self, path: &str) -> (r: Result<ImageRequest, FsError>)
        ensures
            contained_in(path@, self.vfs.root@) ==> (r matches Ok(q) && q.op == ImageOp::Lstat
                && q.path@ == path@),
            !contained_in(path@, self.vfs.root@) ==> r == Err::<ImageRequest, FsError>(
                FsError::NotSupported,
            ),
    {
        self.route_to_image(ImageOp::Lstat, path)
    }

    pub fn realpath_sync(&self, path: &str) -> (r: Result<ImageRequest, FsError>)
        ensures
            contained_in(path@, self.vfs.root@) ==> (r matches Ok(q) && q.op == ImageOp::Realpath
                && q.path@ == path@),
            !contained_in(path@, self.vfs.root@) ==> r == Err::<ImageRequest, FsError>(
                FsError::NotSupported,
            ),
    {
        self.route_to_image(ImageOp::Realpath, path)
    }

    pub fn read_dir_sync(&self, path: &str) -> (r: Result<ImageRequest, FsError>)
        ensures
            contained_in(path@, self.vfs.root@) ==> (r matches Ok(q) && q.op == ImageOp::ReadDir
                && q.path@ == path@),
            !contained_in(path@, self.vfs.root@) ==> r == Err::<ImageRequest, FsError>(
                FsError::NotSupported,
            ),
    {
        self.route_to_image(ImageOp::ReadDir, path)
    }

    pub fn read_link_sync(&self, path: &str) -> (r: Result<ImageRequest, FsError>)
        ensures
            contained_in(path@, self.vfs.root@) ==> (r matches Ok(q) && q.op == ImageOp::ReadLink
                && q.path@ == path@),
            !contained_in(path@, self.vfs.root@) ==> r == Err::<ImageRequest, FsError>(
                FsError::NotSupported,
            ),
    {
        self.route_to_image(ImageOp::ReadLink, path)
    }

    /// Reads a file: an npm package path goes to the backing image's
    /// open-and-read path; any other path is normalized and looked up
    /// verbatim in the static table.
    pub fn read_file_sync(&self, path: &str) -> (r: Result<FileRead, FsError>)
        requires
            self.wf(),
        ensures
            self.spec_is_npm_package(path@) && contained_in(path@, self.vfs.root@) ==> (r matches
                Ok(FileRead::Image(q)) && q.op == ImageOp::ReadFile && q.path@ == path@),
            self.spec_is_npm_package(path@) && !contained_in(path@, self.vfs.root@) ==> r == Err::<
                FileRead,
                FsError,
            >(FsError::NotSupported),
            !self.spec_is_npm_package(path@) && self.files.as_map().dom().contains(
                normalize_spec(path@),
            ) ==> (r matches Ok(FileRead::Data(b)) && b@ == self.files.as_map().index(
                normalize_spec(path@),
            )),
            !self.spec_is_npm_package(path@) && !self.files.as_map().dom().contains(
                normalize_spec(path@),
            ) ==> r == Err::<FileRead, FsError>(FsError::NotFound),
    {
        if self.is_valid_npm_package(path) {
            match self.route_to_image(ImageOp::ReadFile, path) {
                Ok(q) => Ok(FileRead::Image(q)),
                Err(e) => Err(e),
            }
        } else {
            let norm = normalize_path(path);
            match self.files.read(norm.as_str()) {
                Some(bytes) => Ok(FileRead::Data(bytes)),
                None => Err(FsError::NotFound),
            }
        }
    }

    pub fn mkdir_sync(&self, _path: &str, _recursive: bool, _mode: u32) -> (r: Result<
        (),
        FsError,
    >)
        ensures
            r == Err::<(), FsError>(FsError::NotSupported),
    {
        Err(FsError::NotSupported)
    }

    pub fn chmod_sync(&self, _path: &str, _mode: u32) -> (r: Result<(), FsError>)
        ensures
            r == Err::<(), FsError>(FsError::NotSupported),
    {
        Err(FsError::NotSupported)
    }

    pub fn chown_sync(&self, _path: &str, _uid: Option<u32>, _gid: Option<u32>) -> (r: Result<
        (),
        FsError,
    >)
        ensures
            r == Err::<(), FsError>(FsError::NotSupported),
    {
        Err(FsError::NotSupported)
    }

    pub fn remove_sync(&self, _path: &str, _recursive: bool) -> (r: Result<(), FsError>)
        ensures
            r == Err::<(), FsError>(FsError::NotSupported),
    {
        Err(FsError::NotSupported)
    }

    pub fn copy_file_sync(&self, _oldpath: &str, _newpath: &str) -> (r: Result<(), FsError>)
        ensures
            r == Err::<(), FsError>(FsError::NotSupported),
    {
        Err(FsError::NotSupported)
    }

    pub fn cp_sync(&self, _path: &str, _new_path: &str) -> (r: Result<(), FsError>)
        ensures
            r == Err::<(), FsError>(FsError::NotSupported),
    {
        Err(FsError::NotSupported)
    }

    pub fn rename_sync(&self, _oldpath: &str, _newpath: &str) -> (r: Result<(), FsError>)
        ensures
            r == Err::<(), FsError>(FsError::NotSupported),
    {
        Err(FsError::NotSupported)
    }

    pub fn link_sync(&self, _oldpath: &str, _newpath: &str) -> (r: Result<(), FsError>)
        ensures
            r == Err::<(), FsError>(FsError::NotSupported),
    {
        Err(FsError::NotSupported)
    }

    pub fn symlink_sync(
        &self,
        _oldpath: &str,
        _newpath: &str,
        _file_type: Option<FsFileType>,
    ) -> (r: Result<(), FsError>)
        ensures
            r == Err::<(), FsError>(FsError::NotSupported),
    {
        Err(FsError::NotSupported)
    }

    pub fn truncate_sync(&self, _path: &str, _len: u64) -> (r: Result<(), FsError>)
        ensures
            r == Err::<(), FsError>(FsError::NotSupported),
    {
        Err(FsError::NotSupported)
    }

    pub fn utime_sync(
        &self,
        _path: &str,
        _atime_secs: i64,
        _atime_nanos: u32,
        _mtime_secs: i64,
        _mtime_nanos: u32,
    ) -> (r: Result<(), FsError>)
        ensures
            r == Err::<(), FsError>(FsError::NotSupported),
    {
        Err(FsError::NotSupported)
    }
}

} // verus!
