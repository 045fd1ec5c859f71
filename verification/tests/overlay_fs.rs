use worker_sandbox::file_table::StaticFileTable;
use worker_sandbox::pathutil::normalize_path;
use worker_sandbox::static_fs::{
    FileRead, FsError, FsFileType, ImageOp, PackageRecord, ResolutionSnapshot, StaticFs, VfsImage,
};
use worker_sandbox::version::Version;

fn plain_version(major: u64, minor: u64, patch: u64) -> Version {
    Version {
        major,
        minor,
        patch,
        pre: Vec::new(),
        build: Vec::new(),
    }
}

fn lodash_fs() -> StaticFs {
    let mut files = StaticFileTable::new();
    files.insert("/src/index.js".to_string(), b"A".to_vec());
    let snapshot = ResolutionSnapshot {
        packages: vec![PackageRecord {
            name: "lodash".to_string(),
            version: plain_version(4, 17, 21),
        }],
    };
    StaticFs::new(
        files,
        "/npm".to_string(),
        VfsImage {
            root: "/npm".to_string(),
        },
        Some(snapshot),
    )
}

#[test]
fn static_table_read_hits_and_misses() {
    let fs = lodash_fs();
    match fs.read_file_sync("/src/index.js") {
        Ok(FileRead::Data(bytes)) => assert_eq!(bytes, b"A".to_vec()),
        _ => panic!("expected the bundled bytes"),
    }
    assert!(matches!(
        fs.read_file_sync("/src/missing.js"),
        Err(FsError::NotFound)
    ));
}

#[test]
fn read_is_by_normalized_path() {
    let fs = lodash_fs();
    match fs.read_file_sync("/src/./sub/../index.js") {
        Ok(FileRead::Data(bytes)) => assert_eq!(bytes, b"A".to_vec()),
        _ => panic!("expected the bundled bytes after normalization"),
    }
}

#[test]
fn npm_package_path_is_delegated_to_the_image() {
    let fs = lodash_fs();
    match fs.read_file_sync("/npm/lodash/4.17.21/index.js") {
        Ok(FileRead::Image(req)) => {
            assert_eq!(req.op, ImageOp::ReadFile);
            assert_eq!(req.path, "/npm/lodash/4.17.21/index.js");
        }
        _ => panic!("expected delegation to the backing image"),
    }
}

#[test]
fn npm_validation_matches_snapshot_records_only() {
    let fs = lodash_fs();
    assert!(fs.is_valid_npm_package("/npm/lodash/4.17.21/index.js"));
    assert!(!fs.is_valid_npm_package("/npm/lodash/9.9.9/index.js"));
    assert!(!fs.is_valid_npm_package("/other/lodash/4.17.21/index.js"));
    // one segment after the root is not a package path, and raises nothing
    assert!(!fs.is_valid_npm_package("/npm/lodash"));
}

#[test]
fn npm_validation_is_total_on_unparsable_versions() {
    let fs = lodash_fs();
    assert!(!fs.is_valid_npm_package("/npm/lodash/not-a-version/index.js"));
    assert!(!fs.is_valid_npm_package("/npm/lodash//index.js"));
}

#[test]
fn npm_validation_compares_parsed_versions() {
    let mut pre = plain_version(1, 2, 3);
    pre.pre = vec!["beta".to_string(), "1".to_string()];
    let fs = StaticFs::new(
        StaticFileTable::new(),
        "/npm".to_string(),
        VfsImage {
            root: "/npm".to_string(),
        },
        Some(ResolutionSnapshot {
            packages: vec![PackageRecord {
                name: "left-pad".to_string(),
                version: pre,
            }],
        }),
    );
    assert!(fs.is_valid_npm_package("/npm/left-pad/1.2.3-beta.1/index.js"));
    assert!(!fs.is_valid_npm_package("/npm/left-pad/1.2.3/index.js"));
    assert!(!fs.is_valid_npm_package("/npm/left-pad/1.2.3-beta.2/index.js"));
}

#[test]
fn no_snapshot_means_no_npm_paths() {
    let fs = StaticFs::new(
        StaticFileTable::new(),
        "/npm".to_string(),
        VfsImage {
            root: "/npm".to_string(),
        },
        None,
    );
    assert!(!fs.is_valid_npm_package("/npm/lodash/4.17.21/index.js"));
}

#[test]
fn mutating_calls_always_fail_not_supported() {
    let fs = lodash_fs();
    // on a path the bundle holds, and on one it does not
    for path in ["/src/index.js", "/definitely/not/here"] {
        assert_eq!(fs.mkdir_sync(path, true, 0o755), Err(FsError::NotSupported));
        assert_eq!(fs.chmod_sync(path, 0o644), Err(FsError::NotSupported));
        assert_eq!(
            fs.chown_sync(path, Some(1000), None),
            Err(FsError::NotSupported)
        );
        assert_eq!(fs.remove_sync(path, true), Err(FsError::NotSupported));
        assert_eq!(
            fs.copy_file_sync(path, "/elsewhere"),
            Err(FsError::NotSupported)
        );
        assert_eq!(fs.cp_sync(path, "/elsewhere"), Err(FsError::NotSupported));
        assert_eq!(
            fs.rename_sync(path, "/elsewhere"),
            Err(FsError::NotSupported)
        );
        assert_eq!(
            fs.link_sync(path, "/elsewhere"),
            Err(FsError::NotSupported)
        );
        assert_eq!(
            fs.symlink_sync(path, "/elsewhere", Some(FsFileType::File)),
            Err(FsError::NotSupported)
        );
        assert_eq!(fs.truncate_sync(path, 0), Err(FsError::NotSupported));
        assert_eq!(
            fs.utime_sync(path, 0, 0, 0, 0),
            Err(FsError::NotSupported)
        );
    }
}

#[test]
fn no_working_directory_concept() {
    let fs = lodash_fs();
    assert_eq!(fs.cwd(), Ok(String::new()));
    assert_eq!(fs.tmp_dir(), Err(FsError::NotSupported));
    assert_eq!(fs.chdir("/anywhere"), Err(FsError::NotSupported));
    assert_eq!(fs.umask(Some(0o022)), Err(FsError::NotSupported));
}

#[test]
fn reads_outside_the_managed_root_are_not_supported() {
    let fs = lodash_fs();
    // these paths exist on the real machine, but lie outside the image
    assert!(matches!(fs.stat_sync("/etc/passwd"), Err(FsError::NotSupported)));
    assert!(matches!(fs.realpath_sync("/tmp"), Err(FsError::NotSupported)));
    assert!(matches!(fs.lstat_sync("/etc"), Err(FsError::NotSupported)));
    assert!(matches!(fs.read_dir_sync("/"), Err(FsError::NotSupported)));
    assert!(matches!(fs.read_link_sync("/etc/mtab"), Err(FsError::NotSupported)));
    assert!(matches!(fs.open_sync("/etc/passwd"), Err(FsError::NotSupported)));
}

#[test]
fn reads_inside_the_managed_root_are_delegated() {
    let fs = lodash_fs();
    match fs.stat_sync("/npm/lodash/4.17.21") {
        Ok(req) => {
            assert_eq!(req.op, ImageOp::Stat);
            assert_eq!(req.path, "/npm/lodash/4.17.21");
        }
        Err(_) => panic!("expected delegation"),
    }
    match fs.realpath_sync("/npm/lodash") {
        Ok(req) => assert_eq!(req.op, ImageOp::Realpath),
        Err(_) => panic!("expected delegation"),
    }
}

#[test]
fn parent_traversal_cannot_escape_the_root() {
    let fs = lodash_fs();
    assert!(matches!(
        fs.stat_sync("/npm/../etc/passwd"),
        Err(FsError::NotSupported)
    ));
    // the first two segments still name a real package, so the read is
    // routed toward the image, whose containment gate then refuses it
    assert!(matches!(
        fs.read_file_sync("/npm/lodash/4.17.21/../../../../etc/shadow"),
        Err(FsError::NotSupported)
    ));
}

#[test]
fn normalization_is_lexical() {
    assert_eq!(normalize_path("/a/./b/../c"), "/a/c");
    assert_eq!(normalize_path("a//b/"), "a/b");
    assert_eq!(normalize_path("/.."), "/");
    assert_eq!(normalize_path("a/../../b"), "b");
    assert_eq!(normalize_path(""), "");
    assert_eq!(normalize_path("/src/index.js"), "/src/index.js");
}

#[test]
fn table_lookup_is_exact_after_insert() {
    let mut files = StaticFileTable::new();
    files.insert("/a.txt".to_string(), vec![1, 2, 3]);
    files.insert("/b.txt".to_string(), vec![4]);
    assert!(files.contains("/a.txt"));
    assert!(!files.contains("/c.txt"));
    assert_eq!(files.read("/a.txt"), Some(vec![1, 2, 3]));
    assert_eq!(files.read("/b.txt"), Some(vec![4]));
    assert_eq!(files.read("/a.txt/"), None);
    assert_eq!(files.read("/c.txt"), None);
}
