use std::path::{Path, PathBuf};
use std::time::Duration;

use nix::errno::Errno;
use nix::fcntl::{open, OFlag};
use nix::sys::stat::{fchmodat, lstat, mknod, FchmodatFlags, Mode, SFlag};
use nix::unistd::{close, mkdir, mkfifo, pathconf, symlinkat, Gid, Group, PathconfVar, Uid, User};
use tempfile::TempDir;
use walkdir::WalkDir;
use pjdfstest::config::{DummyAuthEntry, FeaturesConfig};
use pjdfstest::context::{
    cleanup_inspects, cleanup_steps, effective_groups, needs_owner_rwx, path_max_layout,
    CleanupSteps, CreatePlan, FileBuilder, FileType, OpenPlan, PathMaxLayout,
    SerializedTestContext, TestContext,
};
use pjdfstest::flags::TargetOs;
use pjdfstest::path::FsPath;

fn is_name(bytes: &[u8], len: usize) -> bool {
    bytes.len() == len && bytes.iter().all(|b| b.is_ascii_alphanumeric())
}

#[test]
fn privileged_types() {
    assert!(FileType::Block.privileged());
    assert!(FileType::Char.privileged());
    for ft in [
        FileType::Regular,
        FileType::Dir,
        FileType::Fifo,
        FileType::Socket,
        FileType::Symlink(None),
        FileType::Symlink(Some(FsPath::from_str("target"))),
    ] {
        assert!(!ft.privileged());
    }
}

fn to_path_buf(p: &FsPath) -> PathBuf {
    PathBuf::from(String::from_utf8(p.as_bytes().to_vec()).unwrap())
}

fn to_fs_path(p: &Path) -> FsPath {
    FsPath::from_str(p.to_str().unwrap())
}

fn file_name_bytes(p: &Path) -> Vec<u8> {
    p.file_name().unwrap().to_str().unwrap().as_bytes().to_vec()
}

/// Creates a directory and every missing directory above it.
fn mkdir_all(path: &Path) {
    let mut ancestors: Vec<&Path> = path.ancestors().collect();
    ancestors.reverse();
    for dir in ancestors {
        match mkdir(dir, Mode::from_bits_truncate(0o755)) {
            Ok(()) | Err(Errno::EEXIST) => {}
            Err(e) => panic!("mkdir {:?}: {}", dir, e),
        }
    }
}

/// Makes the file a creation plan describes.
fn carry_out(plan: &CreatePlan) -> PathBuf {
    let path = to_path_buf(plan.path());
    match plan {
        CreatePlan::Regular { mode, .. } => {
            close(open(&path, OFlag::O_CREAT, Mode::from_bits_truncate(*mode)).unwrap()).unwrap()
        }
        CreatePlan::Dir { mode, .. } => mkdir(&path, Mode::from_bits_truncate(*mode)).unwrap(),
        CreatePlan::Fifo { mode, .. } => mkfifo(&path, Mode::from_bits_truncate(*mode)).unwrap(),
        CreatePlan::Socket { .. } => {
            mknod(&path, SFlag::S_IFSOCK, Mode::from_bits_truncate(0o644), 0).unwrap()
        }
        CreatePlan::Symlink { target, lchmod: None, .. } => {
            symlinkat(&to_path_buf(target), None, &path).unwrap()
        }
        other => panic!("unexpected plan {:?}", other),
    }
    path
}

/// Creates the file a builder stands for, as on this system.
fn create(builder: FileBuilder) -> PathBuf {
    carry_out(&builder.creation_plan(TargetOs::Other))
}

/// Opens the file a builder stands for, creating it first.
fn open_file(builder: FileBuilder, oflags: OFlag) -> nix::Result<(PathBuf, i32)> {
    match builder.open_plan(TargetOs::Other) {
        OpenPlan::CreateAndOpen { path, mode } => {
            let path = to_path_buf(&path);
            open(&path, OFlag::O_CREAT | oflags, Mode::from_bits_truncate(mode)).map(|fd| (path, fd))
        }
        OpenPlan::CreateThenOpen(plan) => {
            let p = carry_out(&plan);
            open(&p, oflags, Mode::empty()).map(|fd| (p, fd))
        }
    }
}

fn chmod_err(path: &Path) -> Errno {
    fchmodat(None, path, Mode::empty(), FchmodatFlags::FollowSymlink).unwrap_err()
}

#[test]
fn context_create() {
    for ft in [FileType::Regular, FileType::Dir, FileType::Fifo, FileType::Socket, FileType::Symlink(None)] {
        let config = FeaturesConfig::default();
        let tempdir = TempDir::new().unwrap();
        let base = to_fs_path(tempdir.path());
        let ctx = TestContext::new(&config, Duration::from_secs(0), &[], &base);

        assert!(to_path_buf(ctx.base_path()).starts_with(tempdir.path()));

        let file = create(ctx.new_file(ft.clone()));
        let content: Vec<_> = WalkDir::new(tempdir.path())
            .min_depth(1)
            .max_depth(1)
            .into_iter()
            .filter_map(|e| e.ok())
            .collect();
        assert_eq!(content.len(), 1);
        assert_eq!(content[0].path(), &file);
        assert!(is_name(&file_name_bytes(&file), 32));

        let file_stat = lstat(&file).unwrap();
        assert_eq!(
            file_stat.st_mode & nix::libc::S_IFMT,
            match ft {
                FileType::Dir => nix::libc::S_IFDIR,
                FileType::Fifo => nix::libc::S_IFIFO,
                FileType::Regular => nix::libc::S_IFREG,
                FileType::Socket => nix::libc::S_IFSOCK,
                FileType::Symlink(..) => nix::libc::S_IFLNK,
                _ => panic!("no file of this type is created here"),
            }
        )
    }
}

#[test]
fn context_name_max() {
    let tmpdir = TempDir::new().unwrap();
    let config = FeaturesConfig::default();
    let base = to_fs_path(tmpdir.path());
    let ctx = TestContext::new(&config, Duration::from_secs(0), &[], &base);
    let max_len = pathconf(tmpdir.path(), PathconfVar::NAME_MAX).unwrap().unwrap() as usize;
    let file = create(ctx.new_file_name_max(FileType::Regular, max_len));
    let name_len = file.file_name().unwrap().to_string_lossy().len();
    assert_eq!(name_len, max_len);
    let mut invalid = file;
    invalid.set_file_name(invalid.file_name().unwrap().to_string_lossy().into_owned() + "x");
    assert_eq!(chmod_err(&invalid), Errno::ENAMETOOLONG);
}

#[test]
fn context_path_max() {
    let tmpdir = TempDir::new().unwrap();
    let config = FeaturesConfig::default();
    let base = to_fs_path(tmpdir.path());
    let ctx = TestContext::new(&config, Duration::from_secs(0), &[], &base);
    let name_max = pathconf(tmpdir.path(), PathconfVar::NAME_MAX).unwrap().unwrap() as usize;
    let path_max = pathconf(tmpdir.path(), PathconfVar::PATH_MAX).unwrap().unwrap() as usize;
    let (dirs, file) = ctx.path_max_paths(name_max, path_max);
    mkdir_all(&to_path_buf(&dirs));
    let file = create(ctx.new_file(FileType::Regular).name(file.as_bytes()));
    let path_len = file.to_string_lossy().len();

    // including null char
    assert_eq!(path_len, path_max - 1);
    assert!(file.starts_with(tmpdir.path()));
    assert!(lstat(&file).is_ok());
    let mut invalid = file;
    invalid.set_file_name(invalid.file_name().unwrap().to_string_lossy().into_owned() + "x");
    assert_eq!(chmod_err(&invalid), Errno::ENAMETOOLONG);
}

#[test]
fn path_max_for_every_remainder() {
    // 8, 30 and 31 bytes of base leave a remainder of 23, 1 and 0 bytes after whole components.
    for base_str in ["/tmp/abc", "/aaaaaaaaaaaaaaaaaaaaaaaaaaaaa", "/aaaaaaaaaaaaaaaaaaaaaaaaaaaaaa"] {
        let config = FeaturesConfig::default();
        let base = FsPath::from_str(base_str);
        let ctx = TestContext::new(&config, Duration::from_secs(0), &[], &base);
        let (dirs, file) = ctx.path_max_paths(255, 4096);
        assert_eq!(file.len(), 4096 - 1);
        assert!(file.as_bytes().starts_with(dirs.as_bytes()));
        let leaf = &file.as_bytes()[dirs.len() + 1..];
        assert!(!leaf.is_empty() && leaf.len() <= 255);
        assert!(leaf.iter().all(|b| b.is_ascii_alphanumeric()));
    }
}

#[test]
fn path_max_layouts() {
    assert_eq!(
        path_max_layout(8, 255, 4096),
        PathMaxLayout { dir_components: 32, component_len: 126, leaf_len: 22 }
    );
    assert_eq!(
        path_max_layout(30, 255, 4096),
        PathMaxLayout { dir_components: 31, component_len: 126, leaf_len: 127 }
    );
    assert_eq!(
        path_max_layout(31, 255, 4096),
        PathMaxLayout { dir_components: 31, component_len: 126, leaf_len: 126 }
    );
    assert_eq!(
        path_max_layout(0, 10, 9),
        PathMaxLayout { dir_components: 1, component_len: 4, leaf_len: 2 }
    );
}

#[test]
fn context_new_file() {
    let current_umask = nix::sys::stat::umask(Mode::from_bits_truncate(0o7777));
    nix::sys::stat::umask(current_umask);

    for ft in [FileType::Regular, FileType::Dir] {
        let tmpdir = TempDir::new().unwrap();
        let config = FeaturesConfig::default();
        let base = to_fs_path(tmpdir.path());
        let ctx = TestContext::new(&config, Duration::from_secs(0), &[], &base);
        let name = "testing";
        let expected_mode = 0o725;
        let (path, fd) = open_file(
            ctx.new_file(ft).mode(expected_mode).name(name.as_bytes()),
            OFlag::O_RDONLY,
        )
        .unwrap();
        close(fd).unwrap();

        assert_eq!(path.file_name().unwrap().to_string_lossy(), name);

        let file_stat = nix::sys::stat::stat(&path).unwrap();
        let actual_mode = file_stat.st_mode & 0o7777;
        assert_eq!(actual_mode, expected_mode & (!current_umask.bits()));
    }
}

#[test]
fn context_regular_unique_syscall() {
    let tmpdir = TempDir::new().unwrap();
    let config = FeaturesConfig::default();
    let base = to_fs_path(tmpdir.path());
    let ctx = TestContext::new(&config, Duration::from_secs(0), &[], &base);

    assert!(open_file(ctx.new_file(FileType::Regular).mode(0o000), OFlag::O_RDWR).is_ok());
    let builder = ctx.new_file(FileType::Regular).mode(0o444);
    assert_eq!(builder.explicit_mode(), Some(0o444));
}

#[test]
fn default_and_truncated_modes() {
    let base = FsPath::from_str("/tmp/base");
    assert_eq!(FileBuilder::new(FileType::Dir, &base).creation_mode(), 0o755);
    assert_eq!(FileBuilder::new(FileType::Regular, &base).creation_mode(), 0o644);
    assert_eq!(FileBuilder::new(FileType::Fifo, &base).creation_mode(), 0o644);
    assert_eq!(FileBuilder::new(FileType::Regular, &base).mode(0o107777).creation_mode(), 0o7777);
    assert_eq!(FileBuilder::new(FileType::Dir, &base).mode(0o40755).explicit_mode(), Some(0o755));
}

#[test]
fn absolute_name_replaces_path() {
    let base = FsPath::from_str("/tmp/base");
    let mut builder = FileBuilder::new(FileType::Regular, &base).name(b"/elsewhere/file");
    assert_eq!(builder.final_path().as_bytes(), b"/elsewhere/file");
}

#[test]
fn auth_entries_in_order() {
    let root = User::from_uid(Uid::from_raw(0)).unwrap().unwrap();
    let root_group = Group::from_gid(Gid::from_raw(0)).unwrap().unwrap();
    let entries = vec![
        DummyAuthEntry { user: root.clone(), group: root_group.clone() },
        DummyAuthEntry { user: root.clone(), group: root_group.clone() },
    ];
    let config = FeaturesConfig::default();
    let base = FsPath::from_str("/tmp/base");
    let mut ctx = TestContext::new(&config, Duration::from_secs(1), &entries, &base);
    assert_eq!(ctx.naptime(), &Duration::from_secs(1));
    assert!(ctx.has_entry_left());
    let (u, g) = ctx.get_new_entry();
    assert_eq!(u.uid, root.uid);
    assert_eq!(g.gid, root_group.gid);
    let u2 = ctx.get_new_user();
    assert_eq!(u2.name, root.name);
    assert!(!ctx.has_entry_left());
    let mut sctx = SerializedTestContext::new(&config, Duration::from_secs(0), &entries, &base);
    assert_eq!(sctx.context_mut().get_new_group().gid, root_group.gid);
    assert_eq!(sctx.context().base_path().as_bytes(), b"/tmp/base");
}

#[test]
fn groups_for_user() {
    assert_eq!(effective_groups(100, None), vec![100]);
    assert_eq!(effective_groups(100, Some(&[5, 6])), vec![5, 6]);
}

#[test]
fn owner_permissions_reset() {
    assert!(needs_owner_rwx(0o000));
    assert!(needs_owner_rwx(0o40500));
    assert!(!needs_owner_rwx(0o40700));
    assert!(!needs_owner_rwx(0o100777));
}

#[test]
fn creation_plans() {
    let base = FsPath::from_str("/tmp/base");
    match FileBuilder::new(FileType::Dir, &base).name(b"d").creation_plan(TargetOs::Other) {
        CreatePlan::Dir { path, mode } => {
            assert_eq!(path.as_bytes(), b"/tmp/base/d");
            assert_eq!(mode, 0o755);
        }
        other => panic!("unexpected plan {:?}", other),
    }
    match FileBuilder::new(FileType::Symlink(None), &base).name(b"l").creation_plan(TargetOs::Other) {
        CreatePlan::Symlink { target, path, lchmod } => {
            assert_eq!(target.as_bytes(), b"test");
            assert_eq!(path.as_bytes(), b"/tmp/base/l");
            assert_eq!(lchmod, None);
        }
        other => panic!("unexpected plan {:?}", other),
    }
    let target = FsPath::from_str("/etc");
    match FileBuilder::new(FileType::Symlink(Some(target)), &base).creation_plan(TargetOs::Other) {
        CreatePlan::Symlink { target, path, lchmod } => {
            assert_eq!(target.as_bytes(), b"/etc");
            assert!(is_name(&path.as_bytes()[b"/tmp/base/".len()..], 32));
            assert_eq!(lchmod, None);
        }
        other => panic!("unexpected plan {:?}", other),
    }
    match FileBuilder::new(FileType::Socket, &base).name(b"s").creation_plan(TargetOs::Other) {
        CreatePlan::Socket { chmod, .. } => assert_eq!(chmod, None),
        other => panic!("unexpected plan {:?}", other),
    }
    match FileBuilder::new(FileType::Socket, &base).mode(0o600).name(b"s").creation_plan(TargetOs::Other) {
        CreatePlan::Socket { chmod, .. } => assert_eq!(chmod, Some(0o600)),
        other => panic!("unexpected plan {:?}", other),
    }
    match FileBuilder::new(FileType::Char, &base).name(b"c").creation_plan(TargetOs::Other) {
        CreatePlan::Char { mode, .. } => assert_eq!(mode, 0o644),
        other => panic!("unexpected plan {:?}", other),
    }
}

#[test]
fn file_types_listed_once() {
    let all = FileType::all();
    assert_eq!(all.len(), 7);
    assert_eq!(all[6], FileType::Symlink(None));
    assert_eq!(all.iter().filter(|t| t.privileged()).count(), 2);
}

#[test]
fn symlink_mode_where_links_can_change() {
    let base = FsPath::from_str("/tmp/base");
    for (os, expected) in [
        (TargetOs::FreeBsd, Some(0o600)),
        (TargetOs::NetBsd, Some(0o600)),
        (TargetOs::DragonFly, Some(0o600)),
        (TargetOs::MacOs, None),
        (TargetOs::OpenBsd, None),
        (TargetOs::Other, None),
    ] {
        let builder = FileBuilder::new(FileType::Symlink(None), &base).mode(0o600).name(b"l");
        match builder.creation_plan(os) {
            CreatePlan::Symlink { lchmod, .. } => assert_eq!(lchmod, expected),
            other => panic!("unexpected plan {:?}", other),
        }
    }
    // Without a mode asked for, the link is left as it is made.
    match FileBuilder::new(FileType::Symlink(None), &base).creation_plan(TargetOs::FreeBsd) {
        CreatePlan::Symlink { lchmod, .. } => assert_eq!(lchmod, None),
        other => panic!("unexpected plan {:?}", other),
    }
}

#[test]
fn open_plans() {
    let base = FsPath::from_str("/tmp/base");
    match FileBuilder::new(FileType::Regular, &base).name(b"r").open_plan(TargetOs::Other) {
        OpenPlan::CreateAndOpen { path, mode } => {
            assert_eq!(path.as_bytes(), b"/tmp/base/r");
            assert_eq!(mode, 0o644);
        }
        other => panic!("unexpected plan {:?}", other),
    }
    match FileBuilder::new(FileType::Regular, &base).mode(0o600).name(b"r").open_plan(TargetOs::Other) {
        OpenPlan::CreateAndOpen { mode, .. } => assert_eq!(mode, 0o600),
        other => panic!("unexpected plan {:?}", other),
    }
    match FileBuilder::new(FileType::Dir, &base).name(b"d").open_plan(TargetOs::Other) {
        OpenPlan::CreateThenOpen(CreatePlan::Dir { path, mode }) => {
            assert_eq!(path.as_bytes(), b"/tmp/base/d");
            assert_eq!(mode, 0o755);
        }
        other => panic!("unexpected plan {:?}", other),
    }
}

#[test]
fn cleanup_decisions() {
    assert!(cleanup_inspects(TargetOs::Other, true));
    assert!(!cleanup_inspects(TargetOs::Other, false));
    assert!(cleanup_inspects(TargetOs::FreeBsd, false));
    assert!(!cleanup_inspects(TargetOs::MacOs, false));
    assert_eq!(
        cleanup_steps(TargetOs::Other, 0o40500, 0),
        CleanupSteps { restore_owner_rwx: true, clear_flags: false }
    );
    assert_eq!(
        cleanup_steps(TargetOs::NetBsd, 0o100700, 0o20000),
        CleanupSteps { restore_owner_rwx: false, clear_flags: true }
    );
    assert_eq!(
        cleanup_steps(TargetOs::MacOs, 0o100777, 0o20000),
        CleanupSteps { restore_owner_rwx: false, clear_flags: false }
    );
}
