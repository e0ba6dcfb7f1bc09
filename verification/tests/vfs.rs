use deno_raw_http::vfs::{
    sync, unsupported, with_errno, PosixVfs, ResolveAction, UnlinkAction, VfsDriver, VfsError,
    VfsHandle, VfsOp, VfsOpAsync, VfsOpSync, VfsOpType, VfsPlace, VfsResult, VfsRun,
};
use std::path::PathBuf;

#[derive(Default)]
struct MemoryVfs;

impl MemoryVfs {
    fn resolve<'a>(&self, path: &'a PathBuf) -> impl VfsRun<VfsHandle<'a>> {
        Ok(VfsHandle::from_path(path))
    }

    fn rename<'a>(&self, from: VfsHandle<'a>, _to: VfsHandle<'a>) -> impl VfsRun<()> + 'a {
        sync(move || {
            drop(from);
            Ok(())
        })
    }
}

#[test]
fn test_memory_vfs() {
    let vfs = MemoryVfs::default();
    let driver = VfsDriver::default();
    let (a, b) = (PathBuf::from("/a"), PathBuf::from("/b"));
    let from = driver.sync(vfs.resolve(&a)).unwrap();
    let to = driver.sync(vfs.resolve(&b)).unwrap();
    driver.sync(vfs.rename(from, to)).unwrap();
}

#[test]
fn driver_gives_what_the_operation_gives() {
    let driver = VfsDriver::default();
    assert_eq!(driver.sync(Ok::<u32, VfsError>(4)), Ok(4));
    assert_eq!(driver.sync(sync(|| Ok(6))), Ok(6));
    assert_eq!(driver.sync(sync(|| Err::<u32, VfsError>(VfsError::Os(2)))), Err(VfsError::Os(2)));
    assert_eq!(driver.sync(unsupported::<u32>()), Err(VfsError::Unsupported));
    assert_eq!(VfsError::Unsupported.message(), Some("Unsupported VFS operation"));
    assert_eq!(VfsError::Os(5).message(), None);
}

#[test]
fn operations_say_how_they_run() {
    type Call = fn() -> VfsResult<u32>;
    type Later = std::future::Ready<VfsResult<u32>>;
    assert_eq!(<VfsOpSync<Call, u32> as VfsOp<u32>>::TYPE, VfsOpType::MayBlock);
    assert_eq!(<VfsOpAsync<Later, u32> as VfsOp<VfsResult<u32>>>::TYPE, VfsOpType::Async);
    assert_eq!(<VfsResult<u32> as VfsOp<u32>>::TYPE, VfsOpType::WontBlock);
    assert_eq!(<() as VfsOp<u32>>::TYPE, VfsOpType::WontBlock);
}

#[test]
fn failed_calls_answer_minus_one() {
    assert_eq!(with_errno(-1, 21), Err(21));
    assert_eq!(with_errno(0, 21), Ok(0));
    assert_eq!(with_errno(-2, 21), Ok(-2));
}

fn name(text: &str) -> Option<Vec<u8>> {
    Some(text.as_bytes().to_vec())
}

fn posix(handle: &VfsHandle) -> (i32, Option<Vec<u8>>) {
    let (dirfd, filename) = handle.posix();
    (dirfd, filename.cloned())
}

fn step(action: ResolveAction) -> (Option<Vec<u8>>, Option<i32>, Option<Vec<u8>>) {
    match action {
        ResolveAction::OpenDirectory { directory, filename } => (Some(directory), None, filename),
        ResolveAction::Finish(handle) => {
            let (dirfd, filename) = posix(&handle);
            (None, Some(dirfd), filename)
        }
    }
}

#[test]
fn resolving_opens_the_parent() {
    let vfs = PosixVfs { at_fdcwd: -100, eisdir: 21 };
    assert_eq!(
        step(vfs.resolve_parts(name("/etc"), name("hosts"))),
        (name("/etc"), None, name("hosts"))
    );
    assert_eq!(step(vfs.resolve_parts(None, name("x"))), (None, Some(-100), name("x")));
    let handle = vfs.resolve_in(Ok(7), name("hosts")).unwrap();
    assert_eq!(posix(&handle), (7, name("hosts")));
    match vfs.resolve_in(Err(2), None) {
        Err(error) => assert_eq!(error, VfsError::Os(2)),
        Ok(_) => panic!("the directory could not be opened"),
    }
}

#[test]
fn paths_are_split_before_the_last_component() {
    let vfs = PosixVfs { at_fdcwd: -100, eisdir: 21 };
    let resolve = |path: &str| step(vfs.resolve(&PathBuf::from(path)));
    assert_eq!(resolve("/etc/hosts"), (name("/etc"), None, name("hosts")));
    assert_eq!(resolve("/etc/ssh/"), (name("/etc"), None, name("ssh")));
    assert_eq!(resolve("hosts"), (name(""), None, name("hosts")));
    assert_eq!(resolve("a/.."), (name("a"), None, None));
    assert_eq!(resolve("/"), (None, Some(-100), None));
    assert_eq!(resolve(""), (None, Some(-100), None));
}

#[test]
fn unlinking_falls_back_to_directories() {
    let vfs = PosixVfs { at_fdcwd: -100, eisdir: 21 };
    assert_eq!(vfs.unlink(None), UnlinkAction::Unlink { directory: false });
    assert_eq!(vfs.unlink(Some((false, Ok(0)))), UnlinkAction::Finish(Ok(())));
    assert_eq!(
        vfs.unlink(Some((false, Err(2)))),
        UnlinkAction::Finish(Err(VfsError::Os(2)))
    );
    assert_eq!(vfs.unlink(Some((false, Err(21)))), UnlinkAction::Unlink { directory: true });
    assert_eq!(vfs.unlink(Some((true, Ok(0)))), UnlinkAction::Finish(Ok(())));
    assert_eq!(
        vfs.unlink(Some((true, Err(21)))),
        UnlinkAction::Finish(Err(VfsError::Os(21)))
    );
}

#[test]
fn handles_know_their_place() {
    let path = PathBuf::from("/a/b");
    let by_path = VfsHandle::from_path(&path);
    assert!(matches!(by_path.place(), VfsPlace::Path(p) if *p == &path));
    let by_name = VfsHandle::from_dirfd(4, Some(vec![0xff]));
    assert!(matches!(by_name.place(), VfsPlace::At(4, Some(name)) if *name == vec![0xff]));
    assert_eq!(posix(&by_name), (4, Some(vec![0xff])));
}
