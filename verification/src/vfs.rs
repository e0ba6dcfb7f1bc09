//! File system operations that say how they run, handles on files, and the steps by which
//! a POSIX system resolves and removes a file.

use std::future::Future;
use std::marker::PhantomData;
use std::path::PathBuf;
use vstd::prelude::*;

verus! {

/// How an operation runs.
#[derive(Debug, Copy, Clone, PartialEq, Eq, Structural)]
pub enum VfsOpType {
    /// On the calling thread, and it may block it.
    MayBlock,
    /// On the calling thread, without blocking it.
    WontBlock,
    /// As a future.
    Async,
}

/// Why an operation failed.
#[derive(Debug, Copy, Clone, PartialEq, Eq, Structural)]
pub enum VfsError {
    /// The file system does not have the operation.
    Unsupported,
    /// The operating system refused, with this error number.
    Os(i32),
}

/// The result of an operation.
pub type VfsResult<T> = Result<T, VfsError>;

/// An operation that runs on the calling thread when it is asked to.
pub struct VfsOpSync<F, R>(F, PhantomData<R>);

/// An operation that is a future.
pub struct VfsOpAsync<F, R>(F, PhantomData<R>);

/// An operation with a result of type `R`.
pub trait VfsOp<R> {
    /// How the operation runs.
    const TYPE: VfsOpType;
}

impl<F: Future<Output = VfsResult<R>>, R> VfsOp<VfsResult<R>> for VfsOpAsync<F, R> {
    const TYPE: VfsOpType = VfsOpType::Async;
}

impl<F: FnOnce() -> VfsResult<R>, R> VfsOp<R> for VfsOpSync<F, R> {
    const TYPE: VfsOpType = VfsOpType::MayBlock;
}

impl<R> VfsOp<R> for VfsResult<R> {
    const TYPE: VfsOpType = VfsOpType::WontBlock;
}

impl<R> VfsOp<R> for () {
    const TYPE: VfsOpType = VfsOpType::WontBlock;
}

/// An operation that can be run to its end on the calling thread.
pub trait VfsRun<R>: VfsOp<R> + Sized {
    /// Whether the operation can be run.
    spec fn can_run(self) -> bool;

    /// Whether running the operation can give this result.
    spec fn can_give(self, result: VfsResult<R>) -> bool;

    /// Runs the operation.
    fn run(self) -> (result: VfsResult<R>)
        requires
            self.can_run(),
        ensures
            self.can_give(result),
    ;
}

impl<F: FnOnce() -> VfsResult<R>, R> VfsRun<R> for VfsOpSync<F, R> {
    closed spec fn can_run(self) -> bool {
        call_requires(self.0, ())
    }

    closed spec fn can_give(self, result: VfsResult<R>) -> bool {
        call_ensures(self.0, (), result)
    }

    fn run(self) -> (result: VfsResult<R>) {
        (self.0)()
    }
}

impl<R> VfsRun<R> for VfsResult<R> {
    open spec fn can_run(self) -> bool {
        true
    }

    open spec fn can_give(self, result: VfsResult<R>) -> bool {
        result == self
    }

    fn run(self) -> (result: VfsResult<R>) {
        self
    }
}

/// An operation that runs `f` on the calling thread. It can be run where `f` can be called,
/// and gives what `f` gives.
pub fn sync<F: FnOnce() -> VfsResult<R>, R>(f: F) -> (op: VfsOpSync<F, R>)
    ensures
        op.can_run() == call_requires(f, ()),
        forall|result: VfsResult<R>|
            #[trigger] op.can_give(result) == call_ensures(f, (), result),
{
    VfsOpSync(f, PhantomData)
}

/// Runs operations.
#[derive(Default)]
pub struct VfsDriver {}

impl VfsDriver {
    /// Runs an operation to its end on the calling thread.
    pub fn sync<R, Op: VfsRun<R>>(&self, op: Op) -> (result: VfsResult<R>)
        requires
            op.can_run(),
        ensures
            op.can_give(result),
    {
        op.run()
    }
}

impl VfsError {
    /// The text of an error that is not the operating system's.
    pub fn message(&self) -> (text: Option<&'static str>)
        ensures
            match *self {
                VfsError::Unsupported => text matches Some(t) && t@ == "Unsupported VFS operation"@,
                VfsError::Os(_) => text is None,
            },
    {
        match self {
            VfsError::Unsupported => Some("Unsupported VFS operation"),
            VfsError::Os(_) => None,
        }
    }
}

/// What a file system answers to an operation that it does not have.
pub fn unsupported<R>() -> (r: VfsResult<R>)
    ensures
        r == Err::<R, VfsError>(VfsError::Unsupported),
{
    Err(VfsError::Unsupported)
}

/// A file that can be read, written and searched through, piece by piece.
pub trait VfsFile {
    /// Continues to read.
    fn poll_read();

    /// Continues to write.
    fn poll_write();

    /// Starts to move to another position.
    fn start_seek();

    /// Continues to move to another position.
    fn poll_seek();
}

/// A path.
#[verifier::external_type_specification]
#[verifier::external_body]
pub struct ExPathBuf(std::path::PathBuf);

/// The bytes of a path without its last component.
pub uninterp spec fn path_parent(path: std::path::PathBuf) -> Option<Seq<u8>>;

/// The bytes of the last component of a path.
pub uninterp spec fn path_file_name(path: std::path::PathBuf) -> Option<Seq<u8>>;

/// A name or a path that may be missing, by its bytes.
pub open spec fn bytes_of(part: Option<Vec<u8>>) -> Option<Seq<u8>> {
    match part {
        Some(bytes) => Some(bytes@),
        None => None,
    }
}

/// `Path::parent` gives the path without its last component, where there is one, here by its
/// bytes. What counts as a component is left to the path.
#[verifier::external_body]
fn parent_of(path: &PathBuf) -> (parent: Option<Vec<u8>>)
    ensures
        bytes_of(parent) == path_parent(*path),
{
    path.parent().map(|parent| parent.as_os_str().as_encoded_bytes().to_vec())
}

/// `Path::file_name` gives the last component of the path, where it is a name, here by its
/// bytes. What counts as a component is left to the path.
#[verifier::external_body]
fn file_name_of(path: &PathBuf) -> (filename: Option<Vec<u8>>)
    ensures
        bytes_of(filename) == path_file_name(*path),
{
    path.file_name().map(|filename| filename.as_encoded_bytes().to_vec())
}

/// What a handle refers to.
pub enum VfsPlace<'a> {
    /// The file under a path.
    Path(&'a PathBuf),
    /// A file in an open directory, by the bytes of its name. The directory itself has no
    /// name in it.
    At(i32, Option<Vec<u8>>),
}

impl<'a> VfsPlace<'a> {
    /// The place is a file of this name in an open directory.
    pub open spec fn is_at(self, directory: i32, name: Option<Seq<u8>>) -> bool {
        self matches VfsPlace::At(dirfd, filename) && dirfd == directory && bytes_of(filename)
            == name
    }
}

/// A handle on a file.
pub struct VfsHandle<'a>(VfsPlace<'a>);

impl<'a> View for VfsHandle<'a> {
    type V = VfsPlace<'a>;

    closed spec fn view(&self) -> VfsPlace<'a> {
        self.0
    }
}

impl<'a> VfsHandle<'a> {
    /// A handle on the file under a path.
    pub fn from_path(path: &'a PathBuf) -> (handle: VfsHandle<'a>)
        ensures
            handle@ == VfsPlace::Path(path),
    {
        VfsHandle(VfsPlace::Path(path))
    }

    /// A handle on a file in an open directory.
    pub fn from_dirfd(dirfd: i32, filename: Option<Vec<u8>>) -> (handle: VfsHandle<'a>)
        ensures
            handle@ == VfsPlace::At(dirfd, filename),
    {
        VfsHandle(VfsPlace::At(dirfd, filename))
    }

    /// What the handle refers to.
    pub fn place(&self) -> (place: &VfsPlace<'a>)
        ensures
            *place == self@,
    {
        &self.0
    }

    /// The directory and the name of a file that was found in an open directory.
    pub fn posix(&self) -> (r: (i32, Option<&Vec<u8>>))
        requires
            self@ is At,
        ensures
            match r.1 {
                Some(filename) => self@ == VfsPlace::At(r.0, Some(*filename)),
                None => self@ == VfsPlace::At(r.0, None),
            },
    {
        match &self.0 {
            VfsPlace::At(dirfd, Some(filename)) => (*dirfd, Some(filename)),
            VfsPlace::At(dirfd, None) => (*dirfd, None),
            VfsPlace::Path(_) => (0, None),
        }
    }
}

/// The result of a system call that answers -1 when it fails and leaves the reason in
/// `errno`.
pub fn with_errno(r: i32, errno: i32) -> (result: Result<i32, i32>)
    ensures
        result == (if r != -1 {
            Ok::<i32, i32>(r)
        } else {
            Err(errno)
        }),
{
    if r != -1 {
        Ok(r)
    } else {
        Err(errno)
    }
}

/// The file system of a POSIX system, with the numbers that the system at hand uses.
pub struct PosixVfs {
    /// What stands for the current directory in place of an open one.
    pub at_fdcwd: i32,
    /// The error number for a file that is a directory.
    pub eisdir: i32,
}

/// What to do next to resolve a path.
pub enum ResolveAction<'a> {
    /// Open a directory, in which a file of this name is then to be found.
    OpenDirectory {
        /// The path of the directory.
        directory: Vec<u8>,
        /// The name of the file.
        filename: Option<Vec<u8>>,
    },
    /// Stop with this handle.
    Finish(VfsHandle<'a>),
}

/// What to do next to remove a file.
#[derive(Debug, PartialEq, Eq)]
pub enum UnlinkAction {
    /// Remove it as a file, or as a directory.
    Unlink {
        /// Whether to remove it as a directory.
        directory: bool,
    },
    /// Stop with this result.
    Finish(VfsResult<()>),
}

impl PosixVfs {
    /// The step that a path with this parent and this last component asks for. Where there is
    /// a parent, it has to be opened; where there is none, the file is looked for in the
    /// current directory.
    pub open spec fn resolves(
        self,
        parent: Option<Seq<u8>>,
        name: Option<Seq<u8>>,
        action: ResolveAction,
    ) -> bool {
        match parent {
            Some(path) => action matches ResolveAction::OpenDirectory { directory, filename }
                && directory@ == path && bytes_of(filename) == name,
            None => action matches ResolveAction::Finish(handle) && handle@.is_at(
                self.at_fdcwd,
                name,
            ),
        }
    }

    /// Starts to resolve a path.
    pub fn resolve<'a>(&self, path: &'a PathBuf) -> (action: ResolveAction<'a>)
        ensures
            self.resolves(path_parent(*path), path_file_name(*path), action),
    {
        self.resolve_parts(parent_of(path), file_name_of(path))
    }

    /// Starts to resolve a path, given by its parent and its last component.
    pub fn resolve_parts<'a>(&self, parent: Option<Vec<u8>>, filename: Option<Vec<u8>>) -> (action:
        ResolveAction<'a>)
        ensures
            self.resolves(bytes_of(parent), bytes_of(filename), action),
            match action {
                ResolveAction::OpenDirectory { directory, filename: name } => parent == Some(
                    directory,
                ) && name == filename,
                ResolveAction::Finish(handle) => parent is None && handle@ == VfsPlace::At(
                    self.at_fdcwd,
                    filename,
                ),
            },
    {
        match parent {
            Some(directory) => ResolveAction::OpenDirectory { directory, filename },
            None => ResolveAction::Finish(VfsHandle::from_dirfd(self.at_fdcwd, filename)),
        }
    }

    /// Ends the resolution of a path whose parent was to be opened.
    pub fn resolve_in<'a>(&self, opened: Result<i32, i32>, filename: Option<Vec<u8>>) -> (r:
        VfsResult<VfsHandle<'a>>)
        ensures
            match opened {
                Ok(dirfd) => r matches Ok(handle) && handle@ == VfsPlace::At(dirfd, filename),
                Err(errno) => r == Err::<VfsHandle, VfsError>(VfsError::Os(errno)),
            },
    {
        match opened {
            Ok(dirfd) => Ok(VfsHandle::from_dirfd(dirfd, filename)),
            Err(errno) => Err(VfsError::Os(errno)),
        }
    }

    /// What to do next to remove a file, given how the last attempt went and whether it was
    /// made as on a directory.
    pub open spec fn next_unlink(self, last: Option<(bool, Result<i32, i32>)>) -> UnlinkAction {
        match last {
            None => UnlinkAction::Unlink { directory: false },
            Some((_, Ok(_))) => UnlinkAction::Finish(Ok(())),
            Some((false, Err(errno))) => if errno == self.eisdir {
                UnlinkAction::Unlink { directory: true }
            } else {
                UnlinkAction::Finish(Err(VfsError::Os(errno)))
            },
            Some((true, Err(errno))) => UnlinkAction::Finish(Err(VfsError::Os(errno))),
        }
    }

    /// Removes a file, one step at a time. It is tried as a file first; only if the system
    /// says that it is a directory is it tried as a directory.
    pub fn unlink(&self, last: Option<(bool, Result<i32, i32>)>) -> (action: UnlinkAction)
        ensures
            action == self.next_unlink(last),
            action is Finish <==> (last matches Some((directory, r)) && (directory || r != Err::<
                i32,
                i32,
            >(self.eisdir))),
    {
        match last {
            None => UnlinkAction::Unlink { directory: false },
            Some((_, Ok(_))) => UnlinkAction::Finish(Ok(())),
            Some((false, Err(errno))) => {
                if errno != self.eisdir {
                    UnlinkAction::Finish(Err(VfsError::Os(errno)))
                } else {
                    UnlinkAction::Unlink { directory: true }
                }
            },
            Some((true, Err(errno))) => UnlinkAction::Finish(Err(VfsError::Os(errno))),
        }
    }

    /// How removing a file ends on a system that gives these answers to an attempt as a file
    /// and to an attempt as a directory.
    pub open spec fn run_unlink(
        self,
        as_file: Result<i32, i32>,
        as_directory: Result<i32, i32>,
    ) -> VfsResult<()> {
        match self.next_unlink(Some((false, as_file))) {
            UnlinkAction::Finish(result) => result,
            UnlinkAction::Unlink { directory } => match self.next_unlink(
                Some((true, as_directory)),
            ) {
                UnlinkAction::Finish(result) => result,
                UnlinkAction::Unlink { directory } => Err(VfsError::Unsupported),
            },
        }
    }
}

/// Removing a file takes at most two attempts. It succeeds where the file could be removed
/// as a file, or was a directory and could be removed as one; otherwise the error is that of
/// the last attempt.
pub proof fn law_unlink_ends(
    vfs: PosixVfs,
    as_file: Result<i32, i32>,
    as_directory: Result<i32, i32>,
)
    ensures
        vfs.next_unlink(None) == (UnlinkAction::Unlink { directory: false }),
        !(vfs.next_unlink(Some((true, as_directory))) is Unlink),
        vfs.run_unlink(as_file, as_directory) == match as_file {
            Ok(_) => Ok::<(), VfsError>(()),
            Err(errno) => if errno != vfs.eisdir {
                Err(VfsError::Os(errno))
            } else {
                match as_directory {
                    Ok(_) => Ok(()),
                    Err(errno) => Err(VfsError::Os(errno)),
                }
            },
        },
{
}

/// Resolving a path asks to open a directory if and only if the path has a parent, whatever its
/// bytes: exactly that parent, to find the last component in it. It ends at once if and only if
/// the path has no parent, with the last component in the current directory.
pub proof fn law_resolving_opens_the_parent(
    vfs: PosixVfs,
    parent: Option<Seq<u8>>,
    name: Option<Seq<u8>>,
    action: ResolveAction,
)
    requires
        vfs.resolves(parent, name, action),
    ensures
        action is OpenDirectory <==> parent is Some,
        action is Finish <==> parent is None,
        action matches ResolveAction::OpenDirectory { directory, filename } ==> {
            &&& parent == Some(directory@)
            &&& match filename {
                Some(bytes) => name == Some(bytes@),
                None => name is None,
            }
        },
        action matches ResolveAction::Finish(handle) ==> match handle@ {
            VfsPlace::At(dirfd, Some(bytes)) => dirfd == vfs.at_fdcwd && name == Some(bytes@),
            VfsPlace::At(dirfd, None) => dirfd == vfs.at_fdcwd && name is None,
            VfsPlace::Path(_) => false,
        },
{
}

/// A place is in a directory under a name exactly where it was found by that directory and that
/// name.
pub proof fn law_places_are_by_directory_and_name(
    dirfd: i32,
    filename: Vec<u8>,
    path: PathBuf,
    directory: i32,
    name: Option<Seq<u8>>,
)
    ensures
        VfsPlace::At(dirfd, Some(filename)).is_at(directory, name) <==> dirfd == directory && name
            == Some(filename@),
        VfsPlace::At(dirfd, None).is_at(directory, name) <==> dirfd == directory && name is None,
        !VfsPlace::Path(&path).is_at(directory, name),
        bytes_of(Some(filename)) == Some(filename@),
        bytes_of(None) is None,
{
}

/// What comes after an attempt to remove a file. The first attempt is as a file. A success ends
/// in success. An error ends in that error, but for the one that says that the file is a
/// directory, and that only where it was tried as a file: then it is tried as a directory.
pub proof fn law_unlink_steps(vfs: PosixVfs, directory: bool, r: i32, errno: i32)
    ensures
        vfs.next_unlink(None) == (UnlinkAction::Unlink { directory: false }),
        vfs.next_unlink(Some((directory, Ok(r)))) == UnlinkAction::Finish(Ok(())),
        errno != vfs.eisdir ==> vfs.next_unlink(Some((directory, Err(errno))))
            == UnlinkAction::Finish(Err(VfsError::Os(errno))),
        vfs.next_unlink(Some((false, Err(vfs.eisdir)))) == (UnlinkAction::Unlink {
            directory: true,
        }),
        vfs.next_unlink(Some((true, Err(errno)))) == UnlinkAction::Finish(
            Err(VfsError::Os(errno)),
        ),
{
}

} // verus!
