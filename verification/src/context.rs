//! The context handed to each test: where it may create files, which features
//! the file system offers, and which dummy users it may switch to; and the
//! builder that plans the creation of files.

use vstd::prelude::*;

use crate::config::{DummyAuthEntry, FeaturesConfig};
use crate::flags::{TargetOs, acts_on_symlinks};
use nix::libc::gid_t;
use nix::sys::stat::mode_t;

use crate::path::{FsPath, SEPARATOR, needs_separator, push_all_spec, push_spec};

verus! {

/// The length of the random names given to files and paths.
pub const NUM_RAND_CHARS: usize = 32;

/// Whether `b` is an ASCII letter or digit.
pub open spec fn is_alphanumeric(b: u8) -> bool {
    (48 <= b && b <= 57) || (65 <= b && b <= 90) || (97 <= b && b <= 122)
}

/// Whether `s` is a name of `len` ASCII letters and digits.
pub open spec fn is_random_name(s: Seq<u8>, len: nat) -> bool {
    s.len() == len && forall|i: int| 0 <= i < s.len() ==> is_alphanumeric(#[trigger] s[i])
}

/// Whether every component of `comps` is a name of `len` ASCII letters and digits.
pub open spec fn all_random_names(comps: Seq<Seq<u8>>, len: nat) -> bool {
    forall|i: int| 0 <= i < comps.len() ==> is_random_name(#[trigger] comps[i], len)
}

/// A random name of `len` ASCII letters and digits.
///
/// Calls `rand`'s `DistString::sample_string` on the `Alphanumeric`
/// distribution with the thread-local generator. The contract claims what
/// `rand` documents of every outcome: the string has `len` characters, each
/// an ASCII letter or digit. Which characters come out is left open.
#[verifier::external_body]
fn random_alphanumeric(len: usize) -> (res: Vec<u8>)
    ensures
        is_random_name(res@, len as nat),
{
    rand::distributions::DistString::sample_string(
        &rand::distributions::Alphanumeric,
        &mut rand::thread_rng(),
        len,
    ).into_bytes()
}

/// The permission bits that a file mode can carry: the read, write and
/// execute bits of owner, group and others, and the set-user-id, set-group-id
/// and sticky bits.
pub open spec fn mode_mask() -> mode_t {
    0o7777
}

/// The file mode made of the permission bits of `bits`: the other bits are
/// cleared.
fn truncate_mode(bits: mode_t) -> (res: mode_t)
    ensures
        res == bits & mode_mask(),
{
    bits & 0o7777
}

/// File type, mainly used with `TestContext::new_file`.
#[derive(Debug, Clone, PartialEq, Eq)]
pub enum FileType {
    Regular,
    Dir,
    Fifo,
    Block,
    Char,
    Socket,
    /// A symbolic link, to the given target or to `test`.
    Symlink(Option<FsPath>),
}

/// Every file type, each once, in declaration order; a symbolic link has no target.
pub open spec fn all_file_types_spec() -> Seq<FileType> {
    seq![
        FileType::Regular,
        FileType::Dir,
        FileType::Fifo,
        FileType::Block,
        FileType::Char,
        FileType::Socket,
        FileType::Symlink(None),
    ]
}

impl FileType {
    /// Every file type, each once, in declaration order; a symbolic link has no target.
    pub fn all() -> (res: Vec<FileType>)
        ensures
            res@ == all_file_types_spec(),
    {
        let mut res = Vec::new();
        res.push(FileType::Regular);
        res.push(FileType::Dir);
        res.push(FileType::Fifo);
        res.push(FileType::Block);
        res.push(FileType::Char);
        res.push(FileType::Socket);
        res.push(FileType::Symlink(None));
        proof {
            assert(res@ =~= all_file_types_spec());
        }
        res
    }

    /// Whether creating a file of this type requires root privileges.
    pub fn privileged(&self) -> (res: bool)
        ensures
            res == (self is Block || self is Char),
    {
        match self {
            FileType::Block | FileType::Char => true,
            _ => false,
        }
    }
}

/// Auth entries which are composed of a user and its associated group.
/// They are handed out in order, each once.
#[derive(Debug)]
pub struct DummyAuthEntries<'a> {
    entries: &'a [DummyAuthEntry],
    index: usize,
}

impl<'a> DummyAuthEntries<'a> {
    /// The entries, in the order in which they are handed out.
    pub closed spec fn entries_view(&self) -> Seq<DummyAuthEntry> {
        self.entries@
    }

    /// The position of the next entry to hand out.
    pub closed spec fn next_index(&self) -> nat {
        self.index as nat
    }

    /// The entries once the next one has been handed out.
    pub closed spec fn advanced(&self) -> DummyAuthEntries<'a> {
        DummyAuthEntries { entries: self.entries, index: (self.index + 1) as usize }
    }

    pub fn new(entries: &'a [DummyAuthEntry]) -> (res: Self)
        ensures
            res.entries_view() == entries@,
            res.next_index() == 0,
    {
        DummyAuthEntries { entries, index: 0 }
    }

    /// Whether an entry is left to hand out.
    pub fn has_entry_left(&self) -> (res: bool)
        ensures
            res == (self.next_index() < self.entries_view().len()),
    {
        self.index < self.entries.len()
    }

    /// Returns a new entry: the first one not handed out yet.
    pub fn get_new_entry(&mut self) -> (res: (&'a nix::unistd::User, &'a nix::unistd::Group))
        requires
            old(self).next_index() < old(self).entries_view().len(),
        ensures
            *final(self) == old(self).advanced(),
            final(self).entries_view() == old(self).entries_view(),
            final(self).next_index() == old(self).next_index() + 1,
            *res.0 == old(self).entries_view()[old(self).next_index() as int].user,
            *res.1 == old(self).entries_view()[old(self).next_index() as int].group,
    {
        let entries: &'a [DummyAuthEntry] = self.entries;
        let entry: &'a DummyAuthEntry = &entries[self.index];
        self.index = self.index + 1;
        (&entry.user, &entry.group)
    }
}

/// Allows to create a file using builder pattern.
#[derive(Debug)]
pub struct FileBuilder {
    file_type: FileType,
    path: FsPath,
    random_name: bool,
    mode: Option<mode_t>,
}

/// The mode a file is created with when none is given.
pub open spec fn default_mode(ft: FileType) -> mode_t {
    if ft is Dir {
        0o755
    } else {
        0o644
    }
}

impl FileBuilder {
    /// The type of the file to create.
    pub closed spec fn spec_file_type(&self) -> FileType {
        self.file_type
    }

    /// The path the file will be created at (before a random name is added).
    pub closed spec fn spec_path(&self) -> Seq<u8> {
        self.path@
    }

    /// Whether a random name will be joined onto the path.
    pub closed spec fn spec_random_name(&self) -> bool {
        self.random_name
    }

    /// The mode asked for, if any.
    pub closed spec fn spec_mode(&self) -> Option<mode_t> {
        self.mode
    }

    /// Create a file builder, for a file with a random name in `base_path`.
    pub fn new(file_type: FileType, base_path: &FsPath) -> (res: Self)
        ensures
            res.spec_file_type() == file_type,
            res.spec_path() == base_path@,
            res.spec_random_name(),
            res.spec_mode() is None,
    {
        FileBuilder { path: base_path.duplicate(), random_name: true, mode: None, file_type }
    }

    /// Change file mode; only the permission bits are kept.
    pub fn mode(self, mode: mode_t) -> (res: Self)
        ensures
            res.spec_file_type() == self.spec_file_type(),
            res.spec_path() == self.spec_path(),
            res.spec_random_name() == self.spec_random_name(),
            res.spec_mode() == Some(mode & mode_mask()),
            res.spec_mode() == Some(mode & 0o7777),
    {
        let FileBuilder { file_type, path, random_name, mode: _ } = self;
        FileBuilder { file_type, path, random_name, mode: Some(truncate_mode(mode)) }
    }

    /// Join `name` to the base path.
    /// An absolute path can also be provided, in this case it completely replaces the path.
    pub fn name(self, name: &[u8]) -> (res: Self)
        ensures
            res.spec_file_type() == self.spec_file_type(),
            res.spec_path() == push_spec(self.spec_path(), name@),
            !res.spec_random_name(),
            res.spec_mode() == self.spec_mode(),
    {
        let FileBuilder { file_type, path, random_name: _, mode } = self;
        let mut path = path;
        path.push(name);
        FileBuilder { file_type, path, random_name: false, mode }
    }

    /// The type of the file to create.
    pub fn file_type(&self) -> (res: &FileType)
        ensures
            *res == self.spec_file_type(),
    {
        &self.file_type
    }

    /// The mode asked for, if any.
    pub fn explicit_mode(&self) -> (res: Option<mode_t>)
        ensures
            res == self.spec_mode(),
    {
        self.mode
    }

    /// The mode the file is created with: the one asked for, or else 0o755 for
    /// a directory and 0o644 for any other file.
    pub fn creation_mode(&self) -> (res: mode_t)
        ensures
            res == match self.spec_mode() {
                Some(m) => m,
                None => default_mode(self.spec_file_type()),
            },
            self.spec_mode() is None ==> res == if self.spec_file_type() is Dir {
                0o755 as mode_t
            } else {
                0o644 as mode_t
            },
    {
        match self.mode {
            Some(m) => m,
            None => {
                match self.file_type {
                    FileType::Dir => 0o755,
                    _ => 0o644,
                }
            },
        }
    }

    /// Take and return the path in its final form: with a random name joined
    /// onto it, unless a name was given.
    pub fn final_path(&mut self) -> (res: FsPath)
        ensures
            final(self).spec_file_type() == old(self).spec_file_type(),
            final(self).spec_random_name() == old(self).spec_random_name(),
            final(self).spec_mode() == old(self).spec_mode(),
            final(self).spec_path() == Seq::<u8>::empty(),
            old(self).spec_random_name() ==> exists|name: Seq<u8>|
                is_random_name(name, NUM_RAND_CHARS as nat) && res@ == push_spec(
                    old(self).spec_path(),
                    name,
                ),
            !old(self).spec_random_name() ==> res@ == old(self).spec_path(),
    {
        if self.random_name {
            let name = random_alphanumeric(NUM_RAND_CHARS);
            self.path.push(name.as_slice());
        }
        let mut res = FsPath::new();
        std::mem::swap(&mut res, &mut self.path);
        res
    }
}

/// The target of a symbolic link created without one: the relative path `test`.
pub open spec fn default_symlink_target() -> Seq<u8> {
    seq![116u8, 101u8, 115u8, 116u8]
}

/// What creating a file amounts to: the kind of node made at `path`, with the
/// mode it is made with. A socket is bound at `path` and then, if a mode was
/// asked for, changed to it; a symbolic link points at `target` and then, if
/// `lchmod` holds a mode, the link itself is changed to it.
#[derive(Debug)]
pub enum CreatePlan {
    Regular { path: FsPath, mode: mode_t },
    Dir { path: FsPath, mode: mode_t },
    Fifo { path: FsPath, mode: mode_t },
    Block { path: FsPath, mode: mode_t },
    Char { path: FsPath, mode: mode_t },
    Socket { path: FsPath, chmod: Option<mode_t> },
    Symlink { target: FsPath, path: FsPath, lchmod: Option<mode_t> },
}

/// Whether `plan` creates a file of type `ft` at `path`, with the mode `mode`
/// (or, for a socket, changed afterwards to the mode `explicit` asked for; for
/// a symbolic link, changed to it too where `os` can change a link itself).
pub open spec fn is_plan_for(plan: CreatePlan, ft: FileType, mode: mode_t, explicit: Option<mode_t>, path: Seq<u8>, os: TargetOs) -> bool {
    match ft {
        FileType::Regular => plan matches CreatePlan::Regular { path: p, mode: m } && p@ == path && m == mode,
        FileType::Dir => plan matches CreatePlan::Dir { path: p, mode: m } && p@ == path && m == mode,
        FileType::Fifo => plan matches CreatePlan::Fifo { path: p, mode: m } && p@ == path && m == mode,
        FileType::Block => plan matches CreatePlan::Block { path: p, mode: m } && p@ == path && m == mode,
        FileType::Char => plan matches CreatePlan::Char { path: p, mode: m } && p@ == path && m == mode,
        FileType::Socket => plan matches CreatePlan::Socket { path: p, chmod: c } && p@ == path && c == explicit,
        FileType::Symlink(t) => plan matches CreatePlan::Symlink { target: tg, path: p, lchmod: l } && p@ == path
            && tg@ == match t {
                Some(t) => t@,
                None => default_symlink_target(),
            }
            && l == if acts_on_symlinks(os) {
                explicit
            } else {
                None
            },
    }
}

/// The node a plan makes is fixed by the file's type, one kind for each type:
/// a regular file, a directory, a FIFO, a block device (`S_IFBLK`), a
/// character device (`S_IFCHR`), a socket or a symbolic link.
pub proof fn lemma_plan_kind(plan: CreatePlan, ft: FileType, mode: mode_t, explicit: Option<mode_t>, path: Seq<u8>, os: TargetOs)
    requires
        is_plan_for(plan, ft, mode, explicit, path, os),
    ensures
        ft is Regular <==> plan is Regular,
        ft is Dir <==> plan is Dir,
        ft is Fifo <==> plan is Fifo,
        ft is Block <==> plan is Block,
        ft is Char <==> plan is Char,
        ft is Socket <==> plan is Socket,
        ft is Symlink <==> plan is Symlink,
{
}

/// What creating a file amounts to, stated by its parts: the node's kind is
/// the one of the file's type; a regular file, a FIFO and a device are made
/// with the mode asked for, or else 0o644, and a directory with the mode asked
/// for, or else 0o755; a socket is changed afterwards to the mode asked for,
/// if any; a symbolic link points at its target, or at `test`, and is changed
/// itself to the mode asked for on FreeBSD, NetBSD and DragonFly only.
pub proof fn lemma_creation_plan_parts(b: FileBuilder, plan: CreatePlan, os: TargetOs)
    requires
        b.is_creation_plan(plan, os),
    ensures
        ({
            let ft = b.spec_file_type();
            &&& (ft is Regular <==> plan is Regular)
            &&& (ft is Dir <==> plan is Dir)
            &&& (ft is Fifo <==> plan is Fifo)
            &&& (ft is Block <==> plan is Block)
            &&& (ft is Char <==> plan is Char)
            &&& (ft is Socket <==> plan is Socket)
            &&& (ft is Symlink <==> plan is Symlink)
        }),
        plan matches CreatePlan::Regular { mode, .. } ==> mode == match b.spec_mode() {
            Some(m) => m,
            None => 0o644,
        },
        plan matches CreatePlan::Dir { mode, .. } ==> mode == match b.spec_mode() {
            Some(m) => m,
            None => 0o755,
        },
        plan matches CreatePlan::Fifo { mode, .. } ==> mode == match b.spec_mode() {
            Some(m) => m,
            None => 0o644,
        },
        plan matches CreatePlan::Block { mode, .. } ==> mode == match b.spec_mode() {
            Some(m) => m,
            None => 0o644,
        },
        plan matches CreatePlan::Char { mode, .. } ==> mode == match b.spec_mode() {
            Some(m) => m,
            None => 0o644,
        },
        plan matches CreatePlan::Socket { chmod, .. } ==> chmod == b.spec_mode(),
        plan matches CreatePlan::Symlink { target, lchmod, .. } ==> {
            &&& target@ == match b.spec_file_type() {
                FileType::Symlink(Some(t)) => t@,
                _ => seq![116u8, 101u8, 115u8, 116u8],
            }
            &&& lchmod == if os is FreeBsd || os is NetBsd || os is DragonFly {
                b.spec_mode()
            } else {
                None
            }
        },
{
    let mode = match b.spec_mode() {
        Some(m) => m,
        None => default_mode(b.spec_file_type()),
    };
    if b.spec_random_name() {
        let name = choose|name: Seq<u8>|
            is_random_name(name, NUM_RAND_CHARS as nat) && is_plan_for(
                plan,
                b.spec_file_type(),
                mode,
                b.spec_mode(),
                push_spec(b.spec_path(), name),
                os,
            );
        lemma_plan_kind(plan, b.spec_file_type(), mode, b.spec_mode(), push_spec(b.spec_path(), name), os);
    } else {
        lemma_plan_kind(plan, b.spec_file_type(), mode, b.spec_mode(), b.spec_path(), os);
    }
}

impl CreatePlan {
    /// The path of the file to create.
    pub fn path(&self) -> (res: &FsPath)
        ensures
            res@ == match *self {
                CreatePlan::Regular { path, .. } => path@,
                CreatePlan::Dir { path, .. } => path@,
                CreatePlan::Fifo { path, .. } => path@,
                CreatePlan::Block { path, .. } => path@,
                CreatePlan::Char { path, .. } => path@,
                CreatePlan::Socket { path, .. } => path@,
                CreatePlan::Symlink { path, .. } => path@,
            },
    {
        match self {
            CreatePlan::Regular { path, .. } => path,
            CreatePlan::Dir { path, .. } => path,
            CreatePlan::Fifo { path, .. } => path,
            CreatePlan::Block { path, .. } => path,
            CreatePlan::Char { path, .. } => path,
            CreatePlan::Socket { path, .. } => path,
            CreatePlan::Symlink { path, .. } => path,
        }
    }
}

impl FileBuilder {
    /// Whether `plan` is what creating the file amounts to on the system
    /// `os`: the file's type decides the kind of node, `creation_mode` its
    /// mode, and `final_path` where it is made (with a random name of
    /// `NUM_RAND_CHARS` letters and digits, unless a name was given).
    pub open spec fn is_creation_plan(self, plan: CreatePlan, os: TargetOs) -> bool {
        let mode = match self.spec_mode() {
            Some(m) => m,
            None => default_mode(self.spec_file_type()),
        };
        if self.spec_random_name() {
            exists|name: Seq<u8>|
                is_random_name(name, NUM_RAND_CHARS as nat) && is_plan_for(
                    plan,
                    self.spec_file_type(),
                    mode,
                    self.spec_mode(),
                    push_spec(self.spec_path(), name),
                    os,
                )
        } else {
            is_plan_for(plan, self.spec_file_type(), mode, self.spec_mode(), self.spec_path(), os)
        }
    }

    /// What creating the file amounts to on the system `os`.
    pub fn creation_plan(self, os: TargetOs) -> (res: CreatePlan)
        ensures
            self.is_creation_plan(res, os),
            self.spec_file_type() is Regular <==> res is Regular,
            self.spec_file_type() is Dir <==> res is Dir,
            self.spec_file_type() is Fifo <==> res is Fifo,
            self.spec_file_type() is Block <==> res is Block,
            self.spec_file_type() is Char <==> res is Char,
            self.spec_file_type() is Socket <==> res is Socket,
            self.spec_file_type() is Symlink <==> res is Symlink,
    {
        let mode = self.creation_mode();
        let explicit = self.mode;
        let mut builder = self;
        let path = builder.final_path();
        match builder.file_type {
            FileType::Regular => CreatePlan::Regular { path, mode },
            FileType::Dir => CreatePlan::Dir { path, mode },
            FileType::Fifo => CreatePlan::Fifo { path, mode },
            FileType::Block => CreatePlan::Block { path, mode },
            FileType::Char => CreatePlan::Char { path, mode },
            FileType::Socket => CreatePlan::Socket { path, chmod: explicit },
            FileType::Symlink(target) => {
                let target = match target {
                    Some(t) => t,
                    None => FsPath::from_bytes(vec![116u8, 101u8, 115u8, 116u8]),
                };
                let lchmod = if os.acts_on_symlinks() {
                    explicit
                } else {
                    None
                };
                CreatePlan::Symlink { target, path, lchmod }
            },
        }
    }
}

/// What opening a newly created file amounts to.
#[derive(Debug)]
pub enum OpenPlan {
    /// Open `path` with `O_CREAT` added to the flags asked for, and with
    /// `mode`: the one call creates and opens a regular file.
    CreateAndOpen { path: FsPath, mode: mode_t },
    /// Carry out the creation plan, then open its path with the flags asked for.
    CreateThenOpen(CreatePlan),
}

/// Whether `open` opens what the creation plan `create` makes: a regular file
/// in one call, any other file once it is made.
pub open spec fn opens_created(open: OpenPlan, create: CreatePlan) -> bool {
    match create {
        CreatePlan::Regular { path, mode } => open == (OpenPlan::CreateAndOpen { path, mode }),
        _ => open == OpenPlan::CreateThenOpen(create),
    }
}

/// Opening a new file makes and opens it in one call exactly when it is a
/// regular file, with the path and mode the regular file is made with; any
/// other file is made first, by its creation plan, and opened after.
pub proof fn lemma_open_plan_parts(b: FileBuilder, create: CreatePlan, open: OpenPlan, os: TargetOs)
    requires
        b.is_creation_plan(create, os),
        opens_created(open, create),
    ensures
        open is CreateAndOpen <==> b.spec_file_type() is Regular,
        open matches OpenPlan::CreateAndOpen { path, mode } ==> create == (CreatePlan::Regular { path, mode }),
        !(b.spec_file_type() is Regular) ==> open == OpenPlan::CreateThenOpen(create),
{
    lemma_creation_plan_parts(b, create, os);
}

impl FileBuilder {
    /// What creating the file and opening it amounts to on the system `os`.
    pub fn open_plan(self, os: TargetOs) -> (res: OpenPlan)
        ensures
            exists|c: CreatePlan| #[trigger] self.is_creation_plan(c, os) && opens_created(res, c),
            res is CreateAndOpen <==> self.spec_file_type() is Regular,
    {
        let ghost builder = self;
        let plan = self.creation_plan(os);
        proof {
            assert(builder.is_creation_plan(plan, os));
            lemma_creation_plan_parts(builder, plan, os);
        }
        match plan {
            CreatePlan::Regular { path, mode } => OpenPlan::CreateAndOpen { path, mode },
            other => OpenPlan::CreateThenOpen(other),
        }
    }
}

/// The context of a test: its directory, the file-system configuration and
/// the dummy users it may switch to.
pub struct TestContext<'a> {
    naptime: core::time::Duration,
    temp_dir: &'a FsPath,
    features_config: &'a FeaturesConfig,
    auth_entries: DummyAuthEntries<'a>,
}

/// How `TestContext::path_max_paths` lays out a path of the maximal length:
/// `dir_components` directories, each named with `component_len` characters,
/// then a file named with `leaf_len` characters.
#[derive(Debug, Clone, Copy, PartialEq, Eq, Structural)]
pub struct PathMaxLayout {
    pub dir_components: usize,
    pub component_len: usize,
    pub leaf_len: usize,
}

/// The limits under which a path of maximal length can be laid out: a name
/// can hold at least four characters (so that a component spans at least two
/// bytes, separator included), and the maximal path leaves room for at least
/// a separator and a one-character name after the base path.
pub open spec fn path_max_inputs_ok(base_len: int, name_max: int, path_max: int) -> bool {
    &&& name_max / 2 >= 2
    &&& base_len + 2 <= path_max - 1
}

/// Components span half of the maximal name length, separator included; the
/// room left after the base path is filled with as many whole components as
/// fit, then a last name that takes what remains. When what remains is too
/// short for a separator and a name (zero or one byte), the last whole
/// component gives its room to the last name, which then has one or two bytes
/// more.
pub open spec fn path_max_layout_spec(base_len: int, name_max: int, path_max: int) -> PathMaxLayout {
    let c: int = name_max / 2;
    let rem: int = path_max - 1 - base_len;
    let n: int = rem / c;
    let r: int = rem % c;
    if r >= 2 {
        PathMaxLayout { dir_components: n as usize, component_len: (c - 1) as usize, leaf_len: (r - 1) as usize }
    } else {
        PathMaxLayout {
            dir_components: (n - 1) as usize,
            component_len: (c - 1) as usize,
            leaf_len: (c - 1 + r) as usize,
        }
    }
}

/// The length of the path laid out by `path_max_layout_spec` when the base
/// path needs a separator before its next component.
pub open spec fn path_max_len_spec(base_len: int, name_max: int, path_max: int) -> int {
    let l = path_max_layout_spec(base_len, name_max, path_max);
    base_len + l.dir_components * (l.component_len + 1) + l.leaf_len + 1
}

/// A path laid out for the maximal length, on a base path that needs a
/// separator, is exactly `path_max - 1` bytes long (the limit counts the
/// terminating null byte), and none of its names is empty or longer than
/// `name_max`.
pub proof fn lemma_path_max_length(base_len: int, name_max: int, path_max: int)
    requires
        0 <= base_len <= usize::MAX,
        0 <= name_max <= usize::MAX,
        0 <= path_max <= usize::MAX,
        path_max_inputs_ok(base_len, name_max, path_max),
    ensures
        path_max_len_spec(base_len, name_max, path_max) == path_max - 1,
        ({
            let l = path_max_layout_spec(base_len, name_max, path_max);
            &&& 1 <= l.component_len <= name_max
            &&& 1 <= l.leaf_len <= name_max
        }),
{
    let c: int = name_max / 2;
    let rem: int = path_max - 1 - base_len;
    let n: int = rem / c;
    let r: int = rem % c;
    assert(n * c + r == rem && 0 <= r < c && n >= 0) by (nonlinear_arith)
        requires
            c > 0,
            rem >= 0,
            n == rem / c,
            r == rem % c,
    ;
    let l = path_max_layout_spec(base_len, name_max, path_max);
    assert(n <= rem) by (nonlinear_arith)
        requires
            n * c + r == rem,
            c > 0,
            r >= 0,
            n >= 0,
    ;
    assert(c <= name_max);
    if r >= 2 {
        assert(l.dir_components == n && l.component_len + 1 == c && l.leaf_len == r - 1);
    } else {
        assert(n >= 1) by (nonlinear_arith)
            requires
                n * c + r == rem,
                r < 2,
                rem >= 2,
                n >= 0,
        ;
        assert(l.dir_components == n - 1 && l.component_len + 1 == c && l.leaf_len == c - 1 + r);
        assert((n - 1) * c + c == n * c) by (nonlinear_arith);
    }
}

/// Lays out a path of the maximal length.
pub fn path_max_layout(base_len: usize, name_max: usize, path_max: usize) -> (res: PathMaxLayout)
    requires
        path_max_inputs_ok(base_len as int, name_max as int, path_max as int),
    ensures
        res == path_max_layout_spec(base_len as int, name_max as int, path_max as int),
{
    let component_len: usize = name_max / 2;
    let max_path_len: usize = path_max - 1;
    let remaining: usize = max_path_len - base_len;
    let n: usize = remaining / component_len;
    let r: usize = remaining % component_len;
    if r >= 2 {
        PathMaxLayout { dir_components: n, component_len: component_len - 1, leaf_len: r - 1 }
    } else {
        assert(n >= 1) by (nonlinear_arith)
            requires
                r == remaining % component_len,
                n == remaining / component_len,
                r < 2,
                remaining >= 2,
                component_len > 0,
        ;
        PathMaxLayout { dir_components: n - 1, component_len: component_len - 1, leaf_len: component_len - 1 + r }
    }
}

/// Joining a random name onto a path that needs a separator adds the
/// separator and the name, and leaves a path that needs a separator again.
proof fn lemma_push_random_name(base: Seq<u8>, name: Seq<u8>, len: nat)
    requires
        needs_separator(base),
        is_random_name(name, len),
        len >= 1,
    ensures
        push_spec(base, name) == base.push(SEPARATOR) + name,
        push_spec(base, name).len() == base.len() + len + 1,
        needs_separator(push_spec(base, name)),
{
    assert(is_alphanumeric(name[0]));
    assert(is_alphanumeric(name[name.len() - 1]));
    assert((base.push(SEPARATOR) + name).last() == name[name.len() - 1]);
}

/// Joining random names onto a path that needs a separator adds a separator
/// and a name for each of them.
pub proof fn lemma_push_all_random_names(base: Seq<u8>, comps: Seq<Seq<u8>>, len: nat)
    requires
        needs_separator(base),
        all_random_names(comps, len),
        len >= 1,
    ensures
        push_all_spec(base, comps).len() == base.len() + comps.len() * (len + 1),
        needs_separator(push_all_spec(base, comps)),
    decreases comps.len(),
{
    if comps.len() > 0 {
        let dl = comps.drop_last();
        assert(all_random_names(dl, len)) by {
            assert forall|i: int| 0 <= i < dl.len() implies is_random_name(#[trigger] dl[i], len) by {
                assert(dl[i] == comps[i]);
            }
        }
        lemma_push_all_random_names(base, dl, len);
        assert(is_random_name(comps[comps.len() - 1], len));
        lemma_push_random_name(push_all_spec(base, dl), comps.last(), len);
        assert(dl.len() * (len + 1) + (len + 1) == comps.len() * (len + 1)) by (nonlinear_arith)
            requires
                dl.len() + 1 == comps.len(),
        ;
    }
}

impl<'a> TestContext<'a> {
    /// The directory of the test.
    pub closed spec fn base_view(&self) -> Seq<u8> {
        self.temp_dir@
    }

    /// The file-system configuration.
    pub closed spec fn features_view(&self) -> &'a FeaturesConfig {
        self.features_config
    }

    /// The time a nap lasts.
    pub closed spec fn naptime_view(&self) -> core::time::Duration {
        self.naptime
    }

    /// The dummy users not handed out yet, and those that were.
    pub closed spec fn auth_view(&self) -> DummyAuthEntries<'a> {
        self.auth_entries
    }

    /// Create a new test context.
    pub fn new(
        features_config: &'a FeaturesConfig,
        naptime: core::time::Duration,
        entries: &'a [DummyAuthEntry],
        temp_dir: &'a FsPath,
    ) -> (res: Self)
        ensures
            res.base_view() == temp_dir@,
            res.features_view() == features_config,
            res.naptime_view() == naptime,
            res.auth_view().entries_view() == entries@,
            res.auth_view().next_index() == 0,
    {
        TestContext {
            naptime,
            temp_dir,
            features_config,
            auth_entries: DummyAuthEntries::new(entries),
        }
    }

    /// Return the base path for this context.
    pub fn base_path(&self) -> (res: &'a FsPath)
        ensures
            res@ == self.base_view(),
    {
        self.temp_dir
    }

    /// The file-system configuration.
    pub fn features_config(&self) -> (res: &'a FeaturesConfig)
        ensures
            res == self.features_view(),
    {
        self.features_config
    }

    /// The time a nap lasts: long enough for file-system timestamps to change.
    pub fn naptime(&self) -> (res: &core::time::Duration)
        ensures
            *res == self.naptime_view(),
    {
        &self.naptime
    }

    /// Generate a random path in the base directory.
    pub fn gen_path(&self) -> (res: FsPath)
        ensures
            exists|name: Seq<u8>|
                is_random_name(name, NUM_RAND_CHARS as nat) && res@ == push_spec(self.base_view(), name),
    {
        let name = random_alphanumeric(NUM_RAND_CHARS);
        self.temp_dir.join(name.as_slice())
    }

    /// Return a file builder, for a file with a random name in the base directory.
    pub fn new_file(&self, ft: FileType) -> (res: FileBuilder)
        ensures
            res.spec_file_type() == ft,
            res.spec_path() == self.base_view(),
            res.spec_random_name(),
            res.spec_mode() is None,
    {
        FileBuilder::new(ft, self.temp_dir)
    }

    /// Return a file builder for a file in the base directory whose name is
    /// `name_max` characters long.
    pub fn new_file_name_max(&self, f_type: FileType, name_max: usize) -> (res: FileBuilder)
        ensures
            res.spec_file_type() == f_type,
            !res.spec_random_name(),
            res.spec_mode() is None,
            exists|name: Seq<u8>|
                is_random_name(name, name_max as nat) && res.spec_path() == push_spec(self.base_view(), name),
    {
        let name = random_alphanumeric(name_max);
        self.new_file(f_type).name(name.as_slice())
    }

    /// The directories to create and the path of the file to create so that
    /// the file's path has the maximal length: `name_max` and `path_max` are
    /// the limits of the file system on names and on paths (the latter
    /// counting the terminating null byte).
    pub fn path_max_paths(&self, name_max: usize, path_max: usize) -> (res: (FsPath, FsPath))
        requires
            path_max_inputs_ok(self.base_view().len() as int, name_max as int, path_max as int),
        ensures
            ({
                let l = path_max_layout_spec(self.base_view().len() as int, name_max as int, path_max as int);
                exists|comps: Seq<Seq<u8>>, leaf: Seq<u8>|
                    {
                        &&& comps.len() == l.dir_components
                        &&& all_random_names(comps, l.component_len as nat)
                        &&& is_random_name(leaf, l.leaf_len as nat)
                        &&& res.0@ == push_all_spec(self.base_view(), comps)
                        &&& res.1@ == push_spec(res.0@, leaf)
                    }
            }),
            needs_separator(self.base_view()) ==> res.1@.len() == path_max - 1,
    {
        let layout = path_max_layout(self.temp_dir.len(), name_max, path_max);
        let mut parts: Vec<Vec<u8>> = Vec::new();
        let mut i: usize = 0;
        while i < layout.dir_components
            invariant
                i <= layout.dir_components,
                parts@.len() == i,
                forall|k: int| 0 <= k < i ==> is_random_name(#[trigger] parts@[k]@, layout.component_len as nat),
            decreases layout.dir_components - i,
        {
            parts.push(random_alphanumeric(layout.component_len));
            i = i + 1;
        }
        let ghost comps = parts@.map_values(|c: Vec<u8>| c@);
        assert(all_random_names(comps, layout.component_len as nat)) by {
            assert forall|k: int| 0 <= k < comps.len() implies is_random_name(#[trigger] comps[k], layout.component_len as nat) by {
                assert(comps[k] == parts@[k]@);
            }
        }
        let mut dirs = self.temp_dir.duplicate();
        dirs.extend(parts.as_slice());
        let leaf = random_alphanumeric(layout.leaf_len);
        let file = dirs.join(leaf.as_slice());
        proof {
            let base = self.temp_dir@;
            assert(comps.len() == layout.dir_components);
            if needs_separator(base) {
                lemma_path_max_length(base.len() as int, name_max as int, path_max as int);
                lemma_push_all_random_names(base, comps, layout.component_len as nat);
                lemma_push_random_name(dirs@, leaf@, layout.leaf_len as nat);
            }
        }
        (dirs, file)
    }

    /// Whether an entry is left to hand out.
    pub open spec fn has_new_entry(&self) -> bool {
        self.auth_view().next_index() < self.auth_view().entries_view().len()
    }

    /// The entry handed out next.
    pub open spec fn next_entry(&self) -> DummyAuthEntry {
        self.auth_view().entries_view()[self.auth_view().next_index() as int]
    }

    /// The context once the next entry has been handed out: the same in all
    /// but the position of the entry after it.
    pub closed spec fn after_new_entry(&self) -> TestContext<'a> {
        TestContext {
            naptime: self.naptime,
            temp_dir: self.temp_dir,
            features_config: self.features_config,
            auth_entries: self.auth_entries.advanced(),
        }
    }

    /// Whether a dummy user is left to hand out: `get_new_entry`,
    /// `get_new_user` and `get_new_group` may be called exactly when it is.
    pub fn has_entry_left(&self) -> (res: bool)
        ensures
            res == self.has_new_entry(),
    {
        self.auth_entries.has_entry_left()
    }

    /// Returns a new entry.
    pub fn get_new_entry(&mut self) -> (res: (&'a nix::unistd::User, &'a nix::unistd::Group))
        requires
            old(self).has_new_entry(),
        ensures
            *final(self) == old(self).after_new_entry(),
            final(self).base_view() == old(self).base_view(),
            final(self).features_view() == old(self).features_view(),
            final(self).naptime_view() == old(self).naptime_view(),
            final(self).auth_view().entries_view() == old(self).auth_view().entries_view(),
            final(self).auth_view().next_index() == old(self).auth_view().next_index() + 1,
            *res.0 == old(self).next_entry().user,
            *res.1 == old(self).next_entry().group,
    {
        self.auth_entries.get_new_entry()
    }

    /// Returns a new user: the user of the entry that `get_new_entry` would
    /// hand out, leaving the context as `get_new_entry` would.
    /// Alias of `get_new_entry`.
    pub fn get_new_user(&mut self) -> (res: &'a nix::unistd::User)
        requires
            old(self).has_new_entry(),
        ensures
            *final(self) == old(self).after_new_entry(),
            final(self).base_view() == old(self).base_view(),
            final(self).features_view() == old(self).features_view(),
            final(self).naptime_view() == old(self).naptime_view(),
            final(self).auth_view().entries_view() == old(self).auth_view().entries_view(),
            final(self).auth_view().next_index() == old(self).auth_view().next_index() + 1,
            *res == old(self).next_entry().user,
    {
        self.get_new_entry().0
    }

    /// Returns a new group: the group of the entry that `get_new_entry` would
    /// hand out, leaving the context as `get_new_entry` would.
    /// Alias of `get_new_entry`.
    pub fn get_new_group(&mut self) -> (res: &'a nix::unistd::Group)
        requires
            old(self).has_new_entry(),
        ensures
            *final(self) == old(self).after_new_entry(),
            final(self).base_view() == old(self).base_view(),
            final(self).features_view() == old(self).features_view(),
            final(self).naptime_view() == old(self).naptime_view(),
            final(self).auth_view().entries_view() == old(self).auth_view().entries_view(),
            final(self).auth_view().next_index() == old(self).auth_view().next_index() + 1,
            *res == old(self).next_entry().group,
    {
        self.get_new_entry().1
    }
}

/// A test context for tests which change process-wide state (the effective
/// user and groups, or the umask) and so must not run alongside others.
pub struct SerializedTestContext<'a> {
    ctx: TestContext<'a>,
}

impl<'a> SerializedTestContext<'a> {
    /// The underlying test context.
    pub closed spec fn inner(&self) -> TestContext<'a> {
        self.ctx
    }

    pub fn new(
        features_config: &'a FeaturesConfig,
        naptime: core::time::Duration,
        entries: &'a [DummyAuthEntry],
        base_dir: &'a FsPath,
    ) -> (res: Self)
        ensures
            res.inner().base_view() == base_dir@,
            res.inner().features_view() == features_config,
            res.inner().naptime_view() == naptime,
            res.inner().auth_view().entries_view() == entries@,
            res.inner().auth_view().next_index() == 0,
    {
        SerializedTestContext { ctx: TestContext::new(features_config, naptime, entries, base_dir) }
    }

    /// The underlying test context.
    pub fn context(&self) -> (res: &TestContext<'a>)
        ensures
            *res == self.inner(),
    {
        &self.ctx
    }

    /// The underlying test context, to change.
    pub fn context_mut(&mut self) -> (res: &mut TestContext<'a>)
        ensures
            *res == old(self).inner(),
            final(self).inner() == *final(res),
    {
        &mut self.ctx
    }
}

/// The groups to switch to when running as a user: the ones given, or else
/// the user's own group. The first of them becomes the effective group.
pub fn effective_groups(user_gid: gid_t, groups: Option<&[gid_t]>) -> (res: Vec<gid_t>)
    ensures
        res@ == match groups {
            Some(g) => g@,
            None => seq![user_gid],
        },
{
    match groups {
        Some(g) => {
            let mut res: Vec<gid_t> = Vec::new();
            res.extend_from_slice(g);
            proof {
                assert(res@ =~= g@);
            }
            res
        },
        None => {
            let mut res: Vec<gid_t> = Vec::new();
            res.push(user_gid);
            proof {
                assert(res@ =~= seq![user_gid]);
            }
            res
        },
    }
}

/// The owner's read, write and execute bits.
pub open spec fn owner_rwx() -> mode_t {
    0o700
}

/// Whether a file left behind by a test must be given back its owner's read,
/// write and execute permissions before it can be removed.
pub fn needs_owner_rwx(st_mode: mode_t) -> (res: bool)
    ensures
        res == (st_mode & owner_rwx() != owner_rwx()),
        res == (st_mode & 0o400 == 0 || st_mode & 0o200 == 0 || st_mode & 0o100 == 0),
{
    proof {
        lemma_owner_rwx_bits(st_mode);
    }
    st_mode & 0o700 != 0o700
}

/// A mode lacks some of the owner's permissions exactly when its owner-read
/// (0o400), owner-write (0o200) or owner-execute (0o100) bit is clear.
pub proof fn lemma_owner_rwx_bits(st_mode: mode_t)
    ensures
        (st_mode & owner_rwx() != owner_rwx()) <==> (st_mode & 0o400 == 0 || st_mode & 0o200 == 0
            || st_mode & 0o100 == 0),
{
    assert((st_mode & 0o700 != 0o700) <==> (st_mode & 0o400 == 0 || st_mode & 0o200 == 0
        || st_mode & 0o100 == 0)) by (bit_vector);
}

/// Whether the cleanup of a test's directory looks at an entry on the system
/// `os`: it looks at every directory, and at every entry where the system can
/// change a symbolic link itself.
pub fn cleanup_inspects(os: TargetOs, is_dir: bool) -> (res: bool)
    ensures
        res == (acts_on_symlinks(os) || is_dir),
        res <==> (os == TargetOs::FreeBsd || os == TargetOs::NetBsd || os == TargetOs::DragonFly || is_dir),
{
    os.acts_on_symlinks() || is_dir
}

/// What the cleanup of a test's directory does to an entry it looks at.
#[derive(Debug, Clone, Copy, PartialEq, Eq, Structural)]
pub struct CleanupSteps {
    /// Give the owner back read, write and execute permissions on the entry
    /// itself (not on what a link points to).
    pub restore_owner_rwx: bool,
    /// Clear the file flags of the entry itself.
    pub clear_flags: bool,
}

/// What the cleanup does on the system `os` to an entry whose `lstat` gives
/// the mode `st_mode` and the file flags `st_flags` (0 where the system has
/// none): it restores the owner's permissions where one of them is missing,
/// and clears the flags where some are set and the system can clear a link's.
pub fn cleanup_steps(os: TargetOs, st_mode: mode_t, st_flags: u32) -> (res: CleanupSteps)
    ensures
        res.restore_owner_rwx == (st_mode & owner_rwx() != owner_rwx()),
        res.restore_owner_rwx == (st_mode & 0o400 == 0 || st_mode & 0o200 == 0 || st_mode & 0o100 == 0),
        res.clear_flags == (acts_on_symlinks(os) && st_flags != 0),
        res.clear_flags <==> ((os == TargetOs::FreeBsd || os == TargetOs::NetBsd || os == TargetOs::DragonFly)
            && st_flags != 0),
{
    CleanupSteps {
        restore_owner_rwx: needs_owner_rwx(st_mode),
        clear_flags: os.acts_on_symlinks() && st_flags != 0,
    }
}

} // verus!
