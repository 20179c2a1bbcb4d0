//! File flags (see the FreeBSD handbook, "Permissions").
//!
//! Which flags a file system supports is part of its configuration; tests that
//! need a flag are skipped where it is not available. The set of flags is the
//! union of those known on the BSDs and macOS.

use vstd::prelude::*;

use crate::text::str_equal;

verus! {

/// File flags.
#[allow(non_camel_case_types)]
#[derive(Debug, Clone, Copy, PartialEq, Eq, Hash, Structural)]
pub enum FileFlags {
    UF_SETTABLE,
    UF_NODUMP,
    UF_IMMUTABLE,
    UF_APPEND,
    UF_OPAQUE,
    SF_SETTABLE,
    SF_ARCHIVED,
    SF_IMMUTABLE,
    SF_APPEND,
    UF_NOHISTORY,
    UF_CACHE,
    UF_XLINK,
    SF_NOHISTORY,
    SF_CACHE,
    SF_XLINK,
    UF_SYSTEM,
    UF_SPARSE,
    UF_OFFLINE,
    UF_REPARSE,
    UF_ARCHIVE,
    UF_READONLY,
    SF_SNAPSHOT,
    UF_NOUNLINK,
    SF_NOUNLINK,
    UF_COMPRESSED,
    UF_TRACKED,
    UF_HIDDEN,
    SF_LOG,
    SF_SNAPINVAL,
}

/// The name of a flag, as written in the configuration file and shown to users.
pub open spec fn flag_name(f: FileFlags) -> Seq<char> {
    match f {
        FileFlags::UF_SETTABLE => "UF_SETTABLE"@,
        FileFlags::UF_NODUMP => "UF_NODUMP"@,
        FileFlags::UF_IMMUTABLE => "UF_IMMUTABLE"@,
        FileFlags::UF_APPEND => "UF_APPEND"@,
        FileFlags::UF_OPAQUE => "UF_OPAQUE"@,
        FileFlags::SF_SETTABLE => "SF_SETTABLE"@,
        FileFlags::SF_ARCHIVED => "SF_ARCHIVED"@,
        FileFlags::SF_IMMUTABLE => "SF_IMMUTABLE"@,
        FileFlags::SF_APPEND => "SF_APPEND"@,
        FileFlags::UF_NOHISTORY => "UF_NOHISTORY"@,
        FileFlags::UF_CACHE => "UF_CACHE"@,
        FileFlags::UF_XLINK => "UF_XLINK"@,
        FileFlags::SF_NOHISTORY => "SF_NOHISTORY"@,
        FileFlags::SF_CACHE => "SF_CACHE"@,
        FileFlags::SF_XLINK => "SF_XLINK"@,
        FileFlags::UF_SYSTEM => "UF_SYSTEM"@,
        FileFlags::UF_SPARSE => "UF_SPARSE"@,
        FileFlags::UF_OFFLINE => "UF_OFFLINE"@,
        FileFlags::UF_REPARSE => "UF_REPARSE"@,
        FileFlags::UF_ARCHIVE => "UF_ARCHIVE"@,
        FileFlags::UF_READONLY => "UF_READONLY"@,
        FileFlags::SF_SNAPSHOT => "SF_SNAPSHOT"@,
        FileFlags::UF_NOUNLINK => "UF_NOUNLINK"@,
        FileFlags::SF_NOUNLINK => "SF_NOUNLINK"@,
        FileFlags::UF_COMPRESSED => "UF_COMPRESSED"@,
        FileFlags::UF_TRACKED => "UF_TRACKED"@,
        FileFlags::UF_HIDDEN => "UF_HIDDEN"@,
        FileFlags::SF_LOG => "SF_LOG"@,
        FileFlags::SF_SNAPINVAL => "SF_SNAPINVAL"@,
    }
}

/// The flag whose name is `s`, if there is one.
pub open spec fn parse_flag_name(s: Seq<char>) -> Option<FileFlags> {
    if exists|f: FileFlags| flag_name(f) == s {
        Some(choose|f: FileFlags| flag_name(f) == s)
    } else {
        None
    }
}

/// The operating systems whose sets of file flags, and whose calls on
/// symbolic links themselves, differ; `Other` has no file flags.
#[derive(Debug, Clone, Copy, PartialEq, Eq, Structural)]
pub enum TargetOs {
    FreeBsd,
    NetBsd,
    OpenBsd,
    DragonFly,
    MacOs,
    Ios,
    WatchOs,
    Other,
}

/// Whether the system can change the mode of a symbolic link itself
/// (`lchmod`) and its flags (`lchflags`).
pub open spec fn acts_on_symlinks(os: TargetOs) -> bool {
    os is FreeBsd || os is NetBsd || os is DragonFly
}

/// Exactly FreeBSD, NetBSD and DragonFly change a symbolic link itself with
/// `lchmod` and `lchflags`; OpenBSD, Apple's systems and the others do not.
pub proof fn lemma_systems_acting_on_symlinks(os: TargetOs)
    ensures
        acts_on_symlinks(os) <==> (os == TargetOs::FreeBsd || os == TargetOs::NetBsd || os == TargetOs::DragonFly),
        !acts_on_symlinks(TargetOs::OpenBsd),
        !acts_on_symlinks(TargetOs::MacOs),
        !acts_on_symlinks(TargetOs::Ios),
        !acts_on_symlinks(TargetOs::WatchOs),
        !acts_on_symlinks(TargetOs::Other),
{
}

impl TargetOs {
    /// Whether the system has `lchmod` and `lchflags`, which change a
    /// symbolic link itself rather than the file it points to.
    pub fn acts_on_symlinks(&self) -> (res: bool)
        ensures
            res == acts_on_symlinks(*self),
            res <==> (*self == TargetOs::FreeBsd || *self == TargetOs::NetBsd || *self == TargetOs::DragonFly),
    {
        match self {
            TargetOs::FreeBsd | TargetOs::NetBsd | TargetOs::DragonFly => true,
            _ => false,
        }
    }
}

/// Whether the flag `f` exists on the operating system `os`.
pub open spec fn flag_available_on(f: FileFlags, os: TargetOs) -> bool {
    match f {
        FileFlags::UF_SETTABLE | FileFlags::UF_NODUMP | FileFlags::UF_IMMUTABLE | FileFlags::UF_APPEND | FileFlags::UF_OPAQUE | FileFlags::SF_SETTABLE | FileFlags::SF_ARCHIVED | FileFlags::SF_IMMUTABLE | FileFlags::SF_APPEND => os !is Other,
        FileFlags::UF_NOHISTORY | FileFlags::UF_CACHE | FileFlags::UF_XLINK | FileFlags::SF_NOHISTORY | FileFlags::SF_CACHE | FileFlags::SF_XLINK => os is DragonFly,
        FileFlags::UF_SYSTEM | FileFlags::UF_SPARSE | FileFlags::UF_OFFLINE | FileFlags::UF_REPARSE | FileFlags::UF_ARCHIVE | FileFlags::UF_READONLY => os is FreeBsd,
        FileFlags::SF_SNAPSHOT => os is FreeBsd || os is NetBsd,
        FileFlags::UF_NOUNLINK | FileFlags::SF_NOUNLINK => os is FreeBsd || os is DragonFly,
        FileFlags::UF_COMPRESSED | FileFlags::UF_TRACKED => os is MacOs || os is Ios || os is WatchOs,
        FileFlags::UF_HIDDEN => os is FreeBsd || os is MacOs || os is Ios || os is WatchOs,
        FileFlags::SF_LOG | FileFlags::SF_SNAPINVAL => os is NetBsd,
    }
}

/// Every flag, each once, in declaration order.
pub open spec fn all_flags_spec() -> Seq<FileFlags> {
    seq![FileFlags::UF_SETTABLE, FileFlags::UF_NODUMP, FileFlags::UF_IMMUTABLE, FileFlags::UF_APPEND, FileFlags::UF_OPAQUE, FileFlags::SF_SETTABLE, FileFlags::SF_ARCHIVED, FileFlags::SF_IMMUTABLE, FileFlags::SF_APPEND, FileFlags::UF_NOHISTORY, FileFlags::UF_CACHE, FileFlags::UF_XLINK, FileFlags::SF_NOHISTORY, FileFlags::SF_CACHE, FileFlags::SF_XLINK, FileFlags::UF_SYSTEM, FileFlags::UF_SPARSE, FileFlags::UF_OFFLINE, FileFlags::UF_REPARSE, FileFlags::UF_ARCHIVE, FileFlags::UF_READONLY, FileFlags::SF_SNAPSHOT, FileFlags::UF_NOUNLINK, FileFlags::SF_NOUNLINK, FileFlags::UF_COMPRESSED, FileFlags::UF_TRACKED, FileFlags::UF_HIDDEN, FileFlags::SF_LOG, FileFlags::SF_SNAPINVAL]
}

impl FileFlags {
    /// The flag's name.
    pub fn name(&self) -> (res: &'static str)
        ensures
            res@ == flag_name(*self),
    {
        match self {
            FileFlags::UF_SETTABLE => "UF_SETTABLE",
            FileFlags::UF_NODUMP => "UF_NODUMP",
            FileFlags::UF_IMMUTABLE => "UF_IMMUTABLE",
            FileFlags::UF_APPEND => "UF_APPEND",
            FileFlags::UF_OPAQUE => "UF_OPAQUE",
            FileFlags::SF_SETTABLE => "SF_SETTABLE",
            FileFlags::SF_ARCHIVED => "SF_ARCHIVED",
            FileFlags::SF_IMMUTABLE => "SF_IMMUTABLE",
            FileFlags::SF_APPEND => "SF_APPEND",
            FileFlags::UF_NOHISTORY => "UF_NOHISTORY",
            FileFlags::UF_CACHE => "UF_CACHE",
            FileFlags::UF_XLINK => "UF_XLINK",
            FileFlags::SF_NOHISTORY => "SF_NOHISTORY",
            FileFlags::SF_CACHE => "SF_CACHE",
            FileFlags::SF_XLINK => "SF_XLINK",
            FileFlags::UF_SYSTEM => "UF_SYSTEM",
            FileFlags::UF_SPARSE => "UF_SPARSE",
            FileFlags::UF_OFFLINE => "UF_OFFLINE",
            FileFlags::UF_REPARSE => "UF_REPARSE",
            FileFlags::UF_ARCHIVE => "UF_ARCHIVE",
            FileFlags::UF_READONLY => "UF_READONLY",
            FileFlags::SF_SNAPSHOT => "SF_SNAPSHOT",
            FileFlags::UF_NOUNLINK => "UF_NOUNLINK",
            FileFlags::SF_NOUNLINK => "SF_NOUNLINK",
            FileFlags::UF_COMPRESSED => "UF_COMPRESSED",
            FileFlags::UF_TRACKED => "UF_TRACKED",
            FileFlags::UF_HIDDEN => "UF_HIDDEN",
            FileFlags::SF_LOG => "SF_LOG",
            FileFlags::SF_SNAPINVAL => "SF_SNAPINVAL",
        }
    }

    /// Whether the flag exists on the operating system `os`.
    pub fn available_on(&self, os: TargetOs) -> (res: bool)
        ensures
            res == flag_available_on(*self, os),
    {
        match self {
            FileFlags::UF_SETTABLE | FileFlags::UF_NODUMP | FileFlags::UF_IMMUTABLE | FileFlags::UF_APPEND | FileFlags::UF_OPAQUE | FileFlags::SF_SETTABLE | FileFlags::SF_ARCHIVED | FileFlags::SF_IMMUTABLE | FileFlags::SF_APPEND => os != TargetOs::Other,
            FileFlags::UF_NOHISTORY | FileFlags::UF_CACHE | FileFlags::UF_XLINK | FileFlags::SF_NOHISTORY | FileFlags::SF_CACHE | FileFlags::SF_XLINK => os == TargetOs::DragonFly,
            FileFlags::UF_SYSTEM | FileFlags::UF_SPARSE | FileFlags::UF_OFFLINE | FileFlags::UF_REPARSE | FileFlags::UF_ARCHIVE | FileFlags::UF_READONLY => os == TargetOs::FreeBsd,
            FileFlags::SF_SNAPSHOT => os == TargetOs::FreeBsd || os == TargetOs::NetBsd,
            FileFlags::UF_NOUNLINK | FileFlags::SF_NOUNLINK => os == TargetOs::FreeBsd || os == TargetOs::DragonFly,
            FileFlags::UF_COMPRESSED | FileFlags::UF_TRACKED => os == TargetOs::MacOs || os == TargetOs::Ios || os == TargetOs::WatchOs,
            FileFlags::UF_HIDDEN => os == TargetOs::FreeBsd || os == TargetOs::MacOs || os == TargetOs::Ios || os == TargetOs::WatchOs,
            FileFlags::SF_LOG | FileFlags::SF_SNAPINVAL => os == TargetOs::NetBsd,
        }
    }

    /// The flag with the given name, if there is one and it exists on the
    /// operating system `os`.
    pub fn from_name_on(s: &str, os: TargetOs) -> (res: Option<FileFlags>)
        ensures
            res == match parse_flag_name(s@) {
                Some(f) => if flag_available_on(f, os) {
                    Some(f)
                } else {
                    None
                },
                None => None,
            },
    {
        match FileFlags::from_name(s) {
            Some(f) => if f.available_on(os) {
                Some(f)
            } else {
                None
            },
            None => None,
        }
    }

    /// Every flag, each once, in declaration order.
    pub fn all() -> (res: Vec<FileFlags>)
        ensures
            res@ == all_flags_spec(),
    {
        let mut res = Vec::new();
        res.push(FileFlags::UF_SETTABLE);
        res.push(FileFlags::UF_NODUMP);
        res.push(FileFlags::UF_IMMUTABLE);
        res.push(FileFlags::UF_APPEND);
        res.push(FileFlags::UF_OPAQUE);
        res.push(FileFlags::SF_SETTABLE);
        res.push(FileFlags::SF_ARCHIVED);
        res.push(FileFlags::SF_IMMUTABLE);
        res.push(FileFlags::SF_APPEND);
        res.push(FileFlags::UF_NOHISTORY);
        res.push(FileFlags::UF_CACHE);
        res.push(FileFlags::UF_XLINK);
        res.push(FileFlags::SF_NOHISTORY);
        res.push(FileFlags::SF_CACHE);
        res.push(FileFlags::SF_XLINK);
        res.push(FileFlags::UF_SYSTEM);
        res.push(FileFlags::UF_SPARSE);
        res.push(FileFlags::UF_OFFLINE);
        res.push(FileFlags::UF_REPARSE);
        res.push(FileFlags::UF_ARCHIVE);
        res.push(FileFlags::UF_READONLY);
        res.push(FileFlags::SF_SNAPSHOT);
        res.push(FileFlags::UF_NOUNLINK);
        res.push(FileFlags::SF_NOUNLINK);
        res.push(FileFlags::UF_COMPRESSED);
        res.push(FileFlags::UF_TRACKED);
        res.push(FileFlags::UF_HIDDEN);
        res.push(FileFlags::SF_LOG);
        res.push(FileFlags::SF_SNAPINVAL);
        proof {
            assert(res@ =~= all_flags_spec());
        }
        res
    }

    /// The flag with the given name, if there is one.
    pub fn from_name(s: &str) -> (res: Option<FileFlags>)
        ensures
            res == parse_flag_name(s@),
    {
        if str_equal(s, "UF_SETTABLE") {
            proof {
                lemma_flag_name_round_trip(FileFlags::UF_SETTABLE);
            }
            return Some(FileFlags::UF_SETTABLE);
        }
        if str_equal(s, "UF_NODUMP") {
            proof {
                lemma_flag_name_round_trip(FileFlags::UF_NODUMP);
            }
            return Some(FileFlags::UF_NODUMP);
        }
        if str_equal(s, "UF_IMMUTABLE") {
            proof {
                lemma_flag_name_round_trip(FileFlags::UF_IMMUTABLE);
            }
            return Some(FileFlags::UF_IMMUTABLE);
        }
        if str_equal(s, "UF_APPEND") {
            proof {
                lemma_flag_name_round_trip(FileFlags::UF_APPEND);
            }
            return Some(FileFlags::UF_APPEND);
        }
        if str_equal(s, "UF_OPAQUE") {
            proof {
                lemma_flag_name_round_trip(FileFlags::UF_OPAQUE);
            }
            return Some(FileFlags::UF_OPAQUE);
        }
        if str_equal(s, "SF_SETTABLE") {
            proof {
                lemma_flag_name_round_trip(FileFlags::SF_SETTABLE);
            }
            return Some(FileFlags::SF_SETTABLE);
        }
        if str_equal(s, "SF_ARCHIVED") {
            proof {
                lemma_flag_name_round_trip(FileFlags::SF_ARCHIVED);
            }
            return Some(FileFlags::SF_ARCHIVED);
        }
        if str_equal(s, "SF_IMMUTABLE") {
            proof {
                lemma_flag_name_round_trip(FileFlags::SF_IMMUTABLE);
            }
            return Some(FileFlags::SF_IMMUTABLE);
        }
        if str_equal(s, "SF_APPEND") {
            proof {
                lemma_flag_name_round_trip(FileFlags::SF_APPEND);
            }
            return Some(FileFlags::SF_APPEND);
        }
        if str_equal(s, "UF_NOHISTORY") {
            proof {
                lemma_flag_name_round_trip(FileFlags::UF_NOHISTORY);
            }
            return Some(FileFlags::UF_NOHISTORY);
        }
        if str_equal(s, "UF_CACHE") {
            proof {
                lemma_flag_name_round_trip(FileFlags::UF_CACHE);
            }
            return Some(FileFlags::UF_CACHE);
        }
        if str_equal(s, "UF_XLINK") {
            proof {
                lemma_flag_name_round_trip(FileFlags::UF_XLINK);
            }
            return Some(FileFlags::UF_XLINK);
        }
        if str_equal(s, "SF_NOHISTORY") {
            proof {
                lemma_flag_name_round_trip(FileFlags::SF_NOHISTORY);
            }
            return Some(FileFlags::SF_NOHISTORY);
        }
        if str_equal(s, "SF_CACHE") {
            proof {
                lemma_flag_name_round_trip(FileFlags::SF_CACHE);
            }
            return Some(FileFlags::SF_CACHE);
        }
        if str_equal(s, "SF_XLINK") {
            proof {
                lemma_flag_name_round_trip(FileFlags::SF_XLINK);
            }
            return Some(FileFlags::SF_XLINK);
        }
        if str_equal(s, "UF_SYSTEM") {
            proof {
                lemma_flag_name_round_trip(FileFlags::UF_SYSTEM);
            }
            return Some(FileFlags::UF_SYSTEM);
        }
        if str_equal(s, "UF_SPARSE") {
            proof {
                lemma_flag_name_round_trip(FileFlags::UF_SPARSE);
            }
            return Some(FileFlags::UF_SPARSE);
        }
        if str_equal(s, "UF_OFFLINE") {
            proof {
                lemma_flag_name_round_trip(FileFlags::UF_OFFLINE);
            }
            return Some(FileFlags::UF_OFFLINE);
        }
        if str_equal(s, "UF_REPARSE") {
            proof {
                lemma_flag_name_round_trip(FileFlags::UF_REPARSE);
            }
            return Some(FileFlags::UF_REPARSE);
        }
        if str_equal(s, "UF_ARCHIVE") {
            proof {
                lemma_flag_name_round_trip(FileFlags::UF_ARCHIVE);
            }
            return Some(FileFlags::UF_ARCHIVE);
        }
        if str_equal(s, "UF_READONLY") {
            proof {
                lemma_flag_name_round_trip(FileFlags::UF_READONLY);
            }
            return Some(FileFlags::UF_READONLY);
        }
        if str_equal(s, "SF_SNAPSHOT") {
            proof {
                lemma_flag_name_round_trip(FileFlags::SF_SNAPSHOT);
            }
            return Some(FileFlags::SF_SNAPSHOT);
        }
        if str_equal(s, "UF_NOUNLINK") {
            proof {
                lemma_flag_name_round_trip(FileFlags::UF_NOUNLINK);
            }
            return Some(FileFlags::UF_NOUNLINK);
        }
        if str_equal(s, "SF_NOUNLINK") {
            proof {
                lemma_flag_name_round_trip(FileFlags::SF_NOUNLINK);
            }
            return Some(FileFlags::SF_NOUNLINK);
        }
        if str_equal(s, "UF_COMPRESSED") {
            proof {
                lemma_flag_name_round_trip(FileFlags::UF_COMPRESSED);
            }
            return Some(FileFlags::UF_COMPRESSED);
        }
        if str_equal(s, "UF_TRACKED") {
            proof {
                lemma_flag_name_round_trip(FileFlags::UF_TRACKED);
            }
            return Some(FileFlags::UF_TRACKED);
        }
        if str_equal(s, "UF_HIDDEN") {
            proof {
                lemma_flag_name_round_trip(FileFlags::UF_HIDDEN);
            }
            return Some(FileFlags::UF_HIDDEN);
        }
        if str_equal(s, "SF_LOG") {
            proof {
                lemma_flag_name_round_trip(FileFlags::SF_LOG);
            }
            return Some(FileFlags::SF_LOG);
        }
        if str_equal(s, "SF_SNAPINVAL") {
            proof {
                lemma_flag_name_round_trip(FileFlags::SF_SNAPINVAL);
            }
            return Some(FileFlags::SF_SNAPINVAL);
        }
        None
    }
}


/// Distinct flags have distinct names.
pub proof fn lemma_flag_name_injective(f: FileFlags, g: FileFlags)
    ensures
        flag_name(f) == flag_name(g) ==> f == g,
{
    reveal_strlit("UF_SETTABLE");
    reveal_strlit("UF_NODUMP");
    reveal_strlit("UF_IMMUTABLE");
    reveal_strlit("UF_APPEND");
    reveal_strlit("UF_OPAQUE");
    reveal_strlit("SF_SETTABLE");
    reveal_strlit("SF_ARCHIVED");
    reveal_strlit("SF_IMMUTABLE");
    reveal_strlit("SF_APPEND");
    reveal_strlit("UF_NOHISTORY");
    reveal_strlit("UF_CACHE");
    reveal_strlit("UF_XLINK");
    reveal_strlit("SF_NOHISTORY");
    reveal_strlit("SF_CACHE");
    reveal_strlit("SF_XLINK");
    reveal_strlit("UF_SYSTEM");
    reveal_strlit("UF_SPARSE");
    reveal_strlit("UF_OFFLINE");
    reveal_strlit("UF_REPARSE");
    reveal_strlit("UF_ARCHIVE");
    reveal_strlit("UF_READONLY");
    reveal_strlit("SF_SNAPSHOT");
    reveal_strlit("UF_NOUNLINK");
    reveal_strlit("SF_NOUNLINK");
    reveal_strlit("UF_COMPRESSED");
    reveal_strlit("UF_TRACKED");
    reveal_strlit("UF_HIDDEN");
    reveal_strlit("SF_LOG");
    reveal_strlit("SF_SNAPINVAL");
    if flag_name(f) == flag_name(g) {
        let a = flag_name(f);
        let b = flag_name(g);
        assert(a.len() == b.len() && a[0] == b[0] && a[3] == b[3] && a[4] == b[4]);
    }
}

/// Reading back the name of a flag gives the same flag.
pub proof fn lemma_flag_name_round_trip(f: FileFlags)
    ensures
        parse_flag_name(flag_name(f)) == Some(f),
{
    let g = choose|g: FileFlags| flag_name(g) == flag_name(f);
    lemma_flag_name_injective(f, g);
}

/// Each flag is written in the configuration file, and shown, under the
/// name of the C constant it stands for: `UF_HIDDEN` as "UF_HIDDEN", and so on.
pub proof fn lemma_flag_names_are_constants()
    ensures
        flag_name(FileFlags::UF_SETTABLE) == "UF_SETTABLE"@,
        flag_name(FileFlags::UF_NODUMP) == "UF_NODUMP"@,
        flag_name(FileFlags::UF_IMMUTABLE) == "UF_IMMUTABLE"@,
        flag_name(FileFlags::UF_APPEND) == "UF_APPEND"@,
        flag_name(FileFlags::UF_OPAQUE) == "UF_OPAQUE"@,
        flag_name(FileFlags::SF_SETTABLE) == "SF_SETTABLE"@,
        flag_name(FileFlags::SF_ARCHIVED) == "SF_ARCHIVED"@,
        flag_name(FileFlags::SF_IMMUTABLE) == "SF_IMMUTABLE"@,
        flag_name(FileFlags::SF_APPEND) == "SF_APPEND"@,
        flag_name(FileFlags::UF_NOHISTORY) == "UF_NOHISTORY"@,
        flag_name(FileFlags::UF_CACHE) == "UF_CACHE"@,
        flag_name(FileFlags::UF_XLINK) == "UF_XLINK"@,
        flag_name(FileFlags::SF_NOHISTORY) == "SF_NOHISTORY"@,
        flag_name(FileFlags::SF_CACHE) == "SF_CACHE"@,
        flag_name(FileFlags::SF_XLINK) == "SF_XLINK"@,
        flag_name(FileFlags::UF_SYSTEM) == "UF_SYSTEM"@,
        flag_name(FileFlags::UF_SPARSE) == "UF_SPARSE"@,
        flag_name(FileFlags::UF_OFFLINE) == "UF_OFFLINE"@,
        flag_name(FileFlags::UF_REPARSE) == "UF_REPARSE"@,
        flag_name(FileFlags::UF_ARCHIVE) == "UF_ARCHIVE"@,
        flag_name(FileFlags::UF_READONLY) == "UF_READONLY"@,
        flag_name(FileFlags::SF_SNAPSHOT) == "SF_SNAPSHOT"@,
        flag_name(FileFlags::UF_NOUNLINK) == "UF_NOUNLINK"@,
        flag_name(FileFlags::SF_NOUNLINK) == "SF_NOUNLINK"@,
        flag_name(FileFlags::UF_COMPRESSED) == "UF_COMPRESSED"@,
        flag_name(FileFlags::UF_TRACKED) == "UF_TRACKED"@,
        flag_name(FileFlags::UF_HIDDEN) == "UF_HIDDEN"@,
        flag_name(FileFlags::SF_LOG) == "SF_LOG"@,
        flag_name(FileFlags::SF_SNAPINVAL) == "SF_SNAPINVAL"@,
{
}

/// The flags of each operating system, listed system by system: the nine
/// flags shared by the BSDs and Apple's systems everywhere but `Other`; on
/// FreeBSD also `UF_SYSTEM`, `UF_SPARSE`, `UF_OFFLINE`, `UF_REPARSE`,
/// `UF_ARCHIVE`, `UF_READONLY`, `SF_SNAPSHOT`, `UF_NOUNLINK`, `SF_NOUNLINK` and
/// `UF_HIDDEN`; on NetBSD also `SF_SNAPSHOT`, `SF_LOG` and `SF_SNAPINVAL`; on
/// DragonFly also the `NOHISTORY`, `CACHE`, `XLINK` and `NOUNLINK` flags; on
/// macOS, iOS and watchOS also `UF_COMPRESSED`, `UF_TRACKED` and `UF_HIDDEN`;
/// on OpenBSD nothing more; and no flag at all on `Other`. A flag is read from
/// a configuration on a system exactly when it is in that system's list.
pub proof fn lemma_flags_of_each_os(f: FileFlags)
    ensures
        flag_available_on(f, TargetOs::OpenBsd) <==> (f is UF_SETTABLE || f is UF_NODUMP || f is UF_IMMUTABLE || f is UF_APPEND || f is UF_OPAQUE || f is SF_SETTABLE || f is SF_ARCHIVED || f is SF_IMMUTABLE || f is SF_APPEND),
        flag_available_on(f, TargetOs::FreeBsd) <==> (f is UF_SETTABLE || f is UF_NODUMP || f is UF_IMMUTABLE || f is UF_APPEND || f is UF_OPAQUE || f is SF_SETTABLE || f is SF_ARCHIVED || f is SF_IMMUTABLE || f is SF_APPEND || f is UF_SYSTEM || f is UF_SPARSE
            || f is UF_OFFLINE || f is UF_REPARSE || f is UF_ARCHIVE || f is UF_READONLY
            || f is SF_SNAPSHOT || f is UF_NOUNLINK || f is SF_NOUNLINK || f is UF_HIDDEN),
        flag_available_on(f, TargetOs::NetBsd) <==> (f is UF_SETTABLE || f is UF_NODUMP || f is UF_IMMUTABLE || f is UF_APPEND || f is UF_OPAQUE || f is SF_SETTABLE || f is SF_ARCHIVED || f is SF_IMMUTABLE || f is SF_APPEND || f is SF_SNAPSHOT || f is SF_LOG
            || f is SF_SNAPINVAL),
        flag_available_on(f, TargetOs::DragonFly) <==> (f is UF_SETTABLE || f is UF_NODUMP || f is UF_IMMUTABLE || f is UF_APPEND || f is UF_OPAQUE || f is SF_SETTABLE || f is SF_ARCHIVED || f is SF_IMMUTABLE || f is SF_APPEND || f is UF_NOHISTORY || f is UF_CACHE
            || f is UF_XLINK || f is SF_NOHISTORY || f is SF_CACHE || f is SF_XLINK || f is UF_NOUNLINK
            || f is SF_NOUNLINK),
        flag_available_on(f, TargetOs::MacOs) <==> (f is UF_SETTABLE || f is UF_NODUMP || f is UF_IMMUTABLE || f is UF_APPEND || f is UF_OPAQUE || f is SF_SETTABLE || f is SF_ARCHIVED || f is SF_IMMUTABLE || f is SF_APPEND || f is UF_COMPRESSED || f is UF_TRACKED
            || f is UF_HIDDEN),
        flag_available_on(f, TargetOs::Ios) <==> (f is UF_SETTABLE || f is UF_NODUMP || f is UF_IMMUTABLE || f is UF_APPEND || f is UF_OPAQUE || f is SF_SETTABLE || f is SF_ARCHIVED || f is SF_IMMUTABLE || f is SF_APPEND || f is UF_COMPRESSED || f is UF_TRACKED
            || f is UF_HIDDEN),
        flag_available_on(f, TargetOs::WatchOs) <==> (f is UF_SETTABLE || f is UF_NODUMP || f is UF_IMMUTABLE || f is UF_APPEND || f is UF_OPAQUE || f is SF_SETTABLE || f is SF_ARCHIVED || f is SF_IMMUTABLE || f is SF_APPEND || f is UF_COMPRESSED || f is UF_TRACKED
            || f is UF_HIDDEN),
        !flag_available_on(f, TargetOs::Other),
{
}

/// The list of all flags holds every flag exactly once.
pub proof fn lemma_all_flags_complete(f: FileFlags)
    ensures
        all_flags_spec().contains(f),
        all_flags_spec().no_duplicates(),
{
    let s = all_flags_spec();
    match f {
        FileFlags::UF_SETTABLE => assert(s[0] == f),
        FileFlags::UF_NODUMP => assert(s[1] == f),
        FileFlags::UF_IMMUTABLE => assert(s[2] == f),
        FileFlags::UF_APPEND => assert(s[3] == f),
        FileFlags::UF_OPAQUE => assert(s[4] == f),
        FileFlags::SF_SETTABLE => assert(s[5] == f),
        FileFlags::SF_ARCHIVED => assert(s[6] == f),
        FileFlags::SF_IMMUTABLE => assert(s[7] == f),
        FileFlags::SF_APPEND => assert(s[8] == f),
        FileFlags::UF_NOHISTORY => assert(s[9] == f),
        FileFlags::UF_CACHE => assert(s[10] == f),
        FileFlags::UF_XLINK => assert(s[11] == f),
        FileFlags::SF_NOHISTORY => assert(s[12] == f),
        FileFlags::SF_CACHE => assert(s[13] == f),
        FileFlags::SF_XLINK => assert(s[14] == f),
        FileFlags::UF_SYSTEM => assert(s[15] == f),
        FileFlags::UF_SPARSE => assert(s[16] == f),
        FileFlags::UF_OFFLINE => assert(s[17] == f),
        FileFlags::UF_REPARSE => assert(s[18] == f),
        FileFlags::UF_ARCHIVE => assert(s[19] == f),
        FileFlags::UF_READONLY => assert(s[20] == f),
        FileFlags::SF_SNAPSHOT => assert(s[21] == f),
        FileFlags::UF_NOUNLINK => assert(s[22] == f),
        FileFlags::SF_NOUNLINK => assert(s[23] == f),
        FileFlags::UF_COMPRESSED => assert(s[24] == f),
        FileFlags::UF_TRACKED => assert(s[25] == f),
        FileFlags::UF_HIDDEN => assert(s[26] == f),
        FileFlags::SF_LOG => assert(s[27] == f),
        FileFlags::SF_SNAPINVAL => assert(s[28] == f),
    }
}

} // verus!
