//! File-system features which are not available on every file system and can be tested for.
//!
//! The features are used to define which tests should be run on which file systems.

use vstd::prelude::*;

use crate::text::str_equal;

verus! {

/// Features which are not available for every file system.
#[derive(Debug, Clone, Copy, PartialEq, Eq, Hash, Structural)]
pub enum FileSystemFeature {
    /// The [`chflags`](https://man.freebsd.org/cgi/man.cgi?chflags(1)) command is available
    Chflags,
    /// NFSv4 style Access Control Lists are available
    Nfsv4Acls,
    /// The [`posix_fallocate`](https://pubs.opengroup.org/onlinepubs/007904975/functions/posix_fallocate.html) syscall is available
    PosixFallocate,
    /// [`rename`](https://pubs.opengroup.org/onlinepubs/9699919799/functions/rename.html) changes `st_ctime` on success (POSIX does not require a file system to update a file's ctime when it gets renamed, but some file systems choose to do it anyway)
    RenameCtime,
    /// `struct stat` contains an [`st_birthtime`](https://man.freebsd.org/cgi/man.cgi?stat(2)) field
    StatStBirthtime,
    /// The [`SF_SNAPSHOT`](https://man.freebsd.org/cgi/man.cgi?chflags(2)) flag can be set with `chflags`
    ChflagsSfSnapshot,
    /// The [`UTIME_NOW`](https://pubs.opengroup.org/onlinepubs/9699919799.orig/functions/futimens.html) constant is available
    UtimeNow,
    /// The [`utimensat`](https://pubs.opengroup.org/onlinepubs/9699919799.orig/functions/utimensat.html) syscall is available
    Utimensat,
}

/// The snake_case name under which a feature is written in the configuration
/// file and shown to users.
pub open spec fn feature_name(f: FileSystemFeature) -> Seq<char> {
    match f {
        FileSystemFeature::Chflags => "chflags"@,
        FileSystemFeature::Nfsv4Acls => "nfsv4_acls"@,
        FileSystemFeature::PosixFallocate => "posix_fallocate"@,
        FileSystemFeature::RenameCtime => "rename_ctime"@,
        FileSystemFeature::StatStBirthtime => "stat_st_birthtime"@,
        FileSystemFeature::ChflagsSfSnapshot => "chflags_sf_snapshot"@,
        FileSystemFeature::UtimeNow => "utime_now"@,
        FileSystemFeature::Utimensat => "utimensat"@,
    }
}

/// The description of a feature shown to users.
pub open spec fn feature_documentation(f: FileSystemFeature) -> Seq<char> {
    match f {
        FileSystemFeature::Chflags => "The [`chflags`](https://man.freebsd.org/cgi/man.cgi?chflags(1)) command is available"@,
        FileSystemFeature::Nfsv4Acls => "NFSv4 style Access Control Lists are available"@,
        FileSystemFeature::PosixFallocate => "The [`posix_fallocate`](https://pubs.opengroup.org/onlinepubs/007904975/functions/posix_fallocate.html) syscall is available"@,
        FileSystemFeature::RenameCtime => "[`rename`](https://pubs.opengroup.org/onlinepubs/9699919799/functions/rename.html) changes `st_ctime` on success (POSIX does not require a file system to update a file's ctime when it gets renamed, but some file systems choose to do it anyway)"@,
        FileSystemFeature::StatStBirthtime => "`struct stat` contains an [`st_birthtime`](https://man.freebsd.org/cgi/man.cgi?stat(2)) field"@,
        FileSystemFeature::ChflagsSfSnapshot => "The [`SF_SNAPSHOT`](https://man.freebsd.org/cgi/man.cgi?chflags(2)) flag can be set with `chflags`"@,
        FileSystemFeature::UtimeNow => "The [`UTIME_NOW`](https://pubs.opengroup.org/onlinepubs/9699919799.orig/functions/futimens.html) constant is available"@,
        FileSystemFeature::Utimensat => "The [`utimensat`](https://pubs.opengroup.org/onlinepubs/9699919799.orig/functions/utimensat.html) syscall is available"@,
    }
}

/// Each feature is written in the configuration file, and shown, under the
/// snake_case form of its name: `PosixFallocate` as "posix_fallocate", and so on.
pub proof fn lemma_feature_names_are_snake_case()
    ensures
        feature_name(FileSystemFeature::Chflags) == "chflags"@,
        feature_name(FileSystemFeature::Nfsv4Acls) == "nfsv4_acls"@,
        feature_name(FileSystemFeature::PosixFallocate) == "posix_fallocate"@,
        feature_name(FileSystemFeature::RenameCtime) == "rename_ctime"@,
        feature_name(FileSystemFeature::StatStBirthtime) == "stat_st_birthtime"@,
        feature_name(FileSystemFeature::ChflagsSfSnapshot) == "chflags_sf_snapshot"@,
        feature_name(FileSystemFeature::UtimeNow) == "utime_now"@,
        feature_name(FileSystemFeature::Utimensat) == "utimensat"@,
{
}

/// Every feature, each once, in declaration order.
pub open spec fn all_features_spec() -> Seq<FileSystemFeature> {
    seq![FileSystemFeature::Chflags, FileSystemFeature::Nfsv4Acls, FileSystemFeature::PosixFallocate, FileSystemFeature::RenameCtime, FileSystemFeature::StatStBirthtime, FileSystemFeature::ChflagsSfSnapshot, FileSystemFeature::UtimeNow, FileSystemFeature::Utimensat]
}

/// The feature whose name is `s`, if there is one.
pub open spec fn parse_feature_name(s: Seq<char>) -> Option<FileSystemFeature> {
    if exists|f: FileSystemFeature| feature_name(f) == s {
        Some(choose|f: FileSystemFeature| feature_name(f) == s)
    } else {
        None
    }
}

impl FileSystemFeature {
    /// The feature's name, in snake_case.
    pub fn name(&self) -> (res: &'static str)
        ensures
            res@ == feature_name(*self),
    {
        match self {
            FileSystemFeature::Chflags => "chflags",
            FileSystemFeature::Nfsv4Acls => "nfsv4_acls",
            FileSystemFeature::PosixFallocate => "posix_fallocate",
            FileSystemFeature::RenameCtime => "rename_ctime",
            FileSystemFeature::StatStBirthtime => "stat_st_birthtime",
            FileSystemFeature::ChflagsSfSnapshot => "chflags_sf_snapshot",
            FileSystemFeature::UtimeNow => "utime_now",
            FileSystemFeature::Utimensat => "utimensat",
        }
    }

    /// The feature with the given name, if there is one.
    pub fn from_name(s: &str) -> (res: Option<FileSystemFeature>)
        ensures
            res == parse_feature_name(s@),
    {
        if str_equal(s, "chflags") {
            proof {
                lemma_feature_name_round_trip(FileSystemFeature::Chflags);
            }
            return Some(FileSystemFeature::Chflags);
        }
        if str_equal(s, "nfsv4_acls") {
            proof {
                lemma_feature_name_round_trip(FileSystemFeature::Nfsv4Acls);
            }
            return Some(FileSystemFeature::Nfsv4Acls);
        }
        if str_equal(s, "posix_fallocate") {
            proof {
                lemma_feature_name_round_trip(FileSystemFeature::PosixFallocate);
            }
            return Some(FileSystemFeature::PosixFallocate);
        }
        if str_equal(s, "rename_ctime") {
            proof {
                lemma_feature_name_round_trip(FileSystemFeature::RenameCtime);
            }
            return Some(FileSystemFeature::RenameCtime);
        }
        if str_equal(s, "stat_st_birthtime") {
            proof {
                lemma_feature_name_round_trip(FileSystemFeature::StatStBirthtime);
            }
            return Some(FileSystemFeature::StatStBirthtime);
        }
        if str_equal(s, "chflags_sf_snapshot") {
            proof {
                lemma_feature_name_round_trip(FileSystemFeature::ChflagsSfSnapshot);
            }
            return Some(FileSystemFeature::ChflagsSfSnapshot);
        }
        if str_equal(s, "utime_now") {
            proof {
                lemma_feature_name_round_trip(FileSystemFeature::UtimeNow);
            }
            return Some(FileSystemFeature::UtimeNow);
        }
        if str_equal(s, "utimensat") {
            proof {
                lemma_feature_name_round_trip(FileSystemFeature::Utimensat);
            }
            return Some(FileSystemFeature::Utimensat);
        }
        None
    }

    /// The feature's description.
    pub fn documentation(&self) -> (res: &'static str)
        ensures
            res@ == feature_documentation(*self),
    {
        match self {
            FileSystemFeature::Chflags => "The [`chflags`](https://man.freebsd.org/cgi/man.cgi?chflags(1)) command is available",
            FileSystemFeature::Nfsv4Acls => "NFSv4 style Access Control Lists are available",
            FileSystemFeature::PosixFallocate => "The [`posix_fallocate`](https://pubs.opengroup.org/onlinepubs/007904975/functions/posix_fallocate.html) syscall is available",
            FileSystemFeature::RenameCtime => "[`rename`](https://pubs.opengroup.org/onlinepubs/9699919799/functions/rename.html) changes `st_ctime` on success (POSIX does not require a file system to update a file's ctime when it gets renamed, but some file systems choose to do it anyway)",
            FileSystemFeature::StatStBirthtime => "`struct stat` contains an [`st_birthtime`](https://man.freebsd.org/cgi/man.cgi?stat(2)) field",
            FileSystemFeature::ChflagsSfSnapshot => "The [`SF_SNAPSHOT`](https://man.freebsd.org/cgi/man.cgi?chflags(2)) flag can be set with `chflags`",
            FileSystemFeature::UtimeNow => "The [`UTIME_NOW`](https://pubs.opengroup.org/onlinepubs/9699919799.orig/functions/futimens.html) constant is available",
            FileSystemFeature::Utimensat => "The [`utimensat`](https://pubs.opengroup.org/onlinepubs/9699919799.orig/functions/utimensat.html) syscall is available",
        }
    }

    /// The line that lists the feature for users: its name, a colon and its description.
    pub fn listing(&self) -> (res: String)
        ensures
            res@ == feature_name(*self) + ": "@ + feature_documentation(*self),
    {
        let mut res = String::from_str(self.name());
        res.append(": ");
        res.append(self.documentation());
        res
    }

    /// Every feature, each once, in declaration order.
    pub fn all() -> (res: Vec<FileSystemFeature>)
        ensures
            res@ == all_features_spec(),
    {
        let mut res = Vec::new();
        res.push(FileSystemFeature::Chflags);
        res.push(FileSystemFeature::Nfsv4Acls);
        res.push(FileSystemFeature::PosixFallocate);
        res.push(FileSystemFeature::RenameCtime);
        res.push(FileSystemFeature::StatStBirthtime);
        res.push(FileSystemFeature::ChflagsSfSnapshot);
        res.push(FileSystemFeature::UtimeNow);
        res.push(FileSystemFeature::Utimensat);
        proof {
            assert(res@ =~= all_features_spec());
        }
        res
    }
}

/// The list of all features holds every feature exactly once.
pub proof fn lemma_all_features_complete(f: FileSystemFeature)
    ensures
        all_features_spec().contains(f),
        forall|i: int, j: int|
            0 <= i < j < all_features_spec().len() ==> all_features_spec()[i] != all_features_spec()[j],
{
    let s = all_features_spec();
    match f {
        FileSystemFeature::Chflags => assert(s[0] == f),
        FileSystemFeature::Nfsv4Acls => assert(s[1] == f),
        FileSystemFeature::PosixFallocate => assert(s[2] == f),
        FileSystemFeature::RenameCtime => assert(s[3] == f),
        FileSystemFeature::StatStBirthtime => assert(s[4] == f),
        FileSystemFeature::ChflagsSfSnapshot => assert(s[5] == f),
        FileSystemFeature::UtimeNow => assert(s[6] == f),
        FileSystemFeature::Utimensat => assert(s[7] == f),
    }
}

/// Distinct features have distinct names.
pub proof fn lemma_feature_name_injective(f: FileSystemFeature, g: FileSystemFeature)
    ensures
        feature_name(f) == feature_name(g) ==> f == g,
{
    reveal_strlit("chflags");
    reveal_strlit("nfsv4_acls");
    reveal_strlit("posix_fallocate");
    reveal_strlit("rename_ctime");
    reveal_strlit("stat_st_birthtime");
    reveal_strlit("chflags_sf_snapshot");
    reveal_strlit("utime_now");
    reveal_strlit("utimensat");
    if feature_name(f) == feature_name(g) {
        let a = feature_name(f);
        let b = feature_name(g);
        assert(a.len() == b.len() && a[5] == b[5]);
    }
}

/// Reading back the name of a feature gives the same feature.
pub proof fn lemma_feature_name_round_trip(f: FileSystemFeature)
    ensures
        parse_feature_name(feature_name(f)) == Some(f),
{
    let g = choose|g: FileSystemFeature| feature_name(g) == feature_name(f);
    lemma_feature_name_injective(f, g);
}

} // verus!
