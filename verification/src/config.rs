//! The configuration model: which file flags and file-system features the
//! file system under test offers, and the dummy users and groups that tests may
//! switch to. The guards decide, from this model, whether a test can run.

use vstd::prelude::*;

use crate::features::{FileSystemFeature, feature_name};
use crate::flags::{FileFlags, flag_name};
use crate::path::FsPath;
use crate::text::{join, join_spec};

verus! {

/// A user account, as read from the system's user database.
#[verifier::external_type_specification]
#[verifier::external_body]
pub struct ExUser(nix::unistd::User);

/// A group, as read from the system's group database.
#[verifier::external_type_specification]
#[verifier::external_body]
pub struct ExGroup(nix::unistd::Group);

/// Configuration shared by all file-system features.
#[derive(Debug, Clone, Copy, PartialEq, Eq, Structural)]
pub struct CommonFeatureConfig {}

/// Configuration for file-system specific features. It stands for a set of
/// file flags and a map from features to their configuration: no flag and no
/// feature is listed twice.
#[derive(Debug)]
pub struct FeaturesConfig {
    /// File flags available in the file system.
    file_flags: Vec<FileFlags>,
    /// Secondary file system to use for cross-file-system tests.
    secondary_fs: Option<FsPath>,
    /// File-system specific features which are enabled, each with its configuration.
    fs_features: Vec<(FileSystemFeature, CommonFeatureConfig)>,
}

/// A dummy user and its associated group.
#[derive(Debug)]
pub struct DummyAuthEntry {
    pub user: nix::unistd::User,
    pub group: nix::unistd::Group,
}

/// Dummy authentication configuration.
#[derive(Debug)]
pub struct DummyAuthConfig {
    pub entries: Vec<DummyAuthEntry>,
}

/// The features enabled in a configuration, in the order in which they are listed.
pub open spec fn enabled_features_spec(cfg: &FeaturesConfig) -> Seq<FileSystemFeature> {
    cfg.entries_view().map_values(|e: (FileSystemFeature, CommonFeatureConfig)| e.0)
}

/// The elements of `req`, each once, in order of first occurrence, that `avail` lacks.
pub open spec fn missing_spec<T>(req: Seq<T>, avail: Seq<T>) -> Seq<T>
    decreases req.len(),
{
    if req.len() == 0 {
        Seq::empty()
    } else {
        let prev = missing_spec(req.drop_last(), avail);
        let x = req.last();
        if avail.contains(x) || prev.contains(x) {
            prev
        } else {
            prev.push(x)
        }
    }
}

/// A sequence holds what its prefix without the last element holds, and that element.
proof fn lemma_contains_split<T>(s: Seq<T>, x: T)
    requires
        s.len() > 0,
    ensures
        s.contains(x) <==> (s.drop_last().contains(x) || x == s.last()),
{
    if s.contains(x) {
        let i = choose|i: int| 0 <= i < s.len() && s[i] == x;
        if i < s.len() - 1 {
            assert(s.drop_last()[i] == x);
        }
    }
    if s.drop_last().contains(x) {
        let i = choose|i: int| 0 <= i < s.drop_last().len() && s.drop_last()[i] == x;
        assert(s[i] == x);
    }
    if x == s.last() {
        assert(s[s.len() - 1] == x);
    }
}

/// What lacks from `avail` is exactly what `req` holds and `avail` does not,
/// and nothing is listed twice.
pub proof fn lemma_missing_spec<T>(req: Seq<T>, avail: Seq<T>)
    ensures
        forall|x: T| #[trigger] missing_spec(req, avail).contains(x) <==> (req.contains(x) && !avail.contains(x)),
        missing_spec(req, avail).no_duplicates(),
    decreases req.len(),
{
    if req.len() > 0 {
        let dl = req.drop_last();
        let y = req.last();
        let prev = missing_spec(dl, avail);
        lemma_missing_spec(dl, avail);
        assert forall|x: T| #[trigger] missing_spec(req, avail).contains(x) <==> (req.contains(x) && !avail.contains(x)) by {
            lemma_contains_split(req, x);
            lemma_contains_split(prev.push(y), x);
            assert(prev.push(y).drop_last() =~= prev);
        }
        if !(avail.contains(y) || prev.contains(y)) {
            let r = prev.push(y);
            assert forall|i: int, j: int| 0 <= i < r.len() && 0 <= j < r.len() && i != j implies r[i] != r[j] by {
                if j == r.len() - 1 {
                    assert(prev[i] == r[i]);
                } else if i == r.len() - 1 {
                    assert(prev[j] == r[j]);
                } else {
                    assert(prev[i] == r[i] && prev[j] == r[j]);
                }
            }
        }
    }
}

/// The message of the guard that finds none of its flags available.
pub open spec fn no_flag_message() -> Seq<char> {
    "None of the flags used for this test are available in the configuration"@
}

/// The message of the guard that lacks the flags `missing`.
pub open spec fn unsupported_flags_message(missing: Seq<FileFlags>) -> Seq<char> {
    "file flags "@ + join_spec(missing.map_values(|f: FileFlags| flag_name(f)), ", "@) + " aren't supported"@
}

/// Whether `f` occurs in `items`.
fn contains_flag(items: &[FileFlags], f: FileFlags) -> (res: bool)
    ensures
        res == items@.contains(f),
{
    let mut i: usize = 0;
    while i < items.len()
        invariant
            i <= items@.len(),
            forall|k: int| 0 <= k < i ==> items@[k] != f,
        decreases items@.len() - i,
    {
        if items[i] == f {
            return true;
        }
        i = i + 1;
    }
    false
}

/// Whether `f` occurs in `items`.
fn contains_feature(items: &[FileSystemFeature], f: FileSystemFeature) -> (res: bool)
    ensures
        res == items@.contains(f),
{
    let mut i: usize = 0;
    while i < items.len()
        invariant
            i <= items@.len(),
            forall|k: int| 0 <= k < i ==> items@[k] != f,
        decreases items@.len() - i,
    {
        if items[i] == f {
            return true;
        }
        i = i + 1;
    }
    false
}

/// The flags of `req`, each once, in order of first occurrence, that `avail` lacks.
pub fn missing_flags(req: &[FileFlags], avail: &[FileFlags]) -> (res: Vec<FileFlags>)
    ensures
        res@ == missing_spec(req@, avail@),
{
    let mut res: Vec<FileFlags> = Vec::new();
    let mut i: usize = 0;
    while i < req.len()
        invariant
            i <= req@.len(),
            res@ == missing_spec(req@.take(i as int), avail@),
        decreases req@.len() - i,
    {
        let f = req[i];
        proof {
            assert(req@.take(i + 1).drop_last() =~= req@.take(i as int));
            assert(req@.take(i + 1).last() == f);
        }
        if !contains_flag(avail, f) && !contains_flag(res.as_slice(), f) {
            res.push(f);
        }
        i = i + 1;
    }
    proof {
        assert(req@.take(req@.len() as int) =~= req@);
    }
    res
}

/// The features of `req`, each once, in order of first occurrence, that `avail` lacks.
pub fn missing_features(req: &[FileSystemFeature], avail: &[FileSystemFeature]) -> (res: Vec<FileSystemFeature>)
    ensures
        res@ == missing_spec(req@, avail@),
{
    let mut res: Vec<FileSystemFeature> = Vec::new();
    let mut i: usize = 0;
    while i < req.len()
        invariant
            i <= req@.len(),
            res@ == missing_spec(req@.take(i as int), avail@),
        decreases req@.len() - i,
    {
        let f = req[i];
        proof {
            assert(req@.take(i + 1).drop_last() =~= req@.take(i as int));
            assert(req@.take(i + 1).last() == f);
        }
        if !contains_feature(avail, f) && !contains_feature(res.as_slice(), f) {
            res.push(f);
        }
        i = i + 1;
    }
    proof {
        assert(req@.take(req@.len() as int) =~= req@);
    }
    res
}

/// The names of the flags, in order.
fn flag_names(flags: &Vec<FileFlags>) -> (res: Vec<String>)
    ensures
        res@.map_values(|s: String| s@) == flags@.map_values(|f: FileFlags| flag_name(f)),
{
    let mut res: Vec<String> = Vec::new();
    let mut i: usize = 0;
    while i < flags.len()
        invariant
            i <= flags@.len(),
            res@.len() == i,
            forall|k: int| 0 <= k < i ==> #[trigger] res@[k]@ == flag_name(flags@[k]),
        decreases flags@.len() - i,
    {
        res.push(String::from_str(flags[i].name()));
        i = i + 1;
    }
    proof {
        assert(res@.map_values(|s: String| s@) =~= flags@.map_values(|f: FileFlags| flag_name(f)));
    }
    res
}

/// The names of the features, in order.
pub fn feature_names(features: &Vec<FileSystemFeature>) -> (res: Vec<String>)
    ensures
        res@.map_values(|s: String| s@) == features@.map_values(|f: FileSystemFeature| feature_name(f)),
{
    let mut res: Vec<String> = Vec::new();
    let mut i: usize = 0;
    while i < features.len()
        invariant
            i <= features@.len(),
            res@.len() == i,
            forall|k: int| 0 <= k < i ==> #[trigger] res@[k]@ == feature_name(features@[k]),
        decreases features@.len() - i,
    {
        res.push(String::from_str(features[i].name()));
        i = i + 1;
    }
    proof {
        assert(res@.map_values(|s: String| s@) =~= features@.map_values(|f: FileSystemFeature| feature_name(f)));
    }
    res
}

impl Default for FeaturesConfig {
    fn default() -> (res: FeaturesConfig)
        ensures
            res.flags_view() == Seq::<FileFlags>::empty(),
            res.secondary_fs_view() is None,
            res.entries_view() == Seq::<(FileSystemFeature, CommonFeatureConfig)>::empty(),
    {
        FeaturesConfig { file_flags: Vec::new(), secondary_fs: None, fs_features: Vec::new() }
    }
}

impl FeaturesConfig {
    /// The available file flags, in the order in which they were added.
    pub closed spec fn flags_view(&self) -> Seq<FileFlags> {
        self.file_flags@
    }

    /// The enabled features with their configuration, in the order in which
    /// they were enabled.
    pub closed spec fn entries_view(&self) -> Seq<(FileSystemFeature, CommonFeatureConfig)> {
        self.fs_features@
    }

    /// The secondary file system, if any.
    pub closed spec fn secondary_fs_view(&self) -> Option<Seq<u8>> {
        match self.secondary_fs {
            Some(p) => Some(p@),
            None => None,
        }
    }

    /// No flag and no feature is listed twice.
    #[verifier::type_invariant]
    spec fn wf(&self) -> bool {
        &&& self.file_flags@.no_duplicates()
        &&& self.fs_features@.map_values(|e: (FileSystemFeature, CommonFeatureConfig)| e.0).no_duplicates()
    }

    /// The available file flags, each once.
    pub fn file_flags(&self) -> (res: &[FileFlags])
        ensures
            res@ == self.flags_view(),
            res@.no_duplicates(),
    {
        proof {
            use_type_invariant(self);
        }
        self.file_flags.as_slice()
    }

    /// The enabled features with their configuration, each feature once.
    pub fn fs_features(&self) -> (res: &[(FileSystemFeature, CommonFeatureConfig)])
        ensures
            res@ == self.entries_view(),
            enabled_features_spec(self).no_duplicates(),
    {
        proof {
            use_type_invariant(self);
        }
        self.fs_features.as_slice()
    }

    /// The secondary file system to use for cross-file-system tests, if any.
    pub fn secondary_fs(&self) -> (res: Option<&FsPath>)
        ensures
            match res {
                Some(p) => self.secondary_fs_view() == Some(p@),
                None => self.secondary_fs_view() is None,
            },
    {
        match &self.secondary_fs {
            Some(p) => Some(p),
            None => None,
        }
    }

    /// Sets the secondary file system.
    pub fn set_secondary_fs(&mut self, fs: Option<FsPath>)
        ensures
            final(self).secondary_fs_view() == match fs {
                Some(p) => Some(p@),
                None => None::<Seq<u8>>,
            },
            final(self).flags_view() == old(self).flags_view(),
            final(self).entries_view() == old(self).entries_view(),
    {
        proof {
            use_type_invariant(&*self);
        }
        self.secondary_fs = fs;
    }

    /// Makes the flag `f` available; returns whether it was not available yet.
    pub fn insert_file_flag(&mut self, f: FileFlags) -> (res: bool)
        ensures
            res == !old(self).flags_view().contains(f),
            final(self).flags_view() == if res {
                old(self).flags_view().push(f)
            } else {
                old(self).flags_view()
            },
            final(self).flags_view().no_duplicates(),
            final(self).secondary_fs_view() == old(self).secondary_fs_view(),
            final(self).entries_view() == old(self).entries_view(),
    {
        proof {
            use_type_invariant(&*self);
        }
        if self.has_file_flag(f) {
            proof {
                use_type_invariant(&*self);
            }
            false
        } else {
            let mut flags: Vec<FileFlags> = Vec::new();
            std::mem::swap(&mut flags, &mut self.file_flags);
            let ghost before = flags@;
            flags.push(f);
            proof {
                let after = flags@;
                assert forall|i: int, j: int| 0 <= i < after.len() && 0 <= j < after.len() && i != j
                    implies after[i] != after[j] by {
                    if i == before.len() {
                        assert(after[j] == before[j]);
                    } else if j == before.len() {
                        assert(after[i] == before[i]);
                    }
                }
            }
            self.file_flags = flags;
            true
        }
    }

    /// Enables the feature `f` with the configuration `cfg`, in place of the
    /// configuration it had; returns that configuration, if it was enabled.
    pub fn enable_feature(&mut self, f: FileSystemFeature, cfg: CommonFeatureConfig) -> (res: Option<CommonFeatureConfig>)
        ensures
            res is Some <==> enabled_features_spec(old(self)).contains(f),
            enabled_features_spec(final(self)) == if res is Some {
                enabled_features_spec(old(self))
            } else {
                enabled_features_spec(old(self)).push(f)
            },
            enabled_features_spec(final(self)).no_duplicates(),
            res is Some ==> exists|k: int|
                0 <= k < old(self).entries_view().len() && #[trigger] old(self).entries_view()[k].0 == f
                    && res == Some(old(self).entries_view()[k].1)
                    && final(self).entries_view() == old(self).entries_view().update(k, (f, cfg)),
            res is None ==> final(self).entries_view() == old(self).entries_view().push((f, cfg)),
            final(self).flags_view() == old(self).flags_view(),
            final(self).secondary_fs_view() == old(self).secondary_fs_view(),
    {
        proof {
            use_type_invariant(&*self);
        }
        let mut entries: Vec<(FileSystemFeature, CommonFeatureConfig)> = Vec::new();
        std::mem::swap(&mut entries, &mut self.fs_features);
        let ghost before = entries@;
        let ghost keys = before.map_values(|e: (FileSystemFeature, CommonFeatureConfig)| e.0);
        assert(keys == enabled_features_spec(old(self)));
        let mut i: usize = 0;
        while i < entries.len()
            invariant
                i <= entries@.len(),
                entries@ == before,
                keys == before.map_values(|e: (FileSystemFeature, CommonFeatureConfig)| e.0),
                keys.no_duplicates(),
                keys == enabled_features_spec(old(self)),
                before == old(self).entries_view(),
                self.file_flags@ == old(self).flags_view(),
                self.file_flags@.no_duplicates(),
                self.secondary_fs == old(self).secondary_fs,
                forall|k: int| 0 <= k < i ==> #[trigger] before[k].0 != f,
            decreases entries@.len() - i,
        {
            if entries[i].0 == f {
                let previous = entries[i].1;
                entries.set(i, (f, cfg));
                proof {
                    assert(keys[i as int] == f);
                    assert(entries@.map_values(|e: (FileSystemFeature, CommonFeatureConfig)| e.0) =~= keys);
                    assert(entries@ =~= before.update(i as int, (f, cfg)));
                }
                self.fs_features = entries;
                proof {
                    assert(enabled_features_spec(self) =~= keys);
                }
                return Some(previous);
            }
            i = i + 1;
        }
        proof {
            assert forall|k: int| 0 <= k < keys.len() implies keys[k] != f by {
                assert(keys[k] == before[k].0);
            }
        }
        entries.push((f, cfg));
        let ghost after = entries@.map_values(|e: (FileSystemFeature, CommonFeatureConfig)| e.0);
        proof {
            assert(after =~= keys.push(f));
            assert forall|a: int, b: int| 0 <= a < after.len() && 0 <= b < after.len() && a != b
                implies after[a] != after[b] by {
                if a == keys.len() {
                    assert(after[b] == keys[b]);
                } else if b == keys.len() {
                    assert(after[a] == keys[a]);
                }
            }
        }
        self.fs_features = entries;
        proof {
            assert(enabled_features_spec(self) =~= after);
        }
        None
    }

    /// Whether the file flag `f` is available.
    pub fn has_file_flag(&self, f: FileFlags) -> (res: bool)
        ensures
            res == self.flags_view().contains(f),
    {
        contains_flag(self.file_flags.as_slice(), f)
    }

    /// The enabled features, in the order in which they are listed.
    pub fn enabled_features(&self) -> (res: Vec<FileSystemFeature>)
        ensures
            res@ == enabled_features_spec(self),
    {
        let mut res: Vec<FileSystemFeature> = Vec::new();
        let mut i: usize = 0;
        while i < self.fs_features.len()
            invariant
                i <= self.fs_features@.len(),
                res@ == enabled_features_spec(self).take(i as int),
            decreases self.fs_features@.len() - i,
        {
            res.push(self.fs_features[i].0);
            proof {
                assert(res@ =~= enabled_features_spec(self).take(i + 1));
            }
            i = i + 1;
        }
        proof {
            assert(res@ =~= enabled_features_spec(self));
        }
        res
    }

    /// Whether the feature `f` is enabled.
    pub fn has_feature(&self, f: FileSystemFeature) -> (res: bool)
        ensures
            res == enabled_features_spec(self).contains(f),
    {
        let enabled = self.enabled_features();
        contains_feature(enabled.as_slice(), f)
    }
}

/// Guard to check whether any of the provided flags is available in the configuration.
pub fn supports_any_flag_helper(flags: &[FileFlags], features: &FeaturesConfig) -> (res: Result<(), String>)
    ensures
        res is Ok <==> exists|i: int| 0 <= i < flags@.len() && features.flags_view().contains(#[trigger] flags@[i]),
        res matches Err(msg) ==> msg@ == no_flag_message(),
{
    let mut i: usize = 0;
    while i < flags.len()
        invariant
            i <= flags@.len(),
            forall|k: int| 0 <= k < i ==> !features.flags_view().contains(#[trigger] flags@[k]),
        decreases flags@.len() - i,
    {
        if features.has_file_flag(flags[i]) {
            return Ok(());
        }
        i = i + 1;
    }
    Err(String::from_str("None of the flags used for this test are available in the configuration"))
}

/// Guard to check whether all of the provided flags are available in the
/// configuration; the error names those which are not.
pub fn supports_file_flags(flags: &[FileFlags], features: &FeaturesConfig) -> (res: Result<(), String>)
    ensures
        res is Ok <==> forall|i: int| 0 <= i < flags@.len() ==> features.flags_view().contains(#[trigger] flags@[i]),
        res matches Err(msg) ==> msg@ == unsupported_flags_message(missing_spec(flags@, features.flags_view())),
{
    let missing = missing_flags(flags, features.file_flags());
    proof {
        lemma_missing_spec(flags@, features.flags_view());
    }
    if missing.len() == 0 {
        proof {
            assert forall|i: int| 0 <= i < flags@.len() implies features.flags_view().contains(#[trigger] flags@[i]) by {
                assert(flags@.contains(flags@[i]));
                if !features.flags_view().contains(flags@[i]) {
                    assert(missing@.contains(flags@[i]));
                }
            }
        }
        Ok(())
    } else {
        proof {
            let x = missing@[0];
            assert(missing@.contains(x));
            let i = choose|i: int| 0 <= i < flags@.len() && flags@[i] == x;
            assert(!features.flags_view().contains(flags@[i]));
        }
        let names = flag_names(&missing);
        let list = join(&names, ", ");
        let mut msg = String::from_str("file flags ");
        msg.append(list.as_str());
        msg.append(" aren't supported");
        Err(msg)
    }
}

} // verus!
