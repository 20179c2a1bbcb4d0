use pjdfstest::features::FileSystemFeature;
use pjdfstest::flags::{FileFlags, TargetOs};

#[test]
fn feature_names_are_snake_case() {
    assert_eq!(FileSystemFeature::Chflags.name(), "chflags");
    assert_eq!(FileSystemFeature::Nfsv4Acls.name(), "nfsv4_acls");
    assert_eq!(FileSystemFeature::PosixFallocate.name(), "posix_fallocate");
    assert_eq!(FileSystemFeature::RenameCtime.name(), "rename_ctime");
    assert_eq!(FileSystemFeature::StatStBirthtime.name(), "stat_st_birthtime");
    assert_eq!(FileSystemFeature::ChflagsSfSnapshot.name(), "chflags_sf_snapshot");
    assert_eq!(FileSystemFeature::UtimeNow.name(), "utime_now");
    assert_eq!(FileSystemFeature::Utimensat.name(), "utimensat");
}

#[test]
fn feature_name_round_trip() {
    for f in FileSystemFeature::all() {
        assert_eq!(FileSystemFeature::from_name(f.name()), Some(f));
    }
    assert_eq!(FileSystemFeature::from_name("Chflags"), None);
    assert_eq!(FileSystemFeature::from_name(""), None);
    assert_eq!(FileSystemFeature::from_name("posix_fallocate "), None);
}

#[test]
fn all_features_listed_once() {
    let all = FileSystemFeature::all();
    assert_eq!(all.len(), 8);
    for (i, a) in all.iter().enumerate() {
        for b in all.iter().skip(i + 1) {
            assert_ne!(a, b);
        }
    }
    assert_eq!(all[0], FileSystemFeature::Chflags);
    assert_eq!(all[7], FileSystemFeature::Utimensat);
}

#[test]
fn feature_listing_line() {
    assert_eq!(
        FileSystemFeature::Nfsv4Acls.listing(),
        "nfsv4_acls: NFSv4 style Access Control Lists are available"
    );
    assert_eq!(
        FileSystemFeature::Chflags.documentation(),
        "The [`chflags`](https://man.freebsd.org/cgi/man.cgi?chflags(1)) command is available"
    );
}

#[test]
fn flag_names_are_variant_names() {
    assert_eq!(FileFlags::SF_APPEND.name(), "SF_APPEND");
    assert_eq!(FileFlags::UF_IMMUTABLE.name(), "UF_IMMUTABLE");
    assert_eq!(FileFlags::SF_SNAPINVAL.name(), "SF_SNAPINVAL");
}

#[test]
fn flag_name_round_trip() {
    for f in [
        FileFlags::UF_SETTABLE,
        FileFlags::UF_NODUMP,
        FileFlags::SF_APPEND,
        FileFlags::UF_APPEND,
        FileFlags::SF_ARCHIVED,
        FileFlags::SF_LOG,
        FileFlags::UF_HIDDEN,
    ] {
        assert_eq!(FileFlags::from_name(f.name()), Some(f));
    }
    assert_eq!(FileFlags::from_name("sf_append"), None);
    assert_eq!(FileFlags::from_name("SF_APPENDX"), None);
}

#[test]
fn flags_depend_on_the_target() {
    assert_eq!(FileFlags::from_name_on("SF_APPEND", TargetOs::Other), None);
    assert_eq!(FileFlags::from_name_on("SF_APPEND", TargetOs::FreeBsd), Some(FileFlags::SF_APPEND));
    assert_eq!(FileFlags::from_name_on("SF_SNAPSHOT", TargetOs::NetBsd), Some(FileFlags::SF_SNAPSHOT));
    assert_eq!(FileFlags::from_name_on("SF_SNAPSHOT", TargetOs::MacOs), None);
    assert_eq!(FileFlags::from_name_on("UF_HIDDEN", TargetOs::Ios), Some(FileFlags::UF_HIDDEN));
    assert_eq!(FileFlags::from_name_on("SF_LOG", TargetOs::DragonFly), None);
    assert_eq!(FileFlags::from_name_on("UF_CACHE", TargetOs::DragonFly), Some(FileFlags::UF_CACHE));
    assert_eq!(FileFlags::from_name_on("nope", TargetOs::FreeBsd), None);
    assert!(FileFlags::all().iter().all(|f| !f.available_on(TargetOs::Other)));
    assert_eq!(FileFlags::all().len(), 29);
}
