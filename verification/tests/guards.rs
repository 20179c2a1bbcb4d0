use pjdfstest::config::{
    missing_flags, supports_any_flag_helper, supports_file_flags, CommonFeatureConfig,
    FeaturesConfig,
};
use pjdfstest::features::FileSystemFeature;
use pjdfstest::flags::FileFlags;

#[test]
fn support_flags_test_empty() {
    let config = FeaturesConfig::default();
    assert!(supports_file_flags(&[], &config).is_ok());
}

#[test]
fn support_flags_test_unique() {
    let mut config = FeaturesConfig::default();
    let flags = [FileFlags::SF_APPEND];
    assert!(supports_file_flags(&flags, &config).is_err());

    config.insert_file_flag(FileFlags::SF_APPEND);
    assert!(supports_file_flags(&flags, &config).is_ok());

    let mut config = FeaturesConfig::default();
    config.insert_file_flag(FileFlags::SF_APPEND);
    config.insert_file_flag(FileFlags::UF_APPEND);
    assert!(supports_file_flags(&flags, &config).is_ok());
}

#[test]
fn support_flags_test_not_empty() {
    let mut config = FeaturesConfig::default();
    let flags = [FileFlags::SF_APPEND, FileFlags::UF_APPEND];
    assert!(supports_file_flags(&flags, &config).is_err());

    config.insert_file_flag(FileFlags::SF_APPEND);
    assert!(supports_file_flags(&flags, &config).is_err());

    let mut config = FeaturesConfig::default();
    config.insert_file_flag(FileFlags::SF_APPEND);
    config.insert_file_flag(FileFlags::UF_APPEND);
    assert!(supports_file_flags(&flags, &config).is_ok());

    let mut config = FeaturesConfig::default();
    config.insert_file_flag(FileFlags::SF_APPEND);
    config.insert_file_flag(FileFlags::UF_APPEND);
    config.insert_file_flag(FileFlags::SF_ARCHIVED);
    assert!(supports_file_flags(&flags, &config).is_ok());
}

#[test]
fn unsupported_flags_message() {
    let mut config = FeaturesConfig::default();
    config.insert_file_flag(FileFlags::UF_APPEND);
    let flags = [FileFlags::SF_APPEND, FileFlags::UF_APPEND, FileFlags::SF_IMMUTABLE, FileFlags::SF_APPEND];
    assert_eq!(
        supports_file_flags(&flags, &config).unwrap_err(),
        "file flags SF_APPEND, SF_IMMUTABLE aren't supported"
    );
}

#[test]
fn missing_flags_in_request_order_once() {
    let req = [FileFlags::SF_LOG, FileFlags::UF_NODUMP, FileFlags::SF_LOG, FileFlags::UF_HIDDEN];
    let avail = [FileFlags::UF_NODUMP];
    assert_eq!(missing_flags(&req, &avail), vec![FileFlags::SF_LOG, FileFlags::UF_HIDDEN]);
}

#[test]
fn supports_any_flag() {
    let mut config = FeaturesConfig::default();
    let flags = [FileFlags::SF_APPEND, FileFlags::UF_APPEND];
    assert_eq!(
        supports_any_flag_helper(&flags, &config).unwrap_err(),
        "None of the flags used for this test are available in the configuration"
    );
    config.insert_file_flag(FileFlags::UF_APPEND);
    assert!(supports_any_flag_helper(&flags, &config).is_ok());
    assert!(supports_any_flag_helper(&[], &config).is_err());
}

#[test]
fn enabled_features() {
    let mut config = FeaturesConfig::default();
    assert!(!config.has_feature(FileSystemFeature::Utimensat));
    assert_eq!(config.enable_feature(FileSystemFeature::PosixFallocate, CommonFeatureConfig {}), None);
    assert_eq!(config.enable_feature(FileSystemFeature::Utimensat, CommonFeatureConfig {}), None);
    assert_eq!(
        config.enable_feature(FileSystemFeature::Utimensat, CommonFeatureConfig {}),
        Some(CommonFeatureConfig {})
    );
    assert!(config.has_feature(FileSystemFeature::Utimensat));
    assert!(!config.has_feature(FileSystemFeature::Chflags));
    assert_eq!(
        config.enabled_features(),
        vec![FileSystemFeature::PosixFallocate, FileSystemFeature::Utimensat]
    );
    assert!(config.has_file_flag(FileFlags::SF_APPEND) == false);
}

#[test]
fn inserting_a_flag_twice_keeps_one() {
    let mut config = FeaturesConfig::default();
    assert!(config.insert_file_flag(FileFlags::SF_APPEND));
    assert!(!config.insert_file_flag(FileFlags::SF_APPEND));
    assert_eq!(config.file_flags(), &[FileFlags::SF_APPEND][..]);
}

#[test]
fn secondary_file_system() {
    let mut config = FeaturesConfig::default();
    assert!(config.secondary_fs().is_none());
    config.set_secondary_fs(Some(pjdfstest::path::FsPath::from_str("/mnt/other")));
    assert_eq!(config.secondary_fs().unwrap().as_bytes(), b"/mnt/other");
    assert!(config.file_flags().is_empty());
    assert!(config.fs_features().is_empty());
}
