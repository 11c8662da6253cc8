use crosscode::error::DeviceError;
use crosscode::provisioning::{
    download_status, first_failure, is_ddi_mounted, missing_assets, required_assets,
    select_mount_kind, AssetFile, MountKind,
};
use crosscode::version::{major_version, two_component};

fn names(assets: &[AssetFile]) -> Vec<String> {
    assets.iter().map(|a| a.name.clone()).collect()
}

#[test]
fn legacy_version_requests_image_and_signature() {
    let kind = select_mount_kind("16.4").unwrap();
    match &kind {
        MountKind::Legacy(folder) => assert_eq!(folder, "16.4"),
        MountKind::Personalized => panic!("expected the legacy path"),
    }
    let assets = required_assets(&kind);
    assert_eq!(
        names(&assets),
        vec!["DeveloperDiskImage.dmg".to_string(), "DeveloperDiskImage.dmg.signature".to_string()]
    );
    assert_eq!(
        assets[0].url,
        "https://github.com/doronz88/DeveloperDiskImage/raw/refs/heads/main/DeveloperDiskImages/16.4/DeveloperDiskImage.dmg"
    );
    assert_eq!(
        assets[1].url,
        "https://github.com/doronz88/DeveloperDiskImage/raw/refs/heads/main/DeveloperDiskImages/16.4/DeveloperDiskImage.dmg.signature"
    );
}

#[test]
fn legacy_version_is_trimmed_to_two_components() {
    match select_mount_kind("15.7.3").unwrap() {
        MountKind::Legacy(folder) => assert_eq!(folder, "15.7"),
        MountKind::Personalized => panic!("expected the legacy path"),
    }
}

#[test]
fn personalized_version_requests_fixed_triple() {
    let kind = select_mount_kind("17.0.1").unwrap();
    assert!(matches!(kind, MountKind::Personalized));
    let assets = required_assets(&kind);
    assert_eq!(
        names(&assets),
        vec![
            "BuildManifest.plist".to_string(),
            "Image.dmg.trustcache".to_string(),
            "Image.dmg".to_string()
        ]
    );
    let other = required_assets(&select_mount_kind("18.2").unwrap());
    assert_eq!(names(&other), names(&assets));
    assert_eq!(
        other[2].url,
        "https://github.com/doronz88/DeveloperDiskImage/raw/refs/heads/main/PersonalizedImages/Xcode_iOS_DDI_Personalized/Image.dmg"
    );
}

#[test]
fn unparsable_version_is_unexpected_value() {
    assert_eq!(
        select_mount_kind("beta").unwrap_err(),
        DeviceError::UnexpectedValueType("ProductVersion".to_string())
    );
    assert!(select_mount_kind("300.1").is_err());
    assert!(select_mount_kind("").is_err());
}

#[test]
fn major_version_parsing() {
    assert_eq!(major_version("16.4"), Some(16));
    assert_eq!(major_version("17"), Some(17));
    assert_eq!(major_version("+9.1"), Some(9));
    assert_eq!(major_version("255.0"), Some(255));
    assert_eq!(major_version("256.0"), None);
    assert_eq!(major_version(".1"), None);
    assert_eq!(major_version("1a.0"), None);
    assert_eq!(major_version("+"), None);
}

#[test]
fn two_component_trimming() {
    assert_eq!(two_component("16.4.1"), "16.4");
    assert_eq!(two_component("16.4"), "16.4");
    assert_eq!(two_component("16"), "16");
    assert_eq!(two_component("1.2.3.4"), "1.2.3");
}

#[test]
fn fully_cached_assets_need_no_download() {
    let kind = select_mount_kind("17.0.1").unwrap();
    let cached = vec![
        "Image.dmg".to_string(),
        "BuildManifest.plist".to_string(),
        "Image.dmg.trustcache".to_string(),
    ];
    assert!(missing_assets(required_assets(&kind), &cached).is_empty());
}

#[test]
fn only_missing_assets_are_downloaded() {
    let kind = select_mount_kind("16.4").unwrap();
    let cached = vec!["DeveloperDiskImage.dmg".to_string()];
    let missing = missing_assets(required_assets(&kind), &cached);
    assert_eq!(names(&missing), vec!["DeveloperDiskImage.dmg.signature".to_string()]);
    let all = missing_assets(required_assets(&kind), &Vec::new());
    assert_eq!(all.len(), 2);
}

#[test]
fn download_status_is_judged() {
    assert_eq!(download_status(200), Ok(()));
    assert_eq!(download_status(204), Ok(()));
    assert_eq!(download_status(404), Err(DeviceError::DownloadFailed("HTTP 404".to_string())));
    assert_eq!(download_status(301), Err(DeviceError::DownloadFailed("HTTP 301".to_string())));
    assert_eq!(download_status(0), Err(DeviceError::DownloadFailed("HTTP 0".to_string())));
}

#[test]
fn first_download_failure_aborts() {
    assert_eq!(first_failure(vec![Ok(()), Ok(())]), Ok(()));
    assert_eq!(first_failure(Vec::new()), Ok(()));
    assert_eq!(
        first_failure(vec![
            Ok(()),
            Err(DeviceError::DownloadFailed("HTTP 500".to_string())),
            Err(DeviceError::DownloadFailed("HTTP 404".to_string())),
        ]),
        Err(DeviceError::DownloadFailed("HTTP 500".to_string()))
    );
}

#[test]
fn mounted_developer_image_means_no_mount() {
    assert!(is_ddi_mounted(&vec!["Developer".to_string()]));
    assert!(is_ddi_mounted(&vec!["Cryptex".to_string(), "Personalized".to_string()]));
    assert!(!is_ddi_mounted(&vec!["Cryptex".to_string(), String::new()]));
    assert!(!is_ddi_mounted(&Vec::new()));
}
