use vstd::prelude::*;

use crate::error::DeviceError;
use crate::text::{decimal, decimal_text, owned, push_str};
use crate::version::{major_version, major_version_of, two_component, two_component_version};

verus! {

/// The cache sub-directory that holds the developer-support images.
pub const DDI_DIR: &'static str = "DDI";

/// The property that holds the OS version.
pub const PRODUCT_VERSION_KEY: &'static str = "ProductVersion";

/// The property that holds the chip id needed by the personalized mount.
pub const UNIQUE_CHIP_ID_KEY: &'static str = "UniqueChipID";

/// The first OS major version that uses the personalized protocol.
pub const PERSONALIZED_MAJOR: u8 = 17;

pub const LEGACY_IMAGE: &'static str = "DeveloperDiskImage.dmg";

pub const LEGACY_SIGNATURE: &'static str = "DeveloperDiskImage.dmg.signature";

pub const BUILD_MANIFEST: &'static str = "BuildManifest.plist";

pub const TRUST_CACHE: &'static str = "Image.dmg.trustcache";

pub const PERSONALIZED_IMAGE: &'static str = "Image.dmg";

/// Where legacy images are published, one folder per two-component version.
pub const LEGACY_IMAGES_URL: &'static str =
    "https://github.com/doronz88/DeveloperDiskImage/raw/refs/heads/main/DeveloperDiskImages/";

pub const BUILD_MANIFEST_URL: &'static str =
    "https://github.com/doronz88/DeveloperDiskImage/raw/refs/heads/main/PersonalizedImages/Xcode_iOS_DDI_Personalized/BuildManifest.plist";

pub const TRUST_CACHE_URL: &'static str =
    "https://github.com/doronz88/DeveloperDiskImage/raw/refs/heads/main/PersonalizedImages/Xcode_iOS_DDI_Personalized/Image.dmg.trustcache";

pub const PERSONALIZED_IMAGE_URL: &'static str =
    "https://github.com/doronz88/DeveloperDiskImage/raw/refs/heads/main/PersonalizedImages/Xcode_iOS_DDI_Personalized/Image.dmg";

/// The mount protocol, chosen once per attempt from the OS major version.
#[derive(Debug, Clone)]
pub enum MountKind {
    /// Image and signature for the given two-component version.
    Legacy(String),
    /// The fixed manifest, trust cache and image triple.
    Personalized,
}

/// A file of the asset cache and where to fetch it from.
#[derive(Debug, Clone)]
pub struct AssetFile {
    pub name: String,
    pub url: String,
}

/// The plain content of an asset file: its name and its URL.
pub open spec fn asset_view(a: AssetFile) -> (Seq<char>, Seq<char>) {
    (a.name@, a.url@)
}

/// The mount kind for a device whose `ProductVersion` is `version`: legacy
/// below major version 17, with the version trimmed to two components,
/// personalized from 17 on, and `UnexpectedValueType` when the leading
/// component is not a byte-sized number.
pub open spec fn mount_kind_for(version: Seq<char>, r: Result<MountKind, DeviceError>) -> bool {
    match major_version_of(version) {
        None => r matches Err(DeviceError::UnexpectedValueType(k)) && k@ == PRODUCT_VERSION_KEY@,
        Some(m) => if m < PERSONALIZED_MAJOR {
            r matches Ok(MountKind::Legacy(f)) && f@ == two_component_version(version)
        } else {
            r matches Ok(MountKind::Personalized)
        },
    }
}

/// Chooses the mount protocol for `version`.
pub fn select_mount_kind(version: &str) -> (r: Result<MountKind, DeviceError>)
    ensures
        mount_kind_for(version@, r),
{
    match major_version(version) {
        None => Err(DeviceError::UnexpectedValueType(owned(PRODUCT_VERSION_KEY))),
        Some(m) => if m < PERSONALIZED_MAJOR {
            Ok(MountKind::Legacy(two_component(version)))
        } else {
            Ok(MountKind::Personalized)
        },
    }
}

/// The files that a mount of `kind` needs, in the order they are passed
/// on, with their URLs.
pub open spec fn required_asset_views(kind: MountKind) -> Seq<(Seq<char>, Seq<char>)> {
    match kind {
        MountKind::Legacy(v) => seq![
            (LEGACY_IMAGE@, LEGACY_IMAGES_URL@ + v@ + seq!['/'] + LEGACY_IMAGE@),
            (LEGACY_SIGNATURE@, LEGACY_IMAGES_URL@ + v@ + seq!['/'] + LEGACY_SIGNATURE@),
        ],
        MountKind::Personalized => seq![
            (BUILD_MANIFEST@, BUILD_MANIFEST_URL@),
            (TRUST_CACHE@, TRUST_CACHE_URL@),
            (PERSONALIZED_IMAGE@, PERSONALIZED_IMAGE_URL@),
        ],
    }
}

/// The URL of a legacy asset of folder `version`.
fn legacy_asset(version: &String, name: &'static str) -> (r: AssetFile)
    ensures
        r.name@ == name@,
        r.url@ == LEGACY_IMAGES_URL@ + version@ + seq!['/'] + name@,
{
    let mut url = owned(LEGACY_IMAGES_URL);
    push_str(&mut url, version.as_str());
    push_str(&mut url, "/");
    proof {
        reveal_strlit("/");
    }
    push_str(&mut url, name);
    AssetFile { name: owned(name), url }
}

/// The files that a mount of `kind` needs in the cache.
pub fn required_assets(kind: &MountKind) -> (r: Vec<AssetFile>)
    ensures
        r@.map_values(|a: AssetFile| asset_view(a)) == required_asset_views(*kind),
{
    let r = match kind {
        MountKind::Legacy(v) => vec![legacy_asset(v, LEGACY_IMAGE), legacy_asset(v, LEGACY_SIGNATURE)],
        MountKind::Personalized => vec![
            AssetFile { name: owned(BUILD_MANIFEST), url: owned(BUILD_MANIFEST_URL) },
            AssetFile { name: owned(TRUST_CACHE), url: owned(TRUST_CACHE_URL) },
            AssetFile { name: owned(PERSONALIZED_IMAGE), url: owned(PERSONALIZED_IMAGE_URL) },
        ],
    };
    assert(r@.map_values(|a: AssetFile| asset_view(a)) =~= required_asset_views(*kind));
    r
}

/// Whether a file named `name` is among the `cached` file names.
pub open spec fn is_cached(cached: Seq<String>, name: Seq<char>) -> bool {
    exists|i: int| 0 <= i < cached.len() && (#[trigger] cached[i])@ == name
}

/// The members of `required` that the cache lacks, in order.
pub open spec fn missing_of(required: Seq<AssetFile>, cached: Seq<String>) -> Seq<AssetFile> {
    required.filter(needs_download(cached))
}

/// Whether an asset must be fetched, given the `cached` file names.
pub open spec fn needs_download(cached: Seq<String>) -> spec_fn(AssetFile) -> bool {
    |a: AssetFile| !is_cached(cached, a.name@)
}

fn cache_holds(cached: &Vec<String>, name: &String) -> (r: bool)
    ensures
        r == is_cached(cached@, name@),
{
    let mut i: usize = 0;
    while i < cached.len()
        invariant
            i <= cached.len(),
            forall|j: int| 0 <= j < i ==> (#[trigger] cached@[j])@ != name@,
        decreases cached.len() - i,
    {
        if cached[i] == *name {
            return true;
        }
        i = i + 1;
    }
    false
}

/// The files to download before a mount: those of `required` whose name is
/// not among the `cached` file names, in order. Only the missing members
/// are fetched; the cache is never invalidated as a whole.
pub fn missing_assets(required: Vec<AssetFile>, cached: &Vec<String>) -> (r: Vec<AssetFile>)
    ensures
        r@ == missing_of(required@, cached@),
        (forall|i: int| 0 <= i < required.len() ==> is_cached(cached@, #[trigger] required[i].name@))
            ==> r.len() == 0,
{
    let ghost all = required@;
    let ghost pred = needs_download(cached@);
    let mut r: Vec<AssetFile> = Vec::new();
    for a in it: required.into_iter()
        invariant
            it.seq() == all,
            pred == needs_download(cached@),
            r@ == all.take(it.index() as int).filter(pred),
    {
        let ghost k = it.index();
        assert(all.take(k + 1).drop_last() =~= all.take(k as int));
        assert(all.take(k + 1).last() == a);
        proof {
            reveal(Seq::filter);
        }
        if !cache_holds(cached, &a.name) {
            r.push(a);
        }
    }
    assert(all.take(all.len() as int) =~= all);
    proof {
        lemma_all_cached_none_missing(all, cached@);
    }
    r
}

/// When the cache holds every required file, nothing is downloaded.
pub proof fn lemma_all_cached_none_missing(required: Seq<AssetFile>, cached: Seq<String>)
    ensures
        (forall|i: int| 0 <= i < required.len() ==> is_cached(cached, #[trigger] required[i].name@))
            ==> missing_of(required, cached).len() == 0,
    decreases required.len(),
{
    if required.len() > 0 && (forall|i: int|
        0 <= i < required.len() ==> is_cached(cached, #[trigger] required[i].name@)) {
        let rest = required.drop_last();
        assert forall|i: int| 0 <= i < rest.len() implies is_cached(
            cached,
            #[trigger] rest[i].name@,
        ) by {
            assert(rest[i] == required[i]);
        }
        lemma_all_cached_none_missing(rest, cached);
        assert(is_cached(cached, required[required.len() - 1].name@));
        assert(!needs_download(cached)(required.last()));
        reveal(Seq::filter);
        assert(missing_of(required, cached) == rest.filter(needs_download(cached)));
    }
}

/// The outcome of a set of concurrent downloads: success when every one
/// succeeded, else the first failure in order.
pub fn first_failure(results: Vec<Result<(), DeviceError>>) -> (r: Result<(), DeviceError>)
    ensures
        r is Ok <==> (forall|i: int| 0 <= i < results.len() ==> (#[trigger] results[i]) is Ok),
        r matches Err(e) ==> (exists|i: int|
            0 <= i < results.len() && results[i] == Err::<(), DeviceError>(e) && (forall|j: int|
                0 <= j < i ==> (#[trigger] results[j]) is Ok)),
{
    let ghost all = results@;
    for x in it: results.into_iter()
        invariant
            it.seq() == all,
            forall|j: int| 0 <= j < it.index() ==> (#[trigger] all[j]) is Ok,
    {
        let ghost k = it.index();
        if let Err(e) = x {
            assert(all[k as int] == Err::<(), DeviceError>(e));
            return Err(e);
        }
    }
    Ok(())
}

/// Whether an HTTP status counts as success (the 2xx range).
pub open spec fn is_success_status(status: u16) -> bool {
    200 <= status <= 299
}

/// The detail of a download refused with `status`: `HTTP <status>`.
pub open spec fn status_detail(status: u16) -> Seq<char> {
    HTTP_PREFIX@ + decimal(status as nat)
}

pub const HTTP_PREFIX: &'static str = "HTTP ";

/// Judges the status of a download response: success for a 2xx status,
/// else `DownloadFailed` naming the status code.
pub fn download_status(status: u16) -> (r: Result<(), DeviceError>)
    ensures
        is_success_status(status) ==> r is Ok,
        !is_success_status(status) ==> (r matches Err(DeviceError::DownloadFailed(d)) && d@
            == status_detail(status)),
{
    if 200 <= status && status <= 299 {
        Ok(())
    } else {
        let mut d = owned(HTTP_PREFIX);
        let code = decimal_text(status as u64);
        push_str(&mut d, code.as_str());
        Err(DeviceError::DownloadFailed(d))
    }
}

/// The image type of a mounted legacy developer image.
pub const DEVELOPER_IMAGE_TYPE: &'static str = "Developer";

/// The image type of a mounted personalized developer image.
pub const PERSONALIZED_IMAGE_TYPE: &'static str = "Personalized";

/// Whether `image_type` is the type of a developer image.
pub open spec fn is_developer_image_type(image_type: Seq<char>) -> bool {
    image_type == DEVELOPER_IMAGE_TYPE@ || image_type == PERSONALIZED_IMAGE_TYPE@
}

/// Whether a developer image needs no mount: one of the images that the
/// image mounter lists as mounted, given by their image types, is a
/// developer image (legacy or personalized).
pub fn is_ddi_mounted(image_types: &Vec<String>) -> (r: bool)
    ensures
        r == exists|i: int|
            0 <= i < image_types.len() && is_developer_image_type(#[trigger] image_types[i]@),
{
    let developer = owned(DEVELOPER_IMAGE_TYPE);
    let personalized = owned(PERSONALIZED_IMAGE_TYPE);
    let mut i: usize = 0;
    while i < image_types.len()
        invariant
            i <= image_types.len(),
            developer@ == DEVELOPER_IMAGE_TYPE@,
            personalized@ == PERSONALIZED_IMAGE_TYPE@,
            forall|k: int| 0 <= k < i ==> !is_developer_image_type(#[trigger] image_types[k]@),
        decreases image_types.len() - i,
    {
        if image_types[i] == developer || image_types[i] == personalized {
            return true;
        }
        i = i + 1;
    }
    false
}

/// Whatever the trailing components of a version whose major number is 17
/// or more, the mount is personalized and needs the same fixed triple.
pub proof fn lemma_personalized_ignores_version(version: Seq<char>, r: Result<MountKind, DeviceError>)
    requires
        major_version_of(version) matches Some(m) && m >= PERSONALIZED_MAJOR,
        mount_kind_for(version, r),
    ensures
        r matches Ok(kind) && required_asset_views(kind) == seq![
            (BUILD_MANIFEST@, BUILD_MANIFEST_URL@),
            (TRUST_CACHE@, TRUST_CACHE_URL@),
            (PERSONALIZED_IMAGE@, PERSONALIZED_IMAGE_URL@),
        ],
{
}

} // verus!
