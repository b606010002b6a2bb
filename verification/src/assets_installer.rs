//! Plans and checks the hash-verified downloads of one launch: which files
//! are needed, when a local copy already suffices, and what a fetched body
//! must satisfy before it may take the file's place. The surrounding
//! program does the reading, fetching and writing; every decision about
//! the bytes is made here.

use vstd::prelude::*;
use sha1::Digest;
use crate::LauncherError;
use crate::minecraft::minecraft_assets::AssetObjects;
use crate::minecraft::minecraft_assets::AssetObjectsV;
use crate::minecraft::minecraft_assets::Client;
use crate::minecraft::minecraft_assets::ClientV;
use crate::minecraft::minecraft_assets::Libraries;
use crate::minecraft::minecraft_assets::LibrariesV;
use crate::minecraft::minecraft_assets::MinecraftAssets;
use crate::text::hex_of;
use crate::text::str_eq;
use crate::text::to_hex;

verus! {

/// One file the installer must guarantee: its local path, expected SHA-1
/// digest in lowercase hex, declared size and source URL.
#[derive(Debug)]
pub struct DownloadAsset {
    pub file_name: String,
    pub file_path: String,
    pub sha1: String,
    pub size: i32,
    pub url: String,
}

/// The mathematical value of a `DownloadAsset`.
pub struct DownloadAssetV {
    pub file_name: Seq<char>,
    pub file_path: Seq<char>,
    pub sha1: Seq<char>,
    pub size: int,
    pub url: Seq<char>,
}

impl DeepView for DownloadAsset {
    type V = DownloadAssetV;

    open spec fn deep_view(&self) -> DownloadAssetV {
        DownloadAssetV {
            file_name: self.file_name@,
            file_path: self.file_path@,
            sha1: self.sha1@,
            size: self.size as int,
            url: self.url@,
        }
    }
}

pub open spec fn download_asset_of_library(l: LibrariesV) -> DownloadAssetV {
    DownloadAssetV {
        file_name: l.file_name,
        file_path: l.file_path,
        sha1: l.sha1,
        size: l.size,
        url: l.url,
    }
}

pub open spec fn download_asset_of_object(o: AssetObjectsV) -> DownloadAssetV {
    DownloadAssetV {
        file_name: o.file_name,
        file_path: o.file_path,
        sha1: o.sha1,
        size: o.size,
        url: o.download_url,
    }
}

pub open spec fn download_asset_of_client(c: ClientV) -> DownloadAssetV {
    DownloadAssetV {
        file_name: c.file_name,
        file_path: c.file_path,
        sha1: c.sha1,
        size: c.size,
        url: c.url,
    }
}

pub open spec fn libraries_plan_spec(libs: Seq<LibrariesV>) -> Seq<DownloadAssetV>
    decreases libs.len(),
{
    if libs.len() == 0 {
        Seq::<DownloadAssetV>::empty()
    } else {
        libraries_plan_spec(libs.drop_last()).push(download_asset_of_library(libs.last()))
    }
}

pub open spec fn objects_plan_spec(objs: Seq<AssetObjectsV>) -> Seq<DownloadAssetV>
    decreases objs.len(),
{
    if objs.len() == 0 {
        Seq::<DownloadAssetV>::empty()
    } else {
        objects_plan_spec(objs.drop_last()).push(download_asset_of_object(objs.last()))
    }
}

/// Lists the downloads the libraries need, in order.
pub fn minecraft_libraries_install(libraries: &Vec<Libraries>) -> (r: Vec<DownloadAsset>)
    ensures
        r.deep_view() == libraries_plan_spec(libraries.deep_view()),
{
    let mut download_libraries: Vec<DownloadAsset> = Vec::new();
    let mut i: usize = 0;
    proof {
        assert(libraries.deep_view().subrange(0, 0) =~= Seq::<LibrariesV>::empty());
        assert(download_libraries.deep_view() =~= libraries_plan_spec(
            libraries.deep_view().subrange(0, 0),
        ));
    }
    while i < libraries.len()
        invariant
            i <= libraries@.len(),
            libraries.deep_view().len() == libraries@.len(),
            download_libraries.deep_view() == libraries_plan_spec(
                libraries.deep_view().subrange(0, i as int),
            ),
        decreases libraries@.len() - i,
    {
        let ghost libs_dv = libraries.deep_view();
        proof {
            assert(libs_dv.subrange(0, i + 1).drop_last() =~= libs_dv.subrange(0, i as int));
            assert(libs_dv.subrange(0, i + 1).last() == libs_dv[i as int]);
            assert(libs_dv[i as int] == libraries@[i as int].deep_view());
        }
        let lib = &libraries[i];
        let ghost old_dv = download_libraries.deep_view();
        download_libraries.push(
            DownloadAsset {
                file_name: lib.file_name.clone(),
                file_path: lib.file_path.clone(),
                sha1: lib.sha1.clone(),
                size: lib.size,
                url: lib.url.clone(),
            },
        );
        proof {
            assert(download_libraries.deep_view() =~= old_dv.push(
                download_asset_of_library(libs_dv[i as int]),
            ));
        }
        i += 1;
    }
    proof {
        let libs_dv = libraries.deep_view();
        assert(libs_dv.subrange(0, libs_dv.len() as int) =~= libs_dv);
    }
    download_libraries
}

/// Lists the downloads the asset objects need, in order.
pub fn minecraft_assets_install(assets_objects: &Vec<AssetObjects>) -> (r: Vec<DownloadAsset>)
    ensures
        r.deep_view() == objects_plan_spec(assets_objects.deep_view()),
{
    let mut download_assets: Vec<DownloadAsset> = Vec::new();
    let mut i: usize = 0;
    proof {
        assert(assets_objects.deep_view().subrange(0, 0) =~= Seq::<AssetObjectsV>::empty());
        assert(download_assets.deep_view() =~= objects_plan_spec(
            assets_objects.deep_view().subrange(0, 0),
        ));
    }
    while i < assets_objects.len()
        invariant
            i <= assets_objects@.len(),
            assets_objects.deep_view().len() == assets_objects@.len(),
            download_assets.deep_view() == objects_plan_spec(
                assets_objects.deep_view().subrange(0, i as int),
            ),
        decreases assets_objects@.len() - i,
    {
        let ghost objs_dv = assets_objects.deep_view();
        proof {
            assert(objs_dv.subrange(0, i + 1).drop_last() =~= objs_dv.subrange(0, i as int));
            assert(objs_dv.subrange(0, i + 1).last() == objs_dv[i as int]);
            assert(objs_dv[i as int] == assets_objects@[i as int].deep_view());
        }
        let asset_object = &assets_objects[i];
        let ghost old_dv = download_assets.deep_view();
        download_assets.push(
            DownloadAsset {
                file_name: asset_object.file_name.clone(),
                file_path: asset_object.file_path.clone(),
                sha1: asset_object.sha1.clone(),
                size: asset_object.size,
                url: asset_object.download_url.clone(),
            },
        );
        proof {
            assert(download_assets.deep_view() =~= old_dv.push(
                download_asset_of_object(objs_dv[i as int]),
            ));
        }
        i += 1;
    }
    proof {
        let objs_dv = assets_objects.deep_view();
        assert(objs_dv.subrange(0, objs_dv.len() as int) =~= objs_dv);
    }
    download_assets
}

/// The whole download plan of one launch: the client jar, then every asset
/// object, then every library, each to be ensured against its digest.
pub fn validate_installer(minecraft_assets: &MinecraftAssets) -> (r: Vec<DownloadAsset>)
    ensures
        r.deep_view() == seq![download_asset_of_client(minecraft_assets.client.deep_view())]
            + objects_plan_spec(minecraft_assets.assets_objects.deep_view())
            + libraries_plan_spec(minecraft_assets.libraries.deep_view()),
{
    let mut plan: Vec<DownloadAsset> = Vec::new();
    plan.push(
        DownloadAsset {
            file_name: minecraft_assets.client.file_name.clone(),
            file_path: minecraft_assets.client.file_path.clone(),
            sha1: minecraft_assets.client.sha1.clone(),
            size: minecraft_assets.client.size,
            url: minecraft_assets.client.url.clone(),
        },
    );
    proof {
        assert(plan.deep_view() =~= seq![
            download_asset_of_client(minecraft_assets.client.deep_view()),
        ]);
    }
    let mut objects = minecraft_assets_install(&minecraft_assets.assets_objects);
    let ghost p1 = plan.deep_view();
    plan.append(&mut objects);
    proof {
        assert(plan.deep_view() =~= p1 + objects_plan_spec(
            minecraft_assets.assets_objects.deep_view(),
        ));
    }
    let mut libs = minecraft_libraries_install(&minecraft_assets.libraries);
    let ghost p2 = plan.deep_view();
    plan.append(&mut libs);
    proof {
        assert(plan.deep_view() =~= p2 + libraries_plan_spec(
            minecraft_assets.libraries.deep_view(),
        ));
        assert(plan.deep_view() =~= seq![
            download_asset_of_client(minecraft_assets.client.deep_view()),
        ] + objects_plan_spec(minecraft_assets.assets_objects.deep_view()) + libraries_plan_spec(
            minecraft_assets.libraries.deep_view(),
        ));
    }
    plan
}

// ---------------------------------------------------------------------------
// Integrity checks
// ---------------------------------------------------------------------------

/// The SHA-1 digest of a byte string.
pub uninterp spec fn sha1_of(data: Seq<u8>) -> Seq<u8>;

/// Relies on sha1::Sha1 through Digest::digest: the 20-byte SHA-1 digest
/// of the input, a function of the input bytes alone.
#[verifier::external_body]
fn sha1_digest(data: &Vec<u8>) -> (r: Vec<u8>)
    ensures
        r@ == sha1_of(data@),
        r@.len() == 20,
{
    sha1::Sha1::digest(data.as_slice()).to_vec()
}

/// Whether a file's content already carries the expected digest: its SHA-1
/// in lowercase hex equals `sha1`.
pub fn sha1_exists(content: &Vec<u8>, sha1: &str) -> (r: bool)
    ensures
        r == (hex_of(sha1_of(content@)) == sha1@),
{
    let digest = sha1_digest(content);
    let local_hash = to_hex(&digest);
    str_eq(local_hash.as_str(), sha1)
}

/// Whether a file must be fetched: it is absent, or its content does not
/// carry the expected digest. A local file that already matches needs no
/// network request at all.
pub fn needs_download(local_content: Option<&Vec<u8>>, expected_sha1: &str) -> (b: bool)
    ensures
        b == match local_content {
            Some(c) => hex_of(sha1_of(c@)) != expected_sha1@,
            None => true,
        },
{
    match local_content {
        Some(content) => !sha1_exists(content, expected_sha1),
        None => true,
    }
}

/// What a fetch attempt must satisfy before its body may take the file's
/// place: a success status and a declared content length, else
/// `NetworkError`; a body whose digest matches, else `IntegrityError`.
pub open spec fn download_outcome_spec(
    status_success: bool,
    content_length: Option<u64>,
    body: Seq<u8>,
    expected_sha1: Seq<char>,
) -> Result<(), LauncherError> {
    if !status_success {
        Err(LauncherError::NetworkError)
    } else if content_length is None {
        Err(LauncherError::NetworkError)
    } else if hex_of(sha1_of(body)) != expected_sha1 {
        Err(LauncherError::IntegrityError)
    } else {
        Ok(())
    }
}

/// Judges a fetched response. Only on `Ok` does the body's digest match
/// the expectation, so only then may the body be written into place; on
/// any error the caller leaves the target file untouched.
pub fn verify_response(
    status_success: bool,
    content_length: Option<u64>,
    body: &Vec<u8>,
    expected_sha1: &str,
) -> (r: Result<(), LauncherError>)
    ensures
        r == download_outcome_spec(status_success, content_length, body@, expected_sha1@),
{
    if !status_success {
        return Err(LauncherError::NetworkError);
    }
    if content_length.is_none() {
        return Err(LauncherError::NetworkError);
    }
    if !sha1_exists(body, expected_sha1) {
        return Err(LauncherError::IntegrityError);
    }
    Ok(())
}

} // verus!
