//! Platforms, update subjects, release metadata and the rules that pick the
//! asset to download for each subject.

use vstd::prelude::*;
use crate::text::{
    chars_of, contains_chars, ends_with_chars, has_infix, has_suffix, lower_of, lowercase,
    same_chars,
};

verus! {

/// The operating system the application runs on.
#[derive(Clone, Copy, Debug, PartialEq, Eq, Structural)]
pub enum Platform {
    Windows,
    MacOs,
    Linux,
}

/// A dependency that is provisioned next to the application.
#[derive(Clone, Copy, Debug, PartialEq, Eq, Structural)]
pub enum Component {
    /// The bridge executable, shipped as a single file.
    Bridge,
    /// The codec tool, shipped inside an archive.
    Codec,
}

/// One downloadable file of a release.
#[derive(Clone, Debug)]
pub struct Asset {
    pub name: String,
    pub url: String,
}

/// What a release query returned: the version identifier (a tag for the
/// application, a publish time for dependencies; empty when absent) and the
/// assets, or `None` when the response held no asset list.
#[derive(Clone, Debug)]
pub struct ReleaseInfo {
    pub version: String,
    pub assets: Option<Vec<Asset>>,
}

pub open spec fn os_name_spec(p: Platform) -> Seq<char> {
    match p {
        Platform::Windows => "win"@,
        Platform::MacOs => "mac"@,
        Platform::Linux => "linux"@,
    }
}

/// The short name of a platform: `win`, `mac` or `linux`.
pub fn get_os_name(platform: Platform) -> (r: &'static str)
    ensures
        r@ == os_name_spec(platform),
{
    match platform {
        Platform::Windows => "win",
        Platform::MacOs => "mac",
        Platform::Linux => "linux",
    }
}

pub open spec fn executable_name_spec(base: Seq<char>, p: Platform) -> Seq<char> {
    if p == Platform::Windows {
        base + ".exe"@
    } else {
        base
    }
}

/// The file name of an installed executable: `base.exe` on Windows, `base` elsewhere.
pub fn get_executable_name(base: &str, platform: Platform) -> (r: String)
    ensures
        r@ == executable_name_spec(base@, platform),
{
    let mut s = base.to_owned();
    if platform == Platform::Windows {
        s.append(".exe");
    }
    s
}

impl Component {
    pub open spec fn name_spec(self) -> Seq<char> {
        match self {
            Component::Bridge => "pulsar-bridge"@,
            Component::Codec => "ffmpeg"@,
        }
    }

    /// The component's stable name, also the base of its executable's file name
    /// and its key in the version record.
    pub fn name(&self) -> (r: &'static str)
        ensures
            r@ == self.name_spec(),
    {
        match self {
            Component::Bridge => "pulsar-bridge",
            Component::Codec => "ffmpeg",
        }
    }
}

/// Whether an asset name marks the application's build for `p`.
pub open spec fn app_asset_fits(name: Seq<char>, p: Platform) -> bool {
    match p {
        Platform::Windows => has_infix(name, "win64"@) && has_suffix(name, ".zip"@),
        Platform::MacOs => has_infix(name, "MacOS"@) && has_suffix(name, ".zip"@),
        Platform::Linux => has_infix(name, "Linux"@) && (has_suffix(name, ".tar.gz"@)
            || has_suffix(name, ".tgz"@)),
    }
}

/// Whether an asset name, read in lower case, marks `c`'s build for `p`.
pub open spec fn component_asset_fits(lower: Seq<char>, c: Component, p: Platform) -> bool {
    match c {
        Component::Bridge => match p {
            Platform::Windows => lower == "pulsar-bridge-windows.exe"@,
            Platform::MacOs => lower == "pulsar-bridge-macos"@,
            Platform::Linux => lower == "pulsar-bridge-linux"@,
        },
        Component::Codec => p == Platform::Windows && has_infix(lower, "win64-gpl"@) && has_suffix(
            lower,
            ".zip"@,
        ),
    }
}

/// The index of the first asset that `fits` accepts, if any.
pub open spec fn first_fit(assets: Seq<Asset>, fits: spec_fn(Asset) -> bool) -> Option<int> {
    if exists|i: int| 0 <= i < assets.len() && fits(#[trigger] assets[i]) {
        Some(
            choose|i: int|
                0 <= i < assets.len() && fits(#[trigger] assets[i]) && forall|j: int|
                    0 <= j < i ==> !fits(#[trigger] assets[j]),
        )
    } else {
        None
    }
}

/// The characters of an optional text.
pub open spec fn text_view(t: Option<String>) -> Option<Seq<char>> {
    match t {
        Some(s) => Some(s@),
        None => None,
    }
}

/// The url of the first asset that `fits` accepts, if any.
pub open spec fn first_url(assets: Seq<Asset>, fits: spec_fn(Asset) -> bool) -> Option<Seq<char>> {
    match first_fit(assets, fits) {
        Some(i) => Some(assets[i].url@),
        None => None,
    }
}

pub open spec fn app_fits(p: Platform) -> spec_fn(Asset) -> bool {
    |a: Asset| app_asset_fits(a.name@, p)
}

pub open spec fn component_fits(c: Component, p: Platform) -> spec_fn(Asset) -> bool {
    |a: Asset| component_asset_fits(lower_of(a.name@), c, p)
}

proof fn lemma_first_fit(assets: Seq<Asset>, fits: spec_fn(Asset) -> bool, i: int)
    requires
        0 <= i < assets.len(),
        fits(assets[i]),
        forall|j: int| 0 <= j < i ==> !fits(#[trigger] assets[j]),
    ensures
        first_fit(assets, fits) == Some(i),
{
    let k = choose|k: int|
        0 <= k < assets.len() && fits(#[trigger] assets[k]) && forall|j: int|
            0 <= j < k ==> !fits(#[trigger] assets[j]);
    if k < i {
        assert(!fits(assets[k]));
    }
    if k > i {
        assert(!fits(assets[i]));
    }
}

fn app_asset_check(name: &str, platform: Platform) -> (r: bool)
    ensures
        r == app_asset_fits(name@, platform),
{
    let n = chars_of(name);
    match platform {
        Platform::Windows => contains_chars(&n, &chars_of("win64")) && ends_with_chars(
            &n,
            &chars_of(".zip"),
        ),
        Platform::MacOs => contains_chars(&n, &chars_of("MacOS")) && ends_with_chars(
            &n,
            &chars_of(".zip"),
        ),
        Platform::Linux => contains_chars(&n, &chars_of("Linux")) && (ends_with_chars(
            &n,
            &chars_of(".tar.gz"),
        ) || ends_with_chars(&n, &chars_of(".tgz"))),
    }
}

/// Whether an asset name already in lower case marks `component`'s build for
/// `platform`: `pulsar-bridge-windows.exe`, `pulsar-bridge-macos` or
/// `pulsar-bridge-linux` exactly for the bridge; on Windows only, a name that
/// holds `win64-gpl` and ends in `.zip` for the codec tool.
pub fn component_asset_name_fits(lower: &str, component: Component, platform: Platform) -> (r: bool)
    ensures
        r == component_asset_fits(lower@, component, platform),
{
    let n = chars_of(lower);
    match component {
        Component::Bridge => {
            let want = match platform {
                Platform::Windows => "pulsar-bridge-windows.exe",
                Platform::MacOs => "pulsar-bridge-macos",
                Platform::Linux => "pulsar-bridge-linux",
            };
            same_chars(&n, &chars_of(want))
        },
        Component::Codec => platform == Platform::Windows && contains_chars(
            &n,
            &chars_of("win64-gpl"),
        ) && ends_with_chars(&n, &chars_of(".zip")),
    }
}

fn component_asset_check(name: &str, component: Component, platform: Platform) -> (r: bool)
    ensures
        r == component_asset_fits(lower_of(name@), component, platform),
{
    let lower = lowercase(name);
    component_asset_name_fits(lower.as_str(), component, platform)
}

/// The download url of the application's build for `platform`: the first asset
/// whose name holds the platform's marker and archive suffix (`win64` and
/// `.zip`; `MacOS` and `.zip`; `Linux` and `.tar.gz` or `.tgz`). `None` means
/// that this build cannot update itself.
pub fn select_app_asset(assets: &Vec<Asset>, platform: Platform) -> (r: Option<String>)
    ensures
        text_view(r) == first_url(assets@, app_fits(platform)),
{
    let mut i: usize = 0;
    while i < assets.len()
        invariant
            i <= assets@.len(),
            forall|j: int| 0 <= j < i ==> !app_asset_fits(#[trigger] assets@[j].name@, platform),
        decreases assets@.len() - i,
    {
        if app_asset_check(assets[i].name.as_str(), platform) {
            proof {
                lemma_first_fit(assets@, app_fits(platform), i as int);
            }
            return Some(assets[i].url.clone());
        }
        i = i + 1;
    }
    assert(!exists|j: int| 0 <= j < assets@.len() && app_fits(platform)(#[trigger] assets@[j]));
    None
}

/// The download url of `component`'s build for `platform`: the first asset whose
/// lower-case name is `pulsar-bridge-windows.exe`, `pulsar-bridge-macos` or
/// `pulsar-bridge-linux` for the bridge, and, on Windows only, holds `win64-gpl`
/// and ends in `.zip` for the codec tool.
pub fn select_component_asset(assets: &Vec<Asset>, component: Component, platform: Platform) -> (r:
    Option<String>)
    ensures
        text_view(r) == first_url(assets@, component_fits(component, platform)),
{
    let mut i: usize = 0;
    while i < assets.len()
        invariant
            i <= assets@.len(),
            forall|j: int|
                0 <= j < i ==> !component_asset_fits(
                    lower_of(#[trigger] assets@[j].name@),
                    component,
                    platform,
                ),
        decreases assets@.len() - i,
    {
        if component_asset_check(assets[i].name.as_str(), component, platform) {
            proof {
                lemma_first_fit(assets@, component_fits(component, platform), i as int);
            }
            return Some(assets[i].url.clone());
        }
        i = i + 1;
    }
    assert(!exists|j: int|
        0 <= j < assets@.len() && component_fits(component, platform)(#[trigger] assets@[j]));
    None
}

pub open spec fn download_name_spec(url: Seq<char>) -> Seq<char> {
    if has_suffix(url, ".zip"@) {
        "temp.zip"@
    } else if has_suffix(url, ".tar.xz"@) {
        "temp.tar.xz"@
    } else {
        "temp_bin"@
    }
}

/// The name under which a dependency's download is stored while in flight,
/// chosen by the url's suffix: `temp.zip`, `temp.tar.xz`, or `temp_bin` for a
/// bare executable.
pub fn download_name(url: &str) -> (r: &'static str)
    ensures
        r@ == download_name_spec(url@),
{
    let u = chars_of(url);
    if ends_with_chars(&u, &chars_of(".zip")) {
        "temp.zip"
    } else if ends_with_chars(&u, &chars_of(".tar.xz")) {
        "temp.tar.xz"
    } else {
        "temp_bin"
    }
}

pub open spec fn app_archive_name_spec(p: Platform) -> Seq<char> {
    if p == Platform::Linux {
        "update.tar.gz"@
    } else {
        "update.zip"@
    }
}

/// The name under which the application's update archive is stored.
pub fn app_archive_name(platform: Platform) -> (r: &'static str)
    ensures
        r@ == app_archive_name_spec(platform),
{
    if platform == Platform::Linux {
        "update.tar.gz"
    } else {
        "update.zip"
    }
}

} // verus!
