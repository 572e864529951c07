//! The decisions of an update pass: what is due for a check, what a release
//! means for the application and for each dependency, which checks are
//! stamped at the end, and the status and progress reports along the way.

use vstd::prelude::*;
use crate::release::{
    app_archive_name, app_archive_name_spec, app_fits, component_fits, download_name,
    download_name_spec, first_url, select_app_asset, select_component_asset, Component, Platform,
    ReleaseInfo,
};
use crate::store::{app_key, req_key, VersionRecord};
use crate::text::chars_of;
use crate::version::{is_remote_newer, remote_newer};

verus! {

/// Seconds after which a finished check is stale.
pub const CHECK_INTERVAL: u64 = 1800;

/// The failures of one check-and-update step.
#[derive(Clone, Copy, Debug, PartialEq, Eq, Structural)]
pub enum UpdateError {
    /// The request failed or the server answered with a non-success status.
    Network,
    /// The response lacked the expected asset list.
    MalformedResponse,
    /// The download stream or the local write broke off.
    Transfer,
    /// Extraction or placing the files failed.
    Install,
    /// The external extraction tool could not be run.
    ExternalToolFailed,
}

impl UpdateError {
    pub open spec fn message_spec(self) -> Seq<char> {
        match self {
            UpdateError::Network => "Network error"@,
            UpdateError::MalformedResponse => "No assets"@,
            UpdateError::Transfer => "Download failed"@,
            UpdateError::Install => "Install failed"@,
            UpdateError::ExternalToolFailed => "Failed to run tar command"@,
        }
    }

    /// The text shown to the user for this failure.
    pub fn message(&self) -> (r: String)
        ensures
            r@ == self.message_spec(),
    {
        match self {
            UpdateError::Network => "Network error".to_owned(),
            UpdateError::MalformedResponse => "No assets".to_owned(),
            UpdateError::Transfer => "Download failed".to_owned(),
            UpdateError::Install => "Install failed".to_owned(),
            UpdateError::ExternalToolFailed => "Failed to run tar command".to_owned(),
        }
    }
}

/// One status report to the user interface.
#[derive(Clone, Debug)]
pub struct StatusPayload {
    pub status: String,
    pub progress: Option<String>,
    pub is_downloading: bool,
    pub can_skip: bool,
}

impl StatusPayload {
    /// A status report; one that announces a download carries the progress
    /// text `Starting...`, any other carries none.
    pub fn new(status: &str, is_downloading: bool, can_skip: bool) -> (r: Self)
        ensures
            r.status@ == status@,
            r.is_downloading == is_downloading,
            r.can_skip == can_skip,
            is_downloading ==> r.progress is Some && r.progress->0@ == "Starting..."@,
            !is_downloading ==> r.progress is None,
    {
        StatusPayload {
            status: status.to_owned(),
            progress: if is_downloading {
                Some("Starting...".to_owned())
            } else {
                None
            },
            is_downloading,
            can_skip,
        }
    }
}

/// Whether the application is due for a check: at least `CHECK_INTERVAL`
/// seconds have passed since the last one. A last check that lies in the
/// future is not stale.
pub fn app_check_due(now: u64, last: u64) -> (r: bool)
    ensures
        r == (now >= last && now - last >= CHECK_INTERVAL),
{
    now >= last && now - last >= CHECK_INTERVAL
}

/// Whether the shared dependency check is stale: more than `CHECK_INTERVAL`
/// seconds have passed since it.
pub fn requirements_stale(now: u64, last: u64) -> (r: bool)
    ensures
        r == (now >= last && now - last > CHECK_INTERVAL),
{
    now >= last && now - last > CHECK_INTERVAL
}

/// Whether a dependency is checked in this pass: always when its executable is
/// missing, else when the shared dependency check is stale.
pub fn component_check_needed(installed: bool, now: u64, req_last: u64) -> (r: bool)
    ensures
        r == (!installed || (now >= req_last && now - req_last > CHECK_INTERVAL)),
        !installed ==> r,
{
    !installed || requirements_stale(now, req_last)
}

/// What a release means for the application.
#[derive(Clone, Debug)]
pub enum AppUpdate {
    /// The release is not newer than the running build.
    NoUpdate,
    /// A newer release exists, but none of its assets is a build for this platform.
    NotUpdatable,
    /// Download `url` as `archive_name` and hand over to the updater.
    Available { version: String, url: String, archive_name: String },
}

/// Whether `version` is empty or names no later release than `current`.
pub open spec fn app_up_to_date(current: Seq<char>, version: Seq<char>) -> bool {
    version.len() == 0 || !remote_newer(current, version)
}

/// Decides what the latest application release means for the build `current`:
/// no update when its tag is empty or not newer; a malformed response when it
/// has no asset list; not updatable when no asset fits `platform`; else the
/// asset to download.
pub fn decide_app_update(current: &str, release: &ReleaseInfo, platform: Platform) -> (r: Result<
    AppUpdate,
    UpdateError,
>)
    ensures
        app_up_to_date(current@, release.version@) ==> r matches Ok(AppUpdate::NoUpdate),
        !app_up_to_date(current@, release.version@) ==> match release.assets {
            None => r == Err::<AppUpdate, UpdateError>(UpdateError::MalformedResponse),
            Some(assets) => match first_url(assets@, app_fits(platform)) {
                None => r matches Ok(AppUpdate::NotUpdatable),
                Some(u) => r matches Ok(AppUpdate::Available { version, url, archive_name }) && url@
                    == u && version@ == release.version@ && archive_name@ == app_archive_name_spec(
                    platform,
                ),
            },
        },
{
    let tag = chars_of(release.version.as_str());
    if tag.len() == 0 || !is_remote_newer(current, release.version.as_str()) {
        return Ok(AppUpdate::NoUpdate);
    }
    match &release.assets {
        None => Err(UpdateError::MalformedResponse),
        Some(assets) => match select_app_asset(assets, platform) {
            None => Ok(AppUpdate::NotUpdatable),
            Some(url) => Ok(
                AppUpdate::Available {
                    version: release.version.clone(),
                    url,
                    archive_name: app_archive_name(platform).to_owned(),
                },
            ),
        },
    }
}

/// What a release means for one dependency.
#[derive(Clone, Debug)]
pub enum ComponentAction {
    /// The installed copy is the released one.
    UpToDate,
    /// No asset fits this platform; the dependency is provided otherwise.
    NoAsset,
    /// Download `url` into the dependency directory as `file_name`; the user may
    /// skip the wait when `skippable`.
    Download { url: String, file_name: String, skippable: bool },
}

/// The version stored for `c` in a record's map, or the empty text.
pub open spec fn stored_version(versions: Map<Seq<char>, Seq<char>>, c: Component) -> Seq<char> {
    if versions.contains_key(c.name_spec()) {
        versions[c.name_spec()]
    } else {
        Seq::<char>::empty()
    }
}

/// Whether the release leads to a download of `c`.
pub open spec fn downloads(
    c: Component,
    release: ReleaseInfo,
    stored: Seq<char>,
    installed: bool,
    p: Platform,
) -> bool {
    match release.assets {
        None => false,
        Some(assets) => !(installed && stored == release.version@) && first_url(
            assets@,
            component_fits(c, p),
        ) is Some,
    }
}

/// Decides what the latest release of `component` means, given the version
/// stored for it and whether its executable is installed: a malformed
/// response when there is no asset list; up to date when it is installed and
/// the stored version equals the release's; nothing to fetch when no asset
/// fits; else the asset to download, skippable when a copy is installed.
pub fn decide_component(
    component: Component,
    release: &ReleaseInfo,
    record: &VersionRecord,
    installed: bool,
    platform: Platform,
) -> (r: Result<ComponentAction, UpdateError>)
    requires
        record.wf(),
    ensures
        (r matches Ok(ComponentAction::Download { .. })) == downloads(
            component,
            *release,
            stored_version(record.model().versions, component),
            installed,
            platform,
        ),
        match release.assets {
            None => r == Err::<ComponentAction, UpdateError>(UpdateError::MalformedResponse),
            Some(assets) => if installed && stored_version(record.model().versions, component)
                == release.version@ {
                r matches Ok(ComponentAction::UpToDate)
            } else {
                match first_url(assets@, component_fits(component, platform)) {
                    None => r matches Ok(ComponentAction::NoAsset),
                    Some(u) => r matches Ok(
                        ComponentAction::Download { url, file_name, skippable },
                    ) && url@ == u && file_name@ == download_name_spec(u) && skippable
                        == installed,
                }
            },
        },
{
    let assets = match &release.assets {
        None => {
            return Err(UpdateError::MalformedResponse);
        },
        Some(a) => a,
    };
    let local = record.version_of(component.name());
    if installed && local == release.version {
        return Ok(ComponentAction::UpToDate);
    }
    match select_component_asset(assets, component, platform) {
        None => Ok(ComponentAction::NoAsset),
        Some(url) => {
            let file_name = download_name(url.as_str()).to_owned();
            Ok(ComponentAction::Download { url, file_name, skippable: installed })
        },
    }
}

proof fn lemma_component_keys(c: Component)
    ensures
        c.name_spec() != app_key(),
        c.name_spec() != req_key(),
{
    reveal_strlit("pulsar-bridge");
    reveal_strlit("ffmpeg");
    reveal_strlit("app_last_check");
    reveal_strlit("req_last_check");
    assert(c.name_spec()[0] != app_key()[0]);
    assert(c.name_spec()[0] != req_key()[0]);
}

/// Records that `version` of `component` is now installed.
pub fn record_installed(record: &mut VersionRecord, component: Component, version: &str)
    requires
        old(record).wf(),
    ensures
        final(record).wf(),
        final(record).model().app_last_check == old(record).model().app_last_check,
        final(record).model().req_last_check == old(record).model().req_last_check,
        final(record).model().versions == old(record).model().versions.insert(
            component.name_spec(),
            version@,
        ),
{
    proof {
        lemma_component_keys(component);
    }
    record.set_version(component.name(), version);
}

/// Ends a pass: the time of each check that completed is stamped; a check that
/// failed or did not run keeps its old time, so that it is retried.
pub fn close_pass(record: &mut VersionRecord, now: u64, app_checked: bool, req_checked: bool)
    requires
        old(record).wf(),
    ensures
        final(record).wf(),
        final(record).model().app_last_check == (if app_checked {
            now
        } else {
            old(record).model().app_last_check
        }),
        final(record).model().req_last_check == (if req_checked {
            now
        } else {
            old(record).model().req_last_check
        }),
        final(record).model().versions == old(record).model().versions,
{
    let app = if app_checked {
        Some(now)
    } else {
        None
    };
    let req = if req_checked {
        Some(now)
    } else {
        None
    };
    record.stamp_checks(app, req);
}

/// Once a release of a dependency has been installed and recorded, the same
/// release finds the installed dependency up to date: a second pass with no
/// change on the remote side downloads nothing.
pub proof fn installed_release_is_not_fetched_again(
    versions: Map<Seq<char>, Seq<char>>,
    c: Component,
    release: ReleaseInfo,
    p: Platform,
)
    ensures
        !downloads(c, release, stored_version(versions.insert(c.name_spec(), release.version@), c), true, p),
{
}

/// Byte count of a running download.
#[derive(Clone, Copy, Debug)]
pub struct DownloadProgress {
    pub downloaded: u64,
    /// The length the server announced, 0 when unknown.
    pub total: u64,
}

impl DownloadProgress {
    /// A download of `total` bytes (0 when unknown) with nothing received yet.
    pub fn new(total: u64) -> (r: Self)
        ensures
            r.downloaded == 0,
            r.total == total,
    {
        DownloadProgress { downloaded: 0, total }
    }

    /// Counts a received chunk of `len` bytes and tells whether progress is
    /// reported, which it is only when the total is known.
    pub fn advance(&mut self, len: u64) -> (r: bool)
        ensures
            final(self).total == old(self).total,
            final(self).downloaded == (if old(self).downloaded + len > u64::MAX {
                u64::MAX as int
            } else {
                old(self).downloaded + len
            }),
            r == (old(self).total > 0),
    {
        self.downloaded = self.downloaded.saturating_add(len);
        self.total > 0
    }
}

} // verus!
