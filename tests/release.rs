use pulsar::release::{
    app_archive_name, component_asset_name_fits, download_name, get_executable_name, get_os_name, select_app_asset,
    select_component_asset, Asset, Component, Platform,
};

fn asset(name: &str, url: &str) -> Asset {
    Asset { name: name.to_string(), url: url.to_string() }
}

fn app_assets() -> Vec<Asset> {
    vec![
        asset("Pulsar-win64-portable.exe", "u0"),
        asset("Pulsar-win64.zip", "u1"),
        asset("Pulsar-MacOS.zip", "u2"),
        asset("Pulsar-Linux.tgz", "u3"),
        asset("Pulsar-Linux.tar.gz", "u4"),
    ]
}

#[test]
fn os_names() {
    assert_eq!(get_os_name(Platform::Windows), "win");
    assert_eq!(get_os_name(Platform::MacOs), "mac");
    assert_eq!(get_os_name(Platform::Linux), "linux");
}

#[test]
fn executable_names() {
    assert_eq!(get_executable_name("ffmpeg", Platform::Windows), "ffmpeg.exe");
    assert_eq!(get_executable_name("ffmpeg", Platform::Linux), "ffmpeg");
    assert_eq!(get_executable_name("pulsar-bridge", Platform::MacOs), "pulsar-bridge");
}

#[test]
fn app_asset_per_platform() {
    let a = app_assets();
    assert_eq!(select_app_asset(&a, Platform::Windows), Some("u1".to_string()));
    assert_eq!(select_app_asset(&a, Platform::MacOs), Some("u2".to_string()));
    assert_eq!(select_app_asset(&a, Platform::Linux), Some("u3".to_string()));
}

#[test]
fn app_asset_missing_for_platform() {
    let a = vec![asset("Pulsar-win64.zip", "u1")];
    assert_eq!(select_app_asset(&a, Platform::Linux), None);
    assert_eq!(select_app_asset(&Vec::new(), Platform::Windows), None);
}

#[test]
fn bridge_asset_matches_in_lower_case() {
    let a = vec![
        asset("pulsar-bridge-windows.exe.sig", "s"),
        asset("Pulsar-Bridge-Linux", "l"),
        asset("PULSAR-BRIDGE-WINDOWS.EXE", "w"),
        asset("pulsar-bridge-macos", "m"),
    ];
    assert_eq!(select_component_asset(&a, Component::Bridge, Platform::Linux), Some("l".to_string()));
    assert_eq!(select_component_asset(&a, Component::Bridge, Platform::Windows), Some("w".to_string()));
    assert_eq!(select_component_asset(&a, Component::Bridge, Platform::MacOs), Some("m".to_string()));
}

#[test]
fn codec_asset_only_on_windows() {
    let a = vec![
        asset("ffmpeg-master-latest-linux64-gpl.tar.xz", "lx"),
        asset("ffmpeg-master-latest-WIN64-GPL.zip", "wz"),
    ];
    assert_eq!(select_component_asset(&a, Component::Codec, Platform::Windows), Some("wz".to_string()));
    assert_eq!(select_component_asset(&a, Component::Codec, Platform::Linux), None);
    assert_eq!(select_component_asset(&a, Component::Codec, Platform::MacOs), None);
}

#[test]
fn download_names_by_suffix() {
    assert_eq!(download_name("https://h/x.zip"), "temp.zip");
    assert_eq!(download_name("https://h/x.tar.xz"), "temp.tar.xz");
    assert_eq!(download_name("https://h/pulsar-bridge-linux"), "temp_bin");
}

#[test]
fn app_archive_names() {
    assert_eq!(app_archive_name(Platform::Linux), "update.tar.gz");
    assert_eq!(app_archive_name(Platform::Windows), "update.zip");
    assert_eq!(app_archive_name(Platform::MacOs), "update.zip");
}

#[test]
fn component_names() {
    assert_eq!(Component::Bridge.name(), "pulsar-bridge");
    assert_eq!(Component::Codec.name(), "ffmpeg");
}

#[test]
fn lower_case_name_rules() {
    assert!(component_asset_name_fits("pulsar-bridge-macos", Component::Bridge, Platform::MacOs));
    assert!(!component_asset_name_fits("pulsar-bridge-macos", Component::Bridge, Platform::Linux));
    assert!(!component_asset_name_fits("pulsar-bridge-macos.zip", Component::Bridge, Platform::MacOs));
    assert!(component_asset_name_fits("ffmpeg-n7.1-win64-gpl-7.1.zip", Component::Codec, Platform::Windows));
    assert!(!component_asset_name_fits("ffmpeg-n7.1-win64-lgpl-7.1.zip", Component::Codec, Platform::Windows));
    assert!(!component_asset_name_fits("ffmpeg-win64-gpl.tar.xz", Component::Codec, Platform::Windows));
}
