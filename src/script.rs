//! The updater script that replaces the installed application after it exits.

use vstd::prelude::*;
use crate::release::Platform;

verus! {

/// The pieces joined end to end.
pub open spec fn joined(pieces: Seq<Seq<char>>) -> Seq<char>
    decreases pieces.len(),
{
    if pieces.len() == 0 {
        Seq::<char>::empty()
    } else {
        joined(pieces.drop_last()) + pieces.last()
    }
}

pub open spec fn texts(pieces: Seq<&str>) -> Seq<Seq<char>> {
    pieces.map_values(|p: &str| p@)
}

/// Joins the pieces into one text.
fn join(pieces: &Vec<&str>) -> (r: String)
    ensures
        r@ == joined(texts(pieces@)),
{
    let mut out = String::new();
    let mut i: usize = 0;
    while i < pieces.len()
        invariant
            i <= pieces@.len(),
            out@ == joined(texts(pieces@.take(i as int))),
        decreases pieces@.len() - i,
    {
        out.append(pieces[i]);
        assert(texts(pieces@.take(i + 1)).drop_last() =~= texts(pieces@.take(i as int)));
        i = i + 1;
    }
    assert(pieces@.take(i as int) =~= pieces@);
    out
}

/// The paths an updater script works on.
#[derive(Clone, Debug)]
pub struct UpdaterPaths {
    /// Staging directory for the extracted release.
    pub extract_dir: String,
    /// The downloaded release archive.
    pub archive: String,
    /// The directory of the running executable.
    pub app_dir: String,
    /// The application bundle (macOS).
    pub bundle: String,
    /// The directory that holds the bundle (macOS).
    pub bundle_parent: String,
}

pub open spec fn windows_script(t: Seq<char>, a: Seq<char>, d: Seq<char>) -> Seq<Seq<char>> {
    seq![
        "@echo off\r\nchcp 65001 > nul\r\ntimeout /t 2 /nobreak > nul\r\nif exist \""@, t,
        "\" rmdir /s /q \""@, t, "\"\r\nmkdir \""@, t,
        "\"\r\npowershell -command \"Expand-Archive -Path '"@, a, "' -DestinationPath '"@, t,
        "' -Force\"\r\npowershell -command \"$subDir = Get-ChildItem -Path '"@, t,
        "' -Directory | Select-Object -First 1; Get-ChildItem -Path $subDir.FullName | Where-Object { $_.Name -ne 'Data' } | Copy-Item -Destination '"@,
        d, "' -Recurse -Force\"\r\nrmdir /s /q \""@, t, "\"\r\ndel /f /q \""@, a,
        "\"\r\nstart \"\" \""@, d, "\\Pulsar.exe\"\r\ndel \"%~f0\"\r\n"@,
    ]
}

pub open spec fn unix_head(t: Seq<char>) -> Seq<Seq<char>> {
    seq!["#!/bin/bash\nsleep 2\nrm -rf \""@, t, "\"\nmkdir -p \""@, t, "\"\n"@]
}

pub open spec fn mac_body(t: Seq<char>, a: Seq<char>, d: Seq<char>, b: Seq<char>, bp: Seq<char>) -> Seq<Seq<char>> {
    seq![
        "unzip -o -q \""@, a, "\" -d \""@, t, "\"\nNEW_APP=$(find \""@, t,
        "\" -name \"*.app\" -maxdepth 2 | head -n 1)\nif [ -d \""@, d, "/Data\" ]; then mv \""@, d,
        "/Data\" \""@, t, "/.keep_Data\"; fi\nrm -rf \""@, b, "\"\nmv \"$NEW_APP\" \""@,
        bp, "/\"\nif [ -d \""@, t, "/.keep_Data\" ]; then rm -rf \""@, d, "/Data\"; mv \""@, t,
        "/.keep_Data\" \""@, d, "/Data\"; fi\nopen -n \""@, b, "\"\n"@,
    ]
}

pub open spec fn linux_body(t: Seq<char>, a: Seq<char>, d: Seq<char>) -> Seq<Seq<char>> {
    seq![
        "tar -xf \""@, a, "\" -C \""@, t, "\"\nSUBDIR=$(find \""@, t,
        "\" -maxdepth 1 -type d ! -path \""@, t,
        "\" | head -n 1)\nfind \"$SUBDIR\" -mindepth 1 -maxdepth 1 ! -name Data -exec cp -rf {} \""@, d,
        "/\" \\;\nchmod +x \""@, d, "/Pulsar\"\nnohup \""@, d, "/Pulsar\" > /dev/null 2>&1 &\n"@,
    ]
}

pub open spec fn unix_tail(t: Seq<char>, a: Seq<char>) -> Seq<Seq<char>> {
    seq!["rm -rf \""@, t, "\"\nrm \""@, a, "\"\nrm \"$0\"\n"@]
}

/// The pieces of the updater script for `p`.
pub open spec fn script_pieces(p: Platform, paths: UpdaterPaths) -> Seq<Seq<char>> {
    let t = paths.extract_dir@;
    let a = paths.archive@;
    let d = paths.app_dir@;
    match p {
        Platform::Windows => windows_script(t, a, d),
        Platform::MacOs => unix_head(t) + mac_body(t, a, d, paths.bundle@, paths.bundle_parent@)
            + unix_tail(t, a),
        Platform::Linux => unix_head(t) + linux_body(t, a, d) + unix_tail(t, a),
    }
}

/// The script that, once this process has exited, waits, extracts the archive
/// into the staging directory, copies the new build over the installation
/// (leaving the installation's `Data` directory as it was), removes the staging directory
/// and the archive, starts the new build and deletes itself.
pub fn updater_script(platform: Platform, paths: &UpdaterPaths) -> (r: String)
    ensures
        r@ == joined(script_pieces(platform, *paths)),
{
    let t = paths.extract_dir.as_str();
    let a = paths.archive.as_str();
    let d = paths.app_dir.as_str();
    let pieces: Vec<&str> = match platform {
        Platform::Windows => vec![
            "@echo off\r\nchcp 65001 > nul\r\ntimeout /t 2 /nobreak > nul\r\nif exist \"", t,
            "\" rmdir /s /q \"", t, "\"\r\nmkdir \"", t,
            "\"\r\npowershell -command \"Expand-Archive -Path '", a, "' -DestinationPath '", t,
            "' -Force\"\r\npowershell -command \"$subDir = Get-ChildItem -Path '", t,
            "' -Directory | Select-Object -First 1; Get-ChildItem -Path $subDir.FullName | Where-Object { $_.Name -ne 'Data' } | Copy-Item -Destination '",
            d, "' -Recurse -Force\"\r\nrmdir /s /q \"", t, "\"\r\ndel /f /q \"", a,
            "\"\r\nstart \"\" \"", d, "\\Pulsar.exe\"\r\ndel \"%~f0\"\r\n",
        ],
        Platform::MacOs => {
            let b = paths.bundle.as_str();
            let bp = paths.bundle_parent.as_str();
            vec![
                "#!/bin/bash\nsleep 2\nrm -rf \"", t, "\"\nmkdir -p \"", t, "\"\n",
                "unzip -o -q \"", a, "\" -d \"", t, "\"\nNEW_APP=$(find \"", t,
                "\" -name \"*.app\" -maxdepth 2 | head -n 1)\nif [ -d \"", d, "/Data\" ]; then mv \"", d,
                "/Data\" \"", t, "/.keep_Data\"; fi\nrm -rf \"", b, "\"\nmv \"$NEW_APP\" \"",
                bp, "/\"\nif [ -d \"", t, "/.keep_Data\" ]; then rm -rf \"", d, "/Data\"; mv \"", t,
                "/.keep_Data\" \"", d, "/Data\"; fi\nopen -n \"", b, "\"\n",
                "rm -rf \"", t, "\"\nrm \"", a, "\"\nrm \"$0\"\n",
            ]
        },
        Platform::Linux => vec![
            "#!/bin/bash\nsleep 2\nrm -rf \"", t, "\"\nmkdir -p \"", t, "\"\n",
            "tar -xf \"", a, "\" -C \"", t, "\"\nSUBDIR=$(find \"", t,
            "\" -maxdepth 1 -type d ! -path \"", t,
            "\" | head -n 1)\nfind \"$SUBDIR\" -mindepth 1 -maxdepth 1 ! -name Data -exec cp -rf {} \"", d,
            "/\" \\;\nchmod +x \"", d, "/Pulsar\"\nnohup \"", d, "/Pulsar\" > /dev/null 2>&1 &\n",
            "rm -rf \"", t, "\"\nrm \"", a, "\"\nrm \"$0\"\n",
        ],
    };
    assert(texts(pieces@) =~= script_pieces(platform, *paths));
    join(&pieces)
}

pub open spec fn script_name_spec(p: Platform) -> Seq<char> {
    if p == Platform::Windows {
        "gvd_updater.bat"@
    } else {
        "gvd_updater.sh"@
    }
}

/// The file name of the updater script, placed in the temporary directory.
pub fn updater_script_name(platform: Platform) -> (r: &'static str)
    ensures
        r@ == script_name_spec(platform),
{
    if platform == Platform::Windows {
        "gvd_updater.bat"
    } else {
        "gvd_updater.sh"
    }
}

/// The name of the staging directory, placed in the temporary directory.
pub fn staging_dir_name() -> (r: &'static str)
    ensures
        r@ == "GVD_Update_Extracted"@,
{
    "GVD_Update_Extracted"
}

pub open spec fn elevation_pieces(script: Seq<char>) -> Seq<Seq<char>> {
    seq!["Start-Process -FilePath 'cmd.exe' -ArgumentList '/c', '\""@, script, "\"' -Verb RunAs -WindowStyle Hidden"@]
}

/// The PowerShell command that runs the Windows updater script elevated and hidden.
pub fn elevation_command(script_path: &str) -> (r: String)
    ensures
        r@ == joined(elevation_pieces(script_path@)),
{
    let pieces: Vec<&str> = vec![
        "Start-Process -FilePath 'cmd.exe' -ArgumentList '/c', '\"", script_path,
        "\"' -Verb RunAs -WindowStyle Hidden",
    ];
    assert(texts(pieces@) =~= elevation_pieces(script_path@));
    join(&pieces)
}

} // verus!
