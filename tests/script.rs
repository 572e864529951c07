use pulsar::release::Platform;
use pulsar::script::{elevation_command, staging_dir_name, updater_script, updater_script_name, UpdaterPaths};

fn paths() -> UpdaterPaths {
    UpdaterPaths {
        extract_dir: "/tmp/GVD_Update_Extracted".to_string(),
        archive: "/tmp/update.tar.gz".to_string(),
        app_dir: "/opt/pulsar".to_string(),
        bundle: "/Applications/Pulsar.app".to_string(),
        bundle_parent: "/Applications".to_string(),
    }
}

#[test]
fn linux_script() {
    let s = updater_script(Platform::Linux, &paths());
    let want = "#!/bin/bash\nsleep 2\nrm -rf \"/tmp/GVD_Update_Extracted\"\nmkdir -p \"/tmp/GVD_Update_Extracted\"\n\
tar -xf \"/tmp/update.tar.gz\" -C \"/tmp/GVD_Update_Extracted\"\n\
SUBDIR=$(find \"/tmp/GVD_Update_Extracted\" -maxdepth 1 -type d ! -path \"/tmp/GVD_Update_Extracted\" | head -n 1)\n\
find \"$SUBDIR\" -mindepth 1 -maxdepth 1 ! -name Data -exec cp -rf {} \"/opt/pulsar/\" \\;\nchmod +x \"/opt/pulsar/Pulsar\"\nnohup \"/opt/pulsar/Pulsar\" > /dev/null 2>&1 &\n\
rm -rf \"/tmp/GVD_Update_Extracted\"\nrm \"/tmp/update.tar.gz\"\nrm \"$0\"\n";
    assert_eq!(s, want);
}

#[test]
fn mac_script() {
    let s = updater_script(Platform::MacOs, &paths());
    assert!(s.starts_with("#!/bin/bash\nsleep 2\n"));
    assert!(s.contains("unzip -o -q \"/tmp/update.tar.gz\" -d \"/tmp/GVD_Update_Extracted\"\n"));
    assert!(s.contains("rm -rf \"/Applications/Pulsar.app\"\nmv \"$NEW_APP\" \"/Applications/\"\n"));
    assert!(s.contains("if [ -d \"/opt/pulsar/Data\" ]; then mv \"/opt/pulsar/Data\" \"/tmp/GVD_Update_Extracted/.keep_Data\"; fi\nrm -rf \"/Applications/Pulsar.app\""));
    assert!(s.contains("if [ -d \"/tmp/GVD_Update_Extracted/.keep_Data\" ]; then rm -rf \"/opt/pulsar/Data\"; mv \"/tmp/GVD_Update_Extracted/.keep_Data\" \"/opt/pulsar/Data\"; fi\nopen -n \"/Applications/Pulsar.app\"\n"));
    assert!(s.ends_with("rm \"$0\"\n"));
}

#[test]
fn windows_script() {
    let p = UpdaterPaths {
        extract_dir: "C:\\T\\X".to_string(),
        archive: "C:\\T\\update.zip".to_string(),
        app_dir: "C:\\P".to_string(),
        bundle: String::new(),
        bundle_parent: String::new(),
    };
    let s = updater_script(Platform::Windows, &p);
    assert!(s.starts_with("@echo off\r\nchcp 65001 > nul\r\ntimeout /t 2 /nobreak > nul\r\nif exist \"C:\\T\\X\" rmdir /s /q \"C:\\T\\X\"\r\nmkdir \"C:\\T\\X\"\r\n"));
    assert!(s.contains("Where-Object { $_.Name -ne 'Data' } | Copy-Item -Destination 'C:\\P' -Recurse -Force\"\r\n"));
    assert!(s.ends_with("del /f /q \"C:\\T\\update.zip\"\r\nstart \"\" \"C:\\P\\Pulsar.exe\"\r\ndel \"%~f0\"\r\n"));
}

#[test]
fn script_names() {
    assert_eq!(updater_script_name(Platform::Windows), "gvd_updater.bat");
    assert_eq!(updater_script_name(Platform::Linux), "gvd_updater.sh");
    assert_eq!(staging_dir_name(), "GVD_Update_Extracted");
}

#[test]
fn elevation() {
    assert_eq!(
        elevation_command("C:\\T\\gvd_updater.bat"),
        "Start-Process -FilePath 'cmd.exe' -ArgumentList '/c', '\"C:\\T\\gvd_updater.bat\"' -Verb RunAs -WindowStyle Hidden"
    );
}
