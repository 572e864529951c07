use ini::Ini;
use pulsar::config::{AppConfig, ConfigManager};

#[test]
fn factory_config() {
    let m = ConfigManager::new("config.ini".to_string(), None);
    assert_eq!(m.config_path, "config.ini");
    let c = &m.config;
    assert_eq!(c.theme, "System");
    assert_eq!(c.language, "English");
    assert_eq!(c.close_behavior, "hide");
    assert!(c.update_app && c.update_ytdlp && c.update_ffmpeg);
    assert_eq!(c.cookies_browser, "None");
    assert!(!c.geo_bypass);
    assert_eq!(c.video_format, "mp4");
    assert_eq!(c.video_quality, "1080p");
    assert_eq!(c.audio_format, "mp3");
    assert_eq!(c.audio_quality, "128kbps");
}

#[test]
fn stored_values_override_factory_ones() {
    let i = Ini::load_from_str(
        "[General]\ntheme=Dark\n[Requirements]\nupdate_app=false\nupdate_ffmpeg=yes\n[Download]\ngeo_bypass=true\naudio_quality=320kbps\n",
    )
    .unwrap();
    let m = ConfigManager::new("c.ini".to_string(), Some(&i));
    let c = &m.config;
    assert_eq!(c.theme, "Dark");
    assert_eq!(c.language, "English");
    assert!(!c.update_app);
    assert!(c.update_ytdlp);
    assert!(!c.update_ffmpeg);
    assert!(c.geo_bypass);
    assert_eq!(c.audio_quality, "320kbps");
    assert_eq!(c.video_format, "mp4");
}

#[test]
fn saved_document_holds_every_setting() {
    let mut m = ConfigManager::new("c.ini".to_string(), None);
    m.config.theme = "Light".to_string();
    m.config.geo_bypass = true;
    m.config.update_ytdlp = false;
    let doc = m.save();
    assert_eq!(doc.get_from(Some("General"), "theme"), Some("Light"));
    assert_eq!(doc.get_from(Some("Download"), "geo_bypass"), Some("true"));
    assert_eq!(doc.get_from(Some("Requirements"), "update_ytdlp"), Some("false"));
    assert_eq!(doc.get_from(Some("Download"), "audio_format"), Some("mp3"));
    let back = AppConfig::from_ini(&doc);
    assert_eq!(back.theme, "Light");
    assert!(back.geo_bypass);
    assert!(!back.update_ytdlp);
}
