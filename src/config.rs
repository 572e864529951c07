//! User preferences, kept in an ini file with the sections `General`,
//! `Requirements` and `Download`.

use vstd::prelude::*;
use ini::Ini;

verus! {

#[verifier::external_type_specification]
#[verifier::external_body]
pub struct ExIni(ini::Ini);

/// Values of an ini document by (section, key).
pub type IniMap = Map<(Seq<char>, Seq<char>), Seq<char>>;

/// What an `Ini` holds: for each (section, key), the value that a lookup of
/// that key in that section returns.
pub uninterp spec fn ini_entries(i: Ini) -> IniMap;

/// Relies on `Ini::new`: a new document holds no entries.
#[verifier::external_body]
fn new_ini() -> (r: Ini)
    ensures
        ini_entries(r) == IniMap::empty(),
{
    Ini::new()
}

/// Relies on `Ini::set_to`: the key is set in the (first) section of that
/// name, which is created when missing, replacing any earlier value.
#[verifier::external_body]
fn ini_set(i: &mut Ini, section: &str, key: &str, value: &str)
    ensures
        ini_entries(*final(i)) == ini_entries(*old(i)).insert((section@, key@), value@),
{
    i.set_to(Some(section), key.to_string(), value.to_string());
}

/// Relies on `Ini::get_from`: the value of the key in the (first) section of
/// that name, if both exist.
#[verifier::external_body]
fn ini_get(i: &Ini, section: &str, key: &str) -> (r: Option<String>)
    ensures
        match r {
            Some(v) => ini_entries(*i).contains_key((section@, key@)) && ini_entries(*i)[(
                section@,
                key@,
            )] == v@,
            None => !ini_entries(*i).contains_key((section@, key@)),
        },
{
    i.get_from(Some(section), key).map(String::from)
}

/// The application's preferences.
#[derive(Clone, Debug)]
pub struct AppConfig {
    pub theme: String,
    pub language: String,
    pub close_behavior: String,
    pub update_app: bool,
    pub update_ytdlp: bool,
    pub update_ffmpeg: bool,
    pub cookies_browser: String,
    pub geo_bypass: bool,
    pub video_format: String,
    pub video_quality: String,
    pub audio_format: String,
    pub audio_quality: String,
}

/// The factory preferences.
pub open spec fn is_factory(c: AppConfig) -> bool {
    &&& c.theme@ == "System"@
    &&& c.language@ == "English"@
    &&& c.close_behavior@ == "hide"@
    &&& c.update_app && c.update_ytdlp && c.update_ffmpeg
    &&& c.cookies_browser@ == "None"@
    &&& !c.geo_bypass
    &&& c.video_format@ == "mp4"@
    &&& c.video_quality@ == "1080p"@
    &&& c.audio_format@ == "mp3"@
    &&& c.audio_quality@ == "128kbps"@
}

/// A text setting: the stored value, or `default` when there is none.
pub open spec fn text_setting(m: IniMap, section: Seq<char>, key: Seq<char>, default: Seq<char>) -> Seq<char> {
    if m.contains_key((section, key)) {
        m[(section, key)]
    } else {
        default
    }
}

/// A flag: set exactly when the stored value is `true`; `default` when there is none.
pub open spec fn flag_setting(m: IniMap, section: Seq<char>, key: Seq<char>, default: bool) -> bool {
    if m.contains_key((section, key)) {
        m[(section, key)] == "true"@
    } else {
        default
    }
}

/// `c` holds the preferences that `m` stores, factory values filling the gaps.
pub open spec fn read_from(c: AppConfig, m: IniMap) -> bool {
    &&& c.theme@ == text_setting(m, "General"@, "theme"@, "System"@)
    &&& c.language@ == text_setting(m, "General"@, "language"@, "English"@)
    &&& c.close_behavior@ == text_setting(m, "General"@, "close_behavior"@, "hide"@)
    &&& c.update_app == flag_setting(m, "Requirements"@, "update_app"@, true)
    &&& c.update_ytdlp == flag_setting(m, "Requirements"@, "update_ytdlp"@, true)
    &&& c.update_ffmpeg == flag_setting(m, "Requirements"@, "update_ffmpeg"@, true)
    &&& c.cookies_browser@ == text_setting(m, "Download"@, "cookies_browser"@, "None"@)
    &&& c.geo_bypass == flag_setting(m, "Download"@, "geo_bypass"@, false)
    &&& c.video_format@ == text_setting(m, "Download"@, "video_format"@, "mp4"@)
    &&& c.video_quality@ == text_setting(m, "Download"@, "video_quality"@, "1080p"@)
    &&& c.audio_format@ == text_setting(m, "Download"@, "audio_format"@, "mp3"@)
    &&& c.audio_quality@ == text_setting(m, "Download"@, "audio_quality"@, "128kbps"@)
}

pub open spec fn flag_text(b: bool) -> Seq<char> {
    if b {
        "true"@
    } else {
        "false"@
    }
}

/// The entries under which `c` is stored.
pub open spec fn stored_entries(c: AppConfig) -> IniMap {
    Map::empty().insert(("General"@, "theme"@), c.theme@).insert(("General"@, "language"@), c.language@).insert(
        ("General"@, "close_behavior"@),
        c.close_behavior@,
    ).insert(("Requirements"@, "update_app"@), flag_text(c.update_app)).insert(
        ("Requirements"@, "update_ytdlp"@),
        flag_text(c.update_ytdlp),
    ).insert(("Requirements"@, "update_ffmpeg"@), flag_text(c.update_ffmpeg)).insert(
        ("Download"@, "cookies_browser"@),
        c.cookies_browser@,
    ).insert(("Download"@, "geo_bypass"@), flag_text(c.geo_bypass)).insert(
        ("Download"@, "video_format"@),
        c.video_format@,
    ).insert(("Download"@, "video_quality"@), c.video_quality@).insert(
        ("Download"@, "audio_format"@),
        c.audio_format@,
    ).insert(("Download"@, "audio_quality"@), c.audio_quality@)
}

impl Default for AppConfig {
    fn default() -> (r: Self)
        ensures
            is_factory(r),
    {
        AppConfig {
            theme: "System".to_owned(),
            language: "English".to_owned(),
            close_behavior: "hide".to_owned(),
            update_app: true,
            update_ytdlp: true,
            update_ffmpeg: true,
            cookies_browser: "None".to_owned(),
            geo_bypass: false,
            video_format: "mp4".to_owned(),
            video_quality: "1080p".to_owned(),
            audio_format: "mp3".to_owned(),
            audio_quality: "128kbps".to_owned(),
        }
    }
}

fn read_text(i: &Ini, section: &str, key: &str, default: &str) -> (r: String)
    ensures
        r@ == text_setting(ini_entries(*i), section@, key@, default@),
{
    match ini_get(i, section, key) {
        Some(v) => v,
        None => default.to_owned(),
    }
}

fn read_flag(i: &Ini, section: &str, key: &str, default: bool) -> (r: bool)
    ensures
        r == flag_setting(ini_entries(*i), section@, key@, default),
{
    match ini_get(i, section, key) {
        Some(v) => v == "true".to_owned(),
        None => default,
    }
}

fn flag_str(b: bool) -> (r: &'static str)
    ensures
        r@ == flag_text(b),
{
    if b {
        "true"
    } else {
        "false"
    }
}

impl AppConfig {
    /// The preferences that a stored document holds; missing entries keep
    /// their factory values, and a flag is set only by the value `true`.
    pub fn from_ini(i: &Ini) -> (r: AppConfig)
        ensures
            read_from(r, ini_entries(*i)),
    {
        AppConfig {
            theme: read_text(i, "General", "theme", "System"),
            language: read_text(i, "General", "language", "English"),
            close_behavior: read_text(i, "General", "close_behavior", "hide"),
            update_app: read_flag(i, "Requirements", "update_app", true),
            update_ytdlp: read_flag(i, "Requirements", "update_ytdlp", true),
            update_ffmpeg: read_flag(i, "Requirements", "update_ffmpeg", true),
            cookies_browser: read_text(i, "Download", "cookies_browser", "None"),
            geo_bypass: read_flag(i, "Download", "geo_bypass", false),
            video_format: read_text(i, "Download", "video_format", "mp4"),
            video_quality: read_text(i, "Download", "video_quality", "1080p"),
            audio_format: read_text(i, "Download", "audio_format", "mp3"),
            audio_quality: read_text(i, "Download", "audio_quality", "128kbps"),
        }
    }

    /// The document in which these preferences are stored.
    pub fn to_ini(&self) -> (r: Ini)
        ensures
            ini_entries(r) == stored_entries(*self),
    {
        let mut i = new_ini();
        ini_set(&mut i, "General", "theme", self.theme.as_str());
        ini_set(&mut i, "General", "language", self.language.as_str());
        ini_set(&mut i, "General", "close_behavior", self.close_behavior.as_str());
        ini_set(&mut i, "Requirements", "update_app", flag_str(self.update_app));
        ini_set(&mut i, "Requirements", "update_ytdlp", flag_str(self.update_ytdlp));
        ini_set(&mut i, "Requirements", "update_ffmpeg", flag_str(self.update_ffmpeg));
        ini_set(&mut i, "Download", "cookies_browser", self.cookies_browser.as_str());
        ini_set(&mut i, "Download", "geo_bypass", flag_str(self.geo_bypass));
        ini_set(&mut i, "Download", "video_format", self.video_format.as_str());
        ini_set(&mut i, "Download", "video_quality", self.video_quality.as_str());
        ini_set(&mut i, "Download", "audio_format", self.audio_format.as_str());
        ini_set(&mut i, "Download", "audio_quality", self.audio_quality.as_str());
        i
    }
}

/// The preferences together with the file they are kept in.
pub struct ConfigManager {
    pub config: AppConfig,
    pub config_path: String,
}

impl ConfigManager {
    /// The preferences kept at `config_path`, given the document read from it:
    /// those it stores when it could be read (`Some`), the factory ones when the
    /// file is missing or unreadable (`None`).
    pub fn new(config_path: String, stored: Option<&Ini>) -> (r: Self)
        ensures
            r.config_path@ == config_path@,
            match stored {
                Some(i) => read_from(r.config, ini_entries(*i)),
                None => is_factory(r.config),
            },
    {
        let config = match stored {
            Some(i) => AppConfig::from_ini(i),
            None => AppConfig::default(),
        };
        ConfigManager { config, config_path }
    }

    /// The document to write to `config_path`.
    pub fn save(&self) -> (r: Ini)
        ensures
            ini_entries(r) == stored_entries(self.config),
    {
        self.config.to_ini()
    }
}

} // verus!
