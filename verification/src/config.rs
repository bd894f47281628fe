//! The settings, item for item as the settings file and the settings screen
//! show them.
//!
//! [`Config`] holds what the file says, no more: a `~` is not expanded and an
//! empty database path is not filled in. Matching the settings against the
//! machine is [`Paths`]'s work, and everything downstream reads only that.

use vstd::prelude::*;

use crate::paths::{self, expanded, joined};
use crate::text::{self, ascii_lowered, trimmed};

verus! {

/// The whole settings table.
#[derive(Debug, Clone, PartialEq, Eq)]
pub struct Config {
    pub storage: Storage,
    pub check: Check,
    pub acquire: Acquire,
    pub transcribe: Transcribe,
    pub auth: Auth,
    pub tools: Tools,
}

/// Where things are kept.
#[derive(Debug, Clone, PartialEq, Eq)]
pub struct Storage {
    /// Media and transcripts. The one place outside the application's own
    /// directory: it grows to hundreds of gigabytes.
    pub media_dir: String,
    /// The database; empty means under the application's data directory.
    pub db_path: String,
    /// Below this much free space, no acquisition starts.
    pub min_free_gb: u64,
}

/// How often held items are checked against their sources.
#[derive(Debug, PartialEq, Eq)]
pub struct Check {
    interval_hours: u32,
}

/// Acquisition.
#[derive(Debug, Clone, PartialEq, Eq)]
pub struct Acquire {
    /// Beyond this many retries an item goes to `error`.
    pub max_retries: u32,
}

/// Transcription.
#[derive(Debug, Clone, PartialEq, Eq)]
pub struct Transcribe {
    /// The whisper.cpp model file, pointed at rather than shipped.
    pub model: String,
    pub language: Language,
}

/// Where cookies come from.
#[derive(Debug, Clone, PartialEq, Eq)]
pub struct Auth {
    /// The browser to take cookies from. The cookies themselves are never
    /// written down, only where they are taken from.
    pub cookies_from: Browser,
}

/// External tools.
#[derive(Debug, Clone, PartialEq, Eq)]
pub struct Tools {
    /// Directories searched after `PATH`: a way out when an application
    /// started from the desktop does not see the shell's `PATH`.
    pub extra_paths: Vec<String>,
}

/// The language of transcription.
#[derive(Debug, Clone, PartialEq, Eq)]
pub enum Language {
    /// Let whisper decide.
    Auto,
    /// A language code, passed on as written.
    Code(String),
}

/// A language setting with nothing in it.
#[derive(Debug, Clone, Copy, PartialEq, Eq)]
pub struct EmptyLanguage;

/// The browsers cookies can be taken from: only those that every tool
/// accepts, since one setting serves every platform.
#[derive(Debug, Clone, Copy, PartialEq, Eq, Structural, Hash)]
pub enum Browser {
    Brave,
    Chrome,
    Chromium,
    Edge,
    Firefox,
    Opera,
    Safari,
    Vivaldi,
}

impl Check {
    #[verifier::type_invariant]
    spec fn positive(self) -> bool {
        self.interval_hours >= 1
    }

    pub closed spec fn hours(self) -> u32 {
        self.interval_hours
    }

    /// An interval of `hours`; none for zero, which is no interval.
    pub fn new(hours: u32) -> (r: Option<Check>)
        ensures
            r is Some <==> hours >= 1,
            r matches Some(c) ==> c.hours() == hours,
    {
        if hours >= 1 {
            Some(Check { interval_hours: hours })
        } else {
            None
        }
    }

    /// The interval in hours, never zero.
    pub fn interval_hours(&self) -> (r: u32)
        ensures
            r == self.hours(),
            r >= 1,
    {
        proof {
            use_type_invariant(self);
        }
        self.interval_hours
    }
}

impl Clone for Check {
    fn clone(&self) -> (r: Check)
        ensures
            r == *self,
    {
        proof {
            use_type_invariant(self);
        }
        Check { interval_hours: self.interval_hours }
    }
}

impl Language {
    /// Reads a setting: `auto` in any ASCII case is automatic detection,
    /// anything else is a code kept as written, and whitespace around it is
    /// dropped. Nothing but whitespace is an error.
    pub fn try_from(value: String) -> (r: Result<Language, EmptyLanguage>)
        ensures
            r is Err <==> trimmed(value@).len() == 0,
            r is Ok && ascii_lowered(trimmed(value@)) == "auto"@ <==> r == Ok::<
                Language,
                EmptyLanguage,
            >(Language::Auto),
            r matches Ok(Language::Code(c)) ==> c@ == trimmed(value@) && ascii_lowered(c@)
                != "auto"@,
    {
        let t = text::trim(value.as_str());
        if t.len() == 0 {
            return Err(EmptyLanguage);
        }
        let lowered = text::ascii_lowercase(t.as_slice());
        if text::spells(lowered.as_slice(), "auto") {
            Ok(Language::Auto)
        } else {
            Ok(Language::Code(text::string_of(t.as_slice())))
        }
    }

    /// The text written back: `auto`, or the code.
    pub open spec fn text_of(self) -> Seq<char> {
        match self {
            Language::Auto => "auto"@,
            Language::Code(code) => code@,
        }
    }

    /// The text written back: `auto`, or the code.
    pub fn to_text(&self) -> (r: String)
        ensures
            r@ == self.text_of(),
    {
        match self {
            Language::Auto => "auto".to_owned(),
            Language::Code(code) => code.clone(),
        }
    }
}

impl Browser {
    pub open spec fn name(self) -> Seq<char> {
        match self {
            Browser::Brave => "brave"@,
            Browser::Chrome => "chrome"@,
            Browser::Chromium => "chromium"@,
            Browser::Edge => "edge"@,
            Browser::Firefox => "firefox"@,
            Browser::Opera => "opera"@,
            Browser::Safari => "safari"@,
            Browser::Vivaldi => "vivaldi"@,
        }
    }

    /// Every browser, in the order the settings screen lists them.
    pub fn every() -> (r: [Browser; 8])
        ensures
            r@ == seq![
                Browser::Brave,
                Browser::Chrome,
                Browser::Chromium,
                Browser::Edge,
                Browser::Firefox,
                Browser::Opera,
                Browser::Safari,
                Browser::Vivaldi,
            ],
    {
        [
            Browser::Brave,
            Browser::Chrome,
            Browser::Chromium,
            Browser::Edge,
            Browser::Firefox,
            Browser::Opera,
            Browser::Safari,
            Browser::Vivaldi,
        ]
    }

    /// The value handed to the external tools.
    pub fn as_str(self) -> (r: &'static str)
        ensures
            r@ == self.name(),
    {
        match self {
            Browser::Brave => "brave",
            Browser::Chrome => "chrome",
            Browser::Chromium => "chromium",
            Browser::Edge => "edge",
            Browser::Firefox => "firefox",
            Browser::Opera => "opera",
            Browser::Safari => "safari",
            Browser::Vivaldi => "vivaldi",
        }
    }

    /// Reads the value written in the settings; nothing for a browser the
    /// tools do not take.
    pub fn parse(s: &str) -> (r: Option<Browser>)
        ensures
            r matches Some(b) ==> b.name() == s@,
            r is None <==> (forall|b: Browser| #[trigger] b.name() != s@),
    {
        let all = Browser::every();
        let mut i: usize = 0;
        while i < 8
            invariant
                i <= 8,
                all@ == seq![
                    Browser::Brave,
                    Browser::Chrome,
                    Browser::Chromium,
                    Browser::Edge,
                    Browser::Firefox,
                    Browser::Opera,
                    Browser::Safari,
                    Browser::Vivaldi,
                ],
                forall|j: int| 0 <= j < i ==> (#[trigger] all@[j]).name() != s@,
            decreases 8 - i,
        {
            if text::same(all[i].as_str(), s) {
                return Some(all[i]);
            }
            i = i + 1;
        }
        proof {
            assert forall|b: Browser| #[trigger] b.name() != s@ by {
                match b {
                    Browser::Brave => assert(all@[0] == b),
                    Browser::Chrome => assert(all@[1] == b),
                    Browser::Chromium => assert(all@[2] == b),
                    Browser::Edge => assert(all@[3] == b),
                    Browser::Firefox => assert(all@[4] == b),
                    Browser::Opera => assert(all@[5] == b),
                    Browser::Safari => assert(all@[6] == b),
                    Browser::Vivaldi => assert(all@[7] == b),
                }
            }
        }
        None
    }
}

impl Default for Storage {
    fn default() -> (r: Storage)
        ensures
            r.media_dir@ == "~/Movies/escrow"@,
            r.db_path@ == Seq::<char>::empty(),
            r.min_free_gb == 20,
    {
        Storage {
            media_dir: "~/Movies/escrow".to_owned(),
            db_path: String::new(),
            min_free_gb: 20,
        }
    }
}

impl Default for Check {
    fn default() -> (r: Check)
        ensures
            r.hours() == 24,
    {
        Check { interval_hours: 24 }
    }
}

impl Default for Acquire {
    fn default() -> (r: Acquire)
        ensures
            r.max_retries == 3,
    {
        Acquire { max_retries: 3 }
    }
}

impl Default for Transcribe {
    fn default() -> (r: Transcribe)
        ensures
            r.model@ == "~/.local/share/whisper-models/ggml-large-v3-turbo.bin"@,
            r.language matches Language::Code(c) && c@ == "ja"@,
    {
        Transcribe {
            model: "~/.local/share/whisper-models/ggml-large-v3-turbo.bin".to_owned(),
            language: Language::Code("ja".to_owned()),
        }
    }
}

impl Default for Auth {
    fn default() -> (r: Auth)
        ensures
            r.cookies_from == Browser::Firefox,
    {
        Auth { cookies_from: Browser::Firefox }
    }
}

impl Default for Tools {
    fn default() -> (r: Tools)
        ensures
            r.extra_paths@.len() == 0,
    {
        Tools { extra_paths: Vec::new() }
    }
}

impl Default for Config {
    fn default() -> (r: Config)
        ensures
            r.storage.media_dir@ == "~/Movies/escrow"@,
            r.storage.db_path@ == Seq::<char>::empty(),
            r.storage.min_free_gb == 20,
            r.check.hours() == 24,
            r.acquire.max_retries == 3,
            r.transcribe.model@ == "~/.local/share/whisper-models/ggml-large-v3-turbo.bin"@,
            r.transcribe.language matches Language::Code(c) && c@ == "ja"@,
            r.auth.cookies_from == Browser::Firefox,
            r.tools.extra_paths@.len() == 0,
    {
        Config {
            storage: Storage::default(),
            check: Check::default(),
            acquire: Acquire::default(),
            transcribe: Transcribe::default(),
            auth: Auth::default(),
            tools: Tools::default(),
        }
    }
}

impl Config {
    /// The directories to search for tools, with `~` expanded.
    pub fn extra_paths(&self, dirs: &Dirs) -> (r: Vec<String>)
        ensures
            r@.len() == self.tools.extra_paths@.len(),
            forall|i: int|
                0 <= i < r@.len() ==> #[trigger] r@[i]@ == expanded(
                    self.tools.extra_paths@[i]@,
                    dirs.home_of(),
                ),
    {
        let mut r: Vec<String> = Vec::new();
        let mut i: usize = 0;
        while i < self.tools.extra_paths.len()
            invariant
                i <= self.tools.extra_paths@.len(),
                r@.len() == i,
                forall|j: int|
                    0 <= j < i ==> #[trigger] r@[j]@ == expanded(
                        self.tools.extra_paths@[j]@,
                        dirs.home_of(),
                    ),
            decreases self.tools.extra_paths@.len() - i,
        {
            r.push(paths::expand(self.tools.extra_paths[i].as_str(), dirs.home.as_str()));
            i = i + 1;
        }
        r
    }
}

/// The places the environment decides: the home directory and the
/// application's configuration and data directories.
#[derive(Debug, Clone, PartialEq, Eq)]
pub struct Dirs {
    home: String,
    config_dir: String,
    data_dir: String,
}

impl Dirs {
    pub closed spec fn home_of(self) -> Seq<char> {
        self.home@
    }

    pub closed spec fn config_dir_of(self) -> Seq<char> {
        self.config_dir@
    }

    pub closed spec fn data_dir_of(self) -> Seq<char> {
        self.data_dir@
    }

    pub fn new(home: String, config_dir: String, data_dir: String) -> (r: Dirs)
        ensures
            r.home_of() == home@,
            r.config_dir_of() == config_dir@,
            r.data_dir_of() == data_dir@,
    {
        Dirs { home, config_dir, data_dir }
    }

    pub fn home(&self) -> (r: &str)
        ensures
            r@ == self.home_of(),
    {
        self.home.as_str()
    }

    /// Where the settings file is. Not a setting: it has to be found before
    /// the settings can be read.
    pub fn config_file(&self) -> (r: String)
        ensures
            r@ == joined(self.config_dir_of(), "config.toml"@),
    {
        paths::join(self.config_dir.as_str(), "config.toml")
    }
}

/// The places the settings point at, matched against the environment: every
/// `~` expanded and an empty database path filled in.
#[derive(Debug, Clone, PartialEq, Eq)]
pub struct Paths {
    pub config_file: String,
    pub db: String,
    pub media_dir: String,
    pub transcribe_model: String,
}

impl Paths {
    pub fn resolve(config: &Config, dirs: &Dirs) -> (r: Paths)
        ensures
            r.config_file@ == joined(dirs.config_dir_of(), "config.toml"@),
            r.db@ == (if trimmed(config.storage.db_path@).len() == 0 {
                joined(dirs.data_dir_of(), "escrow.db"@)
            } else {
                expanded(config.storage.db_path@, dirs.home_of())
            }),
            r.media_dir@ == expanded(config.storage.media_dir@, dirs.home_of()),
            r.transcribe_model@ == expanded(config.transcribe.model@, dirs.home_of()),
    {
        let db = if text::trim(config.storage.db_path.as_str()).len() == 0 {
            paths::join(dirs.data_dir.as_str(), "escrow.db")
        } else {
            paths::expand(config.storage.db_path.as_str(), dirs.home.as_str())
        };
        Paths {
            config_file: dirs.config_file(),
            db,
            media_dir: paths::expand(config.storage.media_dir.as_str(), dirs.home.as_str()),
            transcribe_model: paths::expand(config.transcribe.model.as_str(), dirs.home.as_str()),
        }
    }
}

/// A language that reading a setting can give: automatic detection, or a
/// code with no whitespace around it that does not spell `auto`.
pub open spec fn read_language(l: Language) -> bool {
    l matches Language::Code(c) ==> (c@ == trimmed(c@) && c@.len() > 0 && ascii_lowered(c@)
        != "auto"@)
}

/// A language written back reads as the same language: the text is not
/// empty once trimmed, it spells `auto` exactly when the language is
/// automatic, and a code comes back as itself.
pub proof fn lemma_language_round_trip(l: Language)
    requires
        read_language(l),
    ensures
        trimmed(l.text_of()).len() > 0,
        ascii_lowered(trimmed(l.text_of())) == "auto"@ <==> l is Auto,
        l matches Language::Code(c) ==> trimmed(l.text_of()) == c@,
{
    reveal_strlit("auto");
    match l {
        Language::Auto => {
            let t = "auto"@;
            assert(!text::is_space(t[0]));
            assert(!text::is_space(t.last()));
            assert(text::trim_start(t) == 0);
            assert(text::trim_end(t) == 4);
            assert(t.subrange(0, 4) =~= t);
            assert(ascii_lowered(t) =~= t);
        },
        Language::Code(c) => {},
    }
}

/// No two browsers are written as the same value, so reading the value a
/// browser is written as gives that browser back.
pub proof fn lemma_browser_names_are_distinct(a: Browser, b: Browser)
    ensures
        a.name() == b.name() ==> a == b,
{
    reveal_strlit("brave");
    reveal_strlit("chrome");
    reveal_strlit("chromium");
    reveal_strlit("edge");
    reveal_strlit("firefox");
    reveal_strlit("opera");
    reveal_strlit("safari");
    reveal_strlit("vivaldi");
    if a != b && a.name() == b.name() {
        assert(a.name().len() == b.name().len());
        assert(a.name()[0] == b.name()[0]);
        assert(a.name()[5] == b.name()[5]);
    }
}

} // verus!
