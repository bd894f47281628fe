use std::path::Path;

use escrow::config::{Browser, Config, Dirs, Language, Paths};
use escrow::paths::expand;

fn dirs() -> Dirs {
    Dirs::new(
        "/Users/t".to_owned(),
        "/Users/t/Library/Application Support/escrow".to_owned(),
        "/Users/t/Library/Application Support/escrow".to_owned(),
    )
}

#[test]
fn language_keeps_auto_apart_from_a_code() {
    assert_eq!(Language::try_from("auto".to_owned()).unwrap(), Language::Auto);
    assert_eq!(
        Language::try_from("ja".to_owned()).unwrap(),
        Language::Code("ja".to_owned())
    );
    assert!(Language::try_from(String::new()).is_err());
}

#[test]
fn an_empty_db_path_falls_back_to_the_data_dir() {
    let paths = Paths::resolve(&Config::default(), &dirs());

    assert_eq!(
        Path::new(&paths.db),
        Path::new("/Users/t/Library/Application Support/escrow/escrow.db")
    );
    assert_eq!(
        Path::new(&paths.config_file),
        Path::new("/Users/t/Library/Application Support/escrow/config.toml")
    );
}

#[test]
fn tildes_are_expanded_once_at_the_edge() {
    let paths = Paths::resolve(&Config::default(), &dirs());

    assert_eq!(Path::new(&paths.media_dir), Path::new("/Users/t/Movies/escrow"));
    assert_eq!(
        Path::new(&paths.transcribe_model),
        Path::new("/Users/t/.local/share/whisper-models/ggml-large-v3-turbo.bin")
    );
}

#[test]
fn an_explicit_db_path_wins() {
    let mut config = Config::default();
    config.storage.db_path = "~/somewhere/escrow.db".to_owned();

    let paths = Paths::resolve(&config, &dirs());
    assert_eq!(Path::new(&paths.db), Path::new("/Users/t/somewhere/escrow.db"));
}

#[test]
fn expansion_only_touches_a_leading_tilde() {
    let home = "/Users/t";

    assert_eq!(Path::new(&expand("~", home)), Path::new("/Users/t"));
    assert_eq!(Path::new(&expand("~/Movies", home)), Path::new("/Users/t/Movies"));
    assert_eq!(
        Path::new(&expand("/opt/homebrew/bin", home)),
        Path::new("/opt/homebrew/bin")
    );
    assert_eq!(Path::new(&expand("/tmp/~/x", home)), Path::new("/tmp/~/x"));
}

#[test]
fn the_path_parser_normalizes_the_rest() {
    let home = "/Users/t";

    assert_eq!(Path::new(&expand("~//Movies", home)), Path::new("/Users/t/Movies"));
    assert_eq!(Path::new(&expand("~/./Movies", home)), Path::new("/Users/t/Movies"));
}

#[test]
fn a_backslash_is_an_ordinary_character_here() {
    let home = "/Users/t";

    assert_eq!(Path::new(&expand("~\\Movies", home)), Path::new("/Users/t/~\\Movies"));
    assert_eq!(Path::new(&expand("/tmp/a\\b", home)), Path::new("/tmp/a\\b"));
}

#[test]
fn relative_paths_hang_off_home_not_the_working_directory() {
    let home = "/Users/t";

    assert_eq!(
        Path::new(&expand("Movies/escrow", home)),
        Path::new("/Users/t/Movies/escrow")
    );
    assert_eq!(Path::new(&expand("~other/x", home)), Path::new("/Users/t/~other/x"));
}

#[test]
fn the_auto_sentinel_tolerates_spelling() {
    for raw in ["auto", "AUTO", "Auto", "  auto  "] {
        assert_eq!(Language::try_from(raw.to_owned()).unwrap(), Language::Auto, "{raw:?}");
    }

    assert_eq!(
        Language::try_from("  ja  ".to_owned()).unwrap(),
        Language::Code("ja".to_owned())
    );
    assert!(Language::try_from("   ".to_owned()).is_err());
}

#[test]
fn extra_paths_are_expanded_too() {
    let mut config = Config::default();
    config.tools.extra_paths = vec!["~/bin".to_owned(), "/opt/homebrew/bin".to_owned()];

    assert_eq!(
        config.extra_paths(&dirs()),
        ["/Users/t/bin".to_owned(), "/opt/homebrew/bin".to_owned()]
    );
}

#[test]
fn the_defaults_are_the_documented_table() {
    let config = Config::default();
    assert_eq!(config.storage.media_dir, "~/Movies/escrow");
    assert_eq!(config.storage.db_path, "");
    assert_eq!(config.storage.min_free_gb, 20);
    assert_eq!(config.check.interval_hours(), 24);
    assert_eq!(config.acquire.max_retries, 3);
    assert_eq!(config.transcribe.language, Language::Code("ja".to_owned()));
    assert_eq!(config.auth.cookies_from, Browser::Firefox);
    assert!(config.tools.extra_paths.is_empty());
}

#[test]
fn a_language_is_written_back_as_it_reads() {
    assert_eq!(Language::Auto.to_text(), "auto");
    assert_eq!(Language::Code("ja".to_owned()).to_text(), "ja");
    assert_eq!(
        Language::try_from(Language::Auto.to_text()).unwrap(),
        Language::Auto
    );
}

#[test]
fn a_zero_interval_is_refused() {
    assert!(escrow::config::Check::new(0).is_none());
    assert_eq!(escrow::config::Check::new(6).unwrap().interval_hours(), 6);
}

#[test]
fn every_browser_has_its_wire_value() {
    let names: Vec<&str> = Browser::every().iter().map(|b| b.as_str()).collect();
    assert_eq!(
        names,
        ["brave", "chrome", "chromium", "edge", "firefox", "opera", "safari", "vivaldi"]
    );
}

#[test]
fn the_settings_file_lives_in_the_config_dir() {
    assert_eq!(
        dirs().config_file(),
        "/Users/t/Library/Application Support/escrow/config.toml"
    );
    assert_eq!(dirs().home(), "/Users/t");
}

#[test]
fn a_trailing_separator_after_a_tilde_is_dropped() {
    assert_eq!(expand("~/Movies/", "/Users/t"), "/Users/t/Movies");
    assert_eq!(expand("~", "/Users/t"), "/Users/t/");
}

#[test]
fn browsers_round_trip_through_their_wire_value() {
    for browser in Browser::every() {
        assert_eq!(Browser::parse(browser.as_str()), Some(browser));
    }
    assert_eq!(Browser::parse("netscape"), None);
    assert_eq!(Browser::parse("Safari"), None);
}
