use isaac_save_installer::effect::Effect;
use isaac_save_installer::error::ErrorKind;
use isaac_save_installer::options::{
    get_options_ini, get_options_ini_path, get_steam_cloud_enabled, parse_steam_cloud_value,
    read_flag, toggle_steam_cloud_enabled, write_flag, ConfigRead,
};
use isaac_save_installer::options_ini::OptionsIni;
use std::path::PathBuf;

fn under(root: &str, name: &str) -> String {
    let mut path = PathBuf::from(root);
    path.push(name);
    path.into_os_string().into_string().unwrap()
}

fn contents(text: &str) -> ConfigRead {
    ConfigRead::Contents(String::from(text))
}

fn written(effect: Effect) -> (String, String) {
    match effect {
        Effect::WriteText { path, contents } => (path, contents),
        other => panic!("{:?}", other),
    }
}

const OPTIONS: &str = "[Options]\nLanguage=0\nSteamCloud=1\nFullscreen=1\n\n[Other]\nSteamCloud=7\n";

#[test]
fn the_options_file_is_in_the_documents_directory() {
    assert_eq!(get_options_ini_path("docs"), under("docs", "options.ini"));
}

#[test]
fn steam_cloud_one_is_enabled() {
    let read = contents("[Options]\nSteamCloud=1\n");
    assert_eq!(get_steam_cloud_enabled("docs", &read), Ok(true));
}

#[test]
fn steam_cloud_zero_is_disabled() {
    let read = contents("[Options]\nSteamCloud=0\n");
    assert_eq!(get_steam_cloud_enabled("docs", &read), Ok(false));
}

#[test]
fn any_other_value_is_invalid() {
    for value in ["2", "true", "", "01", "10", "yes", "-1"] {
        let read = contents(&format!("[Options]\nSteamCloud={}\n", value));
        let e = get_steam_cloud_enabled("docs", &read).unwrap_err();
        assert_eq!(e.kind, ErrorKind::ConfigValueInvalid, "{:?}", value);
        assert_eq!(e.context, value);
    }
}

#[test]
fn the_flag_is_read_among_other_settings() {
    assert_eq!(get_steam_cloud_enabled("docs", &contents(OPTIONS)), Ok(true));
}

#[test]
fn a_missing_section_is_a_missing_field() {
    let read = contents("[Settings]\nSteamCloud=1\n");
    let e = get_steam_cloud_enabled("docs", &read).unwrap_err();
    assert_eq!(e.kind, ErrorKind::ConfigFieldMissing);
    assert_eq!(e.context, "Options");
    let e = get_steam_cloud_enabled("docs", &contents("")).unwrap_err();
    assert_eq!(e.kind, ErrorKind::ConfigFieldMissing);
    assert_eq!(e.context, "Options");
}

#[test]
fn a_missing_key_is_a_missing_field() {
    let read = contents("[Options]\nLanguage=0\n\n[Other]\nSteamCloud=1\n");
    let e = get_steam_cloud_enabled("docs", &read).unwrap_err();
    assert_eq!(e.kind, ErrorKind::ConfigFieldMissing);
    assert_eq!(e.context, "SteamCloud");
}

#[test]
fn a_missing_file_is_config_missing() {
    let e = get_steam_cloud_enabled("docs", &ConfigRead::NotFound).unwrap_err();
    assert_eq!(e.kind, ErrorKind::ConfigMissing);
    assert_eq!(e.context, under("docs", "options.ini"));
}

#[test]
fn a_file_that_cannot_be_read_is_a_lookup_failure() {
    let e = get_steam_cloud_enabled("docs", &ConfigRead::ReadError).unwrap_err();
    assert_eq!(e.kind, ErrorKind::ExternalLookupFailure);
    assert_eq!(e.context, under("docs", "options.ini"));
}

#[test]
fn text_that_is_no_document_is_a_parse_error() {
    for text in ["[Options", "=1\n", "[Options]\nSteamCloud"] {
        let e = get_steam_cloud_enabled("docs", &contents(text)).unwrap_err();
        assert_eq!(e.kind, ErrorKind::ConfigParseError, "{:?}", text);
        assert_eq!(e.context, under("docs", "options.ini"));
    }
}

#[test]
fn the_value_is_parsed_strictly() {
    assert_eq!(parse_steam_cloud_value("0"), Ok(false));
    assert_eq!(parse_steam_cloud_value("1"), Ok(true));
    for value in ["", "2", "00", "11", " 1", "1 ", "true", "false", "on"] {
        let e = parse_steam_cloud_value(value).unwrap_err();
        assert_eq!(e.kind, ErrorKind::ConfigValueInvalid);
        assert_eq!(e.context, value);
    }
}

#[test]
fn a_parsed_document_answers_lookups() {
    let options = OptionsIni::parse(OPTIONS).unwrap();
    assert!(options.has_section("Options"));
    assert!(options.has_section("Other"));
    assert!(!options.has_section("options"));
    assert!(!options.has_section("SteamCloud"));
    assert_eq!(options.get("Options", "SteamCloud"), Some(String::from("1")));
    assert_eq!(options.get("Options", "Language"), Some(String::from("0")));
    assert_eq!(options.get("Other", "SteamCloud"), Some(String::from("7")));
    assert_eq!(options.get("Options", "Missing"), None);
    assert_eq!(options.get("Missing", "SteamCloud"), None);
    assert_eq!(read_flag(&options), Ok(true));
}

#[test]
fn the_first_of_repeated_keys_and_sections_counts() {
    let text = "[Options]\nSteamCloud=0\nSteamCloud=1\n\n[Options]\nSteamCloud=1\nLanguage=3\n";
    let options = OptionsIni::parse(text).unwrap();
    assert_eq!(options.get("Options", "SteamCloud"), Some(String::from("0")));
    assert_eq!(options.get("Options", "Language"), None);
    assert_eq!(read_flag(&options), Ok(false));
}

#[test]
fn text_that_is_no_document_does_not_parse() {
    assert!(OptionsIni::parse("[Options").is_none());
    assert!(OptionsIni::parse("").is_some());
}

#[test]
fn setting_a_key_changes_that_key_alone() {
    let mut options = OptionsIni::parse(OPTIONS).unwrap();
    options.set("Options", "SteamCloud", "0");
    assert_eq!(options.get("Options", "SteamCloud"), Some(String::from("0")));
    assert_eq!(options.get("Options", "Language"), Some(String::from("0")));
    assert_eq!(options.get("Options", "Fullscreen"), Some(String::from("1")));
    assert_eq!(options.get("Other", "SteamCloud"), Some(String::from("7")));
    assert!(options.has_section("Other"));
}

#[test]
fn setting_a_key_of_a_missing_section_makes_the_section() {
    let mut options = OptionsIni::parse("[Options]\nSteamCloud=1\n").unwrap();
    assert!(!options.has_section("New"));
    options.set("New", "Key", "Value");
    assert!(options.has_section("New"));
    assert_eq!(options.get("New", "Key"), Some(String::from("Value")));
    assert_eq!(options.get("Options", "SteamCloud"), Some(String::from("1")));
}

#[test]
fn setting_a_repeated_key_leaves_one_value() {
    let mut options = OptionsIni::parse("[Options]\nSteamCloud=1\nSteamCloud=1\n").unwrap();
    options.set("Options", "SteamCloud", "0");
    assert_eq!(options.get("Options", "SteamCloud"), Some(String::from("0")));
    let again = OptionsIni::parse(&options.to_text()).unwrap();
    assert_eq!(again.get("Options", "SteamCloud"), Some(String::from("0")));
}

#[test]
fn a_document_is_written_as_text_that_parses_back() {
    let options = OptionsIni::parse(OPTIONS).unwrap();
    let text = options.to_text();
    assert!(text.contains("[Options]"));
    assert!(text.contains("SteamCloud=1"));
    assert!(text.contains("[Other]"));
    let again = OptionsIni::parse(&text).unwrap();
    assert_eq!(again.get("Options", "SteamCloud"), Some(String::from("1")));
    assert_eq!(again.get("Options", "Language"), Some(String::from("0")));
    assert_eq!(again.get("Other", "SteamCloud"), Some(String::from("7")));
}

#[test]
fn get_options_ini_parses_what_was_read() {
    let options = get_options_ini("docs", &contents(OPTIONS)).unwrap();
    assert_eq!(options.get("Options", "Fullscreen"), Some(String::from("1")));
    assert_eq!(
        get_options_ini("docs", &ConfigRead::NotFound).err().unwrap().kind,
        ErrorKind::ConfigMissing
    );
    assert_eq!(
        get_options_ini("docs", &contents("[")).err().unwrap().kind,
        ErrorKind::ConfigParseError
    );
}

#[test]
fn write_flag_writes_the_whole_file_to_its_path() {
    let (path, text) = written(write_flag("docs", &contents(OPTIONS), false).unwrap());
    assert_eq!(path, under("docs", "options.ini"));
    assert_ne!(text, OPTIONS);
    let options = OptionsIni::parse(&text).unwrap();
    assert_eq!(options.get("Options", "SteamCloud"), Some(String::from("0")));
    assert_eq!(options.get("Options", "Language"), Some(String::from("0")));
    assert_eq!(options.get("Options", "Fullscreen"), Some(String::from("1")));
    assert_eq!(options.get("Other", "SteamCloud"), Some(String::from("7")));
}

#[test]
fn writing_the_flag_twice_reads_the_same_both_times() {
    let (_, first) = written(write_flag("docs", &contents(OPTIONS), false).unwrap());
    assert_eq!(get_steam_cloud_enabled("docs", &contents(&first)), Ok(false));
    let (_, second) = written(write_flag("docs", &contents(&first), false).unwrap());
    assert_eq!(get_steam_cloud_enabled("docs", &contents(&second)), Ok(false));
    assert!(OptionsIni::parse(&second).is_some());
    assert_eq!(first, second);
}

#[test]
fn writing_the_flag_on_reads_back_on() {
    let off = "[Options]\nSteamCloud=0\n";
    let (_, text) = written(write_flag("docs", &contents(off), true).unwrap());
    assert_eq!(get_steam_cloud_enabled("docs", &contents(&text)), Ok(true));
}

#[test]
fn write_flag_fails_as_reading_fails() {
    let e = write_flag("docs", &ConfigRead::NotFound, true).unwrap_err();
    assert_eq!(e.kind, ErrorKind::ConfigMissing);
    let e = write_flag("docs", &ConfigRead::ReadError, true).unwrap_err();
    assert_eq!(e.kind, ErrorKind::ExternalLookupFailure);
    let e = write_flag("docs", &contents("[Options"), true).unwrap_err();
    assert_eq!(e.kind, ErrorKind::ConfigParseError);
    let e = write_flag("docs", &contents("[Other]\nSteamCloud=1\n"), true).unwrap_err();
    assert_eq!(e.kind, ErrorKind::ConfigFieldMissing);
    assert_eq!(e.context, "Options");
    let e = write_flag("docs", &contents("[Options]\nLanguage=1\n"), true).unwrap_err();
    assert_eq!(e.kind, ErrorKind::ConfigFieldMissing);
    assert_eq!(e.context, "SteamCloud");
    let e = write_flag("docs", &contents("[Options]\nSteamCloud=2\n"), true).unwrap_err();
    assert_eq!(e.kind, ErrorKind::ConfigValueInvalid);
    assert_eq!(e.context, "2");
}

#[test]
fn toggling_flips_the_flag() {
    let (path, text) = written(toggle_steam_cloud_enabled("docs", &contents(OPTIONS), true).unwrap());
    assert_eq!(path, under("docs", "options.ini"));
    assert_eq!(get_steam_cloud_enabled("docs", &contents(&text)), Ok(false));
    let (_, back) = written(toggle_steam_cloud_enabled("docs", &contents(&text), false).unwrap());
    assert_eq!(get_steam_cloud_enabled("docs", &contents(&back)), Ok(true));
}

#[test]
fn write_flag_keeps_every_other_setting() {
    let (_, text) = written(write_flag("docs", &contents(OPTIONS), false).unwrap());
    let before = ini::Ini::load_from_str(OPTIONS).unwrap();
    let after = ini::Ini::load_from_str(&text).unwrap();
    let mut seen = 0;
    for (section, properties) in before.iter() {
        for (key, value) in properties.iter() {
            let expected = if section == Some("Options") && key == "SteamCloud" { "0" } else { value };
            assert_eq!(after.get_from(section, key), Some(expected));
            seen += 1;
        }
    }
    assert_eq!(seen, 4);
    assert_eq!(after.iter().map(|(_, properties)| properties.len()).sum::<usize>(), 4);
}
