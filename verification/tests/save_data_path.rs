use isaac_save_installer::enums::IsaacVersion;
use isaac_save_installer::error::ErrorKind;
use isaac_save_installer::lookup::{PathLookup, Probe, RegistryLookup};
use isaac_save_installer::save_data_path::{
    active_save_data_path, fallback_documents_search, get_documents_save_data_path,
    get_steam_active_user_id, get_steam_installation_path, get_steam_save_data_path,
    get_version_directory_name, start_documents_search, Candidate, DocumentsSearch, SearchStep,
};
use std::path::PathBuf;

fn joined(parts: &[&str]) -> String {
    let mut path = PathBuf::from(parts[0]);
    for part in &parts[1..] {
        path.push(part);
    }
    path.into_os_string().into_string().unwrap()
}

fn installed(path: &str) -> RegistryLookup<String> {
    RegistryLookup::Value(String::from(path))
}

fn standard_of(search: DocumentsSearch) -> Candidate {
    match search {
        DocumentsSearch::Standard(candidate) => candidate,
        DocumentsSearch::Custom(_) => panic!("the search begins at the standard location"),
    }
}

fn custom_of(search: DocumentsSearch) -> Candidate {
    match search {
        DocumentsSearch::Custom(candidate) => candidate,
        DocumentsSearch::Standard(_) => panic!("the search goes on at the custom location"),
    }
}

#[test]
fn steam_save_data_path_is_composed_from_the_lookups() {
    let path = get_steam_save_data_path(installed("steam"), RegistryLookup::Value(12345)).unwrap();
    assert_eq!(path, joined(&["steam", "userdata", "12345", "250900", "remote"]));
}

#[test]
fn steam_save_data_path_holds_the_user_in_decimal() {
    let path =
        get_steam_save_data_path(installed("s"), RegistryLookup::Value(4294967295)).unwrap();
    assert_eq!(path, joined(&["s", "userdata", "4294967295", "250900", "remote"]));
}

#[test]
fn nobody_logged_in_is_no_active_session() {
    let e = get_steam_save_data_path(installed("steam"), RegistryLookup::Value(0)).unwrap_err();
    assert_eq!(e.kind, ErrorKind::NoActiveSession);
    assert_eq!(e.context, "ActiveUser");
}

#[test]
fn a_missing_installation_is_a_lookup_failure() {
    let e = get_steam_save_data_path(RegistryLookup::KeyMissing, RegistryLookup::Value(1))
        .unwrap_err();
    assert_eq!(e.kind, ErrorKind::ExternalLookupFailure);
    assert_eq!(e.context, "Software\\Valve\\Steam");
    let e = get_steam_save_data_path(RegistryLookup::ValueMissing, RegistryLookup::Value(1))
        .unwrap_err();
    assert_eq!(e.kind, ErrorKind::ExternalLookupFailure);
    assert_eq!(e.context, "SteamPath");
}

#[test]
fn the_installation_is_asked_for_before_the_user() {
    let e = get_steam_save_data_path(RegistryLookup::KeyMissing, RegistryLookup::Value(0))
        .unwrap_err();
    assert_eq!(e.kind, ErrorKind::ExternalLookupFailure);
    let e = get_steam_save_data_path(RegistryLookup::ValueMissing, RegistryLookup::KeyMissing)
        .unwrap_err();
    assert_eq!(e.context, "SteamPath");
}

#[test]
fn a_missing_user_is_a_lookup_failure() {
    let e = get_steam_save_data_path(installed("steam"), RegistryLookup::KeyMissing).unwrap_err();
    assert_eq!(e.kind, ErrorKind::ExternalLookupFailure);
    assert_eq!(e.context, "Software\\Valve\\Steam\\ActiveProcess");
    let e = get_steam_save_data_path(installed("steam"), RegistryLookup::ValueMissing).unwrap_err();
    assert_eq!(e.kind, ErrorKind::ExternalLookupFailure);
    assert_eq!(e.context, "ActiveUser");
}

#[test]
fn installation_path_is_the_value_looked_up() {
    assert_eq!(get_steam_installation_path(installed("c:/steam")).unwrap(), "c:/steam");
    assert_eq!(
        get_steam_installation_path(RegistryLookup::KeyMissing).unwrap_err().kind,
        ErrorKind::ExternalLookupFailure
    );
}

#[test]
fn active_user_is_the_value_looked_up_unless_zero() {
    assert_eq!(get_steam_active_user_id(RegistryLookup::Value(1)).unwrap(), 1);
    assert_eq!(get_steam_active_user_id(RegistryLookup::Value(77)).unwrap(), 77);
    assert_eq!(
        get_steam_active_user_id(RegistryLookup::Value(0)).unwrap_err().kind,
        ErrorKind::NoActiveSession
    );
    assert_eq!(
        get_steam_active_user_id(RegistryLookup::KeyMissing).unwrap_err().kind,
        ErrorKind::ExternalLookupFailure
    );
    assert_eq!(
        get_steam_active_user_id(RegistryLookup::ValueMissing).unwrap_err().context,
        "ActiveUser"
    );
}

#[test]
fn version_directory_names() {
    assert_eq!(get_version_directory_name(IsaacVersion::Rebirth), "Binding of Isaac Rebirth");
    assert_eq!(get_version_directory_name(IsaacVersion::Afterbirth), "Binding of Isaac Afterbirth");
    assert_eq!(
        get_version_directory_name(IsaacVersion::AfterbirthPlus),
        "Binding of Isaac Afterbirth+"
    );
    assert_eq!(
        get_version_directory_name(IsaacVersion::AfterbirthPlusBP5),
        "Binding of Isaac Afterbirth+"
    );
    assert_eq!(get_version_directory_name(IsaacVersion::Repentance), "Binding of Isaac Repentance");
}

#[test]
fn the_search_begins_at_the_standard_location() {
    let candidate = standard_of(start_documents_search("Alice", IsaacVersion::Repentance));
    let root = joined(&[
        "C:\\",
        "Users",
        "Alice",
        "Documents",
        "My Games",
        "Binding of Isaac Repentance",
    ]);
    assert_eq!(candidate.root, root);
    assert_eq!(candidate.marker, joined(&[&root, "log.txt"]));
}

#[test]
fn the_standard_marker_decides_for_the_standard_location() {
    let search = start_documents_search("Alice", IsaacVersion::Rebirth);
    let step = get_documents_save_data_path(&search, Probe::Found);
    assert_eq!(step, SearchStep::Found(standard_of(search).root));
}

#[test]
fn without_the_standard_marker_the_documents_directory_is_asked_for() {
    let search = start_documents_search("Alice", IsaacVersion::Rebirth);
    assert_eq!(get_documents_save_data_path(&search, Probe::NotFound), SearchStep::AskDocumentsDir);
}

#[test]
fn the_search_goes_on_under_the_documents_directory() {
    let search =
        fallback_documents_search(PathLookup::Path(String::from("docs")), IsaacVersion::Afterbirth)
            .unwrap();
    let candidate = custom_of(search);
    let root = joined(&["docs", "My Games", "Binding of Isaac Afterbirth"]);
    assert_eq!(candidate.root, root);
    assert_eq!(candidate.marker, joined(&[&root, "log.txt"]));
}

#[test]
fn the_custom_marker_decides_for_the_custom_location() {
    let search =
        fallback_documents_search(PathLookup::Path(String::from("docs")), IsaacVersion::Rebirth)
            .unwrap();
    let step = get_documents_save_data_path(&search, Probe::Found);
    assert_eq!(step, SearchStep::Found(joined(&["docs", "My Games", "Binding of Isaac Rebirth"])));
}

#[test]
fn no_marker_at_either_location_is_save_data_not_found() {
    let version = IsaacVersion::AfterbirthPlus;
    let standard = start_documents_search("Bob", version);
    assert_eq!(
        get_documents_save_data_path(&standard, Probe::NotFound),
        SearchStep::AskDocumentsDir
    );
    let custom = fallback_documents_search(PathLookup::Path(String::from("D:/Docs")), version)
        .unwrap();
    let fallback_marker =
        joined(&["D:/Docs", "My Games", "Binding of Isaac Afterbirth+", "log.txt"]);
    match get_documents_save_data_path(&custom, Probe::NotFound) {
        SearchStep::Failed(e) => {
            assert_eq!(e.kind, ErrorKind::SaveDataNotFound);
            assert_eq!(e.context, fallback_marker);
        }
        other => panic!("{:?}", other),
    }
}

#[test]
fn a_probe_that_failed_ends_the_search() {
    let standard = start_documents_search("Bob", IsaacVersion::Rebirth);
    match get_documents_save_data_path(&standard, Probe::ProbeError) {
        SearchStep::Failed(e) => {
            assert_eq!(e.kind, ErrorKind::ExternalLookupFailure);
            assert_eq!(e.context, standard_of(standard).marker);
        }
        other => panic!("{:?}", other),
    }
    let custom =
        fallback_documents_search(PathLookup::Path(String::from("docs")), IsaacVersion::Rebirth)
            .unwrap();
    match get_documents_save_data_path(&custom, Probe::ProbeError) {
        SearchStep::Failed(e) => {
            assert_eq!(e.kind, ErrorKind::ExternalLookupFailure);
            assert_eq!(e.context, custom_of(custom).marker);
        }
        other => panic!("{:?}", other),
    }
}

#[test]
fn an_unknown_documents_directory_is_a_lookup_failure() {
    let e = fallback_documents_search(PathLookup::Unavailable, IsaacVersion::Rebirth).unwrap_err();
    assert_eq!(e.kind, ErrorKind::ExternalLookupFailure);
    assert_eq!(e.context, "Documents");
}

#[test]
fn a_documents_directory_that_is_not_utf8_is_an_encoding_failure() {
    let e = fallback_documents_search(
        PathLookup::NotUtf8(String::from("\"docs\\xFF\"")),
        IsaacVersion::Rebirth,
    )
    .unwrap_err();
    assert_eq!(e.kind, ErrorKind::PathEncodingFailure);
    assert_eq!(e.context, "\"docs\\xFF\"");
}

#[test]
fn the_flag_picks_the_active_directory() {
    assert_eq!(active_save_data_path(true, "steam", "documents"), "steam");
    assert_eq!(active_save_data_path(false, "steam", "documents"), "documents");
}

#[test]
fn a_path_of_the_system_is_read_as_text() {
    let path = PathBuf::from(joined(&["home", "alice", "Documents"]));
    assert_eq!(
        PathLookup::from_path_buf(Some(path)),
        PathLookup::Path(joined(&["home", "alice", "Documents"]))
    );
    assert_eq!(PathLookup::from_path_buf(Some(PathBuf::new())), PathLookup::Path(String::new()));
}

#[test]
fn no_path_of_the_system_is_unavailable() {
    assert_eq!(PathLookup::from_path_buf(None), PathLookup::Unavailable);
}
