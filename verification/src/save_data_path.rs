//! Where the save data lives: the Steam Cloud directory and the documents
//! directory of the game.

use crate::constants::{
    ACTIVE_PROCESS_REGISTRY_PATH, ACTIVE_USER_KEY_VALUE, DOCUMENTS, ISAAC_STEAM_ID, LOG_TXT,
    MY_GAMES, STEAM_PATH_KEY_VALUE, STEAM_REGISTRY_PATH,
};
use crate::enums::IsaacVersion;
use crate::error::{result_view, text_result_view, ErrorKind, ErrorView, InstallerError};
use crate::lookup::{PathLookup, Probe, RegistryLookup};
use crate::path::{join_path, joined_path};
use crate::text::{decimal, decimal_string};
use vstd::prelude::*;
use vstd::string::StringExecFns;

verus! {

/// The failure of a registry lookup: about the key where the key is
/// missing, about the value where the value is.
pub open spec fn registry_failure(key: Seq<char>, value: Seq<char>, key_missing: bool) -> ErrorView {
    (
        ErrorKind::ExternalLookupFailure,
        if key_missing {
            key
        } else {
            value
        },
    )
}

/// The directory Steam is installed in, from the lookup of its registry
/// value.
pub open spec fn steam_installation_path(lookup: RegistryLookup<String>) -> Result<
    Seq<char>,
    ErrorView,
> {
    match lookup {
        RegistryLookup::KeyMissing => Err(
            registry_failure(STEAM_REGISTRY_PATH@, STEAM_PATH_KEY_VALUE@, true),
        ),
        RegistryLookup::ValueMissing => Err(
            registry_failure(STEAM_REGISTRY_PATH@, STEAM_PATH_KEY_VALUE@, false),
        ),
        RegistryLookup::Value(path) => Ok(path@),
    }
}

/// The user logged into Steam, from the lookup of its registry value. Steam
/// writes 0 there while nobody is logged in.
pub open spec fn steam_active_user_id(lookup: RegistryLookup<u32>) -> Result<u32, ErrorView> {
    match lookup {
        RegistryLookup::KeyMissing => Err(
            registry_failure(ACTIVE_PROCESS_REGISTRY_PATH@, ACTIVE_USER_KEY_VALUE@, true),
        ),
        RegistryLookup::ValueMissing => Err(
            registry_failure(ACTIVE_PROCESS_REGISTRY_PATH@, ACTIVE_USER_KEY_VALUE@, false),
        ),
        RegistryLookup::Value(id) => if id == 0 {
            Err((ErrorKind::NoActiveSession, ACTIVE_USER_KEY_VALUE@))
        } else {
            Ok(id)
        },
    }
}

/// The directory in which Steam keeps the game's save files of a user:
/// `userdata`, the user, the game and `remote` under the installation.
pub open spec fn steam_remote_path(installation: Seq<char>, user_id: u32) -> Seq<char> {
    joined_path(
        joined_path(
            joined_path(joined_path(installation, "userdata"@), decimal(user_id as nat)),
            decimal(ISAAC_STEAM_ID as nat),
        ),
        "remote"@,
    )
}

/// The Steam Cloud save data directory, or the first failure on the way:
/// the installation is asked for before the user.
pub open spec fn steam_save_data_path(
    installation: RegistryLookup<String>,
    active_user: RegistryLookup<u32>,
) -> Result<Seq<char>, ErrorView> {
    match steam_installation_path(installation) {
        Err(e) => Err(e),
        Ok(path) => match steam_active_user_id(active_user) {
            Err(e) => Err(e),
            Ok(id) => Ok(steam_remote_path(path, id)),
        },
    }
}

/// Turns the lookup of Steam's installation directory into the directory
/// or the failure to report.
pub fn get_steam_installation_path(lookup: RegistryLookup<String>) -> (res: Result<
    String,
    InstallerError,
>)
    ensures
        text_result_view(res) == steam_installation_path(lookup),
{
    match lookup {
        RegistryLookup::KeyMissing => Err(
            InstallerError::new(
                ErrorKind::ExternalLookupFailure,
                String::from_str(STEAM_REGISTRY_PATH),
            ),
        ),
        RegistryLookup::ValueMissing => Err(
            InstallerError::new(
                ErrorKind::ExternalLookupFailure,
                String::from_str(STEAM_PATH_KEY_VALUE),
            ),
        ),
        RegistryLookup::Value(path) => Ok(path),
    }
}

/// Turns the lookup of the logged-in user into the user or the failure to
/// report. The identifier 0 stands for nobody and is a failure.
pub fn get_steam_active_user_id(lookup: RegistryLookup<u32>) -> (res: Result<u32, InstallerError>)
    ensures
        result_view(res) == steam_active_user_id(lookup),
        res matches Ok(id) ==> id != 0,
{
    match lookup {
        RegistryLookup::KeyMissing => Err(
            InstallerError::new(
                ErrorKind::ExternalLookupFailure,
                String::from_str(ACTIVE_PROCESS_REGISTRY_PATH),
            ),
        ),
        RegistryLookup::ValueMissing => Err(
            InstallerError::new(
                ErrorKind::ExternalLookupFailure,
                String::from_str(ACTIVE_USER_KEY_VALUE),
            ),
        ),
        RegistryLookup::Value(id) => {
            if id == 0 {
                Err(
                    InstallerError::new(
                        ErrorKind::NoActiveSession,
                        String::from_str(ACTIVE_USER_KEY_VALUE),
                    ),
                )
            } else {
                Ok(id)
            }
        },
    }
}

/// Composes the Steam Cloud save data directory from the two lookups. No
/// path is composed unless both lookups gave a value and a user is logged
/// in; whether the directory exists is not asked.
pub fn get_steam_save_data_path(
    installation: RegistryLookup<String>,
    active_user: RegistryLookup<u32>,
) -> (res: Result<String, InstallerError>)
    ensures
        text_result_view(res) == steam_save_data_path(installation, active_user),
{
    let steam_installation_path = match get_steam_installation_path(installation) {
        Ok(path) => path,
        Err(e) => {
            return Err(e);
        },
    };
    let steam_user_id = match get_steam_active_user_id(active_user) {
        Ok(id) => id,
        Err(e) => {
            return Err(e);
        },
    };
    let userdata = join_path(steam_installation_path.as_str(), "userdata");
    let user = join_path(userdata.as_str(), decimal_string(steam_user_id as u64).as_str());
    let game = join_path(user.as_str(), decimal_string(ISAAC_STEAM_ID as u64).as_str());
    Ok(join_path(game.as_str(), "remote"))
}

/// A directory that may hold the game's files, with the marker whose
/// existence decides it.
#[derive(Debug, PartialEq, Eq)]
pub struct Candidate {
    pub root: String,
    pub marker: String,
}

/// Where the search for the documents save data directory stands: the
/// candidate whose marker is to be probed next.
#[derive(Debug, PartialEq, Eq)]
pub enum DocumentsSearch {
    /// The directory that the game always writes to where it exists.
    Standard(Candidate),
    /// The directory under the documents that the system reports.
    Custom(Candidate),
}

/// What a probe of a candidate's marker leads to.
#[derive(Debug, PartialEq, Eq)]
pub enum SearchStep {
    /// The save data directory.
    Found(String),
    /// The standard directory is not it: the system's documents directory
    /// is to be asked for.
    AskDocumentsDir,
    /// The search is over without a directory.
    Failed(InstallerError),
}

/// A candidate as contracts speak of it: its root and its marker.
pub open spec fn candidate_view(c: Candidate) -> (Seq<char>, Seq<char>) {
    (c.root@, c.marker@)
}

/// The name of the directory that a release keeps its files in.
pub open spec fn version_directory_name(isaac_version: IsaacVersion) -> Seq<char> {
    match isaac_version {
        IsaacVersion::Rebirth => "Binding of Isaac Rebirth"@,
        IsaacVersion::Afterbirth => "Binding of Isaac Afterbirth"@,
        IsaacVersion::AfterbirthPlus => "Binding of Isaac Afterbirth+"@,
        IsaacVersion::AfterbirthPlusBP5 => "Binding of Isaac Afterbirth+"@,
        IsaacVersion::Repentance => "Binding of Isaac Repentance"@,
    }
}

/// The directory of a release under the standard documents of a user.
pub open spec fn standard_documents_path(
    username: Seq<char>,
    isaac_version: IsaacVersion,
) -> Seq<char> {
    joined_path(
        joined_path(
            joined_path(joined_path(joined_path("C:\\"@, "Users"@), username), DOCUMENTS@),
            MY_GAMES@,
        ),
        version_directory_name(isaac_version),
    )
}

/// The directory of a release under a documents directory.
pub open spec fn custom_documents_path(
    documents: Seq<char>,
    isaac_version: IsaacVersion,
) -> Seq<char> {
    joined_path(joined_path(documents, MY_GAMES@), version_directory_name(isaac_version))
}

/// The marker of a directory: the log that the game writes there.
pub open spec fn marker_path(root: Seq<char>) -> Seq<char> {
    joined_path(root, LOG_TXT@)
}

/// The candidate under the system's documents directory, or the failure
/// where the system gave none that can be used.
pub open spec fn fallback_candidate(
    documents_dir: PathLookup,
    isaac_version: IsaacVersion,
) -> Result<(Seq<char>, Seq<char>), ErrorView> {
    match documents_dir {
        PathLookup::Unavailable => Err((ErrorKind::ExternalLookupFailure, DOCUMENTS@)),
        PathLookup::NotUtf8(text) => Err((ErrorKind::PathEncodingFailure, text@)),
        PathLookup::Path(documents) => Ok(
            (
                custom_documents_path(documents@, isaac_version),
                marker_path(custom_documents_path(documents@, isaac_version)),
            ),
        ),
    }
}

/// What follows from the probe of a candidate's marker. A marker that is
/// there decides for its directory. Without the standard marker the
/// documents directory is asked for; without the custom one no save data
/// was found, and the failure carries the marker looked for. A probe that
/// failed ends the search with the marker it failed on.
pub open spec fn search_step(search: DocumentsSearch, marker: Probe) -> Result<
    Option<Seq<char>>,
    ErrorView,
> {
    match search {
        DocumentsSearch::Standard(c) => match marker {
            Probe::Found => Ok(Some(c.root@)),
            Probe::NotFound => Ok(None),
            Probe::ProbeError => Err((ErrorKind::ExternalLookupFailure, c.marker@)),
        },
        DocumentsSearch::Custom(c) => match marker {
            Probe::Found => Ok(Some(c.root@)),
            Probe::NotFound => Err((ErrorKind::SaveDataNotFound, c.marker@)),
            Probe::ProbeError => Err((ErrorKind::ExternalLookupFailure, c.marker@)),
        },
    }
}

/// A step as contracts speak of it: `Ok` of the directory found, `Ok` of
/// nothing where the documents directory is to be asked for, or the failure.
pub open spec fn step_view(step: SearchStep) -> Result<Option<Seq<char>>, ErrorView> {
    match step {
        SearchStep::Found(root) => Ok(Some(root@)),
        SearchStep::AskDocumentsDir => Ok(None),
        SearchStep::Failed(e) => Err(e@),
    }
}

/// Names the directory that a release keeps its files in. The two
/// Afterbirth+ releases share one.
pub fn get_version_directory_name(isaac_version: IsaacVersion) -> (res: String)
    ensures
        res@ == version_directory_name(isaac_version),
{
    let directory_name = match isaac_version {
        IsaacVersion::Rebirth => "Binding of Isaac Rebirth",
        IsaacVersion::Afterbirth => "Binding of Isaac Afterbirth",
        IsaacVersion::AfterbirthPlus | IsaacVersion::AfterbirthPlusBP5 => {
            "Binding of Isaac Afterbirth+"
        },
        IsaacVersion::Repentance => "Binding of Isaac Repentance",
    };
    String::from_str(directory_name)
}

fn candidate_at(root: String) -> (c: Candidate)
    ensures
        candidate_view(c) == (root@, marker_path(root@)),
{
    let marker = join_path(root.as_str(), LOG_TXT);
    Candidate { root, marker }
}

/// Begins the search at the standard location. The game ignores a
/// documents directory that was moved and writes here whenever this
/// directory exists, so it is tried first.
pub fn start_documents_search(username: &str, isaac_version: IsaacVersion) -> (res:
    DocumentsSearch)
    ensures
        res matches DocumentsSearch::Standard(c) && candidate_view(c) == (
            standard_documents_path(username@, isaac_version),
            marker_path(standard_documents_path(username@, isaac_version)),
        ),
{
    let version_directory_name = get_version_directory_name(isaac_version);
    let users = join_path("C:\\", "Users");
    let user = join_path(users.as_str(), username);
    let documents = join_path(user.as_str(), DOCUMENTS);
    let games = join_path(documents.as_str(), MY_GAMES);
    let standard_path = join_path(games.as_str(), version_directory_name.as_str());
    DocumentsSearch::Standard(candidate_at(standard_path))
}

/// Goes on with the search under the documents directory that the system
/// reports, where it reports one.
pub fn fallback_documents_search(documents_dir: PathLookup, isaac_version: IsaacVersion) -> (res:
    Result<DocumentsSearch, InstallerError>)
    ensures
        match res {
            Ok(search) => search matches DocumentsSearch::Custom(c) && fallback_candidate(
                documents_dir,
                isaac_version,
            ) == Ok::<(Seq<char>, Seq<char>), ErrorView>(candidate_view(c)),
            Err(e) => fallback_candidate(documents_dir, isaac_version) == Err::<
                (Seq<char>, Seq<char>),
                ErrorView,
            >(e@),
        },
{
    match documents_dir {
        PathLookup::Unavailable => Err(
            InstallerError::new(ErrorKind::ExternalLookupFailure, String::from_str(DOCUMENTS)),
        ),
        PathLookup::NotUtf8(text) => Err(
            InstallerError::new(ErrorKind::PathEncodingFailure, text),
        ),
        PathLookup::Path(documents) => {
            let version_directory_name = get_version_directory_name(isaac_version);
            let games = join_path(documents.as_str(), MY_GAMES);
            let custom_path = join_path(games.as_str(), version_directory_name.as_str());
            Ok(DocumentsSearch::Custom(candidate_at(custom_path)))
        },
    }
}

/// Decides what follows from the probe of the marker of the search's
/// candidate: the directory, the question for the documents directory, or
/// the failure.
pub fn get_documents_save_data_path(search: &DocumentsSearch, marker: Probe) -> (res: SearchStep)
    ensures
        step_view(res) == search_step(*search, marker),
{
    match search {
        DocumentsSearch::Standard(c) => match marker {
            Probe::Found => SearchStep::Found(c.root.clone()),
            Probe::NotFound => SearchStep::AskDocumentsDir,
            Probe::ProbeError => SearchStep::Failed(
                InstallerError::new(ErrorKind::ExternalLookupFailure, c.marker.clone()),
            ),
        },
        DocumentsSearch::Custom(c) => match marker {
            Probe::Found => SearchStep::Found(c.root.clone()),
            Probe::NotFound => SearchStep::Failed(
                InstallerError::new(ErrorKind::SaveDataNotFound, c.marker.clone()),
            ),
            Probe::ProbeError => SearchStep::Failed(
                InstallerError::new(ErrorKind::ExternalLookupFailure, c.marker.clone()),
            ),
        },
    }
}

/// Picks the save data directory that the game reads from: the Steam Cloud
/// directory where the flag is on, the documents directory where it is off.
pub fn active_save_data_path<'a>(
    steam_cloud_enabled: bool,
    steam_save_data_path: &'a str,
    documents_save_data_path: &'a str,
) -> (res: &'a str)
    ensures
        res@ == if steam_cloud_enabled {
            steam_save_data_path@
        } else {
            documents_save_data_path@
        },
{
    if steam_cloud_enabled {
        steam_save_data_path
    } else {
        documents_save_data_path
    }
}

/// Without a marker at either location the search fails, and the failure
/// carries the marker that was looked for under the documents directory.
pub proof fn lemma_no_marker_at_either_location(
    standard: DocumentsSearch,
    custom: DocumentsSearch,
    documents: String,
    isaac_version: IsaacVersion,
)
    requires
        standard is Standard,
        custom matches DocumentsSearch::Custom(c) && fallback_candidate(
            PathLookup::Path(documents),
            isaac_version,
        ) == Ok::<(Seq<char>, Seq<char>), ErrorView>(candidate_view(c)),
    ensures
        search_step(standard, Probe::NotFound) == Ok::<Option<Seq<char>>, ErrorView>(None),
        search_step(custom, Probe::NotFound) == Err::<Option<Seq<char>>, ErrorView>(
            (
                ErrorKind::SaveDataNotFound,
                marker_path(custom_documents_path(documents@, isaac_version)),
            ),
        ),
{
}

/// While nobody is logged into Steam there is no Steam Cloud directory,
/// wherever Steam is installed.
pub proof fn lemma_no_active_session(installation: String)
    ensures
        steam_save_data_path(RegistryLookup::Value(installation), RegistryLookup::Value(0u32))
            == Err::<Seq<char>, ErrorView>((ErrorKind::NoActiveSession, ACTIVE_USER_KEY_VALUE@)),
{
}

} // verus!
