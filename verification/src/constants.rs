//! The fixed names: registry keys, directories and the options file.

use vstd::prelude::*;

verus! {

/// The options file of the game, inside the documents save data directory.
pub const OPTIONS_INI: &'static str = "options.ini";

/// The section of the options file that holds the settings.
pub const OPTIONS_SECTION_NAME: &'static str = "Options";

/// The key whose value says whether the game saves to the Steam Cloud.
pub const STEAM_CLOUD_NAME: &'static str = "SteamCloud";

/// The registry key, under the current user, that Steam keeps.
pub const STEAM_REGISTRY_PATH: &'static str = "Software\\Valve\\Steam";

/// The value of that key that holds the directory Steam is installed in.
pub const STEAM_PATH_KEY_VALUE: &'static str = "SteamPath";

/// The registry key that describes the running Steam process.
pub const ACTIVE_PROCESS_REGISTRY_PATH: &'static str = "Software\\Valve\\Steam\\ActiveProcess";

/// The value of that key that holds the identifier of the logged-in user.
pub const ACTIVE_USER_KEY_VALUE: &'static str = "ActiveUser";

/// The identifier that Steam gives the game.
pub const ISAAC_STEAM_ID: u32 = 250900;

/// The file that the game writes into its documents save data directory.
pub const LOG_TXT: &'static str = "log.txt";

/// The directory of the user's documents, as a lookup names it.
pub const DOCUMENTS: &'static str = "Documents";

/// The directory under the documents in which games keep their files.
pub const MY_GAMES: &'static str = "My Games";

/// The number of save slots.
pub const NUM_SAVE_FILES: usize = 3;

} // verus!
