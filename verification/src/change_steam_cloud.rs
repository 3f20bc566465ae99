//! Changing the Steam Cloud setting of the options file.

use crate::effect::Effect;
use crate::error::InstallerError;
use crate::options::{is_flag_write, toggle_steam_cloud_enabled, write_flag, ConfigRead};
use vstd::prelude::*;

verus! {

/// Decides the change of the Steam Cloud setting. Without the user's
/// confirmation nothing is to be done, and the options file plays no part.
/// With it the setting is flipped from what it is.
pub fn change_steam_cloud(
    documents_save_data_path: &str,
    read: &ConfigRead,
    steam_cloud_enabled: bool,
    confirm: bool,
) -> (res: Result<Option<Effect>, InstallerError>)
    ensures
        match res {
            Ok(None) => !confirm,
            Ok(Some(effect)) => confirm && is_flag_write(
                documents_save_data_path@,
                *read,
                !steam_cloud_enabled,
                Ok(effect),
            ),
            Err(e) => confirm && is_flag_write(
                documents_save_data_path@,
                *read,
                !steam_cloud_enabled,
                Err(e),
            ),
        },
{
    if !confirm {
        return Ok(None);
    }
    match toggle_steam_cloud_enabled(documents_save_data_path, read, steam_cloud_enabled) {
        Ok(effect) => Ok(Some(effect)),
        Err(e) => Err(e),
    }
}

/// Decides what the offer to turn the Steam Cloud off comes to, and says
/// which setting the run goes on with. There is nothing to turn off where
/// it is off, and nothing is done where the user declines: the setting
/// stays. Where the user accepts, the options file is to be written with
/// the setting off, and the run goes on with it off.
pub fn turn_steam_cloud_off(
    documents_save_data_path: &str,
    read: &ConfigRead,
    steam_cloud_enabled: bool,
    accepted: bool,
) -> (res: Result<(Option<Effect>, bool), InstallerError>)
    ensures
        match res {
            Ok((None, enabled)) => !(steam_cloud_enabled && accepted) && enabled
                == steam_cloud_enabled,
            Ok((Some(effect), enabled)) => steam_cloud_enabled && accepted && !enabled
                && is_flag_write(documents_save_data_path@, *read, false, Ok(effect)),
            Err(e) => steam_cloud_enabled && accepted && is_flag_write(
                documents_save_data_path@,
                *read,
                false,
                Err(e),
            ),
        },
{
    if !steam_cloud_enabled || !accepted {
        return Ok((None, steam_cloud_enabled));
    }
    match write_flag(documents_save_data_path, read, false) {
        Ok(effect) => Ok((Some(effect), false)),
        Err(e) => Err(e),
    }
}

} // verus!
