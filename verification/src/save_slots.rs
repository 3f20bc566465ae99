//! The three save slots of a save data directory.

use crate::constants::NUM_SAVE_FILES;
use crate::effect::Files;
use crate::enums::IsaacVersion;
use crate::error::{ErrorKind, ErrorView, InstallerError};
use crate::path::{join_path, joined_path};
use crate::text::{decimal, decimal_string, digit_char};
use vstd::prelude::*;
use vstd::string::StringExecFns;

verus! {

/// One save slot: its number, from 1, the path of its file, and whether
/// the file was there when the slots were probed.
#[derive(Debug, PartialEq, Eq)]
pub struct SlotFile {
    pub slot_number: usize,
    pub path: String,
    pub exists: bool,
}

/// What the names of the save files of a release begin with. The documents
/// directory of a release is its own, so its files need no prefix. The
/// Steam Cloud directory is shared by all releases: there each release has a
/// token of its own, and Rebirth, the first, has none.
pub open spec fn file_name_prefix(isaac_version: IsaacVersion, steam_cloud_enabled: bool) -> Seq<
    char,
> {
    if !steam_cloud_enabled {
        Seq::empty()
    } else {
        match isaac_version {
            IsaacVersion::Rebirth => Seq::empty(),
            IsaacVersion::Afterbirth => "ab_"@,
            IsaacVersion::AfterbirthPlus => "abp_"@,
            IsaacVersion::AfterbirthPlusBP5 => "abp5_"@,
            IsaacVersion::Repentance => "rep_"@,
        }
    }
}

/// The name of the save file of a slot: the prefix, `persistentgamedata`,
/// the number of the slot and `.dat`.
pub open spec fn save_file_name(
    isaac_version: IsaacVersion,
    steam_cloud_enabled: bool,
    slot: nat,
) -> Seq<char> {
    file_name_prefix(isaac_version, steam_cloud_enabled) + "persistentgamedata"@ + decimal(slot)
        + ".dat"@
}

/// The path of the save file of a slot in a save data directory.
pub open spec fn save_file_path(
    save_data_path: Seq<char>,
    isaac_version: IsaacVersion,
    steam_cloud_enabled: bool,
    slot: nat,
) -> Seq<char> {
    joined_path(save_data_path, save_file_name(isaac_version, steam_cloud_enabled, slot))
}

/// Whether `files` are the slots of a save data directory: one for each
/// number from 1, in that order, each at the path of its number.
pub open spec fn slots_of(
    files: Seq<SlotFile>,
    save_data_path: Seq<char>,
    isaac_version: IsaacVersion,
    steam_cloud_enabled: bool,
) -> bool {
    &&& files.len() == NUM_SAVE_FILES
    &&& forall|i: int|
        0 <= i < files.len() ==> {
            &&& (#[trigger] files[i]).slot_number == i + 1
            &&& files[i].path@ == save_file_path(
                save_data_path,
                isaac_version,
                steam_cloud_enabled,
                (i + 1) as nat,
            )
        }
}

/// Whether the flags of `files` are what a probe of each path gives on the
/// files of a system.
pub open spec fn probed_on(files: Seq<SlotFile>, system: Files) -> bool {
    forall|i: int|
        0 <= i < files.len() ==> (#[trigger] files[i]).exists == system.dom().contains(
            files[i].path@,
        )
}

/// The slot that a selection picks, counted from 1.
pub open spec fn selected_slot(count: nat, save_file_slot: usize) -> Result<int, ErrorView> {
    if 1 <= save_file_slot <= count {
        Ok(save_file_slot - 1)
    } else {
        Err((ErrorKind::SlotIndexOutOfRange, decimal(save_file_slot as nat)))
    }
}

/// Gives what the names of the save files of a release begin with: nothing
/// in the documents directory, and in the Steam Cloud directory a short
/// token that no other release has, none for Rebirth.
pub fn get_file_name_prefix(isaac_version: IsaacVersion, steam_cloud_enabled: bool) -> (res: String)
    ensures
        res@ == file_name_prefix(isaac_version, steam_cloud_enabled),
        !steam_cloud_enabled || isaac_version == IsaacVersion::Rebirth ==> res@.len() == 0,
{
    if !steam_cloud_enabled {
        return String::new();
    }
    let prefix = match isaac_version {
        IsaacVersion::Rebirth => {
            return String::new();
        },
        IsaacVersion::Afterbirth => "ab_",
        IsaacVersion::AfterbirthPlus => "abp_",
        IsaacVersion::AfterbirthPlusBP5 => "abp5_",
        IsaacVersion::Repentance => "rep_",
    };
    String::from_str(prefix)
}

/// Names the save file of a slot.
pub fn get_save_file_name(
    isaac_version: IsaacVersion,
    steam_cloud_enabled: bool,
    slot: usize,
) -> (res: String)
    ensures
        res@ == save_file_name(isaac_version, steam_cloud_enabled, slot as nat),
{
    let mut file_name = get_file_name_prefix(isaac_version, steam_cloud_enabled);
    file_name.append("persistentgamedata");
    file_name.append(decimal_string(slot as u64).as_str());
    file_name.append(".dat");
    file_name
}

/// Lists the paths of the save files of the three slots, in the order of
/// the slots. These are the paths to probe.
pub fn get_save_file_paths(
    isaac_version: IsaacVersion,
    save_data_path: &str,
    steam_cloud_enabled: bool,
) -> (res: Vec<String>)
    ensures
        res.len() == NUM_SAVE_FILES,
        forall|i: int|
            0 <= i < res.len() ==> (#[trigger] res[i])@ == save_file_path(
                save_data_path@,
                isaac_version,
                steam_cloud_enabled,
                (i + 1) as nat,
            ),
{
    let mut save_file_paths: Vec<String> = Vec::new();
    let mut i: usize = 0;
    while i < NUM_SAVE_FILES
        invariant
            i <= NUM_SAVE_FILES,
            save_file_paths.len() == i,
            forall|j: int|
                0 <= j < i ==> (#[trigger] save_file_paths[j])@ == save_file_path(
                    save_data_path@,
                    isaac_version,
                    steam_cloud_enabled,
                    (j + 1) as nat,
                ),
        decreases NUM_SAVE_FILES - i,
    {
        let file_name = get_save_file_name(isaac_version, steam_cloud_enabled, i + 1);
        save_file_paths.push(join_path(save_data_path, file_name.as_str()));
        i = i + 1;
    }
    save_file_paths
}

/// Lists the three slots of a save data directory, each with what the probe
/// of its path gave. A slot without a file is no failure.
pub fn get_existing_save_files(
    isaac_version: IsaacVersion,
    save_data_path: &str,
    steam_cloud_enabled: bool,
    exists: [bool; 3],
) -> (res: Vec<SlotFile>)
    ensures
        slots_of(res@, save_data_path@, isaac_version, steam_cloud_enabled),
        forall|i: int| 0 <= i < res.len() ==> (#[trigger] res[i]).exists == exists[i],
{
    let mut save_files: Vec<SlotFile> = Vec::new();
    let mut i: usize = 0;
    while i < NUM_SAVE_FILES
        invariant
            i <= NUM_SAVE_FILES,
            save_files.len() == i,
            forall|j: int|
                0 <= j < i ==> {
                    &&& (#[trigger] save_files[j]).slot_number == j + 1
                    &&& save_files[j].path@ == save_file_path(
                        save_data_path@,
                        isaac_version,
                        steam_cloud_enabled,
                        (j + 1) as nat,
                    )
                    &&& save_files[j].exists == exists[j]
                },
        decreases NUM_SAVE_FILES - i,
    {
        let file_name = get_save_file_name(isaac_version, steam_cloud_enabled, i + 1);
        let path = join_path(save_data_path, file_name.as_str());
        save_files.push(SlotFile { slot_number: i + 1, path, exists: exists[i] });
        i = i + 1;
    }
    save_files
}

/// Picks the slot that the user selected, counted from 1.
pub fn select_save_file(existing_save_files: &Vec<SlotFile>, save_file_slot: usize) -> (res:
    Result<&SlotFile, InstallerError>)
    ensures
        match res {
            Ok(save_file) => selected_slot(existing_save_files.len() as nat, save_file_slot) is Ok
                && *save_file == existing_save_files[save_file_slot - 1],
            Err(e) => selected_slot(existing_save_files.len() as nat, save_file_slot) == Err::<
                int,
                ErrorView,
            >(e@),
        },
{
    if 1 <= save_file_slot && save_file_slot <= existing_save_files.len() {
        Ok(&existing_save_files[save_file_slot - 1])
    } else {
        Err(
            InstallerError::new(
                ErrorKind::SlotIndexOutOfRange,
                decimal_string(save_file_slot as u64),
            ),
        )
    }
}

/// The names of the save files of two different slots differ, whatever the
/// release and the directory.
pub proof fn lemma_save_file_names_distinct(
    isaac_version: IsaacVersion,
    steam_cloud_enabled: bool,
    a: nat,
    b: nat,
)
    requires
        1 <= a <= NUM_SAVE_FILES,
        1 <= b <= NUM_SAVE_FILES,
        a != b,
    ensures
        save_file_name(isaac_version, steam_cloud_enabled, a) != save_file_name(
            isaac_version,
            steam_cloud_enabled,
            b,
        ),
{
    let stem = file_name_prefix(isaac_version, steam_cloud_enabled) + "persistentgamedata"@;
    let name_a = save_file_name(isaac_version, steam_cloud_enabled, a);
    let name_b = save_file_name(isaac_version, steam_cloud_enabled, b);
    assert(name_a[stem.len() as int] == digit_char(a));
    assert(name_b[stem.len() as int] == digit_char(b));
}

/// In the documents directory the name of a save file does not depend on
/// the release: it has no prefix.
pub proof fn lemma_local_save_file_name(isaac_version: IsaacVersion, slot: nat)
    ensures
        save_file_name(isaac_version, false, slot) == "persistentgamedata"@ + decimal(slot)
            + ".dat"@,
{
}

/// In the Steam Cloud directory no two releases have the same prefix, and
/// Rebirth has the empty one.
pub proof fn lemma_prefixes_distinct(a: IsaacVersion, b: IsaacVersion)
    requires
        a != b,
    ensures
        file_name_prefix(a, true) != file_name_prefix(b, true),
        file_name_prefix(IsaacVersion::Rebirth, true) == Seq::<char>::empty(),
{
    reveal_strlit("ab_");
    reveal_strlit("abp_");
    reveal_strlit("abp5_");
    reveal_strlit("rep_");
    assert("ab_"@.len() == 3 && "abp_"@.len() == 4 && "abp5_"@.len() == 5 && "rep_"@.len() == 4);
    assert("abp_"@[0] != "rep_"@[0]);
}

/// In the Steam Cloud directory the save files of two releases never have
/// the same name, whichever slots they belong to.
pub proof fn lemma_save_file_names_tell_releases_apart(
    a: IsaacVersion,
    b: IsaacVersion,
    slot_a: nat,
    slot_b: nat,
)
    requires
        a != b,
        1 <= slot_a <= NUM_SAVE_FILES,
        1 <= slot_b <= NUM_SAVE_FILES,
    ensures
        save_file_name(a, true, slot_a) != save_file_name(b, true, slot_b),
{
    reveal_strlit("ab_");
    reveal_strlit("abp_");
    reveal_strlit("abp5_");
    reveal_strlit("rep_");
    reveal_strlit("persistentgamedata");
    let name_a = save_file_name(a, true, slot_a);
    let name_b = save_file_name(b, true, slot_b);
    assert(name_a.len() == file_name_prefix(a, true).len() + 19 + ".dat"@.len());
    assert(name_b.len() == file_name_prefix(b, true).len() + 19 + ".dat"@.len());
    if file_name_prefix(a, true).len() == file_name_prefix(b, true).len() {
        assert(name_a[0] == file_name_prefix(a, true)[0]);
        assert(name_b[0] == file_name_prefix(b, true)[0]);
    }
}

} // verus!
