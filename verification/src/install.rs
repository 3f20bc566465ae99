//! Installing the fully-unlocked save file of a release into a slot.

use crate::effect::{files_after, Effect, EffectView, Files};
use crate::enums::IsaacVersion;
use crate::save_files::SaveFiles;
use crate::save_slots::{probed_on, slots_of, SlotFile};
use vstd::prelude::*;
use vstd::slice::slice_to_vec;

verus! {

/// Picks the fully-unlocked save file of a release.
pub fn get_save_file_bytes<'a>(save_files: &'a SaveFiles, isaac_version: IsaacVersion) -> (res:
    &'a [u8])
    ensures
        res@ == save_files.bytes(isaac_version),
{
    match isaac_version {
        IsaacVersion::Rebirth => save_files.rebirth.as_slice(),
        IsaacVersion::Afterbirth => save_files.afterbirth.as_slice(),
        IsaacVersion::AfterbirthPlus => save_files.afterbirth_plus.as_slice(),
        IsaacVersion::AfterbirthPlusBP5 => save_files.afterbirth_plus_bp5.as_slice(),
        IsaacVersion::Repentance => save_files.repentance.as_slice(),
    }
}

/// The write that installs the save file of a release into a slot.
pub open spec fn installation(
    save_file: SlotFile,
    isaac_version: IsaacVersion,
    save_files: SaveFiles,
) -> EffectView {
    EffectView::WriteFile { path: save_file.path@, bytes: save_files.bytes(isaac_version) }
}

/// Decides the write that installs the save file of a release into a slot.
/// Whether the slot holds a file plays no part: the write goes over it, and
/// its bytes are those of the release, all of them and no others.
pub fn install(save_file: &SlotFile, isaac_version: IsaacVersion, save_files: &SaveFiles) -> (res:
    Effect)
    ensures
        res@ == installation(*save_file, isaac_version, *save_files),
{
    let save_file_bytes = get_save_file_bytes(save_files, isaac_version);
    Effect::WriteFile { path: save_file.path.clone(), bytes: slice_to_vec(save_file_bytes) }
}

/// After an install into a slot was done, the slots listed anew hold the
/// slot as existing, whether or not it held a file before, and its file has
/// the bytes of the release. A slot at another path is listed as before.
pub proof fn lemma_install_then_list(
    before: Seq<SlotFile>,
    after: Seq<SlotFile>,
    save_data_path: Seq<char>,
    isaac_version: IsaacVersion,
    steam_cloud_enabled: bool,
    save_files: SaveFiles,
    system: Files,
    slot: int,
)
    requires
        slots_of(before, save_data_path, isaac_version, steam_cloud_enabled),
        slots_of(after, save_data_path, isaac_version, steam_cloud_enabled),
        1 <= slot <= before.len(),
        probed_on(before, system),
        probed_on(
            after,
            files_after(system, installation(before[slot - 1], isaac_version, save_files)),
        ),
    ensures
        after[slot - 1].exists,
        files_after(
            system,
            installation(before[slot - 1], isaac_version, save_files),
        )[after[slot - 1].path@] == save_files.bytes(isaac_version),
        forall|i: int|
            0 <= i < after.len() && after[i].path@ != after[slot - 1].path@ ==> (
            #[trigger] after[i]).exists == before[i].exists,
{
    assert(after[slot - 1].path@ == before[slot - 1].path@);
    assert forall|i: int|
        0 <= i < after.len() && after[i].path@ != after[slot - 1].path@ implies (
    #[trigger] after[i]).exists == before[i].exists by {
        assert(after[i].path@ == before[i].path@);
    }
}

} // verus!
