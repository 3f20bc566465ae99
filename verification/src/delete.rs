//! Deleting the save file of a slot.

use crate::effect::{effect_result_view, files_after, Effect, EffectView, Files};
use crate::error::{ErrorKind, ErrorView, InstallerError};
use crate::enums::IsaacVersion;
use crate::save_slots::{probed_on, slots_of, SlotFile};
use crate::text::{decimal, decimal_string};
use vstd::prelude::*;

verus! {

/// The removal that deletes the save file of a slot, or the failure where
/// the slot holds none; the failure names the slot.
pub open spec fn deletion(save_file: SlotFile, save_file_slot: usize) -> Result<
    EffectView,
    ErrorView,
> {
    if !save_file.exists {
        Err((ErrorKind::SourceMissing, decimal(save_file_slot as nat)))
    } else {
        Ok(EffectView::RemoveFile { path: save_file.path@ })
    }
}

/// Decides the removal that deletes the save file of a slot. A slot without
/// a file gets no effect.
pub fn delete(save_file: &SlotFile, save_file_slot: usize) -> (res: Result<Effect, InstallerError>)
    ensures
        effect_result_view(res) == deletion(*save_file, save_file_slot),
{
    if !save_file.exists {
        return Err(
            InstallerError::new(ErrorKind::SourceMissing, decimal_string(save_file_slot as u64)),
        );
    }
    Ok(Effect::RemoveFile { path: save_file.path.clone() })
}

/// After the deletion of a slot was done, the slots listed anew hold the
/// slot as empty. A slot at another path is listed as before.
pub proof fn lemma_delete_then_list(
    before: Seq<SlotFile>,
    after: Seq<SlotFile>,
    save_data_path: Seq<char>,
    isaac_version: IsaacVersion,
    steam_cloud_enabled: bool,
    system: Files,
    slot: usize,
)
    requires
        slots_of(before, save_data_path, isaac_version, steam_cloud_enabled),
        slots_of(after, save_data_path, isaac_version, steam_cloud_enabled),
        1 <= slot <= before.len(),
        probed_on(before, system),
        deletion(before[slot - 1], slot) is Ok,
        probed_on(after, files_after(system, deletion(before[slot - 1], slot)->Ok_0)),
    ensures
        !after[slot - 1].exists,
        forall|i: int|
            0 <= i < after.len() && after[i].path@ != after[slot - 1].path@ ==> (
            #[trigger] after[i]).exists == before[i].exists,
{
    assert(after[slot - 1].path@ == before[slot - 1].path@);
    assert forall|i: int|
        0 <= i < after.len() && after[i].path@ != after[slot - 1].path@ implies (
    #[trigger] after[i]).exists == before[i].exists by {
        assert(after[i].path@ == before[i].path@);
    }
}

} // verus!
