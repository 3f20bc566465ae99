//! Backing up the save file of a slot: a copy next to the running program,
//! under the name the file has. A backup is never overwritten.

use crate::effect::{
    copy_context, effect_result_view, files_after, get_copy_context, Effect, EffectView, Files,
};
use crate::error::{ErrorKind, ErrorView, InstallerError};
use crate::lookup::Probe;
use crate::path::{file_name, join_path, joined_path, path_file_name};
use crate::save_slots::SlotFile;
use crate::text::{decimal, decimal_string};
use vstd::prelude::*;

verus! {

/// A backup that is decided but for its destination, which is to be probed.
#[derive(Debug, PartialEq, Eq)]
pub struct BackupPlan {
    pub source: String,
    pub destination: String,
}

/// A plan as contracts speak of it: its source and its destination.
pub open spec fn plan_view(plan: BackupPlan) -> (Seq<char>, Seq<char>) {
    (plan.source@, plan.destination@)
}

/// The source and the destination of the backup of a slot. A slot without a
/// file has none, and the failure names the slot. Then the directory must
/// be known: its failure is handed on. A path without a file name cannot be
/// copied; it has no destination, and the failure is about the path alone.
pub open spec fn backup_plan(
    save_file: SlotFile,
    save_file_slot: usize,
    dir_path: Result<String, InstallerError>,
) -> Result<(Seq<char>, Seq<char>), ErrorView> {
    if !save_file.exists {
        Err((ErrorKind::SourceMissing, decimal(save_file_slot as nat)))
    } else {
        match dir_path {
            Err(e) => Err(e@),
            Ok(dir) => match path_file_name(save_file.path@) {
                None => Err((ErrorKind::CopyFailed, save_file.path@)),
                Some(name) => Ok((save_file.path@, joined_path(dir@, name))),
            },
        }
    }
}

/// The copy of a plan, from the probe of its destination. A file that is
/// there is not overwritten, and where the probe failed nothing is copied
/// either: that failure is about the source and the destination.
pub open spec fn backup_copy(plan: BackupPlan, destination: Probe) -> Result<
    EffectView,
    ErrorView,
> {
    match destination {
        Probe::Found => Err((ErrorKind::DestinationAlreadyExists, plan.destination@)),
        Probe::NotFound => Ok(
            EffectView::CopyFile { source: plan.source@, destination: plan.destination@ },
        ),
        Probe::ProbeError => Err(
            (ErrorKind::CopyFailed, copy_context(plan.source@, plan.destination@)),
        ),
    }
}

/// Plans the backup of a slot into a directory. A slot without a file gets
/// no plan, whatever the directory.
pub fn backup(
    save_file: &SlotFile,
    save_file_slot: usize,
    dir_path: Result<String, InstallerError>,
) -> (res: Result<BackupPlan, InstallerError>)
    ensures
        match res {
            Ok(plan) => backup_plan(*save_file, save_file_slot, dir_path) == Ok::<
                (Seq<char>, Seq<char>),
                ErrorView,
            >(plan_view(plan)),
            Err(e) => backup_plan(*save_file, save_file_slot, dir_path) == Err::<
                (Seq<char>, Seq<char>),
                ErrorView,
            >(e@),
        },
        !save_file.exists ==> res is Err && res->Err_0.kind == ErrorKind::SourceMissing,
{
    if !save_file.exists {
        return Err(
            InstallerError::new(ErrorKind::SourceMissing, decimal_string(save_file_slot as u64)),
        );
    }
    let dir_path = match dir_path {
        Ok(dir) => dir,
        Err(e) => {
            return Err(e);
        },
    };
    let file_name = match file_name(save_file.path.as_str()) {
        Some(name) => name,
        None => {
            return Err(InstallerError::new(ErrorKind::CopyFailed, save_file.path.clone()));
        },
    };
    let destination = join_path(dir_path.as_str(), file_name.as_str());
    Ok(BackupPlan { source: save_file.path.clone(), destination })
}

/// Decides the copy of a plan from the probe of its destination. Only a
/// destination that is known to be free gets the copy.
pub fn confirm_backup(plan: BackupPlan, destination: Probe) -> (res: Result<
    Effect,
    InstallerError,
>)
    ensures
        effect_result_view(res) == backup_copy(plan, destination),
        destination == Probe::Found ==> res is Err && res->Err_0.kind
            == ErrorKind::DestinationAlreadyExists,
{
    match destination {
        Probe::Found => Err(
            InstallerError::new(ErrorKind::DestinationAlreadyExists, plan.destination),
        ),
        Probe::NotFound => Ok(
            Effect::CopyFile { source: plan.source, destination: plan.destination },
        ),
        Probe::ProbeError => Err(
            InstallerError::new(
                ErrorKind::CopyFailed,
                get_copy_context(plan.source.as_str(), plan.destination.as_str()),
            ),
        ),
    }
}

/// After the copy of a backup was done, the destination holds the bytes of
/// the save file, and the save file is as it was.
pub proof fn lemma_backup_copies(plan: BackupPlan, system: Files)
    requires
        system.dom().contains(plan.source@),
    ensures
        backup_copy(plan, Probe::NotFound) is Ok,
        ({
            let after = files_after(system, backup_copy(plan, Probe::NotFound)->Ok_0);
            &&& after.dom().contains(plan.destination@)
            &&& after[plan.destination@] == system[plan.source@]
            &&& after.dom().contains(plan.source@)
            &&& after[plan.source@] == system[plan.source@]
        }),
{
}

} // verus!
