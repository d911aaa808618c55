use vstd::prelude::*;

use crate::command::ActionModel;
use crate::command::PlanModel;
use crate::command::Settings;
use crate::command::Subcommand;
use crate::command::is_transfer;
use crate::command::plan_model;
use crate::errors::PluginError;
use crate::fault::fail_sampled;
use crate::paths::derive_dir;
use crate::paths::derive_file;
use crate::paths::path_components;
use crate::paths::store_dir_spec;

verus! {

/// The backup-store file a transfer plan addresses, if it plans one.
pub open spec fn planned_store(m: Result<PlanModel, PluginError>) -> Option<Seq<char>> {
    match m {
        Ok(pm) => match pm.action {
            ActionModel::CopyLocalToStore { store, .. } => Some(store),
            ActionModel::CopyStoreToLocal { store, .. } => Some(store),
            ActionModel::StdinToStore { store } => Some(store),
            ActionModel::StoreToStdout { store } => Some(store),
            _ => None,
        },
        Err(_) => None,
    }
}

/// Path derivation is a fixed naming convention, so every transfer against
/// the same local path addresses the same backup-store file: a backup
/// followed by a restore of that path (file-to-file or streamed, in either
/// combination, under any generator states that sample no failure) reads back
/// from exactly the location the backup wrote to. The copies themselves are
/// verbatim, so this pins the round trip down to the store's own fidelity.
pub proof fn lemma_transfers_agree_on_store(
    s: Settings,
    cmd1: Subcommand,
    cmd2: Subcommand,
    p: Seq<char>,
    st1: u64,
    st2: u64,
)
    requires
        is_transfer(cmd1),
        is_transfer(cmd2),
        !fail_sampled(s.inject_failure, st1),
        !fail_sampled(s.inject_failure, st2),
        derive_file(p) is Ok,
    ensures
        plan_model(s, cmd1, Some(p), st1) is Ok,
        planned_store(plan_model(s, cmd1, Some(p), st1)) is Some,
        planned_store(plan_model(s, cmd1, Some(p), st1)) == planned_store(
            plan_model(s, cmd2, Some(p), st2),
        ),
{
}

/// A file backup copies the local path's bytes out, and a file restore copies
/// them back in to the very same local path: the two plans agree on both ends
/// of the transfer.
pub proof fn lemma_backup_restore_round_trip(s: Settings, p: Seq<char>, st1: u64, st2: u64)
    requires
        !fail_sampled(s.inject_failure, st1),
        !fail_sampled(s.inject_failure, st2),
        derive_file(p) is Ok,
    ensures
        plan_model(s, Subcommand::BackupFile, Some(p), st1) matches Ok(bp)
            && bp.action matches ActionModel::CopyLocalToStore { local: bl, store: bs }
            && plan_model(s, Subcommand::RestoreFile, Some(p), st2) matches Ok(rp)
            && rp.action matches ActionModel::CopyStoreToLocal { store: rs, local: rl }
            && bl == p && rl == p && bs == rs,
{
}

/// The store layout is `<root>/<day bucket>/<item bucket>/<file name>`, and
/// the day bucket a file derivation yields is always the 8-character prefix
/// of the item bucket's directory name.
pub proof fn lemma_day_bucket_prefixes_item_bucket(p: Seq<char>)
    requires
        derive_file(p) is Ok,
    ensures
        derive_file(p) matches Ok(t) && t.0 == t.1.take(8) && t.0.len() == 8 && t.1.len() >= 8,
{
}

/// A local path whose day-seed directory component is shorter than 8
/// characters derives no backup location: every operation that derives from
/// it fails with the descriptive error, so no plan is made and the filesystem
/// is never touched.
pub proof fn lemma_short_day_seed_rejected(s: Settings, p: Seq<char>, st: u64)
    requires
        path_components(p).len() >= 2,
        path_components(p)[path_components(p).len() - 2].len() < 8,
    ensures
        derive_file(p) == Err::<(Seq<char>, Seq<char>, Seq<char>), PluginError>(
            PluginError::ShortDayName,
        ),
        derive_dir(p) == Err::<(Seq<char>, Seq<char>), PluginError>(PluginError::ShortDayName),
        forall|cmd: Subcommand|
            is_transfer(cmd) ==> #[trigger] plan_model(s, cmd, Some(p), st) is Err,
        plan_model(s, Subcommand::SetupBackup, Some(p), st) is Err,
{
    assert forall|cmd: Subcommand|
        is_transfer(cmd) implies #[trigger] plan_model(s, cmd, Some(p), st) is Err by {
        if !fail_sampled(s.inject_failure, st) {
            assert(plan_model(s, cmd, Some(p), st) == Err::<PlanModel, PluginError>(
                PluginError::ShortDayName,
            ));
        }
    }
}

/// A path with fewer than two components derives nothing either: both
/// derivations fail with a descriptive error and no plan is made.
pub proof fn lemma_shallow_path_rejected(s: Settings, p: Seq<char>, st: u64)
    requires
        path_components(p).len() < 2,
    ensures
        derive_file(p) is Err,
        derive_dir(p) is Err,
        forall|cmd: Subcommand|
            is_transfer(cmd) ==> #[trigger] plan_model(s, cmd, Some(p), st) is Err,
        plan_model(s, Subcommand::SetupBackup, Some(p), st) is Err,
{
    assert forall|cmd: Subcommand|
        is_transfer(cmd) implies #[trigger] plan_model(s, cmd, Some(p), st) is Err by {
        if !fail_sampled(s.inject_failure, st) {
            assert(plan_model(s, cmd, Some(p), st) is Err);
        }
    }
}

/// A deletion validates before it touches anything: a bucket name shorter
/// than 8 characters plans no action at all, and a valid one plans the
/// removal of exactly the subtree `<root>/<first 8 characters>/<bucket>`.
pub proof fn lemma_delete_backup_plan(s: Settings, b: Seq<char>, st: u64)
    ensures
        b.len() < 8 ==> plan_model(s, Subcommand::DeleteBackup, Some(b), st) == Err::<
            PlanModel,
            PluginError,
        >(PluginError::InvalidBucketName),
        b.len() >= 8 ==> ({
            &&& plan_model(s, Subcommand::DeleteBackup, Some(b), st) matches Ok(pm)
            &&& pm.action matches ActionModel::RemoveStoreTree { store_dir }
            &&& store_dir == store_dir_spec(s.root@, b.take(8), b)
        }),
{
}

/// A sampled injected failure is a guaranteed no-op: the plan of every
/// transfer operation is the fixed synthetic error, chosen before any action,
/// whatever the argument — so neither the local file nor the backup store is
/// created or modified, and the invocation reports failure.
pub proof fn lemma_injected_failure_plans_nothing(
    s: Settings,
    cmd: Subcommand,
    arg: Option<Seq<char>>,
    st: u64,
)
    requires
        is_transfer(cmd),
        fail_sampled(s.inject_failure, st),
    ensures
        plan_model(s, cmd, arg, st) == Err::<PlanModel, PluginError>(PluginError::FailTriggered),
{
}

} // verus!
