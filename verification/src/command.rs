use vstd::prelude::*;
use vstd::string::StrSliceExecFns;

use crate::errors::PluginError;
use crate::fault::fail_sampled;
use crate::fault::next_state;
use crate::fault::randomly_fail;
use crate::fault::Rng;
use crate::paths::derive_bucket;
use crate::paths::derive_dir;
use crate::paths::derive_file;
use crate::paths::daydir_of_bucket;
use crate::paths::split_daydir_dir;
use crate::paths::split_daydir_dir_file;
use crate::paths::store_dir;
use crate::paths::store_dir_spec;
use crate::paths::store_path;
use crate::paths::store_path_spec;

verus! {

/// The runtime configuration of one invocation, read once at startup by the
/// binary and passed to every handler: the backup store's root directory and
/// the fault-injection toggles, which are off in normal operation.
pub struct Settings {
    /// Root directory of the backup store.
    pub root: String,
    /// When set, every transfer operation samples a pseudo-random bit first
    /// and fails outright on roughly one invocation in 32.
    pub inject_failure: bool,
    /// When set, every transfer plan asks the binary to sleep before its I/O.
    pub inject_delay: bool,
    /// How long that sleep is, in milliseconds.
    pub delay_millis: u64,
}

/// The recognized subcommands of the plugin's command surface.
#[derive(Clone, Copy, Debug, PartialEq, Eq, Structural)]
pub enum Subcommand {
    SetupBackup,
    SetupRestore,
    CleanupBackup,
    CleanupRestore,
    BackupFile,
    RestoreFile,
    BackupData,
    RestoreData,
    DeleteBackup,
    ApiVersion,
    VersionFlag,
}

/// The single filesystem action an invocation asks the binary to perform.
/// Store paths are full paths inside the backup store; local paths are the
/// caller's own. `NoOp` is the reserved lifecycle hooks' empty action.
#[derive(Clone, Debug, PartialEq, Eq)]
pub enum Action {
    /// Create the backup-store directory (and its missing ancestors).
    CreateStoreDir { store_dir: String },
    /// Copy the local file's bytes verbatim into the backup-store file.
    CopyLocalToStore { local: String, store: String },
    /// Copy the backup-store file's bytes verbatim into the local file.
    CopyStoreToLocal { store: String, local: String },
    /// Copy the whole standard input into the backup-store file.
    StdinToStore { store: String },
    /// Copy the whole backup-store file to standard output.
    StoreToStdout { store: String },
    /// Remove the backup-store directory and everything under it.
    RemoveStoreTree { store_dir: String },
    /// Print one line on standard output.
    PrintLine { text: String },
    /// Do nothing.
    NoOp,
}

/// What a successful invocation plans: an optional injected delay, then one
/// action. A failed invocation plans nothing at all.
#[derive(Clone, Debug, PartialEq, Eq)]
pub struct Plan {
    /// Milliseconds to sleep before the action; zero unless latency injection
    /// is enabled and the subcommand is a transfer.
    pub delay_millis: u64,
    /// The one filesystem or stream action to perform.
    pub action: Action,
}

/// The mathematical shape of an [`Action`], over character sequences.
pub enum ActionModel {
    CreateStoreDir { store_dir: Seq<char> },
    CopyLocalToStore { local: Seq<char>, store: Seq<char> },
    CopyStoreToLocal { store: Seq<char>, local: Seq<char> },
    StdinToStore { store: Seq<char> },
    StoreToStdout { store: Seq<char> },
    RemoveStoreTree { store_dir: Seq<char> },
    PrintLine { text: Seq<char> },
    NoOp,
}

/// The mathematical shape of a [`Plan`].
pub struct PlanModel {
    pub delay_millis: u64,
    pub action: ActionModel,
}

impl View for Action {
    type V = ActionModel;

    open spec fn view(&self) -> ActionModel {
        match self {
            Action::CreateStoreDir { store_dir } => ActionModel::CreateStoreDir {
                store_dir: store_dir@,
            },
            Action::CopyLocalToStore { local, store } => ActionModel::CopyLocalToStore {
                local: local@,
                store: store@,
            },
            Action::CopyStoreToLocal { store, local } => ActionModel::CopyStoreToLocal {
                store: store@,
                local: local@,
            },
            Action::StdinToStore { store } => ActionModel::StdinToStore { store: store@ },
            Action::StoreToStdout { store } => ActionModel::StoreToStdout { store: store@ },
            Action::RemoveStoreTree { store_dir } => ActionModel::RemoveStoreTree {
                store_dir: store_dir@,
            },
            Action::PrintLine { text } => ActionModel::PrintLine { text: text@ },
            Action::NoOp => ActionModel::NoOp,
        }
    }
}

impl View for Plan {
    type V = PlanModel;

    open spec fn view(&self) -> PlanModel {
        PlanModel { delay_millis: self.delay_millis, action: self.action@ }
    }
}

/// The transfer operations: the ones that copy bytes, and so the ones fault
/// injection applies to.
pub open spec fn is_transfer(cmd: Subcommand) -> bool {
    ||| cmd matches Subcommand::BackupFile
    ||| cmd matches Subcommand::RestoreFile
    ||| cmd matches Subcommand::BackupData
    ||| cmd matches Subcommand::RestoreData
}

/// The delay a transfer plan carries: the configured one when latency
/// injection is on, none otherwise.
pub open spec fn effective_delay(s: Settings) -> u64 {
    if s.inject_delay {
        s.delay_millis
    } else {
        0
    }
}

/// An optional borrowed string, seen as an optional character sequence.
pub open spec fn opt_view(o: Option<&str>) -> Option<Seq<char>> {
    match o {
        None => None,
        Some(p) => Some(p@),
    }
}

/// What one invocation plans, as a function of the settings, the subcommand,
/// its argument and the generator state: either the plan to carry out or the
/// error to report. Failure injection is sampled before anything else on the
/// transfer operations, so a sampled failure plans no action at all.
pub open spec fn plan_model(
    s: Settings,
    cmd: Subcommand,
    arg: Option<Seq<char>>,
    state: u64,
) -> Result<PlanModel, PluginError> {
    if is_transfer(cmd) && fail_sampled(s.inject_failure, state) {
        Err(PluginError::FailTriggered)
    } else {
        match cmd {
            Subcommand::SetupBackup => match arg {
                None => Err(PluginError::NoLocalPath),
                Some(p) => match derive_dir(p) {
                    Err(e) => Err(e),
                    Ok(t) => Ok(
                        PlanModel {
                            delay_millis: 0,
                            action: ActionModel::CreateStoreDir {
                                store_dir: store_dir_spec(s.root@, t.0, t.1),
                            },
                        },
                    ),
                },
            },
            Subcommand::SetupRestore => Ok(
                PlanModel { delay_millis: 0, action: ActionModel::NoOp },
            ),
            Subcommand::CleanupBackup => Ok(
                PlanModel { delay_millis: 0, action: ActionModel::NoOp },
            ),
            Subcommand::CleanupRestore => Ok(
                PlanModel { delay_millis: 0, action: ActionModel::NoOp },
            ),
            Subcommand::BackupFile => match arg {
                None => Err(PluginError::NoLocalPath),
                Some(p) => match derive_file(p) {
                    Err(e) => Err(e),
                    Ok(t) => Ok(
                        PlanModel {
                            delay_millis: effective_delay(s),
                            action: ActionModel::CopyLocalToStore {
                                local: p,
                                store: store_path_spec(s.root@, t.0, t.1, t.2),
                            },
                        },
                    ),
                },
            },
            Subcommand::RestoreFile => match arg {
                None => Err(PluginError::NoLocalPath),
                Some(p) => match derive_file(p) {
                    Err(e) => Err(e),
                    Ok(t) => Ok(
                        PlanModel {
                            delay_millis: effective_delay(s),
                            action: ActionModel::CopyStoreToLocal {
                                store: store_path_spec(s.root@, t.0, t.1, t.2),
                                local: p,
                            },
                        },
                    ),
                },
            },
            Subcommand::BackupData => match arg {
                None => Err(PluginError::NoLocalPath),
                Some(p) => match derive_file(p) {
                    Err(e) => Err(e),
                    Ok(t) => Ok(
                        PlanModel {
                            delay_millis: effective_delay(s),
                            action: ActionModel::StdinToStore {
                                store: store_path_spec(s.root@, t.0, t.1, t.2),
                            },
                        },
                    ),
                },
            },
            Subcommand::RestoreData => match arg {
                None => Err(PluginError::NoLocalPath),
                Some(p) => match derive_file(p) {
                    Err(e) => Err(e),
                    Ok(t) => Ok(
                        PlanModel {
                            delay_millis: effective_delay(s),
                            action: ActionModel::StoreToStdout {
                                store: store_path_spec(s.root@, t.0, t.1, t.2),
                            },
                        },
                    ),
                },
            },
            Subcommand::DeleteBackup => match arg {
                None => Err(PluginError::NoTimestamp),
                Some(b) => match derive_bucket(b) {
                    Err(e) => Err(e),
                    Ok(day) => Ok(
                        PlanModel {
                            delay_millis: 0,
                            action: ActionModel::RemoveStoreTree {
                                store_dir: store_dir_spec(s.root@, day, b),
                            },
                        },
                    ),
                },
            },
            Subcommand::ApiVersion => Ok(
                PlanModel {
                    delay_millis: 0,
                    action: ActionModel::PrintLine { text: "0.5.0"@ },
                },
            ),
            Subcommand::VersionFlag => Ok(
                PlanModel {
                    delay_millis: 0,
                    action: ActionModel::PrintLine { text: "rplugin version 0.0.1"@ },
                },
            ),
        }
    }
}

/// The generator state after one invocation: the transfer operations draw one
/// bit when failure injection is on; everything else leaves it alone.
pub open spec fn rng_after(s: Settings, cmd: Subcommand, state: u64) -> u64 {
    if is_transfer(cmd) && s.inject_failure {
        next_state(state)
    } else {
        state
    }
}

/// An executable result agrees with its model when it carries the same error
/// or a plan whose view is the modelled one.
pub open spec fn matches_model(
    r: Result<Plan, PluginError>,
    m: Result<PlanModel, PluginError>,
) -> bool {
    match r {
        Ok(p) => m matches Ok(pm) && p@ == pm,
        Err(e) => m matches Err(em) && em == e,
    }
}

/// Character-for-character string equality.
fn str_eq(a: &str, b: &str) -> (r: bool)
    ensures
        r == (a@ == b@),
{
    let na = a.unicode_len();
    let nb = b.unicode_len();
    if na != nb {
        return false;
    }
    let mut i: usize = 0;
    while i < na
        invariant
            na == a@.len(),
            na == b@.len(),
            i <= na,
            forall|j: int| 0 <= j < i ==> a@[j] == b@[j],
        decreases na - i,
    {
        if a.get_char(i) != b.get_char(i) {
            return false;
        }
        i = i + 1;
    }
    proof {
        assert(a@ =~= b@);
    }
    true
}

/// Which subcommand a first argument names, if any.
pub open spec fn subcommand_of(s: Seq<char>) -> Option<Subcommand> {
    if s == "setup_plugin_for_backup"@ {
        Some(Subcommand::SetupBackup)
    } else if s == "setup_plugin_for_restore"@ {
        Some(Subcommand::SetupRestore)
    } else if s == "cleanup_plugin_for_backup"@ {
        Some(Subcommand::CleanupBackup)
    } else if s == "cleanup_plugin_for_restore"@ {
        Some(Subcommand::CleanupRestore)
    } else if s == "backup_file"@ {
        Some(Subcommand::BackupFile)
    } else if s == "restore_file"@ {
        Some(Subcommand::RestoreFile)
    } else if s == "backup_data"@ {
        Some(Subcommand::BackupData)
    } else if s == "restore_data"@ {
        Some(Subcommand::RestoreData)
    } else if s == "delete_backup"@ {
        Some(Subcommand::DeleteBackup)
    } else if s == "plugin_api_version"@ {
        Some(Subcommand::ApiVersion)
    } else if s == "--version"@ {
        Some(Subcommand::VersionFlag)
    } else {
        None
    }
}

/// Routes a first argument to the subcommand it names.
pub fn parse_subcommand(s: &str) -> (r: Option<Subcommand>)
    ensures
        r == subcommand_of(s@),
{
    if str_eq(s, "setup_plugin_for_backup") {
        Some(Subcommand::SetupBackup)
    } else if str_eq(s, "setup_plugin_for_restore") {
        Some(Subcommand::SetupRestore)
    } else if str_eq(s, "cleanup_plugin_for_backup") {
        Some(Subcommand::CleanupBackup)
    } else if str_eq(s, "cleanup_plugin_for_restore") {
        Some(Subcommand::CleanupRestore)
    } else if str_eq(s, "backup_file") {
        Some(Subcommand::BackupFile)
    } else if str_eq(s, "restore_file") {
        Some(Subcommand::RestoreFile)
    } else if str_eq(s, "backup_data") {
        Some(Subcommand::BackupData)
    } else if str_eq(s, "restore_data") {
        Some(Subcommand::RestoreData)
    } else if str_eq(s, "delete_backup") {
        Some(Subcommand::DeleteBackup)
    } else if str_eq(s, "plugin_api_version") {
        Some(Subcommand::ApiVersion)
    } else if str_eq(s, "--version") {
        Some(Subcommand::VersionFlag)
    } else {
        None
    }
}

/// The delay a transfer plan carries under these settings.
fn delay_of(settings: &Settings) -> (d: u64)
    ensures
        d == effective_delay(*settings),
{
    if settings.inject_delay {
        settings.delay_millis
    } else {
        0
    }
}

/// Plans a backup setup: derives the store directory for the local path and
/// asks for it to be created with all missing ancestors, a precondition of
/// the file and data backups against the same bucket.
pub fn setup_plugin_for_backup(settings: &Settings, local_path: Option<&str>) -> (r: Result<
    Plan,
    PluginError,
>)
    ensures
        matches_model(
            r,
            plan_model(*settings, Subcommand::SetupBackup, opt_view(local_path), 0),
        ),
{
    match local_path {
        None => Err(PluginError::NoLocalPath),
        Some(p) => match split_daydir_dir(p) {
            Err(e) => Err(e),
            Ok((day, dir)) => {
                let sd = store_dir(settings.root.as_str(), day.as_str(), dir.as_str());
                Ok(Plan { delay_millis: 0, action: Action::CreateStoreDir { store_dir: sd } })
            },
        },
    }
}

/// Plans a restore setup: a reserved extension point that does no work.
pub fn setup_plugin_for_restore(settings: &Settings) -> (r: Result<Plan, PluginError>)
    ensures
        matches_model(r, plan_model(*settings, Subcommand::SetupRestore, None, 0)),
{
    Ok(Plan { delay_millis: 0, action: Action::NoOp })
}

/// Plans a backup cleanup: a reserved extension point that does no work.
pub fn cleanup_plugin_for_backup(settings: &Settings) -> (r: Result<Plan, PluginError>)
    ensures
        matches_model(r, plan_model(*settings, Subcommand::CleanupBackup, None, 0)),
{
    Ok(Plan { delay_millis: 0, action: Action::NoOp })
}

/// Plans a restore cleanup: a reserved extension point that does no work.
pub fn cleanup_plugin_for_restore(settings: &Settings) -> (r: Result<Plan, PluginError>)
    ensures
        matches_model(r, plan_model(*settings, Subcommand::CleanupRestore, None, 0)),
{
    Ok(Plan { delay_millis: 0, action: Action::NoOp })
}

/// Plans a single-file backup: after the failure-injection gate, derives the
/// store location of the local path and asks for a verbatim copy into it.
pub fn backup_file(settings: &Settings, local_path: Option<&str>, rng: &mut Rng) -> (r: Result<
    Plan,
    PluginError,
>)
    ensures
        final(rng).state == rng_after(*settings, Subcommand::BackupFile, old(rng).state),
        matches_model(
            r,
            plan_model(*settings, Subcommand::BackupFile, opt_view(local_path), old(rng).state),
        ),
{
    match randomly_fail(settings.inject_failure, rng) {
        Err(e) => Err(e),
        Ok(()) => match local_path {
            None => Err(PluginError::NoLocalPath),
            Some(p) => match split_daydir_dir_file(p) {
                Err(e) => Err(e),
                Ok((day, dir, file)) => {
                    let store = store_path(
                        settings.root.as_str(),
                        day.as_str(),
                        dir.as_str(),
                        file.as_str(),
                    );
                    Ok(
                        Plan {
                            delay_millis: delay_of(settings),
                            action: Action::CopyLocalToStore { local: p.to_owned(), store },
                        },
                    )
                },
            },
        },
    }
}

/// Plans a single-file restore: after the failure-injection gate, derives the
/// store location of the local path and asks for a verbatim copy out of it.
pub fn restore_file(settings: &Settings, local_path: Option<&str>, rng: &mut Rng) -> (r: Result<
    Plan,
    PluginError,
>)
    ensures
        final(rng).state == rng_after(*settings, Subcommand::RestoreFile, old(rng).state),
        matches_model(
            r,
            plan_model(*settings, Subcommand::RestoreFile, opt_view(local_path), old(rng).state),
        ),
{
    match randomly_fail(settings.inject_failure, rng) {
        Err(e) => Err(e),
        Ok(()) => match local_path {
            None => Err(PluginError::NoLocalPath),
            Some(p) => match split_daydir_dir_file(p) {
                Err(e) => Err(e),
                Ok((day, dir, file)) => {
                    let store = store_path(
                        settings.root.as_str(),
                        day.as_str(),
                        dir.as_str(),
                        file.as_str(),
                    );
                    Ok(
                        Plan {
                            delay_millis: delay_of(settings),
                            action: Action::CopyStoreToLocal { store, local: p.to_owned() },
                        },
                    )
                },
            },
        },
    }
}

/// Plans a streaming backup: after the failure-injection gate, derives the
/// store location and asks for the whole standard input to be copied into it.
pub fn backup_data(settings: &Settings, local_path: Option<&str>, rng: &mut Rng) -> (r: Result<
    Plan,
    PluginError,
>)
    ensures
        final(rng).state == rng_after(*settings, Subcommand::BackupData, old(rng).state),
        matches_model(
            r,
            plan_model(*settings, Subcommand::BackupData, opt_view(local_path), old(rng).state),
        ),
{
    match randomly_fail(settings.inject_failure, rng) {
        Err(e) => Err(e),
        Ok(()) => match local_path {
            None => Err(PluginError::NoLocalPath),
            Some(p) => match split_daydir_dir_file(p) {
                Err(e) => Err(e),
                Ok((day, dir, file)) => {
                    let store = store_path(
                        settings.root.as_str(),
                        day.as_str(),
                        dir.as_str(),
                        file.as_str(),
                    );
                    Ok(
                        Plan {
                            delay_millis: delay_of(settings),
                            action: Action::StdinToStore { store },
                        },
                    )
                },
            },
        },
    }
}

/// Plans a streaming restore: after the failure-injection gate, derives the
/// store location and asks for its whole content on standard output.
pub fn restore_data(settings: &Settings, local_path: Option<&str>, rng: &mut Rng) -> (r: Result<
    Plan,
    PluginError,
>)
    ensures
        final(rng).state == rng_after(*settings, Subcommand::RestoreData, old(rng).state),
        matches_model(
            r,
            plan_model(*settings, Subcommand::RestoreData, opt_view(local_path), old(rng).state),
        ),
{
    match randomly_fail(settings.inject_failure, rng) {
        Err(e) => Err(e),
        Ok(()) => match local_path {
            None => Err(PluginError::NoLocalPath),
            Some(p) => match split_daydir_dir_file(p) {
                Err(e) => Err(e),
                Ok((day, dir, file)) => {
                    let store = store_path(
                        settings.root.as_str(),
                        day.as_str(),
                        dir.as_str(),
                        file.as_str(),
                    );
                    Ok(
                        Plan {
                            delay_millis: delay_of(settings),
                            action: Action::StoreToStdout { store },
                        },
                    )
                },
            },
        },
    }
}

/// Plans a deletion: validates the bucket name and asks for the removal of
/// exactly the subtree `<root>/<day bucket>/<bucket>`. Nothing is planned on
/// a name shorter than 8 characters.
pub fn delete_backup(settings: &Settings, bucket: Option<&str>) -> (r: Result<Plan, PluginError>)
    ensures
        matches_model(r, plan_model(*settings, Subcommand::DeleteBackup, opt_view(bucket), 0)),
{
    match bucket {
        None => Err(PluginError::NoTimestamp),
        Some(b) => match daydir_of_bucket(b) {
            Err(e) => Err(e),
            Ok(day) => {
                let sd = store_dir(settings.root.as_str(), day.as_str(), b);
                Ok(Plan { delay_millis: 0, action: Action::RemoveStoreTree { store_dir: sd } })
            },
        },
    }
}

/// Plans the protocol-version report: one line with the fixed version of the
/// command semantics this plugin implements.
pub fn plugin_api_version(settings: &Settings) -> (r: Result<Plan, PluginError>)
    ensures
        matches_model(r, plan_model(*settings, Subcommand::ApiVersion, None, 0)),
{
    Ok(Plan { delay_millis: 0, action: Action::PrintLine { text: "0.5.0".to_owned() } })
}

/// Plans the `--version` report: one line naming the plugin and its release.
pub fn version(settings: &Settings) -> (r: Result<Plan, PluginError>)
    ensures
        matches_model(r, plan_model(*settings, Subcommand::VersionFlag, None, 0)),
{
    Ok(
        Plan {
            delay_millis: 0,
            action: Action::PrintLine { text: "rplugin version 0.0.1".to_owned() },
        },
    )
}

/// Plans one whole invocation: dispatches on the subcommand and hands back
/// either the single action to perform or the error to report, exactly as
/// [`plan_model`] says. The generator advances only on a transfer operation
/// with failure injection enabled.
pub fn plan_invocation(
    settings: &Settings,
    subcommand: Option<&str>,
    arg: Option<&str>,
    rng: &mut Rng,
) -> (r: Result<Plan, PluginError>)
    ensures
        match subcommand {
            None => {
                &&& r matches Err(e) && e == PluginError::NoSubcommand
                &&& final(rng).state == old(rng).state
            },
            Some(s) => match subcommand_of(s@) {
                None => {
                    &&& r matches Err(e) && e == PluginError::UnknownSubcommand
                    &&& final(rng).state == old(rng).state
                },
                Some(cmd) => {
                    &&& matches_model(r, plan_model(*settings, cmd, opt_view(arg), old(rng).state))
                    &&& final(rng).state == rng_after(*settings, cmd, old(rng).state)
                },
            },
        },
{
    match subcommand {
        None => Err(PluginError::NoSubcommand),
        Some(s) => match parse_subcommand(s) {
            None => Err(PluginError::UnknownSubcommand),
            Some(cmd) => match cmd {
                Subcommand::SetupBackup => setup_plugin_for_backup(settings, arg),
                Subcommand::SetupRestore => setup_plugin_for_restore(settings),
                Subcommand::CleanupBackup => cleanup_plugin_for_backup(settings),
                Subcommand::CleanupRestore => cleanup_plugin_for_restore(settings),
                Subcommand::BackupFile => backup_file(settings, arg, rng),
                Subcommand::RestoreFile => restore_file(settings, arg, rng),
                Subcommand::BackupData => backup_data(settings, arg, rng),
                Subcommand::RestoreData => restore_data(settings, arg, rng),
                Subcommand::DeleteBackup => delete_backup(settings, arg),
                Subcommand::ApiVersion => plugin_api_version(settings),
                Subcommand::VersionFlag => version(settings),
            },
        },
    }
}

} // verus!
