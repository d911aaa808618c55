use vstd::prelude::*;

verus! {

/// Everything that can make an invocation fail before any filesystem work is
/// attempted. Failures of the filesystem itself (open/create/read/write/flush/
/// remove) happen outside the library, while the binary carries out a returned
/// plan, and are not represented here.
#[derive(Clone, Copy, Debug, PartialEq, Eq, Structural)]
pub enum PluginError {
    /// The local path has no final component to use as a file name.
    MissingFileName,
    /// The local path has no directory component where one is needed.
    MissingDirName,
    /// The directory component that seeds the day bucket is shorter than 8 characters.
    ShortDayName,
    /// The bucket name given to a deletion is shorter than 8 characters.
    InvalidBucketName,
    /// A subcommand that needs a local path was invoked without one.
    NoLocalPath,
    /// A deletion was requested without a bucket name.
    NoTimestamp,
    /// Failure injection was enabled and the sampled outcome was "fail".
    FailTriggered,
    /// The first argument names no known subcommand.
    UnknownSubcommand,
    /// No subcommand was given at all.
    NoSubcommand,
}

/// The diagnostic text for each failure, as the orchestrator sees it.
pub open spec fn message_of(e: PluginError) -> Seq<char> {
    match e {
        PluginError::MissingFileName => "invalid local path for filename"@,
        PluginError::MissingDirName => "invalid local path for dirname"@,
        PluginError::ShortDayName => "invalid local path for daydirname"@,
        PluginError::InvalidBucketName => "invalid dirname"@,
        PluginError::NoLocalPath => "no local path is provided"@,
        PluginError::NoTimestamp => "no timestamp is provided"@,
        PluginError::FailTriggered => "fail triggered"@,
        PluginError::UnknownSubcommand => "unknown subcommand"@,
        PluginError::NoSubcommand => "no subcommand was provided"@,
    }
}

/// The diagnostic text of an error, for the binary to print on its error stream.
pub fn error_message(e: &PluginError) -> (m: &'static str)
    ensures
        m@ == message_of(*e),
{
    match e {
        PluginError::MissingFileName => "invalid local path for filename",
        PluginError::MissingDirName => "invalid local path for dirname",
        PluginError::ShortDayName => "invalid local path for daydirname",
        PluginError::InvalidBucketName => "invalid dirname",
        PluginError::NoLocalPath => "no local path is provided",
        PluginError::NoTimestamp => "no timestamp is provided",
        PluginError::FailTriggered => "fail triggered",
        PluginError::UnknownSubcommand => "unknown subcommand",
        PluginError::NoSubcommand => "no subcommand was provided",
    }
}

/// Every failure carries its own diagnostic: no two distinct errors print the
/// same text.
pub proof fn lemma_error_messages_distinct(e1: PluginError, e2: PluginError)
    requires
        e1 != e2,
    ensures
        message_of(e1) != message_of(e2),
{
    reveal_strlit("invalid local path for filename");
    reveal_strlit("invalid local path for dirname");
    reveal_strlit("invalid local path for daydirname");
    reveal_strlit("invalid dirname");
    reveal_strlit("no local path is provided");
    reveal_strlit("no timestamp is provided");
    reveal_strlit("fail triggered");
    reveal_strlit("unknown subcommand");
    reveal_strlit("no subcommand was provided");
    assert(message_of(e1).len() != message_of(e2).len());
}

} // verus!
