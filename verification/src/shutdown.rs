//! What a shutdown does: the command that is run, or only reported in a
//! dry run, and how its exit is judged.
use vstd::prelude::*;
use vstd::string::*;
use crate::config::strings_view;
use crate::monitor::ShutdownReason;
use crate::text::{chars_of, string_of_range, trim, trim_bounds};

verus! {

/// Why a shutdown failed.
#[derive(Debug)]
pub enum ShutdownError {
    EmptyCommand,
    /// The program could not be started.
    Execute { program: String, message: String },
    /// The program exited unsuccessfully.
    Failed { status: String, stderr: String },
}

/// Something that can shut the host down.
pub trait ShutdownExecutor {
    fn shutdown(&self, reason: &ShutdownReason) -> Result<(), ShutdownError>;
}

/// Shuts down by running the configured command.
#[derive(Debug, Clone)]
pub struct CommandShutdownExecutor {
    dry_run: bool,
    command: Vec<String>,
}

/// What a shutdown request comes to.
#[derive(Debug)]
pub enum ShutdownPlan {
    /// Only report the command that would run.
    DryRun { command: Vec<String> },
    /// Run the program with the arguments.
    Execute { program: String, args: Vec<String> },
}

impl CommandShutdownExecutor {
    pub fn new(dry_run: bool, command: Vec<String>) -> (r: CommandShutdownExecutor)
        ensures
            r.dry_run() == dry_run,
            r.command() == command@,
    {
        CommandShutdownExecutor { dry_run, command }
    }

    pub closed spec fn dry_run(&self) -> bool {
        self.dry_run
    }

    pub closed spec fn command(&self) -> Seq<String> {
        self.command@
    }

    /// What a shutdown does: nothing without a command, a report in a dry
    /// run, and otherwise the first word run as the program with the rest
    /// as its arguments.
    pub fn plan(&self) -> (r: Result<ShutdownPlan, ShutdownError>)
        ensures
            self.command().len() == 0 ==> r matches Err(ShutdownError::EmptyCommand),
            self.command().len() > 0 && self.dry_run() ==> (r matches Ok(
                ShutdownPlan::DryRun { command },
            ) && command@ == self.command()),
            self.command().len() > 0 && !self.dry_run() ==> (r matches Ok(
                ShutdownPlan::Execute { program, args },
            ) && program == self.command()[0] && args@ == self.command().drop_first()),
    {
        if self.command.len() == 0 {
            return Err(ShutdownError::EmptyCommand);
        }
        if self.dry_run {
            let mut command: Vec<String> = Vec::new();
            let mut i: usize = 0;
            while i < self.command.len()
                invariant
                    i <= self.command@.len(),
                    command@ == self.command@.subrange(0, i as int),
                decreases self.command@.len() - i,
            {
                command.push(self.command[i].clone());
                proof {
                    assert(command@ =~= self.command@.subrange(0, i + 1));
                }
                i = i + 1;
            }
            proof {
                assert(command@ =~= self.command@);
            }
            return Ok(ShutdownPlan::DryRun { command });
        }
        let program = self.command[0].clone();
        let mut args: Vec<String> = Vec::new();
        let mut i: usize = 1;
        while i < self.command.len()
            invariant
                1 <= i <= self.command@.len(),
                args@ == self.command@.subrange(1, i as int),
            decreases self.command@.len() - i,
        {
            args.push(self.command[i].clone());
            proof {
                assert(args@ =~= self.command@.subrange(1, i + 1));
            }
            i = i + 1;
        }
        proof {
            assert(args@ =~= self.command@.drop_first());
        }
        Ok(ShutdownPlan::Execute { program, args })
    }
}

/// Judges how the shutdown program exited: success, or the failure with
/// its status and its standard error without surrounding whitespace.
pub fn command_outcome(success: bool, status: String, stderr: &str) -> (r: Result<(), ShutdownError>)
    ensures
        success ==> r is Ok,
        !success ==> (r matches Err(ShutdownError::Failed { status: s, stderr: e }) && s == status
            && e@ == trim(stderr@)),
{
    if success {
        return Ok(());
    }
    let v = chars_of(stderr);
    let (a, b) = trim_bounds(v.as_slice());
    Err(ShutdownError::Failed { status, stderr: string_of_range(v.as_slice(), a, b) })
}

} // verus!
