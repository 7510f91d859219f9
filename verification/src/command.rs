//! Modelling a wrapped command's outcome and the routing of its report.
//!
//! Running the command, reading piped input and sending the report are
//! outside work; what stands here is the logic around them: how a command
//! line is assembled, what counts as success, which notification priority a
//! result gets, and which secondary topic the outcome is routed to.

use vstd::prelude::*;
use vstd::string::StringExecFns;

verus! {

/// The captured outcome of one wrapped command.
#[derive(Debug, Clone)]
pub struct CommandResult {
    pub command: String,
    pub stdout: String,
    pub stderr: String,
    pub exit_code: i32,
}

/// Raised when no command was given and nothing was piped in.
#[derive(Debug)]
pub struct InvalidArgsNoStdIn {}

/// Notification priority of a report.
#[derive(Clone, Copy, Debug, PartialEq, Eq, Structural)]
pub enum PayloadPriority {
    Default,
    High,
}

impl CommandResult {
    /// The command succeeded.
    pub fn success(&self) -> (r: bool)
        ensures
            r == (self.exit_code == 0),
    {
        self.exit_code == 0
    }

    /// The priority its report goes out with: failures go out high.
    pub fn payload_priority(&self) -> (p: PayloadPriority)
        ensures
            p == (if self.exit_code == 0 {
                PayloadPriority::Default
            } else {
                PayloadPriority::High
            }),
    {
        if self.success() {
            PayloadPriority::Default
        } else {
            PayloadPriority::High
        }
    }

    /// The result standing for piped input: the command line is unknown,
    /// stderr is not piped, and the exit code of the upstream command is
    /// unavailable.
    pub fn from_piped(input: String) -> (r: CommandResult)
        ensures
            r.command@ == "<stdin>"@,
            r.stdout@ == input@,
            r.stderr@ == Seq::<char>::empty(),
            r.exit_code == 0,
    {
        CommandResult {
            command: "<stdin>".to_owned(),
            stdout: input,
            stderr: String::new(),
            exit_code: 0,
        }
    }
}

/// The arguments joined with single spaces.
pub open spec fn spec_join_spaced(args: Seq<Seq<char>>) -> Seq<char>
    decreases args.len(),
{
    if args.len() == 0 {
        Seq::empty()
    } else if args.len() == 1 {
        args[0]
    } else {
        spec_join_spaced(args.drop_last()) + " "@ + args.last()
    }
}

/// Join the arguments into the one command line handed to the shell.
pub fn join_args(args: &Vec<String>) -> (r: String)
    ensures
        r@ == spec_join_spaced(args@.map_values(|s: String| s@)),
{
    let ghost views = args@.map_values(|s: String| s@);
    let mut r = String::new();
    let mut i: usize = 0;
    while i < args.len()
        invariant
            i <= args.len(),
            views == args@.map_values(|s: String| s@),
            r@ == spec_join_spaced(views.subrange(0, i as int)),
        decreases args.len() - i,
    {
        if i > 0 {
            r.append(" ");
        }
        r.append(args[i].as_str());
        proof {
            let upto = views.subrange(0, i + 1);
            assert(upto.drop_last() =~= views.subrange(0, i as int));
            assert(upto.last() == views[i as int]);
            assert(r@ =~= spec_join_spaced(upto));
        }
        i += 1;
    }
    proof {
        assert(views.subrange(0, args@.len() as int) =~= views);
    }
    r
}

/// What to do with the given arguments.
#[derive(Debug)]
pub enum RunPlan {
    /// No arguments: read the piped input instead.
    UseStdin,
    /// Arguments joined to an empty command line: nothing to run.
    Invalid,
    /// Hand this command line to the shell.
    Run { command: String },
}

/// Decide how the wrapped command runs: no arguments fall back to piped
/// input, an empty command line is refused, anything else is run.
pub fn plan_run(args: &Vec<String>) -> (p: RunPlan)
    ensures
        ({
            let joined = spec_join_spaced(args@.map_values(|s: String| s@));
            match p {
                RunPlan::UseStdin => args@.len() == 0,
                RunPlan::Invalid => args@.len() > 0 && joined.len() == 0,
                RunPlan::Run { command } => args@.len() > 0 && joined.len() > 0 && command@
                    == joined,
            }
        }),
{
    if args.len() == 0 {
        RunPlan::UseStdin
    } else {
        let command = join_args(args);
        if command.as_str().is_empty() {
            RunPlan::Invalid
        } else {
            RunPlan::Run { command }
        }
    }
}

/// The secondary topic an outcome is routed to.
pub open spec fn spec_secondary_topic(topic: Seq<char>, success: bool) -> Seq<char> {
    topic + "--"@ + (if success {
        "success"@
    } else {
        "failure"@
    })
}

/// Compose the secondary topic: the main topic with `--success` or
/// `--failure` appended, by the command's outcome.
pub fn secondary_topic(topic: &str, success: bool) -> (r: String)
    ensures
        r@ == spec_secondary_topic(topic@, success),
{
    let mut s = topic.to_owned();
    s.append("--");
    if success {
        s.append("success");
    } else {
        s.append("failure");
    }
    s
}

} // verus!
