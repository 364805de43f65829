use vstd::prelude::*;
use crate::invocation::InvocationIdentity;
use crate::text::same_text;
use crate::update::{after_poll, notice_text, pair_view, notifier_wf, update_notice, UpdateNotifier};

verus! {

/// The deprecated sub-command name.
pub open spec fn deprecated_command() -> Seq<char> {
    "init"@
}

/// The line printed when the deprecated sub-command is used.
pub open spec fn deprecation_text() -> Seq<char> {
    "wasm-pack init is deprecated, consider using wasm-pack build"@
}

pub open spec fn lines_view(v: Seq<String>) -> Seq<Seq<char>> {
    v.map_values(|s: String| s@)
}

/// The deprecation line owed for a process argument vector (the program
/// name first): one line when the first argument is the deprecated name.
pub open spec fn deprecation_line(args: Seq<Seq<char>>) -> Option<Seq<char>> {
    if args.len() > 1 && args[1] == deprecated_command() {
        Some(deprecation_text())
    } else {
        None
    }
}

/// The deprecation notice for a process argument vector, if one is owed.
pub fn deprecation_notice(args: &Vec<String>) -> (r: Option<String>)
    ensures
        match r {
            Some(s) => deprecation_line(lines_view(args@)) == Some(s@),
            None => deprecation_line(lines_view(args@)) is None,
        },
{
    if args.len() > 1 && same_text(args[1].as_str(), "init") {
        Some(String::from_str("wasm-pack init is deprecated, consider using wasm-pack build"))
    } else {
        None
    }
}

/// What the process does once it knows how it was invoked.
#[derive(Clone, Copy, Debug, PartialEq, Eq, Structural)]
pub enum StartupAction {
    /// Run the self-installer; no argument is parsed.
    Install,
    /// Start the background version check, then parse and run the command.
    RunCommand,
}

/// The startup decision: the action and the notice to print before it.
#[derive(Debug)]
pub struct Startup {
    pub action: StartupAction,
    pub notice: Option<String>,
}

/// Decides how to start: the installer whatever the arguments, otherwise the
/// command, preceded by the deprecation notice when one is owed.
pub fn startup(identity: InvocationIdentity, args: &Vec<String>) -> (r: Startup)
    ensures
        identity == InvocationIdentity::InstallerMode ==> r.action == StartupAction::Install
            && r.notice is None,
        identity == InvocationIdentity::NormalMode ==> r.action == StartupAction::RunCommand
            && match r.notice {
            Some(s) => deprecation_line(lines_view(args@)) == Some(s@),
            None => deprecation_line(lines_view(args@)) is None,
        },
{
    match identity {
        InvocationIdentity::InstallerMode => Startup { action: StartupAction::Install, notice: None },
        InvocationIdentity::NormalMode => Startup {
            action: StartupAction::RunCommand,
            notice: deprecation_notice(args),
        },
    }
}

/// A failure of the build pipeline: its message and its chain of causes,
/// outermost first.
#[derive(Debug)]
pub struct ErrorChain {
    pub message: String,
    pub causes: Vec<String>,
}

/// The lines that report a failure: the top-level error, then one line per
/// cause in chain order.
pub open spec fn error_lines(message: Seq<char>, causes: Seq<Seq<char>>) -> Seq<Seq<char>> {
    seq!["Error: "@ + message] + causes.map_values(|c: Seq<char>| "Caused by: "@ + c)
}

/// Formats a failure as report lines.
pub fn error_report(e: &ErrorChain) -> (r: Vec<String>)
    ensures
        lines_view(r@) == error_lines(e.message@, lines_view(e.causes@)),
{
    let mut out: Vec<String> = Vec::new();
    out.push(String::from_str("Error: ").concat(e.message.as_str()));
    let mut i: usize = 0;
    while i < e.causes.len()
        invariant
            i <= e.causes@.len(),
            lines_view(out@) =~= error_lines(e.message@, lines_view(e.causes@.subrange(0, i as int))),
        decreases e.causes@.len() - i,
    {
        let ghost before = out@;
        let line = String::from_str("Caused by: ").concat(e.causes[i].as_str());
        out.push(line);
        proof {
            let done = e.causes@.subrange(0, i as int);
            let next = e.causes@.subrange(0, i + 1);
            assert(next =~= done.push(e.causes@[i as int]));
            assert(lines_view(next) =~= lines_view(done).push(e.causes@[i as int]@));
            assert(out@ =~= before.push(line));
            assert(lines_view(out@) =~= lines_view(before).push(line@));
        }
        i = i + 1;
    }
    assert(e.causes@.subrange(0, e.causes@.len() as int) =~= e.causes@);
    out
}

/// What the process prints after the command ran, and its exit status.
#[derive(Debug)]
pub struct Outcome {
    pub stdout: Vec<String>,
    pub stderr: Vec<String>,
    pub exit_code: i32,
}

/// The lines owed on standard output after a successful run, given the pair
/// that the update check has left.
pub open spec fn success_lines(slot: Option<(Seq<char>, Seq<char>)>) -> Seq<Seq<char>> {
    match slot {
        Some(p) => seq![notice_text(p.0, p.1)],
        None => Seq::empty(),
    }
}

/// Concludes a run. A failure reports its error chain on standard error and
/// exits with 1, leaving the update check alone. A success polls the update
/// check once, prints the notice if a pair was waiting, and exits with 0.
pub fn conclude(result: &Result<(), ErrorChain>, notifier: &mut UpdateNotifier) -> (r: Outcome)
    requires
        notifier_wf(old(notifier)@),
    ensures
        notifier_wf(final(notifier)@),
        match result {
            Err(e) => {
                &&& lines_view(r.stderr@) == error_lines(e.message@, lines_view(e.causes@))
                &&& r.stdout@.len() == 0
                &&& r.exit_code == 1
                &&& final(notifier)@ == old(notifier)@
            },
            Ok(_) => {
                &&& lines_view(r.stdout@) == success_lines(old(notifier)@.slot)
                &&& r.stderr@.len() == 0
                &&& r.exit_code == 0
                &&& final(notifier)@ == after_poll(old(notifier)@)
            },
        },
{
    match result {
        Err(e) => Outcome { stdout: Vec::new(), stderr: error_report(e), exit_code: 1 },
        Ok(_) => {
            let mut stdout: Vec<String> = Vec::new();
            let polled = notifier.poll();
            match polled {
                Some(pair) => {
                    stdout.push(update_notice(&pair));
                },
                None => {},
            }
            assert(lines_view(stdout@) =~= success_lines(old(notifier)@.slot));
            Outcome { stdout, stderr: Vec::new(), exit_code: 0 }
        },
    }
}

} // verus!

verus! {

/// The deprecation notice is owed, once, whenever the first argument is the
/// deprecated name, whatever arguments follow it.
pub proof fn lemma_deprecation_ignores_trailing(args: Seq<Seq<char>>, trailing: Seq<Seq<char>>)
    requires
        args.len() > 1,
        args[1] == deprecated_command(),
    ensures
        deprecation_line(args) == Some(deprecation_text()),
        deprecation_line(args + trailing) == deprecation_line(args),
{
    assert((args + trailing)[1] == args[1]);
}

} // verus!
