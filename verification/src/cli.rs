//! The `signalui-cli` command line: its grammar (one required subcommand,
//! parsed by `clap`) and the text its subcommands print.
//!
//! Stdout markers: `QR_READY <path>` and `PAIR_OK` (pair), `PAIRED` or
//! `NOT_PAIRED` (paired), `DEVICE <id> <created> [*-]<name>` per device and
//! `OK <count>` (devices), `ERROR <msg>` for any failure.
use vstd::prelude::*;

use crate::pair_flow::PairOutcome;
use crate::text::{concat, contains_text, decimal, owned, push_str, same_text, text_contains, with_decimal};

verus! {

/// The program's name.
pub const CLI_NAME: &'static str = "signalui-cli";

/// The program's one-line description.
pub const CLI_ABOUT: &'static str = "Headless companion to SignalUI (pair / paired / devices)";

/// The program's version.
pub const CLI_VERSION: &'static str = "0.1.0";

/// The subcommands with their descriptions.
pub const PAIR_ABOUT: &'static str = "Render a Signal pairing QR, wait up to 300 s for a scan, persist registration.";
pub const PAIRED_ABOUT: &'static str = "Print PAIRED or NOT_PAIRED based on the local store.";
pub const DEVICES_ABOUT: &'static str = "List linked-device slots on the registered Signal account.";

#[verifier::external_type_specification]
#[verifier::external_body]
pub struct ExClapCommand(clap::Command);

/// What `clap` makes of `args` for a command named `name` (with `about` and
/// `version`) that requires one of `subcommands` (name, description):
/// the name of the subcommand given, or clap's error text (which also covers
/// `--help` and `--version`) with whether it goes to standard error (not
/// for the help and version texts).
pub uninterp spec fn clap_outcome(
    name: Seq<char>,
    about: Seq<char>,
    version: Seq<char>,
    subcommands: Seq<(Seq<char>, Seq<char>)>,
    args: Seq<Seq<char>>,
) -> Result<Option<Seq<char>>, (Seq<char>, bool)>;

/// The text of each string of a list.
pub open spec fn texts(s: Seq<&str>) -> Seq<Seq<char>> {
    Seq::new(s.len(), |i: int| s[i]@)
}

/// The text of each (name, description) pair of a list.
pub open spec fn text_pairs(s: Seq<(&'static str, &'static str)>) -> Seq<(Seq<char>, Seq<char>)> {
    Seq::new(s.len(), |i: int| (s[i].0@, s[i].1@))
}

/// A subcommand table clap accepts: non-empty names, none of them `help`
/// (clap adds a `help` subcommand of its own), no name twice. Its debug
/// assertions panic on a duplicated subcommand name.
pub open spec fn valid_subcommands(t: Seq<(Seq<char>, Seq<char>)>) -> bool {
    &&& forall|i: int| 0 <= i < t.len() ==> (#[trigger] t[i]).0.len() > 0 && t[i].0 != "help"@
    &&& forall|i: int, j: int| 0 <= i < j < t.len() ==> (#[trigger] t[i]).0 != (#[trigger] t[j]).0
}

/// `clap::Command::new(name).about(about).version(version)`, requiring a
/// subcommand (and showing help when nothing is given), with one
/// `Command::new(n).about(a)` subcommand per pair. The command is a value of
/// clap's own type, opaque here: nothing is stated of it; what it makes of a
/// command line is stated by `clap_subcommand` through `clap_outcome`.
#[verifier::external_body]
fn clap_command(
    name: &'static str,
    about: &'static str,
    version: &'static str,
    subcommands: &[(&'static str, &'static str)],
) -> clap::Command
    requires
        valid_subcommands(text_pairs(subcommands@)),
{
    let mut cmd = clap::Command::new(name).about(about).version(version).subcommand_required(true).arg_required_else_help(true);
    for (n, a) in subcommands {
        cmd = cmd.subcommand(clap::Command::new(*n).about(*a));
    }
    cmd
}

/// `try_get_matches_from(args)` on the command [`clap_command`] builds from
/// the same values: the subcommand name matched, or the error's text.
#[verifier::external_body]
fn clap_subcommand(
    name: &'static str,
    about: &'static str,
    version: &'static str,
    subcommands: &[(&'static str, &'static str)],
    args: &[&str],
) -> (r: Result<Option<String>, (String, bool)>)
    requires
        valid_subcommands(text_pairs(subcommands@)),
    ensures
        match r {
            Ok(Some(s)) => clap_outcome(name@, about@, version@, text_pairs(subcommands@), texts(args@))
                == Ok::<Option<Seq<char>>, (Seq<char>, bool)>(Some(s@)),
            Ok(None) => clap_outcome(name@, about@, version@, text_pairs(subcommands@), texts(args@))
                == Ok::<Option<Seq<char>>, (Seq<char>, bool)>(None),
            Err((e, to_stderr)) => clap_outcome(name@, about@, version@, text_pairs(subcommands@), texts(args@))
                == Err::<Option<Seq<char>>, (Seq<char>, bool)>((e@, to_stderr)),
        },
{
    let mut cmd = clap::Command::new(name).about(about).version(version).subcommand_required(true).arg_required_else_help(true);
    for (n, a) in subcommands {
        cmd = cmd.subcommand(clap::Command::new(*n).about(*a));
    }
    match cmd.try_get_matches_from(args.iter().copied()) {
        Ok(m) => Ok(m.subcommand_name().map(|s| s.to_string())),
        Err(e) => Err((e.to_string(), e.use_stderr())),
    }
}

/// A subcommand.
#[derive(Debug, Clone, Copy, PartialEq, Eq, Structural)]
pub enum Cmd {
    /// Render a pairing QR, wait for a scan, persist the registration.
    Pair,
    /// Print PAIRED or NOT_PAIRED for the local store.
    Paired,
    /// List the linked-device slots of the registered account.
    Devices,
}

/// A parsed command line.
#[derive(Debug, Clone, Copy, PartialEq, Eq, Structural)]
pub struct Cli {
    pub cmd: Cmd,
}

/// A command line that does not parse, with the message to show.
#[derive(Debug, Clone)]
pub struct CliError {
    pub message: String,
    /// Whether the message is an error for standard error (exit status 2),
    /// rather than the help or version text for standard output (status 0).
    pub to_stderr: bool,
}

impl CliError {
    /// The message to show.
    pub fn message(&self) -> (r: String)
        ensures
            r@ == self.message@,
    {
        owned(self.message.as_str())
    }
}

/// The subcommand a name denotes.
pub open spec fn cmd_named(name: Seq<char>) -> Option<Cmd> {
    if name == "pair"@ {
        Some(Cmd::Pair)
    } else if name == "paired"@ {
        Some(Cmd::Paired)
    } else if name == "devices"@ {
        Some(Cmd::Devices)
    } else {
        None
    }
}

/// The subcommand table, in order.
pub open spec fn subcommand_table() -> Seq<(Seq<char>, Seq<char>)> {
    seq![("pair"@, PAIR_ABOUT@), ("paired"@, PAIRED_ABOUT@), ("devices"@, DEVICES_ABOUT@)]
}

/// What the program makes of `args`.
pub open spec fn parse_outcome(args: Seq<Seq<char>>) -> Result<Option<Seq<char>>, (Seq<char>, bool)> {
    clap_outcome(CLI_NAME@, CLI_ABOUT@, CLI_VERSION@, subcommand_table(), args)
}

/// The message for a match without a known subcommand.
pub open spec fn missing_subcommand_message() -> Seq<char> {
    "error: a subcommand is required"@
}

fn subcommands() -> (r: Vec<(&'static str, &'static str)>)
    ensures
        text_pairs(r@) == subcommand_table(),
        valid_subcommands(subcommand_table()),
{
    let r = vec![("pair", PAIR_ABOUT), ("paired", PAIRED_ABOUT), ("devices", DEVICES_ABOUT)];
    assert(text_pairs(r@) =~= subcommand_table());
    proof {
        lemma_table_valid();
    }
    r
}

proof fn lemma_table_valid()
    ensures
        valid_subcommands(subcommand_table()),
{
    reveal_strlit("pair");
    reveal_strlit("paired");
    reveal_strlit("devices");
    reveal_strlit("help");
    let t = subcommand_table();
    assert("pair"@.len() == 4 && "paired"@.len() == 6 && "devices"@.len() == 7 && "help"@.len() == 4);
    assert("pair"@[0] == 'p' && "help"@[0] == 'h');
    assert(t[0].0 != "help"@ && t[1].0 != "help"@ && t[2].0 != "help"@);
    assert(t[0].0 != t[1].0 && t[0].0 != t[2].0 && t[1].0 != t[2].0);
}

impl Cli {
    /// The clap command the program parses with, built from the same name,
    /// description, version and subcommand table that
    /// [`Cli::try_parse_from`] parses with (the command itself is opaque).
    pub fn command() -> clap::Command {
        let table = subcommands();
        clap_command(CLI_NAME, CLI_ABOUT, CLI_VERSION, table.as_slice())
    }

    /// What a clap outcome becomes: the named subcommand, or the error text
    /// (a match without a known subcommand is an error too).
    pub fn from_outcome(outcome: Result<Option<String>, (String, bool)>) -> (r: Result<Cli, CliError>)
        ensures
            match outcome {
                Ok(Some(n)) => match cmd_named(n@) {
                    Some(c) => r == Ok::<Cli, CliError>(Cli { cmd: c }),
                    None => r matches Err(e) && e.message@ == missing_subcommand_message() && e.to_stderr,
                },
                Ok(None) => r matches Err(e) && e.message@ == missing_subcommand_message() && e.to_stderr,
                Err((m, to_stderr)) => r matches Err(e) && e.message@ == m@ && e.to_stderr == to_stderr,
            },
    {
        match outcome {
            Ok(Some(n)) => {
                if same_text(n.as_str(), "pair") {
                    Ok(Cli { cmd: Cmd::Pair })
                } else if same_text(n.as_str(), "paired") {
                    Ok(Cli { cmd: Cmd::Paired })
                } else if same_text(n.as_str(), "devices") {
                    Ok(Cli { cmd: Cmd::Devices })
                } else {
                    Err(CliError { message: owned("error: a subcommand is required"), to_stderr: true })
                }
            },
            Ok(None) => Err(CliError { message: owned("error: a subcommand is required"), to_stderr: true }),
            Err((m, to_stderr)) => Err(CliError { message: m, to_stderr }),
        }
    }

    /// Parse a command line (program name first).
    pub fn try_parse_from(args: &[&str]) -> (r: Result<Cli, CliError>)
        ensures
            match parse_outcome(texts(args@)) {
                Ok(Some(n)) => match cmd_named(n) {
                    Some(c) => r == Ok::<Cli, CliError>(Cli { cmd: c }),
                    None => r matches Err(e) && e.message@ == missing_subcommand_message() && e.to_stderr,
                },
                Ok(None) => r matches Err(e) && e.message@ == missing_subcommand_message() && e.to_stderr,
                Err((m, to_stderr)) => r matches Err(e) && e.message@ == m && e.to_stderr == to_stderr,
            },
    {
        let table = subcommands();
        let outcome = clap_subcommand(CLI_NAME, CLI_ABOUT, CLI_VERSION, table.as_slice(), args);
        Cli::from_outcome(outcome)
    }
}

/// The line printed for a failure.
pub fn error_line(msg: &str) -> (r: String)
    ensures
        r@ == "ERROR "@ + msg@,
{
    concat("ERROR ", msg)
}

/// What `paired` prints for a store whose registration was loaded (`Ok`) or
/// not: a load error saying the device is not yet registered or a key is
/// missing means "not paired"; any other error is a failure.
pub fn paired_status(load: Result<(), String>) -> (r: Result<bool, String>)
    ensures
        match load {
            Ok(()) => r == Ok::<bool, String>(true),
            Err(m) => if contains_text(m@, "not yet registered"@) || contains_text(m@, "missing key"@) {
                r == Ok::<bool, String>(false)
            } else {
                r matches Err(e) && e@ == "load_registered: "@ + m@
            },
        },
{
    match load {
        Ok(()) => Ok(true),
        Err(m) => {
            if text_contains(m.as_str(), "not yet registered") || text_contains(m.as_str(), "missing key") {
                Ok(false)
            } else {
                Err(concat("load_registered: ", m.as_str()))
            }
        },
    }
}

/// The marker printed for the paired state.
pub fn paired_line(paired: bool) -> (r: &'static str)
    ensures
        r@ == if paired { "PAIRED"@ } else { "NOT_PAIRED"@ },
{
    if paired { "PAIRED" } else { "NOT_PAIRED" }
}

/// The line printed for one linked device: its id, its creation time (as
/// the device list shows it), `*` for this device or `-` for another, and
/// its name (or "(no device name)").
pub fn device_line(id: u64, created_at: &str, current: bool, name: &Option<String>) -> (r: String)
    ensures
        r@ == "DEVICE "@ + decimal(id as nat) + " "@ + created_at@ + " "@ + (if current {
            "*"@
        } else {
            "-"@
        }) + match name {
            Some(n) => n@,
            None => "(no device name)"@,
        },
{
    let mut s = with_decimal("DEVICE ", id);
    push_str(&mut s, " ");
    push_str(&mut s, created_at);
    push_str(&mut s, " ");
    push_str(&mut s, if current { "*" } else { "-" });
    match name {
        Some(n) => push_str(&mut s, n.as_str()),
        None => push_str(&mut s, "(no device name)"),
    }
    s
}

/// The line closing a device listing.
pub fn devices_total_line(count: u64) -> (r: String)
    ensures
        r@ == "OK "@ + decimal(count as nat),
{
    with_decimal("OK ", count)
}

/// How a pairing attempt ends for `pair`: success, or the failure text
/// (`timed out after <s>s`, `link_secondary_device: <msg>`).
pub fn pair_result<M>(outcome: PairOutcome<M>) -> (r: Result<(), String>)
    ensures
        match outcome {
            PairOutcome::Success(_) => r is Ok,
            PairOutcome::Timeout(s) => r matches Err(e) && e@ == "timed out after "@ + decimal(s as nat) + "s"@,
            PairOutcome::Failed(m) => r matches Err(e) && e@ == "link_secondary_device: "@ + m@,
        },
{
    match outcome {
        PairOutcome::Success(_) => Ok(()),
        PairOutcome::Timeout(s) => {
            let mut e = with_decimal("timed out after ", s);
            push_str(&mut e, "s");
            Err(e)
        },
        PairOutcome::Failed(m) => Err(concat("link_secondary_device: ", m.as_str())),
    }
}

} // verus!
