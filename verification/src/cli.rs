//! What the command line asks for.

use crate::text::{str_eq, texts};
use vstd::prelude::*;

verus! {

/// Name of the environment variable that holds options for the chooser.
pub const TRASH_TOOL_OPTIONS: &'static str = "TRASH_TOOL_OPTIONS";

/// The words of a line as a shell would split it, as `shlex::split` does;
/// nothing for a line that a shell would refuse.
pub uninterp spec fn shell_words(line: Seq<char>) -> Option<Seq<Seq<char>>>;

/// Splits `line` into words as a shell would.
///
/// Trusted: stands for `shlex::split`; the contract only gives its result a
/// name.
#[verifier::external_body]
fn shlex_split(line: &str) -> (r: Option<Vec<String>>)
    ensures
        r is Some == shell_words(line@) is Some,
        r matches Some(w) ==> texts(w@) == shell_words(line@)->0,
{
    shlex::split(line)
}

/// Position of the first `skim` among `args`, or their number where there
/// is none.
pub open spec fn skim_position(args: Seq<Seq<char>>) -> int
    decreases args.len(),
{
    if args.len() == 0 || args[0] == "skim"@ {
        0
    } else {
        1 + skim_position(args.drop_first())
    }
}

/// What follows the first `skim` among `args`; nothing where there is none.
pub open spec fn after_skim(args: Seq<Seq<char>>) -> Seq<Seq<char>> {
    let at = skim_position(args);
    if 0 <= at < args.len() {
        args.skip(at + 1)
    } else {
        seq![]
    }
}

/// `skim_position` names a `skim` that has none before it, or the length.
pub proof fn lemma_skim_position(args: Seq<Seq<char>>, k: int)
    requires
        0 <= k <= args.len(),
        forall|i: int| 0 <= i < k ==> args[i] != "skim"@,
        k < args.len() ==> args[k] == "skim"@,
    ensures
        skim_position(args) == k,
    decreases args.len(),
{
    if args.len() == 0 || args[0] == "skim"@ {
    } else {
        let rest = args.drop_first();
        assert forall|i: int| 0 <= i < k - 1 implies rest[i] != "skim"@ by {
            assert(rest[i] == args[i + 1]);
        }
        lemma_skim_position(rest, k - 1);
    }
}

/// The arguments for the chooser: the program's name, then the words from
/// the environment, then what the command line holds after `skim`, so that
/// the command line comes last and wins.
pub open spec fn chooser_args(cli_args: Seq<Seq<char>>, env_words: Seq<Seq<char>>) -> Seq<
    Seq<char>,
> {
    seq![cli_args[0]] + env_words + after_skim(cli_args)
}

/// The arguments for the chooser, from the command line and the words that
/// the environment gave.
pub fn assemble_chooser_args(cli_args: &Vec<String>, env_words: Vec<String>) -> (r: Vec<String>)
    requires
        cli_args.len() > 0,
    ensures
        texts(r@) == chooser_args(texts(cli_args@), texts(env_words@)),
{
    let ghost all = texts(cli_args@);
    let mut out: Vec<String> = Vec::new();
    out.push(cli_args[0].clone());
    let mut words = env_words;
    out.append(&mut words);
    assert(texts(out@) == seq![all[0]] + texts(env_words@));
    let mut at: usize = 0;
    while at < cli_args.len() && !str_eq(cli_args[at].as_str(), "skim")
        invariant
            at <= cli_args.len(),
            all == texts(cli_args@),
            forall|i: int| 0 <= i < at ==> all[i] != "skim"@,
        decreases cli_args.len() - at,
    {
        assert(all[at as int] == cli_args@[at as int]@);
        at += 1;
    }
    proof {
        if at < cli_args.len() {
            assert(all[at as int] == cli_args@[at as int]@);
        }
        lemma_skim_position(all, at as int);
    }
    if at < cli_args.len() {
        let ghost head = out@;
        let mut i: usize = at + 1;
        while i < cli_args.len()
            invariant
                at < i <= cli_args.len(),
                all == texts(cli_args@),
                texts(out@) == texts(head) + all.subrange(at + 1, i as int),
            decreases cli_args.len() - i,
        {
            let ghost before = out@;
            let word = cli_args[i].clone();
            out.push(word);
            assert(all[i as int] == cli_args@[i as int]@);
            assert(texts(out@) == texts(before).push(word@));
            i += 1;
        }
        assert(all.subrange(at + 1, all.len() as int) == all.skip(at + 1));
    }
    out
}

/// The arguments for the chooser, from the command line and the value of
/// the environment variable. A value that a shell would refuse gives no
/// words.
pub fn chooser_arguments(cli_args: &Vec<String>, env_value: &str) -> (r: Vec<String>)
    requires
        cli_args.len() > 0,
    ensures
        texts(r@) == chooser_args(
            texts(cli_args@),
            match shell_words(env_value@) {
                Some(w) => w,
                None => seq![],
            },
        ),
{
    let env_words = match shlex_split(env_value) {
        Some(w) => w,
        None => {
            let none: Vec<String> = Vec::new();
            assert(texts(none@) == Seq::<Seq<char>>::empty());
            none
        },
    };
    assemble_chooser_args(cli_args, env_words)
}

/// What the program is to do.
#[derive(Debug, Clone, Copy, PartialEq, Eq, Structural)]
pub enum Command {
    /// Move the named files to the trash.
    MoveToTrash,
    /// Let the user choose items to restore.
    Restore,
    /// Nothing: a restore was asked for without a chooser.
    Nothing,
    /// Empty the trash.
    EmptyTrash,
    /// Show what the trash holds.
    DisplayTrash,
}

/// What the program is to do: files to trash come first, then a restore,
/// then emptying, and showing the trash is what is left.
pub fn choose_command(
    has_files: bool,
    restore: bool,
    has_chooser: bool,
    empty: bool,
    no_confirm: bool,
) -> (r: Command)
    ensures
        r == if has_files {
            Command::MoveToTrash
        } else if restore {
            if has_chooser {
                Command::Restore
            } else {
                Command::Nothing
            }
        } else if empty || no_confirm {
            Command::EmptyTrash
        } else {
            Command::DisplayTrash
        },
{
    if has_files {
        Command::MoveToTrash
    } else if restore {
        if has_chooser {
            Command::Restore
        } else {
            Command::Nothing
        }
    } else if empty || no_confirm {
        Command::EmptyTrash
    } else {
        Command::DisplayTrash
    }
}

} // verus!
