//! What a command line asks the program to do.
use vstd::prelude::*;

verus! {

/// What the program runs.
#[derive(Debug)]
pub enum Action {
    /// Pull this many posts once and store the image links among them.
    SeedDatabase { limit: usize },
    /// Run the chat bot and the periodic scraper.
    RunBot,
    /// Probe the stored links from `start_at_id` on and remove the dead ones.
    PurgeLinks { dry_run: bool, start_at_id: usize },
    /// Print the usage, under this headline.
    Help(String),
}

/// The options found on a command line.
#[derive(Debug, Clone, Copy)]
pub struct ArgFlags {
    pub help: bool,
    /// `--seed` given.
    pub seed: bool,
    /// Its count: `DEFAULT_SEED_COUNT` when given bare, `None` when it is not a number.
    pub seed_limit: Option<usize>,
    pub purge: bool,
    pub dry_run: bool,
    /// `--start_at_id`: 0 when absent, `None` when it is not a number.
    pub start_at_id: Option<usize>,
}

/// The headline of the usage printed when the command line does not parse.
pub const ARGS_UNPARSED: &'static str = "Failed while parsing args";

/// The headline of the usage printed when a count does not parse.
pub const NUMBER_UNPARSED: &'static str = "failed to parse --seed argument to integer";

/// `a` is the usage under `headline`.
pub open spec fn is_help(a: Action, headline: Seq<char>) -> bool {
    a is Help && a->Help_0@ == headline
}

/// `a` is what the command line `flags` asks for (`None`: it does not
/// parse). Help comes first, then seeding, then purging; with none of them,
/// the bot runs.
pub open spec fn is_action_for(flags: Option<ArgFlags>, a: Action) -> bool {
    match flags {
        None => is_help(a, ARGS_UNPARSED@),
        Some(f) => if f.help {
            is_help(a, Seq::empty())
        } else if f.seed {
            match f.seed_limit {
                Some(n) => a == Action::SeedDatabase { limit: n },
                None => is_help(a, NUMBER_UNPARSED@),
            }
        } else if f.purge {
            match f.start_at_id {
                Some(id) => a == Action::PurgeLinks { dry_run: f.dry_run, start_at_id: id },
                None => is_help(a, NUMBER_UNPARSED@),
            }
        } else {
            a is RunBot
        },
    }
}

/// The action that a command line asks for.
pub fn parse_args(flags: Option<ArgFlags>) -> (r: Action)
    ensures
        is_action_for(flags, r),
{
    match flags {
        None => Action::Help(ARGS_UNPARSED.to_owned()),
        Some(f) => {
            if f.help {
                Action::Help(String::new())
            } else if f.seed {
                match f.seed_limit {
                    Some(n) => Action::SeedDatabase { limit: n },
                    None => Action::Help(NUMBER_UNPARSED.to_owned()),
                }
            } else if f.purge {
                match f.start_at_id {
                    Some(id) => Action::PurgeLinks { dry_run: f.dry_run, start_at_id: id },
                    None => Action::Help(NUMBER_UNPARSED.to_owned()),
                }
            } else {
                Action::RunBot
            }
        },
    }
}

} // verus!
