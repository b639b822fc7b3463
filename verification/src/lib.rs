//! A pomodoro timer: the timer's state machine, the command line's
//! decisions, and the texts the program shows, with their contracts.

pub mod cli;
pub mod clock;
pub mod cmd;
pub mod command;
pub mod config;
pub mod db;
pub mod grpc;
pub mod history;
pub mod notification;
pub mod state;
pub mod text;

use vstd::prelude::*;

use crate::cli::{
    all_digits, digits_value, is_ascii_digit, is_ascii_graphic, planned, with_unit,
    within_humantime_range, Action, Cli, CliError, Commands, HUMANTIME_WEIGHT_LIMIT,
};
use crate::config::Config;

verus! {

/// What the program does when started with the home directory `home` and
/// the command line `cli`: the configuration of its files, and the action
/// for the command, or why the command cannot be carried out, exactly as
/// `cli::run` decides.
pub fn run(home: &str, debug_mode: bool, cli: &Cli) -> (r: (Config, Result<Action, CliError>))
    ensures
        r.0.matches_spec(home@, debug_mode),
        r.1 is Ok <==> planned(cli.command.unwrap_or(Commands::Status)) is Some,
        r.1 matches Ok(a) ==> planned(cli.command.unwrap_or(Commands::Status)) == Some(a),
        r.1 matches Ok(Action::StartTimer { nanos, .. }) ==> nanos < 1_000_000_000,
        r.1 matches Err(CliError::DurationTooLarge) <==> (cli.command matches Some(
            Commands::New { duration },
        ) && !within_humantime_range(with_unit(duration@))),
        cli.command matches Some(Commands::New { duration }) ==> (
            duration@.len() > 0 && all_digits(duration@) && (digits_value(duration@) + 1) * 2630016
                + 1 <= HUMANTIME_WEIGHT_LIMIT
            ==> r.1 == Ok::<Action, CliError>(Action::StartTimer {
                secs: (digits_value(duration@) * 60) as u64,
                nanos: 0,
            })),
        cli.command matches Some(Commands::New { duration }) ==> (
            duration@.len() == 0 || (is_ascii_graphic(duration@[0]) && !is_ascii_digit(duration@[0]))
            ==> r.1 is Err),
{
    let config = Config::for_home(home, debug_mode);
    let action = cli::run(cli);
    (config, action)
}

} // verus!
