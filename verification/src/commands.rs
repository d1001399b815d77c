use vstd::prelude::*;
use crate::text::same_text;

verus! {

/// The slash commands the bot answers.
#[derive(Clone, Copy, Debug, PartialEq, Eq, Structural)]
pub enum BotCommand {
    Grow,
    Top,
    Global,
    Pvp,
    Stats,
    DickOfTheDay,
    Help,
    Gift,
    Viagra,
    Prestige,
    /// Any other name: answered as not implemented.
    NotImplemented,
}

/// The command a slash-command name selects.
pub open spec fn spec_route_command(name: Seq<char>) -> BotCommand {
    if name == "grow"@ {
        BotCommand::Grow
    } else if name == "top"@ {
        BotCommand::Top
    } else if name == "global"@ {
        BotCommand::Global
    } else if name == "pvp"@ {
        BotCommand::Pvp
    } else if name == "stats"@ {
        BotCommand::Stats
    } else if name == "dickoftheday"@ {
        BotCommand::DickOfTheDay
    } else if name == "help"@ {
        BotCommand::Help
    } else if name == "gift"@ {
        BotCommand::Gift
    } else if name == "viagra"@ {
        BotCommand::Viagra
    } else if name == "prestige"@ {
        BotCommand::Prestige
    } else {
        BotCommand::NotImplemented
    }
}

/// Selects the handler of a slash command by its name.
pub fn route_command(name: &str) -> (r: BotCommand)
    ensures
        r == spec_route_command(name@),
{
    if same_text(name, "grow") {
        BotCommand::Grow
    } else if same_text(name, "top") {
        BotCommand::Top
    } else if same_text(name, "global") {
        BotCommand::Global
    } else if same_text(name, "pvp") {
        BotCommand::Pvp
    } else if same_text(name, "stats") {
        BotCommand::Stats
    } else if same_text(name, "dickoftheday") {
        BotCommand::DickOfTheDay
    } else if same_text(name, "help") {
        BotCommand::Help
    } else if same_text(name, "gift") {
        BotCommand::Gift
    } else if same_text(name, "viagra") {
        BotCommand::Viagra
    } else if same_text(name, "prestige") {
        BotCommand::Prestige
    } else {
        BotCommand::NotImplemented
    }
}

} // verus!
