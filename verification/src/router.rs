//! Classification of inbound updates.
//!
//! Every update takes exactly one of three paths, decided in priority
//! order: a text that parses as a command goes to the command handler,
//! whatever the message's structural kind; otherwise a service-kind
//! message goes to the deleter; everything else is dropped without any
//! outbound call.

use vstd::prelude::*;

use crate::command::Command;
use crate::command::parse_command;
use crate::command::parse_command_spec;
use crate::update::Update;
use crate::update::UpdateView;
use crate::update::is_service_kind;
use crate::update::is_service_message;

verus! {

/// The one path an update takes.
#[derive(Clone, Copy, Debug, PartialEq, Eq, Structural)]
pub enum Route {
    /// Hand the parsed command to the command handler.
    Command(Command),
    /// Hand the message to the service-message deleter.
    Delete,
    /// Drop the update: no handler, no outbound call.
    Ignore,
}

/// Whether the update's text parses as a command addressed to this
/// bot.
pub open spec fn is_command_update(u: UpdateView, username: Seq<char>) -> bool {
    match u.text {
        Option::Some(t) => parse_command_spec(t, username) is Some,
        Option::None => false,
    }
}

/// The path an update takes: command first, then service-message
/// deletion, then silence.
pub open spec fn route_spec(u: UpdateView, username: Seq<char>) -> Route {
    match u.text {
        Option::Some(t) => match parse_command_spec(t, username) {
            Option::Some(c) => Route::Command(c),
            Option::None => {
                if is_service_kind(u.tag) {
                    Route::Delete
                } else {
                    Route::Ignore
                }
            },
        },
        Option::None => {
            if is_service_kind(u.tag) {
                Route::Delete
            } else {
                Route::Ignore
            }
        },
    }
}

/// Classify one update.
pub fn route(u: &Update, bot_username: &str) -> (r: Route)
    ensures
        r == route_spec(u@, bot_username@),
{
    let cmd = match &u.text {
        Option::Some(t) => parse_command(t.as_str(), bot_username),
        Option::None => Option::None,
    };
    match cmd {
        Option::Some(c) => Route::Command(c),
        Option::None => {
            if is_service_message(&u.tag) {
                Route::Delete
            } else {
                Route::Ignore
            }
        },
    }
}

} // verus!
