//! What the two workflows share: the configuration they run under, the
//! outcome they report, and their fixed polling parameters.

use vstd::prelude::*;

verus! {

/// Failed instance reads tolerated while waiting for an address.
pub const MAX_RETRIES: u32 = 5;

/// Pause before each read of a polling loop, in seconds.
pub const POLL_INTERVAL_SECS: u64 = 20;

/// The failure reported when the caller stops a polling wait.
pub open spec fn msg_cancelled() -> Seq<char> {
    "cancelled"@
}

/// The text outcome of a workflow, shown to whoever asked for it.
pub enum ActionResponse {
    SUCCESS(String),
    FAIL(String),
}

/// Model of [`ActionResponse`].
pub enum Outcome {
    Success(Seq<char>),
    Failure(Seq<char>),
}

impl View for ActionResponse {
    type V = Outcome;

    open spec fn view(&self) -> Outcome {
        match self {
            ActionResponse::SUCCESS(m) => Outcome::Success(m@),
            ActionResponse::FAIL(m) => Outcome::Failure(m@),
        }
    }
}

impl ActionResponse {
    pub fn is_success(&self) -> (r: bool)
        ensures
            r == (self@ is Success),
    {
        match self {
            ActionResponse::SUCCESS(_) => true,
            ActionResponse::FAIL(_) => false,
        }
    }

    /// The message to show.
    pub fn message(&self) -> (r: &String)
        ensures
            r@ == (match self@ {
                Outcome::Success(m) => m,
                Outcome::Failure(m) => m,
            }),
    {
        match self {
            ActionResponse::SUCCESS(m) => m,
            ActionResponse::FAIL(m) => m,
        }
    }
}

/// Settings read once at startup and never changed afterwards.
pub struct Config {
    /// Name of the managed instance.
    pub droplet_name: String,
    pub region: String,
    pub size: String,
    /// Name of the snapshot the instance boots from and is saved to.
    pub snapshot_name: String,
    /// SSH key fingerprints, separated by commas.
    pub ssh_fingerprints: String,
}

/// The chat commands the bot answers.
#[derive(Clone, Copy, PartialEq, Eq, Structural)]
pub enum BotCommand {
    /// `!create`: provision the server.
    Create,
    /// `!destroy`: save and tear down the server.
    Destroy,
    /// `!cancel`: stop the running workflow's polling wait.
    Cancel,
}

/// Reads a chat message as a command: exactly `!create`, `!destroy` or
/// `!cancel`.
pub fn parse_command(content: &str) -> (r: Option<BotCommand>)
    ensures
        r == (if content@ == "!create"@ {
            Some(BotCommand::Create)
        } else if content@ == "!destroy"@ {
            Some(BotCommand::Destroy)
        } else if content@ == "!cancel"@ {
            Some(BotCommand::Cancel)
        } else {
            None
        }),
{
    let text = String::from_str(content);
    if text == String::from_str("!create") {
        Some(BotCommand::Create)
    } else if text == String::from_str("!destroy") {
        Some(BotCommand::Destroy)
    } else if text == String::from_str("!cancel") {
        Some(BotCommand::Cancel)
    } else {
        None
    }
}

pub open spec fn acknowledgement_of(c: BotCommand) -> Seq<char> {
    match c {
        BotCommand::Create => "Creating server...\nThis process might take a few minutes."@,
        BotCommand::Destroy => "Destroying server...\nThis process might take a few minutes."@,
        BotCommand::Cancel => "Cancelling..."@,
    }
}

/// The message sent as soon as a command is received.
pub fn acknowledgement(c: BotCommand) -> (r: String)
    ensures
        r@ == acknowledgement_of(c),
{
    match c {
        BotCommand::Create => String::from_str(
            "Creating server...\nThis process might take a few minutes.",
        ),
        BotCommand::Destroy => String::from_str(
            "Destroying server...\nThis process might take a few minutes.",
        ),
        BotCommand::Cancel => String::from_str("Cancelling..."),
    }
}

} // verus!
