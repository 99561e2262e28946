use vstd::prelude::*;
use vstd::string::*;

use crate::commands::{emitted, Command, CommandResult, Effect, EffectView, FetchOutcome};
use crate::text::{has_sub, str_contains};

verus! {

/// Where jokes are fetched from.
pub open spec fn joke_url() -> Seq<char> {
    "https://icanhazdadjoke.com"@
}

/// What is said for the joke service's answer.
pub open spec fn joke_said(outcome: FetchOutcome) -> Seq<char> {
    match outcome {
        FetchOutcome::Body(b) => b@,
        FetchOutcome::Unreachable => "I had a problem connecting to the joke service Please try again later."@,
        FetchOutcome::BadStatus => "I didn't get a response from the joke service. Please try again later."@,
        FetchOutcome::Unreadable => "I had a problem understanding the joke service. Please try again later."@,
    }
}

/// The joke itself, or an apology for the way the joke service failed.
pub fn joke_report(outcome: FetchOutcome) -> (r: String)
    ensures
        r@ == joke_said(outcome),
{
    match outcome {
        FetchOutcome::Body(b) => b,
        FetchOutcome::Unreachable => String::from_str(
            "I had a problem connecting to the joke service Please try again later.",
        ),
        FetchOutcome::BadStatus => String::from_str(
            "I didn't get a response from the joke service. Please try again later.",
        ),
        FetchOutcome::Unreadable => String::from_str(
            "I had a problem understanding the joke service. Please try again later.",
        ),
    }
}

/// A command that tells a joke from an online service.
pub struct JokeCommand {}

impl Command for JokeCommand {
    open spec fn title(&self) -> Seq<char> {
        "Joke"@
    }

    open spec fn description(&self) -> Seq<char> {
        "This command will tell you a joke."@
    }

    open spec fn help_text(&self) -> Seq<char> {
        "Ask for a joke and you will recieve one."@
    }

    open spec fn online(&self) -> bool {
        true
    }

    open spec fn recognizes(&self, text: Seq<char>) -> bool {
        has_sub(text, "joke"@)
    }

    open spec fn effect_ok(&self, text: Seq<char>, after: Self, out: Seq<EffectView>, r: CommandResult) -> bool {
        &&& after == *self
        &&& out == seq![EffectView::FetchJoke(joke_url())]
        &&& r == CommandResult::Done
    }

    fn name(&self) -> (r: String) {
        String::from_str("Joke")
    }

    fn desc(&self) -> (r: String) {
        String::from_str("This command will tell you a joke.")
    }

    fn help(&self) -> (r: String) {
        String::from_str("Ask for a joke and you will recieve one.")
    }

    fn uses_internet(&self) -> (r: bool) {
        true
    }

    fn recognize(&self, text: String) -> (r: bool) {
        str_contains(text.as_str(), "joke")
    }

    fn effect(&mut self, text: String, out: &mut Vec<Effect>) -> (r: CommandResult) {
        let ghost before = out@;
        out.push(Effect::FetchJoke { url: String::from_str("https://icanhazdadjoke.com") });
        assert(emitted(before, out@) =~= seq![EffectView::FetchJoke(joke_url())]);
        assert(out@.take(before.len() as int) =~= before);
        CommandResult::Done
    }
}

} // verus!
