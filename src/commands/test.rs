use vstd::prelude::*;
use vstd::string::*;

use crate::commands::{emitted, Command, CommandResult, Effect, EffectView};
use crate::text::{has_sub, str_contains};

verus! {

/// A command that only echoes what was heard, to check that dispatch works.
pub struct TestCommand {}

/// What the test command says back for `text`.
pub open spec fn test_reply(text: Seq<char>) -> Seq<char> {
    "Test Command recognized. What you said was: "@ + text
}

impl Command for TestCommand {
    open spec fn title(&self) -> Seq<char> {
        "Test Command"@
    }

    open spec fn description(&self) -> Seq<char> {
        "This command is purely to test if commands work. It doesn't do anything productive."@
    }

    open spec fn help_text(&self) -> Seq<char> {
        "Simply say a phrase containing the words \"Test Command\" and you will get a response."@
    }

    open spec fn online(&self) -> bool {
        false
    }

    open spec fn recognizes(&self, text: Seq<char>) -> bool {
        has_sub(text, "test command"@)
    }

    open spec fn effect_ok(&self, text: Seq<char>, after: Self, out: Seq<EffectView>, r: CommandResult) -> bool {
        &&& after == *self
        &&& out == seq![EffectView::Say(test_reply(text))]
        &&& r == CommandResult::Done
    }

    fn name(&self) -> (r: String) {
        String::from_str("Test Command")
    }

    fn desc(&self) -> (r: String) {
        String::from_str("This command is purely to test if commands work. It doesn't do anything productive.")
    }

    fn help(&self) -> (r: String) {
        String::from_str("Simply say a phrase containing the words \"Test Command\" and you will get a response.")
    }

    fn uses_internet(&self) -> (r: bool) {
        false
    }

    fn recognize(&self, text: String) -> (r: bool) {
        str_contains(text.as_str(), "test command")
    }

    fn effect(&mut self, text: String, out: &mut Vec<Effect>) -> (r: CommandResult) {
        let ghost before = out@;
        let reply = String::from_str("Test Command recognized. What you said was: ").concat(text.as_str());
        out.push(Effect::Say(reply));
        assert(emitted(before, out@) =~= seq![EffectView::Say(test_reply(text@))]);
        assert(out@.take(before.len() as int) =~= before);
        CommandResult::Done
    }
}

} // verus!
