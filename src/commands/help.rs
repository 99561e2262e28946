use vstd::prelude::*;
use vstd::string::*;

use crate::commands::{emitted, Command, CommandResult, Effect, EffectView, Handler};
use crate::text::{ascii_lower, has_sub, str_ascii_lower, str_contains};

verus! {

/// What the help command is waiting for.
#[derive(PartialEq, Eq, Structural, Clone, Copy, Debug)]
pub enum HelpState {
    AskForCommand,
    GiveHelp,
}

/// What the help command knows of one other command.
pub struct HelpEntry {
    name: String,
    help: String,
    online: bool,
}

/// The help command's record for `h`: its lowered name, help text and
/// whether it needs the internet.
pub open spec fn entry_of(h: Handler) -> (Seq<char>, Seq<char>, bool) {
    (ascii_lower(h.title()), h.help_text(), h.online())
}

/// The first entry at or after `i` whose name occurs in `text`.
pub open spec fn first_entry(entries: Seq<(Seq<char>, Seq<char>, bool)>, text: Seq<char>, i: int) -> Option<int>
    decreases entries.len() - i,
{
    if i < 0 || i >= entries.len() {
        None
    } else if has_sub(text, entries[i].0) {
        Some(i)
    } else {
        first_entry(entries, text, i + 1)
    }
}

pub open spec fn ask_prompt() -> Seq<char> {
    "Which command would you like help with?"@
}

/// The answer to `text` once a command name was asked for.
pub open spec fn help_answer(entries: Seq<(Seq<char>, Seq<char>, bool)>, text: Seq<char>) -> Seq<char> {
    match first_entry(entries, text, 0) {
        Some(k) => entries[k].1 + " This command "@ + (if entries[k].2 {
            "does"@
        } else {
            "does not"@
        }) + " require the internet."@,
        None => "I couldn't find a command named "@ + text + ", please try again."@,
    }
}

/// A two-turn command: it asks which command the user wants help with, then
/// speaks that command's help text.
pub struct HelpCommand {
    list: Vec<HelpEntry>,
    state: HelpState,
}

impl HelpCommand {
    /// The records of the commands it can explain.
    pub closed spec fn entries(&self) -> Seq<(Seq<char>, Seq<char>, bool)> {
        self.list@.map_values(|e: HelpEntry| (e.name@, e.help@, e.online))
    }

    pub closed spec fn stage(&self) -> HelpState {
        self.state
    }

    /// A help command that knows `commands`, ready to ask which one is meant.
    pub fn new(commands: &Vec<Handler>) -> (r: HelpCommand)
        ensures
            r.stage() == HelpState::AskForCommand,
            r.entries() == commands@.map_values(|h: Handler| entry_of(h)),
    {
        let mut list: Vec<HelpEntry> = Vec::new();
        let mut i: usize = 0;
        while i < commands.len()
            invariant
                i <= commands@.len(),
                list@.map_values(|e: HelpEntry| (e.name@, e.help@, e.online))
                    =~= commands@.take(i as int).map_values(|h: Handler| entry_of(h)),
            decreases commands@.len() - i,
        {
            let name = commands[i].name();
            let lower = str_ascii_lower(name.as_str());
            let entry = HelpEntry { name: lower, help: commands[i].help(), online: commands[i].uses_internet() };
            let ghost before = list@;
            assert((entry.name@, entry.help@, entry.online) == entry_of(commands@[i as int]));
            list.push(entry);
            assert(list@ == before.push(entry));
            assert(list@.map_values(|e: HelpEntry| (e.name@, e.help@, e.online)) =~= before.map_values(
                |e: HelpEntry| (e.name@, e.help@, e.online),
            ).push(entry_of(commands@[i as int])));
            assert(commands@.take(i + 1) =~= commands@.take(i as int).push(commands@[i as int]));
            i = i + 1;
        }
        assert(commands@.take(commands@.len() as int) =~= commands@);
        HelpCommand { list, state: HelpState::AskForCommand }
    }

    /// Speaks the help for the first known command named in `text`.
    fn answer(&self, text: &str) -> (r: String)
        ensures
            r@ == help_answer(self.entries(), text@),
    {
        let mut k: usize = 0;
        while k < self.list.len()
            invariant
                k <= self.list@.len(),
                first_entry(self.entries(), text@, 0) == first_entry(self.entries(), text@, k as int),
            decreases self.list@.len() - k,
        {
            if str_contains(text, self.list[k].name.as_str()) {
                let does = if self.list[k].online {
                    "does"
                } else {
                    "does not"
                };
                return self.list[k].help.clone().concat(" This command ").concat(does).concat(" require the internet.");
            }
            k = k + 1;
        }
        String::from_str("I couldn't find a command named ").concat(text).concat(", please try again.")
    }
}

impl Command for HelpCommand {
    open spec fn title(&self) -> Seq<char> {
        "Help Command"@
    }

    open spec fn description(&self) -> Seq<char> {
        "This command gives help information for any of the available commands."@
    }

    open spec fn help_text(&self) -> Seq<char> {
        "Say \"Help\" and then supply the name of a command when prompted."@
    }

    open spec fn online(&self) -> bool {
        false
    }

    open spec fn recognizes(&self, text: Seq<char>) -> bool {
        has_sub(text, "help"@)
    }

    open spec fn effect_ok(&self, text: Seq<char>, after: Self, out: Seq<EffectView>, r: CommandResult) -> bool {
        &&& after.entries() == self.entries()
        &&& if self.stage() == HelpState::AskForCommand {
            &&& after.stage() == HelpState::GiveHelp
            &&& out == seq![EffectView::Say(ask_prompt())]
            &&& r == CommandResult::Continue
        } else {
            &&& after.stage() == HelpState::AskForCommand
            &&& out == seq![EffectView::Say(help_answer(self.entries(), text))]
            &&& r == CommandResult::Done
        }
    }

    fn name(&self) -> (r: String) {
        String::from_str("Help Command")
    }

    fn desc(&self) -> (r: String) {
        String::from_str("This command gives help information for any of the available commands.")
    }

    fn help(&self) -> (r: String) {
        String::from_str("Say \"Help\" and then supply the name of a command when prompted.")
    }

    fn uses_internet(&self) -> (r: bool) {
        false
    }

    fn recognize(&self, text: String) -> (r: bool) {
        str_contains(text.as_str(), "help")
    }

    fn effect(&mut self, text: String, out: &mut Vec<Effect>) -> (r: CommandResult) {
        let ghost before = out@;
        match self.state {
            HelpState::AskForCommand => {
                out.push(Effect::Say(String::from_str("Which command would you like help with?")));
                self.state = HelpState::GiveHelp;
                assert(emitted(before, out@) =~= seq![EffectView::Say(ask_prompt())]);
                assert(out@.take(before.len() as int) =~= before);
                CommandResult::Continue
            },
            HelpState::GiveHelp => {
                let reply = self.answer(text.as_str());
                out.push(Effect::Say(reply));
                self.state = HelpState::AskForCommand;
                assert(emitted(before, out@) =~= seq![EffectView::Say(help_answer(self.entries(), text@))]);
                assert(out@.take(before.len() as int) =~= before);
                CommandResult::Done
            },
        }
    }
}

} // verus!
