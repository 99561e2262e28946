use vstd::prelude::*;
use vstd::string::*;

use crate::text::has_sub;

pub mod alarm;
pub mod dice;
pub mod help;
pub mod joke;
pub mod test;
pub mod weather;

use alarm::AlarmCommand;
use dice::DiceCommand;
use help::HelpCommand;
use joke::JokeCommand;
use test::TestCommand;
use weather::WeatherCommand;

verus! {

/// Something a handler asks the surroundings to do on its behalf.
#[derive(Debug)]
pub enum Effect {
    /// Speak this text.
    Say(String),
    /// Fetch `url` from the weather service and report on `place`.
    FetchWeather { url: String, place: String },
    /// Fetch a joke from `url`.
    FetchJoke { url: String },
    /// After `millis` milliseconds, say that the timer has run out.
    StartTimer { millis: u64 },
}

/// The mathematical content of an `Effect`.
pub enum EffectView {
    Say(Seq<char>),
    FetchWeather(Seq<char>, Seq<char>),
    FetchJoke(Seq<char>),
    StartTimer(u64),
}

impl View for Effect {
    type V = EffectView;

    open spec fn view(&self) -> EffectView {
        match self {
            Effect::Say(s) => EffectView::Say(s@),
            Effect::FetchWeather { url, place } => EffectView::FetchWeather(url@, place@),
            Effect::FetchJoke { url } => EffectView::FetchJoke(url@),
            Effect::StartTimer { millis } => EffectView::StartTimer(*millis),
        }
    }
}

/// The views of a list of effects.
pub open spec fn effect_views(s: Seq<Effect>) -> Seq<EffectView> {
    s.map_values(|e: Effect| e@)
}

/// What a handler's effect left in the outbox after what was there before.
pub open spec fn emitted(before: Seq<Effect>, after: Seq<Effect>) -> Seq<EffectView> {
    effect_views(after.skip(before.len() as int))
}

/// How a request to a web service ended.
#[derive(Debug)]
pub enum FetchOutcome {
    /// The service answered with this body.
    Body(String),
    /// No connection could be made.
    Unreachable,
    /// The service answered with an unsuccessful status.
    BadStatus,
    /// The answer's body could not be read.
    Unreadable,
}

/// Whether a command needs another utterance.
#[derive(PartialEq, Eq, Structural, Clone, Copy, Debug)]
pub enum CommandResult {
    Done,
    Continue,
}

/// Whether the dispatched utterance leaves a handler waiting for more.
#[derive(PartialEq, Eq, Structural, Clone, Copy, Debug)]
pub enum DispatchResult {
    Done,
    Continue,
}

pub open spec fn as_command(r: DispatchResult) -> CommandResult {
    match r {
        DispatchResult::Done => CommandResult::Done,
        DispatchResult::Continue => CommandResult::Continue,
    }
}

impl CommandResult {
    /// The same outcome as a dispatch result.
    pub fn to_dispatch(&self) -> (r: DispatchResult)
        ensures
            as_command(r) == *self,
    {
        match self {
            CommandResult::Done => DispatchResult::Done,
            CommandResult::Continue => DispatchResult::Continue,
        }
    }
}

/// A voice command: its identity, a predicate on what was heard, and an
/// effect that runs on a heard utterance.
pub trait Command: Sized {
    spec fn title(&self) -> Seq<char>;

    spec fn description(&self) -> Seq<char>;

    spec fn help_text(&self) -> Seq<char>;

    spec fn online(&self) -> bool;

    spec fn recognizes(&self, text: Seq<char>) -> bool;

    /// Running the effect on `text` may leave the command as `after`, having
    /// emitted `out` and returned `r`.
    spec fn effect_ok(&self, text: Seq<char>, after: Self, out: Seq<EffectView>, r: CommandResult) -> bool;

    fn name(&self) -> (r: String)
        ensures
            r@ == self.title(),
    ;

    fn desc(&self) -> (r: String)
        ensures
            r@ == self.description(),
    ;

    fn help(&self) -> (r: String)
        ensures
            r@ == self.help_text(),
    ;

    fn uses_internet(&self) -> (r: bool)
        ensures
            r == self.online(),
    ;

    fn recognize(&self, text: String) -> (r: bool)
        ensures
            r == self.recognizes(text@),
    ;

    fn effect(&mut self, text: String, out: &mut Vec<Effect>) -> (r: CommandResult)
        ensures
            final(out)@.len() >= old(out)@.len(),
            final(out)@.take(old(out)@.len() as int) == old(out)@,
            old(self).effect_ok(text@, *final(self), emitted(old(out)@, final(out)@), r),
    ;
}

/// One of the commands that the assistant knows.
pub enum Handler {
    Help(HelpCommand),
    Test(TestCommand),
    Weather(WeatherCommand),
    Joke(JokeCommand),
    Dice(DiceCommand),
    Alarm(AlarmCommand),
}

impl Command for Handler {
    open spec fn title(&self) -> Seq<char> {
        match self {
            Handler::Help(c) => c.title(),
            Handler::Test(c) => c.title(),
            Handler::Weather(c) => c.title(),
            Handler::Joke(c) => c.title(),
            Handler::Dice(c) => c.title(),
            Handler::Alarm(c) => c.title(),
        }
    }

    open spec fn description(&self) -> Seq<char> {
        match self {
            Handler::Help(c) => c.description(),
            Handler::Test(c) => c.description(),
            Handler::Weather(c) => c.description(),
            Handler::Joke(c) => c.description(),
            Handler::Dice(c) => c.description(),
            Handler::Alarm(c) => c.description(),
        }
    }

    open spec fn help_text(&self) -> Seq<char> {
        match self {
            Handler::Help(c) => c.help_text(),
            Handler::Test(c) => c.help_text(),
            Handler::Weather(c) => c.help_text(),
            Handler::Joke(c) => c.help_text(),
            Handler::Dice(c) => c.help_text(),
            Handler::Alarm(c) => c.help_text(),
        }
    }

    open spec fn online(&self) -> bool {
        match self {
            Handler::Help(c) => c.online(),
            Handler::Test(c) => c.online(),
            Handler::Weather(c) => c.online(),
            Handler::Joke(c) => c.online(),
            Handler::Dice(c) => c.online(),
            Handler::Alarm(c) => c.online(),
        }
    }

    open spec fn recognizes(&self, text: Seq<char>) -> bool {
        match self {
            Handler::Help(c) => c.recognizes(text),
            Handler::Test(c) => c.recognizes(text),
            Handler::Weather(c) => c.recognizes(text),
            Handler::Joke(c) => c.recognizes(text),
            Handler::Dice(c) => c.recognizes(text),
            Handler::Alarm(c) => c.recognizes(text),
        }
    }

    open spec fn effect_ok(&self, text: Seq<char>, after: Self, out: Seq<EffectView>, r: CommandResult) -> bool {
        match (self, after) {
            (Handler::Help(c), Handler::Help(d)) => c.effect_ok(text, d, out, r),
            (Handler::Test(c), Handler::Test(d)) => c.effect_ok(text, d, out, r),
            (Handler::Weather(c), Handler::Weather(d)) => c.effect_ok(text, d, out, r),
            (Handler::Joke(c), Handler::Joke(d)) => c.effect_ok(text, d, out, r),
            (Handler::Dice(c), Handler::Dice(d)) => c.effect_ok(text, d, out, r),
            (Handler::Alarm(c), Handler::Alarm(d)) => c.effect_ok(text, d, out, r),
            _ => false,
        }
    }

    fn name(&self) -> (r: String) {
        match self {
            Handler::Help(c) => c.name(),
            Handler::Test(c) => c.name(),
            Handler::Weather(c) => c.name(),
            Handler::Joke(c) => c.name(),
            Handler::Dice(c) => c.name(),
            Handler::Alarm(c) => c.name(),
        }
    }

    fn desc(&self) -> (r: String) {
        match self {
            Handler::Help(c) => c.desc(),
            Handler::Test(c) => c.desc(),
            Handler::Weather(c) => c.desc(),
            Handler::Joke(c) => c.desc(),
            Handler::Dice(c) => c.desc(),
            Handler::Alarm(c) => c.desc(),
        }
    }

    fn help(&self) -> (r: String) {
        match self {
            Handler::Help(c) => c.help(),
            Handler::Test(c) => c.help(),
            Handler::Weather(c) => c.help(),
            Handler::Joke(c) => c.help(),
            Handler::Dice(c) => c.help(),
            Handler::Alarm(c) => c.help(),
        }
    }

    fn uses_internet(&self) -> (r: bool) {
        match self {
            Handler::Help(c) => c.uses_internet(),
            Handler::Test(c) => c.uses_internet(),
            Handler::Weather(c) => c.uses_internet(),
            Handler::Joke(c) => c.uses_internet(),
            Handler::Dice(c) => c.uses_internet(),
            Handler::Alarm(c) => c.uses_internet(),
        }
    }

    fn recognize(&self, text: String) -> (r: bool) {
        match self {
            Handler::Help(c) => c.recognize(text),
            Handler::Test(c) => c.recognize(text),
            Handler::Weather(c) => c.recognize(text),
            Handler::Joke(c) => c.recognize(text),
            Handler::Dice(c) => c.recognize(text),
            Handler::Alarm(c) => c.recognize(text),
        }
    }

    fn effect(&mut self, text: String, out: &mut Vec<Effect>) -> (r: CommandResult) {
        match self {
            Handler::Help(c) => c.effect(text, out),
            Handler::Test(c) => c.effect(text, out),
            Handler::Weather(c) => c.effect(text, out),
            Handler::Joke(c) => c.effect(text, out),
            Handler::Dice(c) => c.effect(text, out),
            Handler::Alarm(c) => c.effect(text, out),
        }
    }
}

/// The index of the first handler at or after `i` whose predicate accepts `text`.
pub open spec fn first_recognizer(hs: Seq<Handler>, text: Seq<char>, i: int) -> Option<int>
    decreases hs.len() - i,
{
    if i < 0 || i >= hs.len() {
        None
    } else if hs[i].recognizes(text) {
        Some(i)
    } else {
        first_recognizer(hs, text, i + 1)
    }
}

/// What the engine says when no handler wants an utterance.
pub open spec fn retry_prompt() -> Seq<char> {
    "I'm not sure what you're asking for. Please try again."@
}

/// The handler at `i` of `before` ran on `text`: only it changed, the focus
/// follows its result, and `r` is that result.
pub open spec fn ran(
    before: CommandDirector,
    i: int,
    text: Seq<char>,
    after: CommandDirector,
    out: Seq<EffectView>,
    r: DispatchResult,
) -> bool {
    &&& 0 <= i < before.handlers().len()
    &&& before.handlers()[i].effect_ok(text, after.handlers()[i], out, as_command(r))
    &&& after.handlers() == before.handlers().update(i, after.handlers()[i])
    &&& after.focus() == (if r == DispatchResult::Continue { Some(i) } else { None })
}

/// One dispatch of `text`: the focused handler runs if there is one, else the
/// first handler whose predicate accepts `text`, else a retry prompt is spoken.
pub open spec fn dispatched(
    before: CommandDirector,
    text: Seq<char>,
    after: CommandDirector,
    out: Seq<EffectView>,
    r: DispatchResult,
) -> bool {
    match before.focus() {
        Some(i) => ran(before, i, text, after, out, r),
        None => match first_recognizer(before.handlers(), text, 0) {
            Some(i) => ran(before, i, text, after, out, r),
            None => {
                &&& after.handlers() == before.handlers()
                &&& after.focus() is None
                &&& out == seq![EffectView::Say(retry_prompt())]
                &&& r == DispatchResult::Done
            },
        },
    }
}

/// The ordered list of handlers and the one, if any, that owns the next turn.
pub struct CommandDirector {
    commands: Vec<Handler>,
    next_comm: Option<usize>,
}

impl CommandDirector {
    pub closed spec fn handlers(&self) -> Seq<Handler> {
        self.commands@
    }

    pub closed spec fn focus(&self) -> Option<int> {
        match self.next_comm {
            Some(i) => Some(i as int),
            None => None,
        }
    }

    pub open spec fn wf(&self) -> bool {
        self.focus() matches Some(i) ==> 0 <= i < self.handlers().len()
    }

    /// The assistant's handlers: help first, then the test and weather
    /// commands. Help is built last so that it knows the others.
    pub fn new() -> (r: CommandDirector)
        ensures
            r.wf(),
            r.focus() is None,
            r.handlers().len() == 3,
            r.handlers()[0] is Help,
            r.handlers()[1] is Test,
            r.handlers()[2] is Weather,
            r.handlers()[0]->Help_0.stage() == help::HelpState::AskForCommand,
            r.handlers()[0]->Help_0.entries() == seq![
                help::entry_of(r.handlers()[1]),
                help::entry_of(r.handlers()[2]),
            ],
            r.handlers()[2]->Weather_0.default_place() == "Drums"@,
    {
        let mut commands: Vec<Handler> = Vec::new();
        commands.push(Handler::Test(TestCommand {}));
        commands.push(Handler::Weather(WeatherCommand::new(String::from_str("Drums"))));
        let help = HelpCommand::new(&commands);
        commands.insert(0, Handler::Help(help));
        CommandDirector { commands, next_comm: None }
    }

    /// Hands `text` to the handler that owns this turn, appending what it
    /// emits to `out`.
    pub fn dispatch_command(&mut self, text: String, out: &mut Vec<Effect>) -> (r: DispatchResult)
        requires
            old(self).wf(),
        ensures
            final(self).wf(),
            final(out)@.len() >= old(out)@.len(),
            final(out)@.take(old(out)@.len() as int) == old(out)@,
            dispatched(*old(self), text@, *final(self), emitted(old(out)@, final(out)@), r),
    {
        if let Some(i) = self.next_comm {
            let result = self.commands[i].effect(text, out);
            match result {
                CommandResult::Done => {
                    self.next_comm = None;
                    return DispatchResult::Done;
                },
                CommandResult::Continue => {
                    return DispatchResult::Continue;
                },
            }
        }
        let mut index: usize = 0;
        while index < self.commands.len()
            invariant
                self.next_comm is None,
                *self == *old(self),
                *out == *old(out),
                index <= self.commands@.len(),
                first_recognizer(self.commands@, text@, 0) == first_recognizer(self.commands@, text@, index as int),
            decreases self.commands@.len() - index,
        {
            if self.commands[index].recognize(text.clone()) {
                let result = self.commands[index].effect(text, out);
                match result {
                    CommandResult::Done => {
                        return DispatchResult::Done;
                    },
                    CommandResult::Continue => {
                        self.next_comm = Some(index);
                        return DispatchResult::Continue;
                    },
                }
            }
            index = index + 1;
        }
        let old_out = Ghost(out@);
        out.push(Effect::Say(String::from_str("I'm not sure what you're asking for. Please try again.")));
        assert(emitted(old_out@, out@) =~= seq![EffectView::Say(retry_prompt())]);
        assert(out@.take(old_out@.len() as int) =~= old_out@);
        DispatchResult::Done
    }
}

proof fn lemma_no_recognizer(hs: Seq<Handler>, text: Seq<char>, i: int)
    requires
        0 <= i <= hs.len(),
        forall|j: int| 0 <= j < hs.len() ==> !(#[trigger] hs[j].recognizes(text)),
    ensures
        first_recognizer(hs, text, i) is None,
    decreases hs.len() - i,
{
    if i < hs.len() {
        lemma_no_recognizer(hs, text, i + 1);
    }
}

/// With help, test and weather registered in that order and no handler
/// holding the turn, an utterance that names the test command but does not
/// ask for help runs the test command alone: nothing else changes, its reply
/// is the only thing said, and no handler holds the next turn.
pub proof fn lemma_test_utterance_runs_test(
    d: CommandDirector,
    text: Seq<char>,
    after: CommandDirector,
    out: Seq<EffectView>,
    r: DispatchResult,
)
    requires
        d.focus() is None,
        d.handlers().len() == 3,
        d.handlers()[0] is Help,
        d.handlers()[1] is Test,
        d.handlers()[2] is Weather,
        has_sub(text, "test command"@),
        !has_sub(text, "help"@),
        dispatched(d, text, after, out, r),
    ensures
        after.handlers() == d.handlers(),
        after.focus() is None,
        out == seq![EffectView::Say(test::test_reply(text))],
        r == DispatchResult::Done,
{
    let hs = d.handlers();
    assert(!hs[0].recognizes(text));
    assert(hs[1].recognizes(text));
    assert(first_recognizer(hs, text, 1) == Some(1int));
    assert(first_recognizer(hs, text, 0) == Some(1int));
    assert(after.handlers()[1] == hs[1]);
    assert(after.handlers() =~= hs);
}

/// A handler that answers `Continue` owns the next turn: whatever is said
/// next goes to that same handler, without any predicate being consulted.
pub proof fn lemma_continue_routes_next_turn(
    d0: CommandDirector,
    t1: Seq<char>,
    d1: CommandDirector,
    out1: Seq<EffectView>,
    t2: Seq<char>,
    d2: CommandDirector,
    out2: Seq<EffectView>,
    r2: DispatchResult,
)
    requires
        dispatched(d0, t1, d1, out1, DispatchResult::Continue),
        dispatched(d1, t2, d2, out2, r2),
    ensures
        d1.focus() is Some,
        ran(d0, d1.focus().unwrap(), t1, d1, out1, DispatchResult::Continue),
        ran(d1, d1.focus().unwrap(), t2, d2, out2, r2),
{
}

/// With no handler holding the turn, an utterance that no predicate accepts
/// changes no handler, leaves the turn free, and makes the engine say the
/// retry prompt, once.
pub proof fn lemma_unmatched_utterance_prompts(
    d: CommandDirector,
    text: Seq<char>,
    after: CommandDirector,
    out: Seq<EffectView>,
    r: DispatchResult,
)
    requires
        d.focus() is None,
        forall|j: int| 0 <= j < d.handlers().len() ==> !(#[trigger] d.handlers()[j].recognizes(text)),
        dispatched(d, text, after, out, r),
    ensures
        after.handlers() == d.handlers(),
        after.focus() is None,
        out == seq![EffectView::Say(retry_prompt())],
        r == DispatchResult::Done,
{
    lemma_no_recognizer(d.handlers(), text, 0);
}

} // verus!
