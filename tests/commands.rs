use zinnia::commands::alarm::{timer_duration, AlarmCommand};
use zinnia::commands::dice::{describe_rolls, dice_request, read_number, DiceCommand};
use zinnia::commands::help::HelpCommand;
use zinnia::commands::joke::{joke_report, JokeCommand};
use zinnia::commands::test::TestCommand;
use zinnia::commands::weather::{describe_weather, weather_report, WeatherCommand};
use zinnia::commands::{Command, CommandDirector, CommandResult, DispatchResult, Effect, FetchOutcome, Handler};
use zinnia::text::{join, parse_u64};

fn said(effects: &[Effect]) -> Vec<String> {
    effects
        .iter()
        .map(|e| match e {
            Effect::Say(s) => s.clone(),
            other => panic!("unexpected effect {:?}", other),
        })
        .collect()
}

const RETRY: &str = "I'm not sure what you're asking for. Please try again.";
const ASK: &str = "Which command would you like help with?";

#[test]
fn test_utterance_runs_only_test_command() {
    let mut director = CommandDirector::new();
    let mut out = Vec::new();
    let r = director.dispatch_command(String::from("run the test command"), &mut out);
    assert_eq!(r, DispatchResult::Done);
    assert_eq!(said(&out), vec![String::from("Test Command recognized. What you said was: run the test command")]);
    // focus is unset: a weather request goes to the weather handler
    let mut next = Vec::new();
    director.dispatch_command(String::from("weather in oslo"), &mut next);
    assert!(matches!(&next[0], Effect::FetchWeather { place, .. } if place == "oslo"));
}

#[test]
fn continue_routes_next_utterance_to_same_handler() {
    let mut director = CommandDirector::new();
    let mut out = Vec::new();
    assert_eq!(director.dispatch_command(String::from("help"), &mut out), DispatchResult::Continue);
    assert_eq!(said(&out), vec![String::from(ASK)]);
    let mut out2 = Vec::new();
    // "weather" would match the weather handler, but help holds the turn
    assert_eq!(director.dispatch_command(String::from("weather"), &mut out2), DispatchResult::Done);
    assert_eq!(
        said(&out2),
        vec![String::from(
            "Mention the weather and a location to recieve weather data about that location. Make sure to precede the location with the word \"in\". This command does require the internet."
        )]
    );
}

#[test]
fn unmatched_utterance_prompts_retry() {
    let mut director = CommandDirector::new();
    let mut out = Vec::new();
    assert_eq!(director.dispatch_command(String::from("sing me a song"), &mut out), DispatchResult::Done);
    assert_eq!(said(&out), vec![String::from(RETRY)]);
    let mut out2 = Vec::new();
    assert_eq!(director.dispatch_command(String::from("nothing here"), &mut out2), DispatchResult::Done);
    assert_eq!(said(&out2), vec![String::from(RETRY)]);
}

#[test]
fn dispatch_appends_after_existing_effects() {
    let mut director = CommandDirector::new();
    let mut out = vec![Effect::Say(String::from("earlier"))];
    director.dispatch_command(String::from("test command"), &mut out);
    assert_eq!(out.len(), 2);
    assert_eq!(said(&out)[0], "earlier");
}

#[test]
fn help_names_unknown_command() {
    let mut help = HelpCommand::new(&vec![Handler::Test(TestCommand {})]);
    let mut out = Vec::new();
    assert_eq!(help.effect(String::from("help"), &mut out), CommandResult::Continue);
    assert_eq!(help.effect(String::from("the kettle"), &mut out), CommandResult::Done);
    assert_eq!(
        said(&out),
        vec![String::from(ASK), String::from("I couldn't find a command named the kettle, please try again.")]
    );
    // back to asking
    assert_eq!(help.effect(String::from("help"), &mut out), CommandResult::Continue);
}

#[test]
fn help_matches_lowered_command_name() {
    let mut help = HelpCommand::new(&vec![Handler::Test(TestCommand {})]);
    let mut out = Vec::new();
    help.effect(String::from("help"), &mut out);
    help.effect(String::from("the test command please"), &mut out);
    assert_eq!(
        said(&out)[1],
        "Simply say a phrase containing the words \"Test Command\" and you will get a response. This command does not require the internet."
    );
}

#[test]
fn command_identities() {
    let weather = WeatherCommand::new(String::from("Drums"));
    assert_eq!(weather.name(), "Weather");
    assert!(weather.uses_internet());
    assert!(JokeCommand {}.uses_internet());
    assert!(!DiceCommand {}.uses_internet());
    assert_eq!(AlarmCommand {}.name(), "Alarm");
    assert_eq!(TestCommand {}.desc(), "This command is purely to test if commands work. It doesn't do anything productive.");
    assert_eq!(CommandResult::Continue.to_dispatch(), DispatchResult::Continue);
    assert_eq!(CommandResult::Done.to_dispatch(), DispatchResult::Done);
}

#[test]
fn predicates_check_substrings() {
    assert!(TestCommand {}.recognize(String::from("this is a test command")));
    assert!(!TestCommand {}.recognize(String::from("this is a test")));
    assert!(DiceCommand {}.recognize(String::from("roll 2 d 6")));
    assert!(DiceCommand {}.recognize(String::from("role one d twenty")));
    assert!(!DiceCommand {}.recognize(String::from("rolling")));
    assert!(AlarmCommand {}.recognize(String::from("set a timer")));
    assert!(JokeCommand {}.recognize(String::from("tell me a joke")));
}

#[test]
fn weather_place_and_url() {
    let mut weather = WeatherCommand::new(String::from("Drums"));
    assert_eq!(weather.place("what is the weather in new york"), "new+york");
    assert_eq!(weather.place("weather"), "Drums");
    assert_eq!(weather.place("weather in"), "Drums");
    assert_eq!(weather.place("weather in paris in france"), "paris+in");
    let mut out = Vec::new();
    assert_eq!(weather.effect(String::from("weather in rome"), &mut out), CommandResult::Done);
    match &out[0] {
        Effect::FetchWeather { url, place } => {
            assert_eq!(url, "http://wttr.in/rome?format=j1");
            assert_eq!(place, "rome");
        }
        other => panic!("unexpected effect {:?}", other),
    }
}

#[test]
fn weather_report_reads_conditions() {
    let body = String::from(
        "{\"current_condition\":[{\"weatherDesc\":[{\"value\":\"Sunny\"}],\"temp_F\":\"75\",\"FeelsLikeF\":\"77\"}]}",
    );
    assert_eq!(
        weather_report("Paris", FetchOutcome::Body(body)),
        "The weather in Paris is \"Sunny\". It is \"75\" degrees and feels like \"77\" degrees."
    );
    assert_eq!(
        describe_weather("Oslo", "Snow", "20", "10"),
        "The weather in Oslo is Snow. It is 20 degrees and feels like 10 degrees."
    );
}

#[test]
fn weather_report_failures() {
    assert_eq!(
        weather_report("x", FetchOutcome::Body(String::from("not json"))),
        "I had a problem understanding the weather service. Please try again later."
    );
    assert_eq!(
        weather_report("x", FetchOutcome::Unreachable),
        "I was unable to connect to the weather service. Please try again later."
    );
    assert_eq!(
        weather_report("x", FetchOutcome::BadStatus),
        "I didn't get a response from the weather service. Please try again later."
    );
    assert_eq!(
        weather_report("x", FetchOutcome::Unreadable),
        "I had a problem understanding the weather service. Please try again later."
    );
}

#[test]
fn joke_outcomes() {
    let mut out = Vec::new();
    assert_eq!(JokeCommand {}.effect(String::from("joke"), &mut out), CommandResult::Done);
    assert!(matches!(&out[0], Effect::FetchJoke { url } if url == "https://icanhazdadjoke.com"));
    assert_eq!(joke_report(FetchOutcome::Body(String::from("A pun."))), "A pun.");
    assert_eq!(
        joke_report(FetchOutcome::Unreachable),
        "I had a problem connecting to the joke service Please try again later."
    );
    assert_eq!(
        joke_report(FetchOutcome::BadStatus),
        "I didn't get a response from the joke service. Please try again later."
    );
}

#[test]
fn roll_two_six_sided_dice() {
    let mut dice = DiceCommand {};
    assert!(dice.recognize(String::from("roll 2 d 6")));
    let mut out = Vec::new();
    assert_eq!(dice.effect(String::from("roll 2 d 6"), &mut out), CommandResult::Done);
    let text = said(&out).remove(0);
    let rest = text.strip_prefix("I rolled: ").unwrap().strip_suffix(".").unwrap();
    let parts: Vec<&str> = rest.split(" and ").collect();
    assert_eq!(parts.len(), 2);
    for p in parts {
        let v: u32 = p.parse().unwrap();
        assert!((1..=6).contains(&v));
    }
}

#[test]
fn dice_requests() {
    assert_eq!(dice_request("roll 2 d 6"), Ok((2, 6)));
    assert_eq!(dice_request("roll two d six"), Ok((2, 6)));
    assert_eq!(dice_request("role 3 d 20"), Ok((3, 20)));
    assert_eq!(
        dice_request("roll 5"),
        Err(String::from("Make sure to say \"Roll\" followed by a type and number of dice in the number D number format."))
    );
    assert_eq!(
        dice_request("roll the dice"),
        Err(String::from("I couldn't make out the first number. Please try again."))
    );
    assert_eq!(
        dice_request("roll 2 d 0"),
        Err(String::from("I couldn't make out the second number. Please try again."))
    );
}

#[test]
fn roll_sentences() {
    assert_eq!(describe_rolls(&vec![]), "I rolled: ");
    assert_eq!(describe_rolls(&vec![4]), "I rolled: 4.");
    assert_eq!(describe_rolls(&vec![2, 5]), "I rolled: 2 and 5.");
    assert_eq!(describe_rolls(&vec![1, 6, 3]), "I rolled: 1, 6, and 3.");
    assert_eq!(describe_rolls(&vec![12, 20]), "I rolled: 12 and 20.");
}

#[test]
fn numbers_in_words_and_digits() {
    assert_eq!(read_number(" 2 "), Some(2));
    assert_eq!(read_number("six"), Some(6));
    assert_eq!(read_number("twenty one"), Some(21));
    assert_eq!(read_number("banana"), None);
    assert_eq!(parse_u64("0"), Some(0));
    assert_eq!(parse_u64("18446744073709551615"), Some(u64::MAX));
    assert_eq!(parse_u64("18446744073709551616"), None);
    assert_eq!(parse_u64(""), None);
    assert_eq!(parse_u64("12a"), None);
}

#[test]
fn join_words() {
    let words = vec![String::from("new"), String::from("york"), String::from("city")];
    assert_eq!(join(&words, "+"), "new+york+city");
    assert_eq!(join(&vec![], "+"), "");
}

#[test]
fn timer_durations() {
    assert_eq!(timer_duration("set a timer for 2 minutes and 30 seconds"), 150000);
    assert_eq!(timer_duration("set a timer for two minutes"), 120000);
    assert_eq!(timer_duration("timer for 1 hour"), 3600000);
    assert_eq!(timer_duration("timer"), 0);
    assert_eq!(timer_duration("timer 18446744073709551615 hours"), u64::MAX);
}

#[test]
fn timer_effect() {
    let mut alarm = AlarmCommand {};
    let mut out = Vec::new();
    assert_eq!(alarm.effect(String::from("set a timer for 5 seconds"), &mut out), CommandResult::Done);
    assert!(matches!(&out[0], Effect::Say(s) if s == "Timer set."));
    assert!(matches!(&out[1], Effect::StartTimer { millis: 5000 }));
    let mut none = Vec::new();
    alarm.effect(String::from("alarm at seven"), &mut none);
    assert!(none.is_empty());
}
