use vstd::prelude::*;
use vstd::string::*;

use crate::commands::{emitted, Command, CommandResult, Effect, EffectView, FetchOutcome};
use crate::text::{has_sub, joined, str_contains, str_words, string_views, whitespace_words};

verus! {

#[verifier::external_type_specification]
#[verifier::external_body]
pub struct ExJsonValue(json::JsonValue);

/// Whether `json::parse` accepts `s`.
pub uninterp spec fn json_accepts(s: Seq<char>) -> bool;

/// Relies on `json::parse`: the document that `s` holds, when it is valid JSON.
#[verifier::external_body]
fn json_parse(s: &str) -> (r: Option<json::JsonValue>)
    ensures
        r is Some == json_accepts(s@),
{
    match json::parse(s) {
        Ok(v) => Some(v),
        Err(_) => None,
    }
}

/// Relies on `JsonValue`'s indexing by key: the member named `key`, or null.
#[verifier::external_body]
fn json_member(v: &json::JsonValue, key: &str) -> json::JsonValue {
    v[key].clone()
}

/// Relies on `JsonValue`'s indexing by position: the element at `i`, or null.
#[verifier::external_body]
fn json_element(v: &json::JsonValue, i: usize) -> json::JsonValue {
    v[i].clone()
}

/// Relies on `JsonValue::dump`: the value written as JSON text.
#[verifier::external_body]
fn json_dump(v: &json::JsonValue) -> String {
    v.dump()
}

/// The position of the first word "in" at or after `i`.
pub open spec fn first_in(ws: Seq<Seq<char>>, i: int) -> Option<int>
    decreases ws.len() - i,
{
    if i < 0 || i >= ws.len() {
        None
    } else if ws[i] == "in"@ {
        Some(i)
    } else {
        first_in(ws, i + 1)
    }
}

/// The words naming a place: those after the first "in", up to and
/// including the next "in" if there is one.
pub open spec fn place_words(ws: Seq<Seq<char>>) -> Seq<Seq<char>> {
    match first_in(ws, 0) {
        Some(k) => match first_in(ws, k + 1) {
            Some(m) => ws.subrange(k + 1, m + 1),
            None => ws.subrange(k + 1, ws.len() as int),
        },
        None => Seq::empty(),
    }
}

/// The place asked about in `words`, joined with `+`, or `default`.
pub open spec fn weather_place(default: Seq<char>, words: Seq<Seq<char>>) -> Seq<char> {
    if place_words(words).len() > 0 {
        joined(place_words(words), "+"@)
    } else {
        default
    }
}

/// Where the current conditions for `place` are fetched from.
pub open spec fn weather_url(place: Seq<char>) -> Seq<char> {
    "http://wttr.in/"@ + place + "?format=j1"@
}

/// The report spoken once the conditions are known.
pub open spec fn weather_sentence(place: Seq<char>, weather: Seq<char>, temp: Seq<char>, feels: Seq<char>) -> Seq<char> {
    "The weather in "@ + place + " is "@ + weather + ". It is "@ + temp + " degrees and feels like "@
        + feels + " degrees."@
}

/// What is said when the weather service fails in the given way.
pub open spec fn weather_failure(outcome: FetchOutcome) -> Seq<char> {
    match outcome {
        FetchOutcome::Unreachable => "I was unable to connect to the weather service. Please try again later."@,
        FetchOutcome::BadStatus => "I didn't get a response from the weather service. Please try again later."@,
        _ => "I had a problem understanding the weather service. Please try again later."@,
    }
}

/// A command that reports the weather at a place named after "in".
pub struct WeatherCommand {
    default_loc: String,
}

impl WeatherCommand {
    /// The place reported on when none is named.
    pub closed spec fn default_place(&self) -> Seq<char> {
        self.default_loc@
    }

    pub fn new(default_loc: String) -> (r: WeatherCommand)
        ensures
            r.default_place() == default_loc@,
    {
        WeatherCommand { default_loc }
    }

    /// The place that `text` asks about.
    pub fn place(&self, text: &str) -> (r: String)
        ensures
            r@ == weather_place(self.default_place(), whitespace_words(text@)),
    {
        let words = str_words(text);
        let ghost ws = string_views(words@);
        let in_word = String::from_str("in");
        let mut k: usize = 0;
        while k < words.len() && words[k] != in_word
            invariant
                k <= words@.len(),
                ws == string_views(words@),
                in_word@ == "in"@,
                first_in(ws, 0) == first_in(ws, k as int),
            decreases words@.len() - k,
        {
            k = k + 1;
        }
        if k == words.len() {
            return self.default_loc.clone();
        }
        let mut j: usize = k + 1;
        while j < words.len() && words[j] != in_word
            invariant
                k < j <= words@.len(),
                ws == string_views(words@),
                in_word@ == "in"@,
                first_in(ws, k + 1) == first_in(ws, j as int),
            decreases words@.len() - j,
        {
            j = j + 1;
        }
        let end = if j < words.len() {
            j + 1
        } else {
            j
        };
        assert(place_words(ws) == ws.subrange(k + 1, end as int));
        let mut group: Vec<String> = Vec::new();
        let mut i: usize = k + 1;
        while i < end
            invariant
                k + 1 <= i <= end <= words@.len(),
                ws == string_views(words@),
                string_views(group@) == ws.subrange(k + 1, i as int),
            decreases end - i,
        {
            let ghost prev = group@;
            group.push(words[i].clone());
            assert(group@ == prev.push(words@[i as int]));
            assert(string_views(group@) =~= string_views(prev).push(words@[i as int]@));
            assert(ws[i as int] == words@[i as int]@);
            assert(string_views(group@) =~= ws.subrange(k + 1, i + 1));
            i = i + 1;
        }
        if group.len() == 0 {
            self.default_loc.clone()
        } else {
            crate::text::join(&group, "+")
        }
    }
}

/// The sentence spoken about `place` once its conditions are known.
pub fn describe_weather(place: &str, weather: &str, temp: &str, feels: &str) -> (r: String)
    ensures
        r@ == weather_sentence(place@, weather@, temp@, feels@),
{
    String::from_str("The weather in ").concat(place).concat(" is ").concat(weather).concat(". It is ").concat(
        temp,
    ).concat(" degrees and feels like ").concat(feels).concat(" degrees.")
}

/// What to say about `place` once the weather service has answered (or not).
pub fn weather_report(place: &str, outcome: FetchOutcome) -> (r: String)
    ensures
        outcome matches FetchOutcome::Body(b) ==> if json_accepts(b@) {
            exists|w: Seq<char>, t: Seq<char>, f: Seq<char>| r@ == weather_sentence(place@, w, t, f)
        } else {
            r@ == weather_failure(FetchOutcome::Unreadable)
        },
        !(outcome is Body) ==> r@ == weather_failure(outcome),
{
    match outcome {
        FetchOutcome::Body(body) => match json_parse(body.as_str()) {
            Some(doc) => {
                let current = json_element(&json_member(&doc, "current_condition"), 0);
                let weather = json_dump(&json_member(&json_element(&json_member(&current, "weatherDesc"), 0), "value"));
                let temp = json_dump(&json_member(&current, "temp_F"));
                let feels = json_dump(&json_member(&current, "FeelsLikeF"));
                describe_weather(place, weather.as_str(), temp.as_str(), feels.as_str())
            },
            None => String::from_str("I had a problem understanding the weather service. Please try again later."),
        },
        FetchOutcome::Unreachable => String::from_str(
            "I was unable to connect to the weather service. Please try again later.",
        ),
        FetchOutcome::BadStatus => String::from_str(
            "I didn't get a response from the weather service. Please try again later.",
        ),
        FetchOutcome::Unreadable => String::from_str(
            "I had a problem understanding the weather service. Please try again later.",
        ),
    }
}

impl Command for WeatherCommand {
    open spec fn title(&self) -> Seq<char> {
        "Weather"@
    }

    open spec fn description(&self) -> Seq<char> {
        "This command can give you weather information about a given location."@
    }

    open spec fn help_text(&self) -> Seq<char> {
        "Mention the weather and a location to recieve weather data about that location. Make sure to precede the location with the word \"in\"."@
    }

    open spec fn online(&self) -> bool {
        true
    }

    open spec fn recognizes(&self, text: Seq<char>) -> bool {
        has_sub(text, "weather"@)
    }

    open spec fn effect_ok(&self, text: Seq<char>, after: Self, out: Seq<EffectView>, r: CommandResult) -> bool {
        let place = weather_place(self.default_place(), whitespace_words(text));
        &&& after.default_place() == self.default_place()
        &&& out == seq![EffectView::FetchWeather(weather_url(place), place)]
        &&& r == CommandResult::Done
    }

    fn name(&self) -> (r: String) {
        String::from_str("Weather")
    }

    fn desc(&self) -> (r: String) {
        String::from_str("This command can give you weather information about a given location.")
    }

    fn help(&self) -> (r: String) {
        String::from_str(
            "Mention the weather and a location to recieve weather data about that location. Make sure to precede the location with the word \"in\".",
        )
    }

    fn uses_internet(&self) -> (r: bool) {
        true
    }

    fn recognize(&self, text: String) -> (r: bool) {
        str_contains(text.as_str(), "weather")
    }

    fn effect(&mut self, text: String, out: &mut Vec<Effect>) -> (r: CommandResult) {
        let ghost before = out@;
        let place = self.place(text.as_str());
        let url = String::from_str("http://wttr.in/").concat(place.as_str()).concat("?format=j1");
        out.push(Effect::FetchWeather { url, place });
        assert(emitted(before, out@) =~= seq![
            EffectView::FetchWeather(
                weather_url(weather_place(self.default_place(), whitespace_words(text@))),
                weather_place(self.default_place(), whitespace_words(text@)),
            ),
        ]);
        assert(out@.take(before.len() as int) =~= before);
        CommandResult::Done
    }
}

} // verus!
