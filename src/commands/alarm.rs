use vstd::prelude::*;
use vstd::string::*;

use crate::commands::{emitted, Command, CommandResult, Effect, EffectView};
use crate::text::{has_sub, parse_u64, parsed_u64, str_contains, str_words, string_views, whitespace_words};

verus! {

/// `s` with the English numbers spelled out in it replaced by digits, as
/// `text2num::replace_numbers_in_text` does with a threshold of zero.
pub uninterp spec fn numbers_as_digits(s: Seq<char>) -> Seq<char>;

/// Relies on `text2num::replace_numbers_in_text` with the English language
/// and the default threshold (zero), so that every number is converted.
#[verifier::external_body]
fn digits_in_text(s: &str) -> (r: String)
    ensures
        r@ == numbers_as_digits(s@),
{
    text2num::replace_numbers_in_text(s, &text2num::Language::english(), Default::default())
}

/// Milliseconds in the unit that `word` names, or zero if it names none.
pub open spec fn unit_millis(word: Seq<char>) -> nat {
    if has_sub(word, "second"@) {
        1000
    } else if has_sub(word, "minute"@) {
        60000
    } else if has_sub(word, "hour"@) {
        3600000
    } else {
        0
    }
}

/// The duration that the word pair `count unit` adds.
pub open spec fn pair_millis(count: Seq<char>, unit: Seq<char>) -> nat {
    if unit_millis(unit) > 0 && parsed_u64(count) is Some {
        parsed_u64(count).unwrap() as nat * unit_millis(unit)
    } else {
        0
    }
}

/// The total duration named by the consecutive word pairs among the first
/// `k` words.
pub open spec fn duration_millis(words: Seq<Seq<char>>, k: int) -> nat
    decreases k,
{
    if k < 2 || k > words.len() {
        0
    } else {
        duration_millis(words, k - 1) + pair_millis(words[k - 2], words[k - 1])
    }
}

/// The timer set for `text`, in milliseconds, held at `u64::MAX`.
pub open spec fn timer_millis(text: Seq<char>) -> u64 {
    let words = whitespace_words(numbers_as_digits(text));
    let total = duration_millis(words, words.len() as int);
    if total > u64::MAX {
        u64::MAX
    } else {
        total as u64
    }
}

/// The duration named in `text` ("one minute and 30 seconds"), in
/// milliseconds, held at `u64::MAX`.
pub fn timer_duration(text: &str) -> (r: u64)
    ensures
        r == timer_millis(text@),
{
    let spelled = digits_in_text(text);
    let words = str_words(spelled.as_str());
    let ghost ws = string_views(words@);
    let n = words.len();
    let mut total: u64 = 0;
    if n < 2 {
        return 0;
    }
    let mut i: usize = 1;
    while i < n
        invariant
            1 <= i <= n,
            n == ws.len(),
            ws == string_views(words@),
            ws == whitespace_words(numbers_as_digits(text@)),
            total as nat == if duration_millis(ws, i as int) > u64::MAX {
                u64::MAX as nat
            } else {
                duration_millis(ws, i as int)
            },
        decreases n - i,
    {
        let unit = words[i].as_str();
        let per: u64 = if str_contains(unit, "second") {
            1000
        } else if str_contains(unit, "minute") {
            60000
        } else if str_contains(unit, "hour") {
            3600000
        } else {
            0
        };
        assert(per as nat == unit_millis(ws[i as int]));
        if per > 0 {
            match parse_u64(words[i - 1].as_str()) {
                Some(count) => {
                    assert(pair_millis(ws[i - 1], ws[i as int]) == count as nat * per as nat);
                    let term: u64 = if count > u64::MAX / per {
                        assert(count as nat * per as nat > u64::MAX) by (nonlinear_arith)
                            requires count > u64::MAX / per, per > 0;
                        u64::MAX
                    } else {
                        assert(count as nat * per as nat <= u64::MAX) by (nonlinear_arith)
                            requires count <= u64::MAX / per, per > 0;
                        count * per
                    };
                    total = if total > u64::MAX - term {
                        u64::MAX
                    } else {
                        total + term
                    };
                },
                None => {},
            }
        }
        i = i + 1;
    }
    total
}

/// A command that sets a timer for a spoken duration.
pub struct AlarmCommand {}

impl Command for AlarmCommand {
    open spec fn title(&self) -> Seq<char> {
        "Alarm"@
    }

    open spec fn description(&self) -> Seq<char> {
        "This command allows you to set an alarm for a specific time or after a duration."@
    }

    open spec fn help_text(&self) -> Seq<char> {
        "Use \"Alarm\" for a set time or \"Timer\" for a set duration."@
    }

    open spec fn online(&self) -> bool {
        false
    }

    open spec fn recognizes(&self, text: Seq<char>) -> bool {
        has_sub(text, "timer"@) || has_sub(text, "alarm"@)
    }

    open spec fn effect_ok(&self, text: Seq<char>, after: Self, out: Seq<EffectView>, r: CommandResult) -> bool {
        &&& after == *self
        &&& out == if has_sub(text, "timer"@) {
            seq![EffectView::Say("Timer set."@), EffectView::StartTimer(timer_millis(text))]
        } else {
            Seq::empty()
        }
        &&& r == CommandResult::Done
    }

    fn name(&self) -> (r: String) {
        String::from_str("Alarm")
    }

    fn desc(&self) -> (r: String) {
        String::from_str("This command allows you to set an alarm for a specific time or after a duration.")
    }

    fn help(&self) -> (r: String) {
        String::from_str("Use \"Alarm\" for a set time or \"Timer\" for a set duration.")
    }

    fn uses_internet(&self) -> (r: bool) {
        false
    }

    fn recognize(&self, text: String) -> (r: bool) {
        str_contains(text.as_str(), "timer") || str_contains(text.as_str(), "alarm")
    }

    fn effect(&mut self, text: String, out: &mut Vec<Effect>) -> (r: CommandResult) {
        let ghost before = out@;
        if str_contains(text.as_str(), "timer") {
            let millis = timer_duration(text.as_str());
            out.push(Effect::Say(String::from_str("Timer set.")));
            out.push(Effect::StartTimer { millis });
            assert(emitted(before, out@) =~= seq![EffectView::Say("Timer set."@), EffectView::StartTimer(timer_millis(text@))]);
        } else {
            assert(emitted(before, out@) =~= Seq::<EffectView>::empty());
        }
        assert(out@.take(before.len() as int) =~= before);
        CommandResult::Done
    }
}

} // verus!
