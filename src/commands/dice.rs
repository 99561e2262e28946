use vstd::prelude::*;
use vstd::string::*;

use crate::commands::{emitted, Command, CommandResult, Effect, EffectView};
use crate::text::{decimal, has_sub, parse_u64, parsed_u64, split_first, str_contains, str_split_once, str_words, u64_text, whitespace_words};

verus! {

/// The digits that `text2num::text2digits` reads in spelled-out English `s`,
/// or `None` where it reads no number.
pub uninterp spec fn spelled_number(s: Seq<char>) -> Option<Seq<char>>;

/// Relies on `text2num::text2digits` with the English language: the digits
/// of the number spelled out in `s`.
#[verifier::external_body]
fn spelled_digits(s: &str) -> (r: Option<String>)
    ensures
        r is Some == spelled_number(s@) is Some,
        r is Some ==> r.unwrap()@ == spelled_number(s@).unwrap(),
{
    match text2num::text2digits(s, &text2num::Language::english()) {
        Ok(d) => Some(d),
        Err(_) => None,
    }
}

/// Relies on `rand::random`: a freshly drawn `u32`; nothing is known of it.
#[verifier::external_body]
fn random_u32() -> u32 {
    rand::random::<u32>()
}

/// The number said in `s`: a lone word of digits, or else a number spelled
/// out in words.
pub open spec fn spoken_number(s: Seq<char>) -> Option<u64> {
    let ws = whitespace_words(s);
    if ws.len() == 1 && parsed_u64(ws[0]) is Some {
        parsed_u64(ws[0])
    } else {
        match spelled_number(s) {
            Some(d) => parsed_u64(d),
            None => None,
        }
    }
}

pub open spec fn usage_hint() -> Seq<char> {
    "Make sure to say \"Roll\" followed by a type and number of dice in the number D number format."@
}

pub open spec fn first_number_missing() -> Seq<char> {
    "I couldn't make out the first number. Please try again."@
}

pub open spec fn second_number_missing() -> Seq<char> {
    "I couldn't make out the second number. Please try again."@
}

/// What follows the first "roll" in `text`, or else the first "role".
pub open spec fn after_roll(text: Seq<char>) -> Option<Seq<char>> {
    match split_first(text, "roll"@) {
        Some(p) => Some(p.1),
        None => match split_first(text, "role"@) {
            Some(p) => Some(p.1),
            None => None,
        },
    }
}

/// The number of dice and their number of sides asked for in `text`
/// ("roll N d S"), or what to say when they cannot be read.
pub open spec fn dice_asked(text: Seq<char>) -> Result<(u64, u64), Seq<char>> {
    match after_roll(text) {
        None => Err(usage_hint()),
        Some(tail) => match split_first(tail, "d"@) {
            None => Err(usage_hint()),
            Some((a, b)) => match spoken_number(a) {
                None => Err(first_number_missing()),
                Some(n) => match spoken_number(b) {
                    Some(z) => if z > 0 {
                        Ok((n, z))
                    } else {
                        Err(second_number_missing())
                    },
                    None => Err(second_number_missing()),
                },
            },
        },
    }
}

/// How the roll at position `i` of `n` rolls is written.
pub open spec fn roll_piece(v: u64, i: int, n: int) -> Seq<char> {
    if n == 1 {
        decimal(v as nat) + "."@
    } else if i == n - 1 {
        "and "@ + decimal(v as nat) + "."@
    } else if n == 2 {
        decimal(v as nat) + " "@
    } else {
        decimal(v as nat) + ", "@
    }
}

/// The first `k` rolls written out.
pub open spec fn roll_pieces(rolls: Seq<u64>, k: int) -> Seq<char>
    decreases k,
{
    if k <= 0 {
        Seq::empty()
    } else {
        roll_pieces(rolls, k - 1) + roll_piece(rolls[k - 1], k - 1, rolls.len() as int)
    }
}

/// The sentence that announces `rolls`: "I rolled: 4.", "I rolled: 2 and 5.",
/// "I rolled: 1, 6, and 3.".
pub open spec fn roll_text(rolls: Seq<u64>) -> Seq<char> {
    "I rolled: "@ + roll_pieces(rolls, rolls.len() as int)
}

/// What the dice command may say for `text`: the reason it cannot roll, or
/// the announcement of as many rolls as asked, each between 1 and the
/// number of sides.
pub open spec fn dice_said(text: Seq<char>, said: Seq<char>) -> bool {
    match dice_asked(text) {
        Err(m) => said == m,
        Ok((n, sides)) => exists|rolls: Seq<u64>|
            {
                &&& rolls.len() == n
                &&& forall|i: int| 0 <= i < rolls.len() ==> 1 <= #[trigger] rolls[i] <= sides
                &&& said == roll_text(rolls)
            },
    }
}

/// Reads a number said as digits or spelled out in words.
pub fn read_number(s: &str) -> (r: Option<u64>)
    ensures
        r == spoken_number(s@),
{
    let words = str_words(s);
    assert(words@.len() == whitespace_words(s@).len());
    if words.len() == 1 {
        assert(words@[0]@ == whitespace_words(s@)[0]);
        let direct = parse_u64(words[0].as_str());
        if direct.is_some() {
            return direct;
        }
    }
    match spelled_digits(s) {
        Some(d) => parse_u64(d.as_str()),
        None => None,
    }
}

/// The dice asked for in `text`, or what to say instead.
pub fn dice_request(text: &str) -> (r: Result<(u64, u64), String>)
    ensures
        r matches Ok(p) ==> dice_asked(text@) == Ok::<(u64, u64), Seq<char>>(p),
        r matches Err(m) ==> dice_asked(text@) == Err::<(u64, u64), Seq<char>>(m@),
{
    let tail = match str_split_once(text, "roll") {
        Some((_, t)) => t,
        None => match str_split_once(text, "role") {
            Some((_, t)) => t,
            None => {
                return Err(String::from_str(
                    "Make sure to say \"Roll\" followed by a type and number of dice in the number D number format.",
                ));
            },
        },
    };
    assert(after_roll(text@) == Some(tail@));
    let (num_text, size_text) = match str_split_once(tail.as_str(), "d") {
        Some(p) => p,
        None => {
            return Err(String::from_str(
                "Make sure to say \"Roll\" followed by a type and number of dice in the number D number format.",
            ));
        },
    };
    let num = match read_number(num_text.as_str()) {
        Some(n) => n,
        None => {
            return Err(String::from_str("I couldn't make out the first number. Please try again."));
        },
    };
    match read_number(size_text.as_str()) {
        Some(z) => {
            if z > 0 {
                Ok((num, z))
            } else {
                Err(String::from_str("I couldn't make out the second number. Please try again."))
            }
        },
        None => Err(String::from_str("I couldn't make out the second number. Please try again.")),
    }
}

/// The sentence that announces `rolls`.
pub fn describe_rolls(rolls: &Vec<u64>) -> (r: String)
    ensures
        r@ == roll_text(rolls@),
{
    let n = rolls.len();
    let mut out = String::from_str("I rolled: ");
    let mut i: usize = 0;
    while i < n
        invariant
            n == rolls@.len(),
            i <= n,
            out@ == "I rolled: "@ + roll_pieces(rolls@, i as int),
        decreases n - i,
    {
        let v = u64_text(rolls[i]);
        if n == 1 {
            out.append(v.as_str());
            out.append(".");
        } else if i == n - 1 {
            out.append("and ");
            out.append(v.as_str());
            out.append(".");
        } else if n == 2 {
            out.append(v.as_str());
            out.append(" ");
        } else {
            out.append(v.as_str());
            out.append(", ");
        }
        assert(out@ =~= "I rolled: "@ + roll_pieces(rolls@, i + 1));
        i = i + 1;
    }
    out
}

/// A command that rolls dice: "roll N d S".
pub struct DiceCommand {}

impl Command for DiceCommand {
    open spec fn title(&self) -> Seq<char> {
        "Dice Command"@
    }

    open spec fn description(&self) -> Seq<char> {
        "This command rolls dice."@
    }

    open spec fn help_text(&self) -> Seq<char> {
        "Say \"Roll\" followed by a type and number of dice in the number D number format."@
    }

    open spec fn online(&self) -> bool {
        false
    }

    open spec fn recognizes(&self, text: Seq<char>) -> bool {
        has_sub(text, "roll "@) || has_sub(text, "role "@)
    }

    open spec fn effect_ok(&self, text: Seq<char>, after: Self, out: Seq<EffectView>, r: CommandResult) -> bool {
        &&& after == *self
        &&& out.len() == 1
        &&& out[0] is Say
        &&& dice_said(text, out[0]->Say_0)
        &&& r == CommandResult::Done
    }

    fn name(&self) -> (r: String) {
        String::from_str("Dice Command")
    }

    fn desc(&self) -> (r: String) {
        String::from_str("This command rolls dice.")
    }

    fn help(&self) -> (r: String) {
        String::from_str("Say \"Roll\" followed by a type and number of dice in the number D number format.")
    }

    fn uses_internet(&self) -> (r: bool) {
        false
    }

    fn recognize(&self, text: String) -> (r: bool) {
        str_contains(text.as_str(), "roll ") || str_contains(text.as_str(), "role ")
    }

    fn effect(&mut self, text: String, out: &mut Vec<Effect>) -> (r: CommandResult) {
        let ghost before = out@;
        let said = match dice_request(text.as_str()) {
            Err(m) => m,
            Ok((num, sides)) => {
                let mut rolls: Vec<u64> = Vec::new();
                let mut k: u64 = 0;
                while k < num
                    invariant
                        sides > 0,
                        k <= num,
                        rolls@.len() == k,
                        forall|i: int| 0 <= i < rolls@.len() ==> 1 <= #[trigger] rolls@[i] <= sides,
                    decreases num - k,
                {
                    let roll = (random_u32() as u64) % sides + 1;
                    rolls.push(roll);
                    k = k + 1;
                }
                let m = describe_rolls(&rolls);
                assert(dice_said(text@, m@));
                m
            },
        };
        let ghost said_view = said@;
        out.push(Effect::Say(said));
        assert(emitted(before, out@) =~= seq![EffectView::Say(said_view)]);
        assert(out@.take(before.len() as int) =~= before);
        CommandResult::Done
    }
}

} // verus!
