//! The words that tell the player what has happened.

use vstd::prelude::*;
use vstd::string::*;

verus! {

/// What a message says, if there is one.
pub open spec fn text(message: Option<String>) -> Option<Seq<char>> {
    match message {
        Some(m) => Some(m@),
        None => None,
    }
}

/// What each of some messages says.
pub open spec fn texts(messages: Seq<String>) -> Seq<Seq<char>> {
    messages.map_values(|m: String| m@)
}

/// The words that meet the player's attack on the entity called `name`.
pub open spec fn taunt(name: Seq<char>) -> Seq<char> {
    "The "@ + name + " laughs at your puny efforts to attack him!"@
}

/// The words that go with an attack on the player by the monster called
/// `name`.
pub open spec fn attack_report(name: Seq<char>) -> Seq<char> {
    "The attack of the "@ + name + " bounces off your shiny metal armor!"@
}

/// Puts the taunt of the entity called `name` into words.
pub fn taunt_of(name: &str) -> (said: String)
    ensures
        said@ == taunt(name@),
{
    let said = String::from_str("The ");
    let said = said.concat(name);
    said.concat(" laughs at your puny efforts to attack him!")
}

/// Puts the attack of the monster called `name` into words.
pub fn attack_report_of(name: &str) -> (said: String)
    ensures
        said@ == attack_report(name@),
{
    let said = String::from_str("The attack of the ");
    let said = said.concat(name);
    said.concat(" bounces off your shiny metal armor!")
}

} // verus!
