//! The text of the replies: the lines of the playback history, and how a
//! list of lines becomes one message.

use crate::records::{Playback, UserId};
use serenity::model::mention::Mention;
use vstd::prelude::*;
use vstd::string::StringExecFns;

verus! {

/// The lines one after the other, with `separator` between each two.
pub open spec fn joined(lines: Seq<Seq<char>>, separator: Seq<char>) -> Seq<char>
    decreases lines.len(),
{
    if lines.len() == 0 {
        Seq::empty()
    } else if lines.len() == 1 {
        lines[0]
    } else {
        joined(lines.drop_last(), separator) + separator + lines.last()
    }
}

/// The text of each line.
pub open spec fn texts(lines: Seq<String>) -> Seq<Seq<char>> {
    lines.map_values(|line: String| line@)
}

/// The reply that lists `lines`: the lines joined by `separator`, or
/// `placeholder` where there is nothing to list.
pub fn listing(lines: &Vec<String>, separator: &str, placeholder: &str) -> (text: String)
    ensures
        text@ == if lines@.len() == 0 {
            placeholder@
        } else {
            joined(texts(lines@), separator@)
        },
{
    if lines.len() == 0 {
        return String::from_str(placeholder);
    }
    let mut text = String::from_str(lines[0].as_str());
    let mut at: usize = 1;
    while at < lines.len()
        invariant
            1 <= at <= lines.len(),
            text@ == joined(texts(lines@).take(at as int), separator@),
        decreases lines.len() - at,
    {
        text.append(separator);
        text.append(lines[at].as_str());
        assert(texts(lines@).take(at + 1).drop_last() =~= texts(lines@).take(at as int));
        at += 1;
    }
    assert(texts(lines@).take(at as int) =~= texts(lines@));
    text
}

/// The decimal digits of `number`, without leading zeros.
pub open spec fn decimal(number: nat) -> Seq<char>
    decreases number,
{
    let digit = seq!['0', '1', '2', '3', '4', '5', '6', '7', '8', '9'][(number % 10) as int];
    if number < 10 {
        seq![digit]
    } else {
        decimal(number / 10).push(digit)
    }
}

/// How the chat service writes a reference to `user` in a message.
pub open spec fn mention_text(user: UserId) -> Seq<char> {
    seq!['<', '@'] + decimal(user as nat) + seq!['>']
}

/// The text that mentions `user`, from `serenity`: a `Mention` made from the
/// user's identifier, shown by its `Display`. That impl writes `<@`, the
/// identifier as a decimal number, and `>`; this contract claims so without
/// proof.
#[verifier::external_body]
fn mention_user(user: UserId) -> (text: String)
    ensures
        text@ == mention_text(user),
{
    Mention::from(serenity::model::id::UserId(user)).to_string()
}

/// The line that the history shows for `playback` of the sound `name`. A
/// playback that names a stopper is shown with the stopper and with
/// `seconds`, the text of the time it played; any other only with its
/// player.
pub open spec fn history_text(name: Seq<char>, playback: Playback, seconds: Seq<char>) -> Seq<
    char,
> {
    let started = name + " by "@ + mention_text(playback.player_id);
    match playback.stopper_id {
        Some(stopper) => started + "; stopped by "@ + mention_text(stopper) + " after "@ + seconds
            + " seconds"@,
        None => started,
    }
}

/// The line that the history shows for `playback` of the sound `name`.
/// `seconds` is the time it played, as it is to be shown; it is left out
/// where the playback names no stopper.
pub fn history_line(name: &str, playback: &Playback, seconds: &str) -> (line: String)
    ensures
        line@ == history_text(name@, *playback, seconds@),
{
    let mut line = String::from_str(name);
    line.append(" by ");
    line.append(mention_user(playback.player_id).as_str());
    match playback.stopper_id {
        Some(stopper) => {
            line.append("; stopped by ");
            line.append(mention_user(stopper).as_str());
            line.append(" after ");
            line.append(seconds);
            line.append(" seconds");
        },
        None => {},
    }
    line
}

} // verus!
