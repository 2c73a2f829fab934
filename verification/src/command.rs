//! The lines that the user types.

use crate::text::{
    has_prefix, law_white_space_at_the_ends, starts_with, trim, trimmed, white_space,
};
use vstd::prelude::*;

verus! {

/// What a line asks for.
#[derive(Debug)]
pub enum Command {
    /// Send this text over the data channel.
    Send(String),
    /// Open a data channel and send an offer for it.
    Offer,
    /// Leave.
    Exit,
    /// Nothing: the line is skipped.
    Nothing,
}

/// A [`Command`] by what it holds.
pub enum CommandView {
    Send(Seq<char>),
    Offer,
    Exit,
    Nothing,
}

impl View for Command {
    type V = CommandView;

    open spec fn view(&self) -> CommandView {
        match self {
            Command::Send(data) => CommandView::Send(data@),
            Command::Offer => CommandView::Offer,
            Command::Exit => CommandView::Exit,
            Command::Nothing => CommandView::Nothing,
        }
    }
}

/// What a line without white space at its ends asks for: `send ` is followed by the text to
/// send; `offer` and `exit` may be followed by anything.
pub open spec fn command_of(line: Seq<char>) -> CommandView {
    if starts_with(line, "send "@) {
        CommandView::Send(line.skip(5))
    } else if starts_with(line, "offer"@) {
        CommandView::Offer
    } else if starts_with(line, "exit"@) {
        CommandView::Exit
    } else {
        CommandView::Nothing
    }
}

/// Reads a line. White space at its ends does not count.
pub fn parse_command(line: &str) -> (r: Command)
    ensures
        r@ == command_of(trimmed(line@)),
        r is Exit <==> "exit"@.is_prefix_of(trimmed(line@)),
        r is Offer <==> "offer"@.is_prefix_of(trimmed(line@)),
        r is Send <==> "send "@.is_prefix_of(trimmed(line@)),
        r matches Command::Send(data) ==> "send "@ + data@ == trimmed(line@),
{
    proof {
        law_commands(trimmed(line@));
    }
    let t = trim(line);
    if has_prefix(t, "send ") {
        proof {
            reveal_strlit("send ");
        }
        let len: usize = t.unicode_len();
        Command::Send(t.substring_char(5, len).to_owned())
    } else if has_prefix(t, "offer") {
        Command::Offer
    } else if has_prefix(t, "exit") {
        Command::Exit
    } else {
        Command::Nothing
    }
}

/// A text is sent exactly as it was typed after `send `, if it does not end in white space.
pub proof fn law_text_is_sent_as_typed(data: Seq<char>)
    requires
        data.len() > 0,
        !white_space(data.last()),
    ensures
        command_of(trimmed("send "@ + data)) == CommandView::Send(data),
{
    reveal_strlit("send ");
    let line = "send "@ + data;
    assert(line.first() == 's');
    assert(line.last() == data.last());
    assert(line.subrange(0, 5) =~= "send "@);
    assert(line.skip(5) =~= data);
}

/// What a line asks for is seen from its start alone: it asks for an offer if and only if it starts
/// with `offer`, to leave if and only if it starts with `exit`, and for a text to be sent if and
/// only if it starts with `send` and a space. The text is then all that follows. Every other line
/// asks for nothing.
pub proof fn law_commands(line: Seq<char>)
    ensures
        command_of(line) is Send <==> "send "@.is_prefix_of(line),
        command_of(line) is Offer <==> "offer"@.is_prefix_of(line),
        command_of(line) is Exit <==> "exit"@.is_prefix_of(line),
        command_of(line) is Nothing <==> !"send "@.is_prefix_of(line) && !"offer"@.is_prefix_of(
            line,
        ) && !"exit"@.is_prefix_of(line),
        command_of(line) matches CommandView::Send(data) ==> line == "send "@ + data,
{
    law_commands_exclude_each_other(line);
    reveal_strlit("send ");
    if "send "@.is_prefix_of(line) {
        assert(line =~= "send "@ + line.skip(5));
    }
}

/// What follows `offer` or `exit` does not count, and neither does white space around the line.
pub proof fn law_rest_of_the_line(rest: Seq<char>, c: char)
    requires
        white_space(c),
    ensures
        command_of("offer"@ + rest) is Offer,
        command_of("exit"@ + rest) is Exit,
        command_of(trimmed(rest.push(c))) == command_of(trimmed(rest)),
        command_of(trimmed(seq![c] + rest)) == command_of(trimmed(rest)),
{
    law_commands("offer"@ + rest);
    law_commands("exit"@ + rest);
    assert(("offer"@ + rest).subrange(0, "offer"@.len() as int) =~= "offer"@);
    assert(("exit"@ + rest).subrange(0, "exit"@.len() as int) =~= "exit"@);
    law_white_space_at_the_ends(rest, c);
}

/// No line asks for two things: the words that commands start with exclude each other.
pub proof fn law_commands_exclude_each_other(line: Seq<char>)
    ensures
        starts_with(line, "send "@) ==> !starts_with(line, "offer"@) && !starts_with(
            line,
            "exit"@,
        ),
        starts_with(line, "offer"@) ==> !starts_with(line, "exit"@),
{
    reveal_strlit("send ");
    reveal_strlit("offer");
    reveal_strlit("exit");
    if starts_with(line, "send "@) {
        assert(line[0] == line.subrange(0, 5)[0]);
    }
    if starts_with(line, "offer"@) {
        assert(line[0] == line.subrange(0, 5)[0]);
    }
    if starts_with(line, "exit"@) {
        assert(line[0] == line.subrange(0, 4)[0]);
    }
}

} // verus!
