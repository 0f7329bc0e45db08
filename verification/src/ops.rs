//! The ops bot: its chat commands, the channels that follow the ops, and
//! the lines it posts.
use vstd::prelude::*;
use vstd::string::*;
use std::collections::HashSet;

verus! {

broadcast use vstd::std_specs::hash::group_hash_axioms;

/// A chat command of the ops bot.
#[derive(Debug, PartialEq, Eq, Structural)]
pub enum CommandType {
    StartOps,
    EndOps,
}

/// The result of reading a chat message as a command, as a prefix parser
/// gives it: the command and how many bytes it took; or that the message is
/// a strict prefix of a command, and how many bytes the command would need;
/// or that it is no command.
#[derive(Debug, PartialEq, Eq, Structural)]
pub enum CommandParse {
    Done { consumed: usize, command: CommandType },
    Incomplete(usize),
    Error,
}

/// How a text starts with respect to a tag.
pub enum TagMatch {
    /// It starts with the tag.
    Matched,
    /// It is a strict prefix of the tag.
    Partial,
    /// It differs from the tag within their common length.
    Mismatch,
}

/// The bytes of an ASCII text.
pub open spec fn ascii_bytes(s: Seq<char>) -> Seq<u8> {
    Seq::new(s.len(), |i: int| s[i] as u8)
}

/// How `input` starts with respect to `tag`.
pub open spec fn tag_match(input: Seq<u8>, tag: Seq<u8>) -> TagMatch {
    let m = if input.len() < tag.len() { input.len() } else { tag.len() };
    if input.take(m as int) != tag.take(m as int) {
        TagMatch::Mismatch
    } else if m < tag.len() {
        TagMatch::Partial
    } else {
        TagMatch::Matched
    }
}

/// A command message: `!`, then `startops` or `endops`; the rest of the
/// message is left. A text that is cut short of a tag asks for the whole
/// tag (the `!` included), and the first alternative that is cut short
/// decides.
pub open spec fn command_parse(input: Seq<u8>) -> CommandParse {
    match tag_match(input, ascii_bytes("!"@)) {
        TagMatch::Mismatch => CommandParse::Error,
        TagMatch::Partial => CommandParse::Incomplete(1),
        TagMatch::Matched => {
            let rest = input.skip(1);
            match tag_match(rest, ascii_bytes("startops"@)) {
                TagMatch::Matched => CommandParse::Done { consumed: 9, command: CommandType::StartOps },
                TagMatch::Partial => CommandParse::Incomplete(9),
                TagMatch::Mismatch => match tag_match(rest, ascii_bytes("endops"@)) {
                    TagMatch::Matched => CommandParse::Done {
                        consumed: 7,
                        command: CommandType::EndOps,
                    },
                    TagMatch::Partial => CommandParse::Incomplete(7),
                    TagMatch::Mismatch => CommandParse::Error,
                },
            }
        },
    }
}

/// A message that is `!startops`, then anything, is the `StartOps` command,
/// taking the 9 bytes of the tag.
pub proof fn lemma_startops_command(rest: Seq<u8>)
    ensures
        command_parse(ascii_bytes("!startops"@) + rest) == (CommandParse::Done {
            consumed: 9,
            command: CommandType::StartOps,
        }),
{
    reveal_strlit("!startops");
    reveal_strlit("!");
    reveal_strlit("startops");
    let input = ascii_bytes("!startops"@) + rest;
    assert(input.take(1) =~= ascii_bytes("!"@).take(1));
    assert(input.skip(1).take(8) =~= ascii_bytes("startops"@).take(8));
}

/// A message that is `!endops`, then anything, is the `EndOps` command,
/// taking the 7 bytes of the tag.
pub proof fn lemma_endops_command(rest: Seq<u8>)
    ensures
        command_parse(ascii_bytes("!endops"@) + rest) == (CommandParse::Done {
            consumed: 7,
            command: CommandType::EndOps,
        }),
{
    reveal_strlit("!endops");
    reveal_strlit("!");
    reveal_strlit("startops");
    reveal_strlit("endops");
    let input = ascii_bytes("!endops"@) + rest;
    let tail = input.skip(1);
    assert(input.take(1) =~= ascii_bytes("!"@).take(1));
    let st = ascii_bytes("startops"@);
    let m = if tail.len() < 8 { tail.len() } else { 8 };
    assert(tail.take(m as int)[0] != st.take(m as int)[0]);
    assert(tail.take(6) =~= ascii_bytes("endops"@).take(6));
}

/// A message that does not start with `!` is no command.
pub proof fn lemma_no_bang_no_command(input: Seq<u8>)
    requires
        input.len() > 0,
        input[0] != 33,
    ensures
        command_parse(input) == CommandParse::Error,
{
    reveal_strlit("!");
    assert(input.take(1)[0] != ascii_bytes("!"@).take(1)[0]);
}

/// How `input` from byte `start` on starts with respect to `tag`.
fn tag_at(input: &[u8], start: usize, tag: &[u8]) -> (r: TagMatch)
    requires
        start <= input@.len(),
    ensures
        r == tag_match(input@.skip(start as int), tag@),
{
    let ghost rest = input@.skip(start as int);
    let len = input.len();
    let avail = len - start;
    let m = if avail < tag.len() { avail } else { tag.len() };
    let mut i: usize = 0;
    while i < m
        invariant
            rest == input@.skip(start as int),
            start <= input@.len(),
            m <= rest.len(),
            rest.len() == input@.len() - start,
            len == input@.len(),
            start + m <= len,
            m <= tag@.len(),
            m == (if rest.len() < tag@.len() { rest.len() } else { tag@.len() }),
            i <= m,
            rest.take(i as int) == tag@.take(i as int),
        decreases m - i,
    {
        if input[start + i] != tag[i] {
            assert(rest.take(m as int)[i as int] != tag@.take(m as int)[i as int]);
            return TagMatch::Mismatch;
        }
        i = i + 1;
        assert(rest.take(i as int) =~= tag@.take(i as int));
    }
    if m < tag.len() {
        TagMatch::Partial
    } else {
        TagMatch::Matched
    }
}

/// The bytes of an ASCII literal.
fn literal_bytes(s: &'static str) -> (r: &'static [u8])
    requires
        vstd::string::is_ascii(s),
    ensures
        r@ == ascii_bytes(s@),
{
    broadcast use vstd::string::is_ascii_spec_bytes;

    let r = s.as_bytes();
    assert(r@ =~= ascii_bytes(s@));
    r
}

/// Reads a chat message as an ops command.
pub fn parse_message_command(input: &str) -> (r: CommandParse)
    ensures
        r == command_parse(input.spec_bytes()),
{
    proof {
        reveal_strlit("!");
        reveal_strlit("startops");
        reveal_strlit("endops");
    }
    let bytes = input.as_bytes();
    let bang = literal_bytes("!");
    let start_tag = literal_bytes("startops");
    let end_tag = literal_bytes("endops");
    assert(bytes@.skip(0) =~= bytes@);
    match tag_at(bytes, 0, bang) {
        TagMatch::Mismatch => CommandParse::Error,
        TagMatch::Partial => CommandParse::Incomplete(1),
        TagMatch::Matched => {
            match tag_at(bytes, 1, start_tag) {
                TagMatch::Matched => CommandParse::Done { consumed: 9, command: CommandType::StartOps },
                TagMatch::Partial => CommandParse::Incomplete(9),
                TagMatch::Mismatch => match tag_at(bytes, 1, end_tag) {
                    TagMatch::Matched => CommandParse::Done {
                        consumed: 7,
                        command: CommandType::EndOps,
                    },
                    TagMatch::Partial => CommandParse::Incomplete(7),
                    TagMatch::Mismatch => CommandParse::Error,
                },
            }
        },
    }
}

/// The channels that follow the ops.
pub struct OpsChannels {
    channels: HashSet<u64>,
}

impl View for OpsChannels {
    type V = Set<u64>;

    closed spec fn view(&self) -> Set<u64> {
        self.channels@
    }
}

/// The reply to a command.
pub open spec fn command_reply(command: CommandType) -> Seq<char> {
    match command {
        CommandType::StartOps => "Starting Ops"@,
        CommandType::EndOps => "Ending Ops"@,
    }
}

impl OpsChannels {
    /// No channel follows the ops.
    pub fn new() -> (r: OpsChannels)
        ensures
            r@ == Set::<u64>::empty(),
    {
        OpsChannels { channels: HashSet::new() }
    }

    /// Takes a command from `channel`: `StartOps` makes the channel follow the
    /// ops, `EndOps` stops it. Returns the line to post in the channel.
    pub fn handle_command(&mut self, command: CommandType, channel: u64) -> (r: &'static str)
        ensures
            final(self)@ == (match command {
                CommandType::StartOps => old(self)@.insert(channel),
                CommandType::EndOps => old(self)@.remove(channel),
            }),
            r@ == command_reply(command),
    {
        match command {
            CommandType::StartOps => {
                self.channels.insert(channel);
                "Starting Ops"
            },
            CommandType::EndOps => {
                self.channels.remove(&channel);
                "Ending Ops"
            },
        }
    }

    /// Whether `channel` follows the ops.
    pub fn contains(&self, channel: u64) -> (r: bool)
        ensures
            r == self@.contains(channel),
    {
        self.channels.contains(&channel)
    }

    /// The channels that follow the ops, in no particular order.
    pub fn channels(&self) -> (r: &HashSet<u64>)
        ensures
            r@ == self@,
    {
        &self.channels
    }
}

/// The line for a kill by a vehicle's gunner.
pub open spec fn gunner_kill_line(victim: Seq<char>, attacker: Seq<char>) -> Seq<char> {
    victim + " was killed by "@ + attacker + "'s gunner"@
}

/// The gunner line reads "<victim> was killed by <attacker>'s gunner".
pub proof fn lemma_gunner_kill_line_text(victim: Seq<char>, attacker: Seq<char>)
    ensures
        gunner_kill_line(victim, attacker) == victim + seq![
            ' ',
            'w',
            'a',
            's',
            ' ',
            'k',
            'i',
            'l',
            'l',
            'e',
            'd',
            ' ',
            'b',
            'y',
            ' ',
        ] + attacker + seq!['\'', 's', ' ', 'g', 'u', 'n', 'n', 'e', 'r'],
{
    reveal_strlit(" was killed by ");
    reveal_strlit("'s gunner");
    assert(" was killed by "@ =~= seq![
        ' ',
        'w',
        'a',
        's',
        ' ',
        'k',
        'i',
        'l',
        'l',
        'e',
        'd',
        ' ',
        'b',
        'y',
        ' ',
    ]);
    assert("'s gunner"@ =~= seq!['\'', 's', ' ', 'g', 'u', 'n', 'n', 'e', 'r']);
}

/// The line for a kill by `attacker`'s gunner.
pub fn gunner_kill_text(victim: &str, attacker: &str) -> (r: String)
    ensures
        r@ == gunner_kill_line(victim@, attacker@),
{
    let mut r = String::new();
    r.append(victim);
    r.append(" was killed by ");
    r.append(attacker);
    r.append("'s gunner");
    r
}

} // verus!
