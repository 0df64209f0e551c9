//! Decoding a request body into a command, and choosing what a command does.
use vstd::prelude::*;
use crate::wire::{json_members, json_object_members, members_view, utf8_text};

verus! {

broadcast use vstd::utf8::group_utf8_lib;

/// The one command identifier this controller acts on.
pub const OPEN_DELAY: &'static str = "open_delay";

/// The selector of the single configured relay.
pub const RELAY_ONE: &'static str = "1";

/// The acknowledgment written for an `open_delay` command.
pub const ACK_TEXT: &'static str = "Opening relay for 3 seconds";

/// A decoded request: the command identifier and its argument.
pub struct Command {
    pub order: String,
    pub num: String,
}

/// Why a body does not yield a command.
#[derive(Clone, Copy, Debug, PartialEq, Eq, Structural)]
pub enum CommandError {
    /// The body is not valid UTF-8.
    NotText,
    /// The text is not a JSON object with string members `order` and `num`.
    Malformed,
}

/// What a command asks for: an acknowledgment, and a pulse of the relay.
#[derive(Clone, Copy, Debug, PartialEq, Eq, Structural)]
pub struct Plan {
    pub acknowledge: bool,
    pub pulse: bool,
}

/// The text of the member named `key`, when there is one and it is a string.
pub open spec fn member_text(m: Seq<(Seq<char>, Option<Seq<char>>)>, key: Seq<char>) -> Option<Seq<char>>
    decreases m.len(),
{
    if m.len() == 0 {
        None
    } else if m[0].0 == key {
        m[0].1
    } else {
        member_text(m.drop_first(), key)
    }
}

/// The command that a member list describes, as `(order, num)`.
pub open spec fn command_of_members(m: Seq<(Seq<char>, Option<Seq<char>>)>) -> Option<(Seq<char>, Seq<char>)> {
    match (member_text(m, "order"@), member_text(m, "num"@)) {
        (Some(o), Some(n)) => Some((o, n)),
        _ => None,
    }
}

/// What decoding `body` yields, as `(order, num)`.
pub open spec fn parse_spec(body: Seq<u8>) -> Result<(Seq<char>, Seq<char>), CommandError> {
    if !vstd::utf8::valid_utf8(body) {
        Err(CommandError::NotText)
    } else {
        match json_object_members(vstd::utf8::decode_utf8(body)) {
            None => Err(CommandError::Malformed),
            Some(m) => match command_of_members(m) {
                None => Err(CommandError::Malformed),
                Some(c) => Ok(c),
            },
        }
    }
}

/// What a command `(order, num)` asks for.
pub open spec fn plan_spec(order: Seq<char>, num: Seq<char>) -> Plan {
    Plan {
        acknowledge: order == OPEN_DELAY@,
        pulse: order == OPEN_DELAY@ && num == RELAY_ONE@,
    }
}

impl Command {
    pub open spec fn view(&self) -> (Seq<char>, Seq<char>) {
        (self.order@, self.num@)
    }
}

fn same_text(a: &String, b: &str) -> (r: bool)
    ensures
        r == (a@ == b@),
{
    let owned = b.to_owned();
    *a == owned
}

/// Finds the text of the member named `key`.
pub fn find_member(members: &Vec<(String, Option<String>)>, key: &str) -> (r: Option<String>)
    ensures
        r matches Some(t) ==> member_text(members_view(members@), key@) == Some(t@),
        r is None ==> member_text(members_view(members@), key@) is None,
{
    let ghost whole = members_view(members@);
    let mut i: usize = 0;
    assert(whole.subrange(0, whole.len() as int) =~= whole);
    while i < members.len()
        invariant
            0 <= i <= members.len(),
            whole == members_view(members@),
            member_text(whole, key@) == member_text(whole.subrange(i as int, whole.len() as int), key@),
        decreases members.len() - i,
    {
        let ghost rest = whole.subrange(i as int, whole.len() as int);
        assert(rest.drop_first() =~= whole.subrange(i + 1, whole.len() as int));
        if same_text(&members[i].0, key) {
            return match &members[i].1 {
                Some(t) => Some(t.clone()),
                None => None,
            };
        }
        i = i + 1;
    }
    None
}

/// The command held by an already decoded member list: both `order` and
/// `num` must be present with string values.
pub fn command_from_members(members: &Vec<(String, Option<String>)>) -> (r: Option<Command>)
    ensures
        r matches Some(c) ==> command_of_members(members_view(members@)) == Some(c.view()),
        r is None ==> command_of_members(members_view(members@)) is None,
{
    let order = find_member(members, "order");
    let num = find_member(members, "num");
    match (order, num) {
        (Some(order), Some(num)) => Some(Command { order, num }),
        _ => None,
    }
}

/// Decodes a request body: UTF-8 text holding a JSON object with string
/// members `order` and `num`. Members of other names are ignored.
pub fn parse_command(body: &[u8]) -> (r: Result<Command, CommandError>)
    ensures
        r matches Ok(c) ==> parse_spec(body@) == Ok::<_, CommandError>(c.view()),
        r matches Err(e) ==> parse_spec(body@) == Err::<(Seq<char>, Seq<char>), _>(e),
{
    let text = match utf8_text(body) {
        Some(t) => t,
        None => return Err(CommandError::NotText),
    };
    assert(text@ == vstd::utf8::decode_utf8(body@));
    let members = match json_members(text) {
        Ok(m) => m,
        Err(_) => return Err(CommandError::Malformed),
    };
    match command_from_members(&members) {
        Some(c) => Ok(c),
        None => Err(CommandError::Malformed),
    }
}

/// Chooses what a command does: `open_delay` is acknowledged, and with
/// selector `1` it pulses the relay; anything else is a silent no-op.
pub fn dispatch(cmd: &Command) -> (p: Plan)
    ensures
        p == plan_spec(cmd.order@, cmd.num@),
{
    let acknowledge = same_text(&cmd.order, OPEN_DELAY);
    let pulse = acknowledge && same_text(&cmd.num, RELAY_ONE);
    Plan { acknowledge, pulse }
}

} // verus!
