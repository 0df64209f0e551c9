//! The POST endpoint's decisions: admission by declared size, the plan that
//! a body yields, the text written back, and how a pulse ends the exchange.
use vstd::prelude::*;
use crate::actuator::{Phase, Pulse};
use crate::command::{
    dispatch, parse_command, parse_spec, plan_spec, member_text, CommandError, Plan, ACK_TEXT,
    OPEN_DELAY, RELAY_ONE,
};
use crate::wire::json_object_members;

verus! {

/// The largest body, in bytes, that the endpoint reads.
pub const MAX_BODY_LEN: usize = 128;

/// The status written for a body larger than [`MAX_BODY_LEN`].
pub const TOO_BIG_STATUS: u16 = 413;

/// The text written for a body larger than [`MAX_BODY_LEN`].
pub const TOO_BIG_TEXT: &'static str = "Request too big";

/// What to do with a request, judged by its declared length alone.
#[derive(Clone, Copy, Debug, PartialEq, Eq, Structural)]
pub enum Admission {
    /// Answer with [`TOO_BIG_STATUS`] and [`TOO_BIG_TEXT`]; read nothing.
    TooBig,
    /// Read exactly this many bytes of body.
    Read(usize),
}

/// Why an exchange fails.
#[derive(Clone, Copy, Debug, PartialEq, Eq, Structural)]
pub enum RequestError {
    /// Fewer body bytes arrived than were declared.
    Transport,
    /// The body is not valid UTF-8.
    NotText,
    /// The body is not a JSON object with string members `order` and `num`.
    Malformed,
    /// The relay could not be made an output or driven.
    Hardware,
}

/// The admission of a request that declares `content_len` (none counts as 0).
pub open spec fn admission_spec(content_len: Option<u64>) -> Admission {
    match content_len {
        None => Admission::Read(0),
        Some(n) => if n > MAX_BODY_LEN { Admission::TooBig } else { Admission::Read(n as usize) },
    }
}

/// The plan that a body yields, or why it yields none.
pub open spec fn request_plan_spec(body: Seq<u8>) -> Result<Plan, CommandError> {
    match parse_spec(body) {
        Ok((o, n)) => Ok(plan_spec(o, n)),
        Err(e) => Err(e),
    }
}

/// Admits a request by its declared length: over [`MAX_BODY_LEN`] it is
/// refused before any of its body is read, and no pulse can follow. Only the
/// declared number of bytes is ever read; anything sent beyond it is ignored.
pub fn admission(content_len: Option<u64>) -> (a: Admission)
    ensures
        a == admission_spec(content_len),
        content_len matches Some(n) && n > MAX_BODY_LEN ==> a == Admission::TooBig,
        a matches Admission::Read(n) ==> n <= MAX_BODY_LEN,
{
    match content_len {
        None => Admission::Read(0),
        Some(n) => if n > MAX_BODY_LEN as u64 {
            Admission::TooBig
        } else {
            Admission::Read(n as usize)
        },
    }
}

/// Checks that the read delivered exactly the declared number of bytes.
pub fn check_body(declared: usize, body: &[u8]) -> (r: Result<(), RequestError>)
    ensures
        r is Ok <==> body@.len() == declared,
        r matches Err(e) ==> e == RequestError::Transport,
{
    if body.len() == declared {
        Ok(())
    } else {
        Err(RequestError::Transport)
    }
}

/// Decodes a body and chooses what it asks for.
pub fn plan_request(body: &[u8]) -> (r: Result<Plan, CommandError>)
    ensures
        r == request_plan_spec(body@),
{
    match parse_command(body) {
        Ok(cmd) => Ok(dispatch(&cmd)),
        Err(e) => Err(e),
    }
}

/// The request error for a body that yields no command.
pub fn request_error(e: CommandError) -> (r: RequestError)
    ensures
        e == CommandError::NotText ==> r == RequestError::NotText,
        e == CommandError::Malformed ==> r == RequestError::Malformed,
{
    match e {
        CommandError::NotText => RequestError::NotText,
        CommandError::Malformed => RequestError::Malformed,
    }
}

/// The text of the success response for `plan`: the acknowledgment for an
/// `open_delay` command, nothing otherwise.
pub fn reply_text(plan: Plan) -> (t: &'static str)
    ensures
        plan.acknowledge ==> t@ == ACK_TEXT@,
        !plan.acknowledge ==> t@ == ""@,
{
    if plan.acknowledge {
        ACK_TEXT
    } else {
        ""
    }
}

/// How a finished pulse ends the exchange.
pub fn pulse_result(p: &Pulse) -> (r: Result<(), RequestError>)
    requires
        p.phase == Phase::Done || p.phase == Phase::Failed,
    ensures
        r is Ok <==> p.phase == Phase::Done,
        r matches Err(e) ==> e == RequestError::Hardware,
{
    match p.phase {
        Phase::Done => Ok(()),
        _ => Err(RequestError::Hardware),
    }
}

/// A structurally valid command other than `open_delay` with selector `1`
/// succeeds without a pulse; it is acknowledged exactly when its identifier
/// is `open_delay`.
pub proof fn lemma_other_commands_do_not_pulse(body: Seq<u8>, order: Seq<char>, num: Seq<char>)
    requires
        parse_spec(body) == Ok::<_, CommandError>((order, num)),
        order != OPEN_DELAY@ || num != RELAY_ONE@,
    ensures
        request_plan_spec(body) == Ok::<_, CommandError>(Plan { acknowledge: order == OPEN_DELAY@, pulse: false }),
{
}

/// A body pulses the relay exactly when it decodes to `open_delay` with
/// selector `1`, and such a body is acknowledged.
pub proof fn lemma_pulse_only_on_open_delay_one(body: Seq<u8>)
    ensures
        (request_plan_spec(body) matches Ok(p) && p.pulse) <==> parse_spec(body) == Ok::<_, CommandError>((OPEN_DELAY@, RELAY_ONE@)),
        parse_spec(body) == Ok::<_, CommandError>((OPEN_DELAY@, RELAY_ONE@)) ==> request_plan_spec(body) == Ok::<_, CommandError>(Plan { acknowledge: true, pulse: true }),
{
}

/// A body that is not UTF-8, not a JSON object, or lacks a string `order`
/// or `num` makes the exchange fail, so no pulse follows from it.
pub proof fn lemma_bad_body_fails(body: Seq<u8>)
    ensures
        !vstd::utf8::valid_utf8(body) ==> request_plan_spec(body) == Err::<Plan, _>(CommandError::NotText),
        vstd::utf8::valid_utf8(body) && json_object_members(vstd::utf8::decode_utf8(body)) is None
            ==> request_plan_spec(body) == Err::<Plan, _>(CommandError::Malformed),
        vstd::utf8::valid_utf8(body) && (json_object_members(vstd::utf8::decode_utf8(body)) matches Some(m)
            && (member_text(m, "order"@) is None || member_text(m, "num"@) is None))
            ==> request_plan_spec(body) == Err::<Plan, _>(CommandError::Malformed),
{
}

} // verus!
