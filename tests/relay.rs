use relay_node::actuator::{Level, Line, Phase, Pulse, Step, PULSE_MS};
use relay_node::command::{
    command_from_members, dispatch, find_member, parse_command, CommandError, Plan, ACK_TEXT,
};
use relay_node::request::{
    admission, check_body, plan_request, pulse_result, reply_text, request_error, Admission,
    RequestError, MAX_BODY_LEN, TOO_BIG_STATUS, TOO_BIG_TEXT,
};

fn run_clean(p: &mut Pulse, line: &mut Line) -> Vec<Step> {
    let mut steps = Vec::new();
    while let Some(s) = p.next_step() {
        steps.push(s);
        p.advance(line, true);
    }
    steps
}

#[test]
fn oversized_body_is_refused_before_reading() {
    assert_eq!(admission(Some(200)), Admission::TooBig);
    assert_eq!(admission(Some(129)), Admission::TooBig);
    assert_eq!(admission(Some(u64::MAX)), Admission::TooBig);
    assert_eq!(TOO_BIG_STATUS, 413);
    assert_eq!(TOO_BIG_TEXT, "Request too big");
}

#[test]
fn admitted_lengths_are_read_exactly() {
    assert_eq!(admission(Some(32)), Admission::Read(32));
    assert_eq!(admission(Some(128)), Admission::Read(MAX_BODY_LEN));
    assert_eq!(admission(Some(0)), Admission::Read(0));
    assert_eq!(admission(None), Admission::Read(0));
}

#[test]
fn short_read_is_a_transport_error() {
    assert_eq!(check_body(4, b"abcd"), Ok(()));
    assert_eq!(check_body(5, b"abcd"), Err(RequestError::Transport));
    assert_eq!(check_body(0, b""), Ok(()));
}

#[test]
fn open_delay_one_end_to_end() {
    let body = br#"{"order":"open_delay","num":"1"}"#;
    assert_eq!(body.len(), 32);
    assert_eq!(admission(Some(body.len() as u64)), Admission::Read(32));
    assert_eq!(check_body(32, body), Ok(()));
    let plan = plan_request(body).unwrap();
    assert_eq!(plan, Plan { acknowledge: true, pulse: true });
    assert_eq!(reply_text(plan), "Opening relay for 3 seconds");
    let mut line = Line::new();
    let mut p = Pulse::new(1);
    let steps = run_clean(&mut p, &mut line);
    assert_eq!(
        steps,
        vec![Step::Acquire, Step::MakeOutput, Step::SetHigh, Step::Delay(3000), Step::SetLow, Step::Release]
    );
    assert_eq!(line, Line { level: Level::Low, holder: None });
    assert_eq!(pulse_result(&p), Ok(()));
}

#[test]
fn unknown_command_is_a_silent_no_op() {
    let plan = plan_request(br#"{"order":"close","num":"2"}"#).unwrap();
    assert_eq!(plan, Plan { acknowledge: false, pulse: false });
    assert_eq!(reply_text(plan), "");
}

#[test]
fn unknown_selector_is_acknowledged_without_pulse() {
    let plan = plan_request(br#"{"order":"open_delay","num":"2"}"#).unwrap();
    assert_eq!(plan, Plan { acknowledge: true, pulse: false });
    assert_eq!(reply_text(plan), ACK_TEXT);
}

#[test]
fn parse_reads_both_members() {
    let cmd = parse_command(br#"{"num":"1","order":"open_delay"}"#).unwrap();
    assert_eq!(cmd.order, "open_delay");
    assert_eq!(cmd.num, "1");
}

#[test]
fn parse_ignores_other_members() {
    let cmd = parse_command(br#"{"order":"open_delay","num":"1","extra":[1,2]}"#).unwrap();
    assert_eq!(cmd.order, "open_delay");
    assert_eq!(cmd.num, "1");
}

#[test]
fn parse_decodes_escapes_and_non_ascii() {
    let cmd = parse_command("{\"order\":\"open\\u005fdelay\",\"num\":\"é\"}".as_bytes()).unwrap();
    assert_eq!(cmd.order, "open_delay");
    assert_eq!(cmd.num, "é");
    let plan = plan_request(br#"{"order":"open_delay","num":"1"}"#).unwrap();
    assert_eq!(plan, Plan { acknowledge: true, pulse: true });
}

#[test]
fn invalid_utf8_is_not_text() {
    assert_eq!(parse_command(&[0x7b, 0xff, 0x7d]).err(), Some(CommandError::NotText));
    assert_eq!(plan_request(&[0xc3]), Err(CommandError::NotText));
    assert_eq!(request_error(CommandError::NotText), RequestError::NotText);
}

#[test]
fn malformed_json_is_rejected() {
    assert_eq!(plan_request(b"open_delay 1"), Err(CommandError::Malformed));
    assert_eq!(plan_request(b""), Err(CommandError::Malformed));
    assert_eq!(plan_request(br#"["open_delay","1"]"#), Err(CommandError::Malformed));
    assert_eq!(plan_request(br#"{"order":"open_delay","num":"1""#), Err(CommandError::Malformed));
    assert_eq!(request_error(CommandError::Malformed), RequestError::Malformed);
}

#[test]
fn missing_or_non_string_members_are_rejected() {
    assert_eq!(plan_request(br#"{"order":"open_delay"}"#), Err(CommandError::Malformed));
    assert_eq!(plan_request(br#"{"num":"1"}"#), Err(CommandError::Malformed));
    assert_eq!(plan_request(br#"{"order":"open_delay","num":1}"#), Err(CommandError::Malformed));
    assert_eq!(plan_request(br#"{"order":null,"num":"1"}"#), Err(CommandError::Malformed));
}

#[test]
fn member_lookup() {
    let members = vec![
        ("num".to_string(), Some("1".to_string())),
        ("order".to_string(), None),
        ("x".to_string(), Some("y".to_string())),
    ];
    assert_eq!(find_member(&members, "num"), Some("1".to_string()));
    assert_eq!(find_member(&members, "order"), None);
    assert_eq!(find_member(&members, "z"), None);
    assert!(command_from_members(&members).is_none());
    let members = vec![
        ("num".to_string(), Some("7".to_string())),
        ("order".to_string(), Some("go".to_string())),
    ];
    let cmd = command_from_members(&members).unwrap();
    assert_eq!((cmd.order.as_str(), cmd.num.as_str()), ("go", "7"));
    assert_eq!(dispatch(&cmd), Plan { acknowledge: false, pulse: false });
}

#[test]
fn second_pulse_runs_after_the_first() {
    let mut line = Line::new();
    let mut first = Pulse::new(1);
    assert_eq!(run_clean(&mut first, &mut line).len(), 6);
    let mut second = Pulse::new(2);
    let steps = run_clean(&mut second, &mut line);
    assert_eq!(steps[3], Step::Delay(PULSE_MS));
    assert_eq!(second.phase, Phase::Done);
    assert_eq!(line, Line { level: Level::Low, holder: None });
}

#[test]
fn waiting_pulse_blocks_while_line_is_held() {
    let mut line = Line::new();
    let mut a = Pulse::new(1);
    let mut b = Pulse::new(2);
    a.advance(&mut line, true);
    a.advance(&mut line, true);
    a.advance(&mut line, true);
    assert_eq!(a.phase, Phase::Driving);
    assert_eq!(line.level, Level::High);
    b.advance(&mut line, true);
    assert_eq!(b.phase, Phase::Waiting);
    assert_eq!(line.holder, Some(1));
    while a.next_step().is_some() {
        a.advance(&mut line, true);
        b.advance(&mut line, true);
        assert!(!(a.holds() && b.holds()));
    }
    assert!(b.holds());
    assert_eq!(b.phase, Phase::Locked);
    assert_eq!(run_clean(&mut b, &mut line).len(), 5);
    assert!(b.succeeded());
}

#[test]
fn hardware_fault_fails_and_releases_the_guard() {
    let mut line = Line::new();
    let mut p = Pulse::new(9);
    p.advance(&mut line, true);
    p.advance(&mut line, true);
    p.advance(&mut line, false);
    assert_eq!(p.phase, Phase::Faulted);
    assert_eq!(line.level, Level::Unknown);
    assert_eq!(p.next_step(), Some(Step::Release));
    p.advance(&mut line, true);
    assert_eq!(p.phase, Phase::Failed);
    assert_eq!(line.holder, None);
    assert_eq!(p.next_step(), None);
    assert_eq!(pulse_result(&p), Err(RequestError::Hardware));
}
