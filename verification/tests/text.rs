use court_bot::decimal::{decimal_string, framed, joined, parse_decimal_str, ParseError};
use court_bot::handler::Response;
use court_bot::lawsuit::{mention_string, role_name_string, room_name_string, LawsuitCtx, Phase};
use court_bot::model::{CourtRoom, Lawsuit, LawsuitId, SnowflakeId, State};
use court_bot::protocol::{Channel, CourtMessage, Field, Reply, Request, Step};

#[test]
fn numbers_in_decimal_notation() {
    assert_eq!(decimal_string(0), "0");
    assert_eq!(decimal_string(7), "7");
    assert_eq!(decimal_string(10), "10");
    assert_eq!(decimal_string(1234567890), "1234567890");
    assert_eq!(decimal_string(u64::MAX as u128), "18446744073709551615");
    assert_eq!(decimal_string(u128::MAX), "340282366920938463463374607431768211455");
}

#[test]
fn texts_one_after_the_other() {
    assert_eq!(joined("room-", "12"), "room-12");
    assert_eq!(joined("", ""), "");
    assert_eq!(framed("<@", "5", ">"), "<@5>");
}

#[test]
fn identifiers_are_read_as_the_standard_library_reads_numbers() {
    let texts = [
        "0",
        "7",
        "007",
        "+5",
        "+0",
        "18446744073709551615",
        "+18446744073709551615",
        "000000000000000000000000000018446744073709551615",
        "",
        "+",
        "-",
        "-1",
        "++1",
        "+-1",
        "1+",
        "1x",
        "x1",
        " 1",
        "1 ",
        "1_000",
        "1.0",
        "0x10",
        "１２",
        "é",
        "18446744073709551616",
        "18446744073709551620",
        "99999999999999999999",
        "99999999999999999999x",
        "1844674407370955161x",
        "18446744073709551615x",
    ];
    for text in texts {
        let expected = text.parse::<u64>();
        let parsed = SnowflakeId::from_str(text);
        match (parsed, expected) {
            (Ok(id), Ok(n)) => assert_eq!(id.0, n, "{:?}", text),
            (Err(_), Err(_)) => {}
            (parsed, expected) => panic!("{:?}: {:?} but {:?}", text, parsed, expected),
        }
    }
}

#[test]
fn why_a_text_is_no_identifier() {
    assert_eq!(parse_decimal_str(""), Err(ParseError::Empty));
    assert_eq!(parse_decimal_str("+"), Err(ParseError::InvalidDigit));
    assert_eq!(parse_decimal_str("-"), Err(ParseError::InvalidDigit));
    assert_eq!(parse_decimal_str("-1"), Err(ParseError::InvalidDigit));
    assert_eq!(parse_decimal_str("12a"), Err(ParseError::InvalidDigit));
    assert_eq!(parse_decimal_str("１"), Err(ParseError::InvalidDigit));
    assert_eq!(parse_decimal_str("18446744073709551616"), Err(ParseError::PosOverflow));
    assert_eq!(parse_decimal_str("99999999999999999999x"), Err(ParseError::PosOverflow));
    assert_eq!(parse_decimal_str("1844674407370955161x"), Err(ParseError::InvalidDigit));
    assert_eq!(parse_decimal_str("18446744073709551615"), Ok(u64::MAX));
    assert_eq!(parse_decimal_str("+42"), Ok(42));
    assert_eq!(SnowflakeId::from_str("x"), Err(ParseError::InvalidDigit));
    assert_eq!(SnowflakeId::from_str("42"), Ok(SnowflakeId(42)));
}

#[test]
fn identifiers_are_read_back_as_written() {
    for n in [0, 1, 9, 10, 99, 100, 1234567890123456789, u64::MAX - 1, u64::MAX] {
        let id = SnowflakeId(n);
        assert_eq!(SnowflakeId::from_str(&id.to_string()), Ok(id));
    }
    assert_eq!(SnowflakeId(907).to_string(), "907");
}

#[test]
fn rooms_and_roles_are_named_by_number() {
    assert_eq!(room_name_string(1), "room-1");
    assert_eq!(room_name_string(10), "room-10");
    assert_eq!(role_name_string(1), "process-1");
    assert_eq!(role_name_string(27), "process-27");
    assert_eq!(room_name_string(usize::MAX as u128 + 1), format!("room-{}", usize::MAX as u128 + 1));
    assert_eq!(mention_string(SnowflakeId(5)), "<@5>");
    assert_eq!(mention_string(SnowflakeId(u64::MAX)), "<@18446744073709551615>");
}

fn filed() -> Lawsuit {
    Lawsuit::new(
        LawsuitId(7),
        SnowflakeId(11),
        SnowflakeId(12),
        SnowflakeId(13),
        "stole a cookie".to_string(),
        None,
        Some(SnowflakeId(15)),
    )
}

fn field(name: &str, value: &str, inline: bool) -> Field {
    Field { name: name.to_string(), value: value.to_string(), inline }
}

fn case_fields() -> Vec<Field> {
    vec![
        field("Grund", "stole a cookie", false),
        field("Kläger", "<@11>", true),
        field("Anwalt des Klägers", "Keinen", true),
        field("Angeklagter", "<@12>", true),
        field("Anwalt des Angeklagten", "<@15>", true),
        field("Richter", "<@13>", true),
    ]
}

fn idle_room() -> CourtRoom {
    CourtRoom { channel_id: SnowflakeId(70), ongoing_lawsuit: false, role_id: SnowflakeId(71) }
}

fn state_with(rooms: Vec<CourtRoom>, category: Option<u64>) -> State {
    State {
        guild_id: SnowflakeId(1),
        lawsuits: vec![],
        court_category: category.map(SnowflakeId),
        court_rooms: rooms,
        prison_role: None,
    }
}

#[test]
fn the_case_is_announced_with_its_fields_in_order() {
    let mut ctx = LawsuitCtx::new(filed(), SnowflakeId(1));
    assert_eq!(ctx.phase, Phase::Ready);
    assert_eq!(ctx.initialize(), Step::Call(Request::FindOrInsertState));
    assert_eq!(ctx.phase, Phase::LoadingState);
    let step = ctx.resume(Reply::State(state_with(vec![idle_room()], None)));
    assert_eq!(
        step,
        Step::Call(Request::SendMessage {
            channel_id: SnowflakeId(70),
            message: CourtMessage { title: "Prozess".to_string(), fields: case_fields() },
        })
    );
    assert_eq!(ctx.phase, Phase::Announcing(idle_room()));
    assert_eq!(ctx.lawsuit.court_room, SnowflakeId(0));
    let step = ctx.resume(Reply::Done);
    assert_eq!(
        step,
        Step::Answer(Response::Ephemeral("ha eine ufgmacht im channel <#70>".to_string()))
    );
    assert_eq!(ctx.phase, Phase::Acknowledged(idle_room()));
    assert_eq!(ctx.lawsuit.court_room, SnowflakeId(70));
    let mut bound = filed();
    bound.court_room = SnowflakeId(70);
    assert_eq!(ctx.resume(Reply::Done), Step::Call(Request::AddLawsuit(bound)));
    assert_eq!(
        ctx.resume(Reply::Done),
        Step::Call(Request::SetCourtRoom { channel_id: SnowflakeId(70), ongoing_lawsuit: true })
    );
    for member in [12, 15, 11, 13] {
        assert_eq!(
            ctx.resume(Reply::Done),
            Step::Call(Request::AddRole {
                user_id: SnowflakeId(member),
                role_id: SnowflakeId(71)
            })
        );
    }
    assert_eq!(ctx.resume(Reply::Done), Step::Done);
    assert_eq!(ctx.phase, Phase::Opened(idle_room()));
    assert_eq!(ctx.resume(Reply::Done), Step::Done);
    assert_eq!(ctx.phase, Phase::Opened(idle_room()));
}

#[test]
fn a_new_room_is_made_step_by_step() {
    let busy =
        CourtRoom { channel_id: SnowflakeId(60), ongoing_lawsuit: true, role_id: SnowflakeId(61) };
    let mut ctx = LawsuitCtx::new(filed(), SnowflakeId(1));
    ctx.initialize();
    let step = ctx.resume(Reply::State(state_with(vec![busy, busy], Some(50))));
    assert_eq!(step, Step::Call(Request::RoleByName("process-3".to_string())));
    assert_eq!(
        ctx.phase,
        Phase::FindingRole { room_number: 3, category_id: SnowflakeId(50) }
    );
    assert_eq!(
        ctx.resume(Reply::Role(None)),
        Step::Call(Request::CreateRole("process-3".to_string()))
    );
    assert_eq!(
        ctx.resume(Reply::Created(SnowflakeId(81))),
        Step::Call(Request::ChannelByName("room-3".to_string()))
    );
    assert_eq!(
        ctx.resume(Reply::Channel(None)),
        Step::Call(Request::CreateChannel {
            name: "room-3".to_string(),
            category_id: SnowflakeId(50),
            role_id: SnowflakeId(81),
        })
    );
    let made =
        CourtRoom { channel_id: SnowflakeId(80), ongoing_lawsuit: false, role_id: SnowflakeId(81) };
    assert_eq!(ctx.resume(Reply::Created(SnowflakeId(80))), Step::Call(Request::AddCourtRoom(made)));
    assert_eq!(ctx.phase, Phase::StoringRoom(made));
    assert_eq!(
        ctx.resume(Reply::Done),
        Step::Call(Request::SendMessage {
            channel_id: SnowflakeId(80),
            message: CourtMessage { title: "Prozess".to_string(), fields: case_fields() },
        })
    );
}

#[test]
fn a_channel_elsewhere_is_not_taken() {
    for parent in [None, Some(SnowflakeId(51))] {
        let mut ctx = LawsuitCtx::new(filed(), SnowflakeId(1));
        ctx.initialize();
        ctx.resume(Reply::State(state_with(vec![], Some(50))));
        ctx.resume(Reply::Role(Some(SnowflakeId(81))));
        assert_eq!(
            ctx.phase,
            Phase::FindingChannel {
                room_number: 1,
                category_id: SnowflakeId(50),
                role_id: SnowflakeId(81)
            }
        );
        let step = ctx.resume(Reply::Channel(Some(Channel { id: SnowflakeId(80), parent_id: parent })));
        assert_eq!(
            step,
            Step::Answer(Response::Ephemeral(
                "de channel room-1 isch i de falsche kategorie, man eh".to_string()
            ))
        );
        assert_eq!(ctx.phase, Phase::Answered);
        assert_eq!(ctx.resume(Reply::Done), Step::Done);
        assert_eq!(ctx.phase, Phase::Finished);
    }
}

#[test]
fn the_verdict_is_announced_after_the_case() {
    let mut bound = filed();
    bound.court_room = SnowflakeId(70);
    let room =
        CourtRoom { channel_id: SnowflakeId(70), ongoing_lawsuit: true, role_id: SnowflakeId(71) };
    let mut ctx = LawsuitCtx::new(bound, SnowflakeId(1));
    let step = ctx.rule_verdict(false, SnowflakeId(13), "guilty".to_string(), room);
    assert_eq!(
        step,
        Step::CallAll(vec![
            Request::SetCourtRoom { channel_id: SnowflakeId(70), ongoing_lawsuit: false },
            Request::SetLawsuit { lawsuit_id: LawsuitId(7), verdict: Some("guilty".to_string()) },
            Request::RemoveRole { user_id: SnowflakeId(12), role_id: SnowflakeId(71) },
            Request::RemoveRole { user_id: SnowflakeId(11), role_id: SnowflakeId(71) },
            Request::RemoveRole { user_id: SnowflakeId(13), role_id: SnowflakeId(71) },
        ])
    );
    assert_eq!(ctx.lawsuit.verdict, Some("guilty".to_string()));
    assert_eq!(ctx.phase, Phase::Closing(room));
    assert_eq!(
        ctx.resume(Reply::Done),
        Step::Call(Request::RemoveRole { user_id: SnowflakeId(15), role_id: SnowflakeId(71) })
    );
    let mut fields = case_fields();
    fields.push(field("Urteil", "guilty", true));
    assert_eq!(
        ctx.resume(Reply::Done),
        Step::Call(Request::SendMessage {
            channel_id: SnowflakeId(70),
            message: CourtMessage { title: "Prozess abgeschlossen".to_string(), fields },
        })
    );
    assert_eq!(ctx.resume(Reply::Done), Step::Done);
    assert_eq!(ctx.phase, Phase::Closed);
}

#[test]
fn only_the_judge_rules_without_override() {
    let room =
        CourtRoom { channel_id: SnowflakeId(70), ongoing_lawsuit: true, role_id: SnowflakeId(71) };
    for stranger in [0, 11, 12, 14, 15, u64::MAX] {
        let mut ctx = LawsuitCtx::new(filed(), SnowflakeId(1));
        let step = ctx.rule_verdict(false, SnowflakeId(stranger), "guilty".to_string(), room);
        assert_eq!(step, Step::Answer(Response::NoPermissions));
        assert_eq!(ctx.lawsuit, filed());
        assert_eq!(ctx.phase, Phase::Answered);
    }
    let mut ctx = LawsuitCtx::new(filed(), SnowflakeId(1));
    let step = ctx.rule_verdict(true, SnowflakeId(11), "guilty".to_string(), room);
    assert!(matches!(step, Step::CallAll(_)));
    assert_eq!(ctx.lawsuit.verdict, Some("guilty".to_string()));
}

#[test]
fn a_failure_ends_the_work() {
    let mut ctx = LawsuitCtx::new(filed(), SnowflakeId(1));
    ctx.initialize();
    assert_eq!(ctx.resume(Reply::Failed), Step::Failed);
    assert_eq!(ctx.phase, Phase::Finished);
    assert_eq!(ctx.resume(Reply::Done), Step::Done);

    let mut ctx = LawsuitCtx::new(filed(), SnowflakeId(1));
    assert_eq!(ctx.resume(Reply::Done), Step::Failed);

    let mut ctx = LawsuitCtx::new(filed(), SnowflakeId(1));
    ctx.initialize();
    assert_eq!(ctx.resume(Reply::Role(None)), Step::Failed);
    assert_eq!(ctx.phase, Phase::Finished);
}
