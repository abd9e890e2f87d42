use court_bot::handler::{
    CommandError, Dispatch, Handler, Interaction, Member, OptionValue, Response, Subcommand, Task,
};
use court_bot::lawsuit::Phase;
use court_bot::model::{CourtRoom, PrisonEntry, SnowflakeId};
use court_bot::protocol::{Channel, CourtMessage, Reply, Request, Step};
use court_bot::store::Mongo;

const GUILD: SnowflakeId = SnowflakeId(1);
const CATEGORY: u64 = 50;
const MANAGE_GUILD: u64 = 1 << 5;

const PLAINTIFF: u64 = 11;
const ACCUSED: u64 = 12;
const JUDGE: u64 = 13;
const PLAINTIFF_LAWYER: u64 = 14;
const ACCUSED_LAWYER: u64 = 15;
const CLERK: u64 = 16;

/// A guild on a platform, as far as the court touches it.
struct Platform {
    roles: Vec<(u64, String)>,
    channels: Vec<(u64, String, Option<u64>)>,
    categories: Vec<u64>,
    held: Vec<(u64, u64)>,
    messages: Vec<(u64, CourtMessage)>,
    next_id: u64,
    asked: usize,
    fail_at: Option<usize>,
}

impl Platform {
    fn new() -> Platform {
        Platform {
            roles: Vec::new(),
            channels: Vec::new(),
            categories: vec![CATEGORY],
            held: Vec::new(),
            messages: Vec::new(),
            next_id: 1000,
            asked: 0,
            fail_at: None,
        }
    }

    fn fresh(&mut self) -> u64 {
        let id = self.next_id;
        self.next_id += 1;
        id
    }

    fn holds(&self, user: u64, role: u64) -> bool {
        self.held.contains(&(user, role))
    }

    fn perform(&mut self, request: Request) -> Reply {
        self.asked += 1;
        if self.fail_at == Some(self.asked) {
            return Reply::Failed;
        }
        match request {
            Request::RoleByName(name) => {
                Reply::Role(self.roles.iter().find(|r| r.1 == name).map(|r| SnowflakeId(r.0)))
            }
            Request::CreateRole(name) => {
                let id = self.fresh();
                self.roles.push((id, name));
                Reply::Created(SnowflakeId(id))
            }
            Request::ChannelByName(name) => Reply::Channel(
                self.channels.iter().find(|c| c.1 == name).map(|c| Channel {
                    id: SnowflakeId(c.0),
                    parent_id: c.2.map(SnowflakeId),
                }),
            ),
            Request::CreateChannel { name, category_id, role_id: _ } => {
                let id = self.fresh();
                self.channels.push((id, name, Some(category_id.0)));
                Reply::Created(SnowflakeId(id))
            }
            Request::Category(id) => {
                if self.categories.contains(&id.0) {
                    Reply::Category(Some(id))
                } else {
                    Reply::Category(None)
                }
            }
            Request::SendMessage { channel_id, message } => {
                if self.channels.iter().any(|c| c.0 == channel_id.0) {
                    self.messages.push((channel_id.0, message));
                    Reply::Done
                } else {
                    Reply::NoChannel
                }
            }
            Request::AddRole { user_id, role_id } => {
                if !self.holds(user_id.0, role_id.0) {
                    self.held.push((user_id.0, role_id.0));
                }
                Reply::Done
            }
            Request::RemoveRole { user_id, role_id } => {
                self.held.retain(|h| *h != (user_id.0, role_id.0));
                Reply::Done
            }
            _ => Reply::Failed,
        }
    }
}

struct World {
    store: Mongo,
    platform: Platform,
    trace: Vec<String>,
}

struct Outcome {
    dispatch: Dispatch,
    answers: Vec<Response>,
    failed: bool,
}

fn label(request: &Request) -> String {
    match request {
        Request::FindOrInsertState => "state".to_string(),
        Request::SetCourtCategory(id) => format!("set category {}", id.0),
        Request::SetPrisonRole(id) => format!("set prison role {}", id.0),
        Request::AddCourtRoom(room) => format!(
            "add room {} role {} ongoing {}",
            room.channel_id.0, room.role_id.0, room.ongoing_lawsuit
        ),
        Request::AddLawsuit(lawsuit) => format!("add lawsuit in {}", lawsuit.court_room.0),
        Request::SetCourtRoom { channel_id, ongoing_lawsuit } => {
            format!("set room {} ongoing {}", channel_id.0, ongoing_lawsuit)
        }
        Request::SetLawsuit { verdict, .. } => format!("set verdict {:?}", verdict),
        Request::DeleteGuild => "delete guild".to_string(),
        Request::AddToPrison(id) => format!("imprison {}", id.0),
        Request::RemoveFromPrison(id) => format!("free {}", id.0),
        Request::FindPrisonEntry(id) => format!("find prisoner {}", id.0),
        Request::RoleByName(name) => format!("find role {}", name),
        Request::CreateRole(name) => format!("create role {}", name),
        Request::ChannelByName(name) => format!("find channel {}", name),
        Request::CreateChannel { name, category_id, role_id } => {
            format!("create channel {} in {} for {}", name, category_id.0, role_id.0)
        }
        Request::Category(id) => format!("category {}", id.0),
        Request::SendMessage { channel_id, message } => {
            format!("send {} to {}", message.title, channel_id.0)
        }
        Request::AddRole { user_id, role_id } => format!("grant {} to {}", role_id.0, user_id.0),
        Request::RemoveRole { user_id, role_id } => {
            format!("take {} from {}", role_id.0, user_id.0)
        }
    }
}

impl World {
    fn new() -> World {
        World { store: Mongo::new(), platform: Platform::new(), trace: Vec::new() }
    }

    fn with_category() -> World {
        let mut world = World::new();
        world.store.set_court_category(GUILD, SnowflakeId(CATEGORY));
        world
    }

    fn perform(&mut self, guild_id: SnowflakeId, request: Request) -> Reply {
        self.trace.push(label(&request));
        match self.store.serve(guild_id, &request) {
            Some(reply) => reply,
            None => self.platform.perform(request),
        }
    }

    /// Carries the dispatch through to its end.
    fn run(&mut self, started: (Dispatch, Step)) -> Outcome {
        let (mut dispatch, mut step) = started;
        let mut answers = Vec::new();
        let mut failed = false;
        for _ in 0..100 {
            let reply = match step {
                Step::Call(request) => {
                    let guild_id = dispatch.guild_id.expect("a request needs a guild");
                    self.perform(guild_id, request)
                }
                Step::CallAll(requests) => {
                    let guild_id = dispatch.guild_id.expect("a request needs a guild");
                    let mut all = Reply::Done;
                    for request in requests {
                        if self.perform(guild_id, request) != Reply::Done {
                            all = Reply::Failed;
                        }
                    }
                    all
                }
                Step::Answer(response) => {
                    self.trace.push("answer".to_string());
                    answers.push(response);
                    Reply::Done
                }
                Step::Done => return Outcome { dispatch, answers, failed },
                Step::Failed => {
                    failed = true;
                    return Outcome { dispatch, answers, failed };
                }
            };
            step = dispatch.resume(reply);
        }
        panic!("the dispatch does not end");
    }

    fn command(&mut self, interaction: Interaction) -> Outcome {
        let handler = Handler { dev_guild_id: None, set_global_commands: false };
        let started = handler.handle_interaction(&interaction);
        self.run(started)
    }
}

fn interaction(
    name: &str,
    subcommand: &str,
    options: Vec<Option<OptionValue>>,
    user: u64,
    permissions: u64,
    channel: u64,
) -> Interaction {
    Interaction {
        name: name.to_string(),
        subcommand: Some(Subcommand { name: subcommand.to_string(), options }),
        guild_id: Some(GUILD),
        member: Some(Member { user_id: SnowflakeId(user), permissions: Some(permissions) }),
        channel_id: SnowflakeId(channel),
    }
}

fn user(id: u64) -> Option<OptionValue> {
    Some(OptionValue::User(SnowflakeId(id)))
}

fn text(s: &str) -> Option<OptionValue> {
    Some(OptionValue::String(s.to_string()))
}

fn create(permissions: u64) -> Interaction {
    interaction(
        "lawsuit",
        "create",
        vec![
            user(PLAINTIFF),
            user(ACCUSED),
            user(JUDGE),
            text("stole a cookie"),
            user(PLAINTIFF_LAWYER),
            user(ACCUSED_LAWYER),
        ],
        CLERK,
        permissions,
        7,
    )
}

fn create_without_lawyers() -> Interaction {
    interaction(
        "lawsuit",
        "create",
        vec![user(PLAINTIFF), user(ACCUSED), user(JUDGE), text("noise")],
        CLERK,
        MANAGE_GUILD,
        7,
    )
}

fn close(by: u64, permissions: u64, channel: u64, verdict: &str) -> Interaction {
    interaction("lawsuit", "close", vec![text(verdict)], by, permissions, channel)
}

fn prison(subcommand: &str, options: Vec<Option<OptionValue>>, permissions: u64) -> Interaction {
    interaction("prison", subcommand, options, CLERK, permissions, 7)
}

fn strs(trace: &[String]) -> Vec<&str> {
    trace.iter().map(|s| s.as_str()).collect()
}

#[test]
fn initialize_without_category_asks_for_one() {
    let mut world = World::new();
    let outcome = world.command(create(MANAGE_GUILD));
    assert_eq!(
        outcome.answers,
        vec![Response::EphemeralStr(
            "Zuerst eine Kategorie für die Gerichtsräume festlegen mit `/lawsuit set_category`"
        )]
    );
    assert!(!outcome.failed);
    let state = world.store.find_or_insert_state(GUILD);
    assert!(state.lawsuits.is_empty());
    assert!(state.court_rooms.is_empty());
    assert!(world.platform.roles.is_empty());
    assert!(world.platform.channels.is_empty());
    assert_eq!(strs(&world.trace), vec!["state", "answer"]);
}

#[test]
fn initialize_with_category_makes_the_first_room() {
    let mut world = World::with_category();
    let outcome = world.command(create(MANAGE_GUILD));
    assert_eq!(
        outcome.answers,
        vec![Response::Ephemeral("ha eine ufgmacht im channel <#1001>".to_string())]
    );
    assert!(!outcome.failed);
    assert_eq!(outcome.dispatch.task, Task::Finished);
    assert_eq!(world.platform.roles, vec![(1000, "process-1".to_string())]);
    assert_eq!(world.platform.channels, vec![(1001, "room-1".to_string(), Some(CATEGORY))]);
    assert_eq!(
        strs(&world.trace),
        vec![
            "state",
            "find role process-1",
            "create role process-1",
            "find channel room-1",
            "create channel room-1 in 50 for 1000",
            "add room 1001 role 1000 ongoing false",
            "send Prozess to 1001",
            "answer",
            "add lawsuit in 1001",
            "set room 1001 ongoing true",
            "grant 1000 to 12",
            "grant 1000 to 15",
            "grant 1000 to 11",
            "grant 1000 to 14",
            "grant 1000 to 13",
        ]
    );
    let state = world.store.find_or_insert_state(GUILD);
    assert_eq!(
        state.court_rooms,
        vec![CourtRoom {
            channel_id: SnowflakeId(1001),
            ongoing_lawsuit: true,
            role_id: SnowflakeId(1000)
        }]
    );
    assert_eq!(state.lawsuits.len(), 1);
    assert_eq!(state.lawsuits[0].court_room, SnowflakeId(1001));
    assert_eq!(state.lawsuits[0].verdict, None);
    assert_eq!(state.lawsuits[0].plaintiff, SnowflakeId(PLAINTIFF));
    assert_eq!(state.lawsuits[0].reason, "stole a cookie");
    let lawsuit = outcome.dispatch.lawsuit.expect("the lawsuit");
    assert_eq!(
        lawsuit.phase,
        Phase::Opened(CourtRoom {
            channel_id: SnowflakeId(1001),
            ongoing_lawsuit: false,
            role_id: SnowflakeId(1000)
        })
    );
    assert_eq!(lawsuit.lawsuit, state.lawsuits[0]);
}

#[test]
fn room_is_idle_when_it_is_allocated() {
    let mut world = World::with_category();
    let handler = Handler { dev_guild_id: None, set_global_commands: false };
    let (mut dispatch, mut step) = handler.handle_interaction(&create(MANAGE_GUILD));
    // up to the answer
    loop {
        let reply = match step {
            Step::Call(request) => world.perform(GUILD, request),
            Step::Answer(_) => break,
            other => panic!("unexpected step {:?}", other),
        };
        step = dispatch.resume(reply);
    }
    let state = world.store.find_or_insert_state(GUILD);
    assert_eq!(state.court_rooms.len(), 1);
    assert!(!state.court_rooms[0].ongoing_lawsuit);
    assert!(state.lawsuits.is_empty());
}

#[test]
fn after_initialize_one_room_is_ongoing_with_one_open_lawsuit() {
    let mut world = World::with_category();
    world.command(create(MANAGE_GUILD));
    world.command(create_without_lawyers());
    let state = world.store.find_or_insert_state(GUILD);
    assert_eq!(state.court_rooms.len(), 2);
    for lawsuit in &state.lawsuits {
        let rooms = state
            .court_rooms
            .iter()
            .filter(|r| r.ongoing_lawsuit && r.channel_id == lawsuit.court_room)
            .count();
        let open = state
            .lawsuits
            .iter()
            .filter(|l| l.verdict.is_none() && l.court_room == lawsuit.court_room)
            .count();
        assert_eq!(rooms, 1);
        assert_eq!(open, 1);
    }
    assert_eq!(world.platform.roles.len(), 2);
    assert_eq!(world.platform.roles[1].1, "process-2");
    assert_eq!(world.platform.channels[1].1, "room-2");
}

#[test]
fn closing_as_the_judge_records_the_verdict() {
    let mut world = World::with_category();
    world.command(create(MANAGE_GUILD));
    for member in [PLAINTIFF, ACCUSED, JUDGE, PLAINTIFF_LAWYER, ACCUSED_LAWYER] {
        assert!(world.platform.holds(member, 1000));
    }
    world.trace.clear();
    let outcome = world.command(close(JUDGE, 0, 1001, "guilty"));
    assert_eq!(outcome.answers, vec![Response::EphemeralStr("ich han en dir abschlosse")]);
    assert!(!outcome.failed);
    let state = world.store.find_or_insert_state(GUILD);
    assert_eq!(state.court_rooms.len(), 1);
    assert!(!state.court_rooms[0].ongoing_lawsuit);
    assert_eq!(state.lawsuits.len(), 1);
    assert_eq!(state.lawsuits[0].verdict, Some("guilty".to_string()));
    for member in [PLAINTIFF, ACCUSED, JUDGE, PLAINTIFF_LAWYER, ACCUSED_LAWYER] {
        assert!(!world.platform.holds(member, 1000));
    }
    assert_eq!(
        strs(&world.trace),
        vec![
            "state",
            "set room 1001 ongoing false",
            "set verdict Some(\"guilty\")",
            "take 1000 from 12",
            "take 1000 from 11",
            "take 1000 from 13",
            "take 1000 from 15",
            "take 1000 from 14",
            "send Prozess abgeschlossen to 1001",
            "answer",
        ]
    );
    let message = &world.platform.messages[1].1;
    assert_eq!(message.fields.len(), 7);
    assert_eq!(message.fields[6].name, "Urteil");
    assert_eq!(message.fields[6].value, "guilty");
    assert!(message.fields[6].inline);
    assert_eq!(outcome.dispatch.lawsuit.expect("the lawsuit").phase, Phase::Closed);
}

#[test]
fn closing_with_the_permission_to_manage_the_guild() {
    let mut world = World::with_category();
    world.command(create(MANAGE_GUILD));
    let outcome = world.command(close(CLERK, MANAGE_GUILD, 1001, "acquitted"));
    assert_eq!(outcome.answers, vec![Response::EphemeralStr("ich han en dir abschlosse")]);
    let state = world.store.find_or_insert_state(GUILD);
    assert_eq!(state.lawsuits[0].verdict, Some("acquitted".to_string()));
    assert!(!state.court_rooms[0].ongoing_lawsuit);
}

#[test]
fn a_stranger_cannot_close_a_lawsuit() {
    let mut world = World::with_category();
    world.command(create(MANAGE_GUILD));
    world.trace.clear();
    // every permission but the one to manage the guild
    let outcome = world.command(close(PLAINTIFF, !MANAGE_GUILD, 1001, "guilty"));
    assert_eq!(outcome.answers, vec![Response::NoPermissions]);
    assert_eq!(strs(&world.trace), vec!["state", "answer"]);
    let state = world.store.find_or_insert_state(GUILD);
    assert_eq!(state.lawsuits[0].verdict, None);
    assert!(state.court_rooms[0].ongoing_lawsuit);
    assert!(world.platform.holds(JUDGE, 1000));
    assert_eq!(outcome.dispatch.lawsuit.expect("the lawsuit").lawsuit.verdict, None);
}

#[test]
fn an_idle_room_is_used_again() {
    let mut world = World::with_category();
    world.command(create(MANAGE_GUILD));
    world.command(close(JUDGE, 0, 1001, "guilty"));
    world.trace.clear();
    let outcome = world.command(create_without_lawyers());
    assert_eq!(
        outcome.answers,
        vec![Response::Ephemeral("ha eine ufgmacht im channel <#1001>".to_string())]
    );
    assert_eq!(
        strs(&world.trace),
        vec![
            "state",
            "send Prozess to 1001",
            "answer",
            "add lawsuit in 1001",
            "set room 1001 ongoing true",
            "grant 1000 to 12",
            "grant 1000 to 11",
            "grant 1000 to 13",
        ]
    );
    assert_eq!(world.platform.roles.len(), 1);
    assert_eq!(world.platform.channels.len(), 1);
    let state = world.store.find_or_insert_state(GUILD);
    assert_eq!(state.court_rooms.len(), 1);
    assert!(state.court_rooms[0].ongoing_lawsuit);
    assert_eq!(state.lawsuits.len(), 2);
    assert_eq!(state.lawsuits[0].verdict, Some("guilty".to_string()));
    assert_eq!(state.lawsuits[1].verdict, None);
    assert_ne!(state.lawsuits[0].id, state.lawsuits[1].id);
}

#[test]
fn allocating_twice_on_one_record_gives_the_same_room() {
    let mut store = Mongo::new();
    let idle =
        CourtRoom { channel_id: SnowflakeId(70), ongoing_lawsuit: false, role_id: SnowflakeId(71) };
    let busy =
        CourtRoom { channel_id: SnowflakeId(60), ongoing_lawsuit: true, role_id: SnowflakeId(61) };
    store.add_court_room(GUILD, &busy);
    store.add_court_room(GUILD, &idle);
    let handler = Handler { dev_guild_id: None, set_global_commands: false };
    for _ in 0..2 {
        let (mut dispatch, step) = handler.handle_interaction(&create(MANAGE_GUILD));
        assert_eq!(step, Step::Call(Request::FindOrInsertState));
        let state = store.find_or_insert_state(GUILD);
        let step = dispatch.resume(Reply::State(state));
        match step {
            Step::Call(Request::SendMessage { channel_id, .. }) => {
                assert_eq!(channel_id, SnowflakeId(70))
            }
            other => panic!("unexpected step {:?}", other),
        }
        assert_eq!(dispatch.lawsuit.expect("the lawsuit").phase, Phase::Announcing(idle));
    }
    assert_eq!(store.find_or_insert_state(GUILD).court_rooms, vec![busy, idle]);
}

#[test]
fn existing_role_and_channel_are_taken_for_the_new_room() {
    let mut world = World::with_category();
    world.platform.roles.push((300, "process-1".to_string()));
    world.platform.channels.push((301, "room-1".to_string(), Some(CATEGORY)));
    let outcome = world.command(create_without_lawyers());
    assert_eq!(
        outcome.answers,
        vec![Response::Ephemeral("ha eine ufgmacht im channel <#301>".to_string())]
    );
    assert_eq!(world.platform.roles.len(), 1);
    assert_eq!(world.platform.channels.len(), 1);
    assert_eq!(
        strs(&world.trace)[..5],
        [
            "state",
            "find role process-1",
            "find channel room-1",
            "add room 301 role 300 ongoing false",
            "send Prozess to 301",
        ]
    );
}

#[test]
fn channel_in_another_category_is_a_conflict() {
    let mut world = World::with_category();
    world.platform.channels.push((301, "room-1".to_string(), Some(99)));
    let outcome = world.command(create_without_lawyers());
    assert_eq!(
        outcome.answers,
        vec![Response::Ephemeral(
            "de channel room-1 isch i de falsche kategorie, man eh".to_string()
        )]
    );
    let state = world.store.find_or_insert_state(GUILD);
    assert!(state.court_rooms.is_empty());
    assert!(state.lawsuits.is_empty());
    assert_eq!(world.platform.channels.len(), 1);
}

#[test]
fn channel_without_category_is_a_conflict() {
    let mut world = World::with_category();
    world.platform.channels.push((301, "room-1".to_string(), None));
    let outcome = world.command(create_without_lawyers());
    assert_eq!(
        outcome.answers,
        vec![Response::Ephemeral(
            "de channel room-1 isch i de falsche kategorie, man eh".to_string()
        )]
    );
}

#[test]
fn vanished_channel_stops_the_opening() {
    let mut world = World::with_category();
    world.store.add_court_room(
        GUILD,
        &CourtRoom {
            channel_id: SnowflakeId(404),
            ongoing_lawsuit: false,
            role_id: SnowflakeId(405),
        },
    );
    let outcome = world.command(create_without_lawyers());
    assert_eq!(
        outcome.answers,
        vec![Response::EphemeralStr("i ha de channel für de prozess nöd gfunde")]
    );
    let state = world.store.find_or_insert_state(GUILD);
    assert!(state.lawsuits.is_empty());
    assert!(!state.court_rooms[0].ongoing_lawsuit);
    assert!(world.platform.held.is_empty());
}

#[test]
fn vanished_channel_is_reported_after_the_teardown() {
    let mut world = World::with_category();
    world.command(create(MANAGE_GUILD));
    world.platform.channels.clear();
    let outcome = world.command(close(JUDGE, 0, 1001, "guilty"));
    assert_eq!(
        outcome.answers,
        vec![Response::EphemeralStr("i ha de channel für de prozess nöd gfunde")]
    );
    let state = world.store.find_or_insert_state(GUILD);
    assert_eq!(state.lawsuits[0].verdict, Some("guilty".to_string()));
    assert!(!state.court_rooms[0].ongoing_lawsuit);
    assert!(world.platform.held.is_empty());
}

#[test]
fn failure_before_the_answer_is_an_internal_error() {
    let mut world = World::with_category();
    world.platform.fail_at = Some(2);
    let outcome = world.command(create(MANAGE_GUILD));
    assert_eq!(outcome.answers, vec![Response::EphemeralStr("An internal error occurred")]);
    assert!(!outcome.failed);
    assert_eq!(outcome.dispatch.error, None);
    let state = world.store.find_or_insert_state(GUILD);
    assert!(state.court_rooms.is_empty());
}

#[test]
fn failure_in_the_background_is_not_answered() {
    let mut world = World::with_category();
    // role, role, channel, channel, message, first grant, second grant
    world.platform.fail_at = Some(7);
    let outcome = world.command(create(MANAGE_GUILD));
    assert_eq!(
        outcome.answers,
        vec![Response::Ephemeral("ha eine ufgmacht im channel <#1001>".to_string())]
    );
    assert!(outcome.failed);
    assert_eq!(world.platform.held, vec![(ACCUSED, 1000)]);
    let state = world.store.find_or_insert_state(GUILD);
    assert_eq!(state.lawsuits.len(), 1);
    assert!(state.court_rooms[0].ongoing_lawsuit);
}

#[test]
fn failure_of_the_teardown_skips_the_lawyers() {
    let mut world = World::with_category();
    world.command(create(MANAGE_GUILD));
    // the first of the three removals that are asked for together
    world.platform.fail_at = Some(world.platform.asked + 1);
    world.trace.clear();
    let outcome = world.command(close(JUDGE, 0, 1001, "guilty"));
    assert_eq!(outcome.answers, vec![Response::EphemeralStr("An internal error occurred")]);
    assert_eq!(
        strs(&world.trace),
        vec![
            "state",
            "set room 1001 ongoing false",
            "set verdict Some(\"guilty\")",
            "take 1000 from 12",
            "take 1000 from 11",
            "take 1000 from 13",
            "answer",
        ]
    );
    assert!(world.platform.holds(ACCUSED_LAWYER, 1000));
    assert!(world.platform.holds(PLAINTIFF_LAWYER, 1000));
}

#[test]
fn close_outside_a_court_room() {
    let mut world = World::with_category();
    world.command(create(MANAGE_GUILD));
    let outcome = world.command(close(JUDGE, 0, 7, "guilty"));
    assert_eq!(
        outcome.answers,
        vec![Response::EphemeralStr("i dem channel lauft kein aktive prozess!")]
    );
    let outcome = world.command(close(JUDGE, 0, 1001, "guilty"));
    assert_eq!(outcome.answers, vec![Response::EphemeralStr("ich han en dir abschlosse")]);
    let outcome = world.command(close(JUDGE, 0, 1001, "guilty again"));
    assert_eq!(
        outcome.answers,
        vec![Response::EphemeralStr("i dem channel lauft kein aktive prozess!")]
    );
    let state = world.store.find_or_insert_state(GUILD);
    assert_eq!(state.lawsuits[0].verdict, Some("guilty".to_string()));
}

#[test]
fn create_needs_the_permission_to_manage_the_guild() {
    let mut world = World::with_category();
    // the permission to administrate is another bit
    let outcome = world.command(create(1 << 3));
    assert_eq!(outcome.answers, vec![Response::NoPermissions]);
    assert_eq!(world.trace, vec!["answer".to_string()]);
    let outcome = world.command(create(!MANAGE_GUILD));
    assert_eq!(outcome.answers, vec![Response::NoPermissions]);
    let outcome = world.command(create(MANAGE_GUILD | 1 << 3));
    assert_eq!(
        outcome.answers,
        vec![Response::Ephemeral("ha eine ufgmacht im channel <#1001>".to_string())]
    );
}

#[test]
fn set_category_takes_a_category() {
    let mut world = World::new();
    let outcome = world.command(interaction(
        "lawsuit",
        "set_category",
        vec![Some(OptionValue::Channel(SnowflakeId(CATEGORY)))],
        CLERK,
        MANAGE_GUILD,
        7,
    ));
    assert_eq!(outcome.answers, vec![Response::EphemeralStr("isch gsetzt")]);
    assert_eq!(
        world.store.find_or_insert_state(GUILD).court_category,
        Some(SnowflakeId(CATEGORY))
    );
    let outcome = world.command(interaction(
        "lawsuit",
        "set_category",
        vec![Some(OptionValue::Channel(SnowflakeId(51)))],
        CLERK,
        MANAGE_GUILD,
        7,
    ));
    assert_eq!(outcome.answers, vec![Response::EphemeralStr("Das ist keine Kategorie!")]);
    assert_eq!(
        world.store.find_or_insert_state(GUILD).court_category,
        Some(SnowflakeId(CATEGORY))
    );
    let outcome = world.command(interaction(
        "lawsuit",
        "set_category",
        vec![Some(OptionValue::Channel(SnowflakeId(52)))],
        CLERK,
        0,
        7,
    ));
    assert_eq!(outcome.answers, vec![Response::NoPermissions]);
}

#[test]
fn clear_erases_the_record() {
    let mut world = World::with_category();
    world.command(create(MANAGE_GUILD));
    let outcome = world.command(interaction("lawsuit", "clear", vec![], CLERK, 0, 7));
    assert_eq!(outcome.answers, vec![Response::NoPermissions]);
    assert_eq!(world.store.find_or_insert_state(GUILD).lawsuits.len(), 1);
    let outcome = world.command(interaction("lawsuit", "clear", vec![], CLERK, MANAGE_GUILD, 7));
    assert_eq!(outcome.answers, vec![Response::EphemeralStr("alles weg")]);
    let state = world.store.find_or_insert_state(GUILD);
    assert_eq!(state.guild_id, GUILD);
    assert!(state.lawsuits.is_empty());
    assert!(state.court_rooms.is_empty());
    assert_eq!(state.court_category, None);
}

#[test]
fn arrest_and_release_keep_entry_and_role_together() {
    let mut world = World::new();
    let outcome = world.command(prison(
        "set_role",
        vec![Some(OptionValue::Role(SnowflakeId(900)))],
        MANAGE_GUILD,
    ));
    assert_eq!(outcome.answers, vec![Response::EphemeralStr("isch gsetzt")]);
    assert_eq!(world.store.find_or_insert_state(GUILD).prison_role, Some(SnowflakeId(900)));

    world.trace.clear();
    let outcome = world.command(prison("arrest", vec![user(ACCUSED)], MANAGE_GUILD));
    assert_eq!(outcome.answers, vec![Response::EphemeralStr("hani igsperrt")]);
    assert_eq!(strs(&world.trace), vec!["state", "imprison 12", "grant 900 to 12", "answer"]);
    assert_eq!(
        world.store.find_prison_entry(GUILD, SnowflakeId(ACCUSED)),
        Some(PrisonEntry { guild_id: GUILD, user_id: SnowflakeId(ACCUSED) })
    );
    assert!(world.platform.holds(ACCUSED, 900));

    // a second arrest changes nothing
    let outcome = world.command(prison("arrest", vec![user(ACCUSED)], MANAGE_GUILD));
    assert_eq!(outcome.answers, vec![Response::EphemeralStr("hani igsperrt")]);
    assert!(world.store.find_prison_entry(GUILD, SnowflakeId(ACCUSED)).is_some());
    assert_eq!(world.platform.held, vec![(ACCUSED, 900)]);

    world.trace.clear();
    let outcome = world.command(prison("release", vec![user(ACCUSED)], MANAGE_GUILD));
    assert_eq!(outcome.answers, vec![Response::EphemeralStr("d'freiheit wartet")]);
    assert_eq!(strs(&world.trace), vec!["state", "free 12", "take 900 from 12", "answer"]);
    assert_eq!(world.store.find_prison_entry(GUILD, SnowflakeId(ACCUSED)), None);
    assert!(!world.platform.holds(ACCUSED, 900));

    // a second release changes nothing
    let outcome = world.command(prison("release", vec![user(ACCUSED)], MANAGE_GUILD));
    assert_eq!(outcome.answers, vec![Response::EphemeralStr("d'freiheit wartet")]);
    assert_eq!(world.store.find_prison_entry(GUILD, SnowflakeId(ACCUSED)), None);
}

#[test]
fn prison_needs_a_role() {
    let mut world = World::new();
    for subcommand in ["arrest", "release"] {
        world.trace.clear();
        let outcome = world.command(prison(subcommand, vec![user(ACCUSED)], MANAGE_GUILD));
        assert_eq!(
            outcome.answers,
            vec![Response::EphemeralStr("du mosch zerst e rolle setze mit /prison set_role")]
        );
        assert_eq!(strs(&world.trace), vec!["state", "answer"]);
    }
    assert_eq!(world.store.find_prison_entry(GUILD, SnowflakeId(ACCUSED)), None);
    assert!(world.platform.held.is_empty());
}

#[test]
fn prison_needs_the_permission_to_manage_the_guild() {
    let mut world = World::new();
    for (subcommand, option) in [
        ("set_role", Some(OptionValue::Role(SnowflakeId(900)))),
        ("arrest", user(ACCUSED)),
        ("release", user(ACCUSED)),
    ] {
        let outcome = world.command(prison(subcommand, vec![option], !MANAGE_GUILD));
        assert_eq!(outcome.answers, vec![Response::NoPermissions]);
    }
    assert_eq!(world.trace, vec!["answer".to_string(); 3]);
}

#[test]
fn prisoner_who_joins_again_gets_the_role_back() {
    let mut world = World::new();
    world.store.set_prison_role(GUILD, SnowflakeId(900));
    world.store.add_to_prison(GUILD, SnowflakeId(ACCUSED));
    let handler = Handler { dev_guild_id: None, set_global_commands: false };
    let outcome = world.run(handler.handle_guild_member_join(GUILD, SnowflakeId(ACCUSED)));
    assert!(outcome.answers.is_empty());
    assert!(!outcome.failed);
    assert_eq!(strs(&world.trace), vec!["state", "find prisoner 12", "grant 900 to 12"]);
    assert_eq!(world.platform.held, vec![(ACCUSED, 900)]);
}

#[test]
fn member_who_joins_without_entry_gets_nothing() {
    let mut world = World::new();
    world.store.set_prison_role(GUILD, SnowflakeId(900));
    world.store.add_to_prison(GUILD, SnowflakeId(ACCUSED));
    world.store.add_to_prison(SnowflakeId(2), SnowflakeId(PLAINTIFF));
    let handler = Handler { dev_guild_id: None, set_global_commands: false };
    let outcome = world.run(handler.handle_guild_member_join(GUILD, SnowflakeId(PLAINTIFF)));
    assert!(outcome.answers.is_empty());
    assert_eq!(strs(&world.trace), vec!["state", "find prisoner 11"]);
    assert!(world.platform.held.is_empty());
}

#[test]
fn member_who_joins_a_guild_without_prison_role() {
    let mut world = World::new();
    world.store.add_to_prison(GUILD, SnowflakeId(ACCUSED));
    let handler = Handler { dev_guild_id: None, set_global_commands: false };
    let outcome = world.run(handler.handle_guild_member_join(GUILD, SnowflakeId(ACCUSED)));
    assert!(outcome.answers.is_empty());
    assert_eq!(strs(&world.trace), vec!["state"]);
    assert!(world.platform.held.is_empty());
}

#[test]
fn failure_on_join_is_silent() {
    let mut world = World::new();
    world.store.set_prison_role(GUILD, SnowflakeId(900));
    world.store.add_to_prison(GUILD, SnowflakeId(ACCUSED));
    world.platform.fail_at = Some(1);
    let handler = Handler { dev_guild_id: None, set_global_commands: false };
    let outcome = world.run(handler.handle_guild_member_join(GUILD, SnowflakeId(ACCUSED)));
    assert!(outcome.answers.is_empty());
    assert!(outcome.failed);
}

#[test]
fn unknown_command_is_not_implemented() {
    let mut world = World::new();
    let outcome = world.command(interaction("weather", "today", vec![], CLERK, MANAGE_GUILD, 7));
    assert_eq!(outcome.answers, vec![Response::EphemeralStr("not implemented :(")]);
    assert_eq!(outcome.dispatch.error, None);
}

fn rejected(interaction: Interaction) -> Option<CommandError> {
    let mut world = World::with_category();
    let outcome = world.command(interaction);
    assert_eq!(outcome.answers, vec![Response::EphemeralStr("An internal error occurred")]);
    assert_eq!(world.trace, vec!["answer".to_string()]);
    outcome.dispatch.error
}

#[test]
fn commands_that_cannot_be_understood() {
    for name in ["lawsuit", "prison"] {
        let mut bare = interaction(name, "x", vec![], CLERK, MANAGE_GUILD, 7);
        bare.subcommand = None;
        bare.guild_id = None;
        assert_eq!(rejected(bare), Some(CommandError::NoSubcommand));

        let mut nowhere = interaction(name, "x", vec![], CLERK, MANAGE_GUILD, 7);
        nowhere.guild_id = None;
        nowhere.member = None;
        assert_eq!(rejected(nowhere), Some(CommandError::NoGuild));

        let mut nobody = interaction(name, "x", vec![], CLERK, MANAGE_GUILD, 7);
        nobody.member = None;
        assert_eq!(rejected(nobody), Some(CommandError::NoMember));

        let mut unknown = interaction(name, "x", vec![], CLERK, MANAGE_GUILD, 7);
        unknown.member = Some(Member { user_id: SnowflakeId(CLERK), permissions: None });
        assert_eq!(rejected(unknown), Some(CommandError::NoMemberPermissions));

        let other = interaction(name, "x", vec![], CLERK, MANAGE_GUILD, 7);
        assert_eq!(rejected(other), Some(CommandError::UnknownSubcommand));
    }
}

#[test]
fn options_that_cannot_be_understood() {
    let lawsuit = |subcommand: &str, options| {
        rejected(interaction("lawsuit", subcommand, options, CLERK, MANAGE_GUILD, 7))
    };
    assert_eq!(lawsuit("create", vec![]), Some(CommandError::ExpectedValue));
    assert_eq!(
        lawsuit("create", vec![user(1), None, user(3), text("r")]),
        Some(CommandError::ExpectedValue)
    );
    assert_eq!(
        lawsuit("create", vec![user(1), user(2), user(3)]),
        Some(CommandError::ExpectedValue)
    );
    assert_eq!(
        lawsuit("create", vec![text("a"), text("b"), user(3), user(4)]),
        Some(CommandError::ExpectedUser)
    );
    assert_eq!(
        lawsuit("create", vec![user(1), user(2), user(3), user(4)]),
        Some(CommandError::ExpectedString)
    );
    assert_eq!(
        lawsuit("create", vec![user(1), user(2), user(3), text("r"), text("l")]),
        Some(CommandError::ExpectedUser)
    );
    assert_eq!(
        lawsuit("create", vec![user(1), user(2), user(3), text("r"), None, Some(OptionValue::Other)]),
        Some(CommandError::ExpectedUser)
    );
    assert_eq!(lawsuit("set_category", vec![user(1)]), Some(CommandError::ExpectedChannel));
    assert_eq!(lawsuit("set_category", vec![]), Some(CommandError::ExpectedValue));
    assert_eq!(lawsuit("close", vec![user(1)]), Some(CommandError::ExpectedString));
    assert_eq!(lawsuit("close", vec![None]), Some(CommandError::ExpectedValue));
    let prison =
        |subcommand: &str, options| rejected(prison(subcommand, options, MANAGE_GUILD));
    assert_eq!(prison("set_role", vec![user(1)]), Some(CommandError::ExpectedRole));
    assert_eq!(prison("set_role", vec![]), Some(CommandError::ExpectedValue));
    assert_eq!(prison("arrest", vec![text("x")]), Some(CommandError::ExpectedUser));
    assert_eq!(prison("release", vec![None]), Some(CommandError::ExpectedValue));
}

#[test]
fn command_errors_in_words() {
    assert_eq!(CommandError::NoSubcommand.message(), "needs subcommand");
    assert_eq!(CommandError::NoGuild.message(), "guild_id not found");
    assert_eq!(CommandError::NoMember.message(), "command must be used my member");
    assert_eq!(CommandError::NoMemberPermissions.message(), "must be in interaction");
    assert_eq!(CommandError::UnknownSubcommand.message(), "Unknown subcommand");
    assert_eq!(CommandError::ExpectedValue.message(), "Expected value!");
    assert_eq!(CommandError::ExpectedUser.message(), "Expected user!");
    assert_eq!(CommandError::ExpectedString.message(), "Expected string!");
    assert_eq!(CommandError::ExpectedChannel.message(), "Expected string!");
    assert_eq!(CommandError::ExpectedRole.message(), "Expected string!");
}

#[test]
fn missing_lawyers_are_optional() {
    let mut world = World::with_category();
    let outcome = world.command(interaction(
        "lawsuit",
        "create",
        vec![user(PLAINTIFF), user(ACCUSED), user(JUDGE), text("r"), None, user(ACCUSED_LAWYER)],
        CLERK,
        MANAGE_GUILD,
        7,
    ));
    assert_eq!(outcome.answers.len(), 1);
    let state = world.store.find_or_insert_state(GUILD);
    assert_eq!(state.lawsuits[0].plaintiff_lawyer, None);
    assert_eq!(state.lawsuits[0].accused_lawyer, Some(SnowflakeId(ACCUSED_LAWYER)));
    assert_eq!(world.platform.held, vec![(ACCUSED, 1000), (ACCUSED_LAWYER, 1000), (PLAINTIFF, 1000), (JUDGE, 1000)]);
}

#[test]
fn responses_in_words() {
    assert_eq!(Response::EphemeralStr("alles weg").content(), "alles weg");
    assert_eq!(Response::Ephemeral("x <#1>".to_string()).content(), "x <#1>");
    assert_eq!(Response::NoPermissions.content(), "du häsch kei recht für da!");
}
