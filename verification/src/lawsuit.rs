use crate::decimal::{decimal, decimal_string, framed, joined};
use crate::handler::{Response, ResponseView};
use crate::model::{CourtRoom, Lawsuit, LawsuitView, SnowflakeId, State, StateView};
use crate::protocol::{
    CourtMessage, CourtMessageView, Field, FieldView, Reply, ReplyView, Request,
    RequestView, Step, StepView,
};
use vstd::prelude::*;

verus! {

/// How far the work on a lawsuit has come. A phase in which work is going on waits for what
/// came back from the request that was made when it was entered.
#[derive(Debug, Clone, Copy, PartialEq, Eq, Structural)]
pub enum Phase {
    /// Nothing has been asked yet.
    Ready,
    /// The guild's record was asked for.
    LoadingState,
    /// No room is idle: the role of the room with this number was looked up.
    FindingRole { room_number: u128, category_id: SnowflakeId },
    CreatingRole { room_number: u128, category_id: SnowflakeId },
    FindingChannel { room_number: u128, category_id: SnowflakeId, role_id: SnowflakeId },
    CreatingChannel { role_id: SnowflakeId },
    /// The new room was handed to the store.
    StoringRoom(CourtRoom),
    /// The case was announced in the room.
    Announcing(CourtRoom),
    /// The member was told where the lawsuit was opened. The rest is done in the background.
    Acknowledged(CourtRoom),
    StoringLawsuit(CourtRoom),
    MarkingRoom(CourtRoom),
    /// The room's role is being granted; `next` counts the participants who were asked for.
    Granting { room: CourtRoom, next: usize },
    /// The verdict is being recorded, the room freed and the parties' role taken away.
    Closing(CourtRoom),
    /// The room's role is being taken from the lawyers; `next` counts those who were asked for.
    Stripping { room: CourtRoom, next: usize },
    AnnouncingVerdict,
    /// The lawsuit is open in the room, and its participants carry the room's role.
    Opened(CourtRoom),
    /// The lawsuit is closed.
    Closed,
    /// The member was told why nothing more is done.
    Answered,
    Finished,
}

/// A lawsuit on its way through the court of one guild.
#[derive(Debug, PartialEq, Eq)]
pub struct LawsuitCtx {
    pub lawsuit: Lawsuit,
    pub guild_id: SnowflakeId,
    pub phase: Phase,
}

/// A lawsuit on its way as a mathematical value.
pub struct LawsuitCtxView {
    pub lawsuit: LawsuitView,
    pub guild_id: SnowflakeId,
    pub phase: Phase,
}

impl View for LawsuitCtx {
    type V = LawsuitCtxView;

    open spec fn view(&self) -> LawsuitCtxView {
        LawsuitCtxView { lawsuit: self.lawsuit@, guild_id: self.guild_id, phase: self.phase }
    }
}

/// The name of the channel of the room with this number.
pub open spec fn room_name(number: nat) -> Seq<char> {
    "room-"@ + decimal(number)
}

/// The name of the role of the room with this number.
pub open spec fn role_name(number: nat) -> Seq<char> {
    "process-"@ + decimal(number)
}

/// How a member is named in a message.
pub open spec fn mention(id: SnowflakeId) -> Seq<char> {
    "<@"@ + decimal(id.0 as nat) + ">"@
}

/// How a lawyer is named in a message: a side need not have one.
pub open spec fn lawyer_text(lawyer: Option<SnowflakeId>) -> Seq<char> {
    match lawyer {
        Some(id) => mention(id),
        None => "Keinen"@,
    }
}

/// The fields that describe a case: the reason, then the plaintiff's side, the accused's side
/// and the judge.
pub open spec fn case_fields(lawsuit: LawsuitView) -> Seq<FieldView> {
    seq![
        FieldView { name: "Grund"@, value: lawsuit.reason, inline: false },
        FieldView { name: "Kläger"@, value: mention(lawsuit.plaintiff), inline: true },
        FieldView {
            name: "Anwalt des Klägers"@,
            value: lawyer_text(lawsuit.plaintiff_lawyer),
            inline: true,
        },
        FieldView { name: "Angeklagter"@, value: mention(lawsuit.accused), inline: true },
        FieldView {
            name: "Anwalt des Angeklagten"@,
            value: lawyer_text(lawsuit.accused_lawyer),
            inline: true,
        },
        FieldView { name: "Richter"@, value: mention(lawsuit.judge), inline: true },
    ]
}

/// The text of the verdict; empty as long as there is none.
pub open spec fn verdict_text(lawsuit: LawsuitView) -> Seq<char> {
    match lawsuit.verdict {
        Some(text) => text,
        None => Seq::empty(),
    }
}

/// The announcement of a new case.
pub open spec fn open_message(lawsuit: LawsuitView) -> CourtMessageView {
    CourtMessageView { title: "Prozess"@, fields: case_fields(lawsuit) }
}

/// The announcement of a closed case: the fields of the case, then the verdict.
pub open spec fn close_message(lawsuit: LawsuitView) -> CourtMessageView {
    CourtMessageView {
        title: "Prozess abgeschlossen"@,
        fields: case_fields(lawsuit).push(
            FieldView { name: "Urteil"@, value: verdict_text(lawsuit), inline: true },
        ),
    }
}

/// What the member is told when no room is idle and no category is set in which to make one.
pub open spec fn no_category_response() -> ResponseView {
    ResponseView::EphemeralStr(
        "Zuerst eine Kategorie für die Gerichtsräume festlegen mit `/lawsuit set_category`"@,
    )
}

/// What the member is told when a channel of the new room's name lies in another category.
pub open spec fn wrong_category_response(number: nat) -> ResponseView {
    ResponseView::Ephemeral(
        "de channel "@ + room_name(number) + " isch i de falsche kategorie, man eh"@,
    )
}

/// What the member is told when the room's channel is gone.
pub open spec fn no_channel_response() -> ResponseView {
    ResponseView::EphemeralStr("i ha de channel für de prozess nöd gfunde"@)
}

/// What the member is told when the lawsuit was opened in the channel.
pub open spec fn opened_response(channel_id: SnowflakeId) -> ResponseView {
    ResponseView::Ephemeral(
        "ha eine ufgmacht im channel <#"@ + decimal(channel_id.0 as nat) + ">"@,
    )
}

/// What the five requests are that close a room: the room is freed, the verdict recorded,
/// and the room's role taken from the accused, the plaintiff and the judge.
pub open spec fn closing_requests(lawsuit: LawsuitView, room: CourtRoom) -> Seq<RequestView> {
    seq![
        RequestView::SetCourtRoom { channel_id: lawsuit.court_room, ongoing_lawsuit: false },
        RequestView::SetLawsuit { lawsuit_id: lawsuit.id, verdict: lawsuit.verdict },
        RequestView::RemoveRole { user_id: lawsuit.accused, role_id: room.role_id },
        RequestView::RemoveRole { user_id: lawsuit.plaintiff, role_id: room.role_id },
        RequestView::RemoveRole { user_id: lawsuit.judge, role_id: room.role_id },
    ]
}

impl LawsuitCtxView {
    /// The same lawsuit in another phase.
    pub open spec fn with_phase(self, phase: Phase) -> LawsuitCtxView {
        LawsuitCtxView { phase, ..self }
    }

    /// The workflow ends because of a failure, or of a reply that answers no request of the
    /// phase.
    pub open spec fn fail(self) -> (LawsuitCtxView, StepView) {
        (self.with_phase(Phase::Finished), StepView::Failed)
    }

    /// The member is told why nothing more is done.
    pub open spec fn deny(self, response: ResponseView) -> (LawsuitCtxView, StepView) {
        (self.with_phase(Phase::Answered), StepView::Answer(response))
    }

    /// The first step of opening the lawsuit: the guild's record is asked for.
    pub open spec fn initialize(self) -> (LawsuitCtxView, StepView) {
        (self.with_phase(Phase::LoadingState), StepView::Call(RequestView::FindOrInsertState))
    }

    /// The case is announced in the room.
    pub open spec fn announce(self, room: CourtRoom) -> (LawsuitCtxView, StepView) {
        (
            self.with_phase(Phase::Announcing(room)),
            StepView::Call(
                RequestView::SendMessage {
                    channel_id: room.channel_id,
                    message: open_message(self.lawsuit),
                },
            ),
        )
    }

    /// A room is chosen for the lawsuit: the first idle one; where none is idle, a new one in
    /// the category, the making of which begins with its role; without a category, none.
    pub open spec fn allocate(self, state: StateView) -> (LawsuitCtxView, StepView) {
        match state.free_room() {
            Some(room) => self.announce(room),
            None => match state.court_category {
                Some(category_id) => self.create_room(state.court_rooms.len(), category_id),
                None => self.deny(no_category_response()),
            },
        }
    }

    /// The making of a new room begins: its number is one more than the number of rooms, and
    /// the role of its name is looked up.
    pub open spec fn create_room(self, rooms: nat, category_id: SnowflakeId) -> (
        LawsuitCtxView,
        StepView,
    ) {
        (
            self.with_phase(Phase::FindingRole { room_number: (rooms + 1) as u128, category_id }),
            StepView::Call(RequestView::RoleByName(role_name(rooms + 1))),
        )
    }

    /// With the role at hand, the channel of the room's name is looked up.
    pub open spec fn find_channel(
        self,
        room_number: u128,
        category_id: SnowflakeId,
        role_id: SnowflakeId,
    ) -> (LawsuitCtxView, StepView) {
        (
            self.with_phase(Phase::FindingChannel { room_number, category_id, role_id }),
            StepView::Call(RequestView::ChannelByName(room_name(room_number as nat))),
        )
    }

    /// The new room, idle, is handed to the store.
    pub open spec fn store_room(self, channel_id: SnowflakeId, role_id: SnowflakeId) -> (
        LawsuitCtxView,
        StepView,
    ) {
        let room = CourtRoom { channel_id, ongoing_lawsuit: false, role_id };
        (self.with_phase(Phase::StoringRoom(room)), StepView::Call(RequestView::AddCourtRoom(room)))
    }

    /// The lawsuit is bound to the room and the member told so.
    pub open spec fn acknowledge(self, room: CourtRoom) -> (LawsuitCtxView, StepView) {
        (
            LawsuitCtxView {
                lawsuit: LawsuitView { court_room: room.channel_id, ..self.lawsuit },
                phase: Phase::Acknowledged(room),
                ..self
            },
            StepView::Answer(opened_response(room.channel_id)),
        )
    }

    /// The work in the background begins: the lawsuit is handed to the store.
    pub open spec fn setup(self, room: CourtRoom) -> (LawsuitCtxView, StepView) {
        (
            self.with_phase(Phase::StoringLawsuit(room)),
            StepView::Call(RequestView::AddLawsuit(self.lawsuit)),
        )
    }

    /// The room's role is granted to the next participant; after the last one the work is
    /// done.
    pub open spec fn grant(self, room: CourtRoom, next: usize) -> (LawsuitCtxView, StepView) {
        if next < self.lawsuit.participants().len() {
            (
                self.with_phase(Phase::Granting { room, next: (next + 1) as usize }),
                StepView::Call(
                    RequestView::AddRole {
                        user_id: self.lawsuit.participants()[next as int],
                        role_id: room.role_id,
                    },
                ),
            )
        } else {
            (self.with_phase(Phase::Opened(room)), StepView::Done)
        }
    }

    /// The room's role is taken from the next lawyer; after the last one the verdict is
    /// announced in the room.
    pub open spec fn strip(self, room: CourtRoom, next: usize) -> (LawsuitCtxView, StepView) {
        if next < self.lawsuit.lawyers().len() {
            (
                self.with_phase(Phase::Stripping { room, next: (next + 1) as usize }),
                StepView::Call(
                    RequestView::RemoveRole {
                        user_id: self.lawsuit.lawyers()[next as int],
                        role_id: room.role_id,
                    },
                ),
            )
        } else {
            (
                self.with_phase(Phase::AnnouncingVerdict),
                StepView::Call(
                    RequestView::SendMessage {
                        channel_id: room.channel_id,
                        message: close_message(self.lawsuit),
                    },
                ),
            )
        }
    }

    /// Who may close the lawsuit: its judge, and whoever may manage the guild.
    pub open spec fn may_rule(self, permission_override: bool, user_id: SnowflakeId) -> bool {
        self.lawsuit.judge == user_id || permission_override
    }

    /// The first step of closing the lawsuit. Who may not close it is told so, and nothing
    /// changes. Else the verdict is set on the lawsuit, and the five requests that close the
    /// room are made together.
    pub open spec fn rule_verdict(
        self,
        permission_override: bool,
        user_id: SnowflakeId,
        verdict: Seq<char>,
        room: CourtRoom,
    ) -> (LawsuitCtxView, StepView) {
        if !self.may_rule(permission_override, user_id) {
            self.deny(ResponseView::NoPermissions)
        } else {
            let lawsuit = LawsuitView { verdict: Some(verdict), ..self.lawsuit };
            (
                LawsuitCtxView { lawsuit, phase: Phase::Closing(room), ..self },
                StepView::CallAll(closing_requests(lawsuit, room)),
            )
        }
    }

    /// The next step, given what came back from the last one.
    pub open spec fn resume(self, reply: ReplyView) -> (LawsuitCtxView, StepView) {
        match self.phase {
            Phase::Ready => self.fail(),
            Phase::LoadingState => match reply {
                ReplyView::State(state) => self.allocate(state),
                _ => self.fail(),
            },
            Phase::FindingRole { room_number, category_id } => match reply {
                ReplyView::Role(Some(role_id)) => self.find_channel(
                    room_number,
                    category_id,
                    role_id,
                ),
                ReplyView::Role(None) => (
                    self.with_phase(Phase::CreatingRole { room_number, category_id }),
                    StepView::Call(RequestView::CreateRole(role_name(room_number as nat))),
                ),
                _ => self.fail(),
            },
            Phase::CreatingRole { room_number, category_id } => match reply {
                ReplyView::Created(role_id) => self.find_channel(room_number, category_id, role_id),
                _ => self.fail(),
            },
            Phase::FindingChannel { room_number, category_id, role_id } => match reply {
                ReplyView::Channel(Some(channel)) => if channel.parent_id != Some(category_id) {
                    self.deny(wrong_category_response(room_number as nat))
                } else {
                    self.store_room(channel.id, role_id)
                },
                ReplyView::Channel(None) => (
                    self.with_phase(Phase::CreatingChannel { role_id }),
                    StepView::Call(
                        RequestView::CreateChannel {
                            name: room_name(room_number as nat),
                            category_id,
                            role_id,
                        },
                    ),
                ),
                _ => self.fail(),
            },
            Phase::CreatingChannel { role_id } => match reply {
                ReplyView::Created(channel_id) => self.store_room(channel_id, role_id),
                _ => self.fail(),
            },
            Phase::StoringRoom(room) => match reply {
                ReplyView::Done => self.announce(room),
                _ => self.fail(),
            },
            Phase::Announcing(room) => match reply {
                ReplyView::Done => self.acknowledge(room),
                ReplyView::NoChannel => self.deny(no_channel_response()),
                _ => self.fail(),
            },
            Phase::Acknowledged(room) => match reply {
                ReplyView::Done => self.setup(room),
                _ => self.fail(),
            },
            Phase::StoringLawsuit(room) => match reply {
                ReplyView::Done => (
                    self.with_phase(Phase::MarkingRoom(room)),
                    StepView::Call(
                        RequestView::SetCourtRoom {
                            channel_id: room.channel_id,
                            ongoing_lawsuit: true,
                        },
                    ),
                ),
                _ => self.fail(),
            },
            Phase::MarkingRoom(room) => match reply {
                ReplyView::Done => self.grant(room, 0),
                _ => self.fail(),
            },
            Phase::Granting { room, next } => match reply {
                ReplyView::Done => self.grant(room, next),
                _ => self.fail(),
            },
            Phase::Closing(room) => match reply {
                ReplyView::Done => self.strip(room, 0),
                _ => self.fail(),
            },
            Phase::Stripping { room, next } => match reply {
                ReplyView::Done => self.strip(room, next),
                _ => self.fail(),
            },
            Phase::AnnouncingVerdict => match reply {
                ReplyView::Done => (self.with_phase(Phase::Closed), StepView::Done),
                ReplyView::NoChannel => self.deny(no_channel_response()),
                _ => self.fail(),
            },
            Phase::Answered => match reply {
                ReplyView::Done => (self.with_phase(Phase::Finished), StepView::Done),
                _ => self.fail(),
            },
            Phase::Opened(_) | Phase::Closed | Phase::Finished => (self, StepView::Done),
        }
    }
}

/// The name of the channel of the room with this number.
pub fn room_name_string(number: u128) -> (name: String)
    ensures
        name@ == room_name(number as nat),
{
    let digits = decimal_string(number);
    joined("room-", digits.as_str())
}

/// The name of the role of the room with this number.
pub fn role_name_string(number: u128) -> (name: String)
    ensures
        name@ == role_name(number as nat),
{
    let digits = decimal_string(number);
    joined("process-", digits.as_str())
}

/// How a member is named in a message.
pub fn mention_string(id: SnowflakeId) -> (text: String)
    ensures
        text@ == mention(id),
{
    let digits = decimal_string(id.0 as u128);
    framed("<@", digits.as_str(), ">")
}

fn lawyer_string(lawyer: Option<SnowflakeId>) -> (text: String)
    ensures
        text@ == lawyer_text(lawyer),
{
    match lawyer {
        Some(id) => mention_string(id),
        None => String::from_str("Keinen"),
    }
}

fn field(name: &str, value: String, inline: bool) -> (field: Field)
    ensures
        field@ == (FieldView { name: name@, value: value@, inline }),
{
    Field { name: String::from_str(name), value, inline }
}

impl LawsuitCtx {
    /// A lawsuit on which nothing has been done yet.
    pub fn new(lawsuit: Lawsuit, guild_id: SnowflakeId) -> (ctx: LawsuitCtx)
        ensures
            ctx@ == (LawsuitCtxView { lawsuit: lawsuit@, guild_id, phase: Phase::Ready }),
    {
        LawsuitCtx { lawsuit, guild_id, phase: Phase::Ready }
    }

    /// Begins to open the lawsuit: the guild's record is asked for.
    pub fn initialize(&mut self) -> (step: Step)
        ensures
            (final(self)@, step@) == old(self)@.initialize(),
    {
        self.phase = Phase::LoadingState;
        Step::Call(Request::FindOrInsertState)
    }

    /// Begins to close the lawsuit with the verdict, in the name of the member `user_id`.
    /// `permission_override` says that the member may manage the guild. Only the judge and such
    /// a member may close a lawsuit: anyone else is answered that they may not, and the
    /// lawsuit is left as it was.
    pub fn rule_verdict(
        &mut self,
        permission_override: bool,
        user_id: SnowflakeId,
        verdict: String,
        room: CourtRoom,
    ) -> (step: Step)
        ensures
            (final(self)@, step@) == old(self)@.rule_verdict(
                permission_override,
                user_id,
                verdict@,
                room,
            ),
    {
        if self.lawsuit.judge != user_id && !permission_override {
            return self.deny(Response::NoPermissions);
        }
        let recorded = verdict.clone();
        self.lawsuit.verdict = Some(verdict);
        self.phase = Phase::Closing(room);
        let mut requests: Vec<Request> = Vec::new();
        requests.push(
            Request::SetCourtRoom { channel_id: self.lawsuit.court_room, ongoing_lawsuit: false },
        );
        requests.push(Request::SetLawsuit { lawsuit_id: self.lawsuit.id, verdict: Some(recorded) });
        requests.push(Request::RemoveRole { user_id: self.lawsuit.accused, role_id: room.role_id });
        requests.push(
            Request::RemoveRole { user_id: self.lawsuit.plaintiff, role_id: room.role_id },
        );
        requests.push(Request::RemoveRole { user_id: self.lawsuit.judge, role_id: room.role_id });
        assert(requests@.map_values(|r: Request| r@) =~= closing_requests(self.lawsuit@, room));
        Step::CallAll(requests)
    }

    /// The next step, given what came back from the last one. A failure, and a reply that
    /// answers no request of the phase, end the workflow.
    pub fn resume(&mut self, reply: Reply) -> (step: Step)
        ensures
            (final(self)@, step@) == old(self)@.resume(reply@),
    {
        match self.phase {
            Phase::Ready => self.fail(),
            Phase::LoadingState => match reply {
                Reply::State(state) => self.allocate(&state),
                _ => self.fail(),
            },
            Phase::FindingRole { room_number, category_id } => match reply {
                Reply::Role(Some(role_id)) => self.find_channel(room_number, category_id, role_id),
                Reply::Role(None) => {
                    self.phase = Phase::CreatingRole { room_number, category_id };
                    Step::Call(Request::CreateRole(role_name_string(room_number)))
                },
                _ => self.fail(),
            },
            Phase::CreatingRole { room_number, category_id } => match reply {
                Reply::Created(role_id) => self.find_channel(room_number, category_id, role_id),
                _ => self.fail(),
            },
            Phase::FindingChannel { room_number, category_id, role_id } => match reply {
                Reply::Channel(Some(channel)) => {
                    let in_category = match channel.parent_id {
                        Some(parent_id) => parent_id == category_id,
                        None => false,
                    };
                    if !in_category {
                        let name = room_name_string(room_number);
                        let text = framed(
                            "de channel ",
                            name.as_str(),
                            " isch i de falsche kategorie, man eh",
                        );
                        self.deny(Response::Ephemeral(text))
                    } else {
                        self.store_room(channel.id, role_id)
                    }
                },
                Reply::Channel(None) => {
                    self.phase = Phase::CreatingChannel { role_id };
                    Step::Call(
                        Request::CreateChannel {
                            name: room_name_string(room_number),
                            category_id,
                            role_id,
                        },
                    )
                },
                _ => self.fail(),
            },
            Phase::CreatingChannel { role_id } => match reply {
                Reply::Created(channel_id) => self.store_room(channel_id, role_id),
                _ => self.fail(),
            },
            Phase::StoringRoom(room) => match reply {
                Reply::Done => self.send_process_open_message(room),
                _ => self.fail(),
            },
            Phase::Announcing(room) => match reply {
                Reply::Done => {
                    self.lawsuit.court_room = room.channel_id;
                    self.phase = Phase::Acknowledged(room);
                    let digits = decimal_string(room.channel_id.0 as u128);
                    Step::Answer(
                        Response::Ephemeral(
                            framed("ha eine ufgmacht im channel <#", digits.as_str(), ">"),
                        ),
                    )
                },
                Reply::NoChannel => self.deny(
                    Response::EphemeralStr("i ha de channel für de prozess nöd gfunde"),
                ),
                _ => self.fail(),
            },
            Phase::Acknowledged(room) => match reply {
                Reply::Done => self.setup(room),
                _ => self.fail(),
            },
            Phase::StoringLawsuit(room) => match reply {
                Reply::Done => {
                    self.phase = Phase::MarkingRoom(room);
                    Step::Call(
                        Request::SetCourtRoom {
                            channel_id: room.channel_id,
                            ongoing_lawsuit: true,
                        },
                    )
                },
                _ => self.fail(),
            },
            Phase::MarkingRoom(room) => match reply {
                Reply::Done => self.grant(room, 0),
                _ => self.fail(),
            },
            Phase::Granting { room, next } => match reply {
                Reply::Done => self.grant(room, next),
                _ => self.fail(),
            },
            Phase::Closing(room) => match reply {
                Reply::Done => self.strip(room, 0),
                _ => self.fail(),
            },
            Phase::Stripping { room, next } => match reply {
                Reply::Done => self.strip(room, next),
                _ => self.fail(),
            },
            Phase::AnnouncingVerdict => match reply {
                Reply::Done => {
                    self.phase = Phase::Closed;
                    Step::Done
                },
                Reply::NoChannel => self.deny(
                    Response::EphemeralStr("i ha de channel für de prozess nöd gfunde"),
                ),
                _ => self.fail(),
            },
            Phase::Answered => match reply {
                Reply::Done => {
                    self.phase = Phase::Finished;
                    Step::Done
                },
                _ => self.fail(),
            },
            Phase::Opened(_) | Phase::Closed | Phase::Finished => Step::Done,
        }
    }

    fn fail(&mut self) -> (step: Step)
        ensures
            (final(self)@, step@) == old(self)@.fail(),
    {
        self.phase = Phase::Finished;
        Step::Failed
    }

    fn deny(&mut self, response: Response) -> (step: Step)
        ensures
            (final(self)@, step@) == old(self)@.deny(response@),
    {
        self.phase = Phase::Answered;
        Step::Answer(response)
    }

    /// Chooses the room: an idle one is used again, and nothing is made.
    fn allocate(&mut self, state: &State) -> (step: Step)
        ensures
            (final(self)@, step@) == old(self)@.allocate(state@),
    {
        match state.free_room() {
            Some(room) => self.send_process_open_message(room),
            None => match state.court_category {
                Some(category_id) => self.create_room(state.court_rooms.len(), category_id),
                None => self.deny(
                    Response::EphemeralStr(
                        "Zuerst eine Kategorie für die Gerichtsräume festlegen mit `/lawsuit set_category`",
                    ),
                ),
            },
        }
    }

    fn create_room(&mut self, room_len: usize, category_id: SnowflakeId) -> (step: Step)
        ensures
            (final(self)@, step@) == old(self)@.create_room(room_len as nat, category_id),
    {
        let room_number: u128 = room_len as u128 + 1;
        self.phase = Phase::FindingRole { room_number, category_id };
        Step::Call(Request::RoleByName(role_name_string(room_number)))
    }

    fn find_channel(
        &mut self,
        room_number: u128,
        category_id: SnowflakeId,
        role_id: SnowflakeId,
    ) -> (step: Step)
        ensures
            (final(self)@, step@) == old(self)@.find_channel(room_number, category_id, role_id),
    {
        self.phase = Phase::FindingChannel { room_number, category_id, role_id };
        Step::Call(Request::ChannelByName(room_name_string(room_number)))
    }

    fn store_room(&mut self, channel_id: SnowflakeId, role_id: SnowflakeId) -> (step: Step)
        ensures
            (final(self)@, step@) == old(self)@.store_room(channel_id, role_id),
    {
        let room = CourtRoom { channel_id, ongoing_lawsuit: false, role_id };
        self.phase = Phase::StoringRoom(room);
        Step::Call(Request::AddCourtRoom(room))
    }

    fn setup(&mut self, room: CourtRoom) -> (step: Step)
        ensures
            (final(self)@, step@) == old(self)@.setup(room),
    {
        self.phase = Phase::StoringLawsuit(room);
        Step::Call(Request::AddLawsuit(self.lawsuit.clone()))
    }

    fn grant(&mut self, room: CourtRoom, next: usize) -> (step: Step)
        ensures
            (final(self)@, step@) == old(self)@.grant(room, next),
    {
        let participants = self.lawsuit.participants();
        if next < participants.len() {
            self.phase = Phase::Granting { room, next: next + 1 };
            Step::Call(Request::AddRole { user_id: participants[next], role_id: room.role_id })
        } else {
            self.phase = Phase::Opened(room);
            Step::Done
        }
    }

    fn strip(&mut self, room: CourtRoom, next: usize) -> (step: Step)
        ensures
            (final(self)@, step@) == old(self)@.strip(room, next),
    {
        let lawyers = self.lawsuit.lawyers();
        if next < lawyers.len() {
            self.phase = Phase::Stripping { room, next: next + 1 };
            Step::Call(Request::RemoveRole { user_id: lawyers[next], role_id: room.role_id })
        } else {
            self.send_process_close_message(room)
        }
    }

    /// The fields that describe the case.
    fn case_fields(&self) -> (fields: Vec<Field>)
        ensures
            fields@.map_values(|f: Field| f@) == case_fields(self.lawsuit@),
    {
        let lawsuit = &self.lawsuit;
        let mut fields: Vec<Field> = Vec::new();
        fields.push(field("Grund", lawsuit.reason.clone(), false));
        fields.push(field("Kläger", mention_string(lawsuit.plaintiff), true));
        fields.push(field("Anwalt des Klägers", lawyer_string(lawsuit.plaintiff_lawyer), true));
        fields.push(field("Angeklagter", mention_string(lawsuit.accused), true));
        fields.push(field("Anwalt des Angeklagten", lawyer_string(lawsuit.accused_lawyer), true));
        fields.push(field("Richter", mention_string(lawsuit.judge), true));
        assert(fields@.map_values(|f: Field| f@) =~= case_fields(self.lawsuit@));
        fields
    }

    fn send_process_open_message(&mut self, room: CourtRoom) -> (step: Step)
        ensures
            (final(self)@, step@) == old(self)@.announce(room),
    {
        let message = CourtMessage { title: String::from_str("Prozess"), fields: self.case_fields() };
        self.phase = Phase::Announcing(room);
        self.send_court_message(room, message)
    }

    fn send_process_close_message(&mut self, room: CourtRoom) -> (step: Step)
        ensures
            final(self)@ == old(self)@.with_phase(Phase::AnnouncingVerdict),
            step@ == StepView::Call(
                RequestView::SendMessage {
                    channel_id: room.channel_id,
                    message: close_message(old(self).lawsuit@),
                },
            ),
    {
        let mut fields = self.case_fields();
        let verdict = match &self.lawsuit.verdict {
            Some(text) => text.clone(),
            None => String::new(),
        };
        fields.push(field("Urteil", verdict, true));
        assert(fields@.map_values(|f: Field| f@) =~= close_message(self.lawsuit@).fields);
        let message = CourtMessage { title: String::from_str("Prozess abgeschlossen"), fields };
        self.phase = Phase::AnnouncingVerdict;
        self.send_court_message(room, message)
    }

    fn send_court_message(&self, room: CourtRoom, message: CourtMessage) -> (step: Step)
        ensures
            step@ == StepView::Call(
                RequestView::SendMessage { channel_id: room.channel_id, message: message@ },
            ),
    {
        Step::Call(Request::SendMessage { channel_id: room.channel_id, message })
    }
}

} // verus!
