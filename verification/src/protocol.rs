use crate::handler::{Response, ResponseView};
use crate::model::{CourtRoom, Lawsuit, LawsuitView, PrisonEntry, SnowflakeId, State, StateView};
use vstd::prelude::*;

verus! {

/// One line of a message: a name, a value, and whether it may share a row with its neighbours.
#[derive(Debug, PartialEq, Eq)]
pub struct Field {
    pub name: String,
    pub value: String,
    pub inline: bool,
}

/// A line of a message as a mathematical value.
pub struct FieldView {
    pub name: Seq<char>,
    pub value: Seq<char>,
    pub inline: bool,
}

impl View for Field {
    type V = FieldView;

    open spec fn view(&self) -> FieldView {
        FieldView { name: self.name@, value: self.value@, inline: self.inline }
    }
}

/// A message for a court room: a title and its fields in order.
#[derive(Debug, PartialEq, Eq)]
pub struct CourtMessage {
    pub title: String,
    pub fields: Vec<Field>,
}

/// A message as a mathematical value.
pub struct CourtMessageView {
    pub title: Seq<char>,
    pub fields: Seq<FieldView>,
}

impl View for CourtMessage {
    type V = CourtMessageView;

    open spec fn view(&self) -> CourtMessageView {
        CourtMessageView { title: self.title@, fields: self.fields@.map_values(|f: Field| f@) }
    }
}

/// A channel as far as a court room depends on it.
#[derive(Debug, Clone, Copy, PartialEq, Eq, Structural)]
pub struct Channel {
    pub id: SnowflakeId,
    pub parent_id: Option<SnowflakeId>,
}

/// What a workflow asks of the store or of the platform. Every request concerns the guild of
/// the workflow that makes it.
#[derive(Debug, PartialEq, Eq)]
pub enum Request {
    /// The guild's record; an empty one is recorded first where there is none.
    FindOrInsertState,
    SetCourtCategory(SnowflakeId),
    SetPrisonRole(SnowflakeId),
    AddCourtRoom(CourtRoom),
    AddLawsuit(Lawsuit),
    SetCourtRoom { channel_id: SnowflakeId, ongoing_lawsuit: bool },
    SetLawsuit { lawsuit_id: crate::model::LawsuitId, verdict: Option<String> },
    DeleteGuild,
    AddToPrison(SnowflakeId),
    RemoveFromPrison(SnowflakeId),
    FindPrisonEntry(SnowflakeId),
    /// The role of that name.
    RoleByName(String),
    /// A new role of that name, with no permissions.
    CreateRole(String),
    /// The channel of that name.
    ChannelByName(String),
    /// A new text channel of that name in the category, in which the role may post.
    CreateChannel { name: String, category_id: SnowflakeId, role_id: SnowflakeId },
    /// The category that the channel is, if it is one.
    Category(SnowflakeId),
    SendMessage { channel_id: SnowflakeId, message: CourtMessage },
    AddRole { user_id: SnowflakeId, role_id: SnowflakeId },
    RemoveRole { user_id: SnowflakeId, role_id: SnowflakeId },
}

/// A request as a mathematical value.
pub enum RequestView {
    FindOrInsertState,
    SetCourtCategory(SnowflakeId),
    SetPrisonRole(SnowflakeId),
    AddCourtRoom(CourtRoom),
    AddLawsuit(LawsuitView),
    SetCourtRoom { channel_id: SnowflakeId, ongoing_lawsuit: bool },
    SetLawsuit { lawsuit_id: crate::model::LawsuitId, verdict: Option<Seq<char>> },
    DeleteGuild,
    AddToPrison(SnowflakeId),
    RemoveFromPrison(SnowflakeId),
    FindPrisonEntry(SnowflakeId),
    RoleByName(Seq<char>),
    CreateRole(Seq<char>),
    ChannelByName(Seq<char>),
    CreateChannel { name: Seq<char>, category_id: SnowflakeId, role_id: SnowflakeId },
    Category(SnowflakeId),
    SendMessage { channel_id: SnowflakeId, message: CourtMessageView },
    AddRole { user_id: SnowflakeId, role_id: SnowflakeId },
    RemoveRole { user_id: SnowflakeId, role_id: SnowflakeId },
}

impl View for Request {
    type V = RequestView;

    open spec fn view(&self) -> RequestView {
        match self {
            Request::FindOrInsertState => RequestView::FindOrInsertState,
            Request::SetCourtCategory(id) => RequestView::SetCourtCategory(*id),
            Request::SetPrisonRole(id) => RequestView::SetPrisonRole(*id),
            Request::AddCourtRoom(room) => RequestView::AddCourtRoom(*room),
            Request::AddLawsuit(lawsuit) => RequestView::AddLawsuit(lawsuit@),
            Request::SetCourtRoom { channel_id, ongoing_lawsuit } => RequestView::SetCourtRoom {
                channel_id: *channel_id,
                ongoing_lawsuit: *ongoing_lawsuit,
            },
            Request::SetLawsuit { lawsuit_id, verdict } => RequestView::SetLawsuit {
                lawsuit_id: *lawsuit_id,
                verdict: crate::model::text_of(*verdict),
            },
            Request::DeleteGuild => RequestView::DeleteGuild,
            Request::AddToPrison(id) => RequestView::AddToPrison(*id),
            Request::RemoveFromPrison(id) => RequestView::RemoveFromPrison(*id),
            Request::FindPrisonEntry(id) => RequestView::FindPrisonEntry(*id),
            Request::RoleByName(name) => RequestView::RoleByName(name@),
            Request::CreateRole(name) => RequestView::CreateRole(name@),
            Request::ChannelByName(name) => RequestView::ChannelByName(name@),
            Request::CreateChannel { name, category_id, role_id } => RequestView::CreateChannel {
                name: name@,
                category_id: *category_id,
                role_id: *role_id,
            },
            Request::Category(id) => RequestView::Category(*id),
            Request::SendMessage { channel_id, message } => RequestView::SendMessage {
                channel_id: *channel_id,
                message: message@,
            },
            Request::AddRole { user_id, role_id } => RequestView::AddRole {
                user_id: *user_id,
                role_id: *role_id,
            },
            Request::RemoveRole { user_id, role_id } => RequestView::RemoveRole {
                user_id: *user_id,
                role_id: *role_id,
            },
        }
    }
}

/// What came back from a request.
#[derive(Debug, PartialEq, Eq)]
pub enum Reply {
    /// The request was carried out and has nothing to report.
    Done,
    /// The store or the platform failed.
    Failed,
    State(State),
    PrisonEntry(Option<PrisonEntry>),
    Role(Option<SnowflakeId>),
    Channel(Option<Channel>),
    /// The identifier of the role or channel that was created.
    Created(SnowflakeId),
    Category(Option<SnowflakeId>),
    /// The guild has no channel to send the message to.
    NoChannel,
}

/// A reply as a mathematical value.
pub enum ReplyView {
    Done,
    Failed,
    State(StateView),
    PrisonEntry(Option<PrisonEntry>),
    Role(Option<SnowflakeId>),
    Channel(Option<Channel>),
    Created(SnowflakeId),
    Category(Option<SnowflakeId>),
    NoChannel,
}

impl View for Reply {
    type V = ReplyView;

    open spec fn view(&self) -> ReplyView {
        match self {
            Reply::Done => ReplyView::Done,
            Reply::Failed => ReplyView::Failed,
            Reply::State(state) => ReplyView::State(state@),
            Reply::PrisonEntry(entry) => ReplyView::PrisonEntry(*entry),
            Reply::Role(role) => ReplyView::Role(*role),
            Reply::Channel(channel) => ReplyView::Channel(*channel),
            Reply::Created(id) => ReplyView::Created(*id),
            Reply::Category(id) => ReplyView::Category(*id),
            Reply::NoChannel => ReplyView::NoChannel,
        }
    }
}

/// What a workflow wants done next.
#[derive(Debug, PartialEq, Eq)]
pub enum Step {
    /// Carry out the request and resume with what came back.
    Call(Request),
    /// Carry out all the requests, in any order or at once, and resume with `Done` if all of
    /// them were carried out, with `Failed` if one was not.
    CallAll(Vec<Request>),
    /// Give the response to the member who gave the command and resume with `Done`. What
    /// follows an answer is work in the background: the member does not wait for it and does
    /// not learn how it ends.
    Answer(Response),
    /// The workflow is over.
    Done,
    /// The workflow is over because the store or the platform failed.
    Failed,
}

/// A step as a mathematical value.
pub enum StepView {
    Call(RequestView),
    CallAll(Seq<RequestView>),
    Answer(ResponseView),
    Done,
    Failed,
}

impl View for Step {
    type V = StepView;

    open spec fn view(&self) -> StepView {
        match self {
            Step::Call(request) => StepView::Call(request@),
            Step::CallAll(requests) => StepView::CallAll(requests@.map_values(|r: Request| r@)),
            Step::Answer(response) => StepView::Answer(response@),
            Step::Done => StepView::Done,
            Step::Failed => StepView::Failed,
        }
    }
}

} // verus!
