use crate::lawsuit::{LawsuitCtx, LawsuitCtxView, Phase};
use crate::model::{Lawsuit, LawsuitId, LawsuitView, SnowflakeId, State, StateView};
use crate::protocol::{Reply, ReplyView, Request, RequestView, Step, StepView};
use vstd::prelude::*;

verus! {

/// What the member who gave a command is told. Every response is shown to that member alone.
#[derive(Debug, PartialEq, Eq)]
pub enum Response {
    EphemeralStr(&'static str),
    Ephemeral(String),
    NoPermissions,
}

/// A response as a mathematical value.
pub enum ResponseView {
    EphemeralStr(Seq<char>),
    Ephemeral(Seq<char>),
    NoPermissions,
}

impl View for Response {
    type V = ResponseView;

    open spec fn view(&self) -> ResponseView {
        match self {
            Response::EphemeralStr(text) => ResponseView::EphemeralStr(text@),
            Response::Ephemeral(text) => ResponseView::Ephemeral(text@),
            Response::NoPermissions => ResponseView::NoPermissions,
        }
    }
}

impl ResponseView {
    /// The text that the member reads.
    pub open spec fn content(self) -> Seq<char> {
        match self {
            ResponseView::EphemeralStr(text) => text,
            ResponseView::Ephemeral(text) => text,
            ResponseView::NoPermissions => "du häsch kei recht für da!"@,
        }
    }
}

impl Response {
    /// The text that the member reads.
    pub fn content(&self) -> (text: String)
        ensures
            text@ == self@.content(),
    {
        match self {
            Response::EphemeralStr(text) => String::from_str(text),
            Response::Ephemeral(text) => text.clone(),
            Response::NoPermissions => String::from_str("du häsch kei recht für da!"),
        }
    }
}


/// Why a command could not be understood.
#[derive(Debug, Clone, Copy, PartialEq, Eq, Structural)]
pub enum CommandError {
    NoSubcommand,
    NoGuild,
    NoMember,
    NoMemberPermissions,
    UnknownSubcommand,
    ExpectedValue,
    ExpectedUser,
    ExpectedString,
    ExpectedChannel,
    ExpectedRole,
}

impl CommandError {
    /// The error in words, for the log.
    pub fn message(&self) -> (text: &'static str)
        ensures
            text@ == match *self {
                CommandError::NoSubcommand => "needs subcommand"@,
                CommandError::NoGuild => "guild_id not found"@,
                CommandError::NoMember => "command must be used my member"@,
                CommandError::NoMemberPermissions => "must be in interaction"@,
                CommandError::UnknownSubcommand => "Unknown subcommand"@,
                CommandError::ExpectedValue => "Expected value!"@,
                CommandError::ExpectedUser => "Expected user!"@,
                CommandError::ExpectedString => "Expected string!"@,
                CommandError::ExpectedChannel => "Expected string!"@,
                CommandError::ExpectedRole => "Expected string!"@,
            },
    {
        match self {
            CommandError::NoSubcommand => "needs subcommand",
            CommandError::NoGuild => "guild_id not found",
            CommandError::NoMember => "command must be used my member",
            CommandError::NoMemberPermissions => "must be in interaction",
            CommandError::UnknownSubcommand => "Unknown subcommand",
            CommandError::ExpectedValue => "Expected value!",
            CommandError::ExpectedUser => "Expected user!",
            CommandError::ExpectedString => "Expected string!",
            CommandError::ExpectedChannel => "Expected string!",
            CommandError::ExpectedRole => "Expected string!",
        }
    }
}

/// The value that the platform found for an option of a command.
#[derive(Debug, PartialEq, Eq)]
pub enum OptionValue {
    User(SnowflakeId),
    String(String),
    Channel(SnowflakeId),
    Role(SnowflakeId),
    Other,
}

/// The value of an option as a mathematical value.
pub enum OptionValueView {
    User(SnowflakeId),
    String(Seq<char>),
    Channel(SnowflakeId),
    Role(SnowflakeId),
    Other,
}

impl View for OptionValue {
    type V = OptionValueView;

    open spec fn view(&self) -> OptionValueView {
        match self {
            OptionValue::User(id) => OptionValueView::User(*id),
            OptionValue::String(text) => OptionValueView::String(text@),
            OptionValue::Channel(id) => OptionValueView::Channel(*id),
            OptionValue::Role(id) => OptionValueView::Role(*id),
            OptionValue::Other => OptionValueView::Other,
        }
    }
}

/// The value of an optional option.
pub open spec fn option_value_view(value: Option<OptionValue>) -> Option<OptionValueView> {
    match value {
        Some(value) => Some(value@),
        None => None,
    }
}

/// The part of a command that says what to do, with its options in the order in which the
/// command declares them. An option that was left out, or that the platform could not
/// resolve, has no value.
#[derive(Debug, PartialEq, Eq)]
pub struct Subcommand {
    pub name: String,
    pub options: Vec<Option<OptionValue>>,
}

/// A subcommand as a mathematical value.
pub struct SubcommandView {
    pub name: Seq<char>,
    pub options: Seq<Option<OptionValueView>>,
}

impl View for Subcommand {
    type V = SubcommandView;

    open spec fn view(&self) -> SubcommandView {
        SubcommandView {
            name: self.name@,
            options: self.options@.map_values(|v: Option<OptionValue>| option_value_view(v)),
        }
    }
}

/// The member who gave a command, with the bits of the permissions that the platform
/// reported for them.
#[derive(Debug, Clone, Copy, PartialEq, Eq, Structural)]
pub struct Member {
    pub user_id: SnowflakeId,
    pub permissions: Option<u64>,
}

/// A command as it arrives: its name, its subcommand, and where and by whom it was given.
#[derive(Debug, PartialEq, Eq)]
pub struct Interaction {
    pub name: String,
    pub subcommand: Option<Subcommand>,
    pub guild_id: Option<SnowflakeId>,
    pub member: Option<Member>,
    pub channel_id: SnowflakeId,
}

/// A command as a mathematical value.
pub struct InteractionView {
    pub name: Seq<char>,
    pub subcommand: Option<SubcommandView>,
    pub guild_id: Option<SnowflakeId>,
    pub member: Option<Member>,
    pub channel_id: SnowflakeId,
}

impl View for Interaction {
    type V = InteractionView;

    open spec fn view(&self) -> InteractionView {
        InteractionView {
            name: self.name@,
            subcommand: match self.subcommand {
                Some(subcommand) => Some(subcommand@),
                None => None,
            },
            guild_id: self.guild_id,
            member: self.member,
            channel_id: self.channel_id,
        }
    }
}

/// What a dispatch is busy with. Each task but the last two waits for what came back from
/// the request that was made when it was taken up.
#[derive(Debug, Clone, Copy, PartialEq, Eq, Structural)]
pub enum Task {
    /// A lawsuit is being opened: the steps are those of the lawsuit.
    Opening,
    /// The channel that was named as the category is being looked at.
    ResolvingCategory,
    SettingCategory,
    /// The guild's record was asked for, to find the lawsuit that the member wants closed.
    LoadingForClose { user_id: SnowflakeId, channel_id: SnowflakeId, permission_override: bool },
    /// A lawsuit is being closed: the steps are those of the lawsuit.
    Closing,
    Clearing,
    SettingRole,
    LoadingForArrest { user_id: SnowflakeId },
    Arresting { user_id: SnowflakeId, role_id: SnowflakeId },
    GrantingPrisonRole,
    LoadingForRelease { user_id: SnowflakeId },
    Releasing { user_id: SnowflakeId, role_id: SnowflakeId },
    RevokingPrisonRole,
    /// A member has joined: the guild's record was asked for.
    LoadingForJoin { user_id: SnowflakeId },
    CheckingPrison { user_id: SnowflakeId, role_id: SnowflakeId },
    RestoringPrisonRole,
    /// The member was given the response.
    Answered,
    Finished,
}

/// One command, or one member's arrival, on its way through the court.
#[derive(Debug, PartialEq, Eq)]
pub struct Dispatch {
    /// The guild that every request of this dispatch concerns.
    pub guild_id: Option<SnowflakeId>,
    pub task: Task,
    /// Whether the member has been given a response.
    pub answered: bool,
    /// Why the command could not be understood, if it could not.
    pub error: Option<CommandError>,
    /// The lawsuit that is being opened or closed.
    pub lawsuit: Option<LawsuitCtx>,
    /// The verdict with which a lawsuit is to be closed.
    pub verdict: Option<String>,
}

/// A dispatch as a mathematical value.
pub struct DispatchView {
    pub guild_id: Option<SnowflakeId>,
    pub task: Task,
    pub answered: bool,
    pub error: Option<CommandError>,
    pub lawsuit: Option<LawsuitCtxView>,
    pub verdict: Option<Seq<char>>,
}

impl View for Dispatch {
    type V = DispatchView;

    open spec fn view(&self) -> DispatchView {
        DispatchView {
            guild_id: self.guild_id,
            task: self.task,
            answered: self.answered,
            error: self.error,
            lawsuit: match self.lawsuit {
                Some(ctx) => Some(ctx@),
                None => None,
            },
            verdict: crate::model::text_of(self.verdict),
        }
    }
}

/// Whether the permission bits hold the permission to manage the guild.
pub open spec fn may_manage_guild(permissions: u64) -> bool {
    permissions & 0x20 != 0
}

/// The value of the option at the position; none where the command has no such option.
pub open spec fn option_at(options: Seq<Option<OptionValueView>>, at: int) -> Option<
    OptionValueView,
> {
    if 0 <= at < options.len() {
        options[at]
    } else {
        None
    }
}

/// The member that the option names, if it has a value.
pub open spec fn user_at(options: Seq<Option<OptionValueView>>, at: int) -> Result<
    Option<SnowflakeId>,
    CommandError,
> {
    match option_at(options, at) {
        Some(OptionValueView::User(id)) => Ok(Some(id)),
        Some(_) => Err(CommandError::ExpectedUser),
        None => Ok(None),
    }
}

/// The text of the option, if it has a value.
pub open spec fn string_at(options: Seq<Option<OptionValueView>>, at: int) -> Result<
    Option<Seq<char>>,
    CommandError,
> {
    match option_at(options, at) {
        Some(OptionValueView::String(text)) => Ok(Some(text)),
        Some(_) => Err(CommandError::ExpectedString),
        None => Ok(None),
    }
}

/// The channel that the option names, if it has a value.
pub open spec fn channel_at(options: Seq<Option<OptionValueView>>, at: int) -> Result<
    Option<SnowflakeId>,
    CommandError,
> {
    match option_at(options, at) {
        Some(OptionValueView::Channel(id)) => Ok(Some(id)),
        Some(_) => Err(CommandError::ExpectedChannel),
        None => Ok(None),
    }
}

/// The role that the option names, if it has a value.
pub open spec fn role_at(options: Seq<Option<OptionValueView>>, at: int) -> Result<
    Option<SnowflakeId>,
    CommandError,
> {
    match option_at(options, at) {
        Some(OptionValueView::Role(id)) => Ok(Some(id)),
        Some(_) => Err(CommandError::ExpectedRole),
        None => Ok(None),
    }
}

/// The value of an option that the command cannot do without.
pub open spec fn required<T>(found: Result<Option<T>, CommandError>) -> Result<T, CommandError> {
    match found {
        Ok(Some(value)) => Ok(value),
        Ok(None) => Err(CommandError::ExpectedValue),
        Err(error) => Err(error),
    }
}

/// What a member is told when the store or the platform failed, or the command could not be
/// understood.
pub open spec fn internal_error() -> ResponseView {
    ResponseView::EphemeralStr("An internal error occurred"@)
}

/// The lawsuit that a `create` subcommand files under the identifier, or why its options
/// cannot be understood. The options are read in the order plaintiff, accused, judge, reason,
/// plaintiff's lawyer, accused's lawyer, and the first that fails decides.
pub open spec fn filed_lawsuit(options: Seq<Option<OptionValueView>>, id: LawsuitId) -> Result<
    LawsuitView,
    CommandError,
> {
    match required(user_at(options, 0)) {
        Err(error) => Err(error),
        Ok(plaintiff) => match required(user_at(options, 1)) {
            Err(error) => Err(error),
            Ok(accused) => match required(user_at(options, 2)) {
                Err(error) => Err(error),
                Ok(judge) => match required(string_at(options, 3)) {
                    Err(error) => Err(error),
                    Ok(reason) => match user_at(options, 4) {
                        Err(error) => Err(error),
                        Ok(plaintiff_lawyer) => match user_at(options, 5) {
                            Err(error) => Err(error),
                            Ok(accused_lawyer) => Ok(
                                LawsuitView {
                                    id,
                                    plaintiff,
                                    accused,
                                    plaintiff_lawyer,
                                    accused_lawyer,
                                    judge,
                                    reason,
                                    verdict: None,
                                    court_room: SnowflakeId(0),
                                },
                            ),
                        },
                    },
                },
            },
        },
    }
}

impl DispatchView {
    /// A dispatch that has not done anything yet.
    pub open spec fn idle(guild_id: Option<SnowflakeId>) -> DispatchView {
        DispatchView {
            guild_id,
            task: Task::Finished,
            answered: false,
            error: None,
            lawsuit: None,
            verdict: None,
        }
    }

    /// The member is given the response.
    pub open spec fn answer(self, response: ResponseView) -> (DispatchView, StepView) {
        (
            DispatchView { task: Task::Answered, answered: true, ..self },
            StepView::Answer(response),
        )
    }

    /// The request is made, and the task taken up that waits for what comes back.
    pub open spec fn call(self, task: Task, request: RequestView) -> (DispatchView, StepView) {
        (DispatchView { task, ..self }, StepView::Call(request))
    }

    /// The dispatch is over.
    pub open spec fn finish(self) -> (DispatchView, StepView) {
        (DispatchView { task: Task::Finished, ..self }, StepView::Done)
    }

    /// The store or the platform failed, or a reply answers no request of the task. A member
    /// who still waits for a response is told of an internal error; after the response the
    /// dispatch just ends as failed.
    pub open spec fn fail(self) -> (DispatchView, StepView) {
        if self.answered {
            (DispatchView { task: Task::Finished, ..self }, StepView::Failed)
        } else {
            self.answer(internal_error())
        }
    }

    /// The command could not be understood: the member is told of an internal error.
    pub open spec fn reject(self, error: CommandError) -> (DispatchView, StepView) {
        DispatchView { error: Some(error), ..self }.answer(internal_error())
    }

    /// The step of the lawsuit becomes the step of the dispatch. When the lawsuit is done and
    /// the member still waits for a response, the member is given this one.
    pub open spec fn follow(
        self,
        task: Task,
        lawsuit: (LawsuitCtxView, StepView),
        done: ResponseView,
    ) -> (DispatchView, StepView) {
        let next = DispatchView { task, lawsuit: Some(lawsuit.0), ..self };
        match lawsuit.1 {
            StepView::Call(request) => (next, StepView::Call(request)),
            StepView::CallAll(requests) => (next, StepView::CallAll(requests)),
            StepView::Answer(response) => (
                DispatchView { answered: true, ..next },
                StepView::Answer(response),
            ),
            StepView::Done => if next.answered {
                next.finish()
            } else {
                next.answer(done)
            },
            StepView::Failed => next.fail(),
        }
    }

    /// A lawsuit is filed in the guild and begins to be opened.
    pub open spec fn open_lawsuit(guild_id: SnowflakeId, lawsuit: LawsuitView) -> (
        DispatchView,
        StepView,
    ) {
        let ctx = LawsuitCtxView { lawsuit, guild_id, phase: Phase::Ready };
        DispatchView::idle(Some(guild_id)).follow(
            Task::Opening,
            ctx.initialize(),
            internal_error(),
        )
    }

    /// What the member is told when a lawsuit was closed.
    pub open spec fn closed_response() -> ResponseView {
        ResponseView::EphemeralStr("ich han en dir abschlosse"@)
    }

    /// What the member is told who wants to close a lawsuit in a channel where none is open.
    pub open spec fn no_lawsuit_response() -> ResponseView {
        ResponseView::EphemeralStr("i dem channel lauft kein aktive prozess!"@)
    }

    /// What the member is told when no role for prisoners is set.
    pub open spec fn no_prison_role_response() -> ResponseView {
        ResponseView::EphemeralStr("du mosch zerst e rolle setze mit /prison set_role"@)
    }

    /// The lawsuit that is open in the channel begins to be closed, in the room of that
    /// channel. Where the channel has no open lawsuit, or is no room, the member is told so.
    pub open spec fn close_lawsuit(
        self,
        state: StateView,
        user_id: SnowflakeId,
        channel_id: SnowflakeId,
        permission_override: bool,
    ) -> (DispatchView, StepView) {
        match (state.find_open_lawsuit(channel_id), state.find_room(channel_id), self.guild_id) {
            (Some(lawsuit), Some(room), Some(guild_id)) => {
                let ctx = LawsuitCtxView { lawsuit, guild_id, phase: Phase::Ready };
                let verdict = match self.verdict {
                    Some(text) => text,
                    None => Seq::empty(),
                };
                self.follow(
                    Task::Closing,
                    ctx.rule_verdict(permission_override, user_id, verdict, room),
                    Self::closed_response(),
                )
            },
            _ => self.answer(Self::no_lawsuit_response()),
        }
    }

    /// The next step, given what came back from the last one.
    pub open spec fn resume(self, reply: ReplyView) -> (DispatchView, StepView) {
        match self.task {
            Task::Opening => match self.lawsuit {
                Some(ctx) => self.follow(Task::Opening, ctx.resume(reply), internal_error()),
                None => self.fail(),
            },
            Task::Closing => match self.lawsuit {
                Some(ctx) => self.follow(Task::Closing, ctx.resume(reply), Self::closed_response()),
                None => self.fail(),
            },
            Task::ResolvingCategory => match reply {
                ReplyView::Category(Some(category_id)) => self.call(
                    Task::SettingCategory,
                    RequestView::SetCourtCategory(category_id),
                ),
                ReplyView::Category(None) => self.answer(
                    ResponseView::EphemeralStr("Das ist keine Kategorie!"@),
                ),
                _ => self.fail(),
            },
            Task::SettingCategory => match reply {
                ReplyView::Done => self.answer(ResponseView::EphemeralStr("isch gsetzt"@)),
                _ => self.fail(),
            },
            Task::LoadingForClose { user_id, channel_id, permission_override } => match reply {
                ReplyView::State(state) => self.close_lawsuit(
                    state,
                    user_id,
                    channel_id,
                    permission_override,
                ),
                _ => self.fail(),
            },
            Task::Clearing => match reply {
                ReplyView::Done => self.answer(ResponseView::EphemeralStr("alles weg"@)),
                _ => self.fail(),
            },
            Task::SettingRole => match reply {
                ReplyView::Done => self.answer(ResponseView::EphemeralStr("isch gsetzt"@)),
                _ => self.fail(),
            },
            Task::LoadingForArrest { user_id } => match reply {
                ReplyView::State(state) => match state.prison_role {
                    Some(role_id) => self.call(
                        Task::Arresting { user_id, role_id },
                        RequestView::AddToPrison(user_id),
                    ),
                    None => self.answer(Self::no_prison_role_response()),
                },
                _ => self.fail(),
            },
            Task::Arresting { user_id, role_id } => match reply {
                ReplyView::Done => self.call(
                    Task::GrantingPrisonRole,
                    RequestView::AddRole { user_id, role_id },
                ),
                _ => self.fail(),
            },
            Task::GrantingPrisonRole => match reply {
                ReplyView::Done => self.answer(ResponseView::EphemeralStr("hani igsperrt"@)),
                _ => self.fail(),
            },
            Task::LoadingForRelease { user_id } => match reply {
                ReplyView::State(state) => match state.prison_role {
                    Some(role_id) => self.call(
                        Task::Releasing { user_id, role_id },
                        RequestView::RemoveFromPrison(user_id),
                    ),
                    None => self.answer(Self::no_prison_role_response()),
                },
                _ => self.fail(),
            },
            Task::Releasing { user_id, role_id } => match reply {
                ReplyView::Done => self.call(
                    Task::RevokingPrisonRole,
                    RequestView::RemoveRole { user_id, role_id },
                ),
                _ => self.fail(),
            },
            Task::RevokingPrisonRole => match reply {
                ReplyView::Done => self.answer(ResponseView::EphemeralStr("d'freiheit wartet"@)),
                _ => self.fail(),
            },
            Task::LoadingForJoin { user_id } => match reply {
                ReplyView::State(state) => match state.prison_role {
                    Some(role_id) => self.call(
                        Task::CheckingPrison { user_id, role_id },
                        RequestView::FindPrisonEntry(user_id),
                    ),
                    None => self.finish(),
                },
                _ => self.fail(),
            },
            Task::CheckingPrison { user_id, role_id } => match reply {
                ReplyView::PrisonEntry(Some(_)) => self.call(
                    Task::RestoringPrisonRole,
                    RequestView::AddRole { user_id, role_id },
                ),
                ReplyView::PrisonEntry(None) => self.finish(),
                _ => self.fail(),
            },
            Task::RestoringPrisonRole => match reply {
                ReplyView::Done => self.finish(),
                _ => self.fail(),
            },
            Task::Answered => match reply {
                ReplyView::Done => self.finish(),
                _ => self.fail(),
            },
            Task::Finished => self.finish(),
        }
    }

    /// A member has joined the guild: the guild's record is asked for. The dispatch has no
    /// member to answer, so it counts as answered.
    pub open spec fn member_joined(guild_id: SnowflakeId, user_id: SnowflakeId) -> (
        DispatchView,
        StepView,
    ) {
        DispatchView { answered: true, ..DispatchView::idle(Some(guild_id)) }.call(
            Task::LoadingForJoin { user_id },
            RequestView::FindOrInsertState,
        )
    }
}

impl InteractionView {
    /// The first step for a command. `id` is the identifier under which a lawsuit is filed if
    /// the command files one.
    pub open spec fn handle(self, id: LawsuitId) -> (DispatchView, StepView) {
        if self.name == "lawsuit"@ {
            self.lawsuit_command(id)
        } else if self.name == "prison"@ {
            self.prison_command()
        } else {
            DispatchView::idle(self.guild_id).answer(
                ResponseView::EphemeralStr("not implemented :("@),
            )
        }
    }

    /// What every subcommand needs: the subcommand, the guild, the member and the member's
    /// permissions. The first that is missing decides.
    pub open spec fn envelope(self) -> Result<(SubcommandView, SnowflakeId, Member, u64), CommandError> {
        match self.subcommand {
            None => Err(CommandError::NoSubcommand),
            Some(subcommand) => match self.guild_id {
                None => Err(CommandError::NoGuild),
                Some(guild_id) => match self.member {
                    None => Err(CommandError::NoMember),
                    Some(member) => match member.permissions {
                        None => Err(CommandError::NoMemberPermissions),
                        Some(permissions) => Ok((subcommand, guild_id, member, permissions)),
                    },
                },
            },
        }
    }

    /// The first step for a `lawsuit` command. To file a lawsuit, to set the category and to
    /// clear the guild's record takes the permission to manage the guild.
    pub open spec fn lawsuit_command(self, id: LawsuitId) -> (DispatchView, StepView) {
        let idle = DispatchView::idle(self.guild_id);
        match self.envelope() {
            Err(error) => idle.reject(error),
            Ok((subcommand, guild_id, member, permissions)) => {
                if subcommand.name == "create"@ {
                    if !may_manage_guild(permissions) {
                        idle.answer(ResponseView::NoPermissions)
                    } else {
                        match filed_lawsuit(subcommand.options, id) {
                            Ok(lawsuit) => DispatchView::open_lawsuit(guild_id, lawsuit),
                            Err(error) => idle.reject(error),
                        }
                    }
                } else if subcommand.name == "set_category"@ {
                    if !may_manage_guild(permissions) {
                        idle.answer(ResponseView::NoPermissions)
                    } else {
                        match required(channel_at(subcommand.options, 0)) {
                            Ok(channel_id) => idle.call(
                                Task::ResolvingCategory,
                                RequestView::Category(channel_id),
                            ),
                            Err(error) => idle.reject(error),
                        }
                    }
                } else if subcommand.name == "close"@ {
                    match required(string_at(subcommand.options, 0)) {
                        Ok(verdict) => DispatchView { verdict: Some(verdict), ..idle }.call(
                            Task::LoadingForClose {
                                user_id: member.user_id,
                                channel_id: self.channel_id,
                                permission_override: may_manage_guild(permissions),
                            },
                            RequestView::FindOrInsertState,
                        ),
                        Err(error) => idle.reject(error),
                    }
                } else if subcommand.name == "clear"@ {
                    if !may_manage_guild(permissions) {
                        idle.answer(ResponseView::NoPermissions)
                    } else {
                        idle.call(Task::Clearing, RequestView::DeleteGuild)
                    }
                } else {
                    idle.reject(CommandError::UnknownSubcommand)
                }
            },
        }
    }

    /// The first step for a `prison` command. Each of its subcommands takes the permission to
    /// manage the guild.
    pub open spec fn prison_command(self) -> (DispatchView, StepView) {
        let idle = DispatchView::idle(self.guild_id);
        match self.envelope() {
            Err(error) => idle.reject(error),
            Ok((subcommand, guild_id, member, permissions)) => {
                if subcommand.name == "set_role"@ {
                    if !may_manage_guild(permissions) {
                        idle.answer(ResponseView::NoPermissions)
                    } else {
                        match required(role_at(subcommand.options, 0)) {
                            Ok(role_id) => idle.call(
                                Task::SettingRole,
                                RequestView::SetPrisonRole(role_id),
                            ),
                            Err(error) => idle.reject(error),
                        }
                    }
                } else if subcommand.name == "arrest"@ {
                    if !may_manage_guild(permissions) {
                        idle.answer(ResponseView::NoPermissions)
                    } else {
                        match required(user_at(subcommand.options, 0)) {
                            Ok(user_id) => idle.call(
                                Task::LoadingForArrest { user_id },
                                RequestView::FindOrInsertState,
                            ),
                            Err(error) => idle.reject(error),
                        }
                    }
                } else if subcommand.name == "release"@ {
                    if !may_manage_guild(permissions) {
                        idle.answer(ResponseView::NoPermissions)
                    } else {
                        match required(user_at(subcommand.options, 0)) {
                            Ok(user_id) => idle.call(
                                Task::LoadingForRelease { user_id },
                                RequestView::FindOrInsertState,
                            ),
                            Err(error) => idle.reject(error),
                        }
                    }
                } else {
                    idle.reject(CommandError::UnknownSubcommand)
                }
            },
        }
    }
}


/// Whether the permission bits hold the permission to manage the guild, by
/// `serenity::model::Permissions::contains` with `Permissions::MANAGE_GUILD`, which is the
/// sixth bit; `Permissions::from_bits_truncate` makes the value and drops the bits that name
/// no permission.
#[verifier::external_body]
fn manage_guild(permissions: u64) -> (allowed: bool)
    ensures
        allowed == may_manage_guild(permissions),
{
    serenity::model::Permissions::from_bits_truncate(permissions).contains(
        serenity::model::Permissions::MANAGE_GUILD,
    )
}

/// A new identifier for a lawsuit, from `mongodb::bson::Uuid::new`. It is drawn at random:
/// nothing is known of the value.
#[verifier::external_body]
fn fresh_lawsuit_id() -> LawsuitId {
    LawsuitId(u128::from_be_bytes(mongodb::bson::Uuid::new().bytes()))
}

/// Whether the text is the word.
fn is_word(text: &String, word: &str) -> (same: bool)
    ensures
        same == (text@ == word@),
{
    let word = String::from_str(word);
    *text == word
}

/// The options as mathematical values.
pub open spec fn options_view(options: Seq<Option<OptionValue>>) -> Seq<Option<OptionValueView>> {
    options.map_values(|v: Option<OptionValue>| option_value_view(v))
}

/// The text of an optional string that was found, or the error.
pub open spec fn found_text(found: Result<Option<String>, CommandError>) -> Result<
    Option<Seq<char>>,
    CommandError,
> {
    match found {
        Ok(text) => Ok(crate::model::text_of(text)),
        Err(error) => Err(error),
    }
}

fn user_option(options: &Vec<Option<OptionValue>>, at: usize) -> (found: Result<
    Option<SnowflakeId>,
    CommandError,
>)
    ensures
        found == user_at(options_view(options@), at as int),
{
    if at >= options.len() {
        return Ok(None);
    }
    match &options[at] {
        Some(OptionValue::User(id)) => Ok(Some(*id)),
        Some(_) => Err(CommandError::ExpectedUser),
        None => Ok(None),
    }
}

fn string_option(options: &Vec<Option<OptionValue>>, at: usize) -> (found: Result<
    Option<String>,
    CommandError,
>)
    ensures
        found_text(found) == string_at(options_view(options@), at as int),
{
    if at >= options.len() {
        return Ok(None);
    }
    match &options[at] {
        Some(OptionValue::String(text)) => Ok(Some(text.clone())),
        Some(_) => Err(CommandError::ExpectedString),
        None => Ok(None),
    }
}

fn channel_option(options: &Vec<Option<OptionValue>>, at: usize) -> (found: Result<
    Option<SnowflakeId>,
    CommandError,
>)
    ensures
        found == channel_at(options_view(options@), at as int),
{
    if at >= options.len() {
        return Ok(None);
    }
    match &options[at] {
        Some(OptionValue::Channel(id)) => Ok(Some(*id)),
        Some(_) => Err(CommandError::ExpectedChannel),
        None => Ok(None),
    }
}

fn role_option(options: &Vec<Option<OptionValue>>, at: usize) -> (found: Result<
    Option<SnowflakeId>,
    CommandError,
>)
    ensures
        found == role_at(options_view(options@), at as int),
{
    if at >= options.len() {
        return Ok(None);
    }
    match &options[at] {
        Some(OptionValue::Role(id)) => Ok(Some(*id)),
        Some(_) => Err(CommandError::ExpectedRole),
        None => Ok(None),
    }
}

/// The value of an option that the command cannot do without.
fn get<T>(found: Result<Option<T>, CommandError>) -> (value: Result<T, CommandError>)
    ensures
        value == required(found),
{
    match found {
        Ok(Some(value)) => Ok(value),
        Ok(None) => Err(CommandError::ExpectedValue),
        Err(error) => Err(error),
    }
}

/// The lawsuit that the options of a `create` subcommand describe, filed under the
/// identifier.
pub fn file_lawsuit(options: &Vec<Option<OptionValue>>, id: LawsuitId) -> (filed: Result<
    Lawsuit,
    CommandError,
>)
    ensures
        match filed {
            Ok(lawsuit) => filed_lawsuit(options_view(options@), id) == Ok::<
                LawsuitView,
                CommandError,
            >(lawsuit@),
            Err(error) => filed_lawsuit(options_view(options@), id) == Err::<
                LawsuitView,
                CommandError,
            >(error),
        },
{
    let plaintiff = match get(user_option(options, 0)) {
        Ok(id) => id,
        Err(error) => return Err(error),
    };
    let accused = match get(user_option(options, 1)) {
        Ok(id) => id,
        Err(error) => return Err(error),
    };
    let judge = match get(user_option(options, 2)) {
        Ok(id) => id,
        Err(error) => return Err(error),
    };
    let found = string_option(options, 3);
    let reason = match get(found) {
        Ok(text) => text,
        Err(error) => return Err(error),
    };
    let plaintiff_lawyer = match user_option(options, 4) {
        Ok(id) => id,
        Err(error) => return Err(error),
    };
    let accused_lawyer = match user_option(options, 5) {
        Ok(id) => id,
        Err(error) => return Err(error),
    };
    Ok(Lawsuit::new(id, plaintiff, accused, judge, reason, plaintiff_lawyer, accused_lawyer))
}

impl Dispatch {
    fn idle(guild_id: Option<SnowflakeId>) -> (dispatch: Dispatch)
        ensures
            dispatch@ == DispatchView::idle(guild_id),
    {
        Dispatch {
            guild_id,
            task: Task::Finished,
            answered: false,
            error: None,
            lawsuit: None,
            verdict: None,
        }
    }

    fn answer(&mut self, response: Response) -> (step: Step)
        ensures
            (final(self)@, step@) == old(self)@.answer(response@),
    {
        self.task = Task::Answered;
        self.answered = true;
        Step::Answer(response)
    }

    fn call(&mut self, task: Task, request: Request) -> (step: Step)
        ensures
            (final(self)@, step@) == old(self)@.call(task, request@),
    {
        self.task = task;
        Step::Call(request)
    }

    fn finish(&mut self) -> (step: Step)
        ensures
            (final(self)@, step@) == old(self)@.finish(),
    {
        self.task = Task::Finished;
        Step::Done
    }

    fn fail(&mut self) -> (step: Step)
        ensures
            (final(self)@, step@) == old(self)@.fail(),
    {
        if self.answered {
            self.task = Task::Finished;
            Step::Failed
        } else {
            self.answer(Response::EphemeralStr("An internal error occurred"))
        }
    }

    fn reject(&mut self, error: CommandError) -> (step: Step)
        ensures
            (final(self)@, step@) == old(self)@.reject(error),
    {
        self.error = Some(error);
        self.answer(Response::EphemeralStr("An internal error occurred"))
    }

    fn follow(&mut self, task: Task, ctx: LawsuitCtx, step: Step, done: Response) -> (next: Step)
        ensures
            (final(self)@, next@) == old(self)@.follow(task, (ctx@, step@), done@),
    {
        self.task = task;
        self.lawsuit = Some(ctx);
        match step {
            Step::Call(request) => Step::Call(request),
            Step::CallAll(requests) => Step::CallAll(requests),
            Step::Answer(response) => {
                self.answered = true;
                Step::Answer(response)
            },
            Step::Done => if self.answered {
                self.finish()
            } else {
                self.answer(done)
            },
            Step::Failed => self.fail(),
        }
    }

    /// Files the lawsuit in the guild and begins to open it.
    pub fn open_lawsuit(guild_id: SnowflakeId, lawsuit: Lawsuit) -> (started: (Dispatch, Step))
        ensures
            (started.0@, started.1@) == DispatchView::open_lawsuit(guild_id, lawsuit@),
    {
        let mut dispatch = Dispatch::idle(Some(guild_id));
        let mut ctx = LawsuitCtx::new(lawsuit, guild_id);
        let step = ctx.initialize();
        let next = dispatch.follow(
            Task::Opening,
            ctx,
            step,
            Response::EphemeralStr("An internal error occurred"),
        );
        (dispatch, next)
    }

    /// Begins the work for a member who has joined the guild: the guild's record is asked
    /// for.
    pub fn member_joined(guild_id: SnowflakeId, user_id: SnowflakeId) -> (started: (Dispatch, Step))
        ensures
            (started.0@, started.1@) == DispatchView::member_joined(guild_id, user_id),
    {
        let mut dispatch = Dispatch::idle(Some(guild_id));
        dispatch.answered = true;
        let step = dispatch.call(Task::LoadingForJoin { user_id }, Request::FindOrInsertState);
        (dispatch, step)
    }

    fn close_lawsuit(
        &mut self,
        state: &State,
        user_id: SnowflakeId,
        channel_id: SnowflakeId,
        permission_override: bool,
    ) -> (step: Step)
        ensures
            (final(self)@, step@) == old(self)@.close_lawsuit(
                state@,
                user_id,
                channel_id,
                permission_override,
            ),
    {
        let lawsuit = state.find_open_lawsuit(channel_id);
        let room = state.find_room(channel_id);
        match (lawsuit, room, self.guild_id) {
            (Some(lawsuit), Some(room), Some(guild_id)) => {
                let mut ctx = LawsuitCtx::new(lawsuit, guild_id);
                let verdict = match &self.verdict {
                    Some(text) => text.clone(),
                    None => String::new(),
                };
                let step = ctx.rule_verdict(permission_override, user_id, verdict, room);
                self.follow(
                    Task::Closing,
                    ctx,
                    step,
                    Response::EphemeralStr("ich han en dir abschlosse"),
                )
            },
            _ => self.answer(Response::EphemeralStr("i dem channel lauft kein aktive prozess!")),
        }
    }

    /// The next step, given what came back from the last one. A failure, and a reply that
    /// answers no request of the task, end the dispatch: with the answer that an internal
    /// error occurred if the member still waits for one, silently if not.
    pub fn resume(&mut self, reply: Reply) -> (step: Step)
        ensures
            (final(self)@, step@) == old(self)@.resume(reply@),
    {
        match self.task {
            Task::Opening => match self.lawsuit.take() {
                Some(mut ctx) => {
                    let step = ctx.resume(reply);
                    self.follow(
                        Task::Opening,
                        ctx,
                        step,
                        Response::EphemeralStr("An internal error occurred"),
                    )
                },
                None => self.fail(),
            },
            Task::Closing => match self.lawsuit.take() {
                Some(mut ctx) => {
                    let step = ctx.resume(reply);
                    self.follow(
                        Task::Closing,
                        ctx,
                        step,
                        Response::EphemeralStr("ich han en dir abschlosse"),
                    )
                },
                None => self.fail(),
            },
            Task::ResolvingCategory => match reply {
                Reply::Category(Some(category_id)) => self.call(
                    Task::SettingCategory,
                    Request::SetCourtCategory(category_id),
                ),
                Reply::Category(None) => self.answer(
                    Response::EphemeralStr("Das ist keine Kategorie!"),
                ),
                _ => self.fail(),
            },
            Task::SettingCategory => match reply {
                Reply::Done => self.answer(Response::EphemeralStr("isch gsetzt")),
                _ => self.fail(),
            },
            Task::LoadingForClose { user_id, channel_id, permission_override } => match reply {
                Reply::State(state) => self.close_lawsuit(
                    &state,
                    user_id,
                    channel_id,
                    permission_override,
                ),
                _ => self.fail(),
            },
            Task::Clearing => match reply {
                Reply::Done => self.answer(Response::EphemeralStr("alles weg")),
                _ => self.fail(),
            },
            Task::SettingRole => match reply {
                Reply::Done => self.answer(Response::EphemeralStr("isch gsetzt")),
                _ => self.fail(),
            },
            Task::LoadingForArrest { user_id } => match reply {
                Reply::State(state) => match state.prison_role {
                    Some(role_id) => self.call(
                        Task::Arresting { user_id, role_id },
                        Request::AddToPrison(user_id),
                    ),
                    None => self.answer(
                        Response::EphemeralStr("du mosch zerst e rolle setze mit /prison set_role"),
                    ),
                },
                _ => self.fail(),
            },
            Task::Arresting { user_id, role_id } => match reply {
                Reply::Done => self.call(
                    Task::GrantingPrisonRole,
                    Request::AddRole { user_id, role_id },
                ),
                _ => self.fail(),
            },
            Task::GrantingPrisonRole => match reply {
                Reply::Done => self.answer(Response::EphemeralStr("hani igsperrt")),
                _ => self.fail(),
            },
            Task::LoadingForRelease { user_id } => match reply {
                Reply::State(state) => match state.prison_role {
                    Some(role_id) => self.call(
                        Task::Releasing { user_id, role_id },
                        Request::RemoveFromPrison(user_id),
                    ),
                    None => self.answer(
                        Response::EphemeralStr("du mosch zerst e rolle setze mit /prison set_role"),
                    ),
                },
                _ => self.fail(),
            },
            Task::Releasing { user_id, role_id } => match reply {
                Reply::Done => self.call(
                    Task::RevokingPrisonRole,
                    Request::RemoveRole { user_id, role_id },
                ),
                _ => self.fail(),
            },
            Task::RevokingPrisonRole => match reply {
                Reply::Done => self.answer(Response::EphemeralStr("d'freiheit wartet")),
                _ => self.fail(),
            },
            Task::LoadingForJoin { user_id } => match reply {
                Reply::State(state) => match state.prison_role {
                    Some(role_id) => self.call(
                        Task::CheckingPrison { user_id, role_id },
                        Request::FindPrisonEntry(user_id),
                    ),
                    None => self.finish(),
                },
                _ => self.fail(),
            },
            Task::CheckingPrison { user_id, role_id } => match reply {
                Reply::PrisonEntry(Some(_)) => self.call(
                    Task::RestoringPrisonRole,
                    Request::AddRole { user_id, role_id },
                ),
                Reply::PrisonEntry(None) => self.finish(),
                _ => self.fail(),
            },
            Task::RestoringPrisonRole => match reply {
                Reply::Done => self.finish(),
                _ => self.fail(),
            },
            Task::Answered => match reply {
                Reply::Done => self.finish(),
                _ => self.fail(),
            },
            Task::Finished => self.finish(),
        }
    }
}

/// What every subcommand needs: the subcommand, the guild, the member and the member's
/// permissions.
fn envelope(interaction: &Interaction) -> (found: Result<
    (&Subcommand, SnowflakeId, Member, u64),
    CommandError,
>)
    ensures
        match found {
            Ok(parts) => interaction@.envelope() == Ok::<
                (SubcommandView, SnowflakeId, Member, u64),
                CommandError,
            >((parts.0@, parts.1, parts.2, parts.3)),
            Err(error) => interaction@.envelope() == Err::<
                (SubcommandView, SnowflakeId, Member, u64),
                CommandError,
            >(error),
        },
{
    let subcommand = match &interaction.subcommand {
        Some(subcommand) => subcommand,
        None => return Err(CommandError::NoSubcommand),
    };
    let guild_id = match interaction.guild_id {
        Some(guild_id) => guild_id,
        None => return Err(CommandError::NoGuild),
    };
    let member = match interaction.member {
        Some(member) => member,
        None => return Err(CommandError::NoMember),
    };
    let permissions = match member.permissions {
        Some(permissions) => permissions,
        None => return Err(CommandError::NoMemberPermissions),
    };
    Ok((subcommand, guild_id, member, permissions))
}

/// The first step for a `lawsuit` command. A lawsuit that the command files gets a new
/// identifier.
fn lawsuit_command_handler(interaction: &Interaction) -> (started: (Dispatch, Step))
    ensures
        exists|id: LawsuitId| #[trigger]
            interaction@.lawsuit_command(id) == (started.0@, started.1@),
{
    let mut dispatch = Dispatch::idle(interaction.guild_id);
    let ghost any = LawsuitId(0);
    let (subcommand, guild_id, member, permissions) = match envelope(interaction) {
        Ok(parts) => parts,
        Err(error) => {
            let step = dispatch.reject(error);
            assert(interaction@.lawsuit_command(any) == (dispatch@, step@));
            return (dispatch, step);
        },
    };
    if is_word(&subcommand.name, "create") {
        if !manage_guild(permissions) {
            let step = dispatch.answer(Response::NoPermissions);
            assert(interaction@.lawsuit_command(any) == (dispatch@, step@));
            return (dispatch, step);
        }
        let id = fresh_lawsuit_id();
        match file_lawsuit(&subcommand.options, id) {
            Ok(lawsuit) => {
                let started = Dispatch::open_lawsuit(guild_id, lawsuit);
                assert(interaction@.lawsuit_command(id) == (started.0@, started.1@));
                started
            },
            Err(error) => {
                let step = dispatch.reject(error);
                assert(interaction@.lawsuit_command(id) == (dispatch@, step@));
                (dispatch, step)
            },
        }
    } else if is_word(&subcommand.name, "set_category") {
        let step = if !manage_guild(permissions) {
            dispatch.answer(Response::NoPermissions)
        } else {
            match get(channel_option(&subcommand.options, 0)) {
                Ok(channel_id) => dispatch.call(
                    Task::ResolvingCategory,
                    Request::Category(channel_id),
                ),
                Err(error) => dispatch.reject(error),
            }
        };
        assert(interaction@.lawsuit_command(any) == (dispatch@, step@));
        (dispatch, step)
    } else if is_word(&subcommand.name, "close") {
        let found = string_option(&subcommand.options, 0);
        let step = match get(found) {
            Ok(verdict) => {
                dispatch.verdict = Some(verdict);
                dispatch.call(
                    Task::LoadingForClose {
                        user_id: member.user_id,
                        channel_id: interaction.channel_id,
                        permission_override: manage_guild(permissions),
                    },
                    Request::FindOrInsertState,
                )
            },
            Err(error) => dispatch.reject(error),
        };
        assert(interaction@.lawsuit_command(any) == (dispatch@, step@));
        (dispatch, step)
    } else if is_word(&subcommand.name, "clear") {
        let step = if !manage_guild(permissions) {
            dispatch.answer(Response::NoPermissions)
        } else {
            dispatch.call(Task::Clearing, Request::DeleteGuild)
        };
        assert(interaction@.lawsuit_command(any) == (dispatch@, step@));
        (dispatch, step)
    } else {
        let step = dispatch.reject(CommandError::UnknownSubcommand);
        assert(interaction@.lawsuit_command(any) == (dispatch@, step@));
        (dispatch, step)
    }
}

/// The first step for a `prison` command.
fn prison_command_handler(interaction: &Interaction) -> (started: (Dispatch, Step))
    ensures
        (started.0@, started.1@) == interaction@.prison_command(),
{
    let mut dispatch = Dispatch::idle(interaction.guild_id);
    let (subcommand, guild_id, member, permissions) = match envelope(interaction) {
        Ok(parts) => parts,
        Err(error) => {
            let step = dispatch.reject(error);
            return (dispatch, step);
        },
    };
    let step = if is_word(&subcommand.name, "set_role") {
        if !manage_guild(permissions) {
            dispatch.answer(Response::NoPermissions)
        } else {
            match get(role_option(&subcommand.options, 0)) {
                Ok(role_id) => dispatch.call(Task::SettingRole, Request::SetPrisonRole(role_id)),
                Err(error) => dispatch.reject(error),
            }
        }
    } else if is_word(&subcommand.name, "arrest") {
        if !manage_guild(permissions) {
            dispatch.answer(Response::NoPermissions)
        } else {
            match get(user_option(&subcommand.options, 0)) {
                Ok(user_id) => dispatch.call(
                    Task::LoadingForArrest { user_id },
                    Request::FindOrInsertState,
                ),
                Err(error) => dispatch.reject(error),
            }
        }
    } else if is_word(&subcommand.name, "release") {
        if !manage_guild(permissions) {
            dispatch.answer(Response::NoPermissions)
        } else {
            match get(user_option(&subcommand.options, 0)) {
                Ok(user_id) => dispatch.call(
                    Task::LoadingForRelease { user_id },
                    Request::FindOrInsertState,
                ),
                Err(error) => dispatch.reject(error),
            }
        }
    } else {
        dispatch.reject(CommandError::UnknownSubcommand)
    };
    (dispatch, step)
}

/// The court's door: what arrives from the platform is taken up here.
#[derive(Debug, Clone, Copy)]
pub struct Handler {
    /// The guild in which the commands are registered while the court is being tried out.
    pub dev_guild_id: Option<SnowflakeId>,
    /// Whether the commands are registered for every guild.
    pub set_global_commands: bool,
}

impl Handler {
    /// The first step for a command. A lawsuit that the command files gets a new identifier,
    /// drawn at random: `id` stands for it.
    pub fn handle_interaction(&self, interaction: &Interaction) -> (started: (Dispatch, Step))
        ensures
            exists|id: LawsuitId| #[trigger] interaction@.handle(id) == (started.0@, started.1@),
    {
        if is_word(&interaction.name, "lawsuit") {
            let started = lawsuit_command_handler(interaction);
            let ghost id = choose|id: LawsuitId| #[trigger]
                interaction@.lawsuit_command(id) == (started.0@, started.1@);
            assert(interaction@.handle(id) == (started.0@, started.1@));
            started
        } else if is_word(&interaction.name, "prison") {
            let started = prison_command_handler(interaction);
            assert(interaction@.handle(LawsuitId(0)) == (started.0@, started.1@));
            started
        } else {
            let mut dispatch = Dispatch::idle(interaction.guild_id);
            let step = dispatch.answer(Response::EphemeralStr("not implemented :("));
            assert(interaction@.handle(LawsuitId(0)) == (dispatch@, step@));
            (dispatch, step)
        }
    }

    /// The first step when a member has joined a guild.
    pub fn handle_guild_member_join(&self, guild_id: SnowflakeId, user_id: SnowflakeId) -> (started:
        (Dispatch, Step))
        ensures
            (started.0@, started.1@) == DispatchView::member_joined(guild_id, user_id),
    {
        Dispatch::member_joined(guild_id, user_id)
    }
}

} // verus!
