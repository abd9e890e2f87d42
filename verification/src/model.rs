use crate::decimal::{decimal, decimal_string, parse_decimal, parse_decimal_str, ParseError};
use vstd::prelude::*;

verus! {

/// A platform identifier: an opaque 64-bit value that is stored and compared, never computed with.
#[derive(Debug, Clone, Copy, PartialEq, Eq, Structural, Hash)]
pub struct SnowflakeId(pub u64);

impl SnowflakeId {
    /// Reads an identifier in decimal notation.
    pub fn from_str(s: &str) -> (parsed: Result<SnowflakeId, ParseError>)
        ensures
            match parsed {
                Ok(id) => parse_decimal(s@) == Ok::<u64, ParseError>(id.0),
                Err(error) => parse_decimal(s@) == Err::<u64, ParseError>(error),
            },
    {
        match parse_decimal_str(s) {
            Ok(n) => Ok(SnowflakeId(n)),
            Err(error) => Err(error),
        }
    }

    /// The identifier in decimal notation.
    pub fn to_string(&self) -> (text: String)
        ensures
            text@ == decimal(self.0 as nat),
    {
        decimal_string(self.0 as u128)
    }
}

/// The identifier of a lawsuit: 128 bits, drawn once when the lawsuit is filed.
#[derive(Debug, Clone, Copy, PartialEq, Eq, Structural, Hash)]
pub struct LawsuitId(pub u128);

/// A text channel paired with the role that may post in it.
#[derive(Debug, Clone, Copy, PartialEq, Eq, Structural)]
pub struct CourtRoom {
    pub channel_id: SnowflakeId,
    pub ongoing_lawsuit: bool,
    pub role_id: SnowflakeId,
}

/// A member who is imprisoned in a guild. That the entry exists is all that it says.
#[derive(Debug, Clone, Copy, PartialEq, Eq, Structural)]
pub struct PrisonEntry {
    pub guild_id: SnowflakeId,
    pub user_id: SnowflakeId,
}

/// One case: who sues whom before which judge, why, where, and how it ended.
#[derive(Debug, PartialEq, Eq)]
pub struct Lawsuit {
    pub id: LawsuitId,
    pub plaintiff: SnowflakeId,
    pub accused: SnowflakeId,
    pub plaintiff_lawyer: Option<SnowflakeId>,
    pub accused_lawyer: Option<SnowflakeId>,
    pub judge: SnowflakeId,
    pub reason: String,
    pub verdict: Option<String>,
    pub court_room: SnowflakeId,
}

/// A lawsuit as a mathematical value.
pub struct LawsuitView {
    pub id: LawsuitId,
    pub plaintiff: SnowflakeId,
    pub accused: SnowflakeId,
    pub plaintiff_lawyer: Option<SnowflakeId>,
    pub accused_lawyer: Option<SnowflakeId>,
    pub judge: SnowflakeId,
    pub reason: Seq<char>,
    pub verdict: Option<Seq<char>>,
    pub court_room: SnowflakeId,
}

/// The text of an optional string.
pub open spec fn text_of(s: Option<String>) -> Option<Seq<char>> {
    match s {
        Some(s) => Some(s@),
        None => None,
    }
}

impl View for Lawsuit {
    type V = LawsuitView;

    open spec fn view(&self) -> LawsuitView {
        LawsuitView {
            id: self.id,
            plaintiff: self.plaintiff,
            accused: self.accused,
            plaintiff_lawyer: self.plaintiff_lawyer,
            accused_lawyer: self.accused_lawyer,
            judge: self.judge,
            reason: self.reason@,
            verdict: text_of(self.verdict),
            court_room: self.court_room,
        }
    }
}

impl LawsuitView {
    /// A lawsuit is open until a verdict is recorded.
    pub open spec fn is_open(self) -> bool {
        self.verdict is None
    }

    /// Everyone who is given the room's role, in the order in which it is granted: the accused's
    /// side, then the plaintiff's side, then the judge.
    pub open spec fn participants(self) -> Seq<SnowflakeId> {
        seq![self.accused] + option_seq(self.accused_lawyer) + seq![self.plaintiff] + option_seq(
            self.plaintiff_lawyer,
        ) + seq![self.judge]
    }

    /// The lawyers, in the order in which the room's role is taken from them at the end.
    pub open spec fn lawyers(self) -> Seq<SnowflakeId> {
        option_seq(self.accused_lawyer) + option_seq(self.plaintiff_lawyer)
    }
}

/// An optional identifier as a sequence of no or one element.
pub open spec fn option_seq(id: Option<SnowflakeId>) -> Seq<SnowflakeId> {
    match id {
        Some(id) => seq![id],
        None => Seq::empty(),
    }
}

/// A copy of an optional string.
pub fn clone_text(s: &Option<String>) -> (r: Option<String>)
    ensures
        text_of(r) == text_of(*s),
{
    match s {
        Some(s) => Some(s.clone()),
        None => None,
    }
}

impl Clone for Lawsuit {
    fn clone(&self) -> (r: Self)
        ensures
            r@ == self@,
    {
        Lawsuit {
            id: self.id,
            plaintiff: self.plaintiff,
            accused: self.accused,
            plaintiff_lawyer: self.plaintiff_lawyer,
            accused_lawyer: self.accused_lawyer,
            judge: self.judge,
            reason: self.reason.clone(),
            verdict: clone_text(&self.verdict),
            court_room: self.court_room,
        }
    }
}

impl Lawsuit {
    /// A lawsuit that has just been filed: no verdict, and bound to no room yet (room 0).
    pub fn new(
        id: LawsuitId,
        plaintiff: SnowflakeId,
        accused: SnowflakeId,
        judge: SnowflakeId,
        reason: String,
        plaintiff_lawyer: Option<SnowflakeId>,
        accused_lawyer: Option<SnowflakeId>,
    ) -> (lawsuit: Lawsuit)
        ensures
            lawsuit@ == (LawsuitView {
                id,
                plaintiff,
                accused,
                plaintiff_lawyer,
                accused_lawyer,
                judge,
                reason: reason@,
                verdict: None,
                court_room: SnowflakeId(0),
            }),
    {
        Lawsuit {
            id,
            plaintiff,
            accused,
            plaintiff_lawyer,
            accused_lawyer,
            judge,
            reason,
            verdict: None,
            court_room: SnowflakeId(0),
        }
    }

    /// The members who get the room's role when the lawsuit opens, in the order of the grants.
    pub fn participants(&self) -> (members: Vec<SnowflakeId>)
        ensures
            members@ == self@.participants(),
    {
        let mut members: Vec<SnowflakeId> = Vec::new();
        members.push(self.accused);
        if let Some(lawyer) = self.accused_lawyer {
            members.push(lawyer);
        }
        members.push(self.plaintiff);
        if let Some(lawyer) = self.plaintiff_lawyer {
            members.push(lawyer);
        }
        members.push(self.judge);
        assert(members@ =~= self@.participants());
        members
    }

    /// The lawyers of both sides, the accused's first.
    pub fn lawyers(&self) -> (members: Vec<SnowflakeId>)
        ensures
            members@ == self@.lawyers(),
    {
        let mut members: Vec<SnowflakeId> = Vec::new();
        if let Some(lawyer) = self.accused_lawyer {
            members.push(lawyer);
        }
        if let Some(lawyer) = self.plaintiff_lawyer {
            members.push(lawyer);
        }
        assert(members@ =~= self@.lawyers());
        members
    }
}


/// Everything that is recorded of one guild.
#[derive(Debug, PartialEq, Eq)]
pub struct State {
    pub guild_id: SnowflakeId,
    pub lawsuits: Vec<Lawsuit>,
    pub court_category: Option<SnowflakeId>,
    pub court_rooms: Vec<CourtRoom>,
    pub prison_role: Option<SnowflakeId>,
}

/// A guild's record as a mathematical value.
pub struct StateView {
    pub guild_id: SnowflakeId,
    pub lawsuits: Seq<LawsuitView>,
    pub court_category: Option<SnowflakeId>,
    pub court_rooms: Seq<CourtRoom>,
    pub prison_role: Option<SnowflakeId>,
}

/// The lawsuits of a list as mathematical values.
pub open spec fn lawsuit_views(lawsuits: Seq<Lawsuit>) -> Seq<LawsuitView> {
    lawsuits.map_values(|l: Lawsuit| l@)
}

impl View for State {
    type V = StateView;

    open spec fn view(&self) -> StateView {
        StateView {
            guild_id: self.guild_id,
            lawsuits: lawsuit_views(self.lawsuits@),
            court_category: self.court_category,
            court_rooms: self.court_rooms@,
            prison_role: self.prison_role,
        }
    }
}

/// The first position at or after `from` whose room is idle; the length where there is none.
pub open spec fn idle_room_from(rooms: Seq<CourtRoom>, from: int) -> int
    decreases rooms.len() - from,
{
    if from < 0 || from >= rooms.len() {
        rooms.len() as int
    } else if !rooms[from].ongoing_lawsuit {
        from
    } else {
        idle_room_from(rooms, from + 1)
    }
}

/// The first position at or after `from` whose room has the channel; the length where there is
/// none.
pub open spec fn room_index_from(rooms: Seq<CourtRoom>, channel_id: SnowflakeId, from: int) -> int
    decreases rooms.len() - from,
{
    if from < 0 || from >= rooms.len() {
        rooms.len() as int
    } else if rooms[from].channel_id == channel_id {
        from
    } else {
        room_index_from(rooms, channel_id, from + 1)
    }
}

/// The first position at or after `from` whose lawsuit has the identifier; the length where
/// there is none.
pub open spec fn lawsuit_index_from(lawsuits: Seq<LawsuitView>, id: LawsuitId, from: int) -> int
    decreases lawsuits.len() - from,
{
    if from < 0 || from >= lawsuits.len() {
        lawsuits.len() as int
    } else if lawsuits[from].id == id {
        from
    } else {
        lawsuit_index_from(lawsuits, id, from + 1)
    }
}

/// The first position at or after `from` whose lawsuit is open and bound to the channel; the
/// length where there is none.
pub open spec fn open_lawsuit_from(
    lawsuits: Seq<LawsuitView>,
    channel_id: SnowflakeId,
    from: int,
) -> int
    decreases lawsuits.len() - from,
{
    if from < 0 || from >= lawsuits.len() {
        lawsuits.len() as int
    } else if lawsuits[from].court_room == channel_id && lawsuits[from].is_open() {
        from
    } else {
        open_lawsuit_from(lawsuits, channel_id, from + 1)
    }
}

impl StateView {
    /// The record of a guild of which nothing is known yet.
    pub open spec fn empty(guild_id: SnowflakeId) -> StateView {
        StateView {
            guild_id,
            lawsuits: Seq::empty(),
            court_category: None,
            court_rooms: Seq::empty(),
            prison_role: None,
        }
    }

    /// The first room in which no lawsuit is going on.
    pub open spec fn free_room(self) -> Option<CourtRoom> {
        let i = idle_room_from(self.court_rooms, 0);
        if i < self.court_rooms.len() {
            Some(self.court_rooms[i])
        } else {
            None
        }
    }

    /// The first room with the channel.
    pub open spec fn find_room(self, channel_id: SnowflakeId) -> Option<CourtRoom> {
        let i = room_index_from(self.court_rooms, channel_id, 0);
        if i < self.court_rooms.len() {
            Some(self.court_rooms[i])
        } else {
            None
        }
    }

    /// The first open lawsuit that is bound to the channel.
    pub open spec fn find_open_lawsuit(self, channel_id: SnowflakeId) -> Option<LawsuitView> {
        let i = open_lawsuit_from(self.lawsuits, channel_id, 0);
        if i < self.lawsuits.len() {
            Some(self.lawsuits[i])
        } else {
            None
        }
    }

    /// The category in which new rooms are made is set.
    pub open spec fn set_court_category(self, category: SnowflakeId) -> StateView {
        StateView { court_category: Some(category), ..self }
    }

    /// The role that prisoners carry is set.
    pub open spec fn set_prison_role(self, role: SnowflakeId) -> StateView {
        StateView { prison_role: Some(role), ..self }
    }

    /// The room is appended to the rooms.
    pub open spec fn add_court_room(self, room: CourtRoom) -> StateView {
        StateView { court_rooms: self.court_rooms.push(room), ..self }
    }

    /// The lawsuit is appended to the lawsuits.
    pub open spec fn add_lawsuit(self, lawsuit: LawsuitView) -> StateView {
        StateView { lawsuits: self.lawsuits.push(lawsuit), ..self }
    }

    /// The flag of the first room with the channel is set; without such a room nothing changes.
    pub open spec fn set_court_room(self, channel_id: SnowflakeId, ongoing: bool) -> StateView {
        let i = room_index_from(self.court_rooms, channel_id, 0);
        if i < self.court_rooms.len() {
            StateView {
                court_rooms: self.court_rooms.update(
                    i,
                    CourtRoom { ongoing_lawsuit: ongoing, ..self.court_rooms[i] },
                ),
                ..self
            }
        } else {
            self
        }
    }

    /// The verdict of the first lawsuit with the identifier is set; without such a lawsuit
    /// nothing changes.
    pub open spec fn set_lawsuit(self, id: LawsuitId, verdict: Option<Seq<char>>) -> StateView {
        let i = lawsuit_index_from(self.lawsuits, id, 0);
        if i < self.lawsuits.len() {
            StateView {
                lawsuits: self.lawsuits.update(i, LawsuitView { verdict, ..self.lawsuits[i] }),
                ..self
            }
        } else {
            self
        }
    }

    /// How many positions hold an open lawsuit that is bound to the channel: none, one
    /// (`at`), or more.
    pub open spec fn open_lawsuits_in(self, channel_id: SnowflakeId, at: int) -> bool {
        &&& 0 <= at < self.lawsuits.len()
        &&& self.lawsuits[at].is_open()
        &&& self.lawsuits[at].court_room == channel_id
        &&& forall|j: int|
            0 <= j < self.lawsuits.len() && (#[trigger] self.lawsuits[j]).is_open()
                && self.lawsuits[j].court_room == channel_id ==> j == at
    }

    /// Exactly one open lawsuit is bound to the channel.
    pub open spec fn one_open_lawsuit_in(self, channel_id: SnowflakeId) -> bool {
        exists|at: int| self.open_lawsuits_in(channel_id, at)
    }

    /// No open lawsuit is bound to the channel.
    pub open spec fn no_open_lawsuit_in(self, channel_id: SnowflakeId) -> bool {
        forall|j: int|
            0 <= j < self.lawsuits.len() && (#[trigger] self.lawsuits[j]).is_open()
                ==> self.lawsuits[j].court_room != channel_id
    }

    /// The room at `at` is the only one that has the channel and is flagged as ongoing.
    pub open spec fn ongoing_room_at(self, channel_id: SnowflakeId, at: int) -> bool {
        &&& 0 <= at < self.court_rooms.len()
        &&& self.court_rooms[at].ongoing_lawsuit
        &&& self.court_rooms[at].channel_id == channel_id
        &&& forall|j: int|
            0 <= j < self.court_rooms.len() && (#[trigger] self.court_rooms[j]).ongoing_lawsuit
                && self.court_rooms[j].channel_id == channel_id ==> j == at
    }

    /// Exactly one room has the channel and is flagged as ongoing.
    pub open spec fn one_ongoing_room(self, channel_id: SnowflakeId) -> bool {
        exists|at: int| self.ongoing_room_at(channel_id, at)
    }

    /// One of the rooms has the channel.
    pub open spec fn has_room(self, channel_id: SnowflakeId) -> bool {
        exists|i: int|
            0 <= i < self.court_rooms.len() && (#[trigger] self.court_rooms[i]).channel_id
                == channel_id
    }

    /// One of the lawsuits has the identifier.
    pub open spec fn has_lawsuit(self, id: LawsuitId) -> bool {
        exists|i: int| 0 <= i < self.lawsuits.len() && (#[trigger] self.lawsuits[i]).id == id
    }

    /// Rooms and lawsuits fit together: no two rooms share a channel, every open lawsuit is
    /// bound to one of the rooms, and a room is flagged as ongoing if exactly one open lawsuit
    /// is bound to it and idle if none is.
    pub open spec fn consistent(self) -> bool {
        &&& forall|i: int, j: int|
            0 <= i < j < self.court_rooms.len() ==> (#[trigger] self.court_rooms[i]).channel_id
                != (#[trigger] self.court_rooms[j]).channel_id
        &&& forall|i: int|
            0 <= i < self.lawsuits.len() && (#[trigger] self.lawsuits[i]).is_open()
                ==> self.has_room(self.lawsuits[i].court_room)
        &&& forall|i: int|
            0 <= i < self.court_rooms.len() ==> if (#[trigger] self.court_rooms[i]).ongoing_lawsuit {
                self.one_open_lawsuit_in(self.court_rooms[i].channel_id)
            } else {
                self.no_open_lawsuit_in(self.court_rooms[i].channel_id)
            }
    }

    /// No two lawsuits share an identifier.
    pub open spec fn distinct_lawsuits(self) -> bool {
        forall|i: int, j: int|
            0 <= i < j < self.lawsuits.len() ==> (#[trigger] self.lawsuits[i]).id
                != (#[trigger] self.lawsuits[j]).id
    }

    /// What holds of a guild's record between two operations: rooms and lawsuits fit
    /// together, and no two lawsuits share an identifier.
    pub open spec fn wf(self) -> bool {
        self.consistent() && self.distinct_lawsuits()
    }
}

/// `idle_room_from` gives the first idle room: the rooms before it are busy, and it is idle
/// itself unless it is the length.
pub proof fn lemma_idle_room_from(rooms: Seq<CourtRoom>, from: int)
    requires
        0 <= from <= rooms.len(),
    ensures
        from <= idle_room_from(rooms, from) <= rooms.len(),
        idle_room_from(rooms, from) < rooms.len() ==> !rooms[idle_room_from(
            rooms,
            from,
        )].ongoing_lawsuit,
        forall|j: int| from <= j < idle_room_from(rooms, from) ==> rooms[j].ongoing_lawsuit,
    decreases rooms.len() - from,
{
    if from < rooms.len() && rooms[from].ongoing_lawsuit {
        lemma_idle_room_from(rooms, from + 1);
    }
}

/// `room_index_from` gives the first room with the channel.
pub proof fn lemma_room_index_from(rooms: Seq<CourtRoom>, channel_id: SnowflakeId, from: int)
    requires
        0 <= from <= rooms.len(),
    ensures
        from <= room_index_from(rooms, channel_id, from) <= rooms.len(),
        room_index_from(rooms, channel_id, from) < rooms.len() ==> rooms[room_index_from(
            rooms,
            channel_id,
            from,
        )].channel_id == channel_id,
        forall|j: int|
            from <= j < room_index_from(rooms, channel_id, from) ==> rooms[j].channel_id
                != channel_id,
    decreases rooms.len() - from,
{
    if from < rooms.len() && rooms[from].channel_id != channel_id {
        lemma_room_index_from(rooms, channel_id, from + 1);
    }
}

/// `lawsuit_index_from` gives the first lawsuit with the identifier.
pub proof fn lemma_lawsuit_index_from(lawsuits: Seq<LawsuitView>, id: LawsuitId, from: int)
    requires
        0 <= from <= lawsuits.len(),
    ensures
        from <= lawsuit_index_from(lawsuits, id, from) <= lawsuits.len(),
        lawsuit_index_from(lawsuits, id, from) < lawsuits.len() ==> lawsuits[lawsuit_index_from(
            lawsuits,
            id,
            from,
        )].id == id,
        forall|j: int| from <= j < lawsuit_index_from(lawsuits, id, from) ==> lawsuits[j].id != id,
    decreases lawsuits.len() - from,
{
    if from < lawsuits.len() && lawsuits[from].id != id {
        lemma_lawsuit_index_from(lawsuits, id, from + 1);
    }
}

/// `open_lawsuit_from` gives the first open lawsuit that is bound to the channel.
pub proof fn lemma_open_lawsuit_from(
    lawsuits: Seq<LawsuitView>,
    channel_id: SnowflakeId,
    from: int,
)
    requires
        0 <= from <= lawsuits.len(),
    ensures
        from <= open_lawsuit_from(lawsuits, channel_id, from) <= lawsuits.len(),
        open_lawsuit_from(lawsuits, channel_id, from) < lawsuits.len() ==> {
            let l = lawsuits[open_lawsuit_from(lawsuits, channel_id, from)];
            l.court_room == channel_id && l.is_open()
        },
        forall|j: int|
            from <= j < open_lawsuit_from(lawsuits, channel_id, from) ==> !(lawsuits[j].court_room
                == channel_id && lawsuits[j].is_open()),
    decreases lawsuits.len() - from,
{
    if from < lawsuits.len() && !(lawsuits[from].court_room == channel_id
        && lawsuits[from].is_open()) {
        lemma_open_lawsuit_from(lawsuits, channel_id, from + 1);
    }
}

impl State {
    /// The record of a guild of which nothing is known yet.
    pub fn new(guild_id: SnowflakeId) -> (state: State)
        ensures
            state@ == StateView::empty(guild_id),
    {
        let state = State {
            guild_id,
            lawsuits: Vec::new(),
            court_category: None,
            court_rooms: Vec::new(),
            prison_role: None,
        };
        assert(state@.lawsuits =~= Seq::empty());
        state
    }

    /// The first room in which no lawsuit is going on.
    pub fn free_room(&self) -> (room: Option<CourtRoom>)
        ensures
            room == self@.free_room(),
    {
        let mut i: usize = 0;
        while i < self.court_rooms.len()
            invariant
                0 <= i <= self.court_rooms.len(),
                idle_room_from(self.court_rooms@, 0) == idle_room_from(self.court_rooms@, i as int),
            decreases self.court_rooms.len() - i,
        {
            if !self.court_rooms[i].ongoing_lawsuit {
                return Some(self.court_rooms[i]);
            }
            i += 1;
        }
        None
    }

    /// The first room with the channel.
    pub fn find_room(&self, channel_id: SnowflakeId) -> (room: Option<CourtRoom>)
        ensures
            room == self@.find_room(channel_id),
    {
        let mut i: usize = 0;
        while i < self.court_rooms.len()
            invariant
                0 <= i <= self.court_rooms.len(),
                room_index_from(self.court_rooms@, channel_id, 0) == room_index_from(
                    self.court_rooms@,
                    channel_id,
                    i as int,
                ),
            decreases self.court_rooms.len() - i,
        {
            if self.court_rooms[i].channel_id == channel_id {
                return Some(self.court_rooms[i]);
            }
            i += 1;
        }
        None
    }

    /// The first open lawsuit that is bound to the channel.
    pub fn find_open_lawsuit(&self, channel_id: SnowflakeId) -> (lawsuit: Option<Lawsuit>)
        ensures
            lawsuit is Some == self@.find_open_lawsuit(channel_id) is Some,
            lawsuit is Some ==> lawsuit->0@ == self@.find_open_lawsuit(channel_id)->0,
    {
        let mut i: usize = 0;
        while i < self.lawsuits.len()
            invariant
                0 <= i <= self.lawsuits.len(),
                open_lawsuit_from(self@.lawsuits, channel_id, 0) == open_lawsuit_from(
                    self@.lawsuits,
                    channel_id,
                    i as int,
                ),
            decreases self.lawsuits.len() - i,
        {
            if self.lawsuits[i].court_room == channel_id && self.lawsuits[i].verdict.is_none() {
                return Some(self.lawsuits[i].clone());
            }
            i += 1;
        }
        None
    }

    /// Sets the category in which new rooms are made.
    pub fn set_court_category(&mut self, category: SnowflakeId)
        ensures
            final(self)@ == old(self)@.set_court_category(category),
    {
        self.court_category = Some(category);
    }

    /// Sets the role that prisoners carry.
    pub fn set_prison_role(&mut self, role: SnowflakeId)
        ensures
            final(self)@ == old(self)@.set_prison_role(role),
    {
        self.prison_role = Some(role);
    }

    /// Appends the room.
    pub fn add_court_room(&mut self, room: CourtRoom)
        ensures
            final(self)@ == old(self)@.add_court_room(room),
    {
        self.court_rooms.push(room);
    }

    /// Appends the lawsuit.
    pub fn add_lawsuit(&mut self, lawsuit: Lawsuit)
        ensures
            final(self)@ == old(self)@.add_lawsuit(lawsuit@),
    {
        self.lawsuits.push(lawsuit);
        assert(self@.lawsuits =~= old(self)@.lawsuits.push(lawsuit@));
    }

    /// Sets the flag of the first room with the channel.
    pub fn set_court_room(&mut self, channel_id: SnowflakeId, ongoing: bool)
        ensures
            final(self)@ == old(self)@.set_court_room(channel_id, ongoing),
    {
        let mut i: usize = 0;
        while i < self.court_rooms.len()
            invariant
                0 <= i <= self.court_rooms.len(),
                *self == *old(self),
                room_index_from(self.court_rooms@, channel_id, 0) == room_index_from(
                    self.court_rooms@,
                    channel_id,
                    i as int,
                ),
            decreases self.court_rooms.len() - i,
        {
            if self.court_rooms[i].channel_id == channel_id {
                let room = CourtRoom {
                    channel_id: self.court_rooms[i].channel_id,
                    ongoing_lawsuit: ongoing,
                    role_id: self.court_rooms[i].role_id,
                };
                self.court_rooms.set(i, room);
                return ;
            }
            i += 1;
        }
    }

    /// Sets the verdict of the first lawsuit with the identifier.
    pub fn set_lawsuit(&mut self, id: LawsuitId, verdict: Option<String>)
        ensures
            final(self)@ == old(self)@.set_lawsuit(id, text_of(verdict)),
    {
        let mut i: usize = 0;
        while i < self.lawsuits.len()
            invariant
                0 <= i <= self.lawsuits.len(),
                *self == *old(self),
                lawsuit_index_from(self@.lawsuits, id, 0) == lawsuit_index_from(
                    self@.lawsuits,
                    id,
                    i as int,
                ),
            decreases self.lawsuits.len() - i,
        {
            if self.lawsuits[i].id == id {
                let mut lawsuit = self.lawsuits[i].clone();
                lawsuit.verdict = verdict;
                self.lawsuits.set(i, lawsuit);
                assert(self@.lawsuits =~= old(self)@.lawsuits.update(
                    i as int,
                    LawsuitView { verdict: text_of(verdict), ..old(self)@.lawsuits[i as int] },
                ));
                return ;
            }
            i += 1;
        }
    }
}

impl Clone for State {
    fn clone(&self) -> (r: Self)
        ensures
            r@ == self@,
    {
        let mut lawsuits: Vec<Lawsuit> = Vec::new();
        let mut i: usize = 0;
        while i < self.lawsuits.len()
            invariant
                0 <= i <= self.lawsuits.len(),
                lawsuits.len() == i,
                forall|k: int| 0 <= k < i ==> lawsuits[k]@ == self.lawsuits[k]@,
            decreases self.lawsuits.len() - i,
        {
            lawsuits.push(self.lawsuits[i].clone());
            i += 1;
        }
        assert(lawsuit_views(lawsuits@) =~= lawsuit_views(self.lawsuits@));
        State {
            guild_id: self.guild_id,
            lawsuits,
            court_category: self.court_category,
            court_rooms: self.court_rooms.clone(),
            prison_role: self.prison_role,
        }
    }
}

} // verus!
