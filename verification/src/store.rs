use crate::model::{
    text_of, CourtRoom, Lawsuit, LawsuitId, LawsuitView, PrisonEntry, SnowflakeId, State,
    StateView,
};
use crate::protocol::{Reply, ReplyView, Request, RequestView};
use std::collections::HashMap;
use vstd::prelude::*;

verus! {

broadcast use vstd::std_specs::hash::group_hash_axioms;

/// What the store holds, as a mathematical value: the record of each guild that has one, and
/// the set of prison entries.
pub struct MongoView {
    pub states: Map<SnowflakeId, StateView>,
    pub prison: Set<PrisonEntry>,
}

impl MongoView {
    /// Every record is filed under the guild that it names.
    pub open spec fn wf(self) -> bool {
        forall|guild_id: SnowflakeId| #[trigger]
            self.states.contains_key(guild_id) ==> self.states[guild_id].guild_id == guild_id
    }

    /// The guild's record; an empty one where none is held.
    pub open spec fn state(self, guild_id: SnowflakeId) -> StateView {
        if self.states.contains_key(guild_id) {
            self.states[guild_id]
        } else {
            StateView::empty(guild_id)
        }
    }

    /// The store with this record for the guild.
    pub open spec fn with_state(self, guild_id: SnowflakeId, state: StateView) -> MongoView {
        MongoView { states: self.states.insert(guild_id, state), ..self }
    }

    /// The store once the guild has a record.
    pub open spec fn find_or_insert_state(self, guild_id: SnowflakeId) -> MongoView {
        self.with_state(guild_id, self.state(guild_id))
    }

    /// The store once the guild's category for new rooms is set.
    pub open spec fn set_court_category(
        self,
        guild_id: SnowflakeId,
        category: SnowflakeId,
    ) -> MongoView {
        self.with_state(guild_id, self.state(guild_id).set_court_category(category))
    }

    /// The store once the guild's role for prisoners is set.
    pub open spec fn set_prison_role(self, guild_id: SnowflakeId, role: SnowflakeId) -> MongoView {
        self.with_state(guild_id, self.state(guild_id).set_prison_role(role))
    }

    /// The store once the room is appended to the guild's rooms.
    pub open spec fn add_court_room(self, guild_id: SnowflakeId, room: CourtRoom) -> MongoView {
        self.with_state(guild_id, self.state(guild_id).add_court_room(room))
    }

    /// The store once the lawsuit is appended to the guild's lawsuits.
    pub open spec fn add_lawsuit(self, guild_id: SnowflakeId, lawsuit: LawsuitView) -> MongoView {
        self.with_state(guild_id, self.state(guild_id).add_lawsuit(lawsuit))
    }

    /// The store once the flag of the guild's first room with the channel is set.
    pub open spec fn set_court_room(
        self,
        guild_id: SnowflakeId,
        channel_id: SnowflakeId,
        ongoing: bool,
    ) -> MongoView {
        self.with_state(guild_id, self.state(guild_id).set_court_room(channel_id, ongoing))
    }

    /// The store once the verdict of the guild's first lawsuit with the identifier is set.
    pub open spec fn set_lawsuit(
        self,
        guild_id: SnowflakeId,
        lawsuit_id: LawsuitId,
        verdict: Option<Seq<char>>,
    ) -> MongoView {
        self.with_state(guild_id, self.state(guild_id).set_lawsuit(lawsuit_id, verdict))
    }

    /// The store without the guild's record. Its prison entries stay.
    pub open spec fn delete_guild(self, guild_id: SnowflakeId) -> MongoView {
        MongoView { states: self.states.remove(guild_id), ..self }
    }

    /// The store once the member is imprisoned in the guild.
    pub open spec fn add_to_prison(self, guild_id: SnowflakeId, user_id: SnowflakeId) -> MongoView {
        MongoView { prison: self.prison.insert(PrisonEntry { guild_id, user_id }), ..self }
    }

    /// The store once the member is no longer imprisoned in the guild.
    pub open spec fn remove_from_prison(
        self,
        guild_id: SnowflakeId,
        user_id: SnowflakeId,
    ) -> MongoView {
        MongoView { prison: self.prison.remove(PrisonEntry { guild_id, user_id }), ..self }
    }

    /// The member's prison entry in the guild, if there is one.
    pub open spec fn find_prison_entry(
        self,
        guild_id: SnowflakeId,
        user_id: SnowflakeId,
    ) -> Option<PrisonEntry> {
        if self.prison.contains(PrisonEntry { guild_id, user_id }) {
            Some(PrisonEntry { guild_id, user_id })
        } else {
            None
        }
    }

    /// What the store becomes by a request of a workflow in the guild, and what comes back.
    /// A request to the platform leaves the store as it is, and nothing comes back from here.
    pub open spec fn serve(self, guild_id: SnowflakeId, request: RequestView) -> (
        MongoView,
        Option<ReplyView>,
    ) {
        match request {
            RequestView::FindOrInsertState => (
                self.find_or_insert_state(guild_id),
                Some(ReplyView::State(self.state(guild_id))),
            ),
            RequestView::SetCourtCategory(category) => (
                self.set_court_category(guild_id, category),
                Some(ReplyView::Done),
            ),
            RequestView::SetPrisonRole(role) => (
                self.set_prison_role(guild_id, role),
                Some(ReplyView::Done),
            ),
            RequestView::AddCourtRoom(room) => (
                self.add_court_room(guild_id, room),
                Some(ReplyView::Done),
            ),
            RequestView::AddLawsuit(lawsuit) => (
                self.add_lawsuit(guild_id, lawsuit),
                Some(ReplyView::Done),
            ),
            RequestView::SetCourtRoom { channel_id, ongoing_lawsuit } => (
                self.set_court_room(guild_id, channel_id, ongoing_lawsuit),
                Some(ReplyView::Done),
            ),
            RequestView::SetLawsuit { lawsuit_id, verdict } => (
                self.set_lawsuit(guild_id, lawsuit_id, verdict),
                Some(ReplyView::Done),
            ),
            RequestView::DeleteGuild => (self.delete_guild(guild_id), Some(ReplyView::Done)),
            RequestView::AddToPrison(user_id) => (
                self.add_to_prison(guild_id, user_id),
                Some(ReplyView::Done),
            ),
            RequestView::RemoveFromPrison(user_id) => (
                self.remove_from_prison(guild_id, user_id),
                Some(ReplyView::Done),
            ),
            RequestView::FindPrisonEntry(user_id) => (
                self,
                Some(ReplyView::PrisonEntry(self.find_prison_entry(guild_id, user_id))),
            ),
            _ => (self, None),
        }
    }
}

/// The store of guild records and prison entries, held in memory. It says what each request
/// to the store means; a database that carries out the same requests holds the same values.
pub struct Mongo {
    states: HashMap<u64, State>,
    prison: Vec<PrisonEntry>,
}

impl View for Mongo {
    type V = MongoView;

    closed spec fn view(&self) -> MongoView {
        MongoView {
            states: Map::new(
                |guild_id: SnowflakeId| self.states@.contains_key(guild_id.0),
                |guild_id: SnowflakeId| self.states@[guild_id.0]@,
            ),
            prison: Set::new(|entry: PrisonEntry| self.prison@.contains(entry)),
        }
    }
}

impl Mongo {
    /// A store that holds nothing.
    pub fn new() -> (mongo: Mongo)
        ensures
            mongo@.states == Map::<SnowflakeId, StateView>::empty(),
            mongo@.prison == Set::<PrisonEntry>::empty(),
            mongo@.wf(),
    {
        let mongo = Mongo { states: HashMap::new(), prison: Vec::new() };
        assert(mongo@.states =~= Map::<SnowflakeId, StateView>::empty());
        assert(mongo@.prison =~= Set::<PrisonEntry>::empty());
        mongo
    }

    /// Files the record under the guild.
    fn put_state(&mut self, guild_id: SnowflakeId, state: State)
        ensures
            final(self)@ == old(self)@.with_state(guild_id, state@),
    {
        self.states.insert(guild_id.0, state);
        assert(self@.states =~= old(self)@.states.insert(guild_id, state@)) by {
            assert forall|g: SnowflakeId| #[trigger]
                self@.states.contains_key(g) == old(self)@.states.insert(
                    guild_id,
                    state@,
                ).contains_key(g) by {
                assert(g == guild_id <==> g.0 == guild_id.0);
            }
            assert forall|g: SnowflakeId| #[trigger] self@.states.contains_key(g) implies self@.states[g]
                == old(self)@.states.insert(guild_id, state@)[g] by {
                assert(g == guild_id <==> g.0 == guild_id.0);
            }
        }
        assert(self@.prison =~= old(self)@.prison);
    }

    /// A copy of the guild's record; an empty record where none is held.
    fn state(&self, guild_id: SnowflakeId) -> (state: State)
        ensures
            state@ == self@.state(guild_id),
    {
        match self.states.get(&guild_id.0) {
            Some(state) => state.clone(),
            None => State::new(guild_id),
        }
    }

    /// The guild's record. Where the store holds none yet, an empty one is filed first.
    pub fn find_or_insert_state(&mut self, guild_id: SnowflakeId) -> (state: State)
        ensures
            state@ == old(self)@.state(guild_id),
            final(self)@ == old(self)@.find_or_insert_state(guild_id),
    {
        let state = self.state(guild_id);
        self.put_state(guild_id, state.clone());
        state
    }

    /// Files an empty record for a guild that has none, and returns an empty record. A guild
    /// that has a record keeps it.
    pub fn new_state(&mut self, guild_id: SnowflakeId) -> (state: State)
        ensures
            state@ == StateView::empty(guild_id),
            final(self)@ == old(self)@.find_or_insert_state(guild_id),
    {
        let _ = self.find_or_insert_state(guild_id);
        State::new(guild_id)
    }

    /// Sets the category in which the guild's court rooms are made.
    pub fn set_court_category(&mut self, guild_id: SnowflakeId, category: SnowflakeId)
        ensures
            final(self)@ == old(self)@.set_court_category(guild_id, category),
    {
        let mut state = self.state(guild_id);
        state.set_court_category(category);
        self.put_state(guild_id, state);
    }

    /// Sets the role that the guild's prisoners carry.
    pub fn set_prison_role(&mut self, guild_id: SnowflakeId, prison_role: SnowflakeId)
        ensures
            final(self)@ == old(self)@.set_prison_role(guild_id, prison_role),
    {
        let mut state = self.state(guild_id);
        state.set_prison_role(prison_role);
        self.put_state(guild_id, state);
    }

    /// Appends the room to the guild's court rooms.
    pub fn add_court_room(&mut self, guild_id: SnowflakeId, room: &CourtRoom)
        ensures
            final(self)@ == old(self)@.add_court_room(guild_id, *room),
    {
        let mut state = self.state(guild_id);
        state.add_court_room(*room);
        self.put_state(guild_id, state);
    }

    /// Appends the lawsuit to the guild's lawsuits.
    pub fn add_lawsuit(&mut self, guild_id: SnowflakeId, lawsuit: &Lawsuit)
        ensures
            final(self)@ == old(self)@.add_lawsuit(guild_id, lawsuit@),
    {
        let mut state = self.state(guild_id);
        state.add_lawsuit(lawsuit.clone());
        self.put_state(guild_id, state);
    }

    /// Sets the flag of the guild's first court room with the channel.
    pub fn set_court_room(&mut self, guild_id: SnowflakeId, channel_id: SnowflakeId, ongoing: bool)
        ensures
            final(self)@ == old(self)@.set_court_room(guild_id, channel_id, ongoing),
    {
        let mut state = self.state(guild_id);
        state.set_court_room(channel_id, ongoing);
        self.put_state(guild_id, state);
    }

    /// Sets the verdict of the guild's first lawsuit with the identifier.
    pub fn set_lawsuit(
        &mut self,
        guild_id: SnowflakeId,
        lawsuit_id: LawsuitId,
        verdict: Option<String>,
    )
        ensures
            final(self)@ == old(self)@.set_lawsuit(guild_id, lawsuit_id, text_of(verdict)),
    {
        let mut state = self.state(guild_id);
        state.set_lawsuit(lawsuit_id, verdict);
        self.put_state(guild_id, state);
    }

    /// Erases the guild's record.
    pub fn delete_guild(&mut self, guild_id: SnowflakeId)
        ensures
            final(self)@ == old(self)@.delete_guild(guild_id),
    {
        self.states.remove(&guild_id.0);
        assert(self@.states =~= old(self)@.states.remove(guild_id)) by {
            assert forall|g: SnowflakeId| #[trigger]
                self@.states.contains_key(g) == old(self)@.states.remove(guild_id).contains_key(
                    g,
                ) by {
                assert(g == guild_id <==> g.0 == guild_id.0);
            }
        }
        assert(self@.prison =~= old(self)@.prison);
    }

    /// Whether the entry is held.
    fn holds(&self, entry: PrisonEntry) -> (held: bool)
        ensures
            held == self@.prison.contains(entry),
    {
        let mut i: usize = 0;
        while i < self.prison.len()
            invariant
                0 <= i <= self.prison.len(),
                forall|j: int| 0 <= j < i ==> self.prison[j] != entry,
            decreases self.prison.len() - i,
        {
            if self.prison[i] == entry {
                return true;
            }
            i += 1;
        }
        false
    }

    /// Records that the member is imprisoned in the guild. Of a member who is already
    /// imprisoned there nothing changes.
    pub fn add_to_prison(&mut self, guild_id: SnowflakeId, user_id: SnowflakeId)
        ensures
            final(self)@ == old(self)@.add_to_prison(guild_id, user_id),
    {
        let entry = PrisonEntry { guild_id, user_id };
        if !self.holds(entry) {
            self.prison.push(entry);
            assert forall|e: PrisonEntry|
                self.prison@.contains(e) == (old(self).prison@.contains(e) || e == entry) by {
                if old(self).prison@.contains(e) {
                    let j = choose|j: int|
                        0 <= j < old(self).prison@.len() && old(self).prison@[j] == e;
                    assert(self.prison@[j] == e);
                }
                if e == entry {
                    assert(self.prison@[self.prison@.len() - 1] == e);
                }
            }
        }
        assert(self@.prison =~= old(self)@.prison.insert(entry));
        assert(self@.states =~= old(self)@.states);
    }

    /// Records that the member is no longer imprisoned in the guild. Of a member who is not
    /// imprisoned there nothing changes.
    pub fn remove_from_prison(&mut self, guild_id: SnowflakeId, user_id: SnowflakeId)
        ensures
            final(self)@ == old(self)@.remove_from_prison(guild_id, user_id),
    {
        let entry = PrisonEntry { guild_id, user_id };
        let mut kept: Vec<PrisonEntry> = Vec::new();
        let mut i: usize = 0;
        while i < self.prison.len()
            invariant
                0 <= i <= self.prison.len(),
                *self == *old(self),
                forall|e: PrisonEntry|
                    kept@.contains(e) <==> e != entry && exists|j: int|
                        0 <= j < i && self.prison[j] == e,
            decreases self.prison.len() - i,
        {
            let ghost before = kept@;
            if self.prison[i] != entry {
                kept.push(self.prison[i]);
            }
            assert forall|e: PrisonEntry|
                kept@.contains(e) <==> e != entry && exists|j: int|
                    0 <= j < i + 1 && self.prison[j] == e by {
                if kept@.contains(e) {
                    let k = choose|k: int| 0 <= k < kept@.len() && kept@[k] == e;
                    if k < before.len() {
                        assert(before.contains(e));
                    } else {
                        assert(self.prison[i as int] == e);
                    }
                }
                if e != entry && exists|j: int| 0 <= j < i + 1 && self.prison[j] == e {
                    let j = choose|j: int| 0 <= j < i + 1 && self.prison[j] == e;
                    if j < i {
                        assert(before.contains(e));
                        let k = choose|k: int| 0 <= k < before.len() && before[k] == e;
                        assert(kept@[k] == e);
                    } else {
                        assert(kept@[kept@.len() - 1] == e);
                    }
                }
            }
            i += 1;
        }
        self.prison = kept;
        assert(self@.prison =~= old(self)@.prison.remove(entry));
        assert(self@.states =~= old(self)@.states);
    }

    /// The member's prison entry in the guild, if there is one.
    pub fn find_prison_entry(&self, guild_id: SnowflakeId, user_id: SnowflakeId) -> (entry: Option<
        PrisonEntry,
    >)
        ensures
            entry == self@.find_prison_entry(guild_id, user_id),
    {
        let entry = PrisonEntry { guild_id, user_id };
        if self.holds(entry) {
            Some(entry)
        } else {
            None
        }
    }

    /// Carries out a request of a workflow in the guild, if it is one to the store, and gives
    /// what comes back from it. A request to the platform is left alone.
    pub fn serve(&mut self, guild_id: SnowflakeId, request: &Request) -> (reply: Option<Reply>)
        ensures
            final(self)@ == old(self)@.serve(guild_id, request@).0,
            match reply {
                Some(reply) => old(self)@.serve(guild_id, request@).1 == Some(reply@),
                None => old(self)@.serve(guild_id, request@).1 is None,
            },
    {
        match request {
            Request::FindOrInsertState => Some(Reply::State(self.find_or_insert_state(guild_id))),
            Request::SetCourtCategory(category) => {
                self.set_court_category(guild_id, *category);
                Some(Reply::Done)
            },
            Request::SetPrisonRole(role) => {
                self.set_prison_role(guild_id, *role);
                Some(Reply::Done)
            },
            Request::AddCourtRoom(room) => {
                self.add_court_room(guild_id, room);
                Some(Reply::Done)
            },
            Request::AddLawsuit(lawsuit) => {
                self.add_lawsuit(guild_id, lawsuit);
                Some(Reply::Done)
            },
            Request::SetCourtRoom { channel_id, ongoing_lawsuit } => {
                self.set_court_room(guild_id, *channel_id, *ongoing_lawsuit);
                Some(Reply::Done)
            },
            Request::SetLawsuit { lawsuit_id, verdict } => {
                self.set_lawsuit(guild_id, *lawsuit_id, crate::model::clone_text(verdict));
                Some(Reply::Done)
            },
            Request::DeleteGuild => {
                self.delete_guild(guild_id);
                Some(Reply::Done)
            },
            Request::AddToPrison(user_id) => {
                self.add_to_prison(guild_id, *user_id);
                Some(Reply::Done)
            },
            Request::RemoveFromPrison(user_id) => {
                self.remove_from_prison(guild_id, *user_id);
                Some(Reply::Done)
            },
            Request::FindPrisonEntry(user_id) => Some(
                Reply::PrisonEntry(self.find_prison_entry(guild_id, *user_id)),
            ),
            _ => None,
        }
    }
}

} // verus!
