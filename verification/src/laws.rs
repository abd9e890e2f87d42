use crate::handler::{DispatchView, InteractionView, ResponseView, Task};
use crate::lawsuit::{closing_requests, LawsuitCtxView, Phase};
use crate::model::{
    idle_room_from, lawsuit_index_from, lemma_idle_room_from, lemma_lawsuit_index_from,
    lemma_room_index_from, room_index_from, CourtRoom, LawsuitView, PrisonEntry,
    SnowflakeId, StateView,
};
use crate::protocol::{ReplyView, RequestView, StepView};
use crate::store::MongoView;
use vstd::prelude::*;

verus! {

impl StateView {
    /// The record once the store has carried out the request. A request to the platform, and
    /// one that only asks, leave it as it is.
    pub open spec fn apply(self, request: RequestView) -> StateView {
        match request {
            RequestView::SetCourtCategory(category) => self.set_court_category(category),
            RequestView::SetPrisonRole(role) => self.set_prison_role(role),
            RequestView::AddCourtRoom(room) => self.add_court_room(room),
            RequestView::AddLawsuit(lawsuit) => self.add_lawsuit(lawsuit),
            RequestView::SetCourtRoom { channel_id, ongoing_lawsuit } => self.set_court_room(
                channel_id,
                ongoing_lawsuit,
            ),
            RequestView::SetLawsuit { lawsuit_id, verdict } => self.set_lawsuit(
                lawsuit_id,
                verdict,
            ),
            RequestView::DeleteGuild => StateView::empty(self.guild_id),
            _ => self,
        }
    }

    /// The record once the store has carried out the requests, the first one first.
    pub open spec fn apply_all(self, requests: Seq<RequestView>) -> StateView
        decreases requests.len(),
    {
        if requests.len() == 0 {
            self
        } else {
            self.apply(requests[0]).apply_all(requests.drop_first())
        }
    }

    /// The record once the step has been carried out.
    pub open spec fn after(self, step: StepView) -> StateView {
        match step {
            StepView::Call(request) => self.apply(request),
            StepView::CallAll(requests) => self.apply_all(requests),
            _ => self,
        }
    }

    /// The room is one of the rooms, as it stands here.
    pub open spec fn holds_room(self, room: CourtRoom) -> bool {
        exists|i: int| 0 <= i < self.court_rooms.len() && #[trigger] self.court_rooms[i] == room
    }

    /// The lawsuit is one of the lawsuits, as it stands here.
    pub open spec fn holds_lawsuit(self, lawsuit: LawsuitView) -> bool {
        exists|i: int| 0 <= i < self.lawsuits.len() && #[trigger] self.lawsuits[i] == lawsuit
    }
}

/// Where no two rooms share a channel, the first room with a channel is the only room with
/// that channel.
pub proof fn lemma_room_is_found(state: StateView, at: int)
    requires
        state.consistent(),
        0 <= at < state.court_rooms.len(),
    ensures
        room_index_from(state.court_rooms, state.court_rooms[at].channel_id, 0) == at,
        state.find_room(state.court_rooms[at].channel_id) == Some(state.court_rooms[at]),
{
    lemma_room_index_from(state.court_rooms, state.court_rooms[at].channel_id, 0);
}

/// Where no two lawsuits share an identifier, the first lawsuit with an identifier is the only
/// lawsuit with that identifier.
pub proof fn lemma_lawsuit_is_found(state: StateView, at: int)
    requires
        state.distinct_lawsuits(),
        0 <= at < state.lawsuits.len(),
    ensures
        lawsuit_index_from(state.lawsuits, state.lawsuits[at].id, 0) == at,
{
    lemma_lawsuit_index_from(state.lawsuits, state.lawsuits[at].id, 0);
}

/// A new idle room whose channel is not yet a room's channel keeps rooms and lawsuits fitting
/// together, and is then one of the rooms.
pub proof fn lemma_add_court_room(state: StateView, room: CourtRoom)
    requires
        state.consistent(),
        !state.has_room(room.channel_id),
        !room.ongoing_lawsuit,
    ensures
        state.add_court_room(room).consistent(),
        state.add_court_room(room).holds_room(room),
        state.add_court_room(room).lawsuits == state.lawsuits,
{
    let after = state.add_court_room(room);
    let n = state.court_rooms.len() as int;
    assert(after.court_rooms[n] == room);
    assert forall|i: int, j: int| 0 <= i < j < after.court_rooms.len() implies (
    #[trigger] after.court_rooms[i]).channel_id != (#[trigger] after.court_rooms[j]).channel_id by {
        if j == n {
            assert(state.court_rooms[i].channel_id != room.channel_id);
        } else {
            assert(state.court_rooms[i].channel_id != state.court_rooms[j].channel_id);
        }
    }
    assert forall|i: int| 0 <= i < after.lawsuits.len() && (#[trigger] after.lawsuits[i]).is_open()
        implies after.has_room(after.lawsuits[i].court_room) by {
        assert(state.has_room(state.lawsuits[i].court_room));
        let k = choose|k: int|
            0 <= k < state.court_rooms.len() && (#[trigger] state.court_rooms[k]).channel_id
                == state.lawsuits[i].court_room;
        assert(after.court_rooms[k].channel_id == after.lawsuits[i].court_room);
    }
    assert forall|i: int| 0 <= i < after.court_rooms.len() implies if (
    #[trigger] after.court_rooms[i]).ongoing_lawsuit {
        after.one_open_lawsuit_in(after.court_rooms[i].channel_id)
    } else {
        after.no_open_lawsuit_in(after.court_rooms[i].channel_id)
    } by {
        if i < n {
            let c = state.court_rooms[i].channel_id;
            if state.court_rooms[i].ongoing_lawsuit {
                assert(state.one_open_lawsuit_in(c));
                let at = choose|at: int| state.open_lawsuits_in(c, at);
                assert(after.open_lawsuits_in(c, at));
            } else {
                assert(state.no_open_lawsuit_in(c));
            }
        } else {
            assert forall|j: int|
                0 <= j < after.lawsuits.len() && (#[trigger] after.lawsuits[j]).is_open()
                implies after.lawsuits[j].court_room != room.channel_id by {
                assert(state.has_room(state.lawsuits[j].court_room));
            }
        }
    }
}

/// Opening a lawsuit in an idle room: once the lawsuit is appended and the room flagged,
/// rooms and lawsuits fit together again, the room is the only one with its channel that is
/// flagged as ongoing, and the lawsuit is the only open one that is bound to it. If the
/// lawsuits had distinct identifiers and the identifier is new, they still have.
pub proof fn lemma_open_in_idle_room(state: StateView, room: CourtRoom, lawsuit: LawsuitView)
    requires
        state.consistent(),
        state.holds_room(room),
        !room.ongoing_lawsuit,
        lawsuit.is_open(),
        lawsuit.court_room == room.channel_id,
    ensures
        ({
            let after = state.add_lawsuit(lawsuit).set_court_room(room.channel_id, true);
            &&& after.consistent()
            &&& state.distinct_lawsuits() && !state.has_lawsuit(lawsuit.id)
                ==> after.distinct_lawsuits()
            &&& after.one_ongoing_room(lawsuit.court_room)
            &&& after.one_open_lawsuit_in(lawsuit.court_room)
            &&& after.holds_lawsuit(lawsuit)
            &&& after.holds_room(CourtRoom { ongoing_lawsuit: true, ..room })
        }),
{
    let c = room.channel_id;
    let k = choose|k: int| 0 <= k < state.court_rooms.len() && #[trigger] state.court_rooms[k] == room;
    lemma_room_is_found(state, k);
    let added = state.add_lawsuit(lawsuit);
    let after = added.set_court_room(c, true);
    let n = state.lawsuits.len() as int;
    assert(after.court_rooms == state.court_rooms.update(k, CourtRoom { ongoing_lawsuit: true, ..room }));
    assert(after.lawsuits == state.lawsuits.push(lawsuit));
    assert(after.lawsuits[n] == lawsuit);
    assert(after.court_rooms[k] == CourtRoom { ongoing_lawsuit: true, ..room });
    assert(state.no_open_lawsuit_in(c)) by {
        assert(!state.court_rooms[k].ongoing_lawsuit);
    }
    assert(after.open_lawsuits_in(c, n)) by {
        assert forall|j: int|
            0 <= j < after.lawsuits.len() && (#[trigger] after.lawsuits[j]).is_open()
                && after.lawsuits[j].court_room == c implies j == n by {
            if j < n {
                assert(state.lawsuits[j].is_open());
            }
        }
    }
    assert(after.ongoing_room_at(c, k)) by {
        assert forall|j: int|
            0 <= j < after.court_rooms.len() && (#[trigger] after.court_rooms[j]).ongoing_lawsuit
                && after.court_rooms[j].channel_id == c implies j == k by {
            if j != k {
                assert(state.court_rooms[j].channel_id == c);
                if j < k {
                    assert(state.court_rooms[j].channel_id != state.court_rooms[k].channel_id);
                } else {
                    assert(state.court_rooms[k].channel_id != state.court_rooms[j].channel_id);
                }
            }
        }
    }
    assert forall|i: int, j: int| 0 <= i < j < after.court_rooms.len() implies (
    #[trigger] after.court_rooms[i]).channel_id != (#[trigger] after.court_rooms[j]).channel_id by {
        assert(state.court_rooms[i].channel_id != state.court_rooms[j].channel_id);
    }
    if state.distinct_lawsuits() && !state.has_lawsuit(lawsuit.id) {
        assert forall|i: int, j: int| 0 <= i < j < after.lawsuits.len() implies (
        #[trigger] after.lawsuits[i]).id != (#[trigger] after.lawsuits[j]).id by {
            if j == n {
                assert(state.lawsuits[i].id != lawsuit.id);
            } else {
                assert(state.lawsuits[i].id != state.lawsuits[j].id);
            }
        }
    }
    assert forall|i: int| 0 <= i < after.lawsuits.len() && (#[trigger] after.lawsuits[i]).is_open()
        implies after.has_room(after.lawsuits[i].court_room) by {
        if i == n {
            assert(after.court_rooms[k].channel_id == c);
        } else {
            assert(state.lawsuits[i].is_open());
            assert(state.has_room(state.lawsuits[i].court_room));
            let r = choose|r: int|
                0 <= r < state.court_rooms.len() && (#[trigger] state.court_rooms[r]).channel_id
                    == state.lawsuits[i].court_room;
            assert(after.court_rooms[r].channel_id == after.lawsuits[i].court_room);
        }
    }
    assert forall|i: int| 0 <= i < after.court_rooms.len() implies if (
    #[trigger] after.court_rooms[i]).ongoing_lawsuit {
        after.one_open_lawsuit_in(after.court_rooms[i].channel_id)
    } else {
        after.no_open_lawsuit_in(after.court_rooms[i].channel_id)
    } by {
        if i != k {
            let ci = state.court_rooms[i].channel_id;
            assert(ci != c) by {
                if i < k {
                    assert(state.court_rooms[i].channel_id != state.court_rooms[k].channel_id);
                } else {
                    assert(state.court_rooms[k].channel_id != state.court_rooms[i].channel_id);
                }
            }
            if state.court_rooms[i].ongoing_lawsuit {
                assert(state.one_open_lawsuit_in(ci));
                let at = choose|at: int| state.open_lawsuits_in(ci, at);
                assert(after.open_lawsuits_in(ci, at)) by {
                    assert forall|j: int|
                        0 <= j < after.lawsuits.len() && (#[trigger] after.lawsuits[j]).is_open()
                            && after.lawsuits[j].court_room == ci implies j == at by {
                        if j < n {
                            assert(state.lawsuits[j].is_open());
                        }
                    }
                }
            } else {
                assert(state.no_open_lawsuit_in(ci));
                assert forall|j: int|
                    0 <= j < after.lawsuits.len() && (#[trigger] after.lawsuits[j]).is_open()
                    implies after.lawsuits[j].court_room != ci by {
                    if j < n {
                        assert(state.lawsuits[j].is_open());
                    }
                }
            }
        }
    }
}

/// Closing the open lawsuit of a room: once the room is freed and the verdict recorded, the
/// record is well-formed again, the room is idle, no open lawsuit is bound to it, and the
/// lawsuit carries the verdict.
pub proof fn lemma_close_frees_room(
    state: StateView,
    room: CourtRoom,
    lawsuit: LawsuitView,
    verdict: Seq<char>,
)
    requires
        state.wf(),
        state.holds_room(room),
        state.holds_lawsuit(lawsuit),
        lawsuit.is_open(),
        lawsuit.court_room == room.channel_id,
    ensures
        ({
            let after = state.set_court_room(lawsuit.court_room, false).set_lawsuit(
                lawsuit.id,
                Some(verdict),
            );
            &&& after.wf()
            &&& after.find_room(room.channel_id) == Some(
                CourtRoom { ongoing_lawsuit: false, ..room },
            )
            &&& after.no_open_lawsuit_in(room.channel_id)
            &&& after.holds_lawsuit(LawsuitView { verdict: Some(verdict), ..lawsuit })
            &&& !after.holds_lawsuit(lawsuit)
        }),
{
    let c = room.channel_id;
    let k = choose|k: int| 0 <= k < state.court_rooms.len() && #[trigger] state.court_rooms[k] == room;
    let p = choose|p: int| 0 <= p < state.lawsuits.len() && #[trigger] state.lawsuits[p] == lawsuit;
    lemma_room_is_found(state, k);
    lemma_lawsuit_is_found(state, p);
    let freed = state.set_court_room(c, false);
    let after = freed.set_lawsuit(lawsuit.id, Some(verdict));
    let closed = LawsuitView { verdict: Some(verdict), ..lawsuit };
    assert(after.court_rooms == state.court_rooms.update(k, CourtRoom { ongoing_lawsuit: false, ..room }));
    assert(after.lawsuits == state.lawsuits.update(p, closed));
    assert(after.lawsuits[p] == closed);
    assert(after.court_rooms[k] == CourtRoom { ongoing_lawsuit: false, ..room });
    assert forall|i: int, j: int| 0 <= i < j < after.court_rooms.len() implies (
    #[trigger] after.court_rooms[i]).channel_id != (#[trigger] after.court_rooms[j]).channel_id by {
        assert(state.court_rooms[i].channel_id != state.court_rooms[j].channel_id);
    }
    assert forall|i: int, j: int| 0 <= i < j < after.lawsuits.len() implies (
    #[trigger] after.lawsuits[i]).id != (#[trigger] after.lawsuits[j]).id by {
        assert(state.lawsuits[i].id != state.lawsuits[j].id);
    }
    lemma_room_index_from(after.court_rooms, c, 0);
    assert(room_index_from(after.court_rooms, c, 0) == k) by {
        let f = room_index_from(after.court_rooms, c, 0);
        if f != k {
            assert(f < k);
            assert(after.court_rooms[f].channel_id != after.court_rooms[k].channel_id);
        }
    }
    // Whether the room was flagged or not, no other open lawsuit is bound to it.
    assert forall|j: int|
        0 <= j < state.lawsuits.len() && (#[trigger] state.lawsuits[j]).is_open()
            && state.lawsuits[j].court_room == c implies j == p by {
        if state.court_rooms[k].ongoing_lawsuit {
            assert(state.one_open_lawsuit_in(c));
            let at = choose|at: int| state.open_lawsuits_in(c, at);
            assert(state.lawsuits[p].is_open());
            assert(p == at);
        } else {
            assert(state.no_open_lawsuit_in(c));
            assert(state.lawsuits[p].is_open());
        }
    }
    assert(after.no_open_lawsuit_in(c)) by {
        assert forall|j: int|
            0 <= j < after.lawsuits.len() && (#[trigger] after.lawsuits[j]).is_open()
            implies after.lawsuits[j].court_room != c by {
            if j != p {
                assert(state.lawsuits[j].is_open());
            }
        }
    }
    assert forall|i: int| 0 <= i < after.lawsuits.len() && (#[trigger] after.lawsuits[i]).is_open()
        implies after.has_room(after.lawsuits[i].court_room) by {
        assert(i != p);
        assert(state.lawsuits[i].is_open());
        assert(state.has_room(state.lawsuits[i].court_room));
        let r = choose|r: int|
            0 <= r < state.court_rooms.len() && (#[trigger] state.court_rooms[r]).channel_id
                == state.lawsuits[i].court_room;
        assert(after.court_rooms[r].channel_id == after.lawsuits[i].court_room);
    }
    assert forall|i: int| 0 <= i < after.court_rooms.len() implies if (
    #[trigger] after.court_rooms[i]).ongoing_lawsuit {
        after.one_open_lawsuit_in(after.court_rooms[i].channel_id)
    } else {
        after.no_open_lawsuit_in(after.court_rooms[i].channel_id)
    } by {
        if i != k {
            let ci = state.court_rooms[i].channel_id;
            assert(ci != c) by {
                if i < k {
                    assert(state.court_rooms[i].channel_id != state.court_rooms[k].channel_id);
                } else {
                    assert(state.court_rooms[k].channel_id != state.court_rooms[i].channel_id);
                }
            }
            if state.court_rooms[i].ongoing_lawsuit {
                assert(state.one_open_lawsuit_in(ci));
                let at = choose|at: int| state.open_lawsuits_in(ci, at);
                assert(at != p);
                assert(after.open_lawsuits_in(ci, at)) by {
                    assert forall|j: int|
                        0 <= j < after.lawsuits.len() && (#[trigger] after.lawsuits[j]).is_open()
                            && after.lawsuits[j].court_room == ci implies j == at by {
                        if j != p {
                            assert(state.lawsuits[j].is_open());
                        }
                    }
                }
            } else {
                assert(state.no_open_lawsuit_in(ci));
                assert forall|j: int|
                    0 <= j < after.lawsuits.len() && (#[trigger] after.lawsuits[j]).is_open()
                    implies after.lawsuits[j].court_room != ci by {
                    if j != p {
                        assert(state.lawsuits[j].is_open());
                    }
                }
            }
        }
    }
    assert(!after.holds_lawsuit(lawsuit)) by {
        if after.holds_lawsuit(lawsuit) {
            let q = choose|q: int| 0 <= q < after.lawsuits.len() && #[trigger] after.lawsuits[q] == lawsuit;
            if q != p {
                if q < p {
                    assert(state.lawsuits[q].id != state.lawsuits[p].id);
                } else {
                    assert(state.lawsuits[p].id != state.lawsuits[q].id);
                }
            }
        }
    }
}


/// What the store does to a guild's record by a request is what `apply` says.
pub proof fn lemma_serve_applies(store: MongoView, guild_id: SnowflakeId, request: RequestView)
    requires
        store.wf(),
    ensures
        store.serve(guild_id, request).0.wf(),
        !(request is FindOrInsertState) ==> store.serve(guild_id, request).0.state(guild_id)
            == store.state(guild_id).apply(request),
        request is FindOrInsertState ==> store.serve(guild_id, request).1 == Some(
            ReplyView::State(store.state(guild_id)),
        ) && store.serve(guild_id, request).0.state(guild_id) == store.state(guild_id),
        forall|other: SnowflakeId|
            other != guild_id ==> store.serve(guild_id, request).0.state(other) == store.state(
                other,
            ),
{
}

/// The lawsuit can be filed in the record: rooms and lawsuits of the record fit together, and
/// the lawsuit is open.
pub open spec fn fileable(ctx: LawsuitCtxView, state: StateView) -> bool {
    &&& state.consistent()
    &&& ctx.lawsuit.is_open()
}

/// The lawsuit is open in its room: rooms and lawsuits of the record fit together, the record
/// holds the lawsuit, exactly one room has the channel to which the lawsuit is bound and is
/// flagged as ongoing, and exactly one open lawsuit is bound to that channel.
pub open spec fn opened(ctx: LawsuitCtxView, state: StateView) -> bool {
    &&& state.consistent()
    &&& state.holds_lawsuit(ctx.lawsuit)
    &&& ctx.lawsuit.is_open()
    &&& state.one_ongoing_room(ctx.lawsuit.court_room)
    &&& state.one_open_lawsuit_in(ctx.lawsuit.court_room)
}

/// The lawsuit is closed: the record is well-formed and holds the lawsuit with its verdict,
/// the room to which the lawsuit is bound is idle, and no open lawsuit is bound to it.
pub open spec fn closed(ctx: LawsuitCtxView, state: StateView) -> bool {
    &&& state.wf()
    &&& state.holds_lawsuit(ctx.lawsuit)
    &&& ctx.lawsuit.verdict is Some
    &&& state.find_room(ctx.lawsuit.court_room) is Some
    &&& !state.find_room(ctx.lawsuit.court_room)->0.ongoing_lawsuit
    &&& state.no_open_lawsuit_in(ctx.lawsuit.court_room)
}

/// What holds of a lawsuit and the guild's record while the lawsuit is being opened, phase by
/// phase.
pub open spec fn opening(ctx: LawsuitCtxView, state: StateView) -> bool {
    match ctx.phase {
        Phase::LoadingState
        | Phase::FindingRole { .. }
        | Phase::CreatingRole { .. }
        | Phase::FindingChannel { .. }
        | Phase::CreatingChannel { .. } => fileable(ctx, state),
        Phase::StoringRoom(room) | Phase::Announcing(room) => {
            &&& fileable(ctx, state)
            &&& state.holds_room(room)
            &&& !room.ongoing_lawsuit
        },
        Phase::Acknowledged(room) => {
            &&& fileable(ctx, state)
            &&& state.holds_room(room)
            &&& !room.ongoing_lawsuit
            &&& ctx.lawsuit.court_room == room.channel_id
        },
        Phase::StoringLawsuit(room) => {
            let before = StateView { lawsuits: state.lawsuits.drop_last(), ..state };
            &&& state.lawsuits.len() > 0
            &&& state.lawsuits.last() == ctx.lawsuit
            &&& fileable(ctx, before)
            &&& before.holds_room(room)
            &&& !room.ongoing_lawsuit
            &&& ctx.lawsuit.court_room == room.channel_id
        },
        Phase::MarkingRoom(_) | Phase::Granting { .. } | Phase::Opened(_) => opened(ctx, state),
        _ => true,
    }
}

/// What holds of the identifiers while a lawsuit is being opened: the lawsuits of the record
/// have distinct identifiers; until the lawsuit is handed to the store, its identifier is
/// none of them.
pub open spec fn opening_ids(ctx: LawsuitCtxView, state: StateView) -> bool {
    match ctx.phase {
        Phase::LoadingState
        | Phase::FindingRole { .. }
        | Phase::CreatingRole { .. }
        | Phase::FindingChannel { .. }
        | Phase::CreatingChannel { .. }
        | Phase::StoringRoom(_)
        | Phase::Announcing(_)
        | Phase::Acknowledged(_) => state.distinct_lawsuits() && !state.has_lawsuit(
            ctx.lawsuit.id,
        ),
        Phase::StoringLawsuit(_)
        | Phase::MarkingRoom(_)
        | Phase::Granting { .. }
        | Phase::Opened(_) => state.distinct_lawsuits(),
        _ => true,
    }
}

/// Whether the reply may come back in this phase, with this record in the store: the record
/// that the store hands out is the record, and a channel that is to become a new room is not
/// yet a room's channel.
pub open spec fn admissible(ctx: LawsuitCtxView, state: StateView, reply: ReplyView) -> bool {
    match (ctx.phase, reply) {
        (Phase::LoadingState, ReplyView::State(found)) => found == state,
        (Phase::FindingChannel { .. }, ReplyView::Channel(Some(channel))) => !state.has_room(
            channel.id,
        ),
        (Phase::CreatingChannel { .. }, ReplyView::Created(channel_id)) => !state.has_room(
            channel_id,
        ),
        _ => true,
    }
}

/// Opening a lawsuit begins in a state of which `opening` holds.
pub proof fn lemma_opening_begins(ctx: LawsuitCtxView, state: StateView)
    requires
        fileable(ctx, state),
    ensures
        opening(ctx.initialize().0, state.after(ctx.initialize().1)),
{
}

/// Each step of opening a lawsuit keeps `opening`.
pub proof fn lemma_opening_step(ctx: LawsuitCtxView, state: StateView, reply: ReplyView)
    requires
        opening(ctx, state),
        admissible(ctx, state, reply),
    ensures
        opening(ctx.resume(reply).0, state.after(ctx.resume(reply).1)),
{
    let next = ctx.resume(reply).0;
    let after = state.after(ctx.resume(reply).1);
    match ctx.phase {
        Phase::LoadingState => {
            if reply is State {
                lemma_idle_room_from(state.court_rooms, 0);
                if state.free_room() is Some {
                    let i = idle_room_from(state.court_rooms, 0);
                    assert(state.court_rooms[i] == state.free_room()->0);
                }
            }
        },
        Phase::FindingChannel { room_number, category_id, role_id } => {
            if let ReplyView::Channel(Some(channel)) = reply {
                if channel.parent_id == Some(category_id) {
                    lemma_add_court_room(
                        state,
                        CourtRoom { channel_id: channel.id, ongoing_lawsuit: false, role_id },
                    );
                }
            }
        },
        Phase::CreatingChannel { role_id } => {
            if let ReplyView::Created(channel_id) = reply {
                lemma_add_court_room(
                    state,
                    CourtRoom { channel_id, ongoing_lawsuit: false, role_id },
                );
            }
        },
        Phase::Acknowledged(room) => {
            if reply is Done {
                assert(after.lawsuits.drop_last() =~= state.lawsuits);
            }
        },
        Phase::StoringLawsuit(room) => {
            if reply is Done {
                let before = StateView { lawsuits: state.lawsuits.drop_last(), ..state };
                assert(before.add_lawsuit(ctx.lawsuit).lawsuits =~= state.lawsuits);
                lemma_open_in_idle_room(before, room, ctx.lawsuit);
            }
        },
        _ => {},
    }
}

/// Each step of opening a lawsuit keeps `opening_ids`.
pub proof fn lemma_opening_ids_step(ctx: LawsuitCtxView, state: StateView, reply: ReplyView)
    requires
        opening_ids(ctx, state),
    ensures
        opening_ids(ctx.resume(reply).0, state.after(ctx.resume(reply).1)),
{
    let after = state.after(ctx.resume(reply).1);
    match ctx.phase {
        Phase::Acknowledged(room) => {
            if reply is Done {
                let n = state.lawsuits.len() as int;
                assert(after.lawsuits == state.lawsuits.push(ctx.lawsuit));
                assert forall|i: int, j: int| 0 <= i < j < after.lawsuits.len() implies (
                #[trigger] after.lawsuits[i]).id != (#[trigger] after.lawsuits[j]).id by {
                    if j == n {
                        assert(state.lawsuits[i].id != ctx.lawsuit.id);
                    } else {
                        assert(state.lawsuits[i].id != state.lawsuits[j].id);
                    }
                }
            }
        },
        Phase::StoringLawsuit(room) => {
            if reply is Done {
                lemma_room_index_from(state.court_rooms, room.channel_id, 0);
            }
        },
        _ => {},
    }
}

/// The lawsuit and the record after a run of replies, each step carried out on the record.
pub open spec fn run(ctx: LawsuitCtxView, state: StateView, replies: Seq<ReplyView>) -> (
    LawsuitCtxView,
    StateView,
)
    decreases replies.len(),
{
    if replies.len() == 0 {
        (ctx, state)
    } else {
        let (next, step) = ctx.resume(replies[0]);
        run(next, state.after(step), replies.drop_first())
    }
}

/// Whether each reply of the run is admissible where it comes.
pub open spec fn admissible_run(
    ctx: LawsuitCtxView,
    state: StateView,
    replies: Seq<ReplyView>,
) -> bool
    decreases replies.len(),
{
    if replies.len() == 0 {
        true
    } else {
        let (next, step) = ctx.resume(replies[0]);
        admissible(ctx, state, replies[0]) && admissible_run(
            next,
            state.after(step),
            replies.drop_first(),
        )
    }
}

/// A run of admissible replies keeps `opening`.
pub proof fn lemma_opening_run(ctx: LawsuitCtxView, state: StateView, replies: Seq<ReplyView>)
    requires
        opening(ctx, state),
        admissible_run(ctx, state, replies),
    ensures
        opening(run(ctx, state, replies).0, run(ctx, state, replies).1),
    decreases replies.len(),
{
    if replies.len() > 0 {
        lemma_opening_step(ctx, state, replies[0]);
        let (next, step) = ctx.resume(replies[0]);
        lemma_opening_run(next, state.after(step), replies.drop_first());
    }
}

/// A run of replies keeps `opening_ids`.
pub proof fn lemma_opening_ids_run(ctx: LawsuitCtxView, state: StateView, replies: Seq<ReplyView>)
    requires
        opening_ids(ctx, state),
    ensures
        opening_ids(run(ctx, state, replies).0, run(ctx, state, replies).1),
    decreases replies.len(),
{
    if replies.len() > 0 {
        lemma_opening_ids_step(ctx, state, replies[0]);
        let (next, step) = ctx.resume(replies[0]);
        lemma_opening_ids_run(next, state.after(step), replies.drop_first());
    }
}

/// When an open lawsuit has been opened in a guild in whose record rooms and lawsuits fitted
/// together, whatever the platform answered on the way, exactly one court room has the
/// channel to which the lawsuit is bound and is flagged as ongoing, exactly one open lawsuit is
/// bound to that channel, the record holds the lawsuit, and rooms and lawsuits fit together
/// again. The same holds from the moment at which the room was flagged. If the record was
/// well-formed and the identifier of the lawsuit new, the record is well-formed again.
pub proof fn lemma_initialize_opens_one_room(
    ctx: LawsuitCtxView,
    state: StateView,
    replies: Seq<ReplyView>,
)
    requires
        state.consistent(),
        ctx.lawsuit.is_open(),
        admissible_run(ctx.initialize().0, state.after(ctx.initialize().1), replies),
    ensures
        ({
            let (end, record) = run(
                ctx.initialize().0,
                state.after(ctx.initialize().1),
                replies,
            );
            end.phase is Opened || end.phase is Granting || end.phase is MarkingRoom ==> {
                &&& record.one_ongoing_room(end.lawsuit.court_room)
                &&& record.one_open_lawsuit_in(end.lawsuit.court_room)
                &&& record.holds_lawsuit(end.lawsuit)
                &&& record.consistent()
                &&& state.distinct_lawsuits() && !state.has_lawsuit(ctx.lawsuit.id)
                    ==> record.wf()
            }
        }),
{
    lemma_opening_begins(ctx, state);
    lemma_opening_run(ctx.initialize().0, state.after(ctx.initialize().1), replies);
    if state.distinct_lawsuits() && !state.has_lawsuit(ctx.lawsuit.id) {
        lemma_opening_ids_run(ctx.initialize().0, state.after(ctx.initialize().1), replies);
    }
}

/// A record with an idle room: the lawsuit is announced in the first idle room, nothing is
/// asked of the platform but to send that announcement, and the record stays as it is. So
/// another lawsuit that is allocated a room on the same record gets the same room.
pub proof fn lemma_idle_room_is_reused(
    ctx: LawsuitCtxView,
    other: LawsuitCtxView,
    state: StateView,
)
    requires
        ctx.phase is LoadingState,
        other.phase is LoadingState,
        state.free_room() is Some,
    ensures
        ({
            let room = state.free_room()->0;
            let (next, step) = ctx.resume(ReplyView::State(state));
            &&& state.holds_room(room)
            &&& !room.ongoing_lawsuit
            &&& next.phase == Phase::Announcing(room)
            &&& step is Call
            &&& step->Call_0 is SendMessage
            &&& step->Call_0->SendMessage_channel_id == room.channel_id
            &&& state.after(step) == state
            &&& other.resume(ReplyView::State(state.after(step))).0.phase == Phase::Announcing(
                room,
            )
        }),
{
    lemma_idle_room_from(state.court_rooms, 0);
    let i = idle_room_from(state.court_rooms, 0);
    assert(state.court_rooms[i] == state.free_room()->0);
}

/// A member who is not the judge and may not manage the guild is answered that they may not
/// close the lawsuit: the lawsuit keeps its verdict, which is none if it is open, no request is
/// made, and the record, with the flag of the room, stays as it is.
pub proof fn lemma_stranger_cannot_rule(
    ctx: LawsuitCtxView,
    state: StateView,
    user_id: SnowflakeId,
    verdict: Seq<char>,
    room: CourtRoom,
)
    requires
        user_id != ctx.lawsuit.judge,
    ensures
        ({
            let (next, step) = ctx.rule_verdict(false, user_id, verdict, room);
            &&& step == StepView::Answer(ResponseView::NoPermissions)
            &&& next.lawsuit == ctx.lawsuit
            &&& state.after(step) == state
        }),
{
}

/// The requests that close a room do to the record what freeing the room and recording the
/// verdict do.
pub proof fn lemma_apply_closing_requests(state: StateView, lawsuit: LawsuitView, room: CourtRoom)
    ensures
        state.apply_all(closing_requests(lawsuit, room)) == state.set_court_room(
            lawsuit.court_room,
            false,
        ).set_lawsuit(lawsuit.id, lawsuit.verdict),
{
    let r0 = closing_requests(lawsuit, room);
    let r1 = r0.drop_first();
    let r2 = r1.drop_first();
    let r3 = r2.drop_first();
    let r4 = r3.drop_first();
    let r5 = r4.drop_first();
    assert(r5.len() == 0);
    let s1 = state.apply(r0[0]);
    let s2 = s1.apply(r1[0]);
    assert(s2.apply(r2[0]) == s2);
    assert(s2.apply(r3[0]) == s2);
    assert(s2.apply(r4[0]) == s2);
    assert(s2.apply_all(r5) == s2);
    assert(s2.apply_all(r4) == s2);
    assert(s2.apply_all(r3) == s2);
    assert(s2.apply_all(r2) == s2);
    assert(s1.apply_all(r1) == s2);
    assert(state.apply_all(r0) == s2);
}

/// When the judge, or a member who may manage the guild, closes the open lawsuit of a room of
/// a well-formed record, then once the first step is carried out the record is well-formed,
/// the room is idle, no open lawsuit is bound to it, and the record holds the lawsuit with the
/// verdict.
pub proof fn lemma_rule_verdict_closes(
    ctx: LawsuitCtxView,
    state: StateView,
    permission_override: bool,
    user_id: SnowflakeId,
    verdict: Seq<char>,
    room: CourtRoom,
)
    requires
        state.wf(),
        state.holds_room(room),
        state.holds_lawsuit(ctx.lawsuit),
        ctx.lawsuit.is_open(),
        ctx.lawsuit.court_room == room.channel_id,
        ctx.may_rule(permission_override, user_id),
    ensures
        ({
            let (next, step) = ctx.rule_verdict(permission_override, user_id, verdict, room);
            &&& next.lawsuit == LawsuitView { verdict: Some(verdict), ..ctx.lawsuit }
            &&& next.phase == Phase::Closing(room)
            &&& closed(next, state.after(step))
            &&& state.after(step).find_room(room.channel_id) == Some(
                CourtRoom { ongoing_lawsuit: false, ..room },
            )
        }),
{
    let (next, step) = ctx.rule_verdict(permission_override, user_id, verdict, room);
    lemma_apply_closing_requests(state, next.lawsuit, room);
    lemma_close_frees_room(state, room, ctx.lawsuit, verdict);
}

/// What holds of a lawsuit and the guild's record while the lawsuit is being closed with the
/// verdict, and when it is closed.
pub open spec fn closing(ctx: LawsuitCtxView, state: StateView, verdict: Seq<char>) -> bool {
    match ctx.phase {
        Phase::Closing(_) | Phase::Stripping { .. } | Phase::AnnouncingVerdict | Phase::Closed => {
            closed(ctx, state) && ctx.lawsuit.verdict == Some(verdict)
        },
        _ => true,
    }
}

/// A run of replies keeps `closing`: what follows the first step of closing a lawsuit asks
/// nothing of the store.
pub proof fn lemma_closing_run(
    ctx: LawsuitCtxView,
    state: StateView,
    verdict: Seq<char>,
    replies: Seq<ReplyView>,
)
    requires
        closing(ctx, state, verdict),
    ensures
        closing(run(ctx, state, replies).0, run(ctx, state, replies).1, verdict),
    decreases replies.len(),
{
    if replies.len() > 0 {
        let (next, step) = ctx.resume(replies[0]);
        lemma_closing_run(next, state.after(step), verdict, replies.drop_first());
    }
}

/// When the judge, or a member who may manage the guild, has closed the open lawsuit of a room
/// of a well-formed record, whatever the platform answered on the way, the record is
/// well-formed, the room is idle, no open lawsuit is bound to it, and the record holds the
/// lawsuit with the verdict. The same holds from the first step on.
pub proof fn lemma_rule_verdict_frees_room(
    ctx: LawsuitCtxView,
    state: StateView,
    permission_override: bool,
    user_id: SnowflakeId,
    verdict: Seq<char>,
    room: CourtRoom,
    replies: Seq<ReplyView>,
)
    requires
        state.wf(),
        state.holds_room(room),
        state.holds_lawsuit(ctx.lawsuit),
        ctx.lawsuit.is_open(),
        ctx.lawsuit.court_room == room.channel_id,
        ctx.may_rule(permission_override, user_id),
    ensures
        ({
            let (next, step) = ctx.rule_verdict(permission_override, user_id, verdict, room);
            let (end, record) = run(next, state.after(step), replies);
            end.phase is Closed || end.phase is AnnouncingVerdict || end.phase is Stripping
                || end.phase is Closing ==> {
                &&& record.wf()
                &&& record.holds_lawsuit(LawsuitView { verdict: Some(verdict), ..ctx.lawsuit })
                &&& record.find_room(room.channel_id) is Some
                &&& !record.find_room(room.channel_id)->0.ongoing_lawsuit
                &&& record.no_open_lawsuit_in(room.channel_id)
                &&& end.lawsuit == LawsuitView { verdict: Some(verdict), ..ctx.lawsuit }
            }
        }),
{
    let (next, step) = ctx.rule_verdict(permission_override, user_id, verdict, room);
    lemma_rule_verdict_closes(ctx, state, permission_override, user_id, verdict, room);
    lemma_closing_run(next, state.after(step), verdict, replies);
    lemma_lawsuit_kept(next, state.after(step), replies);
}

/// While a lawsuit is being closed, the lawsuit stays as it is.
proof fn lemma_lawsuit_kept(ctx: LawsuitCtxView, state: StateView, replies: Seq<ReplyView>)
    requires
        ctx.phase is Closing || ctx.phase is Stripping || ctx.phase is AnnouncingVerdict
            || ctx.phase is Closed || ctx.phase is Answered || ctx.phase is Finished,
    ensures
        run(ctx, state, replies).0.lawsuit == ctx.lawsuit,
    decreases replies.len(),
{
    if replies.len() > 0 {
        let (next, step) = ctx.resume(replies[0]);
        lemma_lawsuit_kept(next, state.after(step), replies.drop_first());
    }
}

/// After an arrest the store holds the member's prison entry; after a release it holds none.
/// Either leaves the entries of every other member and guild as they were.
pub proof fn lemma_prison_round_trip(store: MongoView, guild_id: SnowflakeId, user_id: SnowflakeId)
    ensures
        store.add_to_prison(guild_id, user_id).find_prison_entry(guild_id, user_id) == Some(
            PrisonEntry { guild_id, user_id },
        ),
        store.remove_from_prison(guild_id, user_id).find_prison_entry(guild_id, user_id) is None,
        store.add_to_prison(guild_id, user_id).remove_from_prison(
            guild_id,
            user_id,
        ).find_prison_entry(guild_id, user_id) is None,
        forall|g: SnowflakeId, u: SnowflakeId|
            g != guild_id || u != user_id ==> store.add_to_prison(
                guild_id,
                user_id,
            ).find_prison_entry(g, u) == store.find_prison_entry(g, u)
                && store.remove_from_prison(guild_id, user_id).find_prison_entry(g, u)
                == store.find_prison_entry(g, u),
{
}

/// An arrest in a guild that has a role for prisoners: the entry is asked of the store, and
/// once the store has it the role is granted to the member. A release does the reverse. In a
/// guild without such a role the member who gave the command is told so, and nothing is asked
/// of the store or the platform.
pub proof fn lemma_arrest_and_release(
    dispatch: DispatchView,
    state: StateView,
    store: MongoView,
    guild_id: SnowflakeId,
    user_id: SnowflakeId,
)
    ensures
        match state.prison_role {
            Some(role_id) => {
                let arrest = DispatchView { task: Task::LoadingForArrest { user_id }, ..dispatch };
                let (arresting, asked) = arrest.resume(ReplyView::State(state));
                let release = DispatchView {
                    task: Task::LoadingForRelease { user_id },
                    ..dispatch
                };
                let (releasing, unasked) = release.resume(ReplyView::State(state));
                &&& asked == StepView::Call(RequestView::AddToPrison(user_id))
                &&& store.serve(guild_id, asked->Call_0).0.find_prison_entry(guild_id, user_id)
                    is Some
                &&& arresting.resume(ReplyView::Done).1 == StepView::Call(
                    RequestView::AddRole { user_id, role_id },
                )
                &&& unasked == StepView::Call(RequestView::RemoveFromPrison(user_id))
                &&& store.serve(guild_id, unasked->Call_0).0.find_prison_entry(guild_id, user_id)
                    is None
                &&& releasing.resume(ReplyView::Done).1 == StepView::Call(
                    RequestView::RemoveRole { user_id, role_id },
                )
            },
            None => {
                let arrest = DispatchView { task: Task::LoadingForArrest { user_id }, ..dispatch };
                let release = DispatchView {
                    task: Task::LoadingForRelease { user_id },
                    ..dispatch
                };
                &&& arrest.resume(ReplyView::State(state)).1 == StepView::Answer(
                    DispatchView::no_prison_role_response(),
                )
                &&& release.resume(ReplyView::State(state)).1 == StepView::Answer(
                    DispatchView::no_prison_role_response(),
                )
            },
        },
{
}

/// A member joins a guild. If the guild has a role for prisoners and the store holds a prison
/// entry for the member, the role is granted to the member, and that is all. If the store
/// holds no entry, or the guild has no such role, nothing is asked of the platform.
pub proof fn lemma_rejoin(
    store: MongoView,
    state: StateView,
    guild_id: SnowflakeId,
    user_id: SnowflakeId,
)
    ensures
        ({
            let (loading, first) = DispatchView::member_joined(guild_id, user_id);
            let (checking, second) = loading.resume(ReplyView::State(state));
            &&& first == StepView::Call(RequestView::FindOrInsertState)
            &&& match state.prison_role {
                Some(role_id) => {
                    let found = store.serve(guild_id, RequestView::FindPrisonEntry(user_id));
                    let (granting, third) = checking.resume(found.1->0);
                    &&& second == StepView::Call(RequestView::FindPrisonEntry(user_id))
                    &&& found.0 == store
                    &&& found.1 is Some
                    &&& if store.find_prison_entry(guild_id, user_id) is Some {
                        &&& third == StepView::Call(RequestView::AddRole { user_id, role_id })
                        &&& granting.resume(ReplyView::Done).1 == StepView::Done
                    } else {
                        third == StepView::Done
                    }
                },
                None => second == StepView::Done,
            }
        }),
{
}


/// A dispatch that concerns no guild asks for nothing.
pub open spec fn quiet(dispatch: DispatchView) -> bool {
    dispatch.guild_id is None ==> dispatch.task is Answered || dispatch.task is Finished
}

/// A step that asks nothing of the store or the platform.
pub open spec fn asks_nothing(step: StepView) -> bool {
    !(step is Call) && !(step is CallAll)
}

/// Whatever a command is, and whatever comes back, a request is made only by a dispatch that
/// knows its guild: a command that came without a guild is answered, and that is all.
pub proof fn lemma_requests_have_a_guild(
    interaction: InteractionView,
    id: crate::model::LawsuitId,
    replies: Seq<ReplyView>,
    reply: ReplyView,
)
    ensures
        ({
            let (dispatch, step) = interaction.handle(id);
            let (after, asked) = dispatch_run(dispatch, replies).resume(reply);
            dispatch.guild_id is None ==> asks_nothing(step) && asks_nothing(asked)
        }),
{
    let (dispatch, step) = interaction.handle(id);
    lemma_quiet_run(dispatch, replies);
}

/// The dispatch after a run of replies.
pub open spec fn dispatch_run(dispatch: DispatchView, replies: Seq<ReplyView>) -> DispatchView
    decreases replies.len(),
{
    if replies.len() == 0 {
        dispatch
    } else {
        dispatch_run(dispatch, replies.drop_last()).resume(replies.last()).0
    }
}

/// A run of replies keeps a dispatch quiet and in its guild.
pub proof fn lemma_quiet_run(dispatch: DispatchView, replies: Seq<ReplyView>)
    requires
        quiet(dispatch),
    ensures
        quiet(dispatch_run(dispatch, replies)),
        dispatch_run(dispatch, replies).guild_id == dispatch.guild_id,
    decreases replies.len(),
{
    if replies.len() > 0 {
        lemma_quiet_run(dispatch, replies.drop_last());
    }
}


/// The phases of a lawsuit in which the member has been answered, or is not to be answered
/// by the lawsuit any more.
pub open spec fn after_answer(phase: Phase) -> bool {
    ||| phase is Acknowledged
    ||| phase is StoringLawsuit
    ||| phase is MarkingRoom
    ||| phase is Granting
    ||| phase is Opened
    ||| phase is Closed
    ||| phase is Answered
    ||| phase is Finished
}

/// A dispatch that has answered is busy only with what gives no answer.
pub open spec fn settled(dispatch: DispatchView) -> bool {
    dispatch.answered ==> match dispatch.task {
        Task::Opening | Task::Closing => match dispatch.lawsuit {
            Some(ctx) => after_answer(ctx.phase),
            None => true,
        },
        Task::LoadingForJoin { .. }
        | Task::CheckingPrison { .. }
        | Task::RestoringPrisonRole
        | Task::Answered
        | Task::Finished => true,
        _ => false,
    }
}

/// Each step keeps a dispatch settled, and a dispatch that has answered does not answer
/// again.
pub proof fn lemma_settled_step(dispatch: DispatchView, reply: ReplyView)
    requires
        settled(dispatch),
    ensures
        settled(dispatch.resume(reply).0),
        dispatch.answered ==> !(dispatch.resume(reply).1 is Answer) && dispatch.resume(
            reply,
        ).0.answered,
{
}

/// A run of replies keeps a dispatch settled.
pub proof fn lemma_settled_run(dispatch: DispatchView, replies: Seq<ReplyView>)
    requires
        settled(dispatch),
    ensures
        settled(dispatch_run(dispatch, replies)),
        dispatch.answered ==> dispatch_run(dispatch, replies).answered,
    decreases replies.len(),
{
    if replies.len() > 0 {
        lemma_settled_run(dispatch, replies.drop_last());
        lemma_settled_step(dispatch_run(dispatch, replies.drop_last()), replies.last());
    }
}

/// Whatever a command is, and whatever comes back, the member who gave it is answered at most
/// once: after an answer, no step of the dispatch is an answer. When a member joins, nobody is
/// answered at all.
pub proof fn lemma_one_answer(
    interaction: InteractionView,
    id: crate::model::LawsuitId,
    guild_id: SnowflakeId,
    user_id: SnowflakeId,
    replies: Seq<ReplyView>,
    reply: ReplyView,
)
    ensures
        ({
            let (dispatch, step) = interaction.handle(id);
            let before = dispatch_run(dispatch, replies);
            step is Answer || before.answered ==> !(before.resume(reply).1 is Answer)
        }),
        ({
            let (dispatch, step) = DispatchView::member_joined(guild_id, user_id);
            !(step is Answer) && !(dispatch_run(dispatch, replies).resume(reply).1 is Answer)
        }),
{
    let (dispatch, step) = interaction.handle(id);
    lemma_settled_run(dispatch, replies);
    lemma_settled_step(dispatch_run(dispatch, replies), reply);
    let (joined, first) = DispatchView::member_joined(guild_id, user_id);
    lemma_settled_run(joined, replies);
    lemma_settled_step(dispatch_run(joined, replies), reply);
}

} // verus!
