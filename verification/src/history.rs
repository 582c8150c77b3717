//! What commands leave behind: the state after one command, after a run of them,
//! and what a query then shows.
use crate::services::traffic_light_service::TrafficLightEvent;
use crate::states::traffic_light_state::{
    AccessError, IoTrafficLightStateView, StoreModel, TrafficLightStateView,
};
use crate::states::visitor_log::{lemma_listing_names_visitor_once, CallerId};
use vstd::prelude::*;

verus! {

/// A command as issued: who called, and the light it switches to.
pub struct Command {
    pub caller: CallerId,
    pub event: TrafficLightEvent,
}

/// The state that a run of commands builds up from the unset state.
pub open spec fn replay(commands: Seq<Command>) -> TrafficLightStateView
    decreases commands.len(),
{
    if commands.len() == 0 {
        TrafficLightStateView::unset()
    } else {
        replay(commands.drop_last()).switched(
            commands.last().caller,
            commands.last().event.light(),
        )
    }
}

/// The light of the last command that `caller` issued in the run, if it issued any.
pub open spec fn last_call(commands: Seq<Command>, caller: CallerId) -> Option<TrafficLightEvent>
    decreases commands.len(),
{
    if commands.len() == 0 {
        None
    } else if commands.last().caller == caller {
        Some(commands.last().event)
    } else {
        last_call(commands.drop_last(), caller)
    }
}

/// The state has on record for `caller` what `call` says: nothing where the caller
/// has issued no command, else the light of the command that `call` names.
pub open spec fn records(
    state: TrafficLightStateView,
    caller: CallerId,
    call: Option<TrafficLightEvent>,
) -> bool {
    match call {
        None => !state.all_users.dom().contains(caller),
        Some(event) => state.all_users.contains_pair(caller, event.light()),
    }
}

/// The store after a run of commands has met it, one command after the other.
pub open spec fn run(store: StoreModel, commands: Seq<Command>) -> StoreModel
    decreases commands.len(),
{
    if commands.len() == 0 {
        store
    } else {
        run(store, commands.drop_last()).after_switch(
            commands.last().caller,
            commands.last().event,
        )
    }
}

/// The three lights have three names, and none of them is the unset light.
pub proof fn lemma_light_names_event(one: TrafficLightEvent, other: TrafficLightEvent)
    ensures
        one.light() == other.light() <==> one == other,
        one.light() != TrafficLightStateView::unset().current_light,
{
    reveal_strlit("Green");
    reveal_strlit("Yellow");
    reveal_strlit("Red");
    assert("Green"@.len() == 5 && "Yellow"@.len() == 6 && "Red"@.len() == 3);
}

/// A command that the store admits decides the light, whatever showed before: the
/// store admits the next query, and the snapshot shows the light of the command
/// and lists the caller with it.
pub proof fn lemma_switch_shows_at_next_query(
    before: StoreModel,
    caller: CallerId,
    event: TrafficLightEvent,
    snapshot: IoTrafficLightStateView,
)
    requires
        before.exclusive_access() is Ok,
        snapshot.reflects(before.exclusive_access()->Ok_0.switched(caller, event.light())),
    ensures
        before.switch_reply(event) == Ok::<TrafficLightEvent, AccessError>(event),
        before.after_switch(caller, event).shared_access() == Ok::<
            TrafficLightStateView,
            AccessError,
        >(before.exclusive_access()->Ok_0.switched(caller, event.light())),
        snapshot.current_light == event.light(),
        exists|i: int|
            0 <= i < snapshot.all_users.len() && #[trigger] snapshot.all_users[i] == (
                caller,
                event.light(),
            ),
{
    let state = before.exclusive_access()->Ok_0.switched(caller, event.light());
    let at = lemma_listing_names_visitor_once(snapshot.all_users, state.all_users, caller);
    assert(snapshot.all_users[at] == (caller, event.light()));
}

/// A caller that switches the light again is still one visitor: the second light
/// takes the place of the first on its record, and a snapshot lists the caller
/// once, with the second light.
pub proof fn lemma_switch_again_overwrites(
    state: TrafficLightStateView,
    caller: CallerId,
    first: TrafficLightEvent,
    second: TrafficLightEvent,
    snapshot: IoTrafficLightStateView,
) -> (at: int)
    requires
        snapshot.reflects(
            state.switched(caller, first.light()).switched(caller, second.light()),
        ),
    ensures
        state.switched(caller, first.light()).switched(caller, second.light())
            == state.switched(caller, second.light()),
        0 <= at < snapshot.all_users.len(),
        snapshot.all_users[at] == (caller, second.light()),
        forall|i: int|
            0 <= i < snapshot.all_users.len() && (#[trigger] snapshot.all_users[i]).0 == caller
                ==> i == at,
{
    let twice = state.switched(caller, first.light()).switched(caller, second.light());
    assert(twice.all_users =~= state.switched(caller, second.light()).all_users);
    lemma_listing_names_visitor_once(snapshot.all_users, twice.all_users, caller)
}

/// A run of commands on a store that has its first state and no handle out goes
/// through whole: the store admits each command, and holds at the end what the
/// run builds up, with no handle out.
pub proof fn lemma_run_from_seed(commands: Seq<Command>)
    ensures
        run(StoreModel::seeded(), commands) == (StoreModel::Held {
            state: replay(commands),
            shared: 0,
        }),
    decreases commands.len(),
{
    if commands.len() > 0 {
        lemma_run_from_seed(commands.drop_last());
    }
}

/// Two runs of commands, one after the other, leave the store as the one long run
/// does.
pub proof fn lemma_run_splits(store: StoreModel, earlier: Seq<Command>, later: Seq<Command>)
    ensures
        run(run(store, earlier), later) == run(store, earlier + later),
    decreases later.len(),
{
    if later.len() == 0 {
        assert(earlier + later =~= earlier);
    } else {
        lemma_run_splits(store, earlier, later.drop_last());
        assert((earlier + later).drop_last() =~= earlier + later.drop_last());
    }
}

/// A query between two runs of commands meets the state that the first run has
/// built up, and the second run takes nothing from its snapshot: the store admits
/// the query, the snapshot shows the light of the last command of the first run,
/// and lists each caller of that run with the light of its own last command
/// there. The second run then goes on from where the first one ended.
pub proof fn lemma_query_between_runs(
    earlier: Seq<Command>,
    later: Seq<Command>,
    snapshot: IoTrafficLightStateView,
)
    requires
        snapshot.reflects(replay(earlier)),
    ensures
        run(StoreModel::seeded(), earlier).shared_access() == Ok::<
            TrafficLightStateView,
            AccessError,
        >(replay(earlier)),
        earlier.len() > 0 ==> snapshot.current_light == earlier.last().event.light(),
        earlier.len() == 0 ==> snapshot.current_light.len() == 0 && snapshot.all_users.len() == 0,
        forall|i: int|
            0 <= i < snapshot.all_users.len() ==> last_call(
                earlier,
                (#[trigger] snapshot.all_users[i]).0,
            ) is Some && snapshot.all_users[i].1 == last_call(
                earlier,
                snapshot.all_users[i].0,
            )->0.light(),
        run(run(StoreModel::seeded(), earlier), later) == (StoreModel::Held {
            state: replay(earlier + later),
            shared: 0,
        }),
{
    lemma_run_from_seed(earlier);
    lemma_replay_records_last_calls(earlier);
    lemma_run_splits(StoreModel::seeded(), earlier, later);
    lemma_run_from_seed(earlier + later);
    assert forall|i: int| 0 <= i < snapshot.all_users.len() implies last_call(
        earlier,
        (#[trigger] snapshot.all_users[i]).0,
    ) is Some && snapshot.all_users[i].1 == last_call(earlier, snapshot.all_users[i].0)->0.light() by {
        let caller = snapshot.all_users[i].0;
        assert(replay(earlier).all_users.contains_pair(caller, snapshot.all_users[i].1));
        assert(records(replay(earlier), caller, last_call(earlier, caller)));
    }
    if earlier.len() == 0 {
        if snapshot.all_users.len() > 0 {
            assert(replay(earlier).all_users.contains_pair(
                snapshot.all_users[0].0,
                snapshot.all_users[0].1,
            ));
        }
    }
}

/// After a run of commands the light of the last command shows, and the visitors
/// are the callers of the run, each on record with the light of its own last
/// command.
pub proof fn lemma_replay_records_last_calls(commands: Seq<Command>)
    ensures
        commands.len() > 0 ==> replay(commands).current_light == commands.last().event.light(),
        commands.len() == 0 ==> replay(commands) == TrafficLightStateView::unset(),
        forall|caller: CallerId| #[trigger]
            records(replay(commands), caller, last_call(commands, caller)),
    decreases commands.len(),
{
    if commands.len() > 0 {
        let earlier = commands.drop_last();
        lemma_replay_records_last_calls(earlier);
        assert forall|caller: CallerId| #[trigger]
            records(replay(commands), caller, last_call(commands, caller)) by {
            assert(records(replay(earlier), caller, last_call(earlier, caller)));
        }
    }
}

} // verus!
