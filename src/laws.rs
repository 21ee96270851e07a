use vstd::prelude::*;
use crate::events::{ends_session, BridgeEvent, ConnectionState, Event, PrintInfo, StateDescription, WebsocketEvent};
use crate::router::{actions_of, live_after, violation_of, Action, Violation};
use crate::store::{expired, has_id, insert_if_absent, seeded, unexpired, Setting, Token};

verus! {

/// At most one device session exists at a time: a worker is only started
/// from a state with no live session, and a connection request that arrives
/// while a session is live is detected as a violation and starts nothing.
pub proof fn lemma_single_session(live: bool, event: Event)
    ensures
        forall|i: int|
            0 <= i < actions_of(live, event).len() && actions_of(live, event)[i] is SpawnBridge
                && violation_of(live, event).is_none() ==> !live && live_after(live, event)
                && actions_of(live, event).len() == 1,
        (live && event is Bridge && event->Bridge_0 is ConnectionCreate) ==> violation_of(live, event)
            == Some(Violation::CreateWhileLive),
{
}

/// How an action changes the number of running bridge workers.
pub open spec fn opens(action: Action) -> int {
    match action {
        Action::SpawnBridge { .. } => 1,
        Action::AbortBridge => -1,
        Action::ToBridge(Event::Kill) => -1,
        _ => 0,
    }
}

/// Workers started minus workers told or forced to stop, over `actions`.
pub open spec fn net_opened(actions: Seq<Action>) -> int
    decreases actions.len(),
{
    if actions.len() == 0 {
        0
    } else {
        net_opened(actions.drop_last()) + opens(actions.last())
    }
}

/// The session state and the actions emitted after routing `events` in
/// order from state `live`; an event that is a violation is refused and
/// changes nothing.
pub open spec fn replay(live: bool, events: Seq<Event>) -> (bool, Seq<Action>)
    decreases events.len(),
{
    if events.len() == 0 {
        (live, Seq::empty())
    } else {
        let (before, emitted) = replay(live, events.drop_last());
        let event = events.last();
        if violation_of(before, event) is Some {
            (before, emitted)
        } else {
            (live_after(before, event), emitted + actions_of(before, event))
        }
    }
}

proof fn lemma_net_opened_append(a: Seq<Action>, b: Seq<Action>)
    ensures
        net_opened(a + b) == net_opened(a) + net_opened(b),
    decreases b.len(),
{
    if b.len() > 0 {
        assert((a + b).drop_last() =~= a + b.drop_last());
        lemma_net_opened_append(a, b.drop_last());
    } else {
        assert(a + b =~= a);
    }
}

proof fn lemma_step_opened(live: bool, event: Event)
    requires
        violation_of(live, event) is None,
    ensures
        net_opened(actions_of(live, event)) == (if live_after(live, event) { 1int } else { 0int }) - (
        if live { 1int } else { 0int }),
{
    let acts = actions_of(live, event);
    assert(net_opened(Seq::<Action>::empty()) == 0);
    if acts.len() == 2 {
        let first = seq![acts[0]];
        assert(first.drop_last() =~= Seq::<Action>::empty());
        assert(net_opened(first) == opens(acts[0]));
        assert(acts.drop_last() =~= first);
        assert(net_opened(acts) == opens(acts[0]) + opens(acts[1]));
    } else if acts.len() == 1 {
        assert(acts.drop_last() =~= Seq::<Action>::empty());
        assert(net_opened(acts) == opens(acts[0]));
    }
}

/// Over any run of events from a router with no session, the workers
/// started minus the workers stopped is 1 while a session is live and 0
/// otherwise: at no point is more than one device session open.
pub proof fn lemma_one_session_per_run(events: Seq<Event>)
    ensures
        net_opened(replay(false, events).1) == if replay(false, events).0 { 1int } else { 0int },
    decreases events.len(),
{
    if events.len() > 0 {
        lemma_one_session_per_run(events.drop_last());
        let (before, emitted) = replay(false, events.drop_last());
        let event = events.last();
        if violation_of(before, event) is None {
            lemma_net_opened_append(emitted, actions_of(before, event));
            lemma_step_opened(before, event);
        }
    }
}

/// A disconnected or errored state update on a live session sends exactly one
/// `Kill` to the bridge, mirrors the update once towards the websocket side,
/// and ends the session.
pub proof fn lemma_teardown(state: ConnectionState, description: StateDescription)
    requires
        ends_session(state),
    ensures
        ({
            let event = Event::Bridge(BridgeEvent::StateUpdate { state, description });
            &&& violation_of(true, event).is_none()
            &&& actions_of(true, event) == seq![
                Action::ToBridge(Event::Kill),
                Action::Publish(Event::Websocket(WebsocketEvent::StateUpdate { state, description })),
            ]
            &&& !live_after(true, event)
        }),
{
}

/// Terminal commands and print starts are dropped while no session is live;
/// a print end is forwarded to the bridge whatever the session state.
pub proof fn lemma_command_gating(live: bool, message: String, info: PrintInfo)
    ensures
        !live ==> actions_of(live, Event::Bridge(BridgeEvent::TerminalSend { message })) == Seq::<Action>::empty(),
        !live ==> actions_of(live, Event::Bridge(BridgeEvent::PrintStart { info })) == Seq::<Action>::empty(),
        !live ==> !live_after(live, Event::Bridge(BridgeEvent::TerminalSend { message }))
            && !live_after(live, Event::Bridge(BridgeEvent::PrintStart { info })),
        actions_of(live, Event::Bridge(BridgeEvent::PrintEnd)) == seq![
            Action::ToBridge(Event::Bridge(BridgeEvent::PrintEnd)),
        ],
{
    assert(actions_of(false, Event::Bridge(BridgeEvent::TerminalSend { message })) =~= Seq::<Action>::empty());
    assert(actions_of(false, Event::Bridge(BridgeEvent::PrintStart { info })) =~= Seq::<Action>::empty());
}

/// Terminal data keeps its payload on the way out: a read becomes exactly one
/// websocket read with the same message, which the next routing step sends to
/// the websocket side unchanged; an accepted send goes to the bridge and is
/// mirrored to the websocket side with the same message.
pub proof fn lemma_echo_fidelity(live: bool, message: String)
    ensures
        actions_of(live, Event::Bridge(BridgeEvent::TerminalRead { message })) == seq![
            Action::Publish(Event::Websocket(WebsocketEvent::TerminalRead { message })),
        ],
        actions_of(live, Event::Websocket(WebsocketEvent::TerminalRead { message })) == seq![
            Action::ToWebsocket(Event::Websocket(WebsocketEvent::TerminalRead { message })),
        ],
        live ==> actions_of(live, Event::Bridge(BridgeEvent::TerminalSend { message })) == seq![
            Action::ToBridge(Event::Bridge(BridgeEvent::TerminalSend { message })),
            Action::Publish(Event::Websocket(WebsocketEvent::TerminalSend { message })),
        ],
        live ==> actions_of(live, Event::Websocket(WebsocketEvent::TerminalSend { message })) == seq![
            Action::ToWebsocket(Event::Websocket(WebsocketEvent::TerminalSend { message })),
        ],
{
}

proof fn lemma_seeded_keeps_rows(rows: Seq<Setting>, defaults: Seq<Setting>)
    ensures
        seeded(rows, defaults).len() >= rows.len(),
        seeded(rows, defaults).subrange(0, rows.len() as int) == rows,
    decreases defaults.len(),
{
    if defaults.len() > 0 {
        lemma_seeded_keeps_rows(rows, defaults.drop_last());
        let before = seeded(rows, defaults.drop_last());
        if !has_id(before, defaults.last().id@) {
            assert(before.push(defaults.last()).subrange(0, rows.len() as int) =~= before.subrange(
                0,
                rows.len() as int,
            ));
        }
    }
}

proof fn lemma_insert_keeps_key(rows: Seq<Setting>, row: Setting, id: Seq<char>)
    requires
        has_id(rows, id),
    ensures
        has_id(insert_if_absent(rows, row), id),
{
    let i = choose|i: int| 0 <= i < rows.len() && #[trigger] rows[i].id@ == id;
    assert(insert_if_absent(rows, row)[i] == rows[i]);
}

proof fn lemma_seeded_covers(rows: Seq<Setting>, defaults: Seq<Setting>)
    ensures
        forall|k: int| 0 <= k < defaults.len() ==> has_id(seeded(rows, defaults), #[trigger] defaults[k].id@),
    decreases defaults.len(),
{
    if defaults.len() > 0 {
        let init = defaults.drop_last();
        let last = defaults.last();
        lemma_seeded_covers(rows, init);
        let before = seeded(rows, init);
        assert forall|k: int| 0 <= k < defaults.len() implies has_id(
            seeded(rows, defaults),
            #[trigger] defaults[k].id@,
        ) by {
            if k < defaults.len() - 1 {
                assert(init[k] == defaults[k]);
                lemma_insert_keeps_key(before, last, defaults[k].id@);
            } else if !has_id(before, last.id@) {
                let after = before.push(last);
                assert(after[before.len() as int].id@ == last.id@);
            }
        }
    }
}

proof fn lemma_seeded_unchanged(rows: Seq<Setting>, defaults: Seq<Setting>)
    requires
        forall|k: int| 0 <= k < defaults.len() ==> has_id(rows, #[trigger] defaults[k].id@),
    ensures
        seeded(rows, defaults) == rows,
    decreases defaults.len(),
{
    if defaults.len() > 0 {
        let init = defaults.drop_last();
        assert forall|k: int| 0 <= k < init.len() implies has_id(rows, #[trigger] init[k].id@) by {
            assert(init[k] == defaults[k]);
        }
        lemma_seeded_unchanged(rows, init);
        assert(has_id(rows, defaults[defaults.len() - 1].id@));
    }
}

/// Running the bootstrap again changes nothing in the settings: seeding is
/// idempotent, and every settings row that existed before seeding keeps its
/// place and its contents. Token cleanup keeps exactly the tokens that are
/// not expired, in their order, and drops only those whose expiry day is
/// strictly before `today`.
pub proof fn lemma_bootstrap_idempotent(
    rows: Seq<Setting>,
    defaults: Seq<Setting>,
    tokens: Seq<Token>,
    today: u64,
)
    ensures
        seeded(seeded(rows, defaults), defaults) == seeded(rows, defaults),
        seeded(rows, defaults).subrange(0, rows.len() as int) == rows,
        forall|i: int|
            0 <= i < tokens.len() && !expired(#[trigger] tokens[i], today) ==> unexpired(
                tokens,
                today,
            ).contains(tokens[i]),
        forall|j: int|
            0 <= j < unexpired(tokens, today).len() ==> tokens.contains(
                #[trigger] unexpired(tokens, today)[j],
            ) && !expired(unexpired(tokens, today)[j], today),
        unexpired(unexpired(tokens, today), today) == unexpired(tokens, today),
{
    lemma_seeded_keeps_rows(rows, defaults);
    lemma_seeded_covers(rows, defaults);
    lemma_seeded_unchanged(seeded(rows, defaults), defaults);
    let keep = |t: Token| !expired(t, today);
    assert forall|i: int| 0 <= i < tokens.len() && !expired(#[trigger] tokens[i], today) implies unexpired(
        tokens,
        today,
    ).contains(tokens[i]) by {
        tokens.lemma_filter_contains(keep, i);
    }
    assert forall|j: int| 0 <= j < unexpired(tokens, today).len() implies tokens.contains(
        #[trigger] unexpired(tokens, today)[j],
    ) && !expired(unexpired(tokens, today)[j], today) by {
        tokens.lemma_filter_pred(keep, j);
        assert(unexpired(tokens, today).contains(unexpired(tokens, today)[j]));
        tokens.lemma_filter_contains_rev(keep, unexpired(tokens, today)[j]);
    }
    lemma_filter_all_kept(unexpired(tokens, today), today);
}

proof fn lemma_filter_all_kept(tokens: Seq<Token>, today: u64)
    requires
        forall|j: int| 0 <= j < tokens.len() ==> !expired(#[trigger] tokens[j], today),
    ensures
        unexpired(tokens, today) == tokens,
    decreases tokens.len(),
{
    reveal(Seq::filter);
    if tokens.len() > 0 {
        lemma_filter_all_kept(tokens.drop_last(), today);
        assert(tokens.drop_last().push(tokens.last()) =~= tokens);
    }
}

} // verus!
