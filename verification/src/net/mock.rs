//! The scripted fixture stream. A fixture is a [`Scenario`]; its ticks go out
//! one by one at their times, and the loop starts over at its end.
use vstd::prelude::*;

use crate::net::demo::{emit_tick, env_truthy, tick_events, truthy, Scenario};
use crate::net::events::{WsEvent, WsEventView};
use crate::seqs::no_items;

verus! {

/// What the stream does next.
#[derive(Debug)]
pub struct MockStep {
    /// When it is due, in milliseconds from the start of the loop.
    pub due_ms: u128,
    /// What goes out then.
    pub events: Vec<WsEvent>,
    /// The next tick; 0 when the loop starts over.
    pub next: usize,
}

/// What the stream does at the tick `at`: the tick's events at its time, and
/// behind the last tick nothing at the end of the loop.
pub fn mock_step(scenario: &Scenario, at: usize) -> (r: MockStep)
    ensures
        ({
            let ticks = scenario.deep_view().ticks;
            if at < ticks.len() {
                &&& r.due_ms == ticks[at as int].at_ms
                &&& r.events.deep_view() == tick_events(ticks[at as int])
                &&& r.next == at + 1
            } else {
                &&& r.due_ms == scenario.loop_seconds * 1000
                &&& r.events.deep_view() == Seq::<WsEventView>::empty()
                &&& r.next == 0
            }
        }),
{
    if at < scenario.ticks.len() {
        let tick = &scenario.ticks[at];
        assert(scenario.deep_view().ticks[at as int] == tick.deep_view());
        MockStep { due_ms: tick.at_ms as u128, events: emit_tick(tick), next: at + 1 }
    } else {
        MockStep {
            due_ms: scenario.loop_seconds as u128 * 1000,
            events: no_items(),
            next: 0,
        }
    }
}

/// A scripted stream.
#[derive(Debug, Clone, Copy, PartialEq, Eq, Structural)]
pub enum Script {
    /// Snapshots, chat, and answers to commands.
    Demo,
    /// Snapshots alone.
    Mock,
}

/// The scripted stream that the variables `PERICLAW_DEMO` and `OPENCLAW_MOCK`
/// ask for; the first one goes before the second.
pub open spec fn script_asked(
    periclaw_demo: Option<Seq<char>>,
    openclaw_mock: Option<Seq<char>>,
) -> Option<Script> {
    if truthy(periclaw_demo) {
        Some(Script::Demo)
    } else if truthy(openclaw_mock) {
        Some(Script::Mock)
    } else {
        None
    }
}

/// The scripted stream that is asked for, if any.
pub fn script(periclaw_demo: Option<&str>, openclaw_mock: Option<&str>) -> (r: Option<Script>)
    ensures
        r == script_asked(periclaw_demo.deep_view(), openclaw_mock.deep_view()),
{
    if env_truthy(periclaw_demo) {
        Some(Script::Demo)
    } else if env_truthy(openclaw_mock) {
        Some(Script::Mock)
    } else {
        None
    }
}

/// Whether the variable `OPENCLAW_MOCK` asks for the stream.
pub fn enabled(openclaw_mock: Option<&str>) -> (r: bool)
    ensures
        r == truthy(openclaw_mock.deep_view()),
{
    env_truthy(openclaw_mock)
}

} // verus!
