//! Reconnection state machine.
//!
//! Durations are held as whole nanoseconds, so that the backoff arithmetic
//! can be stated and checked.
use vstd::prelude::*;

verus! {

/// `std::time::Instant`, held as an opaque moment: nothing is claimed of
/// what it holds.
#[verifier::external_type_specification]
#[verifier::external_body]
pub struct ExInstant(std::time::Instant);

/// Nanoseconds in one second.
pub const NANOS_PER_SEC: u128 = 1_000_000_000;

/// The longest duration a `std::time::Duration` holds, in nanoseconds:
/// `u64::MAX` seconds and 999,999,999 nanoseconds.
pub const MAX_DURATION_NANOS: u128 = 18_446_744_073_709_551_615_999_999_999;

/// Backoff of a new state machine, and after a successful connection.
pub const INITIAL_BACKOFF_NANOS: u128 = 1_000_000_000;

/// Default cap on the backoff.
pub const DEFAULT_MAX_BACKOFF_NANOS: u128 = 8_000_000_000;

/// Where a connection stands.
#[derive(Debug, Clone, Copy, PartialEq, Eq, Structural)]
pub enum State {
    /// Not connected, not trying
    Void,
    /// Waiting before attempting connection
    Backoff,
    /// Connection attempt in progress
    Connecting,
    /// Currently connected
    Active,
    /// Connected but idle, probing
    Idle,
    /// Reconnecting after failure
    Reconnecting,
}

/// Reconnection state machine.
///
/// Manages backoff and retry logic for connections.
#[derive(Debug)]
pub struct Reconnect {
    state: State,
    backoff: u128,
    max_backoff: u128,
    last_activity: Option<std::time::Instant>,
    last_connected: Option<std::time::Instant>,
}

/// The abstract state of the machine: the moments it records are known only
/// by whether they have been set.
pub struct ReconnectModel {
    pub state: State,
    pub backoff: u128,
    pub max_backoff: u128,
    pub has_activity: bool,
    pub has_connected: bool,
}

impl View for Reconnect {
    type V = ReconnectModel;

    closed spec fn view(&self) -> ReconnectModel {
        ReconnectModel {
            state: self.state,
            backoff: self.backoff,
            max_backoff: self.max_backoff,
            has_activity: self.last_activity is Some,
            has_connected: self.last_connected is Some,
        }
    }
}

impl Reconnect {
    /// Both durations fit in a `std::time::Duration`.
    #[verifier::type_invariant]
    spec fn durations_fit(self) -> bool {
        self.backoff <= MAX_DURATION_NANOS && self.max_backoff <= MAX_DURATION_NANOS
    }
}

/// The state of a new machine.
pub open spec fn initial_model() -> ReconnectModel {
    ReconnectModel {
        state: State::Void,
        backoff: INITIAL_BACKOFF_NANOS,
        max_backoff: DEFAULT_MAX_BACKOFF_NANOS,
        has_activity: false,
        has_connected: false,
    }
}

/// After a successful connection: active, with the backoff reset.
pub open spec fn connected_model(m: ReconnectModel) -> ReconnectModel {
    ReconnectModel {
        state: State::Active,
        backoff: INITIAL_BACKOFF_NANOS,
        has_activity: true,
        has_connected: true,
        ..m
    }
}

/// After a failed or lost connection: backing off.
pub open spec fn disconnected_model(m: ReconnectModel) -> ReconnectModel {
    ReconnectModel { state: State::Backoff, has_activity: true, ..m }
}

/// After activity on the connection: an idle connection becomes active.
pub open spec fn activity_model(m: ReconnectModel) -> ReconnectModel {
    ReconnectModel {
        state: if m.state == State::Idle { State::Active } else { m.state },
        has_activity: true,
        ..m
    }
}

/// After a failed attempt: the backoff doubles, up to the cap.
pub open spec fn increased_model(m: ReconnectModel) -> ReconnectModel {
    ReconnectModel {
        backoff: if 2 * m.backoff <= m.max_backoff {
            (2 * m.backoff) as u128
        } else {
            m.max_backoff
        },
        ..m
    }
}

/// Whether a connection is up in state `s`.
pub open spec fn state_connected(s: State) -> bool {
    s == State::Active || s == State::Idle
}

/// Whether to attempt a connection, when `elapsed` nanoseconds have passed
/// since the last recorded activity.
pub open spec fn should_connect_after(m: ReconnectModel, elapsed: u128) -> bool {
    match m.state {
        State::Void => true,
        State::Backoff => !m.has_activity || elapsed >= m.backoff,
        _ => false,
    }
}

/// The current moment, by `std::time::Instant::now`; it depends on the
/// clock, so nothing is claimed of it.
#[verifier::external_body]
fn now() -> std::time::Instant {
    std::time::Instant::now()
}

/// Nanoseconds since `moment`, by `std::time::Instant::elapsed` read with
/// `Duration::as_nanos`; the clock decides, so nothing is claimed of it.
#[verifier::external_body]
fn nanos_since(moment: &std::time::Instant) -> u128 {
    moment.elapsed().as_nanos()
}

impl Default for Reconnect {
    fn default() -> (r: Self)
        ensures
            r@ == initial_model(),
    {
        Self::new()
    }
}

impl Reconnect {
    /// Create a new reconnection state machine.
    pub fn new() -> (r: Self)
        ensures
            r@ == initial_model(),
    {
        Reconnect {
            state: State::Void,
            backoff: INITIAL_BACKOFF_NANOS,
            max_backoff: DEFAULT_MAX_BACKOFF_NANOS,
            last_activity: None,
            last_connected: None,
        }
    }

    /// Set the maximum backoff, in nanoseconds.
    pub fn set_max_backoff(&mut self, max: u128)
        requires
            max <= MAX_DURATION_NANOS,
        ensures
            final(self)@ == (ReconnectModel { max_backoff: max, ..old(self)@ }),
    {
        proof {
            use_type_invariant(&*self);
        }
        self.max_backoff = max;
    }

    /// Signal that a connection attempt is starting.
    pub fn connecting(&mut self)
        ensures
            final(self)@ == (ReconnectModel { state: State::Connecting, ..old(self)@ }),
    {
        proof {
            use_type_invariant(&*self);
        }
        self.state = State::Connecting;
    }

    /// Signal that the connection succeeded.
    pub fn connected(&mut self)
        ensures
            final(self)@ == connected_model(old(self)@),
    {
        proof {
            use_type_invariant(&*self);
        }
        self.state = State::Active;
        self.last_connected = Some(now());
        self.last_activity = Some(now());
        self.backoff = INITIAL_BACKOFF_NANOS;
    }

    /// Signal that the connection failed or was lost.
    pub fn disconnected(&mut self)
        ensures
            final(self)@ == disconnected_model(old(self)@),
    {
        proof {
            use_type_invariant(&*self);
        }
        self.state = State::Backoff;
        self.last_activity = Some(now());
    }

    /// Signal activity on the connection.
    pub fn activity(&mut self)
        ensures
            final(self)@ == activity_model(old(self)@),
    {
        proof {
            use_type_invariant(&*self);
        }
        self.last_activity = Some(now());
        if self.state == State::Idle {
            self.state = State::Active;
        }
    }

    /// Whether to attempt a connection, given the nanoseconds that have
    /// passed since the last recorded activity.
    pub fn should_connect_at(&self, elapsed: u128) -> (r: bool)
        ensures
            r == should_connect_after(self@, elapsed),
    {
        match self.state {
            State::Void => true,
            State::Backoff => {
                if self.last_activity.is_some() {
                    elapsed >= self.backoff
                } else {
                    true
                }
            },
            _ => false,
        }
    }

    /// Check if we should attempt to connect now: always before any attempt,
    /// once the backoff has passed since the last activity while backing
    /// off, and never otherwise.
    pub fn should_connect(&self) -> (r: bool)
        ensures
            exists|elapsed: u128| r == should_connect_after(self@, elapsed),
            self@.state == State::Void ==> r,
            self@.state == State::Backoff && !self@.has_activity ==> r,
            self@.state != State::Void && self@.state != State::Backoff ==> !r,
    {
        let elapsed = match &self.last_activity {
            Some(moment) => if self.state == State::Backoff {
                nanos_since(moment)
            } else {
                0
            },
            None => 0,
        };
        self.should_connect_at(elapsed)
    }

    /// Check if we are currently connected.
    pub fn is_connected(&self) -> (r: bool)
        ensures
            r == state_connected(self@.state),
    {
        self.state == State::Active || self.state == State::Idle
    }

    /// Get the current backoff, in nanoseconds.
    pub fn current_backoff(&self) -> (r: u128)
        ensures
            r == self@.backoff,
    {
        self.backoff
    }

    /// Increase the backoff (called after failed connection attempt): it
    /// doubles, up to the maximum. Doubling past the longest representable
    /// duration is refused.
    pub fn increase_backoff(&mut self)
        requires
            2 * old(self)@.backoff <= MAX_DURATION_NANOS,
        ensures
            final(self)@ == increased_model(old(self)@),
    {
        proof {
            use_type_invariant(&*self);
        }
        let doubled = self.backoff * 2;
        if doubled <= self.max_backoff {
            self.backoff = doubled;
        } else {
            self.backoff = self.max_backoff;
        }
    }
}

/// Law: a new machine is disconnected and attempts a connection at once.
pub proof fn lemma_new_connects(elapsed: u128)
    ensures
        !state_connected(initial_model().state),
        should_connect_after(initial_model(), elapsed),
{
}

/// Law: after a successful connection the machine is connected, does not
/// attempt another connection, and its backoff is back at its initial value.
pub proof fn lemma_connected(m: ReconnectModel, elapsed: u128)
    ensures
        state_connected(connected_model(m).state),
        !should_connect_after(connected_model(m), elapsed),
        connected_model(m).backoff == INITIAL_BACKOFF_NANOS,
{
}

/// Law: after a disconnection the machine is not connected, and attempts a
/// connection exactly once the backoff has passed.
pub proof fn lemma_disconnected(m: ReconnectModel, elapsed: u128)
    ensures
        !state_connected(disconnected_model(m).state),
        should_connect_after(disconnected_model(m), elapsed) <==> elapsed >= m.backoff,
{
}

/// Law: activity never changes whether the machine is connected.
pub proof fn lemma_activity_keeps_connection(m: ReconnectModel)
    ensures
        state_connected(activity_model(m).state) == state_connected(m.state),
{
}

/// Law: after an increase the backoff is within the cap, and it never
/// shrinks while it was within the cap.
pub proof fn lemma_backoff_capped(m: ReconnectModel)
    ensures
        increased_model(m).backoff <= m.max_backoff,
        m.backoff <= m.max_backoff ==> m.backoff <= increased_model(m).backoff,
        increased_model(m).max_backoff == m.max_backoff,
{
}

/// A call that changes the machine: the history that the laws below speak of.
pub enum ReconnectEvent {
    Connecting,
    Connected,
    Disconnected,
    Activity,
    IncreaseBackoff,
    SetMaxBackoff(u128),
}

/// The machine after one call, as the method of that name leaves it.
pub open spec fn apply_event(m: ReconnectModel, e: ReconnectEvent) -> ReconnectModel {
    match e {
        ReconnectEvent::Connecting => ReconnectModel { state: State::Connecting, ..m },
        ReconnectEvent::Connected => connected_model(m),
        ReconnectEvent::Disconnected => disconnected_model(m),
        ReconnectEvent::Activity => activity_model(m),
        ReconnectEvent::IncreaseBackoff => increased_model(m),
        ReconnectEvent::SetMaxBackoff(max) => ReconnectModel { max_backoff: max, ..m },
    }
}

/// The machine after the calls `events`, in order, starting from `m`.
pub open spec fn apply_events(m: ReconnectModel, events: Seq<ReconnectEvent>) -> ReconnectModel
    decreases events.len(),
{
    if events.len() == 0 {
        m
    } else {
        apply_event(apply_events(m, events.drop_last()), events.last())
    }
}

/// The latest of the calls `connecting`, `connected` and `disconnected` in
/// `events`; `None` if there was none.
pub open spec fn last_link_event(events: Seq<ReconnectEvent>) -> Option<ReconnectEvent>
    decreases events.len(),
{
    if events.len() == 0 {
        None
    } else {
        match events.last() {
            ReconnectEvent::Connecting => Some(ReconnectEvent::Connecting),
            ReconnectEvent::Connected => Some(ReconnectEvent::Connected),
            ReconnectEvent::Disconnected => Some(ReconnectEvent::Disconnected),
            _ => last_link_event(events.drop_last()),
        }
    }
}

/// The state a new machine is in after a history whose latest link call is `last`.
pub open spec fn state_after(last: Option<ReconnectEvent>) -> State {
    match last {
        None => State::Void,
        Some(ReconnectEvent::Connecting) => State::Connecting,
        Some(ReconnectEvent::Connected) => State::Active,
        Some(_) => State::Backoff,
    }
}

/// The state of a new machine after any history is fixed by the latest link
/// call alone; after a disconnection an activity has been recorded.
proof fn lemma_history_state(events: Seq<ReconnectEvent>)
    ensures
        apply_events(initial_model(), events).state == state_after(last_link_event(events)),
        last_link_event(events) matches Some(e) ==> (e is Connecting || e is Connected || e is Disconnected),
        last_link_event(events) == Some(ReconnectEvent::Disconnected) ==> apply_events(
            initial_model(),
            events,
        ).has_activity,
    decreases events.len(),
{
    if events.len() > 0 {
        lemma_history_state(events.drop_last());
    }
}

/// Law: after any sequence of calls on a new machine, it is connected
/// exactly when the latest of its `connecting`, `connected` and
/// `disconnected` calls was `connected`; `activity`, `increase_backoff` and
/// `set_max_backoff` never change that.
pub proof fn lemma_connected_after_history(events: Seq<ReconnectEvent>)
    ensures
        state_connected(apply_events(initial_model(), events).state) <==> last_link_event(events) == Some(
            ReconnectEvent::Connected,
        ),
{
    lemma_history_state(events);
}

/// Law: after any sequence of calls on a new machine, with `elapsed`
/// nanoseconds since the last recorded activity, it attempts a connection
/// exactly when it never made a `connecting`, `connected` or `disconnected`
/// call, or the latest of them was `disconnected` and the current backoff
/// has passed.
pub proof fn lemma_should_connect_after_history(events: Seq<ReconnectEvent>, elapsed: u128)
    ensures
        should_connect_after(apply_events(initial_model(), events), elapsed) <==> (last_link_event(events)
            is None || (last_link_event(events) == Some(ReconnectEvent::Disconnected) && elapsed
            >= apply_events(initial_model(), events).backoff)),
{
    lemma_history_state(events);
}

} // verus!
