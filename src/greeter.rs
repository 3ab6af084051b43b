use vstd::prelude::*;

use crate::monitor::{name_view as name_view_of, names_of, select_monitor, selection, MonitorHandle};
use crate::updates::{error_view, Field, Updates};

verus! {

/// Whether the broker asks for visible input (a username) or masked input
/// (a password).
#[derive(Clone, Copy, Debug, PartialEq, Eq, Structural)]
pub enum PromptKind {
    Visible,
    Secret,
}

/// What the entry widget expects next, and so whether it masks its text.
#[derive(Clone, Copy, Debug, PartialEq, Eq, Structural)]
pub enum InputMode {
    NoInput,
    Username,
    Secret,
}

/// Where the greeter stands in the authentication lifecycle.
#[derive(Clone, Debug, PartialEq, Eq)]
pub enum Phase {
    Idle,
    AwaitingSecret(PromptKind),
    Authenticating,
    Authenticated,
    Error(String),
}

/// A request to the power-management collaborator.
#[derive(Clone, Copy, Debug, PartialEq, Eq, Structural)]
pub enum PowerAction {
    Reboot,
    PowerOff,
}

/// The kind of the broker call that is outstanding.
#[derive(Clone, Copy, Debug, PartialEq, Eq, Structural)]
pub enum RequestKind {
    Create,
    Answer,
    Start,
    Cancel,
}

/// A call to the login-session broker.
#[derive(Clone, Debug, PartialEq, Eq)]
pub enum BrokerRequest {
    CreateSession(String),
    AnswerPrompt(String),
    StartSession(Vec<String>),
    CancelSession,
}

/// What came back from a broker call.
#[derive(Clone, Debug, PartialEq, Eq)]
pub enum BrokerResponse {
    /// The broker wants one more input.
    AuthPrompt(PromptKind),
    Success,
    /// The broker refused, with a message for the user.
    Error(String),
    /// The broker could not be reached at all.
    ConnectionLost,
}

/// One event for the greeter to process.
#[derive(Clone, Debug, PartialEq, Eq)]
pub enum Event {
    /// The user submitted the entry's text.
    Login(String),
    Reboot,
    PowerOff,
    /// The clock ticked; the texts are the formatted date and time.
    Tick(String, String),
    /// The delay for showing an error ran out.
    ClearErr,
    /// The outstanding broker call returned.
    Response(BrokerResponse),
    /// The set of attached monitors changed.
    MonitorsChanged(Vec<MonitorHandle>),
}

/// What the caller has to do after a step.
#[derive(Debug, PartialEq, Eq)]
pub struct Effects {
    /// A broker call to issue, its response to be fed back as an event.
    pub broker: Option<BrokerRequest>,
    /// A power action to request.
    pub power: Option<PowerAction>,
    /// Start the timer that sends `ClearErr`.
    pub schedule_clear: bool,
    /// The session was started: hand off and exit.
    pub hand_off: bool,
}

/// The message shown when the broker cannot be reached.
pub open spec fn connection_error_text() -> Seq<char> {
    "Couldn't reach the login service"@
}

/// The message shown when the broker answers out of protocol.
pub open spec fn protocol_error_text() -> Seq<char> {
    "Unexpected answer from the login service"@
}

/// The text of `connection_error_text`.
fn connection_error() -> (r: String)
    ensures
        r@ == connection_error_text(),
{
    "Couldn't reach the login service".to_owned()
}

/// The text of `protocol_error_text`.
fn protocol_error() -> (r: String)
    ensures
        r@ == protocol_error_text(),
{
    "Unexpected answer from the login service".to_owned()
}

/// The kind of call that a request makes.
pub open spec fn kind_of(r: BrokerRequest) -> RequestKind {
    match r {
        BrokerRequest::CreateSession(_) => RequestKind::Create,
        BrokerRequest::AnswerPrompt(_) => RequestKind::Answer,
        BrokerRequest::StartSession(_) => RequestKind::Start,
        BrokerRequest::CancelSession => RequestKind::Cancel,
    }
}

/// The input mode that a phase calls for.
pub open spec fn mode_of(p: Phase) -> InputMode {
    match p {
        Phase::Idle => InputMode::Username,
        Phase::AwaitingSecret(PromptKind::Visible) => InputMode::Username,
        Phase::AwaitingSecret(PromptKind::Secret) => InputMode::Secret,
        _ => InputMode::NoInput,
    }
}

/// A list of strings as sequences of characters.
pub open spec fn strings_view(v: Seq<String>) -> Seq<Seq<char>> {
    v.map_values(|s: String| s@)
}

/// The caller has nothing to do.
pub open spec fn no_effects(e: Effects) -> bool {
    e.broker is None && e.power is None && !e.schedule_clear && !e.hand_off
}

/// A field-by-field copy of a list of strings.
fn copy_strings(v: &Vec<String>) -> (r: Vec<String>)
    ensures
        strings_view(r@) == strings_view(v@),
{
    let mut r: Vec<String> = Vec::new();
    let mut i: usize = 0;
    while i < v.len()
        invariant
            0 <= i <= v.len(),
            r@.len() == i,
            forall|j: int| 0 <= j < i ==> #[trigger] r@[j]@ == v@[j]@,
        decreases v.len() - i,
    {
        r.push(v[i].clone());
        i = i + 1;
    }
    assert(strings_view(r@) =~= strings_view(v@));
    r
}

/// The greeter's state: the phase, the displayed fields, the outstanding
/// broker call and a pending power action.
pub struct Greeter {
    phase: Phase,
    updates: Updates,
    in_flight: Option<RequestKind>,
    pending_power: Option<PowerAction>,
    command: Vec<String>,
}

impl Greeter {
    pub closed spec fn phase_spec(&self) -> Phase {
        self.phase
    }

    pub closed spec fn updates_spec(&self) -> Updates {
        self.updates
    }

    pub closed spec fn in_flight_spec(&self) -> Option<RequestKind> {
        self.in_flight
    }

    pub closed spec fn pending_power_spec(&self) -> Option<PowerAction> {
        self.pending_power
    }

    pub closed spec fn command_spec(&self) -> Seq<Seq<char>> {
        strings_view(self.command@)
    }

    /// The entry field is never left holding text between steps.
    pub open spec fn wf(&self) -> bool {
        self.updates_spec().input_view() == Seq::<char>::empty()
    }

    /// Whether a login intent is taken up now: the phase asks for input, no
    /// broker call is outstanding and no power action waits.
    pub open spec fn accepts_login(&self) -> bool {
        &&& (self.phase_spec() is Idle || self.phase_spec() is AwaitingSecret)
        &&& self.in_flight_spec() is None
        &&& self.pending_power_spec() is None
    }

    /// A greeter in `Idle` that launches `command` once a user is
    /// authenticated. The returned effects cancel any session that an earlier
    /// instance left open.
    pub fn new(command: Vec<String>) -> (r: (Greeter, Effects))
        ensures
            r.0.wf(),
            r.0.phase_spec() is Idle,
            r.0.command_spec() == strings_view(command@),
            r.0.in_flight_spec() == Some(RequestKind::Cancel),
            r.0.pending_power_spec() is None,
            r.0.updates_spec().error_view() is None,
            r.0.updates_spec().monitor_view() is None,
            forall|f: Field| !r.0.updates_spec().dirty(f),
            r.1.broker matches Some(BrokerRequest::CancelSession),
            r.1.power is None,
            !r.1.schedule_clear,
            !r.1.hand_off,
    {
        let g = Greeter {
            phase: Phase::Idle,
            updates: Updates::new(),
            in_flight: Some(RequestKind::Cancel),
            pending_power: None,
            command,
        };
        let e = Effects {
            broker: Some(BrokerRequest::CancelSession),
            power: None,
            schedule_clear: false,
            hand_off: false,
        };
        (g, e)
    }

    pub fn phase(&self) -> (r: &Phase)
        ensures
            *r == self.phase_spec(),
    {
        &self.phase
    }

    pub fn updates(&self) -> (r: &Updates)
        ensures
            *r == self.updates_spec(),
    {
        &self.updates
    }

    pub fn in_flight(&self) -> (r: Option<RequestKind>)
        ensures
            r == self.in_flight_spec(),
    {
        self.in_flight
    }

    pub fn pending_power(&self) -> (r: Option<PowerAction>)
        ensures
            r == self.pending_power_spec(),
    {
        self.pending_power
    }

    /// The input mode that the current phase calls for.
    pub fn input_mode(&self) -> (r: InputMode)
        ensures
            r == mode_of(self.phase_spec()),
    {
        match &self.phase {
            Phase::Idle => InputMode::Username,
            Phase::AwaitingSecret(PromptKind::Visible) => InputMode::Username,
            Phase::AwaitingSecret(PromptKind::Secret) => InputMode::Secret,
            _ => InputMode::NoInput,
        }
    }
}

/// The text that a request hands to the broker, if any.
pub open spec fn request_text(r: BrokerRequest) -> Option<Seq<char>> {
    match r {
        BrokerRequest::CreateSession(t) => Some(t@),
        BrokerRequest::AnswerPrompt(t) => Some(t@),
        _ => None,
    }
}

/// The name of the monitor shown now, if any.
pub open spec fn shown_name(u: Updates) -> Option<Seq<char>> {
    match u.monitor_view() {
        Some(k) => Some(k.0),
        None => None,
    }
}

/// The monitor that index `k` of `list` designates.
pub open spec fn picked(list: Seq<MonitorHandle>, k: Option<int>) -> Option<(Seq<char>, i32, i32, i32, i32)> {
    match k {
        Some(i) => Some(list[i].key()),
        None => None,
    }
}

/// The phase, the outstanding call, the pending power action and the command
/// are those of `old`.
pub open spec fn same_control(old: Greeter, new: Greeter) -> bool {
    &&& new.phase_spec() == old.phase_spec()
    &&& new.in_flight_spec() == old.in_flight_spec()
    &&& new.pending_power_spec() == old.pending_power_spec()
    &&& new.command_spec() == old.command_spec()
}

/// Of the displayed fields, only those in `touched` may hold other values
/// than in `old`.
pub open spec fn fields_kept(old: Greeter, new: Greeter, touched: Set<Field>) -> bool {
    let (u, v) = (new.updates_spec(), old.updates_spec());
    &&& (!touched.contains(Field::Date) ==> u.date_view() == v.date_view())
    &&& (!touched.contains(Field::Time) ==> u.time_view() == v.time_view())
    &&& (!touched.contains(Field::Input) ==> u.input_view() == v.input_view())
    &&& (!touched.contains(Field::Error) ==> u.error_view() == v.error_view())
    &&& (!touched.contains(Field::Monitor) ==> u.monitor_view() == v.monitor_view())
}

/// After a step, a field other than the entry is flagged exactly when its
/// value differs from the one it held before the step.
pub open spec fn flags_follow_values(old: Greeter, new: Greeter) -> bool {
    let (u, v) = (new.updates_spec(), old.updates_spec());
    &&& u.dirty(Field::Date) == (u.date_view() != v.date_view())
    &&& u.dirty(Field::Time) == (u.time_view() != v.time_view())
    &&& u.dirty(Field::Error) == (u.error_view() != v.error_view())
    &&& u.dirty(Field::Monitor) == (u.monitor_view() != v.monitor_view())
}

/// A failed attempt shows `msg`, cancels the broker session and starts the
/// timer that clears the error.
pub open spec fn failed(old: Greeter, new: Greeter, e: Effects, msg: Seq<char>) -> bool {
    &&& new.phase_spec() is Error
    &&& new.phase_spec()->Error_0@ == msg
    &&& new.updates_spec().error_view() == Some(msg)
    &&& fields_kept(old, new, set![Field::Error])
    &&& new.in_flight_spec() == Some(RequestKind::Cancel)
    &&& new.pending_power_spec() == old.pending_power_spec()
    &&& new.command_spec() == old.command_spec()
    &&& e.broker matches Some(BrokerRequest::CancelSession)
    &&& e.power is None
    &&& e.schedule_clear
    &&& !e.hand_off
}

/// Nothing but the outstanding call changed, and it is cleared.
pub open spec fn call_closed(old: Greeter, new: Greeter, e: Effects) -> bool {
    &&& new.phase_spec() == old.phase_spec()
    &&& new.in_flight_spec() is None
    &&& new.pending_power_spec() == old.pending_power_spec()
    &&& new.command_spec() == old.command_spec()
    &&& fields_kept(old, new, Set::empty())
    &&& no_effects(e)
}

/// What a broker response does to the greeter.
pub open spec fn response_post(old: Greeter, new: Greeter, resp: BrokerResponse, e: Effects) -> bool {
    match old.in_flight_spec() {
        None => same_control(old, new) && fields_kept(old, new, Set::empty()) && no_effects(e),
        Some(k) => match old.pending_power_spec() {
            Some(p) => {
                &&& new.phase_spec() == old.phase_spec()
                &&& new.command_spec() == old.command_spec()
                &&& fields_kept(old, new, Set::empty())
                &&& !e.schedule_clear && !e.hand_off
                &&& if k == RequestKind::Cancel {
                    &&& e.power == Some(p)
                    &&& e.broker is None
                    &&& new.pending_power_spec() is None
                    &&& new.in_flight_spec() is None
                } else {
                    &&& e.power is None
                    &&& e.broker matches Some(BrokerRequest::CancelSession)
                    &&& new.pending_power_spec() == Some(p)
                    &&& new.in_flight_spec() == Some(RequestKind::Cancel)
                }
            },
            None => match k {
                RequestKind::Cancel => call_closed(old, new, e),
                RequestKind::Create | RequestKind::Answer => match resp {
                    BrokerResponse::AuthPrompt(kind) => {
                        &&& new.phase_spec() == Phase::AwaitingSecret(kind)
                        &&& new.updates_spec().error_view() is None
                        &&& fields_kept(old, new, set![Field::Error])
                        &&& new.in_flight_spec() is None
                        &&& new.pending_power_spec() is None
                        &&& new.command_spec() == old.command_spec()
                        &&& no_effects(e)
                    },
                    BrokerResponse::Success => {
                        &&& new.phase_spec() is Authenticated
                        &&& fields_kept(old, new, Set::empty())
                        &&& new.in_flight_spec() == Some(RequestKind::Start)
                        &&& new.pending_power_spec() is None
                        &&& new.command_spec() == old.command_spec()
                        &&& e.broker is Some
                        &&& e.broker->Some_0 is StartSession
                        &&& strings_view(e.broker->Some_0->StartSession_0@) == old.command_spec()
                        &&& e.power is None && !e.schedule_clear && !e.hand_off
                    },
                    BrokerResponse::Error(m) => failed(old, new, e, m@),
                    BrokerResponse::ConnectionLost => failed(old, new, e, connection_error_text()),
                },
                RequestKind::Start => match resp {
                    BrokerResponse::Success => {
                        &&& new.phase_spec() == old.phase_spec()
                        &&& fields_kept(old, new, Set::empty())
                        &&& new.in_flight_spec() is None
                        &&& new.pending_power_spec() is None
                        &&& new.command_spec() == old.command_spec()
                        &&& e.broker is None && e.power is None && !e.schedule_clear
                        &&& e.hand_off
                    },
                    BrokerResponse::AuthPrompt(_) => failed(old, new, e, protocol_error_text()),
                    BrokerResponse::Error(m) => failed(old, new, e, m@),
                    BrokerResponse::ConnectionLost => failed(old, new, e, connection_error_text()),
                },
            },
        },
    }
}

/// What a power intent does to the greeter.
pub open spec fn power_post(old: Greeter, new: Greeter, p: PowerAction, e: Effects) -> bool {
    &&& new.phase_spec() == old.phase_spec()
    &&& new.command_spec() == old.command_spec()
    &&& new.pending_power_spec() == Some(p)
    &&& fields_kept(old, new, Set::empty())
    &&& e.power is None && !e.schedule_clear && !e.hand_off
    &&& if old.in_flight_spec() is None {
        &&& e.broker matches Some(BrokerRequest::CancelSession)
        &&& new.in_flight_spec() == Some(RequestKind::Cancel)
    } else {
        &&& e.broker is None
        &&& new.in_flight_spec() == old.in_flight_spec()
    }
}

/// What a login intent does to the greeter.
pub open spec fn login_post(old: Greeter, new: Greeter, text: Seq<char>, e: Effects) -> bool {
    if old.accepts_login() {
        &&& new.phase_spec() is Authenticating
        &&& new.in_flight_spec() == Some(
            if old.phase_spec() is Idle {
                RequestKind::Create
            } else {
                RequestKind::Answer
            },
        )
        &&& new.pending_power_spec() is None
        &&& new.command_spec() == old.command_spec()
        &&& fields_kept(old, new, Set::empty())
        &&& e.broker is Some
        &&& kind_of(e.broker->Some_0) == new.in_flight_spec()->Some_0
        &&& request_text(e.broker->Some_0) == Some(text)
        &&& e.power is None && !e.schedule_clear && !e.hand_off
    } else {
        same_control(old, new) && fields_kept(old, new, Set::empty()) && no_effects(e)
    }
}

/// What one event does to the greeter.
pub open spec fn step_post(old: Greeter, new: Greeter, event: Event, e: Effects) -> bool {
    match event {
        Event::Login(text) => login_post(old, new, text@, e),
        Event::Reboot => power_post(old, new, PowerAction::Reboot, e),
        Event::PowerOff => power_post(old, new, PowerAction::PowerOff, e),
        Event::Tick(d, t) => {
            &&& new.updates_spec().date_view() == d@
            &&& new.updates_spec().time_view() == t@
            &&& fields_kept(old, new, set![Field::Date, Field::Time])
            &&& same_control(old, new)
            &&& no_effects(e)
        },
        Event::ClearErr => {
            &&& new.updates_spec().error_view() is None
            &&& fields_kept(old, new, set![Field::Error])
            &&& new.phase_spec() == (if old.phase_spec() is Error {
                Phase::Idle
            } else {
                old.phase_spec()
            })
            &&& new.in_flight_spec() == old.in_flight_spec()
            &&& new.pending_power_spec() == old.pending_power_spec()
            &&& new.command_spec() == old.command_spec()
            &&& no_effects(e)
        },
        Event::Response(resp) => response_post(old, new, resp, e),
        Event::MonitorsChanged(list) => {
            &&& exists|k: Option<int>|
                #[trigger] selection(names_of(list@), shown_name(old.updates_spec()), k)
                    && new.updates_spec().monitor_view() == picked(list@, k)
            &&& fields_kept(old, new, set![Field::Monitor])
            &&& same_control(old, new)
            &&& no_effects(e)
        },
    }
}

/// Broker calls never overlap: a request goes out only when none is
/// outstanding once the event is taken in, and it is then the outstanding one.
pub open spec fn serialized(old: Greeter, new: Greeter, event: Event, e: Effects) -> bool {
    &&& (e.broker is Some ==> (old.in_flight_spec() is None || event is Response))
    &&& (e.broker is Some ==> new.in_flight_spec() == Some(kind_of(e.broker->Some_0)))
    &&& (e.broker is None ==> new.in_flight_spec() == old.in_flight_spec() || (event is Response
        && new.in_flight_spec() is None))
}

impl Greeter {
    /// Shows `msg`, cancels the broker session and asks for the error to be
    /// cleared later.
    fn fail(&mut self, msg: String) -> (e: Effects)
        requires
            old(self).wf(),
            forall|f: Field| !old(self).updates_spec().dirty(f),
        ensures
            final(self).wf(),
            failed(*old(self), *final(self), e, msg@),
            flags_follow_values(*old(self), *final(self)),
            !final(self).updates_spec().dirty(Field::Input),
    {
        self.updates.set_error(Some(msg.clone()));
        self.phase = Phase::Error(msg);
        self.in_flight = Some(RequestKind::Cancel);
        Effects {
            broker: Some(BrokerRequest::CancelSession),
            power: None,
            schedule_clear: true,
            hand_off: false,
        }
    }

    /// Picks the monitor to present on from `available`, keeping the one
    /// shown now if it is still there.
    pub fn choose_monitor(&mut self, available: &Vec<MonitorHandle>, preferred: &Option<String>)
        ensures
            exists|k: Option<int>|
                #[trigger] selection(names_of(available@), name_view_of(*preferred), k)
                    && final(self).updates_spec().monitor_view() == picked(available@, k),
            fields_kept(*old(self), *final(self), set![Field::Monitor]),
            same_control(*old(self), *final(self)),
            final(self).updates_spec().dirty(Field::Monitor) == (old(self).updates_spec().dirty(
                Field::Monitor,
            ) || final(self).updates_spec().monitor_view() != old(self).updates_spec().monitor_view()),
            final(self).updates_spec().keeps_all_but(&old(self).updates_spec(), Field::Monitor),
    {
        let m = select_monitor(available, preferred);
        self.updates.set_monitor(m);
    }

    /// The name of the monitor shown now.
    fn shown_monitor_name(&self) -> (r: Option<String>)
        ensures
            name_view_of(r) == shown_name(self.updates_spec()),
    {
        match self.updates.monitor() {
            Some(m) => Some(m.name.clone()),
            None => None,
        }
    }

    fn on_response(&mut self, resp: BrokerResponse) -> (e: Effects)
        requires
            old(self).wf(),
            forall|f: Field| !old(self).updates_spec().dirty(f),
        ensures
            final(self).wf(),
            response_post(*old(self), *final(self), resp, e),
            flags_follow_values(*old(self), *final(self)),
            !final(self).updates_spec().dirty(Field::Input),
    {
        let none = Effects { broker: None, power: None, schedule_clear: false, hand_off: false };
        let k = match self.in_flight {
            None => {
                return none;
            },
            Some(k) => k,
        };
        self.in_flight = None;
        if let Some(p) = self.pending_power {
            if k == RequestKind::Cancel {
                self.pending_power = None;
                return Effects { broker: None, power: Some(p), schedule_clear: false, hand_off: false };
            } else {
                self.in_flight = Some(RequestKind::Cancel);
                return Effects {
                    broker: Some(BrokerRequest::CancelSession),
                    power: None,
                    schedule_clear: false,
                    hand_off: false,
                };
            }
        }
        match k {
            RequestKind::Cancel => none,
            RequestKind::Create | RequestKind::Answer => match resp {
                BrokerResponse::AuthPrompt(kind) => {
                    self.phase = Phase::AwaitingSecret(kind);
                    self.updates.set_error(None);
                    none
                },
                BrokerResponse::Success => {
                    self.phase = Phase::Authenticated;
                    self.in_flight = Some(RequestKind::Start);
                    let cmd = copy_strings(&self.command);
                    Effects {
                        broker: Some(BrokerRequest::StartSession(cmd)),
                        power: None,
                        schedule_clear: false,
                        hand_off: false,
                    }
                },
                BrokerResponse::Error(m) => self.fail(m),
                BrokerResponse::ConnectionLost => self.fail(connection_error()),
            },
            RequestKind::Start => match resp {
                BrokerResponse::Success => Effects {
                    broker: None,
                    power: None,
                    schedule_clear: false,
                    hand_off: true,
                },
                BrokerResponse::AuthPrompt(_) => self.fail(protocol_error()),
                BrokerResponse::Error(m) => self.fail(m),
                BrokerResponse::ConnectionLost => self.fail(connection_error()),
            },
        }
    }

    /// Processes one event: starts a new cycle of the displayed fields, moves
    /// to the next state and says what the caller has to do.
    pub fn step(&mut self, event: Event) -> (e: Effects)
        requires
            old(self).wf(),
        ensures
            final(self).wf(),
            step_post(*old(self), *final(self), event, e),
            serialized(*old(self), *final(self), event, e),
            flags_follow_values(*old(self), *final(self)),
            final(self).updates_spec().dirty(Field::Input) == (event matches Event::Login(t)
                && old(self).accepts_login() && t@.len() > 0),
    {
        self.updates.reset();
        let none = Effects { broker: None, power: None, schedule_clear: false, hand_off: false };
        match event {
            Event::Login(text) => {
                let is_idle = matches!(self.phase, Phase::Idle);
                let awaiting = matches!(self.phase, Phase::AwaitingSecret(_));
                if (is_idle || awaiting) && self.in_flight.is_none() && self.pending_power.is_none() {
                    // The entry's text is taken into the model and cleared at
                    // once, so the entry repaints empty.
                    self.updates.set_input(text.clone());
                    self.updates.set_input(String::new());
                    proof {
                        if text@.len() == 0 {
                            assert(text@ =~= Seq::<char>::empty());
                        }
                    }
                    self.phase = Phase::Authenticating;
                    let req = if is_idle {
                        self.in_flight = Some(RequestKind::Create);
                        BrokerRequest::CreateSession(text)
                    } else {
                        self.in_flight = Some(RequestKind::Answer);
                        BrokerRequest::AnswerPrompt(text)
                    };
                    Effects { broker: Some(req), power: None, schedule_clear: false, hand_off: false }
                } else {
                    none
                }
            },
            Event::Reboot => self.request_power(PowerAction::Reboot),
            Event::PowerOff => self.request_power(PowerAction::PowerOff),
            Event::Tick(d, t) => {
                self.updates.set_date(d);
                self.updates.set_time(t);
                none
            },
            Event::ClearErr => {
                self.updates.set_error(None);
                if matches!(self.phase, Phase::Error(_)) {
                    self.phase = Phase::Idle;
                }
                none
            },
            Event::Response(resp) => self.on_response(resp),
            Event::MonitorsChanged(list) => {
                let name = self.shown_monitor_name();
                self.choose_monitor(&list, &name);
                none
            },
        }
    }

    /// Records the power action and cancels the broker session first, at
    /// once if no call is outstanding, else when its response arrives.
    fn request_power(&mut self, p: PowerAction) -> (e: Effects)
        requires
            old(self).wf(),
            forall|f: Field| !old(self).updates_spec().dirty(f),
        ensures
            final(self).wf(),
            power_post(*old(self), *final(self), p, e),
            forall|f: Field| !final(self).updates_spec().dirty(f),
    {
        self.pending_power = Some(p);
        if self.in_flight.is_none() {
            self.in_flight = Some(RequestKind::Cancel);
            Effects {
                broker: Some(BrokerRequest::CancelSession),
                power: None,
                schedule_clear: false,
                hand_off: false,
            }
        } else {
            Effects { broker: None, power: None, schedule_clear: false, hand_off: false }
        }
    }
}

/// The answer to a cancel, whatever it says, leaves the phase, the error line
/// and every other displayed field as they were, and asks for nothing more;
/// this holds in `Idle`, where the broker may report that no session was open.
pub proof fn lemma_cancel_answer_is_harmless(old: Greeter, new: Greeter, resp: BrokerResponse, e: Effects)
    requires
        step_post(old, new, Event::Response(resp), e),
        old.in_flight_spec() == Some(RequestKind::Cancel),
        old.pending_power_spec() is None,
    ensures
        new.phase_spec() == old.phase_spec(),
        new.updates_spec().error_view() == old.updates_spec().error_view(),
        fields_kept(old, new, Set::empty()),
        new.in_flight_spec() is None,
        no_effects(e),
{
}

/// A reboot or power-off intent is taken up in every phase: it is recorded,
/// and the first call it leads to is a cancel of the broker session.
pub proof fn lemma_power_intent_cancels_first(old: Greeter, new: Greeter, event: Event, e: Effects)
    requires
        event is Reboot || event is PowerOff,
        step_post(old, new, event, e),
    ensures
        new.pending_power_spec() == Some(
            if event is Reboot {
                PowerAction::Reboot
            } else {
                PowerAction::PowerOff
            },
        ),
        new.phase_spec() == old.phase_spec(),
        e.power is None,
        old.in_flight_spec() is None ==> e.broker matches Some(BrokerRequest::CancelSession),
        old.in_flight_spec() is Some ==> e.broker is None,
{
}

/// A power action is requested only in the step that takes in the answer to
/// a cancel of the broker session, and only the one that was asked for.
pub proof fn lemma_power_only_after_cancel(old: Greeter, new: Greeter, event: Event, e: Effects)
    requires
        step_post(old, new, event, e),
        e.power is Some,
    ensures
        event is Response,
        old.in_flight_spec() == Some(RequestKind::Cancel),
        old.pending_power_spec() == e.power,
        new.pending_power_spec() is None,
{
}

/// While a broker call is outstanding, no event but its response lets
/// another call go out, and the outstanding call stays recorded.
pub proof fn lemma_calls_never_overlap(old: Greeter, new: Greeter, event: Event, e: Effects)
    requires
        serialized(old, new, event, e),
        old.in_flight_spec() is Some,
        !(event is Response),
    ensures
        e.broker is None,
        new.in_flight_spec() == old.in_flight_spec(),
{
}

} // verus!
