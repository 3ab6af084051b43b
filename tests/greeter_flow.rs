use regreet::{
    BrokerRequest, BrokerResponse, Effects, Event, Field, Greeter, InputMode, MonitorHandle,
    Phase, PowerAction, PromptKind, RequestKind,
};

fn command() -> Vec<String> {
    vec!["sway".to_string(), "--unsupported-gpu".to_string()]
}

/// A greeter whose startup cancel has been answered.
fn ready() -> Greeter {
    let (mut g, e) = Greeter::new(command());
    assert_eq!(e.broker, Some(BrokerRequest::CancelSession));
    let e = g.step(Event::Response(BrokerResponse::Success));
    assert_eq!(e, quiet());
    g
}

fn quiet() -> Effects {
    Effects { broker: None, power: None, schedule_clear: false, hand_off: false }
}

/// A broker test double that fails on overlapping calls.
struct StrictBroker {
    outstanding: Option<BrokerRequest>,
    calls: Vec<BrokerRequest>,
}

impl StrictBroker {
    fn new() -> Self {
        StrictBroker { outstanding: None, calls: Vec::new() }
    }

    fn take(&mut self, e: &Effects) {
        if let Some(r) = &e.broker {
            assert!(self.outstanding.is_none(), "overlapping broker call: {:?}", r);
            self.outstanding = Some(r.clone());
            self.calls.push(r.clone());
        }
    }

    fn answer(&mut self, g: &mut Greeter, resp: BrokerResponse) -> Effects {
        assert!(self.outstanding.take().is_some(), "answer without a call");
        let e = g.step(Event::Response(resp));
        self.take(&e);
        e
    }
}

#[test]
fn startup_cancel_is_issued_from_idle() {
    let (g, e) = Greeter::new(command());
    assert!(matches!(g.phase(), Phase::Idle));
    assert_eq!(g.in_flight(), Some(RequestKind::Cancel));
    assert_eq!(e, Effects { broker: Some(BrokerRequest::CancelSession), ..quiet() });
    assert_eq!(g.input_mode(), InputMode::Username);
}

#[test]
fn cancel_from_idle_with_no_session_does_not_error() {
    let (mut g, _) = Greeter::new(command());
    let e = g.step(Event::Response(BrokerResponse::Error("no active session".to_string())));
    assert_eq!(e, quiet());
    assert!(matches!(g.phase(), Phase::Idle));
    assert_eq!(g.updates().error(), &None);
    assert!(!g.updates().changed(Field::Error));
    assert_eq!(g.in_flight(), None);
    let e = g.step(Event::Login("alice".to_string()));
    assert_eq!(e.broker, Some(BrokerRequest::CreateSession("alice".to_string())));
}

#[test]
fn cancel_connection_loss_does_not_error() {
    let (mut g, _) = Greeter::new(command());
    let e = g.step(Event::Response(BrokerResponse::ConnectionLost));
    assert_eq!(e, quiet());
    assert!(matches!(g.phase(), Phase::Idle));
    assert_eq!(g.updates().error(), &None);
}

#[test]
fn login_flow_round_trip() {
    let mut g = ready();
    let e = g.step(Event::Login("alice".to_string()));
    assert_eq!(e, Effects { broker: Some(BrokerRequest::CreateSession("alice".to_string())), ..quiet() });
    assert!(matches!(g.phase(), Phase::Authenticating));
    assert_eq!(g.updates().input(), "");
    assert!(g.updates().changed(Field::Input));

    let e = g.step(Event::Response(BrokerResponse::AuthPrompt(PromptKind::Secret)));
    assert_eq!(e, quiet());
    assert!(matches!(g.phase(), Phase::AwaitingSecret(PromptKind::Secret)));
    assert_eq!(g.input_mode(), InputMode::Secret);
    assert!(!g.updates().changed(Field::Input));
    assert_eq!(g.updates().input(), "");

    let e = g.step(Event::Login("hunter2".to_string()));
    assert_eq!(e.broker, Some(BrokerRequest::AnswerPrompt("hunter2".to_string())));
    assert_eq!(g.updates().input(), "");

    let e = g.step(Event::Response(BrokerResponse::Success));
    assert!(matches!(g.phase(), Phase::Authenticated));
    assert_eq!(e, Effects { broker: Some(BrokerRequest::StartSession(command())), ..quiet() });

    let e = g.step(Event::Response(BrokerResponse::Success));
    assert_eq!(e, Effects { hand_off: true, ..quiet() });
}

#[test]
fn start_session_is_requested_exactly_once() {
    let mut g = ready();
    let mut broker = StrictBroker::new();
    let e = g.step(Event::Login("alice".to_string()));
    broker.take(&e);
    broker.answer(&mut g, BrokerResponse::AuthPrompt(PromptKind::Secret));
    let e = g.step(Event::Login("hunter2".to_string()));
    broker.take(&e);
    broker.answer(&mut g, BrokerResponse::Success);
    let e = broker.answer(&mut g, BrokerResponse::Success);
    assert!(e.hand_off);
    let starts = broker
        .calls
        .iter()
        .filter(|c| matches!(c, BrokerRequest::StartSession(_)))
        .count();
    assert_eq!(starts, 1);
}

#[test]
fn error_round_trip() {
    let mut g = ready();
    g.step(Event::Login("alice".to_string()));
    g.step(Event::Response(BrokerResponse::AuthPrompt(PromptKind::Secret)));
    g.step(Event::Login("wrong".to_string()));
    assert_eq!(g.updates().input(), "");
    let e = g.step(Event::Response(BrokerResponse::Error("auth failed".to_string())));
    assert_eq!(g.updates().error(), &Some("auth failed".to_string()));
    assert!(g.updates().changed(Field::Error));
    assert_eq!(g.phase(), &Phase::Error("auth failed".to_string()));
    assert_eq!(g.updates().input(), "");
    assert_eq!(
        e,
        Effects { broker: Some(BrokerRequest::CancelSession), schedule_clear: true, ..quiet() }
    );
    let e = g.step(Event::Response(BrokerResponse::Success));
    assert_eq!(e, quiet());
    assert!(matches!(g.phase(), Phase::Error(_)));
    let e = g.step(Event::ClearErr);
    assert_eq!(e, quiet());
    assert!(matches!(g.phase(), Phase::Idle));
    assert_eq!(g.updates().error(), &None);
    assert!(g.updates().changed(Field::Error));
    assert_eq!(g.updates().input(), "");
}

#[test]
fn connection_loss_shows_generic_error() {
    let mut g = ready();
    g.step(Event::Login("alice".to_string()));
    let e = g.step(Event::Response(BrokerResponse::ConnectionLost));
    assert_eq!(
        g.updates().error(),
        &Some("Couldn't reach the login service".to_string())
    );
    assert!(e.schedule_clear);
    assert_eq!(e.broker, Some(BrokerRequest::CancelSession));
}

#[test]
fn failed_session_start_cancels() {
    let mut g = ready();
    g.step(Event::Login("alice".to_string()));
    g.step(Event::Response(BrokerResponse::Success));
    let e = g.step(Event::Response(BrokerResponse::Error("no such command".to_string())));
    assert_eq!(g.phase(), &Phase::Error("no such command".to_string()));
    assert_eq!(e.broker, Some(BrokerRequest::CancelSession));
    assert!(e.schedule_clear);
    assert!(!e.hand_off);
}

#[test]
fn prompt_after_session_start_is_a_protocol_error() {
    let mut g = ready();
    g.step(Event::Login("alice".to_string()));
    g.step(Event::Response(BrokerResponse::Success));
    let e = g.step(Event::Response(BrokerResponse::AuthPrompt(PromptKind::Visible)));
    assert_eq!(
        g.updates().error(),
        &Some("Unexpected answer from the login service".to_string())
    );
    assert_eq!(e.broker, Some(BrokerRequest::CancelSession));
}

#[test]
fn visible_prompt_asks_for_username() {
    let mut g = ready();
    g.step(Event::Login("alice".to_string()));
    g.step(Event::Response(BrokerResponse::AuthPrompt(PromptKind::Visible)));
    assert_eq!(g.input_mode(), InputMode::Username);
}

#[test]
fn login_while_authenticating_is_ignored() {
    let mut g = ready();
    g.step(Event::Login("alice".to_string()));
    assert_eq!(g.input_mode(), InputMode::NoInput);
    let e = g.step(Event::Login("again".to_string()));
    assert_eq!(e, quiet());
    assert!(matches!(g.phase(), Phase::Authenticating));
    assert!(!g.updates().changed(Field::Input));
}

#[test]
fn login_in_error_phase_is_ignored() {
    let mut g = ready();
    g.step(Event::Login("alice".to_string()));
    g.step(Event::Response(BrokerResponse::Error("auth failed".to_string())));
    g.step(Event::Response(BrokerResponse::Success));
    let e = g.step(Event::Login("bob".to_string()));
    assert_eq!(e, quiet());
}

#[test]
fn empty_login_does_not_flag_the_entry() {
    let mut g = ready();
    let e = g.step(Event::Login(String::new()));
    assert_eq!(e.broker, Some(BrokerRequest::CreateSession(String::new())));
    assert!(!g.updates().changed(Field::Input));
}

fn power_in_phase(setup: &[Event], event: Event, action: PowerAction) {
    let mut g = ready();
    let mut broker = StrictBroker::new();
    for ev in setup {
        let e = g.step(ev.clone());
        broker.take(&e);
    }
    let e = g.step(event);
    broker.take(&e);
    assert_eq!(g.pending_power(), Some(action));
    assert_eq!(e.power, None);
    // Answer whatever is outstanding until the power action comes out.
    let mut saw_cancel = broker.outstanding == Some(BrokerRequest::CancelSession);
    let mut power = None;
    for _ in 0..3 {
        if broker.outstanding.is_none() {
            break;
        }
        let was_cancel = broker.outstanding == Some(BrokerRequest::CancelSession);
        let e = broker.answer(&mut g, BrokerResponse::Success);
        if e.broker == Some(BrokerRequest::CancelSession) {
            saw_cancel = true;
        }
        if e.power.is_some() {
            assert!(was_cancel);
            power = e.power;
        }
    }
    assert!(saw_cancel);
    assert_eq!(power, Some(action));
    assert_eq!(g.pending_power(), None);
}

#[test]
fn reboot_accepted_when_idle() {
    power_in_phase(&[], Event::Reboot, PowerAction::Reboot);
}

#[test]
fn poweroff_accepted_when_awaiting_secret() {
    let mut g = ready();
    g.step(Event::Login("alice".to_string()));
    g.step(Event::Response(BrokerResponse::AuthPrompt(PromptKind::Secret)));
    let e = g.step(Event::PowerOff);
    assert_eq!(e.broker, Some(BrokerRequest::CancelSession));
    let e = g.step(Event::Response(BrokerResponse::Success));
    assert_eq!(e, Effects { power: Some(PowerAction::PowerOff), ..quiet() });
}

#[test]
fn reboot_accepted_when_authenticating() {
    power_in_phase(&[Event::Login("alice".to_string())], Event::Reboot, PowerAction::Reboot);
}

#[test]
fn poweroff_accepted_in_error_phase() {
    let mut g = ready();
    g.step(Event::Login("alice".to_string()));
    g.step(Event::Response(BrokerResponse::Error("auth failed".to_string())));
    g.step(Event::Response(BrokerResponse::Success));
    assert!(matches!(g.phase(), Phase::Error(_)));
    let e = g.step(Event::PowerOff);
    assert_eq!(e.broker, Some(BrokerRequest::CancelSession));
    let e = g.step(Event::Response(BrokerResponse::Error("no session".to_string())));
    assert_eq!(e.power, Some(PowerAction::PowerOff));
}

#[test]
fn reboot_while_call_outstanding_waits_for_answer() {
    let mut g = ready();
    g.step(Event::Login("alice".to_string()));
    let e = g.step(Event::Reboot);
    assert_eq!(e, quiet());
    let e = g.step(Event::Response(BrokerResponse::AuthPrompt(PromptKind::Secret)));
    assert_eq!(e, Effects { broker: Some(BrokerRequest::CancelSession), ..quiet() });
    let e = g.step(Event::Response(BrokerResponse::Success));
    assert_eq!(e, Effects { power: Some(PowerAction::Reboot), ..quiet() });
}

#[test]
fn no_overlapping_broker_calls() {
    let mut g = ready();
    let mut broker = StrictBroker::new();
    let events = vec![
        Event::Login("alice".to_string()),
        Event::Login("again".to_string()),
        Event::Tick("May 1".to_string(), "12:00".to_string()),
        Event::Reboot,
        Event::PowerOff,
        Event::ClearErr,
    ];
    for ev in events {
        let e = g.step(ev);
        broker.take(&e);
    }
    assert_eq!(broker.calls.len(), 1);
    broker.answer(&mut g, BrokerResponse::AuthPrompt(PromptKind::Secret));
    broker.answer(&mut g, BrokerResponse::Success);
    assert_eq!(
        broker.calls,
        vec![BrokerRequest::CreateSession("alice".to_string()), BrokerRequest::CancelSession]
    );
}

#[test]
fn unexpected_response_is_ignored() {
    let mut g = ready();
    let e = g.step(Event::Response(BrokerResponse::Success));
    assert_eq!(e, quiet());
    assert!(matches!(g.phase(), Phase::Idle));
}

#[test]
fn tick_updates_date_and_time() {
    let mut g = ready();
    let e = g.step(Event::Tick("May 1, Friday".to_string(), "12:00".to_string()));
    assert_eq!(e, quiet());
    assert_eq!(g.updates().date(), "May 1, Friday");
    assert_eq!(g.updates().time(), "12:00");
    assert!(g.updates().changed(Field::Date));
    assert!(g.updates().changed(Field::Time));
    g.step(Event::Tick("May 1, Friday".to_string(), "12:01".to_string()));
    assert!(!g.updates().changed(Field::Date));
    assert!(g.updates().changed(Field::Time));
}

#[test]
fn monitor_removed_reselects() {
    let mut g = ready();
    let a = MonitorHandle::new("A".to_string(), 0, 0, 800, 600);
    let b = MonitorHandle::new("B".to_string(), 800, 0, 800, 600);
    g.choose_monitor(&vec![a.clone(), b.clone()], &Some("B".to_string()));
    assert_eq!(g.updates().monitor(), &Some(b.clone()));
    g.step(Event::MonitorsChanged(vec![a.clone(), b.clone()]));
    assert_eq!(g.updates().monitor(), &Some(b.clone()));
    assert!(!g.updates().changed(Field::Monitor));
    g.step(Event::MonitorsChanged(vec![a.clone()]));
    assert_eq!(g.updates().monitor(), &Some(a.clone()));
    assert!(g.updates().changed(Field::Monitor));
    g.step(Event::MonitorsChanged(Vec::new()));
    assert_eq!(g.updates().monitor(), &None);
    assert!(g.updates().changed(Field::Monitor));
}
