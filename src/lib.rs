//! The core of a graphical login greeter: the session state machine that
//! drives a login-session broker, the tracker of displayed fields that tells
//! the presentation layer what to repaint, and the choice of the monitor to
//! present on.

use vstd::prelude::*;

pub mod greeter;
pub mod init;
pub mod monitor;
pub mod updates;

pub use greeter::{
    BrokerRequest, BrokerResponse, Effects, Event, Greeter, InputMode, Phase, PowerAction,
    PromptKind, RequestKind,
};
pub use init::GreeterInit;
pub use monitor::{select, select_monitor, MonitorHandle};
pub use updates::{Field, Updates};

verus! {

} // verus!
