//! One managed workstation of the room.

use vstd::prelude::*;
use crate::address::Ipv4;
use crate::clock::Timestamp;

verus! {

/// A workstation of the roster.
#[derive(Debug)]
pub struct Client {
    /// Short host name, the stable identifier.
    pub name: String,
    /// The address the workstation is reached at and recognised by.
    pub ip_address: Ipv4,
    /// The layer that the last successful query reported; `None` while unknown.
    pub current_layer: Option<String>,
    /// When this address last asked for the countdown page.
    pub last_timer_access: Option<Timestamp>,
}

/// The mathematical model of a [`Client`].
pub struct ClientView {
    pub name: Seq<char>,
    pub ip_address: Ipv4,
    pub current_layer: Option<Seq<char>>,
    pub last_timer_access: Option<Timestamp>,
}

/// The text of an optional string.
pub open spec fn text_of(s: Option<String>) -> Option<Seq<char>> {
    match s {
        Some(s) => Some(s@),
        None => None,
    }
}

impl View for Client {
    type V = ClientView;

    open spec fn view(&self) -> ClientView {
        ClientView {
            name: self.name@,
            ip_address: self.ip_address,
            current_layer: text_of(self.current_layer),
            last_timer_access: self.last_timer_access,
        }
    }
}

impl DeepView for Client {
    type V = ClientView;

    open spec fn deep_view(&self) -> ClientView {
        self@
    }
}

impl Client {
    /// A workstation that has neither been queried nor seen at the countdown page.
    pub fn new(name: String, ip: Ipv4) -> (client: Client)
        ensures
            client@ == (ClientView {
                name: name@,
                ip_address: ip,
                current_layer: None,
                last_timer_access: None,
            }),
    {
        Client { name, ip_address: ip, current_layer: None, last_timer_access: None }
    }
}

} // verus!
