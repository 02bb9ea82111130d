use vstd::prelude::*;

verus! {

/// What the connection widget reports: the address typed changed, the reconnect button was
/// pressed, or a connection attempt finished.
#[derive(Debug, Clone)]
pub enum ConnectionInterfaceMessage {
    DesiredAddressChanged(String),
    Reconnect,
    Connected(bool),
}

/// The server address typed in, whether it parses as a socket address, and whether the last
/// connection attempt succeeded.
pub struct ConnectionInterface {
    pub entered_address: String,
    pub entered_address_valid: bool,
    pub connected: bool,
}

impl ConnectionInterface {
    /// Starts disconnected with `initial_address` typed in; `address_valid` says whether it
    /// parses as a socket address.
    pub fn new(initial_address: String, address_valid: bool) -> (c: Self)
        ensures
            c.entered_address == initial_address,
            c.entered_address_valid == address_valid,
            !c.connected,
    {
        Self { connected: false, entered_address: initial_address, entered_address_valid: address_valid }
    }

    /// Whether `next` and `connect_to` are the widget and the address to connect to after
    /// `update(message, address_valid)`.
    pub open spec fn update_rel(self, message: ConnectionInterfaceMessage, address_valid: bool, next: Self, connect_to: Option<String>) -> bool {
        match message {
            ConnectionInterfaceMessage::DesiredAddressChanged(desired_address) => {
                &&& connect_to is None
                &&& next == (ConnectionInterface {
                    entered_address: desired_address,
                    entered_address_valid: address_valid,
                    connected: false,
                })
            },
            ConnectionInterfaceMessage::Reconnect => {
                &&& next == self
                &&& connect_to == (if self.entered_address_valid {
                    Some(self.entered_address)
                } else {
                    None
                })
            },
            ConnectionInterfaceMessage::Connected(val) => {
                &&& connect_to is None
                &&& next == (ConnectionInterface { connected: val, ..self })
            },
        }
    }

    /// Handles a message; `address_valid` says whether the address a `DesiredAddressChanged`
    /// carries parses as a socket address. Returns the address to connect to when a reconnect is
    /// asked for with a valid address.
    pub fn update(&mut self, message: ConnectionInterfaceMessage, address_valid: bool) -> (connect_to: Option<String>)
        ensures
            old(self).update_rel(message, address_valid, *final(self), connect_to),
    {
        match message {
            ConnectionInterfaceMessage::DesiredAddressChanged(desired_address) => {
                self.entered_address_valid = address_valid;
                self.entered_address = desired_address;
                self.set_connected(false);
            },
            ConnectionInterfaceMessage::Reconnect => {
                if self.entered_address_valid {
                    return Some(self.entered_address.clone());
                }
            },
            ConnectionInterfaceMessage::Connected(val) => {
                self.set_connected(val);
            },
        }
        None
    }

    /// Records whether the last connection attempt succeeded.
    pub fn set_connected(&mut self, connected: bool)
        ensures
            *final(self) == (ConnectionInterface { connected: connected, ..*old(self) }),
    {
        self.connected = connected;
    }
}

} // verus!
