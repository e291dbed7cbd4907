//! The loop of a server that one client reaches through a socket.
use vstd::prelude::*;

verus! {

/// Whether a client is connected, and whether the loop goes on.
#[derive(Clone, Copy, Debug, PartialEq, Eq, Structural)]
pub struct SocketServerState {
    pub connected: bool,
    pub running: bool,
    /// How often the browser engine was called.
    pub pump_count: u64,
}

/// What looking for a new client has found.
#[derive(Clone, Copy, Debug, PartialEq, Eq, Structural)]
pub enum Accepted {
    Connected,
    /// A client came, and its connection could not be set up.
    SetupFailed,
    /// No client waits.
    NobodyWaits,
    Failed,
}

/// What the client's connection holds.
#[derive(Clone, Copy, Debug, PartialEq, Eq, Structural)]
pub enum Polled {
    /// A command, which was carried out: whether it ends the server, and whether its answer could
    /// be sent.
    Command { shutdown: bool, sent: bool },
    Nothing,
    Lost,
}

impl SocketServerState {
    /// The state once it is known what looking for a new client has found.
    pub open spec fn after_accepting(self, accepted: Accepted) -> SocketServerState {
        SocketServerState { connected: self.connected || accepted is Connected, ..self }
    }

    /// The state once it is known what the client's connection held, and whether to look again.
    pub open spec fn after_polling(self, polled: Polled) -> (SocketServerState, bool) {
        match polled {
            Polled::Command { shutdown, sent } => if !sent {
                (SocketServerState { connected: false, ..self }, false)
            } else if shutdown {
                (SocketServerState { running: false, ..self }, false)
            } else {
                (self, true)
            },
            Polled::Nothing => (self, false),
            Polled::Lost => (SocketServerState { connected: false, running: false, ..self }, false),
        }
    }

    /// A server that waits for its client.
    pub fn new() -> (state: SocketServerState)
        ensures
            !state.connected,
            state.running,
            state.pump_count == 0,
    {
        SocketServerState { connected: false, running: true, pump_count: 0 }
    }

    /// Takes note that the engine was called.
    pub fn pumped(&mut self)
        requires
            old(self).pump_count < u64::MAX,
        ensures
            *final(self) == (SocketServerState {
                pump_count: (old(self).pump_count + 1) as u64,
                ..*old(self)
            }),
    {
        self.pump_count = self.pump_count + 1;
    }

    /// Whether a new client is looked for: there is room for one only.
    pub fn wants_client(&self) -> (wanted: bool)
        ensures
            wanted == !self.connected,
    {
        !self.connected
    }

    /// Takes note of what looking for a new client has found.
    pub fn accepted(&mut self, accepted: Accepted)
        ensures
            *final(self) == old(self).after_accepting(accepted),
    {
        match accepted {
            Accepted::Connected => {
                self.connected = true;
            },
            _ => {},
        }
    }

    /// Takes note of what the client's connection held, and says whether to look again. A client
    /// that cannot be answered is given up, and another one may come. A client that is lost ends
    /// the server, and so does the command to that effect once it is answered.
    pub fn polled(&mut self, polled: Polled) -> (again: bool)
        ensures
            (*final(self), again) == old(self).after_polling(polled),
    {
        match polled {
            Polled::Command { shutdown, sent } => {
                if !sent {
                    self.connected = false;
                    return false;
                }
                if shutdown {
                    self.running = false;
                    return false;
                }
                true
            },
            Polled::Nothing => false,
            Polled::Lost => {
                self.connected = false;
                self.running = false;
                false
            },
        }
    }
}

/// A client is connected once one was found and set up; nothing else that looking for one finds changes
/// anything.
pub proof fn law_only_a_client_that_was_set_up_is_connected(
    state: SocketServerState,
    accepted: Accepted,
)
    ensures
        state.after_accepting(Accepted::Connected).connected,
        state.after_accepting(Accepted::Connected).running == state.running,
        state.after_accepting(Accepted::Connected).pump_count == state.pump_count,
        accepted != Accepted::Connected ==> state.after_accepting(accepted) == state,
{
}

/// The connection is looked at again just after a command that was answered and does not end the server. A
/// client that cannot be answered is given up while the server runs on, even where the command was to end it;
/// the answered command to end it does end it; and a client that is lost ends it too.
pub proof fn law_server_ends_with_its_client(state: SocketServerState, shutdown: bool)
    ensures
        state.after_polling(Polled::Command { shutdown: false, sent: true }) == (state, true),
        ({
            let (after, again) = state.after_polling(Polled::Command { shutdown, sent: false });
            !again && !after.connected && after.running == state.running && after.pump_count
                == state.pump_count
        }),
        ({
            let (after, again) = state.after_polling(Polled::Command { shutdown: true, sent: true });
            !again && !after.running && after.connected == state.connected && after.pump_count
                == state.pump_count
        }),
        ({
            let (after, again) = state.after_polling(Polled::Lost);
            !again && !after.running && !after.connected && after.pump_count == state.pump_count
        }),
        state.after_polling(Polled::Nothing) == (state, false),
{
}

} // verus!
