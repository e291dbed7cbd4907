//! The client of a server that is reached through a socket.
use crate::client;
use crate::ipc;
use crate::ipc::ShmReader;
use vstd::prelude::*;

verus! {

/// How often the client tries to connect, and how long it waits after a failed try, in
/// milliseconds.
pub const CONNECT_ATTEMPTS: u32 = 100;

/// See `CONNECT_ATTEMPTS`.
pub const CONNECT_RETRY_MILLISECONDS: u64 = 50;

/// What is to be done after trying to connect.
#[derive(Clone, Copy, Debug, PartialEq, Eq, Structural)]
pub enum ConnectStep {
    Connected,
    /// Wait a while, and try again.
    TryAgain { attempt: u32 },
    GiveUp { code: i32 },
}

/// What is to be done after a try, counted from zero.
pub open spec fn step_after(attempt: u32, connected: bool) -> ConnectStep {
    if connected {
        ConnectStep::Connected
    } else if attempt + 1 < CONNECT_ATTEMPTS {
        ConnectStep::TryAgain { attempt: (attempt + 1) as u32 }
    } else {
        ConnectStep::GiveUp { code: client::SERVER_NOT_CONNECTED }
    }
}

/// Decides what is to be done after a try, counted from zero.
pub fn connect_step(attempt: u32, connected: bool) -> (step: ConnectStep)
    ensures
        step == step_after(attempt, connected),
{
    if connected {
        return ConnectStep::Connected;
    }
    if attempt < CONNECT_ATTEMPTS - 1 {
        ConnectStep::TryAgain { attempt: attempt + 1 }
    } else {
        ConnectStep::GiveUp { code: client::SERVER_NOT_CONNECTED }
    }
}

/// A browser on the client's side, with a copy of its newest frame.
pub struct ClientBrowserInstance {
    pub browser_id: u32,
    pub shm: ShmReader,
    pub front: Vec<u8>,
    pub front_width: u32,
    pub front_height: u32,
}

impl ClientBrowserInstance {
    /// A browser that was created under the given name.
    pub fn open(browser_id: u32, shm_name: &str) -> (instance: ClientBrowserInstance)
        ensures
            instance.browser_id == browser_id,
            instance.shm.name@ == shm_name@,
            instance.shm.last_frame_id == 0,
            instance.front@ == Seq::<u8>::empty(),
            instance.front_width == 0,
            instance.front_height == 0,
    {
        ClientBrowserInstance {
            browser_id,
            shm: ShmReader::open(shm_name),
            front: Vec::new(),
            front_width: 0,
            front_height: 0,
        }
    }

    /// Copies the newest frame, if it is newer than the copy, and says whether it was. The copy
    /// stays otherwise.
    pub fn get_buffer(&mut self, memory: &[u8]) -> (new: bool)
        requires
            ipc::mapped(memory@),
        ensures
            final(self).browser_id == old(self).browser_id,
            final(self).shm.name == old(self).shm.name,
            final(self).shm.last_frame_id == ipc::header_of(memory@).frame_id,
            match ipc::frame_for(memory@, old(self).shm.last_frame_id) {
                None => {
                    &&& !new
                    &&& final(self).front@ == old(self).front@
                    &&& final(self).front_width == old(self).front_width
                    &&& final(self).front_height == old(self).front_height
                },
                Some((width, height, pixels)) => {
                    &&& new
                    &&& final(self).front@ == pixels
                    &&& final(self).front_width == width
                    &&& final(self).front_height == height
                },
            },
    {
        match self.shm.read_frame(memory, &mut self.front) {
            Some((width, height)) => {
                self.front_width = width;
                self.front_height = height;
                true
            },
            None => false,
        }
    }
}

/// The client tries a hundred times, one after the other, and gives up after the last one. A try that
/// succeeds is the last, whichever it is.
pub proof fn law_client_tries_a_hundred_times(attempt: u32)
    ensures
        step_after(attempt, true) == ConnectStep::Connected,
        attempt < 99 ==> (step_after(attempt, false) matches ConnectStep::TryAgain { attempt: next }
            && next == attempt + 1),
        attempt >= 99 ==> step_after(attempt, false) == (ConnectStep::GiveUp { code: -5i32 }),
{
}

} // verus!
