//! A no-op device satisfying the device contract, for exercising the
//! dispatcher without hardware.

use vstd::prelude::*;

use crate::device::Command;

verus! {

/// A device that accepts every operation and does nothing: an id, a human
/// name, and a connected flag.
#[derive(Clone, Debug)]
pub struct Dummy {
    pub id: String,
    pub name: String,
    pub connected: bool,
}

impl Dummy {
    /// Accepts a command and does nothing.
    pub fn send_command(&self, _command: &Command) {
    }

    /// Marks the device connected.
    pub fn connect(&mut self)
        ensures
            final(self).connected,
            final(self).id == old(self).id,
            final(self).name == old(self).name,
    {
        self.connected = true;
    }

    /// Marks the device disconnected.
    pub fn disconnect(&mut self)
        ensures
            !final(self).connected,
            final(self).id == old(self).id,
            final(self).name == old(self).name,
    {
        self.connected = false;
    }

    /// Disconnects, then connects: always ends connected.
    pub fn reconnect(&mut self)
        ensures
            final(self).connected,
            final(self).id == old(self).id,
            final(self).name == old(self).name,
    {
        self.disconnect();
        self.connect();
    }

    /// Whether the device is marked connected.
    pub fn is_connected(&self) -> (r: bool)
        ensures
            r == self.connected,
    {
        self.connected
    }

    /// The human name.
    pub fn name(&self) -> (r: String)
        ensures
            r@ == self.name@,
    {
        self.name.clone()
    }

    /// The stable id.
    pub fn id(&self) -> (r: String)
        ensures
            r@ == self.id@,
    {
        self.id.clone()
    }
}

/// Relies on uuid::Uuid::new_v4 and its hyphenated display form: a fresh
/// random identifier always prints as 36 characters.
#[verifier::external_body]
fn fresh_uuid_string() -> (r: String)
    ensures
        r@.len() == 36,
{
    uuid::Uuid::new_v4().to_string()
}

/// A dummy with a freshly drawn random id and an empty name, disconnected.
pub fn create() -> (r: Dummy)
    ensures
        r.id@.len() == 36,
        r.name@.len() == 0,
        !r.connected,
{
    Dummy { id: fresh_uuid_string(), name: String::new(), connected: false }
}

/// A dummy with the given id and name, disconnected.
pub fn create_with_id_and_name(id: &str, name: &str) -> (r: Dummy)
    ensures
        r.id@ == id@,
        r.name@ == name@,
        !r.connected,
{
    Dummy { id: id.to_owned(), name: name.to_owned(), connected: false }
}

} // verus!
