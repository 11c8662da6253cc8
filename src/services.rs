use vstd::prelude::*;

use crate::error::DeviceError;
use crate::text::{owned, push_char, push_str};

verus! {

/// The service that serves instrumentation sessions (screenshots).
pub const INSTRUMENTS_SERVICE: &'static str = "com.apple.instruments.dtservicehub";

/// The port of the first entry named `name`, if any.
pub open spec fn service_port(entries: Seq<(Seq<char>, u16)>, name: Seq<char>) -> Option<u16>
    decreases entries.len(),
{
    if entries.len() == 0 {
        None
    } else if entries[0].0 == name {
        Some(entries[0].1)
    } else {
        service_port(entries.drop_first(), name)
    }
}

/// The name-to-port table that one service-discovery handshake produced;
/// read-only once built, and dropped with its tunnel.
pub struct ServiceTable {
    entries: Vec<(String, u16)>,
}

impl View for ServiceTable {
    type V = Seq<(Seq<char>, u16)>;

    closed spec fn view(&self) -> Seq<(Seq<char>, u16)> {
        self.entries@.map_values(|e: (String, u16)| (e.0@, e.1))
    }
}

impl ServiceTable {
    /// An empty table.
    pub fn new() -> (r: ServiceTable)
        ensures
            r@ == Seq::<(Seq<char>, u16)>::empty(),
    {
        let r = ServiceTable { entries: Vec::new() };
        assert(r@ =~= Seq::<(Seq<char>, u16)>::empty());
        r
    }

    /// Records that the handshake announced `name` on `port`.
    pub fn add(&mut self, name: String, port: u16)
        ensures
            final(self)@ == old(self)@.push((name@, port)),
    {
        self.entries.push((name, port));
        assert(self@ =~= old(self)@.push((name@, port)));
    }

    /// The port of the service `name`; an absent name is
    /// `ServiceNotFound`, naming the service.
    pub fn port_of(&self, name: &str) -> (r: Result<u16, DeviceError>)
        ensures
            match service_port(self@, name@) {
                Some(p) => r == Ok::<u16, DeviceError>(p),
                None => r matches Err(DeviceError::ServiceNotFound(n)) && n@ == name@,
            },
    {
        let wanted = owned(name);
        let mut i: usize = 0;
        assert(self@.skip(0) =~= self@);
        while i < self.entries.len()
            invariant
                i <= self.entries.len(),
                wanted@ == name@,
                service_port(self@, name@) == service_port(self@.skip(i as int), name@),
            decreases self.entries.len() - i,
        {
            assert(self@.skip(i as int).drop_first() =~= self@.skip(i + 1));
            if self.entries[i].0 == wanted {
                return Ok(self.entries[i].1);
            }
            i = i + 1;
        }
        Err(DeviceError::ServiceNotFound(wanted))
    }
}

/// The application to launch for a stdout session: `{bundle_id}.{team_id}`.
pub fn launch_target(bundle_id: &str, team_id: &str) -> (r: String)
    ensures
        r@ == bundle_id@ + seq!['.'] + team_id@,
{
    let mut r = owned(bundle_id);
    push_char(&mut r, '.');
    push_str(&mut r, team_id);
    r
}

} // verus!
