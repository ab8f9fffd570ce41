//! Services that can be switched on and off and report their state.

use vstd::prelude::*;

verus! {

/// A service that can be switched on and off and reports its state as text.
pub trait Service {
    /// Whether the service is on.
    spec fn active(&self) -> bool;

    /// The text that `status` gives for the state `active`.
    spec fn status_text(&self, active: bool) -> Seq<char>;

    fn activate(&mut self)
        ensures
            final(self).active(),
            forall|a: bool| final(self).status_text(a) == old(self).status_text(a),
    ;

    fn deactivate(&mut self)
        ensures
            !final(self).active(),
            forall|a: bool| final(self).status_text(a) == old(self).status_text(a),
    ;

    fn status(&self) -> (r: String)
        ensures
            r@ == self.status_text(self.active()),
    ;
}

/// A health check that is online or offline.
#[derive(Debug, Clone, Copy, PartialEq, Eq, Structural)]
pub struct HealthCheck {
    pub is_online: bool,
}

pub open spec fn health_status_text(online: bool) -> Seq<char> {
    if online {
        "HealthCheck is online"@
    } else {
        "HealthCheck is offline"@
    }
}

impl Service for HealthCheck {
    open spec fn active(&self) -> bool {
        self.is_online
    }

    open spec fn status_text(&self, active: bool) -> Seq<char> {
        health_status_text(active)
    }

    fn activate(&mut self) {
        self.is_online = true;
    }

    fn deactivate(&mut self) {
        self.is_online = false;
    }

    fn status(&self) -> (r: String) {
        if self.is_online {
            String::from_str("HealthCheck is online")
        } else {
            String::from_str("HealthCheck is offline")
        }
    }
}

/// Switches `service` on, reads its status, switches it off, reads it again; returns
/// the two readings.
pub fn sample<T: Service>(service: &mut T) -> (r: (String, String))
    ensures
        !final(service).active(),
        r.0@ == old(service).status_text(true),
        r.1@ == old(service).status_text(false),
{
    service.activate();
    let on = service.status();
    service.deactivate();
    let off = service.status();
    (on, off)
}

/// The two status readings of sampling a health check that starts online.
pub fn run() -> (r: (String, String))
    ensures
        r.0@ == health_status_text(true),
        r.1@ == health_status_text(false),
{
    let mut service = HealthCheck { is_online: true };
    sample(&mut service)
}

} // verus!
