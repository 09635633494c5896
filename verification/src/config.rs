//! The settings of a session and the names of services.

use core::time::Duration;
use vstd::prelude::*;

verus! {

/// Identifier of a service known to the daemon: thirty-two bytes, fixed when
/// the operator's input is parsed.
#[derive(Clone, Copy, Debug, PartialEq, Eq)]
pub struct ServiceId {
    pub bytes: [u8; 32],
}

/// What a lookup returns for a service: the handle to attach a data channel
/// to, and the two flags the daemon reports with it.
#[derive(Clone, Copy, Debug, PartialEq, Eq)]
pub struct ServiceDescriptor {
    /// The service that was found.
    pub id: ServiceId,
    /// Whether this daemon is the origin of the service.
    pub origin: bool,
    /// Whether the lookup brought newer information than the daemon had.
    pub updated: bool,
}

/// What a session does once its service is located.
#[derive(Clone, Copy, Debug, PartialEq, Eq)]
pub enum Role {
    /// Receives the service's data.
    Subscriber,
    /// Samples and publishes once per `period`.
    Publisher { period: Duration },
}

/// The settings of one session; they do not change while it runs.
#[derive(Debug, PartialEq, Eq)]
pub struct SessionConfig {
    pub service_id: ServiceId,
    pub daemon_address: String,
    pub connect_timeout: Duration,
    pub role: Role,
}

/// Mathematical value of a [`SessionConfig`].
pub struct ConfigView {
    pub service_id: ServiceId,
    pub daemon_address: Seq<char>,
    pub connect_timeout: Duration,
    pub role: Role,
}

impl View for SessionConfig {
    type V = ConfigView;

    open spec fn view(&self) -> ConfigView {
        ConfigView {
            service_id: self.service_id,
            daemon_address: self.daemon_address@,
            connect_timeout: self.connect_timeout,
            role: self.role,
        }
    }
}

impl SessionConfig {
    /// Settings of a subscriber session.
    pub fn subscriber(
        service_id: ServiceId,
        daemon_address: String,
        connect_timeout: Duration,
    ) -> (c: SessionConfig)
        ensures
            c@ == (ConfigView {
                service_id,
                daemon_address: daemon_address@,
                connect_timeout,
                role: Role::Subscriber,
            }),
    {
        SessionConfig { service_id, daemon_address, connect_timeout, role: Role::Subscriber }
    }

    /// Settings of a publisher session that samples once per `period`.
    pub fn publisher(
        service_id: ServiceId,
        daemon_address: String,
        connect_timeout: Duration,
        period: Duration,
    ) -> (c: SessionConfig)
        ensures
            c@ == (ConfigView {
                service_id,
                daemon_address: daemon_address@,
                connect_timeout,
                role: Role::Publisher { period },
            }),
    {
        SessionConfig {
            service_id,
            daemon_address,
            connect_timeout,
            role: Role::Publisher { period },
        }
    }
}

} // verus!
