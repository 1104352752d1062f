//! The observable state of the Wi-Fi link, shared with the status reporter.

use vstd::prelude::*;
use vstd::rwlock::{RwLock, RwLockPredicate};

verus! {

/// Observable state of the Wi-Fi link.
///
/// The supervisor is the sole writer: the MAC address and the network name
/// are recorded once at initialization and never change afterwards, and the
/// IPv4 address is set only together with a successful address acquisition.
/// Readers take a whole snapshot at a time, never individual fields of a
/// half-applied update.
pub struct WifiState {
    /// Hardware MAC address of the station interface, recorded once.
    pub mac_address: [u8; 6],
    /// Network name, copied from the configuration.
    pub ssid: String,
    /// Current IPv4 address; absent until an address has been acquired.
    pub ip_addr: Option<[u8; 4]>,
}

impl WifiState {
    /// A fresh record: MAC and name fixed, no address yet.
    pub fn new(mac_address: [u8; 6], ssid: String) -> (s: WifiState)
        ensures
            s.mac_address == mac_address,
            s.ssid == ssid,
            s.ip_addr is None,
    {
        WifiState { mac_address, ssid, ip_addr: None }
    }

    /// The current IPv4 address, if one has been published.
    pub fn ip_addr(&self) -> (r: Option<[u8; 4]>)
        ensures
            r == self.ip_addr,
    {
        self.ip_addr
    }

    /// A full copy of the record, taken in one step: a reader that works on
    /// the copy can never observe fields from two different updates.
    pub fn snapshot(&self) -> (s: WifiState)
        ensures
            s == *self,
    {
        WifiState {
            mac_address: self.mac_address,
            ssid: self.ssid.clone(),
            ip_addr: self.ip_addr,
        }
    }
}

/// Identity of the link, fixed when the shared record is created: every
/// snapshot stored afterwards must carry the same MAC address and the same
/// network name.
pub struct LinkIdentity {
    pub mac_address: [u8; 6],
    pub ssid: Seq<char>,
}

impl RwLockPredicate<WifiState> for LinkIdentity {
    open spec fn inv(self, v: WifiState) -> bool {
        v.mac_address == self.mac_address && v.ssid@ == self.ssid
    }
}

/// The shared link record: written only by the supervisor, read by any
/// number of status requests. An update replaces the stored record whole
/// under the write lock, and a reader copies the record whole under a read
/// lock, so no reader can observe fields of two different updates; neither
/// side holds the lock across a suspension point.
pub struct SharedLinkState {
    lock: RwLock<WifiState, LinkIdentity>,
}

impl SharedLinkState {
    /// The fixed identity that every stored snapshot carries.
    pub closed spec fn identity(&self) -> LinkIdentity {
        self.lock.pred()
    }

    /// Creates the shared record, fixing the identity to the MAC address and
    /// network name of the initial state.
    pub fn new(state: WifiState) -> (s: SharedLinkState)
        ensures
            s.identity().mac_address == state.mac_address,
            s.identity().ssid == state.ssid@,
    {
        let ghost identity = LinkIdentity { mac_address: state.mac_address, ssid: state.ssid@ };
        SharedLinkState { lock: RwLock::new(state, Ghost(identity)) }
    }

    /// Copies one whole, consistent snapshot out of the record.
    pub fn get_snapshot(&self) -> (s: WifiState)
        ensures
            s.mac_address == self.identity().mac_address,
            s.ssid@ == self.identity().ssid,
    {
        let handle = self.lock.acquire_read();
        let s = handle.borrow().snapshot();
        handle.release_read();
        s
    }

    /// Replaces the record with a new snapshot of the same link.
    pub fn set_snapshot(&self, state: WifiState)
        requires
            state.mac_address == self.identity().mac_address,
            state.ssid@ == self.identity().ssid,
    {
        let (_, handle) = self.lock.acquire_write();
        handle.release_write(state);
    }
}

} // verus!
