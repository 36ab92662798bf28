//! Decision logic of the BLE service scan: which discovered device to
//! connect to, and what to do once a connection reports back.
//!
//! The radio itself lives outside the library; it feeds discovery events
//! in and performs the connect/disconnect actions decided here.  The scan
//! connects to the first device whose advertised local name equals the
//! configured target name, then keeps the device only if service discovery
//! shows the requested service; otherwise it disconnects and resumes
//! scanning.

use vstd::prelude::*;

verus! {

/// What to do with a device whose connection just completed.
#[derive(Debug, Clone, Copy, PartialEq, Eq, Structural)]
pub enum ConnectedAction {
    /// Service discovery showed the requested service: use this device.
    UseDevice,
    /// The device lacks the requested service: disconnect and resume
    /// scanning.
    DisconnectAndResume,
}

/// State of one scan for a peripheral offering a target service.
#[derive(Debug)]
pub struct ServiceScan {
    /// Advertised local name the scan connects to (the name filter
    /// policy).
    pub target_name: Vec<u8>,
    /// Whether a connection attempt has succeeded and the scan is waiting
    /// for the connected-device event.
    pub connecting: bool,
}

/// Byte-for-byte equality of two byte strings.
pub fn bytes_equal(a: &[u8], b: &[u8]) -> (r: bool)
    ensures
        r == (a@ == b@),
{
    if a.len() != b.len() {
        proof {
            assert(a@.len() != b@.len());
        }
        return false;
    }
    let n = a.len();
    let mut i: usize = 0;
    while i < n
        invariant
            i <= n,
            n == a@.len(),
            n == b@.len(),
            forall|j: int| 0 <= j < i ==> a@[j] == b@[j],
        decreases n - i,
    {
        if a[i] != b[i] {
            return false;
        }
        i = i + 1;
    }
    proof {
        assert(a@ =~= b@);
    }
    true
}

impl ServiceScan {
    /// A scan that has connected to nothing yet.
    pub fn new(target_name: Vec<u8>) -> (s: ServiceScan)
        ensures
            s.target_name@ == target_name@,
            !s.connecting,
    {
        ServiceScan { target_name, connecting: false }
    }

    /// Whether to attempt a connection to a freshly discovered device:
    /// only while no connection is pending, and only when the advertised
    /// name matches the target name.
    pub fn should_connect(&self, local_name: &[u8]) -> (r: bool)
        ensures
            r == (!self.connecting && local_name@ == self.target_name@),
    {
        if self.connecting {
            return false;
        }
        bytes_equal(local_name, self.target_name.as_slice())
    }

    /// Record the outcome of a connection attempt; a failed attempt leaves
    /// the scan looking for further devices.
    pub fn on_connect_result(&mut self, success: bool)
        ensures
            final(self).target_name == old(self).target_name,
            final(self).connecting == (old(self).connecting || success),
    {
        if success {
            self.connecting = true;
        }
    }

    /// A device reported connected and its services were discovered:
    /// keep it exactly when the target service is present, else disconnect
    /// and scan on.
    pub fn on_device_connected(&mut self, has_target_service: bool) -> (r: ConnectedAction)
        ensures
            final(self).target_name == old(self).target_name,
            has_target_service ==> r == ConnectedAction::UseDevice && final(self).connecting == old(self).connecting,
            !has_target_service ==> r == ConnectedAction::DisconnectAndResume && !final(self).connecting,
    {
        if has_target_service {
            ConnectedAction::UseDevice
        } else {
            self.connecting = false;
            ConnectedAction::DisconnectAndResume
        }
    }
}

} // verus!
