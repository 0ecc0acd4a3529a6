use vstd::prelude::*;

verus! {

/// The link state the Wi-Fi and DHCP machinery reports: it only ever moves
/// forward through these states; link loss afterwards is out of scope.
#[derive(Clone, Copy, Debug, PartialEq, Eq, Structural)]
pub enum LinkStatus {
    /// The radio has not been started.
    Idle,
    /// The client radio has started and is associating.
    Started,
    /// Associated with the access point, but no IP address yet.
    Associated,
    /// Fully up; carries the packed IPv4 address DHCP assigned.
    IpAssigned(u32),
}

/// How far along bring-up a status is.
pub open spec fn rank(s: LinkStatus) -> int {
    match s {
        LinkStatus::Idle => 0,
        LinkStatus::Started => 1,
        LinkStatus::Associated => 2,
        LinkStatus::IpAssigned(_) => 3,
    }
}

} // verus!
