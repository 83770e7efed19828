//! What the network watchers decide.
//!
//! The watchers listen to the system's network manager and publish the state
//! of the network interfaces. Listening is the caller's part. This module
//! holds the state a watcher keeps and what it makes of each thing it hears.

use vstd::prelude::*;

verus! {

/// The state of a wired link.
#[derive(Clone, Copy, Debug, PartialEq, Eq, Structural)]
pub struct LinkInfo {
    /// The negotiated speed in Mbit/s.
    pub speed: u32,
    /// Whether a carrier is detected.
    pub carrier: bool,
}

/// A change of one property of a wired link.
#[derive(Clone, Copy, Debug, PartialEq, Eq, Structural)]
pub enum LinkChange {
    /// The speed is now this.
    Speed(u32),
    /// The carrier is now this.
    Carrier(bool),
}

/// Why a watcher has no answer.
#[derive(Clone, Copy, Debug, PartialEq, Eq, Structural)]
pub enum NetworkError {
    /// No network device has the wanted interface name.
    NoInterfaceFound,
    /// The interface has no IPv4 address.
    IpNotFound,
    /// The source of address changes has ended.
    NoIpFound,
}

/// The link state after `change`. No change leaves the state as it is.
pub open spec fn link_after(info: LinkInfo, change: Option<LinkChange>) -> LinkInfo {
    match change {
        Some(LinkChange::Speed(speed)) => LinkInfo { speed, carrier: info.carrier },
        Some(LinkChange::Carrier(carrier)) => LinkInfo { speed: info.speed, carrier },
        None => info,
    }
}

/// The watcher of one wired link: the name of the interface and the state
/// last heard of.
pub struct LinkStream {
    /// The name of the interface.
    pub interface: String,
    /// The state last heard of.
    pub data: LinkInfo,
}

impl LinkStream {
    /// A watcher of `interface` that starts from the state `info`.
    pub fn new(interface: &str, info: LinkInfo) -> (stream: Self)
        ensures
            stream.interface@ == interface@,
            stream.data == info,
    {
        LinkStream { interface: interface.to_owned(), data: info }
    }

    /// The state last heard of.
    pub fn now(&self) -> (info: LinkInfo)
        ensures
            info == self.data,
    {
        self.data
    }

    /// Takes in what was heard next, a change of one property or the end of
    /// one of the two sources of changes, and returns the state after it.
    pub fn next(&mut self, change: Option<LinkChange>) -> (info: LinkInfo)
        ensures
            info == link_after(old(self).data, change),
            final(self).data == info,
            final(self).interface == old(self).interface,
    {
        match change {
            Some(LinkChange::Speed(speed)) => {
                self.data.speed = speed;
            },
            Some(LinkChange::Carrier(carrier)) => {
                self.data.carrier = carrier;
            },
            None => {},
        }
        self.data
    }
}

/// The state of the link to the device under test when the network is only
/// simulated: no carrier.
pub fn demo_dut_link() -> (info: LinkInfo)
    ensures
        info == (LinkInfo { speed: 0, carrier: false }),
{
    LinkInfo { speed: 0, carrier: false }
}

/// The state of the uplink when the network is only simulated: a gigabit
/// link with carrier.
pub fn demo_uplink_link() -> (info: LinkInfo)
    ensures
        info == (LinkInfo { speed: 1000, carrier: true }),
{
    LinkInfo { speed: 1000, carrier: true }
}

/// The addresses of the bridge when the network is only simulated.
pub fn demo_bridge_addresses() -> (addresses: Vec<String>)
    ensures
        addresses@.len() == 1,
        addresses@[0]@ == "192.168.1.1"@,
{
    let mut addresses: Vec<String> = Vec::new();
    addresses.push("192.168.1.1".to_owned());
    addresses
}

/// The hostname when the network is only simulated.
pub fn demo_hostname() -> (hostname: String)
    ensures
        hostname@ == "lxatac"@,
{
    "lxatac".to_owned()
}

/// Whether some name in `names` is `wanted`.
pub open spec fn has_interface(names: Seq<String>, wanted: Seq<char>) -> bool {
    exists|i: int| 0 <= i < names.len() && (#[trigger] names[i])@ == wanted
}

/// Finds the network device whose interface is called `interface` among the
/// devices whose interface names are `names`: the position of the first such
/// device.
pub fn path_from_interface(names: &Vec<String>, interface: &str) -> (found: Result<
    usize,
    NetworkError,
>)
    ensures
        match found {
            Ok(i) => i < names.len() && names[i as int]@ == interface@ && forall|j: int|
                0 <= j < i ==> (#[trigger] names[j])@ != interface@,
            Err(error) => error == NetworkError::NoInterfaceFound && !has_interface(
                names@,
                interface@,
            ),
        },
{
    let wanted = interface.to_owned();
    let mut i: usize = 0;
    while i < names.len()
        invariant
            i <= names.len(),
            wanted@ == interface@,
            forall|j: int| 0 <= j < i ==> (#[trigger] names[j])@ != interface@,
        decreases names.len() - i,
    {
        if names[i] == wanted {
            return Ok(i);
        }
        i += 1;
    }
    Err(NetworkError::NoInterfaceFound)
}

/// The IPv4 addresses of an interface, given the `address` entry of the first
/// address record of its configuration, if there is such an entry: that one
/// address, or the report that there is none.
pub fn get_ip4_address(first: Option<String>) -> (addresses: Result<Vec<String>, NetworkError>)
    ensures
        match first {
            Some(address) => addresses matches Ok(list) && list@ == seq![address],
            None => addresses == Err::<Vec<String>, NetworkError>(NetworkError::IpNotFound),
        },
{
    match first {
        Some(address) => {
            let mut list: Vec<String> = Vec::new();
            list.push(address);
            Ok(list)
        },
        None => Err(NetworkError::IpNotFound),
    }
}

/// The watcher of the addresses of one interface.
pub struct IpStream {
    /// The name of the interface.
    pub interface: String,
    /// The path of the network device that is watched.
    pub path: String,
}

impl IpStream {
    /// A watcher of `interface`, whose network device is at `path`.
    pub fn new(interface: &str, path: &str) -> (stream: Self)
        ensures
            stream.interface@ == interface@,
            stream.path@ == path@,
    {
        IpStream { interface: interface.to_owned(), path: path.to_owned() }
    }

    /// The addresses the interface has now, given what looking them up
    /// answered: an interface without an address has the empty list.
    pub fn now(&self, lookup: Result<Vec<String>, NetworkError>) -> (addresses: Result<
        Vec<String>,
        NetworkError,
    >)
        ensures
            addresses matches Ok(list) && list@ == (match lookup {
                Ok(found) => found@,
                Err(_) => Seq::<String>::empty(),
            }),
    {
        match lookup {
            Ok(found) => Ok(found),
            Err(_) => Ok(Vec::new()),
        }
    }

    /// Takes in what was heard next. After a change of configuration the
    /// addresses are what looking them up answered, the empty list if that
    /// failed. The end of the source of changes is an error.
    pub fn next(&self, change: Option<Result<Vec<String>, NetworkError>>) -> (addresses: Result<
        Vec<String>,
        NetworkError,
    >)
        ensures
            match change {
                Some(Ok(found)) => addresses matches Ok(list) && list@ == found@,
                Some(Err(_)) => addresses matches Ok(list) && list@.len() == 0,
                None => addresses == Err::<Vec<String>, NetworkError>(NetworkError::NoIpFound),
            },
    {
        match change {
            Some(Ok(found)) => Ok(found),
            Some(Err(_)) => Ok(Vec::new()),
            None => Err(NetworkError::NoIpFound),
        }
    }
}

} // verus!
