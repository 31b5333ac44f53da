//! The records of the broker's data model, as the routes read them, and the copying helpers
//! that the presentations use.
//!
//! Times are milliseconds since the UNIX epoch. The extra information of a record (`info`)
//! is a list of pairs of a key and the JSON text of its value.

use vstd::prelude::*;

use crate::corelib::time_ok;

verus! {

/// The views of a sequence of strings.
pub open spec fn strs(v: Seq<String>) -> Seq<Seq<char>> {
    v.map_values(|s: String| s@)
}

/// The views of a sequence of pairs of strings.
pub open spec fn pairs(v: Seq<(String, String)>) -> Seq<(Seq<char>, Seq<char>)> {
    v.map_values(|p: (String, String)| (p.0@, p.1@))
}

/// The view of an optional string.
pub open spec fn opt_view(s: Option<String>) -> Option<Seq<char>> {
    match s {
        None => None,
        Some(s) => Some(s@),
    }
}

/// Copies a list of strings.
pub fn clone_strs(v: &Vec<String>) -> (r: Vec<String>)
    ensures
        strs(r@) == strs(v@),
{
    let mut r: Vec<String> = Vec::new();
    let mut i: usize = 0;
    while i < v.len()
        invariant
            i <= v.len(),
            strs(r@) == strs(v@).take(i as int),
        decreases v.len() - i,
    {
        let ghost prev = r@;
        let s = v[i].clone();
        r.push(s);
        proof {
            assert(r@ == prev.push(s));
            assert(strs(r@) =~= strs(prev).push(v@[i as int]@));
            assert(strs(v@).take(i + 1) =~= strs(v@).take(i as int).push(v@[i as int]@));
        }
        i += 1;
    }
    proof {
        assert(strs(v@).take(v.len() as int) =~= strs(v@));
    }
    r
}

/// Copies a list of pairs of strings.
pub fn clone_pairs(v: &Vec<(String, String)>) -> (r: Vec<(String, String)>)
    ensures
        pairs(r@) == pairs(v@),
{
    let mut r: Vec<(String, String)> = Vec::new();
    let mut i: usize = 0;
    while i < v.len()
        invariant
            i <= v.len(),
            pairs(r@) == pairs(v@).take(i as int),
        decreases v.len() - i,
    {
        let ghost prev = r@;
        let p = (v[i].0.clone(), v[i].1.clone());
        r.push(p);
        proof {
            assert(r@ == prev.push(p));
            assert(pairs(r@) =~= pairs(prev).push((v@[i as int].0@, v@[i as int].1@)));
            assert(pairs(v@).take(i + 1) =~= pairs(v@).take(i as int).push(
                (v@[i as int].0@, v@[i as int].1@),
            ));
        }
        i += 1;
    }
    proof {
        assert(pairs(v@).take(v.len() as int) =~= pairs(v@));
    }
    r
}

/// Copies an optional string.
pub fn clone_opt(s: &Option<String>) -> (r: Option<String>)
    ensures
        opt_view(r) == opt_view(*s),
{
    match s {
        None => None,
        Some(s) => Some(s.clone()),
    }
}

/// A unit: an organization that owns applications, networks and devices.
#[derive(Debug)]
pub struct Unit {
    pub unit_id: String,
    pub code: String,
    pub created_at: i64,
    pub modified_at: i64,
    pub owner_id: String,
    pub member_ids: Vec<String>,
    pub name: String,
    pub info: Vec<(String, String)>,
}

impl Unit {
    /// The times of the record are instants that `chrono` represents.
    pub open spec fn times_ok(&self) -> bool {
        time_ok(self.created_at) && time_ok(self.modified_at)
    }
}

/// An application of a unit, served through a message queue at `host_uri`.
#[derive(Debug)]
pub struct Application {
    pub application_id: String,
    pub code: String,
    pub unit_id: String,
    pub unit_code: String,
    pub created_at: i64,
    pub modified_at: i64,
    pub host_uri: String,
    pub name: String,
    pub info: Vec<(String, String)>,
}

impl Application {
    /// The times of the record are instants that `chrono` represents.
    pub open spec fn times_ok(&self) -> bool {
        time_ok(self.created_at) && time_ok(self.modified_at)
    }
}

/// A network of a unit, or a public network (without unit), served through a message queue
/// at `host_uri`.
#[derive(Debug)]
pub struct Network {
    pub network_id: String,
    pub code: String,
    pub unit_id: Option<String>,
    pub unit_code: Option<String>,
    pub created_at: i64,
    pub modified_at: i64,
    pub host_uri: String,
    pub name: String,
    pub info: Vec<(String, String)>,
}

impl Network {
    /// The times of the record are instants that `chrono` represents.
    pub open spec fn times_ok(&self) -> bool {
        time_ok(self.created_at) && time_ok(self.modified_at)
    }
}

/// A device of a unit, reached at an address of a network.
#[derive(Debug)]
pub struct Device {
    pub device_id: String,
    pub unit_id: String,
    /// The unit code of the network: `None` for a public network.
    pub unit_code: Option<String>,
    pub network_id: String,
    pub network_code: String,
    pub network_addr: String,
    pub created_at: i64,
    pub modified_at: i64,
    pub profile: String,
    pub name: String,
    pub info: Vec<(String, String)>,
}

impl Device {
    /// The times of the record are instants that `chrono` represents.
    pub open spec fn times_ok(&self) -> bool {
        time_ok(self.created_at) && time_ok(self.modified_at)
    }
}

/// A route from one device to one application.
#[derive(Debug)]
pub struct DeviceRoute {
    pub route_id: String,
    pub unit_id: String,
    pub unit_code: String,
    pub application_id: String,
    pub application_code: String,
    pub device_id: String,
    pub network_id: String,
    pub network_code: String,
    pub network_addr: String,
    pub profile: String,
    pub created_at: i64,
    pub modified_at: i64,
}

impl DeviceRoute {
    /// The times of the record are instants that `chrono` represents.
    pub open spec fn times_ok(&self) -> bool {
        time_ok(self.created_at) && time_ok(self.modified_at)
    }
}

/// A route from all devices of one network to one application.
#[derive(Debug)]
pub struct NetworkRoute {
    pub route_id: String,
    pub unit_id: String,
    pub unit_code: String,
    pub application_id: String,
    pub application_code: String,
    pub network_id: String,
    pub network_code: String,
    pub created_at: i64,
}

impl NetworkRoute {
    /// The time of the record is an instant that `chrono` represents.
    pub open spec fn times_ok(&self) -> bool {
        time_ok(self.created_at)
    }
}

/// A downlink data item waiting for its result from the network.
#[derive(Debug)]
pub struct DlDataBuffer {
    pub data_id: String,
    pub unit_id: String,
    pub unit_code: String,
    pub application_id: String,
    pub application_code: String,
    pub network_id: String,
    pub network_addr: String,
    pub device_id: String,
    pub created_at: i64,
    pub expired_at: i64,
}

impl DlDataBuffer {
    /// The times of the record are instants that `chrono` represents.
    pub open spec fn times_ok(&self) -> bool {
        time_ok(self.created_at) && time_ok(self.expired_at)
    }
}

} // verus!
