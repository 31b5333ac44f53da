//! The decisions of the device API: the conditions of the count and list queries, the sort
//! conditions, the checks of new devices (one, a bulk of addresses or a range of addresses)
//! and of a change, the new device records, and the presentation of devices.

use vstd::prelude::*;
use vstd::string::*;

use super::request::{
    GetDeviceCountQuery, GetDeviceListQuery, ListFormat, PatchDeviceData, PostDeviceBulkData,
    PostDeviceData, PostDeviceRangeData,
};
use super::response::GetDeviceData;
use crate::corelib::{lowercase, time_str, time_text, to_lowercase};
use crate::models::{clone_opt, clone_pairs, clone_strs, opt_view, pairs, strs, Device, Network, Unit};
use crate::routes::v1::addr::{
    addr_item_msg, addrs_empty_msg, addrs_max_msg, byte_len, check_addr_range, check_addrs_count,
    check_range_len, expand_addr_range, lower_addrs, range_addrs, range_len_msg, range_spec,
    BULK_MAX,
};
use crate::routes::v1::lib::{
    check_unit_cond, device_mgr_key, gen_device_mgr_key, gen_network_mgr_key, network_mgr_key,
    network_usable, unit_cond_spec, UnitQueryCond,
    network_usable_spec, unit_param, unit_param_spec,
};
use crate::routes::v1::list::{
    cond_spec, conds_view, frame_list, frame_spec, limit_spec, list_limit, list_step,
    list_step_spec, non_empty, sort_conds, sort_fault_text, sort_outcome, sort_result_in,
    ListAction, ListEvent, ListState, SortFault, LIST_CURSOR_MAX,
};
use crate::routes::v1::valid::{
    check_info, check_non_empty, check_profile, empty_field_msg, info_msg, info_or_empty,
    info_or_empty_of, no_update_msg, opt_info_ok, opt_pairs, or_empty, profile_msg, profile_ok,
    text_or_empty,
};
use crate::routes::{param_err, ApiError, BrokerReq, ErrView};

verus! {

/// The keys by which devices are sorted.
#[derive(PartialEq, Eq, Structural, Clone, Copy, Debug)]
pub enum SortKey {
    NetworkCode,
    NetworkAddr,
    CreatedAt,
    ModifiedAt,
    Profile,
    Name,
}

/// One sort condition of devices.
pub type SortCond = crate::routes::v1::list::SortCond<SortKey>;

/// The names of the sort keys in a sort argument.
pub open spec fn sort_fields() -> Seq<Seq<char>> {
    seq!["network"@, "addr"@, "created"@, "modified"@, "profile"@, "name"@]
}

/// The sort keys named by [`sort_fields`], in the same order.
pub open spec fn sort_keys() -> Seq<SortKey> {
    seq![
        SortKey::NetworkCode,
        SortKey::NetworkAddr,
        SortKey::CreatedAt,
        SortKey::ModifiedAt,
        SortKey::Profile,
        SortKey::Name,
    ]
}

/// The sort conditions of an optional sort argument: by network code and then by address,
/// both ascending, when there is none.
pub open spec fn sort_result(args: Option<Seq<char>>) -> Result<Seq<(SortKey, bool)>, SortFault> {
    sort_result_in(
        args,
        sort_fields(),
        sort_keys(),
        seq![(SortKey::NetworkCode, true), (SortKey::NetworkAddr, true)],
    )
}

/// The sort conditions of a list request: the conditions of the sort argument, or the
/// parameter error of its first refused condition; by network code and address without
/// argument.
pub fn get_sort_cond(sort_args: &Option<String>) -> (r: Result<Vec<SortCond>, ApiError>)
    ensures
        match sort_result(opt_view(*sort_args)) {
            Ok(s) => r matches Ok(v) && conds_view(v@) == s,
            Err(f) => r matches Err(e) && e@ == ErrView::Param(sort_fault_text(f)),
        },
{
    let fields = vec![
        String::from_str("network"),
        String::from_str("addr"),
        String::from_str("created"),
        String::from_str("modified"),
        String::from_str("profile"),
        String::from_str("name"),
    ];
    let keys = vec![
        SortKey::NetworkCode,
        SortKey::NetworkAddr,
        SortKey::CreatedAt,
        SortKey::ModifiedAt,
        SortKey::Profile,
        SortKey::Name,
    ];
    let default = vec![
        SortCond { key: SortKey::NetworkCode, asc: true },
        SortCond { key: SortKey::NetworkAddr, asc: true },
    ];
    proof {
        assert(strs(fields@) =~= sort_fields());
        assert(keys@ =~= sort_keys());
        assert(conds_view(default@) =~= seq![
            (SortKey::NetworkCode, true),
            (SortKey::NetworkAddr, true),
        ]);
    }
    sort_conds(sort_args, &fields, &keys, default)
}

/// The condition of a count or list query of devices.
#[derive(Debug)]
pub struct ListQueryCond {
    pub unit_id: Option<String>,
    pub network_code: Option<String>,
    pub network_addr: Option<String>,
    pub profile: Option<String>,
    pub name_contains: Option<String>,
}

/// The condition of a query of devices, after the unit filter was checked: by the unit, the
/// network code, the address, the profile and a part of the name, an empty parameter being
/// no filter.
pub open spec fn list_cond_spec(
    c: ListQueryCond,
    unit: Option<Seq<char>>,
    network: Option<Seq<char>>,
    addr: Option<Seq<char>>,
    profile: Option<Seq<char>>,
    contains: Option<Seq<char>>,
) -> bool {
    &&& opt_view(c.unit_id) == cond_spec(unit)
    &&& opt_view(c.network_code) == cond_spec(network)
    &&& opt_view(c.network_addr) == cond_spec(addr)
    &&& opt_view(c.profile) == cond_spec(profile)
    &&& opt_view(c.name_contains) == cond_spec(contains)
}

/// The condition of `GET /api/v1/device/count`, after the unit filter was checked.
pub fn get_device_count_cond(query: &GetDeviceCountQuery) -> (c: ListQueryCond)
    ensures
        list_cond_spec(
            c,
            opt_view(query.unit),
            opt_view(query.network),
            opt_view(query.addr),
            opt_view(query.profile),
            opt_view(query.contains),
        ),
{
    ListQueryCond {
        unit_id: non_empty(&query.unit),
        network_code: non_empty(&query.network),
        network_addr: non_empty(&query.addr),
        profile: non_empty(&query.profile),
        name_contains: non_empty(&query.contains),
    }
}

/// The options of a list query of devices.
#[derive(Debug)]
pub struct ListOptions {
    pub cond: ListQueryCond,
    pub offset: Option<u64>,
    pub limit: Option<u64>,
    pub sort: Vec<SortCond>,
    pub cursor_max: Option<u64>,
}

/// The options of the first query of `GET /api/v1/device/list`, after the unit filter was
/// checked, or the parameter error of the sort argument.
pub fn get_device_list_opts(query: &GetDeviceListQuery) -> (r: Result<ListOptions, ApiError>)
    ensures
        match sort_result(opt_view(query.sort)) {
            Ok(s) => r matches Ok(o) && conds_view(o.sort@) == s && list_cond_spec(
                o.cond,
                opt_view(query.unit),
                opt_view(query.network),
                opt_view(query.addr),
                opt_view(query.profile),
                opt_view(query.contains),
            ) && o.offset == query.offset && o.limit == limit_spec(query.limit) && o.cursor_max
                == Some(LIST_CURSOR_MAX),
            Err(f) => r matches Err(e) && e@ == ErrView::Param(sort_fault_text(f)),
        },
{
    let cond = ListQueryCond {
        unit_id: non_empty(&query.unit),
        network_code: non_empty(&query.network),
        network_addr: non_empty(&query.addr),
        profile: non_empty(&query.profile),
        name_contains: non_empty(&query.contains),
    };
    let sort = get_sort_cond(&query.sort)?;
    Ok(ListOptions {
        cond,
        offset: query.offset,
        limit: list_limit(query.limit),
        sort,
        cursor_max: Some(LIST_CURSOR_MAX),
    })
}

/// The condition of the queries that continue a streamed `GET /api/v1/device/list`: as the
/// first one without the profile filter.
pub fn get_device_list_stream_cond(query: &GetDeviceListQuery) -> (c: ListQueryCond)
    ensures
        list_cond_spec(
            c,
            opt_view(query.unit),
            opt_view(query.network),
            opt_view(query.addr),
            None,
            opt_view(query.contains),
        ),
{
    ListQueryCond {
        unit_id: non_empty(&query.unit),
        network_code: non_empty(&query.network),
        network_addr: non_empty(&query.addr),
        profile: None,
        name_contains: non_empty(&query.contains),
    }
}

/// The options of the queries of `GET /api/v1/device/list`: the first one, or (`stream`)
/// those that continue a streamed list, which leave out the profile filter.
pub open spec fn device_list_opts_ok(query: GetDeviceListQuery, stream: bool) -> spec_fn(ListOptions) -> bool {
    |o: ListOptions|
        sort_result(opt_view(query.sort)) matches Ok(s) && conds_view(o.sort@) == s && list_cond_spec(
            o.cond,
            opt_view(query.unit),
            opt_view(query.network),
            opt_view(query.addr),
            if stream {
                None
            } else {
                opt_view(query.profile)
            },
            opt_view(query.contains),
        ) && o.offset == query.offset && o.limit == limit_spec(query.limit) && o.cursor_max == Some(
            LIST_CURSOR_MAX,
        )
}

/// One step of `GET /api/v1/device/list` (see [`list_step_spec`]): the unit filter of
/// [`unit_param`], the sort argument, and the options of [`device_list_opts_ok`].
pub fn get_device_list_step(
    user_id: &str,
    roles: &Vec<(String, bool)>,
    query: &GetDeviceListQuery,
    st: ListState,
    ev: ListEvent,
) -> (r: (ListState, ListAction<ListOptions>))
    ensures
        list_step_spec(
            unit_param_spec(roles@, opt_view(query.unit)),
            sort_outcome(sort_result(opt_view(query.sort))),
            device_list_opts_ok(*query, false),
            device_list_opts_ok(*query, true),
            query.format == Some(ListFormat::Array),
            user_id@,
            roles@,
            st,
            ev,
            r,
        ),
{
    let unit = unit_param(roles, &query.unit);
    let opts = match get_device_list_opts(query) {
        Err(e) => Err(e),
        Ok(first) => match get_device_list_opts(query) {
            Err(e) => Err(e),
            Ok(mut stream) => {
                stream.cond = get_device_list_stream_cond(query);
                Ok((first, stream))
            },
        },
    };
    let array = match &query.format {
        Some(ListFormat::Array) => true,
        _ => false,
    };
    list_step(
        user_id,
        roles,
        unit,
        opts,
        array,
        st,
        ev,
        Ghost(device_list_opts_ok(*query, false)),
        Ghost(device_list_opts_ok(*query, true)),
    )
}

/// The checks of `POST /api/v1/device` before the unit and the network are looked up, in
/// order: the unit, the network and the address must not be empty, and a given profile must
/// be empty or a code.
pub open spec fn post_check_spec(data: PostDeviceData) -> Result<(), ErrView> {
    if data.unit_id@.len() == 0 {
        Err(ErrView::Param(empty_field_msg("unitId"@)))
    } else if data.network_id@.len() == 0 {
        Err(ErrView::Param(empty_field_msg("networkId"@)))
    } else if data.network_addr@.len() == 0 {
        Err(ErrView::Param(empty_field_msg("networkAddr"@)))
    } else if !profile_ok(opt_view(data.profile)) {
        Err(ErrView::Param(profile_msg()))
    } else {
        Ok(())
    }
}

/// The checks of `POST /api/v1/device` (see [`post_check_spec`]).
pub fn check_post_device(data: &PostDeviceData) -> (r: Result<(), ApiError>)
    ensures
        match post_check_spec(*data) {
            Ok(_) => r is Ok,
            Err(ev) => r matches Err(e) && e@ == ev,
        },
{
    check_non_empty(data.unit_id.as_str(), "unitId")?;
    check_non_empty(data.network_id.as_str(), "networkId")?;
    check_non_empty(data.network_addr.as_str(), "networkAddr")?;
    check_profile(&data.profile)
}

/// The unit code that a device keeps: its unit's code on a network of a unit, none on a
/// public network.
pub open spec fn device_unit_code(network: Network, unit_code: Seq<char>) -> Option<Seq<char>> {
    match network.unit_id {
        None => None,
        Some(_) => Some(unit_code),
    }
}

/// The unit code that a device keeps on the network.
fn unit_code_on(network: &Network, unit_code: &str) -> (r: Option<String>)
    ensures
        opt_view(r) == device_unit_code(*network, unit_code@),
{
    match &network.unit_id {
        None => None,
        Some(_) => Some(String::from_str(unit_code)),
    }
}

/// The new device of the unit `unit_id` (with the code `unit_code`) on the checked network:
/// the address lower-cased; no profile or name means an empty one, no information an empty
/// one.
pub fn new_device(
    device_id: String,
    unit_id: &str,
    unit_code: &str,
    network: &Network,
    now: i64,
    data: &PostDeviceData,
) -> (d: Device)
    ensures
        d.device_id == device_id,
        d.unit_id@ == unit_id@,
        opt_view(d.unit_code) == device_unit_code(*network, unit_code@),
        d.network_id@ == network.network_id@,
        d.network_code@ == network.code@,
        d.network_addr@ == lowercase(data.network_addr@),
        d.created_at == now,
        d.modified_at == now,
        d.profile@ == or_empty(opt_view(data.profile)),
        d.name@ == or_empty(opt_view(data.name)),
        pairs(d.info@) == info_or_empty(data.info),
{
    Device {
        device_id,
        unit_id: String::from_str(unit_id),
        unit_code: unit_code_on(network, unit_code),
        network_id: network.network_id.clone(),
        network_code: network.code.clone(),
        network_addr: to_lowercase(data.network_addr.as_str()),
        created_at: now,
        modified_at: now,
        profile: text_or_empty(&data.profile),
        name: text_or_empty(&data.name),
        info: info_or_empty_of(&data.info),
    }
}

/// Where `POST /api/v1/device` stands: what it waits for, with the unit and the network found
/// so far.
#[derive(Debug)]
pub enum PostDevState {
    Start,
    UnitLookup,
    NetworkLookup { unit: Unit },
    AddrCheck { unit: Unit, network: Network },
    Adding { network: Network, network_addr: String },
    Done,
}

/// What happened to `POST /api/v1/device`.
#[derive(Debug)]
pub enum PostDevEvent {
    /// The request arrived.
    Start,
    /// The unit, if it exists and the user owns it.
    Unit(Option<Unit>),
    /// The network of the given network ID, if it exists.
    Network(Option<Network>),
    /// Whether a device of the network already has the address.
    AddrTaken(bool),
    /// The device was added.
    Finished,
    /// The database failed, with its error text.
    DbError(String),
}

/// What to do next for `POST /api/v1/device`.
#[derive(Debug)]
pub enum PostDevAction {
    /// Look up the unit with this query (for its owner, unless the user has the
    /// administrator or the manager role).
    GetUnit(UnitQueryCond),
    /// Look up the network.
    GetNetwork { network_id: String },
    /// Look up a device of the network with the address (as given).
    CheckAddr { network_id: String, network_addr: String },
    /// Add the device.
    Add(Device),
    /// Tell the network manager of `mgr_key` about the device's address, and answer with the
    /// device's ID.
    Finish { mgr_key: String, network_addr: String, device_id: String },
    /// Answer with the error.
    Reply(ApiError),
    /// Nothing more to do.
    Stop,
}

/// The steps of `POST /api/v1/device` by `user_id` with `roles` at `now` with the new ID
/// `device_id`, in order: the checks of [`post_check_spec`]; the unit, which a user without
/// the administrator or the manager role must own (missing:
/// `err_broker_unit_not_exist`); the network, which must be usable for the unit (else
/// `err_broker_network_not_exist`); the address must be free in the network (else
/// `err_broker_network_addr_exist`); the new device of [`new_device`]; the message to the
/// network's manager. A database error is answered as such; any other unexpected event ends
/// the request.
pub open spec fn post_dev_step_spec(
    user_id: Seq<char>,
    roles: Seq<(String, bool)>,
    data: PostDeviceData,
    device_id: Seq<char>,
    now: i64,
    st: PostDevState,
    ev: PostDevEvent,
    r: (PostDevState, PostDevAction),
) -> bool {
    if st is Done {
        r.0 is Done && r.1 is Stop
    } else {
        match post_check_spec(data) {
            Err(e) => r.0 is Done && (r.1 matches PostDevAction::Reply(x) && x@ == e),
            Ok(_) => match (st, ev) {
                (PostDevState::Start, PostDevEvent::Start) => r.0 is UnitLookup && (
                r.1 matches PostDevAction::GetUnit(c) && unit_cond_spec(c, user_id, roles, data.unit_id@, true)),
                (PostDevState::UnitLookup, PostDevEvent::Unit(None)) => r.0 is Done && (
                r.1 matches PostDevAction::Reply(x) && x@ == ErrView::Req(BrokerReq::UnitNotExist)),
                (PostDevState::UnitLookup, PostDevEvent::Unit(Some(u))) => (
                r.0 matches PostDevState::NetworkLookup { unit } && unit == u) && (
                r.1 matches PostDevAction::GetNetwork { network_id } && network_id@ == data.network_id@),
                (PostDevState::NetworkLookup { unit }, PostDevEvent::Network(found)) => match found {
                    Some(n) => if network_usable_spec(n, data.unit_id@, roles) {
                        (r.0 matches PostDevState::AddrCheck { unit: u, network } && u == unit
                            && network == n) && (r.1 matches PostDevAction::CheckAddr {
                            network_id,
                            network_addr,
                        } && network_id@ == data.network_id@ && network_addr@ == data.network_addr@)
                    } else {
                        r.0 is Done && (r.1 matches PostDevAction::Reply(x) && x@ == ErrView::Req(
                            BrokerReq::NetworkNotExist,
                        ))
                    },
                    None => r.0 is Done && (r.1 matches PostDevAction::Reply(x) && x@ == ErrView::Req(
                        BrokerReq::NetworkNotExist,
                    )),
                },
                (PostDevState::AddrCheck { unit, network }, PostDevEvent::AddrTaken(taken)) => if taken {
                    r.0 is Done && (r.1 matches PostDevAction::Reply(x) && x@ == ErrView::Req(
                        BrokerReq::NetworkAddrExist,
                    ))
                } else {
                    (r.0 matches PostDevState::Adding { network: n, network_addr } && n == network
                        && network_addr@ == lowercase(data.network_addr@)) && (r.1 matches PostDevAction::Add(
                        d,
                    ) && d.device_id@ == device_id && d.unit_id@ == unit.unit_id@ && opt_view(
                        d.unit_code,
                    ) == device_unit_code(network, unit.code@) && d.network_id@
                        == network.network_id@ && d.network_code@ == network.code@
                        && d.network_addr@ == lowercase(data.network_addr@) && d.created_at == now
                        && d.modified_at == now && d.profile@ == or_empty(opt_view(data.profile))
                        && d.name@ == or_empty(opt_view(data.name)) && pairs(d.info@) == info_or_empty(
                        data.info,
                    ))
                },
                (PostDevState::Adding { network, network_addr }, PostDevEvent::Finished) => r.0 is Done && (
                r.1 matches PostDevAction::Finish { mgr_key, network_addr: a, device_id: id }
                    && mgr_key@ == network_mgr_key(network) && a == network_addr && id@ == device_id),
                (PostDevState::UnitLookup, PostDevEvent::DbError(e))
                | (PostDevState::NetworkLookup { .. }, PostDevEvent::DbError(e))
                | (PostDevState::AddrCheck { .. }, PostDevEvent::DbError(e))
                | (PostDevState::Adding { .. }, PostDevEvent::DbError(e)) => r.0 is Done && (
                r.1 matches PostDevAction::Reply(x) && x@ == ErrView::Db(e@)),
                _ => r.0 is Done && r.1 is Stop,
            },
        }
    }
}

/// One step of `POST /api/v1/device` at `now` with the new ID `device_id` (see
/// [`post_dev_step_spec`]).
pub fn post_device_step(
    user_id: &str,
    roles: &Vec<(String, bool)>,
    data: &PostDeviceData,
    device_id: &str,
    now: i64,
    st: PostDevState,
    ev: PostDevEvent,
) -> (r: (PostDevState, PostDevAction))
    ensures
        post_dev_step_spec(user_id@, roles@, *data, device_id@, now, st, ev, r),
{
    if let PostDevState::Done = st {
        return (PostDevState::Done, PostDevAction::Stop);
    }
    if let Err(e) = check_post_device(data) {
        return (PostDevState::Done, PostDevAction::Reply(e));
    }
    match st {
        PostDevState::Start => match ev {
            PostDevEvent::Start => (PostDevState::UnitLookup, PostDevAction::GetUnit(check_unit_cond(user_id, roles, data.unit_id.as_str(), true))),
            _ => (PostDevState::Done, PostDevAction::Stop),
        },
        PostDevState::UnitLookup => match ev {
            PostDevEvent::Unit(None) => (PostDevState::Done, PostDevAction::Reply(ApiError::Req(BrokerReq::UnitNotExist))),
            PostDevEvent::Unit(Some(u)) => (
                PostDevState::NetworkLookup { unit: u },
                PostDevAction::GetNetwork { network_id: data.network_id.clone() },
            ),
            PostDevEvent::DbError(e) => (PostDevState::Done, PostDevAction::Reply(ApiError::Db(e))),
            _ => (PostDevState::Done, PostDevAction::Stop),
        },
        PostDevState::NetworkLookup { unit } => match ev {
            PostDevEvent::Network(Some(n)) => {
                if network_usable(&n, data.unit_id.as_str(), roles) {
                    (
                        PostDevState::AddrCheck { unit, network: n },
                        PostDevAction::CheckAddr {
                            network_id: data.network_id.clone(),
                            network_addr: data.network_addr.clone(),
                        },
                    )
                } else {
                    (PostDevState::Done, PostDevAction::Reply(ApiError::Req(BrokerReq::NetworkNotExist)))
                }
            },
            PostDevEvent::Network(None) => (
                PostDevState::Done,
                PostDevAction::Reply(ApiError::Req(BrokerReq::NetworkNotExist)),
            ),
            PostDevEvent::DbError(e) => (PostDevState::Done, PostDevAction::Reply(ApiError::Db(e))),
            _ => (PostDevState::Done, PostDevAction::Stop),
        },
        PostDevState::AddrCheck { unit, network } => match ev {
            PostDevEvent::AddrTaken(taken) => {
                if taken {
                    (PostDevState::Done, PostDevAction::Reply(ApiError::Req(BrokerReq::NetworkAddrExist)))
                } else {
                    let d = new_device(
                        String::from_str(device_id),
                        unit.unit_id.as_str(),
                        unit.code.as_str(),
                        &network,
                        now,
                        data,
                    );
                    let network_addr = d.network_addr.clone();
                    (PostDevState::Adding { network, network_addr }, PostDevAction::Add(d))
                }
            },
            PostDevEvent::DbError(e) => (PostDevState::Done, PostDevAction::Reply(ApiError::Db(e))),
            _ => (PostDevState::Done, PostDevAction::Stop),
        },
        PostDevState::Adding { network, network_addr } => match ev {
            PostDevEvent::Finished => (
                PostDevState::Done,
                PostDevAction::Finish {
                    mgr_key: gen_network_mgr_key(&network),
                    network_addr,
                    device_id: String::from_str(device_id),
                },
            ),
            PostDevEvent::DbError(e) => (PostDevState::Done, PostDevAction::Reply(ApiError::Db(e))),
            _ => (PostDevState::Done, PostDevAction::Stop),
        },
        PostDevState::Done => (PostDevState::Done, PostDevAction::Stop),
    }
}

/// The addresses of a bulk request, lower-cased, or the error of the first empty one.
pub open spec fn addrs_spec(addrs: Seq<String>) -> Result<Seq<Seq<char>>, ErrView> {
    if exists|i: int| 0 <= i < addrs.len() && (#[trigger] addrs[i])@.len() == 0 {
        Err(ErrView::Param(addr_item_msg()))
    } else {
        Ok(strs(addrs).map_values(|a: Seq<char>| lowercase(a)))
    }
}

/// The checks of a bulk request, in order: the unit and the network must not be empty, there
/// must be one to [`BULK_MAX`] addresses, a given profile (when `with_profile`) must be empty
/// or a code, and no address may be empty. The result is the addresses lower-cased.
pub open spec fn bulk_check_spec(data: PostDeviceBulkData, with_profile: bool) -> Result<Seq<Seq<char>>, ErrView> {
    if data.unit_id@.len() == 0 {
        Err(ErrView::Param(empty_field_msg("unitId"@)))
    } else if data.network_id@.len() == 0 {
        Err(ErrView::Param(empty_field_msg("networkId"@)))
    } else if data.network_addrs.len() == 0 {
        Err(ErrView::Param(addrs_empty_msg()))
    } else if data.network_addrs.len() > BULK_MAX {
        Err(ErrView::Param(addrs_max_msg()))
    } else if with_profile && !profile_ok(opt_view(data.profile)) {
        Err(ErrView::Param(profile_msg()))
    } else {
        addrs_spec(data.network_addrs@)
    }
}

fn check_bulk(data: &PostDeviceBulkData, with_profile: bool) -> (r: Result<Vec<String>, ApiError>)
    ensures
        match bulk_check_spec(*data, with_profile) {
            Ok(a) => r matches Ok(v) && strs(v@) == a,
            Err(ev) => r matches Err(e) && e@ == ev,
        },
{
    check_non_empty(data.unit_id.as_str(), "unitId")?;
    check_non_empty(data.network_id.as_str(), "networkId")?;
    check_addrs_count(&data.network_addrs)?;
    if with_profile {
        check_profile(&data.profile)?;
    }
    lower_addrs(&data.network_addrs)
}

/// The checks of `POST /api/v1/device/bulk`: the addresses lower-cased, or the first error
/// (see [`bulk_check_spec`], with the profile).
pub fn check_post_device_bulk(data: &PostDeviceBulkData) -> (r: Result<Vec<String>, ApiError>)
    ensures
        match bulk_check_spec(*data, true) {
            Ok(a) => r matches Ok(v) && strs(v@) == a,
            Err(ev) => r matches Err(e) && e@ == ev,
        },
{
    check_bulk(data, true)
}

/// The checks of `POST /api/v1/device/bulk-delete`: the addresses lower-cased, or the first
/// error (see [`bulk_check_spec`], without the profile).
pub fn check_post_device_bulk_del(data: &PostDeviceBulkData) -> (r: Result<Vec<String>, ApiError>)
    ensures
        match bulk_check_spec(*data, false) {
            Ok(a) => r matches Ok(v) && strs(v@) == a,
            Err(ev) => r matches Err(e) && e@ == ev,
        },
{
    check_bulk(data, false)
}

/// The checks of a range request, in order: the unit and the network must not be empty, the
/// two ends must have the same length in bytes, a given profile (when `with_profile`) must
/// be empty or a code, and the range must be accepted (see [`range_spec`]).
pub open spec fn range_check_spec(data: PostDeviceRangeData, with_profile: bool) -> Result<(nat, nat), ErrView> {
    if data.unit_id@.len() == 0 {
        Err(ErrView::Param(empty_field_msg("unitId"@)))
    } else if data.network_id@.len() == 0 {
        Err(ErrView::Param(empty_field_msg("networkId"@)))
    } else if byte_len(data.start_addr@) != byte_len(data.end_addr@) {
        Err(ErrView::Param(range_len_msg()))
    } else if with_profile && !profile_ok(opt_view(data.profile)) {
        Err(ErrView::Param(profile_msg()))
    } else {
        range_spec(data.start_addr@, data.end_addr@)
    }
}

fn check_range(data: &PostDeviceRangeData, with_profile: bool) -> (r: Result<(u128, u128), ApiError>)
    ensures
        match range_check_spec(*data, with_profile) {
            Ok(p) => r matches Ok(q) && q.0 as nat == p.0 && q.1 as nat == p.1,
            Err(ev) => r matches Err(e) && e@ == ev,
        },
{
    check_non_empty(data.unit_id.as_str(), "unitId")?;
    check_non_empty(data.network_id.as_str(), "networkId")?;
    check_range_len(data.start_addr.as_str(), data.end_addr.as_str())?;
    if with_profile {
        check_profile(&data.profile)?;
    }
    check_addr_range(data.start_addr.as_str(), data.end_addr.as_str())
}

/// The checks of `POST /api/v1/device/range`: the values of the two ends, or the first error
/// (see [`range_check_spec`], with the profile).
pub fn check_post_device_range(data: &PostDeviceRangeData) -> (r: Result<(u128, u128), ApiError>)
    ensures
        match range_check_spec(*data, true) {
            Ok(p) => r matches Ok(q) && q.0 as nat == p.0 && q.1 as nat == p.1,
            Err(ev) => r matches Err(e) && e@ == ev,
        },
{
    check_range(data, true)
}

/// The checks of `POST /api/v1/device/range-delete`: the values of the two ends, or the first
/// error (see [`range_check_spec`], without the profile).
pub fn check_post_device_range_del(data: &PostDeviceRangeData) -> (r: Result<(u128, u128), ApiError>)
    ensures
        match range_check_spec(*data, false) {
            Ok(p) => r matches Ok(q) && q.0 as nat == p.0 && q.1 as nat == p.1,
            Err(ev) => r matches Err(e) && e@ == ev,
        },
{
    check_range(data, false)
}

/// One device of a bulk or range request.
pub open spec fn bulk_device_spec(
    d: Device,
    device_id: Seq<char>,
    unit_id: Seq<char>,
    unit_code: Seq<char>,
    network: Network,
    now: i64,
    addr: Seq<char>,
    name: Seq<char>,
    profile: Option<Seq<char>>,
) -> bool {
    &&& d.device_id@ == device_id
    &&& d.unit_id@ == unit_id
    &&& opt_view(d.unit_code) == device_unit_code(network, unit_code)
    &&& d.network_id@ == network.network_id@
    &&& d.network_code@ == network.code@
    &&& d.network_addr@ == addr
    &&& d.created_at == now
    &&& d.modified_at == now
    &&& d.profile@ == or_empty(profile)
    &&& d.name@ == name
    &&& d.info@.len() == 0
}

/// The new devices of a bulk or range request, one for each address, in order, with the IDs
/// `device_ids`: named by the address lower-cased when `lower_names` (bulk requests), else by
/// the address itself (range requests), without information.
pub fn new_bulk_devices(
    device_ids: &Vec<String>,
    unit_id: &str,
    unit_code: &str,
    network: &Network,
    now: i64,
    addrs: &Vec<String>,
    profile: &Option<String>,
    lower_names: bool,
) -> (r: Vec<Device>)
    requires
        device_ids.len() == addrs.len(),
    ensures
        r.len() == addrs.len(),
        forall|i: int|
            0 <= i < addrs.len() ==> bulk_device_spec(
                #[trigger] r@[i],
                device_ids@[i]@,
                unit_id@,
                unit_code@,
                *network,
                now,
                addrs@[i]@,
                if lower_names {
                    lowercase(addrs@[i]@)
                } else {
                    addrs@[i]@
                },
                opt_view(*profile),
            ),
{
    let mut r: Vec<Device> = Vec::new();
    let mut i: usize = 0;
    while i < addrs.len()
        invariant
            i <= addrs.len(),
            device_ids.len() == addrs.len(),
            r.len() == i,
            forall|k: int|
                0 <= k < i ==> bulk_device_spec(
                    #[trigger] r@[k],
                    device_ids@[k]@,
                    unit_id@,
                    unit_code@,
                    *network,
                    now,
                    addrs@[k]@,
                    if lower_names {
                        lowercase(addrs@[k]@)
                    } else {
                        addrs@[k]@
                    },
                    opt_view(*profile),
                ),
        decreases addrs.len() - i,
    {
        let name = if lower_names {
            to_lowercase(addrs[i].as_str())
        } else {
            addrs[i].clone()
        };
        let d = Device {
            device_id: device_ids[i].clone(),
            unit_id: String::from_str(unit_id),
            unit_code: unit_code_on(network, unit_code),
            network_id: network.network_id.clone(),
            network_code: network.code.clone(),
            network_addr: addrs[i].clone(),
            created_at: now,
            modified_at: now,
            profile: text_or_empty(profile),
            name,
            info: Vec::new(),
        };
        r.push(d);
        i += 1;
    }
    r
}

/// The changes of a device: the network is its ID and code.
#[derive(Debug)]
pub struct Updates {
    pub network: Option<(String, String)>,
    pub network_addr: Option<String>,
    pub profile: Option<String>,
    pub name: Option<String>,
    pub info: Option<Vec<(String, String)>>,
    pub modified_at: i64,
}

/// The first checks of `PATCH /api/v1/device/{deviceId}`, in order: a given network or
/// address must not be empty, and a given profile must be empty or a code.
pub open spec fn patch_check_spec(data: PatchDeviceData) -> Result<(), ErrView> {
    if data.network_id matches Some(n) && n@.len() == 0 {
        Err(ErrView::Param(empty_field_msg("networkId"@)))
    } else if data.network_addr matches Some(a) && a@.len() == 0 {
        Err(ErrView::Param(empty_field_msg("networkAddr"@)))
    } else if !profile_ok(opt_view(data.profile)) {
        Err(ErrView::Param(profile_msg()))
    } else {
        Ok(())
    }
}

/// The first checks of `PATCH /api/v1/device/{deviceId}` (see [`patch_check_spec`]).
pub fn check_patch_device(data: &PatchDeviceData) -> (r: Result<(), ApiError>)
    ensures
        match patch_check_spec(*data) {
            Ok(_) => r is Ok,
            Err(ev) => r matches Err(e) && e@ == ev,
        },
{
    if let Some(n) = &data.network_id {
        check_non_empty(n.as_str(), "networkId")?;
    }
    if let Some(a) = &data.network_addr {
        check_non_empty(a.as_str(), "networkAddr")?;
    }
    check_profile(&data.profile)
}

/// The changes of `PATCH /api/v1/device/{deviceId}`: no key of `info` may be empty and at
/// least one field must be given; the network's code is filled in once the network is
/// checked.
pub fn get_updates(data: &PatchDeviceData, now: i64) -> (r: Result<Updates, ApiError>)
    ensures
        !opt_info_ok(data.info) ==> (r matches Err(e) && e@ == ErrView::Param(info_msg())),
        opt_info_ok(data.info) && data.network_id is None && data.network_addr is None
            && data.profile is None && data.name is None && data.info is None ==> (r matches Err(e)
            && e@ == ErrView::Param(no_update_msg())),
        opt_info_ok(data.info) && !(data.network_id is None && data.network_addr is None
            && data.profile is None && data.name is None && data.info is None) ==> (r matches Ok(u)
            && (match data.network_id {
            None => u.network is None,
            Some(n) => (u.network matches Some(p) && p.0@ == n@ && p.1@.len() == 0),
        }) && opt_view(u.network_addr) == opt_view(data.network_addr) && opt_view(u.profile)
            == opt_view(data.profile) && opt_view(u.name) == opt_view(data.name) && opt_pairs(
            u.info,
        ) == opt_pairs(data.info) && u.modified_at == now),
{
    check_info(&data.info)?;
    if data.network_id.is_none() && data.network_addr.is_none() && data.profile.is_none()
        && data.name.is_none() && data.info.is_none() {
        return Err(param_err("at least one parameter"));
    }
    let network = match &data.network_id {
        None => None,
        Some(n) => Some((n.clone(), String::new())),
    };
    let info = match &data.info {
        None => None,
        Some(i) => Some(clone_pairs(i)),
    };
    Ok(Updates {
        network,
        network_addr: clone_opt(&data.network_addr),
        profile: clone_opt(&data.profile),
        name: clone_opt(&data.name),
        info,
        modified_at: now,
    })
}

/// The control messages to the network managers after a change of a device's network or
/// address: the device is deleted from its old network manager (by its old address) and
/// added to the new one (by its new address).
#[derive(Debug)]
pub struct NetCtrlMove {
    pub del_mgr_key: String,
    pub del_addr: String,
    pub add_mgr_key: String,
    pub add_addr: String,
}

/// The control messages after a change of a device (see [`NetCtrlMove`]): none unless the
/// network or the address changes; the new network is the checked one when it changes.
pub fn patch_device_net_ctrl(device: &Device, network: &Option<Network>, network_addr: &Option<String>) -> (r: Option<NetCtrlMove>)
    ensures
        net_ctrl_spec(*device, *network, opt_view(*network_addr), r),
        network is None && network_addr is None ==> r is None,
        !(network is None && network_addr is None) ==> (r matches Some(m) && m.del_mgr_key@
            == device_mgr_key(*device) && m.del_addr@ == device.network_addr@ && m.add_mgr_key@
            == (match *network {
            None => device_mgr_key(*device),
            Some(n) => network_mgr_key(n),
        }) && m.add_addr@ == (match *network_addr {
            None => device.network_addr@,
            Some(a) => a@,
        })),
{
    if network.is_none() && network_addr.is_none() {
        return None;
    }
    let del_mgr_key = gen_device_mgr_key(device);
    let add_mgr_key = match network {
        None => gen_device_mgr_key(device),
        Some(n) => gen_network_mgr_key(n),
    };
    let add_addr = match network_addr {
        None => device.network_addr.clone(),
        Some(a) => a.clone(),
    };
    Some(NetCtrlMove { del_mgr_key, del_addr: device.network_addr.clone(), add_mgr_key, add_addr })
}

/// The control messages after a change of a device (see [`patch_device_net_ctrl`]).
pub open spec fn net_ctrl_spec(device: Device, network: Option<Network>, network_addr: Option<Seq<char>>, r: Option<NetCtrlMove>) -> bool {
    if network is None && network_addr is None {
        r is None
    } else {
        r matches Some(m) && m.del_mgr_key@ == device_mgr_key(device) && m.del_addr@
            == device.network_addr@ && m.add_mgr_key@ == (match network {
            None => device_mgr_key(device),
            Some(n) => network_mgr_key(n),
        }) && m.add_addr@ == (match network_addr {
            None => device.network_addr@,
            Some(a) => a,
        })
    }
}

/// The parameter error of `PATCH /api/v1/device/{deviceId}`, if any: the first checks, then
/// the information and that at least one field is given.
pub open spec fn patch_error(data: PatchDeviceData) -> Option<ErrView> {
    match patch_check_spec(data) {
        Err(e) => Some(e),
        Ok(_) => if !opt_info_ok(data.info) {
            Some(ErrView::Param(info_msg()))
        } else if data.network_id is None && data.network_addr is None && data.profile is None
            && data.name is None && data.info is None {
            Some(ErrView::Param(no_update_msg()))
        } else {
            None
        },
    }
}

/// The changes of a device that `PATCH /api/v1/device/{deviceId}` writes at `now`, with the
/// checked network (its ID and code) when the network changes.
pub open spec fn patch_updates_spec(data: PatchDeviceData, now: i64, network: Option<Network>, u: Updates) -> bool {
    &&& match network {
        None => u.network is None,
        Some(n) => u.network matches Some(p) && p.0@ == n.network_id@ && p.1@ == n.code@,
    }
    &&& opt_view(u.network_addr) == opt_view(data.network_addr)
    &&& opt_view(u.profile) == opt_view(data.profile)
    &&& opt_view(u.name) == opt_view(data.name)
    &&& opt_pairs(u.info) == opt_pairs(data.info)
    &&& u.modified_at == now
}

/// Where `PATCH /api/v1/device/{deviceId}` stands: what it waits for, with the device (and
/// the checked network) found so far.
#[derive(Debug)]
pub enum PatchState {
    Start,
    DeviceLookup,
    NetworkLookup { device: Device },
    AddrCheck { device: Device, network: Option<Network> },
    Updating { device: Device, network: Option<Network> },
    RoutesUpdating { device: Device, network: Option<Network> },
    Done,
}

/// What happened to `PATCH /api/v1/device/{deviceId}`.
#[derive(Debug)]
pub enum PatchEvent {
    /// The request arrived.
    Start,
    /// The device, if it exists and the user owns its unit.
    Device(Option<Device>),
    /// The network of the given network ID, if it exists.
    Network(Option<Network>),
    /// Whether a device of the network already has the address.
    AddrTaken(bool),
    /// The last write was done.
    Finished,
    /// The database failed, with its error text.
    DbError(String),
}

/// What to do next for `PATCH /api/v1/device/{deviceId}`.
#[derive(Debug)]
pub enum PatchAction {
    /// Look up the device, for its unit's owner.
    GetDevice { device_id: String },
    /// Look up the network.
    GetNetwork { network_id: String },
    /// Look up a device of the network with the address.
    CheckAddr { network_id: String, network_addr: String },
    /// Write the changes of the device.
    Update { device_id: String, updates: Updates },
    /// Write the new profile in the routes of the device.
    UpdateRoutes { device_id: String, profile: String, modified_at: i64 },
    /// Send the control messages (if any) and answer that the change is done.
    Finish(Option<NetCtrlMove>),
    /// Answer with the error.
    Reply(ApiError),
    /// Nothing more to do.
    Stop,
}

/// After the network is settled: the address check when the address changes, else the
/// write.
pub open spec fn patch_after_network(
    device_id: Seq<char>,
    data: PatchDeviceData,
    now: i64,
    device: Device,
    network: Option<Network>,
    r: (PatchState, PatchAction),
) -> bool {
    match data.network_addr {
        Some(a) => (r.0 matches PatchState::AddrCheck { device: d, network: n } && d == device
            && n == network) && (r.1 matches PatchAction::CheckAddr { network_id, network_addr }
            && network_id@ == (match network {
            None => device.network_id@,
            Some(nw) => nw.network_id@,
        }) && network_addr@ == a@),
        None => patch_update_spec(device_id, data, now, device, network, r),
    }
}

/// The write of the changes.
pub open spec fn patch_update_spec(
    device_id: Seq<char>,
    data: PatchDeviceData,
    now: i64,
    device: Device,
    network: Option<Network>,
    r: (PatchState, PatchAction),
) -> bool {
    (r.0 matches PatchState::Updating { device: d, network: n } && d == device && n == network)
        && (r.1 matches PatchAction::Update { device_id: id, updates } && id@ == device_id
        && patch_updates_spec(data, now, network, updates))
}

/// The end: the control messages of [`net_ctrl_spec`], and the answer.
pub open spec fn patch_finish_spec(data: PatchDeviceData, device: Device, network: Option<Network>, r: (PatchState, PatchAction)) -> bool {
    r.0 is Done && (r.1 matches PatchAction::Finish(m) && net_ctrl_spec(
        device,
        network,
        opt_view(data.network_addr),
        m,
    ))
}

/// The steps of `PATCH /api/v1/device/{deviceId}` at `now`, in order: the parameter errors
/// of [`patch_error`]; the device (missing: `NotFound`); the new network, which must be
/// usable for the device's unit (else `err_broker_network_not_exist`); the new address,
/// which must be free in the (new) network (else `err_broker_network_addr_exist`); the
/// write; the write of a new profile in the device's routes; the control messages. A
/// database error is answered as such; any other unexpected event ends the request.
pub open spec fn patch_device_step_spec(
    roles: Seq<(String, bool)>,
    device_id: Seq<char>,
    data: PatchDeviceData,
    now: i64,
    st: PatchState,
    ev: PatchEvent,
    r: (PatchState, PatchAction),
) -> bool {
    if st is Done {
        r.0 is Done && r.1 is Stop
    } else if patch_error(data) is Some {
        r.0 is Done && (r.1 matches PatchAction::Reply(x) && Some(x@) == patch_error(data))
    } else {
        match (st, ev) {
            (PatchState::Start, PatchEvent::Start) => r.0 is DeviceLookup && (r.1 matches PatchAction::GetDevice {
                device_id: id,
            } && id@ == device_id),
            (PatchState::DeviceLookup, PatchEvent::Device(None)) => r.0 is Done && (r.1 matches PatchAction::Reply(
                x,
            ) && x@ == ErrView::NotFound),
            (PatchState::DeviceLookup, PatchEvent::Device(Some(d))) => match data.network_id {
                Some(n) => (r.0 matches PatchState::NetworkLookup { device } && device == d) && (
                r.1 matches PatchAction::GetNetwork { network_id } && network_id@ == n@),
                None => patch_after_network(device_id, data, now, d, None, r),
            },
            (PatchState::NetworkLookup { device }, PatchEvent::Network(found)) => match found {
                Some(n) => if network_usable_spec(n, device.unit_id@, roles) {
                    patch_after_network(device_id, data, now, device, Some(n), r)
                } else {
                    r.0 is Done && (r.1 matches PatchAction::Reply(x) && x@ == ErrView::Req(
                        BrokerReq::NetworkNotExist,
                    ))
                },
                None => r.0 is Done && (r.1 matches PatchAction::Reply(x) && x@ == ErrView::Req(
                    BrokerReq::NetworkNotExist,
                )),
            },
            (PatchState::AddrCheck { device, network }, PatchEvent::AddrTaken(taken)) => if taken {
                r.0 is Done && (r.1 matches PatchAction::Reply(x) && x@ == ErrView::Req(
                    BrokerReq::NetworkAddrExist,
                ))
            } else {
                patch_update_spec(device_id, data, now, device, network, r)
            },
            (PatchState::Updating { device, network }, PatchEvent::Finished) => match data.profile {
                Some(p) => (r.0 matches PatchState::RoutesUpdating { device: d, network: n } && d
                    == device && n == network) && (r.1 matches PatchAction::UpdateRoutes {
                    device_id: id,
                    profile,
                    modified_at,
                } && id@ == device_id && profile@ == p@ && modified_at == now),
                None => patch_finish_spec(data, device, network, r),
            },
            (PatchState::RoutesUpdating { device, network }, PatchEvent::Finished) => patch_finish_spec(
                data,
                device,
                network,
                r,
            ),
            (PatchState::DeviceLookup, PatchEvent::DbError(e))
            | (PatchState::NetworkLookup { .. }, PatchEvent::DbError(e))
            | (PatchState::AddrCheck { .. }, PatchEvent::DbError(e))
            | (PatchState::Updating { .. }, PatchEvent::DbError(e))
            | (PatchState::RoutesUpdating { .. }, PatchEvent::DbError(e)) => r.0 is Done && (
            r.1 matches PatchAction::Reply(x) && x@ == ErrView::Db(e@)),
            _ => r.0 is Done && r.1 is Stop,
        }
    }
}

fn patch_after_network_step(
    device_id: &str,
    data: &PatchDeviceData,
    now: i64,
    device: Device,
    network: Option<Network>,
) -> (r: (PatchState, PatchAction))
    requires
        patch_error(*data) is None,
    ensures
        patch_after_network(device_id@, *data, now, device, network, r),
{
    match &data.network_addr {
        Some(a) => {
            let network_id = match &network {
                None => device.network_id.clone(),
                Some(nw) => nw.network_id.clone(),
            };
            (PatchState::AddrCheck { device, network }, PatchAction::CheckAddr { network_id, network_addr: a.clone() })
        },
        None => patch_update_step(device_id, data, now, device, network),
    }
}

fn patch_update_step(
    device_id: &str,
    data: &PatchDeviceData,
    now: i64,
    device: Device,
    network: Option<Network>,
) -> (r: (PatchState, PatchAction))
    requires
        patch_error(*data) is None,
    ensures
        patch_update_spec(device_id@, *data, now, device, network, r),
{
    let mut updates = match get_updates(data, now) {
        Ok(u) => u,
        Err(_) => {
            proof {
                assert(false);
            }
            return (PatchState::Done, PatchAction::Stop);
        },
    };
    updates.network = match &network {
        None => None,
        Some(n) => Some((n.network_id.clone(), n.code.clone())),
    };
    (PatchState::Updating { device, network }, PatchAction::Update { device_id: String::from_str(device_id), updates })
}

fn patch_finish_step(data: &PatchDeviceData, device: Device, network: Option<Network>) -> (r: (PatchState, PatchAction))
    ensures
        patch_finish_spec(*data, device, network, r),
{
    let m = patch_device_net_ctrl(&device, &network, &data.network_addr);
    (PatchState::Done, PatchAction::Finish(m))
}

/// One step of `PATCH /api/v1/device/{deviceId}` at `now` (see [`patch_device_step_spec`]).
pub fn patch_device_step(
    roles: &Vec<(String, bool)>,
    device_id: &str,
    data: &PatchDeviceData,
    now: i64,
    st: PatchState,
    ev: PatchEvent,
) -> (r: (PatchState, PatchAction))
    ensures
        patch_device_step_spec(roles@, device_id@, *data, now, st, ev, r),
{
    if let PatchState::Done = st {
        return (PatchState::Done, PatchAction::Stop);
    }
    if let Err(e) = check_patch_device(data) {
        return (PatchState::Done, PatchAction::Reply(e));
    }
    if let Err(e) = get_updates(data, now) {
        return (PatchState::Done, PatchAction::Reply(e));
    }
    match st {
        PatchState::Start => match ev {
            PatchEvent::Start => (PatchState::DeviceLookup, PatchAction::GetDevice { device_id: String::from_str(device_id) }),
            _ => (PatchState::Done, PatchAction::Stop),
        },
        PatchState::DeviceLookup => match ev {
            PatchEvent::Device(None) => (PatchState::Done, PatchAction::Reply(ApiError::NotFound)),
            PatchEvent::Device(Some(d)) => match &data.network_id {
                Some(n) => (PatchState::NetworkLookup { device: d }, PatchAction::GetNetwork { network_id: n.clone() }),
                None => patch_after_network_step(device_id, data, now, d, None),
            },
            PatchEvent::DbError(e) => (PatchState::Done, PatchAction::Reply(ApiError::Db(e))),
            _ => (PatchState::Done, PatchAction::Stop),
        },
        PatchState::NetworkLookup { device } => match ev {
            PatchEvent::Network(Some(n)) => {
                if network_usable(&n, device.unit_id.as_str(), roles) {
                    patch_after_network_step(device_id, data, now, device, Some(n))
                } else {
                    (PatchState::Done, PatchAction::Reply(ApiError::Req(BrokerReq::NetworkNotExist)))
                }
            },
            PatchEvent::Network(None) => (
                PatchState::Done,
                PatchAction::Reply(ApiError::Req(BrokerReq::NetworkNotExist)),
            ),
            PatchEvent::DbError(e) => (PatchState::Done, PatchAction::Reply(ApiError::Db(e))),
            _ => (PatchState::Done, PatchAction::Stop),
        },
        PatchState::AddrCheck { device, network } => match ev {
            PatchEvent::AddrTaken(taken) => {
                if taken {
                    (PatchState::Done, PatchAction::Reply(ApiError::Req(BrokerReq::NetworkAddrExist)))
                } else {
                    patch_update_step(device_id, data, now, device, network)
                }
            },
            PatchEvent::DbError(e) => (PatchState::Done, PatchAction::Reply(ApiError::Db(e))),
            _ => (PatchState::Done, PatchAction::Stop),
        },
        PatchState::Updating { device, network } => match ev {
            PatchEvent::Finished => match &data.profile {
                Some(p) => (
                    PatchState::RoutesUpdating { device, network },
                    PatchAction::UpdateRoutes { device_id: String::from_str(device_id), profile: p.clone(), modified_at: now },
                ),
                None => patch_finish_step(data, device, network),
            },
            PatchEvent::DbError(e) => (PatchState::Done, PatchAction::Reply(ApiError::Db(e))),
            _ => (PatchState::Done, PatchAction::Stop),
        },
        PatchState::RoutesUpdating { device, network } => match ev {
            PatchEvent::Finished => patch_finish_step(data, device, network),
            PatchEvent::DbError(e) => (PatchState::Done, PatchAction::Reply(ApiError::Db(e))),
            _ => (PatchState::Done, PatchAction::Stop),
        },
        PatchState::Done => (PatchState::Done, PatchAction::Stop),
    }
}

/// The records of a bulk of devices that a bulk or range deletion removes, in this order.
#[derive(PartialEq, Eq, Structural, Clone, Copy, Debug)]
pub enum BulkRsc {
    DeviceRoute,
    DlDataBuffer,
    Device,
}

/// The records deleted after `r`, none after the devices.
pub open spec fn next_bulk_rsc(r: BulkRsc) -> Option<BulkRsc> {
    match r {
        BulkRsc::DeviceRoute => Some(BulkRsc::DlDataBuffer),
        BulkRsc::DlDataBuffer => Some(BulkRsc::Device),
        BulkRsc::Device => None,
    }
}

fn next_bulk_rsc_of(r: BulkRsc) -> (n: Option<BulkRsc>)
    ensures
        n == next_bulk_rsc(r),
{
    match r {
        BulkRsc::DeviceRoute => Some(BulkRsc::DlDataBuffer),
        BulkRsc::DlDataBuffer => Some(BulkRsc::Device),
        BulkRsc::Device => None,
    }
}

/// Where a bulk or range request of devices stands: what it waits for, with the unit and the
/// network found so far.
#[derive(Debug)]
pub enum BulkState {
    Start,
    UnitLookup,
    NetworkLookup { unit: Unit },
    Adding { network: Network },
    Deleting { rsc: BulkRsc, network: Network },
    Done,
}

/// What happened to a bulk or range request of devices.
#[derive(Debug)]
pub enum BulkEvent {
    /// The request arrived.
    Start,
    /// The unit, if the query finds it.
    Unit(Option<Unit>),
    /// The network of the given network ID, if it exists.
    Network(Option<Network>),
    /// The last write was done.
    Finished,
    /// The database failed, with its error text.
    DbError(String),
}

/// What to do next for a bulk or range request of devices.
#[derive(Debug)]
pub enum BulkAction {
    /// Look up the unit with this query (for its owner, unless the user has the
    /// administrator or the manager role).
    GetUnit(UnitQueryCond),
    /// Look up the network.
    GetNetwork { network_id: String },
    /// Add these devices.
    Add(Vec<Device>),
    /// Delete the records of this kind of the unit's devices on the network with these
    /// addresses.
    Delete { rsc: BulkRsc, unit_id: String, network_id: String, network_addrs: Vec<String> },
    /// Tell the network manager of `mgr_key` about the change, and answer that it is done.
    Finish { mgr_key: String },
    /// Answer with the error.
    Reply(ApiError),
    /// Nothing more to do.
    Stop,
}

/// The view of the checked addresses of a request.
pub open spec fn addrs_outcome(r: Result<Vec<String>, ApiError>) -> Result<Seq<Seq<char>>, ErrView> {
    match r {
        Ok(v) => Ok(strs(v@)),
        Err(e) => Err(e@),
    }
}

/// The deletion of the records `rsc` of the devices with the addresses `addrs`.
pub open spec fn bulk_delete_spec(
    unit_id: Seq<char>,
    network_id: Seq<char>,
    addrs: Seq<Seq<char>>,
    rsc: BulkRsc,
    network: Network,
    r: (BulkState, BulkAction),
) -> bool {
    (r.0 matches BulkState::Deleting { rsc: k, network: n } && k == rsc && n == network) && (
    r.1 matches BulkAction::Delete { rsc: k, unit_id: u, network_id: nid, network_addrs }
        && k == rsc && u@ == unit_id && nid@ == network_id && strs(network_addrs@) == addrs)
}

/// The steps of the bulk and range requests of devices, by `user_id` with `roles`, for the
/// unit `unit_id` and the network `network_id`, given the outcome of the checks of the
/// request (`addrs`: the addresses, or the first error). In order: the checks; the unit,
/// which a user without the administrator or the manager role must own (missing:
/// `err_broker_unit_not_exist`); the network, which must be usable for the unit (else
/// `err_broker_network_not_exist`). Then, to add (`delete` false), the devices of
/// [`bulk_device_spec`], one for each address in order, with the IDs `device_ids` (which
/// must be one for each address), named by the address lower-cased when `lower_names`, else
/// by the address, with the `profile`; to delete, the devices' routes, their buffered
/// downlink data and the devices themselves, in this order. Last, the message to the
/// network's manager. A database error is answered as such; any other unexpected event
/// ends the request.
pub open spec fn bulk_step_spec(
    user_id: Seq<char>,
    roles: Seq<(String, bool)>,
    unit_id: Seq<char>,
    network_id: Seq<char>,
    addrs: Result<Seq<Seq<char>>, ErrView>,
    profile: Option<Seq<char>>,
    lower_names: bool,
    delete: bool,
    device_ids: Seq<Seq<char>>,
    now: i64,
    st: BulkState,
    ev: BulkEvent,
    r: (BulkState, BulkAction),
) -> bool {
    if st is Done {
        r.0 is Done && r.1 is Stop
    } else {
        match addrs {
            Err(e) => r.0 is Done && (r.1 matches BulkAction::Reply(x) && x@ == e),
            Ok(a) => match (st, ev) {
                (BulkState::Start, BulkEvent::Start) => r.0 is UnitLookup && (r.1 matches BulkAction::GetUnit(
                    c,
                ) && unit_cond_spec(c, user_id, roles, unit_id, true)),
                (BulkState::UnitLookup, BulkEvent::Unit(None)) => r.0 is Done && (r.1 matches BulkAction::Reply(
                    x,
                ) && x@ == ErrView::Req(BrokerReq::UnitNotExist)),
                (BulkState::UnitLookup, BulkEvent::Unit(Some(u))) => (r.0 matches BulkState::NetworkLookup {
                    unit,
                } && unit == u) && (r.1 matches BulkAction::GetNetwork { network_id: n } && n@
                    == network_id),
                (BulkState::NetworkLookup { unit }, BulkEvent::Network(found)) => if (found matches Some(
                    n,
                ) && network_usable_spec(n, unit_id, roles)) {
                    let n = found->0;
                    if delete {
                        bulk_delete_spec(unit_id, network_id, a, BulkRsc::DeviceRoute, n, r)
                    } else if device_ids.len() != a.len() {
                        r.0 is Done && r.1 is Stop
                    } else {
                        (r.0 matches BulkState::Adding { network } && network == n) && (
                        r.1 matches BulkAction::Add(v) && v.len() == a.len() && forall|i: int|
                            0 <= i < a.len() ==> bulk_device_spec(
                                #[trigger] v@[i],
                                device_ids[i],
                                unit.unit_id@,
                                unit.code@,
                                n,
                                now,
                                a[i],
                                if lower_names {
                                    lowercase(a[i])
                                } else {
                                    a[i]
                                },
                                profile,
                            ))
                    }
                } else {
                    r.0 is Done && (r.1 matches BulkAction::Reply(x) && x@ == ErrView::Req(
                        BrokerReq::NetworkNotExist,
                    ))
                },
                (BulkState::Adding { network }, BulkEvent::Finished) => r.0 is Done && (
                r.1 matches BulkAction::Finish { mgr_key } && mgr_key@ == network_mgr_key(network)),
                (BulkState::Deleting { rsc, network }, BulkEvent::Finished) => match next_bulk_rsc(rsc) {
                    Some(k) => bulk_delete_spec(unit_id, network_id, a, k, network, r),
                    None => r.0 is Done && (r.1 matches BulkAction::Finish { mgr_key } && mgr_key@
                        == network_mgr_key(network)),
                },
                (BulkState::UnitLookup, BulkEvent::DbError(e))
                | (BulkState::NetworkLookup { .. }, BulkEvent::DbError(e))
                | (BulkState::Adding { .. }, BulkEvent::DbError(e))
                | (BulkState::Deleting { .. }, BulkEvent::DbError(e)) => r.0 is Done && (
                r.1 matches BulkAction::Reply(x) && x@ == ErrView::Db(e@)),
                _ => r.0 is Done && r.1 is Stop,
            },
        }
    }
}

fn bulk_delete_action(unit_id: &str, network_id: &str, addrs: &Vec<String>, rsc: BulkRsc, network: Network) -> (r: (BulkState, BulkAction))
    ensures
        bulk_delete_spec(unit_id@, network_id@, strs(addrs@), rsc, network, r),
{
    (
        BulkState::Deleting { rsc, network },
        BulkAction::Delete {
            rsc,
            unit_id: String::from_str(unit_id),
            network_id: String::from_str(network_id),
            network_addrs: clone_strs(addrs),
        },
    )
}

fn bulk_step(
    user_id: &str,
    roles: &Vec<(String, bool)>,
    unit_id: &str,
    network_id: &str,
    addrs: Result<Vec<String>, ApiError>,
    profile: &Option<String>,
    lower_names: bool,
    delete: bool,
    device_ids: &Vec<String>,
    now: i64,
    st: BulkState,
    ev: BulkEvent,
) -> (r: (BulkState, BulkAction))
    ensures
        bulk_step_spec(
            user_id@,
            roles@,
            unit_id@,
            network_id@,
            addrs_outcome(addrs),
            opt_view(*profile),
            lower_names,
            delete,
            strs(device_ids@),
            now,
            st,
            ev,
            r,
        ),
{
    if let BulkState::Done = st {
        return (BulkState::Done, BulkAction::Stop);
    }
    let a = match addrs {
        Err(e) => return (BulkState::Done, BulkAction::Reply(e)),
        Ok(a) => a,
    };
    match st {
        BulkState::Start => match ev {
            BulkEvent::Start => (BulkState::UnitLookup, BulkAction::GetUnit(check_unit_cond(user_id, roles, unit_id, true))),
            _ => (BulkState::Done, BulkAction::Stop),
        },
        BulkState::UnitLookup => match ev {
            BulkEvent::Unit(None) => (BulkState::Done, BulkAction::Reply(ApiError::Req(BrokerReq::UnitNotExist))),
            BulkEvent::Unit(Some(u)) => (
                BulkState::NetworkLookup { unit: u },
                BulkAction::GetNetwork { network_id: String::from_str(network_id) },
            ),
            BulkEvent::DbError(e) => (BulkState::Done, BulkAction::Reply(ApiError::Db(e))),
            _ => (BulkState::Done, BulkAction::Stop),
        },
        BulkState::NetworkLookup { unit } => match ev {
            BulkEvent::Network(Some(n)) => {
                if !network_usable(&n, unit_id, roles) {
                    (BulkState::Done, BulkAction::Reply(ApiError::Req(BrokerReq::NetworkNotExist)))
                } else if delete {
                    bulk_delete_action(unit_id, network_id, &a, BulkRsc::DeviceRoute, n)
                } else if device_ids.len() != a.len() {
                    (BulkState::Done, BulkAction::Stop)
                } else {
                    let v = new_bulk_devices(
                        device_ids,
                        unit.unit_id.as_str(),
                        unit.code.as_str(),
                        &n,
                        now,
                        &a,
                        profile,
                        lower_names,
                    );
                    (BulkState::Adding { network: n }, BulkAction::Add(v))
                }
            },
            BulkEvent::Network(None) => (
                BulkState::Done,
                BulkAction::Reply(ApiError::Req(BrokerReq::NetworkNotExist)),
            ),
            BulkEvent::DbError(e) => (BulkState::Done, BulkAction::Reply(ApiError::Db(e))),
            _ => (BulkState::Done, BulkAction::Stop),
        },
        BulkState::Adding { network } => match ev {
            BulkEvent::Finished => (BulkState::Done, BulkAction::Finish { mgr_key: gen_network_mgr_key(&network) }),
            BulkEvent::DbError(e) => (BulkState::Done, BulkAction::Reply(ApiError::Db(e))),
            _ => (BulkState::Done, BulkAction::Stop),
        },
        BulkState::Deleting { rsc, network } => match ev {
            BulkEvent::Finished => match next_bulk_rsc_of(rsc) {
                Some(k) => bulk_delete_action(unit_id, network_id, &a, k, network),
                None => (BulkState::Done, BulkAction::Finish { mgr_key: gen_network_mgr_key(&network) }),
            },
            BulkEvent::DbError(e) => (BulkState::Done, BulkAction::Reply(ApiError::Db(e))),
            _ => (BulkState::Done, BulkAction::Stop),
        },
        BulkState::Done => (BulkState::Done, BulkAction::Stop),
    }
}

/// The addresses of a range request: from the start to the end, as the start is written, or
/// the first error of the checks (see [`range_check_spec`]).
pub open spec fn range_addrs_outcome(data: PostDeviceRangeData, with_profile: bool) -> Result<Seq<Seq<char>>, ErrView> {
    match range_check_spec(data, with_profile) {
        Ok(p) => Ok(range_addrs(p.0, p.1, byte_len(data.start_addr@) as nat)),
        Err(e) => Err(e),
    }
}

fn range_addr_list(data: &PostDeviceRangeData, with_profile: bool) -> (r: Result<Vec<String>, ApiError>)
    ensures
        addrs_outcome(r) == range_addrs_outcome(*data, with_profile),
{
    let checked = if with_profile {
        check_post_device_range(data)
    } else {
        check_post_device_range_del(data)
    };
    match checked {
        Err(e) => Err(e),
        Ok((start, end)) => Ok(expand_addr_range(start, end, data.start_addr.as_str().len())),
    }
}

/// One step of `POST /api/v1/device/bulk` by `user_id` at `now`, with one new device ID for
/// each address (see [`bulk_step_spec`]: the addresses of [`bulk_check_spec`], named by the
/// address lower-cased).
pub fn post_device_bulk_step(
    user_id: &str,
    roles: &Vec<(String, bool)>,
    data: &PostDeviceBulkData,
    device_ids: &Vec<String>,
    now: i64,
    st: BulkState,
    ev: BulkEvent,
) -> (r: (BulkState, BulkAction))
    ensures
        bulk_step_spec(
            user_id@,
            roles@,
            data.unit_id@,
            data.network_id@,
            bulk_check_spec(*data, true),
            opt_view(data.profile),
            true,
            false,
            strs(device_ids@),
            now,
            st,
            ev,
            r,
        ),
{
    let addrs = check_post_device_bulk(data);
    bulk_step(
        user_id,
        roles,
        data.unit_id.as_str(),
        data.network_id.as_str(),
        addrs,
        &data.profile,
        true,
        false,
        device_ids,
        now,
        st,
        ev,
    )
}

/// One step of `POST /api/v1/device/bulk-delete` by `user_id` (see [`bulk_step_spec`]: the
/// addresses of [`bulk_check_spec`]).
pub fn post_device_bulk_del_step(
    user_id: &str,
    roles: &Vec<(String, bool)>,
    data: &PostDeviceBulkData,
    st: BulkState,
    ev: BulkEvent,
) -> (r: (BulkState, BulkAction))
    ensures
        bulk_step_spec(
            user_id@,
            roles@,
            data.unit_id@,
            data.network_id@,
            bulk_check_spec(*data, false),
            opt_view(data.profile),
            true,
            true,
            Seq::empty(),
            0,
            st,
            ev,
            r,
        ),
{
    let addrs = check_post_device_bulk_del(data);
    let no_ids: Vec<String> = Vec::new();
    proof {
        assert(strs(no_ids@) =~= Seq::<Seq<char>>::empty());
    }
    bulk_step(
        user_id,
        roles,
        data.unit_id.as_str(),
        data.network_id.as_str(),
        addrs,
        &data.profile,
        true,
        true,
        &no_ids,
        0,
        st,
        ev,
    )
}

/// One step of `POST /api/v1/device/range` by `user_id` at `now`, with one new device ID for
/// each address (see [`bulk_step_spec`]: the addresses of [`range_addrs_outcome`], named by
/// the address).
pub fn post_device_range_step(
    user_id: &str,
    roles: &Vec<(String, bool)>,
    data: &PostDeviceRangeData,
    device_ids: &Vec<String>,
    now: i64,
    st: BulkState,
    ev: BulkEvent,
) -> (r: (BulkState, BulkAction))
    ensures
        bulk_step_spec(
            user_id@,
            roles@,
            data.unit_id@,
            data.network_id@,
            range_addrs_outcome(*data, true),
            opt_view(data.profile),
            false,
            false,
            strs(device_ids@),
            now,
            st,
            ev,
            r,
        ),
{
    let addrs = range_addr_list(data, true);
    bulk_step(
        user_id,
        roles,
        data.unit_id.as_str(),
        data.network_id.as_str(),
        addrs,
        &data.profile,
        false,
        false,
        device_ids,
        now,
        st,
        ev,
    )
}

/// One step of `POST /api/v1/device/range-delete` by `user_id` (see [`bulk_step_spec`]: the
/// addresses of [`range_addrs_outcome`]).
pub fn post_device_range_del_step(
    user_id: &str,
    roles: &Vec<(String, bool)>,
    data: &PostDeviceRangeData,
    st: BulkState,
    ev: BulkEvent,
) -> (r: (BulkState, BulkAction))
    ensures
        bulk_step_spec(
            user_id@,
            roles@,
            data.unit_id@,
            data.network_id@,
            range_addrs_outcome(*data, false),
            opt_view(data.profile),
            false,
            true,
            Seq::empty(),
            0,
            st,
            ev,
            r,
        ),
{
    let addrs = range_addr_list(data, false);
    let no_ids: Vec<String> = Vec::new();
    proof {
        assert(strs(no_ids@) =~= Seq::<Seq<char>>::empty());
    }
    bulk_step(
        user_id,
        roles,
        data.unit_id.as_str(),
        data.network_id.as_str(),
        addrs,
        &data.profile,
        false,
        true,
        &no_ids,
        0,
        st,
        ev,
    )
}

/// A device as the API presents it.
pub open spec fn device_data_spec(d: GetDeviceData, v: Device) -> bool {
    &&& d.device_id@ == v.device_id@
    &&& d.unit_id@ == v.unit_id@
    &&& opt_view(d.unit_code) == opt_view(v.unit_code)
    &&& d.network_id@ == v.network_id@
    &&& d.network_code@ == v.network_code@
    &&& d.network_addr@ == v.network_addr@
    &&& d.created_at@ == time_text(v.created_at)
    &&& d.modified_at@ == time_text(v.modified_at)
    &&& d.profile@ == v.profile@
    &&& d.name@ == v.name@
    &&& pairs(d.info@) == pairs(v.info@)
}

/// Presents a device, with its times in RFC 3339.
pub fn device_transform(device: &Device) -> (d: GetDeviceData)
    requires
        device.times_ok(),
    ensures
        device_data_spec(d, *device),
{
    GetDeviceData {
        device_id: device.device_id.clone(),
        unit_id: device.unit_id.clone(),
        unit_code: clone_opt(&device.unit_code),
        network_id: device.network_id.clone(),
        network_code: device.network_code.clone(),
        network_addr: device.network_addr.clone(),
        created_at: time_str(device.created_at),
        modified_at: time_str(device.modified_at),
        profile: device.profile.clone(),
        name: device.name.clone(),
        info: clone_pairs(&device.info),
    }
}

/// Presents a list of devices, in order.
pub fn device_list_transform(list: &Vec<Device>) -> (r: Vec<GetDeviceData>)
    requires
        forall|i: int| 0 <= i < list.len() ==> (#[trigger] list@[i]).times_ok(),
    ensures
        r.len() == list.len(),
        forall|i: int| 0 <= i < list.len() ==> device_data_spec(#[trigger] r@[i], list@[i]),
{
    let mut r: Vec<GetDeviceData> = Vec::new();
    let mut i: usize = 0;
    while i < list.len()
        invariant
            i <= list.len(),
            forall|k: int| 0 <= k < list.len() ==> (#[trigger] list@[k]).times_ok(),
            r.len() == i,
            forall|k: int| 0 <= k < i ==> device_data_spec(#[trigger] r@[k], list@[k]),
        decreases list.len() - i,
    {
        r.push(device_transform(&list[i]));
        i += 1;
    }
    r
}

/// A chunk of a streamed device list, from the JSON texts of its presented devices.
pub fn device_list_transform_bytes(items: &Vec<String>, with_start: bool, with_end: bool, format: Option<ListFormat>) -> (s: String)
    ensures
        s@ == frame_spec(strs(items@), with_start, with_end, format == Some(ListFormat::Array)),
{
    let array = match format {
        Some(ListFormat::Array) => true,
        _ => false,
    };
    frame_list(items, with_start, with_end, array)
}

/// `GET /api/v1/device/count` filters by each non-empty parameter on its own field: the unit
/// on the unit ID, the network on the network code, the address on the address, the profile
/// on the profile and a part of the name on the name; an absent or empty parameter filters
/// nothing.
pub proof fn lemma_device_count_fields(query: GetDeviceCountQuery, c: ListQueryCond)
    requires
        call_ensures(get_device_count_cond, (&query,), c),
    ensures
        (query.unit matches Some(v) && v@.len() > 0) ==> opt_view(c.unit_id) == Some(query.unit->0@),
        !(query.unit matches Some(v) && v@.len() > 0) ==> c.unit_id is None,
        (query.network matches Some(v) && v@.len() > 0) ==> opt_view(c.network_code) == Some(query.network->0@),
        !(query.network matches Some(v) && v@.len() > 0) ==> c.network_code is None,
        (query.addr matches Some(v) && v@.len() > 0) ==> opt_view(c.network_addr) == Some(query.addr->0@),
        !(query.addr matches Some(v) && v@.len() > 0) ==> c.network_addr is None,
        (query.profile matches Some(v) && v@.len() > 0) ==> opt_view(c.profile) == Some(query.profile->0@),
        !(query.profile matches Some(v) && v@.len() > 0) ==> c.profile is None,
        (query.contains matches Some(v) && v@.len() > 0) ==> opt_view(c.name_contains) == Some(query.contains->0@),
        !(query.contains matches Some(v) && v@.len() > 0) ==> c.name_contains is None,
{
}

/// The first query of `GET /api/v1/device/list` filters by each non-empty parameter on its
/// own field, as the count does (see [`lemma_device_count_fields`]).
pub proof fn lemma_device_list_fields(query: GetDeviceListQuery, r: Result<ListOptions, ApiError>)
    requires
        call_ensures(get_device_list_opts, (&query,), r),
    ensures
        r matches Ok(o) ==> {
            &&& (query.unit matches Some(v) && v@.len() > 0) ==> opt_view(o.cond.unit_id) == Some(query.unit->0@)
            &&& !(query.unit matches Some(v) && v@.len() > 0) ==> o.cond.unit_id is None
            &&& (query.network matches Some(v) && v@.len() > 0) ==> opt_view(o.cond.network_code) == Some(query.network->0@)
            &&& !(query.network matches Some(v) && v@.len() > 0) ==> o.cond.network_code is None
            &&& (query.addr matches Some(v) && v@.len() > 0) ==> opt_view(o.cond.network_addr) == Some(query.addr->0@)
            &&& !(query.addr matches Some(v) && v@.len() > 0) ==> o.cond.network_addr is None
            &&& (query.profile matches Some(v) && v@.len() > 0) ==> opt_view(o.cond.profile) == Some(query.profile->0@)
            &&& !(query.profile matches Some(v) && v@.len() > 0) ==> o.cond.profile is None
            &&& (query.contains matches Some(v) && v@.len() > 0) ==> opt_view(o.cond.name_contains) == Some(query.contains->0@)
            &&& !(query.contains matches Some(v) && v@.len() > 0) ==> o.cond.name_contains is None
        },
{
}

/// The queries that continue a streamed `GET /api/v1/device/list` filter by each non-empty
/// parameter on its own field as the first one does, but not by the profile.
pub proof fn lemma_device_list_stream_fields(query: GetDeviceListQuery, c: ListQueryCond)
    requires
        call_ensures(get_device_list_stream_cond, (&query,), c),
    ensures
        (query.unit matches Some(v) && v@.len() > 0) ==> opt_view(c.unit_id) == Some(query.unit->0@),
        !(query.unit matches Some(v) && v@.len() > 0) ==> c.unit_id is None,
        (query.network matches Some(v) && v@.len() > 0) ==> opt_view(c.network_code) == Some(query.network->0@),
        !(query.network matches Some(v) && v@.len() > 0) ==> c.network_code is None,
        (query.addr matches Some(v) && v@.len() > 0) ==> opt_view(c.network_addr) == Some(query.addr->0@),
        !(query.addr matches Some(v) && v@.len() > 0) ==> c.network_addr is None,
        (query.contains matches Some(v) && v@.len() > 0) ==> opt_view(c.name_contains) == Some(query.contains->0@),
        !(query.contains matches Some(v) && v@.len() > 0) ==> c.name_contains is None,
        c.profile is None,
{
}

/// What `GET /api/v1/device/list` queries: the first page by each non-empty parameter on
/// its own field, the further pages of a streamed list likewise but not by the profile.
pub proof fn lemma_device_list_step_fields(
    user_id: &str,
    roles: &Vec<(String, bool)>,
    query: GetDeviceListQuery,
    st: ListState,
    ev: ListEvent,
    r: (ListState, ListAction<ListOptions>),
)
    requires
        call_ensures(get_device_list_step, (user_id, roles, &query, st, ev), r),
    ensures
        r.1 matches ListAction::Query(o) ==> {
            &&& (query.unit matches Some(v) && v@.len() > 0) ==> opt_view(o.cond.unit_id) == Some(query.unit->0@)
            &&& !(query.unit matches Some(v) && v@.len() > 0) ==> o.cond.unit_id is None
            &&& (query.network matches Some(v) && v@.len() > 0) ==> opt_view(o.cond.network_code) == Some(query.network->0@)
            &&& !(query.network matches Some(v) && v@.len() > 0) ==> o.cond.network_code is None
            &&& (query.addr matches Some(v) && v@.len() > 0) ==> opt_view(o.cond.network_addr) == Some(query.addr->0@)
            &&& !(query.addr matches Some(v) && v@.len() > 0) ==> o.cond.network_addr is None
            &&& (query.profile matches Some(v) && v@.len() > 0) ==> opt_view(o.cond.profile) == Some(query.profile->0@)
            &&& !(query.profile matches Some(v) && v@.len() > 0) ==> o.cond.profile is None
            &&& (query.contains matches Some(v) && v@.len() > 0) ==> opt_view(o.cond.name_contains) == Some(query.contains->0@)
            &&& !(query.contains matches Some(v) && v@.len() > 0) ==> o.cond.name_contains is None
        },
        r.1 matches ListAction::Send { next: Some(o), .. } ==> {
            &&& (query.unit matches Some(v) && v@.len() > 0) ==> opt_view(o.cond.unit_id) == Some(query.unit->0@)
            &&& !(query.unit matches Some(v) && v@.len() > 0) ==> o.cond.unit_id is None
            &&& (query.network matches Some(v) && v@.len() > 0) ==> opt_view(o.cond.network_code) == Some(query.network->0@)
            &&& !(query.network matches Some(v) && v@.len() > 0) ==> o.cond.network_code is None
            &&& (query.addr matches Some(v) && v@.len() > 0) ==> opt_view(o.cond.network_addr) == Some(query.addr->0@)
            &&& !(query.addr matches Some(v) && v@.len() > 0) ==> o.cond.network_addr is None
            &&& (query.contains matches Some(v) && v@.len() > 0) ==> opt_view(o.cond.name_contains) == Some(query.contains->0@)
            &&& !(query.contains matches Some(v) && v@.len() > 0) ==> o.cond.name_contains is None
            &&& o.cond.profile is None
        },
{
}

} // verus!
