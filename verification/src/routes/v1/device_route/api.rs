//! The decisions of the device route API: the conditions of the count and list queries, the
//! sort conditions, the checks of new routes (one, a bulk of addresses or a range of
//! addresses), the new route records, and the presentation of routes.

use vstd::prelude::*;
use vstd::string::*;

use super::request::{
    GetDeviceRouteCountQuery, GetDeviceRouteListQuery, ListFormat, PostDeviceRouteBulkData,
    PostDeviceRouteData, PostDeviceRouteRangeData,
};
use super::response::GetDeviceRouteData;
use crate::corelib::{time_str, time_text};
use crate::models::{clone_strs, opt_view, strs, Application, Device, DeviceRoute, Network};
use crate::routes::v1::addr::{
    addrs_empty_msg, addrs_max_msg, byte_len, check_addr_range, check_addrs_count,
    check_range_len, expand_addr_range, lower_addrs, range_addrs, range_len_msg, range_spec,
    BULK_MAX,
};
use crate::routes::v1::device::api::addrs_spec;
use crate::routes::v1::list::{
    cond_spec, conds_view, frame_list, frame_spec, limit_spec, list_limit, list_step,
    list_step_spec, non_empty, sort_conds, sort_fault_text, sort_outcome, sort_result_in,
    ListAction, ListEvent, ListState, SortFault, LIST_CURSOR_MAX,
};
use crate::routes::v1::lib::{unit_param, unit_param_spec};
use crate::routes::v1::valid::{check_non_empty, empty_field_msg};
use crate::routes::{ApiError, BrokerReq, ErrView};

verus! {

/// The keys by which device routes are sorted.
#[derive(PartialEq, Eq, Structural, Clone, Copy, Debug)]
pub enum SortKey {
    ApplicationCode,
    NetworkCode,
    NetworkAddr,
    CreatedAt,
    ModifiedAt,
}

/// One sort condition of device routes.
pub type SortCond = crate::routes::v1::list::SortCond<SortKey>;

/// The names of the sort keys in a sort argument.
pub open spec fn sort_fields() -> Seq<Seq<char>> {
    seq!["application"@, "network"@, "addr"@, "created"@, "modified"@]
}

/// The sort keys named by [`sort_fields`], in the same order.
pub open spec fn sort_keys() -> Seq<SortKey> {
    seq![
        SortKey::ApplicationCode,
        SortKey::NetworkCode,
        SortKey::NetworkAddr,
        SortKey::CreatedAt,
        SortKey::ModifiedAt,
    ]
}

/// The sort conditions of an optional sort argument: by network code and address ascending,
/// then newest first, when there is none.
pub open spec fn sort_result(args: Option<Seq<char>>) -> Result<Seq<(SortKey, bool)>, SortFault> {
    sort_result_in(
        args,
        sort_fields(),
        sort_keys(),
        seq![(SortKey::NetworkCode, true), (SortKey::NetworkAddr, true), (SortKey::CreatedAt, false)],
    )
}

/// The sort conditions of a list request: the conditions of the sort argument, or the
/// parameter error of its first refused condition; by network code, address and creation
/// (newest first) without argument.
pub fn get_sort_cond(sort_args: &Option<String>) -> (r: Result<Vec<SortCond>, ApiError>)
    ensures
        match sort_result(opt_view(*sort_args)) {
            Ok(s) => r matches Ok(v) && conds_view(v@) == s,
            Err(f) => r matches Err(e) && e@ == ErrView::Param(sort_fault_text(f)),
        },
{
    let fields = vec![
        String::from_str("application"),
        String::from_str("network"),
        String::from_str("addr"),
        String::from_str("created"),
        String::from_str("modified"),
    ];
    let keys = vec![
        SortKey::ApplicationCode,
        SortKey::NetworkCode,
        SortKey::NetworkAddr,
        SortKey::CreatedAt,
        SortKey::ModifiedAt,
    ];
    let default = vec![
        SortCond { key: SortKey::NetworkCode, asc: true },
        SortCond { key: SortKey::NetworkAddr, asc: true },
        SortCond { key: SortKey::CreatedAt, asc: false },
    ];
    proof {
        assert(strs(fields@) =~= sort_fields());
        assert(keys@ =~= sort_keys());
        assert(conds_view(default@) =~= seq![
            (SortKey::NetworkCode, true),
            (SortKey::NetworkAddr, true),
            (SortKey::CreatedAt, false),
        ]);
    }
    sort_conds(sort_args, &fields, &keys, default)
}

/// The condition of a count or list query of device routes.
#[derive(Debug)]
pub struct ListQueryCond {
    pub unit_id: Option<String>,
    pub application_id: Option<String>,
    pub network_id: Option<String>,
    pub device_id: Option<String>,
}

/// The condition of a query of device routes, after the unit filter was checked: by the
/// unit, the application, the network and the device, an empty parameter being no filter.
pub open spec fn list_cond_spec(
    c: ListQueryCond,
    unit: Option<Seq<char>>,
    application: Option<Seq<char>>,
    network: Option<Seq<char>>,
    device: Option<Seq<char>>,
) -> bool {
    &&& opt_view(c.unit_id) == cond_spec(unit)
    &&& opt_view(c.application_id) == cond_spec(application)
    &&& opt_view(c.network_id) == cond_spec(network)
    &&& opt_view(c.device_id) == cond_spec(device)
}

/// The condition of `GET /api/v1/device-route/count`, after the unit filter was checked.
pub fn get_device_route_count_cond(query: &GetDeviceRouteCountQuery) -> (c: ListQueryCond)
    ensures
        list_cond_spec(
            c,
            opt_view(query.unit),
            opt_view(query.application),
            opt_view(query.network),
            opt_view(query.device),
        ),
{
    ListQueryCond {
        unit_id: non_empty(&query.unit),
        application_id: non_empty(&query.application),
        network_id: non_empty(&query.network),
        device_id: non_empty(&query.device),
    }
}

/// The options of a list query of device routes.
#[derive(Debug)]
pub struct ListOptions {
    pub cond: ListQueryCond,
    pub offset: Option<u64>,
    pub limit: Option<u64>,
    pub sort: Vec<SortCond>,
    pub cursor_max: Option<u64>,
}

/// The options of the queries of `GET /api/v1/device-route/list`, after the unit filter was
/// checked, or the parameter error of the sort argument.
pub fn get_device_route_list_opts(query: &GetDeviceRouteListQuery) -> (r: Result<ListOptions, ApiError>)
    ensures
        match sort_result(opt_view(query.sort)) {
            Ok(s) => r matches Ok(o) && conds_view(o.sort@) == s && list_cond_spec(
                o.cond,
                opt_view(query.unit),
                opt_view(query.application),
                opt_view(query.network),
                opt_view(query.device),
            ) && o.offset == query.offset && o.limit == limit_spec(query.limit) && o.cursor_max
                == Some(LIST_CURSOR_MAX),
            Err(f) => r matches Err(e) && e@ == ErrView::Param(sort_fault_text(f)),
        },
{
    let cond = ListQueryCond {
        unit_id: non_empty(&query.unit),
        application_id: non_empty(&query.application),
        network_id: non_empty(&query.network),
        device_id: non_empty(&query.device),
    };
    let sort = get_sort_cond(&query.sort)?;
    Ok(ListOptions {
        cond,
        offset: query.offset,
        limit: list_limit(query.limit),
        sort,
        cursor_max: Some(LIST_CURSOR_MAX),
    })
}

/// The options of the queries of `GET /api/v1/device-route/list`, the first one and those that
/// continue a streamed list alike.
pub open spec fn device_route_list_opts_ok(query: GetDeviceRouteListQuery) -> spec_fn(ListOptions) -> bool {
    |o: ListOptions|
        sort_result(opt_view(query.sort)) matches Ok(s) && conds_view(o.sort@) == s && list_cond_spec(
            o.cond,
            opt_view(query.unit),
            opt_view(query.application),
            opt_view(query.network),
            opt_view(query.device),
        ) && o.offset == query.offset && o.limit == limit_spec(query.limit) && o.cursor_max == Some(
            LIST_CURSOR_MAX,
        )
}

/// One step of `GET /api/v1/device-route/list` (see [`list_step_spec`]): the unit filter of
/// [`unit_param`], the sort argument, and the options of [`device_route_list_opts_ok`].
pub fn get_device_route_list_step(
    user_id: &str,
    roles: &Vec<(String, bool)>,
    query: &GetDeviceRouteListQuery,
    st: ListState,
    ev: ListEvent,
) -> (r: (ListState, ListAction<ListOptions>))
    ensures
        list_step_spec(
            unit_param_spec(roles@, opt_view(query.unit)),
            sort_outcome(sort_result(opt_view(query.sort))),
            device_route_list_opts_ok(*query),
            device_route_list_opts_ok(*query),
            query.format == Some(ListFormat::Array),
            user_id@,
            roles@,
            st,
            ev,
            r,
        ),
{
    let unit = unit_param(roles, &query.unit);
    let opts = match get_device_route_list_opts(query) {
        Err(e) => Err(e),
        Ok(first) => match get_device_route_list_opts(query) {
            Err(e) => Err(e),
            Ok(stream) => Ok((first, stream)),
        },
    };
    let array = match &query.format {
        Some(ListFormat::Array) => true,
        _ => false,
    };
    list_step(
        user_id,
        roles,
        unit,
        opts,
        array,
        st,
        ev,
        Ghost(device_route_list_opts_ok(*query)),
        Ghost(device_route_list_opts_ok(*query)),
    )
}


/// The checks of `POST /api/v1/device-route`, in order: the device and the application must
/// not be empty.
pub fn check_post_device_route(data: &PostDeviceRouteData) -> (r: Result<(), ApiError>)
    ensures
        data.device_id@.len() == 0 ==> (r matches Err(e) && e@ == ErrView::Param(
            empty_field_msg("deviceId"@),
        )),
        data.device_id@.len() > 0 && data.application_id@.len() == 0 ==> (r matches Err(e) && e@
            == ErrView::Param(empty_field_msg("applicationId"@))),
        data.device_id@.len() > 0 && data.application_id@.len() > 0 ==> r is Ok,
{
    check_non_empty(data.device_id.as_str(), "deviceId")?;
    check_non_empty(data.application_id.as_str(), "applicationId")
}

/// A device may be routed only to an application of its own unit.
pub fn check_route_unit(device: &Device, application: &Application) -> (r: Result<(), ApiError>)
    ensures
        device.unit_id@ == application.unit_id@ ==> r is Ok,
        device.unit_id@ != application.unit_id@ ==> (r matches Err(e) && e@ == ErrView::Req(
            BrokerReq::UnitNotMatch,
        )),
{
    if device.unit_id == application.unit_id {
        Ok(())
    } else {
        Err(ApiError::Req(BrokerReq::UnitNotMatch))
    }
}

/// A device route as created: the unit and the application from the application, the rest
/// from the device.
pub open spec fn route_spec(
    r: DeviceRoute,
    route_id: Seq<char>,
    application: Application,
    device: Device,
    network_id: Seq<char>,
    network_code: Seq<char>,
    now: i64,
) -> bool {
    &&& r.route_id@ == route_id
    &&& r.unit_id@ == application.unit_id@
    &&& r.unit_code@ == application.unit_code@
    &&& r.application_id@ == application.application_id@
    &&& r.application_code@ == application.code@
    &&& r.device_id@ == device.device_id@
    &&& r.network_id@ == network_id
    &&& r.network_code@ == network_code
    &&& r.network_addr@ == device.network_addr@
    &&& r.profile@ == device.profile@
    &&& r.created_at == now
    &&& r.modified_at == now
}

/// The new route from the device to the application.
pub fn new_device_route(route_id: &str, application: &Application, device: &Device, now: i64) -> (r: DeviceRoute)
    ensures
        route_spec(r, route_id@, *application, *device, device.network_id@, device.network_code@, now),
{
    DeviceRoute {
        route_id: String::from_str(route_id),
        unit_id: application.unit_id.clone(),
        unit_code: application.unit_code.clone(),
        application_id: application.application_id.clone(),
        application_code: application.code.clone(),
        device_id: device.device_id.clone(),
        network_id: device.network_id.clone(),
        network_code: device.network_code.clone(),
        network_addr: device.network_addr.clone(),
        profile: device.profile.clone(),
        created_at: now,
        modified_at: now,
    }
}

/// The checks of a bulk request, in order: the application and the network must not be
/// empty, there must be one to [`BULK_MAX`] addresses, and no address may be empty. The
/// result is the addresses lower-cased.
pub open spec fn bulk_check_spec(data: PostDeviceRouteBulkData) -> Result<Seq<Seq<char>>, ErrView> {
    if data.application_id@.len() == 0 {
        Err(ErrView::Param(empty_field_msg("applicationId"@)))
    } else if data.network_id@.len() == 0 {
        Err(ErrView::Param(empty_field_msg("networkId"@)))
    } else if data.network_addrs.len() == 0 {
        Err(ErrView::Param(addrs_empty_msg()))
    } else if data.network_addrs.len() > BULK_MAX {
        Err(ErrView::Param(addrs_max_msg()))
    } else {
        addrs_spec(data.network_addrs@)
    }
}

/// The checks of `POST /api/v1/device-route/bulk` and `POST /api/v1/device-route/bulk-delete`:
/// the addresses lower-cased, or the first error (see [`bulk_check_spec`]).
pub fn check_post_device_route_bulk(data: &PostDeviceRouteBulkData) -> (r: Result<Vec<String>, ApiError>)
    ensures
        match bulk_check_spec(*data) {
            Ok(a) => r matches Ok(v) && strs(v@) == a,
            Err(ev) => r matches Err(e) && e@ == ev,
        },
{
    check_non_empty(data.application_id.as_str(), "applicationId")?;
    check_non_empty(data.network_id.as_str(), "networkId")?;
    check_addrs_count(&data.network_addrs)?;
    lower_addrs(&data.network_addrs)
}

/// The checks of a range request, in order: the application and the network must not be
/// empty, the two ends must have the same length in bytes, and the range must be accepted
/// (see [`range_spec`]).
pub open spec fn range_check_spec(data: PostDeviceRouteRangeData) -> Result<(nat, nat), ErrView> {
    if data.application_id@.len() == 0 {
        Err(ErrView::Param(empty_field_msg("applicationId"@)))
    } else if data.network_id@.len() == 0 {
        Err(ErrView::Param(empty_field_msg("networkId"@)))
    } else if byte_len(data.start_addr@) != byte_len(data.end_addr@) {
        Err(ErrView::Param(range_len_msg()))
    } else {
        range_spec(data.start_addr@, data.end_addr@)
    }
}

/// The checks of `POST /api/v1/device-route/range` and
/// `POST /api/v1/device-route/range-delete`: the values of the two ends, or the first error
/// (see [`range_check_spec`]).
pub fn check_post_device_route_range(data: &PostDeviceRouteRangeData) -> (r: Result<(u128, u128), ApiError>)
    ensures
        match range_check_spec(*data) {
            Ok(p) => r matches Ok(q) && q.0 as nat == p.0 && q.1 as nat == p.1,
            Err(ev) => r matches Err(e) && e@ == ev,
        },
{
    check_non_empty(data.application_id.as_str(), "applicationId")?;
    check_non_empty(data.network_id.as_str(), "networkId")?;
    check_range_len(data.start_addr.as_str(), data.end_addr.as_str())?;
    check_addr_range(data.start_addr.as_str(), data.end_addr.as_str())
}

/// The new routes of a bulk or range request, one from each device found on the network to
/// the application, in order, with the IDs `route_ids`; the error of a request that found no
/// device.
pub fn new_bulk_routes(
    route_ids: &Vec<String>,
    application: &Application,
    network: &Network,
    devices: &Vec<Device>,
    now: i64,
) -> (r: Result<Vec<DeviceRoute>, ApiError>)
    requires
        route_ids.len() == devices.len(),
    ensures
        devices.len() == 0 ==> (r matches Err(e) && e@ == ErrView::Req(BrokerReq::DeviceNotExist)),
        devices.len() > 0 ==> (r matches Ok(v) && v.len() == devices.len() && forall|i: int|
            0 <= i < devices.len() ==> route_spec(
                #[trigger] v@[i],
                route_ids@[i]@,
                *application,
                devices@[i],
                network.network_id@,
                network.code@,
                now,
            )),
{
    if devices.len() == 0 {
        return Err(ApiError::Req(BrokerReq::DeviceNotExist));
    }
    let mut v: Vec<DeviceRoute> = Vec::new();
    let mut i: usize = 0;
    while i < devices.len()
        invariant
            i <= devices.len(),
            route_ids.len() == devices.len(),
            v.len() == i,
            forall|k: int|
                0 <= k < i ==> route_spec(
                    #[trigger] v@[k],
                    route_ids@[k]@,
                    *application,
                    devices@[k],
                    network.network_id@,
                    network.code@,
                    now,
                ),
        decreases devices.len() - i,
    {
        let d = &devices[i];
        let route = DeviceRoute {
            route_id: route_ids[i].clone(),
            unit_id: application.unit_id.clone(),
            unit_code: application.unit_code.clone(),
            application_id: application.application_id.clone(),
            application_code: application.code.clone(),
            device_id: d.device_id.clone(),
            network_id: network.network_id.clone(),
            network_code: network.code.clone(),
            network_addr: d.network_addr.clone(),
            profile: d.profile.clone(),
            created_at: now,
            modified_at: now,
        };
        v.push(route);
        i += 1;
    }
    Ok(v)
}

/// A device route as the API presents it.
pub open spec fn route_data_spec(d: GetDeviceRouteData, r: DeviceRoute) -> bool {
    &&& d.route_id@ == r.route_id@
    &&& d.unit_id@ == r.unit_id@
    &&& d.application_id@ == r.application_id@
    &&& d.application_code@ == r.application_code@
    &&& d.device_id@ == r.device_id@
    &&& d.network_id@ == r.network_id@
    &&& d.network_code@ == r.network_code@
    &&& d.network_addr@ == r.network_addr@
    &&& d.profile@ == r.profile@
    &&& d.created_at@ == time_text(r.created_at)
    &&& d.modified_at@ == time_text(r.modified_at)
}

/// Presents a device route, with its times in RFC 3339.
pub fn route_transform(route: &DeviceRoute) -> (d: GetDeviceRouteData)
    requires
        route.times_ok(),
    ensures
        route_data_spec(d, *route),
{
    GetDeviceRouteData {
        route_id: route.route_id.clone(),
        unit_id: route.unit_id.clone(),
        application_id: route.application_id.clone(),
        application_code: route.application_code.clone(),
        device_id: route.device_id.clone(),
        network_id: route.network_id.clone(),
        network_code: route.network_code.clone(),
        network_addr: route.network_addr.clone(),
        profile: route.profile.clone(),
        created_at: time_str(route.created_at),
        modified_at: time_str(route.modified_at),
    }
}

/// Presents a list of device routes, in order.
pub fn route_list_transform(list: &Vec<DeviceRoute>) -> (r: Vec<GetDeviceRouteData>)
    requires
        forall|i: int| 0 <= i < list.len() ==> (#[trigger] list@[i]).times_ok(),
    ensures
        r.len() == list.len(),
        forall|i: int| 0 <= i < list.len() ==> route_data_spec(#[trigger] r@[i], list@[i]),
{
    let mut r: Vec<GetDeviceRouteData> = Vec::new();
    let mut i: usize = 0;
    while i < list.len()
        invariant
            i <= list.len(),
            forall|k: int| 0 <= k < list.len() ==> (#[trigger] list@[k]).times_ok(),
            r.len() == i,
            forall|k: int| 0 <= k < i ==> route_data_spec(#[trigger] r@[k], list@[k]),
        decreases list.len() - i,
    {
        r.push(route_transform(&list[i]));
        i += 1;
    }
    r
}

/// A chunk of a streamed device route list, from the JSON texts of its presented routes.
pub fn route_list_transform_bytes(items: &Vec<String>, with_start: bool, with_end: bool, format: Option<ListFormat>) -> (s: String)
    ensures
        s@ == frame_spec(strs(items@), with_start, with_end, format == Some(ListFormat::Array)),
{
    let array = match format {
        Some(ListFormat::Array) => true,
        _ => false,
    };
    frame_list(items, with_start, with_end, array)
}

/// The IDs of devices, in order.
pub open spec fn device_ids_spec(devices: Seq<Device>) -> Seq<Seq<char>> {
    devices.map_values(|d: Device| d.device_id@)
}

/// The IDs of devices, in order.
pub fn device_ids(devices: &Vec<Device>) -> (r: Vec<String>)
    ensures
        strs(r@) == device_ids_spec(devices@),
{
    let mut r: Vec<String> = Vec::new();
    let mut i: usize = 0;
    while i < devices.len()
        invariant
            i <= devices.len(),
            r.len() == i,
            forall|k: int| 0 <= k < i ==> (#[trigger] r@[k])@ == devices@[k].device_id@,
        decreases devices.len() - i,
    {
        r.push(devices[i].device_id.clone());
        i += 1;
    }
    proof {
        assert(strs(r@) =~= device_ids_spec(devices@));
    }
    r
}

/// Where `POST /api/v1/device-route/range` stands: what it waits for, with the application
/// and the network found so far.
#[derive(Debug)]
pub enum RangeState {
    Start,
    ApplicationLookup,
    NetworkLookup { application: Application },
    DeviceList { application: Application, network: Network },
    Adding { device_ids: Vec<String> },
    Done,
}

/// What happened to `POST /api/v1/device-route/range`.
#[derive(Debug)]
pub enum RangeEvent {
    /// The request arrived.
    Start,
    /// The application, if it exists and the user owns its unit.
    Application(Option<Application>),
    /// The network, if it exists and the user owns its unit.
    Network(Option<Network>),
    /// The devices found on the network with an address of the range, and a new route ID for
    /// each.
    Devices { devices: Vec<Device>, route_ids: Vec<String> },
    /// The routes were added.
    Finished,
    /// The database failed, with its error text.
    DbError(String),
}

/// What to do next for `POST /api/v1/device-route/range`.
#[derive(Debug)]
pub enum RangeAction {
    /// Look up the application, for its unit's owner.
    GetApplication { application_id: String },
    /// Look up the network, for its unit's owner.
    GetNetwork { network_id: String },
    /// List the devices of the network (of the unit, if the network has one) with these
    /// addresses.
    ListDevices { unit_id: Option<String>, network_id: String, network_addrs: Vec<String> },
    /// Add these routes.
    AddRoutes(Vec<DeviceRoute>),
    /// Drop the cached routes of these devices, and answer that the routes were added.
    Finish { device_ids: Vec<String> },
    /// Answer with the error.
    Reply(ApiError),
    /// Nothing more to do.
    Stop,
}

/// The steps of `POST /api/v1/device-route/range` and `POST /api/v1/device-route/bulk` at
/// `now` for the application `application_id` and the network `network_id`, given the
/// outcome of the checks of the request (`addrs`: the addresses, or the first error), in
/// order: the checks; the application (missing: `err_broker_application_not_exist`); the
/// network (missing: `err_broker_network_not_exist`); the devices of the network with an
/// address of the range (none: `err_broker_device_not_exist`); the new routes, one for each
/// device; the end. A database error is answered as such; any other unexpected event ends
/// the request.
pub open spec fn route_addrs_step_spec(
    application_id: Seq<char>,
    network_id: Seq<char>,
    addrs: Result<Seq<Seq<char>>, ErrView>,
    now: i64,
    st: RangeState,
    ev: RangeEvent,
    r: (RangeState, RangeAction),
) -> bool {
    if st is Done {
        r.0 is Done && r.1 is Stop
    } else {
        match addrs {
            Err(e) => r.0 is Done && (r.1 matches RangeAction::Reply(x) && x@ == e),
            Ok(a) => match (st, ev) {
                (RangeState::Start, RangeEvent::Start) => r.0 is ApplicationLookup && (
                r.1 matches RangeAction::GetApplication { application_id: aid } && aid@
                    == application_id),
                (RangeState::ApplicationLookup, RangeEvent::Application(None)) => r.0 is Done && (
                r.1 matches RangeAction::Reply(x) && x@ == ErrView::Req(BrokerReq::ApplicationNotExist)),
                (RangeState::ApplicationLookup, RangeEvent::Application(Some(a))) => (
                r.0 matches RangeState::NetworkLookup { application } && application == a) && (
                r.1 matches RangeAction::GetNetwork { network_id: nid } && nid@ == network_id),
                (RangeState::NetworkLookup { .. }, RangeEvent::Network(None)) => r.0 is Done && (
                r.1 matches RangeAction::Reply(x) && x@ == ErrView::Req(BrokerReq::NetworkNotExist)),
                (RangeState::NetworkLookup { application }, RangeEvent::Network(Some(n))) => (
                r.0 matches RangeState::DeviceList { application: a, network } && a == application
                    && network == n) && (r.1 matches RangeAction::ListDevices {
                    unit_id,
                    network_id: nid,
                    network_addrs,
                } && opt_view(unit_id) == opt_view(n.unit_id) && nid@ == network_id
                    && strs(network_addrs@) == a),
                (
                    RangeState::DeviceList { application, network },
                    RangeEvent::Devices { devices, route_ids },
                ) => if route_ids.len() != devices.len() {
                    r.0 is Done && r.1 is Stop
                } else if devices.len() == 0 {
                    r.0 is Done && (r.1 matches RangeAction::Reply(x) && x@ == ErrView::Req(
                        BrokerReq::DeviceNotExist,
                    ))
                } else {
                    (r.0 matches RangeState::Adding { device_ids } && strs(device_ids@)
                        == device_ids_spec(devices@)) && (r.1 matches RangeAction::AddRoutes(v)
                        && v.len() == devices.len() && forall|i: int|
                        0 <= i < devices.len() ==> route_spec(
                            #[trigger] v@[i],
                            route_ids@[i]@,
                            application,
                            devices@[i],
                            network.network_id@,
                            network.code@,
                            now,
                        ))
                },
                (RangeState::Adding { device_ids }, RangeEvent::Finished) => r.0 is Done && (
                r.1 matches RangeAction::Finish { device_ids: ids } && ids == device_ids),
                (RangeState::ApplicationLookup, RangeEvent::DbError(e))
                | (RangeState::NetworkLookup { .. }, RangeEvent::DbError(e))
                | (RangeState::DeviceList { .. }, RangeEvent::DbError(e))
                | (RangeState::Adding { .. }, RangeEvent::DbError(e)) => r.0 is Done && (
                r.1 matches RangeAction::Reply(x) && x@ == ErrView::Db(e@)),
                _ => r.0 is Done && r.1 is Stop,
            },
        }
    }
}

/// The addresses of a range request of routes: from the start to the end, as the start is
/// written, or the first error of the checks (see [`range_check_spec`]).
pub open spec fn route_range_outcome(data: PostDeviceRouteRangeData) -> Result<Seq<Seq<char>>, ErrView> {
    match range_check_spec(data) {
        Ok(p) => Ok(range_addrs(p.0, p.1, byte_len(data.start_addr@) as nat)),
        Err(e) => Err(e),
    }
}

/// The steps of `POST /api/v1/device-route/range` at `now` (see [`route_addrs_step_spec`],
/// with the addresses of [`route_range_outcome`]).
pub open spec fn range_step_spec(
    data: PostDeviceRouteRangeData,
    now: i64,
    st: RangeState,
    ev: RangeEvent,
    r: (RangeState, RangeAction),
) -> bool {
    route_addrs_step_spec(data.application_id@, data.network_id@, route_range_outcome(data), now, st, ev, r)
}

/// The view of the checked addresses of a request.
pub open spec fn route_addrs_outcome(r: Result<Vec<String>, ApiError>) -> Result<Seq<Seq<char>>, ErrView> {
    match r {
        Ok(v) => Ok(strs(v@)),
        Err(e) => Err(e@),
    }
}

fn route_addrs_step(
    application_id: &str,
    network_id: &str,
    addrs: Result<Vec<String>, ApiError>,
    now: i64,
    st: RangeState,
    ev: RangeEvent,
) -> (r: (RangeState, RangeAction))
    ensures
        route_addrs_step_spec(application_id@, network_id@, route_addrs_outcome(addrs), now, st, ev, r),
{
    if let RangeState::Done = st {
        return (RangeState::Done, RangeAction::Stop);
    }
    let a = match addrs {
        Err(e) => return (RangeState::Done, RangeAction::Reply(e)),
        Ok(a) => a,
    };
    match st {
        RangeState::Start => match ev {
            RangeEvent::Start => (
                RangeState::ApplicationLookup,
                RangeAction::GetApplication { application_id: String::from_str(application_id) },
            ),
            _ => (RangeState::Done, RangeAction::Stop),
        },
        RangeState::ApplicationLookup => match ev {
            RangeEvent::Application(None) => (
                RangeState::Done,
                RangeAction::Reply(ApiError::Req(BrokerReq::ApplicationNotExist)),
            ),
            RangeEvent::Application(Some(a)) => (
                RangeState::NetworkLookup { application: a },
                RangeAction::GetNetwork { network_id: String::from_str(network_id) },
            ),
            RangeEvent::DbError(e) => (RangeState::Done, RangeAction::Reply(ApiError::Db(e))),
            _ => (RangeState::Done, RangeAction::Stop),
        },
        RangeState::NetworkLookup { application } => match ev {
            RangeEvent::Network(None) => (
                RangeState::Done,
                RangeAction::Reply(ApiError::Req(BrokerReq::NetworkNotExist)),
            ),
            RangeEvent::Network(Some(n)) => {
                let unit_id = match &n.unit_id {
                    None => None,
                    Some(u) => Some(u.clone()),
                };
                (
                    RangeState::DeviceList { application, network: n },
                    RangeAction::ListDevices {
                        unit_id,
                        network_id: String::from_str(network_id),
                        network_addrs: clone_strs(&a),
                    },
                )
            },
            RangeEvent::DbError(e) => (RangeState::Done, RangeAction::Reply(ApiError::Db(e))),
            _ => (RangeState::Done, RangeAction::Stop),
        },
        RangeState::DeviceList { application, network } => match ev {
            RangeEvent::Devices { devices, route_ids } => {
                if route_ids.len() != devices.len() {
                    (RangeState::Done, RangeAction::Stop)
                } else {
                    match new_bulk_routes(&route_ids, &application, &network, &devices, now) {
                        Err(e) => (RangeState::Done, RangeAction::Reply(e)),
                        Ok(v) => (RangeState::Adding { device_ids: device_ids(&devices) }, RangeAction::AddRoutes(v)),
                    }
                }
            },
            RangeEvent::DbError(e) => (RangeState::Done, RangeAction::Reply(ApiError::Db(e))),
            _ => (RangeState::Done, RangeAction::Stop),
        },
        RangeState::Adding { device_ids } => match ev {
            RangeEvent::Finished => (RangeState::Done, RangeAction::Finish { device_ids }),
            RangeEvent::DbError(e) => (RangeState::Done, RangeAction::Reply(ApiError::Db(e))),
            _ => (RangeState::Done, RangeAction::Stop),
        },
        RangeState::Done => (RangeState::Done, RangeAction::Stop),
    }
}

/// One step of `POST /api/v1/device-route/range` at `now` (see [`range_step_spec`]).
pub fn post_device_route_range_step(
    data: &PostDeviceRouteRangeData,
    now: i64,
    st: RangeState,
    ev: RangeEvent,
) -> (r: (RangeState, RangeAction))
    ensures
        range_step_spec(*data, now, st, ev, r),
{
    let addrs = match check_post_device_route_range(data) {
        Err(e) => Err(e),
        Ok((start, end)) => Ok(expand_addr_range(start, end, data.start_addr.as_str().len())),
    };
    route_addrs_step(data.application_id.as_str(), data.network_id.as_str(), addrs, now, st, ev)
}

/// One step of `POST /api/v1/device-route/bulk` at `now` (see [`route_addrs_step_spec`], with
/// the addresses of [`bulk_check_spec`]).
pub fn post_device_route_bulk_step(
    data: &PostDeviceRouteBulkData,
    now: i64,
    st: RangeState,
    ev: RangeEvent,
) -> (r: (RangeState, RangeAction))
    ensures
        route_addrs_step_spec(data.application_id@, data.network_id@, bulk_check_spec(*data), now, st, ev, r),
{
    let addrs = check_post_device_route_bulk(data);
    route_addrs_step(data.application_id.as_str(), data.network_id.as_str(), addrs, now, st, ev)
}

/// The parameter error of `POST /api/v1/device-route`, if any (see
/// [`check_post_device_route`]).
pub open spec fn post_route_error(data: PostDeviceRouteData) -> Option<ErrView> {
    if data.device_id@.len() == 0 {
        Some(ErrView::Param(empty_field_msg("deviceId"@)))
    } else if data.application_id@.len() == 0 {
        Some(ErrView::Param(empty_field_msg("applicationId"@)))
    } else {
        None
    }
}

/// Where `POST /api/v1/device-route` stands: what it waits for, with the device and the
/// application found so far.
#[derive(Debug)]
pub enum RouteState {
    Start,
    DeviceLookup,
    ApplicationLookup { device: Device },
    RouteCheck { device: Device, application: Application },
    Adding { device_id: String },
    Done,
}

/// What happened to `POST /api/v1/device-route`.
#[derive(Debug)]
pub enum RouteEvent {
    /// The request arrived.
    Start,
    /// The device, if it exists and the user owns its unit.
    Device(Option<Device>),
    /// The application, if it exists and the user owns its unit.
    Application(Option<Application>),
    /// Whether a route from the device to the application exists.
    RouteFound(bool),
    /// The route was added.
    Finished,
    /// The database failed, with its error text.
    DbError(String),
}

/// What to do next for `POST /api/v1/device-route`.
#[derive(Debug)]
pub enum RouteAction {
    /// Look up the device, for its unit's owner.
    GetDevice { device_id: String },
    /// Look up the application, for its unit's owner.
    GetApplication { application_id: String },
    /// Look up a route from the device to the application.
    FindRoute { application_id: String, device_id: String },
    /// Add the route.
    Add(DeviceRoute),
    /// Drop the cached routes of the device, and answer with the new route's ID.
    Finish { device_id: String },
    /// Answer with the error.
    Reply(ApiError),
    /// Nothing more to do.
    Stop,
}

/// The steps of `POST /api/v1/device-route` at `now` with the new route ID `route_id`, in
/// order: the checks of [`post_route_error`]; the device (missing:
/// `err_broker_device_not_exist`); the application (missing:
/// `err_broker_application_not_exist`); the two must be of one unit (else
/// `err_broker_unit_not_match`); no route may join them yet (else `err_broker_route_exist`);
/// the new route of [`route_spec`]; the end. A database error is answered as such; any other
/// unexpected event ends the request.
pub open spec fn route_step_spec(
    data: PostDeviceRouteData,
    route_id: Seq<char>,
    now: i64,
    st: RouteState,
    ev: RouteEvent,
    r: (RouteState, RouteAction),
) -> bool {
    if st is Done {
        r.0 is Done && r.1 is Stop
    } else if post_route_error(data) is Some {
        r.0 is Done && (r.1 matches RouteAction::Reply(x) && Some(x@) == post_route_error(data))
    } else {
        match (st, ev) {
            (RouteState::Start, RouteEvent::Start) => r.0 is DeviceLookup && (r.1 matches RouteAction::GetDevice {
                device_id,
            } && device_id@ == data.device_id@),
            (RouteState::DeviceLookup, RouteEvent::Device(None)) => r.0 is Done && (r.1 matches RouteAction::Reply(
                x,
            ) && x@ == ErrView::Req(BrokerReq::DeviceNotExist)),
            (RouteState::DeviceLookup, RouteEvent::Device(Some(d))) => (r.0 matches RouteState::ApplicationLookup {
                device,
            } && device == d) && (r.1 matches RouteAction::GetApplication { application_id }
                && application_id@ == data.application_id@),
            (RouteState::ApplicationLookup { .. }, RouteEvent::Application(None)) => r.0 is Done && (
            r.1 matches RouteAction::Reply(x) && x@ == ErrView::Req(BrokerReq::ApplicationNotExist)),
            (RouteState::ApplicationLookup { device }, RouteEvent::Application(Some(a))) => if device.unit_id@
                != a.unit_id@ {
                r.0 is Done && (r.1 matches RouteAction::Reply(x) && x@ == ErrView::Req(
                    BrokerReq::UnitNotMatch,
                ))
            } else {
                (r.0 matches RouteState::RouteCheck { device: d, application } && d == device
                    && application == a) && (r.1 matches RouteAction::FindRoute {
                    application_id,
                    device_id,
                } && application_id@ == data.application_id@ && device_id@ == data.device_id@)
            },
            (RouteState::RouteCheck { device, application }, RouteEvent::RouteFound(found)) => if found {
                r.0 is Done && (r.1 matches RouteAction::Reply(x) && x@ == ErrView::Req(
                    BrokerReq::RouteExist,
                ))
            } else {
                (r.0 matches RouteState::Adding { device_id } && device_id@ == device.device_id@) && (
                r.1 matches RouteAction::Add(route) && route_spec(
                    route,
                    route_id,
                    application,
                    device,
                    device.network_id@,
                    device.network_code@,
                    now,
                ))
            },
            (RouteState::Adding { device_id }, RouteEvent::Finished) => r.0 is Done && (
            r.1 matches RouteAction::Finish { device_id: id } && id == device_id),
            (RouteState::DeviceLookup, RouteEvent::DbError(e))
            | (RouteState::ApplicationLookup { .. }, RouteEvent::DbError(e))
            | (RouteState::RouteCheck { .. }, RouteEvent::DbError(e))
            | (RouteState::Adding { .. }, RouteEvent::DbError(e)) => r.0 is Done && (
            r.1 matches RouteAction::Reply(x) && x@ == ErrView::Db(e@)),
            _ => r.0 is Done && r.1 is Stop,
        }
    }
}

/// One step of `POST /api/v1/device-route` at `now` with the new route ID `route_id` (see
/// [`route_step_spec`]).
pub fn post_device_route_step(
    data: &PostDeviceRouteData,
    route_id: &str,
    now: i64,
    st: RouteState,
    ev: RouteEvent,
) -> (r: (RouteState, RouteAction))
    ensures
        route_step_spec(*data, route_id@, now, st, ev, r),
{
    if let RouteState::Done = st {
        return (RouteState::Done, RouteAction::Stop);
    }
    if let Err(e) = check_post_device_route(data) {
        return (RouteState::Done, RouteAction::Reply(e));
    }
    match st {
        RouteState::Start => match ev {
            RouteEvent::Start => (RouteState::DeviceLookup, RouteAction::GetDevice { device_id: data.device_id.clone() }),
            _ => (RouteState::Done, RouteAction::Stop),
        },
        RouteState::DeviceLookup => match ev {
            RouteEvent::Device(None) => (RouteState::Done, RouteAction::Reply(ApiError::Req(BrokerReq::DeviceNotExist))),
            RouteEvent::Device(Some(d)) => (
                RouteState::ApplicationLookup { device: d },
                RouteAction::GetApplication { application_id: data.application_id.clone() },
            ),
            RouteEvent::DbError(e) => (RouteState::Done, RouteAction::Reply(ApiError::Db(e))),
            _ => (RouteState::Done, RouteAction::Stop),
        },
        RouteState::ApplicationLookup { device } => match ev {
            RouteEvent::Application(None) => (
                RouteState::Done,
                RouteAction::Reply(ApiError::Req(BrokerReq::ApplicationNotExist)),
            ),
            RouteEvent::Application(Some(a)) => match check_route_unit(&device, &a) {
                Err(e) => (RouteState::Done, RouteAction::Reply(e)),
                Ok(()) => (
                    RouteState::RouteCheck { device, application: a },
                    RouteAction::FindRoute {
                        application_id: data.application_id.clone(),
                        device_id: data.device_id.clone(),
                    },
                ),
            },
            RouteEvent::DbError(e) => (RouteState::Done, RouteAction::Reply(ApiError::Db(e))),
            _ => (RouteState::Done, RouteAction::Stop),
        },
        RouteState::RouteCheck { device, application } => match ev {
            RouteEvent::RouteFound(found) => {
                if found {
                    (RouteState::Done, RouteAction::Reply(ApiError::Req(BrokerReq::RouteExist)))
                } else {
                    let route = new_device_route(route_id, &application, &device, now);
                    (RouteState::Adding { device_id: device.device_id }, RouteAction::Add(route))
                }
            },
            RouteEvent::DbError(e) => (RouteState::Done, RouteAction::Reply(ApiError::Db(e))),
            _ => (RouteState::Done, RouteAction::Stop),
        },
        RouteState::Adding { device_id } => match ev {
            RouteEvent::Finished => (RouteState::Done, RouteAction::Finish { device_id }),
            RouteEvent::DbError(e) => (RouteState::Done, RouteAction::Reply(ApiError::Db(e))),
            _ => (RouteState::Done, RouteAction::Stop),
        },
        RouteState::Done => (RouteState::Done, RouteAction::Stop),
    }
}

/// Where a bulk or range deletion of device routes stands: what it waits for.
#[derive(Debug)]
pub enum RouteDelState {
    Start,
    ApplicationLookup,
    NetworkLookup,
    Deleting { network: Network },
    Done,
}

/// What happened to a bulk or range deletion of device routes.
#[derive(Debug)]
pub enum RouteDelEvent {
    /// The request arrived.
    Start,
    /// Whether the application exists and the user owns its unit.
    Application(bool),
    /// The network, if it exists and the user owns its unit.
    Network(Option<Network>),
    /// The routes were deleted.
    Finished,
    /// The database failed, with its error text.
    DbError(String),
}

/// What to do next for a bulk or range deletion of device routes.
#[derive(Debug)]
pub enum RouteDelAction {
    /// Look up the application, for its unit's owner.
    GetApplication { application_id: String },
    /// Look up the network, for its unit's owner.
    GetNetwork { network_id: String },
    /// Delete the routes from the application to the network's devices with these addresses.
    Delete { application_id: String, network_id: String, network_addrs: Vec<String> },
    /// Drop the cached routes of the network's devices (of the unit, if the network has one)
    /// with these addresses, and answer that the routes were deleted.
    Finish { unit_id: Option<String>, network_id: String, network_addrs: Vec<String> },
    /// Answer with the error.
    Reply(ApiError),
    /// Nothing more to do.
    Stop,
}

/// The steps of `POST /api/v1/device-route/bulk-delete` and
/// `POST /api/v1/device-route/range-delete` for the application `application_id` and the
/// network `network_id`, given the outcome of the checks of the request (`addrs`: the
/// addresses, or the first error), in order: the checks; the application (missing:
/// `err_broker_application_not_exist`); the network (missing:
/// `err_broker_network_not_exist`); the deletion of the routes from the application to the
/// network's devices with the addresses; the end. A database error is answered as such; any
/// other unexpected event ends the request.
pub open spec fn route_del_step_spec(
    application_id: Seq<char>,
    network_id: Seq<char>,
    addrs: Result<Seq<Seq<char>>, ErrView>,
    st: RouteDelState,
    ev: RouteDelEvent,
    r: (RouteDelState, RouteDelAction),
) -> bool {
    if st is Done {
        r.0 is Done && r.1 is Stop
    } else {
        match addrs {
            Err(e) => r.0 is Done && (r.1 matches RouteDelAction::Reply(x) && x@ == e),
            Ok(a) => match (st, ev) {
                (RouteDelState::Start, RouteDelEvent::Start) => r.0 is ApplicationLookup && (
                r.1 matches RouteDelAction::GetApplication { application_id: aid } && aid@
                    == application_id),
                (RouteDelState::ApplicationLookup, RouteDelEvent::Application(found)) => if found {
                    r.0 is NetworkLookup && (r.1 matches RouteDelAction::GetNetwork { network_id: nid }
                        && nid@ == network_id)
                } else {
                    r.0 is Done && (r.1 matches RouteDelAction::Reply(x) && x@ == ErrView::Req(
                        BrokerReq::ApplicationNotExist,
                    ))
                },
                (RouteDelState::NetworkLookup, RouteDelEvent::Network(None)) => r.0 is Done && (
                r.1 matches RouteDelAction::Reply(x) && x@ == ErrView::Req(BrokerReq::NetworkNotExist)),
                (RouteDelState::NetworkLookup, RouteDelEvent::Network(Some(n))) => (
                r.0 matches RouteDelState::Deleting { network } && network == n) && (
                r.1 matches RouteDelAction::Delete { application_id: aid, network_id: nid, network_addrs }
                    && aid@ == application_id && nid@ == network_id && strs(network_addrs@) == a),
                (RouteDelState::Deleting { network }, RouteDelEvent::Finished) => r.0 is Done && (
                r.1 matches RouteDelAction::Finish { unit_id, network_id: nid, network_addrs }
                    && opt_view(unit_id) == opt_view(network.unit_id) && nid@ == network_id && strs(
                    network_addrs@,
                ) == a),
                (RouteDelState::ApplicationLookup, RouteDelEvent::DbError(e))
                | (RouteDelState::NetworkLookup, RouteDelEvent::DbError(e))
                | (RouteDelState::Deleting { .. }, RouteDelEvent::DbError(e)) => r.0 is Done && (
                r.1 matches RouteDelAction::Reply(x) && x@ == ErrView::Db(e@)),
                _ => r.0 is Done && r.1 is Stop,
            },
        }
    }
}

fn route_del_step(
    application_id: &str,
    network_id: &str,
    addrs: Result<Vec<String>, ApiError>,
    st: RouteDelState,
    ev: RouteDelEvent,
) -> (r: (RouteDelState, RouteDelAction))
    ensures
        route_del_step_spec(application_id@, network_id@, route_addrs_outcome(addrs), st, ev, r),
{
    if let RouteDelState::Done = st {
        return (RouteDelState::Done, RouteDelAction::Stop);
    }
    let a = match addrs {
        Err(e) => return (RouteDelState::Done, RouteDelAction::Reply(e)),
        Ok(a) => a,
    };
    match st {
        RouteDelState::Start => match ev {
            RouteDelEvent::Start => (
                RouteDelState::ApplicationLookup,
                RouteDelAction::GetApplication { application_id: String::from_str(application_id) },
            ),
            _ => (RouteDelState::Done, RouteDelAction::Stop),
        },
        RouteDelState::ApplicationLookup => match ev {
            RouteDelEvent::Application(found) => {
                if found {
                    (RouteDelState::NetworkLookup, RouteDelAction::GetNetwork { network_id: String::from_str(network_id) })
                } else {
                    (RouteDelState::Done, RouteDelAction::Reply(ApiError::Req(BrokerReq::ApplicationNotExist)))
                }
            },
            RouteDelEvent::DbError(e) => (RouteDelState::Done, RouteDelAction::Reply(ApiError::Db(e))),
            _ => (RouteDelState::Done, RouteDelAction::Stop),
        },
        RouteDelState::NetworkLookup => match ev {
            RouteDelEvent::Network(None) => (
                RouteDelState::Done,
                RouteDelAction::Reply(ApiError::Req(BrokerReq::NetworkNotExist)),
            ),
            RouteDelEvent::Network(Some(n)) => (
                RouteDelState::Deleting { network: n },
                RouteDelAction::Delete {
                    application_id: String::from_str(application_id),
                    network_id: String::from_str(network_id),
                    network_addrs: a,
                },
            ),
            RouteDelEvent::DbError(e) => (RouteDelState::Done, RouteDelAction::Reply(ApiError::Db(e))),
            _ => (RouteDelState::Done, RouteDelAction::Stop),
        },
        RouteDelState::Deleting { network } => match ev {
            RouteDelEvent::Finished => (
                RouteDelState::Done,
                RouteDelAction::Finish {
                    unit_id: match &network.unit_id {
                        None => None,
                        Some(u) => Some(u.clone()),
                    },
                    network_id: String::from_str(network_id),
                    network_addrs: a,
                },
            ),
            RouteDelEvent::DbError(e) => (RouteDelState::Done, RouteDelAction::Reply(ApiError::Db(e))),
            _ => (RouteDelState::Done, RouteDelAction::Stop),
        },
        RouteDelState::Done => (RouteDelState::Done, RouteDelAction::Stop),
    }
}

/// One step of `POST /api/v1/device-route/bulk-delete` (see [`route_del_step_spec`], with the
/// addresses of [`bulk_check_spec`]).
pub fn post_device_route_bulk_del_step(
    data: &PostDeviceRouteBulkData,
    st: RouteDelState,
    ev: RouteDelEvent,
) -> (r: (RouteDelState, RouteDelAction))
    ensures
        route_del_step_spec(data.application_id@, data.network_id@, bulk_check_spec(*data), st, ev, r),
{
    let addrs = check_post_device_route_bulk(data);
    route_del_step(data.application_id.as_str(), data.network_id.as_str(), addrs, st, ev)
}

/// One step of `POST /api/v1/device-route/range-delete` (see [`route_del_step_spec`], with
/// the addresses of [`route_range_outcome`]).
pub fn post_device_route_range_del_step(
    data: &PostDeviceRouteRangeData,
    st: RouteDelState,
    ev: RouteDelEvent,
) -> (r: (RouteDelState, RouteDelAction))
    ensures
        route_del_step_spec(data.application_id@, data.network_id@, route_range_outcome(*data), st, ev, r),
{
    let addrs = match check_post_device_route_range(data) {
        Err(e) => Err(e),
        Ok((start, end)) => Ok(expand_addr_range(start, end, data.start_addr.as_str().len())),
    };
    route_del_step(data.application_id.as_str(), data.network_id.as_str(), addrs, st, ev)
}

/// `GET /api/v1/device-route/count` filters by each non-empty parameter on its own field:
/// the unit on the unit ID, the application on the application ID, the network on the
/// network ID and the device on the device ID; an absent or empty parameter filters nothing.
pub proof fn lemma_device_route_count_fields(query: GetDeviceRouteCountQuery, c: ListQueryCond)
    requires
        call_ensures(get_device_route_count_cond, (&query,), c),
    ensures
        (query.unit matches Some(u) && u@.len() > 0) ==> opt_view(c.unit_id) == Some(query.unit->0@),
        !(query.unit matches Some(u) && u@.len() > 0) ==> c.unit_id is None,
        (query.application matches Some(a) && a@.len() > 0) ==> opt_view(c.application_id) == Some(
            query.application->0@,
        ),
        !(query.application matches Some(a) && a@.len() > 0) ==> c.application_id is None,
        (query.network matches Some(n) && n@.len() > 0) ==> opt_view(c.network_id) == Some(
            query.network->0@,
        ),
        !(query.network matches Some(n) && n@.len() > 0) ==> c.network_id is None,
        (query.device matches Some(d) && d@.len() > 0) ==> opt_view(c.device_id) == Some(
            query.device->0@,
        ),
        !(query.device matches Some(d) && d@.len() > 0) ==> c.device_id is None,
{
}

/// The first query of `GET /api/v1/device-route/list` filters by each non-empty parameter
/// on its own field, as the count does (see [`lemma_device_route_count_fields`]).
pub proof fn lemma_device_route_list_fields(query: GetDeviceRouteListQuery, r: Result<ListOptions, ApiError>)
    requires
        call_ensures(get_device_route_list_opts, (&query,), r),
    ensures
        r matches Ok(o) ==> {
            &&& (query.unit matches Some(v) && v@.len() > 0) ==> opt_view(o.cond.unit_id) == Some(query.unit->0@)
            &&& !(query.unit matches Some(v) && v@.len() > 0) ==> o.cond.unit_id is None
            &&& (query.application matches Some(v) && v@.len() > 0) ==> opt_view(o.cond.application_id) == Some(query.application->0@)
            &&& !(query.application matches Some(v) && v@.len() > 0) ==> o.cond.application_id is None
            &&& (query.network matches Some(v) && v@.len() > 0) ==> opt_view(o.cond.network_id) == Some(query.network->0@)
            &&& !(query.network matches Some(v) && v@.len() > 0) ==> o.cond.network_id is None
            &&& (query.device matches Some(v) && v@.len() > 0) ==> opt_view(o.cond.device_id) == Some(query.device->0@)
            &&& !(query.device matches Some(v) && v@.len() > 0) ==> o.cond.device_id is None
        },
{
}

/// What `GET /api/v1/device-route/list` queries, the first page and the further ones alike:
/// each non-empty parameter on its own field.
pub proof fn lemma_device_route_list_step_fields(
    user_id: &str,
    roles: &Vec<(String, bool)>,
    query: GetDeviceRouteListQuery,
    st: ListState,
    ev: ListEvent,
    r: (ListState, ListAction<ListOptions>),
)
    requires
        call_ensures(get_device_route_list_step, (user_id, roles, &query, st, ev), r),
    ensures
        r.1 matches ListAction::Query(o) ==> {
            &&& (query.unit matches Some(v) && v@.len() > 0) ==> opt_view(o.cond.unit_id) == Some(query.unit->0@)
            &&& !(query.unit matches Some(v) && v@.len() > 0) ==> o.cond.unit_id is None
            &&& (query.application matches Some(v) && v@.len() > 0) ==> opt_view(o.cond.application_id) == Some(query.application->0@)
            &&& !(query.application matches Some(v) && v@.len() > 0) ==> o.cond.application_id is None
            &&& (query.network matches Some(v) && v@.len() > 0) ==> opt_view(o.cond.network_id) == Some(query.network->0@)
            &&& !(query.network matches Some(v) && v@.len() > 0) ==> o.cond.network_id is None
            &&& (query.device matches Some(v) && v@.len() > 0) ==> opt_view(o.cond.device_id) == Some(query.device->0@)
            &&& !(query.device matches Some(v) && v@.len() > 0) ==> o.cond.device_id is None
        },
        r.1 matches ListAction::Send { next: Some(o), .. } ==> {
            &&& (query.unit matches Some(v) && v@.len() > 0) ==> opt_view(o.cond.unit_id) == Some(query.unit->0@)
            &&& !(query.unit matches Some(v) && v@.len() > 0) ==> o.cond.unit_id is None
            &&& (query.application matches Some(v) && v@.len() > 0) ==> opt_view(o.cond.application_id) == Some(query.application->0@)
            &&& !(query.application matches Some(v) && v@.len() > 0) ==> o.cond.application_id is None
            &&& (query.network matches Some(v) && v@.len() > 0) ==> opt_view(o.cond.network_id) == Some(query.network->0@)
            &&& !(query.network matches Some(v) && v@.len() > 0) ==> o.cond.network_id is None
            &&& (query.device matches Some(v) && v@.len() > 0) ==> opt_view(o.cond.device_id) == Some(query.device->0@)
            &&& !(query.device matches Some(v) && v@.len() > 0) ==> o.cond.device_id is None
        },
{
}

} // verus!
