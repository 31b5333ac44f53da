//! The decisions of the network route API: the conditions of the count and list queries, the
//! sort conditions, the checks of a new route, the new route record, and the presentation of
//! routes.

use vstd::prelude::*;
use vstd::string::*;

use super::request::{
    GetNetworkRouteCountQuery, GetNetworkRouteListQuery, ListFormat, PostNetworkRouteData,
};
use super::response::GetNetworkRouteData;
use crate::corelib::{time_str, time_text};
use crate::models::{opt_view, strs, Application, Network, NetworkRoute};
use crate::routes::v1::list::{
    cond_spec, conds_view, frame_list, frame_spec, limit_spec, list_limit, list_step,
    list_step_spec, non_empty, sort_conds, sort_fault_text, sort_outcome, sort_result_in,
    ListAction, ListEvent, ListState, SortFault, LIST_CURSOR_MAX,
};
use crate::routes::v1::lib::{unit_param, unit_param_spec};
use crate::routes::v1::valid::{check_non_empty, empty_field_msg};
use crate::routes::{ApiError, BrokerReq, ErrView};

verus! {

/// The keys by which network routes are sorted.
#[derive(PartialEq, Eq, Structural, Clone, Copy, Debug)]
pub enum SortKey {
    ApplicationCode,
    NetworkCode,
    CreatedAt,
}

/// One sort condition of network routes.
pub type SortCond = crate::routes::v1::list::SortCond<SortKey>;

/// The names of the sort keys in a sort argument.
pub open spec fn sort_fields() -> Seq<Seq<char>> {
    seq!["application"@, "network"@, "created"@]
}

/// The sort keys named by [`sort_fields`], in the same order.
pub open spec fn sort_keys() -> Seq<SortKey> {
    seq![SortKey::ApplicationCode, SortKey::NetworkCode, SortKey::CreatedAt]
}

/// The sort conditions of an optional sort argument: by network code ascending, then newest
/// first, when there is none.
pub open spec fn sort_result(args: Option<Seq<char>>) -> Result<Seq<(SortKey, bool)>, SortFault> {
    sort_result_in(
        args,
        sort_fields(),
        sort_keys(),
        seq![(SortKey::NetworkCode, true), (SortKey::CreatedAt, false)],
    )
}

/// The sort conditions of a list request: the conditions of the sort argument, or the
/// parameter error of its first refused condition; by network code and creation (newest
/// first) without argument.
pub fn get_sort_cond(sort_args: &Option<String>) -> (r: Result<Vec<SortCond>, ApiError>)
    ensures
        match sort_result(opt_view(*sort_args)) {
            Ok(s) => r matches Ok(v) && conds_view(v@) == s,
            Err(f) => r matches Err(e) && e@ == ErrView::Param(sort_fault_text(f)),
        },
{
    let fields = vec![
        String::from_str("application"),
        String::from_str("network"),
        String::from_str("created"),
    ];
    let keys = vec![SortKey::ApplicationCode, SortKey::NetworkCode, SortKey::CreatedAt];
    let default = vec![
        SortCond { key: SortKey::NetworkCode, asc: true },
        SortCond { key: SortKey::CreatedAt, asc: false },
    ];
    proof {
        assert(strs(fields@) =~= sort_fields());
        assert(keys@ =~= sort_keys());
        assert(conds_view(default@) =~= seq![
            (SortKey::NetworkCode, true),
            (SortKey::CreatedAt, false),
        ]);
    }
    sort_conds(sort_args, &fields, &keys, default)
}

/// The condition of a count or list query of network routes.
#[derive(Debug)]
pub struct ListQueryCond {
    pub unit_id: Option<String>,
    pub application_id: Option<String>,
    pub network_id: Option<String>,
}

/// The condition of a query of network routes, after the unit filter was checked: by the
/// unit, the application and the network, an empty parameter being no filter.
pub open spec fn list_cond_spec(
    c: ListQueryCond,
    unit: Option<Seq<char>>,
    application: Option<Seq<char>>,
    network: Option<Seq<char>>,
) -> bool {
    &&& opt_view(c.unit_id) == cond_spec(unit)
    &&& opt_view(c.application_id) == cond_spec(application)
    &&& opt_view(c.network_id) == cond_spec(network)
}

/// The condition of `GET /api/v1/network-route/count`, after the unit filter was checked.
pub fn get_network_route_count_cond(query: &GetNetworkRouteCountQuery) -> (c: ListQueryCond)
    ensures
        list_cond_spec(c, opt_view(query.unit), opt_view(query.application), opt_view(query.network)),
{
    ListQueryCond {
        unit_id: non_empty(&query.unit),
        application_id: non_empty(&query.application),
        network_id: non_empty(&query.network),
    }
}

/// The options of a list query of network routes.
#[derive(Debug)]
pub struct ListOptions {
    pub cond: ListQueryCond,
    pub offset: Option<u64>,
    pub limit: Option<u64>,
    pub sort: Vec<SortCond>,
    pub cursor_max: Option<u64>,
}

/// The options of the queries of `GET /api/v1/network-route/list`, after the unit filter was
/// checked, or the parameter error of the sort argument.
pub fn get_network_route_list_opts(query: &GetNetworkRouteListQuery) -> (r: Result<ListOptions, ApiError>)
    ensures
        match sort_result(opt_view(query.sort)) {
            Ok(s) => r matches Ok(o) && conds_view(o.sort@) == s && list_cond_spec(
                o.cond,
                opt_view(query.unit),
                opt_view(query.application),
                opt_view(query.network),
            ) && o.offset == query.offset && o.limit == limit_spec(query.limit) && o.cursor_max
                == Some(LIST_CURSOR_MAX),
            Err(f) => r matches Err(e) && e@ == ErrView::Param(sort_fault_text(f)),
        },
{
    let cond = ListQueryCond {
        unit_id: non_empty(&query.unit),
        application_id: non_empty(&query.application),
        network_id: non_empty(&query.network),
    };
    let sort = get_sort_cond(&query.sort)?;
    Ok(ListOptions {
        cond,
        offset: query.offset,
        limit: list_limit(query.limit),
        sort,
        cursor_max: Some(LIST_CURSOR_MAX),
    })
}

/// The options of the queries of `GET /api/v1/network-route/list`, the first one and those that
/// continue a streamed list alike.
pub open spec fn network_route_list_opts_ok(query: GetNetworkRouteListQuery) -> spec_fn(ListOptions) -> bool {
    |o: ListOptions|
        sort_result(opt_view(query.sort)) matches Ok(s) && conds_view(o.sort@) == s && list_cond_spec(
            o.cond,
            opt_view(query.unit),
            opt_view(query.application),
            opt_view(query.network),
        ) && o.offset == query.offset && o.limit == limit_spec(query.limit) && o.cursor_max == Some(
            LIST_CURSOR_MAX,
        )
}

/// One step of `GET /api/v1/network-route/list` (see [`list_step_spec`]): the unit filter of
/// [`unit_param`], the sort argument, and the options of [`network_route_list_opts_ok`].
pub fn get_network_route_list_step(
    user_id: &str,
    roles: &Vec<(String, bool)>,
    query: &GetNetworkRouteListQuery,
    st: ListState,
    ev: ListEvent,
) -> (r: (ListState, ListAction<ListOptions>))
    ensures
        list_step_spec(
            unit_param_spec(roles@, opt_view(query.unit)),
            sort_outcome(sort_result(opt_view(query.sort))),
            network_route_list_opts_ok(*query),
            network_route_list_opts_ok(*query),
            query.format == Some(ListFormat::Array),
            user_id@,
            roles@,
            st,
            ev,
            r,
        ),
{
    let unit = unit_param(roles, &query.unit);
    let opts = match get_network_route_list_opts(query) {
        Err(e) => Err(e),
        Ok(first) => match get_network_route_list_opts(query) {
            Err(e) => Err(e),
            Ok(stream) => Ok((first, stream)),
        },
    };
    let array = match &query.format {
        Some(ListFormat::Array) => true,
        _ => false,
    };
    list_step(
        user_id,
        roles,
        unit,
        opts,
        array,
        st,
        ev,
        Ghost(network_route_list_opts_ok(*query)),
        Ghost(network_route_list_opts_ok(*query)),
    )
}


/// The checks of `POST /api/v1/network-route`, in order: the network and the application
/// must not be empty.
pub fn check_post_network_route(data: &PostNetworkRouteData) -> (r: Result<(), ApiError>)
    ensures
        data.network_id@.len() == 0 ==> (r matches Err(e) && e@ == ErrView::Param(
            empty_field_msg("networkId"@),
        )),
        data.network_id@.len() > 0 && data.application_id@.len() == 0 ==> (r matches Err(e) && e@
            == ErrView::Param(empty_field_msg("applicationId"@))),
        data.network_id@.len() > 0 && data.application_id@.len() > 0 ==> r is Ok,
{
    check_non_empty(data.network_id.as_str(), "networkId")?;
    check_non_empty(data.application_id.as_str(), "applicationId")
}

/// A network of a unit may be routed only to an application of that unit; a public network
/// to any application.
pub fn check_route_unit(network: &Network, application: &Application) -> (r: Result<(), ApiError>)
    ensures
        match network.unit_id {
            None => r is Ok,
            Some(u) => if u@ == application.unit_id@ {
                r is Ok
            } else {
                r matches Err(e) && e@ == ErrView::Req(BrokerReq::UnitNotMatch)
            },
        },
{
    if let Some(u) = &network.unit_id {
        if *u != application.unit_id {
            return Err(ApiError::Req(BrokerReq::UnitNotMatch));
        }
    }
    Ok(())
}

/// The new route from the network to the application: the unit and the application from the
/// application, the network's ID and code.
pub fn new_network_route(route_id: &str, application: &Application, network: &Network, now: i64) -> (r: NetworkRoute)
    ensures
        r.route_id@ == route_id@,
        r.unit_id@ == application.unit_id@,
        r.unit_code@ == application.unit_code@,
        r.application_id@ == application.application_id@,
        r.application_code@ == application.code@,
        r.network_id@ == network.network_id@,
        r.network_code@ == network.code@,
        r.created_at == now,
{
    NetworkRoute {
        route_id: String::from_str(route_id),
        unit_id: application.unit_id.clone(),
        unit_code: application.unit_code.clone(),
        application_id: application.application_id.clone(),
        application_code: application.code.clone(),
        network_id: network.network_id.clone(),
        network_code: network.code.clone(),
        created_at: now,
    }
}

/// The new route from the network to the application (see [`new_network_route`]).
pub open spec fn network_route_spec(r: NetworkRoute, route_id: Seq<char>, application: Application, network: Network, now: i64) -> bool {
    &&& r.route_id@ == route_id
    &&& r.unit_id@ == application.unit_id@
    &&& r.unit_code@ == application.unit_code@
    &&& r.application_id@ == application.application_id@
    &&& r.application_code@ == application.code@
    &&& r.network_id@ == network.network_id@
    &&& r.network_code@ == network.code@
    &&& r.created_at == now
}

/// The parameter error of `POST /api/v1/network-route`, if any (see
/// [`check_post_network_route`]).
pub open spec fn post_route_error(data: PostNetworkRouteData) -> Option<ErrView> {
    if data.network_id@.len() == 0 {
        Some(ErrView::Param(empty_field_msg("networkId"@)))
    } else if data.application_id@.len() == 0 {
        Some(ErrView::Param(empty_field_msg("applicationId"@)))
    } else {
        None
    }
}

/// Where `POST /api/v1/network-route` stands: what it waits for, with the network and the
/// application found so far.
#[derive(Debug)]
pub enum NetRouteState {
    Start,
    NetworkLookup,
    ApplicationLookup { network: Network },
    RouteCheck { network: Network, application: Application },
    Adding { network: Network, application: Application },
    Done,
}

/// What happened to `POST /api/v1/network-route`.
#[derive(Debug)]
pub enum NetRouteEvent {
    /// The request arrived.
    Start,
    /// The network, if it exists and the user owns its unit.
    Network(Option<Network>),
    /// The application, if it exists and the user owns its unit.
    Application(Option<Application>),
    /// Whether a route from the network to the application exists.
    RouteFound(bool),
    /// The route was added.
    Finished,
    /// The database failed, with its error text.
    DbError(String),
}

/// What to do next for `POST /api/v1/network-route`.
#[derive(Debug)]
pub enum NetRouteAction {
    /// Look up the network, for its unit's owner.
    GetNetwork { network_id: String },
    /// Look up the application, for its unit's owner.
    GetApplication { application_id: String },
    /// Look up a route from the network to the application.
    FindRoute { application_id: String, network_id: String },
    /// Add the route.
    Add(NetworkRoute),
    /// Drop the cached routes of the route's network, and answer with the route's ID.
    Finish(NetworkRoute),
    /// Answer with the error.
    Reply(ApiError),
    /// Nothing more to do.
    Stop,
}

/// The steps of `POST /api/v1/network-route` at `now` with the new route ID `route_id`, in
/// order: the checks of [`post_route_error`]; the network (missing:
/// `err_broker_network_not_exist`); the application (missing:
/// `err_broker_application_not_exist`); a network of a unit must be of the application's
/// unit (else `err_broker_unit_not_match`; a public network goes to any application); no
/// route may join them yet (else `err_broker_route_exist`); the new route of
/// [`network_route_spec`]; the end. A database error is answered as such; any other
/// unexpected event ends the request.
pub open spec fn net_route_step_spec(
    data: PostNetworkRouteData,
    route_id: Seq<char>,
    now: i64,
    st: NetRouteState,
    ev: NetRouteEvent,
    r: (NetRouteState, NetRouteAction),
) -> bool {
    if st is Done {
        r.0 is Done && r.1 is Stop
    } else if post_route_error(data) is Some {
        r.0 is Done && (r.1 matches NetRouteAction::Reply(x) && Some(x@) == post_route_error(data))
    } else {
        match (st, ev) {
            (NetRouteState::Start, NetRouteEvent::Start) => r.0 is NetworkLookup && (
            r.1 matches NetRouteAction::GetNetwork { network_id } && network_id@ == data.network_id@),
            (NetRouteState::NetworkLookup, NetRouteEvent::Network(None)) => r.0 is Done && (
            r.1 matches NetRouteAction::Reply(x) && x@ == ErrView::Req(BrokerReq::NetworkNotExist)),
            (NetRouteState::NetworkLookup, NetRouteEvent::Network(Some(n))) => (
            r.0 matches NetRouteState::ApplicationLookup { network } && network == n) && (
            r.1 matches NetRouteAction::GetApplication { application_id } && application_id@
                == data.application_id@),
            (NetRouteState::ApplicationLookup { .. }, NetRouteEvent::Application(None)) => r.0 is Done
                && (r.1 matches NetRouteAction::Reply(x) && x@ == ErrView::Req(
                BrokerReq::ApplicationNotExist,
            )),
            (NetRouteState::ApplicationLookup { network }, NetRouteEvent::Application(Some(a))) => if (
            network.unit_id matches Some(u) && u@ != a.unit_id@) {
                r.0 is Done && (r.1 matches NetRouteAction::Reply(x) && x@ == ErrView::Req(
                    BrokerReq::UnitNotMatch,
                ))
            } else {
                (r.0 matches NetRouteState::RouteCheck { network: n, application } && n == network
                    && application == a) && (r.1 matches NetRouteAction::FindRoute {
                    application_id,
                    network_id,
                } && application_id@ == data.application_id@ && network_id@ == data.network_id@)
            },
            (NetRouteState::RouteCheck { network, application }, NetRouteEvent::RouteFound(found)) => if found {
                r.0 is Done && (r.1 matches NetRouteAction::Reply(x) && x@ == ErrView::Req(
                    BrokerReq::RouteExist,
                ))
            } else {
                (r.0 matches NetRouteState::Adding { network: n, application: a } && n == network
                    && a == application) && (r.1 matches NetRouteAction::Add(route)
                    && network_route_spec(route, route_id, application, network, now))
            },
            (NetRouteState::Adding { network, application }, NetRouteEvent::Finished) => r.0 is Done && (
            r.1 matches NetRouteAction::Finish(route) && network_route_spec(
                route,
                route_id,
                application,
                network,
                now,
            )),
            (NetRouteState::NetworkLookup, NetRouteEvent::DbError(e))
            | (NetRouteState::ApplicationLookup { .. }, NetRouteEvent::DbError(e))
            | (NetRouteState::RouteCheck { .. }, NetRouteEvent::DbError(e))
            | (NetRouteState::Adding { .. }, NetRouteEvent::DbError(e)) => r.0 is Done && (
            r.1 matches NetRouteAction::Reply(x) && x@ == ErrView::Db(e@)),
            _ => r.0 is Done && r.1 is Stop,
        }
    }
}

/// One step of `POST /api/v1/network-route` at `now` with the new route ID `route_id` (see
/// [`net_route_step_spec`]).
pub fn post_network_route_step(
    data: &PostNetworkRouteData,
    route_id: &str,
    now: i64,
    st: NetRouteState,
    ev: NetRouteEvent,
) -> (r: (NetRouteState, NetRouteAction))
    ensures
        net_route_step_spec(*data, route_id@, now, st, ev, r),
{
    if let NetRouteState::Done = st {
        return (NetRouteState::Done, NetRouteAction::Stop);
    }
    if let Err(e) = check_post_network_route(data) {
        return (NetRouteState::Done, NetRouteAction::Reply(e));
    }
    match st {
        NetRouteState::Start => match ev {
            NetRouteEvent::Start => (
                NetRouteState::NetworkLookup,
                NetRouteAction::GetNetwork { network_id: data.network_id.clone() },
            ),
            _ => (NetRouteState::Done, NetRouteAction::Stop),
        },
        NetRouteState::NetworkLookup => match ev {
            NetRouteEvent::Network(None) => (
                NetRouteState::Done,
                NetRouteAction::Reply(ApiError::Req(BrokerReq::NetworkNotExist)),
            ),
            NetRouteEvent::Network(Some(n)) => (
                NetRouteState::ApplicationLookup { network: n },
                NetRouteAction::GetApplication { application_id: data.application_id.clone() },
            ),
            NetRouteEvent::DbError(e) => (NetRouteState::Done, NetRouteAction::Reply(ApiError::Db(e))),
            _ => (NetRouteState::Done, NetRouteAction::Stop),
        },
        NetRouteState::ApplicationLookup { network } => match ev {
            NetRouteEvent::Application(None) => (
                NetRouteState::Done,
                NetRouteAction::Reply(ApiError::Req(BrokerReq::ApplicationNotExist)),
            ),
            NetRouteEvent::Application(Some(a)) => match check_route_unit(&network, &a) {
                Err(e) => (NetRouteState::Done, NetRouteAction::Reply(e)),
                Ok(()) => (
                    NetRouteState::RouteCheck { network, application: a },
                    NetRouteAction::FindRoute {
                        application_id: data.application_id.clone(),
                        network_id: data.network_id.clone(),
                    },
                ),
            },
            NetRouteEvent::DbError(e) => (NetRouteState::Done, NetRouteAction::Reply(ApiError::Db(e))),
            _ => (NetRouteState::Done, NetRouteAction::Stop),
        },
        NetRouteState::RouteCheck { network, application } => match ev {
            NetRouteEvent::RouteFound(found) => {
                if found {
                    (NetRouteState::Done, NetRouteAction::Reply(ApiError::Req(BrokerReq::RouteExist)))
                } else {
                    let route = new_network_route(route_id, &application, &network, now);
                    (NetRouteState::Adding { network, application }, NetRouteAction::Add(route))
                }
            },
            NetRouteEvent::DbError(e) => (NetRouteState::Done, NetRouteAction::Reply(ApiError::Db(e))),
            _ => (NetRouteState::Done, NetRouteAction::Stop),
        },
        NetRouteState::Adding { network, application } => match ev {
            NetRouteEvent::Finished => (
                NetRouteState::Done,
                NetRouteAction::Finish(new_network_route(route_id, &application, &network, now)),
            ),
            NetRouteEvent::DbError(e) => (NetRouteState::Done, NetRouteAction::Reply(ApiError::Db(e))),
            _ => (NetRouteState::Done, NetRouteAction::Stop),
        },
        NetRouteState::Done => (NetRouteState::Done, NetRouteAction::Stop),
    }
}

/// A network route as the API presents it.
pub open spec fn route_data_spec(d: GetNetworkRouteData, r: NetworkRoute) -> bool {
    &&& d.route_id@ == r.route_id@
    &&& d.unit_id@ == r.unit_id@
    &&& d.application_id@ == r.application_id@
    &&& d.application_code@ == r.application_code@
    &&& d.network_id@ == r.network_id@
    &&& d.network_code@ == r.network_code@
    &&& d.created_at@ == time_text(r.created_at)
}

/// Presents a network route, with its time in RFC 3339.
pub fn route_transform(route: &NetworkRoute) -> (d: GetNetworkRouteData)
    requires
        route.times_ok(),
    ensures
        route_data_spec(d, *route),
{
    GetNetworkRouteData {
        route_id: route.route_id.clone(),
        unit_id: route.unit_id.clone(),
        application_id: route.application_id.clone(),
        application_code: route.application_code.clone(),
        network_id: route.network_id.clone(),
        network_code: route.network_code.clone(),
        created_at: time_str(route.created_at),
    }
}

/// Presents a list of network routes, in order.
pub fn route_list_transform(list: &Vec<NetworkRoute>) -> (r: Vec<GetNetworkRouteData>)
    requires
        forall|i: int| 0 <= i < list.len() ==> (#[trigger] list@[i]).times_ok(),
    ensures
        r.len() == list.len(),
        forall|i: int| 0 <= i < list.len() ==> route_data_spec(#[trigger] r@[i], list@[i]),
{
    let mut r: Vec<GetNetworkRouteData> = Vec::new();
    let mut i: usize = 0;
    while i < list.len()
        invariant
            i <= list.len(),
            forall|k: int| 0 <= k < list.len() ==> (#[trigger] list@[k]).times_ok(),
            r.len() == i,
            forall|k: int| 0 <= k < i ==> route_data_spec(#[trigger] r@[k], list@[k]),
        decreases list.len() - i,
    {
        r.push(route_transform(&list[i]));
        i += 1;
    }
    r
}

/// A chunk of a streamed network route list, from the JSON texts of its presented routes.
pub fn route_list_transform_bytes(items: &Vec<String>, with_start: bool, with_end: bool, format: Option<ListFormat>) -> (s: String)
    ensures
        s@ == frame_spec(strs(items@), with_start, with_end, format == Some(ListFormat::Array)),
{
    let array = match format {
        Some(ListFormat::Array) => true,
        _ => false,
    };
    frame_list(items, with_start, with_end, array)
}

/// `GET /api/v1/network-route/count` filters by each non-empty parameter on its own field:
/// the unit on the unit ID, the application on the application ID and the network on the
/// network ID; an absent or empty parameter filters nothing.
pub proof fn lemma_network_route_count_fields(query: GetNetworkRouteCountQuery, c: ListQueryCond)
    requires
        call_ensures(get_network_route_count_cond, (&query,), c),
    ensures
        (query.unit matches Some(v) && v@.len() > 0) ==> opt_view(c.unit_id) == Some(query.unit->0@),
        !(query.unit matches Some(v) && v@.len() > 0) ==> c.unit_id is None,
        (query.application matches Some(v) && v@.len() > 0) ==> opt_view(c.application_id) == Some(query.application->0@),
        !(query.application matches Some(v) && v@.len() > 0) ==> c.application_id is None,
        (query.network matches Some(v) && v@.len() > 0) ==> opt_view(c.network_id) == Some(query.network->0@),
        !(query.network matches Some(v) && v@.len() > 0) ==> c.network_id is None,
{
}

/// The queries of `GET /api/v1/network-route/list` filter by each non-empty parameter on its
/// own field, as the count does (see [`lemma_network_route_count_fields`]).
pub proof fn lemma_network_route_list_fields(query: GetNetworkRouteListQuery, r: Result<ListOptions, ApiError>)
    requires
        call_ensures(get_network_route_list_opts, (&query,), r),
    ensures
        r matches Ok(o) ==> {
            &&& (query.unit matches Some(v) && v@.len() > 0) ==> opt_view(o.cond.unit_id) == Some(query.unit->0@)
            &&& !(query.unit matches Some(v) && v@.len() > 0) ==> o.cond.unit_id is None
            &&& (query.application matches Some(v) && v@.len() > 0) ==> opt_view(o.cond.application_id) == Some(query.application->0@)
            &&& !(query.application matches Some(v) && v@.len() > 0) ==> o.cond.application_id is None
            &&& (query.network matches Some(v) && v@.len() > 0) ==> opt_view(o.cond.network_id) == Some(query.network->0@)
            &&& !(query.network matches Some(v) && v@.len() > 0) ==> o.cond.network_id is None
        },
{
}

/// What `GET /api/v1/network-route/list` queries, the first page and the further ones
/// alike: each non-empty parameter on its own field.
pub proof fn lemma_network_route_list_step_fields(
    user_id: &str,
    roles: &Vec<(String, bool)>,
    query: GetNetworkRouteListQuery,
    st: ListState,
    ev: ListEvent,
    r: (ListState, ListAction<ListOptions>),
)
    requires
        call_ensures(get_network_route_list_step, (user_id, roles, &query, st, ev), r),
    ensures
        r.1 matches ListAction::Query(o) ==> {
            &&& (query.unit matches Some(v) && v@.len() > 0) ==> opt_view(o.cond.unit_id) == Some(query.unit->0@)
            &&& !(query.unit matches Some(v) && v@.len() > 0) ==> o.cond.unit_id is None
            &&& (query.application matches Some(v) && v@.len() > 0) ==> opt_view(o.cond.application_id) == Some(query.application->0@)
            &&& !(query.application matches Some(v) && v@.len() > 0) ==> o.cond.application_id is None
            &&& (query.network matches Some(v) && v@.len() > 0) ==> opt_view(o.cond.network_id) == Some(query.network->0@)
            &&& !(query.network matches Some(v) && v@.len() > 0) ==> o.cond.network_id is None
        },
        r.1 matches ListAction::Send { next: Some(o), .. } ==> {
            &&& (query.unit matches Some(v) && v@.len() > 0) ==> opt_view(o.cond.unit_id) == Some(query.unit->0@)
            &&& !(query.unit matches Some(v) && v@.len() > 0) ==> o.cond.unit_id is None
            &&& (query.application matches Some(v) && v@.len() > 0) ==> opt_view(o.cond.application_id) == Some(query.application->0@)
            &&& !(query.application matches Some(v) && v@.len() > 0) ==> o.cond.application_id is None
            &&& (query.network matches Some(v) && v@.len() > 0) ==> opt_view(o.cond.network_id) == Some(query.network->0@)
            &&& !(query.network matches Some(v) && v@.len() > 0) ==> o.cond.network_id is None
        },
{
}

} // verus!
