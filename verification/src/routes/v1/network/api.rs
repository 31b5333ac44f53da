//! The decisions of the network API: the conditions of the count and list queries, the sort
//! conditions, the checks of a new network and of a change, the presentation of networks,
//! and the decisions of the network managers on uplink data and downlink results.

use vstd::prelude::*;
use vstd::string::*;

use super::request::{
    GetNetworkCountQuery, GetNetworkListQuery, ListFormat, PatchNetworkData, PostNetworkData,
};
use super::response::GetNetworkData;
use crate::corelib::{code_spec, lowercase, time_str, time_text};
use crate::models::{clone_opt, clone_pairs, opt_view, pairs, strs, DlDataBuffer, Network};
use crate::routes::v1::lib::{
    check_unit_cond, gen_mgr_key, is_privileged, mgr_key, privileged, unit_cond_spec, UnitQueryCond,
};
use crate::routes::v1::list::{
    cond_spec, conds_view, frame_list, frame_spec, limit_spec, list_limit, list_step,
    list_step_spec, non_empty, sort_conds, sort_fault_text, sort_outcome, sort_result_in,
    ListAction, ListEvent, ListState, SortFault, LIST_CURSOR_MAX,
};
use crate::routes::v1::valid::{
    check_code, check_host_uri, check_info, code_msg, empty_field_msg, host_uri_spec, info_msg,
    info_or_empty, info_or_empty_of, missing_field_msg, no_update_msg, opt_info_ok, opt_pairs,
    or_empty, text_or_empty,
};
use crate::routes::{param_err, ApiError, BrokerReq, ErrView};

verus! {

/// The keys by which networks are sorted.
#[derive(PartialEq, Eq, Structural, Clone, Copy, Debug)]
pub enum SortKey {
    Code,
    CreatedAt,
    ModifiedAt,
    Name,
}

/// One sort condition of networks.
pub type SortCond = crate::routes::v1::list::SortCond<SortKey>;

/// The names of the sort keys in a sort argument.
pub open spec fn sort_fields() -> Seq<Seq<char>> {
    seq!["code"@, "created"@, "modified"@, "name"@]
}

/// The sort keys named by [`sort_fields`], in the same order.
pub open spec fn sort_keys() -> Seq<SortKey> {
    seq![SortKey::Code, SortKey::CreatedAt, SortKey::ModifiedAt, SortKey::Name]
}

/// The sort conditions of an optional sort argument: by code ascending when there is none.
pub open spec fn sort_result(args: Option<Seq<char>>) -> Result<Seq<(SortKey, bool)>, SortFault> {
    sort_result_in(args, sort_fields(), sort_keys(), seq![(SortKey::Code, true)])
}

/// The sort conditions of a list request: the conditions of the sort argument, or the
/// parameter error of its first refused condition; by code ascending without argument.
pub fn get_sort_cond(sort_args: &Option<String>) -> (r: Result<Vec<SortCond>, ApiError>)
    ensures
        match sort_result(opt_view(*sort_args)) {
            Ok(s) => r matches Ok(v) && conds_view(v@) == s,
            Err(f) => r matches Err(e) && e@ == ErrView::Param(sort_fault_text(f)),
        },
{
    let fields = vec![
        String::from_str("code"),
        String::from_str("created"),
        String::from_str("modified"),
        String::from_str("name"),
    ];
    let keys = vec![SortKey::Code, SortKey::CreatedAt, SortKey::ModifiedAt, SortKey::Name];
    let default = vec![SortCond { key: SortKey::Code, asc: true }];
    proof {
        assert(strs(fields@) =~= sort_fields());
        assert(keys@ =~= sort_keys());
        assert(conds_view(default@) =~= seq![(SortKey::Code, true)]);
    }
    sort_conds(sort_args, &fields, &keys, default)
}

/// The unit filter of a network query: none, the public networks (`Some(None)`), or the
/// networks of a unit.
pub open spec fn unit_filter(unit: Option<Seq<char>>) -> Option<Option<Seq<char>>> {
    match unit {
        None => None,
        Some(u) => if u.len() == 0 {
            Some(None)
        } else {
            Some(Some(u))
        },
    }
}

/// The view of a unit filter.
pub open spec fn filter_view(f: Option<Option<String>>) -> Option<Option<Seq<char>>> {
    match f {
        None => None,
        Some(None) => Some(None),
        Some(Some(u)) => Some(Some(u@)),
    }
}

/// The text of the parameter error for a missing unit filter.
pub open spec fn missing_unit_msg() -> Seq<char> {
    "missing `unit`"@
}

/// The unit filter of a count or list request: users without the administrator or the
/// manager role must give a unit, which is then checked (as a member); an empty unit means
/// the public networks.
pub fn network_unit_param(roles: &Vec<(String, bool)>, unit: &Option<String>) -> (r: Result<Option<Option<String>>, ApiError>)
    ensures
        !privileged(roles@) && cond_spec(opt_view(*unit)) is None ==> (r matches Err(e) && e@
            == ErrView::Param(missing_unit_msg())),
        privileged(roles@) || cond_spec(opt_view(*unit)) is Some ==> (r matches Ok(f) && filter_view(f)
            == unit_filter(opt_view(*unit))),
{
    let filter = match unit {
        None => None,
        Some(u) => {
            if u.as_str().is_empty() {
                Some(None)
            } else {
                Some(Some(u.clone()))
            }
        },
    };
    if !is_privileged(roles) {
        match &filter {
            Some(Some(_)) => {},
            _ => {
                return Err(param_err("missing `unit`"));
            },
        }
    }
    Ok(filter)
}

/// The condition of a count or list query of networks.
#[derive(Debug)]
pub struct ListQueryCond {
    pub unit_id: Option<Option<String>>,
    pub code: Option<String>,
    pub code_contains: Option<String>,
}

/// The condition of a query of networks, after the unit filter was checked: by the unit (an
/// empty one meaning the public networks), and by the exact code if given, else by a part of
/// the code.
pub open spec fn list_cond_spec(
    c: ListQueryCond,
    unit: Option<Seq<char>>,
    code: Option<Seq<char>>,
    contains: Option<Seq<char>>,
) -> bool {
    &&& filter_view(c.unit_id) == unit_filter(unit)
    &&& opt_view(c.code) == cond_spec(code)
    &&& opt_view(c.code_contains) == (if cond_spec(code) is Some {
        None
    } else {
        cond_spec(contains)
    })
}

fn filter_of(unit: &Option<String>) -> (f: Option<Option<String>>)
    ensures
        filter_view(f) == unit_filter(opt_view(*unit)),
{
    match unit {
        None => None,
        Some(u) => {
            if u.as_str().is_empty() {
                Some(None)
            } else {
                Some(Some(u.clone()))
            }
        },
    }
}

fn list_cond(unit: &Option<String>, code: &Option<String>, contains: &Option<String>) -> (c: ListQueryCond)
    ensures
        list_cond_spec(c, opt_view(*unit), opt_view(*code), opt_view(*contains)),
{
    let code_cond = non_empty(code);
    let code_contains = if code_cond.is_some() {
        None
    } else {
        non_empty(contains)
    };
    ListQueryCond { unit_id: filter_of(unit), code: code_cond, code_contains }
}

/// The condition of `GET /api/v1/network/count`, after the unit filter was checked.
pub fn get_network_count_cond(query: &GetNetworkCountQuery) -> (c: ListQueryCond)
    ensures
        list_cond_spec(c, opt_view(query.unit), opt_view(query.code), opt_view(query.contains)),
{
    list_cond(&query.unit, &query.code, &query.contains)
}

/// The options of a list query of networks.
#[derive(Debug)]
pub struct ListOptions {
    pub cond: ListQueryCond,
    pub offset: Option<u64>,
    pub limit: Option<u64>,
    pub sort: Vec<SortCond>,
    pub cursor_max: Option<u64>,
}

/// The options of the first query of `GET /api/v1/network/list`, after the unit filter was
/// checked, or the parameter error of the sort argument.
pub fn get_network_list_opts(query: &GetNetworkListQuery) -> (r: Result<ListOptions, ApiError>)
    ensures
        match sort_result(opt_view(query.sort)) {
            Ok(s) => r matches Ok(o) && conds_view(o.sort@) == s && list_cond_spec(
                o.cond,
                opt_view(query.unit),
                opt_view(query.code),
                opt_view(query.contains),
            ) && o.offset == query.offset && o.limit == limit_spec(query.limit) && o.cursor_max
                == Some(LIST_CURSOR_MAX),
            Err(f) => r matches Err(e) && e@ == ErrView::Param(sort_fault_text(f)),
        },
{
    let cond = list_cond(&query.unit, &query.code, &query.contains);
    let sort = get_sort_cond(&query.sort)?;
    Ok(ListOptions {
        cond,
        offset: query.offset,
        limit: list_limit(query.limit),
        sort,
        cursor_max: Some(LIST_CURSOR_MAX),
    })
}

/// The condition of the queries that continue a streamed `GET /api/v1/network/list`: as the
/// first one without the exact code filter, the part of the code filtering alone.
pub fn get_network_list_stream_cond(query: &GetNetworkListQuery) -> (c: ListQueryCond)
    ensures
        filter_view(c.unit_id) == unit_filter(opt_view(query.unit)),
        c.code is None,
        opt_view(c.code_contains) == cond_spec(opt_view(query.contains)),
{
    ListQueryCond {
        unit_id: filter_of(&query.unit),
        code: None,
        code_contains: non_empty(&query.contains),
    }
}

/// The outcome of the unit filter of `GET /api/v1/network/list` for the list steps: the
/// parameter error, or the unit to check (none for no filter or the public networks).
pub open spec fn network_unit_outcome(roles: Seq<(String, bool)>, unit: Option<Seq<char>>) -> Result<Option<Seq<char>>, ErrView> {
    if !privileged(roles) && cond_spec(unit) is None {
        Err(ErrView::Param(missing_unit_msg()))
    } else {
        match unit_filter(unit) {
            Some(Some(u)) => Ok(Some(u)),
            _ => Ok(None),
        }
    }
}

/// The options of the queries of `GET /api/v1/network/list`: the first one, or (`stream`)
/// those that continue a streamed list, which leave out the exact code filter.
pub open spec fn network_list_opts_ok(query: GetNetworkListQuery, stream: bool) -> spec_fn(ListOptions) -> bool {
    |o: ListOptions|
        sort_result(opt_view(query.sort)) matches Ok(s) && conds_view(o.sort@) == s && list_cond_spec(
            o.cond,
            opt_view(query.unit),
            if stream {
                None
            } else {
                opt_view(query.code)
            },
            opt_view(query.contains),
        ) && o.offset == query.offset && o.limit == limit_spec(query.limit) && o.cursor_max == Some(
            LIST_CURSOR_MAX,
        )
}

/// One step of `GET /api/v1/network/list` (see [`list_step_spec`]): the unit filter of
/// [`network_unit_param`], the sort argument, and the options of [`network_list_opts_ok`].
pub fn get_network_list_step(
    user_id: &str,
    roles: &Vec<(String, bool)>,
    query: &GetNetworkListQuery,
    st: ListState,
    ev: ListEvent,
) -> (r: (ListState, ListAction<ListOptions>))
    ensures
        list_step_spec(
            network_unit_outcome(roles@, opt_view(query.unit)),
            sort_outcome(sort_result(opt_view(query.sort))),
            network_list_opts_ok(*query, false),
            network_list_opts_ok(*query, true),
            query.format == Some(ListFormat::Array),
            user_id@,
            roles@,
            st,
            ev,
            r,
        ),
{
    let unit = match network_unit_param(roles, &query.unit) {
        Err(e) => Err(e),
        Ok(Some(Some(u))) => Ok(Some(u)),
        Ok(_) => Ok(None),
    };
    let opts = match get_network_list_opts(query) {
        Err(e) => Err(e),
        Ok(first) => match get_network_list_opts(query) {
            Err(e) => Err(e),
            Ok(mut stream) => {
                stream.cond = get_network_list_stream_cond(query);
                Ok((first, stream))
            },
        },
    };
    let array = match &query.format {
        Some(ListFormat::Array) => true,
        _ => false,
    };
    list_step(
        user_id,
        roles,
        unit,
        opts,
        array,
        st,
        ev,
        Ghost(network_list_opts_ok(*query, false)),
        Ghost(network_list_opts_ok(*query, true)),
    )
}


/// What the checks of a new network leave to do.
#[derive(Debug)]
pub struct PostNetworkCheck {
    /// The code, lower-cased.
    pub code: String,
    /// The serialization of the parsed host URI.
    pub host_uri: String,
    /// The unit to check (as its owner); none for a public network.
    pub unit_id: Option<String>,
}

/// The checks of `POST /api/v1/network` before the unit is looked up, in order: the
/// lower-cased code must be a code, the host URI must parse with a message queue scheme, no
/// key of `info` may be empty, and the unit, required from users without the administrator
/// or the manager role, must not be empty.
pub open spec fn post_check_spec(roles: Seq<(String, bool)>, data: PostNetworkData) -> Result<(Seq<char>, Seq<char>, Option<Seq<char>>), ErrView> {
    if !code_spec(lowercase(data.code@)) {
        Err(ErrView::Param(code_msg()))
    } else {
        match host_uri_spec(data.host_uri@) {
            Err(e) => Err(e),
            Ok(uri) => if !opt_info_ok(data.info) {
                Err(ErrView::Param(info_msg()))
            } else {
                match data.unit_id {
                    None => if !privileged(roles) {
                        Err(ErrView::Param(missing_field_msg("unitId"@)))
                    } else {
                        Ok((lowercase(data.code@), uri, None))
                    },
                    Some(u) => if u@.len() == 0 {
                        Err(ErrView::Param(empty_field_msg("unitId"@)))
                    } else {
                        Ok((lowercase(data.code@), uri, Some(u@)))
                    },
                }
            },
        }
    }
}

/// The checks of `POST /api/v1/network` before the unit is looked up (see
/// [`post_check_spec`]).
pub fn check_post_network(roles: &Vec<(String, bool)>, data: &PostNetworkData) -> (r: Result<PostNetworkCheck, ApiError>)
    ensures
        match post_check_spec(roles@, *data) {
            Ok(p) => r matches Ok(c) && c.code@ == p.0 && c.host_uri@ == p.1 && opt_view(c.unit_id)
                == p.2,
            Err(ev) => r matches Err(e) && e@ == ev,
        },
{
    let code = check_code(data.code.as_str())?;
    let host_uri = check_host_uri(data.host_uri.as_str())?;
    check_info(&data.info)?;
    let unit_id = match &data.unit_id {
        None => {
            if !is_privileged(roles) {
                let mut msg = String::from_str("missing `");
                msg.append("unitId");
                msg.append("`");
                return Err(ApiError::Param(msg));
            }
            None
        },
        Some(u) => {
            if u.as_str().is_empty() {
                let mut msg = String::from_str("`");
                msg.append("unitId");
                msg.append("` must with at least one character");
                return Err(ApiError::Param(msg));
            }
            Some(u.clone())
        },
    };
    Ok(PostNetworkCheck { code, host_uri, unit_id })
}

/// The new network, of the checked unit with the code `unit_code` or public: no name means
/// an empty name and no information an empty one.
pub fn new_network(
    network_id: String,
    check: PostNetworkCheck,
    unit_code: Option<String>,
    now: i64,
    data: &PostNetworkData,
) -> (n: Network)
    ensures
        n.network_id == network_id,
        n.code == check.code,
        n.unit_id == check.unit_id,
        n.unit_code == unit_code,
        n.created_at == now,
        n.modified_at == now,
        n.host_uri == check.host_uri,
        n.name@ == or_empty(opt_view(data.name)),
        pairs(n.info@) == info_or_empty(data.info),
{
    Network {
        network_id,
        code: check.code,
        unit_id: check.unit_id,
        unit_code,
        created_at: now,
        modified_at: now,
        host_uri: check.host_uri,
        name: text_or_empty(&data.name),
        info: info_or_empty_of(&data.info),
    }
}

/// The changes of a network.
#[derive(Debug)]
pub struct Updates {
    pub host_uri: Option<String>,
    pub name: Option<String>,
    pub info: Option<Vec<(String, String)>>,
    pub modified_at: i64,
}

/// The checks of `PATCH /api/v1/network/{networkId}`, in order: a new host URI must parse
/// with a message queue scheme (and is kept as the parsed URI's serialization), no key of
/// `info` may be empty, and at least one field must be given.
pub fn get_updates(data: &PatchNetworkData, now: i64) -> (r: Result<Updates, ApiError>)
    ensures
        match data.host_uri {
            Some(h) => match host_uri_spec(h@) {
                Err(ev) => r matches Err(e) && e@ == ev,
                Ok(uri) => if !opt_info_ok(data.info) {
                    r matches Err(e) && e@ == ErrView::Param(info_msg())
                } else {
                    r matches Ok(u) && opt_view(u.host_uri) == Some(uri) && opt_view(u.name)
                        == opt_view(data.name) && opt_pairs(u.info) == opt_pairs(data.info)
                        && u.modified_at == now
                },
            },
            None => if !opt_info_ok(data.info) {
                r matches Err(e) && e@ == ErrView::Param(info_msg())
            } else if data.name is None && data.info is None {
                r matches Err(e) && e@ == ErrView::Param(no_update_msg())
            } else {
                r matches Ok(u) && u.host_uri is None && opt_view(u.name) == opt_view(data.name)
                    && opt_pairs(u.info) == opt_pairs(data.info) && u.modified_at == now
            },
        },
{
    let host_uri = match &data.host_uri {
        None => None,
        Some(h) => Some(check_host_uri(h.as_str())?),
    };
    check_info(&data.info)?;
    if host_uri.is_none() && data.name.is_none() && data.info.is_none() {
        return Err(param_err("at least one parameter"));
    }
    let info = match &data.info {
        None => None,
        Some(i) => Some(clone_pairs(i)),
    };
    Ok(Updates { host_uri, name: clone_opt(&data.name), info, modified_at: now })
}

/// A network as the API presents it.
pub open spec fn network_data_spec(d: GetNetworkData, n: Network) -> bool {
    &&& d.network_id@ == n.network_id@
    &&& d.code@ == n.code@
    &&& opt_view(d.unit_id) == opt_view(n.unit_id)
    &&& opt_view(d.unit_code) == opt_view(n.unit_code)
    &&& d.created_at@ == time_text(n.created_at)
    &&& d.modified_at@ == time_text(n.modified_at)
    &&& d.host_uri@ == n.host_uri@
    &&& d.name@ == n.name@
    &&& pairs(d.info@) == pairs(n.info@)
}

/// Presents a network, with its times in RFC 3339.
pub fn network_transform(network: &Network) -> (d: GetNetworkData)
    requires
        network.times_ok(),
    ensures
        network_data_spec(d, *network),
{
    GetNetworkData {
        network_id: network.network_id.clone(),
        code: network.code.clone(),
        unit_id: clone_opt(&network.unit_id),
        unit_code: clone_opt(&network.unit_code),
        created_at: time_str(network.created_at),
        modified_at: time_str(network.modified_at),
        host_uri: network.host_uri.clone(),
        name: network.name.clone(),
        info: clone_pairs(&network.info),
    }
}

/// Presents a list of networks, in order.
pub fn network_list_transform(list: &Vec<Network>) -> (r: Vec<GetNetworkData>)
    requires
        forall|i: int| 0 <= i < list.len() ==> (#[trigger] list@[i]).times_ok(),
    ensures
        r.len() == list.len(),
        forall|i: int| 0 <= i < list.len() ==> network_data_spec(#[trigger] r@[i], list@[i]),
{
    let mut r: Vec<GetNetworkData> = Vec::new();
    let mut i: usize = 0;
    while i < list.len()
        invariant
            i <= list.len(),
            forall|k: int| 0 <= k < list.len() ==> (#[trigger] list@[k]).times_ok(),
            r.len() == i,
            forall|k: int| 0 <= k < i ==> network_data_spec(#[trigger] r@[k], list@[k]),
        decreases list.len() - i,
    {
        r.push(network_transform(&list[i]));
        i += 1;
    }
    r
}

/// A chunk of a streamed network list, from the JSON texts of its presented networks.
pub fn network_list_transform_bytes(items: &Vec<String>, with_start: bool, with_end: bool, format: Option<ListFormat>) -> (s: String)
    ensures
        s@ == frame_spec(strs(items@), with_start, with_end, format == Some(ListFormat::Array)),
{
    let array = match format {
        Some(ListFormat::Array) => true,
        _ => false,
    };
    frame_list(items, with_start, with_end, array)
}

/// The unit of a network manager as a message states it: none for a public network, whose
/// manager has an empty unit.
pub open spec fn mgr_unit(unit: Seq<char>) -> Option<Seq<char>> {
    if unit.len() == 0 {
        None
    } else {
        Some(unit)
    }
}

/// The unit code (or unit ID) of a network manager as a message states it.
pub fn mgr_unit_of(unit: &str) -> (r: Option<String>)
    ensures
        opt_view(r) == mgr_unit(unit@),
{
    if unit.is_empty() {
        None
    } else {
        Some(String::from_str(unit))
    }
}

/// The condition that finds the device that sent uplink data: the unit code of the network
/// manager (none for a public network), the network code and the address.
#[derive(Debug)]
pub struct DeviceQueryOneCond {
    pub unit_code: Option<String>,
    pub network_code: String,
    pub network_addr: String,
}

/// The condition that finds the device that sent uplink data through a network manager.
pub fn uldata_device_cond(mgr_unit_code: &str, mgr_name: &str, network_addr: &str) -> (c: DeviceQueryOneCond)
    ensures
        opt_view(c.unit_code) == mgr_unit(mgr_unit_code@),
        c.network_code@ == mgr_name@,
        c.network_addr@ == network_addr@,
{
    DeviceQueryOneCond {
        unit_code: mgr_unit_of(mgr_unit_code),
        network_code: String::from_str(mgr_name),
        network_addr: String::from_str(network_addr),
    }
}

/// Whether the buffered downlink data stays after a result from the network: it stays while
/// the status is negative (still in progress), and is removed once the status is final.
pub fn dldata_result_keeps_buffer(status: i32) -> (r: bool)
    ensures
        r == (status < 0),
{
    status < 0
}

/// The key of the application manager that the result of buffered downlink data goes back
/// to: the unit code and the application code of the buffered data.
pub fn dldata_result_mgr_key(data: &DlDataBuffer) -> (key: String)
    ensures
        key@ == mgr_key(data.unit_code@, data.application_code@),
{
    gen_mgr_key(data.unit_code.as_str(), data.application_code.as_str())
}

/// The application managers that uplink data was sent to, by key: the data goes to each
/// application at most once, though both a device route and a network route lead to it.
#[derive(Debug)]
pub struct UlDispatch {
    sent: Vec<String>,
}

impl UlDispatch {
    /// The keys of the managers that the data was sent to, in order.
    pub closed spec fn sent_keys(&self) -> Seq<Seq<char>> {
        strs(self.sent@)
    }

    /// No manager is recorded twice.
    #[verifier::type_invariant]
    closed spec fn inv(&self) -> bool {
        strs(self.sent@).no_duplicates()
    }

    /// Nothing sent yet.
    pub fn new() -> (d: UlDispatch)
        ensures
            d.sent_keys() == Seq::<Seq<char>>::empty(),
            d.sent_keys().no_duplicates(),
    {
        let d = UlDispatch { sent: Vec::new() };
        proof {
            assert(strs(d.sent@) =~= Seq::<Seq<char>>::empty());
        }
        d
    }

    /// Whether the data still has to go to the manager `key` of a route.
    pub fn is_pending(&self, key: &String) -> (r: bool)
        ensures
            r == !self.sent_keys().contains(key@),
    {
        let mut i: usize = 0;
        while i < self.sent.len()
            invariant
                i <= self.sent.len(),
                forall|k: int| 0 <= k < i ==> (#[trigger] strs(self.sent@)[k]) != key@,
            decreases self.sent.len() - i,
        {
            if self.sent[i] == *key {
                proof {
                    assert(strs(self.sent@)[i as int] == key@);
                }
                return false;
            }
            i += 1;
        }
        true
    }

    /// Whether uplink data goes to the manager `key` that a route leads to: only when its
    /// device was found, the manager exists and the data did not go there yet.
    pub fn route_send(&self, device_found: bool, key: &String, has_mgr: bool) -> (r: bool)
        ensures
            r == (device_found && has_mgr && !self.sent_keys().contains(key@)),
    {
        device_found && has_mgr && self.is_pending(key)
    }

    /// Records that the data was sent to the manager `key`; a failed send is not recorded,
    /// so that another route may still lead the data there.
    pub fn mark_sent(&mut self, key: &String)
        requires
            !old(self).sent_keys().contains(key@),
        ensures
            final(self).sent_keys() == old(self).sent_keys().push(key@),
            final(self).sent_keys().no_duplicates(),
    {
        proof {
            use_type_invariant(&*self);
        }
        let ghost prev = strs(self.sent@);
        let mut sent = Vec::new();
        std::mem::swap(&mut sent, &mut self.sent);
        sent.push(key.clone());
        proof {
            assert(strs(sent@) =~= prev.push(key@));
            assert(strs(sent@).no_duplicates()) by {
                assert forall|i: int, j: int|
                    0 <= i < strs(sent@).len() && 0 <= j < strs(sent@).len() && i != j implies strs(
                    sent@,
                )[i] != strs(sent@)[j] by {
                    if i < prev.len() && j < prev.len() {
                    } else if i < prev.len() {
                        assert(prev.contains(prev[i]));
                    } else {
                        assert(prev.contains(prev[j]));
                    }
                }
            }
        }
        self.sent = sent;
    }
}

/// What happened to uplink data on its way to the application managers.
#[derive(Debug)]
pub enum UlEvent {
    /// A route leads the data to the manager `key`; `has_mgr` tells whether that manager runs.
    Route { key: String, has_mgr: bool },
    /// The data was handed to the manager `key` (`ok`), or the hand-over failed.
    Sent { key: String, ok: bool },
}

/// What to do with uplink data for a route.
#[derive(Debug)]
pub enum UlAction {
    /// Hand the data to the manager of this key.
    Send(String),
    /// Nothing to do.
    Skip,
}

/// One step of uplink data through the device routes and then the network routes of its
/// device (`device_found`: the device was found on the network): a route to a manager
/// sends the data there only when the device was found, the manager runs and the data did
/// not go there yet; a successful hand-over records the manager, a failed one does not, so
/// that another route may still lead the data there. No manager is ever recorded twice.
pub fn uldata_step(dispatch: &mut UlDispatch, device_found: bool, ev: UlEvent) -> (a: UlAction)
    ensures
        final(dispatch).sent_keys().no_duplicates(),
        match ev {
            UlEvent::Route { key, has_mgr } => final(dispatch).sent_keys() == old(dispatch).sent_keys()
                && ((a matches UlAction::Send(k) && k@ == key@) == (device_found && has_mgr
                && !old(dispatch).sent_keys().contains(key@))) && (a is Skip || a is Send),
            UlEvent::Sent { key, ok } => a is Skip && if ok && !old(dispatch).sent_keys().contains(key@) {
                final(dispatch).sent_keys() == old(dispatch).sent_keys().push(key@)
            } else {
                final(dispatch).sent_keys() == old(dispatch).sent_keys()
            },
        },
{
    proof {
        use_type_invariant(&*dispatch);
    }
    match ev {
        UlEvent::Route { key, has_mgr } => {
            if dispatch.route_send(device_found, &key, has_mgr) {
                UlAction::Send(key)
            } else {
                UlAction::Skip
            }
        },
        UlEvent::Sent { key, ok } => {
            if ok && dispatch.is_pending(&key) {
                dispatch.mark_sent(&key);
            }
            UlAction::Skip
        },
    }
}

/// Where `POST /api/v1/network` stands: what it waits for, with the unit's code (none for a
/// public network).
#[derive(Debug)]
pub enum PostNetState {
    Start,
    UnitLookup,
    CodeCheck { unit_code: Option<String> },
    Adding { unit_code: Option<String> },
    Done,
}

/// What happened to `POST /api/v1/network`.
#[derive(Debug)]
pub enum PostNetEvent {
    /// The request arrived.
    Start,
    /// The unit's code, if the unit exists and the user owns it.
    Unit(Option<String>),
    /// Whether the unit (or the public networks) already has a network of the code.
    CodeTaken(bool),
    /// The network was added.
    Finished,
    /// The database failed, with its error text.
    DbError(String),
}

/// What to do next for `POST /api/v1/network`.
#[derive(Debug)]
pub enum PostNetAction {
    /// Look up the unit with this query (for its owner, unless the user has the
    /// administrator or the manager role).
    GetUnit(UnitQueryCond),
    /// Look up a network of the unit (none: a public one) with the code.
    CheckCode { unit_id: Option<String>, code: String },
    /// Add the network.
    Add(Network),
    /// Start the manager of the network under the key `mgr_key` with the host URI, and
    /// answer with the network's ID.
    Finish { mgr_key: String, host_uri: String, network_id: String },
    /// Answer with the error.
    Reply(ApiError),
    /// Nothing more to do.
    Stop,
}

/// The code check of a new network of the unit `unit_id` (none: public).
pub open spec fn post_net_code_check(unit_id: Option<Seq<char>>, code: Seq<char>, unit_code: Option<Seq<char>>, r: (PostNetState, PostNetAction)) -> bool {
    (r.0 matches PostNetState::CodeCheck { unit_code: c } && opt_view(c) == unit_code) && (
    r.1 matches PostNetAction::CheckCode { unit_id: u, code: k } && opt_view(u) == unit_id && k@
        == code)
}

/// The steps of `POST /api/v1/network` by `user_id` with `roles` at `now` with the new ID
/// `network_id`, in order: the checks of [`post_check_spec`]; a given unit must exist and,
/// for a user without the administrator or the manager role, be the user's own (else
/// `err_broker_unit_not_exist`); the code must be free in the unit, or among the public
/// networks (else `err_broker_network_exist`); the new network; its manager under the key
/// of the unit's code (empty for a public network) and its code. A database error is
/// answered as such; any other unexpected event ends the request.
pub open spec fn post_net_step_spec(
    user_id: Seq<char>,
    roles: Seq<(String, bool)>,
    data: PostNetworkData,
    network_id: Seq<char>,
    now: i64,
    st: PostNetState,
    ev: PostNetEvent,
    r: (PostNetState, PostNetAction),
) -> bool {
    if st is Done {
        r.0 is Done && r.1 is Stop
    } else {
        match post_check_spec(roles, data) {
            Err(e) => r.0 is Done && (r.1 matches PostNetAction::Reply(x) && x@ == e),
            Ok(checked) => match (st, ev) {
                (PostNetState::Start, PostNetEvent::Start) => match checked.2 {
                    Some(u) => r.0 is UnitLookup && (r.1 matches PostNetAction::GetUnit(c)
                        && unit_cond_spec(c, user_id, roles, u, true)),
                    None => post_net_code_check(None, checked.0, None, r),
                },
                (PostNetState::UnitLookup, PostNetEvent::Unit(None)) => r.0 is Done && (
                r.1 matches PostNetAction::Reply(x) && x@ == ErrView::Req(BrokerReq::UnitNotExist)),
                (PostNetState::UnitLookup, PostNetEvent::Unit(Some(code))) => post_net_code_check(
                    checked.2,
                    checked.0,
                    Some(code@),
                    r,
                ),
                (PostNetState::CodeCheck { unit_code }, PostNetEvent::CodeTaken(taken)) => if taken {
                    r.0 is Done && (r.1 matches PostNetAction::Reply(x) && x@ == ErrView::Req(
                        BrokerReq::NetworkExist,
                    ))
                } else {
                    (r.0 matches PostNetState::Adding { unit_code: c } && c == unit_code) && (
                    r.1 matches PostNetAction::Add(n) && n.network_id@ == network_id && n.code@
                        == checked.0 && opt_view(n.unit_id) == checked.2 && opt_view(n.unit_code) == opt_view(unit_code)
                        && n.created_at == now && n.modified_at == now && n.host_uri@ == checked.1
                        && n.name@ == or_empty(opt_view(data.name)) && pairs(n.info@) == info_or_empty(
                        data.info,
                    ))
                },
                (PostNetState::Adding { unit_code }, PostNetEvent::Finished) => r.0 is Done && (
                r.1 matches PostNetAction::Finish { mgr_key: k, host_uri, network_id: id } && k@
                    == mgr_key(
                    match unit_code {
                        Some(c) => c@,
                        None => Seq::empty(),
                    },
                    checked.0,
                ) && host_uri@ == checked.1 && id@ == network_id),
                (PostNetState::UnitLookup, PostNetEvent::DbError(e))
                | (PostNetState::CodeCheck { .. }, PostNetEvent::DbError(e))
                | (PostNetState::Adding { .. }, PostNetEvent::DbError(e)) => r.0 is Done && (
                r.1 matches PostNetAction::Reply(x) && x@ == ErrView::Db(e@)),
                _ => r.0 is Done && r.1 is Stop,
            },
        }
    }
}

/// One step of `POST /api/v1/network` at `now` with the new ID `network_id` (see
/// [`post_net_step_spec`]).
pub fn post_network_step(
    user_id: &str,
    roles: &Vec<(String, bool)>,
    data: &PostNetworkData,
    network_id: &str,
    now: i64,
    st: PostNetState,
    ev: PostNetEvent,
) -> (r: (PostNetState, PostNetAction))
    ensures
        post_net_step_spec(user_id@, roles@, *data, network_id@, now, st, ev, r),
{
    if let PostNetState::Done = st {
        return (PostNetState::Done, PostNetAction::Stop);
    }
    let checked = match check_post_network(roles, data) {
        Err(e) => return (PostNetState::Done, PostNetAction::Reply(e)),
        Ok(c) => c,
    };
    match st {
        PostNetState::Start => match ev {
            PostNetEvent::Start => match &checked.unit_id {
                Some(u) => (PostNetState::UnitLookup, PostNetAction::GetUnit(check_unit_cond(user_id, roles, u.as_str(), true))),
                None => (
                    PostNetState::CodeCheck { unit_code: None },
                    PostNetAction::CheckCode { unit_id: None, code: checked.code },
                ),
            },
            _ => (PostNetState::Done, PostNetAction::Stop),
        },
        PostNetState::UnitLookup => match ev {
            PostNetEvent::Unit(None) => (PostNetState::Done, PostNetAction::Reply(ApiError::Req(BrokerReq::UnitNotExist))),
            PostNetEvent::Unit(Some(code)) => (
                PostNetState::CodeCheck { unit_code: Some(code) },
                PostNetAction::CheckCode { unit_id: checked.unit_id, code: checked.code },
            ),
            PostNetEvent::DbError(e) => (PostNetState::Done, PostNetAction::Reply(ApiError::Db(e))),
            _ => (PostNetState::Done, PostNetAction::Stop),
        },
        PostNetState::CodeCheck { unit_code } => match ev {
            PostNetEvent::CodeTaken(taken) => {
                if taken {
                    (PostNetState::Done, PostNetAction::Reply(ApiError::Req(BrokerReq::NetworkExist)))
                } else {
                    let n = new_network(String::from_str(network_id), checked, clone_opt(&unit_code), now, data);
                    (PostNetState::Adding { unit_code }, PostNetAction::Add(n))
                }
            },
            PostNetEvent::DbError(e) => (PostNetState::Done, PostNetAction::Reply(ApiError::Db(e))),
            _ => (PostNetState::Done, PostNetAction::Stop),
        },
        PostNetState::Adding { unit_code } => match ev {
            PostNetEvent::Finished => {
                let key = match &unit_code {
                    Some(c) => gen_mgr_key(c.as_str(), checked.code.as_str()),
                    None => {
                        proof {
                            reveal_strlit("");
                        }
                        gen_mgr_key("", checked.code.as_str())
                    },
                };
                (
                    PostNetState::Done,
                    PostNetAction::Finish {
                        mgr_key: key,
                        host_uri: checked.host_uri,
                        network_id: String::from_str(network_id),
                    },
                )
            },
            PostNetEvent::DbError(e) => (PostNetState::Done, PostNetAction::Reply(ApiError::Db(e))),
            _ => (PostNetState::Done, PostNetAction::Stop),
        },
        PostNetState::Done => (PostNetState::Done, PostNetAction::Stop),
    }
}

/// `GET /api/v1/network/count` filters by the unit filter (none, the public networks for an
/// empty unit, or the networks of the unit), by the exact code when one is given, and else
/// by a part of the code; an absent or empty parameter filters nothing.
pub proof fn lemma_network_count_fields(query: GetNetworkCountQuery, c: ListQueryCond)
    requires
        call_ensures(get_network_count_cond, (&query,), c),
    ensures
        query.unit is None ==> c.unit_id is None,
        (query.unit matches Some(u) && u@.len() == 0) ==> c.unit_id == Some(None::<String>),
        (query.unit matches Some(u) && u@.len() > 0) ==> (c.unit_id matches Some(Some(x)) && x@ == query.unit->0@),
        (query.code matches Some(k) && k@.len() > 0) ==> opt_view(c.code) == Some(query.code->0@) && c.code_contains is None,
        !(query.code matches Some(k) && k@.len() > 0) ==> c.code is None,
        !(query.code matches Some(k) && k@.len() > 0) && (query.contains matches Some(t) && t@.len() > 0) ==> opt_view(c.code_contains) == Some(query.contains->0@),
        !(query.contains matches Some(t) && t@.len() > 0) ==> c.code_contains is None,
{
}

/// The first query of `GET /api/v1/network/list` filters as the count does (see
/// [`lemma_network_count_fields`]).
pub proof fn lemma_network_list_fields(query: GetNetworkListQuery, r: Result<ListOptions, ApiError>)
    requires
        call_ensures(get_network_list_opts, (&query,), r),
    ensures
        r matches Ok(o) ==> {
            &&& query.unit is None ==> o.cond.unit_id is None
            &&& (query.unit matches Some(u) && u@.len() == 0) ==> o.cond.unit_id == Some(None::<String>)
            &&& (query.unit matches Some(u) && u@.len() > 0) ==> (o.cond.unit_id matches Some(Some(x)) && x@ == query.unit->0@)
            &&& (query.code matches Some(k) && k@.len() > 0) ==> opt_view(o.cond.code) == Some(query.code->0@) && o.cond.code_contains is None
            &&& !(query.code matches Some(k) && k@.len() > 0) ==> o.cond.code is None
            &&& !(query.code matches Some(k) && k@.len() > 0) && (query.contains matches Some(t) && t@.len() > 0) ==> opt_view(o.cond.code_contains) == Some(query.contains->0@)
            &&& !(query.contains matches Some(t) && t@.len() > 0) ==> o.cond.code_contains is None
        },
{
}

/// The queries that continue a streamed `GET /api/v1/network/list` filter by the unit filter
/// and a part of the code, but not by the exact code.
pub proof fn lemma_network_list_stream_fields(query: GetNetworkListQuery, c: ListQueryCond)
    requires
        call_ensures(get_network_list_stream_cond, (&query,), c),
    ensures
        query.unit is None ==> c.unit_id is None,
        (query.unit matches Some(u) && u@.len() == 0) ==> c.unit_id == Some(None::<String>),
        (query.unit matches Some(u) && u@.len() > 0) ==> (c.unit_id matches Some(Some(x)) && x@ == query.unit->0@),
        c.code is None,
        (query.contains matches Some(t) && t@.len() > 0) ==> opt_view(c.code_contains) == Some(query.contains->0@),
        !(query.contains matches Some(t) && t@.len() > 0) ==> c.code_contains is None,
{
}

} // verus!
