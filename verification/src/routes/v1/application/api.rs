//! The decisions of the application API: the conditions of the count and list queries, the
//! sort conditions, the checks of a new application and of a change, the presentation of
//! applications, and the routing of downlink data to a network manager.

use vstd::prelude::*;
use vstd::string::*;

use super::request::{
    GetApplicationCountQuery, GetApplicationListQuery, ListFormat, PatchApplicationData,
    PostApplicationData,
};
use super::response::GetApplicationData;
use crate::corelib::{code_spec, lowercase, time_str, time_text};
use crate::models::{
    clone_opt, clone_pairs, opt_view, pairs, strs, Application, Device, DlDataBuffer, Unit,
};
use crate::routes::v1::lib::{check_unit_cond, gen_mgr_key, mgr_key, unit_cond_spec, UnitQueryCond};
use crate::routes::v1::list::{
    cond_spec, conds_view, frame_list, frame_spec, limit_spec, list_limit, list_step,
    list_step_spec, non_empty, sort_conds, sort_fault_text, sort_outcome, sort_result_in,
    ListAction, ListEvent, ListState, SortFault, LIST_CURSOR_MAX,
};
use crate::routes::v1::lib::{unit_param, unit_param_spec};
use crate::routes::v1::valid::{
    check_code, check_host_uri, check_info, check_non_empty, code_msg, empty_field_msg,
    host_uri_spec, info_msg, info_or_empty, info_or_empty_of, no_update_msg, opt_info_ok,
    opt_pairs, or_empty, text_or_empty,
};
use crate::routes::{param_err, req_code, ApiError, BrokerReq, ErrView};

verus! {

/// The keys by which applications are sorted.
#[derive(PartialEq, Eq, Structural, Clone, Copy, Debug)]
pub enum SortKey {
    Code,
    CreatedAt,
    ModifiedAt,
    Name,
}

/// One sort condition of applications.
pub type SortCond = crate::routes::v1::list::SortCond<SortKey>;

/// The names of the sort keys in a sort argument.
pub open spec fn sort_fields() -> Seq<Seq<char>> {
    seq!["code"@, "created"@, "modified"@, "name"@]
}

/// The sort keys named by [`sort_fields`], in the same order.
pub open spec fn sort_keys() -> Seq<SortKey> {
    seq![SortKey::Code, SortKey::CreatedAt, SortKey::ModifiedAt, SortKey::Name]
}

/// The sort conditions of an optional sort argument: by code ascending when there is none.
pub open spec fn sort_result(args: Option<Seq<char>>) -> Result<Seq<(SortKey, bool)>, SortFault> {
    sort_result_in(args, sort_fields(), sort_keys(), seq![(SortKey::Code, true)])
}

/// The sort conditions of a list request: the conditions of the sort argument, or the
/// parameter error of its first refused condition; by code ascending without argument.
pub fn get_sort_cond(sort_args: &Option<String>) -> (r: Result<Vec<SortCond>, ApiError>)
    ensures
        match sort_result(opt_view(*sort_args)) {
            Ok(s) => r matches Ok(v) && conds_view(v@) == s,
            Err(f) => r matches Err(e) && e@ == ErrView::Param(sort_fault_text(f)),
        },
{
    let fields = vec![
        String::from_str("code"),
        String::from_str("created"),
        String::from_str("modified"),
        String::from_str("name"),
    ];
    let keys = vec![SortKey::Code, SortKey::CreatedAt, SortKey::ModifiedAt, SortKey::Name];
    let default = vec![SortCond { key: SortKey::Code, asc: true }];
    proof {
        assert(strs(fields@) =~= sort_fields());
        assert(keys@ =~= sort_keys());
        assert(conds_view(default@) =~= seq![(SortKey::Code, true)]);
    }
    sort_conds(sort_args, &fields, &keys, default)
}

/// The condition of a count or list query of applications.
#[derive(Debug)]
pub struct ListQueryCond {
    pub unit_id: Option<String>,
    pub code_contains: Option<String>,
}

/// The condition of a query of applications, after the unit filter was checked: by the
/// unit and by a part of the code, an empty parameter being no filter.
pub open spec fn list_cond_spec(c: ListQueryCond, unit: Option<Seq<char>>, contains: Option<Seq<char>>) -> bool {
    &&& opt_view(c.unit_id) == cond_spec(unit)
    &&& opt_view(c.code_contains) == cond_spec(contains)
}

/// The condition of `GET /api/v1/application/count`, after the unit filter was checked.
pub fn get_application_count_cond(query: &GetApplicationCountQuery) -> (c: ListQueryCond)
    ensures
        list_cond_spec(c, opt_view(query.unit), opt_view(query.contains)),
{
    ListQueryCond { unit_id: non_empty(&query.unit), code_contains: non_empty(&query.contains) }
}

/// The options of a list query of applications.
#[derive(Debug)]
pub struct ListOptions {
    pub cond: ListQueryCond,
    pub offset: Option<u64>,
    pub limit: Option<u64>,
    pub sort: Vec<SortCond>,
    pub cursor_max: Option<u64>,
}

/// The options of the queries of `GET /api/v1/application/list`, after the unit filter was
/// checked, or the parameter error of the sort argument.
pub fn get_application_list_opts(query: &GetApplicationListQuery) -> (r: Result<ListOptions, ApiError>)
    ensures
        match sort_result(opt_view(query.sort)) {
            Ok(s) => r matches Ok(o) && conds_view(o.sort@) == s && list_cond_spec(
                o.cond,
                opt_view(query.unit),
                opt_view(query.contains),
            ) && o.offset == query.offset && o.limit == limit_spec(query.limit) && o.cursor_max
                == Some(LIST_CURSOR_MAX),
            Err(f) => r matches Err(e) && e@ == ErrView::Param(sort_fault_text(f)),
        },
{
    let cond = ListQueryCond {
        unit_id: non_empty(&query.unit),
        code_contains: non_empty(&query.contains),
    };
    let sort = get_sort_cond(&query.sort)?;
    Ok(ListOptions {
        cond,
        offset: query.offset,
        limit: list_limit(query.limit),
        sort,
        cursor_max: Some(LIST_CURSOR_MAX),
    })
}

/// The options of the queries of `GET /api/v1/application/list`, the first one and those that
/// continue a streamed list alike.
pub open spec fn application_list_opts_ok(query: GetApplicationListQuery) -> spec_fn(ListOptions) -> bool {
    |o: ListOptions|
        sort_result(opt_view(query.sort)) matches Ok(s) && conds_view(o.sort@) == s && list_cond_spec(
            o.cond,
            opt_view(query.unit),
            opt_view(query.contains),
        ) && o.offset == query.offset && o.limit == limit_spec(query.limit) && o.cursor_max == Some(
            LIST_CURSOR_MAX,
        )
}

/// One step of `GET /api/v1/application/list` (see [`list_step_spec`]): the unit filter of
/// [`unit_param`], the sort argument, and the options of [`application_list_opts_ok`].
pub fn get_application_list_step(
    user_id: &str,
    roles: &Vec<(String, bool)>,
    query: &GetApplicationListQuery,
    st: ListState,
    ev: ListEvent,
) -> (r: (ListState, ListAction<ListOptions>))
    ensures
        list_step_spec(
            unit_param_spec(roles@, opt_view(query.unit)),
            sort_outcome(sort_result(opt_view(query.sort))),
            application_list_opts_ok(*query),
            application_list_opts_ok(*query),
            query.format == Some(ListFormat::Array),
            user_id@,
            roles@,
            st,
            ev,
            r,
        ),
{
    let unit = unit_param(roles, &query.unit);
    let opts = match get_application_list_opts(query) {
        Err(e) => Err(e),
        Ok(first) => match get_application_list_opts(query) {
            Err(e) => Err(e),
            Ok(stream) => Ok((first, stream)),
        },
    };
    let array = match &query.format {
        Some(ListFormat::Array) => true,
        _ => false,
    };
    list_step(
        user_id,
        roles,
        unit,
        opts,
        array,
        st,
        ev,
        Ghost(application_list_opts_ok(*query)),
        Ghost(application_list_opts_ok(*query)),
    )
}


/// What the checks of a new application leave to do.
#[derive(Debug)]
pub struct PostApplicationCheck {
    /// The code, lower-cased.
    pub code: String,
    /// The serialization of the parsed host URI.
    pub host_uri: String,
}

/// The checks of `POST /api/v1/application` before the unit is looked up, in order: the
/// lower-cased code must be a code, the host URI must parse with a message queue scheme, no
/// key of `info` may be empty, and the unit must be given.
pub open spec fn post_check_spec(data: PostApplicationData) -> Result<(Seq<char>, Seq<char>), ErrView> {
    if !code_spec(lowercase(data.code@)) {
        Err(ErrView::Param(code_msg()))
    } else {
        match host_uri_spec(data.host_uri@) {
            Err(e) => Err(e),
            Ok(uri) => if !opt_info_ok(data.info) {
                Err(ErrView::Param(info_msg()))
            } else if data.unit_id@.len() == 0 {
                Err(ErrView::Param(empty_field_msg("unitId"@)))
            } else {
                Ok((lowercase(data.code@), uri))
            },
        }
    }
}

/// The checks of `POST /api/v1/application` before the unit is looked up (see
/// [`post_check_spec`]).
pub fn check_post_application(data: &PostApplicationData) -> (r: Result<PostApplicationCheck, ApiError>)
    ensures
        match post_check_spec(*data) {
            Ok(p) => r matches Ok(c) && c.code@ == p.0 && c.host_uri@ == p.1,
            Err(ev) => r matches Err(e) && e@ == ev,
        },
{
    let code = check_code(data.code.as_str())?;
    let host_uri = check_host_uri(data.host_uri.as_str())?;
    check_info(&data.info)?;
    check_non_empty(data.unit_id.as_str(), "unitId")?;
    Ok(PostApplicationCheck { code, host_uri })
}

/// The new application of the unit `unit_id` with the code `unit_code`: no name means an
/// empty name and no information an empty one.
pub fn new_application(
    application_id: String,
    check: PostApplicationCheck,
    unit_id: &str,
    unit_code: &str,
    now: i64,
    data: &PostApplicationData,
) -> (a: Application)
    ensures
        a.application_id == application_id,
        a.code == check.code,
        a.unit_id@ == unit_id@,
        a.unit_code@ == unit_code@,
        a.created_at == now,
        a.modified_at == now,
        a.host_uri == check.host_uri,
        a.name@ == or_empty(opt_view(data.name)),
        pairs(a.info@) == info_or_empty(data.info),
{
    Application {
        application_id,
        code: check.code,
        unit_id: String::from_str(unit_id),
        unit_code: String::from_str(unit_code),
        created_at: now,
        modified_at: now,
        host_uri: check.host_uri,
        name: text_or_empty(&data.name),
        info: info_or_empty_of(&data.info),
    }
}

/// Where `POST /api/v1/application` stands: what it waits for, with the unit's code.
#[derive(Debug)]
pub enum PostAppState {
    Start,
    UnitLookup,
    CodeCheck { unit_code: String },
    Adding { unit_code: String },
    Done,
}

/// What happened to `POST /api/v1/application`.
#[derive(Debug)]
pub enum PostAppEvent {
    /// The request arrived.
    Start,
    /// The unit, if it exists and the user owns it.
    Unit(Option<Unit>),
    /// Whether the unit already has an application of the code.
    CodeTaken(bool),
    /// The application was added.
    Finished,
    /// The database failed, with its error text.
    DbError(String),
}

/// What to do next for `POST /api/v1/application`.
#[derive(Debug)]
pub enum PostAppAction {
    /// Look up the unit with this query (for its owner, unless the user has the
    /// administrator or the manager role).
    GetUnit(UnitQueryCond),
    /// Look up an application of the unit with the code.
    CheckCode { unit_id: String, code: String },
    /// Add the application.
    Add(Application),
    /// Start the manager of the application under the key `mgr_key`, and answer with the
    /// application's ID.
    Finish { mgr_key: String, application_id: String },
    /// Answer with the error.
    Reply(ApiError),
    /// Nothing more to do.
    Stop,
}

/// The new application of `POST /api/v1/application` in the unit of the code `unit_code`.
pub open spec fn post_app_spec(
    a: Application,
    data: PostApplicationData,
    checked: (Seq<char>, Seq<char>),
    application_id: Seq<char>,
    unit_code: Seq<char>,
    now: i64,
) -> bool {
    &&& a.application_id@ == application_id
    &&& a.code@ == checked.0
    &&& a.unit_id@ == data.unit_id@
    &&& a.unit_code@ == unit_code
    &&& a.created_at == now
    &&& a.modified_at == now
    &&& a.host_uri@ == checked.1
    &&& a.name@ == or_empty(opt_view(data.name))
    &&& pairs(a.info@) == info_or_empty(data.info)
}

/// The steps of `POST /api/v1/application` by `user_id` with `roles` at `now` with the new ID
/// `application_id`, in order: the checks of [`post_check_spec`]; the unit, which a user
/// without the administrator or the manager role must own (missing:
/// `err_broker_unit_not_exist`);
/// the code must be free in the unit (else `err_broker_application_exist`); the new
/// application; its manager under the key of the unit's code and its code. A database error
/// is answered as such; any other unexpected event ends the request.
pub open spec fn post_app_step_spec(
    user_id: Seq<char>,
    roles: Seq<(String, bool)>,
    data: PostApplicationData,
    application_id: Seq<char>,
    now: i64,
    st: PostAppState,
    ev: PostAppEvent,
    r: (PostAppState, PostAppAction),
) -> bool {
    if st is Done {
        r.0 is Done && r.1 is Stop
    } else {
        match post_check_spec(data) {
            Err(e) => r.0 is Done && (r.1 matches PostAppAction::Reply(x) && x@ == e),
            Ok(checked) => match (st, ev) {
                (PostAppState::Start, PostAppEvent::Start) => r.0 is UnitLookup && (
                r.1 matches PostAppAction::GetUnit(c) && unit_cond_spec(c, user_id, roles, data.unit_id@, true)),
                (PostAppState::UnitLookup, PostAppEvent::Unit(None)) => r.0 is Done && (
                r.1 matches PostAppAction::Reply(x) && x@ == ErrView::Req(BrokerReq::UnitNotExist)),
                (PostAppState::UnitLookup, PostAppEvent::Unit(Some(u))) => (
                r.0 matches PostAppState::CodeCheck { unit_code } && unit_code@ == u.code@) && (
                r.1 matches PostAppAction::CheckCode { unit_id, code } && unit_id@ == data.unit_id@
                    && code@ == checked.0),
                (PostAppState::CodeCheck { unit_code }, PostAppEvent::CodeTaken(taken)) => if taken {
                    r.0 is Done && (r.1 matches PostAppAction::Reply(x) && x@ == ErrView::Req(
                        BrokerReq::ApplicationExist,
                    ))
                } else {
                    (r.0 matches PostAppState::Adding { unit_code: c } && c == unit_code) && (
                    r.1 matches PostAppAction::Add(a) && post_app_spec(
                        a,
                        data,
                        checked,
                        application_id,
                        unit_code@,
                        now,
                    ))
                },
                (PostAppState::Adding { unit_code }, PostAppEvent::Finished) => r.0 is Done && (
                r.1 matches PostAppAction::Finish { mgr_key: k, application_id: id } && k@
                    == mgr_key(unit_code@, checked.0) && id@ == application_id),
                (PostAppState::UnitLookup, PostAppEvent::DbError(e))
                | (PostAppState::CodeCheck { .. }, PostAppEvent::DbError(e))
                | (PostAppState::Adding { .. }, PostAppEvent::DbError(e)) => r.0 is Done && (
                r.1 matches PostAppAction::Reply(x) && x@ == ErrView::Db(e@)),
                _ => r.0 is Done && r.1 is Stop,
            },
        }
    }
}

/// One step of `POST /api/v1/application` at `now` with the new ID `application_id` (see
/// [`post_app_step_spec`]).
pub fn post_application_step(
    user_id: &str,
    roles: &Vec<(String, bool)>,
    data: &PostApplicationData,
    application_id: &str,
    now: i64,
    st: PostAppState,
    ev: PostAppEvent,
) -> (r: (PostAppState, PostAppAction))
    ensures
        post_app_step_spec(user_id@, roles@, *data, application_id@, now, st, ev, r),
{
    if let PostAppState::Done = st {
        return (PostAppState::Done, PostAppAction::Stop);
    }
    let checked = match check_post_application(data) {
        Err(e) => return (PostAppState::Done, PostAppAction::Reply(e)),
        Ok(c) => c,
    };
    match st {
        PostAppState::Start => match ev {
            PostAppEvent::Start => (PostAppState::UnitLookup, PostAppAction::GetUnit(check_unit_cond(user_id, roles, data.unit_id.as_str(), true))),
            _ => (PostAppState::Done, PostAppAction::Stop),
        },
        PostAppState::UnitLookup => match ev {
            PostAppEvent::Unit(None) => (PostAppState::Done, PostAppAction::Reply(ApiError::Req(BrokerReq::UnitNotExist))),
            PostAppEvent::Unit(Some(u)) => (
                PostAppState::CodeCheck { unit_code: u.code },
                PostAppAction::CheckCode { unit_id: data.unit_id.clone(), code: checked.code },
            ),
            PostAppEvent::DbError(e) => (PostAppState::Done, PostAppAction::Reply(ApiError::Db(e))),
            _ => (PostAppState::Done, PostAppAction::Stop),
        },
        PostAppState::CodeCheck { unit_code } => match ev {
            PostAppEvent::CodeTaken(taken) => {
                if taken {
                    (PostAppState::Done, PostAppAction::Reply(ApiError::Req(BrokerReq::ApplicationExist)))
                } else {
                    let a = new_application(
                        String::from_str(application_id),
                        checked,
                        data.unit_id.as_str(),
                        unit_code.as_str(),
                        now,
                        data,
                    );
                    (PostAppState::Adding { unit_code }, PostAppAction::Add(a))
                }
            },
            PostAppEvent::DbError(e) => (PostAppState::Done, PostAppAction::Reply(ApiError::Db(e))),
            _ => (PostAppState::Done, PostAppAction::Stop),
        },
        PostAppState::Adding { unit_code } => match ev {
            PostAppEvent::Finished => (
                PostAppState::Done,
                PostAppAction::Finish {
                    mgr_key: gen_mgr_key(unit_code.as_str(), checked.code.as_str()),
                    application_id: String::from_str(application_id),
                },
            ),
            PostAppEvent::DbError(e) => (PostAppState::Done, PostAppAction::Reply(ApiError::Db(e))),
            _ => (PostAppState::Done, PostAppAction::Stop),
        },
        PostAppState::Done => (PostAppState::Done, PostAppAction::Stop),
    }
}

/// The changes of an application.
#[derive(Debug)]
pub struct Updates {
    pub host_uri: Option<String>,
    pub name: Option<String>,
    pub info: Option<Vec<(String, String)>>,
    pub modified_at: i64,
}

/// The checks of `PATCH /api/v1/application/{applicationId}`, in order: a new host URI must
/// parse with a message queue scheme (and is kept as the parsed URI's serialization), no key
/// of `info` may be empty, and at least one field must be given.
pub fn get_updates(data: &PatchApplicationData, now: i64) -> (r: Result<Updates, ApiError>)
    ensures
        match data.host_uri {
            Some(h) => match host_uri_spec(h@) {
                Err(ev) => r matches Err(e) && e@ == ev,
                Ok(uri) => if !opt_info_ok(data.info) {
                    r matches Err(e) && e@ == ErrView::Param(info_msg())
                } else {
                    r matches Ok(u) && opt_view(u.host_uri) == Some(uri) && opt_view(u.name)
                        == opt_view(data.name) && opt_pairs(u.info) == opt_pairs(data.info)
                        && u.modified_at == now
                },
            },
            None => if !opt_info_ok(data.info) {
                r matches Err(e) && e@ == ErrView::Param(info_msg())
            } else if data.name is None && data.info is None {
                r matches Err(e) && e@ == ErrView::Param(no_update_msg())
            } else {
                r matches Ok(u) && u.host_uri is None && opt_view(u.name) == opt_view(data.name)
                    && opt_pairs(u.info) == opt_pairs(data.info) && u.modified_at == now
            },
        },
{
    let host_uri = match &data.host_uri {
        None => None,
        Some(h) => Some(check_host_uri(h.as_str())?),
    };
    check_info(&data.info)?;
    if host_uri.is_none() && data.name.is_none() && data.info.is_none() {
        return Err(param_err("at least one parameter"));
    }
    let info = match &data.info {
        None => None,
        Some(i) => Some(clone_pairs(i)),
    };
    Ok(Updates { host_uri, name: clone_opt(&data.name), info, modified_at: now })
}

/// An application as the API presents it.
pub open spec fn application_data_spec(d: GetApplicationData, a: Application) -> bool {
    &&& d.application_id@ == a.application_id@
    &&& d.code@ == a.code@
    &&& d.unit_id@ == a.unit_id@
    &&& d.unit_code@ == a.unit_code@
    &&& d.created_at@ == time_text(a.created_at)
    &&& d.modified_at@ == time_text(a.modified_at)
    &&& d.host_uri@ == a.host_uri@
    &&& d.name@ == a.name@
    &&& pairs(d.info@) == pairs(a.info@)
}

/// Presents an application, with its times in RFC 3339.
pub fn application_transform(application: &Application) -> (d: GetApplicationData)
    requires
        application.times_ok(),
    ensures
        application_data_spec(d, *application),
{
    GetApplicationData {
        application_id: application.application_id.clone(),
        code: application.code.clone(),
        unit_id: application.unit_id.clone(),
        unit_code: application.unit_code.clone(),
        created_at: time_str(application.created_at),
        modified_at: time_str(application.modified_at),
        host_uri: application.host_uri.clone(),
        name: application.name.clone(),
        info: clone_pairs(&application.info),
    }
}

/// Presents a list of applications, in order.
pub fn application_list_transform(list: &Vec<Application>) -> (r: Vec<GetApplicationData>)
    requires
        forall|i: int| 0 <= i < list.len() ==> (#[trigger] list@[i]).times_ok(),
    ensures
        r.len() == list.len(),
        forall|i: int| 0 <= i < list.len() ==> application_data_spec(#[trigger] r@[i], list@[i]),
{
    let mut r: Vec<GetApplicationData> = Vec::new();
    let mut i: usize = 0;
    while i < list.len()
        invariant
            i <= list.len(),
            forall|k: int| 0 <= k < list.len() ==> (#[trigger] list@[k]).times_ok(),
            r.len() == i,
            forall|k: int| 0 <= k < i ==> application_data_spec(#[trigger] r@[k], list@[k]),
        decreases list.len() - i,
    {
        r.push(application_transform(&list[i]));
        i += 1;
    }
    r
}

/// A chunk of a streamed application list, from the JSON texts of its presented
/// applications.
pub fn application_list_transform_bytes(items: &Vec<String>, with_start: bool, with_end: bool, format: Option<ListFormat>) -> (s: String)
    ensures
        s@ == frame_spec(strs(items@), with_start, with_end, format == Some(ListFormat::Array)),
{
    let array = match format {
        Some(ListFormat::Array) => true,
        _ => false,
    };
    frame_list(items, with_start, with_end, array)
}

/// The key of an application manager: the unit code and the application code.
pub open spec fn application_mgr_key(a: Application) -> Seq<char> {
    mgr_key(a.unit_code@, a.code@)
}

/// The key of the manager of an application, to remove it.
pub fn gen_application_mgr_key(application: &Application) -> (key: String)
    ensures
        key@ == application_mgr_key(*application),
{
    gen_mgr_key(application.unit_code.as_str(), application.code.as_str())
}

/// The number of seconds after which buffered downlink data expires.
pub const DATA_EXPIRES_IN: i64 = 86400;

/// When downlink data buffered at `now` (in milliseconds) expires.
pub fn dldata_expired_at(now: i64) -> (t: i64)
    requires
        now <= i64::MAX - DATA_EXPIRES_IN * 1000,
    ensures
        t == now + DATA_EXPIRES_IN * 1000,
{
    now + DATA_EXPIRES_IN * 1000
}

/// The key of the network manager that downlink data to a device goes to: the unit code of
/// the application manager for a device of a unit's network, none for a public network.
pub open spec fn dldata_net_mgr_key(device: Device, mgr_unit_code: Seq<char>) -> Seq<char> {
    match device.unit_code {
        None => mgr_key(Seq::empty(), device.network_code@),
        Some(_) => mgr_key(mgr_unit_code, device.network_code@),
    }
}

/// The key of the network manager that downlink data to a device goes to.
pub fn gen_dldata_net_mgr_key(device: &Device, mgr_unit_code: &str) -> (key: String)
    ensures
        key@ == dldata_net_mgr_key(*device, mgr_unit_code@),
{
    match &device.unit_code {
        None => {
            proof {
                reveal_strlit("");
            }
            gen_mgr_key("", device.network_code.as_str())
        },
        Some(_) => gen_mgr_key(mgr_unit_code, device.network_code.as_str()),
    }
}

/// Where downlink data to a device goes: the key of its network manager, and the device.
#[derive(Debug)]
pub struct DeviceRouteDlData {
    pub net_mgr_key: String,
    pub network_id: String,
    pub network_addr: String,
    pub device_id: String,
    pub profile: String,
}

/// The answer to an application that sent downlink data: its correlation ID, and the data ID
/// or the error code with its message.
#[derive(Debug)]
pub struct DlDataResp {
    pub correlation_id: String,
    pub data_id: Option<String>,
    pub error: Option<String>,
    pub message: Option<String>,
}

/// The code of a database error in an answer.
pub open spec fn err_db_code() -> Seq<char> {
    "err_db"@
}

/// Where downlink data goes, given the outcome of the look-up of its device (see
/// [`dldata_device_cond`]) by the application manager of the unit `mgr_unit_code`:
/// - a failed look-up answers `err_db` with the error text;
/// - no device answers `err_broker_device_not_exist`;
/// - else the data goes to the network manager of [`dldata_net_mgr_key`], with the device's
///   network ID, address, device ID and profile.
pub fn device_route_dldata(
    mgr_unit_code: &str,
    correlation_id: &str,
    found: Result<Option<Device>, String>,
) -> (r: Result<DeviceRouteDlData, DlDataResp>)
    ensures
        match found {
            Err(e) => r matches Err(resp) && resp.correlation_id@ == correlation_id@
                && resp.data_id is None && opt_view(resp.error) == Some(err_db_code())
                && opt_view(resp.message) == Some(e@),
            Ok(None) => r matches Err(resp) && resp.correlation_id@ == correlation_id@
                && resp.data_id is None && opt_view(resp.error) == Some(
                req_code(BrokerReq::DeviceNotExist),
            ) && resp.message is None,
            Ok(Some(d)) => r matches Ok(route) && route.net_mgr_key@ == dldata_net_mgr_key(
                d,
                mgr_unit_code@,
            ) && route.network_id == d.network_id && route.network_addr == d.network_addr
                && route.device_id == d.device_id && route.profile == d.profile,
        },
{
    match found {
        Err(e) => {
            proof {
                reveal_strlit("err_db");
            }
            Err(
                DlDataResp {
                    correlation_id: String::from_str(correlation_id),
                    data_id: None,
                    error: Some(String::from_str("err_db")),
                    message: Some(e),
                },
            )
        },
        Ok(None) => {
            let code = BrokerReq::DeviceNotExist.code();
            Err(
                DlDataResp {
                    correlation_id: String::from_str(correlation_id),
                    data_id: None,
                    error: Some(String::from_str(code.1)),
                    message: None,
                },
            )
        },
        Ok(Some(d)) => {
            let net_mgr_key = gen_dldata_net_mgr_key(&d, mgr_unit_code);
            Ok(
                DeviceRouteDlData {
                    net_mgr_key,
                    network_id: d.network_id,
                    network_addr: d.network_addr,
                    device_id: d.device_id,
                    profile: d.profile,
                },
            )
        },
    }
}

/// How the device of downlink data is found: by the unit code of the application manager,
/// the network code and the address, or, when the data names a device, by the unit ID of the
/// manager and the device ID.
#[derive(Debug)]
pub enum DlDataDeviceCond {
    ByAddr { unit_code: String, network_code: String, network_addr: String },
    ById { unit_id: String, device_id: String },
}

/// How the device of downlink data is found (see [`DlDataDeviceCond`]). Data without a device
/// ID names its network code and address.
pub fn dldata_device_cond(
    mgr_unit_id: &str,
    mgr_unit_code: &str,
    device_id: &Option<String>,
    network_code: &Option<String>,
    network_addr: &Option<String>,
) -> (c: DlDataDeviceCond)
    requires
        device_id is None ==> network_code is Some && network_addr is Some,
    ensures
        match *device_id {
            Some(d) => c matches DlDataDeviceCond::ById { unit_id, device_id: id } && unit_id@
                == mgr_unit_id@ && id@ == d@,
            None => c matches DlDataDeviceCond::ByAddr { unit_code, network_code: n, network_addr: a }
                && unit_code@ == mgr_unit_code@ && Some(n@) == opt_view(*network_code) && Some(a@)
                == opt_view(*network_addr),
        },
{
    match device_id {
        Some(d) => DlDataDeviceCond::ById { unit_id: String::from_str(mgr_unit_id), device_id: d.clone() },
        None => {
            let n = match network_code {
                Some(n) => n.clone(),
                None => String::new(),
            };
            let a = match network_addr {
                Some(a) => a.clone(),
                None => String::new(),
            };
            DlDataDeviceCond::ByAddr {
                unit_code: String::from_str(mgr_unit_code),
                network_code: n,
                network_addr: a,
            }
        },
    }
}

/// The buffer record of downlink data from an application manager to a device, created at
/// `now` and expiring [`DATA_EXPIRES_IN`] seconds later.
pub fn new_dldata_buffer(
    data_id: String,
    mgr_unit_id: &str,
    mgr_unit_code: &str,
    mgr_id: &str,
    mgr_name: &str,
    device: &Device,
    now: i64,
) -> (b: DlDataBuffer)
    requires
        now <= i64::MAX - DATA_EXPIRES_IN * 1000,
    ensures
        b.data_id == data_id,
        b.unit_id@ == mgr_unit_id@,
        b.unit_code@ == mgr_unit_code@,
        b.application_id@ == mgr_id@,
        b.application_code@ == mgr_name@,
        b.network_id@ == device.network_id@,
        b.network_addr@ == device.network_addr@,
        b.device_id@ == device.device_id@,
        b.created_at == now,
        b.expired_at == now + DATA_EXPIRES_IN * 1000,
{
    DlDataBuffer {
        data_id,
        unit_id: String::from_str(mgr_unit_id),
        unit_code: String::from_str(mgr_unit_code),
        application_id: String::from_str(mgr_id),
        application_code: String::from_str(mgr_name),
        network_id: device.network_id.clone(),
        network_addr: device.network_addr.clone(),
        device_id: device.device_id.clone(),
        created_at: now,
        expired_at: dldata_expired_at(now),
    }
}

/// A buffer record of downlink data (see [`new_dldata_buffer`]).
pub open spec fn dl_buffer_spec(
    b: DlDataBuffer,
    data_id: Seq<char>,
    mgr_unit_id: Seq<char>,
    mgr_unit_code: Seq<char>,
    mgr_id: Seq<char>,
    mgr_name: Seq<char>,
    device: Device,
    now: i64,
) -> bool {
    &&& b.data_id@ == data_id
    &&& b.unit_id@ == mgr_unit_id
    &&& b.unit_code@ == mgr_unit_code
    &&& b.application_id@ == mgr_id
    &&& b.application_code@ == mgr_name
    &&& b.network_id@ == device.network_id@
    &&& b.network_addr@ == device.network_addr@
    &&& b.device_id@ == device.device_id@
    &&& b.created_at == now
    &&& b.expired_at == now + DATA_EXPIRES_IN * 1000
}

/// An answer to downlink data.
pub open spec fn dl_resp_spec(
    resp: DlDataResp,
    correlation_id: Seq<char>,
    data_id: Option<Seq<char>>,
    error: Option<Seq<char>>,
    message: Option<Seq<char>>,
) -> bool {
    &&& resp.correlation_id@ == correlation_id
    &&& opt_view(resp.data_id) == data_id
    &&& opt_view(resp.error) == error
    &&& opt_view(resp.message) == message
}

/// The code of an error of the internal message queues in an answer.
pub open spec fn err_int_msg_code() -> Seq<char> {
    "err_int_msg"@
}

/// Where downlink data from an application manager stands: what it waits for.
#[derive(Debug)]
pub enum DlState {
    Start,
    DeviceLookup,
    MgrCheck { route: DeviceRouteDlData, buffer: DlDataBuffer },
    Buffering { route: DeviceRouteDlData },
    Sending,
    Done,
}

/// What happened to downlink data.
#[derive(Debug)]
pub enum DlEvent {
    /// The data arrived.
    Start,
    /// The outcome of the look-up of the device: the device, none, or the database error.
    Device(Result<Option<Device>, String>),
    /// Whether the network manager of the route runs.
    MgrExists(bool),
    /// The data was buffered.
    Buffered,
    /// The data was handed to the network manager, or the error of the hand-over.
    Sent(Result<(), String>),
    /// The database failed, with its error text.
    DbError(String),
}

/// What to do next with downlink data.
#[derive(Debug)]
pub enum DlAction {
    /// Look up the device.
    FindDevice(DlDataDeviceCond),
    /// Tell whether the network manager of this key runs.
    CheckMgr { net_mgr_key: String },
    /// Buffer the data.
    AddBuffer(DlDataBuffer),
    /// Hand the data, under the ID `data_id`, to the network manager of `net_mgr_key` for
    /// the device of `network_addr`.
    Send { net_mgr_key: String, data_id: String, network_addr: String },
    /// Answer the application.
    Reply(DlDataResp),
    /// Nothing more to do.
    Stop,
}

/// The steps of downlink data with the correlation ID `correlation_id`, from the
/// application manager `mgr_name` (ID `mgr_id`) of the unit `mgr_unit_code` (ID
/// `mgr_unit_id`), to the device named by `device_id` or by `network_code` and
/// `network_addr`, buffered at `now` under the ID `data_id`, in order: the device look-up
/// of [`dldata_device_cond`], answered by [`device_route_dldata`] when it fails or finds
/// nothing; the network manager of the route must run (else
/// `err_broker_network_not_exist`); the buffer record of [`dl_buffer_spec`] (a database
/// error answers `err_db` with its text); the hand-over to the network manager (a failure
/// answers `err_int_msg` with `send data with error: ` and its text); the answer with the
/// data ID. Any other unexpected event ends the data's way.
pub open spec fn dldata_step_spec(
    mgr_unit_id: Seq<char>,
    mgr_unit_code: Seq<char>,
    mgr_id: Seq<char>,
    mgr_name: Seq<char>,
    correlation_id: Seq<char>,
    device_id: Option<Seq<char>>,
    network_code: Option<Seq<char>>,
    network_addr: Option<Seq<char>>,
    data_id: Seq<char>,
    now: i64,
    st: DlState,
    ev: DlEvent,
    r: (DlState, DlAction),
) -> bool {
    match (st, ev) {
        (DlState::Start, DlEvent::Start) => r.0 is DeviceLookup && (r.1 matches DlAction::FindDevice(c) && match device_id {
            Some(d) => c matches DlDataDeviceCond::ById { unit_id, device_id: id } && unit_id@
                == mgr_unit_id && id@ == d,
            None => c matches DlDataDeviceCond::ByAddr { unit_code, network_code: n, network_addr: a }
                && unit_code@ == mgr_unit_code && Some(n@) == network_code && Some(a@) == network_addr,
        }),
        (DlState::DeviceLookup, DlEvent::Device(found)) => match found {
            Err(e) => r.0 is Done && (r.1 matches DlAction::Reply(resp) && dl_resp_spec(
                resp,
                correlation_id,
                None,
                Some(err_db_code()),
                Some(e@),
            )),
            Ok(None) => r.0 is Done && (r.1 matches DlAction::Reply(resp) && dl_resp_spec(
                resp,
                correlation_id,
                None,
                Some(req_code(BrokerReq::DeviceNotExist)),
                None,
            )),
            Ok(Some(d)) => (r.0 matches DlState::MgrCheck { route, buffer } && route.net_mgr_key@
                == dldata_net_mgr_key(d, mgr_unit_code) && route.network_id == d.network_id
                && route.network_addr == d.network_addr && route.device_id == d.device_id
                && route.profile == d.profile && dl_buffer_spec(
                buffer,
                data_id,
                mgr_unit_id,
                mgr_unit_code,
                mgr_id,
                mgr_name,
                d,
                now,
            )) && (r.1 matches DlAction::CheckMgr { net_mgr_key } && net_mgr_key@
                == dldata_net_mgr_key(d, mgr_unit_code)),
        },
        (DlState::MgrCheck { route, buffer }, DlEvent::MgrExists(exists)) => if exists {
            (r.0 matches DlState::Buffering { route: x } && x == route) && (r.1 matches DlAction::AddBuffer(
                b,
            ) && b == buffer)
        } else {
            r.0 is Done && (r.1 matches DlAction::Reply(resp) && dl_resp_spec(
                resp,
                correlation_id,
                None,
                Some(req_code(BrokerReq::NetworkNotExist)),
                None,
            ))
        },
        (DlState::Buffering { route }, DlEvent::Buffered) => r.0 is Sending && (r.1 matches DlAction::Send {
            net_mgr_key,
            data_id: id,
            network_addr: a,
        } && net_mgr_key == route.net_mgr_key && id@ == data_id && a == route.network_addr),
        (DlState::Buffering { .. }, DlEvent::DbError(e)) => r.0 is Done && (r.1 matches DlAction::Reply(
            resp,
        ) && dl_resp_spec(resp, correlation_id, None, Some(err_db_code()), Some(e@))),
        (DlState::Sending, DlEvent::Sent(sent)) => r.0 is Done && (r.1 matches DlAction::Reply(resp)
            && match sent {
            Ok(_) => dl_resp_spec(resp, correlation_id, Some(data_id), None, None),
            Err(e) => dl_resp_spec(
                resp,
                correlation_id,
                None,
                Some(err_int_msg_code()),
                Some("send data with error: "@ + e@),
            ),
        }),
        _ => r.0 is Done && r.1 is Stop,
    }
}

/// One step of downlink data (see [`dldata_step_spec`]).
pub fn dldata_step(
    mgr_unit_id: &str,
    mgr_unit_code: &str,
    mgr_id: &str,
    mgr_name: &str,
    correlation_id: &str,
    device_id: &Option<String>,
    network_code: &Option<String>,
    network_addr: &Option<String>,
    data_id: &str,
    now: i64,
    st: DlState,
    ev: DlEvent,
) -> (r: (DlState, DlAction))
    requires
        device_id is None ==> network_code is Some && network_addr is Some,
        now <= i64::MAX - DATA_EXPIRES_IN * 1000,
    ensures
        dldata_step_spec(
            mgr_unit_id@,
            mgr_unit_code@,
            mgr_id@,
            mgr_name@,
            correlation_id@,
            opt_view(*device_id),
            opt_view(*network_code),
            opt_view(*network_addr),
            data_id@,
            now,
            st,
            ev,
            r,
        ),
{
    match st {
        DlState::Start => match ev {
            DlEvent::Start => (
                DlState::DeviceLookup,
                DlAction::FindDevice(
                    dldata_device_cond(mgr_unit_id, mgr_unit_code, device_id, network_code, network_addr),
                ),
            ),
            _ => (DlState::Done, DlAction::Stop),
        },
        DlState::DeviceLookup => match ev {
            DlEvent::Device(found) => match found {
                Ok(Some(d)) => {
                    let buffer = new_dldata_buffer(
                        String::from_str(data_id),
                        mgr_unit_id,
                        mgr_unit_code,
                        mgr_id,
                        mgr_name,
                        &d,
                        now,
                    );
                    match device_route_dldata(mgr_unit_code, correlation_id, Ok(Some(d))) {
                        Ok(route) => {
                            let net_mgr_key = route.net_mgr_key.clone();
                            (DlState::MgrCheck { route, buffer }, DlAction::CheckMgr { net_mgr_key })
                        },
                        Err(resp) => {
                            proof {
                                assert(false);
                            }
                            (DlState::Done, DlAction::Reply(resp))
                        },
                    }
                },
                other => match device_route_dldata(mgr_unit_code, correlation_id, other) {
                    Err(resp) => (DlState::Done, DlAction::Reply(resp)),
                    Ok(_) => {
                        proof {
                            assert(false);
                        }
                        (DlState::Done, DlAction::Stop)
                    },
                },
            },
            _ => (DlState::Done, DlAction::Stop),
        },
        DlState::MgrCheck { route, buffer } => match ev {
            DlEvent::MgrExists(exists) => {
                if exists {
                    (DlState::Buffering { route }, DlAction::AddBuffer(buffer))
                } else {
                    let code = BrokerReq::NetworkNotExist.code();
                    (
                        DlState::Done,
                        DlAction::Reply(
                            DlDataResp {
                                correlation_id: String::from_str(correlation_id),
                                data_id: None,
                                error: Some(String::from_str(code.1)),
                                message: None,
                            },
                        ),
                    )
                }
            },
            _ => (DlState::Done, DlAction::Stop),
        },
        DlState::Buffering { route } => match ev {
            DlEvent::Buffered => (
                DlState::Sending,
                DlAction::Send {
                    net_mgr_key: route.net_mgr_key,
                    data_id: String::from_str(data_id),
                    network_addr: route.network_addr,
                },
            ),
            DlEvent::DbError(e) => {
                proof {
                    reveal_strlit("err_db");
                }
                (
                    DlState::Done,
                    DlAction::Reply(
                        DlDataResp {
                            correlation_id: String::from_str(correlation_id),
                            data_id: None,
                            error: Some(String::from_str("err_db")),
                            message: Some(e),
                        },
                    ),
                )
            },
            _ => (DlState::Done, DlAction::Stop),
        },
        DlState::Sending => match ev {
            DlEvent::Sent(sent) => match sent {
                Ok(()) => (
                    DlState::Done,
                    DlAction::Reply(
                        DlDataResp {
                            correlation_id: String::from_str(correlation_id),
                            data_id: Some(String::from_str(data_id)),
                            error: None,
                            message: None,
                        },
                    ),
                ),
                Err(e) => {
                    proof {
                        reveal_strlit("err_int_msg");
                    }
                    let mut msg = String::from_str("send data with error: ");
                    msg.append(e.as_str());
                    (
                        DlState::Done,
                        DlAction::Reply(
                            DlDataResp {
                                correlation_id: String::from_str(correlation_id),
                                data_id: None,
                                error: Some(String::from_str("err_int_msg")),
                                message: Some(msg),
                            },
                        ),
                    )
                },
            },
            _ => (DlState::Done, DlAction::Stop),
        },
        DlState::Done => (DlState::Done, DlAction::Stop),
    }
}

/// `GET /api/v1/application/count` filters by each non-empty parameter on its own field: the
/// unit on the unit ID and a part of the code on the code; an absent or empty parameter
/// filters nothing.
pub proof fn lemma_application_count_fields(query: GetApplicationCountQuery, c: ListQueryCond)
    requires
        call_ensures(get_application_count_cond, (&query,), c),
    ensures
        (query.unit matches Some(v) && v@.len() > 0) ==> opt_view(c.unit_id) == Some(query.unit->0@),
        !(query.unit matches Some(v) && v@.len() > 0) ==> c.unit_id is None,
        (query.contains matches Some(v) && v@.len() > 0) ==> opt_view(c.code_contains) == Some(query.contains->0@),
        !(query.contains matches Some(v) && v@.len() > 0) ==> c.code_contains is None,
{
}

/// The queries of `GET /api/v1/application/list` filter by each non-empty parameter on its
/// own field, as the count does (see [`lemma_application_count_fields`]).
pub proof fn lemma_application_list_fields(query: GetApplicationListQuery, r: Result<ListOptions, ApiError>)
    requires
        call_ensures(get_application_list_opts, (&query,), r),
    ensures
        r matches Ok(o) ==> {
            &&& (query.unit matches Some(v) && v@.len() > 0) ==> opt_view(o.cond.unit_id) == Some(query.unit->0@)
            &&& !(query.unit matches Some(v) && v@.len() > 0) ==> o.cond.unit_id is None
            &&& (query.contains matches Some(v) && v@.len() > 0) ==> opt_view(o.cond.code_contains) == Some(query.contains->0@)
            &&& !(query.contains matches Some(v) && v@.len() > 0) ==> o.cond.code_contains is None
        },
{
}

/// What `GET /api/v1/application/list` queries, the first page and the further ones alike:
/// each non-empty parameter on its own field.
pub proof fn lemma_application_list_step_fields(
    user_id: &str,
    roles: &Vec<(String, bool)>,
    query: GetApplicationListQuery,
    st: ListState,
    ev: ListEvent,
    r: (ListState, ListAction<ListOptions>),
)
    requires
        call_ensures(get_application_list_step, (user_id, roles, &query, st, ev), r),
    ensures
        r.1 matches ListAction::Query(o) ==> {
            &&& (query.unit matches Some(v) && v@.len() > 0) ==> opt_view(o.cond.unit_id) == Some(query.unit->0@)
            &&& !(query.unit matches Some(v) && v@.len() > 0) ==> o.cond.unit_id is None
            &&& (query.contains matches Some(v) && v@.len() > 0) ==> opt_view(o.cond.code_contains) == Some(query.contains->0@)
            &&& !(query.contains matches Some(v) && v@.len() > 0) ==> o.cond.code_contains is None
        },
        r.1 matches ListAction::Send { next: Some(o), .. } ==> {
            &&& (query.unit matches Some(v) && v@.len() > 0) ==> opt_view(o.cond.unit_id) == Some(query.unit->0@)
            &&& !(query.unit matches Some(v) && v@.len() > 0) ==> o.cond.unit_id is None
            &&& (query.contains matches Some(v) && v@.len() > 0) ==> opt_view(o.cond.code_contains) == Some(query.contains->0@)
            &&& !(query.contains matches Some(v) && v@.len() > 0) ==> o.cond.code_contains is None
        },
{
}

} // verus!
