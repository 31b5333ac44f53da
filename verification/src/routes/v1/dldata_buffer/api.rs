//! The decisions of the downlink data buffer API: the conditions of the count and list
//! queries, the sort conditions, and the presentation of buffered data.

use vstd::prelude::*;
use vstd::string::*;

use super::request::{GetDlDataBufferCountQuery, GetDlDataBufferListQuery, ListFormat};
use super::response::GetDlDataBufferData;
use crate::corelib::{time_str, time_text};
use crate::models::{opt_view, strs, DlDataBuffer};
use crate::routes::v1::list::{
    cond_spec, conds_view, frame_list, frame_spec, limit_spec, list_limit, list_step,
    list_step_spec, non_empty, sort_conds, sort_fault_text, sort_outcome, sort_result_in,
    ListAction, ListEvent, ListState, SortFault, LIST_CURSOR_MAX,
};
use crate::routes::v1::lib::{unit_param, unit_param_spec};
use crate::routes::{ApiError, ErrView};

verus! {

/// The keys by which buffered data is sorted.
#[derive(PartialEq, Eq, Structural, Clone, Copy, Debug)]
pub enum SortKey {
    ApplicationCode,
    CreatedAt,
    ExpiredAt,
}

/// One sort condition of buffered data.
pub type SortCond = crate::routes::v1::list::SortCond<SortKey>;

/// The names of the sort keys in a sort argument.
pub open spec fn sort_fields() -> Seq<Seq<char>> {
    seq!["application"@, "created"@, "expired"@]
}

/// The sort keys named by [`sort_fields`], in the same order.
pub open spec fn sort_keys() -> Seq<SortKey> {
    seq![SortKey::ApplicationCode, SortKey::CreatedAt, SortKey::ExpiredAt]
}

/// The sort conditions of an optional sort argument: by application code ascending, then
/// newest first, when there is none.
pub open spec fn sort_result(args: Option<Seq<char>>) -> Result<Seq<(SortKey, bool)>, SortFault> {
    sort_result_in(
        args,
        sort_fields(),
        sort_keys(),
        seq![(SortKey::ApplicationCode, true), (SortKey::CreatedAt, false)],
    )
}

/// The sort conditions of a list request: the conditions of the sort argument, or the
/// parameter error of its first refused condition; by application code and creation (newest
/// first) without argument.
pub fn get_sort_cond(sort_args: &Option<String>) -> (r: Result<Vec<SortCond>, ApiError>)
    ensures
        match sort_result(opt_view(*sort_args)) {
            Ok(s) => r matches Ok(v) && conds_view(v@) == s,
            Err(f) => r matches Err(e) && e@ == ErrView::Param(sort_fault_text(f)),
        },
{
    let fields = vec![
        String::from_str("application"),
        String::from_str("created"),
        String::from_str("expired"),
    ];
    let keys = vec![SortKey::ApplicationCode, SortKey::CreatedAt, SortKey::ExpiredAt];
    let default = vec![
        SortCond { key: SortKey::ApplicationCode, asc: true },
        SortCond { key: SortKey::CreatedAt, asc: false },
    ];
    proof {
        assert(strs(fields@) =~= sort_fields());
        assert(keys@ =~= sort_keys());
        assert(conds_view(default@) =~= seq![
            (SortKey::ApplicationCode, true),
            (SortKey::CreatedAt, false),
        ]);
    }
    sort_conds(sort_args, &fields, &keys, default)
}

/// The condition of a count or list query of buffered data.
#[derive(Debug)]
pub struct ListQueryCond {
    pub unit_id: Option<String>,
    pub application_id: Option<String>,
    pub network_id: Option<String>,
    pub device_id: Option<String>,
}

/// The condition of a query of buffered data, after the unit filter was checked: by the unit,
/// the application, the network and the device, an empty parameter being no filter.
pub open spec fn list_cond_spec(
    c: ListQueryCond,
    unit: Option<Seq<char>>,
    application: Option<Seq<char>>,
    network: Option<Seq<char>>,
    device: Option<Seq<char>>,
) -> bool {
    &&& opt_view(c.unit_id) == cond_spec(unit)
    &&& opt_view(c.application_id) == cond_spec(application)
    &&& opt_view(c.network_id) == cond_spec(network)
    &&& opt_view(c.device_id) == cond_spec(device)
}

/// The condition of `GET /api/v1/dldata-buffer/count`, after the unit filter was checked.
pub fn get_dldata_buffer_count_cond(query: &GetDlDataBufferCountQuery) -> (c: ListQueryCond)
    ensures
        list_cond_spec(
            c,
            opt_view(query.unit),
            opt_view(query.application),
            opt_view(query.network),
            opt_view(query.device),
        ),
{
    ListQueryCond {
        unit_id: non_empty(&query.unit),
        application_id: non_empty(&query.application),
        network_id: non_empty(&query.network),
        device_id: non_empty(&query.device),
    }
}

/// The options of a list query of buffered data.
#[derive(Debug)]
pub struct ListOptions {
    pub cond: ListQueryCond,
    pub offset: Option<u64>,
    pub limit: Option<u64>,
    pub sort: Vec<SortCond>,
    pub cursor_max: Option<u64>,
}

/// The options of the queries of `GET /api/v1/dldata-buffer/list`, after the unit filter was
/// checked, or the parameter error of the sort argument.
pub fn get_dldata_buffer_list_opts(query: &GetDlDataBufferListQuery) -> (r: Result<ListOptions, ApiError>)
    ensures
        match sort_result(opt_view(query.sort)) {
            Ok(s) => r matches Ok(o) && conds_view(o.sort@) == s && list_cond_spec(
                o.cond,
                opt_view(query.unit),
                opt_view(query.application),
                opt_view(query.network),
                opt_view(query.device),
            ) && o.offset == query.offset && o.limit == limit_spec(query.limit) && o.cursor_max
                == Some(LIST_CURSOR_MAX),
            Err(f) => r matches Err(e) && e@ == ErrView::Param(sort_fault_text(f)),
        },
{
    let cond = ListQueryCond {
        unit_id: non_empty(&query.unit),
        application_id: non_empty(&query.application),
        network_id: non_empty(&query.network),
        device_id: non_empty(&query.device),
    };
    let sort = get_sort_cond(&query.sort)?;
    Ok(ListOptions {
        cond,
        offset: query.offset,
        limit: list_limit(query.limit),
        sort,
        cursor_max: Some(LIST_CURSOR_MAX),
    })
}

/// The options of the queries of `GET /api/v1/dldata-buffer/list`, the first one and those that
/// continue a streamed list alike.
pub open spec fn dldata_buffer_list_opts_ok(query: GetDlDataBufferListQuery) -> spec_fn(ListOptions) -> bool {
    |o: ListOptions|
        sort_result(opt_view(query.sort)) matches Ok(s) && conds_view(o.sort@) == s && list_cond_spec(
            o.cond,
            opt_view(query.unit),
            opt_view(query.application),
            opt_view(query.network),
            opt_view(query.device),
        ) && o.offset == query.offset && o.limit == limit_spec(query.limit) && o.cursor_max == Some(
            LIST_CURSOR_MAX,
        )
}

/// One step of `GET /api/v1/dldata-buffer/list` (see [`list_step_spec`]): the unit filter of
/// [`unit_param`], the sort argument, and the options of [`dldata_buffer_list_opts_ok`].
pub fn get_dldata_buffer_list_step(
    user_id: &str,
    roles: &Vec<(String, bool)>,
    query: &GetDlDataBufferListQuery,
    st: ListState,
    ev: ListEvent,
) -> (r: (ListState, ListAction<ListOptions>))
    ensures
        list_step_spec(
            unit_param_spec(roles@, opt_view(query.unit)),
            sort_outcome(sort_result(opt_view(query.sort))),
            dldata_buffer_list_opts_ok(*query),
            dldata_buffer_list_opts_ok(*query),
            query.format == Some(ListFormat::Array),
            user_id@,
            roles@,
            st,
            ev,
            r,
        ),
{
    let unit = unit_param(roles, &query.unit);
    let opts = match get_dldata_buffer_list_opts(query) {
        Err(e) => Err(e),
        Ok(first) => match get_dldata_buffer_list_opts(query) {
            Err(e) => Err(e),
            Ok(stream) => Ok((first, stream)),
        },
    };
    let array = match &query.format {
        Some(ListFormat::Array) => true,
        _ => false,
    };
    list_step(
        user_id,
        roles,
        unit,
        opts,
        array,
        st,
        ev,
        Ghost(dldata_buffer_list_opts_ok(*query)),
        Ghost(dldata_buffer_list_opts_ok(*query)),
    )
}


/// Buffered data as the API presents it.
pub open spec fn data_spec(d: GetDlDataBufferData, b: DlDataBuffer) -> bool {
    &&& d.data_id@ == b.data_id@
    &&& d.unit_id@ == b.unit_id@
    &&& d.application_id@ == b.application_id@
    &&& d.application_code@ == b.application_code@
    &&& d.device_id@ == b.device_id@
    &&& d.network_id@ == b.network_id@
    &&& d.network_addr@ == b.network_addr@
    &&& d.created_at@ == time_text(b.created_at)
    &&& d.expired_at@ == time_text(b.expired_at)
}

/// Presents buffered data, with its times in RFC 3339.
pub fn data_transform(data: &DlDataBuffer) -> (d: GetDlDataBufferData)
    requires
        data.times_ok(),
    ensures
        data_spec(d, *data),
{
    GetDlDataBufferData {
        data_id: data.data_id.clone(),
        unit_id: data.unit_id.clone(),
        application_id: data.application_id.clone(),
        application_code: data.application_code.clone(),
        device_id: data.device_id.clone(),
        network_id: data.network_id.clone(),
        network_addr: data.network_addr.clone(),
        created_at: time_str(data.created_at),
        expired_at: time_str(data.expired_at),
    }
}

/// Presents a list of buffered data, in order.
pub fn data_list_transform(list: &Vec<DlDataBuffer>) -> (r: Vec<GetDlDataBufferData>)
    requires
        forall|i: int| 0 <= i < list.len() ==> (#[trigger] list@[i]).times_ok(),
    ensures
        r.len() == list.len(),
        forall|i: int| 0 <= i < list.len() ==> data_spec(#[trigger] r@[i], list@[i]),
{
    let mut r: Vec<GetDlDataBufferData> = Vec::new();
    let mut i: usize = 0;
    while i < list.len()
        invariant
            i <= list.len(),
            forall|k: int| 0 <= k < list.len() ==> (#[trigger] list@[k]).times_ok(),
            r.len() == i,
            forall|k: int| 0 <= k < i ==> data_spec(#[trigger] r@[k], list@[k]),
        decreases list.len() - i,
    {
        r.push(data_transform(&list[i]));
        i += 1;
    }
    r
}

/// A chunk of a streamed list of buffered data, from the JSON texts of its presented items.
pub fn data_list_transform_bytes(items: &Vec<String>, with_start: bool, with_end: bool, format: Option<ListFormat>) -> (s: String)
    ensures
        s@ == frame_spec(strs(items@), with_start, with_end, format == Some(ListFormat::Array)),
{
    let array = match format {
        Some(ListFormat::Array) => true,
        _ => false,
    };
    frame_list(items, with_start, with_end, array)
}

/// `GET /api/v1/dldata-buffer/count` filters by each non-empty parameter on its own field:
/// the unit on the unit ID, the application on the application ID, the network on the
/// network ID and the device on the device ID; an absent or empty parameter filters nothing.
pub proof fn lemma_dldata_buffer_count_fields(query: GetDlDataBufferCountQuery, c: ListQueryCond)
    requires
        call_ensures(get_dldata_buffer_count_cond, (&query,), c),
    ensures
        (query.unit matches Some(v) && v@.len() > 0) ==> opt_view(c.unit_id) == Some(query.unit->0@),
        !(query.unit matches Some(v) && v@.len() > 0) ==> c.unit_id is None,
        (query.application matches Some(v) && v@.len() > 0) ==> opt_view(c.application_id) == Some(query.application->0@),
        !(query.application matches Some(v) && v@.len() > 0) ==> c.application_id is None,
        (query.network matches Some(v) && v@.len() > 0) ==> opt_view(c.network_id) == Some(query.network->0@),
        !(query.network matches Some(v) && v@.len() > 0) ==> c.network_id is None,
        (query.device matches Some(v) && v@.len() > 0) ==> opt_view(c.device_id) == Some(query.device->0@),
        !(query.device matches Some(v) && v@.len() > 0) ==> c.device_id is None,
{
}

/// The queries of `GET /api/v1/dldata-buffer/list` filter by each non-empty parameter on its
/// own field, as the count does (see [`lemma_dldata_buffer_count_fields`]).
pub proof fn lemma_dldata_buffer_list_fields(query: GetDlDataBufferListQuery, r: Result<ListOptions, ApiError>)
    requires
        call_ensures(get_dldata_buffer_list_opts, (&query,), r),
    ensures
        r matches Ok(o) ==> {
            &&& (query.unit matches Some(v) && v@.len() > 0) ==> opt_view(o.cond.unit_id) == Some(query.unit->0@)
            &&& !(query.unit matches Some(v) && v@.len() > 0) ==> o.cond.unit_id is None
            &&& (query.application matches Some(v) && v@.len() > 0) ==> opt_view(o.cond.application_id) == Some(query.application->0@)
            &&& !(query.application matches Some(v) && v@.len() > 0) ==> o.cond.application_id is None
            &&& (query.network matches Some(v) && v@.len() > 0) ==> opt_view(o.cond.network_id) == Some(query.network->0@)
            &&& !(query.network matches Some(v) && v@.len() > 0) ==> o.cond.network_id is None
            &&& (query.device matches Some(v) && v@.len() > 0) ==> opt_view(o.cond.device_id) == Some(query.device->0@)
            &&& !(query.device matches Some(v) && v@.len() > 0) ==> o.cond.device_id is None
        },
{
}

/// What `GET /api/v1/dldata-buffer/list` queries, the first page and the further ones
/// alike: each non-empty parameter on its own field.
pub proof fn lemma_dldata_buffer_list_step_fields(
    user_id: &str,
    roles: &Vec<(String, bool)>,
    query: GetDlDataBufferListQuery,
    st: ListState,
    ev: ListEvent,
    r: (ListState, ListAction<ListOptions>),
)
    requires
        call_ensures(get_dldata_buffer_list_step, (user_id, roles, &query, st, ev), r),
    ensures
        r.1 matches ListAction::Query(o) ==> {
            &&& (query.unit matches Some(v) && v@.len() > 0) ==> opt_view(o.cond.unit_id) == Some(query.unit->0@)
            &&& !(query.unit matches Some(v) && v@.len() > 0) ==> o.cond.unit_id is None
            &&& (query.application matches Some(v) && v@.len() > 0) ==> opt_view(o.cond.application_id) == Some(query.application->0@)
            &&& !(query.application matches Some(v) && v@.len() > 0) ==> o.cond.application_id is None
            &&& (query.network matches Some(v) && v@.len() > 0) ==> opt_view(o.cond.network_id) == Some(query.network->0@)
            &&& !(query.network matches Some(v) && v@.len() > 0) ==> o.cond.network_id is None
            &&& (query.device matches Some(v) && v@.len() > 0) ==> opt_view(o.cond.device_id) == Some(query.device->0@)
            &&& !(query.device matches Some(v) && v@.len() > 0) ==> o.cond.device_id is None
        },
        r.1 matches ListAction::Send { next: Some(o), .. } ==> {
            &&& (query.unit matches Some(v) && v@.len() > 0) ==> opt_view(o.cond.unit_id) == Some(query.unit->0@)
            &&& !(query.unit matches Some(v) && v@.len() > 0) ==> o.cond.unit_id is None
            &&& (query.application matches Some(v) && v@.len() > 0) ==> opt_view(o.cond.application_id) == Some(query.application->0@)
            &&& !(query.application matches Some(v) && v@.len() > 0) ==> o.cond.application_id is None
            &&& (query.network matches Some(v) && v@.len() > 0) ==> opt_view(o.cond.network_id) == Some(query.network->0@)
            &&& !(query.network matches Some(v) && v@.len() > 0) ==> o.cond.network_id is None
            &&& (query.device matches Some(v) && v@.len() > 0) ==> opt_view(o.cond.device_id) == Some(query.device->0@)
            &&& !(query.device matches Some(v) && v@.len() > 0) ==> o.cond.device_id is None
        },
{
}

} // verus!
