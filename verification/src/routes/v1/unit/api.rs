//! The decisions of the unit API: the conditions of the count and list queries, the sort
//! conditions, the checks of a new unit and of a change, and the presentation of units.

use vstd::prelude::*;
use vstd::string::*;

use super::members::{add_owner, sort_dedup, strictly_sorted, with_owner};
use super::request::{GetUnitCountQuery, GetUnitListQuery, ListFormat, PatchUnitData, PostUnitData};
use super::response::GetUnitData;
use crate::corelib::{code_spec, lowercase, time_str, time_text};
use crate::models::{clone_opt, clone_pairs, clone_strs, opt_view, pairs, strs, Unit};
use crate::routes::v1::lib::{gen_mgr_key, is_privileged, mgr_key, privileged};
use crate::routes::v1::list::{
    cond_spec, conds_view, frame_list, frame_spec, limit_spec, list_limit, list_step,
    list_step_spec, non_empty, sort_conds, sort_fault_text, sort_outcome, sort_result_in,
    ListAction, ListEvent, ListState, SortFault, LIST_CURSOR_MAX,
};
use crate::routes::v1::valid::{
    check_code, check_info, code_msg, info_msg, info_or_empty, info_or_empty_of, no_update_msg,
    opt_info_ok, opt_pairs, or_empty, text_or_empty,
};
use crate::routes::{param_err, ApiError, BrokerReq, ErrView};

verus! {

/// The keys by which units are sorted.
#[derive(PartialEq, Eq, Structural, Clone, Copy, Debug)]
pub enum SortKey {
    Code,
    CreatedAt,
    ModifiedAt,
    Name,
}

/// One sort condition of units.
pub type SortCond = crate::routes::v1::list::SortCond<SortKey>;

/// The names of the sort keys in a sort argument.
pub open spec fn sort_fields() -> Seq<Seq<char>> {
    seq!["code"@, "created"@, "modified"@, "name"@]
}

/// The sort keys named by [`sort_fields`], in the same order.
pub open spec fn sort_keys() -> Seq<SortKey> {
    seq![SortKey::Code, SortKey::CreatedAt, SortKey::ModifiedAt, SortKey::Name]
}

/// The sort conditions of an optional sort argument: by code ascending when there is none.
pub open spec fn sort_result(args: Option<Seq<char>>) -> Result<Seq<(SortKey, bool)>, SortFault> {
    sort_result_in(args, sort_fields(), sort_keys(), seq![(SortKey::Code, true)])
}

/// The sort conditions of a list request: the conditions of the sort argument, or the
/// parameter error of its first refused condition; by code ascending without argument.
pub fn get_sort_cond(sort_args: &Option<String>) -> (r: Result<Vec<SortCond>, ApiError>)
    ensures
        match sort_result(opt_view(*sort_args)) {
            Ok(s) => r matches Ok(v) && conds_view(v@) == s,
            Err(f) => r matches Err(e) && e@ == ErrView::Param(sort_fault_text(f)),
        },
{
    let fields = vec![
        String::from_str("code"),
        String::from_str("created"),
        String::from_str("modified"),
        String::from_str("name"),
    ];
    let keys = vec![SortKey::Code, SortKey::CreatedAt, SortKey::ModifiedAt, SortKey::Name];
    let default = vec![SortCond { key: SortKey::Code, asc: true }];
    proof {
        assert(strs(fields@) =~= sort_fields());
        assert(keys@ =~= sort_keys());
        assert(conds_view(default@) =~= seq![(SortKey::Code, true)]);
    }
    sort_conds(sort_args, &fields, &keys, default)
}

/// The condition of a count or list query of units.
#[derive(Debug)]
pub struct ListQueryCond {
    pub owner_id: Option<String>,
    pub member_id: Option<String>,
    pub code_contains: Option<String>,
}

/// The condition of a query of units for a user: the administrator and the manager roles
/// filter by the given owner and member, other users see the units they are members of;
/// everyone may filter by a part of the code. Empty parameters are no filter.
pub open spec fn list_cond_spec(
    c: ListQueryCond,
    user_id: Seq<char>,
    roles: Seq<(String, bool)>,
    owner: Option<Seq<char>>,
    member: Option<Seq<char>>,
    contains: Option<Seq<char>>,
) -> bool {
    &&& privileged(roles) ==> opt_view(c.owner_id) == cond_spec(owner) && opt_view(c.member_id)
        == cond_spec(member)
    &&& !privileged(roles) ==> c.owner_id is None && opt_view(c.member_id) == Some(user_id)
    &&& opt_view(c.code_contains) == cond_spec(contains)
}

fn list_cond(
    user_id: &str,
    roles: &Vec<(String, bool)>,
    owner: &Option<String>,
    member: &Option<String>,
    contains: &Option<String>,
) -> (c: ListQueryCond)
    ensures
        list_cond_spec(c, user_id@, roles@, opt_view(*owner), opt_view(*member), opt_view(*contains)),
{
    if is_privileged(roles) {
        ListQueryCond {
            owner_id: non_empty(owner),
            member_id: non_empty(member),
            code_contains: non_empty(contains),
        }
    } else {
        ListQueryCond {
            owner_id: None,
            member_id: Some(String::from_str(user_id)),
            code_contains: non_empty(contains),
        }
    }
}

/// The condition of `GET /api/v1/unit/count` for the user of the token.
pub fn get_unit_count_cond(user_id: &str, roles: &Vec<(String, bool)>, query: &GetUnitCountQuery) -> (c: ListQueryCond)
    ensures
        list_cond_spec(
            c,
            user_id@,
            roles@,
            opt_view(query.owner),
            opt_view(query.member),
            opt_view(query.contains),
        ),
{
    list_cond(user_id, roles, &query.owner, &query.member, &query.contains)
}

/// The options of a list query of units.
#[derive(Debug)]
pub struct ListOptions {
    pub cond: ListQueryCond,
    pub offset: Option<u64>,
    pub limit: Option<u64>,
    pub sort: Vec<SortCond>,
    pub cursor_max: Option<u64>,
}

/// The options of the first query of `GET /api/v1/unit/list` for the user of the token, or
/// the parameter error of the sort argument.
pub fn get_unit_list_opts(user_id: &str, roles: &Vec<(String, bool)>, query: &GetUnitListQuery) -> (r: Result<ListOptions, ApiError>)
    ensures
        match sort_result(opt_view(query.sort)) {
            Ok(s) => r matches Ok(o) && conds_view(o.sort@) == s && list_cond_spec(
                o.cond,
                user_id@,
                roles@,
                opt_view(query.owner),
                opt_view(query.member),
                opt_view(query.contains),
            ) && o.offset == query.offset && o.limit == limit_spec(query.limit) && o.cursor_max
                == Some(LIST_CURSOR_MAX),
            Err(f) => r matches Err(e) && e@ == ErrView::Param(sort_fault_text(f)),
        },
{
    let cond = list_cond(user_id, roles, &query.owner, &query.member, &query.contains);
    let sort = get_sort_cond(&query.sort)?;
    Ok(ListOptions {
        cond,
        offset: query.offset,
        limit: list_limit(query.limit),
        sort,
        cursor_max: Some(LIST_CURSOR_MAX),
    })
}

/// The condition of the queries that continue a streamed unit list: as the first query,
/// except that the administrator and the manager roles without a member filter are
/// filtered by their own membership.
pub open spec fn stream_cond_spec(
    c: ListQueryCond,
    user_id: Seq<char>,
    roles: Seq<(String, bool)>,
    owner: Option<Seq<char>>,
    member: Option<Seq<char>>,
    contains: Option<Seq<char>>,
) -> bool {
    &&& privileged(roles) ==> opt_view(c.owner_id) == cond_spec(owner) && opt_view(c.member_id)
        == (match cond_spec(member) {
        Some(m) => Some(m),
        None => Some(user_id),
    })
    &&& !privileged(roles) ==> c.owner_id is None && opt_view(c.member_id) == Some(user_id)
    &&& opt_view(c.code_contains) == cond_spec(contains)
}

/// The condition of the queries that continue a streamed `GET /api/v1/unit/list`.
pub fn get_unit_list_stream_cond(user_id: &str, roles: &Vec<(String, bool)>, query: &GetUnitListQuery) -> (c: ListQueryCond)
    ensures
        stream_cond_spec(
            c,
            user_id@,
            roles@,
            opt_view(query.owner),
            opt_view(query.member),
            opt_view(query.contains),
        ),
{
    let mut c = list_cond(user_id, roles, &query.owner, &query.member, &query.contains);
    if c.member_id.is_none() {
        c.member_id = Some(String::from_str(user_id));
    }
    c
}

/// The options of the queries of `GET /api/v1/unit/list` for the user of the token: the first
/// one, or (`stream`) those that continue a streamed list (see [`stream_cond_spec`]).
pub open spec fn unit_list_opts_ok(
    user_id: Seq<char>,
    roles: Seq<(String, bool)>,
    query: GetUnitListQuery,
    stream: bool,
) -> spec_fn(ListOptions) -> bool {
    |o: ListOptions|
        sort_result(opt_view(query.sort)) matches Ok(s) && conds_view(o.sort@) == s && (if stream {
            stream_cond_spec(
                o.cond,
                user_id,
                roles,
                opt_view(query.owner),
                opt_view(query.member),
                opt_view(query.contains),
            )
        } else {
            list_cond_spec(
                o.cond,
                user_id,
                roles,
                opt_view(query.owner),
                opt_view(query.member),
                opt_view(query.contains),
            )
        }) && o.offset == query.offset && o.limit == limit_spec(query.limit) && o.cursor_max == Some(
            LIST_CURSOR_MAX,
        )
}

/// One step of `GET /api/v1/unit/list` (see [`list_step_spec`]): no unit to check, the sort
/// argument, and the options of [`unit_list_opts_ok`].
pub fn get_unit_list_step(
    user_id: &str,
    roles: &Vec<(String, bool)>,
    query: &GetUnitListQuery,
    st: ListState,
    ev: ListEvent,
) -> (r: (ListState, ListAction<ListOptions>))
    ensures
        list_step_spec(
            Ok(None),
            sort_outcome(sort_result(opt_view(query.sort))),
            unit_list_opts_ok(user_id@, roles@, *query, false),
            unit_list_opts_ok(user_id@, roles@, *query, true),
            query.format == Some(ListFormat::Array),
            user_id@,
            roles@,
            st,
            ev,
            r,
        ),
{
    let opts = match get_unit_list_opts(user_id, roles, query) {
        Err(e) => Err(e),
        Ok(first) => match get_unit_list_opts(user_id, roles, query) {
            Err(e) => Err(e),
            Ok(mut stream) => {
                stream.cond = get_unit_list_stream_cond(user_id, roles, query);
                Ok((first, stream))
            },
        },
    };
    let array = match &query.format {
        Some(ListFormat::Array) => true,
        _ => false,
    };
    list_step(
        user_id,
        roles,
        Ok(None),
        opts,
        array,
        st,
        ev,
        Ghost(unit_list_opts_ok(user_id@, roles@, *query, false)),
        Ghost(unit_list_opts_ok(user_id@, roles@, *query, true)),
    )
}

/// The text of the parameter error for an empty owner.
pub open spec fn owner_msg() -> Seq<char> {
    "`ownerId` must with at least one character"@
}

/// The text of the parameter error for an empty member.
pub open spec fn member_msg() -> Seq<char> {
    "`memberIds` item must with at least one character"@
}

/// What the checks of a new unit leave to do.
#[derive(Debug)]
pub struct PostUnitCheck {
    /// The code, lower-cased.
    pub code: String,
    /// The owner given by an administrator or a manager, whose existence the authentication
    /// service must confirm; without it the owner is the user of the token.
    pub owner_id: Option<String>,
}

/// The checks of `POST /api/v1/unit` before the owner is looked up (see
/// [`check_post_unit`]): the lower-cased code, and the owner to confirm.
pub open spec fn post_unit_check_spec(roles: Seq<(String, bool)>, data: PostUnitData) -> Result<(Seq<char>, Option<Seq<char>>), ErrView> {
    if !code_spec(lowercase(data.code@)) {
        Err(ErrView::Param(code_msg()))
    } else if privileged(roles) && opt_view(data.owner_id) == Some(Seq::<char>::empty()) {
        Err(ErrView::Param(owner_msg()))
    } else {
        Ok((lowercase(data.code@), if privileged(roles) {
            opt_view(data.owner_id)
        } else {
            None
        }))
    }
}

/// The checks of `POST /api/v1/unit` before the owner is looked up: the lower-cased code must
/// be a code; only the administrator and the manager roles may give an owner, which must not
/// be empty.
pub fn check_post_unit(roles: &Vec<(String, bool)>, data: &PostUnitData) -> (r: Result<PostUnitCheck, ApiError>)
    ensures
        match post_unit_check_spec(roles@, *data) {
            Ok(p) => r matches Ok(c) && c.code@ == p.0 && opt_view(c.owner_id) == p.1,
            Err(ev) => r matches Err(e) && e@ == ev,
        },
        !code_spec(lowercase(data.code@)) ==> (r matches Err(e) && e@ == ErrView::Param(code_msg())),
        code_spec(lowercase(data.code@)) && privileged(roles@) && opt_view(data.owner_id) == Some(
            Seq::<char>::empty(),
        ) ==> (r matches Err(e) && e@ == ErrView::Param(owner_msg())),
        code_spec(lowercase(data.code@)) && !(privileged(roles@) && opt_view(data.owner_id) == Some(
            Seq::<char>::empty(),
        )) ==> (r matches Ok(c) && c.code@ == lowercase(data.code@) && opt_view(c.owner_id) == (
        if privileged(roles@) {
            opt_view(data.owner_id)
        } else {
            None
        })),
{
    let code = check_code(data.code.as_str())?;
    let mut owner_id = None;
    if is_privileged(roles) {
        if let Some(o) = &data.owner_id {
            if o.as_str().is_empty() {
                proof {
                    assert(o@ =~= Seq::<char>::empty());
                }
                return Err(param_err("`ownerId` must with at least one character"));
            }
            owner_id = Some(o.clone());
        }
    }
    Ok(PostUnitCheck { code, owner_id })
}

/// The new unit: the owner is its only member; no name means an empty name and no
/// information an empty one.
pub fn new_unit(unit_id: String, code: String, now: i64, owner_id: &str, data: &PostUnitData) -> (u: Unit)
    ensures
        u.unit_id == unit_id,
        u.code == code,
        u.created_at == now,
        u.modified_at == now,
        u.owner_id@ == owner_id@,
        strs(u.member_ids@) == seq![owner_id@],
        u.name@ == or_empty(opt_view(data.name)),
        pairs(u.info@) == info_or_empty(data.info),
{
    let members = vec![String::from_str(owner_id)];
    proof {
        assert(strs(members@) =~= seq![owner_id@]);
    }
    Unit {
        unit_id,
        code,
        created_at: now,
        modified_at: now,
        owner_id: String::from_str(owner_id),
        member_ids: members,
        name: text_or_empty(&data.name),
        info: info_or_empty_of(&data.info),
    }
}

/// The first check of `PATCH /api/v1/unit/{unitId}`: a new owner, given by an administrator
/// or a manager, must not be empty; it is returned for the authentication service to
/// confirm. Other users cannot change the owner.
pub fn check_patch_owner(roles: &Vec<(String, bool)>, data: &PatchUnitData) -> (r: Result<Option<String>, ApiError>)
    ensures
        privileged(roles@) && opt_view(data.owner_id) == Some(Seq::<char>::empty()) ==> (r matches Err(
            e,
        ) && e@ == ErrView::Param(owner_msg())),
        !(privileged(roles@) && opt_view(data.owner_id) == Some(Seq::<char>::empty())) ==> (r matches Ok(
            o,
        ) && opt_view(o) == (if privileged(roles@) {
            opt_view(data.owner_id)
        } else {
            None
        })),
{
    if !is_privileged(roles) {
        return Ok(None);
    }
    match &data.owner_id {
        None => Ok(None),
        Some(o) => {
            if o.as_str().is_empty() {
                proof {
                    assert(o@ =~= Seq::<char>::empty());
                }
                Err(param_err("`ownerId` must with at least one character"))
            } else {
                Ok(Some(o.clone()))
            }
        },
    }
}

/// The members that a change gives: those of the body, or, when only a new owner is given
/// and it is not a member yet, the present members (so that the owner is appended to them).
/// Only the administrator and the manager roles change members.
pub open spec fn given_members(roles: Seq<(String, bool)>, data: PatchUnitData, target: Unit) -> Option<Seq<Seq<char>>> {
    if !privileged(roles) {
        None
    } else {
        match data.member_ids {
            Some(m) => Some(strs(m@)),
            None => match data.owner_id {
                Some(o) => if strs(target.member_ids@).contains(o@) {
                    None
                } else {
                    Some(strs(target.member_ids@))
                },
                None => None,
            },
        }
    }
}

/// Whether a text is in a list.
fn contains_text(v: &Vec<String>, s: &String) -> (r: bool)
    ensures
        r == strs(v@).contains(s@),
{
    let mut i: usize = 0;
    while i < v.len()
        invariant
            i <= v.len(),
            forall|k: int| 0 <= k < i ==> (#[trigger] strs(v@)[k]) != s@,
        decreases v.len() - i,
    {
        if v[i] == *s {
            proof {
                assert(strs(v@)[i as int] == s@);
            }
            return true;
        }
        i += 1;
    }
    false
}

/// The second check of `PATCH /api/v1/unit/{unitId}`: the given members (see
/// [`given_members`]) sorted without duplicates, for the authentication service to confirm
/// in this order, or the parameter error when one of them is empty.
pub fn patch_unit_members(roles: &Vec<(String, bool)>, data: &PatchUnitData, target: &Unit) -> (r: Result<Option<Vec<String>>, ApiError>)
    ensures
        match given_members(roles@, *data, *target) {
            None => r matches Ok(m) && m is None,
            Some(g) => if g.contains(Seq::<char>::empty()) {
                r matches Err(e) && e@ == ErrView::Param(member_msg())
            } else {
                r matches Ok(m) && (m matches Some(s) && strictly_sorted(strs(s@)) && strs(s@).to_set()
                    == g.to_set())
            },
        },
{
    if !is_privileged(roles) {
        return Ok(None);
    }
    let given = match &data.member_ids {
        Some(m) => clone_strs(m),
        None => match &data.owner_id {
            None => return Ok(None),
            Some(o) => {
                if contains_text(&target.member_ids, o) {
                    return Ok(None);
                }
                clone_strs(&target.member_ids)
            },
        },
    };
    let sorted = sort_dedup(&given);
    let empty = String::new();
    if contains_text(&sorted, &empty) {
        proof {
            assert(strs(sorted@).to_set().contains(Seq::<char>::empty()));
            assert(strs(given@).to_set().contains(Seq::<char>::empty()));
        }
        return Err(param_err("`memberIds` item must with at least one character"));
    }
    proof {
        if strs(given@).contains(Seq::<char>::empty()) {
            assert(strs(given@).to_set().contains(Seq::<char>::empty()));
            assert(strs(sorted@).to_set().contains(Seq::<char>::empty()));
        }
    }
    Ok(Some(sorted))
}

/// The changes of a unit.
#[derive(Debug)]
pub struct Updates {
    pub owner_id: Option<String>,
    pub member_ids: Option<Vec<String>>,
    pub name: Option<String>,
    pub info: Option<Vec<(String, String)>>,
    pub modified_at: i64,
}

/// The owner of a unit after a change.
pub open spec fn new_owner(roles: Seq<(String, bool)>, data: PatchUnitData, target: Unit) -> Seq<char> {
    match data.owner_id {
        Some(o) => if privileged(roles) {
            o@
        } else {
            target.owner_id@
        },
        None => target.owner_id@,
    }
}

/// The number of fields that a change sets.
pub open spec fn update_count(roles: Seq<(String, bool)>, data: PatchUnitData, members: Option<Vec<String>>) -> int {
    (if privileged(roles) && data.owner_id is Some {
        1int
    } else {
        0int
    }) + (if privileged(roles) && members is Some {
        1int
    } else {
        0int
    }) + (if data.name is Some {
        1int
    } else {
        0int
    }) + (if data.info is Some {
        1int
    } else {
        0int
    })
}

/// The last step of `PATCH /api/v1/unit/{unitId}`, after the owner and the members were
/// confirmed: the changes, with the owner appended to the sorted members when it is not one
/// of them; the parameter error for an empty key of `info`, or for a change without any field.
pub fn unit_updates(
    roles: &Vec<(String, bool)>,
    data: &PatchUnitData,
    target: &Unit,
    members: Option<Vec<String>>,
    now: i64,
) -> (r: Result<Updates, ApiError>)
    ensures
        !opt_info_ok(data.info) ==> (r matches Err(e) && e@ == ErrView::Param(info_msg())),
        opt_info_ok(data.info) && update_count(roles@, *data, members) == 0 ==> (r matches Err(e)
            && e@ == ErrView::Param(no_update_msg())),
        opt_info_ok(data.info) && update_count(roles@, *data, members) > 0 ==> (r matches Ok(u) && {
            &&& opt_view(u.owner_id) == (if privileged(roles@) {
                opt_view(data.owner_id)
            } else {
                None
            })
            &&& (match members {
                Some(m) => if privileged(roles@) {
                    u.member_ids matches Some(n) && strs(n@) == with_owner(
                        strs(m@),
                        new_owner(roles@, *data, *target),
                    )
                } else {
                    u.member_ids is None
                },
                None => u.member_ids is None,
            })
            &&& opt_view(u.name) == opt_view(data.name)
            &&& opt_pairs(u.info) == opt_pairs(data.info)
            &&& u.modified_at == now
        }),
{
    let privileged = is_privileged(roles);
    let mut count: u8 = 0;
    let mut owner_id = None;
    let mut owner = target.owner_id.clone();
    if privileged {
        if let Some(o) = &data.owner_id {
            owner = o.clone();
            owner_id = Some(o.clone());
            count += 1;
        }
    }
    let mut member_ids = None;
    if privileged {
        if let Some(m) = members {
            let mut m = m;
            add_owner(&mut m, owner.as_str());
            member_ids = Some(m);
            count += 1;
        }
    }
    let name = clone_opt(&data.name);
    if name.is_some() {
        count += 1;
    }
    check_info(&data.info)?;
    let info = match &data.info {
        None => None,
        Some(i) => {
            count += 1;
            Some(clone_pairs(i))
        },
    };
    if count == 0 {
        return Err(param_err("at least one parameter"));
    }
    Ok(Updates { owner_id, member_ids, name, info, modified_at: now })
}

/// A unit as the API presents it.
pub open spec fn unit_data_spec(d: GetUnitData, u: Unit) -> bool {
    &&& d.unit_id@ == u.unit_id@
    &&& d.code@ == u.code@
    &&& d.created_at@ == time_text(u.created_at)
    &&& d.modified_at@ == time_text(u.modified_at)
    &&& d.owner_id@ == u.owner_id@
    &&& strs(d.member_ids@) == strs(u.member_ids@)
    &&& d.name@ == u.name@
    &&& pairs(d.info@) == pairs(u.info@)
}

/// Presents a unit, with its times in RFC 3339.
pub fn unit_transform(unit: &Unit) -> (d: GetUnitData)
    requires
        unit.times_ok(),
    ensures
        unit_data_spec(d, *unit),
{
    GetUnitData {
        unit_id: unit.unit_id.clone(),
        code: unit.code.clone(),
        created_at: time_str(unit.created_at),
        modified_at: time_str(unit.modified_at),
        owner_id: unit.owner_id.clone(),
        member_ids: clone_strs(&unit.member_ids),
        name: unit.name.clone(),
        info: clone_pairs(&unit.info),
    }
}

/// Presents a list of units, in order.
pub fn unit_list_transform(list: &Vec<Unit>) -> (r: Vec<GetUnitData>)
    requires
        forall|i: int| 0 <= i < list.len() ==> (#[trigger] list@[i]).times_ok(),
    ensures
        r.len() == list.len(),
        forall|i: int| 0 <= i < list.len() ==> unit_data_spec(#[trigger] r@[i], list@[i]),
{
    let mut r: Vec<GetUnitData> = Vec::new();
    let mut i: usize = 0;
    while i < list.len()
        invariant
            i <= list.len(),
            forall|k: int| 0 <= k < list.len() ==> (#[trigger] list@[k]).times_ok(),
            r.len() == i,
            forall|k: int| 0 <= k < i ==> unit_data_spec(#[trigger] r@[k], list@[k]),
        decreases list.len() - i,
    {
        r.push(unit_transform(&list[i]));
        i += 1;
    }
    r
}

/// A chunk of a streamed unit list, from the JSON texts of its presented units.
pub fn unit_list_transform_bytes(items: &Vec<String>, with_start: bool, with_end: bool, format: Option<ListFormat>) -> (s: String)
    ensures
        s@ == frame_spec(strs(items@), with_start, with_end, format == Some(ListFormat::Array)),
{
    let array = match format {
        Some(ListFormat::Array) => true,
        _ => false,
    };
    frame_list(items, with_start, with_end, array)
}

/// The keys of the managers to close when a unit is deleted: one for each code of its
/// applications (or of its networks), with the unit's code.
pub fn del_unit_mgr_keys(unit_code: &str, codes: &Vec<String>) -> (keys: Vec<String>)
    ensures
        keys.len() == codes.len(),
        forall|i: int| 0 <= i < codes.len() ==> (#[trigger] keys@[i])@ == mgr_key(unit_code@, codes@[i]@),
{
    let mut keys: Vec<String> = Vec::new();
    let mut i: usize = 0;
    while i < codes.len()
        invariant
            i <= codes.len(),
            keys.len() == i,
            forall|k: int| 0 <= k < i ==> (#[trigger] keys@[k])@ == mgr_key(unit_code@, codes@[k]@),
        decreases codes.len() - i,
    {
        keys.push(gen_mgr_key(unit_code, codes[i].as_str()));
        i += 1;
    }
    keys
}

/// The records of a unit, in the order in which they are deleted with it: the unit itself
/// last.
#[derive(PartialEq, Eq, Structural, Clone, Copy, Debug)]
pub enum DelUnitRsc {
    NetworkRoute,
    DeviceRoute,
    DlDataBuffer,
    Device,
    Network,
    Application,
    Unit,
}

/// The records deleted after `r`, none after the unit.
pub open spec fn next_rsc(r: DelUnitRsc) -> Option<DelUnitRsc> {
    match r {
        DelUnitRsc::NetworkRoute => Some(DelUnitRsc::DeviceRoute),
        DelUnitRsc::DeviceRoute => Some(DelUnitRsc::DlDataBuffer),
        DelUnitRsc::DlDataBuffer => Some(DelUnitRsc::Device),
        DelUnitRsc::Device => Some(DelUnitRsc::Network),
        DelUnitRsc::Network => Some(DelUnitRsc::Application),
        DelUnitRsc::Application => Some(DelUnitRsc::Unit),
        DelUnitRsc::Unit => None,
    }
}

fn next_rsc_of(r: DelUnitRsc) -> (n: Option<DelUnitRsc>)
    ensures
        n == next_rsc(r),
{
    match r {
        DelUnitRsc::NetworkRoute => Some(DelUnitRsc::DeviceRoute),
        DelUnitRsc::DeviceRoute => Some(DelUnitRsc::DlDataBuffer),
        DelUnitRsc::DlDataBuffer => Some(DelUnitRsc::Device),
        DelUnitRsc::Device => Some(DelUnitRsc::Network),
        DelUnitRsc::Network => Some(DelUnitRsc::Application),
        DelUnitRsc::Application => Some(DelUnitRsc::Unit),
        DelUnitRsc::Unit => None,
    }
}

/// Where the deletion of a unit's resources stands: what it waits for.
#[derive(PartialEq, Eq, Structural, Clone, Copy, Debug)]
pub enum DelUnitState {
    /// Nothing done yet.
    Start,
    /// A page of the unit's applications.
    ListingApplications,
    /// The closing of the managers of a page of applications; `more` pages follow.
    ClosingApplications { more: bool },
    /// A page of the unit's networks.
    ListingNetworks,
    /// The closing of the managers of a page of networks; `more` pages follow.
    ClosingNetworks { more: bool },
    /// The deletion of the unit's records of a kind.
    Deleting(DelUnitRsc),
    /// Finished.
    Done,
}

/// What happened to the deletion of a unit's resources.
#[derive(Debug)]
pub enum DelUnitEvent {
    /// The deletion begins.
    Start,
    /// A page of the codes of the unit's applications (or networks), and whether the
    /// database has a cursor to a further page.
    Page { codes: Vec<String>, has_cursor: bool },
    /// The last action was carried out.
    Finished,
    /// The database failed, with its error text.
    DbError(String),
}

/// What to do next to delete a unit's resources.
#[derive(Debug)]
pub enum DelUnitAction {
    /// Query the next page of the applications of the unit `unit_id`.
    ListApplications { unit_id: String },
    /// Query the next page of the networks of the unit `unit_id`.
    ListNetworks { unit_id: String },
    /// Remove and close the application managers of these keys (a missing one is skipped).
    CloseApplicationMgrs(Vec<String>),
    /// Remove and close the network managers of these keys (a missing one is skipped).
    CloseNetworkMgrs(Vec<String>),
    /// Delete the records of this kind of the unit `unit_id`.
    Delete { rsc: DelUnitRsc, unit_id: String },
    /// Answer: done, or the database error.
    Reply(Result<(), ApiError>),
    /// Nothing more to do.
    Stop,
}

/// The manager keys of a page of codes of a unit.
pub open spec fn page_keys(unit_code: Seq<char>, codes: Seq<String>, keys: Seq<String>) -> bool {
    keys.len() == codes.len() && forall|i: int| 0 <= i < codes.len() ==> (#[trigger] keys[i])@
        == mgr_key(unit_code, codes[i]@)
}

/// The action that follows a deletion of the records `rsc`: the next kind, or the answer.
pub open spec fn after_delete(unit_id: Seq<char>, rsc: DelUnitRsc, r: (DelUnitState, DelUnitAction)) -> bool {
    match next_rsc(rsc) {
        Some(n) => r.0 == DelUnitState::Deleting(n) && (r.1 matches DelUnitAction::Delete { rsc: k, unit_id: u }
            && k == n && u@ == unit_id),
        None => r.0 == DelUnitState::Done && (r.1 matches DelUnitAction::Reply(Ok(_))),
    }
}

/// The steps of the deletion of a unit's resources, as `DELETE /api/v1/unit/{unit_id}` takes
/// them: the managers of the unit's applications are closed page by page, then those of its
/// networks (each under the key [`mgr_key`] of the unit's code and the code); then the
/// unit's network routes, device routes, buffered downlink data, devices, networks,
/// applications and the unit itself are deleted in this order. A database error `e` is
/// answered as such and ends the deletion; any other unexpected event ends it too.
pub open spec fn del_unit_step_spec(
    unit_id: Seq<char>,
    unit_code: Seq<char>,
    st: DelUnitState,
    ev: DelUnitEvent,
    r: (DelUnitState, DelUnitAction),
) -> bool {
    match (st, ev) {
        (DelUnitState::Start, DelUnitEvent::Start) => r.0 == DelUnitState::ListingApplications
            && (r.1 matches DelUnitAction::ListApplications { unit_id: u } && u@ == unit_id),
        (DelUnitState::ListingApplications, DelUnitEvent::Page { codes, has_cursor }) => r.0
            == DelUnitState::ClosingApplications { more: has_cursor } && (r.1 matches DelUnitAction::CloseApplicationMgrs(
            keys,
        ) && page_keys(unit_code, codes@, keys@)),
        (DelUnitState::ClosingApplications { more }, DelUnitEvent::Finished) => if more {
            r.0 == DelUnitState::ListingApplications && (r.1 matches DelUnitAction::ListApplications {
                unit_id: u,
            } && u@ == unit_id)
        } else {
            r.0 == DelUnitState::ListingNetworks && (r.1 matches DelUnitAction::ListNetworks {
                unit_id: u,
            } && u@ == unit_id)
        },
        (DelUnitState::ListingNetworks, DelUnitEvent::Page { codes, has_cursor }) => r.0
            == DelUnitState::ClosingNetworks { more: has_cursor } && (r.1 matches DelUnitAction::CloseNetworkMgrs(
            keys,
        ) && page_keys(unit_code, codes@, keys@)),
        (DelUnitState::ClosingNetworks { more }, DelUnitEvent::Finished) => if more {
            r.0 == DelUnitState::ListingNetworks && (r.1 matches DelUnitAction::ListNetworks {
                unit_id: u,
            } && u@ == unit_id)
        } else {
            r.0 == DelUnitState::Deleting(DelUnitRsc::NetworkRoute) && (r.1 matches DelUnitAction::Delete {
                rsc: k,
                unit_id: u,
            } && k == DelUnitRsc::NetworkRoute && u@ == unit_id)
        },
        (DelUnitState::Deleting(rsc), DelUnitEvent::Finished) => after_delete(unit_id, rsc, r),
        (DelUnitState::ListingApplications, DelUnitEvent::DbError(e))
        | (DelUnitState::ListingNetworks, DelUnitEvent::DbError(e))
        | (DelUnitState::Deleting(_), DelUnitEvent::DbError(e)) => r.0 == DelUnitState::Done && (
        r.1 matches DelUnitAction::Reply(Err(x)) && x@ == ErrView::Db(e@)),
        _ => r.0 == DelUnitState::Done && r.1 is Stop,
    }
}

/// One step of the deletion of the resources of the unit `unit_id` with the code
/// `unit_code` (see [`del_unit_step_spec`]).
pub fn del_unit_rsc_step(unit_id: &str, unit_code: &str, st: DelUnitState, ev: DelUnitEvent) -> (r: (
    DelUnitState,
    DelUnitAction,
))
    ensures
        del_unit_step_spec(unit_id@, unit_code@, st, ev, r),
{
    match st {
        DelUnitState::Start => match ev {
            DelUnitEvent::Start => (
                DelUnitState::ListingApplications,
                DelUnitAction::ListApplications { unit_id: String::from_str(unit_id) },
            ),
            _ => (DelUnitState::Done, DelUnitAction::Stop),
        },
        DelUnitState::ListingApplications => match ev {
            DelUnitEvent::Page { codes, has_cursor } => (
                DelUnitState::ClosingApplications { more: has_cursor },
                DelUnitAction::CloseApplicationMgrs(del_unit_mgr_keys(unit_code, &codes)),
            ),
            DelUnitEvent::DbError(e) => (DelUnitState::Done, DelUnitAction::Reply(Err(ApiError::Db(e)))),
            _ => (DelUnitState::Done, DelUnitAction::Stop),
        },
        DelUnitState::ClosingApplications { more } => match ev {
            DelUnitEvent::Finished => {
                if more {
                    (
                        DelUnitState::ListingApplications,
                        DelUnitAction::ListApplications { unit_id: String::from_str(unit_id) },
                    )
                } else {
                    (
                        DelUnitState::ListingNetworks,
                        DelUnitAction::ListNetworks { unit_id: String::from_str(unit_id) },
                    )
                }
            },
            _ => (DelUnitState::Done, DelUnitAction::Stop),
        },
        DelUnitState::ListingNetworks => match ev {
            DelUnitEvent::Page { codes, has_cursor } => (
                DelUnitState::ClosingNetworks { more: has_cursor },
                DelUnitAction::CloseNetworkMgrs(del_unit_mgr_keys(unit_code, &codes)),
            ),
            DelUnitEvent::DbError(e) => (DelUnitState::Done, DelUnitAction::Reply(Err(ApiError::Db(e)))),
            _ => (DelUnitState::Done, DelUnitAction::Stop),
        },
        DelUnitState::ClosingNetworks { more } => match ev {
            DelUnitEvent::Finished => {
                if more {
                    (
                        DelUnitState::ListingNetworks,
                        DelUnitAction::ListNetworks { unit_id: String::from_str(unit_id) },
                    )
                } else {
                    (
                        DelUnitState::Deleting(DelUnitRsc::NetworkRoute),
                        DelUnitAction::Delete {
                            rsc: DelUnitRsc::NetworkRoute,
                            unit_id: String::from_str(unit_id),
                        },
                    )
                }
            },
            _ => (DelUnitState::Done, DelUnitAction::Stop),
        },
        DelUnitState::Deleting(rsc) => match ev {
            DelUnitEvent::Finished => match next_rsc_of(rsc) {
                Some(n) => (
                    DelUnitState::Deleting(n),
                    DelUnitAction::Delete { rsc: n, unit_id: String::from_str(unit_id) },
                ),
                None => (DelUnitState::Done, DelUnitAction::Reply(Ok(()))),
            },
            DelUnitEvent::DbError(e) => (DelUnitState::Done, DelUnitAction::Reply(Err(ApiError::Db(e)))),
            _ => (DelUnitState::Done, DelUnitAction::Stop),
        },
        DelUnitState::Done => (DelUnitState::Done, DelUnitAction::Stop),
    }
}

/// Where `POST /api/v1/unit` stands: what it waits for.
#[derive(PartialEq, Eq, Structural, Clone, Copy, Debug)]
pub enum PostUnitState {
    Start,
    OwnerCheck,
    CodeLookup,
    Adding,
    Done,
}

/// What happened to `POST /api/v1/unit`.
#[derive(Debug)]
pub enum PostUnitEvent {
    /// The request arrived.
    Start,
    /// Whether the authentication service knows the given owner.
    OwnerFound(bool),
    /// The authentication service could not be asked, with the error to answer.
    OwnerCheckFailed(ApiError),
    /// Whether a unit of the code exists.
    CodeTaken(bool),
    /// The unit was added.
    Finished,
    /// The database failed, with its error text.
    DbError(String),
}

/// What to do next for `POST /api/v1/unit`.
#[derive(Debug)]
pub enum PostUnitAction {
    /// Ask the authentication service for the user.
    CheckOwner { owner_id: String },
    /// Look up a unit of the code.
    GetUnit { code: String },
    /// Add the unit.
    Add(Unit),
    /// Answer with the new unit's ID.
    Finish { unit_id: String },
    /// Answer with the error.
    Reply(ApiError),
    /// Nothing more to do.
    Stop,
}

/// After the owner is settled: the check of the information, then the look-up of the code.
pub open spec fn post_unit_code_lookup(data: PostUnitData, code: Seq<char>, r: (PostUnitState, PostUnitAction)) -> bool {
    if !opt_info_ok(data.info) {
        r.0 == PostUnitState::Done && (r.1 matches PostUnitAction::Reply(x) && x@ == ErrView::Param(
            info_msg(),
        ))
    } else {
        r.0 == PostUnitState::CodeLookup && (r.1 matches PostUnitAction::GetUnit { code: c } && c@
            == code)
    }
}

/// The steps of `POST /api/v1/unit` by `user_id` at `now` with the new ID `unit_id`, in
/// order: the checks of [`post_unit_check_spec`]; a given owner must be known to the
/// authentication service (else `err_broker_owner_not_exist`); the information must be
/// valid; the code must be free (else `err_broker_unit_exist`); the new unit, of the given
/// owner or else of the user. A database error is answered as such; any other unexpected
/// event ends the request.
pub open spec fn post_unit_step_spec(
    user_id: Seq<char>,
    roles: Seq<(String, bool)>,
    data: PostUnitData,
    unit_id: Seq<char>,
    now: i64,
    st: PostUnitState,
    ev: PostUnitEvent,
    r: (PostUnitState, PostUnitAction),
) -> bool {
    if st == PostUnitState::Done {
        r.0 == PostUnitState::Done && r.1 is Stop
    } else {
        match post_unit_check_spec(roles, data) {
            Err(e) => r.0 == PostUnitState::Done && (r.1 matches PostUnitAction::Reply(x) && x@ == e),
            Ok(checked) => match (st, ev) {
                (PostUnitState::Start, PostUnitEvent::Start) => match checked.1 {
                    Some(o) => r.0 == PostUnitState::OwnerCheck && (r.1 matches PostUnitAction::CheckOwner {
                        owner_id,
                    } && owner_id@ == o),
                    None => post_unit_code_lookup(data, checked.0, r),
                },
                (PostUnitState::OwnerCheck, PostUnitEvent::OwnerFound(found)) => if found {
                    post_unit_code_lookup(data, checked.0, r)
                } else {
                    r.0 == PostUnitState::Done && (r.1 matches PostUnitAction::Reply(x) && x@
                        == ErrView::Req(BrokerReq::OwnerNotExist))
                },
                (PostUnitState::OwnerCheck, PostUnitEvent::OwnerCheckFailed(e)) => r.0
                    == PostUnitState::Done && (r.1 matches PostUnitAction::Reply(x) && x@ == e@),
                (PostUnitState::CodeLookup, PostUnitEvent::CodeTaken(taken)) => if taken {
                    r.0 == PostUnitState::Done && (r.1 matches PostUnitAction::Reply(x) && x@
                        == ErrView::Req(BrokerReq::UnitExist))
                } else {
                    let owner = match checked.1 {
                        Some(o) => o,
                        None => user_id,
                    };
                    r.0 == PostUnitState::Adding && (r.1 matches PostUnitAction::Add(u) && u.unit_id@
                        == unit_id && u.code@ == checked.0 && u.created_at == now && u.modified_at
                        == now && u.owner_id@ == owner && strs(u.member_ids@) == seq![owner]
                        && u.name@ == or_empty(opt_view(data.name)) && pairs(u.info@) == info_or_empty(
                        data.info,
                    ))
                },
                (PostUnitState::Adding, PostUnitEvent::Finished) => r.0 == PostUnitState::Done && (
                r.1 matches PostUnitAction::Finish { unit_id: id } && id@ == unit_id),
                (PostUnitState::CodeLookup, PostUnitEvent::DbError(e))
                | (PostUnitState::Adding, PostUnitEvent::DbError(e)) => r.0 == PostUnitState::Done && (
                r.1 matches PostUnitAction::Reply(x) && x@ == ErrView::Db(e@)),
                _ => r.0 == PostUnitState::Done && r.1 is Stop,
            },
        }
    }
}

fn post_unit_code_step(data: &PostUnitData, code: String) -> (r: (PostUnitState, PostUnitAction))
    ensures
        post_unit_code_lookup(*data, code@, r),
{
    match check_info(&data.info) {
        Err(e) => (PostUnitState::Done, PostUnitAction::Reply(e)),
        Ok(()) => (PostUnitState::CodeLookup, PostUnitAction::GetUnit { code }),
    }
}

/// One step of `POST /api/v1/unit` by `user_id` at `now` with the new ID `unit_id` (see
/// [`post_unit_step_spec`]).
pub fn post_unit_step(
    user_id: &str,
    roles: &Vec<(String, bool)>,
    data: &PostUnitData,
    unit_id: &str,
    now: i64,
    st: PostUnitState,
    ev: PostUnitEvent,
) -> (r: (PostUnitState, PostUnitAction))
    ensures
        post_unit_step_spec(user_id@, roles@, *data, unit_id@, now, st, ev, r),
{
    if st == PostUnitState::Done {
        return (PostUnitState::Done, PostUnitAction::Stop);
    }
    let checked = match check_post_unit(roles, data) {
        Err(e) => return (PostUnitState::Done, PostUnitAction::Reply(e)),
        Ok(c) => c,
    };
    match st {
        PostUnitState::Start => match ev {
            PostUnitEvent::Start => match checked.owner_id {
                Some(o) => (PostUnitState::OwnerCheck, PostUnitAction::CheckOwner { owner_id: o }),
                None => post_unit_code_step(data, checked.code),
            },
            _ => (PostUnitState::Done, PostUnitAction::Stop),
        },
        PostUnitState::OwnerCheck => match ev {
            PostUnitEvent::OwnerFound(found) => {
                if found {
                    post_unit_code_step(data, checked.code)
                } else {
                    (PostUnitState::Done, PostUnitAction::Reply(ApiError::Req(BrokerReq::OwnerNotExist)))
                }
            },
            PostUnitEvent::OwnerCheckFailed(e) => (PostUnitState::Done, PostUnitAction::Reply(e)),
            _ => (PostUnitState::Done, PostUnitAction::Stop),
        },
        PostUnitState::CodeLookup => match ev {
            PostUnitEvent::CodeTaken(taken) => {
                if taken {
                    (PostUnitState::Done, PostUnitAction::Reply(ApiError::Req(BrokerReq::UnitExist)))
                } else {
                    let owner = match &checked.owner_id {
                        Some(o) => o.clone(),
                        None => String::from_str(user_id),
                    };
                    let u = new_unit(String::from_str(unit_id), checked.code, now, owner.as_str(), data);
                    (PostUnitState::Adding, PostUnitAction::Add(u))
                }
            },
            PostUnitEvent::DbError(e) => (PostUnitState::Done, PostUnitAction::Reply(ApiError::Db(e))),
            _ => (PostUnitState::Done, PostUnitAction::Stop),
        },
        PostUnitState::Adding => match ev {
            PostUnitEvent::Finished => (PostUnitState::Done, PostUnitAction::Finish { unit_id: String::from_str(unit_id) }),
            PostUnitEvent::DbError(e) => (PostUnitState::Done, PostUnitAction::Reply(ApiError::Db(e))),
            _ => (PostUnitState::Done, PostUnitAction::Stop),
        },
        PostUnitState::Done => (PostUnitState::Done, PostUnitAction::Stop),
    }
}

/// The token with which the authentication service is asked about an owner, given what
/// reading the request's `Authorization` header gave: without the header, the request is
/// refused with `invalid Authorization`.
pub fn owner_check_token(parsed: Result<Option<String>, ApiError>) -> (r: Result<String, ApiError>)
    ensures
        match parsed {
            Err(e) => r matches Err(x) && x@ == e@,
            Ok(None) => r matches Err(x) && x@ == ErrView::Param("invalid Authorization"@),
            Ok(Some(t)) => r matches Ok(s) && s@ == t@,
        },
{
    match parsed {
        Err(e) => Err(e),
        Ok(None) => Err(ApiError::Param(String::from_str("invalid Authorization"))),
        Ok(Some(t)) => Ok(t),
    }
}

/// What the authentication service's answer on a user means, by its status code `status`
/// (written `status_text`): 200 the user exists, 404 it does not, 401 the token is
/// unauthorized, any other status is an internal error that names it.
pub fn owner_status(status: u16, status_text: &str) -> (r: Result<bool, ApiError>)
    ensures
        status == 200 ==> r == Ok::<bool, ApiError>(true),
        status == 404 ==> r == Ok::<bool, ApiError>(false),
        status == 401 ==> (r matches Err(e) && e@ == ErrView::Auth),
        status != 200 && status != 404 && status != 401 ==> (r matches Err(e) && e@
            == ErrView::IntMsg("check owner with status code: "@ + status_text@)),
{
    if status == 200 {
        Ok(true)
    } else if status == 404 {
        Ok(false)
    } else if status == 401 {
        Err(ApiError::Auth)
    } else {
        let mut msg = String::from_str("check owner with status code: ");
        msg.append(status_text);
        Err(ApiError::IntMsg(msg))
    }
}

/// `GET /api/v1/unit/count` for `user_id`: the administrator and the manager roles filter by
/// the non-empty owner and member parameters, other users count the units they are members
/// of (whatever they give); everyone filters by a non-empty part of the code.
pub proof fn lemma_unit_count_fields(user_id: &str, roles: &Vec<(String, bool)>, query: GetUnitCountQuery, c: ListQueryCond)
    requires
        call_ensures(get_unit_count_cond, (user_id, roles, &query), c),
    ensures
        privileged(roles@) && (query.owner matches Some(v) && v@.len() > 0) ==> opt_view(c.owner_id) == Some(query.owner->0@),
        privileged(roles@) && !(query.owner matches Some(v) && v@.len() > 0) ==> c.owner_id is None,
        privileged(roles@) && (query.member matches Some(v) && v@.len() > 0) ==> opt_view(c.member_id) == Some(query.member->0@),
        !privileged(roles@) ==> c.owner_id is None && opt_view(c.member_id) == Some(user_id@),
        (query.contains matches Some(v) && v@.len() > 0) ==> opt_view(c.code_contains) == Some(query.contains->0@),
        !(query.contains matches Some(v) && v@.len() > 0) ==> c.code_contains is None,
        privileged(roles@) && !(query.member matches Some(v) && v@.len() > 0) ==> c.member_id is None,
{
}

/// The first query of `GET /api/v1/unit/list` filters as the count does (see
/// [`lemma_unit_count_fields`]).
pub proof fn lemma_unit_list_fields(user_id: &str, roles: &Vec<(String, bool)>, query: GetUnitListQuery, r: Result<ListOptions, ApiError>)
    requires
        call_ensures(get_unit_list_opts, (user_id, roles, &query), r),
    ensures
        r matches Ok(o) ==> {
            &&& privileged(roles@) && (query.owner matches Some(v) && v@.len() > 0) ==> opt_view(o.cond.owner_id) == Some(query.owner->0@)
            &&& privileged(roles@) && !(query.owner matches Some(v) && v@.len() > 0) ==> o.cond.owner_id is None
            &&& privileged(roles@) && (query.member matches Some(v) && v@.len() > 0) ==> opt_view(o.cond.member_id) == Some(query.member->0@)
            &&& !privileged(roles@) ==> o.cond.owner_id is None && opt_view(o.cond.member_id) == Some(user_id@)
            &&& (query.contains matches Some(v) && v@.len() > 0) ==> opt_view(o.cond.code_contains) == Some(query.contains->0@)
            &&& !(query.contains matches Some(v) && v@.len() > 0) ==> o.cond.code_contains is None
            &&& privileged(roles@) && !(query.member matches Some(v) && v@.len() > 0) ==> o.cond.member_id is None
        },
{
}

/// The queries that continue a streamed `GET /api/v1/unit/list` filter as the first one,
/// except that without a member parameter the administrator and the manager roles are
/// filtered by their own membership.
pub proof fn lemma_unit_list_stream_fields(user_id: &str, roles: &Vec<(String, bool)>, query: GetUnitListQuery, c: ListQueryCond)
    requires
        call_ensures(get_unit_list_stream_cond, (user_id, roles, &query), c),
    ensures
        privileged(roles@) && (query.owner matches Some(v) && v@.len() > 0) ==> opt_view(c.owner_id) == Some(query.owner->0@),
        privileged(roles@) && !(query.owner matches Some(v) && v@.len() > 0) ==> c.owner_id is None,
        privileged(roles@) && (query.member matches Some(v) && v@.len() > 0) ==> opt_view(c.member_id) == Some(query.member->0@),
        !privileged(roles@) ==> c.owner_id is None && opt_view(c.member_id) == Some(user_id@),
        (query.contains matches Some(v) && v@.len() > 0) ==> opt_view(c.code_contains) == Some(query.contains->0@),
        !(query.contains matches Some(v) && v@.len() > 0) ==> c.code_contains is None,
        privileged(roles@) && !(query.member matches Some(v) && v@.len() > 0) ==> opt_view(c.member_id) == Some(user_id@),
{
}

} // verus!
