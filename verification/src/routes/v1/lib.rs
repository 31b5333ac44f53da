//! Access checks shared by the v1 resources and the manager key.

use vstd::prelude::*;
use vstd::string::*;

use crate::models::{clone_strs, opt_view, strs, Application, Device, Network};
use crate::routes::v1::list::{cond_spec, non_empty, unit_outcome};
use crate::routes::{param_err, ApiError, ErrView};

verus! {

/// The key of a manager: `[unit-code].[code]`. An empty unit code is used for public networks.
pub open spec fn mgr_key(unit: Seq<char>, name: Seq<char>) -> Seq<char> {
    unit + seq!['.'] + name
}

/// To generate a key for managing managers. Empty unit for public networks.
pub fn gen_mgr_key(unit: &str, name: &str) -> (key: String)
    ensures
        key@ == mgr_key(unit@, name@),
{
    let mut key = String::from_str(unit);
    crate::corelib::push_char(&mut key, '.');
    key.append(name);
    key
}

/// Whether `roles` grants the role `name`: some entry of the name grants it. For a list that
/// holds each name once, this is the role map's answer (see [`lemma_has_role_map`]).
pub open spec fn has_role(roles: Seq<(String, bool)>, name: Seq<char>) -> bool {
    exists|i: int| 0 <= i < roles.len() && (#[trigger] roles[i]).0@ == name && roles[i].1
}

/// Whether `roles` grants the administrator or the manager role, which see every unit.
pub open spec fn privileged(roles: Seq<(String, bool)>) -> bool {
    has_role(roles, "admin"@) || has_role(roles, "manager"@)
}

/// The names of a list of roles are pairwise distinct, as the keys of a token's role map.
pub open spec fn role_keys_unique(roles: Seq<(String, bool)>) -> bool {
    forall|i: int, j: int| 0 <= i < j < roles.len() ==> (#[trigger] roles[i]).0@ != (#[trigger] roles[j]).0@
}

/// The map of roles that a list of roles with distinct names stands for.
pub open spec fn role_map(roles: Seq<(String, bool)>) -> Map<Seq<char>, bool> {
    Map::new(
        |k: Seq<char>| exists|i: int| 0 <= i < roles.len() && (#[trigger] roles[i]).0@ == k,
        |k: Seq<char>| roles[choose|i: int| 0 <= i < roles.len() && (#[trigger] roles[i]).0@ == k].1,
    )
}

/// A token's roles come as a map; the list that stands for it holds each name once. For such
/// a list, a role is granted exactly when the map has it and grants it.
pub proof fn lemma_has_role_map(roles: Seq<(String, bool)>, name: Seq<char>)
    requires
        role_keys_unique(roles),
    ensures
        has_role(roles, name) <==> (role_map(roles).contains_key(name) && role_map(roles)[name]),
{
    if role_map(roles).contains_key(name) {
        let j = choose|i: int| 0 <= i < roles.len() && (#[trigger] roles[i]).0@ == name;
        if has_role(roles, name) {
            let i = choose|i: int| 0 <= i < roles.len() && (#[trigger] roles[i]).0@ == name && roles[i].1;
            if i < j {
                assert(roles[i].0@ != roles[j].0@);
            } else if j < i {
                assert(roles[j].0@ != roles[i].0@);
            }
        }
    }
}

/// Whether the role `name` is granted: present and `true`.
pub fn is_role(roles: &Vec<(String, bool)>, name: &str) -> (r: bool)
    ensures
        r == has_role(roles@, name@),
{
    let target = String::from_str(name);
    let mut i: usize = 0;
    while i < roles.len()
        invariant
            i <= roles.len(),
            target@ == name@,
            forall|j: int| 0 <= j < i ==> !((#[trigger] roles@[j]).0@ == name@ && roles@[j].1),
        decreases roles.len() - i,
    {
        if roles[i].1 && roles[i].0 == target {
            assert((roles@[i as int]).0@ == name@ && roles@[i as int].1);
            return true;
        }
        i += 1;
    }
    false
}

/// Whether the administrator or the manager role is granted.
pub fn is_privileged(roles: &Vec<(String, bool)>) -> (r: bool)
    ensures
        r == privileged(roles@),
{
    let admin = is_role(roles, "admin");
    let manager = is_role(roles, "manager");
    proof {
        reveal_strlit("admin");
        reveal_strlit("manager");
    }
    admin || manager
}

/// The condition of the query for one unit: by its ID, and for a user without the
/// administrator or the manager role, also by the owner or by a member.
#[derive(Debug)]
pub struct UnitQueryCond {
    pub unit_id: String,
    pub owner_id: Option<String>,
    pub member_id: Option<String>,
}

/// The unit query for `user_id` on the unit `unit_id`: by the unit alone for the
/// administrator or the manager role, else also by the owner (`only_owner`) or by a member.
pub open spec fn unit_cond_spec(
    c: UnitQueryCond,
    user_id: Seq<char>,
    roles: Seq<(String, bool)>,
    unit_id: Seq<char>,
    only_owner: bool,
) -> bool {
    &&& c.unit_id@ == unit_id
    &&& privileged(roles) ==> c.owner_id is None && c.member_id is None
    &&& !privileged(roles) && only_owner ==> opt_view(c.owner_id) == Some(user_id)
        && c.member_id is None
    &&& !privileged(roles) && !only_owner ==> opt_view(c.member_id) == Some(user_id)
        && c.owner_id is None
}

/// The unit query that decides whether `user_id` may access the unit `unit_id`: with
/// `only_owner` the user must own it, else be one of its members; a user with the
/// administrator or the manager role accesses every unit.
pub fn check_unit_cond(user_id: &str, roles: &Vec<(String, bool)>, unit_id: &str, only_owner: bool) -> (c: UnitQueryCond)
    ensures
        unit_cond_spec(c, user_id@, roles@, unit_id@, only_owner),
{
    let mut c = UnitQueryCond { unit_id: String::from_str(unit_id), owner_id: None, member_id: None };
    if !is_privileged(roles) {
        if only_owner {
            c.owner_id = Some(String::from_str(user_id));
        } else {
            c.member_id = Some(String::from_str(user_id));
        }
    }
    c
}

/// What decides an access to a record that belongs to a unit.
#[derive(Debug)]
pub enum AccessCheck {
    /// The access is granted without looking at the unit.
    Granted,
    /// The access is refused without looking at the unit.
    Denied,
    /// The access is granted if and only if this unit query finds the unit.
    ByUnit(UnitQueryCond),
}

/// To check if the user can access the application: the administrator and the manager roles
/// access every application, other users through its unit (as the owner with `only_owner`,
/// else as a member).
pub fn check_application_access(
    user_id: &str,
    roles: &Vec<(String, bool)>,
    application: &Application,
    only_owner: bool,
) -> (a: AccessCheck)
    ensures
        privileged(roles@) ==> a is Granted,
        !privileged(roles@) ==> (a matches AccessCheck::ByUnit(c) && unit_cond_spec(
            c,
            user_id@,
            roles@,
            application.unit_id@,
            only_owner,
        )),
{
    if is_privileged(roles) {
        AccessCheck::Granted
    } else {
        AccessCheck::ByUnit(check_unit_cond(user_id, roles, application.unit_id.as_str(), only_owner))
    }
}

/// To check if the user can access the network: the administrator and the manager roles
/// access every network; other users never access a public network, and a network of a unit
/// through that unit (as the owner with `only_owner`, else as a member).
pub fn check_network_access(
    user_id: &str,
    roles: &Vec<(String, bool)>,
    network: &Network,
    only_owner: bool,
) -> (a: AccessCheck)
    ensures
        privileged(roles@) ==> a is Granted,
        !privileged(roles@) && network.unit_id is None ==> a is Denied,
        !privileged(roles@) ==> forall|u: String|
            network.unit_id == Some(u) ==> (a matches AccessCheck::ByUnit(c) && unit_cond_spec(
                c,
                user_id@,
                roles@,
                u@,
                only_owner,
            )),
{
    if is_privileged(roles) {
        return AccessCheck::Granted;
    }
    match &network.unit_id {
        None => AccessCheck::Denied,
        Some(u) => AccessCheck::ByUnit(check_unit_cond(user_id, roles, u.as_str(), only_owner)),
    }
}

/// To check if the user can access a record of the unit `unit_id` (a device, a route or a
/// buffered data item): always through the unit, whose query restricts nothing for the
/// administrator and the manager roles.
pub fn check_record_access(
    user_id: &str,
    roles: &Vec<(String, bool)>,
    unit_id: &str,
    only_owner: bool,
) -> (a: AccessCheck)
    ensures
        a matches AccessCheck::ByUnit(c) && unit_cond_spec(c, user_id@, roles@, unit_id@, only_owner),
{
    AccessCheck::ByUnit(check_unit_cond(user_id, roles, unit_id, only_owner))
}

/// To check if the user can access the device, through the device's unit.
pub fn check_device_access(user_id: &str, roles: &Vec<(String, bool)>, device: &Device, only_owner: bool) -> (a: AccessCheck)
    ensures
        a matches AccessCheck::ByUnit(c) && unit_cond_spec(
            c,
            user_id@,
            roles@,
            device.unit_id@,
            only_owner,
        ),
{
    check_record_access(user_id, roles, device.unit_id.as_str(), only_owner)
}

/// Whether the access is granted, given whether the unit query (if any) found the unit.
pub open spec fn access_spec(a: AccessCheck, unit_found: bool) -> bool {
    match a {
        AccessCheck::Granted => true,
        AccessCheck::Denied => false,
        AccessCheck::ByUnit(_) => unit_found,
    }
}

/// Whether the access is granted, given whether the unit query (if any) found the unit.
pub fn access_granted(a: &AccessCheck, unit_found: bool) -> (r: bool)
    ensures
        r == access_spec(*a, unit_found),
{
    match a {
        AccessCheck::Granted => true,
        AccessCheck::Denied => false,
        AccessCheck::ByUnit(_) => unit_found,
    }
}

/// The text of the parameter error for a missing unit filter.
pub open spec fn missing_unit_msg() -> Seq<char> {
    "missing `unit`"@
}

/// The outcome of the unit filter of a count or list request: the parameter error, or the
/// unit to check (none for an absent or empty one).
pub open spec fn unit_param_spec(roles: Seq<(String, bool)>, unit: Option<Seq<char>>) -> Result<Option<Seq<char>>, ErrView> {
    if !privileged(roles) && cond_spec(unit) is None {
        Err(ErrView::Param("missing `unit`"@))
    } else {
        Ok(cond_spec(unit))
    }
}

/// The unit filter of a count or list request: users without the administrator or the
/// manager role must give one; a given unit is returned for the unit check (as a member),
/// and an empty one is no filter.
pub fn unit_param(roles: &Vec<(String, bool)>, unit: &Option<String>) -> (r: Result<Option<String>, ApiError>)
    ensures
        unit_outcome(r) == unit_param_spec(roles@, opt_view(*unit)),
        !privileged(roles@) && cond_spec(opt_view(*unit)) is None ==> (r matches Err(e) && e@
            == ErrView::Param(missing_unit_msg())),
        privileged(roles@) || cond_spec(opt_view(*unit)) is Some ==> (r matches Ok(u) && opt_view(u)
            == cond_spec(opt_view(*unit))),
{
    let u = non_empty(unit);
    if u.is_none() && !is_privileged(roles) {
        return Err(param_err("missing `unit`"));
    }
    Ok(u)
}

/// Whether a device of the unit `unit_id` may be on the network: a network of a unit only for
/// that unit, a public network only for the administrator and the manager roles.
pub open spec fn network_usable_spec(network: Network, unit_id: Seq<char>, roles: Seq<(String, bool)>) -> bool {
    match network.unit_id {
        None => privileged(roles),
        Some(id) => id@ == unit_id,
    }
}

/// Whether a device of the unit `unit_id` may be on the network.
pub fn network_usable(network: &Network, unit_id: &str, roles: &Vec<(String, bool)>) -> (r: bool)
    ensures
        r == network_usable_spec(*network, unit_id@, roles@),
{
    match &network.unit_id {
        None => is_privileged(roles),
        Some(id) => *id == String::from_str(unit_id),
    }
}

/// The manager key of a network: its unit code (empty for a public network) and its code.
pub open spec fn network_mgr_key(network: Network) -> Seq<char> {
    match network.unit_code {
        None => mgr_key(Seq::empty(), network.code@),
        Some(u) => mgr_key(u@, network.code@),
    }
}

/// The manager key of a network.
pub fn gen_network_mgr_key(network: &Network) -> (key: String)
    ensures
        key@ == network_mgr_key(*network),
{
    match &network.unit_code {
        None => {
            proof {
                reveal_strlit("");
            }
            gen_mgr_key("", network.code.as_str())
        },
        Some(u) => gen_mgr_key(u.as_str(), network.code.as_str()),
    }
}

/// The manager key of the network of a device: the device's unit code (empty for a public
/// network) and its network code.
pub open spec fn device_mgr_key(device: Device) -> Seq<char> {
    match device.unit_code {
        None => mgr_key(Seq::empty(), device.network_code@),
        Some(u) => mgr_key(u@, device.network_code@),
    }
}

/// The manager key of the network of a device.
pub fn gen_device_mgr_key(device: &Device) -> (key: String)
    ensures
        key@ == device_mgr_key(*device),
{
    match &device.unit_code {
        None => {
            proof {
                reveal_strlit("");
            }
            gen_mgr_key("", device.network_code.as_str())
        },
        Some(u) => gen_mgr_key(u.as_str(), device.network_code.as_str()),
    }
}

/// An HTTP method of the API.
#[derive(PartialEq, Eq, Structural, Clone, Copy, Debug)]
pub enum Method {
    Get,
    Post,
    Patch,
    Delete,
}

/// The scopes configured for an API key (such as `unit.get`) in a list of keys and scopes:
/// those of the first entry of the key, none when the key is not configured. For a list that
/// holds each key once, these are the map's (see [`lemma_scopes_map`]).
pub open spec fn scopes_spec(api_scopes: Seq<(String, Vec<String>)>, key: Seq<char>) -> Seq<Seq<char>>
    decreases api_scopes.len(),
{
    if api_scopes.len() == 0 {
        Seq::empty()
    } else if api_scopes[0].0@ == key {
        strs(api_scopes[0].1@)
    } else {
        scopes_spec(api_scopes.drop_first(), key)
    }
}

/// The API keys of a list of keys and scopes are pairwise distinct, as the keys of the
/// configured map.
pub open spec fn scope_keys_unique(api_scopes: Seq<(String, Vec<String>)>) -> bool {
    forall|i: int, j: int|
        0 <= i < j < api_scopes.len() ==> (#[trigger] api_scopes[i]).0@ != (#[trigger] api_scopes[j]).0@
}

/// The map of scopes that a list of keys and scopes with distinct keys stands for.
pub open spec fn scope_map(api_scopes: Seq<(String, Vec<String>)>) -> Map<Seq<char>, Seq<Seq<char>>> {
    Map::new(
        |k: Seq<char>| exists|i: int| 0 <= i < api_scopes.len() && (#[trigger] api_scopes[i]).0@ == k,
        |k: Seq<char>| strs(api_scopes[choose|i: int| 0 <= i < api_scopes.len() && (#[trigger] api_scopes[i]).0@ == k].1@),
    )
}

/// The scopes of the API keys are configured as a map; the list that stands for it holds
/// each key once. For such a list, the scopes of a key are those of the map, none for a key
/// that it does not hold.
pub proof fn lemma_scopes_map(api_scopes: Seq<(String, Vec<String>)>, key: Seq<char>)
    requires
        scope_keys_unique(api_scopes),
    ensures
        scopes_spec(api_scopes, key) == (if scope_map(api_scopes).contains_key(key) {
            scope_map(api_scopes)[key]
        } else {
            Seq::empty()
        }),
    decreases api_scopes.len(),
{
    if api_scopes.len() > 0 {
        let rest = api_scopes.drop_first();
        assert(scope_keys_unique(rest)) by {
            assert forall|i: int, j: int| 0 <= i < j < rest.len() implies (#[trigger] rest[i]).0@ != (
            #[trigger] rest[j]).0@ by {
                assert(rest[i] == api_scopes[i + 1]);
                assert(rest[j] == api_scopes[j + 1]);
            }
        }
        lemma_scopes_map(rest, key);
        if api_scopes[0].0@ == key {
            assert(scope_map(api_scopes).contains_key(key));
            let c = choose|i: int| 0 <= i < api_scopes.len() && (#[trigger] api_scopes[i]).0@ == key;
            if c > 0 {
                assert(api_scopes[0].0@ != api_scopes[c].0@);
            }
        } else {
            if scope_map(api_scopes).contains_key(key) {
                let c = choose|i: int| 0 <= i < api_scopes.len() && (#[trigger] api_scopes[i]).0@ == key;
                assert(rest[c - 1] == api_scopes[c]);
                assert(scope_map(rest).contains_key(key));
                let d = choose|i: int| 0 <= i < rest.len() && (#[trigger] rest[i]).0@ == key;
                assert(rest[d] == api_scopes[d + 1]);
                if d + 1 < c {
                    assert(api_scopes[d + 1].0@ != api_scopes[c].0@);
                } else if c < d + 1 {
                    assert(api_scopes[c].0@ != api_scopes[d + 1].0@);
                }
            } else {
                assert forall|i: int| 0 <= i < rest.len() implies (#[trigger] rest[i]).0@ != key by {
                    assert(rest[i] == api_scopes[i + 1]);
                }
            }
        }
    }
}

/// The scopes configured for an API key.
pub fn scopes_of(api_scopes: &Vec<(String, Vec<String>)>, key: &str) -> (r: Vec<String>)
    ensures
        strs(r@) == scopes_spec(api_scopes@, key@),
{
    let target = String::from_str(key);
    let mut i: usize = 0;
    proof {
        assert(api_scopes@.skip(0) =~= api_scopes@);
    }
    while i < api_scopes.len()
        invariant
            i <= api_scopes.len(),
            target@ == key@,
            scopes_spec(api_scopes@, key@) == scopes_spec(api_scopes@.skip(i as int), key@),
        decreases api_scopes.len() - i,
    {
        proof {
            assert(api_scopes@.skip(i as int)[0] == api_scopes@[i as int]);
            assert(api_scopes@.skip(i as int).drop_first() =~= api_scopes@.skip(i + 1));
        }
        if api_scopes[i].0 == target {
            return clone_strs(&api_scopes[i].1);
        }
        i += 1;
    }
    proof {
        assert(api_scopes@.skip(i as int) =~= Seq::<(String, Vec<String>)>::empty());
    }
    Vec::new()
}

/// What the authentication middleware requires of a token for one method of one path: one of
/// the roles (none required when empty) and one of the scopes (none required when empty).
#[derive(Debug)]
pub struct RoleScope {
    pub path: String,
    pub method: Method,
    pub roles: Vec<String>,
    pub scopes: Vec<String>,
}

/// The view of a requirement.
pub open spec fn role_scope_view(r: RoleScope) -> (Seq<char>, Method, Seq<Seq<char>>, Seq<Seq<char>>) {
    (r.path@, r.method, strs(r.roles@), strs(r.scopes@))
}

/// The views of requirements.
pub open spec fn role_scopes_view(v: Seq<RoleScope>) -> Seq<(Seq<char>, Method, Seq<Seq<char>>, Seq<Seq<char>>)> {
    v.map_values(|r: RoleScope| role_scope_view(r))
}

/// The requirement of a path and a method without roles, with the scopes configured for the
/// API key `key`.
pub open spec fn entry(
    path: Seq<char>,
    method: Method,
    api_scopes: Seq<(String, Vec<String>)>,
    key: Seq<char>,
) -> (Seq<char>, Method, Seq<Seq<char>>, Seq<Seq<char>>) {
    (path, method, Seq::empty(), scopes_spec(api_scopes, key))
}

/// The requirement of a path and a method without roles, with the scopes configured for the
/// API key `key`.
pub fn role_scope(path: &str, method: Method, api_scopes: &Vec<(String, Vec<String>)>, key: &str) -> (r: RoleScope)
    ensures
        role_scope_view(r) == entry(path@, method, api_scopes@, key@),
{
    let roles: Vec<String> = Vec::new();
    proof {
        assert(strs(roles@) =~= Seq::<Seq<char>>::empty());
    }
    RoleScope { path: String::from_str(path), method, roles, scopes: scopes_of(api_scopes, key) }
}

/// Appends requirements to a table.
pub fn push_role_scope(table: &mut Vec<RoleScope>, r: RoleScope)
    ensures
        role_scopes_view(final(table)@) == role_scopes_view(old(table)@).push(role_scope_view(r)),
{
    let ghost prev = table@;
    let ghost rv = role_scope_view(r);
    table.push(r);
    proof {
        assert(role_scopes_view(table@) =~= role_scopes_view(prev).push(rv));
    }
}

/// The URI of the token information API of the authentication service at `auth_base`.
pub fn auth_uri(auth_base: &str) -> (r: String)
    ensures
        r@ == auth_base@ + "/api/v1/auth/tokeninfo"@,
{
    let mut r = String::from_str(auth_base);
    r.append("/api/v1/auth/tokeninfo");
    r
}

} // verus!
