//! The unit API: `/api/v1/unit`.

pub mod api;
pub mod members;
pub mod request;
pub mod response;

use vstd::prelude::*;
use vstd::string::*;

use crate::models::strs;
use crate::routes::v1::lib::{
    entry, push_role_scope, role_scope, role_scopes_view, scopes_of, scopes_spec, Method,
    RoleScope,
};

verus! {

/// What the authentication middleware requires of a token for each path and method of the
/// unit API: the scopes configured for the API's keys (`unit.get`, ...), none
/// when a key is not configured.
pub open spec fn role_scopes_spec(api_scopes: Seq<(String, Vec<String>)>) -> Seq<(Seq<char>, Method, Seq<Seq<char>>, Seq<Seq<char>>)> {
    seq![
        entry("/"@, Method::Post, api_scopes, "unit.post"@),
        entry("/count"@, Method::Get, api_scopes, "unit.get"@),
        entry("/list"@, Method::Get, api_scopes, "unit.get"@),
        entry("/:unit_id"@, Method::Get, api_scopes, "unit.get"@),
        entry("/:unit_id"@, Method::Patch, api_scopes, "unit.patch"@),
        entry("/:unit_id"@, Method::Delete, api_scopes, "unit.delete"@),
        ("/user/:user_id"@, Method::Delete, seq!["admin"@, "manager"@], scopes_spec(api_scopes, "unit.delete.user"@)),
    ]
}

/// The requirements of the authentication middleware for the unit API (see
/// [`role_scopes_spec`]), from the configured scopes of the API keys.
pub fn role_scopes(api_scopes: &Vec<(String, Vec<String>)>) -> (t: Vec<RoleScope>)
    ensures
        role_scopes_view(t@) == role_scopes_spec(api_scopes@),
{
    let mut t: Vec<RoleScope> = Vec::new();
    proof {
        assert(role_scopes_view(t@) =~= Seq::<(Seq<char>, Method, Seq<Seq<char>>, Seq<Seq<char>>)>::empty());
    }
    push_role_scope(&mut t, role_scope("/", Method::Post, api_scopes, "unit.post"));
    push_role_scope(&mut t, role_scope("/count", Method::Get, api_scopes, "unit.get"));
    push_role_scope(&mut t, role_scope("/list", Method::Get, api_scopes, "unit.get"));
    push_role_scope(&mut t, role_scope("/:unit_id", Method::Get, api_scopes, "unit.get"));
    push_role_scope(&mut t, role_scope("/:unit_id", Method::Patch, api_scopes, "unit.patch"));
    push_role_scope(&mut t, role_scope("/:unit_id", Method::Delete, api_scopes, "unit.delete"));
    let roles = vec![String::from_str("admin"), String::from_str("manager")];
    let scopes = scopes_of(api_scopes, "unit.delete.user");
    proof {
        assert(strs(roles@) =~= seq!["admin"@, "manager"@]);
    }
    push_role_scope(
        &mut t,
        RoleScope { path: String::from_str("/user/:user_id"), method: Method::Delete, roles, scopes },
    );
    proof {
        assert(role_scopes_view(t@) =~= role_scopes_spec(api_scopes@));
    }
    t
}

} // verus!
