//! The device API: `/api/v1/device`.

pub mod api;
pub mod request;
pub mod response;

use vstd::prelude::*;
use vstd::string::*;

use crate::routes::v1::lib::{
    entry, push_role_scope, role_scope, role_scopes_view, Method, RoleScope,
};

verus! {

/// What the authentication middleware requires of a token for each path and method of the
/// device API: the scopes configured for the API's keys (`device.get`, ...), none
/// when a key is not configured.
pub open spec fn role_scopes_spec(api_scopes: Seq<(String, Vec<String>)>) -> Seq<(Seq<char>, Method, Seq<Seq<char>>, Seq<Seq<char>>)> {
    seq![
        entry("/"@, Method::Post, api_scopes, "device.post"@),
        entry("/bulk"@, Method::Post, api_scopes, "device.post"@),
        entry("/bulk-delete"@, Method::Post, api_scopes, "device.delete"@),
        entry("/range"@, Method::Post, api_scopes, "device.post"@),
        entry("/range-delete"@, Method::Post, api_scopes, "device.delete"@),
        entry("/count"@, Method::Get, api_scopes, "device.get"@),
        entry("/list"@, Method::Get, api_scopes, "device.get"@),
        entry("/{device_id}"@, Method::Get, api_scopes, "device.get"@),
        entry("/{device_id}"@, Method::Patch, api_scopes, "device.patch"@),
        entry("/{device_id}"@, Method::Delete, api_scopes, "device.delete"@),
    ]
}

/// The requirements of the authentication middleware for the device API (see
/// [`role_scopes_spec`]), from the configured scopes of the API keys.
pub fn role_scopes(api_scopes: &Vec<(String, Vec<String>)>) -> (t: Vec<RoleScope>)
    ensures
        role_scopes_view(t@) == role_scopes_spec(api_scopes@),
{
    let mut t: Vec<RoleScope> = Vec::new();
    proof {
        assert(role_scopes_view(t@) =~= Seq::<(Seq<char>, Method, Seq<Seq<char>>, Seq<Seq<char>>)>::empty());
    }
    push_role_scope(&mut t, role_scope("/", Method::Post, api_scopes, "device.post"));
    push_role_scope(&mut t, role_scope("/bulk", Method::Post, api_scopes, "device.post"));
    push_role_scope(&mut t, role_scope("/bulk-delete", Method::Post, api_scopes, "device.delete"));
    push_role_scope(&mut t, role_scope("/range", Method::Post, api_scopes, "device.post"));
    push_role_scope(&mut t, role_scope("/range-delete", Method::Post, api_scopes, "device.delete"));
    push_role_scope(&mut t, role_scope("/count", Method::Get, api_scopes, "device.get"));
    push_role_scope(&mut t, role_scope("/list", Method::Get, api_scopes, "device.get"));
    push_role_scope(&mut t, role_scope("/{device_id}", Method::Get, api_scopes, "device.get"));
    push_role_scope(&mut t, role_scope("/{device_id}", Method::Patch, api_scopes, "device.patch"));
    push_role_scope(&mut t, role_scope("/{device_id}", Method::Delete, api_scopes, "device.delete"));
    proof {
        assert(role_scopes_view(t@) =~= role_scopes_spec(api_scopes@));
    }
    t
}

} // verus!
