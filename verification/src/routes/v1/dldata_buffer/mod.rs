//! The downlink data buffer API: `/api/v1/dldata-buffer`.

pub mod api;
pub mod request;
pub mod response;

use vstd::prelude::*;
use vstd::string::*;

use crate::routes::v1::lib::{
    entry, push_role_scope, role_scope, role_scopes_view, Method, RoleScope,
};

verus! {

/// What the authentication middleware requires of a token for each path and method of the
/// downlink data buffer API: the scopes configured for the API's keys (`dldata-buffer.get`, ...), none
/// when a key is not configured.
pub open spec fn role_scopes_spec(api_scopes: Seq<(String, Vec<String>)>) -> Seq<(Seq<char>, Method, Seq<Seq<char>>, Seq<Seq<char>>)> {
    seq![
        entry("/count"@, Method::Get, api_scopes, "dldata-buffer.get"@),
        entry("/list"@, Method::Get, api_scopes, "dldata-buffer.get"@),
        entry("/:data_id"@, Method::Get, api_scopes, "dldata-buffer.get"@),
        entry("/:data_id"@, Method::Patch, api_scopes, "dldata-buffer.patch"@),
        entry("/:data_id"@, Method::Delete, api_scopes, "dldata-buffer.delete"@),
    ]
}

/// The requirements of the authentication middleware for the downlink data buffer API (see
/// [`role_scopes_spec`]), from the configured scopes of the API keys.
pub fn role_scopes(api_scopes: &Vec<(String, Vec<String>)>) -> (t: Vec<RoleScope>)
    ensures
        role_scopes_view(t@) == role_scopes_spec(api_scopes@),
{
    let mut t: Vec<RoleScope> = Vec::new();
    proof {
        assert(role_scopes_view(t@) =~= Seq::<(Seq<char>, Method, Seq<Seq<char>>, Seq<Seq<char>>)>::empty());
    }
    push_role_scope(&mut t, role_scope("/count", Method::Get, api_scopes, "dldata-buffer.get"));
    push_role_scope(&mut t, role_scope("/list", Method::Get, api_scopes, "dldata-buffer.get"));
    push_role_scope(&mut t, role_scope("/:data_id", Method::Get, api_scopes, "dldata-buffer.get"));
    push_role_scope(&mut t, role_scope("/:data_id", Method::Patch, api_scopes, "dldata-buffer.patch"));
    push_role_scope(&mut t, role_scope("/:data_id", Method::Delete, api_scopes, "dldata-buffer.delete"));
    proof {
        assert(role_scopes_view(t@) =~= role_scopes_spec(api_scopes@));
    }
    t
}

} // verus!
