//! Checks of request fields shared by the v1 resources.

use vstd::prelude::*;
use vstd::string::*;

use crate::corelib::{code_spec, is_code, lowercase, parse_uri, to_lowercase, uri_parse};
use crate::models::{clone_pairs, opt_view, pairs};
use crate::routes::{param_err, ApiError, ErrView};

verus! {

/// The text of the parameter error for an invalid code.
pub open spec fn code_msg() -> Seq<char> {
    "`code` must be [A-Za-z0-9]{1}[A-Za-z0-9-_]*"@
}

/// The text of the parameter error for an invalid profile.
pub open spec fn profile_msg() -> Seq<char> {
    "`profile` must be [A-Za-z0-9]{1}[A-Za-z0-9-_]*"@
}

/// The text of the parameter error for an empty key of `info`.
pub open spec fn info_msg() -> Seq<char> {
    "`info` key must not be empty"@
}

/// The text of the parameter error of a change without any field.
pub open spec fn no_update_msg() -> Seq<char> {
    "at least one parameter"@
}

/// No key of the extra information is empty.
pub open spec fn info_keys_ok(info: Seq<(Seq<char>, Seq<char>)>) -> bool {
    forall|i: int| 0 <= i < info.len() ==> (#[trigger] info[i]).0.len() > 0
}

/// The view of optional extra information.
pub open spec fn opt_pairs(info: Option<Vec<(String, String)>>) -> Option<Seq<(Seq<char>, Seq<char>)>> {
    match info {
        None => None,
        Some(v) => Some(pairs(v@)),
    }
}

/// Given extra information is acceptable: none, or without an empty key.
pub open spec fn opt_info_ok(info: Option<Vec<(String, String)>>) -> bool {
    match info {
        None => true,
        Some(v) => info_keys_ok(pairs(v@)),
    }
}

/// Checks that no key of the given extra information is empty.
pub fn check_info(info: &Option<Vec<(String, String)>>) -> (r: Result<(), ApiError>)
    ensures
        r is Ok <==> opt_info_ok(*info),
        r matches Err(e) ==> e@ == ErrView::Param(info_msg()),
{
    match info {
        None => Ok(()),
        Some(v) => {
            let mut i: usize = 0;
            while i < v.len()
                invariant
                    i <= v.len(),
                    opt_info_ok(*info) == info_keys_ok(pairs(v@)),
                    forall|j: int| 0 <= j < i ==> (#[trigger] pairs(v@)[j]).0.len() > 0,
                decreases v.len() - i,
            {
                if v[i].0.as_str().is_empty() {
                    proof {
                        assert(pairs(v@)[i as int].0.len() == 0);
                        assert(!info_keys_ok(pairs(v@)));
                    }
                    return Err(param_err("`info` key must not be empty"));
                }
                i += 1;
            }
            Ok(())
        },
    }
}

/// Lower-cases a code and checks it: the lower-cased code, or the parameter error.
pub fn check_code(code: &str) -> (r: Result<String, ApiError>)
    ensures
        match r {
            Ok(c) => c@ == lowercase(code@) && code_spec(c@),
            Err(e) => !code_spec(lowercase(code@)) && e@ == ErrView::Param(code_msg()),
        },
{
    let c = to_lowercase(code);
    if !is_code(c.as_str()) {
        return Err(param_err("`code` must be [A-Za-z0-9]{1}[A-Za-z0-9-_]*"));
    }
    Ok(c)
}

/// A given profile is acceptable: none, empty, or a code.
pub open spec fn profile_ok(profile: Option<Seq<char>>) -> bool {
    match profile {
        None => true,
        Some(p) => p.len() == 0 || code_spec(p),
    }
}

/// Checks a given profile: it may be empty, else it must be a code.
pub fn check_profile(profile: &Option<String>) -> (r: Result<(), ApiError>)
    ensures
        r is Ok <==> profile_ok(opt_view(*profile)),
        r matches Err(e) ==> e@ == ErrView::Param(profile_msg()),
{
    match profile {
        None => Ok(()),
        Some(p) => {
            if !p.as_str().is_empty() && !is_code(p.as_str()) {
                return Err(param_err("`profile` must be [A-Za-z0-9]{1}[A-Za-z0-9-_]*"));
            }
            Ok(())
        },
    }
}

/// The value of an optional text, empty when absent.
pub open spec fn or_empty(s: Option<Seq<char>>) -> Seq<char> {
    match s {
        None => Seq::empty(),
        Some(s) => s,
    }
}

/// The value of an optional text, empty when absent.
pub fn text_or_empty(s: &Option<String>) -> (r: String)
    ensures
        r@ == or_empty(opt_view(*s)),
{
    match s {
        None => String::new(),
        Some(s) => s.clone(),
    }
}

/// The value of optional extra information, empty when absent.
pub open spec fn info_or_empty(info: Option<Vec<(String, String)>>) -> Seq<(Seq<char>, Seq<char>)> {
    match info {
        None => Seq::empty(),
        Some(v) => pairs(v@),
    }
}

/// The value of optional extra information, empty when absent.
pub fn info_or_empty_of(info: &Option<Vec<(String, String)>>) -> (r: Vec<(String, String)>)
    ensures
        pairs(r@) == info_or_empty(*info),
{
    match info {
        None => {
            let r: Vec<(String, String)> = Vec::new();
            proof {
                assert(pairs(r@) =~= Seq::<(Seq<char>, Seq<char>)>::empty());
            }
            r
        },
        Some(v) => clone_pairs(v),
    }
}

/// The schemes of the message queues that hold application and network managers.
pub open spec fn supported_scheme(s: Seq<char>) -> bool {
    s == "amqp"@ || s == "amqps"@ || s == "mqtt"@ || s == "mqtts"@
}

/// Whether a scheme is one of the message queue schemes.
pub fn is_supported_scheme(s: &String) -> (r: bool)
    ensures
        r == supported_scheme(s@),
{
    *s == String::from_str("amqp") || *s == String::from_str("amqps") || *s == String::from_str(
        "mqtt",
    ) || *s == String::from_str("mqtts")
}

/// The check of a host URI: it must parse, with a message queue scheme; the result is the
/// serialization of the parsed URI.
pub open spec fn host_uri_spec(uri: Seq<char>) -> Result<Seq<char>, ErrView> {
    match uri_parse(uri) {
        None => Err(ErrView::Param("invalid `hostUri`"@)),
        Some(p) => if supported_scheme(p.0) {
            Ok(p.1)
        } else {
            Err(ErrView::Param("unsupport `hostUri` scheme"@))
        },
    }
}

/// Checks a host URI (see [`host_uri_spec`]) and returns the parsed URI's serialization.
pub fn check_host_uri(uri: &str) -> (r: Result<String, ApiError>)
    ensures
        match host_uri_spec(uri@) {
            Ok(s) => r matches Ok(t) && t@ == s,
            Err(ev) => r matches Err(e) && e@ == ev,
        },
{
    match parse_uri(uri) {
        None => Err(param_err("invalid `hostUri`")),
        Some(p) => {
            if is_supported_scheme(&p.0) {
                Ok(p.1)
            } else {
                Err(param_err("unsupport `hostUri` scheme"))
            }
        },
    }
}

/// Whether a changed host URI differs from the present one. The changed URI is the
/// serialization of a parsed URI, which is parsed once more; `None` where that fails.
pub fn host_uri_changed(new_uri: &str, old_uri: &str) -> (r: Option<bool>)
    ensures
        match uri_parse(new_uri@) {
            None => r is None,
            Some(p) => r == Some(p.1 != old_uri@),
        },
{
    match parse_uri(new_uri) {
        None => None,
        Some(p) => Some(!(p.1 == String::from_str(old_uri))),
    }
}

/// The text of the parameter error for an empty field: the field's name between back quotes,
/// then `must with at least one character`.
pub open spec fn empty_field_msg(field: Seq<char>) -> Seq<char> {
    "`"@ + field + "` must with at least one character"@
}

/// The text of the parameter error for a missing field: `missing`, then the field's name
/// between back quotes.
pub open spec fn missing_field_msg(field: Seq<char>) -> Seq<char> {
    "missing `"@ + field + "`"@
}

/// Checks that a required text field is not empty.
pub fn check_non_empty(value: &str, field: &str) -> (r: Result<(), ApiError>)
    ensures
        value@.len() == 0 ==> (r matches Err(e) && e@ == ErrView::Param(empty_field_msg(field@))),
        value@.len() > 0 ==> r is Ok,
{
    if value.is_empty() {
        let mut msg = String::from_str("`");
        msg.append(field);
        msg.append("` must with at least one character");
        return Err(ApiError::Param(msg));
    }
    Ok(())
}

} // verus!
