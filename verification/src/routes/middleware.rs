//! The authorization decisions of the authentication middleware: whether the roles and the
//! scopes of a token allow an API, and the access token of an `Authorization` header.

use vstd::prelude::*;
use vstd::string::*;

use crate::corelib::push_char;
use crate::models::strs;
use crate::routes::{ApiError, ErrView};

verus! {

/// The user and the client of an access token, as the authentication service gives them.
#[derive(Debug)]
pub struct GetTokenInfoData {
    /// The access token.
    pub token: String,
    pub user_id: String,
    pub account: String,
    /// Each role once, with whether it is granted.
    pub roles: Vec<(String, bool)>,
    pub name: String,
    pub client_id: String,
    pub scopes: Vec<String>,
}

/// Whether one of the API's roles is granted by the token.
pub open spec fn role_allowed(api_roles: Seq<Seq<char>>, roles: Seq<(String, bool)>) -> bool {
    exists|i: int, j: int|
        0 <= i < api_roles.len() && 0 <= j < roles.len() && #[trigger] api_roles[i] == (
        #[trigger] roles[j]).0@ && roles[j].1
}

/// Whether one of the API's scopes is a scope of the token.
pub open spec fn scope_allowed(api_scopes: Seq<Seq<char>>, scopes: Seq<Seq<char>>) -> bool {
    exists|i: int, j: int|
        0 <= i < api_scopes.len() && 0 <= j < scopes.len() && #[trigger] api_scopes[i]
            == #[trigger] scopes[j]
}

/// The decision of the middleware on the roles and the scopes of a token, for an API that
/// requires some of `api_roles` (none required when empty) and some of `api_scopes` (none
/// required when empty).
pub open spec fn role_scope_spec(
    api_roles: Seq<Seq<char>>,
    api_scopes: Seq<Seq<char>>,
    roles: Seq<(String, bool)>,
    scopes: Seq<Seq<char>>,
) -> Result<(), ErrView> {
    if api_roles.len() > 0 && !role_allowed(api_roles, roles) {
        Err(ErrView::Perm("invalid role"@))
    } else if api_scopes.len() > 0 && !scope_allowed(api_scopes, scopes) {
        Err(ErrView::Perm("invalid scope"@))
    } else {
        Ok(())
    }
}

fn has_granted_role(role: &String, roles: &Vec<(String, bool)>) -> (r: bool)
    ensures
        r == exists|j: int| 0 <= j < roles.len() && role@ == (#[trigger] roles@[j]).0@ && roles@[j].1,
{
    let mut j: usize = 0;
    while j < roles.len()
        invariant
            j <= roles.len(),
            forall|k: int| 0 <= k < j ==> !(role@ == (#[trigger] roles@[k]).0@ && roles@[k].1),
        decreases roles.len() - j,
    {
        if roles[j].1 && roles[j].0 == *role {
            return true;
        }
        j += 1;
    }
    false
}

fn has_text(s: &String, v: &Vec<String>) -> (r: bool)
    ensures
        r == exists|j: int| 0 <= j < v.len() && s@ == (#[trigger] v@[j])@,
{
    let mut j: usize = 0;
    while j < v.len()
        invariant
            j <= v.len(),
            forall|k: int| 0 <= k < j ==> s@ != (#[trigger] v@[k])@,
        decreases v.len() - j,
    {
        if v[j] == *s {
            return true;
        }
        j += 1;
    }
    false
}

/// Checks the roles and the scopes of a token against those of an API (see
/// [`role_scope_spec`]); an API without roles and scopes for the request's method allows
/// every token.
pub fn check_role_scope(
    role_scope: &Option<(Vec<String>, Vec<String>)>,
    roles: &Vec<(String, bool)>,
    scopes: &Vec<String>,
) -> (r: Result<(), ApiError>)
    ensures
        match role_scope {
            None => r is Ok,
            Some(rs) => match role_scope_spec(strs(rs.0@), strs(rs.1@), roles@, strs(scopes@)) {
                Ok(_) => r is Ok,
                Err(ev) => r matches Err(e) && e@ == ev,
            },
        },
{
    let (api_roles, api_scopes) = match role_scope {
        None => return Ok(()),
        Some(rs) => (&rs.0, &rs.1),
    };
    if api_roles.len() > 0 {
        let mut found = false;
        let mut i: usize = 0;
        while i < api_roles.len()
            invariant
                i <= api_roles.len(),
                found == exists|a: int, j: int|
                    0 <= a < i && 0 <= j < roles.len() && #[trigger] strs(api_roles@)[a] == (
                    #[trigger] roles@[j]).0@ && roles@[j].1,
            decreases api_roles.len() - i,
        {
            if has_granted_role(&api_roles[i], roles) {
                found = true;
                proof {
                    let j = choose|j: int|
                        0 <= j < roles.len() && api_roles@[i as int]@ == (#[trigger] roles@[j]).0@
                            && roles@[j].1;
                    assert(strs(api_roles@)[i as int] == roles@[j].0@);
                }
            } else {
                proof {
                    assert forall|a: int, j: int|
                        0 <= a < i + 1 && 0 <= j < roles.len() && #[trigger] strs(api_roles@)[a]
                            == (#[trigger] roles@[j]).0@ implies !roles@[j].1 || a < i by {
                        if a == i && roles@[j].1 {
                            assert(api_roles@[i as int]@ == roles@[j].0@);
                        }
                    }
                }
            }
            i += 1;
        }
        if !found {
            return Err(ApiError::Perm(String::from_str("invalid role")));
        }
    }
    if api_scopes.len() > 0 {
        let mut found = false;
        let mut i: usize = 0;
        while i < api_scopes.len()
            invariant
                i <= api_scopes.len(),
                found == exists|a: int, j: int|
                    0 <= a < i && 0 <= j < scopes.len() && #[trigger] strs(api_scopes@)[a]
                        == #[trigger] strs(scopes@)[j],
            decreases api_scopes.len() - i,
        {
            if has_text(&api_scopes[i], scopes) {
                found = true;
                proof {
                    let j = choose|j: int|
                        0 <= j < scopes.len() && api_scopes@[i as int]@ == (#[trigger] scopes@[j])@;
                    assert(strs(api_scopes@)[i as int] == strs(scopes@)[j]);
                }
            } else {
                proof {
                    assert forall|a: int, j: int|
                        0 <= a < i + 1 && 0 <= j < scopes.len() && #[trigger] strs(api_scopes@)[a]
                            == #[trigger] strs(scopes@)[j] implies a < i by {
                        if a == i {
                            assert(api_scopes@[i as int]@ == scopes@[j]@);
                        }
                    }
                }
            }
            i += 1;
        }
        if !found {
            return Err(ApiError::Perm(String::from_str("invalid scope")));
        }
    }
    Ok(())
}

/// A white space character: one with the Unicode `White_Space` property, as
/// `char::is_whitespace` and `str::split_whitespace` take it.
pub open spec fn is_white(c: char) -> bool {
    ||| ('\u{9}' <= c && c <= '\u{d}')
    ||| c == ' '
    ||| c == '\u{85}'
    ||| c == '\u{a0}'
    ||| c == '\u{1680}'
    ||| ('\u{2000}' <= c && c <= '\u{200a}')
    ||| c == '\u{2028}'
    ||| c == '\u{2029}'
    ||| c == '\u{202f}'
    ||| c == '\u{205f}'
    ||| c == '\u{3000}'
}

fn white(c: char) -> (r: bool)
    ensures
        r == is_white(c),
{
    ('\u{9}' <= c && c <= '\u{d}') || c == ' ' || c == '\u{85}' || c == '\u{a0}' || c == '\u{1680}'
        || ('\u{2000}' <= c && c <= '\u{200a}') || c == '\u{2028}' || c == '\u{2029}' || c
        == '\u{202f}' || c == '\u{205f}' || c == '\u{3000}'
}

/// The words of a text, as `str::split_whitespace` gives them: the non-empty runs of
/// characters between white space.
pub open spec fn words(s: Seq<char>) -> Seq<Seq<char>>
    decreases s.len(),
{
    if s.len() == 0 {
        Seq::empty()
    } else {
        let prev = words(s.drop_last());
        if is_white(s.last()) {
            prev
        } else if s.len() >= 2 && !is_white(s[s.len() - 2]) {
            prev.update(prev.len() - 1, prev.last().push(s.last()))
        } else {
            prev.push(seq![s.last()])
        }
    }
}

/// A text that does not end in white space has words.
proof fn lemma_words_nonempty(s: Seq<char>)
    requires
        s.len() > 0,
        !is_white(s.last()),
    ensures
        words(s).len() > 0,
    decreases s.len(),
{
    let prev = words(s.drop_last());
    if s.len() >= 2 && !is_white(s[s.len() - 2]) {
        assert(s.drop_last().last() == s[s.len() - 2]);
        lemma_words_nonempty(s.drop_last());
    }
}

/// The text of the error for an `Authorization` header without a token.
pub open spec fn token_error_msg() -> Seq<char> {
    "parse token error"@
}

/// The access token of an `Authorization` header: its second word (the first being the
/// scheme, `Bearer`), or the error when there is none.
pub fn bearer_token(header: &str) -> (r: Result<String, ApiError>)
    ensures
        words(header@).len() >= 2 ==> (r matches Ok(t) && t@ == words(header@)[1]),
        words(header@).len() < 2 ==> (r matches Err(e) && e@ == ErrView::Unknown(token_error_msg())),
{
    let n = header.unicode_len();
    let mut ws: Vec<String> = Vec::new();
    let mut i: usize = 0;
    proof {
        assert(header@.take(0) =~= Seq::<char>::empty());
        assert(strs(ws@) =~= Seq::<Seq<char>>::empty());
    }
    while i < n
        invariant
            n == header@.len(),
            i <= n,
            strs(ws@) == words(header@.take(i as int)),
        decreases n - i,
    {
        let c = header.get_char(i);
        let ghost pre = header@.take(i as int);
        let ghost old_ws = ws@;
        proof {
            assert(header@.take(i + 1).drop_last() =~= pre);
            assert(header@.take(i + 1).last() == c);
        }
        if !white(c) {
            let cont = if i > 0 {
                let p = header.get_char(i - 1);
                proof {
                    assert(header@.take(i + 1)[i - 1] == p);
                }
                !white(p)
            } else {
                false
            };
            if cont {
                proof {
                    assert(pre.last() == header@[i - 1]);
                    lemma_words_nonempty(pre);
                }
                let last = ws.len() - 1;
                let mut w = ws[last].clone();
                push_char(&mut w, c);
                ws.set(last, w);
                proof {
                    assert(strs(ws@) =~= strs(old_ws).update(last as int, strs(old_ws)[last as int].push(c)));
                }
            } else {
                let mut w = String::new();
                push_char(&mut w, c);
                ws.push(w);
                proof {
                    assert(w@ =~= seq![c]);
                    assert(strs(ws@) =~= strs(old_ws).push(seq![c]));
                }
            }
        }
        i += 1;
    }
    proof {
        assert(header@.take(n as int) =~= header@);
    }
    if ws.len() < 2 {
        return Err(ApiError::Unknown(String::from_str("parse token error")));
    }
    Ok(ws[1].clone())
}

/// The access token of a request, given what reading its `Authorization` header gave (the
/// header's text, none without the header, or the error of reading it): a request without
/// the header is refused with `missing token`.
pub fn request_token(parsed: Result<Option<String>, ApiError>) -> (r: Result<String, ApiError>)
    ensures
        match parsed {
            Err(e) => r matches Err(x) && x@ == e@,
            Ok(None) => r matches Err(x) && x@ == ErrView::Param("missing token"@),
            Ok(Some(t)) => r matches Ok(s) && s@ == t@,
        },
{
    match parsed {
        Err(e) => Err(e),
        Ok(None) => Err(ApiError::Param(String::from_str("missing token"))),
        Ok(Some(t)) => Ok(t),
    }
}

/// What the authentication service's answer on a token means, by its status code `status`
/// (written `status_text`): 200 lets the request through, 401 refuses it as unauthorized,
/// any other status is an internal error that names it.
pub fn token_status(status: u16, status_text: &str) -> (r: Result<(), ApiError>)
    ensures
        status == 200 ==> r is Ok,
        status == 401 ==> (r matches Err(e) && e@ == ErrView::Auth),
        status != 200 && status != 401 ==> (r matches Err(e) && e@ == ErrView::IntMsg(
            "auth error with status code: "@ + status_text@,
        )),
{
    if status == 200 {
        Ok(())
    } else if status == 401 {
        Err(ApiError::Auth)
    } else {
        let mut msg = String::from_str("auth error with status code: ");
        msg.append(status_text);
        Err(ApiError::IntMsg(msg))
    }
}

} // verus!
