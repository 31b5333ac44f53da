//! Resources shared by all routes: error replies, version queries and the v1 API.

pub mod middleware;
pub mod v1;

use vstd::prelude::*;
use vstd::string::*;

verus! {

/// The sylvia-iot module specific error codes in addition to the standard errors.
pub struct ErrReq;

impl ErrReq {
    pub const APPLICATION_EXIST: (u16, &'static str) = (400, "err_broker_application_exist");
    pub const APPLICATION_NOT_EXIST: (u16, &'static str) = (400, "err_broker_application_not_exist");
    pub const DEVICE_NOT_EXIST: (u16, &'static str) = (400, "err_broker_device_not_exist");
    pub const MEMBER_NOT_EXIST: (u16, &'static str) = (400, "err_broker_member_not_exist");
    pub const NETWORK_ADDR_EXIST: (u16, &'static str) = (400, "err_broker_network_addr_exist");
    pub const NETWORK_EXIST: (u16, &'static str) = (400, "err_broker_network_exist");
    pub const NETWORK_NOT_EXIST: (u16, &'static str) = (400, "err_broker_network_not_exist");
    pub const OWNER_NOT_EXIST: (u16, &'static str) = (400, "err_broker_owner_not_exist");
    pub const ROUTE_EXIST: (u16, &'static str) = (400, "err_broker_route_exist");
    pub const UNIT_EXIST: (u16, &'static str) = (400, "err_broker_unit_exist");
    pub const UNIT_NOT_EXIST: (u16, &'static str) = (400, "err_broker_unit_not_exist");
    pub const UNIT_NOT_MATCH: (u16, &'static str) = (400, "err_broker_unit_not_match");
}

/// The broker specific request errors, one for each code of [`ErrReq`].
#[derive(PartialEq, Eq, Structural, Clone, Copy, Debug)]
pub enum BrokerReq {
    ApplicationExist,
    ApplicationNotExist,
    DeviceNotExist,
    MemberNotExist,
    NetworkAddrExist,
    NetworkExist,
    NetworkNotExist,
    OwnerNotExist,
    RouteExist,
    UnitExist,
    UnitNotExist,
    UnitNotMatch,
}

/// The error code of a broker specific error.
pub open spec fn req_code(r: BrokerReq) -> Seq<char> {
    match r {
        BrokerReq::ApplicationExist => "err_broker_application_exist"@,
        BrokerReq::ApplicationNotExist => "err_broker_application_not_exist"@,
        BrokerReq::DeviceNotExist => "err_broker_device_not_exist"@,
        BrokerReq::MemberNotExist => "err_broker_member_not_exist"@,
        BrokerReq::NetworkAddrExist => "err_broker_network_addr_exist"@,
        BrokerReq::NetworkExist => "err_broker_network_exist"@,
        BrokerReq::NetworkNotExist => "err_broker_network_not_exist"@,
        BrokerReq::OwnerNotExist => "err_broker_owner_not_exist"@,
        BrokerReq::RouteExist => "err_broker_route_exist"@,
        BrokerReq::UnitExist => "err_broker_unit_exist"@,
        BrokerReq::UnitNotExist => "err_broker_unit_not_exist"@,
        BrokerReq::UnitNotMatch => "err_broker_unit_not_match"@,
    }
}

impl BrokerReq {
    /// The HTTP status and the error code of this error.
    pub fn code(&self) -> (c: (u16, &'static str))
        ensures
            c.0 == 400,
            c.1@ == req_code(*self),
    {
        match self {
            BrokerReq::ApplicationExist => ErrReq::APPLICATION_EXIST,
            BrokerReq::ApplicationNotExist => ErrReq::APPLICATION_NOT_EXIST,
            BrokerReq::DeviceNotExist => ErrReq::DEVICE_NOT_EXIST,
            BrokerReq::MemberNotExist => ErrReq::MEMBER_NOT_EXIST,
            BrokerReq::NetworkAddrExist => ErrReq::NETWORK_ADDR_EXIST,
            BrokerReq::NetworkExist => ErrReq::NETWORK_EXIST,
            BrokerReq::NetworkNotExist => ErrReq::NETWORK_NOT_EXIST,
            BrokerReq::OwnerNotExist => ErrReq::OWNER_NOT_EXIST,
            BrokerReq::RouteExist => ErrReq::ROUTE_EXIST,
            BrokerReq::UnitExist => ErrReq::UNIT_EXIST,
            BrokerReq::UnitNotExist => ErrReq::UNIT_NOT_EXIST,
            BrokerReq::UnitNotMatch => ErrReq::UNIT_NOT_MATCH,
        }
    }
}

/// An error reply of the API.
#[derive(Debug)]
pub enum ApiError {
    /// 401, the token is not authorized.
    Auth,
    /// 400, a parameter is invalid, with the reason.
    Param(String),
    /// 404, the resource in the path does not exist.
    NotFound,
    /// 403, the permission is invalid, with the reason.
    Perm(String),
    /// 500, an unknown error, with the reason.
    Unknown(String),
    /// 400, a broker specific error.
    Req(BrokerReq),
    /// 503, a database error, with its text.
    Db(String),
    /// 503, an error of the internal messages (such as a call of another service), with its
    /// text.
    IntMsg(String),
}

/// The mathematical value of an [`ApiError`].
pub enum ErrView {
    Auth,
    Param(Seq<char>),
    NotFound,
    Perm(Seq<char>),
    Unknown(Seq<char>),
    Req(BrokerReq),
    Db(Seq<char>),
    IntMsg(Seq<char>),
}

impl View for ApiError {
    type V = ErrView;

    open spec fn view(&self) -> ErrView {
        match self {
            ApiError::Auth => ErrView::Auth,
            ApiError::Param(m) => ErrView::Param(m@),
            ApiError::NotFound => ErrView::NotFound,
            ApiError::Perm(m) => ErrView::Perm(m@),
            ApiError::Unknown(m) => ErrView::Unknown(m@),
            ApiError::Req(r) => ErrView::Req(*r),
            ApiError::Db(m) => ErrView::Db(m@),
            ApiError::IntMsg(m) => ErrView::IntMsg(m@),
        }
    }
}

/// A parameter error with the given text.
pub fn param_err(msg: &str) -> (e: ApiError)
    ensures
        e@ == ErrView::Param(msg@),
{
    ApiError::Param(String::from_str(msg))
}

/// Query parameters for `GET /version`.
#[derive(Debug)]
pub struct GetVersionQuery {
    pub q: Option<String>,
}

/// What `GET /version` answers.
#[derive(PartialEq, Eq, Structural, Clone, Copy, Debug)]
pub enum VersionReply {
    /// The service name as plain text.
    Name,
    /// The service version as plain text.
    Version,
    /// The name and the version as JSON.
    Both,
}

/// Decides the reply of `GET /version`: `q=name` gives the name, `q=version` the version,
/// anything else both.
pub fn get_version(query: &GetVersionQuery) -> (r: VersionReply)
    ensures
        r == (match query.q {
            Some(q) => if q@ == "name"@ {
                VersionReply::Name
            } else if q@ == "version"@ {
                VersionReply::Version
            } else {
                VersionReply::Both
            },
            None => VersionReply::Both,
        }),
{
    match &query.q {
        None => VersionReply::Both,
        Some(q) => {
            if *q == String::from_str("name") {
                VersionReply::Name
            } else if *q == String::from_str("version") {
                VersionReply::Version
            } else {
                VersionReply::Both
            }
        },
    }
}

/// The scope root path of the service: an empty path means `/`.
pub fn scope_root(scope_path: &'static str) -> (r: &'static str)
    ensures
        scope_path@.len() == 0 ==> r@ == "/"@,
        scope_path@.len() != 0 ==> r == scope_path,
{
    if scope_path.is_empty() {
        "/"
    } else {
        scope_path
    }
}

} // verus!
