use vstd::prelude::*;

use crate::state::{Route, RouteV};

verus! {

/// The errors surfaced by the router's handlers and validators. Every error
/// is terminal for the enclosing transaction: the host aborts the whole
/// message chain, which is the router's only rollback mechanism.
#[derive(Debug, PartialEq)]
pub enum RouterError {
    /// The route payload attached to the first deposit did not parse.
    MalformedRoute,
    /// A route must contain at least two hops.
    RouteTooShort,
    /// The inbound transfer does not match the expected token or amount.
    WrongAssetOrAmount,
    /// The caller is not the party this operation is reserved for.
    Unauthorized,
    /// The party delivering funds for a hop is not the legitimate
    /// counterparty of the previous hop.
    UnauthorizedRelay,
    /// A continuation arrived while no route is in flight.
    NoActiveRoute,
    /// A continuation arrived but the persisted route has no hops left.
    RouteExhausted,
    /// The final amount fell short of the route's minimum acceptable amount.
    SlippageExceeded,
    /// Finalization was requested while no route is in flight.
    NoRouteToFinalize,
    /// Finalization was requested while hops are still pending; carries the
    /// still-pending remaining route for diagnostics.
    RouteIncomplete(Route),
    /// A first hop arrived while another route is still in flight.
    RouteAlreadyActive,
}

/// The spec-level mirror of [`RouterError`].
pub enum RouterErrorV {
    MalformedRoute,
    RouteTooShort,
    WrongAssetOrAmount,
    Unauthorized,
    UnauthorizedRelay,
    NoActiveRoute,
    RouteExhausted,
    SlippageExceeded,
    NoRouteToFinalize,
    RouteIncomplete(RouteV),
    RouteAlreadyActive,
}

impl View for RouterError {
    type V = RouterErrorV;

    open spec fn view(&self) -> RouterErrorV {
        match self {
            RouterError::MalformedRoute => RouterErrorV::MalformedRoute,
            RouterError::RouteTooShort => RouterErrorV::RouteTooShort,
            RouterError::WrongAssetOrAmount => RouterErrorV::WrongAssetOrAmount,
            RouterError::Unauthorized => RouterErrorV::Unauthorized,
            RouterError::UnauthorizedRelay => RouterErrorV::UnauthorizedRelay,
            RouterError::NoActiveRoute => RouterErrorV::NoActiveRoute,
            RouterError::RouteExhausted => RouterErrorV::RouteExhausted,
            RouterError::SlippageExceeded => RouterErrorV::SlippageExceeded,
            RouterError::NoRouteToFinalize => RouterErrorV::NoRouteToFinalize,
            RouterError::RouteIncomplete(r) => RouterErrorV::RouteIncomplete(r@),
            RouterError::RouteAlreadyActive => RouterErrorV::RouteAlreadyActive,
        }
    }
}

/// The one-line description of each error, as the host shows it.
pub open spec fn message_spec(e: RouterErrorV) -> Seq<char> {
    match e {
        RouterErrorV::MalformedRoute => "route payload is malformed"@,
        RouterErrorV::RouteTooShort => "Route must have at least 2 hops."@,
        RouterErrorV::WrongAssetOrAmount => "Received crypto type or amount is wrong."@,
        RouterErrorV::Unauthorized => "Unauthorized"@,
        RouterErrorV::UnauthorizedRelay => "Unauthorized"@,
        RouterErrorV::NoActiveRoute => "cannot find route"@,
        RouterErrorV::RouteExhausted => "Route must be at least 1 hop."@,
        RouterErrorV::SlippageExceeded => "Operation fell short of minimum_acceptable_amount"@,
        RouterErrorV::NoRouteToFinalize => "no route to finalize"@,
        RouterErrorV::RouteIncomplete(_) => "cannot finalize: route still contains hops"@,
        RouterErrorV::RouteAlreadyActive => "another route is already in flight"@,
    }
}

impl RouterError {
    /// The one-line description of this error.
    pub fn message(&self) -> (s: String)
        ensures
            s@ == message_spec(self@),
    {
        match self {
            RouterError::MalformedRoute => "route payload is malformed".to_owned(),
            RouterError::RouteTooShort => "Route must have at least 2 hops.".to_owned(),
            RouterError::WrongAssetOrAmount => "Received crypto type or amount is wrong.".to_owned(),
            RouterError::Unauthorized => "Unauthorized".to_owned(),
            RouterError::UnauthorizedRelay => "Unauthorized".to_owned(),
            RouterError::NoActiveRoute => "cannot find route".to_owned(),
            RouterError::RouteExhausted => "Route must be at least 1 hop.".to_owned(),
            RouterError::SlippageExceeded => "Operation fell short of minimum_acceptable_amount"
                .to_owned(),
            RouterError::NoRouteToFinalize => "no route to finalize".to_owned(),
            RouterError::RouteIncomplete(_) => "cannot finalize: route still contains hops"
                .to_owned(),
            RouterError::RouteAlreadyActive => "another route is already in flight".to_owned(),
        }
    }
}

} // verus!
