//! Route metadata as the operator's website publishes it, separate from
//! the feed's own route table.  The caller fetches and decodes the
//! JSON document; these types carry the decoded values.

use vstd::prelude::*;

verus! {

/// One route's metadata from the published route list.
#[derive(Clone, Debug, PartialEq, Eq)]
pub struct AmtrakRouteInfo {
    pub route_code: String,
    pub city_served: String,
    pub route_name: String,
}

/// The wrapper object of the published route list; only the list inside
/// is of interest.
#[derive(Clone, Debug, PartialEq, Eq)]
pub struct ParentToThrowAWay {
    pub routes_list: Vec<AmtrakRouteInfo>,
}

/// View of an [`AmtrakRouteInfo`].
#[verifier::ext_equal]
pub struct AmtrakRouteInfoV {
    pub route_code: Seq<char>,
    pub city_served: Seq<char>,
    pub route_name: Seq<char>,
}

impl DeepView for AmtrakRouteInfo {
    type V = AmtrakRouteInfoV;

    open spec fn deep_view(&self) -> AmtrakRouteInfoV {
        AmtrakRouteInfoV {
            route_code: self.route_code@,
            city_served: self.city_served@,
            route_name: self.route_name@,
        }
    }
}

impl DeepView for ParentToThrowAWay {
    type V = Seq<AmtrakRouteInfoV>;

    open spec fn deep_view(&self) -> Seq<AmtrakRouteInfoV> {
        self.routes_list.deep_view()
    }
}

} // verus!
