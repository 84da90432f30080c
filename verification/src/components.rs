//! Parts that several pages share.

pub mod protected_route;
