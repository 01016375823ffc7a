//! Locates the validator most likely producing the current slot and the
//! service region nearest to it.

pub mod contact;
pub mod geo;
pub mod leader;
pub mod locator;

pub use contact::{get_closest_zela_server_region, ContactInfo, SocketAddress};
pub use geo::{IpAddress, LeaderGeo, ZelaServerRegion};
pub use leader::{select_probable_leader, LocateError};
pub use locator::{LeaderLocator, Output};
