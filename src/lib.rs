use vstd::prelude::*;

pub mod coap;
pub mod codec;
pub mod device;
pub mod error;
pub mod gnss;
pub mod manufacturing;
pub mod modem;
pub mod mobile_equipment;
pub mod mqtt;
pub mod network;
pub mod nvm;
pub mod pdp;
pub mod sim;
pub mod ssl_tls;
pub mod system_features;
pub mod types;
pub mod urc;

verus! {

} // verus!
