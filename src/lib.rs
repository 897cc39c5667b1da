//! Platform-neutral core of a Bluetooth Low Energy central: the advertisement
//! codec, device identity, and the decision logic that turns the native
//! framework's callbacks into scan, connect and power-state results.

pub mod advertisement;
pub mod advertising;
pub mod bytes;
pub mod connection;
pub mod device;
pub mod error;
pub mod events;
pub mod scan;
pub mod service_uuid;

pub use advertisement::{AdvertisementData, ManufacturerData, ServiceData};
pub use device::{Device, DeviceId};
pub use error::{Error, ErrorKind};
pub use events::{AdapterEvent, BridgeItem, CentralEvent};
pub use scan::AdvertisingDevice;
pub use service_uuid::Uuid;
