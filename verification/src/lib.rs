//! Provisioning of a Wi-Fi connection through the host's
//! network-management service.
//!
//! Given an SSID and a WPA-PSK password, the library decides which of the
//! devices reported by the service to use (the first wireless one), builds
//! the connection-profile payload for the service's "add and activate
//! connection" call, and classifies the call's result. The remote calls
//! themselves are inter-process I/O and live outside the library; callers
//! drive the scan step by step and hand every reply back as a plain value.

pub mod profile;
pub mod provision;
