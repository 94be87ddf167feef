//! A TCP forwarding proxy with Wake-on-LAN-assisted failover.
//!
//! The verified core of the proxy: mapping configuration and its
//! validation, Wake-on-LAN magic-packet construction, the wake-and-retry
//! connection state machine, and the byte-relay model. The surrounding
//! process (sockets, threads, timers, configuration file loading) drives
//! these components from outside.

pub mod config;
pub mod relay;
pub mod wake;
pub mod wol;

pub use config::Config;
pub use config::ConfigError;
pub use config::MacAddr;
pub use config::ProxyMapping;
pub use config::TargetAddr;
pub use config::TargetIp;
