//! The records that the gateway works on.

pub mod nmap_scan;
