//! The prompts that the gateway offers.

pub mod list_scan_config_prompts;
