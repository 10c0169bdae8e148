//! What each tool asks of the backends.

pub mod advanced_nmap_scan;
pub mod nmap_normal_scan;
pub mod openvas_create_target;
pub mod openvas_create_task;
pub mod openvas_get_report;
pub mod openvas_get_version;
pub mod openvas_list_configs;
pub mod openvas_start_task;
pub mod openvas_task_status;
