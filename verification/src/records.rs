//! Rows of the console's tables, as the storage layer reads and writes them.
//! Timestamps are whole seconds since the Unix epoch.

use vstd::prelude::*;

verus! {

pub struct TbSite {
    pub id: Option<i64>,
    pub cluster_name: Option<String>,
    pub name: Option<String>,
    pub alt_names: Option<String>,
    pub root_dir: Option<String>,
    pub auto_index: bool,
    pub tls_on: bool,
    pub tls_enforce: bool,
    pub acme_on: bool,
    pub tls_cert: Option<String>,
    pub tls_cert_start_date: Option<i64>,
    pub tls_cert_end_date: Option<i64>,
    pub tls_private_key: Option<String>,
    pub rate_limit: Option<i64>,
    pub rate_limit_unit: Option<i64>,
    pub gmt_create: Option<i64>,
    pub gmt_modified: Option<i64>,
}

pub struct TbLocation {
    pub id: Option<i64>,
    pub site_id: Option<i64>,
    pub location: Option<String>,
    pub proxy: Option<i8>,
    pub protocol: Option<String>,
    pub sni: Option<String>,
    pub client_max_body_size: Option<i64>,
    pub connection_timeout: Option<i32>,
    pub read_timeout: Option<i32>,
    pub write_timeout: Option<i32>,
    pub idle_timeout: Option<i32>,
    pub rewrite: Option<String>,
    pub http_version: Option<String>,
    pub proxy_set_headers: Option<String>,
    pub proxy_add_headers: Option<String>,
    pub proxy_remove_headers: Option<String>,
    pub response_set_headers: Option<String>,
    pub response_add_headers: Option<String>,
    pub response_remove_headers: Option<String>,
    pub root_dir: Option<String>,
    pub auto_index: Option<i8>,
    pub gmt_create: Option<i64>,
    pub gmt_modified: Option<i64>,
}

pub struct TbBackend {
    pub id: Option<i64>,
    pub location_id: Option<i64>,
    pub host: Option<String>,
    pub port: Option<i32>,
    pub gmt_create: Option<i64>,
    pub gmt_modified: Option<i64>,
}

pub struct TbCluster {
    pub id: Option<i64>,
    pub name: Option<String>,
    pub security_key: Option<String>,
    pub enable: bool,
    pub enable_default_site: bool,
    pub enable_white_list: bool,
    pub enable_block_list: bool,
    pub description: Option<String>,
    pub gmt_create: Option<i64>,
    pub gmt_modified: Option<i64>,
}

pub struct TbClusterIpCidr {
    pub id: Option<i64>,
    pub cluster_name: Option<String>,
    pub ip: Option<String>,
    pub prefix_len: Option<i32>,
    /// The `type` column: which list the address belongs to.
    pub ip_type: Option<i8>,
    pub start_time: Option<i64>,
    pub end_time: Option<i64>,
    pub gmt_create: Option<i64>,
    pub gmt_modified: Option<i64>,
}

pub struct TbChangeLog {
    pub id: Option<i64>,
    pub cluster_name: Option<String>,
    pub log_type: Option<i32>,
    pub log_action: Option<i32>,
    pub data_id: Option<i64>,
    pub data: Option<String>,
    pub expire_second: Option<i32>,
    pub gmt_create: Option<i64>,
    pub gmt_modified: Option<i64>,
}

pub struct TbTask {
    pub id: Option<i64>,
    pub name: Option<String>,
    /// The `type` column: 1 for per-minute work, anything else for per-hour work.
    pub task_type: Option<i32>,
    pub last_time: Option<i64>,
    pub gmt_create: Option<i64>,
    pub gmt_modified: Option<i64>,
}

pub struct TbAigw {
    pub id: Option<i64>,
    pub cluster_name: Option<String>,
    pub ip: Option<String>,
    pub version: Option<String>,
    pub os_name: Option<String>,
    pub os_version: Option<String>,
    pub os_arch: Option<String>,
    pub cpu_name: Option<String>,
    pub cpu_vendor: Option<String>,
    pub cpu_frequency: Option<i64>,
    pub cpu_nums: Option<i32>,
    pub gmt_create: Option<i64>,
    pub gmt_modified: Option<i64>,
}

pub struct TbSession {
    pub id: Option<i64>,
    pub user: Option<String>,
    pub email: Option<String>,
    pub login_ip: Option<String>,
    pub token: Option<String>,
    pub gmt_create: Option<i64>,
    pub gmt_modified: Option<i64>,
}

pub struct TbConsole {
    pub id: Option<i64>,
    pub host: Option<String>,
    pub port: Option<i32>,
    pub last_active_time: Option<i64>,
    pub gmt_create: Option<i64>,
    pub gmt_modified: Option<i64>,
}

pub struct TbUser {
    pub id: Option<i64>,
    pub name: Option<String>,
    pub email: Option<String>,
    pub password: Option<String>,
    pub real_name: Option<String>,
    pub ext_info: Option<String>,
    pub gmt_create: Option<i64>,
    pub gmt_modified: Option<i64>,
}

pub struct TbLock {
    pub id: Option<i64>,
    pub lock_key: Option<String>,
    pub host: Option<String>,
    pub expires_at: Option<i64>,
    pub gmt_create: Option<i64>,
    pub gmt_modified: Option<i64>,
}

/// A row of per-gateway traffic counters.
pub struct TbAnalyticsTraffic {
    pub id: Option<i64>,
    pub cluster_name: Option<String>,
    pub ip: Option<String>,
    pub pv: Option<u64>,
    pub tls: Option<u64>,
    pub http_country: Option<String>,
    pub http_code: Option<String>,
    pub http_source: Option<String>,
    pub gmt_create: Option<i64>,
    pub gmt_modified: Option<i64>,
}

/// A row of per-cluster traffic counters (per minute, or per hour).
pub struct TbAnalyticsTrafficCluster {
    pub id: Option<i64>,
    pub cluster_name: Option<String>,
    pub pv: Option<u64>,
    pub tls: Option<u64>,
    pub http_country: Option<String>,
    pub http_code: Option<String>,
    pub http_source: Option<String>,
    pub gmt_create: Option<i64>,
    pub gmt_modified: Option<i64>,
}

} // verus!
