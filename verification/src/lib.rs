//! Synchronisation core of a film-tracking client: a schema-tolerant
//! configuration store, a listing-page harvester, a cancellable transfer
//! state machine and a dotted-version comparator.

pub mod config;
pub mod config_manager;
pub mod decimal;
pub mod encoding;
pub mod html;
pub mod http;
pub mod import_log;
pub mod json;
pub mod merge;
pub mod models;
pub mod pattern;
pub mod schema;
pub mod scrapers;
pub mod services;
pub mod text;
pub mod timestamp;
pub mod utils;
pub mod version;

pub use config::{
    AppConfig, AppInfo, CacheConfig, DatabaseConfig, ScraperConfig, UpdateConfig, WindowConfig,
};
pub use config_manager::ConfigManager;
pub use models::{ApiResponse, FileInfo, StorageInfo};
pub use scrapers::douban::{DoubanMovie, DoubanScraper};
pub use services::{
    DownloadProgress, StorageService, TransferJob, UpdateCheckResult, UpdateInfo, UpdateService,
};
