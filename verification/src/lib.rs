pub mod text;
pub mod scan;
pub mod decimal;
pub mod error;
pub mod version;
pub mod version_spec;
pub mod digest;
pub mod pattern;
pub mod cli;
pub mod options;
pub mod config;
pub mod gcc_config;
pub mod strmap;
pub mod build_state;
pub mod jobs;
pub mod layout;
pub mod scheduler;
pub mod mirror;
pub mod retry;
pub mod artifact_cache;
pub mod integrity;
pub mod download;
pub mod resolver;
pub mod binary_verifier;
pub mod post_install;
pub mod symlink_optimizer;
pub mod system;
pub mod directories;
pub mod driver;
pub mod files;
pub mod prerequisites;
pub mod summary;
pub mod environment;
pub mod pipeline;
pub mod commands;
pub mod dependencies;
pub mod packages;
pub mod build_cache;
pub mod memory_monitor;
pub mod auto_tuner;
pub mod suggestions;
