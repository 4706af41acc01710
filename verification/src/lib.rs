//! Which AWS profile and region a shell prompt should show, and for how long
//! the credentials behind them stay valid.
//!
//! The crate reads neither the environment, nor the clock, nor any file
//! itself.  A caller hands it the environment in a [`context::Context`] and
//! the options in a [`config::AwsConfig`], and calls [`aws::module`] with a
//! [`files::FileCache`] and the time.  The answer is either the finished
//! [`aws::AwsModule`], the decision to show nothing, or a
//! [`files::FileRequest`] that names one file whose text has to be put into
//! the cache before the question can be settled.
//!
//! Four outside crates do work of which nothing is proved here: `rust-ini`
//! reads the configuration files, `serde_json` the cached token, `sha1`
//! names the token's file, and `chrono` reads timestamps.  Each
//! call into them stands in a function marked `external_body`, in the module
//! that needs it, under a contract that says what is taken on trust.
//! Everything else is verified, and [`laws`] states what holds of every pass.
pub mod text;
pub mod table;
pub mod context;
pub mod config;
pub mod files;
pub mod ini_file;
pub mod json;
pub mod digest;
pub mod time;
pub mod aws;
pub mod laws;
