//! Verified core of FileDrop, a local Wi-Fi file transfer tool.
pub mod text;
pub mod hotspot;
pub mod protocol;
pub mod pages;
pub mod share;
pub mod integrity;
pub mod sync;
pub mod tui_state;
pub mod configurator;
pub mod config;
pub mod crypto;
pub mod certs;
pub mod server;
pub mod network;
pub mod share_http;
pub mod pairing;
pub mod discovery;
pub mod main_menu;
pub mod receiver;
pub mod sender;
pub mod sync_session;
pub mod dashboard;
pub mod screens;
pub mod zipper;
pub mod hotspot_setup;
pub mod installer;
pub mod cli;
pub mod qr;
