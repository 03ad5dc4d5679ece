//! Status-bar companion for a WeeChat daemon: hotlist counts, team listing and
//! workspace registration, with the decisions and classifications proved.
pub mod text;
pub mod relay;
pub mod models;
pub mod hotlist;
pub mod template;
pub mod command;
pub mod slack;
pub mod process;
pub mod service;
pub mod registration;
pub mod config;
pub mod health;
pub mod reports;
pub mod cli;
