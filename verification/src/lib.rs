pub mod text;
pub mod models;
pub mod error;
pub mod command;
pub mod session;
pub mod git;
pub mod github;
pub mod view;
pub mod guard;
pub mod survey;
pub mod batch;
pub mod rebase;
pub mod status;
pub mod checked_view;
pub mod workspace;
pub mod viewset;
pub mod setup;
pub mod views;
pub mod viewset_commands;
pub mod laws;
