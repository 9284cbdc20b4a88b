//! Verified core of the snapture screenshot annotation editor.

pub mod app;
pub mod capture;
pub mod editor;
pub mod error;
pub mod launch;
pub mod model;
pub mod services;
pub mod text;
pub mod tools;
pub mod ui;
