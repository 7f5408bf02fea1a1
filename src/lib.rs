//! A link shortener that tracks scans: an in-memory store of short links,
//! devices, users and scan events, and the request handlers over it.

pub mod clock;
pub mod config;
pub mod db;
pub mod error;
pub mod handlers;
pub mod ids;
pub mod laws;
pub mod table;
pub mod text;

pub use clock::Timestamp;
pub use config::Config;
pub use db::{
    CreateShortenRequest, CreateShortenResponse, Database, DbView, Device, Scan, ShortLink, User,
    UserForm,
};
pub use error::AppError;
pub use table::{Record, Table};
