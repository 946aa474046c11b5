//! Rules of a book-club service: replies of its HTTP endpoints, the single-use
//! login exchange with an identity provider, and the poll dialogue of its chat bot.
pub mod auth;
pub mod books;
pub mod clubs;
pub mod error;
pub mod open_library;
pub mod reply;
pub mod settings;
pub mod sqlite;
pub mod stamp;
pub mod statement;
pub mod telegram;
pub mod text;
pub mod users;
