//! A storage backend for note-taking applications.
//!
//! Each named collection of notes lives in its own git repository under a
//! per-user data folder.  Every collection carries a small JSON configuration
//! file that decides whether commits are authored with the identity from the
//! environment-wide git configuration or with an identity stored in the file
//! itself.  Notes are staged into the repository's index and committed with
//! full parent linkage, so the whole history of a collection is retained.

pub mod config;
pub mod error;
pub mod fsio;
pub mod gitio;
pub mod paths;
pub mod repo;
