//! A small web server's own logic: the fixed page served at the site root
//! and the settings under which the server binds and mounts its static files.
pub mod page;
pub mod config;
