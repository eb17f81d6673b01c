//! devenv: the rules of a bootstrapper for a Windows development
//! workstation.
//!
//! The program finds MinGW64, PostgreSQL and Node.js, records where each
//! one is in a small file of the working directory, puts their executables
//! on the user's persistent `PATH`, writes a batch script that prepares a
//! terminal session, and runs the PostgreSQL utilities.
//!
//! This library holds every decision of that program and none of its
//! effects. Paths and texts are plain strings. A command is a [`flow::Flow`]:
//! it hands out one [`request::Step`] at a time, and the caller prints what
//! the step says, carries out its request and answers with a
//! [`request::Reply`].
//!
//! - [`text`]: white space, quotes, letter case, `;`-separated lists, paths
//! - [`config`]: the records of the tools' locations
//! - [`path`]: the user's `PATH`
//! - [`tools`]: the three tools and how each is found
//! - [`postgres`]: the PostgreSQL operations
//! - [`script`]: the text of `setup-env.bat`
//! - [`ui`]: the usage reference and the report of the configured tools
//! - [`request`]: requests, replies and steps
//! - [`flow`]: the commands, step by step
//! - [`cli`]: from the command line to a flow

pub mod cli;
pub mod config;
pub mod flow;
pub mod path;
pub mod postgres;
pub mod request;
pub mod script;
pub mod text;
pub mod tools;
pub mod ui;
