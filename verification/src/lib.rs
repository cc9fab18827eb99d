//! A durable, resumable pipeline that installs a requested audio track on
//! a broadcasting channel. A request is driven step by step: the index is
//! searched for a release, its torrent descriptor is fetched and handed to
//! a torrent engine, the download is watched, the file that holds the
//! track is uploaded to the broadcast backend and attached to a channel.
//!
//! What is persisted of a request, and how its presence pattern projects
//! to the next step, is in [`state`]; what each step decides once its
//! collaborator has answered is in [`transitions`]. A [`run`] takes a
//! request from its stored state to its end: it hands out the commands of
//! [`protocol`] and takes back what came of them, so that whoever drives
//! it does the waiting. [`executions`] states what holds of every run on
//! a store. [`processor`] is the entry, [`creation`] writes a new request,
//! and [`controller`] keeps one task to a request.
//!
//! The records live in a key/value area, named as [`storage`] says;
//! [`in_memory`] is such an area. [`torrent_parser`] reads the files out
//! of a descriptor, [`text`] matches titles against their names, and
//! [`search`] ranks what the index finds. [`playlist`] tells which tracks
//! of a whole playlist are new.

pub mod adapters;
pub mod config;
pub mod controller;
pub mod creation;
pub mod executions;
pub mod ids;
pub mod in_memory;
pub mod playlist;
pub mod processor;
pub mod protocol;
pub mod run;
pub mod search;
pub mod state;
pub mod storage;
pub mod text;
pub mod torrent_parser;
pub mod track_fetcher;
pub mod track_fetcher_by_url;
pub mod transitions;
