//! The logic of a terminal client for the V2EX forum.
//!
//! The client lists the topics of the forum's feed, opens a topic with its
//! replies, and counts for each reply how many replies address its author.
//! This crate holds what the client decides and computes: the router and
//! its pages, and the extractor that turns the bytes of the feed and the
//! text of a page into records. What reaches outside the process (the
//! terminal, the network, the browser) is the caller's: a step of the
//! router says what is to be done, and takes what came back.

pub mod action;
pub mod api;
pub mod app;
pub mod event;
pub mod feed;
pub mod model;
pub mod models;
pub mod pages;
pub mod rss;
pub mod scrape;
pub mod text;
pub mod threader;
pub mod time;
pub mod ui;
