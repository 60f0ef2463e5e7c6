//! Verified core of a FreeSWITCH integration module: configuration rules,
//! event-type naming, event subscription filtering, command routing, CDR
//! posting decisions, the HTTP file cache bookkeeping and the XML
//! pre-processing directives.
pub mod text;
pub mod event_types;
pub mod sys;
pub mod directive;
pub mod preprocess;
pub mod listener;
pub mod paths;
pub mod cdr;
pub mod xml_fetch;
pub mod storage;
pub mod cache;
pub mod token;
pub mod json;
