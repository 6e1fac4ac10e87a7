//! The interchange document of a cubing competition, and the codecs of the
//! compact values in it.
//!
//! The document packs several things into single JSON scalars: the outcome
//! of an attempt into a signed integer ([`attempt_result`]), what a slot of
//! the schedule is for into a string with a small grammar
//! ([`activity_code`]), and persons and their tasks into strings of a fixed
//! shape ([`wca_id`], [`assignment`]). Each codec reads and writes such a
//! scalar, states in its contract which value each text or number stands
//! for, and proves that what it writes is read back.
//!
//! [`types`] holds the document itself, with [`groupifier`] and
//! [`delegate_dashboard`] for the data that two tools add to it, and
//! [`puzzle_types`] the events that a competition can hold. [`text`] has
//! the decimal numbers and the splitting that the string codecs share.
//! [`json`] and [`time`] declare what is taken from other libraries on
//! trust.

pub mod activity_code;
pub mod assignment;
pub mod attempt_result;
pub mod delegate_dashboard;
pub mod groupifier;
pub mod json;
pub mod puzzle_types;
pub mod text;
pub mod time;
pub mod types;
pub mod wca_id;
