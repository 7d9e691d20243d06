//! Decision logic of a personal health assistant.
//!
//! Two engines are at its heart. The exam scheduler (`scheduler`) maps the
//! supplements in use and the latest lab dates to the exams that are due.
//! The message selector (`agent`) picks the one message the assistant shows
//! next, from the hour, today's adherence, the open exams and voice input.
//! Both are functions of what they are given: the clock, the store and the
//! network stay with the caller.
//!
//! What holds of every schedule and of every message is stated and proved
//! in `schedule_laws` and `agent_laws`. The other modules hold the records
//! and the smaller decisions around the engines.
//!
//! A few functions call the standard library or `chrono` for what they
//! alone can do: lowercasing and searching text (`text`), reading and
//! writing dates (`calendar`). Each of these calls stands in a function of
//! its own, marked `external_body`, whose contract is believed and not
//! proved.

pub mod actions;
pub mod adherence;
pub mod agent;
pub mod agent_laws;
pub mod calendar;
pub mod cartesia;
pub mod catalog;
pub mod envfile;
pub mod health;
pub mod ocr;
pub mod prompt;
pub mod schedule_laws;
pub mod scheduler;
pub mod setup;
pub mod system;
pub mod text;
pub mod vitamin_d;
pub mod whisper;
