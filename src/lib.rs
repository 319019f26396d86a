//! Production scheduling for custom-manufactured jobs: a business-day
//! calendar, lead-time arithmetic, milestone trackers and the gating rule
//! that decides whether a tentative schedule needs attention; around them,
//! job identifiers and notes, the paperwork pipeline, and the drawer-box
//! catalog.
pub mod calendar;
pub mod lead_time;
pub mod tracker;
pub mod tentative;
pub mod job;
pub mod drawer;
pub mod valen;
pub mod kbc;
pub mod text;
pub mod notes;
pub mod request;
pub mod scheduling;
pub mod schedule;
pub mod schedule_note;
