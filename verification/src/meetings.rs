//! Meetings: the checks that a submitted meeting has to pass before it is
//! created.

pub mod clock;
pub mod context;
pub mod creation;
pub mod text;

pub use clock::{date_from_str, time_from_str, ClockTime, Date, Moment};
pub use context::{MeetingCreationContext, Semester};
pub use creation::{FinishForm, FormField, MeetingDraft, Problem, Rejection};
pub use text::trimmed;
