//! Checking a submitted meeting creation form.

use vstd::prelude::*;
use vstd::string::StringExecFns;
use super::clock::{date_from_str, parse_date, parse_time, time_from_str, ClockTime, Date, Moment};
use super::context::MeetingCreationContext;
use super::text::{trim, trimmed, unless_empty};
use crate::error::TelescopeError;

verus! {

/// What a user submits to create a meeting, as far as the checks read it.
#[derive(Debug)]
pub struct FinishForm {
    /// Selected semester ID.
    pub semester: String,
    /// The meeting title; may be empty.
    pub title: String,
    /// The day the meeting starts on.
    pub start_date: Date,
    /// The time the meeting starts at, as hours and minutes: `%H:%M`.
    pub start_time: String,
    /// The day the meeting ends on.
    pub end_date: Date,
    /// The time the meeting ends at, as hours and minutes: `%H:%M`.
    pub end_time: String,
    /// The markdown description of the meeting; may be empty.
    pub description: String,
    pub is_remote: Option<bool>,
    pub location: Option<String>,
    pub is_draft: Option<bool>,
}

/// A meeting that passed the checks, ready to be created.
#[derive(Debug)]
pub struct MeetingDraft {
    /// The title, unless it was left blank.
    pub title: Option<String>,
    /// When the meeting starts, in local time.
    pub start: Moment,
    /// When the meeting ends, in local time.
    pub end: Moment,
    /// The description without the white space around it.
    pub description: String,
    pub is_draft: bool,
    pub is_remote: bool,
    /// The location without the white space around it, unless it was left
    /// blank.
    pub location: Option<String>,
}

/// A field of the form that an issue can be reported on.
#[derive(Debug, Clone, Copy, PartialEq, Eq, Structural)]
pub enum FormField {
    StartDate,
    EndDate,
    EndTime,
}

/// The kind of thing that keeps a meeting from being created.
#[derive(Debug, Clone, Copy, PartialEq, Eq, Structural)]
pub enum Problem {
    /// The form is malformed. It is answered as a bad request.
    BadRequest,
    /// The context is unusable: it holds a semester date that cannot be
    /// read.
    BrokenContext,
    /// The form goes back to the user with an issue on one field.
    Issue(FormField),
}

/// Why a meeting is not created.
#[derive(Debug)]
pub struct Rejection {
    pub problem: Problem,
    /// What to tell about it.
    pub message: String,
}

/// The header under which a malformed form is reported.
pub const MALFORMED_FORM: &'static str = "Malformed Meeting Creation Form";

/// What is appended to a time of hours and minutes before it is read.
pub const NO_SECONDS: &'static str = ":00";

impl FormField {
    /// The field's name in the form.
    pub open spec fn key(self) -> Seq<char> {
        match self {
            FormField::StartDate => "start_date"@,
            FormField::EndDate => "end_date"@,
            FormField::EndTime => "end_time"@,
        }
    }

    /// The field's name in the form.
    pub fn name(&self) -> (name: &'static str)
        ensures
            name@ == self.key(),
    {
        match self {
            FormField::StartDate => "start_date",
            FormField::EndDate => "end_date",
            FormField::EndTime => "end_time",
        }
    }
}

impl Rejection {
    /// The error that a malformed form is answered with. Other rejections
    /// have none.
    pub fn bad_request(&self) -> (error: Option<TelescopeError>)
        ensures
            match error {
                Some(TelescopeError::BadRequest { header, message }) => {
                    &&& self.problem is BadRequest
                    &&& header@ == MALFORMED_FORM@
                    &&& message == self.message
                },
                Some(_) => false,
                None => self.problem !is BadRequest,
            },
    {
        match self.problem {
            Problem::BadRequest => Some(
                TelescopeError::bad_request(MALFORMED_FORM.to_owned(), self.message.clone()),
            ),
            _ => None,
        }
    }
}

/// What a rejection says.
pub open spec fn said(rejection: Rejection) -> (Problem, Seq<char>) {
    (rejection.problem, rejection.message@)
}

/// What keeps the dates of a meeting from being accepted, given what was
/// read of the semester's first and last day. The checks are made in this
/// order, and the first that fails is reported.
pub open spec fn date_problem(
    start: Date,
    end: Date,
    semester_start: Option<Date>,
    semester_end: Option<Date>,
) -> Option<(Problem, Seq<char>)> {
    match (semester_start, semester_end) {
        (None, _) => Some((Problem::BrokenContext, "Semester from context has good start date."@)),
        (Some(_), None) => Some(
            (Problem::BrokenContext, "Semester from context has good end date."@),
        ),
        (Some(first), Some(last)) => {
            if start.is_before(first) {
                Some(
                    (
                        Problem::Issue(FormField::StartDate),
                        "Start date is before the semester starts."@,
                    ),
                )
            } else if last.is_before(start) {
                Some(
                    (Problem::Issue(FormField::StartDate), "Start date is after the semester ends."@),
                )
            } else if end.is_before(first) {
                Some(
                    (Problem::Issue(FormField::EndDate), "End date is before the semester starts."@),
                )
            } else if last.is_before(end) {
                Some((Problem::Issue(FormField::EndDate), "End date is after the semester ends."@))
            } else if end.is_before(start) {
                Some((Problem::Issue(FormField::EndDate), "End date is before start date."@))
            } else {
                None
            }
        },
    }
}

/// The moments at which a meeting starts and ends, given what was read of
/// its two times of day; or what keeps them from being accepted.
pub open spec fn moments(
    start_date: Date,
    end_date: Date,
    start_time: Result<ClockTime, Seq<char>>,
    end_time: Result<ClockTime, Seq<char>>,
) -> Result<(Moment, Moment), (Problem, Seq<char>)> {
    match start_time {
        Err(reason) => Err(
            (Problem::BadRequest, "Could not parse start time. Internal error: "@ + reason),
        ),
        Ok(start_time) => match end_time {
            Err(reason) => Err(
                (Problem::BadRequest, "Could not parse end time. Internal error: "@ + reason),
            ),
            Ok(end_time) => {
                let start = Moment { date: start_date, time: start_time };
                let end = Moment { date: end_date, time: end_time };
                if end.is_before(start) {
                    Err((Problem::Issue(FormField::EndTime), "End time is before start time."@))
                } else {
                    Ok((start, end))
                }
            },
        },
    }
}

/// The outcome of reading a time of day, with the reason by its text.
pub open spec fn read_time(time: Result<ClockTime, String>) -> Result<ClockTime, Seq<char>> {
    match time {
        Ok(time) => Ok(time),
        Err(reason) => Err(reason@),
    }
}

/// A rejection with the message `message`.
fn reject(problem: Problem, message: &str) -> (rejection: Rejection)
    ensures
        said(rejection) == (problem, message@),
{
    Rejection { problem, message: message.to_owned() }
}

/// Checks the dates of a meeting against the first and last day of its
/// semester, as far as those could be read.
pub fn check_dates(
    start: Date,
    end: Date,
    semester_start: Option<Date>,
    semester_end: Option<Date>,
) -> (rejection: Option<Rejection>)
    ensures
        match rejection {
            Some(rejection) => date_problem(start, end, semester_start, semester_end) == Some(
                said(rejection),
            ),
            None => date_problem(start, end, semester_start, semester_end) is None,
        },
{
    let first = match semester_start {
        Some(first) => first,
        None => {
            return Some(
                reject(Problem::BrokenContext, "Semester from context has good start date."),
            );
        },
    };
    let last = match semester_end {
        Some(last) => last,
        None => {
            return Some(reject(Problem::BrokenContext, "Semester from context has good end date."));
        },
    };
    if start.before(&first) {
        Some(
            reject(
                Problem::Issue(FormField::StartDate),
                "Start date is before the semester starts.",
            ),
        )
    } else if last.before(&start) {
        Some(reject(Problem::Issue(FormField::StartDate), "Start date is after the semester ends."))
    } else if end.before(&first) {
        Some(reject(Problem::Issue(FormField::EndDate), "End date is before the semester starts."))
    } else if last.before(&end) {
        Some(reject(Problem::Issue(FormField::EndDate), "End date is after the semester ends."))
    } else if end.before(&start) {
        Some(reject(Problem::Issue(FormField::EndDate), "End date is before start date."))
    } else {
        None
    }
}

/// Puts the dates of a meeting together with its times of day, as far as
/// those could be read, and checks that the meeting does not end before it
/// starts.
pub fn check_times(
    start_date: Date,
    end_date: Date,
    start_time: Result<ClockTime, String>,
    end_time: Result<ClockTime, String>,
) -> (checked: Result<(Moment, Moment), Rejection>)
    ensures
        match checked {
            Ok(times) => moments(start_date, end_date, read_time(start_time), read_time(end_time))
                == Ok::<(Moment, Moment), (Problem, Seq<char>)>(times),
            Err(rejection) => moments(
                start_date,
                end_date,
                read_time(start_time),
                read_time(end_time),
            ) == Err::<(Moment, Moment), (Problem, Seq<char>)>(said(rejection)),
        },
{
    let start_time = match start_time {
        Ok(time) => time,
        Err(reason) => {
            let message = String::from_str("Could not parse start time. Internal error: ").concat(
                reason.as_str(),
            );
            return Err(Rejection { problem: Problem::BadRequest, message });
        },
    };
    let end_time = match end_time {
        Ok(time) => time,
        Err(reason) => {
            let message = String::from_str("Could not parse end time. Internal error: ").concat(
                reason.as_str(),
            );
            return Err(Rejection { problem: Problem::BadRequest, message });
        },
    };
    let start = Moment { date: start_date, time: start_time };
    let end = Moment { date: end_date, time: end_time };
    if end.before(&start) {
        Err(reject(Problem::Issue(FormField::EndTime), "End time is before start time."))
    } else {
        Ok((start, end))
    }
}

/// What keeps a meeting from being created once a time zone was to be
/// ascribed to its start and its end: the first of the two that has none.
pub open spec fn zone_problem<T>(start: Option<T>, end: Option<T>) -> Option<(Problem, Seq<char>)> {
    if start is None {
        Some((Problem::BadRequest, "Could not ascribe local timezone to start timestamp."@))
    } else if end is None {
        Some((Problem::BadRequest, "Could not ascribe local timezone to end timestamp."@))
    } else {
        None
    }
}

/// Takes the start and the end of a meeting as they came out with a time
/// zone ascribed, each `None` where the zone gives the moment no single
/// time, and hands both back where both have one.
pub fn ascribed<T>(start: Option<T>, end: Option<T>) -> (zoned: Result<(T, T), Rejection>)
    ensures
        match zoned {
            Ok(times) => start == Some(times.0) && end == Some(times.1),
            Err(rejection) => zone_problem(start, end) == Some(said(rejection)),
        },
{
    let start = match start {
        Some(start) => start,
        None => {
            return Err(
                reject(
                    Problem::BadRequest,
                    "Could not ascribe local timezone to start timestamp.",
                ),
            );
        },
    };
    match end {
        Some(end) => Ok((start, end)),
        None => Err(
            reject(Problem::BadRequest, "Could not ascribe local timezone to end timestamp."),
        ),
    }
}

/// The ID of the meeting that was created, as the API answered the call to
/// create it; an answer without an ID is an internal server error.
pub fn created_id(answer: Option<i64>) -> (id: Result<i64, TelescopeError>)
    ensures
        match id {
            Ok(id) => answer == Some(id),
            Err(TelescopeError::InternalServerError(message)) => answer is None && message@
                == "Meeting creation call did not return ID."@,
            Err(_) => false,
        },
{
    match answer {
        Some(id) => Ok(id),
        None => Err(TelescopeError::ise("Meeting creation call did not return ID.".to_owned())),
    }
}

impl FinishForm {
    /// The text that is read as the time `time` of hours and minutes.
    pub open spec fn with_seconds(time: Seq<char>) -> Seq<char> {
        time + NO_SECONDS@
    }

    /// What keeps this form from being accepted in `context`: the first of
    /// the checks that fails, in the order semester, dates, times.
    pub open spec fn problem(self, context: MeetingCreationContext) -> Option<
        (Problem, Seq<char>),
    > {
        match context.semester(self.semester@) {
            None => Some(
                (
                    Problem::BadRequest,
                    "Could not find selected semester ID in meeting creation context."@,
                ),
            ),
            Some(semester) => match date_problem(
                self.start_date,
                self.end_date,
                date_from_str(semester.start_date@),
                date_from_str(semester.end_date@),
            ) {
                Some(problem) => Some(problem),
                None => match self.times() {
                    Err(problem) => Some(problem),
                    Ok(_) => None,
                },
            },
        }
    }

    /// The moments at which the meeting of this form starts and ends, or
    /// what keeps its times from being accepted.
    pub open spec fn times(self) -> Result<(Moment, Moment), (Problem, Seq<char>)> {
        moments(
            self.start_date,
            self.end_date,
            time_from_str(Self::with_seconds(self.start_time@)),
            time_from_str(Self::with_seconds(self.end_time@)),
        )
    }

    /// `draft` is the meeting that this form asks for.
    pub open spec fn asks_for(self, draft: MeetingDraft) -> bool {
        &&& draft.title == (if trimmed(self.title@).len() == 0 {
            None
        } else {
            Some(self.title)
        })
        &&& self.times() == Ok::<(Moment, Moment), (Problem, Seq<char>)>((draft.start, draft.end))
        &&& draft.description@ == trimmed(self.description@)
        &&& draft.is_draft == (self.is_draft == Some(true))
        &&& draft.is_remote == (self.is_remote == Some(true))
        &&& match self.location {
            Some(place) => if trimmed(place@).len() == 0 {
                draft.location is None
            } else {
                draft.location matches Some(kept) && kept@ == trimmed(place@)
            },
            None => draft.location is None,
        }
    }

    /// A meeting that is accepted lies in its semester and does not end
    /// before it starts: the context has the selected semester, both of the
    /// semester's days can be read, neither date of the meeting lies outside
    /// them, and the meeting's end is not before its start.
    pub proof fn law_accepted_meeting_is_in_order(
        self,
        context: MeetingCreationContext,
        draft: MeetingDraft,
    )
        requires
            self.problem(context) is None,
            self.asks_for(draft),
        ensures
            context.semester(self.semester@) matches Some(semester) && date_from_str(
                semester.start_date@,
            ) matches Some(first) && date_from_str(semester.end_date@) matches Some(last)
                && !self.start_date.is_before(first) && !last.is_before(self.start_date)
                && !self.end_date.is_before(first) && !last.is_before(self.end_date),
            draft.start.date == self.start_date,
            draft.end.date == self.end_date,
            !draft.end.is_before(draft.start),
    {
    }

    /// Checks this form in `context`. The selected semester has to be one of
    /// the context's; both dates have to lie in it, the end not before the
    /// start; both times have to be readable, and the meeting must not end
    /// before it starts. A form that passes yields the meeting to create.
    pub fn check(self, context: &MeetingCreationContext) -> (checked: Result<
        MeetingDraft,
        Rejection,
    >)
        ensures
            match checked {
                Ok(draft) => self.problem(*context) is None && self.asks_for(draft),
                Err(rejection) => self.problem(*context) == Some(said(rejection)),
            },
    {
        let semester = match context.find_semester(&self.semester) {
            Some(semester) => semester,
            None => {
                return Err(
                    reject(
                        Problem::BadRequest,
                        "Could not find selected semester ID in meeting creation context.",
                    ),
                );
            },
        };
        let semester_start = parse_date(semester.start_date.as_str());
        let semester_end = parse_date(semester.end_date.as_str());
        match check_dates(self.start_date, self.end_date, semester_start, semester_end) {
            Some(rejection) => {
                return Err(rejection);
            },
            None => {},
        }
        let start_time = parse_time(self.start_time.clone().concat(NO_SECONDS).as_str());
        let end_time = parse_time(self.end_time.clone().concat(NO_SECONDS).as_str());
        let (start, end) = match check_times(self.start_date, self.end_date, start_time, end_time) {
            Ok(times) => times,
            Err(rejection) => {
                return Err(rejection);
            },
        };
        let blank_title = trim(self.title.as_str()).is_empty();
        let description = trim(self.description.as_str()).to_owned();
        let location = match &self.location {
            Some(place) => unless_empty(trim(place.as_str())),
            None => None,
        };
        Ok(
            MeetingDraft {
                title: if blank_title {
                    None
                } else {
                    Some(self.title)
                },
                start,
                end,
                description,
                is_draft: self.is_draft == Some(true),
                is_remote: self.is_remote == Some(true),
                location,
            },
        )
    }
}

} // verus!
