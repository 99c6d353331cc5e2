use chrono::{Datelike, NaiveDate, NaiveTime, Timelike};
use telescope::error::TelescopeError;
use telescope::meetings::creation::{
    ascribed, check_dates, check_times, created_id, MALFORMED_FORM,
};
use telescope::meetings::text::unless_empty;
use telescope::meetings::{
    ClockTime, Date, FinishForm, FormField, MeetingCreationContext, MeetingDraft, Moment, Problem,
    Rejection, Semester,
};

fn date(year: i32, month: u32, day: u32) -> Date {
    Date { day: NaiveDate::from_ymd_opt(year, month, day).expect("a real date").num_days_from_ce() }
}

fn time(hour: u32, minute: u32) -> ClockTime {
    ClockTime { seconds: hour * 3600 + minute * 60, nanos: 0 }
}

fn semester(id: &str, start: &str, end: &str) -> Semester {
    Semester {
        semester_id: id.to_string(),
        start_date: start.to_string(),
        end_date: end.to_string(),
    }
}

fn context() -> MeetingCreationContext {
    MeetingCreationContext {
        available_semesters: vec![
            semester("202101", "2021-01-25", "2021-05-05"),
            semester("202105", "2021-05-24", "2021-08-20"),
            semester("202109", "2021-08-30", "2021-12-17"),
        ],
    }
}

fn form() -> FinishForm {
    FinishForm {
        semester: "202101".to_string(),
        title: "Kickoff".to_string(),
        start_date: date(2021, 2, 1),
        start_time: "16:00".to_string(),
        end_date: date(2021, 2, 1),
        end_time: "17:50".to_string(),
        description: "  Welcome back!\n".to_string(),
        is_remote: None,
        location: Some(" DCC 318 ".to_string()),
        is_draft: Some(true),
    }
}

fn accepted(checked: Result<MeetingDraft, Rejection>) -> MeetingDraft {
    match checked {
        Ok(draft) => draft,
        Err(rejection) => panic!("expected a draft, got {:?}", rejection),
    }
}

fn rejected(checked: Result<MeetingDraft, Rejection>) -> Rejection {
    match checked {
        Ok(draft) => panic!("expected a rejection, got {:?}", draft),
        Err(rejection) => rejection,
    }
}

#[test]
fn good_form_yields_the_meeting() {
    let draft = accepted(form().check(&context()));
    assert_eq!(draft.title, Some("Kickoff".to_string()));
    assert_eq!(draft.start, Moment { date: date(2021, 2, 1), time: time(16, 0) });
    assert_eq!(draft.end, Moment { date: date(2021, 2, 1), time: time(17, 50) });
    assert_eq!(draft.description, "Welcome back!");
    assert!(draft.is_draft);
    assert!(!draft.is_remote);
    assert_eq!(draft.location, Some("DCC 318".to_string()));
}

#[test]
fn times_are_read_as_chrono_reads_them() {
    let draft = accepted(form().check(&context()));
    let start = NaiveTime::from_hms_opt(16, 0, 0).expect("a real time");
    assert_eq!(draft.start.time.seconds, start.num_seconds_from_midnight());
    assert_eq!(draft.start.time.nanos, start.nanosecond());
    assert_eq!(draft.start.time.seconds, 57_600);
    assert_eq!(draft.end.time.seconds, 64_200);
    assert_eq!(draft.start.date.day, 737_822);
}

#[test]
fn blank_title_and_location_are_dropped() {
    let mut blank = form();
    blank.title = " \t ".to_string();
    blank.location = Some("   ".to_string());
    blank.description = "".to_string();
    blank.is_draft = None;
    blank.is_remote = Some(true);
    let draft = accepted(blank.check(&context()));
    assert_eq!(draft.title, None);
    assert_eq!(draft.location, None);
    assert_eq!(draft.description, "");
    assert!(!draft.is_draft);
    assert!(draft.is_remote);
}

#[test]
fn title_is_kept_as_typed() {
    let mut padded = form();
    padded.title = "  Large Group  ".to_string();
    padded.location = None;
    padded.is_draft = Some(false);
    padded.is_remote = Some(false);
    let draft = accepted(padded.check(&context()));
    assert_eq!(draft.title, Some("  Large Group  ".to_string()));
    assert_eq!(draft.location, None);
    assert!(!draft.is_draft);
    assert!(!draft.is_remote);
}

#[test]
fn unknown_semester_is_a_bad_request() {
    let mut other = form();
    other.semester = "199901".to_string();
    let rejection = rejected(other.check(&context()));
    assert_eq!(rejection.problem, Problem::BadRequest);
    assert_eq!(
        rejection.message,
        "Could not find selected semester ID in meeting creation context."
    );
    assert_eq!(MALFORMED_FORM, "Malformed Meeting Creation Form");
}

#[test]
fn start_before_the_semester_is_an_issue() {
    let mut early = form();
    early.start_date = date(2021, 1, 24);
    let rejection = rejected(early.check(&context()));
    assert_eq!(rejection.problem, Problem::Issue(FormField::StartDate));
    assert_eq!(rejection.message, "Start date is before the semester starts.");
}

#[test]
fn start_after_the_semester_is_an_issue() {
    let mut late = form();
    late.start_date = date(2021, 5, 6);
    late.end_date = date(2021, 5, 6);
    let rejection = rejected(late.check(&context()));
    assert_eq!(rejection.problem, Problem::Issue(FormField::StartDate));
    assert_eq!(rejection.message, "Start date is after the semester ends.");
}

#[test]
fn end_before_the_semester_is_an_issue() {
    let mut odd = form();
    odd.end_date = date(2020, 12, 31);
    let rejection = rejected(odd.check(&context()));
    assert_eq!(rejection.problem, Problem::Issue(FormField::EndDate));
    assert_eq!(rejection.message, "End date is before the semester starts.");
}

#[test]
fn end_after_the_semester_is_an_issue() {
    let mut long = form();
    long.end_date = date(2021, 5, 6);
    let rejection = rejected(long.check(&context()));
    assert_eq!(rejection.problem, Problem::Issue(FormField::EndDate));
    assert_eq!(rejection.message, "End date is after the semester ends.");
}

#[test]
fn end_before_start_is_an_issue() {
    let mut backwards = form();
    backwards.start_date = date(2021, 3, 2);
    backwards.end_date = date(2021, 3, 1);
    let rejection = rejected(backwards.check(&context()));
    assert_eq!(rejection.problem, Problem::Issue(FormField::EndDate));
    assert_eq!(rejection.message, "End date is before start date.");
}

#[test]
fn semester_bounds_are_part_of_the_semester() {
    let mut whole = form();
    whole.start_date = date(2021, 1, 25);
    whole.start_time = "00:00".to_string();
    whole.end_date = date(2021, 5, 5);
    whole.end_time = "23:59".to_string();
    let draft = accepted(whole.check(&context()));
    assert_eq!(draft.start, Moment { date: date(2021, 1, 25), time: time(0, 0) });
    assert_eq!(draft.end, Moment { date: date(2021, 5, 5), time: time(23, 59) });
}

#[test]
fn unreadable_start_time_is_a_bad_request() {
    let mut garbled = form();
    garbled.start_time = "four".to_string();
    let rejection = rejected(garbled.check(&context()));
    assert_eq!(rejection.problem, Problem::BadRequest);
    let reason = "four:00".parse::<NaiveTime>().expect_err("not a time").to_string();
    assert_eq!(
        rejection.message,
        format!("Could not parse start time. Internal error: {}", reason)
    );
}

#[test]
fn unreadable_end_time_is_a_bad_request() {
    let mut garbled = form();
    garbled.end_time = "25:00".to_string();
    let rejection = rejected(garbled.check(&context()));
    assert_eq!(rejection.problem, Problem::BadRequest);
    let reason = "25:00:00".parse::<NaiveTime>().expect_err("not a time").to_string();
    assert_eq!(rejection.message, format!("Could not parse end time. Internal error: {}", reason));
}

#[test]
fn time_with_seconds_is_not_accepted() {
    let mut precise = form();
    precise.start_time = "16:00:30".to_string();
    let rejection = rejected(precise.check(&context()));
    assert_eq!(rejection.problem, Problem::BadRequest);
    assert!(rejection.message.starts_with("Could not parse start time. Internal error: "));
}

#[test]
fn end_time_before_start_time_is_an_issue() {
    let mut backwards = form();
    backwards.start_time = "17:50".to_string();
    backwards.end_time = "16:00".to_string();
    let rejection = rejected(backwards.check(&context()));
    assert_eq!(rejection.problem, Problem::Issue(FormField::EndTime));
    assert_eq!(rejection.message, "End time is before start time.");
}

#[test]
fn meeting_may_end_when_it_starts_and_run_over_midnight() {
    let mut instant = form();
    instant.end_time = "16:00".to_string();
    let draft = accepted(instant.check(&context()));
    assert_eq!(draft.start, draft.end);
    let mut overnight = form();
    overnight.start_time = "22:00".to_string();
    overnight.end_date = date(2021, 2, 2);
    overnight.end_time = "01:00".to_string();
    let draft = accepted(overnight.check(&context()));
    assert_eq!(draft.end, Moment { date: date(2021, 2, 2), time: time(1, 0) });
}

#[test]
fn date_issues_come_before_time_issues() {
    let mut both = form();
    both.start_date = date(2021, 1, 1);
    both.start_time = "never".to_string();
    let rejection = rejected(both.check(&context()));
    assert_eq!(rejection.problem, Problem::Issue(FormField::StartDate));
}

#[test]
fn unreadable_semester_dates_break_the_context() {
    let broken = MeetingCreationContext {
        available_semesters: vec![semester("202101", "January", "2021-05-05")],
    };
    let rejection = rejected(form().check(&broken));
    assert_eq!(rejection.problem, Problem::BrokenContext);
    assert_eq!(rejection.message, "Semester from context has good start date.");
    let broken = MeetingCreationContext {
        available_semesters: vec![semester("202101", "2021-01-25", "2021-02-30")],
    };
    let rejection = rejected(form().check(&broken));
    assert_eq!(rejection.problem, Problem::BrokenContext);
    assert_eq!(rejection.message, "Semester from context has good end date.");
}

#[test]
fn first_semester_with_the_id_is_used() {
    let twice = MeetingCreationContext {
        available_semesters: vec![
            semester("202105", "2021-05-24", "2021-08-20"),
            semester("202101", "2021-01-25", "2021-05-05"),
            semester("202101", "2022-01-25", "2022-05-05"),
        ],
    };
    let found = twice.find_semester(&"202101".to_string()).expect("the semester is there");
    assert_eq!(found.start_date, "2021-01-25");
    assert!(twice.find_semester(&"202109".to_string()).is_none());
    assert!(form().check(&twice).is_ok());
}

#[test]
fn check_dates_reports_the_first_failing_check() {
    let first = Some(date(2021, 1, 25));
    let last = Some(date(2021, 5, 5));
    assert!(check_dates(date(2021, 2, 1), date(2021, 2, 2), first, last).is_none());
    let outside = check_dates(date(2020, 1, 1), date(2022, 1, 1), first, last).expect("an issue");
    assert_eq!(outside.problem, Problem::Issue(FormField::StartDate));
    assert_eq!(outside.message, "Start date is before the semester starts.");
    let unread = check_dates(date(2021, 2, 1), date(2021, 2, 2), None, None).expect("an issue");
    assert_eq!(unread.problem, Problem::BrokenContext);
    assert_eq!(unread.message, "Semester from context has good start date.");
}

#[test]
fn check_times_orders_moments_by_date_then_time() {
    let day = date(2021, 2, 1);
    let next = date(2021, 2, 2);
    let late = ClockTime { seconds: 80_000, nanos: 0 };
    let early = ClockTime { seconds: 100, nanos: 0 };
    let (start, end) = match check_times(day, next, Ok(late), Ok(early)) {
        Ok(times) => times,
        Err(rejection) => panic!("expected moments, got {:?}", rejection),
    };
    assert_eq!(start, Moment { date: day, time: late });
    assert_eq!(end, Moment { date: next, time: early });
    assert!(start.before(&end));
    assert!(!end.before(&start));
    assert!(!start.before(&start));
    let rejection = check_times(day, day, Ok(late), Ok(early)).expect_err("ends too early");
    assert_eq!(rejection.problem, Problem::Issue(FormField::EndTime));
    let tie = ClockTime { seconds: 100, nanos: 1 };
    let rejection = check_times(day, day, Ok(tie), Ok(early)).expect_err("ends too early");
    assert_eq!(rejection.message, "End time is before start time.");
    assert!(check_times(day, day, Ok(early), Ok(tie)).is_ok());
    let rejection = check_times(day, day, Err("no".to_string()), Err("neither".to_string()))
        .expect_err("unreadable");
    assert_eq!(rejection.problem, Problem::BadRequest);
    assert_eq!(rejection.message, "Could not parse start time. Internal error: no");
    let rejection =
        check_times(day, day, Ok(early), Err("neither".to_string())).expect_err("unreadable");
    assert_eq!(rejection.message, "Could not parse end time. Internal error: neither");
}

#[test]
fn form_fields_have_their_form_names() {
    assert_eq!(FormField::StartDate.name(), "start_date");
    assert_eq!(FormField::EndDate.name(), "end_date");
    assert_eq!(FormField::EndTime.name(), "end_time");
}

#[test]
fn unless_empty_keeps_what_is_left() {
    assert_eq!(unless_empty(""), None);
    assert_eq!(unless_empty("x"), Some("x".to_string()));
    assert_eq!(unless_empty(" "), Some(" ".to_string()));
}

#[test]
fn malformed_form_is_answered_as_a_bad_request() {
    let rejection = Rejection { problem: Problem::BadRequest, message: "odd".to_string() };
    match rejection.bad_request() {
        Some(TelescopeError::BadRequest { header, message }) => {
            assert_eq!(header, MALFORMED_FORM);
            assert_eq!(message, "odd");
        }
        other => panic!("expected a bad request, got {:?}", other),
    }
    let issue = Rejection {
        problem: Problem::Issue(FormField::EndTime),
        message: "End time is before start time.".to_string(),
    };
    assert!(issue.bad_request().is_none());
    let broken = Rejection { problem: Problem::BrokenContext, message: "odd".to_string() };
    assert!(broken.bad_request().is_none());
}

#[test]
fn moments_without_a_local_time_are_a_bad_request() {
    assert_eq!(ascribed(Some(1), Some(2)).expect("both have a time"), (1, 2));
    let rejection = ascribed(None, Some(2)).expect_err("no start");
    assert_eq!(rejection.problem, Problem::BadRequest);
    assert_eq!(rejection.message, "Could not ascribe local timezone to start timestamp.");
    let rejection = ascribed(Some(1), None).expect_err("no end");
    assert_eq!(rejection.problem, Problem::BadRequest);
    assert_eq!(rejection.message, "Could not ascribe local timezone to end timestamp.");
    let rejection = ascribed::<u8>(None, None).expect_err("neither");
    assert_eq!(rejection.message, "Could not ascribe local timezone to start timestamp.");
}

#[test]
fn created_meeting_has_to_come_with_an_id() {
    match created_id(Some(42)) {
        Ok(id) => assert_eq!(id, 42),
        Err(error) => panic!("expected an ID, got {:?}", error),
    }
    match created_id(None) {
        Err(TelescopeError::InternalServerError(message)) => {
            assert_eq!(message, "Meeting creation call did not return ID.");
        }
        other => panic!("expected an internal server error, got {:?}", other),
    }
}
