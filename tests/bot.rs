use birthday_bot::background::{birthday_reminder_pass, seconds_until_next_pass, LocalTime};
use birthday_bot::common::{decimal_text, make_birthday_message, CELEBRATION};
use birthday_bot::date::{days_until_next, next_occurrence, Date};
use birthday_bot::db::{
    create_or_update_birthday, get_all_active_for_reminder, get_birthday, update_active,
    update_birthday, update_remind_time, Birthday, BirthdayStore,
};
use birthday_bot::handlers::{
    cmd_start, commit, handle_message, receive_birthday, update_birthdate, update_remind_time as answer_remind_time,
    ASK_BIRTHDATE, ASK_TIME, BAD_DATE, BAD_TIME, DEACTIVATED, GREETING, NOT_A_DATE, NOT_A_TIME, NOT_SAVED,
};
use birthday_bot::states::{Command, Incoming, Keyboard, Parsed, State};

fn date(year: i32, month: u32, day: u32) -> Date {
    Date { year, month, day }
}

fn text(s: &str) -> Incoming {
    Incoming::Text(s.to_string())
}

fn turn(store: &mut BirthdayStore, state: &mut State, chat_id: i64, msg: Incoming, today: Date) -> Vec<String> {
    let action = handle_message(store, *state, chat_id, &msg, today);
    commit(store, state, chat_id, action, true)
}

#[test]
fn next_occurrence_same_day_is_today() {
    let today = date(2024, 4, 13);
    assert_eq!(next_occurrence(date(2007, 4, 13), today), today);
}

#[test]
fn next_occurrence_later_this_year() {
    assert_eq!(next_occurrence(date(2007, 4, 13), date(2024, 1, 5)), date(2024, 4, 13));
}

#[test]
fn next_occurrence_passed_goes_to_next_year() {
    assert_eq!(next_occurrence(date(2007, 4, 13), date(2024, 4, 14)), date(2025, 4, 13));
}

#[test]
fn leap_birthday_in_common_year_is_feb_28() {
    let today = date(2023, 2, 28);
    assert_eq!(next_occurrence(date(2004, 2, 29), today), today);
    assert_eq!(next_occurrence(date(2004, 2, 29), date(2023, 1, 1)), date(2023, 2, 28));
}

#[test]
fn leap_birthday_after_february_of_a_leap_year() {
    assert_eq!(next_occurrence(date(2004, 2, 29), date(2024, 3, 1)), date(2025, 2, 28));
    assert_eq!(next_occurrence(date(2004, 2, 29), date(2023, 3, 1)), date(2024, 2, 29));
    assert_eq!(days_until_next(date(2004, 2, 29), date(2023, 3, 1)), 365);
}

#[test]
fn next_occurrence_never_before_today() {
    let births = [date(2000, 1, 1), date(2004, 2, 29), date(1990, 12, 31), date(1985, 7, 15)];
    let days = [date(2023, 12, 31), date(2024, 2, 29), date(2024, 7, 16), date(2025, 1, 1)];
    for b in births {
        for t in days {
            let n = next_occurrence(b, t);
            assert!((n.year, n.month, n.day) >= (t.year, t.month, t.day));
        }
    }
}

#[test]
fn days_until_next_counts_whole_days() {
    assert_eq!(days_until_next(date(2007, 4, 13), date(2024, 4, 12)), 1);
    assert_eq!(days_until_next(date(2007, 4, 13), date(2024, 4, 14)), 364);
    assert_eq!(days_until_next(date(2007, 1, 1), date(2023, 12, 31)), 1);
    assert_eq!(days_until_next(date(2007, 4, 13), date(2024, 4, 13)), 0);
}

#[test]
fn message_on_the_birthday_is_the_celebration() {
    assert_eq!(make_birthday_message(date(2007, 4, 13), date(2024, 4, 13)), CELEBRATION);
}

#[test]
fn message_counts_down_otherwise() {
    assert_eq!(
        make_birthday_message(date(2007, 4, 13), date(2024, 4, 12)),
        "До твоего дня рождения осталось 1 дней 🎈"
    );
    assert_eq!(
        make_birthday_message(date(2007, 4, 13), date(2024, 4, 14)),
        "До твоего дня рождения осталось 364 дней 🎈"
    );
}

#[test]
fn decimal_text_writes_digits() {
    assert_eq!(decimal_text(0), "0");
    assert_eq!(decimal_text(7), "7");
    assert_eq!(decimal_text(1230), "1230");
}

#[test]
fn onboarding_creates_an_active_record() {
    let mut store = BirthdayStore::new();
    let mut state = State::Start;
    let today = date(2024, 4, 10);
    let out = turn(&mut store, &mut state, 42, Incoming::Command(Command::Start), today);
    assert_eq!(out, vec![GREETING.to_string(), ASK_BIRTHDATE.to_string()]);
    assert_eq!(state, State::ReceiveBirthday);
    let out = turn(&mut store, &mut state, 42, text("13.04.2007"), today);
    assert_eq!(out, vec![ASK_TIME.to_string()]);
    assert_eq!(state, State::ReceiveSendTime { birthday: date(2007, 4, 13) });
    let out = turn(&mut store, &mut state, 42, text("08:00"), today);
    assert_eq!(out, vec!["До твоего дня рождения осталось 3 дней 🎈".to_string()]);
    assert_eq!(state, State::Start);
    assert_eq!(
        get_birthday(&store, 42),
        Some(Birthday { chat_id: 42, birthdate: date(2007, 4, 13), remind_hour: 8, active: true })
    );
}

#[test]
fn invalid_date_keeps_the_state() {
    let mut store = BirthdayStore::new();
    let mut state = State::ReceiveBirthday;
    let out = turn(&mut store, &mut state, 1, text("31.13.2007"), date(2024, 1, 1));
    assert_eq!(out, vec![BAD_DATE.to_string()]);
    assert_eq!(state, State::ReceiveBirthday);
    let out = turn(&mut store, &mut state, 1, text("30.02.2007"), date(2024, 1, 1));
    assert_eq!(out, vec![BAD_DATE.to_string()]);
    assert_eq!(state, State::ReceiveBirthday);
    let out = turn(&mut store, &mut state, 1, Incoming::Other, date(2024, 1, 1));
    assert_eq!(out, vec![NOT_A_DATE.to_string()]);
    assert_eq!(state, State::ReceiveBirthday);
    assert_eq!(get_birthday(&store, 1), None);
}

#[test]
fn invalid_time_keeps_the_state() {
    let mut store = BirthdayStore::new();
    let mut state = State::ReceiveSendTime { birthday: date(2007, 4, 13) };
    let out = turn(&mut store, &mut state, 1, text("25:00"), date(2024, 1, 1));
    assert_eq!(out, vec![BAD_TIME.to_string()]);
    let out = turn(&mut store, &mut state, 1, Incoming::Other, date(2024, 1, 1));
    assert_eq!(out, vec![NOT_A_TIME.to_string()]);
    assert_eq!(state, State::ReceiveSendTime { birthday: date(2007, 4, 13) });
    assert_eq!(get_birthday(&store, 1), None);
}

#[test]
fn deactivate_then_start_reactivates() {
    let mut store = BirthdayStore::new();
    create_or_update_birthday(&mut store, 7, date(1999, 9, 9), 21);
    let mut state = State::Start;
    let today = date(2024, 1, 1);
    let out = turn(&mut store, &mut state, 7, Incoming::Command(Command::DeactivateBot), today);
    assert_eq!(out, vec![DEACTIVATED.to_string()]);
    assert!(!get_birthday(&store, 7).unwrap().active);
    let out = turn(&mut store, &mut state, 7, Incoming::Command(Command::Start), today);
    assert_eq!(out, vec!["Бот снова активирован для тебя! 🎈\nТвоя дата рождения: *09.09.1999*".to_string()]);
    assert_eq!(
        get_birthday(&store, 7),
        Some(Birthday { chat_id: 7, birthdate: date(1999, 9, 9), remind_hour: 21, active: true })
    );
    assert_eq!(state, State::Start);
}

#[test]
fn start_with_active_record_sends_the_countdown() {
    let record = Birthday { chat_id: 3, birthdate: date(2000, 5, 2), remind_hour: 9, active: true };
    let a = cmd_start(Some(record), date(2024, 5, 1));
    assert_eq!(a.messages, vec!["До твоего дня рождения осталось 1 дней 🎈".to_string()]);
    assert_eq!(a.write, None);
    assert_eq!(a.next, None);
}

#[test]
fn scheduler_sends_to_the_matching_hour_only() {
    let mut store = BirthdayStore::new();
    create_or_update_birthday(&mut store, 1, date(2000, 6, 1), 8);
    create_or_update_birthday(&mut store, 2, date(2000, 6, 1), 9);
    create_or_update_birthday(&mut store, 3, date(2000, 6, 2), 8);
    let now = LocalTime { date: date(2024, 6, 1), hour: 8, minute: 0, second: 3 };
    let sent = birthday_reminder_pass(&store, now);
    let mut ids: Vec<i64> = sent.iter().map(|d| d.chat_id).collect();
    ids.sort();
    assert_eq!(ids, vec![1, 3]);
    for d in &sent {
        if d.chat_id == 1 {
            assert_eq!(d.text, CELEBRATION);
        } else {
            assert_eq!(d.text, "До твоего дня рождения осталось 1 дней 🎈");
        }
    }
}

#[test]
fn scheduler_skips_inactive_records() {
    let mut store = BirthdayStore::new();
    create_or_update_birthday(&mut store, 1, date(2000, 6, 1), 8);
    create_or_update_birthday(&mut store, 2, date(2000, 6, 1), 8);
    update_active(&mut store, 2, false);
    let due = get_all_active_for_reminder(&store, 8);
    assert_eq!(due.len(), 1);
    assert_eq!(due[0].chat_id, 1);
    assert!(get_all_active_for_reminder(&store, 9).is_empty());
}

#[test]
fn update_birthday_twice_is_like_once() {
    let mut once = BirthdayStore::new();
    create_or_update_birthday(&mut once, 5, date(1990, 1, 1), 10);
    let mut twice = BirthdayStore::new();
    create_or_update_birthday(&mut twice, 5, date(1990, 1, 1), 10);
    update_birthday(&mut once, 5, date(1991, 2, 3));
    update_birthday(&mut twice, 5, date(1991, 2, 3));
    update_birthday(&mut twice, 5, date(1991, 2, 3));
    assert_eq!(get_birthday(&once, 5), get_birthday(&twice, 5));
    assert_eq!(get_birthday(&once, 5).unwrap().birthdate, date(1991, 2, 3));
}

#[test]
fn updates_of_a_missing_record_change_nothing() {
    let mut store = BirthdayStore::new();
    update_birthday(&mut store, 5, date(1991, 2, 3));
    update_remind_time(&mut store, 5, 3);
    update_active(&mut store, 5, true);
    assert_eq!(get_birthday(&store, 5), None);
}

#[test]
fn upsert_overwrites_and_reactivates() {
    let mut store = BirthdayStore::new();
    create_or_update_birthday(&mut store, 5, date(1990, 1, 1), 10);
    update_active(&mut store, 5, false);
    update_remind_time(&mut store, 5, 23);
    assert_eq!(get_birthday(&store, 5).unwrap().remind_hour, 23);
    create_or_update_birthday(&mut store, 5, date(1992, 3, 4), 6);
    assert_eq!(
        get_birthday(&store, 5),
        Some(Birthday { chat_id: 5, birthdate: date(1992, 3, 4), remind_hour: 6, active: true })
    );
}

#[test]
fn changing_the_reminder_time() {
    let mut store = BirthdayStore::new();
    create_or_update_birthday(&mut store, 9, date(1990, 1, 1), 10);
    let mut state = State::Start;
    let today = date(2024, 1, 1);
    let a = handle_message(&store, state, 9, &Incoming::Command(Command::ChangeRemindTime), today);
    assert_eq!(a.keyboard, Keyboard::Hours);
    commit(&mut store, &mut state, 9, a, true);
    assert_eq!(state, State::UpdateRemindTime);
    let out = turn(&mut store, &mut state, 9, text("07:00"), today);
    assert_eq!(out, vec!["Окей, следующее в 07:00".to_string()]);
    assert_eq!(get_birthday(&store, 9).unwrap().remind_hour, 7);
    assert_eq!(state, State::Start);
}

#[test]
fn changing_the_birthdate() {
    let mut store = BirthdayStore::new();
    create_or_update_birthday(&mut store, 9, date(1990, 1, 1), 10);
    let mut state = State::Start;
    let today = date(2024, 1, 1);
    turn(&mut store, &mut state, 9, Incoming::Command(Command::ChangeBirthdate), today);
    assert_eq!(state, State::UpdateBirthdate);
    let out = turn(&mut store, &mut state, 9, text("13.04.2007"), today);
    assert_eq!(out, vec!["Твой новый день рождения *13.04.2007*".to_string()]);
    assert_eq!(get_birthday(&store, 9).unwrap().birthdate, date(2007, 4, 13));
    assert_eq!(get_birthday(&store, 9).unwrap().remind_hour, 10);
}

#[test]
fn answers_taken_apart_from_parsing() {
    let a = receive_birthday(Parsed::Valid(date(2007, 4, 13)));
    assert_eq!(a.next, Some(State::ReceiveSendTime { birthday: date(2007, 4, 13) }));
    let a = receive_birthday(Parsed::Invalid);
    assert_eq!(a.messages, vec![BAD_DATE.to_string()]);
    assert_eq!(a.next, None);
    let a = answer_remind_time(Parsed::Valid(23));
    assert_eq!(a.messages, vec!["Окей, следующее в 23:00".to_string()]);
    let a = update_birthdate(Parsed::NotText);
    assert_eq!(a.messages, vec![NOT_A_DATE.to_string()]);
}

#[test]
fn failed_save_keeps_state_and_record() {
    let mut store = BirthdayStore::new();
    let mut state = State::ReceiveSendTime { birthday: date(2007, 4, 13) };
    let a = handle_message(&store, state, 4, &text("08:00"), date(2024, 1, 1));
    let out = commit(&mut store, &mut state, 4, a, false);
    assert_eq!(out, vec![NOT_SAVED.to_string()]);
    assert_eq!(state, State::ReceiveSendTime { birthday: date(2007, 4, 13) });
    assert_eq!(get_birthday(&store, 4), None);
}

#[test]
fn text_without_a_question_is_ignored() {
    let store = BirthdayStore::new();
    let a = handle_message(&store, State::Start, 4, &text("hello"), date(2024, 1, 1));
    assert!(a.messages.is_empty());
    assert_eq!(a.write, None);
    assert_eq!(a.next, None);
}

#[test]
fn next_pass_waits_for_the_next_hour() {
    let t = |minute, second| LocalTime { date: date(2024, 1, 1), hour: 8, minute, second };
    assert_eq!(seconds_until_next_pass(t(0, 0)), 3605);
    assert_eq!(seconds_until_next_pass(t(59, 59)), 6);
    assert_eq!(seconds_until_next_pass(t(30, 0)), 1805);
}
