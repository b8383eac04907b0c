use crate::date::{
    days_between, days_until_next, lemma_ordinal_bounds, lemma_year_step,
    next_occurrence, next_occurrence_spec, Date,
};
use vstd::prelude::*;

verus! {

/// Sent on the birthday itself.
pub const CELEBRATION: &'static str = "🎉 С Днём рождения! 🎂🥳";

/// Text before the day count of a countdown.
pub const COUNTDOWN_HEAD: &'static str = "До твоего дня рождения осталось ";

/// Text after the day count of a countdown.
pub const COUNTDOWN_TAIL: &'static str = " дней 🎈";

pub open spec fn digit_char(d: nat) -> char {
    if d == 0 {
        '0'
    } else if d == 1 {
        '1'
    } else if d == 2 {
        '2'
    } else if d == 3 {
        '3'
    } else if d == 4 {
        '4'
    } else if d == 5 {
        '5'
    } else if d == 6 {
        '6'
    } else if d == 7 {
        '7'
    } else if d == 8 {
        '8'
    } else {
        '9'
    }
}

/// Decimal notation of `n`, without leading zeros.
pub open spec fn decimal(n: nat) -> Seq<char>
    decreases n,
{
    if n < 10 {
        seq![digit_char(n)]
    } else {
        decimal(n / 10).push(digit_char(n % 10))
    }
}

/// The countdown text for `days` days left.
pub open spec fn countdown_text(days: nat) -> Seq<char> {
    COUNTDOWN_HEAD@ + decimal(days) + COUNTDOWN_TAIL@
}

/// What is sent on `today` to the person born on `birthdate`.
pub open spec fn birthday_message(birthdate: Date, today: Date) -> Seq<char> {
    let next = next_occurrence_spec(birthdate, today);
    if next == today {
        CELEBRATION@
    } else {
        countdown_text(days_between(today, next) as nat)
    }
}

pub(crate) fn digit_str(d: u32) -> (r: &'static str)
    requires
        d < 10,
    ensures
        r@ == seq![digit_char(d as nat)],
{
    if d == 0 {
        proof { reveal_strlit("0"); }
        "0"
    } else if d == 1 {
        proof { reveal_strlit("1"); }
        "1"
    } else if d == 2 {
        proof { reveal_strlit("2"); }
        "2"
    } else if d == 3 {
        proof { reveal_strlit("3"); }
        "3"
    } else if d == 4 {
        proof { reveal_strlit("4"); }
        "4"
    } else if d == 5 {
        proof { reveal_strlit("5"); }
        "5"
    } else if d == 6 {
        proof { reveal_strlit("6"); }
        "6"
    } else if d == 7 {
        proof { reveal_strlit("7"); }
        "7"
    } else if d == 8 {
        proof { reveal_strlit("8"); }
        "8"
    } else {
        proof { reveal_strlit("9"); }
        "9"
    }
}

/// Decimal notation of `n`.
pub fn decimal_text(n: u32) -> (r: String)
    ensures
        r@ == decimal(n as nat),
    decreases n,
{
    if n < 10 {
        String::from_str(digit_str(n))
    } else {
        let mut s = decimal_text(n / 10);
        s.append(digit_str(n % 10));
        s
    }
}

/// The reminder for `today`: the celebration on the birthday, otherwise the number of
/// days left until it.
pub fn make_birthday_message(birthday: Date, today: Date) -> (r: String)
    requires
        today.wf(),
    ensures
        r@ == birthday_message(birthday, today),
{
    let next = next_occurrence(birthday, today);
    if next == today {
        String::from_str(CELEBRATION)
    } else {
        let days = days_until_next(birthday, today);
        let mut s = String::from_str(COUNTDOWN_HEAD);
        s.append(decimal_text(days).as_str());
        s.append(COUNTDOWN_TAIL);
        s
    }
}

/// The next occurrence never lies before `today`, and is `today` itself when `today`
/// has the birthday's month and day, or is 28 February of a year without 29 February
/// for a birthday on 29 February.
pub proof fn lemma_next_occurrence_on_or_after(birthdate: Date, today: Date)
    requires
        today.wf(),
    ensures
        today.le(next_occurrence_spec(birthdate, today)),
        days_between(today, next_occurrence_spec(birthdate, today)) >= 0,
        (today.month == birthdate.month && today.day == birthdate.day) ==> next_occurrence_spec(
            birthdate,
            today,
        ) == today,
        (birthdate.month == 2 && birthdate.day == 29 && today.month == 2 && today.day == 28
            && !crate::date::is_leap(today.year as int)) ==> next_occurrence_spec(birthdate, today)
            == today,
{
    let next = next_occurrence_spec(birthdate, today);
    lemma_ordinal_bounds(today, today);
    lemma_ordinal_bounds(next, next);
    if next.year == today.year {
        lemma_ordinal_bounds(today, next);
    } else {
        lemma_year_step(today.year as int);
    }
}

/// Away from the birthday the message counts a whole number of days of at least one;
/// on the birthday it is the celebration.
pub proof fn lemma_countdown_positive(birthdate: Date, today: Date)
    requires
        today.wf(),
    ensures
        next_occurrence_spec(birthdate, today) == today ==> birthday_message(birthdate, today)
            == CELEBRATION@,
        next_occurrence_spec(birthdate, today) != today ==> {
            let days = days_between(today, next_occurrence_spec(birthdate, today));
            &&& 1 <= days <= 366
            &&& birthday_message(birthdate, today) == countdown_text(days as nat)
        },
{
    let next = next_occurrence_spec(birthdate, today);
    lemma_ordinal_bounds(today, today);
    lemma_ordinal_bounds(next, next);
    if next.year == today.year {
        lemma_ordinal_bounds(today, next);
    } else {
        lemma_year_step(today.year as int);
    }
}

} // verus!
