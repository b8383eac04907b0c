use crate::common::{birthday_message, make_birthday_message};
use crate::date::Date;
use crate::db::{get_all_active_for_reminder, reminders_due, Birthday, BirthdayStore};
use vstd::prelude::*;

verus! {

/// Seconds that the scheduler waits past the start of an hour, so that it does not run
/// twice within one hour.
pub const SKEW_SECONDS: u64 = 5;

/// The wall clock in the bot's time zone.
#[derive(Clone, Copy, Debug, PartialEq, Eq, Structural)]
pub struct LocalTime {
    pub date: Date,
    pub hour: u32,
    pub minute: u32,
    pub second: u32,
}

impl LocalTime {
    pub open spec fn wf(self) -> bool {
        self.date.wf() && self.hour < 24 && self.minute < 60 && self.second < 60
    }
}

/// A reminder to send.
pub struct Delivery {
    pub chat_id: i64,
    pub text: String,
}

/// `r` holds, each once, a reminder for every active record of `m` due at the hour of
/// `now`, and nothing else; each says what `birthday_message` says on that day.
pub open spec fn deliveries_due(m: Map<i64, Birthday>, now: LocalTime, r: Seq<Delivery>) -> bool {
    &&& forall|j: int| 0 <= j < r.len() ==> {
        let k = #[trigger] r[j].chat_id;
        &&& m.contains_key(k)
        &&& m[k].active
        &&& m[k].remind_hour == now.hour
        &&& r[j].text@ == birthday_message(m[k].birthdate, now.date)
    }
    &&& forall|k: i64| #[trigger] m.contains_key(k) && m[k].active && m[k].remind_hour == now.hour ==> exists|j: int|
        0 <= j < r.len() && r[j].chat_id == k
    &&& forall|j1: int, j2: int| 0 <= j1 < r.len() && 0 <= j2 < r.len() && j1 != j2 ==> r[j1].chat_id != r[j2].chat_id
}

/// One pass of the scheduler at `now`: the reminders to send this hour.
pub fn birthday_reminder_pass(store: &BirthdayStore, now: LocalTime) -> (r: Vec<Delivery>)
    requires
        store.wf(),
        now.wf(),
    ensures
        deliveries_due(store@, now, r@),
{
    let due = get_all_active_for_reminder(store, now.hour);
    let mut out: Vec<Delivery> = Vec::new();
    let mut i: usize = 0;
    while i < due.len()
        invariant
            reminders_due(store@, now.hour, due@),
            now.wf(),
            i <= due@.len(),
            out@.len() == i,
            forall|j: int| 0 <= j < i ==> (#[trigger] out@[j]).chat_id == due@[j].chat_id && out@[j].text@
                == birthday_message(due@[j].birthdate, now.date),
        decreases due@.len() - i,
    {
        let b = due[i];
        let text = make_birthday_message(b.birthdate, now.date);
        out.push(Delivery { chat_id: b.chat_id, text });
        i = i + 1;
    }
    proof {
        assert forall|k: i64| #[trigger] store@.contains_key(k) && store@[k].active && store@[k].remind_hour
            == now.hour implies exists|j: int| 0 <= j < out@.len() && out@[j].chat_id == k by {
            let j = choose|j: int| 0 <= j < due@.len() && due@[j].chat_id == k;
            assert(out@[j].chat_id == k);
        }
        assert forall|j: int| 0 <= j < out@.len() implies {
            let k = #[trigger] out@[j].chat_id;
            &&& store@.contains_key(k)
            &&& store@[k].active
            &&& store@[k].remind_hour == now.hour
            &&& out@[j].text@ == birthday_message(store@[k].birthdate, now.date)
        } by {
            assert(store@.contains_key(due@[j].chat_id));
        }
    }
    out
}

/// Seconds from `now` to a few seconds past the start of the next hour.
pub fn seconds_until_next_pass(now: LocalTime) -> (r: u64)
    requires
        now.wf(),
    ensures
        r == 3600 - (now.minute * 60 + now.second) + SKEW_SECONDS,
        SKEW_SECONDS < r <= 3600 + SKEW_SECONDS,
{
    let elapsed: u64 = now.minute as u64 * 60 + now.second as u64;
    3600 - elapsed + SKEW_SECONDS
}

} // verus!
