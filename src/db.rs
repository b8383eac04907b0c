use crate::date::Date;
use vstd::prelude::*;

verus! {

/// The stored record of one chat.
#[derive(Clone, Copy, Debug, PartialEq, Eq, Structural)]
pub struct Birthday {
    pub chat_id: i64,
    pub birthdate: Date,
    /// Hour of the day, 0 to 23, at which the reminder is sent.
    pub remind_hour: u32,
    pub active: bool,
}

impl Birthday {
    pub open spec fn wf(self) -> bool {
        self.birthdate.wf() && self.remind_hour < 24
    }
}

/// A change to the record of one chat.
#[derive(Clone, Copy, Debug, PartialEq, Eq, Structural)]
pub enum Write {
    /// Create the record, or overwrite date and hour of an existing one; either way it
    /// becomes active.
    Upsert { birthdate: Date, remind_hour: u32 },
    /// Replace the birthdate of an existing record.
    Birthdate(Date),
    /// Replace the reminder hour of an existing record.
    RemindHour(u32),
    /// Set the active flag of an existing record.
    Active(bool),
}

impl Write {
    /// The values written are a valid date and an hour of the day.
    pub open spec fn wf(self) -> bool {
        match self {
            Write::Upsert { birthdate, remind_hour } => birthdate.wf() && remind_hour < 24,
            Write::Birthdate(d) => d.wf(),
            Write::RemindHour(h) => h < 24,
            Write::Active(_) => true,
        }
    }
}

/// The table after `w` is applied to the record of `chat_id`. Updates of a chat that has
/// no record change nothing.
pub open spec fn apply_write(m: Map<i64, Birthday>, chat_id: i64, w: Write) -> Map<i64, Birthday> {
    match w {
        Write::Upsert { birthdate, remind_hour } => m.insert(
            chat_id,
            Birthday { chat_id, birthdate, remind_hour, active: true },
        ),
        Write::Birthdate(d) => if m.contains_key(chat_id) {
            m.insert(chat_id, Birthday { birthdate: d, ..m[chat_id] })
        } else {
            m
        },
        Write::RemindHour(h) => if m.contains_key(chat_id) {
            m.insert(chat_id, Birthday { remind_hour: h, ..m[chat_id] })
        } else {
            m
        },
        Write::Active(a) => if m.contains_key(chat_id) {
            m.insert(chat_id, Birthday { active: a, ..m[chat_id] })
        } else {
            m
        },
    }
}

/// Every record is filed under its own chat id and holds valid values.
pub open spec fn valid_table(m: Map<i64, Birthday>) -> bool {
    forall|k: i64| #[trigger] m.contains_key(k) ==> m[k].chat_id == k && m[k].wf()
}

pub open spec fn unique_ids(s: Seq<Birthday>) -> bool {
    forall|i: int, j: int| 0 <= i < s.len() && 0 <= j < s.len() && i != j ==> s[i].chat_id != s[j].chat_id
}

pub open spec fn has_id(s: Seq<Birthday>, k: i64) -> bool {
    exists|i: int| 0 <= i < s.len() && #[trigger] s[i].chat_id == k
}

/// The records of `s` by chat id.
pub open spec fn records_map(s: Seq<Birthday>) -> Map<i64, Birthday> {
    Map::new(
        |k: i64| has_id(s, k),
        |k: i64| s[choose|i: int| 0 <= i < s.len() && #[trigger] s[i].chat_id == k],
    )
}

proof fn lemma_map_at(s: Seq<Birthday>, i: int)
    requires
        unique_ids(s),
        0 <= i < s.len(),
    ensures
        records_map(s).contains_key(s[i].chat_id),
        records_map(s)[s[i].chat_id] == s[i],
{
    let k = s[i].chat_id;
    assert(has_id(s, k));
    let j = choose|j: int| 0 <= j < s.len() && #[trigger] s[j].chat_id == k;
    assert(j == i);
}

proof fn lemma_map_update(s: Seq<Birthday>, i: int, b: Birthday)
    requires
        unique_ids(s),
        0 <= i < s.len(),
        b.chat_id == s[i].chat_id,
    ensures
        unique_ids(s.update(i, b)),
        records_map(s.update(i, b)) == records_map(s).insert(b.chat_id, b),
{
    let t = s.update(i, b);
    assert(unique_ids(t));
    lemma_map_at(t, i);
    assert forall|k: i64| has_id(t, k) == has_id(s, k) by {
        if has_id(t, k) {
            let j = choose|j: int| 0 <= j < t.len() && #[trigger] t[j].chat_id == k;
            assert(s[j].chat_id == k);
        }
        if has_id(s, k) {
            let j = choose|j: int| 0 <= j < s.len() && #[trigger] s[j].chat_id == k;
            assert(t[j].chat_id == k);
        }
    }
    assert forall|k: i64| #[trigger] records_map(t).contains_key(k) && k != b.chat_id implies
        records_map(t)[k] == records_map(s)[k] by {
        let j = choose|j: int| 0 <= j < t.len() && #[trigger] t[j].chat_id == k;
        lemma_map_at(t, j);
        lemma_map_at(s, j);
    }
    assert(records_map(t) =~= records_map(s).insert(b.chat_id, b));
}

proof fn lemma_map_push(s: Seq<Birthday>, b: Birthday)
    requires
        unique_ids(s),
        !has_id(s, b.chat_id),
    ensures
        unique_ids(s.push(b)),
        records_map(s.push(b)) == records_map(s).insert(b.chat_id, b),
{
    let t = s.push(b);
    assert(unique_ids(t));
    lemma_map_at(t, s.len() as int);
    assert forall|k: i64| k != b.chat_id implies has_id(t, k) == has_id(s, k) by {
        if has_id(t, k) {
            let j = choose|j: int| 0 <= j < t.len() && #[trigger] t[j].chat_id == k;
            assert(s[j].chat_id == k);
        }
        if has_id(s, k) {
            let j = choose|j: int| 0 <= j < s.len() && #[trigger] s[j].chat_id == k;
            assert(t[j].chat_id == k);
        }
    }
    assert forall|k: i64| #[trigger] records_map(t).contains_key(k) && k != b.chat_id implies
        records_map(t)[k] == records_map(s)[k] by {
        let j = choose|j: int| 0 <= j < t.len() && #[trigger] t[j].chat_id == k;
        lemma_map_at(t, j);
        lemma_map_at(s, j);
    }
    assert(records_map(t) =~= records_map(s).insert(b.chat_id, b));
}

/// The birthday records, at most one per chat.
pub struct BirthdayStore {
    records: Vec<Birthday>,
}

impl View for BirthdayStore {
    type V = Map<i64, Birthday>;

    closed spec fn view(&self) -> Map<i64, Birthday> {
        records_map(self.records@)
    }
}

impl BirthdayStore {
    pub closed spec fn wf(&self) -> bool {
        unique_ids(self.records@) && valid_table(self@)
    }

    /// Records of the store, in the order in which they were created.
    pub closed spec fn rows(&self) -> Seq<Birthday> {
        self.records@
    }

    /// The rows are the table's records, each once.
    pub proof fn lemma_rows(&self)
        requires
            self.wf(),
        ensures
            valid_table(self@),
            unique_ids(self.rows()),
            forall|i: int| 0 <= i < self.rows().len() ==> #[trigger] self@.contains_key(self.rows()[i].chat_id)
                && self@[self.rows()[i].chat_id] == self.rows()[i],
            forall|k: i64| #[trigger] self@.contains_key(k) ==> has_id(self.rows(), k),
    {
        assert forall|i: int| 0 <= i < self.rows().len() implies #[trigger] self@.contains_key(self.rows()[i].chat_id)
            && self@[self.rows()[i].chat_id] == self.rows()[i] by {
            lemma_map_at(self.records@, i);
        }
    }

    pub fn new() -> (r: BirthdayStore)
        ensures
            r.wf(),
            r@ == Map::<i64, Birthday>::empty(),
    {
        let r = BirthdayStore { records: Vec::new() };
        assert(r@ =~= Map::<i64, Birthday>::empty());
        r
    }

    fn position(&self, chat_id: i64) -> (r: Option<usize>)
        ensures
            match r {
                Some(i) => i < self.records@.len() && self.records@[i as int].chat_id == chat_id,
                None => !has_id(self.records@, chat_id),
            },
    {
        let mut i: usize = 0;
        while i < self.records.len()
            invariant
                i <= self.records@.len(),
                forall|j: int| 0 <= j < i ==> self.records@[j].chat_id != chat_id,
            decreases self.records@.len() - i,
        {
            if self.records[i].chat_id == chat_id {
                return Some(i);
            }
            i = i + 1;
        }
        None
    }

    /// The record of `chat_id`, if there is one.
    pub fn get(&self, chat_id: i64) -> (r: Option<Birthday>)
        requires
            self.wf(),
        ensures
            r == (if self@.contains_key(chat_id) {
                Some(self@[chat_id])
            } else {
                None
            }),
    {
        match self.position(chat_id) {
            Some(i) => {
                proof {
                    lemma_map_at(self.records@, i as int);
                }
                Some(self.records[i])
            },
            None => None,
        }
    }

    /// Applies `w` to the record of `chat_id`.
    pub fn apply(&mut self, chat_id: i64, w: Write)
        requires
            old(self).wf(),
            w.wf(),
        ensures
            final(self).wf(),
            final(self)@ == apply_write(old(self)@, chat_id, w),
    {
        let pos = self.position(chat_id);
        let ghost before = self.records@;
        match pos {
            Some(i) => {
                proof {
                    lemma_map_at(before, i as int);
                }
                let cur = self.records[i];
                let b = match w {
                    Write::Upsert { birthdate, remind_hour } => Birthday {
                        chat_id,
                        birthdate,
                        remind_hour,
                        active: true,
                    },
                    Write::Birthdate(d) => Birthday { birthdate: d, ..cur },
                    Write::RemindHour(h) => Birthday { remind_hour: h, ..cur },
                    Write::Active(a) => Birthday { active: a, ..cur },
                };
                self.records.set(i, b);
                proof {
                    lemma_map_update(before, i as int, b);
                    assert(self.records@ == before.update(i as int, b));
                }
            },
            None => {
                if let Write::Upsert { birthdate, remind_hour } = w {
                    let b = Birthday { chat_id, birthdate, remind_hour, active: true };
                    self.records.push(b);
                    proof {
                        lemma_map_push(before, b);
                    }
                }
            },
        }
    }

    /// The active records whose reminder hour is `hour`, each once.
    pub fn active_at(&self, hour: u32) -> (r: Vec<Birthday>)
        requires
            self.wf(),
        ensures
            reminders_due(self@, hour, r@),
    {
        proof {
            self.lemma_rows();
        }
        let mut out: Vec<Birthday> = Vec::new();
        let mut i: usize = 0;
        while i < self.records.len()
            invariant
                self.wf(),
                i <= self.records@.len(),
                forall|j: int| #![trigger out@[j]] 0 <= j < out@.len() ==> exists|p: int| #![trigger self.records@[p]] 0 <= p < i && self.records@[p] == out@[j],
                forall|p: int| #![trigger self.records@[p]] 0 <= p < i && self.records@[p].active && self.records@[p].remind_hour == hour
                    ==> exists|j: int| #![trigger out@[j]] 0 <= j < out@.len() && out@[j] == self.records@[p],
                forall|j: int| 0 <= j < out@.len() ==> #[trigger] out@[j].active && out@[j].remind_hour == hour,
                forall|j1: int, j2: int| 0 <= j1 < out@.len() && 0 <= j2 < out@.len() && j1 != j2
                    ==> out@[j1].chat_id != out@[j2].chat_id,
            decreases self.records@.len() - i,
        {
            let b = self.records[i];
            let ghost prev = out@;
            if b.active && b.remind_hour == hour {
                proof {
                    assert forall|j: int| 0 <= j < prev.len() implies prev[j].chat_id != b.chat_id by {
                        let p = choose|p: int| 0 <= p < i && #[trigger] self.records@[p] == prev[j];
                    }
                }
                out.push(b);
                proof {
                    assert(out@[prev.len() as int] == b);
                    assert forall|j: int| 0 <= j < prev.len() implies #[trigger] out@[j] == prev[j] by {}
                }
            }
            proof {
                assert forall|p: int| #![trigger self.records@[p]] 0 <= p < i + 1 && self.records@[p].active
                    && self.records@[p].remind_hour == hour implies exists|j: int| #![trigger out@[j]] 0 <= j
                    < out@.len() && out@[j] == self.records@[p] by {
                    if p < i {
                        let j = choose|j: int| #![trigger prev[j]] 0 <= j < prev.len() && prev[j] == self.records@[p];
                        assert(out@[j] == prev[j]);
                    } else {
                        assert(out@[prev.len() as int] == b);
                    }
                }
            }
            i = i + 1;
        }
        proof {
            assert forall|j: int| 0 <= j < out@.len() implies #[trigger] self@.contains_key(out@[j].chat_id)
                && self@[out@[j].chat_id] == out@[j] by {
                let p = choose|p: int| 0 <= p < i && #[trigger] self.records@[p] == out@[j];
                lemma_map_at(self.records@, p);
            }
            assert forall|k: i64| #[trigger] self@.contains_key(k) && self@[k].active && self@[k].remind_hour == hour
                implies exists|j: int| 0 <= j < out@.len() && out@[j].chat_id == k by {
                let p = choose|p: int| 0 <= p < self.records@.len() && #[trigger] self.records@[p].chat_id == k;
                lemma_map_at(self.records@, p);
                let j = choose|j: int| 0 <= j < out@.len() && #[trigger] out@[j] == self.records@[p];
            }
        }
        out
    }
}

/// `r` holds exactly the active records of `m` whose reminder hour is `hour`, each once.
pub open spec fn reminders_due(m: Map<i64, Birthday>, hour: u32, r: Seq<Birthday>) -> bool {
    &&& forall|j: int| 0 <= j < r.len() ==> #[trigger] m.contains_key(r[j].chat_id) && m[r[j].chat_id] == r[j]
        && r[j].active && r[j].remind_hour == hour
    &&& forall|k: i64| #[trigger] m.contains_key(k) && m[k].active && m[k].remind_hour == hour ==> exists|j: int|
        0 <= j < r.len() && r[j].chat_id == k
    &&& forall|j1: int, j2: int| 0 <= j1 < r.len() && 0 <= j2 < r.len() && j1 != j2 ==> r[j1].chat_id != r[j2].chat_id
}

/// Creates the record of `chat_id`, or overwrites its date and hour; it becomes active.
pub fn create_or_update_birthday(store: &mut BirthdayStore, chat_id: i64, birthdate: Date, remind_hour: u32)
    requires
        old(store).wf(),
        birthdate.wf(),
        remind_hour < 24,
    ensures
        final(store).wf(),
        final(store)@ == old(store)@.insert(
            chat_id,
            Birthday { chat_id, birthdate, remind_hour, active: true },
        ),
{
    store.apply(chat_id, Write::Upsert { birthdate, remind_hour });
}

/// Replaces the birthdate of the record of `chat_id`, if there is one.
pub fn update_birthday(store: &mut BirthdayStore, chat_id: i64, new_birthdate: Date)
    requires
        old(store).wf(),
        new_birthdate.wf(),
    ensures
        final(store).wf(),
        final(store)@ == apply_write(old(store)@, chat_id, Write::Birthdate(new_birthdate)),
{
    store.apply(chat_id, Write::Birthdate(new_birthdate));
}

/// Replaces the reminder hour of the record of `chat_id`, if there is one.
pub fn update_remind_time(store: &mut BirthdayStore, chat_id: i64, new_remind_hour: u32)
    requires
        old(store).wf(),
        new_remind_hour < 24,
    ensures
        final(store).wf(),
        final(store)@ == apply_write(old(store)@, chat_id, Write::RemindHour(new_remind_hour)),
{
    store.apply(chat_id, Write::RemindHour(new_remind_hour));
}

/// Sets the active flag of the record of `chat_id`, if there is one.
pub fn update_active(store: &mut BirthdayStore, chat_id: i64, new_active: bool)
    requires
        old(store).wf(),
    ensures
        final(store).wf(),
        final(store)@ == apply_write(old(store)@, chat_id, Write::Active(new_active)),
{
    store.apply(chat_id, Write::Active(new_active));
}

/// The record of `chat_id`, if there is one.
pub fn get_birthday(store: &BirthdayStore, chat_id: i64) -> (r: Option<Birthday>)
    requires
        store.wf(),
    ensures
        r == (if store@.contains_key(chat_id) {
            Some(store@[chat_id])
        } else {
            None
        }),
{
    store.get(chat_id)
}

/// The active records whose reminder hour is `hour`, each once.
pub fn get_all_active_for_reminder(store: &BirthdayStore, hour: u32) -> (r: Vec<Birthday>)
    requires
        store.wf(),
    ensures
        reminders_due(store@, hour, r@),
{
    store.active_at(hour)
}

/// Writing the same birthdate twice leaves the same table as writing it once.
pub proof fn lemma_update_birthday_idempotent(m: Map<i64, Birthday>, chat_id: i64, d: Date)
    ensures
        apply_write(apply_write(m, chat_id, Write::Birthdate(d)), chat_id, Write::Birthdate(d))
            == apply_write(m, chat_id, Write::Birthdate(d)),
{
    let once = apply_write(m, chat_id, Write::Birthdate(d));
    if m.contains_key(chat_id) {
        assert(once[chat_id] == Birthday { birthdate: d, ..once[chat_id] });
        assert(once.insert(chat_id, once[chat_id]) =~= once);
    }
}

} // verus!
