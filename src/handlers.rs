use crate::calendar::{date_text, format_date, parse_date, parse_hour, parsed_date, parsed_time};
use crate::common::{birthday_message, digit_char, digit_str, make_birthday_message};
use crate::date::Date;
use crate::db::{apply_write, valid_table, Birthday, BirthdayStore, Write};
use crate::states::{Action, ActionView, Command, Incoming, Keyboard, Parsed, State};
use vstd::prelude::*;

verus! {

pub const GREETING: &'static str = "Привет! Этот бот считает количество дней до твоего дня рождения 🎂";

pub const ASK_BIRTHDATE: &'static str = "Введи свою дату рождения в формате ДД.ММ.ГГГГ\nПример: 13.04.2007";

pub const REACTIVATED: &'static str = "Бот снова активирован для тебя! 🎈\nТвоя дата рождения: ";

pub const ASK_TIME: &'static str = "В какое время присылать сообщения об оставшихся днях?";

pub const TIME_SAVED: &'static str = "Окей, следующее в ";

pub const ASK_NEW_BIRTHDATE: &'static str = "🎂 Введи свою дату рождения (13.04.2007):";

pub const NEW_BIRTHDATE: &'static str = "Твой новый день рождения ";

pub const DEACTIVATED: &'static str = "Бот, деактивирован";

pub const BAD_DATE: &'static str = "Не правильная дата";

pub const NOT_A_DATE: &'static str = "Это не похоже на твою дату рождения)";

pub const BAD_TIME: &'static str = "Это не время";

pub const NOT_A_TIME: &'static str = "Это не похоже на время)";

pub const NOT_SAVED: &'static str = "Ошибка данные не сохранены";

pub open spec fn action(
    write: Option<Write>,
    next: Option<State>,
    messages: Seq<Seq<char>>,
    keyboard: Keyboard,
) -> ActionView {
    ActionView { write, next, messages, keyboard }
}

/// `s` between two asterisks, as `teloxide::utils::markdown::bold` writes it.
pub open spec fn bold_text(s: Seq<char>) -> Seq<char> {
    seq!['*'] + s + seq!['*']
}

/// An hour of the day as "HH:00".
pub open spec fn hour_text(h: nat) -> Seq<char> {
    seq![digit_char(h / 10), digit_char(h % 10), ':', '0', '0']
}

pub open spec fn shown_date(d: Date) -> Seq<char> {
    bold_text(date_text(d.year as int, d.month as int, d.day as int))
}

/// A date read from `text`, as the conversation sees it.
pub open spec fn date_input(text: Option<Seq<char>>) -> Parsed<Date> {
    match text {
        None => Parsed::NotText,
        Some(s) => match parsed_date(s) {
            Some((y, m, d)) => Parsed::Valid(Date { year: y as i32, month: m as u32, day: d as u32 }),
            None => Parsed::Invalid,
        },
    }
}

/// An hour read from `text`, as the conversation sees it.
pub open spec fn hour_input(text: Option<Seq<char>>) -> Parsed<u32> {
    match text {
        None => Parsed::NotText,
        Some(s) => match parsed_time(s) {
            Some((h, _)) => Parsed::Valid(h as u32),
            None => Parsed::Invalid,
        },
    }
}

pub open spec fn valid_date_input(p: Parsed<Date>) -> bool {
    p matches Parsed::Valid(d) ==> d.wf()
}

pub open spec fn valid_hour_input(p: Parsed<u32>) -> bool {
    p matches Parsed::Valid(h) ==> h < 24
}

pub open spec fn start_spec(record: Option<Birthday>, today: Date) -> ActionView {
    match record {
        Some(b) => if b.active {
            action(None, None, seq![birthday_message(b.birthdate, today)], Keyboard::Keep)
        } else {
            action(
                Some(Write::Active(true)),
                None,
                seq![REACTIVATED@ + shown_date(b.birthdate)],
                Keyboard::Keep,
            )
        },
        None => action(None, Some(State::ReceiveBirthday), seq![GREETING@, ASK_BIRTHDATE@], Keyboard::Keep),
    }
}

pub open spec fn receive_birthday_spec(p: Parsed<Date>) -> ActionView {
    match p {
        Parsed::Valid(d) => action(None, Some(State::ReceiveSendTime { birthday: d }), seq![ASK_TIME@], Keyboard::Hours),
        Parsed::Invalid => action(None, None, seq![BAD_DATE@], Keyboard::Keep),
        Parsed::NotText => action(None, None, seq![NOT_A_DATE@], Keyboard::Keep),
    }
}

pub open spec fn receive_send_time_spec(birthday: Date, p: Parsed<u32>, today: Date) -> ActionView {
    match p {
        Parsed::Valid(h) => action(
            Some(Write::Upsert { birthdate: birthday, remind_hour: h }),
            Some(State::Start),
            seq![birthday_message(birthday, today)],
            Keyboard::Remove,
        ),
        Parsed::Invalid => action(None, None, seq![BAD_TIME@], Keyboard::Keep),
        Parsed::NotText => action(None, None, seq![NOT_A_TIME@], Keyboard::Keep),
    }
}

pub open spec fn update_remind_time_spec(p: Parsed<u32>) -> ActionView {
    match p {
        Parsed::Valid(h) => action(
            Some(Write::RemindHour(h)),
            Some(State::Start),
            seq![TIME_SAVED@ + hour_text(h as nat)],
            Keyboard::Remove,
        ),
        Parsed::Invalid => action(None, None, seq![BAD_TIME@], Keyboard::Keep),
        Parsed::NotText => action(None, None, seq![NOT_A_TIME@], Keyboard::Keep),
    }
}

pub open spec fn update_birthdate_spec(p: Parsed<Date>) -> ActionView {
    match p {
        Parsed::Valid(d) => action(
            Some(Write::Birthdate(d)),
            Some(State::Start),
            seq![NEW_BIRTHDATE@ + shown_date(d)],
            Keyboard::Remove,
        ),
        Parsed::Invalid => action(None, None, seq![BAD_DATE@], Keyboard::Keep),
        Parsed::NotText => action(None, None, seq![NOT_A_DATE@], Keyboard::Keep),
    }
}

pub open spec fn command_spec(c: Command, record: Option<Birthday>, today: Date) -> ActionView {
    match c {
        Command::Start => start_spec(record, today),
        Command::ChangeRemindTime => action(None, Some(State::UpdateRemindTime), seq![ASK_TIME@], Keyboard::Hours),
        Command::ChangeBirthdate => action(None, Some(State::UpdateBirthdate), seq![ASK_NEW_BIRTHDATE@], Keyboard::Keep),
        Command::DeactivateBot => action(Some(Write::Active(false)), None, seq![DEACTIVATED@], Keyboard::Keep),
    }
}

/// What text, if any, the message holds.
pub open spec fn text_of(msg: Incoming) -> Option<Seq<char>> {
    match msg {
        Incoming::Text(t) => Some(t@),
        _ => None,
    }
}

/// The reaction to `msg` in `state`. Commands are served in every state; other messages
/// go to the question that the state has pending, and are ignored when none is.
pub open spec fn schema_spec(state: State, msg: Incoming, record: Option<Birthday>, today: Date) -> ActionView {
    match msg {
        Incoming::Command(c) => command_spec(c, record, today),
        _ => match state {
            State::Start => action(None, None, Seq::empty(), Keyboard::Keep),
            State::ReceiveBirthday => receive_birthday_spec(date_input(text_of(msg))),
            State::ReceiveSendTime { birthday } => receive_send_time_spec(birthday, hour_input(text_of(msg)), today),
            State::UpdateRemindTime => update_remind_time_spec(hour_input(text_of(msg))),
            State::UpdateBirthdate => update_birthdate_spec(date_input(text_of(msg))),
        },
    }
}

fn text(s: &str) -> (r: String)
    ensures
        r@ == s@,
{
    String::from_str(s)
}

fn reply(write: Option<Write>, next: Option<State>, message: String, keyboard: Keyboard) -> (r: Action)
    ensures
        r@ == action(write, next, seq![message@], keyboard),
{
    let ghost m = message@;
    let r = Action { write, next, messages: vec![message], keyboard };
    assert(r@.messages =~= seq![m]);
    r
}

fn bold(s: &str) -> (r: String)
    ensures
        r@ == bold_text(s@),
{
    let mut r = String::from_str("*");
    r.append(s);
    r.append("*");
    proof {
        reveal_strlit("*");
    }
    assert(r@ =~= bold_text(s@));
    r
}

fn shown(d: Date) -> (r: String)
    requires
        d.wf(),
    ensures
        r@ == shown_date(d),
{
    let t = format_date(d);
    bold(t.as_str())
}

fn hour_label(h: u32) -> (r: String)
    requires
        h < 24,
    ensures
        r@ == hour_text(h as nat),
{
    let mut r = String::from_str(digit_str(h / 10));
    r.append(digit_str(h % 10));
    r.append(":00");
    proof {
        reveal_strlit(":00");
    }
    assert(r@ =~= hour_text(h as nat));
    r
}

/// The `start` command, given the chat's stored record: the countdown for an active
/// record, reactivation for an inactive one, and the onboarding questions without one.
pub fn cmd_start(record: Option<Birthday>, today: Date) -> (r: Action)
    requires
        today.wf(),
        record matches Some(b) ==> b.wf(),
    ensures
        r@ == start_spec(record, today),
{
    match record {
        Some(b) => {
            if b.active {
                reply(None, None, make_birthday_message(b.birthdate, today), Keyboard::Keep)
            } else {
                let mut m = text(REACTIVATED);
                m.append(shown(b.birthdate).as_str());
                reply(Some(Write::Active(true)), None, m, Keyboard::Keep)
            }
        },
        None => {
            let r = Action {
                write: None,
                next: Some(State::ReceiveBirthday),
                messages: vec![text(GREETING), text(ASK_BIRTHDATE)],
                keyboard: Keyboard::Keep,
            };
            assert(r@.messages =~= seq![GREETING@, ASK_BIRTHDATE@]);
            r
        },
    }
}

/// The command that asks for a new reminder time.
pub fn cmd_update_remind_time() -> (r: Action)
    ensures
        r@ == action(None, Some(State::UpdateRemindTime), seq![ASK_TIME@], Keyboard::Hours),
{
    reply(None, Some(State::UpdateRemindTime), text(ASK_TIME), Keyboard::Hours)
}

/// The command that asks for a new birthdate.
pub fn cmd_update_birthdate() -> (r: Action)
    ensures
        r@ == action(None, Some(State::UpdateBirthdate), seq![ASK_NEW_BIRTHDATE@], Keyboard::Keep),
{
    reply(None, Some(State::UpdateBirthdate), text(ASK_NEW_BIRTHDATE), Keyboard::Keep)
}

/// The command that stops the reminders of the chat.
pub fn cmd_deactivate() -> (r: Action)
    ensures
        r@ == action(Some(Write::Active(false)), None, seq![DEACTIVATED@], Keyboard::Keep),
{
    reply(Some(Write::Active(false)), None, text(DEACTIVATED), Keyboard::Keep)
}

/// The answer to the birthdate question of the onboarding.
pub fn receive_birthday(p: Parsed<Date>) -> (r: Action)
    requires
        valid_date_input(p),
    ensures
        r@ == receive_birthday_spec(p),
{
    match p {
        Parsed::Valid(d) => reply(None, Some(State::ReceiveSendTime { birthday: d }), text(ASK_TIME), Keyboard::Hours),
        Parsed::Invalid => reply(None, None, text(BAD_DATE), Keyboard::Keep),
        Parsed::NotText => reply(None, None, text(NOT_A_DATE), Keyboard::Keep),
    }
}

/// The answer to the reminder time question of the onboarding, for a person born on
/// `birthday`: the record is stored, active, and the countdown is the reply.
pub fn receive_send_time(birthday: Date, p: Parsed<u32>, today: Date) -> (r: Action)
    requires
        birthday.wf(),
        today.wf(),
        valid_hour_input(p),
    ensures
        r@ == receive_send_time_spec(birthday, p, today),
{
    match p {
        Parsed::Valid(h) => reply(
            Some(Write::Upsert { birthdate: birthday, remind_hour: h }),
            Some(State::Start),
            make_birthday_message(birthday, today),
            Keyboard::Remove,
        ),
        Parsed::Invalid => reply(None, None, text(BAD_TIME), Keyboard::Keep),
        Parsed::NotText => reply(None, None, text(NOT_A_TIME), Keyboard::Keep),
    }
}

/// The answer to the question for a new reminder time.
pub fn update_remind_time(p: Parsed<u32>) -> (r: Action)
    requires
        valid_hour_input(p),
    ensures
        r@ == update_remind_time_spec(p),
{
    match p {
        Parsed::Valid(h) => {
            let mut m = text(TIME_SAVED);
            m.append(hour_label(h).as_str());
            reply(Some(Write::RemindHour(h)), Some(State::Start), m, Keyboard::Remove)
        },
        Parsed::Invalid => reply(None, None, text(BAD_TIME), Keyboard::Keep),
        Parsed::NotText => reply(None, None, text(NOT_A_TIME), Keyboard::Keep),
    }
}

/// The answer to the question for a new birthdate.
pub fn update_birthdate(p: Parsed<Date>) -> (r: Action)
    requires
        valid_date_input(p),
    ensures
        r@ == update_birthdate_spec(p),
{
    match p {
        Parsed::Valid(d) => {
            let mut m = text(NEW_BIRTHDATE);
            m.append(shown(d).as_str());
            reply(Some(Write::Birthdate(d)), Some(State::Start), m, Keyboard::Remove)
        },
        Parsed::Invalid => reply(None, None, text(BAD_DATE), Keyboard::Keep),
        Parsed::NotText => reply(None, None, text(NOT_A_DATE), Keyboard::Keep),
    }
}

fn read_date(msg: &Incoming) -> (r: Parsed<Date>)
    ensures
        r == date_input(text_of(*msg)),
        valid_date_input(r),
{
    match msg {
        Incoming::Text(t) => match parse_date(t.as_str()) {
            Some(d) => Parsed::Valid(d),
            None => Parsed::Invalid,
        },
        _ => Parsed::NotText,
    }
}

fn read_hour(msg: &Incoming) -> (r: Parsed<u32>)
    ensures
        r == hour_input(text_of(*msg)),
        valid_hour_input(r),
{
    match msg {
        Incoming::Text(t) => match parse_hour(t.as_str()) {
            Some(h) => Parsed::Valid(h),
            None => Parsed::Invalid,
        },
        _ => Parsed::NotText,
    }
}

/// The reaction to `msg` in `state`, given the chat's stored record and the date of
/// today.
pub fn schema(state: State, msg: &Incoming, record: Option<Birthday>, today: Date) -> (r: Action)
    requires
        state.wf(),
        today.wf(),
        record matches Some(b) ==> b.wf(),
    ensures
        r@ == schema_spec(state, *msg, record, today),
        r.write matches Some(w) ==> w.wf(),
        r.next matches Some(n) ==> n.wf(),
{
    match msg {
        Incoming::Command(c) => match c {
            Command::Start => cmd_start(record, today),
            Command::ChangeRemindTime => cmd_update_remind_time(),
            Command::ChangeBirthdate => cmd_update_birthdate(),
            Command::DeactivateBot => cmd_deactivate(),
        },
        _ => match state {
            State::Start => {
                let r = Action { write: None, next: None, messages: Vec::new(), keyboard: Keyboard::Keep };
                assert(r@.messages =~= Seq::<Seq<char>>::empty());
                r
            },
            State::ReceiveBirthday => receive_birthday(read_date(msg)),
            State::ReceiveSendTime { birthday } => receive_send_time(birthday, read_hour(msg), today),
            State::UpdateRemindTime => update_remind_time(read_hour(msg)),
            State::UpdateBirthdate => update_birthdate(read_date(msg)),
        },
    }
}

/// The stored record of `chat_id`, if there is one.
pub open spec fn record_of(m: Map<i64, Birthday>, chat_id: i64) -> Option<Birthday> {
    if m.contains_key(chat_id) {
        Some(m[chat_id])
    } else {
        None
    }
}

/// The reaction to `msg` in the chat `chat_id`, whose record is read from `store`.
pub fn handle_message(store: &BirthdayStore, state: State, chat_id: i64, msg: &Incoming, today: Date) -> (r: Action)
    requires
        store.wf(),
        state.wf(),
        today.wf(),
    ensures
        r@ == schema_spec(state, *msg, record_of(store@, chat_id), today),
        r.write matches Some(w) ==> w.wf(),
        r.next matches Some(n) ==> n.wf(),
{
    proof {
        store.lemma_rows();
    }
    let record = store.get(chat_id);
    schema(state, msg, record, today)
}

/// Carries out `action` in the chat `chat_id` and returns the replies to send. `saved`
/// tells whether the durable copy of the records took the action's write; when it did
/// not, records and state stay as they were and the one reply is `NOT_SAVED`.
pub fn commit(store: &mut BirthdayStore, state: &mut State, chat_id: i64, action: Action, saved: bool) -> (r: Vec<String>)
    requires
        old(store).wf(),
        old(state).wf(),
        action.write matches Some(w) ==> w.wf(),
        action.next matches Some(n) ==> n.wf(),
    ensures
        final(store).wf(),
        final(state).wf(),
        (action.write is None || saved) ==> {
            &&& final(store)@ == (match action.write {
                Some(w) => apply_write(old(store)@, chat_id, w),
                None => old(store)@,
            })
            &&& *final(state) == (match action.next {
                Some(n) => n,
                None => *old(state),
            })
            &&& r@.map_values(|m: String| m@) == action@.messages
        },
        (action.write is Some && !saved) ==> {
            &&& final(store)@ == old(store)@
            &&& *final(state) == *old(state)
            &&& r@.map_values(|m: String| m@) == seq![NOT_SAVED@]
        },
{
    match action.write {
        Some(w) => {
            if !saved {
                let r = vec![text(NOT_SAVED)];
                assert(r@.map_values(|m: String| m@) =~= seq![NOT_SAVED@]);
                return r;
            }
            store.apply(chat_id, w);
        },
        None => {},
    }
    if let Some(n) = action.next {
        *state = n;
    }
    action.messages
}

/// Deactivation clears the active flag of an existing record; a later `start` sets it
/// again and leaves birthdate and reminder hour as they were.
pub proof fn lemma_deactivate_then_start(
    m: Map<i64, Birthday>,
    chat_id: i64,
    first: State,
    then: State,
    today: Date,
)
    requires
        valid_table(m),
        m.contains_key(chat_id),
    ensures
        ({
            let off = schema_spec(first, Incoming::Command(Command::DeactivateBot), record_of(m, chat_id), today);
            let m1 = apply_write(m, chat_id, Write::Active(false));
            let on = schema_spec(then, Incoming::Command(Command::Start), record_of(m1, chat_id), today);
            &&& off.write == Some(Write::Active(false))
            &&& m1.contains_key(chat_id) && !m1[chat_id].active
            &&& on.write == Some(Write::Active(true))
            &&& apply_write(m1, chat_id, Write::Active(true))[chat_id] == Birthday { active: true, ..m[chat_id] }
        }),
{
}

/// An answer to the birthdate question moves the conversation on exactly when chrono
/// reads a date from it, and then to the question for the hour of that date; nothing is
/// stored on the way.
pub proof fn lemma_birthdate_answer(msg: Incoming, record: Option<Birthday>, today: Date)
    requires
        msg is Text,
    ensures
        ({
            let a = schema_spec(State::ReceiveBirthday, msg, record, today);
            &&& a.write is None
            &&& (a.next is Some <==> parsed_date(text_of(msg).unwrap()) is Some)
            &&& a.next is None ==> a.messages == seq![BAD_DATE@]
            &&& a.next is Some ==> (date_input(text_of(msg)) matches Parsed::Valid(d) && a.next == Some(
                State::ReceiveSendTime { birthday: d },
            ))
        }),
{
}

} // verus!
