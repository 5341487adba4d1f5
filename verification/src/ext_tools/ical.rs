//! iCalendar (RFC 5545) text for to-do items: value escaping, content-line
//! folding and the VTODO properties of a task.
use vstd::prelude::*;
use vstd::utf8::encode_utf8;

use crate::text::{
    all_digits, char_utf8_width, decimal, digits_value, has_char, law_decimal_digits,
    law_padded_digits,
    law_utf8_len_is_encoding_length, lemma_decimal_len, padded, push_chars, push_decimal,
    push_padded, push_str, string_clear, string_push, utf8_len, utf8_width,
};
use crate::types::datetime::{lemma_civil_from_days_ranges, local_date, CivilTime, UtcDateTime};
use crate::types::id::{uuid_text, Uuid};
use crate::types::tag::TagRef;
use crate::types::task::{Status, Task};

verus! {

/// Reverses `ical_escape`: a backslash followed by `n` stands for a newline,
/// a backslash followed by any other character for that character.
pub open spec fn ical_unescape(s: Seq<char>) -> Seq<char>
    decreases s.len(),
{
    if s.len() == 0 {
        Seq::empty()
    } else if s[0] == '\\' && s.len() >= 2 {
        (if s[1] == 'n' {
            seq!['\n']
        } else {
            seq![s[1]]
        }) + ical_unescape(s.skip(2))
    } else {
        seq![s[0]] + ical_unescape(s.skip(1))
    }
}

/// Reverses line folding: every CRLF followed by a space is removed.
pub open spec fn ical_unfold(s: Seq<char>) -> Seq<char>
    decreases s.len(),
{
    if s.len() >= 3 && s[0] == '\r' && s[1] == '\n' && s[2] == ' ' {
        ical_unfold(s.skip(3))
    } else if s.len() == 0 {
        Seq::empty()
    } else {
        seq![s[0]] + ical_unfold(s.skip(1))
    }
}

/// Longest run of bytes a content line may hold before it is folded.
pub const FOLD_WIDTH: usize = 75;

/// Escaped form of one character of a TEXT value.
pub open spec fn ical_escape_char(c: char) -> Seq<char> {
    if c == '\\' {
        seq!['\\', '\\']
    } else if c == ';' {
        seq!['\\', ';']
    } else if c == ',' {
        seq!['\\', ',']
    } else if c == '\n' {
        seq!['\\', 'n']
    } else {
        seq![c]
    }
}

/// Escaped form of a TEXT value: backslash, semicolon and comma get a
/// backslash in front, a newline becomes `\n`.
pub open spec fn ical_escape(s: Seq<char>) -> Seq<char>
    decreases s.len(),
{
    if s.len() == 0 {
        Seq::empty()
    } else {
        ical_escape(s.drop_last()) + ical_escape_char(s.last())
    }
}

/// The year number without era: years before 1 count backwards from 1.
pub open spec fn year_ce(y: int) -> nat {
    if y < 1 {
        (1 - y) as nat
    } else {
        y as nat
    }
}

/// `YYYYMMDDTHHMMSSZ` form of the UTC instant `secs` seconds after the epoch.
pub open spec fn ical_datetime_text(secs: int) -> Seq<char> {
    let (y, m, d) = local_date(secs, 0);
    let t = secs % 86400;
    padded(year_ce(y), 4) + padded(m as nat, 2) + padded(d as nat, 2) + seq!['T'] + padded(
        (t / 3600) as nat,
        2,
    ) + padded(((t % 3600) / 60) as nat, 2) + padded((secs % 60) as nat, 2) + seq!['Z']
}

/// For a year with at most four digits, the iCalendar text of a UTC instant
/// is 16 characters, `YYYYMMDDTHHMMSSZ`, whose digit groups read back as the
/// year (without era), month and day of the instant's UTC date and the
/// hour, minute and second of its UTC time of day.
pub proof fn law_ical_datetime_fields(secs: int)
    requires
        year_ce(local_date(secs, 0).0) < 10000,
    ensures
        ({
            let t = ical_datetime_text(secs);
            let (y, m, d) = local_date(secs, 0);
            let day_secs = secs % 86400;
            &&& t.len() == 16
            &&& all_digits(t.subrange(0, 8)) && all_digits(t.subrange(9, 15))
            &&& t[8] == 'T' && t[15] == 'Z'
            &&& digits_value(t.subrange(0, 4)) == year_ce(y)
            &&& digits_value(t.subrange(4, 6)) == m
            &&& digits_value(t.subrange(6, 8)) == d
            &&& digits_value(t.subrange(9, 11)) == day_secs / 3600
            &&& digits_value(t.subrange(11, 13)) == (day_secs % 3600) / 60
            &&& digits_value(t.subrange(13, 15)) == secs % 60
        }),
{
    let (y, m, d) = local_date(secs, 0);
    lemma_civil_from_days_ranges(secs / 86400);
    let tt = secs % 86400;
    assert(0 <= tt / 3600 < 24) by (nonlinear_arith)
        requires
            0 <= tt < 86400,
    ;
    assert(0 <= (tt % 3600) / 60 < 60) by (nonlinear_arith)
        requires
            0 <= tt < 86400,
    ;
    let py = padded(year_ce(y), 4);
    let pm = padded(m as nat, 2);
    let pd = padded(d as nat, 2);
    let ph = padded((tt / 3600) as nat, 2);
    let pmi = padded(((tt % 3600) / 60) as nat, 2);
    let ps = padded((secs % 60) as nat, 2);
    lemma_decimal_len(year_ce(y));
    lemma_decimal_len(m as nat);
    lemma_decimal_len(d as nat);
    lemma_decimal_len((tt / 3600) as nat);
    lemma_decimal_len(((tt % 3600) / 60) as nat);
    lemma_decimal_len((secs % 60) as nat);
    law_padded_digits(year_ce(y), 4);
    law_padded_digits(m as nat, 2);
    law_padded_digits(d as nat, 2);
    law_padded_digits((tt / 3600) as nat, 2);
    law_padded_digits(((tt % 3600) / 60) as nat, 2);
    law_padded_digits((secs % 60) as nat, 2);
    let t = ical_datetime_text(secs);
    assert(t =~= py + pm + pd + seq!['T'] + ph + pmi + ps + seq!['Z']);
    assert(t.subrange(0, 4) =~= py);
    assert(t.subrange(4, 6) =~= pm);
    assert(t.subrange(6, 8) =~= pd);
    assert(t.subrange(9, 11) =~= ph);
    assert(t.subrange(11, 13) =~= pmi);
    assert(t.subrange(13, 15) =~= ps);
    assert(t.subrange(0, 8) =~= py + pm + pd);
    assert(t.subrange(9, 15) =~= ph + pmi + ps);
    assert forall|i: int| 0 <= i < 8 implies '0' <= #[trigger] t.subrange(0, 8)[i] && t.subrange(
        0,
        8,
    )[i] <= '9' by {
        if i < 4 {
            assert(t.subrange(0, 8)[i] == py[i]);
        } else if i < 6 {
            assert(t.subrange(0, 8)[i] == pm[i - 4]);
        } else {
            assert(t.subrange(0, 8)[i] == pd[i - 6]);
        }
    }
    assert forall|i: int| 0 <= i < 6 implies '0' <= #[trigger] t.subrange(9, 15)[i] && t.subrange(
        9,
        15,
    )[i] <= '9' by {
        if i < 2 {
            assert(t.subrange(9, 15)[i] == ph[i]);
        } else if i < 4 {
            assert(t.subrange(9, 15)[i] == pmi[i - 2]);
        } else {
            assert(t.subrange(9, 15)[i] == ps[i - 4]);
        }
    }
}

/// The value text of something that can be written as an iCalendar value.
pub trait ToICal {
    spec fn ical_text(&self) -> Seq<char>;

    fn write_ical(&self, buf: &mut Vec<char>)
        ensures
            final(buf)@ == old(buf)@ + self.ical_text(),
    ;
}

impl ToICal for u8 {
    open spec fn ical_text(&self) -> Seq<char> {
        decimal(*self as nat)
    }

    fn write_ical(&self, buf: &mut Vec<char>) {
        push_decimal(buf, *self as u64);
    }
}

impl ToICal for u16 {
    open spec fn ical_text(&self) -> Seq<char> {
        decimal(*self as nat)
    }

    fn write_ical(&self, buf: &mut Vec<char>) {
        push_decimal(buf, *self as u64);
    }
}

impl ToICal for u32 {
    open spec fn ical_text(&self) -> Seq<char> {
        decimal(*self as nat)
    }

    fn write_ical(&self, buf: &mut Vec<char>) {
        push_decimal(buf, *self as u64);
    }
}

impl ToICal for u64 {
    open spec fn ical_text(&self) -> Seq<char> {
        decimal(*self as nat)
    }

    fn write_ical(&self, buf: &mut Vec<char>) {
        push_decimal(buf, *self);
    }
}

impl ToICal for usize {
    open spec fn ical_text(&self) -> Seq<char> {
        decimal(*self as nat)
    }

    fn write_ical(&self, buf: &mut Vec<char>) {
        push_decimal(buf, *self as u64);
    }
}

impl ToICal for bool {
    open spec fn ical_text(&self) -> Seq<char> {
        if *self {
            seq!['t', 'r', 'u', 'e']
        } else {
            seq!['f', 'a', 'l', 's', 'e']
        }
    }

    fn write_ical(&self, buf: &mut Vec<char>) {
        if *self {
            buf.push('t');
            buf.push('r');
            buf.push('u');
            buf.push('e');
        } else {
            buf.push('f');
            buf.push('a');
            buf.push('l');
            buf.push('s');
            buf.push('e');
        }
    }
}

impl ToICal for str {
    open spec fn ical_text(&self) -> Seq<char> {
        ical_escape(self@)
    }

    fn write_ical(&self, buf: &mut Vec<char>) {
        let ghost start = buf@;
        let s: &str = self;
        for c in it: s.chars()
            invariant
                it.seq() == s@,
                buf@ == start + ical_escape(it.seq().take(it.index() as int)),
        {
            let ghost before = it.seq().take(it.index() as int);
            if c == '\\' {
                buf.push('\\');
                buf.push('\\');
            } else if c == ';' {
                buf.push('\\');
                buf.push(';');
            } else if c == ',' {
                buf.push('\\');
                buf.push(',');
            } else if c == '\n' {
                buf.push('\\');
                buf.push('n');
            } else {
                buf.push(c);
            }
            proof {
                let after = it.seq().take(it.index() + 1);
                assert(after.drop_last() =~= before);
                assert(after.last() == c);
            }
        }
        proof {
            assert(s@.take(s@.len() as int) =~= s@);
        }
    }
}

impl<'a, T: ToICal + ?Sized> ToICal for &'a T {
    open spec fn ical_text(&self) -> Seq<char> {
        (**self).ical_text()
    }

    fn write_ical(&self, buf: &mut Vec<char>) {
        T::write_ical(*self, buf)
    }
}

/// `YYYYMMDDTHHMMSSZ` form of calendar fields read in UTC.
pub open spec fn ical_civil_text(c: CivilTime) -> Seq<char> {
    padded(year_ce(c.year as int), 4) + padded(c.month as nat, 2) + padded(c.day as nat, 2) + seq![
        'T',
    ] + padded(c.hour as nat, 2) + padded(c.minute as nat, 2) + padded(c.second as nat, 2) + seq![
        'Z',
    ]
}

/// Appends the `YYYYMMDDTHHMMSSZ` form of calendar fields read in UTC.
pub fn push_ical_civil(buf: &mut Vec<char>, c: &CivilTime)
    ensures
        final(buf)@ == old(buf)@ + ical_civil_text(*c),
{
    let ghost start = buf@;
    let y: i64 = c.year as i64;
    let year: u64 = if y < 1 {
        (1 - y) as u64
    } else {
        y as u64
    };
    assert(year as nat == year_ce(c.year as int));
    let mut date: Vec<char> = Vec::new();
    push_padded(&mut date, year, 4);
    push_padded(&mut date, c.month as u64, 2);
    push_padded(&mut date, c.day as u64, 2);
    let ghost date_text = padded(year_ce(c.year as int), 4) + padded(c.month as nat, 2) + padded(
        c.day as nat,
        2,
    );
    assert(date@ =~= date_text);
    let mut time: Vec<char> = Vec::new();
    push_padded(&mut time, c.hour as u64, 2);
    push_padded(&mut time, c.minute as u64, 2);
    push_padded(&mut time, c.second as u64, 2);
    let ghost time_text = padded(c.hour as nat, 2) + padded(c.minute as nat, 2) + padded(
        c.second as nat,
        2,
    );
    assert(time@ =~= time_text);
    push_chars(buf, &date);
    buf.push('T');
    push_chars(buf, &time);
    buf.push('Z');
    proof {
        assert(ical_civil_text(*c) =~= date_text + seq!['T'] + time_text + seq!['Z']);
        assert(buf@ =~= start + ical_civil_text(*c));
    }
}

impl ToICal for UtcDateTime {
    open spec fn ical_text(&self) -> Seq<char> {
        ical_datetime_text(self.spec_secs())
    }

    fn write_ical(&self, buf: &mut Vec<char>) {
        let c = self.civil();
        let ghost secs = self.spec_secs();
        let ghost t = secs % 86400;
        proof {
            assert(0 <= t < 86400);
            assert(0 <= t / 3600 < 24) by (nonlinear_arith)
                requires
                    0 <= t < 86400,
            ;
            assert(0 <= (t % 3600) / 60 < 60) by (nonlinear_arith)
                requires
                    0 <= t < 86400,
            ;
            assert(0 <= secs % 60 < 60);
            assert(c.hour as int == t / 3600);
            assert(c.minute as int == (t % 3600) / 60);
            assert(c.second as int == secs % 60);
            let (yy, m, d) = local_date(secs, 0);
            assert(c.year as int == yy);
            assert(c.month as nat == m as nat);
            assert(c.day as nat == d as nat);
            assert(ical_civil_text(c) =~= ical_datetime_text(secs));
        }
        push_ical_civil(buf, &c);
    }
}

impl ToICal for Uuid {
    open spec fn ical_text(&self) -> Seq<char> {
        uuid_text(self.0)
    }

    fn write_ical(&self, buf: &mut Vec<char>) {
        let t = self.to_text();
        push_str(buf, t.as_str());
    }
}

/// Number of leading characters of `s` whose UTF-8 encoding fits in
/// `budget` bytes.
pub open spec fn fit_len(s: Seq<char>, budget: int) -> nat
    decreases s.len(),
{
    if s.len() == 0 || utf8_width(s[0]) > budget {
        0
    } else {
        1 + fit_len(s.drop_first(), budget - utf8_width(s[0]))
    }
}

/// Line break of a content line.
pub open spec fn crlf() -> Seq<char> {
    seq!['\r', '\n']
}

/// Line break followed by the space that marks a continuation line.
pub open spec fn fold_break() -> Seq<char> {
    seq!['\r', '\n', ' ']
}

/// A content line folded after the longest prefix of at most 75 bytes that
/// ends on a character boundary, repeatedly, and terminated by CRLF.
pub open spec fn folded(line: Seq<char>) -> Seq<char>
    decreases line.len(),
{
    let k = fit_len(line, FOLD_WIDTH as int);
    if k == 0 || k >= line.len() {
        line + crlf()
    } else {
        line.take(k as int) + fold_break() + folded(line.skip(k as int))
    }
}

/// The property line `name:value`, folded.
#[verifier::opaque]
pub open spec fn prop_line(name: Seq<char>, value: Seq<char>) -> Seq<char> {
    folded(name + seq![':'] + value)
}

/// Escaped tag names joined by commas.
pub open spec fn tag_list(tags: Seq<TagRef>) -> Seq<char>
    decreases tags.len(),
{
    if tags.len() == 0 {
        Seq::empty()
    } else if tags.len() == 1 {
        ical_escape(tags[0].name@)
    } else {
        tag_list(tags.drop_last()) + seq![','] + ical_escape(tags.last().name@)
    }
}

/// The description of a task, or nothing.
pub open spec fn description_text(d: Option<String>) -> Seq<char> {
    match d {
        Some(s) => s@,
        None => ""@,
    }
}

/// The iCalendar status of a task status.
pub open spec fn status_text(s: Status) -> Seq<char> {
    match s {
        Status::Pending => "NEEDS-ACTION"@,
        Status::Completed => "COMPLETED"@,
    }
}

/// The CATEGORIES line of a task, if it has tags.
pub open spec fn task_category_lines(task: Task) -> Seq<char> {
    if task.tags@.len() > 0 {
        prop_line("CATEGORIES"@, tag_list(task.tags@))
    } else {
        Seq::empty()
    }
}

/// The DESCRIPTION, DTSTAMP and PRIORITY lines of a task.
pub open spec fn task_head_lines(task: Task) -> Seq<char> {
    prop_line("DESCRIPTION"@, ical_escape(description_text(task.description))) + prop_line(
        "DTSTAMP"@,
        ical_datetime_text(task.created.spec_secs()),
    ) + prop_line("PRIORITY"@, decimal(0))
}

/// The COMPLETED and PERCENT-COMPLETE lines of a task, if it has a
/// completion time.
pub open spec fn task_completed_lines(task: Task) -> Seq<char> {
    match task.completed {
        Some(c) => prop_line("COMPLETED"@, ical_datetime_text(c.spec_secs())) + prop_line(
            "PERCENT-COMPLETE"@,
            ical_escape("100"@),
        ),
        None => Seq::empty(),
    }
}

/// The STATUS, SUMMARY, UID and X-APPLE-SORT-ORDER lines of task `task` at
/// position `idx`.
pub open spec fn task_tail_lines(idx: int, task: Task) -> Seq<char> {
    prop_line("STATUS"@, ical_escape(status_text(task.status))) + prop_line(
        "SUMMARY"@,
        ical_escape(task.name@),
    ) + prop_line("UID"@, uuid_text(task.id.0)) + prop_line(
        "X-APPLE-SORT-ORDER"@,
        decimal(((idx + 1) * 100) as nat),
    )
}

/// The property lines of the VTODO for task `task` at position `idx`, in
/// order: categories, description, time stamp, priority, completion,
/// status, summary, uid and sort order.
pub open spec fn task_lines(idx: int, task: Task) -> Seq<char> {
    task_category_lines(task) + task_head_lines(task) + task_completed_lines(task)
        + task_tail_lines(idx, task)
}

/// The property lines of a task's status (NEEDS-ACTION for a pending task,
/// COMPLETED for a completed one), name, id and sort order, in this order.
pub open spec fn status_to_order_lines(task: Task, order: Seq<char>) -> Seq<char> {
    prop_line(
        "STATUS"@,
        ical_escape(
            if task.status == Status::Pending {
                "NEEDS-ACTION"@
            } else {
                "COMPLETED"@
            },
        ),
    ) + prop_line("SUMMARY"@, ical_escape(task.name@)) + prop_line("UID"@, uuid_text(task.id.0))
        + prop_line("X-APPLE-SORT-ORDER"@, order)
}

/// The property lines of a task end with its status, name and id, and a sort
/// order whose digits read back as 100 times its one-based position.
pub proof fn law_task_lines_end(idx: int, task: Task)
    requires
        idx >= 0,
    ensures
        exists|order: Seq<char>|
            {
                let tail = status_to_order_lines(task, order);
                let all = task_lines(idx, task);
                &&& all_digits(order)
                &&& #[trigger] digits_value(order) == (idx + 1) * 100
                &&& all.len() >= tail.len()
                &&& all.subrange(all.len() - tail.len(), all.len() as int) == tail
            },
{
    let head = task_category_lines(task) + task_head_lines(task) + task_completed_lines(task);
    let order = decimal(((idx + 1) * 100) as nat);
    law_decimal_digits(((idx + 1) * 100) as nat);
    let st = if task.status == Status::Pending {
        "NEEDS-ACTION"@
    } else {
        "COMPLETED"@
    };
    assert(status_text(task.status) == st);
    let tail = status_to_order_lines(task, order);
    let all = task_lines(idx, task);
    assert(all =~= head + tail);
    assert(all.subrange(all.len() - tail.len(), all.len() as int) =~= tail);
}

/// Text that opens a calendar holding one to-do.
pub open spec fn calendar_header() -> Seq<char> {
    "BEGIN:VCALENDAR\nVERSION:2.0\nPRODID:-//task-util (https://github.com/Forist2034/task-util)\nBEGIN:VTODO\n"@
}

/// Text that closes the to-do and the calendar.
pub open spec fn calendar_footer() -> Seq<char> {
    "END:VTODO\nEND:VCALENDAR\n"@
}

proof fn lemma_fit_len_positive(s: Seq<char>)
    requires
        s.len() > 0,
    ensures
        fit_len(s, FOLD_WIDTH as int) >= 1,
{
    assert(utf8_width(s[0]) <= 4);
}

proof fn lemma_fit_len_bound(s: Seq<char>, budget: int)
    ensures
        fit_len(s, budget) <= s.len(),
    decreases s.len(),
{
    if s.len() > 0 && utf8_width(s[0]) <= budget {
        lemma_fit_len_bound(s.drop_first(), budget - utf8_width(s[0]));
    }
}

proof fn lemma_escape_append(a: Seq<char>, b: Seq<char>)
    ensures
        ical_escape(a + b) == ical_escape(a) + ical_escape(b),
    decreases b.len(),
{
    if b.len() == 0 {
        assert(a + b =~= a);
        assert(ical_escape(a) + ical_escape(b) =~= ical_escape(a));
    } else {
        lemma_escape_append(a, b.drop_last());
        assert((a + b).drop_last() =~= a + b.drop_last());
        assert((a + b).last() == b.last());
        assert(ical_escape(a + b) =~= ical_escape(a) + ical_escape(b));
    }
}

proof fn lemma_escape_cons(s: Seq<char>)
    requires
        s.len() > 0,
    ensures
        ical_escape(s) == ical_escape_char(s[0]) + ical_escape(s.skip(1)),
{
    lemma_escape_append(seq![s[0]], s.skip(1));
    assert(seq![s[0]] + s.skip(1) =~= s);
    let one = seq![s[0]];
    assert(one.drop_last() =~= Seq::<char>::empty());
    assert(one.last() == s[0]);
    assert(ical_escape(Seq::<char>::empty()) =~= Seq::<char>::empty());
    assert(ical_escape(one) == ical_escape(one.drop_last()) + ical_escape_char(one.last()));
    assert(ical_escape(one) =~= ical_escape_char(s[0]));
}

/// Unescaping the escaped form of a TEXT value gives the value back.
pub proof fn law_unescape_escape(s: Seq<char>)
    ensures
        ical_unescape(ical_escape(s)) == s,
    decreases s.len(),
{
    if s.len() > 0 {
        lemma_escape_cons(s);
        law_unescape_escape(s.skip(1));
        let e = ical_escape_char(s[0]);
        let rest = ical_escape(s.skip(1));
        let whole = e + rest;
        if e.len() == 2 {
            assert(whole.skip(2) =~= rest);
        } else {
            assert(whole.skip(1) =~= rest);
        }
        assert(seq![s[0]] + s.skip(1) =~= s);
    }
}

/// The escaped form of a TEXT value never holds a newline.
pub proof fn law_escape_has_no_newline(s: Seq<char>)
    ensures
        !has_char(ical_escape(s), '\n'),
    decreases s.len(),
{
    if s.len() > 0 {
        law_escape_has_no_newline(s.drop_last());
        let a = ical_escape(s.drop_last());
        let b = ical_escape_char(s.last());
        assert forall|i: int| 0 <= i < (a + b).len() implies (a + b)[i] != '\n' by {
            if i < a.len() {
                assert((a + b)[i] == a[i]);
            } else {
                assert((a + b)[i] == b[i - a.len()]);
            }
        }
    }
}

/// Whether a character of a TEXT value has to be escaped: backslash,
/// semicolon, comma and newline.
pub open spec fn is_ical_special(c: char) -> bool {
    c == '\\' || c == ';' || c == ',' || c == '\n'
}

/// Number of characters of `s` that have to be escaped.
pub open spec fn special_count(s: Seq<char>) -> nat
    decreases s.len(),
{
    if s.len() == 0 {
        0
    } else {
        special_count(s.drop_last()) + if is_ical_special(s.last()) {
            1nat
        } else {
            0nat
        }
    }
}

/// Escaping lengthens a TEXT value by one character for each backslash,
/// semicolon, comma and newline in it, and leaves a value without any of
/// them unchanged.
pub proof fn law_escape_length(s: Seq<char>)
    ensures
        ical_escape(s).len() == s.len() + special_count(s),
        special_count(s) == 0 ==> ical_escape(s) == s,
    decreases s.len(),
{
    if s.len() > 0 {
        law_escape_length(s.drop_last());
        if special_count(s) == 0 {
            assert(s.drop_last().push(s.last()) =~= s);
        }
    }
}

/// Whether `s` holds no CRLF followed by a space, the sequence that marks a
/// continuation line.
pub open spec fn no_fold_mark(s: Seq<char>) -> bool {
    forall|i: int|
        0 <= i && i + 2 < s.len() ==> !(#[trigger] s[i] == '\r' && s[i + 1] == '\n' && s[i + 2]
            == ' ')
}

proof fn lemma_no_fold_mark_sub(s: Seq<char>, lo: int, hi: int)
    requires
        no_fold_mark(s),
        0 <= lo <= hi <= s.len(),
    ensures
        no_fold_mark(s.subrange(lo, hi)),
{
    let t = s.subrange(lo, hi);
    assert forall|i: int| 0 <= i && i + 2 < t.len() implies !(#[trigger] t[i] == '\r' && t[i + 1]
        == '\n' && t[i + 2] == ' ') by {
        assert(t[i] == s[i + lo]);
        assert(t[i + 1] == s[i + lo + 1]);
        assert(t[i + 2] == s[i + lo + 2]);
    }
}

proof fn lemma_unfold_plain_prefix(a: Seq<char>, b: Seq<char>)
    requires
        no_fold_mark(a),
        b.len() > 0,
        b[0] == '\r',
    ensures
        ical_unfold(a + b) == a + ical_unfold(b),
    decreases a.len(),
{
    if a.len() == 0 {
        assert(a + b =~= b);
        assert(a + ical_unfold(b) =~= ical_unfold(b));
    } else {
        let s = a + b;
        assert(s[0] == a[0]);
        if a.len() >= 3 {
            assert(s[1] == a[1] && s[2] == a[2]);
            assert(!(a[0] == '\r' && a[1] == '\n' && a[2] == ' '));
        } else if a.len() == 2 {
            assert(s[2] == b[0]);
        } else {
            assert(s[1] == b[0]);
        }
        assert(s.skip(1) =~= a.skip(1) + b);
        lemma_no_fold_mark_sub(a, 1, a.len() as int);
        assert(a.skip(1) =~= a.subrange(1, a.len() as int));
        lemma_unfold_plain_prefix(a.skip(1), b);
        assert(seq![a[0]] + (a.skip(1) + ical_unfold(b)) =~= a + ical_unfold(b));
    }
}

/// Unfolding a folded content line gives the line back, followed by CRLF,
/// as long as the line itself holds no CRLF followed by a space.
pub proof fn law_unfold_folded(line: Seq<char>)
    requires
        no_fold_mark(line),
    ensures
        ical_unfold(folded(line)) == line + crlf(),
    decreases line.len(),
{
    let k = fit_len(line, FOLD_WIDTH as int);
    let c = crlf();
    assert(ical_unfold(c.skip(1)) =~= seq!['\n']) by {
        let n = seq!['\n'];
        assert(c.skip(1) =~= n);
        assert(n.skip(1) =~= Seq::<char>::empty());
        assert(ical_unfold(Seq::<char>::empty()) =~= Seq::<char>::empty());
        assert(n[0] == '\n');
        assert(ical_unfold(n) == seq![n[0]] + ical_unfold(n.skip(1)));
    }
    assert(ical_unfold(c) =~= c);
    if k == 0 || k >= line.len() {
        lemma_unfold_plain_prefix(line, c);
    } else {
        let head = line.take(k as int);
        let tail = line.skip(k as int);
        lemma_no_fold_mark_sub(line, 0, k as int);
        assert(head =~= line.subrange(0, k as int));
        lemma_no_fold_mark_sub(line, k as int, line.len() as int);
        assert(tail =~= line.subrange(k as int, line.len() as int));
        law_unfold_folded(tail);
        let rest = fold_break() + folded(tail);
        assert(rest.skip(3) =~= folded(tail));
        assert(rest[0] == '\r');
        assert(head + fold_break() + folded(tail) =~= head + rest);
        lemma_unfold_plain_prefix(head, rest);
        assert(head + (tail + c) =~= line + c);
    }
}

/// The pieces a content line is cut into by folding.
pub open spec fn fold_pieces(line: Seq<char>) -> Seq<Seq<char>>
    decreases line.len(),
{
    let k = fit_len(line, FOLD_WIDTH as int);
    if k == 0 || k >= line.len() {
        seq![line]
    } else {
        seq![line.take(k as int)] + fold_pieces(line.skip(k as int))
    }
}

/// Pieces of a folded line written out: separated by CRLF and a space, the
/// last one followed by CRLF.
pub open spec fn join_folded(p: Seq<Seq<char>>) -> Seq<char>
    decreases p.len(),
{
    if p.len() == 0 {
        crlf()
    } else if p.len() == 1 {
        p[0] + crlf()
    } else {
        p[0] + fold_break() + join_folded(p.drop_first())
    }
}

proof fn lemma_utf8_len_cons(c: char, s: Seq<char>)
    ensures
        utf8_len(seq![c] + s) == utf8_width(c) + utf8_len(s),
{
    let t = seq![c] + s;
    assert(t[0] == c);
    assert(t.drop_first() =~= s);
}

proof fn lemma_fit_len_prefix(s: Seq<char>, budget: int)
    requires
        budget >= 0,
    ensures
        fit_len(s, budget) <= s.len(),
        utf8_len(s.take(fit_len(s, budget) as int)) <= budget,
        fit_len(s, budget) < s.len() ==> utf8_len(s.take(fit_len(s, budget) as int)) + utf8_width(
            s[fit_len(s, budget) as int],
        ) > budget,
    decreases s.len(),
{
    let k = fit_len(s, budget);
    if s.len() == 0 || utf8_width(s[0]) > budget {
        assert(s.take(0) =~= Seq::<char>::empty());
    } else {
        let w = utf8_width(s[0]);
        let rest = s.drop_first();
        lemma_fit_len_prefix(rest, budget - w);
        let k1 = fit_len(rest, budget - w);
        assert(s.take(k as int) =~= seq![s[0]] + rest.take(k1 as int));
        lemma_utf8_len_cons(s[0], rest.take(k1 as int));
        if k < s.len() {
            assert(s[k as int] == rest[k1 as int]);
        }
    }
}

/// Folding cuts a content line into pieces of at most 75 bytes each, every
/// piece but the last as long as the next character allows; the pieces put
/// together are the line, and the folded text is the pieces separated by
/// CRLF and a space, ended by CRLF.
pub proof fn law_fold_pieces(line: Seq<char>)
    ensures
        folded(line) == join_folded(fold_pieces(line)),
        fold_pieces(line).len() >= 1,
        fold_pieces(line).flatten() == line,
        forall|i: int| 0 <= i < fold_pieces(line).len() ==> utf8_len(#[trigger] fold_pieces(line)[i])
            <= FOLD_WIDTH,
        forall|i: int|
            0 <= i < fold_pieces(line).len() - 1 ==> #[trigger] fold_pieces(line)[i].len() > 0
                && utf8_len(fold_pieces(line)[i]) + utf8_width(fold_pieces(line)[i + 1][0])
                > FOLD_WIDTH,
    decreases line.len(),
{
    let k = fit_len(line, FOLD_WIDTH as int);
    let p = fold_pieces(line);
    lemma_fit_len_prefix(line, FOLD_WIDTH as int);
    if line.len() > 0 {
        lemma_fit_len_positive(line);
    }
    if k == 0 || k >= line.len() {
        assert(line.take(k as int) =~= line);
        assert(p.drop_first() =~= Seq::<Seq<char>>::empty());
        assert(Seq::<Seq<char>>::empty().flatten() =~= Seq::<char>::empty());
        assert(p.flatten() == p.first() + p.drop_first().flatten());
        assert(p.flatten() =~= line);
    } else {
        let tail = line.skip(k as int);
        law_fold_pieces(tail);
        let q = fold_pieces(tail);
        assert(p.drop_first() =~= q);
        assert(p[0] == line.take(k as int));
        assert(p.flatten() =~= line.take(k as int) + q.flatten());
        assert(line.take(k as int) + tail =~= line);
        let k2 = fit_len(tail, FOLD_WIDTH as int);
        lemma_fit_len_positive(tail);
        lemma_fit_len_bound(tail, FOLD_WIDTH as int);
        if k2 == 0 || k2 >= tail.len() {
            assert(q[0] == tail);
        } else {
            assert(q[0] == tail.take(k2 as int));
        }
        assert(q[0].len() > 0);
        assert(q[0][0] == tail[0]);
        assert(tail[0] == line[k as int]);
        assert forall|i: int| 0 <= i < p.len() implies utf8_len(#[trigger] p[i]) <= FOLD_WIDTH by {
            if i > 0 {
                assert(p[i] == q[i - 1]);
            }
        }
        assert forall|i: int| 0 <= i < p.len() - 1 implies #[trigger] p[i].len() > 0 && utf8_len(p[i])
            + utf8_width(p[i + 1][0]) > FOLD_WIDTH by {
            if i > 0 {
                assert(p[i] == q[i - 1]);
                assert(p[i + 1] == q[i]);
            } else {
                assert(p[1] == q[0]);
            }
        }
        if q.len() == 1 {
            assert(join_folded(p) == p[0] + fold_break() + join_folded(p.drop_first()));
        }
    }
}

/// Written out in UTF-8, every piece of a folded content line is at most 75
/// bytes long, and every piece but the last would pass 75 bytes with the
/// first character of the next piece.
pub proof fn law_fold_pieces_utf8_bytes(line: Seq<char>)
    ensures
        forall|i: int|
            0 <= i < fold_pieces(line).len() ==> encode_utf8(#[trigger] fold_pieces(line)[i]).len()
                <= FOLD_WIDTH,
        forall|i: int|
            0 <= i < fold_pieces(line).len() - 1 ==> encode_utf8(#[trigger] fold_pieces(line)[i]).len()
                + encode_utf8(seq![fold_pieces(line)[i + 1][0]]).len() > FOLD_WIDTH,
{
    law_fold_pieces(line);
    let p = fold_pieces(line);
    assert forall|i: int| 0 <= i < p.len() implies encode_utf8(#[trigger] p[i]).len() <= FOLD_WIDTH by {
        law_utf8_len_is_encoding_length(p[i]);
    }
    assert forall|i: int| 0 <= i < p.len() - 1 implies encode_utf8(#[trigger] p[i]).len()
        + encode_utf8(seq![p[i + 1][0]]).len() > FOLD_WIDTH by {
        law_utf8_len_is_encoding_length(p[i]);
        law_utf8_len_is_encoding_length(seq![p[i + 1][0]]);
        let one = seq![p[i + 1][0]];
        assert(one.drop_first() =~= Seq::<char>::empty());
        assert(utf8_len(one) == utf8_width(p[i + 1][0]) + utf8_len(Seq::<char>::empty()));
    }
}

/// Builds the text of an iCalendar to-do, property by property.
pub struct ICalTodoBuilder {
    line_buf: Vec<char>,
    buf: String,
}

impl View for ICalTodoBuilder {
    type V = Seq<char>;

    closed spec fn view(&self) -> Seq<char> {
        self.buf@
    }
}

impl ICalTodoBuilder {
    /// Whether no partial content line is pending in the scratch buffer.
    pub closed spec fn no_pending_line(&self) -> bool {
        self.line_buf@.len() == 0
    }

    pub fn new() -> (r: Self)
        ensures
            r@ == Seq::<char>::empty(),
            r.no_pending_line(),
    {
        ICalTodoBuilder { buf: String::new(), line_buf: Vec::new() }
    }

    /// Appends `line`, folded, to `buf`.
    fn flush_line(buf: &mut String, line: &Vec<char>)
        ensures
            final(buf)@ == old(buf)@ + folded(line@),
    {
        let ghost start_buf = buf@;
        let ghost l = line@;
        let len = line.len();
        let mut start: usize = 0;
        proof {
            assert(l.skip(0) =~= l);
        }
        loop
            invariant_except_break
                start < len || (start == 0 && len == 0),
                l == line@,
                len == l.len(),
                start_buf + folded(l) =~= buf@ + folded(l.skip(start as int)),
            ensures
                buf@ =~= start_buf + folded(l),
            decreases len - start,
        {
            let ghost rest = l.skip(start as int);
            let ghost buf_before = buf@;
            let mut end: usize = start;
            let mut bytes: usize = 0;
            proof {
                assert(rest =~= l.skip(end as int));
            }
            while end < len && bytes + char_utf8_width(line[end]) <= FOLD_WIDTH
                invariant
                    start <= end <= len,
                    bytes <= FOLD_WIDTH,
                    l == line@,
                    len == l.len(),
                    rest == l.skip(start as int),
                    fit_len(rest, FOLD_WIDTH as int) == (end - start) + fit_len(
                        l.skip(end as int),
                        FOLD_WIDTH - bytes,
                    ),
                decreases len - end,
            {
                let w = char_utf8_width(line[end]);
                proof {
                    let s = l.skip(end as int);
                    assert(s[0] == l[end as int]);
                    assert(s.drop_first() =~= l.skip(end + 1));
                }
                bytes = bytes + w;
                end = end + 1;
            }
            proof {
                let s = l.skip(end as int);
                if end < len {
                    assert(s[0] == l[end as int]);
                }
                assert(fit_len(s, FOLD_WIDTH - bytes) == 0);
                if len > 0 {
                    lemma_fit_len_positive(rest);
                }
            }
            let ghost k = end - start;
            let mut i = start;
            while i < end
                invariant
                    start <= i <= end <= len,
                    l == line@,
                    len == l.len(),
                    buf@ == buf_before + l.subrange(start as int, i as int),
                decreases end - i,
            {
                string_push(buf, line[i]);
                proof {
                    assert(l.subrange(start as int, i + 1) =~= l.subrange(start as int, i as int).push(
                        l[i as int],
                    ));
                }
                i = i + 1;
            }
            proof {
                assert(rest.take(k) =~= l.subrange(start as int, end as int));
            }
            if end == len {
                string_push(buf, '\r');
                string_push(buf, '\n');
                proof {
                    assert(rest =~= rest.take(k));
                    assert(folded(rest) == rest + crlf());
                    assert(buf@ =~= buf_before + folded(rest));
                }
                break;
            } else {
                string_push(buf, '\r');
                string_push(buf, '\n');
                string_push(buf, ' ');
                proof {
                    assert(rest.skip(k) =~= l.skip(end as int));
                    assert(folded(rest) == rest.take(k) + fold_break() + folded(rest.skip(k)));
                    assert(buf@ =~= buf_before + rest.take(k) + fold_break());
                }
                start = end;
            }
        }
    }

    /// Appends the CATEGORIES line listing the names of `tags`, if there is
    /// any tag.
    fn add_categories(&mut self, tags: &Vec<TagRef>)
        ensures
            final(self)@ == old(self)@ + (if tags@.len() > 0 {
                prop_line("CATEGORIES"@, tag_list(tags@))
            } else {
                Seq::<char>::empty()
            }),
            tags@.len() > 0 ==> final(self).no_pending_line(),
            tags@.len() == 0 ==> final(self).no_pending_line() == old(self).no_pending_line(),
    {
        if tags.len() > 0 {
            let mut line: Vec<char> = Vec::new();
            std::mem::swap(&mut line, &mut self.line_buf);
            line.clear();
            push_str(&mut line, "CATEGORIES");
            line.push(':');
            let ghost head = line@;
            (&tags[0].name.as_str()).write_ical(&mut line);
            proof {
                assert(tags@.take(1) =~= seq![tags@[0]]);
            }
            let mut i: usize = 1;
            while i < tags.len()
                invariant
                    1 <= i <= tags@.len(),
                    line@ == head + tag_list(tags@.take(i as int)),
                decreases tags.len() - i,
            {
                line.push(',');
                (&tags[i].name.as_str()).write_ical(&mut line);
                proof {
                    let t = tags@.take(i + 1);
                    assert(t.drop_last() =~= tags@.take(i as int));
                    assert(line@ =~= head + tag_list(t));
                }
                i = i + 1;
            }
            proof {
                assert(tags@.take(tags@.len() as int) =~= tags@);
                assert(line@ =~= "CATEGORIES"@ + seq![':'] + tag_list(tags@));
            }
            Self::flush_line(&mut self.buf, &line);
            line.clear();
            self.line_buf = line;
            proof {
                reveal(prop_line);
            }
        } else {
            proof {
                assert(self@ =~= old(self)@ + Seq::<char>::empty());
            }
        }
    }

    /// Appends the COMPLETED and PERCENT-COMPLETE lines if the task has a
    /// completion time.
    fn add_completed(&mut self, completed: &Option<crate::types::datetime::DateTime>)
        ensures
            final(self)@ == old(self)@ + (match *completed {
                Some(c) => prop_line("COMPLETED"@, ical_datetime_text(c.spec_secs())) + prop_line(
                    "PERCENT-COMPLETE"@,
                    ical_escape("100"@),
                ),
                None => Seq::empty(),
            }),
            completed is Some ==> final(self).no_pending_line(),
            completed is None ==> final(self).no_pending_line() == old(self).no_pending_line(),
    {
        match completed {
            Some(c) => {
                let ghost s0 = self@;
                self.add_simple_prop("COMPLETED", c.to_utc());
                self.add_simple_prop("PERCENT-COMPLETE", "100");
                proof {
                    assert(self@ =~= s0 + (prop_line("COMPLETED"@, ical_datetime_text(c.spec_secs()))
                        + prop_line("PERCENT-COMPLETE"@, ical_escape("100"@))));
                }
            },
            None => {
                proof {
                    assert(self@ =~= old(self)@ + Seq::<char>::empty());
                }
            },
        }
    }

    /// Appends the DESCRIPTION, DTSTAMP and PRIORITY lines of a task.
    fn add_head_props(&mut self, task: &Task)
        ensures
            final(self)@ == old(self)@ + task_head_lines(*task),
            final(self).no_pending_line(),
    {
        let ghost s0 = self@;
        let desc: &str = match &task.description {
            Some(v) => v.as_str(),
            None => "",
        };
        self.add_simple_prop("DESCRIPTION", desc);
        self.add_simple_prop("DTSTAMP", task.created.to_utc());
        self.add_simple_prop("PRIORITY", 0u8);
        proof {
            assert(self@ =~= s0 + task_head_lines(*task));
        }
    }

    /// Appends the STATUS, SUMMARY, UID and X-APPLE-SORT-ORDER lines of a task.
    fn add_tail_props(&mut self, idx: usize, task: &Task)
        requires
            (idx + 1) * 100 <= usize::MAX,
        ensures
            final(self)@ == old(self)@ + task_tail_lines(idx as int, *task),
            final(self).no_pending_line(),
    {
        let ghost s0 = self@;
        let status: &str = match task.status {
            Status::Pending => "NEEDS-ACTION",
            Status::Completed => "COMPLETED",
        };
        self.add_simple_prop("STATUS", status);
        self.add_simple_prop("SUMMARY", task.name.as_str());
        self.add_simple_prop("UID", task.id);
        self.add_simple_prop("X-APPLE-SORT-ORDER", (idx + 1) * 100);
        proof {
            assert(self@ =~= s0 + task_tail_lines(idx as int, *task));
        }
    }

    /// Appends the property lines of task `task`, the `idx`-th of its project.
    pub fn add_task(&mut self, idx: usize, task: &Task)
        requires
            (idx + 1) * 100 <= usize::MAX,
        ensures
            final(self)@ == old(self)@ + task_lines(idx as int, *task),
            final(self).no_pending_line(),
    {
        let ghost s0 = self@;
        self.add_categories(&task.tags);
        let ghost s1 = self@;
        self.add_head_props(task);
        let ghost s2 = self@;
        self.add_completed(&task.completed);
        let ghost s3 = self@;
        self.add_tail_props(idx, task);
        proof {
            assert(self@ =~= s0 + task_lines(idx as int, *task));
        }
    }

    /// Appends the property line `prop:value`, folded.
    pub fn add_simple_prop<T: ToICal>(&mut self, prop: &str, val: T)
        ensures
            final(self)@ == old(self)@ + prop_line(prop@, val.ical_text()),
            final(self).no_pending_line(),
    {
        let mut line: Vec<char> = Vec::new();
        std::mem::swap(&mut line, &mut self.line_buf);
        line.clear();
        push_str(&mut line, prop);
        line.push(':');
        val.write_ical(&mut line);
        proof {
            assert(line@ =~= prop@ + seq![':'] + val.ical_text());
        }
        Self::flush_line(&mut self.buf, &line);
        line.clear();
        self.line_buf = line;
        proof {
            reveal(prop_line);
        }
    }

    /// Starts a new calendar, dropping any text built so far.
    pub fn clear(&mut self)
        ensures
            final(self)@ == calendar_header(),
            final(self).no_pending_line() == old(self).no_pending_line(),
    {
        string_clear(&mut self.buf);
        self.buf.append(
            "BEGIN:VCALENDAR\nVERSION:2.0\nPRODID:-//task-util (https://github.com/Forist2034/task-util)\nBEGIN:VTODO\n",
        );
    }

    /// Closes the calendar and returns its text.
    pub fn finish(&mut self) -> (r: &str)
        ensures
            final(self)@ == old(self)@ + calendar_footer(),
            r@ == final(self)@,
            final(self).no_pending_line() == old(self).no_pending_line(),
    {
        self.buf.append("END:VTODO\nEND:VCALENDAR\n");
        self.buf.as_str()
    }
}

} // verus!
