//! Correcting finished shifts.

use crate::calendar::{Date, DAY_MAX};
use crate::commands::display::{
    are_local_days, lemma_selected_indices, local_days, select_day, selected_indices,
    shifts_in_reach, shifts_placed, week_fails, week_never_fails, WeekError,
};
use crate::format::{FileFormat, PastTimeBlock};
use crate::input::{chars_of, parse_integer, parsed_integer, trim, trimmed};
use crate::render::{instant_in_reach, page_model, render_entries, shows_entry, Span};
use crate::utils::{is_possible_today, week_from_clock, week_start_of};
use vstd::prelude::*;
use vstd::string::*;

verus! {

/// One line of the list from which the user picks a shift: its place in the list,
/// its place among the stored shifts, and the shift.
#[derive(Debug)]
pub struct WeekEntry<'a> {
    pub display_index: usize,
    pub store_index: usize,
    pub block: &'a PastTimeBlock,
}

/// The stored places of the shifts that began on one of the first `count` days
/// from `week_start` on: day by day, and within a day in stored order.
pub open spec fn week_indices(days: Seq<Date>, week_start: int, count: nat) -> Seq<usize>
    decreases count,
{
    if count == 0 {
        Seq::empty()
    } else {
        week_indices(days, week_start, (count - 1) as nat) + selected_indices(
            days,
            week_start + count - 1,
        )
    }
}

/// True if `entries` list the shifts of the week that begins with `week_start`.
pub open spec fn is_week_list(
    entries: Seq<WeekEntry>,
    past: Seq<PastTimeBlock>,
    days: Seq<Date>,
    week_start: Date,
) -> bool {
    let places = week_indices(days, week_start.days as int, 7);
    &&& entries.len() == places.len()
    &&& forall|k: int|
        0 <= k < entries.len() ==> {
            &&& (#[trigger] entries[k]).display_index == k
            &&& entries[k].store_index == places[k]
            &&& entries[k].store_index < past.len()
            &&& *entries[k].block == past[places[k] as int]
        }
}

/// Lists the shifts of the seven days that begin with `week_start`, numbered
/// from 0. `days` holds, place for place, the local calendar day on which each
/// shift in `past` began.
pub fn list_week<'a>(past: &'a Vec<PastTimeBlock>, days: &Vec<Date>, week_start: Date) -> (entries:
    Vec<WeekEntry<'a>>)
    requires
        days@.len() == past@.len(),
        week_start.wf(),
        week_start.days + 6 <= DAY_MAX,
    ensures
        is_week_list(entries@, past@, days@, week_start),
{
    let mut entries: Vec<WeekEntry<'a>> = Vec::new();
    let mut i: i32 = 0;
    while i < 7
        invariant
            0 <= i <= 7,
            days@.len() == past@.len(),
            week_start.wf(),
            week_start.days + 6 <= DAY_MAX,
            entries@.len() == week_indices(days@, week_start.days as int, i as nat).len(),
            forall|k: int|
                0 <= k < entries@.len() ==> {
                    &&& (#[trigger] entries@[k]).display_index == k
                    &&& entries@[k].store_index == week_indices(
                        days@,
                        week_start.days as int,
                        i as nat,
                    )[k]
                    &&& entries@[k].store_index < past@.len()
                    &&& *entries@[k].block == past@[entries@[k].store_index as int]
                },
        decreases 7 - i,
    {
        let day = Date { days: week_start.days + i };
        let picks = select_day(days, day);
        proof {
            assert(days@.len() == days.len());
            lemma_selected_indices(days@, day.days as int);
        }
        let ghost before = entries@;
        let ghost earlier = week_indices(days@, week_start.days as int, i as nat);
        let mut k: usize = 0;
        while k < picks.len()
            invariant
                k <= picks.len(),
                days@.len() == past@.len(),
                forall|p: int| 0 <= p < picks@.len() ==> (#[trigger] picks@[p]) < days@.len(),
                before.len() == earlier.len(),
                entries@.len() == before.len() + k,
                forall|p: int| 0 <= p < before.len() ==> entries@[p] == before[p],
                forall|p: int|
                    0 <= p < k ==> {
                        &&& (#[trigger] entries@[before.len() + p]).display_index == before.len()
                            + p
                        &&& entries@[before.len() + p].store_index == picks@[p]
                        &&& *entries@[before.len() + p].block == past@[picks@[p] as int]
                    },
            decreases picks.len() - k,
        {
            let store_index = picks[k];
            entries.push(
                WeekEntry { display_index: entries.len(), store_index, block: &past[store_index] },
            );
            k = k + 1;
        }
        i = i + 1;
        proof {
            let later = week_indices(days@, week_start.days as int, i as nat);
            assert forall|p: int| 0 <= p < entries@.len() implies {
                &&& (#[trigger] entries@[p]).display_index == p
                &&& entries@[p].store_index == later[p]
                &&& entries@[p].store_index < past@.len()
                &&& *entries@[p].block == past@[entries@[p].store_index as int]
            } by {
                if p < before.len() {
                    assert(entries@[p] == before[p]);
                } else {
                    let q = p - before.len();
                    assert(entries@[before.len() + q].store_index == picks@[q]);
                }
            }
        }
    }
    entries
}

/// A change to one finished shift, as it is described: the new length, the new
/// remark, or the removal.
pub enum Change {
    Seconds { seconds: int },
    Comment { text: Seq<char> },
    Removal,
}

/// A change to one finished shift, as it is asked for.
#[derive(Debug)]
pub enum EditAction {
    /// Replace the length by the given hours, minutes and seconds.
    SetDuration { hours: i64, minutes: i64, seconds: i64 },
    /// Replace the remark.
    SetComment { text: String },
    /// Remove the shift.
    Delete,
}

/// Hours, minutes and seconds as one number of seconds.
pub open spec fn duration_seconds(hours: int, minutes: int, seconds: int) -> int {
    hours * 3600 + minutes * 60 + seconds
}

impl EditAction {
    /// A duration can be set only if it has a place in `i64`.
    pub open spec fn wf(self) -> bool {
        self matches EditAction::SetDuration { hours, minutes, seconds } ==> i64::MIN
            <= duration_seconds(hours as int, minutes as int, seconds as int) <= i64::MAX
    }

    pub open spec fn change(self) -> Change {
        match self {
            EditAction::SetDuration { hours, minutes, seconds } => Change::Seconds {
                seconds: duration_seconds(hours as int, minutes as int, seconds as int),
            },
            EditAction::SetComment { text } => Change::Comment { text: text@ },
            EditAction::Delete => Change::Removal,
        }
    }
}

/// True if `post` is `pre` after `change` to the shift at `store_index`. Nothing
/// but that shift is touched: it has a new length or a new remark, or it is gone
/// and the later shifts have moved one place down. The shifts that stay keep
/// their order.
pub open spec fn changed(pre: FileFormat, post: FileFormat, store_index: int, change: Change)
    -> bool {
    &&& post.version == pre.version
    &&& post.state == pre.state
    &&& post.tasks == pre.tasks
    &&& post.times@ == pre.times@
    &&& match change {
        Change::Seconds { seconds } => {
            &&& post.past@.len() == pre.past@.len()
            &&& forall|j: int|
                0 <= j < pre.past@.len() && j != store_index ==> post.past@[j] == pre.past@[j]
            &&& post.past@[store_index].seconds == seconds
            &&& post.past@[store_index].date == pre.past@[store_index].date
            &&& post.past@[store_index].comment == pre.past@[store_index].comment
            &&& post.past@[store_index].finished_tasks == pre.past@[store_index].finished_tasks
        },
        Change::Comment { text } => {
            &&& post.past@.len() == pre.past@.len()
            &&& forall|j: int|
                0 <= j < pre.past@.len() && j != store_index ==> post.past@[j] == pre.past@[j]
            &&& post.past@[store_index].comment@ == text
            &&& post.past@[store_index].date == pre.past@[store_index].date
            &&& post.past@[store_index].seconds == pre.past@[store_index].seconds
            &&& post.past@[store_index].finished_tasks == pre.past@[store_index].finished_tasks
        },
        Change::Removal => post.past@ == pre.past@.remove(store_index),
    }
}

/// Applies one change to the shift at `store_index`. A removal moves every later
/// shift one place down.
pub fn apply_edit(data: &mut FileFormat, store_index: usize, action: EditAction)
    requires
        store_index < old(data).past@.len(),
        action.wf(),
    ensures
        changed(*old(data), *final(data), store_index as int, action.change()),
        old(data).wf() ==> final(data).wf(),
{
    match action {
        EditAction::SetDuration { hours, minutes, seconds } => {
            let total: i128 = hours as i128 * 3600 + minutes as i128 * 60 + seconds as i128;
            data.past[store_index].seconds = total as i64;
        },
        EditAction::SetComment { text } => {
            data.past[store_index].comment = text;
        },
        EditAction::Delete => {
            data.past.remove(store_index);
        },
    }
}

/// What the user answered when asked which shift to edit.
#[derive(Clone, Copy, Debug, PartialEq, Eq, Structural)]
pub enum Selection {
    Exit,
    Entry { display_index: usize },
}

/// What the user answered when asked what to do with the shift.
#[derive(Clone, Copy, Debug, PartialEq, Eq, Structural)]
pub enum EditChoice {
    Duration,
    Comment,
    Delete,
    Exit,
}

/// The answer `e` leaves; a number from 0 up to, not including, `count` picks
/// the shift with that number; nothing else is an answer.
pub open spec fn selection_of(text: Seq<char>, count: int) -> Option<Selection> {
    if text == seq!['e'] {
        Some(Selection::Exit)
    } else {
        match parsed_integer(text) {
            Some(n) => if 0 <= n < count {
                Some(Selection::Entry { display_index: n as usize })
            } else {
                None
            },
            None => None,
        }
    }
}

/// `e` for the duration, `c` for the comment, `d` to delete, `x` to leave.
pub open spec fn choice_of(text: Seq<char>) -> Option<EditChoice> {
    if text == seq!['e'] {
        Some(EditChoice::Duration)
    } else if text == seq!['c'] {
        Some(EditChoice::Comment)
    } else if text == seq!['d'] {
        Some(EditChoice::Delete)
    } else if text == seq!['x'] {
        Some(EditChoice::Exit)
    } else {
        None
    }
}

/// A part of a duration: a whole number that is not negative, with or without
/// blanks around it.
pub open spec fn component_of(text: Seq<char>) -> Option<i64> {
    match parsed_integer(trimmed(text)) {
        Some(n) => if n >= 0 {
            Some(n)
        } else {
            None
        },
        None => None,
    }
}

/// True if `text` is the one character `letter`.
pub fn is_letter(text: &str, letter: char) -> (yes: bool)
    ensures
        yes == (text@ == seq![letter]),
{
    let chars = chars_of(text);
    let yes = chars.len() == 1 && chars[0] == letter;
    assert(yes == (text@ =~= seq![letter]));
    yes
}

pub fn validate_selection(text: &str, count: usize) -> (selection: Option<Selection>)
    ensures
        selection == selection_of(text@, count as int),
{
    if is_letter(text, 'e') {
        return Some(Selection::Exit);
    }
    match parse_integer(text) {
        Some(n) => {
            if 0 <= n && (n as u128) < (count as u128) {
                Some(Selection::Entry { display_index: n as usize })
            } else {
                None
            }
        },
        None => None,
    }
}

pub fn validate_choice(text: &str) -> (choice: Option<EditChoice>)
    ensures
        choice == choice_of(text@),
{
    if is_letter(text, 'e') {
        Some(EditChoice::Duration)
    } else if is_letter(text, 'c') {
        Some(EditChoice::Comment)
    } else if is_letter(text, 'd') {
        Some(EditChoice::Delete)
    } else if is_letter(text, 'x') {
        Some(EditChoice::Exit)
    } else {
        None
    }
}

pub fn validate_component(text: &str) -> (number: Option<i64>)
    ensures
        number == component_of(text@),
{
    match parse_integer(trim(text)) {
        Some(n) => {
            if n >= 0 {
                Some(n)
            } else {
                None
            }
        },
        None => None,
    }
}

/// Where an editing session stands: which question is open, and what has been
/// answered so far.
#[derive(Clone, Copy, Debug, PartialEq, Eq, Structural)]
pub enum EditStage {
    /// Which shift?
    Select,
    /// What to do with it?
    Choose { store_index: usize },
    Hours { store_index: usize },
    Minutes { store_index: usize, hours: i64 },
    Seconds { store_index: usize, hours: i64, minutes: i64 },
    Comment { store_index: usize },
    /// The session is over.
    Done,
}

/// What one answer led to.
#[derive(Clone, Copy, Debug, PartialEq, Eq, Structural)]
pub enum EditEvent {
    /// The answer was not understood; the same question stays open.
    Invalid,
    /// The shift with this number in the list was picked.
    Selected { display_index: usize },
    /// The answer was taken and the next question is open.
    Asked,
    /// The shift has this new length.
    DurationSet { seconds: i64 },
    CommentSet,
    Deleted,
    /// The user left.
    Exited,
    /// The session was over already; the answer was not looked at.
    Closed,
}

/// An editing session: the stored places of the listed shifts, by their number
/// in the list, and the stage.
#[derive(Debug)]
pub struct EditSession {
    pub entries: Vec<usize>,
    pub stage: EditStage,
}

impl EditStage {
    /// The stored place of the shift that is being edited, once one is picked.
    pub open spec fn target(self) -> Option<usize> {
        match self {
            EditStage::Select => None,
            EditStage::Choose { store_index } => Some(store_index),
            EditStage::Hours { store_index } => Some(store_index),
            EditStage::Minutes { store_index, hours } => Some(store_index),
            EditStage::Seconds { store_index, hours, minutes } => Some(store_index),
            EditStage::Comment { store_index } => Some(store_index),
            EditStage::Done => None,
        }
    }

    /// The question that is open at this stage.
    pub open spec fn spec_prompt(self) -> Option<Seq<char>> {
        match self {
            EditStage::Select => Some("Which would you like to edit or exit(e)"@),
            EditStage::Choose { store_index } => Some(
                "Would you like to edit duration(e), comment(c), delete(d), or exit(x)?"@,
            ),
            EditStage::Hours { store_index } => Some("new hours:"@),
            EditStage::Minutes { store_index, hours } => Some("new minutes:"@),
            EditStage::Seconds { store_index, hours, minutes } => Some("new seconds:"@),
            EditStage::Comment { store_index } => Some("new comment:"@),
            EditStage::Done => None,
        }
    }

    pub fn prompt(&self) -> (text: Option<&'static str>)
        ensures
            match text {
                Some(t) => self.spec_prompt() == Some(t@),
                None => self.spec_prompt() is None,
            },
    {
        match self {
            EditStage::Select => Some("Which would you like to edit or exit(e)"),
            EditStage::Choose { .. } => Some(
                "Would you like to edit duration(e), comment(c), delete(d), or exit(x)?",
            ),
            EditStage::Hours { .. } => Some("new hours:"),
            EditStage::Minutes { .. } => Some("new minutes:"),
            EditStage::Seconds { .. } => Some("new seconds:"),
            EditStage::Comment { .. } => Some("new comment:"),
            EditStage::Done => None,
        }
    }
}

/// The hours that are taken from an answer: a part of a duration that, in
/// seconds, has a place in `i64`.
pub open spec fn hours_of(line: Seq<char>) -> Option<i64> {
    match component_of(line) {
        Some(h) => if duration_seconds(h as int, 0, 0) <= i64::MAX {
            Some(h)
        } else {
            None
        },
        None => None,
    }
}

/// The minutes that are taken from an answer, after `hours`.
pub open spec fn minutes_of(hours: i64, line: Seq<char>) -> Option<i64> {
    match component_of(line) {
        Some(m) => if duration_seconds(hours as int, m as int, 0) <= i64::MAX {
            Some(m)
        } else {
            None
        },
        None => None,
    }
}

/// The seconds that are taken from an answer, after `hours` and `minutes`.
pub open spec fn seconds_of(hours: i64, minutes: i64, line: Seq<char>) -> Option<i64> {
    match component_of(line) {
        Some(s) => if duration_seconds(hours as int, minutes as int, s as int) <= i64::MAX {
            Some(s)
        } else {
            None
        },
        None => None,
    }
}

/// The stage that follows, and what is reported, when `line` is the answer at
/// `stage`. `entries` are the stored places of the listed shifts.
pub open spec fn step_of(stage: EditStage, entries: Seq<usize>, line: Seq<char>) -> (
    EditStage,
    EditEvent,
) {
    match stage {
        EditStage::Select => match selection_of(line, entries.len() as int) {
            Some(Selection::Exit) => (EditStage::Done, EditEvent::Exited),
            Some(Selection::Entry { display_index }) => (
                EditStage::Choose { store_index: entries[display_index as int] },
                EditEvent::Selected { display_index },
            ),
            None => (stage, EditEvent::Invalid),
        },
        EditStage::Choose { store_index } => match choice_of(line) {
            Some(EditChoice::Duration) => (EditStage::Hours { store_index }, EditEvent::Asked),
            Some(EditChoice::Comment) => (EditStage::Comment { store_index }, EditEvent::Asked),
            Some(EditChoice::Delete) => (EditStage::Done, EditEvent::Deleted),
            Some(EditChoice::Exit) => (EditStage::Done, EditEvent::Exited),
            None => (stage, EditEvent::Invalid),
        },
        EditStage::Hours { store_index } => match hours_of(line) {
            Some(hours) => (EditStage::Minutes { store_index, hours }, EditEvent::Asked),
            None => (stage, EditEvent::Invalid),
        },
        EditStage::Minutes { store_index, hours } => match minutes_of(hours, line) {
            Some(minutes) => (
                EditStage::Seconds { store_index, hours, minutes },
                EditEvent::Asked,
            ),
            None => (stage, EditEvent::Invalid),
        },
        EditStage::Seconds { store_index, hours, minutes } => match seconds_of(
            hours,
            minutes,
            line,
        ) {
            Some(seconds) => (
                EditStage::Choose { store_index },
                EditEvent::DurationSet {
                    seconds: duration_seconds(hours as int, minutes as int, seconds as int) as i64,
                },
            ),
            None => (stage, EditEvent::Invalid),
        },
        EditStage::Comment { store_index } => (
            EditStage::Choose { store_index },
            EditEvent::CommentSet,
        ),
        EditStage::Done => (stage, EditEvent::Closed),
    }
}

/// The change that the answer `line` at `stage` makes to the record, and the
/// stored place of the shift that it is made to; `None` where the answer changes
/// nothing.
pub open spec fn change_of(stage: EditStage, line: Seq<char>) -> Option<(usize, Change)> {
    match stage {
        EditStage::Choose { store_index } => if choice_of(line) == Some(EditChoice::Delete) {
            Some((store_index, Change::Removal))
        } else {
            None
        },
        EditStage::Seconds { store_index, hours, minutes } => match seconds_of(
            hours,
            minutes,
            line,
        ) {
            Some(seconds) => Some(
                (
                    store_index,
                    Change::Seconds {
                        seconds: duration_seconds(hours as int, minutes as int, seconds as int),
                    },
                ),
            ),
            None => None,
        },
        EditStage::Comment { store_index } => Some((store_index, Change::Comment { text: line })),
        _ => None,
    }
}

/// Adds a part of a duration to what has been entered, where the sum has a place
/// in `i64`.
fn within_limit(hours: i64, minutes: i64, seconds: i64) -> (fits: bool)
    requires
        hours >= 0,
        minutes >= 0,
        seconds >= 0,
    ensures
        fits == (duration_seconds(hours as int, minutes as int, seconds as int) <= i64::MAX),
{
    let total: i128 = hours as i128 * 3600 + minutes as i128 * 60 + seconds as i128;
    total <= i64::MAX as i128
}

impl EditSession {
    /// The session fits the record: while a shift is still to be picked, every
    /// listed place holds a shift, and the shift that is being edited exists.
    pub open spec fn wf(self, data: FileFormat) -> bool {
        &&& self.stage is Select ==> forall|k: int|
            0 <= k < self.entries@.len() ==> (#[trigger] self.entries@[k]) < data.past@.len()
        &&& self.stage.target() matches Some(store_index) ==> store_index < data.past@.len()
        &&& self.stage matches EditStage::Minutes { store_index, hours } ==> hours >= 0
            && duration_seconds(hours as int, 0, 0) <= i64::MAX
        &&& self.stage matches EditStage::Seconds { store_index, hours, minutes } ==> hours >= 0
            && minutes >= 0 && duration_seconds(hours as int, minutes as int, 0) <= i64::MAX
    }

    /// Tells whether the session fits the record.
    pub fn fits(&self, data: &FileFormat) -> (ok: bool)
        ensures
            ok == self.wf(*data),
    {
        let count = data.past.len();
        match self.stage {
            EditStage::Select => {
                let mut k: usize = 0;
                while k < self.entries.len()
                    invariant
                        k <= self.entries@.len(),
                        count == data.past@.len(),
                        self.stage is Select,
                        forall|p: int| 0 <= p < k ==> (#[trigger] self.entries@[p]) < count,
                    decreases self.entries.len() - k,
                {
                    if self.entries[k] >= count {
                        return false;
                    }
                    k = k + 1;
                }
                true
            },
            EditStage::Choose { store_index } => store_index < count,
            EditStage::Hours { store_index } => store_index < count,
            EditStage::Minutes { store_index, hours } => store_index < count && hours >= 0
                && within_limit(hours, 0, 0),
            EditStage::Seconds { store_index, hours, minutes } => store_index < count && hours
                >= 0 && minutes >= 0 && within_limit(hours, minutes, 0),
            EditStage::Comment { store_index } => store_index < count,
            EditStage::Done => true,
        }
    }

    /// Takes the user's answer to the open question: moves to the next question,
    /// and changes the record where the answer completes a change. An answer that
    /// is not understood leaves everything as it is.
    pub fn step(&mut self, data: &mut FileFormat, line: &str) -> (event: EditEvent)
        requires
            old(self).wf(*old(data)),
        ensures
            (final(self).stage, event) == step_of(old(self).stage, old(self).entries@, line@),
            final(self).entries@ == old(self).entries@,
            match change_of(old(self).stage, line@) {
                Some((store_index, change)) => changed(
                    *old(data),
                    *final(data),
                    store_index as int,
                    change,
                ),
                None => final(data).same_as(*old(data)),
            },
            final(self).wf(*final(data)),
            old(data).wf() ==> final(data).wf(),
    {
        match self.stage {
            EditStage::Select => match validate_selection(line, self.entries.len()) {
                Some(Selection::Exit) => {
                    self.stage = EditStage::Done;
                    EditEvent::Exited
                },
                Some(Selection::Entry { display_index }) => {
                    self.stage = EditStage::Choose { store_index: self.entries[display_index] };
                    EditEvent::Selected { display_index }
                },
                None => EditEvent::Invalid,
            },
            EditStage::Choose { store_index } => match validate_choice(line) {
                Some(EditChoice::Duration) => {
                    self.stage = EditStage::Hours { store_index };
                    EditEvent::Asked
                },
                Some(EditChoice::Comment) => {
                    self.stage = EditStage::Comment { store_index };
                    EditEvent::Asked
                },
                Some(EditChoice::Delete) => {
                    apply_edit(data, store_index, EditAction::Delete);
                    self.stage = EditStage::Done;
                    EditEvent::Deleted
                },
                Some(EditChoice::Exit) => {
                    self.stage = EditStage::Done;
                    EditEvent::Exited
                },
                None => EditEvent::Invalid,
            },
            EditStage::Hours { store_index } => match validate_component(line) {
                Some(hours) => {
                    if within_limit(hours, 0, 0) {
                        self.stage = EditStage::Minutes { store_index, hours };
                        EditEvent::Asked
                    } else {
                        EditEvent::Invalid
                    }
                },
                None => EditEvent::Invalid,
            },
            EditStage::Minutes { store_index, hours } => match validate_component(line) {
                Some(minutes) => {
                    if within_limit(hours, minutes, 0) {
                        self.stage = EditStage::Seconds { store_index, hours, minutes };
                        EditEvent::Asked
                    } else {
                        EditEvent::Invalid
                    }
                },
                None => EditEvent::Invalid,
            },
            EditStage::Seconds { store_index, hours, minutes } => match validate_component(line) {
                Some(seconds) => {
                    if within_limit(hours, minutes, seconds) {
                        apply_edit(
                            data,
                            store_index,
                            EditAction::SetDuration { hours, minutes, seconds },
                        );
                        self.stage = EditStage::Choose { store_index };
                        EditEvent::DurationSet { seconds: data.past[store_index].seconds }
                    } else {
                        EditEvent::Invalid
                    }
                },
                None => EditEvent::Invalid,
            },
            EditStage::Comment { store_index } => {
                apply_edit(data, store_index, EditAction::SetComment { text: line.to_owned() });
                self.stage = EditStage::Choose { store_index };
                EditEvent::CommentSet
            },
            EditStage::Done => EditEvent::Closed,
        }
    }
}

/// True if `session` is a fresh session on the shifts of the week that begins
/// with `week_start`.
pub open spec fn is_session_on(session: EditSession, days: Seq<Date>, week_start: Date) -> bool {
    &&& session.stage == EditStage::Select
    &&& session.entries@ == week_indices(days, week_start.days as int, 7)
}

/// The beginning of an editing session: the list that is shown to the user, and
/// the session that takes the answers.
#[derive(Debug)]
pub struct EditOpening {
    pub listing: Vec<Vec<Span>>,
    pub session: EditSession,
}

/// True if `opening` opens a session on the shifts of the week that begins with
/// `week_start`, and shows them in the order of the session.
pub open spec fn is_opening_on(
    opening: EditOpening,
    past: Seq<PastTimeBlock>,
    days: Seq<Date>,
    week_start: Date,
) -> bool {
    &&& is_session_on(opening.session, days, week_start)
    &&& forall|k: int|
        0 <= k < opening.session.entries@.len() ==> (#[trigger] opening.session.entries@[k])
            < past.len()
    &&& exists|entries: Seq<WeekEntry>|
        {
            &&& #[trigger] is_week_list(entries, past, days, week_start)
            &&& opening.listing@.len() == 4 * entries.len()
            &&& forall|k: int|
                0 <= k < entries.len() ==> shows_entry(
                    page_model(opening.listing@),
                    4 * k,
                    #[trigger] entries[k],
                )
        }
}

/// Opens an editing session on the shifts of the week that begins with
/// `week_start`. `days` holds, place for place, the local calendar day on which
/// each shift in `past` began. `None` where the calendar cannot place the
/// beginning of a shift of that week.
pub fn begin_edit(past: &Vec<PastTimeBlock>, days: &Vec<Date>, week_start: Date) -> (opening:
    Option<EditOpening>)
    requires
        days@.len() == past@.len(),
        week_start.wf(),
        week_start.days + 6 <= DAY_MAX,
    ensures
        shifts_placed(past@) ==> opening is Some,
        opening matches Some(o) ==> is_opening_on(o, past@, days@, week_start),
{
    let listed = list_week(past, days, week_start);
    let listing = match render_entries(&listed) {
        Some(page) => page,
        None => {
            proof {
                if shifts_placed(past@) {
                    assert forall|k: int| 0 <= k < listed@.len() implies instant_in_reach(
                        (#[trigger] listed@[k]).block.date,
                    ) by {}
                }
            }
            return None;
        },
    };
    let mut entries: Vec<usize> = Vec::new();
    let mut k: usize = 0;
    while k < listed.len()
        invariant
            k <= listed.len(),
            is_week_list(listed@, past@, days@, week_start),
            entries@.len() == k,
            forall|p: int|
                0 <= p < k ==> (#[trigger] entries@[p]) == week_indices(
                    days@,
                    week_start.days as int,
                    7,
                )[p] && entries@[p] < past@.len(),
        decreases listed.len() - k,
    {
        entries.push(listed[k].store_index);
        k = k + 1;
    }
    assert(entries@ =~= week_indices(days@, week_start.days as int, 7));
    let opening = EditOpening { listing, session: EditSession { entries, stage: EditStage::Select } };
    Some(opening)
}

/// True if `opening` opens a session on the week that `week` selects when today
/// is `today` and the shifts in `past` began on the local days `days`.
pub open spec fn is_opening_for(
    opening: EditOpening,
    past: Seq<PastTimeBlock>,
    today: Date,
    days: Seq<Date>,
    week: i64,
    absolute: bool,
) -> bool {
    &&& is_possible_today(today)
    &&& week_start_of(today, week, absolute) matches Some(week_start)
    &&& week_start.days + 6 <= DAY_MAX
    &&& are_local_days(days, past)
    &&& is_opening_on(opening, past, days, week_start)
}

/// Opens an editing session on the week that `week` selects, as `display` does:
/// the week is found from today's date, and each shift is put under the local
/// day on which it began.
pub fn edit(week: i64, absolute: bool, data: &FileFormat) -> (opening: Result<
    EditOpening,
    WeekError,
>)
    ensures
        match opening {
            Ok(o) => o.session.wf(*data) && exists|today: Date, days: Seq<Date>| #[trigger]
                is_opening_for(o, data.past@, today, days, week, absolute),
            Err(WeekError::WeekOutOfReach) => exists|today: Date| #[trigger]
                week_fails(today, week, absolute),
            Err(WeekError::ShiftOutOfReach) => !shifts_in_reach(data.past@),
            Err(WeekError::TotalOutOfRange) => false,
        },
        week_never_fails(week, absolute) && shifts_in_reach(data.past@) ==> opening is Ok,
{
    let found = week_from_clock(week, absolute);
    let week_start = match found.1 {
        Some(date) => date,
        None => {
            assert(week_fails(found.0, week, absolute));
            return Err(WeekError::WeekOutOfReach);
        },
    };
    if week_start.days > DAY_MAX - 6 {
        assert(week_fails(found.0, week, absolute));
        return Err(WeekError::WeekOutOfReach);
    }
    let days = match local_days(&data.past) {
        Some(days) => days,
        None => {
            return Err(WeekError::ShiftOutOfReach);
        },
    };
    match begin_edit(&data.past, &days, week_start) {
        Some(opening) => {
            assert(is_opening_for(opening, data.past@, found.0, days@, week, absolute));
            Ok(opening)
        },
        None => Err(WeekError::ShiftOutOfReach),
    }
}

} // verus!
