use vstd::prelude::*;

use crate::monitor::MonitorHandle;

verus! {

/// The observable fields that the presentation layer repaints.
#[derive(Clone, Copy, Debug, PartialEq, Eq, Structural)]
pub enum Field {
    Date,
    Time,
    Input,
    Error,
    Monitor,
}

/// Whether a field is dirty after a run of writes, starting from its value
/// `value` and its flag `dirty`: each write marks it when the written value
/// differs from the value it replaces.
pub open spec fn dirty_after<T>(value: T, dirty: bool, writes: Seq<T>) -> bool
    decreases writes.len(),
{
    if writes.len() == 0 {
        dirty
    } else {
        dirty_after(writes[0], dirty || writes[0] != value, writes.drop_first())
    }
}

/// Between two resets, a field is reported changed exactly when at least one
/// write gave it a value other than the one it held at the reset.
pub proof fn lemma_changed_iff_differs<T>(at_reset: T, writes: Seq<T>)
    ensures
        dirty_after(at_reset, false, writes) <==> exists|i: int|
            0 <= i < writes.len() && #[trigger] writes[i] != at_reset,
    decreases writes.len(),
{
    if writes.len() > 0 {
        let rest = writes.drop_first();
        if writes[0] != at_reset {
            lemma_dirty_stays(writes[0], rest);
        } else {
            lemma_changed_iff_differs(at_reset, rest);
            if dirty_after(at_reset, false, writes) {
                let i = choose|i: int| 0 <= i < rest.len() && #[trigger] rest[i] != at_reset;
                assert(writes[i + 1] != at_reset);
            } else {
                assert forall|i: int| 0 <= i < writes.len() implies #[trigger] writes[i]
                    == at_reset by {
                    if i > 0 {
                        assert(writes[i] == rest[i - 1]);
                    }
                }
            }
        }
    }
}

/// Once dirty, a field stays dirty until the next reset.
proof fn lemma_dirty_stays<T>(value: T, writes: Seq<T>)
    ensures
        dirty_after(value, true, writes),
    decreases writes.len(),
{
    if writes.len() > 0 {
        lemma_dirty_stays(writes[0], writes.drop_first());
    }
}

/// The optional error line as characters.
pub open spec fn error_view(e: Option<String>) -> Option<Seq<char>> {
    match e {
        Some(s) => Some(s@),
        None => None,
    }
}

/// The optional monitor as the values it is compared by.
pub open spec fn monitor_view(m: Option<MonitorHandle>) -> Option<(Seq<char>, i32, i32, i32, i32)> {
    match m {
        Some(h) => Some(h.key()),
        None => None,
    }
}

/// The displayed fields, each with a flag that records whether it changed
/// since the last reset.
pub struct Updates {
    date: String,
    time: String,
    input: String,
    error: Option<String>,
    monitor: Option<MonitorHandle>,
    date_changed: bool,
    time_changed: bool,
    input_changed: bool,
    error_changed: bool,
    monitor_changed: bool,
}

impl Updates {
    pub closed spec fn date_view(&self) -> Seq<char> {
        self.date@
    }

    pub closed spec fn time_view(&self) -> Seq<char> {
        self.time@
    }

    pub closed spec fn input_view(&self) -> Seq<char> {
        self.input@
    }

    pub closed spec fn error_view(&self) -> Option<Seq<char>> {
        error_view(self.error)
    }

    pub closed spec fn monitor_view(&self) -> Option<(Seq<char>, i32, i32, i32, i32)> {
        monitor_view(self.monitor)
    }

    pub closed spec fn dirty(&self, f: Field) -> bool {
        match f {
            Field::Date => self.date_changed,
            Field::Time => self.time_changed,
            Field::Input => self.input_changed,
            Field::Error => self.error_changed,
            Field::Monitor => self.monitor_changed,
        }
    }

    /// Every field but `f` holds the same value and flag in `self` and `other`.
    pub open spec fn keeps_all_but(&self, other: &Updates, f: Field) -> bool {
        &&& (f != Field::Date ==> self.date_view() == other.date_view() && self.dirty(Field::Date)
            == other.dirty(Field::Date))
        &&& (f != Field::Time ==> self.time_view() == other.time_view() && self.dirty(Field::Time)
            == other.dirty(Field::Time))
        &&& (f != Field::Input ==> self.input_view() == other.input_view() && self.dirty(
            Field::Input,
        ) == other.dirty(Field::Input))
        &&& (f != Field::Error ==> self.error_view() == other.error_view() && self.dirty(
            Field::Error,
        ) == other.dirty(Field::Error))
        &&& (f != Field::Monitor ==> self.monitor_view() == other.monitor_view() && self.dirty(
            Field::Monitor,
        ) == other.dirty(Field::Monitor))
    }

    /// Empty texts, no error, no monitor, nothing changed.
    pub fn new() -> (r: Self)
        ensures
            r.date_view() == Seq::<char>::empty(),
            r.time_view() == Seq::<char>::empty(),
            r.input_view() == Seq::<char>::empty(),
            r.error_view() == None::<Seq<char>>,
            r.monitor_view() == None::<(Seq<char>, i32, i32, i32, i32)>,
            forall|f: Field| !r.dirty(f),
    {
        Updates {
            date: String::new(),
            time: String::new(),
            input: String::new(),
            error: None,
            monitor: None,
            date_changed: false,
            time_changed: false,
            input_changed: false,
            error_changed: false,
            monitor_changed: false,
        }
    }

    /// Starts a processing cycle: no field counts as changed any more.
    pub fn reset(&mut self)
        ensures
            final(self).date_view() == old(self).date_view(),
            final(self).time_view() == old(self).time_view(),
            final(self).input_view() == old(self).input_view(),
            final(self).error_view() == old(self).error_view(),
            final(self).monitor_view() == old(self).monitor_view(),
            forall|f: Field| !final(self).dirty(f),
    {
        self.date_changed = false;
        self.time_changed = false;
        self.input_changed = false;
        self.error_changed = false;
        self.monitor_changed = false;
    }

    /// Whether `f` was given a different value since the last reset.
    pub fn changed(&self, f: Field) -> (r: bool)
        ensures
            r == self.dirty(f),
    {
        match f {
            Field::Date => self.date_changed,
            Field::Time => self.time_changed,
            Field::Input => self.input_changed,
            Field::Error => self.error_changed,
            Field::Monitor => self.monitor_changed,
        }
    }

    pub fn date(&self) -> (r: &String)
        ensures
            r@ == self.date_view(),
    {
        &self.date
    }

    pub fn time(&self) -> (r: &String)
        ensures
            r@ == self.time_view(),
    {
        &self.time
    }

    pub fn input(&self) -> (r: &String)
        ensures
            r@ == self.input_view(),
    {
        &self.input
    }

    pub fn error(&self) -> (r: &Option<String>)
        ensures
            error_view(*r) == self.error_view(),
    {
        &self.error
    }

    pub fn monitor(&self) -> (r: &Option<MonitorHandle>)
        ensures
            monitor_view(*r) == self.monitor_view(),
    {
        &self.monitor
    }

    pub fn set_date(&mut self, v: String)
        ensures
            final(self).date_view() == v@,
            final(self).dirty(Field::Date) == (old(self).dirty(Field::Date) || v@ != old(
                self,
            ).date_view()),
            final(self).keeps_all_but(old(self), Field::Date),
    {
        if self.date != v {
            self.date_changed = true;
        }
        self.date = v;
    }

    pub fn set_time(&mut self, v: String)
        ensures
            final(self).time_view() == v@,
            final(self).dirty(Field::Time) == (old(self).dirty(Field::Time) || v@ != old(
                self,
            ).time_view()),
            final(self).keeps_all_but(old(self), Field::Time),
    {
        if self.time != v {
            self.time_changed = true;
        }
        self.time = v;
    }

    pub fn set_input(&mut self, v: String)
        ensures
            final(self).input_view() == v@,
            final(self).dirty(Field::Input) == (old(self).dirty(Field::Input) || v@ != old(
                self,
            ).input_view()),
            final(self).keeps_all_but(old(self), Field::Input),
    {
        if self.input != v {
            self.input_changed = true;
        }
        self.input = v;
    }

    pub fn set_error(&mut self, v: Option<String>)
        ensures
            final(self).error_view() == error_view(v),
            final(self).dirty(Field::Error) == (old(self).dirty(Field::Error) || error_view(v)
                != old(self).error_view()),
            final(self).keeps_all_but(old(self), Field::Error),
    {
        let differs = match (&self.error, &v) {
            (Some(a), Some(b)) => *a != *b,
            (None, None) => false,
            _ => true,
        };
        if differs {
            self.error_changed = true;
        }
        self.error = v;
    }

    pub fn set_monitor(&mut self, v: Option<MonitorHandle>)
        ensures
            final(self).monitor_view() == monitor_view(v),
            final(self).dirty(Field::Monitor) == (old(self).dirty(Field::Monitor) || monitor_view(
                v,
            ) != old(self).monitor_view()),
            final(self).keeps_all_but(old(self), Field::Monitor),
    {
        let differs = match (&self.monitor, &v) {
            (Some(a), Some(b)) => !a.same_as(b),
            (None, None) => false,
            _ => true,
        };
        if differs {
            self.monitor_changed = true;
        }
        self.monitor = v;
    }
}

} // verus!
