//! The generic values handed to the shell, and ordered records of them.

use vstd::prelude::*;

verus! {

/// Nanoseconds in one calendar day.
pub const NANOS_PER_DAY: u64 = 86_400_000_000_000;

/// A point in time at UTC offset zero: whole days since 0001-01-01 in the
/// proleptic Gregorian calendar, and nanoseconds since that day's midnight.
#[derive(Clone, Copy, Debug, PartialEq, Eq, Structural)]
pub struct Instant {
    pub days: i64,
    pub nanos: u64,
}

impl Instant {
    /// The time lies within its day.
    pub open spec fn wf(self) -> bool {
        self.nanos < NANOS_PER_DAY
    }
}

/// One generic value of a result cell.
///
/// Floating-point values are carried as the bit pattern of an IEEE 754
/// double, so that the library itself never computes with them.
#[derive(Clone, Debug, PartialEq)]
pub enum Value {
    Nothing,
    Bool(bool),
    Int(i64),
    Float(u64),
    String(String),
    Binary(Vec<u8>),
    Date(Instant),
    Duration(i64),
}

/// The mathematical content of a [`Value`].
pub enum ValueView {
    Nothing,
    Bool(bool),
    Int(i64),
    Float(u64),
    String(Seq<char>),
    Binary(Seq<u8>),
    Date(Instant),
    Duration(i64),
}

impl View for Value {
    type V = ValueView;

    open spec fn view(&self) -> ValueView {
        match self {
            Value::Nothing => ValueView::Nothing,
            Value::Bool(b) => ValueView::Bool(*b),
            Value::Int(i) => ValueView::Int(*i),
            Value::Float(f) => ValueView::Float(*f),
            Value::String(s) => ValueView::String(s@),
            Value::Binary(b) => ValueView::Binary(b@),
            Value::Date(d) => ValueView::Date(*d),
            Value::Duration(d) => ValueView::Duration(*d),
        }
    }
}

/// The content of a record: column names with their values, in column order.
pub type Columns = Seq<(Seq<char>, ValueView)>;

/// No column name occurs twice.
pub open spec fn unique_names(s: Columns) -> bool {
    forall|i: int, j: int| 0 <= i < j < s.len() ==> s[i].0 != s[j].0
}

/// Some column is called `name`.
pub open spec fn has_name(s: Columns, name: Seq<char>) -> bool {
    exists|i: int| 0 <= i < s.len() && s[i].0 == name
}

/// Inserting a column: a name already present keeps its position and takes
/// the new value; a new name is appended at the end.
pub open spec fn insert_column(s: Columns, name: Seq<char>, v: ValueView) -> Columns {
    if has_name(s, name) {
        let i = choose|i: int| 0 <= i < s.len() && s[i].0 == name;
        s.update(i, (name, v))
    } else {
        s.push((name, v))
    }
}

/// An ordered mapping from column name to value.
#[derive(Clone, Debug, PartialEq)]
pub struct Record {
    entries: Vec<(String, Value)>,
}

impl View for Record {
    type V = Columns;

    closed spec fn view(&self) -> Columns {
        self.entries@.map_values(|e: (String, Value)| (e.0@, e.1@))
    }
}

impl Record {
    /// No column name occurs twice.
    pub open spec fn wf(&self) -> bool {
        unique_names(self@)
    }

    /// A record without columns.
    pub fn new() -> (r: Record)
        ensures
            r@ == Seq::<(Seq<char>, ValueView)>::empty(),
            r.wf(),
    {
        Record { entries: Vec::new() }
    }

    /// The number of columns.
    pub fn len(&self) -> (n: usize)
        ensures
            n == self@.len(),
    {
        self.entries.len()
    }

    /// Sets column `name` to `val`; see [`insert_column`].
    pub fn insert(&mut self, name: String, val: Value)
        requires
            old(self).wf(),
        ensures
            final(self).wf(),
            final(self)@ == insert_column(old(self)@, name@, val@),
    {
        let ghost s = self@;
        let mut i: usize = 0;
        while i < self.entries.len()
            invariant
                self@ == s,
                s == old(self)@,
                unique_names(s),
                0 <= i <= self.entries.len(),
                forall|j: int| 0 <= j < i ==> s[j].0 != name@,
            decreases self.entries.len() - i,
        {
            assert(s[i as int] == (self.entries@[i as int].0@, self.entries@[i as int].1@));
            if self.entries[i].0 == name {
                proof {
                    assert(has_name(s, name@));
                    let k = choose|k: int| 0 <= k < s.len() && s[k].0 == name@;
                    assert(k == i as int);
                }
                self.entries.set(i, (name, val));
                proof {
                    assert(self@ =~= insert_column(s, name@, val@));
                }
                return;
            }
            i = i + 1;
        }
        self.entries.push((name, val));
        proof {
            assert(self@ =~= s.push((name@, val@)));
        }
    }

    /// The value of column `name`, if the record has that column.
    pub fn get(&self, name: &String) -> (r: Option<&Value>)
        ensures
            match r {
                Some(v) => exists|i: int|
                    0 <= i < self@.len() && self@[i].0 == name@ && self@[i].1 == v@,
                None => !has_name(self@, name@),
            },
    {
        let mut i: usize = 0;
        while i < self.entries.len()
            invariant
                0 <= i <= self.entries.len(),
                forall|j: int| 0 <= j < i ==> self@[j].0 != name@,
            decreases self.entries.len() - i,
        {
            assert(self@[i as int] == (self.entries@[i as int].0@, self.entries@[i as int].1@));
            if self.entries[i].0 == *name {
                return Some(&self.entries[i].1);
            }
            i = i + 1;
        }
        None
    }

    /// The column names, in column order.
    pub fn columns(&self) -> (r: Vec<String>)
        ensures
            r@.map_values(|s: String| s@) == self@.map_values(|e: (Seq<char>, ValueView)| e.0),
    {
        let mut r: Vec<String> = Vec::new();
        let mut i: usize = 0;
        while i < self.entries.len()
            invariant
                0 <= i <= self.entries.len(),
                r@.len() == i,
                forall|j: int| 0 <= j < i ==> r@[j]@ == self@[j].0,
            decreases self.entries.len() - i,
        {
            assert(self@[i as int] == (self.entries@[i as int].0@, self.entries@[i as int].1@));
            r.push(self.entries[i].0.clone());
            i = i + 1;
        }
        proof {
            assert(r@.map_values(|s: String| s@) =~= self@.map_values(
                |e: (Seq<char>, ValueView)| e.0,
            ));
        }
        r
    }
}

} // verus!
