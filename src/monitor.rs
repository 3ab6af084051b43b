use vstd::prelude::*;

verus! {

/// One physical display: a stable name and its geometry, which is only
/// passed through.
#[derive(Clone, Debug, PartialEq, Eq)]
pub struct MonitorHandle {
    pub name: String,
    pub x: i32,
    pub y: i32,
    pub width: i32,
    pub height: i32,
}

impl MonitorHandle {
    /// What a handle is compared by: its name and its geometry.
    pub open spec fn key(&self) -> (Seq<char>, i32, i32, i32, i32) {
        (self.name@, self.x, self.y, self.width, self.height)
    }

    pub fn new(name: String, x: i32, y: i32, width: i32, height: i32) -> (r: Self)
        ensures
            r.name@ == name@,
            r.x == x,
            r.y == y,
            r.width == width,
            r.height == height,
    {
        MonitorHandle { name, x, y, width, height }
    }

    /// A field-by-field copy of the handle.
    pub fn duplicate(&self) -> (r: Self)
        ensures
            r.key() == self.key(),
    {
        MonitorHandle {
            name: self.name.clone(),
            x: self.x,
            y: self.y,
            width: self.width,
            height: self.height,
        }
    }

    /// Value equality over name and geometry.
    pub fn same_as(&self, other: &MonitorHandle) -> (r: bool)
        ensures
            r == (self.key() == other.key()),
    {
        self.name == other.name && self.x == other.x && self.y == other.y && self.width
            == other.width && self.height == other.height
    }
}

/// The names of a sequence of monitors, in order.
pub open spec fn names_of(ms: Seq<MonitorHandle>) -> Seq<Seq<char>> {
    ms.map_values(|m: MonitorHandle| m.name@)
}

/// Whether some monitor in `names` carries the name `p`.
pub open spec fn has_name(names: Seq<Seq<char>>, p: Seq<char>) -> bool {
    exists|i: int| 0 <= i < names.len() && names[i] == p
}

/// The index that the selection policy picks: the first monitor named as
/// preferred if there is one, else the first monitor, else nothing.
pub open spec fn selection(names: Seq<Seq<char>>, preferred: Option<Seq<char>>, r: Option<int>) -> bool {
    match r {
        Some(i) => {
            &&& 0 <= i < names.len()
            &&& match preferred {
                Some(p) => if has_name(names, p) {
                    names[i] == p && forall|j: int| 0 <= j < i ==> names[j] != p
                } else {
                    i == 0
                },
                None => i == 0,
            }
        },
        None => names.len() == 0,
    }
}

/// The preferred name as a sequence of characters.
pub open spec fn name_view(preferred: Option<String>) -> Option<Seq<char>> {
    match preferred {
        Some(p) => Some(p@),
        None => None,
    }
}

/// An optional index as a mathematical integer.
pub open spec fn index_view(r: Option<usize>) -> Option<int> {
    match r {
        Some(i) => Some(i as int),
        None => None,
    }
}

/// Picks the monitor to present on and returns its index in `available`.
pub fn select(available: &Vec<MonitorHandle>, preferred: &Option<String>) -> (r: Option<usize>)
    ensures
        selection(
            names_of(available@),
            name_view(*preferred),
            index_view(r),
        ),
{
    if let Some(p) = preferred {
        assert(name_view(*preferred) == Some(p@));
        let mut i: usize = 0;
        while i < available.len()
            invariant
                0 <= i <= available.len(),
                name_view(*preferred) == Some(p@),
                forall|j: int| 0 <= j < i ==> names_of(available@)[j] != p@,
            decreases available.len() - i,
        {
            if available[i].name == *p {
                assert(names_of(available@)[i as int] == p@);
                assert(has_name(names_of(available@), p@));
                return Some(i);
            }
            i = i + 1;
        }
        assert(!has_name(names_of(available@), p@));
    }
    if available.len() == 0 {
        None
    } else {
        Some(0)
    }
}

/// Picks the monitor to present on and returns a copy of it.
pub fn select_monitor(available: &Vec<MonitorHandle>, preferred: &Option<String>) -> (r: Option<MonitorHandle>)
    ensures
        exists|k: Option<int>|
            #[trigger] selection(
                names_of(available@),
                name_view(*preferred),
                k,
            ) && match (k, r) {
                (Some(i), Some(m)) => m.key() == available@[i].key(),
                (None, None) => true,
                _ => false,
            },
{
    match select(available, preferred) {
        Some(i) => Some(available[i].duplicate()),
        None => None,
    }
}

} // verus!
