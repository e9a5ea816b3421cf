//! Named height presets for lifts.
//!
//! Presets let you define meaningful lift positions once and refer to them
//! by name. Each preset is a name and a height key (see the module
//! documentation of `lift`); presets keep their insertion order.

use vstd::prelude::*;

verus! {

/// The abstract contents of a preset table: (name, height key) pairs in
/// insertion order.
pub type PresetSeq = Seq<(Seq<char>, i64)>;

/// The height key of the first preset called `name`, if any.
pub open spec fn preset_lookup(s: PresetSeq, name: Seq<char>) -> Option<i64>
    decreases s.len(),
{
    if s.len() == 0 {
        None
    } else if s[0].0 == name {
        Some(s[0].1)
    } else {
        preset_lookup(s.drop_first(), name)
    }
}

/// `i` is the first entry of `s` whose height lies strictly above `above`
/// and no other such entry is lower.
pub open spec fn is_next_up(s: PresetSeq, above: i64, i: int) -> bool {
    &&& 0 <= i < s.len()
    &&& s[i].1 > above
    &&& forall|j: int| 0 <= j < s.len() && s[j].1 > above ==> s[i].1 <= #[trigger] s[j].1
    &&& forall|j: int| 0 <= j < i && s[j].1 > above ==> s[i].1 < #[trigger] s[j].1
}

/// `i` is the last entry of `s` whose height lies strictly below `below`
/// and no other such entry is higher.
pub open spec fn is_next_down(s: PresetSeq, below: i64, i: int) -> bool {
    &&& 0 <= i < s.len()
    &&& s[i].1 < below
    &&& forall|j: int| 0 <= j < s.len() && s[j].1 < below ==> #[trigger] s[j].1 <= s[i].1
    &&& forall|j: int| i < j < s.len() && s[j].1 < below ==> #[trigger] s[j].1 < s[i].1
}

/// `i` is the lowest entry of `s`, the first of several equally low ones.
pub open spec fn is_lowest(s: PresetSeq, i: int) -> bool {
    &&& 0 <= i < s.len()
    &&& forall|j: int| 0 <= j < s.len() ==> s[i].1 <= #[trigger] s[j].1
    &&& forall|j: int| 0 <= j < i ==> s[i].1 < #[trigger] s[j].1
}

/// `i` is the highest entry of `s`, the last of several equally high ones.
pub open spec fn is_highest(s: PresetSeq, i: int) -> bool {
    &&& 0 <= i < s.len()
    &&& forall|j: int| 0 <= j < s.len() ==> #[trigger] s[j].1 <= s[i].1
    &&& forall|j: int| i < j < s.len() ==> #[trigger] s[j].1 < s[i].1
}

/// Some entry of `s` lies strictly above `above`.
pub open spec fn has_above(s: PresetSeq, above: i64) -> bool {
    exists|j: int| 0 <= j < s.len() && #[trigger] s[j].1 > above
}

/// Some entry of `s` lies strictly below `below`.
pub open spec fn has_below(s: PresetSeq, below: i64) -> bool {
    exists|j: int| 0 <= j < s.len() && #[trigger] s[j].1 < below
}

/// `i` is the first index at which `d` takes its least value.
pub open spec fn is_first_min(d: Seq<i64>, i: int) -> bool {
    &&& 0 <= i < d.len()
    &&& forall|j: int| 0 <= j < d.len() ==> d[i] <= #[trigger] d[j]
    &&& forall|j: int| 0 <= j < i ==> d[i] < #[trigger] d[j]
}

/// Adding a preset never changes what an existing name looks up, and a new
/// name looks up the height it was added with; every other name is
/// unaffected.
pub proof fn lemma_lookup_after_add(s: PresetSeq, name: Seq<char>, height: i64, other: Seq<char>)
    ensures
        preset_lookup(s.push((name, height)), name) == (match preset_lookup(s, name) {
            Some(h) => Some(h),
            None => Some(height),
        }),
        other != name ==> preset_lookup(s.push((name, height)), other) == preset_lookup(s, other),
    decreases s.len(),
{
    let t = s.push((name, height));
    if s.len() == 0 {
        assert(t.drop_first() =~= Seq::<(Seq<char>, i64)>::empty());
    } else {
        assert(t.drop_first() =~= s.drop_first().push((name, height)));
        lemma_lookup_after_add(s.drop_first(), name, height, other);
    }
}

/// Looking up a name finds the height of the first preset with that name,
/// and finds nothing exactly when no preset has that name.
pub proof fn lemma_lookup_finds_first(s: PresetSeq, name: Seq<char>)
    ensures
        preset_lookup(s, name) is None <==> forall|i: int| 0 <= i < s.len() ==> s[i].0 != name,
        preset_lookup(s, name) matches Some(h) ==> exists|i: int|
            0 <= i < s.len() && s[i].0 == name && s[i].1 == h && forall|j: int|
                0 <= j < i ==> s[j].0 != name,
    decreases s.len(),
{
    if s.len() > 0 {
        let t = s.drop_first();
        lemma_lookup_finds_first(t, name);
        if s[0].0 == name {
            assert(0 <= 0 < s.len() && s[0].0 == name);
        } else {
            assert forall|i: int| 0 <= i < t.len() implies t[i] == s[i + 1] by {}
            if preset_lookup(t, name) is None {
                assert forall|i: int| 0 <= i < s.len() implies s[i].0 != name by {
                    if i > 0 {
                        assert(t[i - 1] == s[i]);
                    }
                }
            } else {
                let h = preset_lookup(t, name).unwrap();
                let k = choose|k: int|
                    0 <= k < t.len() && t[k].0 == name && t[k].1 == h && forall|j: int|
                        0 <= j < k ==> t[j].0 != name;
                assert(s[k + 1].0 == name && s[k + 1].1 == h);
                assert forall|j: int| 0 <= j < k + 1 implies s[j].0 != name by {
                    if j > 0 {
                        assert(t[j - 1] == s[j]);
                    }
                }
                assert(s[k + 1].0 == name);
            }
        }
    }
}

/// The preset chosen when cycling up lies above the lift and no preset lies
/// strictly between the lift and it; the one chosen when cycling down lies
/// below and none lies strictly between it and the lift. A wrap target is
/// the lowest (cycling up) or highest (cycling down) preset. Where several
/// presets share the chosen height, up and lowest pick the first of them,
/// down and highest the last, and the nearest preset is the first at the
/// least distance.
pub proof fn lemma_cycle_targets(s: PresetSeq, a: i64, i: int, d: Seq<i64>)
    ensures
        is_next_up(s, a, i) ==> 0 <= i < s.len() && s[i].1 > a && (forall|j: int|
            0 <= j < s.len() ==> !(a < s[j].1 && s[j].1 < s[i].1)) && (forall|j: int|
            0 <= j < i ==> !(s[j].1 == s[i].1)),
        is_next_down(s, a, i) ==> 0 <= i < s.len() && s[i].1 < a && (forall|j: int|
            0 <= j < s.len() ==> !(s[i].1 < s[j].1 && s[j].1 < a)) && (forall|j: int|
            i < j < s.len() ==> !(s[j].1 == s[i].1)),
        is_lowest(s, i) ==> 0 <= i < s.len() && (forall|j: int|
            0 <= j < s.len() ==> !(s[j].1 < s[i].1)) && (forall|j: int|
            0 <= j < i ==> !(s[j].1 == s[i].1)),
        is_highest(s, i) ==> 0 <= i < s.len() && (forall|j: int|
            0 <= j < s.len() ==> !(s[j].1 > s[i].1)) && (forall|j: int|
            i < j < s.len() ==> !(s[j].1 == s[i].1)),
        is_first_min(d, i) ==> 0 <= i < d.len() && (forall|j: int|
            0 <= j < d.len() ==> !(d[j] < d[i])) && (forall|j: int| 0 <= j < i ==> !(d[j] == d[i])),
        !has_above(s, a) ==> forall|j: int| 0 <= j < s.len() ==> s[j].1 <= a,
        !has_below(s, a) ==> forall|j: int| 0 <= j < s.len() ==> s[j].1 >= a,
{
    if is_next_up(s, a, i) {
        assert forall|j: int| 0 <= j < s.len() implies !(a < s[j].1 && s[j].1 < s[i].1) by {
            if a < s[j].1 {
                assert(s[i].1 <= s[j].1);
            }
        }
        assert forall|j: int| 0 <= j < i implies !(s[j].1 == s[i].1) by {
            if s[j].1 == s[i].1 {
                assert(s[j].1 > a);
            }
        }
    }
    if is_next_down(s, a, i) {
        assert forall|j: int| 0 <= j < s.len() implies !(s[i].1 < s[j].1 && s[j].1 < a) by {
            if s[j].1 < a {
                assert(s[j].1 <= s[i].1);
            }
        }
        assert forall|j: int| i < j < s.len() implies !(s[j].1 == s[i].1) by {
            if s[j].1 == s[i].1 {
                assert(s[j].1 < a);
            }
        }
    }
    if !has_above(s, a) {
        assert forall|j: int| 0 <= j < s.len() implies s[j].1 <= a by {
            if s[j].1 > a {
                assert(has_above(s, a));
            }
        }
    }
    if !has_below(s, a) {
        assert forall|j: int| 0 <= j < s.len() implies s[j].1 >= a by {
            if s[j].1 < a {
                assert(has_below(s, a));
            }
        }
    }
}

/// A collection of named lift heights.
#[derive(Debug, Clone)]
pub struct LiftPresets {
    entries: Vec<(String, i64)>,
}

impl View for LiftPresets {
    type V = PresetSeq;

    closed spec fn view(&self) -> PresetSeq {
        Seq::new(self.entries@.len(), |i: int| (self.entries@[i].0@, self.entries@[i].1))
    }
}

impl Default for LiftPresets {
    fn default() -> (p: Self)
        ensures
            p@ == Seq::<(Seq<char>, i64)>::empty(),
    {
        LiftPresets::new()
    }
}

impl LiftPresets {
    /// An empty preset table.
    pub fn new() -> (p: Self)
        ensures
            p@ == Seq::<(Seq<char>, i64)>::empty(),
    {
        let p = LiftPresets { entries: Vec::new() };
        assert(p@ =~= Seq::<(Seq<char>, i64)>::empty());
        p
    }

    /// Add a named preset at the end and return `self` for chaining.
    pub fn add(self, name: &str, height: i64) -> (p: Self)
        ensures
            p@ == self@.push((name@, height)),
    {
        let mut entries = self.entries;
        entries.push((name.to_owned(), height));
        let p = LiftPresets { entries };
        assert(p@ =~= self@.push((name@, height)));
        p
    }

    /// Look up a preset by name; the first preset with that name wins.
    /// Returns `None` if no preset has that name.
    pub fn get(&self, name: &str) -> (r: Option<i64>)
        ensures
            r == preset_lookup(self@, name@),
    {
        let ghost s = self@;
        let target = name.to_owned();
        let mut i: usize = 0;
        assert(s.skip(0) =~= s);
        while i < self.entries.len()
            invariant
                s == self@,
                target@ == name@,
                0 <= i <= s.len(),
                preset_lookup(s, name@) == preset_lookup(s.skip(i as int), name@),
            decreases s.len() - i,
        {
            let ghost rest = s.skip(i as int);
            assert(rest[0] == s[i as int]);
            assert(rest.drop_first() =~= s.skip(i + 1));
            if self.entries[i].0 == target {
                return Some(self.entries[i].1);
            }
            i = i + 1;
        }
        assert(s.skip(i as int).len() == 0);
        None
    }

    /// Number of defined presets.
    pub fn len(&self) -> (n: usize)
        ensures
            n == self@.len(),
    {
        self.entries.len()
    }

    /// Returns all preset names in insertion order.
    pub fn names(&self) -> (r: Vec<&str>)
        ensures
            r@.len() == self@.len(),
            forall|i: int| 0 <= i < r@.len() ==> (#[trigger] r@[i])@ == self@[i].0,
    {
        let mut r: Vec<&str> = Vec::new();
        let mut i: usize = 0;
        while i < self.entries.len()
            invariant
                0 <= i <= self@.len(),
                r@.len() == i,
                forall|k: int| 0 <= k < i ==> (#[trigger] r@[k])@ == self@[k].0,
            decreases self@.len() - i,
        {
            r.push(self.entries[i].0.as_str());
            i = i + 1;
        }
        r
    }

    /// Returns (name, height key) pairs in insertion order.
    pub fn iter(&self) -> (r: Vec<(&str, i64)>)
        ensures
            r@.len() == self@.len(),
            forall|i: int|
                0 <= i < r@.len() ==> (#[trigger] r@[i]).0@ == self@[i].0 && r@[i].1 == self@[i].1,
    {
        let mut r: Vec<(&str, i64)> = Vec::new();
        let mut i: usize = 0;
        while i < self.entries.len()
            invariant
                0 <= i <= self@.len(),
                r@.len() == i,
                forall|k: int|
                    0 <= k < i ==> (#[trigger] r@[k]).0@ == self@[k].0 && r@[k].1 == self@[k].1,
            decreases self@.len() - i,
        {
            r.push((self.entries[i].0.as_str(), self.entries[i].1));
            i = i + 1;
        }
        r
    }

    /// The preset at position `index` in insertion order, or `None` when
    /// `index` is past the end.
    pub fn entry(&self, index: usize) -> (r: Option<(&str, i64)>)
        ensures
            index < self@.len() ==> (r matches Some(e) && e.0@ == self@[index as int].0
                && e.1 == self@[index as int].1),
            index >= self@.len() ==> r is None,
    {
        if index < self.entries.len() {
            Some((self.entries[index].0.as_str(), self.entries[index].1))
        } else {
            None
        }
    }

    /// The preset to move to when cycling up from a lift whose height key
    /// is `above`: the lowest preset strictly above it (the first such in
    /// insertion order when several share that height). When no preset is
    /// above, cycling wraps back to the lowest preset (again the first of
    /// equals). `None` only when there are no presets.
    pub fn next_preset_index(&self, above: i64) -> (r: Option<usize>)
        ensures
            self@.len() == 0 <==> r is None,
            has_above(self@, above) ==> (r matches Some(i) && is_next_up(self@, above, i as int)),
            !has_above(self@, above) && self@.len() > 0 ==> (r matches Some(i) && is_lowest(
                self@,
                i as int,
            )),
    {
        let ghost s = self@;
        let n = self.entries.len();
        if n == 0 {
            return None;
        }
        let mut best: Option<usize> = None;
        let mut low: usize = 0;
        let mut i: usize = 0;
        while i < n
            invariant
                s == self@,
                n == s.len(),
                n > 0,
                0 <= i <= n,
                low < n,
                i > 0 ==> low < i,
                i == 0 ==> low == 0,
                forall|j: int| 0 <= j < i ==> s[low as int].1 <= #[trigger] s[j].1,
                forall|j: int| 0 <= j < low ==> s[low as int].1 < #[trigger] s[j].1,
                match best {
                    None => forall|j: int| 0 <= j < i ==> !(#[trigger] s[j].1 > above),
                    Some(b) => {
                        &&& b < i
                        &&& s[b as int].1 > above
                        &&& forall|j: int| 0 <= j < i && s[j].1 > above ==> s[b as int].1 <= #[trigger] s[j].1
                        &&& forall|j: int| 0 <= j < b && s[j].1 > above ==> s[b as int].1 < #[trigger] s[j].1
                    },
                },
            decreases n - i,
        {
            let h = self.entries[i].1;
            if h < self.entries[low].1 {
                low = i;
            }
            if h > above {
                match best {
                    None => {
                        best = Some(i);
                    },
                    Some(b) => {
                        if h < self.entries[b].1 {
                            best = Some(i);
                        }
                    },
                }
            }
            i = i + 1;
        }
        match best {
            Some(b) => Some(b),
            None => Some(low),
        }
    }

    /// The preset to move to when cycling down from a lift whose height key
    /// is `below`: the highest preset strictly below it (the last such in
    /// insertion order when several share that height). When no preset is
    /// below, cycling wraps back to the highest preset (again the last of
    /// equals). `None` only when there are no presets.
    pub fn prev_preset_index(&self, below: i64) -> (r: Option<usize>)
        ensures
            self@.len() == 0 <==> r is None,
            has_below(self@, below) ==> (r matches Some(i) && is_next_down(self@, below, i as int)),
            !has_below(self@, below) && self@.len() > 0 ==> (r matches Some(i) && is_highest(
                self@,
                i as int,
            )),
    {
        let ghost s = self@;
        let n = self.entries.len();
        if n == 0 {
            return None;
        }
        let mut best: Option<usize> = None;
        let mut high: usize = 0;
        let mut i: usize = 0;
        while i < n
            invariant
                s == self@,
                n == s.len(),
                n > 0,
                0 <= i <= n,
                high < n,
                i > 0 ==> high < i,
                i == 0 ==> high == 0,
                forall|j: int| 0 <= j < i ==> #[trigger] s[j].1 <= s[high as int].1,
                forall|j: int| high < j < i ==> #[trigger] s[j].1 < s[high as int].1,
                match best {
                    None => forall|j: int| 0 <= j < i ==> !(#[trigger] s[j].1 < below),
                    Some(b) => {
                        &&& b < i
                        &&& s[b as int].1 < below
                        &&& forall|j: int| 0 <= j < i && s[j].1 < below ==> #[trigger] s[j].1 <= s[b as int].1
                        &&& forall|j: int| b < j < i && s[j].1 < below ==> #[trigger] s[j].1 < s[b as int].1
                    },
                },
            decreases n - i,
        {
            let h = self.entries[i].1;
            if h >= self.entries[high].1 {
                high = i;
            }
            if h < below {
                match best {
                    None => {
                        best = Some(i);
                    },
                    Some(b) => {
                        if h >= self.entries[b].1 {
                            best = Some(i);
                        }
                    },
                }
            }
            i = i + 1;
        }
        match best {
            Some(b) => Some(b),
            None => Some(high),
        }
    }

    /// Name of the preset closest to a height, given `distances[i]`, the key
    /// of the distance from that height to preset `i`. Ties go to the
    /// preset added first; `None` when there are no presets.
    pub fn nearest(&self, distances: &Vec<i64>) -> (r: Option<&str>)
        requires
            distances@.len() == self@.len(),
        ensures
            self@.len() == 0 <==> r is None,
            r matches Some(name) ==> exists|i: int|
                is_first_min(distances@, i) && name@ == #[trigger] self@[i].0,
    {
        let n = self.entries.len();
        if n == 0 {
            return None;
        }
        let mut best: usize = 0;
        let mut i: usize = 1;
        while i < n
            invariant
                n == self@.len(),
                n == distances@.len(),
                1 <= i <= n,
                best < i,
                forall|j: int| 0 <= j < i ==> distances@[best as int] <= #[trigger] distances@[j],
                forall|j: int| 0 <= j < best ==> distances@[best as int] < #[trigger] distances@[j],
            decreases n - i,
        {
            if distances[i] < distances[best] {
                best = i;
            }
            i = i + 1;
        }
        let name = self.entries[best].0.as_str();
        assert(is_first_min(distances@, best as int));
        assert(name@ == self@[best as int].0);
        Some(name)
    }

    /// Returns `true` when no preset is defined.
    pub fn is_empty(&self) -> (b: bool)
        ensures
            b == (self@.len() == 0),
    {
        self.entries.len() == 0
    }
}

} // verus!
