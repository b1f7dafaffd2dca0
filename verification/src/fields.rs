//! The field map of one event snapshot: field names mapped to the textual,
//! debug-rendered form of their values.
//!
//! The map is filled by an accumulator that the instrumentation facility
//! drives once per field, and is immutable afterwards.  Insertion order is
//! not significant: equality is structural over the entries.

use vstd::prelude::*;

verus! {

/// The entries of a sequence of owned string pairs, as character sequences.
pub open spec fn views_of(entries: Seq<(String, String)>) -> Seq<(Seq<char>, Seq<char>)> {
    entries.map_values(|p: (String, String)| (p.0@, p.1@))
}

/// The mapping described by a sequence of `(name, value)` entries, a later
/// entry overriding an earlier one with the same name.
pub open spec fn entries_map(s: Seq<(Seq<char>, Seq<char>)>) -> Map<Seq<char>, Seq<char>>
    decreases s.len(),
{
    if s.len() == 0 {
        Map::<Seq<char>, Seq<char>>::empty()
    } else {
        entries_map(s.drop_last()).insert(s.last().0, s.last().1)
    }
}

/// No two entries share a name.
pub open spec fn distinct_names(s: Seq<(Seq<char>, Seq<char>)>) -> bool {
    forall|i: int, j: int|
        0 <= i < j < s.len() ==> (#[trigger] s[i]).0 != (#[trigger] s[j]).0
}

/// A name is in the mapping exactly when some entry carries it.
proof fn lemma_entries_map_dom(s: Seq<(Seq<char>, Seq<char>)>, name: Seq<char>)
    ensures
        entries_map(s).dom().contains(name) <==> (exists|i: int|
            0 <= i < s.len() && (#[trigger] s[i]).0 == name),
    decreases s.len(),
{
    if s.len() > 0 {
        lemma_entries_map_dom(s.drop_last(), name);
        assert(forall|i: int| 0 <= i < s.len() - 1 ==> #[trigger] s.drop_last()[i] == s[i]);
        if entries_map(s).dom().contains(name) {
            if s.last().0 == name {
                assert(0 <= s.len() - 1 < s.len() && s[s.len() - 1].0 == name);
            } else {
                let i = choose|i: int|
                    0 <= i < s.drop_last().len() && (#[trigger] s.drop_last()[i]).0 == name;
                assert(s[i].0 == name);
            }
        }
        if exists|i: int| 0 <= i < s.len() && (#[trigger] s[i]).0 == name {
            let i = choose|i: int| 0 <= i < s.len() && (#[trigger] s[i]).0 == name;
            if i < s.len() - 1 {
                assert(s.drop_last()[i].0 == name);
            }
        }
    }
}

/// With distinct names, each entry gives the mapping's value at its name.
proof fn lemma_entries_map_index(s: Seq<(Seq<char>, Seq<char>)>, i: int)
    requires
        distinct_names(s),
        0 <= i < s.len(),
    ensures
        entries_map(s).dom().contains(s[i].0),
        entries_map(s)[s[i].0] == s[i].1,
    decreases s.len(),
{
    assert(forall|j: int| 0 <= j < s.len() - 1 ==> #[trigger] s.drop_last()[j] == s[j]);
    if i < s.len() - 1 {
        assert(s[i].0 != s.last().0);
        lemma_entries_map_index(s.drop_last(), i);
    }
}

/// With distinct names, the mapping has exactly one entry per element.
proof fn lemma_entries_map_len(s: Seq<(Seq<char>, Seq<char>)>)
    requires
        distinct_names(s),
    ensures
        entries_map(s).dom().finite(),
        entries_map(s).len() == s.len(),
    decreases s.len(),
{
    if s.len() > 0 {
        assert(forall|j: int| 0 <= j < s.len() - 1 ==> #[trigger] s.drop_last()[j] == s[j]);
        lemma_entries_map_len(s.drop_last());
        lemma_entries_map_dom(s.drop_last(), s.last().0);
        assert(!entries_map(s.drop_last()).dom().contains(s.last().0));
    }
}

/// Replacing the entry that already carries `name` acts on the mapping as
/// an insertion at `name`.
proof fn lemma_entries_map_update(
    s: Seq<(Seq<char>, Seq<char>)>,
    i: int,
    name: Seq<char>,
    value: Seq<char>,
)
    requires
        distinct_names(s),
        0 <= i < s.len(),
        s[i].0 == name,
    ensures
        distinct_names(s.update(i, (name, value))),
        entries_map(s.update(i, (name, value))) == entries_map(s).insert(name, value),
{
    let t = s.update(i, (name, value));
    assert(forall|j: int| 0 <= j < s.len() ==> (#[trigger] t[j]).0 == s[j].0);
    assert(distinct_names(t));
    let mt = entries_map(t);
    let ms = entries_map(s).insert(name, value);
    assert forall|k: Seq<char>| mt.dom().contains(k) implies ms.dom().contains(k) by {
        lemma_entries_map_dom(t, k);
        let j = choose|j: int| 0 <= j < t.len() && (#[trigger] t[j]).0 == k;
        if j != i {
            assert(s[j].0 == k);
            lemma_entries_map_dom(s, k);
        }
    }
    assert forall|k: Seq<char>| ms.dom().contains(k) implies mt.dom().contains(k) by {
        lemma_entries_map_dom(t, k);
        if k == name {
            assert(0 <= i < t.len() && t[i].0 == k);
        } else {
            lemma_entries_map_dom(s, k);
            let j = choose|j: int| 0 <= j < s.len() && (#[trigger] s[j]).0 == k;
            assert(0 <= j < t.len() && t[j].0 == k);
        }
    }
    assert(mt.dom() =~= ms.dom());
    assert forall|k: Seq<char>| mt.dom().contains(k) implies mt[k] == ms[k] by {
        lemma_entries_map_dom(t, k);
        let j = choose|j: int| 0 <= j < t.len() && (#[trigger] t[j]).0 == k;
        lemma_entries_map_index(t, j);
        if j == i {
            assert(mt[k] == value);
        } else {
            assert(s[j].0 == k);
            assert(s[j].0 != s[i].0);
            lemma_entries_map_index(s, j);
            assert(t[j] == s[j]);
        }
    }
    assert(mt =~= ms);
}

/// Appending an entry with a fresh name acts on the mapping as an
/// insertion.
proof fn lemma_entries_map_push(s: Seq<(Seq<char>, Seq<char>)>, name: Seq<char>, value: Seq<char>)
    requires
        distinct_names(s),
        forall|i: int| 0 <= i < s.len() ==> (#[trigger] s[i]).0 != name,
    ensures
        distinct_names(s.push((name, value))),
        entries_map(s.push((name, value))) == entries_map(s).insert(name, value),
{
    let t = s.push((name, value));
    assert(t.drop_last() =~= s);
    assert(t.last() == (name, value));
    assert(entries_map(t) == entries_map(s).insert(name, value));
}

/// Totality of field extraction: a sequence of distinctly named entries
/// describes a mapping with exactly one entry per field, keyed by the
/// field's declared name and holding the text recorded for it — no field
/// skipped, none counted twice.
pub proof fn lemma_fields_totality(s: Seq<(Seq<char>, Seq<char>)>)
    requires
        distinct_names(s),
    ensures
        entries_map(s).dom().finite(),
        entries_map(s).len() == s.len(),
        forall|i: int| 0 <= i < s.len() ==> {
            &&& entries_map(s).dom().contains((#[trigger] s[i]).0)
            &&& entries_map(s)[s[i].0] == s[i].1
        },
{
    lemma_entries_map_len(s);
    assert forall|i: int| 0 <= i < s.len() implies {
        &&& entries_map(s).dom().contains((#[trigger] s[i]).0)
        &&& entries_map(s)[s[i].0] == s[i].1
    } by {
        lemma_entries_map_index(s, i);
    }
}

/// One snapshot's field map: each field's declared name, mapped to the
/// debug-rendered text of its value.  Fully owned; filled once, at the
/// moment the event fires, and immutable afterwards.
#[derive(Debug)]
pub struct EventFields {
    entries: Vec<(String, String)>,
}

impl EventFields {
    /// The entries as pairs of character sequences, in insertion order.
    pub closed spec fn entry_views(&self) -> Seq<(Seq<char>, Seq<char>)> {
        views_of(self.entries@)
    }

    #[verifier::type_invariant]
    spec fn inv(&self) -> bool {
        distinct_names(self.entry_views())
    }
}

impl View for EventFields {
    type V = Map<Seq<char>, Seq<char>>;

    open spec fn view(&self) -> Map<Seq<char>, Seq<char>> {
        entries_map(self.entry_views())
    }
}

impl EventFields {
    /// An empty field map: what an event with no fields carries — present,
    /// with no entries.
    pub fn new() -> (r: EventFields)
        ensures
            r@ == Map::<Seq<char>, Seq<char>>::empty(),
    {
        let r = EventFields { entries: Vec::new() };
        proof {
            assert(r.entry_views() =~= Seq::<(Seq<char>, Seq<char>)>::empty());
        }
        r
    }

    /// Record one field: the accumulator step the facility drives once per
    /// attached field.  A repeated name keeps a single entry, with the
    /// value recorded last.
    pub fn record(&mut self, name: String, value: String)
        ensures
            final(self)@ == old(self)@.insert(name@, value@),
    {
        proof {
            use_type_invariant(&*self);
        }
        let ghost s = self.entry_views();
        let mut entries: Vec<(String, String)> = Vec::new();
        std::mem::swap(&mut entries, &mut self.entries);
        let n = entries.len();
        let mut i: usize = 0;
        let mut found = false;
        while i < n && !found
            invariant
                n == entries.len(),
                s == views_of(entries@),
                i <= n,
                distinct_names(s),
                !found ==> forall|j: int| 0 <= j < i ==> (#[trigger] s[j]).0 != name@,
                found ==> i < n && s[i as int].0 == name@,
            decreases n - i + (if found { 0int } else { 1int }),
        {
            if entries[i].0 == name {
                found = true;
            } else {
                i += 1;
            }
        }
        if found {
            entries[i] = (name, value);
            proof {
                assert(views_of(entries@) =~= s.update(i as int, (name@, value@)));
                lemma_entries_map_update(s, i as int, name@, value@);
            }
        } else {
            entries.push((name, value));
            proof {
                assert(views_of(entries@) =~= s.push((name@, value@)));
                lemma_entries_map_push(s, name@, value@);
            }
        }
        self.entries = entries;
    }

    /// Look a field up by name: its recorded value, or `None` for a name
    /// no entry carries.
    pub fn get_value(&self, name: &String) -> (r: Option<&String>)
        ensures
            match r {
                Some(v) => self@.dom().contains(name@) && v@ == self@[name@],
                None => !self@.dom().contains(name@),
            },
    {
        proof {
            use_type_invariant(&*self);
        }
        let ghost s = self.entry_views();
        let n = self.entries.len();
        let mut i: usize = 0;
        while i < n
            invariant
                n == self.entries.len(),
                s == self.entry_views(),
                i <= n,
                distinct_names(s),
                forall|j: int| 0 <= j < i ==> (#[trigger] s[j]).0 != name@,
            decreases n - i,
        {
            if self.entries[i].0 == *name {
                proof {
                    lemma_entries_map_index(s, i as int);
                }
                return Some(&self.entries[i].1);
            }
            i += 1;
        }
        proof {
            lemma_entries_map_dom(s, name@);
        }
        None
    }

    /// How many fields the event carried.
    pub fn len(&self) -> (r: usize)
        ensures
            r == self@.len(),
    {
        proof {
            use_type_invariant(&*self);
            lemma_entries_map_len(self.entry_views());
        }
        self.entries.len()
    }

    /// The entries as owned `(name, value)` pairs, one per field of the
    /// mapping, in insertion order.
    pub fn entries(&self) -> (r: &Vec<(String, String)>)
        ensures
            r@.len() == self@.len(),
            forall|i: int, j: int|
                0 <= i < j < r@.len() ==> (#[trigger] r@[i]).0@ != (#[trigger] r@[j]).0@,
            forall|j: int| 0 <= j < r@.len() ==> {
                &&& self@.dom().contains((#[trigger] r@[j]).0@)
                &&& self@[r@[j].0@] == r@[j].1@
            },
    {
        proof {
            use_type_invariant(&*self);
            let s = self.entry_views();
            lemma_entries_map_len(s);
            assert forall|i: int, j: int|
                0 <= i < j < self.entries@.len() implies (#[trigger] self.entries@[i]).0@ != (
            #[trigger] self.entries@[j]).0@ by {
                assert(s[i].0 == self.entries@[i].0@ && s[j].0 == self.entries@[j].0@);
            }
            assert forall|j: int| 0 <= j < self.entries@.len() implies {
                &&& self@.dom().contains((#[trigger] self.entries@[j]).0@)
                &&& self@[self.entries@[j].0@] == self.entries@[j].1@
            } by {
                assert(s[j] == (self.entries@[j].0@, self.entries@[j].1@));
                lemma_entries_map_index(s, j);
            }
        }
        &self.entries
    }
}

impl PartialEq for EventFields {
    /// Structural equality over the mapping: same names, same values, in
    /// whatever insertion order.
    fn eq(&self, other: &EventFields) -> (r: bool) {
        proof {
            use_type_invariant(&*self);
            use_type_invariant(&*other);
            lemma_entries_map_len(self.entry_views());
            lemma_entries_map_len(other.entry_views());
        }
        let ghost s = self.entry_views();
        let n = self.entries.len();
        if n != other.entries.len() {
            return false;
        }
        let mut i: usize = 0;
        while i < n
            invariant
                n == self.entries.len(),
                s == self.entry_views(),
                i <= n,
                distinct_names(s),
                distinct_names(other.entry_views()),
                n == other.entry_views().len(),
                forall|j: int| 0 <= j < i ==> {
                    &&& other@.dom().contains((#[trigger] s[j]).0)
                    &&& other@[s[j].0] == s[j].1
                },
            decreases n - i,
        {
            proof {
                assert(s[i as int] == (self.entries@[i as int].0@, self.entries@[i as int].1@));
            }
            match other.get_value(&self.entries[i].0) {
                Some(v) => {
                    if !(*v == self.entries[i].1) {
                        proof {
                            lemma_entries_map_index(s, i as int);
                            assert(self@[s[i as int].0] != other@[s[i as int].0]);
                        }
                        return false;
                    }
                },
                None => {
                    proof {
                        lemma_entries_map_index(s, i as int);
                        assert(self@.dom().contains(s[i as int].0) && !other@.dom().contains(
                            s[i as int].0,
                        ));
                    }
                    return false;
                },
            }
            i += 1;
        }
        proof {
            lemma_eq_from_entries(*self, *other);
        }
        true
    }
}

/// Two well-formed field maps of equal entry count, where every entry of
/// the first is present in the second, hold the same mapping.
proof fn lemma_eq_from_entries(a: EventFields, b: EventFields)
    requires
        distinct_names(a.entry_views()),
        distinct_names(b.entry_views()),
        a.entry_views().len() == b.entry_views().len(),
        forall|j: int| 0 <= j < a.entry_views().len() ==> {
            &&& b@.dom().contains((#[trigger] a.entry_views()[j]).0)
            &&& b@[a.entry_views()[j].0] == a.entry_views()[j].1
        },
    ensures
        a@ == b@,
{
    let s = a.entry_views();
    let t = b.entry_views();
    lemma_entries_map_len(s);
    lemma_entries_map_len(t);
    assert forall|k: Seq<char>| a@.dom().contains(k) implies b@.dom().contains(k) by {
        lemma_entries_map_dom(s, k);
        let j = choose|j: int| 0 <= j < s.len() && (#[trigger] s[j]).0 == k;
        assert(b@.dom().contains(s[j].0));
    }
    assert(a@.dom().subset_of(b@.dom()));
    assert forall|k: Seq<char>| b@.dom().contains(k) implies a@.dom().contains(k) by {
        if !a@.dom().contains(k) {
            assert forall|x: Seq<char>| a@.dom().contains(x) implies b@.dom().remove(k).contains(
                x,
            ) by {}
            assert(a@.dom().subset_of(b@.dom().remove(k)));
            vstd::set_lib::lemma_len_subset(a@.dom(), b@.dom().remove(k));
            assert(false);
        }
    }
    assert(a@.dom() =~= b@.dom());
    assert forall|k: Seq<char>| a@.dom().contains(k) implies a@[k] == b@[k] by {
        lemma_entries_map_dom(s, k);
        let j = choose|j: int| 0 <= j < s.len() && (#[trigger] s[j]).0 == k;
        lemma_entries_map_index(s, j);
    }
    assert(a@ =~= b@);
}

impl Eq for EventFields {}

impl vstd::std_specs::cmp::PartialEqSpecImpl for EventFields {
    open spec fn obeys_eq_spec() -> bool {
        true
    }

    open spec fn eq_spec(&self, other: &EventFields) -> bool {
        self@ == other@
    }
}

} // verus!
