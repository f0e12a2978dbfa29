//! The mission-control shell: which of its screens are open.
//!
//! The shell keeps the set of names of the open screens. Each frame the user
//! interface reports, screen by screen, whether the screen is now open, and
//! the shell records it.
use vstd::prelude::*;

verus! {

/// The set that a call of [`set_open`] leaves: `key` added when `is_open`,
/// removed otherwise.
pub open spec fn spec_set_open(open: Set<Seq<char>>, key: Seq<char>, is_open: bool) -> Set<
    Seq<char>,
> {
    if is_open {
        open.insert(key)
    } else {
        open.remove(key)
    }
}

/// A set of screen names, each held once.
///
/// The names are kept in a `Vec` with the invariant that none occurs twice,
/// rather than in a `BTreeSet<String>`: vstd specifies `BTreeSet::insert` and
/// `BTreeSet::contains` only for key types shown to order consistently, which
/// it does not show for `String`, and `contains` with a `&str` key is not
/// specified at all.
pub struct OpenScreens {
    names: Vec<String>,
}

impl OpenScreens {
    #[verifier::type_invariant]
    spec fn names_distinct(self) -> bool {
        forall|i: int, j: int|
            0 <= i < j < self.names@.len() ==> #[trigger] self.names@[i]@ != #[trigger] self.names@[j]@
    }

    spec fn holds(self, s: Seq<char>) -> bool {
        exists|i: int| 0 <= i < self.names@.len() && #[trigger] self.names@[i]@ == s
    }

    /// The names in the set.
    pub closed spec fn set(self) -> Set<Seq<char>> {
        Set::new(|s: Seq<char>| self.holds(s))
    }

    /// An empty set of names.
    pub fn new() -> (r: Self)
        ensures
            r.set() == Set::<Seq<char>>::empty(),
    {
        let r = OpenScreens { names: Vec::new() };
        assert(r.set() =~= Set::<Seq<char>>::empty());
        r
    }

    /// The position of `key` among the held names, if it is held.
    fn find(&self, key: &String) -> (r: Option<usize>)
        ensures
            match r {
                Some(i) => i < self.names@.len() && self.names@[i as int]@ == key@,
                None => !self.set().contains(key@),
            },
    {
        let mut i: usize = 0;
        while i < self.names.len()
            invariant
                i <= self.names@.len(),
                forall|j: int| 0 <= j < i ==> #[trigger] self.names@[j]@ != key@,
            decreases self.names@.len() - i,
        {
            if self.names[i] == *key {
                return Some(i);
            }
            i = i + 1;
        }
        None
    }

    /// Whether `key` is in the set.
    pub fn contains(&self, key: &str) -> (r: bool)
        ensures
            r == self.set().contains(key@),
    {
        let k = key.to_owned();
        match self.find(&k) {
            Some(i) => {
                assert(self.holds(key@));
                true
            },
            None => false,
        }
    }

    /// Adds `key` to the set.
    pub fn insert(&mut self, key: &str)
        ensures
            final(self).set() == old(self).set().insert(key@),
    {
        proof {
            use_type_invariant(&*self);
        }
        let k = key.to_owned();
        match self.find(&k) {
            Some(i) => {
                assert(self.set() =~= self.set().insert(key@)) by {
                    assert(self.holds(key@));
                }
            },
            None => {
                let ghost before = self.names@;
                assert(forall|w: int| 0 <= w < before.len() ==> #[trigger] before[w]@ != key@) by {
                    assert(!self.holds(key@));
                }
                let mut names: Vec<String> = Vec::new();
                std::mem::swap(&mut names, &mut self.names);
                names.push(k);
                assert forall|i: int, j: int|
                    0 <= i < j < names@.len() implies #[trigger] names@[i]@
                        != #[trigger] names@[j]@ by {
                    assert(names@[i] == before[i]);
                    if j < before.len() {
                        assert(names@[j] == before[j]);
                    }
                }
                self.names = names;
                assert(self.set() =~= old(self).set().insert(key@)) by {
                    assert forall|s: Seq<char>| #[trigger]
                        old(self).set().insert(key@).contains(s) implies self.holds(s) by {
                        if s == key@ {
                            assert(self.names@[before.len() as int]@ == s);
                        } else {
                            let w = choose|w: int|
                                0 <= w < before.len() && #[trigger] before[w]@ == s;
                            assert(self.names@[w]@ == s);
                        }
                    }
                    assert forall|s: Seq<char>| self.holds(s) implies #[trigger] old(
                        self,
                    ).set().insert(key@).contains(s) by {
                        let w = choose|w: int|
                            0 <= w < self.names@.len() && #[trigger] self.names@[w]@ == s;
                        if w < before.len() {
                            assert(before[w]@ == s);
                            assert(old(self).holds(s));
                        }
                    }
                }
            },
        }
    }

    /// Removes `key` from the set.
    pub fn remove(&mut self, key: &str)
        ensures
            final(self).set() == old(self).set().remove(key@),
    {
        proof {
            use_type_invariant(&*self);
        }
        let k = key.to_owned();
        match self.find(&k) {
            Some(i) => {
                let ghost before = self.names@;
                let mut names: Vec<String> = Vec::new();
                std::mem::swap(&mut names, &mut self.names);
                names.remove(i);
                assert forall|a: int, b: int|
                    0 <= a < b < names@.len() implies #[trigger] names@[a]@
                        != #[trigger] names@[b]@ by {
                    let a0 = if a < i { a } else { a + 1 };
                    let b0 = if b < i { b } else { b + 1 };
                    assert(names@[a] == before[a0]);
                    assert(names@[b] == before[b0]);
                }
                self.names = names;
                assert(self.set() =~= old(self).set().remove(key@)) by {
                    assert forall|s: Seq<char>| #[trigger]
                        old(self).set().remove(key@).contains(s) implies self.holds(s) by {
                        let w = choose|w: int|
                            0 <= w < before.len() && #[trigger] before[w]@ == s;
                        assert(w != i);
                        let w2 = if w < i { w } else { w - 1 };
                        assert(self.names@[w2] == before[w]);
                    }
                    assert forall|s: Seq<char>| self.holds(s) implies #[trigger] old(
                        self,
                    ).set().remove(key@).contains(s) by {
                        let w = choose|w: int|
                            0 <= w < self.names@.len() && #[trigger] self.names@[w]@ == s;
                        let w0 = if w < i { w } else { w + 1 };
                        assert(before[w0]@ == s);
                        assert(old(self).holds(s));
                        assert(w0 != i);
                    }
                }
            },
            None => {
                assert(self.set() =~= self.set().remove(key@));
            },
        }
    }
}

/// Records whether the screen named `key` is open.
pub fn set_open(open: &mut OpenScreens, key: &str, is_open: bool)
    ensures
        final(open).set() == spec_set_open(old(open).set(), key@, is_open),
{
    if is_open {
        if !open.contains(key) {
            open.insert(key);
        }
    } else {
        open.remove(key);
    }
}

/// The name of the flight screen.
pub fn flight_view_name() -> (name: &'static str)
    ensures
        name@ == "🗠 Flight"@,
{
    "🗠 Flight"
}

/// The name of the statistics screen.
pub fn stats_view_name() -> (name: &'static str)
    ensures
        name@ == "🗠 Stats"@,
{
    "🗠 Stats"
}

/// The name of the configuration screen.
pub fn config_view_name() -> (name: &'static str)
    ensures
        name@ == "☰ Config"@,
{
    "☰ Config"
}

/// The names of a list of screens.
pub open spec fn names_of(screens: Seq<String>) -> Seq<Seq<char>> {
    screens.map_values(|s: String| s@)
}

/// The open set after the screens named `names` have reported, in order, the
/// states `updates`: a screen reporting `Some(b)` is recorded as open or
/// closed, one reporting `None` leaves the set as it is.
pub open spec fn spec_apply_updates(
    open: Set<Seq<char>>,
    names: Seq<Seq<char>>,
    updates: Seq<Option<bool>>,
) -> Set<Seq<char>>
    decreases names.len(),
{
    if names.len() == 0 || updates.len() == 0 {
        open
    } else {
        let before = spec_apply_updates(open, names.drop_last(), updates.drop_last());
        match updates.last() {
            Some(b) => spec_set_open(before, names.last(), b),
            None => before,
        }
    }
}

/// The screens of the shell and which of them are open.
pub struct Screens {
    screens: Vec<String>,
    open: OpenScreens,
}

impl Screens {
    /// The names of the screens, in the order they are listed.
    pub closed spec fn names(&self) -> Seq<Seq<char>> {
        names_of(self.screens@)
    }

    /// The names of the open screens.
    pub closed spec fn open_set(&self) -> Set<Seq<char>> {
        self.open.set()
    }

    /// Lists the given screens, with the flight screen open.
    pub fn from_demos(screens: Vec<String>) -> (r: Self)
        ensures
            r.names() == names_of(screens@),
            r.open_set() == Set::<Seq<char>>::empty().insert("🗠 Flight"@),
    {
        let mut open = OpenScreens::new();
        open.insert(flight_view_name());
        Screens { screens, open }
    }

    /// The names of the screens.
    pub fn screen_names(&self) -> (r: &Vec<String>)
        ensures
            names_of(r@) == self.names(),
    {
        &self.screens
    }

    /// Whether the screen named `name` is open.
    pub fn is_open(&self, name: &str) -> (r: bool)
        ensures
            r == self.open_set().contains(name@),
    {
        self.open.contains(name)
    }

    /// For each screen, in order, whether it is open.
    pub fn open_flags(&self) -> (flags: Vec<bool>)
        ensures
            flags@.len() == self.names().len(),
            forall|i: int|
                0 <= i < flags@.len() ==> #[trigger] flags@[i] == self.open_set().contains(
                    self.names()[i],
                ),
    {
        let mut flags: Vec<bool> = Vec::new();
        let mut i: usize = 0;
        while i < self.screens.len()
            invariant
                i <= self.screens@.len(),
                flags@.len() == i,
                forall|j: int|
                    0 <= j < i ==> #[trigger] flags@[j] == self.open.set().contains(
                        self.screens@[j]@,
                    ),
            decreases self.screens@.len() - i,
        {
            let b = self.open.contains(self.screens[i].as_str());
            flags.push(b);
            i = i + 1;
        }
        flags
    }

    /// Records, screen by screen in order, the state each screen reported:
    /// `Some(b)` for a screen that is now open (`b`) or closed (`!b`), `None`
    /// for a screen that reported nothing.
    pub fn sync_open(&mut self, updates: &Vec<Option<bool>>)
        requires
            updates@.len() == old(self).names().len(),
        ensures
            final(self).names() == old(self).names(),
            final(self).open_set() == spec_apply_updates(
                old(self).open_set(),
                old(self).names(),
                updates@,
            ),
    {
        let ghost names = self.names();
        let ghost start = self.open.set();
        let mut i: usize = 0;
        while i < self.screens.len()
            invariant
                i <= self.screens@.len(),
                updates@.len() == self.screens@.len(),
                names == names_of(self.screens@),
                self.open.set() == spec_apply_updates(
                    start,
                    names.take(i as int),
                    updates@.take(i as int),
                ),
            decreases self.screens@.len() - i,
        {
            let ghost prev = self.open.set();
            assert(names.take(i + 1).drop_last() =~= names.take(i as int));
            assert(updates@.take(i + 1).drop_last() =~= updates@.take(i as int));
            match updates[i] {
                Some(b) => {
                    set_open(&mut self.open, self.screens[i].as_str(), b);
                },
                None => {},
            }
            i = i + 1;
        }
        assert(names.take(names.len() as int) =~= names);
        assert(updates@.take(updates@.len() as int) =~= updates@);
    }
}

impl Default for Screens {
    /// The flight and statistics screens, with the flight screen open.
    fn default() -> (r: Self)
        ensures
            r.names() == seq!["🗠 Flight"@, "🗠 Stats"@],
            r.open_set() == Set::<Seq<char>>::empty().insert("🗠 Flight"@),
    {
        let mut screens: Vec<String> = Vec::new();
        screens.push(flight_view_name().to_owned());
        screens.push(stats_view_name().to_owned());
        let r = Screens::from_demos(screens);
        assert(names_of(screens@) =~= seq!["🗠 Flight"@, "🗠 Stats"@]);
        r
    }
}

/// The path shown for the configuration file picked in the configuration
/// screen, or `(none)` when none has been picked.
pub fn path_string(picked_path: &Option<String>) -> (shown: String)
    ensures
        match picked_path {
            Some(p) => shown@ == p@,
            None => shown@ == "(none)"@,
        },
{
    match picked_path {
        Some(p) => p.clone(),
        None => "(none)".to_owned(),
    }
}

/// Recording open or closed a name that already is so leaves the set as it is;
/// recording it twice is recording it once; and the other names are left
/// alone.
pub proof fn lemma_set_open_laws(open: Set<Seq<char>>, key: Seq<char>, other: Seq<char>, is_open: bool)
    ensures
        spec_set_open(open, key, open.contains(key)) == open,
        spec_set_open(spec_set_open(open, key, is_open), key, is_open) == spec_set_open(
            open,
            key,
            is_open,
        ),
        spec_set_open(open, key, is_open).contains(key) == is_open,
        other != key ==> spec_set_open(open, key, is_open).contains(other) == open.contains(other),
{
    assert(spec_set_open(open, key, open.contains(key)) =~= open);
    assert(spec_set_open(spec_set_open(open, key, is_open), key, is_open) =~= spec_set_open(
        open,
        key,
        is_open,
    ));
}

/// A frame in which every screen reports the state it already had (or
/// nothing) leaves the open set as it was.
pub proof fn lemma_unchanged_reports_keep_open_set(
    open: Set<Seq<char>>,
    names: Seq<Seq<char>>,
    updates: Seq<Option<bool>>,
)
    requires
        updates.len() == names.len(),
        forall|i: int|
            0 <= i < names.len() ==> match #[trigger] updates[i] {
                Some(b) => b == open.contains(names[i]),
                None => true,
            },
    ensures
        spec_apply_updates(open, names, updates) == open,
    decreases names.len(),
{
    if names.len() > 0 {
        let n = names.drop_last();
        let u = updates.drop_last();
        assert forall|i: int| 0 <= i < n.len() implies match #[trigger] u[i] {
            Some(b) => b == open.contains(n[i]),
            None => true,
        } by {
            assert(u[i] == updates[i]);
            assert(n[i] == names[i]);
        }
        lemma_unchanged_reports_keep_open_set(open, n, u);
        let last = updates[updates.len() - 1];
        match last {
            Some(b) => {
                lemma_set_open_laws(open, names.last(), names.last(), b);
            },
            None => {},
        }
    }
}

/// After a frame's reports from screens with distinct names, a screen that
/// reported `Some(b)` is open exactly when `b`, a screen that reported
/// nothing is open exactly when it was before, and a name of no listed
/// screen is open exactly when it was before.
pub proof fn lemma_reports_recorded(
    open: Set<Seq<char>>,
    names: Seq<Seq<char>>,
    updates: Seq<Option<bool>>,
    other: Seq<char>,
)
    requires
        updates.len() == names.len(),
        forall|a: int, b: int| 0 <= a < b < names.len() ==> names[a] != names[b],
    ensures
        forall|i: int|
            0 <= i < names.len() ==> spec_apply_updates(open, names, updates).contains(
                #[trigger] names[i],
            ) == match updates[i] {
                Some(b) => b,
                None => open.contains(names[i]),
            },
        !names.contains(other) ==> spec_apply_updates(open, names, updates).contains(other)
            == open.contains(other),
    decreases names.len(),
{
    if names.len() > 0 {
        let n = names.drop_last();
        let u = updates.drop_last();
        let last = names.len() - 1;
        lemma_reports_recorded(open, n, u, other);
        lemma_reports_recorded(open, n, u, names[last]);
        let before = spec_apply_updates(open, n, u);
        assert forall|i: int| 0 <= i < names.len() implies spec_apply_updates(
            open,
            names,
            updates,
        ).contains(#[trigger] names[i]) == match updates[i] {
            Some(b) => b,
            None => open.contains(names[i]),
        } by {
            if i < last {
                assert(n[i] == names[i]);
                assert(u[i] == updates[i]);
                assert(names[i] != names[last]);
            } else {
                assert(!n.contains(names[last])) by {
                    if n.contains(names[last]) {
                        let w = choose|w: int| 0 <= w < n.len() && n[w] == names[last];
                        assert(names[w] == names[last]);
                    }
                }
            }
        }
        if !names.contains(other) {
            assert(!n.contains(other)) by {
                if n.contains(other) {
                    let w = choose|w: int| 0 <= w < n.len() && n[w] == other;
                    assert(names[w] == other);
                }
            }
            assert(names[last] != other);
        }
    }
}

} // verus!
