use vstd::prelude::*;

verus! {

/// The map that a list of `(name, value)` entries describes: later entries win.
pub open spec fn entries_map(s: Seq<(String, String)>) -> Map<Seq<char>, Seq<char>>
    decreases s.len(),
{
    if s.len() == 0 {
        Map::empty()
    } else {
        entries_map(s.drop_last()).insert(s.last().0@, s.last().1@)
    }
}

/// No option name occurs twice in the list.
pub open spec fn names_unique(s: Seq<(String, String)>) -> bool {
    forall|i: int, j: int| 0 <= i < j < s.len() ==> s[i].0@ != s[j].0@
}

/// The engine-wide settings: a debug flag and named string options.
pub struct EngineSettings {
    debug: bool,
    options: Vec<(String, String)>,
}

impl View for EngineSettings {
    type V = Map<Seq<char>, Seq<char>>;

    /// The option mapping, from option name to option value.
    closed spec fn view(&self) -> Map<Seq<char>, Seq<char>> {
        entries_map(self.options@)
    }
}

proof fn lemma_entries_keys(s: Seq<(String, String)>)
    ensures
        entries_map(s).dom().finite(),
        forall|k: Seq<char>|
            entries_map(s).contains_key(k) <==> exists|i: int| 0 <= i < s.len() && s[i].0@ == k,
        names_unique(s) ==> entries_map(s).dom().len() == s.len(),
    decreases s.len(),
{
    if s.len() > 0 {
        let p = s.drop_last();
        lemma_entries_keys(p);
        assert forall|k: Seq<char>|
            entries_map(s).contains_key(k) <==> exists|i: int| 0 <= i < s.len() && s[i].0@ == k by {
            if entries_map(s).contains_key(k) && k != s.last().0@ {
                let i = choose|i: int| 0 <= i < p.len() && p[i].0@ == k;
                assert(s[i] == p[i]);
            }
            if exists|i: int| 0 <= i < s.len() && s[i].0@ == k {
                let i = choose|i: int| 0 <= i < s.len() && s[i].0@ == k;
                if i < p.len() {
                    assert(s[i] == p[i]);
                }
            }
        }
        if names_unique(s) {
            assert(names_unique(p)) by {
                assert forall|i: int, j: int| 0 <= i < j < p.len() implies p[i].0@ != p[j].0@ by {
                    assert(p[i] == s[i] && p[j] == s[j]);
                }
            }
            if entries_map(p).contains_key(s.last().0@) {
                let i = choose|i: int| 0 <= i < p.len() && p[i].0@ == s.last().0@;
                assert(p[i] == s[i]);
            }
        }
    }
}

proof fn lemma_entries_set_value(s: Seq<(String, String)>, i: int, v: String)
    requires
        0 <= i < s.len(),
        names_unique(s),
    ensures
        entries_map(s.update(i, (s[i].0, v))) == entries_map(s).insert(s[i].0@, v@),
    decreases s.len(),
{
    let t = s.update(i, (s[i].0, v));
    if i == s.len() - 1 {
        assert(t.drop_last() == s.drop_last());
        assert(entries_map(t) =~= entries_map(s).insert(s[i].0@, v@));
    } else {
        let p = s.drop_last();
        assert(t.drop_last() == p.update(i, (p[i].0, v)));
        assert(names_unique(p)) by {
            assert forall|a: int, b: int| 0 <= a < b < p.len() implies p[a].0@ != p[b].0@ by {
                assert(p[a] == s[a] && p[b] == s[b]);
            }
        }
        lemma_entries_set_value(p, i, v);
        assert(s[i].0@ != s.last().0@);
        assert(entries_map(t) =~= entries_map(s).insert(s[i].0@, v@));
    }
}

impl EngineSettings {
    /// The settings are well formed: every option name is stored once.
    pub closed spec fn wf(&self) -> bool {
        names_unique(self.options@)
    }

    /// The debug flag.
    pub closed spec fn debug_on(&self) -> bool {
        self.debug
    }

    /// Reads the debug flag.
    pub fn debug(&self) -> (r: bool)
        ensures
            r == self.debug_on(),
    {
        self.debug
    }

    /// Settings at startup: debug off, no options.
    pub fn new() -> (r: EngineSettings)
        ensures
            r.wf(),
            !r.debug_on(),
            r@ == Map::<Seq<char>, Seq<char>>::empty(),
    {
        EngineSettings { debug: false, options: Vec::new() }
    }

    /// Writes the debug flag; the options are left as they are.
    pub fn set_debug(&mut self, on: bool)
        requires
            old(self).wf(),
        ensures
            final(self).wf(),
            final(self).debug_on() == on,
            final(self)@ == old(self)@,
    {
        self.debug = on;
    }

    /// Inserts the option `name` with `value`, replacing any value it had.
    pub fn set_option(&mut self, name: String, value: String)
        requires
            old(self).wf(),
        ensures
            final(self).wf(),
            final(self).debug_on() == old(self).debug_on(),
            final(self)@ == old(self)@.insert(name@, value@),
    {
        let n = self.options.len();
        let mut i: usize = 0;
        while i < n
            invariant
                n == self.options.len(),
                i <= n,
                self.options@ == old(self).options@,
                self.debug == old(self).debug,
                names_unique(self.options@),
                forall|j: int| 0 <= j < i ==> self.options@[j].0@ != name@,
            decreases n - i,
        {
            if self.options[i].0 == name {
                proof {
                    lemma_entries_set_value(self.options@, i as int, value);
                }
                self.options[i].1 = value;
                return;
            }
            i = i + 1;
        }
        let ghost before = self.options@;
        self.options.push((name, value));
        proof {
            assert(self.options@.drop_last() == before);
            assert forall|a: int, b: int|
                0 <= a < b < self.options@.len() implies self.options@[a].0@
                != self.options@[b].0@ by {
                if b < before.len() {
                    assert(self.options@[a] == before[a] && self.options@[b] == before[b]);
                } else {
                    assert(self.options@[a] == before[a]);
                }
            }
        }
    }

    /// The value stored for option `name`, if any.
    pub fn get_option(&self, name: &str) -> (r: Option<String>)
        requires
            self.wf(),
        ensures
            r.is_some() == self@.contains_key(name@),
            r.is_some() ==> r.unwrap()@ == self@[name@],
    {
        let key = name.to_owned();
        let n = self.options.len();
        let mut i: usize = 0;
        while i < n
            invariant
                n == self.options.len(),
                i <= n,
                key@ == name@,
                names_unique(self.options@),
                forall|j: int| 0 <= j < i ==> self.options@[j].0@ != name@,
            decreases n - i,
        {
            if self.options[i].0 == key {
                proof {
                    lemma_entries_set_value(self.options@, i as int, self.options@[i as int].1);
                    assert(self.options@.update(i as int, self.options@[i as int])
                        == self.options@);
                }
                return Some(self.options[i].1.clone());
            }
            i = i + 1;
        }
        proof {
            lemma_entries_keys(self.options@);
        }
        None
    }

    /// Well-formed settings hold finitely many options.
    pub proof fn lemma_options_finite(&self)
        requires
            self.wf(),
        ensures
            self@.dom().finite(),
    {
        lemma_entries_keys(self.options@);
    }

    /// The number of options stored.
    pub fn option_count(&self) -> (r: usize)
        requires
            self.wf(),
        ensures
            r == self@.len(),
    {
        proof {
            lemma_entries_keys(self.options@);
        }
        self.options.len()
    }
}

impl Default for EngineSettings {
    fn default() -> (r: EngineSettings)
        ensures
            r.wf(),
            !r.debug_on(),
            r@ == Map::<Seq<char>, Seq<char>>::empty(),
    {
        EngineSettings::new()
    }
}

} // verus!
