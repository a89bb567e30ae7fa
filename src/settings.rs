use vstd::prelude::*;

verus! {

/// A user preference.
#[derive(Clone, Debug)]
pub enum Options {
    UpdateFoundAnime(String),
}

/// The names of all known options, in order.
pub open spec fn option_names() -> Seq<Seq<char>> {
    seq!["Update the anime that you have already searched for"@]
}

impl Options {
    /// Every known option, labelled with its name.
    pub fn arr() -> (r: [Options; 1])
        ensures
            forall|i: int| 0 <= i < 1 ==> (#[trigger] r[i]).name() == option_names()[i],
    {
        [Options::UpdateFoundAnime(String::from_str("Update the anime that you have already searched for"))]
    }

    pub open spec fn name(&self) -> Seq<char> {
        match self {
            Options::UpdateFoundAnime(t) => t@,
        }
    }

    /// The option's name.
    pub fn val(&self) -> (r: String)
        ensures
            r@ == self.name(),
    {
        match self {
            Options::UpdateFoundAnime(t) => t.clone(),
        }
    }
}

/// Whether `key` names an entry of `s`.
pub open spec fn has_key(s: Seq<(Seq<char>, bool)>, key: Seq<char>) -> bool {
    exists|i: int| 0 <= i < s.len() && (#[trigger] s[i]).0 == key
}

/// Whether the entries `s` are keyed by exactly the known options: as many
/// entries as options, and every option present.
pub open spec fn shape_ok(s: Seq<(Seq<char>, bool)>) -> bool {
    &&& s.len() == option_names().len()
    &&& forall|j: int| 0 <= j < option_names().len() ==> has_key(s, #[trigger] option_names()[j])
}

/// Whether no two entries of `s` share a key.
pub open spec fn unique_keys(s: Seq<(Seq<char>, bool)>) -> bool {
    forall|i: int, j: int| 0 <= i < j < s.len() ==> (#[trigger] s[i]).0 != (#[trigger] s[j]).0
}

/// Every known option, switched off.
pub open spec fn default_entries() -> Seq<(Seq<char>, bool)> {
    option_names().map_values(|n: Seq<char>| (n, false))
}

/// `s` with the value under `key` flipped.
pub open spec fn toggled(s: Seq<(Seq<char>, bool)>, key: Seq<char>) -> Seq<(Seq<char>, bool)> {
    s.map_values(|e: (Seq<char>, bool)| if e.0 == key { (e.0, !e.1) } else { e })
}

proof fn lemma_defaults_shape()
    ensures
        shape_ok(default_entries()),
        unique_keys(default_entries()),
{
    assert(default_entries()[0].0 == option_names()[0]);
    assert(has_key(default_entries(), option_names()[0]));
}

proof fn lemma_toggled_shape(s: Seq<(Seq<char>, bool)>, key: Seq<char>)
    requires
        shape_ok(s),
    ensures
        shape_ok(toggled(s, key)),
        unique_keys(toggled(s, key)),
{
    let t = toggled(s, key);
    assert forall|j: int| 0 <= j < option_names().len() implies has_key(
        t,
        #[trigger] option_names()[j],
    ) by {
        assert(has_key(s, option_names()[j]));
        let i = choose|i: int| 0 <= i < s.len() && (#[trigger] s[i]).0 == option_names()[j];
        assert(t[i].0 == s[i].0);
    }
}

/// Why a change of settings was refused.
#[derive(Debug, PartialEq, Eq, Structural)]
pub enum SettingsError {
    /// The option is not among the known ones.
    UnknownOption,
}

/// The user's preferences: a value for each known option.
#[derive(Clone, Debug)]
pub struct Settings {
    pub settings: Vec<(String, bool)>,
}

impl Settings {
    pub open spec fn entries(&self) -> Seq<(Seq<char>, bool)> {
        self.settings@.map_values(|e: (String, bool)| (e.0@, e.1))
    }

    pub fn new(settings: Vec<(String, bool)>) -> (r: Settings)
        ensures
            r.settings@ == settings@,
    {
        Settings { settings }
    }

    /// Every known option, switched off.
    pub fn defaults() -> (r: Settings)
        ensures
            r.entries() == default_entries(),
    {
        let opts = Options::arr();
        let mut v: Vec<(String, bool)> = Vec::new();
        let mut i: usize = 0;
        while i < 1
            invariant
                i <= 1,
                v@.len() == i,
                forall|k: int| 0 <= k < i ==> (#[trigger] v@[k]).0@ == option_names()[k] && !v@[k].1,
                forall|k: int| 0 <= k < 1 ==> (#[trigger] opts[k]).name() == option_names()[k],
            decreases 1 - i,
        {
            v.push((opts[i].val(), false));
            i = i + 1;
        }
        let r = Settings { settings: v };
        assert(r.entries() =~= default_entries());
        r
    }

    /// Whether `key` has an entry.
    fn contains_key(&self, key: &String) -> (r: bool)
        ensures
            r == has_key(self.entries(), key@),
    {
        let mut i: usize = 0;
        while i < self.settings.len()
            invariant
                i <= self.settings@.len(),
                forall|k: int| 0 <= k < i ==> self.entries()[k].0 != key@,
            decreases self.settings@.len() - i,
        {
            if self.settings[i].0 == *key {
                assert(self.entries()[i as int].0 == key@);
                return true;
            }
            i = i + 1;
        }
        false
    }

    /// Replaces the settings by the defaults unless they are keyed by exactly
    /// the known options.
    pub fn check_settings(&mut self)
        ensures
            final(self).entries() == if shape_ok(old(self).entries()) {
                old(self).entries()
            } else {
                default_entries()
            },
            shape_ok(final(self).entries()),
            unique_keys(final(self).entries()),
    {
        let opts = Options::arr();
        proof {
            lemma_defaults_shape();
        }
        if self.settings.len() != 1 {
            *self = Settings::defaults();
            return;
        }
        let mut j: usize = 0;
        while j < 1
            invariant
                j <= 1,
                self.settings@.len() == 1,
                self.entries() == old(self).entries(),
                shape_ok(default_entries()),
                unique_keys(default_entries()),
                forall|k: int| 0 <= k < 1 ==> (#[trigger] opts[k]).name() == option_names()[k],
                forall|k: int| 0 <= k < j ==> has_key(self.entries(), #[trigger] option_names()[k]),
            decreases 1 - j,
        {
            let name = opts[j].val();
            if !self.contains_key(&name) {
                *self = Settings::defaults();
                return;
            }
            j = j + 1;
        }
    }

    /// Flips the option named `option`, after resetting the settings to the
    /// defaults if they are not keyed by exactly the known options. Fails,
    /// with the reset kept, when `option` is not a known option's name.
    pub fn change_option(&mut self, option: String) -> (r: Result<(), SettingsError>)
        ensures
            ({
                let base = if shape_ok(old(self).entries()) {
                    old(self).entries()
                } else {
                    default_entries()
                };
                &&& has_key(base, option@) ==> r is Ok && final(self).entries() == toggled(
                    base,
                    option@,
                )
                &&& !has_key(base, option@) ==> r == Err::<(), SettingsError>(
                    SettingsError::UnknownOption,
                ) && final(self).entries() == base
                &&& shape_ok(final(self).entries())
                &&& unique_keys(final(self).entries())
            }),
    {
        self.check_settings();
        proof {
            lemma_toggled_shape(self.entries(), option@);
        }
        if !self.contains_key(&option) {
            return Err(SettingsError::UnknownOption);
        }
        let ghost before = self.entries();
        let mut i: usize = 0;
        while i < self.settings.len()
            invariant
                i <= self.settings@.len(),
                self.settings@.len() == before.len(),
                forall|k: int| 0 <= k < i ==> #[trigger] self.entries()[k] == toggled(before, option@)[k],
                forall|k: int| i <= k < before.len() ==> #[trigger] self.entries()[k] == before[k],
            decreases self.settings@.len() - i,
        {
            let ghost prev = self.entries();
            assert(prev[i as int] == before[i as int]);
            if self.settings[i].0 == option {
                let key = self.settings[i].0.clone();
                let flipped = !self.settings[i].1;
                self.settings.set(i, (key, flipped));
                assert(self.entries()[i as int] == toggled(before, option@)[i as int]);
            } else {
                assert(self.entries()[i as int] == toggled(before, option@)[i as int]);
            }
            assert forall|k: int| 0 <= k < self.settings@.len() && k != i implies #[trigger] self.entries()[k]
                == prev[k] by {}
            i = i + 1;
        }
        assert(self.entries() =~= toggled(before, option@));
        Ok(())
    }
}

} // verus!
