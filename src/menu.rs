use vstd::prelude::*;
use crate::settings::{Options, Settings, option_names, has_key, shape_ok, default_entries, toggled};
use crate::text::{decimal, decimal_string, parse_usize, parsed_usize};

verus! {

/// The screen the interactive loop shows.
#[derive(Clone, Copy, Debug, PartialEq, Eq, Structural)]
pub enum State {
    MainMenu,
    DownloadMenu,
    SettingsMenu,
}

impl State {
    pub fn initial() -> (r: State)
        ensures
            r == State::MainMenu,
    {
        State::MainMenu
    }
}

/// Why a menu answer was refused.
#[derive(Clone, Copy, Debug, PartialEq, Eq, Structural)]
pub enum MenuError {
    /// The answer is not a number of an entry.
    InvalidInput,
    /// No entry has that number.
    OutOfRange,
    /// The range is empty or runs past the last episode.
    BadRange,
}

/// The entry an answer picks, counting from one: `Some` of its position
/// counting from zero.
pub open spec fn picked(action: Seq<char>) -> Option<nat> {
    match parsed_usize(action) {
        Some(v) => if v >= 1 {
            Some((v - 1) as nat)
        } else {
            None
        },
        None => None,
    }
}

/// Reads a menu answer: a number counted from one, turned into a position
/// counted from zero.
pub fn parse_action(action: &str) -> (r: Result<usize, MenuError>)
    ensures
        picked(action@) matches Some(i) ==> r == Ok::<usize, MenuError>(i as usize),
        picked(action@) is None ==> r == Err::<usize, MenuError>(MenuError::InvalidInput),
{
    match parse_usize(action) {
        Some(v) => if v >= 1 {
            Ok(v - 1)
        } else {
            Err(MenuError::InvalidInput)
        },
        None => Err(MenuError::InvalidInput),
    }
}

/// One numbered menu line: `[k] -> text`, with `k` counted from one.
pub open spec fn menu_line(idx: nat, text: Seq<char>) -> Seq<char> {
    "["@ + decimal(idx + 1) + "] -> "@ + text + "\n"@
}

/// One numbered menu line for entry `idx`, counted from zero.
pub fn menu_line_text(idx: usize, text: &str) -> (r: String)
    requires
        idx < u64::MAX,
    ensures
        r@ == menu_line(idx as nat, text@),
{
    let n = decimal_string(idx as u64 + 1);
    let a = String::from_str("[").concat(n.as_str());
    let b = a.concat("] -> ");
    let c = b.concat(text);
    c.concat("\n")
}

/// Numbered lines, one for each of `texts`, counted from one.
pub open spec fn numbered_lines(texts: Seq<Seq<char>>) -> Seq<char>
    decreases texts.len(),
{
    if texts.len() == 0 {
        Seq::empty()
    } else {
        numbered_lines(texts.drop_last()) + menu_line((texts.len() - 1) as nat, texts.last())
    }
}

/// The texts of `v`.
pub open spec fn texts_of(v: Seq<String>) -> Seq<Seq<char>> {
    v.map_values(|t: String| t@)
}

/// Numbered lines, one for each of `texts`, counted from one.
pub fn numbered(texts: &Vec<String>) -> (r: String)
    requires
        texts@.len() < u64::MAX,
    ensures
        r@ == numbered_lines(texts_of(texts@)),
{
    let mut out = String::new();
    let mut i: usize = 0;
    while i < texts.len()
        invariant
            i <= texts@.len() < u64::MAX,
            out@ == numbered_lines(texts_of(texts@).take(i as int)),
        decreases texts@.len() - i,
    {
        let line = menu_line_text(i, texts[i].as_str());
        proof {
            let t = texts_of(texts@);
            assert(t.take(i + 1).drop_last() =~= t.take(i as int));
        }
        out = out.concat(line.as_str());
        i = i + 1;
    }
    proof {
        assert(texts_of(texts@).take(i as int) =~= texts_of(texts@));
    }
    out
}

/// Numbered lines with a mark, one for each entry, counted from one.
pub fn marked(entries: &Vec<(String, bool)>) -> (r: String)
    requires
        entries@.len() < u64::MAX,
    ensures
        r@ == setting_lines(entries@.map_values(|e: (String, bool)| (e.0@, e.1))),
{
    let ghost v = entries@.map_values(|e: (String, bool)| (e.0@, e.1));
    let mut menu = String::new();
    let mut i: usize = 0;
    while i < entries.len()
        invariant
            i <= entries@.len() < u64::MAX,
            v == entries@.map_values(|e: (String, bool)| (e.0@, e.1)),
            menu@ == setting_lines(v.take(i as int)),
        decreases entries@.len() - i,
    {
        let star = if entries[i].1 {
            String::from_str("*")
        } else {
            String::from_str(" ")
        };
        let n = decimal_string(i as u64 + 1);
        let line = String::from_str("[").concat(n.as_str()).concat("] [").concat(
            star.as_str(),
        ).concat("] -> ").concat(entries[i].0.as_str()).concat("\n");
        proof {
            assert(v.take(i + 1).drop_last() =~= v.take(i as int));
            assert(line@ =~= setting_line(i as nat, v[i as int]));
        }
        menu = menu.concat(line.as_str());
        i = i + 1;
    }
    proof {
        assert(v.take(i as int) =~= v);
    }
    menu
}

/// An entry of the main menu.
#[derive(Debug)]
pub enum Action {
    DownloadAnime(String),
    Settings(String),
    UpdateCache(String),
    Exit(String),
}

impl Action {
    pub open spec fn label(&self) -> Seq<char> {
        match self {
            Action::DownloadAnime(t) => t@,
            Action::Settings(t) => t@,
            Action::UpdateCache(t) => t@,
            Action::Exit(t) => t@,
        }
    }

    /// The main menu's entries, in order.
    pub fn arr() -> (r: [Action; 4])
        ensures
            r[0] is DownloadAnime && r[0].label() == "Download anime"@,
            r[1] is Settings && r[1].label() == "Settings"@,
            r[2] is UpdateCache && r[2].label() == "Update cache"@,
            r[3] is Exit && r[3].label() == "Exit"@,
    {
        [
            Action::DownloadAnime(String::from_str("Download anime")),
            Action::Settings(String::from_str("Settings")),
            Action::UpdateCache(String::from_str("Update cache")),
            Action::Exit(String::from_str("Exit")),
        ]
    }

    /// The entry's label.
    pub fn text(&self) -> (r: String)
        ensures
            r@ == self.label(),
    {
        match self {
            Action::DownloadAnime(t) => t.clone(),
            Action::Settings(t) => t.clone(),
            Action::UpdateCache(t) => t.clone(),
            Action::Exit(t) => t.clone(),
        }
    }
}

/// What the main menu asks the loop to do next.
#[derive(Clone, Copy, Debug, PartialEq, Eq, Structural)]
pub enum MainChoice {
    Download,
    Settings,
    UpdateCache,
    Exit,
}

/// The main menu screen.
#[derive(Debug)]
pub struct MainMenu {
    pub menu: String,
}

/// The main menu's text.
pub open spec fn main_menu_text() -> Seq<char> {
    menu_line(0, "Download anime"@) + menu_line(1, "Settings"@) + menu_line(2, "Update cache"@)
        + menu_line(3, "Exit"@) + "~$ "@
}

impl MainMenu {
    pub fn new(menu: String) -> (r: MainMenu)
        ensures
            r.menu@ == menu@,
    {
        MainMenu { menu }
    }

    /// The main menu listing its four entries.
    pub fn defaults() -> (r: MainMenu)
        ensures
            r.menu@ == main_menu_text(),
    {
        let actions = Action::arr();
        let l0 = menu_line_text(0, actions[0].text().as_str());
        let l1 = menu_line_text(1, actions[1].text().as_str());
        let l2 = menu_line_text(2, actions[2].text().as_str());
        let l3 = menu_line_text(3, actions[3].text().as_str());
        let m = l0.concat(l1.as_str()).concat(l2.as_str()).concat(l3.as_str()).concat("~$ ");
        MainMenu::new(m)
    }

    /// The entry an answer picks.
    pub fn process_action(&self, action: &str) -> (r: Result<MainChoice, MenuError>)
        ensures
            picked(action@) is None ==> r == Err::<MainChoice, MenuError>(MenuError::InvalidInput),
            picked(action@) == Some(0nat) ==> r == Ok::<MainChoice, MenuError>(MainChoice::Download),
            picked(action@) == Some(1nat) ==> r == Ok::<MainChoice, MenuError>(MainChoice::Settings),
            picked(action@) == Some(2nat) ==> r == Ok::<MainChoice, MenuError>(
                MainChoice::UpdateCache,
            ),
            picked(action@) == Some(3nat) ==> r == Ok::<MainChoice, MenuError>(MainChoice::Exit),
            picked(action@) matches Some(i) ==> (i >= 4 ==> r == Err::<MainChoice, MenuError>(
                MenuError::OutOfRange,
            )),
    {
        let index = parse_action(action)?;
        let actions = Action::arr();
        if index >= 4 {
            return Err(MenuError::OutOfRange);
        }
        match &actions[index] {
            Action::DownloadAnime(_) => Ok(MainChoice::Download),
            Action::Settings(_) => Ok(MainChoice::Settings),
            Action::UpdateCache(_) => Ok(MainChoice::UpdateCache),
            Action::Exit(_) => Ok(MainChoice::Exit),
        }
    }
}

/// The settings screen's line for entry `e` at position `idx`.
pub open spec fn setting_line(idx: nat, e: (Seq<char>, bool)) -> Seq<char> {
    "["@ + decimal(idx + 1) + "] ["@ + (if e.1 {
        "*"@
    } else {
        " "@
    }) + "] -> "@ + e.0 + "\n"@
}

/// The settings screen's lines for entries `s`.
pub open spec fn setting_lines(s: Seq<(Seq<char>, bool)>) -> Seq<char>
    decreases s.len(),
{
    if s.len() == 0 {
        Seq::empty()
    } else {
        setting_lines(s.drop_last()) + setting_line((s.len() - 1) as nat, s.last())
    }
}

/// The settings screen's text for entries `s`: one line per entry, then the
/// way back.
pub open spec fn settings_menu_text(s: Seq<(Seq<char>, bool)>) -> Seq<char> {
    setting_lines(s) + menu_line(option_names().len(), "Back"@) + "~$ "@
}

/// The settings screen.
#[derive(Debug)]
pub struct SettingsMenu {
    pub menu: String,
}

impl SettingsMenu {
    pub fn new(menu: String) -> (r: SettingsMenu)
        ensures
            r.menu@ == menu@,
    {
        SettingsMenu { menu }
    }

    /// Lists each setting with its state, then the way back.
    pub fn generate_menu(&mut self, settings: &Settings)
        requires
            settings.settings@.len() < u64::MAX,
        ensures
            final(self).menu@ == settings_menu_text(settings.entries()),
    {
        let menu = marked(&settings.settings);
        let back = String::from_str("Back");
        let last = menu_line_text(1, back.as_str());
        self.menu = menu.concat(last.as_str()).concat("~$ ");
    }

    /// Acts on an answer: the entry after the options goes back to the main
    /// menu; an option's entry flips that option (after resetting settings of
    /// a stale shape) and stays on this screen.
    pub fn process_action(&self, action: &str, settings: &mut Settings) -> (r: Result<
        State,
        MenuError,
    >)
        ensures
            picked(action@) is None ==> r == Err::<State, MenuError>(MenuError::InvalidInput)
                && final(settings).entries() == old(settings).entries(),
            picked(action@) == Some(1nat) ==> r == Ok::<State, MenuError>(State::MainMenu)
                && final(settings).entries() == old(settings).entries(),
            picked(action@) matches Some(i) ==> (i > 1 ==> r == Err::<State, MenuError>(
                MenuError::OutOfRange,
            ) && final(settings).entries() == old(settings).entries()),
            picked(action@) == Some(0nat) ==> r == Ok::<State, MenuError>(State::SettingsMenu)
                && final(settings).entries() == toggled(
                if shape_ok(old(settings).entries()) {
                    old(settings).entries()
                } else {
                    default_entries()
                },
                option_names()[0],
            ),
    {
        let index = parse_action(action)?;
        if index == 1 {
            return Ok(State::MainMenu);
        }
        if index > 1 {
            return Err(MenuError::OutOfRange);
        }
        let opts = Options::arr();
        let option = opts[index].val();
        proof {
            let base = if shape_ok(settings.entries()) {
                settings.entries()
            } else {
                default_entries()
            };
            if shape_ok(settings.entries()) {
                assert(has_key(base, option_names()[0]));
            } else {
                assert(base[0].0 == option_names()[0]);
                assert(has_key(base, option_names()[0]));
            }
        }
        match settings.change_option(option) {
            Ok(()) => Ok(State::SettingsMenu),
            Err(_) => Err(MenuError::OutOfRange),
        }
    }
}

} // verus!
