use vstd::prelude::*;
use crate::anime::{Anime, Episode, Quality, tier_label};
use crate::menu::{MenuError, parse_action, picked, numbered, numbered_lines, texts_of, marked, setting_lines, menu_line, menu_line_text};
use crate::text::{decimal, decimal_string, parse_usize, parsed_usize};

verus! {

/// How episodes are picked for a download.
#[derive(Clone, Debug)]
pub enum DownloadType {
    OneEpisode(String),
    SomeEpisodes(String),
    RangeEpisodes(String),
    AllEpisodes(String),
}

impl DownloadType {
    /// The mode's rank: one, some, range, all.
    pub open spec fn kind(&self) -> nat {
        match self {
            DownloadType::OneEpisode(_) => 0,
            DownloadType::SomeEpisodes(_) => 1,
            DownloadType::RangeEpisodes(_) => 2,
            DownloadType::AllEpisodes(_) => 3,
        }
    }

    pub open spec fn label(&self) -> Seq<char> {
        match self {
            DownloadType::OneEpisode(t) => t@,
            DownloadType::SomeEpisodes(t) => t@,
            DownloadType::RangeEpisodes(t) => t@,
            DownloadType::AllEpisodes(t) => t@,
        }
    }

    /// The four modes in order, each labelled for the menu.
    pub fn arr() -> (r: [DownloadType; 4])
        ensures
            forall|i: int| 0 <= i < 4 ==> (#[trigger] r[i]).kind() == i,
            r[0].label() == "Download one episode"@,
            r[1].label() == "Download some episodes"@,
            r[2].label() == "Download range episodes"@,
            r[3].label() == "Download all episodes"@,
    {
        [
            DownloadType::OneEpisode(String::from_str("Download one episode")),
            DownloadType::SomeEpisodes(String::from_str("Download some episodes")),
            DownloadType::RangeEpisodes(String::from_str("Download range episodes")),
            DownloadType::AllEpisodes(String::from_str("Download all episodes")),
        ]
    }

    /// The mode's rank as a number.
    pub fn rank(&self) -> (r: u8)
        ensures
            r as nat == self.kind(),
    {
        match self {
            DownloadType::OneEpisode(_) => 0,
            DownloadType::SomeEpisodes(_) => 1,
            DownloadType::RangeEpisodes(_) => 2,
            DownloadType::AllEpisodes(_) => 3,
        }
    }

    /// Whether both are the same mode, whatever their labels.
    pub fn equal(&self, rhs: &DownloadType) -> (r: bool)
        ensures
            r == (self.kind() == rhs.kind()),
    {
        self.empty().rank() == rhs.empty().rank()
    }

    /// The same mode with an empty label.
    pub fn empty(&self) -> (r: DownloadType)
        ensures
            r.kind() == self.kind(),
            r.label().len() == 0,
    {
        match self {
            DownloadType::OneEpisode(_) => DownloadType::OneEpisode(String::new()),
            DownloadType::SomeEpisodes(_) => DownloadType::SomeEpisodes(String::new()),
            DownloadType::RangeEpisodes(_) => DownloadType::RangeEpisodes(String::new()),
            DownloadType::AllEpisodes(_) => DownloadType::AllEpisodes(String::new()),
        }
    }

    /// The mode's label.
    pub fn val(&self) -> (r: String)
        ensures
            r@ == self.label(),
    {
        match self {
            DownloadType::OneEpisode(t) => t.clone(),
            DownloadType::SomeEpisodes(t) => t.clone(),
            DownloadType::RangeEpisodes(t) => t.clone(),
            DownloadType::AllEpisodes(t) => t.clone(),
        }
    }
}

/// The steps of a download session.
#[derive(Clone, Copy, Debug, PartialEq, Eq, Structural)]
pub enum DownloadState {
    SelectAnime,
    SelectDownloadType,
    SelectEpisode,
    SelectQuality,
    SelectThreadCount,
    Download,
}

/// The mode an answer picks.
pub fn select_download_type(action: &str) -> (r: Result<DownloadType, MenuError>)
    ensures
        picked(action@) is None ==> r == Err::<DownloadType, MenuError>(MenuError::InvalidInput),
        picked(action@) matches Some(i) ==> (i < 4 ==> (r matches Ok(t) && t.kind() == i)),
        picked(action@) matches Some(i) ==> (i >= 4 ==> r == Err::<DownloadType, MenuError>(
            MenuError::OutOfRange,
        )),
{
    let index = parse_action(action)?;
    if index >= 4 {
        return Err(MenuError::OutOfRange);
    }
    let types = DownloadType::arr();
    match index {
        0 => Ok(DownloadType::OneEpisode(types[0].val())),
        1 => Ok(DownloadType::SomeEpisodes(types[1].val())),
        2 => Ok(DownloadType::RangeEpisodes(types[2].val())),
        _ => Ok(DownloadType::AllEpisodes(types[3].val())),
    }
}

/// The tier an answer picks, labelled with its display name.
pub fn select_quality(action: &str) -> (r: Result<Quality, MenuError>)
    ensures
        picked(action@) is None ==> r == Err::<Quality, MenuError>(MenuError::InvalidInput),
        picked(action@) matches Some(i) ==> (i < 4 ==> (r matches Ok(q) && q.tier() == i
            && q.url() == tier_label(i))),
        picked(action@) matches Some(i) ==> (i >= 4 ==> r == Err::<Quality, MenuError>(
            MenuError::OutOfRange,
        )),
{
    let index = parse_action(action)?;
    if index >= 4 {
        return Err(MenuError::OutOfRange);
    }
    let qs = Quality::arr();
    Ok(qs[index].duplicate())
}

/// The worker count to use for `selected` episodes when `requested` were
/// asked for: clamped to `[1, selected]`, and 1 when nothing is selected.
pub open spec fn clamped_workers(requested: nat, selected: nat) -> nat {
    if requested > selected {
        if selected < 1 {
            1
        } else {
            selected
        }
    } else if requested < 1 {
        1
    } else {
        requested
    }
}

pub fn clamp_workers(requested: usize, selected: usize) -> (r: usize)
    ensures
        r as nat == clamped_workers(requested as nat, selected as nat),
        r >= 1,
{
    let mut n = requested;
    if n > selected {
        n = selected;
    }
    if n < 1 {
        n = 1;
    }
    n
}

/// The worker count an answer asks for (a plain number, not an entry),
/// clamped to `[1, selected]`.
pub fn select_thread_count(action: &str, selected: usize) -> (r: Result<usize, MenuError>)
    ensures
        parsed_usize(action@) is None ==> r == Err::<usize, MenuError>(MenuError::InvalidInput),
        parsed_usize(action@) matches Some(v) ==> r == Ok::<usize, MenuError>(
            clamped_workers(v, selected as nat) as usize,
        ),
{
    match parse_usize(action) {
        Some(v) => Ok(clamp_workers(v, selected)),
        None => Err(MenuError::InvalidInput),
    }
}

/// The selection of one episode among `count`.
pub fn select_one_episode(action: &str, count: usize) -> (r: Result<Vec<usize>, MenuError>)
    ensures
        picked(action@) is None ==> r == Err::<Vec<usize>, MenuError>(MenuError::InvalidInput),
        picked(action@) matches Some(i) ==> (i < count ==> (r matches Ok(v) && v@ == seq![
            i as usize,
        ])),
        picked(action@) matches Some(i) ==> (i >= count ==> r == Err::<Vec<usize>, MenuError>(
            MenuError::OutOfRange,
        )),
{
    let index = parse_action(action)?;
    if index >= count {
        return Err(MenuError::OutOfRange);
    }
    let mut v: Vec<usize> = Vec::new();
    v.push(index);
    assert(v@ =~= seq![index]);
    Ok(v)
}

/// Whether `i` is selected.
pub fn contains_index(selected: &Vec<usize>, i: usize) -> (r: bool)
    ensures
        r == selected@.contains(i),
{
    let mut j: usize = 0;
    while j < selected.len()
        invariant
            j <= selected@.len(),
            forall|k: int| 0 <= k < j ==> selected@[k] != i,
        decreases selected@.len() - j,
    {
        if selected[j] == i {
            assert(selected@[j as int] == i);
            return true;
        }
        j = j + 1;
    }
    false
}

/// Adds `i` to the selection, or takes it out if it is there.
pub fn toggle(selected: &mut Vec<usize>, i: usize)
    requires
        old(selected)@.no_duplicates(),
    ensures
        final(selected)@.no_duplicates(),
        forall|k: usize| #[trigger]
            final(selected)@.contains(k) <==> (old(selected)@.contains(k) != (k == i)),
{
    let ghost before = selected@;
    let mut j: usize = 0;
    while j < selected.len()
        invariant
            selected@ == before,
            before == old(selected)@,
            before.no_duplicates(),
            j <= selected@.len(),
            forall|k: int| 0 <= k < j ==> selected@[k] != i,
        decreases selected@.len() - j,
    {
        if selected[j] == i {
            selected.remove(j);
            proof {
                assert(selected@ =~= before.remove(j as int));
                assert forall|a: int, b: int|
                    0 <= a < selected@.len() && 0 <= b < selected@.len() && a != b implies
                    selected@[a] != selected@[b] by {
                    let a2 = if a < j { a } else { a + 1 };
                    let b2 = if b < j { b } else { b + 1 };
                    assert(before[a2] != before[b2]);
                }
                assert forall|k: usize| #[trigger] selected@.contains(k) <==> (before.contains(k)
                    != (k == i)) by {
                    if before.contains(k) && k != i {
                        let p = choose|p: int| 0 <= p < before.len() && before[p] == k;
                        if p < j {
                            assert(selected@[p] == k);
                        } else {
                            assert(p != j);
                            assert(selected@[p - 1] == k);
                        }
                    }
                    if selected@.contains(k) {
                        let p = choose|p: int| 0 <= p < selected@.len() && selected@[p] == k;
                        if p < j {
                            assert(before[p] == k);
                        } else {
                            assert(before[p + 1] == k);
                            assert(before[j as int] == i);
                        }
                    }
                }
            }
            return;
        }
        j = j + 1;
    }
    selected.push(i);
    proof {
        assert(selected@ =~= before.push(i));
        assert(!before.contains(i));
        assert forall|a: int, b: int|
            0 <= a < selected@.len() && 0 <= b < selected@.len() && a != b implies selected@[a]
            != selected@[b] by {
            if a < before.len() && b < before.len() {
                assert(before[a] != before[b]);
            }
        }
        assert forall|k: usize| #[trigger] selected@.contains(k) <==> (before.contains(k) != (k
            == i)) by {
            if selected@.contains(k) && k != i {
                let p = choose|p: int| 0 <= p < selected@.len() && selected@[p] == k;
                assert(before[p] == k);
            }
            if before.contains(k) {
                let p = choose|p: int| 0 <= p < before.len() && before[p] == k;
                assert(selected@[p] == k);
            }
            if k == i {
                assert(selected@[before.len() as int] == i);
            }
        }
    }
}

/// Acts on an answer in "some episodes" mode: the entry after the last
/// episode ends the selection (`true`); an episode's entry toggles it.
pub fn select_some_episodes(action: &str, selected: &mut Vec<usize>, count: usize) -> (r: Result<
    bool,
    MenuError,
>)
    requires
        old(selected)@.no_duplicates(),
    ensures
        final(selected)@.no_duplicates(),
        picked(action@) is None ==> r == Err::<bool, MenuError>(MenuError::InvalidInput)
            && final(selected)@ == old(selected)@,
        picked(action@) matches Some(i) ==> (i == count ==> r == Ok::<bool, MenuError>(true)
            && final(selected)@ == old(selected)@),
        picked(action@) matches Some(i) ==> (i > count ==> r == Err::<bool, MenuError>(
            MenuError::OutOfRange,
        ) && final(selected)@ == old(selected)@),
        picked(action@) matches Some(i) ==> (i < count ==> r == Ok::<bool, MenuError>(false) && (
        forall|k: usize| #[trigger]
            final(selected)@.contains(k) <==> (old(selected)@.contains(k) != (k == i)))),
{
    let index = parse_action(action)?;
    if index == count {
        return Ok(true);
    }
    if index > count {
        return Err(MenuError::OutOfRange);
    }
    toggle(selected, index);
    Ok(false)
}

/// The first episode of a range, which must exist among `count`.
pub fn select_range_start(action: &str, count: usize) -> (r: Result<usize, MenuError>)
    ensures
        picked(action@) is None ==> r == Err::<usize, MenuError>(MenuError::InvalidInput),
        picked(action@) matches Some(i) ==> (i < count ==> r == Ok::<usize, MenuError>(
            i as usize,
        )),
        picked(action@) matches Some(i) ==> (i >= count ==> r == Err::<usize, MenuError>(
            MenuError::BadRange,
        )),
{
    let start = parse_action(action)?;
    if start >= count {
        return Err(MenuError::BadRange);
    }
    Ok(start)
}

/// The positions from `start` through the one an answer picks; an empty
/// range or one past the last of `count` episodes is refused.
pub fn select_range_episodes(start: usize, end_action: &str, count: usize) -> (r: Result<
    Vec<usize>,
    MenuError,
>)
    ensures
        picked(end_action@) is None ==> r == Err::<Vec<usize>, MenuError>(MenuError::InvalidInput),
        picked(end_action@) matches Some(e) ==> ((e >= count || e < start) ==> r == Err::<
            Vec<usize>,
            MenuError,
        >(MenuError::BadRange)),
        picked(end_action@) matches Some(e) ==> ((start <= e < count) ==> (r matches Ok(v) && v@.len()
            == e - start + 1 && forall|k: int| 0 <= k < v@.len() ==> #[trigger] v@[k] == start + k)),
{
    let end = parse_action(end_action)?;
    if end >= count || end < start {
        return Err(MenuError::BadRange);
    }
    let mut v: Vec<usize> = Vec::new();
    let mut i: usize = start;
    while i <= end
        invariant
            start <= i <= end + 1,
            end < count,
            v@.len() == i - start,
            forall|k: int| 0 <= k < v@.len() ==> #[trigger] v@[k] == start + k,
        decreases end + 1 - i,
    {
        v.push(i);
        i = i + 1;
    }
    Ok(v)
}

/// Every position among `count` episodes, in order.
pub fn select_all_episodes(count: usize) -> (r: Vec<usize>)
    ensures
        r@.len() == count,
        forall|k: int| 0 <= k < count ==> #[trigger] r@[k] == k,
{
    let mut v: Vec<usize> = Vec::new();
    let mut i: usize = 0;
    while i < count
        invariant
            i <= count,
            v@.len() == i,
            forall|k: int| 0 <= k < i ==> #[trigger] v@[k] == k,
        decreases count - i,
    {
        v.push(i);
        i = i + 1;
    }
    v
}

/// Copies of the show's episodes at the selected positions, in selection order.
pub fn selected_episodes(anime: &Anime, selected: &Vec<usize>) -> (r: Vec<Episode>)
    requires
        forall|k: int| 0 <= k < selected@.len() ==> #[trigger] selected@[k] < anime.episodes@.len(),
    ensures
        r@.len() == selected@.len(),
        forall|k: int|
            0 <= k < selected@.len() ==> (#[trigger] r@[k]).same(
                &anime.episodes@[selected@[k] as int],
            ),
{
    let mut out: Vec<Episode> = Vec::new();
    let mut i: usize = 0;
    while i < selected.len()
        invariant
            i <= selected@.len(),
            out@.len() == i,
            forall|k: int| 0 <= k < selected@.len() ==> #[trigger] selected@[k] < anime.episodes@.len(),
            forall|k: int|
                0 <= k < i ==> (#[trigger] out@[k]).same(&anime.episodes@[selected@[k] as int]),
        decreases selected@.len() - i,
    {
        out.push(anime.episodes[selected[i]].duplicate());
        i = i + 1;
    }
    out
}

/// Where the session goes once a tier is chosen: a single episode is
/// downloaded by one worker right away; otherwise the worker count is asked.
pub fn after_quality(download_type: &DownloadType) -> (r: (DownloadState, Option<usize>))
    ensures
        download_type.kind() == 0 ==> r == (DownloadState::Download, Some(1usize)),
        download_type.kind() != 0 ==> r == (DownloadState::SelectThreadCount, None::<usize>),
{
    let one = DownloadType::OneEpisode(String::new());
    if download_type.equal(&one) {
        (DownloadState::Download, Some(1))
    } else {
        (DownloadState::SelectThreadCount, None)
    }
}

/// The state of an interactive download session.
#[derive(Debug)]
pub struct DownloadMenu {
    pub download_state: DownloadState,
    pub selected_anime: Anime,
    pub download_type: DownloadType,
    pub selected_episodes: Vec<usize>,
    pub range_start: Option<usize>,
    pub selected_quality: Quality,
    pub thread_count: usize,
}

impl DownloadMenu {
    /// Whether the selection only names episodes of the chosen show, once each.
    pub open spec fn wf(&self) -> bool {
        &&& self.selected_episodes@.no_duplicates()
        &&& forall|k: int|
            0 <= k < self.selected_episodes@.len() ==> #[trigger] self.selected_episodes@[k]
                < self.selected_anime.episodes@.len()
        &&& self.thread_count >= 1
        &&& self.range_start matches Some(s) ==> s < self.selected_anime.episodes@.len()
    }

    /// The line that lists show `a`: its name and its URL.
    pub open spec fn show_text(a: Anime) -> Seq<char> {
        a.name@ + " ("@ + a.url@ + ")"@
    }

    /// The episode entries of the "some episodes" screen: each name, marked
    /// when selected.
    pub open spec fn marked_episodes(&self) -> Seq<(Seq<char>, bool)> {
        Seq::new(
            self.selected_anime.episodes@.len(),
            |i: int| (self.selected_anime.episodes@[i].name@, self.selected_episodes@.contains(i as usize)),
        )
    }

    /// The screen's text at each choosing step; `shows` are the catalog's.
    pub open spec fn screen(&self, shows: Seq<Anime>) -> Seq<char> {
        let eps = self.selected_anime.episodes@;
        match self.download_state {
            DownloadState::SelectAnime => numbered_lines(
                shows.map_values(|a: Anime| DownloadMenu::show_text(a)),
            ) + "~$ "@,
            DownloadState::SelectDownloadType => numbered_lines(
                seq![
                    "Download one episode"@,
                    "Download some episodes"@,
                    "Download range episodes"@,
                    "Download all episodes"@,
                ],
            ) + "~$ "@,
            DownloadState::SelectEpisode => match self.download_type {
                DownloadType::OneEpisode(_) => numbered_lines(
                    eps.map_values(|e: Episode| e.name@),
                ) + "~$ "@,
                DownloadType::SomeEpisodes(_) => setting_lines(self.marked_episodes()) + menu_line(
                    eps.len(),
                    "Done"@,
                ) + "~$ "@,
                DownloadType::RangeEpisodes(_) => match self.range_start {
                    None => "Select the episode including which range will start: "@,
                    Some(st) => "Select the episode including which the range will end ["@
                        + decimal((st + 2) as nat) + ".."@ + decimal(eps.len()) + "]: "@,
                },
                DownloadType::AllEpisodes(_) => "Selecting all episodes...\n"@,
            },
            DownloadState::SelectQuality => numbered_lines(
                seq!["360p"@, "480p"@, "720p"@, "1080p"@],
            ) + "~$ "@,
            DownloadState::SelectThreadCount =>
                "Select the number of episodes that will be downloaded at the same time\n~$ "@,
            DownloadState::Download => Seq::empty(),
        }
    }

    /// A session at its first step, with nothing chosen.
    pub fn new() -> (r: DownloadMenu)
        ensures
            r.download_state == DownloadState::SelectAnime,
            r.selected_episodes@.len() == 0,
            r.range_start is None,
            r.thread_count == 1,
            r.wf(),
    {
        DownloadMenu {
            download_state: DownloadState::SelectAnime,
            selected_anime: Anime::new(String::new(), String::new(), Vec::new()),
            download_type: DownloadType::OneEpisode(String::from_str("Download one episode")),
            selected_episodes: Vec::new(),
            range_start: None,
            selected_quality: Quality::Q360P(String::from_str("360p")),
            thread_count: 1,
        }
    }

    /// Takes the show whose episodes were read and moves on to choosing a mode.
    pub fn set_anime(&mut self, anime: Anime)
        ensures
            final(self).download_state == DownloadState::SelectDownloadType,
            final(self).selected_anime == anime,
            final(self).selected_episodes@.len() == 0,
            final(self).range_start is None,
            final(self).wf(),
    {
        self.selected_anime = anime;
        self.selected_episodes = Vec::new();
        self.range_start = None;
        self.thread_count = 1;
        self.download_state = DownloadState::SelectDownloadType;
    }

    /// Acts on an answer at one of the choosing steps: the mode, the episodes,
    /// the tier or the worker count. A refused answer keeps the step and the
    /// selection (a refused range end starts the range over).
    pub fn process_action(&mut self, action: &str) -> (r: Result<(), MenuError>)
        requires
            old(self).wf(),
        ensures
            final(self).wf(),
            r is Err ==> final(self).download_state == old(self).download_state
                && final(self).selected_episodes@ == old(self).selected_episodes@,
            old(self).download_state == DownloadState::SelectDownloadType ==> (r is Ok <==> (
            picked(action@) is Some && picked(action@)->Some_0 < 4)),
            old(self).download_state == DownloadState::SelectQuality ==> (r is Ok <==> (picked(
                action@,
            ) is Some && picked(action@)->Some_0 < 4)),
            old(self).download_state == DownloadState::SelectThreadCount ==> (r is Ok <==> parsed_usize(
                action@,
            ) is Some),
            old(self).download_state == DownloadState::SelectDownloadType && r is Ok ==> {
                &&& final(self).download_state == DownloadState::SelectEpisode
                &&& picked(action@) matches Some(i) && final(self).download_type.kind() == i
                &&& final(self).range_start is None
            },
            old(self).download_state == DownloadState::SelectQuality && r is Ok ==> {
                &&& final(self).selected_quality.tier() == picked(action@)->Some_0
                &&& final(self).selected_quality.url() == tier_label(picked(action@)->Some_0)
                &&& old(self).download_type.kind() == 0 ==> final(self).download_state
                    == DownloadState::Download && final(self).thread_count == 1
                &&& old(self).download_type.kind() != 0 ==> final(self).download_state
                    == DownloadState::SelectThreadCount && final(self).thread_count
                    == old(self).thread_count
                &&& final(self).selected_episodes@ == old(self).selected_episodes@
            },
            old(self).download_state == DownloadState::SelectThreadCount && r is Ok ==> {
                &&& final(self).download_state == DownloadState::Download
                &&& parsed_usize(action@) matches Some(v) && final(self).thread_count
                    == clamped_workers(v, old(self).selected_episodes@.len())
            },
            old(self).download_state == DownloadState::SelectEpisode ==> old(self).episode_step(
                &*final(self),
                action@,
                r is Ok,
            ),
            old(self).download_state == DownloadState::SelectAnime ==> r == Err::<(), MenuError>(
                MenuError::InvalidInput,
            ),
            old(self).download_state == DownloadState::Download ==> r == Err::<(), MenuError>(
                MenuError::InvalidInput,
            ),
    {
        match self.download_state {
            DownloadState::SelectDownloadType => {
                let t = select_download_type(action)?;
                self.download_type = t;
                self.range_start = None;
                self.download_state = DownloadState::SelectEpisode;
                Ok(())
            },
            DownloadState::SelectEpisode => self.select_episode(action),
            DownloadState::SelectQuality => {
                let q = select_quality(action)?;
                self.selected_quality = q;
                let (next, workers) = after_quality(&self.download_type);
                if let Some(w) = workers {
                    self.thread_count = w;
                }
                self.download_state = next;
                Ok(())
            },
            DownloadState::SelectThreadCount => {
                let n = select_thread_count(action, self.selected_episodes.len())?;
                self.thread_count = n;
                self.download_state = DownloadState::Download;
                Ok(())
            },
            _ => Err(MenuError::InvalidInput),
        }
    }

    /// Picks episodes by the chosen mode: one by its entry, some by toggling
    /// entries until the entry after the last, a range by its first and then
    /// its last entry, or all at once.
    fn select_episode(&mut self, action: &str) -> (r: Result<(), MenuError>)
        requires
            old(self).wf(),
            old(self).download_state == DownloadState::SelectEpisode,
        ensures
            final(self).wf(),
            final(self).selected_anime == old(self).selected_anime,
            final(self).download_type == old(self).download_type,
            final(self).thread_count == old(self).thread_count,
            final(self).selected_quality == old(self).selected_quality,
            final(self).download_state == DownloadState::SelectEpisode
                || final(self).download_state == DownloadState::SelectQuality,
            r is Err ==> final(self).download_state == DownloadState::SelectEpisode
                && final(self).selected_episodes@ == old(self).selected_episodes@,
            old(self).episode_step(&*final(self), action@, r is Ok),
    {
        let count = self.selected_anime.episodes.len();
        match self.download_type {
            DownloadType::OneEpisode(_) => {
                let v = select_one_episode(action, count)?;
                self.selected_episodes = v;
                self.download_state = DownloadState::SelectQuality;
                Ok(())
            },
            DownloadType::SomeEpisodes(_) => {
                let done = select_some_episodes(action, &mut self.selected_episodes, count)?;
                proof {
                    assert forall|k: int| 0 <= k < self.selected_episodes@.len() implies #[trigger]
                        self.selected_episodes@[k] < count by {
                        let x = self.selected_episodes@[k];
                        assert(self.selected_episodes@.contains(x));
                        if !old(self).selected_episodes@.contains(x) {
                        } else {
                            let p = choose|p: int|
                                0 <= p < old(self).selected_episodes@.len()
                                    && old(self).selected_episodes@[p] == x;
                            assert(old(self).selected_episodes@[p] < count);
                        }
                    }
                }
                if done {
                    self.download_state = DownloadState::SelectQuality;
                }
                Ok(())
            },
            DownloadType::RangeEpisodes(_) => {
                match self.range_start {
                    None => {
                        let start = select_range_start(action, count)?;
                        self.range_start = Some(start);
                        Ok(())
                    },
                    Some(start) => {
                        self.range_start = None;
                        let v = select_range_episodes(start, action, count)?;
                        proof {
                            assert forall|a: int, b: int|
                                0 <= a < v@.len() && 0 <= b < v@.len() && a != b implies v@[a]
                                != v@[b] by {}
                        }
                        self.selected_episodes = v;
                        self.download_state = DownloadState::SelectQuality;
                        Ok(())
                    },
                }
            },
            DownloadType::AllEpisodes(_) => {
                let v = select_all_episodes(count);
                proof {
                    assert forall|a: int, b: int|
                        0 <= a < v@.len() && 0 <= b < v@.len() && a != b implies v@[a] != v@[b] by {}
                }
                self.selected_episodes = v;
                self.download_state = DownloadState::SelectQuality;
                Ok(())
            },
        }
    }

    /// The screen's text for the current choosing step (the summary before a
    /// download is not among them).
    pub fn generate_menu(&self, shows: &Vec<Anime>) -> (r: String)
        requires
            self.wf(),
            shows@.len() < u64::MAX,
            self.selected_anime.episodes@.len() < u64::MAX - 2,
            self.download_state != DownloadState::Download,
        ensures
            r@ == self.screen(shows@),
    {
        let eps = &self.selected_anime.episodes;
        match self.download_state {
            DownloadState::SelectAnime => {
                let mut texts: Vec<String> = Vec::new();
                let mut i: usize = 0;
                while i < shows.len()
                    invariant
                        i <= shows@.len(),
                        texts@.len() == i,
                        forall|k: int|
                            0 <= k < i ==> (#[trigger] texts@[k])@ == DownloadMenu::show_text(
                                shows@[k],
                            ),
                    decreases shows@.len() - i,
                {
                    let t = shows[i].name.clone().concat(" (").concat(shows[i].url.as_str()).concat(
                        ")",
                    );
                    texts.push(t);
                    i = i + 1;
                }
                assert(texts_of(texts@) =~= shows@.map_values(|a: Anime| DownloadMenu::show_text(a)));
                numbered(&texts).concat("~$ ")
            },
            DownloadState::SelectDownloadType => {
                let types = DownloadType::arr();
                let mut texts: Vec<String> = Vec::new();
                texts.push(types[0].val());
                texts.push(types[1].val());
                texts.push(types[2].val());
                texts.push(types[3].val());
                assert(texts_of(texts@) =~= seq![
                    "Download one episode"@,
                    "Download some episodes"@,
                    "Download range episodes"@,
                    "Download all episodes"@,
                ]);
                numbered(&texts).concat("~$ ")
            },
            DownloadState::SelectQuality => {
                let qs = Quality::arr();
                let mut texts: Vec<String> = Vec::new();
                texts.push(qs[0].val());
                texts.push(qs[1].val());
                texts.push(qs[2].val());
                texts.push(qs[3].val());
                assert(texts_of(texts@) =~= seq!["360p"@, "480p"@, "720p"@, "1080p"@]);
                numbered(&texts).concat("~$ ")
            },
            DownloadState::SelectThreadCount => String::from_str(
                "Select the number of episodes that will be downloaded at the same time\n~$ ",
            ),
            _ => match self.download_type {
                DownloadType::OneEpisode(_) => {
                    let mut texts: Vec<String> = Vec::new();
                    let mut i: usize = 0;
                    while i < eps.len()
                        invariant
                            i <= eps@.len(),
                            texts@.len() == i,
                            forall|k: int| 0 <= k < i ==> (#[trigger] texts@[k])@ == eps@[k].name@,
                        decreases eps@.len() - i,
                    {
                        texts.push(eps[i].name.clone());
                        i = i + 1;
                    }
                    assert(texts_of(texts@) =~= eps@.map_values(|e: Episode| e.name@));
                    numbered(&texts).concat("~$ ")
                },
                DownloadType::SomeEpisodes(_) => {
                    let mut entries: Vec<(String, bool)> = Vec::new();
                    let mut i: usize = 0;
                    while i < eps.len()
                        invariant
                            i <= eps@.len(),
                            entries@.len() == i,
                            forall|k: int|
                                0 <= k < i ==> (#[trigger] entries@[k]).0@ == eps@[k].name@
                                    && entries@[k].1 == self.selected_episodes@.contains(k as usize),
                        decreases eps@.len() - i,
                    {
                        let chosen = contains_index(&self.selected_episodes, i);
                        entries.push((eps[i].name.clone(), chosen));
                        i = i + 1;
                    }
                    assert(entries@.map_values(|e: (String, bool)| (e.0@, e.1)) =~= self.marked_episodes());
                    let done = String::from_str("Done");
                    marked(&entries).concat(menu_line_text(eps.len(), done.as_str()).as_str()).concat("~$ ")
                },
                DownloadType::RangeEpisodes(_) => match self.range_start {
                    None => String::from_str("Select the episode including which range will start: "),
                    Some(st) => {
                        let a = decimal_string(st as u64 + 2);
                        let b = decimal_string(eps.len() as u64);
                        String::from_str("Select the episode including which the range will end [")
                            .concat(a.as_str()).concat("..").concat(b.as_str()).concat("]: ")
                    },
                },
                DownloadType::AllEpisodes(_) => String::from_str("Selecting all episodes...\n"),
            },
        }
    }

    /// What one answer at the episode step does, mode by mode: `next` is the
    /// session after the answer and `ok` whether it was taken.
    pub open spec fn episode_step(&self, next: &DownloadMenu, action: Seq<char>, ok: bool) -> bool {
        let count = self.selected_anime.episodes@.len();
        match self.download_type {
            DownloadType::OneEpisode(_) => match picked(action) {
                Some(i) => if i < count {
                    ok && next.selected_episodes@ == seq![i as usize] && next.download_state
                        == DownloadState::SelectQuality
                } else {
                    !ok
                },
                None => !ok,
            },
            DownloadType::SomeEpisodes(_) => match picked(action) {
                Some(i) => if i == count {
                    ok && next.selected_episodes@ == self.selected_episodes@ && next.download_state
                        == DownloadState::SelectQuality
                } else if i < count {
                    ok && next.download_state == DownloadState::SelectEpisode && forall|k: usize|
                        #[trigger] next.selected_episodes@.contains(k) <==> (
                        self.selected_episodes@.contains(k) != (k == i))
                } else {
                    !ok
                },
                None => !ok,
            },
            DownloadType::RangeEpisodes(_) => match self.range_start {
                None => match picked(action) {
                    Some(i) => if i < count {
                        ok && next.range_start == Some(i as usize) && next.download_state
                            == DownloadState::SelectEpisode
                    } else {
                        !ok
                    },
                    None => !ok,
                },
                Some(st) => match picked(action) {
                    Some(e) => if st <= e < count {
                        &&& ok
                        &&& next.download_state == DownloadState::SelectQuality
                        &&& next.selected_episodes@.len() == e - st + 1
                        &&& forall|k: int|
                            0 <= k < next.selected_episodes@.len()
                                ==> #[trigger] next.selected_episodes@[k] == st + k
                    } else {
                        !ok
                    },
                    None => !ok,
                },
            },
            DownloadType::AllEpisodes(_) => {
                &&& ok
                &&& next.download_state == DownloadState::SelectQuality
                &&& next.selected_episodes@.len() == count
                &&& forall|k: int| 0 <= k < count ==> #[trigger] next.selected_episodes@[k] == k
            },
        }
    }

    /// The episodes chosen, copied out of the show, in selection order.
    pub fn chosen(&self) -> (r: Vec<Episode>)
        requires
            self.wf(),
        ensures
            r@.len() == self.selected_episodes@.len(),
            forall|k: int|
                0 <= k < r@.len() ==> (#[trigger] r@[k]).same(
                    &self.selected_anime.episodes@[self.selected_episodes@[k] as int],
                ),
    {
        selected_episodes(&self.selected_anime, &self.selected_episodes)
    }

    /// Back to the first step once a download has run or been declined.
    pub fn finish(&mut self)
        ensures
            final(self).download_state == DownloadState::SelectAnime,
            final(self).wf(),
    {
        self.selected_episodes = Vec::new();
        self.range_start = None;
        self.thread_count = 1;
        self.download_state = DownloadState::SelectAnime;
    }
}

/// The progress of one chunk's sequential downloads: episodes are tried in
/// order, and the first failure ends the chunk.
#[derive(Debug)]
pub struct ChunkRun {
    pub next: usize,
    pub len: usize,
    pub failed: bool,
}

impl ChunkRun {
    pub fn new(len: usize) -> (r: ChunkRun)
        ensures
            r.next == 0,
            r.len == len,
            !r.failed,
    {
        ChunkRun { next: 0, len, failed: false }
    }

    /// The position of the episode to download next, if any.
    pub fn next_episode(&self) -> (r: Option<usize>)
        ensures
            !self.failed && self.next < self.len ==> r == Some(self.next),
            self.failed || self.next >= self.len ==> r is None,
    {
        if !self.failed && self.next < self.len {
            Some(self.next)
        } else {
            None
        }
    }

    /// Records how the current episode's download went.
    pub fn record(&mut self, ok: bool)
        requires
            !old(self).failed,
            old(self).next < old(self).len,
        ensures
            final(self).len == old(self).len,
            ok ==> final(self).next == old(self).next + 1 && !final(self).failed,
            !ok ==> final(self).next == old(self).next && final(self).failed,
    {
        if ok {
            self.next = self.next + 1;
        } else {
            self.failed = true;
        }
    }
}

} // verus!
