use animedl::anime::{Anime, Episode};
use animedl::menu::{parse_action, Action, MainChoice, MainMenu, MenuError, SettingsMenu, State};
use animedl::session::{
    after_quality, clamp_workers, select_all_episodes, select_download_type, select_one_episode,
    select_quality, select_range_episodes, select_range_start, select_some_episodes,
    select_thread_count, toggle, ChunkRun, DownloadMenu, DownloadState, DownloadType,
};
use animedl::settings::{Options, Settings};

fn show(n: usize) -> Anime {
    let mut eps = Vec::new();
    for i in 0..n {
        eps.push(Episode::new(format!("Episode {}", i + 1), format!("https://jut.su/e{}", i + 1), Vec::new()));
    }
    Anime::new(String::from("Show"), String::from("https://jut.su/show/"), eps)
}

#[test]
fn menu_answers_count_from_one() {
    assert_eq!(parse_action("3"), Ok(2));
    assert_eq!(parse_action("+1"), Ok(0));
    assert_eq!(parse_action("0"), Err(MenuError::InvalidInput));
    assert_eq!(parse_action("abc"), Err(MenuError::InvalidInput));
    assert_eq!(parse_action(""), Err(MenuError::InvalidInput));
    assert_eq!(parse_action("-1"), Err(MenuError::InvalidInput));
}

#[test]
fn main_menu_text_and_choices() {
    let menu = MainMenu::defaults();
    assert_eq!(
        menu.menu,
        "[1] -> Download anime\n[2] -> Settings\n[3] -> Update cache\n[4] -> Exit\n~$ "
    );
    assert_eq!(menu.process_action("1"), Ok(MainChoice::Download));
    assert_eq!(menu.process_action("2"), Ok(MainChoice::Settings));
    assert_eq!(menu.process_action("3"), Ok(MainChoice::UpdateCache));
    assert_eq!(menu.process_action("4"), Ok(MainChoice::Exit));
    assert_eq!(menu.process_action("5"), Err(MenuError::OutOfRange));
    assert_eq!(menu.process_action("x"), Err(MenuError::InvalidInput));
    assert_eq!(Action::arr()[2].text(), "Update cache");
    assert_eq!(MainMenu::new(String::from("m")).menu, "m");
    assert_eq!(State::initial(), State::MainMenu);
}

#[test]
fn settings_menu_text_and_actions() {
    let mut screen = SettingsMenu::new(String::new());
    let mut settings = Settings::defaults();
    screen.generate_menu(&settings);
    let name = Options::arr()[0].val();
    assert_eq!(screen.menu, format!("[1] [ ] -> {}\n[2] -> Back\n~$ ", name));
    assert_eq!(screen.process_action("1", &mut settings), Ok(State::SettingsMenu));
    assert!(settings.settings[0].1);
    screen.generate_menu(&settings);
    assert_eq!(screen.menu, format!("[1] [*] -> {}\n[2] -> Back\n~$ ", name));
    assert_eq!(screen.process_action("2", &mut settings), Ok(State::MainMenu));
    assert_eq!(screen.process_action("3", &mut settings), Err(MenuError::OutOfRange));
    assert!(settings.settings[0].1);
}

#[test]
fn download_types() {
    let t = select_download_type("3").unwrap();
    assert!(matches!(t, DownloadType::RangeEpisodes(_)));
    assert_eq!(t.val(), "Download range episodes");
    assert!(t.equal(&DownloadType::RangeEpisodes(String::new())));
    assert!(!t.equal(&DownloadType::AllEpisodes(String::new())));
    assert_eq!(t.empty().val(), "");
    assert_eq!(DownloadType::arr()[0].val(), "Download one episode");
    assert_eq!(select_download_type("5").unwrap_err(), MenuError::OutOfRange);
}

#[test]
fn one_episode_mode_skips_worker_count() {
    assert_eq!(after_quality(&DownloadType::OneEpisode(String::new())), (DownloadState::Download, Some(1)));
    assert_eq!(
        after_quality(&DownloadType::AllEpisodes(String::new())),
        (DownloadState::SelectThreadCount, None)
    );
}

#[test]
fn worker_count_is_clamped() {
    assert_eq!(clamp_workers(0, 5), 1);
    assert_eq!(clamp_workers(9, 5), 5);
    assert_eq!(clamp_workers(3, 5), 3);
    assert_eq!(clamp_workers(4, 0), 1);
    assert_eq!(select_thread_count("8", 3), Ok(3));
    assert_eq!(select_thread_count("0", 3), Ok(1));
    assert_eq!(select_thread_count("two", 3), Err(MenuError::InvalidInput));
}

#[test]
fn episode_selection_modes() {
    assert_eq!(select_one_episode("2", 3), Ok(vec![1]));
    assert_eq!(select_one_episode("4", 3), Err(MenuError::OutOfRange));
    assert_eq!(select_all_episodes(3), vec![0, 1, 2]);
    assert_eq!(select_range_start("2", 5), Ok(1));
    assert_eq!(select_range_start("6", 5), Err(MenuError::BadRange));
    assert_eq!(select_range_episodes(1, "4", 5), Ok(vec![1, 2, 3]));
    assert_eq!(select_range_episodes(1, "1", 5), Err(MenuError::BadRange));
    assert_eq!(select_range_episodes(1, "6", 5), Err(MenuError::BadRange));
    assert_eq!(select_range_episodes(2, "3", 5), Ok(vec![2]));
}

#[test]
fn toggling_selection() {
    let mut sel = vec![];
    toggle(&mut sel, 2);
    toggle(&mut sel, 0);
    assert_eq!(sel, vec![2, 0]);
    toggle(&mut sel, 2);
    assert_eq!(sel, vec![0]);
    let mut sel = vec![1];
    assert_eq!(select_some_episodes("1", &mut sel, 3), Ok(false));
    assert_eq!(sel, vec![1, 0]);
    assert_eq!(select_some_episodes("4", &mut sel, 3), Ok(true));
    assert_eq!(select_some_episodes("5", &mut sel, 3), Err(MenuError::OutOfRange));
    assert_eq!(sel, vec![1, 0]);
}

#[test]
fn quality_choice() {
    let q = select_quality("4").unwrap();
    assert_eq!(q.rank(), 3);
    assert_eq!(q.val(), "1080p");
    assert_eq!(select_quality("0").unwrap_err(), MenuError::InvalidInput);
}

#[test]
fn download_session_range_flow() {
    let mut menu = DownloadMenu::new();
    assert_eq!(menu.process_action("1"), Err(MenuError::InvalidInput));
    menu.set_anime(show(5));
    assert_eq!(menu.download_state, DownloadState::SelectDownloadType);
    menu.process_action("3").unwrap();
    assert_eq!(menu.download_state, DownloadState::SelectEpisode);
    menu.process_action("2").unwrap();
    assert_eq!(menu.range_start, Some(1));
    menu.process_action("4").unwrap();
    assert_eq!(menu.selected_episodes, vec![1, 2, 3]);
    assert_eq!(menu.download_state, DownloadState::SelectQuality);
    menu.process_action("3").unwrap();
    assert_eq!(menu.download_state, DownloadState::SelectThreadCount);
    menu.process_action("10").unwrap();
    assert_eq!(menu.thread_count, 3);
    assert_eq!(menu.download_state, DownloadState::Download);
    let chosen = menu.chosen();
    assert_eq!(chosen.len(), 3);
    assert_eq!(chosen[0].name, "Episode 2");
    menu.finish();
    assert_eq!(menu.download_state, DownloadState::SelectAnime);
}

#[test]
fn download_session_one_episode_flow() {
    let mut menu = DownloadMenu::new();
    menu.set_anime(show(3));
    menu.process_action("1").unwrap();
    assert_eq!(menu.process_action("9"), Err(MenuError::OutOfRange));
    assert_eq!(menu.download_state, DownloadState::SelectEpisode);
    menu.process_action("3").unwrap();
    assert_eq!(menu.selected_episodes, vec![2]);
    menu.process_action("2").unwrap();
    assert_eq!(menu.download_state, DownloadState::Download);
    assert_eq!(menu.thread_count, 1);
    assert_eq!(menu.selected_quality.rank(), 1);
}

#[test]
fn download_session_all_flow() {
    let mut menu = DownloadMenu::new();
    menu.set_anime(show(4));
    menu.process_action("4").unwrap();
    menu.process_action("").unwrap();
    assert_eq!(menu.selected_episodes, vec![0, 1, 2, 3]);
    assert_eq!(menu.download_state, DownloadState::SelectQuality);
}

#[test]
fn chunk_stops_after_first_failure() {
    let mut run = ChunkRun::new(3);
    assert_eq!(run.next_episode(), Some(0));
    run.record(true);
    assert_eq!(run.next_episode(), Some(1));
    run.record(false);
    assert_eq!(run.next_episode(), None);
    let mut run = ChunkRun::new(1);
    run.record(true);
    assert_eq!(run.next_episode(), None);
}

#[test]
fn download_screens() {
    let shows = vec![show(0), Anime::new(String::from("B"), String::from("u"), Vec::new())];
    let mut menu = DownloadMenu::new();
    assert_eq!(
        menu.generate_menu(&shows),
        "[1] -> Show (https://jut.su/show/)\n[2] -> B (u)\n~$ "
    );
    menu.set_anime(show(3));
    assert_eq!(
        menu.generate_menu(&shows),
        "[1] -> Download one episode\n[2] -> Download some episodes\n[3] -> Download range episodes\n[4] -> Download all episodes\n~$ "
    );
    menu.process_action("2").unwrap();
    menu.process_action("2").unwrap();
    assert_eq!(
        menu.generate_menu(&shows),
        "[1] [ ] -> Episode 1\n[2] [*] -> Episode 2\n[3] [ ] -> Episode 3\n[4] -> Done\n~$ "
    );
    menu.process_action("4").unwrap();
    assert_eq!(menu.generate_menu(&shows), "[1] -> 360p\n[2] -> 480p\n[3] -> 720p\n[4] -> 1080p\n~$ ");
    menu.process_action("1").unwrap();
    assert_eq!(
        menu.generate_menu(&shows),
        "Select the number of episodes that will be downloaded at the same time\n~$ "
    );
}

#[test]
fn range_and_single_screens() {
    let shows = Vec::new();
    let mut menu = DownloadMenu::new();
    menu.set_anime(show(5));
    menu.process_action("3").unwrap();
    assert_eq!(menu.generate_menu(&shows), "Select the episode including which range will start: ");
    menu.process_action("2").unwrap();
    assert_eq!(
        menu.generate_menu(&shows),
        "Select the episode including which the range will end [3..5]: "
    );
    let mut one = DownloadMenu::new();
    one.set_anime(show(2));
    one.process_action("1").unwrap();
    assert_eq!(one.generate_menu(&shows), "[1] -> Episode 1\n[2] -> Episode 2\n~$ ");
    let mut all = DownloadMenu::new();
    all.set_anime(show(2));
    all.process_action("4").unwrap();
    assert_eq!(all.generate_menu(&shows), "Selecting all episodes...\n");
}

#[test]
fn tier_step_accepts_valid_tiers_and_keeps_workers() {
    let mut menu = DownloadMenu::new();
    menu.set_anime(show(4));
    menu.process_action("4").unwrap();
    menu.process_action("").unwrap();
    assert_eq!(menu.process_action("5"), Err(MenuError::OutOfRange));
    assert_eq!(menu.download_state, DownloadState::SelectQuality);
    assert_eq!(menu.selected_episodes, vec![0, 1, 2, 3]);
    menu.process_action("3").unwrap();
    assert_eq!(menu.selected_quality.val(), "720p");
    assert_eq!(menu.thread_count, 1);
    assert_eq!(menu.download_state, DownloadState::SelectThreadCount);
    assert_eq!(menu.process_action("x"), Err(MenuError::InvalidInput));
    menu.process_action("2").unwrap();
    assert_eq!(menu.thread_count, 2);
}

#[test]
fn refused_range_end_keeps_selection() {
    let mut menu = DownloadMenu::new();
    menu.set_anime(show(5));
    menu.process_action("3").unwrap();
    menu.process_action("3").unwrap();
    assert_eq!(menu.process_action("1"), Err(MenuError::BadRange));
    assert!(menu.selected_episodes.is_empty());
    assert_eq!(menu.range_start, None);
    assert_eq!(menu.download_state, DownloadState::SelectEpisode);
}
