use samrs::{LibraryLoad, SAMError, SAMGame, SAM};
use std::cell::RefCell;

fn game(appid: usize, name: &str) -> SAMGame {
    SAMGame { appid, name: name.to_string() }
}

fn loaded() -> SAM {
    match SAM::init(LibraryLoad::Loaded) {
        Ok(sam) => sam,
        Err(err) => panic!("a loaded library must open the record: {}", err.message()),
    }
}

#[test]
fn init_with_a_loaded_library_starts_empty() {
    let sam = loaded();
    assert!(sam.get_user_games().is_empty());
}

#[test]
fn init_reports_a_library_that_failed_to_load() {
    let res = SAM::init(LibraryLoad::LoadFailed("cannot open shared object file".to_string()));
    match res {
        Err(err) => assert_eq!(
            err,
            SAMError::ErrorLoadingSteamClientLib("cannot open shared object file".to_string())
        ),
        Ok(_) => panic!("a failed load must not open the record"),
    }
}

#[test]
fn init_reports_a_missing_factory() {
    let res = SAM::init(LibraryLoad::FactoryMissing("undefined symbol: CreateInterface".to_string()));
    match res {
        Err(err) => assert_eq!(
            err,
            SAMError::ErrorGettingCreateInterface("undefined symbol: CreateInterface".to_string())
        ),
        Ok(_) => panic!("a missing factory must not open the record"),
    }
}

#[test]
fn populate_keeps_the_owned_games_in_order() {
    let mut sam = loaded();
    let list = vec![game(10, "A"), game(15, "B"), game(20, "C"), game(25, "D"), game(30, "E")];
    let res = sam.populate_user_games(list, |appid| appid % 10 == 0);
    assert_eq!(res, Ok(()));
    assert_eq!(sam.get_user_games(), &vec![game(10, "A"), game(20, "C"), game(30, "E")]);
}

#[test]
fn populate_asks_once_per_game_in_order() {
    let asked = RefCell::new(Vec::new());
    let mut sam = loaded();
    let list = vec![game(3, "c"), game(1, "a"), game(3, "c"), game(2, "b")];
    let res = sam.populate_user_games(list, |appid| {
        asked.borrow_mut().push(appid);
        appid != 1
    });
    assert_eq!(res, Ok(()));
    assert_eq!(asked.into_inner(), vec![3, 1, 3, 2]);
    assert_eq!(sam.get_user_games(), &vec![game(3, "c"), game(3, "c"), game(2, "b")]);
}

#[test]
fn populate_adds_behind_the_games_already_there() {
    let mut sam = loaded();
    assert_eq!(sam.populate_user_games(vec![game(1, "a"), game(2, "b")], |_| true), Ok(()));
    assert_eq!(sam.populate_user_games(vec![game(3, "c"), game(1, "a")], |appid| appid == 1), Ok(()));
    assert_eq!(sam.get_user_games(), &vec![game(1, "a"), game(2, "b"), game(1, "a")]);
}

#[test]
fn populate_with_nothing_owned_adds_nothing() {
    let mut sam = loaded();
    assert_eq!(sam.populate_user_games(vec![game(1, "a"), game(2, "b")], |_| false), Ok(()));
    assert!(sam.get_user_games().is_empty());
}

#[test]
fn populate_with_an_empty_list_asks_nothing() {
    let asked = RefCell::new(0u32);
    let mut sam = loaded();
    let res = sam.populate_user_games(vec![], |_| {
        *asked.borrow_mut() += 1;
        true
    });
    assert_eq!(res, Ok(()));
    assert_eq!(asked.into_inner(), 0);
    assert!(sam.get_user_games().is_empty());
}
