use samrs::applist::{download_message, fetch_applist, AppEntry, FetchReply};
use samrs::utils::{find_steam_installation_path, steamclient_lib_path};
use samrs::SAMError;

fn entry(appid: usize, name: &str) -> AppEntry {
    AppEntry { appid, name: Some(name.to_string()) }
}

#[test]
fn fetch_hands_on_the_decoded_catalog_in_order() {
    let apps = vec![entry(30, "C"), entry(10, "A"), AppEntry { appid: 20, name: None }];
    let expected = vec![entry(30, "C"), entry(10, "A"), AppEntry { appid: 20, name: None }];
    assert_eq!(fetch_applist(FetchReply::Catalog(apps)), Ok(expected));
}

#[test]
fn fetch_hands_on_an_empty_catalog() {
    assert_eq!(fetch_applist(FetchReply::Catalog(vec![])), Ok(vec![]));
}

#[test]
fn fetch_keeps_duplicate_identifiers() {
    let apps = vec![entry(7, "first"), entry(7, "second")];
    let got = fetch_applist(FetchReply::Catalog(apps)).unwrap();
    assert_eq!(got, vec![entry(7, "first"), entry(7, "second")]);
}

#[test]
fn fetch_reports_a_failed_request() {
    assert_eq!(fetch_applist(FetchReply::Unreachable), Err(SAMError::AppListRequestError));
}

#[test]
fn fetch_reports_an_undecodable_body_with_its_diagnostic() {
    let reply = FetchReply::Malformed("expected value at line 1 column 1".to_string());
    assert_eq!(
        fetch_applist(reply),
        Err(SAMError::AppListDeserializationError("expected value at line 1 column 1".to_string()))
    );
}

#[test]
fn entry_clone_is_equal_to_the_original() {
    let named = entry(440, "Team Fortress 2");
    assert_eq!(named.clone(), named);
    let unnamed = AppEntry { appid: 5, name: None };
    assert_eq!(unnamed.clone(), unnamed);
}

#[test]
fn error_messages_are_exact() {
    assert_eq!(
        SAMError::AppListRequestError.message(),
        "there was an error in requesting the app list"
    );
    assert_eq!(
        SAMError::AppListDeserializationError("bad".to_string()).message(),
        "there was an error in deserializing the app list response: 'bad'"
    );
    assert_eq!(
        SAMError::ErrorLoadingSteamClientLib("no such file".to_string()).message(),
        "there was an error when loading steamclient.{so,dll}: 'no such file'"
    );
    assert_eq!(
        SAMError::ErrorGettingCreateInterface("undefined symbol".to_string()).message(),
        "there was an error when trying to get a pointer to CreateInterface: 'undefined symbol'"
    );
}

#[test]
fn error_message_with_empty_detail() {
    assert_eq!(
        SAMError::AppListDeserializationError(String::new()).message(),
        "there was an error in deserializing the app list response: ''"
    );
}

#[test]
fn download_message_after_success() {
    assert_eq!(download_message(&Ok(vec![entry(1, "x")])), "Fetched applist!");
    assert_eq!(download_message(&Ok(vec![])), "Fetched applist!");
}

#[test]
fn download_message_after_decode_failure_shows_the_diagnostic_alone() {
    let failed = Err(SAMError::AppListDeserializationError("EOF while parsing".to_string()));
    assert_eq!(download_message(&failed), "Fetching applist failed! 'EOF while parsing'");
}

#[test]
fn download_message_after_other_failures_shows_the_full_message() {
    assert_eq!(
        download_message(&Err(SAMError::AppListRequestError)),
        "Fetching applist failed! 'there was an error in requesting the app list'"
    );
    assert_eq!(
        download_message(&Err(SAMError::ErrorLoadingSteamClientLib("x".to_string()))),
        "Fetching applist failed! 'there was an error when loading steamclient.{so,dll}: 'x''"
    );
}

#[test]
fn installation_path_is_the_default_root() {
    assert_eq!(find_steam_installation_path(), Ok("/home/skye/.local/share/Steam".to_string()));
}

#[test]
fn library_path_appends_the_library_location() {
    assert_eq!(steamclient_lib_path("/opt/steam"), "/opt/steam/linux64/steamclient.so");
    assert_eq!(steamclient_lib_path(""), "/linux64/steamclient.so");
    let root = find_steam_installation_path().unwrap();
    assert_eq!(
        steamclient_lib_path(&root),
        "/home/skye/.local/share/Steam/linux64/steamclient.so"
    );
}
