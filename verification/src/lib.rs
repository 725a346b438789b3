//! Catalog filtering and ownership bookkeeping for a storefront's application
//! list, with every decision stated as a contract and proved.

use crate::order::picked;
use vstd::prelude::*;
use vstd::string::*;

pub mod applist;
pub mod order;
pub mod pipeline;
pub mod probe;
pub mod run;
pub mod utils;

verus! {

/// What can go wrong while fetching the catalog or binding to the local client.
#[derive(Debug, PartialEq, Eq)]
pub enum SAMError {
    /// The catalog request itself failed: no response was obtained.
    AppListRequestError,
    /// A response arrived but did not decode into a catalog; carries the decoder's diagnostic.
    AppListDeserializationError(String),
    /// The client's shared library could not be found or loaded.
    ErrorLoadingSteamClientLib(String),
    /// The shared library lacks the factory entry point.
    ErrorGettingCreateInterface(String),
}

/// Mathematical value of a [`SAMError`].
pub enum SAMErrorView {
    AppListRequestError,
    AppListDeserializationError(Seq<char>),
    ErrorLoadingSteamClientLib(Seq<char>),
    ErrorGettingCreateInterface(Seq<char>),
}

impl SAMErrorView {
    /// The human-readable text of the error.
    pub open spec fn message(self) -> Seq<char> {
        match self {
            SAMErrorView::AppListRequestError => "there was an error in requesting the app list"@,
            SAMErrorView::AppListDeserializationError(detail) =>
                "there was an error in deserializing the app list response: '"@ + detail + "'"@,
            SAMErrorView::ErrorLoadingSteamClientLib(detail) =>
                "there was an error when loading steamclient.{so,dll}: '"@ + detail + "'"@,
            SAMErrorView::ErrorGettingCreateInterface(detail) =>
                "there was an error when trying to get a pointer to CreateInterface: '"@ + detail
                    + "'"@,
        }
    }
}

impl View for SAMError {
    type V = SAMErrorView;

    open spec fn view(&self) -> SAMErrorView {
        match self {
            SAMError::AppListRequestError => SAMErrorView::AppListRequestError,
            SAMError::AppListDeserializationError(detail) =>
                SAMErrorView::AppListDeserializationError(detail@),
            SAMError::ErrorLoadingSteamClientLib(detail) =>
                SAMErrorView::ErrorLoadingSteamClientLib(detail@),
            SAMError::ErrorGettingCreateInterface(detail) =>
                SAMErrorView::ErrorGettingCreateInterface(detail@),
        }
    }
}

impl SAMError {
    /// Renders the error as text.
    pub fn message(&self) -> (text: String)
        ensures
            text@ == self@.message(),
    {
        match self {
            SAMError::AppListRequestError => String::from_str(
                "there was an error in requesting the app list",
            ),
            SAMError::AppListDeserializationError(detail) => String::from_str(
                "there was an error in deserializing the app list response: '",
            ).concat(detail.as_str()).concat("'"),
            SAMError::ErrorLoadingSteamClientLib(detail) => String::from_str(
                "there was an error when loading steamclient.{so,dll}: '",
            ).concat(detail.as_str()).concat("'"),
            SAMError::ErrorGettingCreateInterface(detail) => String::from_str(
                "there was an error when trying to get a pointer to CreateInterface: '",
            ).concat(detail.as_str()).concat("'"),
        }
    }
}

/// A game of the catalog, as listed for the account.
#[derive(Debug, PartialEq, Eq)]
pub struct SAMGame {
    pub appid: usize,
    pub name: String,
}

/// Mathematical value of a [`SAMGame`].
pub struct SAMGameView {
    pub appid: usize,
    pub name: Seq<char>,
}

impl DeepView for SAMGame {
    type V = SAMGameView;

    open spec fn deep_view(&self) -> SAMGameView {
        SAMGameView { appid: self.appid, name: self.name@ }
    }
}

impl View for SAMGame {
    type V = SAMGameView;

    open spec fn view(&self) -> SAMGameView {
        self.deep_view()
    }
}

/// How the attempt to bind to the local client's shared library ended.
#[derive(Debug, PartialEq, Eq)]
pub enum LibraryLoad {
    /// The library is loaded and its entry points are resolved.
    Loaded,
    /// The library could not be found or loaded; carries the loader's diagnostic.
    LoadFailed(String),
    /// The library lacks the factory entry point; carries the loader's diagnostic.
    FactoryMissing(String),
}

/// The account's games: which of the games it was asked about the account owns.
pub struct SAM {
    user_games: Vec<SAMGame>,
}

impl View for SAM {
    type V = Seq<SAMGameView>;

    closed spec fn view(&self) -> Seq<SAMGameView> {
        self.user_games.deep_view()
    }
}

impl SAM {
    /// Opens the account's record once the local client's library is bound.
    ///
    /// A loaded library gives a record with no games in it yet. A library that
    /// failed to load gives [`SAMError::ErrorLoadingSteamClientLib`], one
    /// without the factory entry point [`SAMError::ErrorGettingCreateInterface`],
    /// each with the loader's diagnostic.
    pub fn init(load: LibraryLoad) -> (res: Result<SAM, SAMError>)
        ensures
            load is Loaded ==> (res matches Ok(sam) && sam@ == Seq::<SAMGameView>::empty()),
            load matches LibraryLoad::LoadFailed(detail) ==> (res matches Err(err) && err
                == SAMError::ErrorLoadingSteamClientLib(detail)),
            load matches LibraryLoad::FactoryMissing(detail) ==> (res matches Err(err) && err
                == SAMError::ErrorGettingCreateInterface(detail)),
    {
        match load {
            LibraryLoad::Loaded => {
                let sam = SAM { user_games: Vec::new() };
                assert(sam@ =~= Seq::<SAMGameView>::empty());
                Ok(sam)
            },
            LibraryLoad::LoadFailed(detail) => Err(SAMError::ErrorLoadingSteamClientLib(detail)),
            LibraryLoad::FactoryMissing(detail) => Err(
                SAMError::ErrorGettingCreateInterface(detail),
            ),
        }
    }

    /// Asks `is_owned` about each game of `list_to_check`, in order, and adds
    /// the games it owns to the account's games, behind those already there.
    ///
    /// `is_owned` is asked exactly once per game, with the game's identifier;
    /// a game is added exactly if the answer was `true`.
    pub fn populate_user_games<F: Fn(usize) -> bool>(
        &mut self,
        list_to_check: Vec<SAMGame>,
        is_owned: F,
    ) -> (res: Result<(), SAMError>)
        requires
            forall|i: int|
                0 <= i < list_to_check.len() ==> call_requires(
                    is_owned,
                    (#[trigger] list_to_check[i].appid,),
                ),
        ensures
            res is Ok,
            exists|answers: Seq<bool>|
                {
                    &&& answers.len() == list_to_check.len()
                    &&& forall|i: int|
                        0 <= i < answers.len() ==> call_ensures(
                            is_owned,
                            (list_to_check[i].appid,),
                            #[trigger] answers[i],
                        )
                    &&& final(self)@ == old(self)@ + picked(list_to_check.deep_view(), answers)
                },
    {
        let ghost games = list_to_check.deep_view();
        let ghost mut answers: Seq<bool> = Seq::empty();
        for entry in it: list_to_check
            invariant
                it.seq() == list_to_check@,
                games == list_to_check.deep_view(),
                forall|i: int|
                    0 <= i < list_to_check.len() ==> call_requires(
                        is_owned,
                        (#[trigger] list_to_check[i].appid,),
                    ),
                answers.len() == it.index(),
                forall|i: int|
                    0 <= i < answers.len() ==> call_ensures(
                        is_owned,
                        (list_to_check[i].appid,),
                        #[trigger] answers[i],
                    ),
                self@ == old(self)@ + picked(games, answers),
        {
            let ghost before = self@;
            let ghost at = answers.len() as int;
            assert(entry == list_to_check@[at]);
            let owned = is_owned(entry.appid);
            proof {
                let longer = answers.push(owned);
                assert(longer.drop_last() =~= answers);
                assert(games[at] == entry.deep_view());
                assert(picked(games, longer) == if owned {
                    picked(games, answers).push(entry.deep_view())
                } else {
                    picked(games, answers)
                });
                answers = longer;
            }
            if owned {
                self.user_games.push(entry);
                assert(self@ =~= before.push(entry.deep_view()));
            }
            assert(self@ =~= old(self)@ + picked(games, answers));
        }
        Ok(())
    }

    /// The account's games, in the order in which they were found.
    pub fn get_user_games(&self) -> (games: &Vec<SAMGame>)
        ensures
            games.deep_view() == self@,
    {
        &self.user_games
    }
}

} // verus!
