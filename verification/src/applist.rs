//! The remote catalog: its entries, and how the outcome of one fetch is turned
//! into a catalog or a typed error.

use crate::SAMError;
use vstd::prelude::*;
use vstd::string::*;

verus! {

/// One entry of the storefront's catalog: its numeric key and, where the
/// storefront gave one, its display name.
#[derive(Debug, PartialEq, Eq)]
pub struct AppEntry {
    pub appid: usize,
    pub name: Option<String>,
}

/// Mathematical value of an [`AppEntry`].
pub struct AppEntryView {
    pub appid: usize,
    pub name: Option<Seq<char>>,
}

impl DeepView for AppEntry {
    type V = AppEntryView;

    open spec fn deep_view(&self) -> AppEntryView {
        AppEntryView { appid: self.appid, name: self.name.deep_view() }
    }
}

impl View for AppEntry {
    type V = AppEntryView;

    open spec fn view(&self) -> AppEntryView {
        self.deep_view()
    }
}

impl Clone for AppEntry {
    fn clone(&self) -> (copy: Self)
        ensures
            copy == *self,
    {
        AppEntry {
            appid: self.appid,
            name: match &self.name {
                Some(name) => Some(name.clone()),
                None => None,
            },
        }
    }
}

/// What one attempt to retrieve the catalog produced.
#[derive(Debug, PartialEq, Eq)]
pub enum FetchReply {
    /// The request itself failed: no response was obtained.
    Unreachable,
    /// A response arrived whose body is not a catalog; carries the decoder's diagnostic.
    Malformed(String),
    /// The decoded catalog, in the order received.
    Catalog(Vec<AppEntry>),
}

/// Turns the outcome of a catalog fetch into the catalog or the error it stands for.
///
/// A decoded catalog is handed on exactly as received, order included. A failed
/// request becomes [`SAMError::AppListRequestError`], an undecodable body
/// [`SAMError::AppListDeserializationError`] with the decoder's diagnostic.
pub fn fetch_applist(reply: FetchReply) -> (res: Result<Vec<AppEntry>, SAMError>)
    ensures
        reply is Unreachable ==> res == Err::<Vec<AppEntry>, SAMError>(
            SAMError::AppListRequestError,
        ),
        reply matches FetchReply::Malformed(detail) ==> res == Err::<Vec<AppEntry>, SAMError>(
            SAMError::AppListDeserializationError(detail),
        ),
        reply matches FetchReply::Catalog(apps) ==> res == Ok::<Vec<AppEntry>, SAMError>(apps),
{
    match reply {
        FetchReply::Unreachable => Err(SAMError::AppListRequestError),
        FetchReply::Malformed(detail) => Err(SAMError::AppListDeserializationError(detail)),
        FetchReply::Catalog(apps) => Ok(apps),
    }
}

/// Text shown once a catalog download has ended, for each way it can end.
pub open spec fn download_notice(fetched: Result<Vec<AppEntry>, SAMError>) -> Seq<char> {
    match fetched {
        Ok(_) => "Fetched applist!"@,
        Err(SAMError::AppListDeserializationError(detail)) => "Fetching applist failed! '"@
            + detail@ + "'"@,
        Err(err) => "Fetching applist failed! '"@ + err@.message() + "'"@,
    }
}

/// Builds the text shown once a catalog download has ended.
///
/// A decode failure is reported by the decoder's diagnostic alone; any other
/// failure by the error's full message.
pub fn download_message(fetched: &Result<Vec<AppEntry>, SAMError>) -> (text: String)
    ensures
        text@ == download_notice(*fetched),
{
    match fetched {
        Ok(_) => String::from_str("Fetched applist!"),
        Err(SAMError::AppListDeserializationError(detail)) => String::from_str(
            "Fetching applist failed! '",
        ).concat(detail.as_str()).concat("'"),
        Err(err) => {
            let message = err.message();
            String::from_str("Fetching applist failed! '").concat(message.as_str()).concat("'")
        },
    }
}

} // verus!
