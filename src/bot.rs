//! The state that every message handler shares: the quote store, loaded once
//! before the first message and only read afterwards.
use vstd::prelude::*;
use std::sync::Arc;
use crate::quotes::{flatten_files, parsed_texts, LoadError, QuoteStore};

verus! {

pub struct BotState {
    /// Shared by reference count; nothing changes it once it is built, so
    /// readers need no lock.
    pub quotes: Arc<QuoteStore>,
}

impl BotState {
    /// The state for a quotes folder, from whether it exists and what each of
    /// its files parsed into (`None` for a file that did not parse).
    pub fn new(folder_exists: bool, files: Vec<Option<Vec<String>>>) -> (r: Result<BotState, LoadError>)
        ensures
            !folder_exists ==> r matches Err(LoadError::FolderNotFound),
            folder_exists ==> (r is Ok <==> forall|i: int| 0 <= i < files@.len() ==> (#[trigger] files@[i]) is Some),
            r matches Ok(s) ==> (*s.quotes)@ == flatten_files(parsed_texts(files@)),
    {
        match QuoteStore::load(folder_exists, files) {
            Ok(store) => Ok(BotState { quotes: Arc::new(store) }),
            Err(e) => Err(e),
        }
    }
}

} // verus!
