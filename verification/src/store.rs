//! The cache slot: the options last loaded or saved, beside the path of the
//! file they are kept in. The slot never touches the disk itself; whoever owns
//! it reads and writes the file and tells the slot how that went.

use crate::options::{contents_view, load_options_from_file, loaded, LotteryOptions};
use vstd::prelude::*;

verus! {

/// `std::path::PathBuf`: the storage path, carried through as it was given.
#[verifier::external_type_specification]
#[verifier::external_body]
pub struct ExPathBuf(std::path::PathBuf);

/// The options last loaded or saved, if any, and where they are stored.
pub struct OptionsStore {
    options: Option<LotteryOptions>,
    file_path: std::path::PathBuf,
}

impl OptionsStore {
    /// The cached options; `None` while nothing was loaded or saved.
    pub closed spec fn cached(&self) -> Option<LotteryOptions> {
        self.options
    }

    /// The storage path.
    pub closed spec fn path(&self) -> std::path::PathBuf {
        self.file_path
    }

    /// The store after a save of `options` whose write to disk ended in
    /// `written`: a write that succeeded puts `options` in the cache, one that
    /// failed changes nothing.
    pub closed spec fn after_save(
        self,
        options: LotteryOptions,
        written: Result<(), String>,
    ) -> OptionsStore {
        match written {
            Ok(_) => OptionsStore { options: Some(options), file_path: self.file_path },
            Err(_) => self,
        }
    }

    /// A store for the file at `file_path` with `initial` in its cache.
    pub fn new(initial: Option<LotteryOptions>, file_path: std::path::PathBuf) -> (store: Self)
        ensures
            store.cached() == initial,
            store.path() == file_path,
    {
        OptionsStore { options: initial, file_path }
    }

    /// The store at startup, seeded from what was read at `file_path`:
    /// `contents` is the file's text, or `None` where it could not be read.
    /// A missing, unreadable or malformed file leaves the cache empty.
    pub fn start(file_path: std::path::PathBuf, contents: Option<&str>) -> (store: Self)
        ensures
            store.cached() == loaded(contents_view(contents)),
            contents is None ==> store.cached() is None,
            store.path() == file_path,
    {
        OptionsStore { options: load_options_from_file(contents), file_path }
    }

    /// The storage path, which never changes.
    pub fn file_path(&self) -> (path: &std::path::PathBuf)
        ensures
            *path == self.path(),
    {
        &self.file_path
    }

    /// The cached options, as they are. Never fails.
    pub fn get_options(&self) -> (result: Result<Option<LotteryOptions>, String>)
        ensures
            result == Ok::<Option<LotteryOptions>, String>(self.cached()),
    {
        Ok(self.options.clone())
    }

    /// Ends a save of `options`, given how writing them to the file went.
    /// After a write that succeeded the cache holds `options`; after one that
    /// failed the store is unchanged and the error is handed on.
    pub fn save_options(&mut self, options: LotteryOptions, written: Result<(), String>) -> (result:
        Result<(), String>)
        ensures
            *final(self) == old(self).after_save(options, written),
            written is Ok ==> final(self).cached() == Some(options),
            written is Err ==> *final(self) == *old(self),
            final(self).path() == old(self).path(),
            result == written,
    {
        if written.is_ok() {
            self.options = Some(options);
        }
        written
    }
}

/// Round trip: after a save that succeeded, the cache holds exactly the
/// options that were saved.
pub proof fn save_then_get(store: OptionsStore, options: LotteryOptions)
    ensures
        store.after_save(options, Ok(())).cached() == Some(options),
        store.after_save(options, Ok(())).path() == store.path(),
{
}

/// Overwrite: of two saves that both succeeded only the second shows. The
/// cache holds the second options, whatever the first were.
pub proof fn last_save_wins(store: OptionsStore, first: LotteryOptions, second: LotteryOptions)
    ensures
        store.after_save(first, Ok(())).after_save(second, Ok(())).cached() == Some(second),
        store.after_save(first, Ok(())).after_save(second, Ok(())) == store.after_save(
            second,
            Ok(()),
        ),
{
}

/// A save that failed leaves the store as it was, so the cache still holds
/// what it held before.
pub proof fn failed_save_keeps_cache(
    store: OptionsStore,
    options: LotteryOptions,
    message: String,
)
    ensures
        store.after_save(options, Err(message)) == store,
        store.after_save(options, Err(message)).cached() == store.cached(),
{
}

/// No save moves the storage path.
pub proof fn save_keeps_path(store: OptionsStore, options: LotteryOptions, written: Result<(), String>)
    ensures
        store.after_save(options, written).path() == store.path(),
{
}

/// Cold start: where no file could be read, nothing is loaded.
pub proof fn nothing_read_nothing_loaded()
    ensures
        loaded(None) is None,
{
}

} // verus!
