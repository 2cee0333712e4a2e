//! The walk of the directory loader over a tree of directories.
//!
//! The walk decides and the caller reads: the walk names a directory to list
//! or a file to decode, the caller does so and hands back what it found, and
//! the walk names the next. Entries are visited in the order of their
//! listing, and a directory is walked to its end before the entry after it.

use vstd::prelude::*;
use crate::assets::directory_loader::reversed;
use crate::assets::io_failure::IoFailure;
use crate::util::text::chars_of;

verus! {

/// One entry of a directory listing: its path, the last component of the
/// path, and whether it is a directory.
#[derive(Debug)]
pub struct DirEntry {
    pub path: String,
    pub file_name: String,
    pub is_dir: bool,
}

/// What listing a directory yields: a failure, or its entries, each of
/// which may itself have failed to be read.
pub type Listing = Result<Vec<Result<DirEntry, IoFailure>>, IoFailure>;

/// The extension of asset files, with its dot.
pub open spec fn asset_extension() -> Seq<char> {
    seq!['.', 'p', 'a', 'n', 'i', 'c']
}

/// A file name with the asset extension: it ends in `.panic` and has at
/// least one character before that.
pub open spec fn is_asset_file_name(name: Seq<char>) -> bool {
    &&& name.len() > asset_extension().len()
    &&& name.subrange(name.len() - asset_extension().len(), name.len() as int)
        == asset_extension()
}

/// Whether a file name has the asset extension.
pub fn is_asset_file(file_name: &str) -> (matches: bool)
    ensures
        matches == is_asset_file_name(file_name@),
{
    let chars: Vec<char> = chars_of(file_name);
    let n: usize = chars.len();
    if n <= 6 {
        return false;
    }
    let matches: bool = chars[n - 6] == '.' && chars[n - 5] == 'p' && chars[n - 4] == 'a'
        && chars[n - 3] == 'n' && chars[n - 2] == 'i' && chars[n - 1] == 'c';
    proof {
        let tail = file_name@.subrange(n - 6, n as int);
        if matches {
            assert(tail =~= asset_extension());
        } else {
            assert(tail[0] == file_name@[n - 6]);
            assert(tail[1] == file_name@[n - 5]);
            assert(tail[2] == file_name@[n - 4]);
            assert(tail[3] == file_name@[n - 3]);
            assert(tail[4] == file_name@[n - 2]);
            assert(tail[5] == file_name@[n - 1]);
        }
    }
    matches
}

/// What a walk asks of its caller.
#[derive(Debug)]
pub enum WalkAction {
    /// List the directory at `path`.
    ReadDir { path: String },
    /// Read the file at `path` and decode it as one asset.
    Decode { path: String },
    /// Nothing: the walk has ended.
    Finished,
}

/// A `WalkAction` with its path as a sequence of characters.
pub enum WalkRequest {
    ReadDir { path: Seq<char> },
    Decode { path: Seq<char> },
    Finished,
}

impl View for WalkAction {
    type V = WalkRequest;

    open spec fn view(&self) -> WalkRequest {
        match self {
            WalkAction::ReadDir { path } => WalkRequest::ReadDir { path: path@ },
            WalkAction::Decode { path } => WalkRequest::Decode { path: path@ },
            WalkAction::Finished => WalkRequest::Finished,
        }
    }
}

impl WalkAction {
    /// The same action once more.
    pub fn duplicate(&self) -> (copy: WalkAction)
        ensures
            copy == *self,
    {
        match self {
            WalkAction::ReadDir { path } => WalkAction::ReadDir { path: path.clone() },
            WalkAction::Decode { path } => WalkAction::Decode { path: path.clone() },
            WalkAction::Finished => WalkAction::Finished,
        }
    }
}

/// What the caller hands back to a walk.
pub enum WalkEvent<T> {
    /// The outcome of listing a directory.
    Listing(Listing),
    /// The outcome of reading and decoding a file.
    Decoded(Result<T, IoFailure>),
}

/// The state of a walk.
pub struct WalkModel<T> {
    /// The entries still to visit, the next one first.
    pub pending: Seq<Result<DirEntry, IoFailure>>,
    /// The assets decoded so far, in the order of the walk.
    pub found: Seq<T>,
    /// What the walk waits for.
    pub request: WalkRequest,
    /// The failure that ended the walk, if one did.
    pub failure: Option<IoFailure>,
}

/// The walk after it has visited its pending entries up to the first that
/// asks for something from the caller: a directory, which is to be listed,
/// or a file with the asset extension, which is to be decoded. Other files
/// are passed over. An entry that could not be read ends the walk with its
/// failure, and so does the end of the entries, without one.
pub open spec fn settled<T>(walk: WalkModel<T>) -> WalkModel<T>
    decreases walk.pending.len(),
{
    if walk.pending.len() == 0 {
        WalkModel { request: WalkRequest::Finished, ..walk }
    } else {
        let rest = walk.pending.drop_first();
        match walk.pending[0] {
            Err(failure) => WalkModel {
                pending: rest,
                request: WalkRequest::Finished,
                failure: Some(failure),
                ..walk
            },
            Ok(entry) => if entry.is_dir {
                WalkModel { pending: rest, request: WalkRequest::ReadDir { path: entry.path@ }, ..walk }
            } else if is_asset_file_name(entry.file_name@) {
                WalkModel { pending: rest, request: WalkRequest::Decode { path: entry.path@ }, ..walk }
            } else {
                settled(WalkModel { pending: rest, ..walk })
            },
        }
    }
}

/// The walk after an event. A listing that was asked for puts its entries
/// before the pending ones; an asset that was asked for joins the assets
/// found; a failure ends the walk. An event that was not asked for changes
/// nothing.
pub open spec fn stepped<T>(walk: WalkModel<T>, event: WalkEvent<T>) -> WalkModel<T> {
    match (walk.request, event) {
        (WalkRequest::ReadDir { .. }, WalkEvent::Listing(Ok(entries))) => settled(
            WalkModel { pending: entries@ + walk.pending, ..walk },
        ),
        (WalkRequest::ReadDir { .. }, WalkEvent::Listing(Err(failure))) => WalkModel {
            request: WalkRequest::Finished,
            failure: Some(failure),
            ..walk
        },
        (WalkRequest::Decode { .. }, WalkEvent::Decoded(Ok(asset))) => settled(
            WalkModel { found: walk.found.push(asset), ..walk },
        ),
        (WalkRequest::Decode { .. }, WalkEvent::Decoded(Err(failure))) => WalkModel {
            request: WalkRequest::Finished,
            failure: Some(failure),
            ..walk
        },
        _ => walk,
    }
}

/// The walk that is about to list `root_dir`.
pub open spec fn started<T>(root_dir: Seq<char>) -> WalkModel<T> {
    WalkModel {
        pending: Seq::empty(),
        found: Seq::empty(),
        request: WalkRequest::ReadDir { path: root_dir },
        failure: None,
    }
}

/// A walk over the tree below one directory, for assets of one kind.
pub struct DirectoryWalk<T> {
    pending: Vec<Result<DirEntry, IoFailure>>,
    found: Vec<T>,
    request: WalkAction,
    failure: Option<IoFailure>,
}

impl<T> View for DirectoryWalk<T> {
    type V = WalkModel<T>;

    closed spec fn view(&self) -> WalkModel<T> {
        WalkModel {
            pending: self.pending@.reverse(),
            found: self.found@,
            request: self.request@,
            failure: self.failure,
        }
    }
}

impl<T> DirectoryWalk<T> {
    /// A walk that is about to list `root_dir`.
    pub fn begin(root_dir: String) -> (walk: Self)
        ensures
            walk@ == started::<T>(root_dir@),
    {
        let walk = Self {
            pending: Vec::new(),
            found: Vec::new(),
            request: WalkAction::ReadDir { path: root_dir },
            failure: None,
        };
        assert(walk.pending@.reverse() =~= Seq::<Result<DirEntry, IoFailure>>::empty());
        walk
    }

    /// What the walk waits for.
    pub fn action(&self) -> (action: WalkAction)
        ensures
            action@ == self@.request,
    {
        self.request.duplicate()
    }

    /// Whether the walk has ended.
    pub fn is_finished(&self) -> (finished: bool)
        ensures
            finished == (self@.request is Finished),
    {
        match self.request {
            WalkAction::Finished => true,
            _ => false,
        }
    }

    fn settle(&mut self)
        ensures
            final(self)@ == settled(old(self)@),
    {
        let mut settling: bool = true;
        while settling
            invariant
                settling ==> settled(self@) == settled(old(self)@),
                !settling ==> self@ == settled(old(self)@),
            decreases self.pending@.len() + if settling { 1nat } else { 0nat },
        {
            let ghost before = self@;
            let next = self.pending.pop();
            proof {
                if before.pending.len() > 0 {
                    assert(self.pending@.reverse() =~= before.pending.drop_first());
                } else {
                    assert(self.pending@.reverse() =~= before.pending);
                }
            }
            match next {
                None => {
                    self.request = WalkAction::Finished;
                    settling = false;
                },
                Some(Err(failure)) => {
                    self.failure = Some(failure);
                    self.request = WalkAction::Finished;
                    settling = false;
                },
                Some(Ok(entry)) => {
                    if entry.is_dir {
                        self.request = WalkAction::ReadDir { path: entry.path };
                        settling = false;
                    } else if is_asset_file(entry.file_name.as_str()) {
                        self.request = WalkAction::Decode { path: entry.path };
                        settling = false;
                    }
                },
            }
        }
    }

    /// Takes the event in and names what the walk waits for next.
    pub fn step(&mut self, event: WalkEvent<T>) -> (action: WalkAction)
        ensures
            final(self)@ == stepped(old(self)@, event),
            action@ == final(self)@.request,
    {
        let listing_due: bool = match self.request {
            WalkAction::ReadDir { .. } => true,
            _ => false,
        };
        let asset_due: bool = match self.request {
            WalkAction::Decode { .. } => true,
            _ => false,
        };
        match event {
            WalkEvent::Listing(listing) => {
                if listing_due {
                    match listing {
                        Ok(entries) => {
                            let ghost before = self.pending@;
                            let mut tail: Vec<Result<DirEntry, IoFailure>> = reversed(entries);
                            self.pending.append(&mut tail);
                            proof {
                                assert(self.pending@.reverse() =~= entries@ + before.reverse());
                            }
                            self.settle();
                        },
                        Err(failure) => {
                            self.failure = Some(failure);
                            self.request = WalkAction::Finished;
                        },
                    }
                }
            },
            WalkEvent::Decoded(outcome) => {
                if asset_due {
                    match outcome {
                        Ok(asset) => {
                            self.found.push(asset);
                            self.settle();
                        },
                        Err(failure) => {
                            self.failure = Some(failure);
                            self.request = WalkAction::Finished;
                        },
                    }
                }
            },
        }
        self.request.duplicate()
    }

    /// How the walk ended: with the assets found, in the order of the walk,
    /// or with the failure that ended it. `None` while the walk has not
    /// ended.
    pub fn finish(self) -> (outcome: Option<Result<Vec<T>, IoFailure>>)
        ensures
            outcome is Some <==> self@.request is Finished,
            match outcome {
                Some(Ok(found)) => self@.failure is None && found@ == self@.found,
                Some(Err(failure)) => self@.failure == Some(failure),
                None => true,
            },
    {
        if !self.is_finished() {
            return None;
        }
        match self.failure {
            Some(failure) => Some(Err(failure)),
            None => Some(Ok(self.found)),
        }
    }
}

} // verus!
