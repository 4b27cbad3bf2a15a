//! Stores of data units, and the store that keeps a cache warm.

pub mod error;
pub mod mongodb;
pub mod protocol;
pub mod redact;

use crate::cache::DataCacher;
use crate::data::{Data, DataCollection, DataView};
use crate::storage::error::DataStorerError;
use crate::storage::protocol::{
    create_calls, create_outcome, get_calls, get_outcome, read_view, Answers, CreateOperation,
    CreateOperationView, CreateStage, CreateStep, GetOperation, GetOperationView, GetStage,
    GetStageView, GetStep, Request, RequestView, Response, ResponseView,
};
use std::sync::Arc;
use vstd::prelude::*;

verus! {

/// The outcome of a read of many, with the units taken by their views.
pub open spec fn page_view(r: Result<DataCollection, DataStorerError>) -> Result<
    Seq<DataView>,
    DataStorerError,
> {
    match r {
        Ok(page) => Ok(page@),
        Err(e) => Err(e),
    }
}

/// The operations of a store of data units.
///
/// A store is a remote service, and no operation promises what it answers.
/// What each operation states is only that its answer is one that this store
/// `gives` to that call, or `lists` for that page: relations that the store
/// itself defines, and by which a caller can say which answers its own result
/// was made of.
pub trait DataStorer: Clone + Send + Sync {
    /// Whether `response` is an answer of this store to the call `request`.
    /// A store that says nothing of itself may answer anything.
    open spec fn gives(&self, request: RequestView, response: ResponseView) -> bool {
        true
    }

    /// Whether `page` is an answer of this store to a read of up to
    /// `page_size` units at or under `path` after the first `skip`. A store
    /// that says nothing of itself may answer anything.
    open spec fn lists(
        &self,
        path: Seq<char>,
        skip: i64,
        page_size: i64,
        page: Result<Seq<DataView>, DataStorerError>,
    ) -> bool {
        true
    }

    /// Fetches the data stored at `path`. Where nothing is stored there, the
    /// error is `StorageError::NotFound`.
    fn get(&self, path: &str) -> (r: Result<Data, DataStorerError>)
        ensures
            self.gives(RequestView::StorerGet { path: path@ }, ResponseView::StorerGet(read_view(r))),
    ;

    /// Fetches up to `page_size` of the data stored at or under `path`, after
    /// leaving out the first `skip`. Where nothing matches, the collection is
    /// empty.
    fn get_collection(&self, path: &str, skip: i64, page_size: i64) -> (r: Result<
        DataCollection,
        DataStorerError,
    >)
        ensures
            self.lists(path@, skip, page_size, page_view(r)),
    ;

    /// Stores `data` at its path, in place of what is stored there.
    fn create(&self, data: Data) -> (r: Result<bool, DataStorerError>)
        ensures
            self.gives(RequestView::StorerCreate { data: data@ }, ResponseView::StorerCreate(r)),
    ;
}

/// A shared store is a store: each call goes to the store behind the pointer,
/// and the answer is that store's.
impl<U: DataStorer> DataStorer for Arc<U> {
    open spec fn gives(&self, request: RequestView, response: ResponseView) -> bool {
        (**self).gives(request, response)
    }

    open spec fn lists(
        &self,
        path: Seq<char>,
        skip: i64,
        page_size: i64,
        page: Result<Seq<DataView>, DataStorerError>,
    ) -> bool {
        (**self).lists(path, skip, page_size, page)
    }

    fn get(&self, path: &str) -> Result<Data, DataStorerError> {
        (**self).get(path)
    }

    fn get_collection(&self, path: &str, skip: i64, page_size: i64) -> Result<
        DataCollection,
        DataStorerError,
    > {
        (**self).get_collection(path, skip, page_size)
    }

    fn create(&self, data: Data) -> Result<bool, DataStorerError> {
        (**self).create(data)
    }
}

/// A store that answers from a cache where it can, and keeps the cache warm.
#[derive(Clone)]
pub struct CachedDataStorer<T: DataStorer, V: DataCacher> {
    storer: T,
    cacher: V,
}

/// How many calls a read at `stage` has before it at most.
pub open spec fn calls_left(stage: GetStage) -> nat {
    match stage {
        GetStage::CheckingCache => 3,
        GetStage::Refreshing => 2,
        GetStage::ReadingStore => 2,
        GetStage::ReadingCache => 1,
        GetStage::FillingCache { .. } => 1,
    }
}

impl<T: DataStorer, V: DataCacher> CachedDataStorer<T, V> {
    /// The backing store.
    pub closed spec fn storer(&self) -> T {
        self.storer
    }

    /// The cache in front of the backing store.
    pub closed spec fn cacher(&self) -> V {
        self.cacher
    }

    /// Whether `response` is an answer to `request` of the collaborator that
    /// the call goes to: the backing store for its two calls, the cache for
    /// the others.
    pub open spec fn answered(&self, request: RequestView, response: ResponseView) -> bool {
        match request {
            RequestView::StorerGet { .. } => self.storer().gives(request, response),
            RequestView::StorerCreate { .. } => self.storer().gives(request, response),
            _ => self.cacher().gives(request, response),
        }
    }

    /// Whether `answers` holds, for each of `calls`, an answer that the
    /// collaborator gives to that call.
    pub open spec fn all_answered(&self, calls: Seq<RequestView>, answers: Answers) -> bool {
        forall|i: int|
            0 <= i < calls.len() ==> self.answered(#[trigger] calls[i], answers.to(calls[i]))
    }

    /// Whether `outcome` is the outcome of a read of `path` on the answers
    /// `answers`: the cache reports `seconds` as its default time; to each
    /// call that the read makes on these answers, `answers` holds an answer
    /// that the collaborator gives to that call; and the outcome is the one
    /// that follows from these answers.
    pub open spec fn reads_on(
        &self,
        path: Seq<char>,
        seconds: usize,
        answers: Answers,
        outcome: Result<DataView, DataStorerError>,
    ) -> bool {
        &&& self.cacher().defaults_to(seconds)
        &&& self.all_answered(get_calls(path, seconds, answers), answers)
        &&& outcome == get_outcome(answers)
    }

    /// Whether `outcome` is the outcome of a write of `data` on the answers
    /// `answers`: the cache reports `seconds` as its default time; to each
    /// call that the write makes on these answers, `answers` holds an answer
    /// that the collaborator gives to that call; and the outcome is the one
    /// that follows from these answers.
    pub open spec fn writes_on(
        &self,
        data: DataView,
        seconds: usize,
        answers: Answers,
        outcome: Result<bool, DataStorerError>,
    ) -> bool {
        &&& self.cacher().defaults_to(seconds)
        &&& self.all_answered(create_calls(data, seconds, answers), answers)
        &&& outcome == create_outcome(answers)
    }

    /// What holds of a read that has come to `op` on the answers received so
    /// far: it is a read of `path` with `seconds`, and the calls that lead to
    /// its stage were answered as `answers` says.
    pub open spec fn reading(
        &self,
        op: GetOperationView,
        path: Seq<char>,
        seconds: usize,
        answers: Answers,
    ) -> bool {
        let asked = RequestView::CacheExists { key: path };
        &&& op.path == path
        &&& op.seconds == seconds
        &&& match op.stage {
            GetStageView::CheckingCache => true,
            GetStageView::Refreshing => {
                &&& answers.exists == Ok::<bool, crate::cache::error::CacheError>(true)
                &&& self.answered(asked, answers.to(asked))
            },
            GetStageView::ReadingCache => {
                let refreshed = RequestView::CacheExpire { key: path, seconds };
                &&& answers.exists == Ok::<bool, crate::cache::error::CacheError>(true)
                &&& answers.expire is Ok
                &&& self.answered(asked, answers.to(asked))
                &&& self.answered(refreshed, answers.to(refreshed))
            },
            GetStageView::ReadingStore => {
                &&& answers.exists == Ok::<bool, crate::cache::error::CacheError>(false)
                &&& self.answered(asked, answers.to(asked))
            },
            GetStageView::FillingCache { fetched } => {
                let read = RequestView::StorerGet { path };
                &&& answers.exists == Ok::<bool, crate::cache::error::CacheError>(false)
                &&& answers.stored == Ok::<DataView, DataStorerError>(fetched)
                &&& self.answered(asked, answers.to(asked))
                &&& self.answered(read, answers.to(read))
            },
        }
    }

    /// What holds of a write that has come to `op` on the answers received so
    /// far: it is a write of `data` with `seconds`, and where it has passed
    /// the store, the store's answer was a success and is in `answers`.
    pub open spec fn writing(
        &self,
        op: CreateOperationView,
        data: DataView,
        seconds: usize,
        answers: Answers,
    ) -> bool {
        let stored = RequestView::StorerCreate { data };
        &&& op.data == data
        &&& op.seconds == seconds
        &&& match op.stage {
            CreateStage::Storing => true,
            CreateStage::Caching => {
                &&& answers.created is Ok
                &&& self.answered(stored, answers.to(stored))
            },
        }
    }

    /// A read on answers of the collaborators is an answer of the store with
    /// its cache.
    proof fn lemma_read_is_given(
        &self,
        path: Seq<char>,
        seconds: usize,
        answers: Answers,
        outcome: Result<DataView, DataStorerError>,
    )
        requires
            self.reads_on(path, seconds, answers, outcome),
        ensures
            self.gives(RequestView::StorerGet { path }, ResponseView::StorerGet(outcome)),
    {
        let request = RequestView::StorerGet { path };
        let response = ResponseView::StorerGet(outcome);
        assert(self.reads_on(request->path, seconds, answers, response->StorerGet_0));
    }

    /// Puts `cacher` in front of `storer`.
    pub fn new(storer: T, cacher: V) -> (r: CachedDataStorer<T, V>)
        ensures
            r.storer() == storer,
            r.cacher() == cacher,
    {
        CachedDataStorer { storer, cacher }
    }

    /// Makes the call `request` on the collaborator that it names.
    fn perform(&self, request: Request) -> (response: Response)
        ensures
            response@.answers(request@),
            self.answered(request@, response@),
    {
        match request {
            Request::CacheExists { key } => Response::CacheExists(self.cacher.key_exists(key.as_str())),
            Request::CacheExpire { key, seconds } => Response::CacheExpire(
                self.cacher.expire(key.as_str(), seconds),
            ),
            Request::CacheGet { key } => Response::CacheGet(self.cacher.get(key.as_str())),
            Request::CacheSet { key, value, seconds } => Response::CacheSet(
                self.cacher.set(key.as_str(), value, seconds),
            ),
            Request::StorerGet { path } => Response::StorerGet(self.storer.get(path.as_str())),
            Request::StorerCreate { data } => Response::StorerCreate(self.storer.create(data)),
        }
    }
}

impl<T: DataStorer, V: DataCacher> DataStorer for CachedDataStorer<T, V> {
    /// The store with its cache gives to a read what follows from the answers
    /// of its two collaborators to the calls of the cache-aside protocol, and
    /// likewise to a write.
    open spec fn gives(&self, request: RequestView, response: ResponseView) -> bool {
        if request is StorerGet && response is StorerGet {
            exists|seconds: usize, answers: Answers| #[trigger]
                self.reads_on(request->path, seconds, answers, response->StorerGet_0)
        } else if request is StorerCreate && response is StorerCreate {
            exists|seconds: usize, answers: Answers| #[trigger]
                self.writes_on(request->data, seconds, answers, response->StorerCreate_0)
        } else {
            false
        }
    }

    /// A read of many is the backing store's.
    open spec fn lists(
        &self,
        path: Seq<char>,
        skip: i64,
        page_size: i64,
        page: Result<Seq<DataView>, DataStorerError>,
    ) -> bool {
        self.storer().lists(path, skip, page_size, page)
    }

    /// Reads the data at `path`: from the cache where it is there, after
    /// extending the entry's life; else from the backing store, whose data is
    /// written to the cache before it is returned. Each call is made as the
    /// read asks for it, and each answer is handed to the read.
    fn get(&self, path: &str) -> (r: Result<Data, DataStorerError>) {
        let seconds = self.cacher.get_default_key_expiration_seconds();
        let mut op = GetOperation::start(path, seconds);
        let ghost mut answers: Answers = arbitrary();
        loop
            invariant
                self.cacher().defaults_to(seconds),
                self.reading(op@, path@, seconds, answers),
            decreases calls_left(op.stage),
        {
            let response = self.perform(op.request());
            proof {
                answers = answers.noting(response@);
            }
            match op.resume(response) {
                GetStep::Done(outcome) => {
                    proof {
                        let calls = get_calls(path@, seconds, answers);
                        assert forall|i: int| 0 <= i < calls.len() implies self.answered(
                            #[trigger] calls[i],
                            answers.to(calls[i]),
                        ) by {}
                        assert(self.reads_on(path@, seconds, answers, read_view(outcome)));
                        self.lemma_read_is_given(path@, seconds, answers, read_view(outcome));
                    }
                    return outcome;
                },
                GetStep::Continue(next) => {
                    op = next;
                },
            }
        }
    }

    /// Reads many from the backing store. The cache holds single units and
    /// takes no part.
    fn get_collection(&self, path: &str, skip: i64, page_size: i64) -> Result<
        DataCollection,
        DataStorerError,
    > {
        self.storer.get_collection(path, skip, page_size)
    }

    /// Writes `data` to the backing store and then, where that succeeded, to
    /// the cache under the data's own path.
    fn create(&self, data: Data) -> (r: Result<bool, DataStorerError>)
        ensures
            r matches Ok(written) ==> written,
    {
        let seconds = self.cacher.get_default_key_expiration_seconds();
        let mut op = CreateOperation::start(data, seconds);
        let ghost mut answers: Answers = arbitrary();
        loop
            invariant
                self.cacher().defaults_to(seconds),
                self.writing(op@, data@, seconds, answers),
            decreases
                (match op.stage {
                    CreateStage::Storing => 2nat,
                    CreateStage::Caching => 1nat,
                }),
        {
            let response = self.perform(op.request());
            proof {
                answers = answers.noting(response@);
            }
            match op.resume(response) {
                CreateStep::Done(outcome) => {
                    proof {
                        let calls = create_calls(data@, seconds, answers);
                        assert forall|i: int| 0 <= i < calls.len() implies self.answered(
                            #[trigger] calls[i],
                            answers.to(calls[i]),
                        ) by {}
                        assert(self.writes_on(data@, seconds, answers, outcome));
                    }
                    return outcome;
                },
                CreateStep::Continue(next) => {
                    op = next;
                },
            }
        }
    }
}

} // verus!
