//! The cache-aside protocol, step by step.
//!
//! A read or a write through the store with its cache is a short exchange
//! with two collaborators, the cache and the backing store. This module
//! decides what is asked of them and in which order; it performs none of the
//! calls itself. An operation says which call it waits for (`request`), takes
//! the answer (`resume`), and either goes on to its next call or is done.

use crate::cache::error::CacheError;
use crate::data::{Data, DataView};
use crate::storage::error::DataStorerError;
use vstd::prelude::*;
use vstd::string::*;

verus! {

/// A call on the cache or on the backing store.
#[derive(Debug, PartialEq)]
pub enum Request {
    /// Ask the cache whether it holds an entry under `key`.
    CacheExists { key: String },
    /// Have the cache keep the entry under `key` for `seconds` from now on.
    CacheExpire { key: String, seconds: usize },
    /// Read the entry under `key` from the cache.
    CacheGet { key: String },
    /// Write `value` to the cache under `key`, to be kept for `seconds`.
    CacheSet { key: String, value: Data, seconds: usize },
    /// Read the data at `path` from the backing store.
    StorerGet { path: String },
    /// Write `data` to the backing store, at its own path.
    StorerCreate { data: Data },
}

/// What a `Request` is, as a mathematical value.
pub enum RequestView {
    CacheExists { key: Seq<char> },
    CacheExpire { key: Seq<char>, seconds: usize },
    CacheGet { key: Seq<char> },
    CacheSet { key: Seq<char>, value: DataView, seconds: usize },
    StorerGet { path: Seq<char> },
    StorerCreate { data: DataView },
}

impl View for Request {
    type V = RequestView;

    open spec fn view(&self) -> RequestView {
        match self {
            Request::CacheExists { key } => RequestView::CacheExists { key: key@ },
            Request::CacheExpire { key, seconds } => RequestView::CacheExpire {
                key: key@,
                seconds: *seconds,
            },
            Request::CacheGet { key } => RequestView::CacheGet { key: key@ },
            Request::CacheSet { key, value, seconds } => RequestView::CacheSet {
                key: key@,
                value: value@,
                seconds: *seconds,
            },
            Request::StorerGet { path } => RequestView::StorerGet { path: path@ },
            Request::StorerCreate { data } => RequestView::StorerCreate { data: data@ },
        }
    }
}

/// The answer to a `Request`, named after the call that it answers.
#[derive(Debug, PartialEq)]
pub enum Response {
    CacheExists(Result<bool, CacheError>),
    CacheExpire(Result<bool, CacheError>),
    CacheGet(Result<Data, CacheError>),
    CacheSet(Result<(), CacheError>),
    StorerGet(Result<Data, DataStorerError>),
    StorerCreate(Result<bool, DataStorerError>),
}

/// What a `Response` is, as a mathematical value.
pub enum ResponseView {
    CacheExists(Result<bool, CacheError>),
    CacheExpire(Result<bool, CacheError>),
    CacheGet(Result<DataView, CacheError>),
    CacheSet(Result<(), CacheError>),
    StorerGet(Result<DataView, DataStorerError>),
    StorerCreate(Result<bool, DataStorerError>),
}

/// The outcome of a read, with the data taken by its view.
pub open spec fn read_view<E>(r: Result<Data, E>) -> Result<DataView, E> {
    match r {
        Ok(d) => Ok(d@),
        Err(e) => Err(e),
    }
}

impl View for Response {
    type V = ResponseView;

    open spec fn view(&self) -> ResponseView {
        match self {
            Response::CacheExists(r) => ResponseView::CacheExists(*r),
            Response::CacheExpire(r) => ResponseView::CacheExpire(*r),
            Response::CacheGet(r) => ResponseView::CacheGet(read_view(*r)),
            Response::CacheSet(r) => ResponseView::CacheSet(*r),
            Response::StorerGet(r) => ResponseView::StorerGet(read_view(*r)),
            Response::StorerCreate(r) => ResponseView::StorerCreate(*r),
        }
    }
}

impl ResponseView {
    /// Whether this is an answer to a call of the kind of `request`.
    pub open spec fn answers(self, request: RequestView) -> bool {
        match request {
            RequestView::CacheExists { .. } => self is CacheExists,
            RequestView::CacheExpire { .. } => self is CacheExpire,
            RequestView::CacheGet { .. } => self is CacheGet,
            RequestView::CacheSet { .. } => self is CacheSet,
            RequestView::StorerGet { .. } => self is StorerGet,
            RequestView::StorerCreate { .. } => self is StorerCreate,
        }
    }
}

/// The failure `e` of the cache, as the store with its cache reports it.
pub open spec fn cache_failure(e: CacheError) -> DataStorerError {
    DataStorerError::CacheError { source: e }
}

/// How far a read has come.
#[derive(Debug, PartialEq)]
pub enum GetStage {
    /// Asking the cache whether it holds the path.
    CheckingCache,
    /// The cache holds the path; extending the entry's life.
    Refreshing,
    /// Reading the entry from the cache.
    ReadingCache,
    /// The cache does not hold the path; reading from the backing store.
    ReadingStore,
    /// Writing what the backing store returned into the cache.
    FillingCache { fetched: Data },
}

/// What a `GetStage` is, as a mathematical value.
pub enum GetStageView {
    CheckingCache,
    Refreshing,
    ReadingCache,
    ReadingStore,
    FillingCache { fetched: DataView },
}

impl View for GetStage {
    type V = GetStageView;

    open spec fn view(&self) -> GetStageView {
        match self {
            GetStage::CheckingCache => GetStageView::CheckingCache,
            GetStage::Refreshing => GetStageView::Refreshing,
            GetStage::ReadingCache => GetStageView::ReadingCache,
            GetStage::ReadingStore => GetStageView::ReadingStore,
            GetStage::FillingCache { fetched } => GetStageView::FillingCache { fetched: fetched@ },
        }
    }
}

/// A read through the cache that is under way: the path asked for, the time
/// for which the cache keeps an entry by default, and the stage reached.
#[derive(Debug, PartialEq)]
pub struct GetOperation {
    pub path: String,
    pub seconds: usize,
    pub stage: GetStage,
}

/// What a `GetOperation` is, as a mathematical value.
pub struct GetOperationView {
    pub path: Seq<char>,
    pub seconds: usize,
    pub stage: GetStageView,
}

/// Where a read stands after an answer.
#[derive(Debug, PartialEq)]
pub enum GetStep {
    /// The read goes on: its next call is to be made.
    Continue(GetOperation),
    /// The read is over, with this outcome.
    Done(Result<Data, DataStorerError>),
}

/// What a `GetStep` is, as a mathematical value.
pub enum GetStepView {
    Continue(GetOperationView),
    Done(Result<DataView, DataStorerError>),
}

impl View for GetOperation {
    type V = GetOperationView;

    open spec fn view(&self) -> GetOperationView {
        GetOperationView { path: self.path@, seconds: self.seconds, stage: self.stage@ }
    }
}

impl View for GetStep {
    type V = GetStepView;

    open spec fn view(&self) -> GetStepView {
        match self {
            GetStep::Continue(op) => GetStepView::Continue(op@),
            GetStep::Done(r) => GetStepView::Done(read_view(*r)),
        }
    }
}

impl GetOperationView {
    /// A read of `path` that has asked nothing yet.
    pub open spec fn start(path: Seq<char>, seconds: usize) -> GetOperationView {
        GetOperationView { path, seconds, stage: GetStageView::CheckingCache }
    }

    /// The call that the read waits for.
    pub open spec fn request(self) -> RequestView {
        match self.stage {
            GetStageView::CheckingCache => RequestView::CacheExists { key: self.path },
            GetStageView::Refreshing => RequestView::CacheExpire {
                key: self.path,
                seconds: self.seconds,
            },
            GetStageView::ReadingCache => RequestView::CacheGet { key: self.path },
            GetStageView::ReadingStore => RequestView::StorerGet { path: self.path },
            GetStageView::FillingCache { fetched } => RequestView::CacheSet {
                key: self.path,
                value: fetched,
                seconds: self.seconds,
            },
        }
    }

    /// The read at the stage `stage`.
    pub open spec fn at(self, stage: GetStageView) -> GetOperationView {
        GetOperationView { path: self.path, seconds: self.seconds, stage }
    }

    /// Where the read stands after `response`.
    ///
    /// A failure of the cache ends the read with an error of the cache, at
    /// whatever stage; the backing store is not asked in its place. A present
    /// entry is refreshed and then read from the cache. An absent entry is read
    /// from the backing store, whose failure ends the read unchanged, and
    /// whose data is written to the cache before it is returned. An answer to
    /// another call than the one waited for leaves the read where it is.
    pub open spec fn next(self, response: ResponseView) -> GetStepView {
        match (self.stage, response) {
            (GetStageView::CheckingCache, ResponseView::CacheExists(Ok(true))) => {
                GetStepView::Continue(self.at(GetStageView::Refreshing))
            },
            (GetStageView::CheckingCache, ResponseView::CacheExists(Ok(false))) => {
                GetStepView::Continue(self.at(GetStageView::ReadingStore))
            },
            (GetStageView::CheckingCache, ResponseView::CacheExists(Err(e))) => {
                GetStepView::Done(Err(cache_failure(e)))
            },
            (GetStageView::Refreshing, ResponseView::CacheExpire(Ok(_))) => {
                GetStepView::Continue(self.at(GetStageView::ReadingCache))
            },
            (GetStageView::Refreshing, ResponseView::CacheExpire(Err(e))) => {
                GetStepView::Done(Err(cache_failure(e)))
            },
            (GetStageView::ReadingCache, ResponseView::CacheGet(Ok(d))) => {
                GetStepView::Done(Ok(d))
            },
            (GetStageView::ReadingCache, ResponseView::CacheGet(Err(e))) => {
                GetStepView::Done(Err(cache_failure(e)))
            },
            (GetStageView::ReadingStore, ResponseView::StorerGet(Ok(d))) => {
                GetStepView::Continue(self.at(GetStageView::FillingCache { fetched: d }))
            },
            (GetStageView::ReadingStore, ResponseView::StorerGet(Err(e))) => {
                GetStepView::Done(Err(e))
            },
            (GetStageView::FillingCache { fetched }, ResponseView::CacheSet(Ok(_))) => {
                GetStepView::Done(Ok(fetched))
            },
            (GetStageView::FillingCache { .. }, ResponseView::CacheSet(Err(e))) => {
                GetStepView::Done(Err(cache_failure(e)))
            },
            _ => GetStepView::Continue(self),
        }
    }
}

impl GetOperation {
    /// Begins a read of `path` through a cache that keeps an entry for
    /// `seconds` by default. The first call asks the cache for the path.
    pub fn start(path: &str, seconds: usize) -> (op: GetOperation)
        ensures
            op@ == GetOperationView::start(path@, seconds),
    {
        GetOperation { path: String::from_str(path), seconds, stage: GetStage::CheckingCache }
    }

    /// The call that the read waits for.
    pub fn request(&self) -> (r: Request)
        ensures
            r@ == self@.request(),
    {
        match &self.stage {
            GetStage::CheckingCache => Request::CacheExists { key: self.path.clone() },
            GetStage::Refreshing => Request::CacheExpire {
                key: self.path.clone(),
                seconds: self.seconds,
            },
            GetStage::ReadingCache => Request::CacheGet { key: self.path.clone() },
            GetStage::ReadingStore => Request::StorerGet { path: self.path.clone() },
            GetStage::FillingCache { fetched } => Request::CacheSet {
                key: self.path.clone(),
                value: fetched.clone(),
                seconds: self.seconds,
            },
        }
    }

    /// Whether `response` answers the call that the read waits for.
    pub fn accepts(&self, response: &Response) -> (b: bool)
        ensures
            b == response@.answers(self@.request()),
    {
        match (&self.stage, response) {
            (GetStage::CheckingCache, Response::CacheExists(_)) => true,
            (GetStage::Refreshing, Response::CacheExpire(_)) => true,
            (GetStage::ReadingCache, Response::CacheGet(_)) => true,
            (GetStage::ReadingStore, Response::StorerGet(_)) => true,
            (GetStage::FillingCache { .. }, Response::CacheSet(_)) => true,
            _ => false,
        }
    }

    /// Takes an answer and says where the read stands then. An answer to
    /// another call than the one waited for changes nothing.
    pub fn resume(self, response: Response) -> (step: GetStep)
        ensures
            step@ == self@.next(response@),
    {
        let GetOperation { path, seconds, stage } = self;
        match (stage, response) {
            (GetStage::CheckingCache, Response::CacheExists(Ok(true))) => GetStep::Continue(
                GetOperation { path, seconds, stage: GetStage::Refreshing },
            ),
            (GetStage::CheckingCache, Response::CacheExists(Ok(false))) => GetStep::Continue(
                GetOperation { path, seconds, stage: GetStage::ReadingStore },
            ),
            (GetStage::CheckingCache, Response::CacheExists(Err(e))) => GetStep::Done(
                Err(DataStorerError::CacheError { source: e }),
            ),
            (GetStage::Refreshing, Response::CacheExpire(Ok(_))) => GetStep::Continue(
                GetOperation { path, seconds, stage: GetStage::ReadingCache },
            ),
            (GetStage::Refreshing, Response::CacheExpire(Err(e))) => GetStep::Done(
                Err(DataStorerError::CacheError { source: e }),
            ),
            (GetStage::ReadingCache, Response::CacheGet(Ok(d))) => GetStep::Done(Ok(d)),
            (GetStage::ReadingCache, Response::CacheGet(Err(e))) => GetStep::Done(
                Err(DataStorerError::CacheError { source: e }),
            ),
            (GetStage::ReadingStore, Response::StorerGet(Ok(d))) => GetStep::Continue(
                GetOperation { path, seconds, stage: GetStage::FillingCache { fetched: d } },
            ),
            (GetStage::ReadingStore, Response::StorerGet(Err(e))) => GetStep::Done(Err(e)),
            (GetStage::FillingCache { fetched }, Response::CacheSet(Ok(_))) => GetStep::Done(
                Ok(fetched),
            ),
            (GetStage::FillingCache { .. }, Response::CacheSet(Err(e))) => GetStep::Done(
                Err(DataStorerError::CacheError { source: e }),
            ),
            (stage, _) => GetStep::Continue(GetOperation { path, seconds, stage }),
        }
    }
}

/// How far a write has come.
#[derive(Debug, Clone, Copy, PartialEq, Eq, Structural)]
pub enum CreateStage {
    /// Writing to the backing store.
    Storing,
    /// The backing store has the data; writing it to the cache.
    Caching,
}

/// A write through the cache that is under way: the data to write, the time
/// for which the cache keeps an entry by default, and the stage reached.
#[derive(Debug, PartialEq)]
pub struct CreateOperation {
    pub data: Data,
    pub seconds: usize,
    pub stage: CreateStage,
}

/// What a `CreateOperation` is, as a mathematical value.
pub struct CreateOperationView {
    pub data: DataView,
    pub seconds: usize,
    pub stage: CreateStage,
}

/// Where a write stands after an answer.
#[derive(Debug, PartialEq)]
pub enum CreateStep {
    /// The write goes on: its next call is to be made.
    Continue(CreateOperation),
    /// The write is over, with this outcome.
    Done(Result<bool, DataStorerError>),
}

/// What a `CreateStep` is, as a mathematical value.
pub enum CreateStepView {
    Continue(CreateOperationView),
    Done(Result<bool, DataStorerError>),
}

impl View for CreateOperation {
    type V = CreateOperationView;

    open spec fn view(&self) -> CreateOperationView {
        CreateOperationView { data: self.data@, seconds: self.seconds, stage: self.stage }
    }
}

impl View for CreateStep {
    type V = CreateStepView;

    open spec fn view(&self) -> CreateStepView {
        match self {
            CreateStep::Continue(op) => CreateStepView::Continue(op@),
            CreateStep::Done(r) => CreateStepView::Done(*r),
        }
    }
}

impl CreateOperationView {
    /// A write of `data` that has asked nothing yet.
    pub open spec fn start(data: DataView, seconds: usize) -> CreateOperationView {
        CreateOperationView { data, seconds, stage: CreateStage::Storing }
    }

    /// The call that the write waits for.
    pub open spec fn request(self) -> RequestView {
        match self.stage {
            CreateStage::Storing => RequestView::StorerCreate { data: self.data },
            CreateStage::Caching => RequestView::CacheSet {
                key: self.data.path,
                value: self.data,
                seconds: self.seconds,
            },
        }
    }

    /// Where the write stands after `response`.
    ///
    /// The backing store is written first, and its failure ends the write
    /// unchanged, with the cache untouched. Once the store has the data, the
    /// same data goes to the cache under its own path; a failure there ends
    /// the write with an error of the cache, and success ends it with `true`.
    /// An answer to another call than the one waited for leaves the write
    /// where it is.
    pub open spec fn next(self, response: ResponseView) -> CreateStepView {
        match (self.stage, response) {
            (CreateStage::Storing, ResponseView::StorerCreate(Ok(_))) => CreateStepView::Continue(
                CreateOperationView {
                    data: self.data,
                    seconds: self.seconds,
                    stage: CreateStage::Caching,
                },
            ),
            (CreateStage::Storing, ResponseView::StorerCreate(Err(e))) => CreateStepView::Done(
                Err(e),
            ),
            (CreateStage::Caching, ResponseView::CacheSet(Ok(_))) => CreateStepView::Done(Ok(true)),
            (CreateStage::Caching, ResponseView::CacheSet(Err(e))) => CreateStepView::Done(
                Err(cache_failure(e)),
            ),
            _ => CreateStepView::Continue(self),
        }
    }
}

impl CreateOperation {
    /// Begins a write of `data` through a cache that keeps an entry for
    /// `seconds` by default. The first call writes to the backing store.
    pub fn start(data: Data, seconds: usize) -> (op: CreateOperation)
        ensures
            op@ == CreateOperationView::start(data@, seconds),
    {
        CreateOperation { data, seconds, stage: CreateStage::Storing }
    }

    /// The call that the write waits for.
    pub fn request(&self) -> (r: Request)
        ensures
            r@ == self@.request(),
    {
        match self.stage {
            CreateStage::Storing => Request::StorerCreate { data: self.data.clone() },
            CreateStage::Caching => Request::CacheSet {
                key: self.data.path(),
                value: self.data.clone(),
                seconds: self.seconds,
            },
        }
    }

    /// Whether `response` answers the call that the write waits for.
    pub fn accepts(&self, response: &Response) -> (b: bool)
        ensures
            b == response@.answers(self@.request()),
    {
        match (self.stage, response) {
            (CreateStage::Storing, Response::StorerCreate(_)) => true,
            (CreateStage::Caching, Response::CacheSet(_)) => true,
            _ => false,
        }
    }

    /// Takes an answer and says where the write stands then. An answer to
    /// another call than the one waited for changes nothing.
    pub fn resume(self, response: Response) -> (step: CreateStep)
        ensures
            step@ == self@.next(response@),
    {
        let CreateOperation { data, seconds, stage } = self;
        match (stage, response) {
            (CreateStage::Storing, Response::StorerCreate(Ok(_))) => CreateStep::Continue(
                CreateOperation { data, seconds, stage: CreateStage::Caching },
            ),
            (CreateStage::Storing, Response::StorerCreate(Err(e))) => CreateStep::Done(Err(e)),
            (CreateStage::Caching, Response::CacheSet(Ok(_))) => CreateStep::Done(Ok(true)),
            (CreateStage::Caching, Response::CacheSet(Err(e))) => CreateStep::Done(
                Err(DataStorerError::CacheError { source: e }),
            ),
            (stage, _) => CreateStep::Continue(CreateOperation { data, seconds, stage }),
        }
    }
}

/// The kinds of call.
#[derive(Debug, Clone, Copy, PartialEq, Eq, Structural)]
pub enum Call {
    CacheExists,
    CacheExpire,
    CacheGet,
    CacheSet,
    StorerGet,
    StorerCreate,
}

impl RequestView {
    /// The kind of the call.
    pub open spec fn kind(self) -> Call {
        match self {
            RequestView::CacheExists { .. } => Call::CacheExists,
            RequestView::CacheExpire { .. } => Call::CacheExpire,
            RequestView::CacheGet { .. } => Call::CacheGet,
            RequestView::CacheSet { .. } => Call::CacheSet,
            RequestView::StorerGet { .. } => Call::StorerGet,
            RequestView::StorerCreate { .. } => Call::StorerCreate,
        }
    }
}

/// How many of `calls` are of the kind `kind`.
pub open spec fn count(calls: Seq<RequestView>, kind: Call) -> nat
    decreases calls.len(),
{
    if calls.len() == 0 {
        0
    } else {
        let last: nat = if calls.last().kind() == kind {
            1
        } else {
            0
        };
        count(calls.drop_last(), kind) + last
    }
}

/// What the cache and the backing store answer to each kind of call in the
/// course of one operation.
pub struct Answers {
    pub exists: Result<bool, CacheError>,
    pub expire: Result<bool, CacheError>,
    pub cached: Result<DataView, CacheError>,
    pub set: Result<(), CacheError>,
    pub stored: Result<DataView, DataStorerError>,
    pub created: Result<bool, DataStorerError>,
}

impl Answers {
    /// These answers with `response` in the place of the answer to its kind
    /// of call.
    pub open spec fn noting(self, response: ResponseView) -> Answers {
        match response {
            ResponseView::CacheExists(r) => Answers { exists: r, ..self },
            ResponseView::CacheExpire(r) => Answers { expire: r, ..self },
            ResponseView::CacheGet(r) => Answers { cached: r, ..self },
            ResponseView::CacheSet(r) => Answers { set: r, ..self },
            ResponseView::StorerGet(r) => Answers { stored: r, ..self },
            ResponseView::StorerCreate(r) => Answers { created: r, ..self },
        }
    }

    /// The answer to `request`.
    pub open spec fn to(self, request: RequestView) -> ResponseView {
        match request {
            RequestView::CacheExists { .. } => ResponseView::CacheExists(self.exists),
            RequestView::CacheExpire { .. } => ResponseView::CacheExpire(self.expire),
            RequestView::CacheGet { .. } => ResponseView::CacheGet(self.cached),
            RequestView::CacheSet { .. } => ResponseView::CacheSet(self.set),
            RequestView::StorerGet { .. } => ResponseView::StorerGet(self.stored),
            RequestView::StorerCreate { .. } => ResponseView::StorerCreate(self.created),
        }
    }
}

/// The course of an operation: the calls made, in order, and the outcome,
/// where the operation came to its end.
pub struct Exchange<T> {
    pub calls: Seq<RequestView>,
    pub outcome: Option<Result<T, DataStorerError>>,
}

/// The course of the read `op` when it is run for at most `steps` calls and
/// each call is answered as `answers` says.
pub open spec fn get_exchange(op: GetOperationView, answers: Answers, steps: nat) -> Exchange<
    DataView,
>
    decreases steps,
{
    if steps == 0 {
        Exchange { calls: Seq::empty(), outcome: None }
    } else {
        match op.next(answers.to(op.request())) {
            GetStepView::Done(r) => Exchange { calls: seq![op.request()], outcome: Some(r) },
            GetStepView::Continue(then) => {
                let rest = get_exchange(then, answers, (steps - 1) as nat);
                Exchange { calls: seq![op.request()] + rest.calls, outcome: rest.outcome }
            },
        }
    }
}

/// The course of the write `op` when it is run for at most `steps` calls and
/// each call is answered as `answers` says.
pub open spec fn create_exchange(op: CreateOperationView, answers: Answers, steps: nat) -> Exchange<
    bool,
>
    decreases steps,
{
    if steps == 0 {
        Exchange { calls: Seq::empty(), outcome: None }
    } else {
        match op.next(answers.to(op.request())) {
            CreateStepView::Done(r) => Exchange { calls: seq![op.request()], outcome: Some(r) },
            CreateStepView::Continue(then) => {
                let rest = create_exchange(then, answers, (steps - 1) as nat);
                Exchange { calls: seq![op.request()] + rest.calls, outcome: rest.outcome }
            },
        }
    }
}

/// The calls of a read of `path`, in order: the cache is asked for the path;
/// where it has it, the entry is refreshed and then read; where it has not,
/// the backing store is read and what it returns is written to the cache. A
/// failed call is the last one.
pub open spec fn get_calls(path: Seq<char>, seconds: usize, answers: Answers) -> Seq<RequestView> {
    let exists = RequestView::CacheExists { key: path };
    match answers.exists {
        Err(_) => seq![exists],
        Ok(true) => {
            let expire = RequestView::CacheExpire { key: path, seconds };
            match answers.expire {
                Err(_) => seq![exists, expire],
                Ok(_) => seq![exists, expire, RequestView::CacheGet { key: path }],
            }
        },
        Ok(false) => {
            let read = RequestView::StorerGet { path };
            match answers.stored {
                Err(_) => seq![exists, read],
                Ok(d) => seq![exists, read, RequestView::CacheSet { key: path, value: d, seconds }],
            }
        },
    }
}

/// The outcome of a read: the cached data on a hit, the stored data on a
/// miss, or the first failure, tagged with the side on which it arose.
pub open spec fn get_outcome(answers: Answers) -> Result<DataView, DataStorerError> {
    match answers.exists {
        Err(e) => Err(cache_failure(e)),
        Ok(true) => match answers.expire {
            Err(e) => Err(cache_failure(e)),
            Ok(_) => match answers.cached {
                Err(e) => Err(cache_failure(e)),
                Ok(d) => Ok(d),
            },
        },
        Ok(false) => match answers.stored {
            Err(e) => Err(e),
            Ok(d) => match answers.set {
                Err(e) => Err(cache_failure(e)),
                Ok(_) => Ok(d),
            },
        },
    }
}

/// The calls of a write of `data`, in order: the backing store is written,
/// and where that succeeds the same data is written to the cache under its
/// own path.
pub open spec fn create_calls(data: DataView, seconds: usize, answers: Answers) -> Seq<
    RequestView,
> {
    let store = RequestView::StorerCreate { data };
    match answers.created {
        Err(_) => seq![store],
        Ok(_) => seq![store, RequestView::CacheSet { key: data.path, value: data, seconds }],
    }
}

/// The outcome of a write: `true`, or the first failure, tagged with the side
/// on which it arose.
pub open spec fn create_outcome(answers: Answers) -> Result<bool, DataStorerError> {
    match answers.created {
        Err(e) => Err(e),
        Ok(_) => match answers.set {
            Err(e) => Err(cache_failure(e)),
            Ok(_) => Ok(true),
        },
    }
}

/// A read comes to its end within three calls, and its calls and its outcome
/// are those that `get_calls` and `get_outcome` give.
pub proof fn lemma_get_exchange(path: Seq<char>, seconds: usize, answers: Answers, steps: nat)
    requires
        steps >= 3,
    ensures
        get_exchange(GetOperationView::start(path, seconds), answers, steps) == (Exchange {
            calls: get_calls(path, seconds, answers),
            outcome: Some(get_outcome(answers)),
        }),
{
    reveal_with_fuel(get_exchange, 4);
    let run = get_exchange(GetOperationView::start(path, seconds), answers, steps);
    assert(run.calls =~= get_calls(path, seconds, answers));
}

/// A write comes to its end within two calls, and its calls and its outcome
/// are those that `create_calls` and `create_outcome` give.
pub proof fn lemma_create_exchange(data: DataView, seconds: usize, answers: Answers, steps: nat)
    requires
        steps >= 2,
    ensures
        create_exchange(CreateOperationView::start(data, seconds), answers, steps) == (Exchange {
            calls: create_calls(data, seconds, answers),
            outcome: Some(create_outcome(answers)),
        }),
{
    reveal_with_fuel(create_exchange, 3);
    let run = create_exchange(CreateOperationView::start(data, seconds), answers, steps);
    assert(run.calls =~= create_calls(data, seconds, answers));
}

/// Counting in a sequence of up to three calls, call by call.
proof fn lemma_count_short(calls: Seq<RequestView>, kind: Call)
    requires
        calls.len() <= 3,
    ensures
        count(calls, kind) == (if calls.len() > 0 && calls[0].kind() == kind {
            1nat
        } else {
            0nat
        }) + (if calls.len() > 1 && calls[1].kind() == kind {
            1nat
        } else {
            0nat
        }) + (if calls.len() > 2 && calls[2].kind() == kind {
            1nat
        } else {
            0nat
        }),
{
    reveal_with_fuel(count, 4);
    if calls.len() >= 1 {
        let a = calls.drop_last();
        if a.len() >= 1 {
            let b = a.drop_last();
            if b.len() >= 1 {
                assert(b.drop_last().len() == 0);
            }
        }
    }
}

/// A read that finds its path in the cache refreshes the entry exactly once,
/// with the cache's default time, and never calls the backing store; nor
/// does it write to the cache.
pub proof fn lemma_hit_refreshes_once_and_spares_the_store(
    path: Seq<char>,
    seconds: usize,
    answers: Answers,
    steps: nat,
)
    requires
        steps >= 3,
        answers.exists == Ok::<bool, CacheError>(true),
    ensures
        ({
            let calls = get_exchange(GetOperationView::start(path, seconds), answers, steps).calls;
            &&& count(calls, Call::CacheExpire) == 1
            &&& calls[1] == (RequestView::CacheExpire { key: path, seconds })
            &&& count(calls, Call::StorerGet) == 0
            &&& count(calls, Call::StorerCreate) == 0
            &&& count(calls, Call::CacheSet) == 0
        }),
{
    lemma_get_exchange(path, seconds, answers, steps);
    let calls = get_calls(path, seconds, answers);
    lemma_count_short(calls, Call::CacheExpire);
    lemma_count_short(calls, Call::StorerGet);
    lemma_count_short(calls, Call::StorerCreate);
    lemma_count_short(calls, Call::CacheSet);
}

/// A read that does not find its path in the cache calls the backing store
/// exactly once, and neither refreshes nor reads the cache. Where the store
/// returns data, the read writes to the cache exactly once: that data, under
/// the path asked for. Where the store fails, the cache is not written.
pub proof fn lemma_miss_reads_the_store_once_and_fills_the_cache(
    path: Seq<char>,
    seconds: usize,
    answers: Answers,
    steps: nat,
)
    requires
        steps >= 3,
        answers.exists == Ok::<bool, CacheError>(false),
    ensures
        ({
            let calls = get_exchange(GetOperationView::start(path, seconds), answers, steps).calls;
            &&& count(calls, Call::StorerGet) == 1
            &&& calls[1] == (RequestView::StorerGet { path })
            &&& count(calls, Call::CacheExpire) == 0
            &&& count(calls, Call::CacheGet) == 0
            &&& answers.stored is Err ==> count(calls, Call::CacheSet) == 0
            &&& answers.stored matches Ok(d) ==> {
                &&& count(calls, Call::CacheSet) == 1
                &&& calls[2] == (RequestView::CacheSet { key: path, value: d, seconds })
            }
        }),
{
    lemma_get_exchange(path, seconds, answers, steps);
    let calls = get_calls(path, seconds, answers);
    lemma_count_short(calls, Call::StorerGet);
    lemma_count_short(calls, Call::CacheExpire);
    lemma_count_short(calls, Call::CacheGet);
    lemma_count_short(calls, Call::CacheSet);
}

/// A write calls the backing store first. Where the store fails, the cache
/// is not written at all. Where it succeeds, the cache is written exactly
/// once, after the store: the same data, under its own path.
pub proof fn lemma_create_stores_before_it_caches(
    data: DataView,
    seconds: usize,
    answers: Answers,
    steps: nat,
)
    requires
        steps >= 2,
    ensures
        ({
            let calls = create_exchange(
                CreateOperationView::start(data, seconds),
                answers,
                steps,
            ).calls;
            &&& calls[0] == (RequestView::StorerCreate { data })
            &&& count(calls, Call::StorerCreate) == 1
            &&& answers.created is Err ==> count(calls, Call::CacheSet) == 0
            &&& answers.created is Ok ==> {
                &&& count(calls, Call::CacheSet) == 1
                &&& calls[1] == (RequestView::CacheSet { key: data.path, value: data, seconds })
            }
        }),
{
    lemma_create_exchange(data, seconds, answers, steps);
    let calls = create_calls(data, seconds, answers);
    lemma_count_short(calls, Call::StorerCreate);
    lemma_count_short(calls, Call::CacheSet);
}

/// A read after a write looks where the write has put the data: the write
/// caches the data under its own path, and a read of that path that finds it
/// in the cache reads the entry under that very key. So a cache that returns
/// what was written under a key returns the written data, and the read hands
/// it on as it is.
pub proof fn lemma_read_after_write_finds_the_entry(
    data: DataView,
    seconds: usize,
    writing: Answers,
    reading: Answers,
    steps: nat,
)
    requires
        steps >= 3,
        writing.created is Ok,
        writing.set is Ok,
        reading.exists == Ok::<bool, CacheError>(true),
        reading.expire is Ok,
        reading.cached == Ok::<DataView, CacheError>(data),
    ensures
        ({
            let write = create_exchange(CreateOperationView::start(data, seconds), writing, steps);
            let read = get_exchange(GetOperationView::start(data.path, seconds), reading, steps);
            &&& write.outcome == Some(Ok::<bool, DataStorerError>(true))
            &&& write.calls[1] == (RequestView::CacheSet { key: data.path, value: data, seconds })
            &&& read.calls[2] == (RequestView::CacheGet { key: data.path })
            &&& read.outcome == Some(Ok::<DataView, DataStorerError>(data))
        }),
{
    lemma_create_exchange(data, seconds, writing, steps);
    lemma_get_exchange(data.path, seconds, reading, steps);
}

} // verus!
