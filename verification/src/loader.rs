//! The loader: cached entries if there are any, else one fetch whose result
//! is stored for the next run.
//!
//! The loader reads no file and opens no connection. It is driven:
//! [`Loader::start`] and [`Loader::step`] name the next thing to do as a
//! [`LoadAction`], and the driver answers with a [`LoadEvent`] that says how
//! it went. Each action stands for one call that can fail on its own.

use vstd::prelude::*;
use vstd::string::StringExecFns;
use crate::entry::EmojiContainer;
use crate::entry::EntryView;
use crate::entry::entries_view;
use crate::paths::PathInfo;
use crate::paths::PathInfoView;
use crate::paths::get_paths;
use crate::paths::paths_for;
use crate::status::accepts;
use crate::status::is_success;
use crate::status::refusal;
use crate::status::refusal_text;

verus! {

/// Where the emoji data is fetched from when nothing is cached.
pub const EMOJI_DB_URL: &'static str =
    "https://raw.githubusercontent.com/github/gemoji/master/db/emoji.json";

/// Why loading failed. The text is the one the failed call gave.
#[derive(Debug)]
pub enum LoadError {
    /// The home directory is not known.
    Config(String),
    /// The cache could not be read, created or written.
    CacheIo(String),
    /// The request failed, or its response was refused for its status.
    Fetch(String),
    /// The cache file or the response body is not the expected JSON.
    Decode(String),
    /// An event arrived that does not answer the pending action.
    Unexpected,
}

/// The view of a [`LoadError`].
pub enum LoadErrorView {
    Config(Seq<char>),
    CacheIo(Seq<char>),
    Fetch(Seq<char>),
    Decode(Seq<char>),
    Unexpected,
}

impl View for LoadError {
    type V = LoadErrorView;

    open spec fn view(&self) -> LoadErrorView {
        match self {
            LoadError::Config(message) => LoadErrorView::Config(message@),
            LoadError::CacheIo(message) => LoadErrorView::CacheIo(message@),
            LoadError::Fetch(message) => LoadErrorView::Fetch(message@),
            LoadError::Decode(message) => LoadErrorView::Decode(message@),
            LoadError::Unexpected => LoadErrorView::Unexpected,
        }
    }
}

/// The name of the phase in which an error arose.
pub open spec fn phase_of(error: LoadErrorView) -> Seq<char> {
    match error {
        LoadErrorView::Config(_) => "configuration"@,
        LoadErrorView::CacheIo(_) => "cache I/O"@,
        LoadErrorView::Fetch(_) => "fetch"@,
        LoadErrorView::Decode(_) => "decode"@,
        LoadErrorView::Unexpected => "protocol"@,
    }
}

/// The text that came with an error: empty for `Unexpected`.
pub open spec fn detail_of(error: LoadErrorView) -> Seq<char> {
    match error {
        LoadErrorView::Config(message) => message,
        LoadErrorView::CacheIo(message) => message,
        LoadErrorView::Fetch(message) => message,
        LoadErrorView::Decode(message) => message,
        LoadErrorView::Unexpected => Seq::empty(),
    }
}

impl LoadError {
    /// The name of the phase that failed.
    pub fn phase(&self) -> (name: &'static str)
        ensures
            name@ == phase_of(self@),
    {
        match self {
            LoadError::Config(_) => "configuration",
            LoadError::CacheIo(_) => "cache I/O",
            LoadError::Fetch(_) => "fetch",
            LoadError::Decode(_) => "decode",
            LoadError::Unexpected => "protocol",
        }
    }

    /// The text that the failed call gave.
    pub fn detail(&self) -> (text: &str)
        ensures
            text@ == detail_of(self@),
    {
        match self {
            LoadError::Config(message) => message.as_str(),
            LoadError::CacheIo(message) => message.as_str(),
            LoadError::Fetch(message) => message.as_str(),
            LoadError::Decode(message) => message.as_str(),
            LoadError::Unexpected => {
                proof {
                    reveal_strlit("");
                    assert(""@ =~= Seq::<char>::empty());
                }
                ""
            },
        }
    }
}

/// What the driver reports back.
#[derive(Debug)]
pub enum LoadEvent {
    /// The home directory is this.
    Home(String),
    /// Whether the cache file exists.
    Probed(bool),
    /// The pending action was carried out and has nothing to hand over.
    Completed,
    /// The pending decoding gave these entries.
    Decoded(Vec<EmojiContainer>),
    /// The server answered with this status code.
    Responded(u16),
    /// The pending action failed; the text says why.
    Failed(String),
}

/// The view of a [`LoadEvent`].
pub enum LoadEventView {
    Home(Seq<char>),
    Probed(bool),
    Completed,
    Decoded(Seq<EntryView>),
    Responded(u16),
    Failed(Seq<char>),
}

impl View for LoadEvent {
    type V = LoadEventView;

    open spec fn view(&self) -> LoadEventView {
        match self {
            LoadEvent::Home(home) => LoadEventView::Home(home@),
            LoadEvent::Probed(exists) => LoadEventView::Probed(*exists),
            LoadEvent::Completed => LoadEventView::Completed,
            LoadEvent::Decoded(entries) => LoadEventView::Decoded(entries_view(entries@)),
            LoadEvent::Responded(code) => LoadEventView::Responded(*code),
            LoadEvent::Failed(message) => LoadEventView::Failed(message@),
        }
    }
}

/// What the driver is to do next.
#[derive(Debug)]
pub enum LoadAction {
    /// Look up the home directory.
    ReadHome,
    /// Find out whether this file exists.
    ProbeCache(String),
    /// Open this file for reading.
    OpenCache(String),
    /// Decode the opened file as a list of entries.
    DecodeCache,
    /// Send one GET request to this address.
    Fetch(String),
    /// Decode the body of the response as a list of entries.
    DecodeBody,
    /// Create this directory, and its parents, unless they exist.
    CreateDir(String),
    /// Write [`Loader::pending`] as JSON to this file.
    WriteCache(String),
    /// Loading is over: these are the entries.
    Done(Vec<EmojiContainer>),
    /// Loading is over: it failed.
    Fail(LoadError),
}

/// The view of a [`LoadAction`].
pub enum LoadActionView {
    ReadHome,
    ProbeCache(Seq<char>),
    OpenCache(Seq<char>),
    DecodeCache,
    Fetch(Seq<char>),
    DecodeBody,
    CreateDir(Seq<char>),
    WriteCache(Seq<char>),
    Done(Seq<EntryView>),
    Fail(LoadErrorView),
}

impl View for LoadAction {
    type V = LoadActionView;

    open spec fn view(&self) -> LoadActionView {
        match self {
            LoadAction::ReadHome => LoadActionView::ReadHome,
            LoadAction::ProbeCache(file) => LoadActionView::ProbeCache(file@),
            LoadAction::OpenCache(file) => LoadActionView::OpenCache(file@),
            LoadAction::DecodeCache => LoadActionView::DecodeCache,
            LoadAction::Fetch(url) => LoadActionView::Fetch(url@),
            LoadAction::DecodeBody => LoadActionView::DecodeBody,
            LoadAction::CreateDir(dir) => LoadActionView::CreateDir(dir@),
            LoadAction::WriteCache(file) => LoadActionView::WriteCache(file@),
            LoadAction::Done(entries) => LoadActionView::Done(entries_view(entries@)),
            LoadAction::Fail(error) => LoadActionView::Fail(error@),
        }
    }
}

/// Where the loader stands: what it is waiting for, and what it holds
/// meanwhile.
#[derive(Debug)]
pub enum Loader {
    /// The home directory is being looked up.
    AwaitHome,
    /// The cache file is being looked for.
    AwaitProbe(PathInfo),
    /// The cache file is being opened.
    AwaitOpen,
    /// The cache file is being decoded.
    AwaitCache,
    /// The request is on its way.
    AwaitResponse(PathInfo),
    /// The response body is being decoded.
    AwaitBody(PathInfo),
    /// The cache directory is being created; these entries were fetched.
    AwaitDir(PathInfo, Vec<EmojiContainer>),
    /// The cache file is being written with these entries.
    AwaitWrite(Vec<EmojiContainer>),
    /// Nothing is pending: the last action was `Done` or `Fail`.
    Finished,
}

/// The view of a [`Loader`].
pub enum LoaderView {
    AwaitHome,
    AwaitProbe(PathInfoView),
    AwaitOpen,
    AwaitCache,
    AwaitResponse(PathInfoView),
    AwaitBody(PathInfoView),
    AwaitDir(PathInfoView, Seq<EntryView>),
    AwaitWrite(Seq<EntryView>),
    Finished,
}

impl View for Loader {
    type V = LoaderView;

    open spec fn view(&self) -> LoaderView {
        match self {
            Loader::AwaitHome => LoaderView::AwaitHome,
            Loader::AwaitProbe(paths) => LoaderView::AwaitProbe(paths@),
            Loader::AwaitOpen => LoaderView::AwaitOpen,
            Loader::AwaitCache => LoaderView::AwaitCache,
            Loader::AwaitResponse(paths) => LoaderView::AwaitResponse(paths@),
            Loader::AwaitBody(paths) => LoaderView::AwaitBody(paths@),
            Loader::AwaitDir(paths, entries) => LoaderView::AwaitDir(
                paths@,
                entries_view(entries@),
            ),
            Loader::AwaitWrite(entries) => LoaderView::AwaitWrite(entries_view(entries@)),
            Loader::Finished => LoaderView::Finished,
        }
    }
}

/// Ending with `error`.
pub open spec fn failed(error: LoadErrorView) -> (LoaderView, LoadActionView) {
    (LoaderView::Finished, LoadActionView::Fail(error))
}

/// The loader's rule: from where it stands and what happened, where it
/// stands next and what is to be done.
///
/// With a cache file there, the file is opened and decoded and its entries
/// are the result; nothing is fetched, whether or not the file decodes.
/// Without one, a single request goes to [`EMOJI_DB_URL`]; a response in the
/// success class is decoded, the cache directory is created, the entries are
/// written to the cache file, and they are the result. The first failure
/// ends the run, and an event that does not answer the pending action ends
/// it with [`LoadError::Unexpected`].
pub open spec fn next(state: LoaderView, event: LoadEventView) -> (LoaderView, LoadActionView) {
    match (state, event) {
        (LoaderView::AwaitHome, LoadEventView::Home(home)) => (
            LoaderView::AwaitProbe(paths_for(home)),
            LoadActionView::ProbeCache(paths_for(home).file),
        ),
        (LoaderView::AwaitHome, LoadEventView::Failed(message)) => failed(
            LoadErrorView::Config(message),
        ),
        (LoaderView::AwaitProbe(paths), LoadEventView::Probed(exists)) => if exists {
            (LoaderView::AwaitOpen, LoadActionView::OpenCache(paths.file))
        } else {
            (LoaderView::AwaitResponse(paths), LoadActionView::Fetch(EMOJI_DB_URL@))
        },
        (LoaderView::AwaitOpen, LoadEventView::Completed) => (
            LoaderView::AwaitCache,
            LoadActionView::DecodeCache,
        ),
        (LoaderView::AwaitOpen, LoadEventView::Failed(message)) => failed(
            LoadErrorView::CacheIo(message),
        ),
        (LoaderView::AwaitCache, LoadEventView::Decoded(entries)) => (
            LoaderView::Finished,
            LoadActionView::Done(entries),
        ),
        (LoaderView::AwaitCache, LoadEventView::Failed(message)) => failed(
            LoadErrorView::Decode(message),
        ),
        (LoaderView::AwaitResponse(paths), LoadEventView::Responded(code)) => if is_success(code) {
            (LoaderView::AwaitBody(paths), LoadActionView::DecodeBody)
        } else {
            failed(LoadErrorView::Fetch(refusal_text(code)))
        },
        (LoaderView::AwaitResponse(paths), LoadEventView::Failed(message)) => failed(
            LoadErrorView::Fetch(message),
        ),
        (LoaderView::AwaitBody(paths), LoadEventView::Decoded(entries)) => (
            LoaderView::AwaitDir(paths, entries),
            LoadActionView::CreateDir(paths.dir),
        ),
        (LoaderView::AwaitBody(paths), LoadEventView::Failed(message)) => failed(
            LoadErrorView::Decode(message),
        ),
        (LoaderView::AwaitDir(paths, entries), LoadEventView::Completed) => (
            LoaderView::AwaitWrite(entries),
            LoadActionView::WriteCache(paths.file),
        ),
        (LoaderView::AwaitDir(paths, entries), LoadEventView::Failed(message)) => failed(
            LoadErrorView::CacheIo(message),
        ),
        (LoaderView::AwaitWrite(entries), LoadEventView::Completed) => (
            LoaderView::Finished,
            LoadActionView::Done(entries),
        ),
        (LoaderView::AwaitWrite(entries), LoadEventView::Failed(message)) => failed(
            LoadErrorView::CacheIo(message),
        ),
        _ => failed(LoadErrorView::Unexpected),
    }
}

/// The entries that a loader in `state` holds for writing: those of
/// `AwaitDir` and `AwaitWrite`.
pub open spec fn pending_of(state: LoaderView) -> Option<Seq<EntryView>> {
    match state {
        LoaderView::AwaitDir(_, entries) => Some(entries),
        LoaderView::AwaitWrite(entries) => Some(entries),
        _ => None,
    }
}

impl Loader {
    /// Opens a run: the loader waits for the home directory, and the first
    /// action is to look it up.
    pub fn start() -> (begun: (Loader, LoadAction))
        ensures
            begun.0@ == LoaderView::AwaitHome,
            begun.1@ == LoadActionView::ReadHome,
    {
        (Loader::AwaitHome, LoadAction::ReadHome)
    }

    /// Ends a run with `error`.
    pub fn fail(error: LoadError) -> (then: (Loader, LoadAction))
        ensures
            (then.0@, then.1@) == failed(error@),
    {
        (Loader::Finished, LoadAction::Fail(error))
    }

    /// The entries fetched and not yet stored, while the cache directory is
    /// created and the cache file is written.
    pub fn pending(&self) -> (held: Option<&Vec<EmojiContainer>>)
        ensures
            held is Some <==> pending_of(self@) is Some,
            held matches Some(entries) ==> pending_of(self@) == Some(entries_view(entries@)),
    {
        match self {
            Loader::AwaitDir(_, entries) => Some(entries),
            Loader::AwaitWrite(entries) => Some(entries),
            _ => None,
        }
    }

    /// Takes what happened and says what to do next, by the rule [`next`].
    pub fn step(self, event: LoadEvent) -> (then: (Loader, LoadAction))
        ensures
            (then.0@, then.1@) == next(self@, event@),
    {
        match self {
            Loader::AwaitHome => match event {
                LoadEvent::Home(home) => {
                    let paths = get_paths(home.as_str());
                    let file = String::from_str(paths.file());
                    (Loader::AwaitProbe(paths), LoadAction::ProbeCache(file))
                },
                LoadEvent::Failed(message) => Loader::fail(LoadError::Config(message)),
                _ => Loader::fail(LoadError::Unexpected),
            },
            Loader::AwaitProbe(paths) => match event {
                LoadEvent::Probed(exists) => {
                    if exists {
                        let file = String::from_str(paths.file());
                        (Loader::AwaitOpen, LoadAction::OpenCache(file))
                    } else {
                        let url = String::from_str(EMOJI_DB_URL);
                        (Loader::AwaitResponse(paths), LoadAction::Fetch(url))
                    }
                },
                _ => Loader::fail(LoadError::Unexpected),
            },
            Loader::AwaitOpen => match event {
                LoadEvent::Completed => (Loader::AwaitCache, LoadAction::DecodeCache),
                LoadEvent::Failed(message) => Loader::fail(LoadError::CacheIo(message)),
                _ => Loader::fail(LoadError::Unexpected),
            },
            Loader::AwaitCache => match event {
                LoadEvent::Decoded(entries) => (Loader::Finished, LoadAction::Done(entries)),
                LoadEvent::Failed(message) => Loader::fail(LoadError::Decode(message)),
                _ => Loader::fail(LoadError::Unexpected),
            },
            Loader::AwaitResponse(paths) => match event {
                LoadEvent::Responded(code) => {
                    if accepts(code) {
                        (Loader::AwaitBody(paths), LoadAction::DecodeBody)
                    } else {
                        Loader::fail(LoadError::Fetch(refusal(code)))
                    }
                },
                LoadEvent::Failed(message) => Loader::fail(LoadError::Fetch(message)),
                _ => Loader::fail(LoadError::Unexpected),
            },
            Loader::AwaitBody(paths) => match event {
                LoadEvent::Decoded(entries) => {
                    let dir = String::from_str(paths.dir());
                    (Loader::AwaitDir(paths, entries), LoadAction::CreateDir(dir))
                },
                LoadEvent::Failed(message) => Loader::fail(LoadError::Decode(message)),
                _ => Loader::fail(LoadError::Unexpected),
            },
            Loader::AwaitDir(paths, entries) => match event {
                LoadEvent::Completed => {
                    let file = String::from_str(paths.file());
                    (Loader::AwaitWrite(entries), LoadAction::WriteCache(file))
                },
                LoadEvent::Failed(message) => Loader::fail(LoadError::CacheIo(message)),
                _ => Loader::fail(LoadError::Unexpected),
            },
            Loader::AwaitWrite(entries) => match event {
                LoadEvent::Completed => (Loader::Finished, LoadAction::Done(entries)),
                LoadEvent::Failed(message) => Loader::fail(LoadError::CacheIo(message)),
                _ => Loader::fail(LoadError::Unexpected),
            },
            Loader::Finished => Loader::fail(LoadError::Unexpected),
        }
    }
}

/// The actions that answer `events`, one for each, when the loader stands
/// at `state` and takes them in turn.
pub open spec fn run(state: LoaderView, events: Seq<LoadEventView>) -> Seq<LoadActionView>
    decreases events.len(),
{
    if events.len() == 0 {
        Seq::empty()
    } else {
        let then = next(state, events.first());
        seq![then.1] + run(then.0, events.drop_first())
    }
}

/// Where the loader stands after it took `events` in turn from `state`.
pub open spec fn state_after(state: LoaderView, events: Seq<LoadEventView>) -> LoaderView
    decreases events.len(),
{
    if events.len() == 0 {
        state
    } else {
        state_after(next(state, events.first()).0, events.drop_first())
    }
}

/// How many of `actions` are requests.
pub open spec fn fetches(actions: Seq<LoadActionView>) -> nat
    decreases actions.len(),
{
    if actions.len() == 0 {
        0
    } else if actions.first() is Fetch {
        1 + fetches(actions.drop_first())
    } else {
        fetches(actions.drop_first())
    }
}

/// A run over `first` followed by `rest` answers `first` and then runs over
/// `rest` from where that left the loader.
pub proof fn lemma_run_first(state: LoaderView, first: LoadEventView, rest: Seq<LoadEventView>)
    ensures
        run(state, seq![first] + rest) == seq![next(state, first).1] + run(
            next(state, first).0,
            rest,
        ),
        state_after(state, seq![first] + rest) == state_after(next(state, first).0, rest),
        fetches(run(state, seq![first] + rest)) == fetches(run(next(state, first).0, rest)) + (
        if next(state, first).1 is Fetch {
            1nat
        } else {
            0nat
        }),
{
    let events = seq![first] + rest;
    assert(events.first() == first);
    assert(events.drop_first() =~= rest);
    let actions = run(state, events);
    let tail = run(next(state, first).0, rest);
    assert(actions =~= seq![next(state, first).1] + tail);
    assert(actions.first() == next(state, first).1);
    assert(actions.drop_first() =~= tail);
}

/// The first failure ends the run, wherever the loader stands: nothing is
/// tried again and nothing is tried in its place.
pub proof fn lemma_failure_ends_the_run(state: LoaderView, message: Seq<char>)
    ensures
        next(state, LoadEventView::Failed(message)).0 == LoaderView::Finished,
        next(state, LoadEventView::Failed(message)).1 is Fail,
{
}

/// A loader that has finished stays finished.
pub proof fn lemma_finished_stays_finished(events: Seq<LoadEventView>)
    ensures
        state_after(LoaderView::Finished, events) == LoaderView::Finished,
    decreases events.len(),
{
    if events.len() > 0 {
        lemma_finished_stays_finished(events.drop_first());
    }
}

/// Once the loader is past the probe for the cache file, it sends no
/// request, whatever happens.
pub proof fn lemma_past_probe_never_fetches(state: LoaderView, events: Seq<LoadEventView>)
    requires
        !(state is AwaitHome),
        !(state is AwaitProbe),
    ensures
        fetches(run(state, events)) == 0,
    decreases events.len(),
{
    if events.len() > 0 {
        let first = events.first();
        let rest = events.drop_first();
        assert(events =~= seq![first] + rest);
        lemma_run_first(state, first, rest);
        lemma_past_probe_never_fetches(next(state, first).0, rest);
    }
}

/// No run sends more than one request.
pub proof fn lemma_at_most_one_fetch(state: LoaderView, events: Seq<LoadEventView>)
    ensures
        fetches(run(state, events)) <= 1,
    decreases events.len(),
{
    if events.len() > 0 {
        let first = events.first();
        let rest = events.drop_first();
        assert(events =~= seq![first] + rest);
        lemma_run_first(state, first, rest);
        if next(state, first).1 is Fetch {
            lemma_past_probe_never_fetches(next(state, first).0, rest);
        } else {
            lemma_at_most_one_fetch(next(state, first).0, rest);
        }
    }
}

/// With a cache file that decodes, loading opens it, decodes it and returns
/// exactly its entries.
pub proof fn lemma_cache_hit(home: Seq<char>, entries: Seq<EntryView>)
    ensures
        run(
            LoaderView::AwaitHome,
            seq![
                LoadEventView::Home(home),
                LoadEventView::Probed(true),
                LoadEventView::Completed,
                LoadEventView::Decoded(entries),
            ],
        ) == seq![
            LoadActionView::ProbeCache(paths_for(home).file),
            LoadActionView::OpenCache(paths_for(home).file),
            LoadActionView::DecodeCache,
            LoadActionView::Done(entries),
        ],
{
    reveal_with_fuel(run, 5);
}

/// With a cache file there, no request is sent, whatever follows: not when
/// the file decodes, and not when it does not.
pub proof fn lemma_cache_hit_never_fetches(home: Seq<char>, rest: Seq<LoadEventView>)
    ensures
        fetches(
            run(
                LoaderView::AwaitHome,
                seq![LoadEventView::Home(home), LoadEventView::Probed(true)] + rest,
            ),
        ) == 0,
{
    let e0 = LoadEventView::Home(home);
    let e1 = LoadEventView::Probed(true);
    let s0 = LoaderView::AwaitHome;
    let s1 = next(s0, e0).0;
    let s2 = next(s1, e1).0;
    assert(seq![e0, e1] + rest =~= seq![e0] + (seq![e1] + rest));
    lemma_run_first(s0, e0, seq![e1] + rest);
    lemma_run_first(s1, e1, rest);
    lemma_past_probe_never_fetches(s2, rest);
}

/// A cache file that does not decode fails the load with the decoder's
/// error, and nothing is fetched in its place.
pub proof fn lemma_malformed_cache(home: Seq<char>, message: Seq<char>)
    ensures
        run(
            LoaderView::AwaitHome,
            seq![
                LoadEventView::Home(home),
                LoadEventView::Probed(true),
                LoadEventView::Completed,
                LoadEventView::Failed(message),
            ],
        ) == seq![
            LoadActionView::ProbeCache(paths_for(home).file),
            LoadActionView::OpenCache(paths_for(home).file),
            LoadActionView::DecodeCache,
            LoadActionView::Fail(LoadErrorView::Decode(message)),
        ],
{
    reveal_with_fuel(run, 5);
}

/// Without a cache file, exactly one request is sent, whatever follows, and
/// it goes to [`EMOJI_DB_URL`].
pub proof fn lemma_cache_miss_fetches_once(home: Seq<char>, rest: Seq<LoadEventView>)
    ensures
        fetches(
            run(
                LoaderView::AwaitHome,
                seq![LoadEventView::Home(home), LoadEventView::Probed(false)] + rest,
            ),
        ) == 1,
        run(
            LoaderView::AwaitHome,
            seq![LoadEventView::Home(home), LoadEventView::Probed(false)] + rest,
        )[1] == LoadActionView::Fetch(EMOJI_DB_URL@),
{
    let e0 = LoadEventView::Home(home);
    let e1 = LoadEventView::Probed(false);
    let s0 = LoaderView::AwaitHome;
    let s1 = next(s0, e0).0;
    let s2 = next(s1, e1).0;
    assert(seq![e0, e1] + rest =~= seq![e0] + (seq![e1] + rest));
    lemma_run_first(s0, e0, seq![e1] + rest);
    lemma_run_first(s1, e1, rest);
    lemma_past_probe_never_fetches(s2, rest);
}

/// Without a cache file, a response in the success class whose body decodes
/// is stored and returned: the directory is created, the entries that were
/// decoded are the ones held for writing to the cache file, and they are the
/// result.
pub proof fn lemma_cache_miss(home: Seq<char>, code: u16, entries: Seq<EntryView>)
    requires
        is_success(code),
    ensures
        run(
            LoaderView::AwaitHome,
            seq![
                LoadEventView::Home(home),
                LoadEventView::Probed(false),
                LoadEventView::Responded(code),
                LoadEventView::Decoded(entries),
                LoadEventView::Completed,
                LoadEventView::Completed,
            ],
        ) == seq![
            LoadActionView::ProbeCache(paths_for(home).file),
            LoadActionView::Fetch(EMOJI_DB_URL@),
            LoadActionView::DecodeBody,
            LoadActionView::CreateDir(paths_for(home).dir),
            LoadActionView::WriteCache(paths_for(home).file),
            LoadActionView::Done(entries),
        ],
        pending_of(
            state_after(
                LoaderView::AwaitHome,
                seq![
                    LoadEventView::Home(home),
                    LoadEventView::Probed(false),
                    LoadEventView::Responded(code),
                    LoadEventView::Decoded(entries),
                    LoadEventView::Completed,
                ],
            ),
        ) == Some(entries),
{
    reveal_with_fuel(run, 7);
    reveal_with_fuel(state_after, 6);
}

/// A response outside the success class fails the load; nothing is decoded,
/// created or written.
pub proof fn lemma_refused_status(home: Seq<char>, code: u16)
    requires
        !is_success(code),
    ensures
        run(
            LoaderView::AwaitHome,
            seq![
                LoadEventView::Home(home),
                LoadEventView::Probed(false),
                LoadEventView::Responded(code),
            ],
        ) == seq![
            LoadActionView::ProbeCache(paths_for(home).file),
            LoadActionView::Fetch(EMOJI_DB_URL@),
            LoadActionView::Fail(LoadErrorView::Fetch(refusal_text(code))),
        ],
{
    reveal_with_fuel(run, 4);
}

} // verus!
