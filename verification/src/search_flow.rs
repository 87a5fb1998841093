//! A search from query to results, as a state machine: each step takes what
//! the last look-up answered and says which look-up comes next, or how the
//! search ends.

use crate::episodes::{extract_pid, PID_PATTERN};
use crate::pattern::{group, regex_captures};
use crate::programmes::{stamp_series, stamped, SeriesInfo};
use crate::search::{results_view, SearchResult, SearchResultView};
use vstd::prelude::*;

verus! {

/// Seconds after which the listing of the episodes of a series is given up.
pub const EPISODES_TIMEOUT_SECONDS: u64 = 90;

/// What a look-up answered: results, or the message of its failure.
pub type Answer = Result<Vec<SearchResult>, String>;

pub type AnswerView = Result<Seq<SearchResultView>, Seq<char>>;

pub open spec fn answer_view(a: Answer) -> AnswerView {
    match a {
        Ok(results) => Ok(results_view(results@)),
        Err(message) => Err(message@),
    }
}

/// Which answer a search waits for.
#[derive(Clone, Debug)]
pub enum SearchState {
    /// Nothing asked yet.
    Idle,
    /// The programme page of the id in the query.
    AwaitProgramme { pid: String },
    /// The program's cache, for the id in the query.
    AwaitCachedProgramme { pid: String },
    /// The episodes and the label of the series with the id in the query.
    AwaitEpisodes { pid: String },
    /// The search page.
    AwaitWeb,
    /// The program's cache, for the text of the query.
    AwaitCache,
    /// The search has ended.
    Done,
}

/// What the caller hands to a search.
#[derive(Debug)]
pub enum SearchInput {
    /// The query.
    Query(String),
    /// The answer to [`SearchAction::LookupProgramme`].
    Programme(Answer),
    /// The answer to [`SearchAction::LookupCachedProgramme`].
    CachedProgramme(Answer),
    /// The answer to [`SearchAction::ListEpisodes`]: the listing, unless
    /// it ran out of time, and what is known of the series.
    Episodes { listing: Option<Answer>, series: SeriesInfo },
    /// The answer to [`SearchAction::SearchWeb`].
    Web(Answer),
    /// The answer to [`SearchAction::SearchCache`].
    Cache(Answer),
}

/// What the caller does next.
#[derive(Debug)]
pub enum SearchAction {
    /// Fetch the programme page of `pid`.
    LookupProgramme { pid: String },
    /// Ask the program's cache for `pid`.
    LookupCachedProgramme { pid: String },
    /// List the episodes of series `pid`, for at most
    /// [`EPISODES_TIMEOUT_SECONDS`], and fetch its label meanwhile.
    ListEpisodes { pid: String },
    /// Fetch the search page for the query.
    SearchWeb,
    /// Ask the program's cache for the query.
    SearchCache,
    /// Hand this back to whoever asked.
    Finish(Answer),
    /// Nothing: the input was not the one that the search waited for.
    Ignore,
}

pub enum SearchStateView {
    Idle,
    AwaitProgramme { pid: Seq<char> },
    AwaitCachedProgramme { pid: Seq<char> },
    AwaitEpisodes { pid: Seq<char> },
    AwaitWeb,
    AwaitCache,
    Done,
}

pub enum SearchInputView {
    Query(Seq<char>),
    Programme(AnswerView),
    CachedProgramme(AnswerView),
    Episodes { listing: Option<AnswerView>, series: (Option<Seq<char>>, Option<Seq<char>>) },
    Web(AnswerView),
    Cache(AnswerView),
}

pub enum SearchActionView {
    LookupProgramme { pid: Seq<char> },
    LookupCachedProgramme { pid: Seq<char> },
    ListEpisodes { pid: Seq<char> },
    SearchWeb,
    SearchCache,
    Finish(AnswerView),
    Ignore,
}

impl View for SearchState {
    type V = SearchStateView;

    open spec fn view(&self) -> SearchStateView {
        match *self {
            SearchState::Idle => SearchStateView::Idle,
            SearchState::AwaitProgramme { pid } => SearchStateView::AwaitProgramme { pid: pid@ },
            SearchState::AwaitCachedProgramme { pid } => SearchStateView::AwaitCachedProgramme {
                pid: pid@,
            },
            SearchState::AwaitEpisodes { pid } => SearchStateView::AwaitEpisodes { pid: pid@ },
            SearchState::AwaitWeb => SearchStateView::AwaitWeb,
            SearchState::AwaitCache => SearchStateView::AwaitCache,
            SearchState::Done => SearchStateView::Done,
        }
    }
}

impl View for SearchInput {
    type V = SearchInputView;

    open spec fn view(&self) -> SearchInputView {
        match *self {
            SearchInput::Query(q) => SearchInputView::Query(q@),
            SearchInput::Programme(a) => SearchInputView::Programme(answer_view(a)),
            SearchInput::CachedProgramme(a) => SearchInputView::CachedProgramme(answer_view(a)),
            SearchInput::Episodes { listing, series } => SearchInputView::Episodes {
                listing: match listing {
                    Some(a) => Some(answer_view(a)),
                    None => None,
                },
                series: series.view(),
            },
            SearchInput::Web(a) => SearchInputView::Web(answer_view(a)),
            SearchInput::Cache(a) => SearchInputView::Cache(answer_view(a)),
        }
    }
}

impl View for SearchAction {
    type V = SearchActionView;

    open spec fn view(&self) -> SearchActionView {
        match *self {
            SearchAction::LookupProgramme { pid } => SearchActionView::LookupProgramme {
                pid: pid@,
            },
            SearchAction::LookupCachedProgramme { pid } => SearchActionView::LookupCachedProgramme {
                pid: pid@,
            },
            SearchAction::ListEpisodes { pid } => SearchActionView::ListEpisodes { pid: pid@ },
            SearchAction::SearchWeb => SearchActionView::SearchWeb,
            SearchAction::SearchCache => SearchActionView::SearchCache,
            SearchAction::Finish(a) => SearchActionView::Finish(answer_view(a)),
            SearchAction::Ignore => SearchActionView::Ignore,
        }
    }
}

/// Whether an answer holds at least one result.
pub open spec fn has_results(a: AnswerView) -> bool {
    a matches Ok(results) && results.len() > 0
}

/// The episodes of a listing with the series filled in; a listing that ran
/// out of time counts as empty, one that failed ends the search with its
/// failure.
pub open spec fn episodes_answer(
    listing: Option<AnswerView>,
    series: (Option<Seq<char>>, Option<Seq<char>>),
) -> AnswerView {
    match listing {
        None => Ok(Seq::empty()),
        Some(Err(e)) => Err(e),
        Some(Ok(episodes)) => Ok(episodes.map_values(|e: SearchResultView| stamped(e, series))),
    }
}

/// The transition function of a search.
///
/// A query that is or contains a programme id is looked up on the
/// programme page; where that page has no result the episodes of the series
/// are listed, and where it fails the program's cache is asked first. Any
/// other query goes to the search page, and to the program's cache where
/// the page fails or finds nothing.
pub open spec fn search_step_spec(state: SearchStateView, input: SearchInputView) -> (
    SearchStateView,
    SearchActionView,
) {
    match (state, input) {
        (SearchStateView::Idle, SearchInputView::Query(q)) => match group(
            regex_captures(PID_PATTERN@, q),
            1,
        ) {
            Some(pid) => (
                SearchStateView::AwaitProgramme { pid },
                SearchActionView::LookupProgramme { pid },
            ),
            None => (SearchStateView::AwaitWeb, SearchActionView::SearchWeb),
        },
        (SearchStateView::AwaitProgramme { pid }, SearchInputView::Programme(a)) => match a {
            Ok(results) => if results.len() > 0 {
                (SearchStateView::Done, SearchActionView::Finish(a))
            } else {
                (
                    SearchStateView::AwaitEpisodes { pid },
                    SearchActionView::ListEpisodes { pid },
                )
            },
            Err(_) => (
                SearchStateView::AwaitCachedProgramme { pid },
                SearchActionView::LookupCachedProgramme { pid },
            ),
        },
        (SearchStateView::AwaitCachedProgramme { pid }, SearchInputView::CachedProgramme(a)) => {
            match a {
                Ok(results) => if results.len() > 0 {
                    (SearchStateView::Done, SearchActionView::Finish(a))
                } else {
                    (
                        SearchStateView::AwaitEpisodes { pid },
                        SearchActionView::ListEpisodes { pid },
                    )
                },
                Err(_) => (SearchStateView::Done, SearchActionView::Finish(a)),
            }
        },
        (
            SearchStateView::AwaitEpisodes { pid },
            SearchInputView::Episodes { listing, series },
        ) => (SearchStateView::Done, SearchActionView::Finish(episodes_answer(listing, series))),
        (SearchStateView::AwaitWeb, SearchInputView::Web(a)) => if has_results(a) {
            (SearchStateView::Done, SearchActionView::Finish(a))
        } else {
            (SearchStateView::AwaitCache, SearchActionView::SearchCache)
        },
        (SearchStateView::AwaitCache, SearchInputView::Cache(a)) => (
            SearchStateView::Done,
            SearchActionView::Finish(a),
        ),
        _ => (state, SearchActionView::Ignore),
    }
}

/// Takes one input and returns the next state and what to do.
pub fn search_step(state: SearchState, input: SearchInput) -> (r: (SearchState, SearchAction))
    ensures
        (r.0@, r.1@) == search_step_spec(state@, input@),
{
    match (state, input) {
        (SearchState::Idle, SearchInput::Query(q)) => match extract_pid(q.as_str()) {
            Some(pid) => (
                SearchState::AwaitProgramme { pid: pid.clone() },
                SearchAction::LookupProgramme { pid },
            ),
            None => (SearchState::AwaitWeb, SearchAction::SearchWeb),
        },
        (SearchState::AwaitProgramme { pid }, SearchInput::Programme(a)) => match a {
            Ok(results) => if results.len() > 0 {
                (SearchState::Done, SearchAction::Finish(Ok(results)))
            } else {
                (
                    SearchState::AwaitEpisodes { pid: pid.clone() },
                    SearchAction::ListEpisodes { pid },
                )
            },
            Err(_) => (
                SearchState::AwaitCachedProgramme { pid: pid.clone() },
                SearchAction::LookupCachedProgramme { pid },
            ),
        },
        (SearchState::AwaitCachedProgramme { pid }, SearchInput::CachedProgramme(a)) => match a {
            Ok(results) => if results.len() > 0 {
                (SearchState::Done, SearchAction::Finish(Ok(results)))
            } else {
                (
                    SearchState::AwaitEpisodes { pid: pid.clone() },
                    SearchAction::ListEpisodes { pid },
                )
            },
            Err(e) => (SearchState::Done, SearchAction::Finish(Err(e))),
        },
        (SearchState::AwaitEpisodes { pid }, SearchInput::Episodes { listing, series }) => {
            let answer: Answer = match listing {
                None => {
                    let none: Vec<SearchResult> = Vec::new();
                    assert(results_view(none@) =~= Seq::empty());
                    Ok(none)
                },
                Some(Err(e)) => Err(e),
                Some(Ok(mut episodes)) => {
                    let ghost before = results_view(episodes@);
                    stamp_series(&mut episodes, &series);
                    assert(results_view(episodes@) =~= before.map_values(
                        |e: SearchResultView| stamped(e, series.view()),
                    ));
                    Ok(episodes)
                },
            };
            (SearchState::Done, SearchAction::Finish(answer))
        },
        (SearchState::AwaitWeb, SearchInput::Web(a)) => {
            let found = match &a {
                Ok(results) => results.len() > 0,
                Err(_) => false,
            };
            if found {
                (SearchState::Done, SearchAction::Finish(a))
            } else {
                (SearchState::AwaitCache, SearchAction::SearchCache)
            }
        },
        (SearchState::AwaitCache, SearchInput::Cache(a)) => (
            SearchState::Done,
            SearchAction::Finish(a),
        ),
        (state, _) => (state, SearchAction::Ignore),
    }
}

/// A search ends with every answer of the cache look-ups and of the listing,
/// and asks for no look-up twice: from any state at most four steps lead to
/// the end.
pub proof fn lemma_search_ends(state: SearchStateView, input: SearchInputView)
    ensures
        ({
            let (next, action) = search_step_spec(state, input);
            &&& action is Finish <==> next is Done && !(state is Done)
            &&& action is Ignore ==> next == state
            &&& rank(next) < rank(state) || action is Ignore
        }),
{
}

/// How many look-ups a search may still make.
pub open spec fn rank(state: SearchStateView) -> nat {
    match state {
        SearchStateView::Idle => 4,
        SearchStateView::AwaitProgramme { .. } => 3,
        SearchStateView::AwaitCachedProgramme { .. } => 2,
        SearchStateView::AwaitEpisodes { .. } => 1,
        SearchStateView::AwaitWeb => 2,
        SearchStateView::AwaitCache => 1,
        SearchStateView::Done => 0,
    }
}

} // verus!
