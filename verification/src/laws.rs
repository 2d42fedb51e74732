//! What holds of every run of the fetch and of the clearing of the cache,
//! stated over the state machines and proved.

use crate::auth::{StoreErrorView, TokenReplyView, TokenRequestView, NO_ENTRY};
use crate::cache::{cache_file_name, cache_path, cache_verdict, clear_next, clear_pending, ttl_nanoseconds, CacheAge, CacheCheck, CacheProbe, ClearActionView, ClearEventView, ClearStateView, CACHE_DIR, CLEARED};
use crate::day::{DayView, FetchView};
use crate::flow::{initial, is_success, next, pending, ActionView, EventView};
use crate::json::{json_parse, member_of, JsonModel, JsonNumber};
use crate::request::request_for;
use crate::response::{body_outcome, count_of, days_of, document_outcome, flatten, week_days, weeks_of};
use crate::store::{after, answer};
use vstd::prelude::*;

verus! {

/// A day of a week is found in the flattened list, after all days of the
/// weeks before it and at its own place among the days of its week: no day is
/// dropped and the order of the document is kept.
pub proof fn flatten_keeps_every_day(weeks: Seq<JsonModel>, w: int, d: int)
    requires
        0 <= w < weeks.len(),
        0 <= d < week_days(weeks[w]).len(),
    ensures
        flatten(weeks.take(w)).len() + d < flatten(weeks).len(),
        flatten(weeks)[flatten(weeks.take(w)).len() + d] == week_days(weeks[w])[d],
    decreases weeks.len(),
{
    let front = weeks.drop_last();
    if w == weeks.len() - 1 {
        assert(weeks.take(w) =~= front);
    } else {
        flatten_keeps_every_day(front, w, d);
        assert(front.take(w) =~= weeks.take(w));
    }
}

/// Every entry of `contributionDays` gives a day, and an entry without a
/// `contributionCount` gives a day with the count 0.
pub proof fn entry_without_count_gives_zero(entries: Seq<JsonModel>, i: int)
    requires
        0 <= i < entries.len(),
        member_of(entries[i], "contributionCount"@) is None,
    ensures
        days_of(entries).len() == entries.len(),
        days_of(entries)[i].count == 0,
{
}

/// A count from 0 to `i32::MAX` is returned as it is; an integer outside that
/// range reads as 0. No day has a negative count.
pub proof fn count_is_kept_or_zero(entry: JsonModel, k: int)
    requires
        member_of(entry, "contributionCount"@) == Some(JsonModel::Number(JsonNumber::Integer(k))),
    ensures
        0 <= k <= i32::MAX ==> count_of(entry) == k,
        !(0 <= k <= i32::MAX) ==> count_of(entry) == 0,
{
}

/// Two users never share a cache file: the name of the file tells the
/// username.
pub proof fn users_have_their_own_files(first: Seq<char>, second: Seq<char>)
    requires
        first != second,
    ensures
        cache_file_name(first) != cache_file_name(second),
        cache_path(first) != cache_path(second),
{
    let suffix = "_contributions.json"@;
    if cache_file_name(first) == cache_file_name(second) {
        assert((first + suffix).len() == first.len() + suffix.len());
        assert((second + suffix).len() == second.len() + suffix.len());
        assert(first =~= (first + suffix).subrange(0, first.len() as int));
        assert(second =~= (second + suffix).subrange(0, second.len() as int));
    }
}

/// A run that finds no cache file sends the request for the user, reads the
/// body of a successful answer, hands the flattened weeks of the document to
/// the cache file of that user, and finishes with the same days. The days are
/// at least as many as those of any one week.
pub proof fn cold_run_fetches_and_stores(
    username: Seq<char>,
    token: Option<Seq<char>>,
    code: u16,
    text: Seq<char>,
    body: Seq<u8>,
    doc: JsonModel,
    weeks: Seq<JsonModel>,
)
    requires
        is_success(code),
        json_parse(body) == Ok::<JsonModel, Seq<char>>(doc),
        member_of(doc, "errors"@) is None,
        weeks_of(doc) == Some(weeks),
    ensures
        ({
            let s0 = initial(username, token);
            let s1 = next(s0, EventView::Probed(CacheProbe::Missing));
            let s2 = next(s1, EventView::Status { code, text });
            let s3 = next(s2, EventView::Body(Ok(body)));
            let s4 = next(s3, EventView::Stored);
            &&& pending(s0) == ActionView::ProbeCache(cache_path(username))
            &&& pending(s1) == ActionView::Send(request_for(username, token))
            &&& pending(s2) == ActionView::ReadBody
            &&& pending(s3) == (ActionView::StoreCache {
                path: cache_path(username),
                days: flatten(weeks),
            })
            &&& pending(s4) == ActionView::Finish(FetchView::Success(flatten(weeks)))
        }),
        forall|w: int| 0 <= w < weeks.len() ==> week_days(#[trigger] weeks[w]).len() <= flatten(weeks).len(),
{
    assert forall|w: int| 0 <= w < weeks.len() implies week_days(#[trigger] weeks[w]).len()
        <= flatten(weeks).len() by {
        if week_days(weeks[w]).len() > 0 {
            flatten_keeps_every_day(weeks, w, week_days(weeks[w]).len() - 1);
        }
    }
}

/// A cache file that is no older than the time to live, or whose age cannot
/// be told, is read, and the days it holds are the result. No request is sent
/// on the way.
pub proof fn fresh_cache_is_served(
    username: Seq<char>,
    token: Option<Seq<char>>,
    age: Option<CacheAge>,
    days: Seq<DayView>,
)
    requires
        age matches Some(elapsed) ==> elapsed.nanoseconds() <= ttl_nanoseconds(),
    ensures
        ({
            let s0 = initial(username, token);
            let s1 = next(s0, EventView::Probed(CacheProbe::Found { age }));
            let s2 = next(s1, EventView::Loaded(Some(days)));
            &&& pending(s0) == ActionView::ProbeCache(cache_path(username))
            &&& pending(s1) == ActionView::LoadCache(cache_path(username))
            &&& pending(s2) == ActionView::Finish(FetchView::Success(days))
            &&& !(pending(s0) is Send) && !(pending(s1) is Send) && !(pending(s2) is Send)
        }),
{
}

/// A cache file older than the time to live, by however little, is not read:
/// the request is sent, the result is decided by the answer alone, and the
/// days of a successful answer replace the file. What the file holds is never
/// returned: a report of its content is ignored.
pub proof fn stale_cache_is_refetched(
    username: Seq<char>,
    token: Option<Seq<char>>,
    age: CacheAge,
    code: u16,
    text: Seq<char>,
    body: Seq<u8>,
    days: Seq<DayView>,
    cached: Option<Seq<DayView>>,
)
    requires
        age.nanoseconds() > ttl_nanoseconds(),
        is_success(code),
        body_outcome(json_parse(body)) == Ok::<Seq<DayView>, Seq<char>>(days),
    ensures
        ({
            let s0 = initial(username, token);
            let s1 = next(s0, EventView::Probed(CacheProbe::Found { age: Some(age) }));
            let s2 = next(s1, EventView::Status { code, text });
            let s3 = next(s2, EventView::Body(Ok(body)));
            let s4 = next(s3, EventView::Stored);
            &&& pending(s1) == ActionView::Send(request_for(username, token))
            &&& next(s1, EventView::Loaded(cached)) == s1
            &&& pending(s3) == (ActionView::StoreCache { path: cache_path(username), days })
            &&& pending(s4) == ActionView::Finish(FetchView::Success(days))
        }),
{
}

/// A fresh cache file that cannot be read, or that does not hold a list of
/// days, counts as absent: the request is sent and nothing is reported as
/// failed.
pub proof fn unreadable_cache_counts_as_absent(
    username: Seq<char>,
    token: Option<Seq<char>>,
    probe: CacheProbe,
)
    requires
        cache_verdict(probe) == CacheCheck::Fresh,
    ensures
        ({
            let s1 = next(initial(username, token), EventView::Probed(probe));
            let s2 = next(s1, EventView::Loaded(None));
            pending(s2) == ActionView::Send(request_for(username, token))
        }),
{
}

/// An answer whose document has no array of weeks at the expected place ends
/// the run with a failure whose message is not empty. The cache is not
/// written: the run is over, and no later event changes that.
pub proof fn answer_without_weeks_fails(
    username: Seq<char>,
    token: Option<Seq<char>>,
    probe: CacheProbe,
    code: u16,
    text: Seq<char>,
    body: Seq<u8>,
    doc: JsonModel,
    later: EventView,
)
    requires
        cache_verdict(probe) != CacheCheck::Fresh,
        is_success(code),
        json_parse(body) == Ok::<JsonModel, Seq<char>>(doc),
        weeks_of(doc) is None,
    ensures
        ({
            let s1 = next(initial(username, token), EventView::Probed(probe));
            let s2 = next(s1, EventView::Status { code, text });
            let s3 = next(s2, EventView::Body(Ok(body)));
            &&& pending(s3) matches ActionView::Finish(FetchView::Failure(message))
            &&& message.len() > 0
            &&& document_outcome(doc) == Err::<Seq<DayView>, Seq<char>>(message)
            &&& next(s3, later) == s3
        }),
{
    reveal_strlit("GraphQL error: ");
    reveal_strlit("Invalid response structure");
}

/// Clearing removes the cache directory where there is one and then creates
/// it, so that it is there and empty afterwards, whether this is the first
/// clearing or a later one; only then the confirmation is given. A fetch that
/// then finds no cache file goes to the network.
pub proof fn clearing_empties_the_cache(username: Seq<char>, token: Option<Seq<char>>)
    ensures
        ({
            let c1 = clear_next(ClearStateView::Locating, ClearEventView::Located { exists: true });
            let c2 = clear_next(c1, ClearEventView::Done);
            let c3 = clear_next(c2, ClearEventView::Done);
            &&& clear_pending(ClearStateView::Locating) == (ClearActionView::Locate { dir: CACHE_DIR@ })
            &&& clear_pending(c1) == (ClearActionView::RemoveDir { dir: CACHE_DIR@ })
            &&& clear_pending(c2) == (ClearActionView::CreateDir { dir: CACHE_DIR@ })
            &&& clear_pending(c3) == ClearActionView::Finish(Ok(CLEARED@))
        }),
        ({
            let c1 = clear_next(ClearStateView::Locating, ClearEventView::Located { exists: false });
            let c2 = clear_next(c1, ClearEventView::Done);
            &&& clear_pending(c1) == (ClearActionView::CreateDir { dir: CACHE_DIR@ })
            &&& clear_pending(c2) == ClearActionView::Finish(Ok(CLEARED@))
        }),
        pending(next(initial(username, token), EventView::Probed(CacheProbe::Missing)))
            == ActionView::Send(request_for(username, token)),
{
}

/// The confirmation is given at one point only: when the creation of the
/// directory has succeeded.
pub proof fn confirmation_follows_creation(
    s: ClearStateView,
    e: ClearEventView,
    confirmation: Seq<char>,
)
    requires
        !(s is Finished),
        clear_next(s, e) == ClearStateView::Finished(Ok(confirmation)),
    ensures
        s == ClearStateView::Creating,
        e == ClearEventView::Done,
        confirmation == CLEARED@,
{
}

/// A failure while the cache is cleared ends the clearing with the reason
/// that the file system gave.
pub proof fn clearing_reports_the_first_failure(reason: Seq<char>)
    ensures
        clear_next(ClearStateView::Removing, ClearEventView::Failed(reason))
            == ClearStateView::Finished(Err(reason)),
        clear_next(ClearStateView::Creating, ClearEventView::Failed(reason))
            == ClearStateView::Finished(Err(reason)),
{
}

/// A secret that was saved is the one that is read, whatever the store held
/// before; once it is deleted, reading it fails because it is not found.
pub proof fn saved_secret_is_read_until_deleted(
    secrets: Map<(Seq<char>, Seq<char>), Seq<char>>,
    service: Seq<char>,
    user: Seq<char>,
    secret: Seq<char>,
)
    ensures
        ({
            let save = TokenRequestView::Save { service, user, secret };
            let get = TokenRequestView::Get { service, user };
            let delete = TokenRequestView::Delete { service, user };
            let saved = after(secrets, save);
            let read = after(saved, get);
            let deleted = after(read, delete);
            &&& answer(secrets, save) == TokenReplyView::Done
            &&& answer(saved, get) == TokenReplyView::Secret(secret)
            &&& answer(read, delete) == TokenReplyView::Done
            &&& answer(deleted, get) == TokenReplyView::Failed(StoreErrorView::NotFound(NO_ENTRY@))
            &&& deleted == secrets.remove((service, user))
        }),
{
    let save = TokenRequestView::Save { service, user, secret };
    let delete = TokenRequestView::Delete { service, user };
    assert(after(after(secrets, save), delete) =~= secrets.remove((service, user)));
}

/// The service and user that a request is about.
pub open spec fn request_address(request: TokenRequestView) -> (Seq<char>, Seq<char>) {
    match request {
        TokenRequestView::Save { service, user, secret } => (service, user),
        TokenRequestView::Get { service, user } => (service, user),
        TokenRequestView::Delete { service, user } => (service, user),
    }
}

/// A request about one address leaves the secrets under every other address
/// as they are.
pub proof fn other_addresses_are_untouched(
    secrets: Map<(Seq<char>, Seq<char>), Seq<char>>,
    request: TokenRequestView,
    other: (Seq<char>, Seq<char>),
)
    requires
        other != request_address(request),
    ensures
        after(secrets, request).dom().contains(other) == secrets.dom().contains(other),
        secrets.dom().contains(other) ==> after(secrets, request)[other] == secrets[other],
{
}

} // verus!
