//! Reading the answer of the GraphQL endpoint: from the JSON document to the
//! flat, ordered list of days, or to the message that is reported instead.

use crate::day::{day_views, ContributionDay, DayView};
use crate::json::{as_array, as_i64, as_str, integer_of, json_model, json_text, member, member_of, models_of, JsonModel};
use vstd::prelude::*;

verus! {

/// The member under `key` of a value that may be absent.
pub open spec fn child_of(m: Option<JsonModel>, key: Seq<char>) -> Option<JsonModel> {
    match m {
        Some(x) => member_of(x, key),
        None => None,
    }
}

/// The weeks of the calendar: the array found under
/// `data.user.contributionsCollection.contributionCalendar.weeks`, when every
/// step of that path exists and the last one is an array.
pub open spec fn weeks_of(m: JsonModel) -> Option<Seq<JsonModel>> {
    let data = member_of(m, "data"@);
    let user = child_of(data, "user"@);
    let collection = child_of(user, "contributionsCollection"@);
    let calendar = child_of(collection, "contributionCalendar"@);
    match child_of(calendar, "weeks"@) {
        Some(JsonModel::Array(weeks)) => Some(weeks),
        _ => None,
    }
}

/// The date of a day entry: its `date` member when that is a string, the empty
/// string otherwise.
pub open spec fn date_of(m: JsonModel) -> Seq<char> {
    match member_of(m, "date"@) {
        Some(JsonModel::Text(date)) => date,
        _ => Seq::empty(),
    }
}

/// The count of a day entry: its `contributionCount` member when that is an
/// integer from 0 to `i32::MAX`; 0 for a member that is missing, is no
/// integer, is negative or is larger.
pub open spec fn count_of(m: JsonModel) -> nat {
    match member_of(m, "contributionCount"@) {
        Some(x) => match integer_of(x) {
            Some(k) => if 0 <= k <= i32::MAX {
                k as nat
            } else {
                0
            },
            None => 0,
        },
        None => 0,
    }
}

/// The day that an entry of `contributionDays` stands for. Every entry gives a
/// day, whatever it lacks.
pub open spec fn day_of(m: JsonModel) -> DayView {
    DayView { date: date_of(m), count: count_of(m) }
}

/// The days of a list of entries, one for one and in order.
pub open spec fn days_of(entries: Seq<JsonModel>) -> Seq<DayView> {
    Seq::new(entries.len(), |i: int| day_of(entries[i]))
}

/// The days of one week: those of its `contributionDays` array, none when the
/// week has no such array.
pub open spec fn week_days(m: JsonModel) -> Seq<DayView> {
    match member_of(m, "contributionDays"@) {
        Some(JsonModel::Array(entries)) => days_of(entries),
        _ => Seq::empty(),
    }
}

/// The days of all weeks, week after week, in the order of the document.
pub open spec fn flatten(weeks: Seq<JsonModel>) -> Seq<DayView>
    decreases weeks.len(),
{
    if weeks.len() == 0 {
        Seq::empty()
    } else {
        flatten(weeks.drop_last()) + week_days(weeks.last())
    }
}

/// What a parsed answer amounts to: the message built from its `errors`
/// member when it has one, else the flattened weeks, else the complaint about
/// its shape.
pub open spec fn document_outcome(m: JsonModel) -> Result<Seq<DayView>, Seq<char>> {
    match member_of(m, "errors"@) {
        Some(errors) => Err("GraphQL error: "@ + json_text(errors)),
        None => match weeks_of(m) {
            Some(weeks) => Ok(flatten(weeks)),
            None => Err("Invalid response structure"@),
        },
    }
}

/// An outcome by its views.
pub open spec fn outcome_view(r: Result<Vec<ContributionDay>, String>) -> Result<Seq<DayView>, Seq<char>> {
    match r {
        Ok(days) => Ok(day_views(days@)),
        Err(message) => Err(message@),
    }
}

spec fn model_opt(v: Option<&serde_json::Value>) -> Option<JsonModel> {
    match v {
        Some(x) => Some(json_model(*x)),
        None => None,
    }
}

fn child<'a>(v: Option<&'a serde_json::Value>, key: &str) -> (r: Option<&'a serde_json::Value>)
    ensures
        model_opt(r) == child_of(model_opt(v), key@),
{
    match v {
        Some(x) => member(x, key),
        None => None,
    }
}

fn find_weeks(doc: &serde_json::Value) -> (r: Option<&Vec<serde_json::Value>>)
    ensures
        match r {
            Some(weeks) => weeks_of(json_model(*doc)) == Some(models_of(weeks@)),
            None => weeks_of(json_model(*doc)) is None,
        },
{
    let data = member(doc, "data");
    let user = child(data, "user");
    let collection = child(user, "contributionsCollection");
    let calendar = child(collection, "contributionCalendar");
    match child(calendar, "weeks") {
        Some(weeks) => as_array(weeks),
        None => None,
    }
}

/// Reads one entry of `contributionDays`.
pub fn read_day(entry: &serde_json::Value) -> (day: ContributionDay)
    ensures
        day@ == day_of(json_model(*entry)),
{
    let date = match member(entry, "date") {
        Some(x) => match as_str(x) {
            Some(text) => text.to_owned(),
            None => String::new(),
        },
        None => String::new(),
    };
    let count: i32 = match member(entry, "contributionCount") {
        Some(x) => match as_i64(x) {
            Some(k) => if 0 <= k && k <= 2147483647 {
                k as i32
            } else {
                0
            },
            None => 0,
        },
        None => 0,
    };
    ContributionDay::new(date, count).unwrap()
}

/// Appends the days of one week to `days`.
fn append_week(week: &serde_json::Value, days: &mut Vec<ContributionDay>)
    ensures
        day_views(final(days)@) == day_views(old(days)@) + week_days(json_model(*week)),
{
    let ghost before = day_views(days@);
    match member(week, "contributionDays") {
        Some(list) => match as_array(list) {
            Some(entries) => {
                let ghost models = models_of(entries@);
                let mut i: usize = 0;
                while i < entries.len()
                    invariant
                        i <= entries.len(),
                        models == models_of(entries@),
                        day_views(days@) == before + days_of(models.take(i as int)),
                    decreases entries.len() - i,
                {
                    let day = read_day(&entries[i]);
                    let ghost earlier = day_views(days@);
                    days.push(day);
                    assert(day_views(days@) =~= earlier.push(day@));
                    assert(days_of(models.take(i + 1)) =~= days_of(models.take(i as int)).push(
                        day_of(models[i as int]),
                    ));
                    i = i + 1;
                }
                assert(models.take(i as int) =~= models);
            },
            None => {
                assert(day_views(days@) =~= before + Seq::<DayView>::empty());
            },
        },
        None => {
            assert(day_views(days@) =~= before + Seq::<DayView>::empty());
        },
    }
}

/// Concatenates the days of all weeks, in order.
pub fn flatten_weeks(weeks: &Vec<serde_json::Value>) -> (days: Vec<ContributionDay>)
    ensures
        day_views(days@) == flatten(models_of(weeks@)),
{
    let mut days: Vec<ContributionDay> = Vec::new();
    let ghost models = models_of(weeks@);
    let mut i: usize = 0;
    assert(day_views(days@) =~= flatten(models.take(0)));
    while i < weeks.len()
        invariant
            i <= weeks.len(),
            models == models_of(weeks@),
            day_views(days@) == flatten(models.take(i as int)),
        decreases weeks.len() - i,
    {
        append_week(&weeks[i], &mut days);
        assert(models.take(i + 1).drop_last() =~= models.take(i as int));
        i = i + 1;
    }
    assert(models.take(i as int) =~= models);
    days
}

/// Turns a parsed answer into the days it reports, or into the message that
/// says why it reports none.
pub fn read_document(doc: &serde_json::Value) -> (r: Result<Vec<ContributionDay>, String>)
    ensures
        outcome_view(r) == document_outcome(json_model(*doc)),
{
    match member(doc, "errors") {
        Some(errors) => {
            let detail = crate::json::to_text(errors);
            Err(String::from_str("GraphQL error: ").concat(detail.as_str()))
        },
        None => match find_weeks(doc) {
            Some(weeks) => Ok(flatten_weeks(weeks)),
            None => Err(String::from_str("Invalid response structure")),
        },
    }
}

/// What the bytes of a body amount to, given what the parser makes of them:
/// the parser's complaint under its heading, or what the document says.
pub open spec fn body_outcome(parsed: Result<JsonModel, Seq<char>>) -> Result<
    Seq<DayView>,
    Seq<char>,
> {
    match parsed {
        Ok(doc) => document_outcome(doc),
        Err(reason) => Err("JSON parse error: "@ + reason),
    }
}

/// Parses the body of an answer and reads the document in it.
pub fn read_body(body: &[u8]) -> (r: Result<Vec<ContributionDay>, String>)
    ensures
        outcome_view(r) == body_outcome(crate::json::json_parse(body@)),
{
    match crate::json::parse(body) {
        Ok(doc) => read_document(&doc),
        Err(reason) => Err(String::from_str("JSON parse error: ").concat(reason.as_str())),
    }
}

} // verus!
