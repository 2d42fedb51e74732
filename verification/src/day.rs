//! The two values that cross the boundary to the host: one day of the
//! contribution calendar, and the outcome of a fetch.

use vstd::prelude::*;

verus! {

/// What a [`ContributionDay`] stands for.
pub struct DayView {
    pub date: Seq<char>,
    pub count: nat,
}

/// One day of the calendar: its ISO date and the number of contributions,
/// which is never negative.
#[derive(Debug)]
pub struct ContributionDay {
    date: String,
    contribution_count: i32,
}

impl View for ContributionDay {
    type V = DayView;

    closed spec fn view(&self) -> DayView {
        DayView { date: self.date@, count: self.contribution_count as nat }
    }
}

/// The days of a list, each by its view, in the same order.
pub open spec fn day_views(days: Seq<ContributionDay>) -> Seq<DayView> {
    Seq::new(days.len(), |i: int| days[i]@)
}

impl ContributionDay {
    #[verifier::type_invariant]
    spec fn count_is_natural(self) -> bool {
        self.contribution_count >= 0
    }

    /// The day with the given date and count, where the count is not
    /// negative; nothing where it is.
    pub fn new(date: String, contribution_count: i32) -> (made: Option<Self>)
        ensures
            match made {
                Some(day) => contribution_count >= 0 && day@ == (DayView {
                    date: date@,
                    count: contribution_count as nat,
                }),
                None => contribution_count < 0,
            },
    {
        if contribution_count >= 0 {
            Some(ContributionDay { date, contribution_count })
        } else {
            None
        }
    }

    /// The date of the day.
    pub fn date(&self) -> (date: &String)
        ensures
            date@ == self@.date,
    {
        &self.date
    }

    /// The number of contributions on the day.
    pub fn contribution_count(&self) -> (count: i32)
        ensures
            count >= 0,
            count == self@.count,
    {
        proof {
            use_type_invariant(self);
        }
        self.contribution_count
    }
}

impl Clone for ContributionDay {
    fn clone(&self) -> (day: Self)
        ensures
            day@ == self@,
    {
        proof {
            use_type_invariant(self);
        }
        ContributionDay { date: self.date.clone(), contribution_count: self.contribution_count }
    }
}

/// Copies a list of days.
pub fn clone_days(days: &Vec<ContributionDay>) -> (copy: Vec<ContributionDay>)
    ensures
        day_views(copy@) == day_views(days@),
{
    let mut copy: Vec<ContributionDay> = Vec::new();
    let mut i: usize = 0;
    while i < days.len()
        invariant
            i <= days.len(),
            copy.len() == i,
            forall|k: int| 0 <= k < i ==> copy[k]@ == days[k]@,
        decreases days.len() - i,
    {
        copy.push(days[i].clone());
        i = i + 1;
    }
    assert(day_views(copy@) =~= day_views(days@));
    copy
}

/// What a [`FetchResult`] stands for: the days of a successful fetch, or the
/// message of a failed one.
pub enum FetchView {
    Success(Seq<DayView>),
    Failure(Seq<char>),
}

/// The outcome of a fetch as the host receives it. When `ok` is set, `data`
/// holds the days and `error` is empty; otherwise `error` holds the message
/// and `data` is empty.
#[derive(Debug)]
pub struct FetchResult {
    ok: bool,
    data: Option<Vec<ContributionDay>>,
    error: Option<String>,
}

impl FetchResult {
    /// Exactly one of `data` and `error` is filled, and `ok` says which.
    pub closed spec fn well_formed(&self) -> bool {
        if self.ok {
            self.data is Some && self.error is None
        } else {
            self.data is None && self.error is Some
        }
    }

    /// Whether the fetch succeeded.
    pub closed spec fn spec_ok(&self) -> bool {
        self.ok
    }

    /// The days, where there are any.
    pub closed spec fn spec_data(&self) -> Option<Seq<DayView>> {
        match self.data {
            Some(days) => Some(day_views(days@)),
            None => None,
        }
    }

    /// The message, where there is one.
    pub closed spec fn spec_error(&self) -> Option<Seq<char>> {
        match self.error {
            Some(message) => Some(message@),
            None => None,
        }
    }

    /// The result of a fetch that produced `days`.
    pub fn success(days: Vec<ContributionDay>) -> (result: Self)
        ensures
            result.well_formed(),
            result@ == FetchView::Success(day_views(days@)),
    {
        FetchResult { ok: true, data: Some(days), error: None }
    }

    /// The result of a fetch that failed with `message`.
    pub fn failure(message: String) -> (result: Self)
        ensures
            result.well_formed(),
            result@ == FetchView::Failure(message@),
    {
        FetchResult { ok: false, data: None, error: Some(message) }
    }

    /// Whether the fetch succeeded.
    #[verifier::when_used_as_spec(spec_ok)]
    pub fn ok(&self) -> (ok: bool)
        ensures
            ok == self.spec_ok(),
    {
        self.ok
    }

    /// The days of a successful fetch.
    pub fn data(&self) -> (data: Option<&Vec<ContributionDay>>)
        ensures
            match data {
                Some(days) => self.spec_data() == Some(day_views(days@)),
                None => self.spec_data() is None,
            },
    {
        self.data.as_ref()
    }

    /// The message of a failed fetch.
    pub fn error(&self) -> (error: Option<&String>)
        ensures
            match error {
                Some(message) => self.spec_error() == Some(message@),
                None => self.spec_error() is None,
            },
    {
        self.error.as_ref()
    }

    /// The three fields of a well-formed result are those of its view.
    pub proof fn fields_follow_view(&self)
        requires
            self.well_formed(),
        ensures
            match self@ {
                FetchView::Success(days) => self.spec_ok() && self.spec_data() == Some(days)
                    && self.spec_error() is None,
                FetchView::Failure(message) => !self.spec_ok() && self.spec_data() is None
                    && self.spec_error() == Some(message),
            },
    {
    }
}

impl View for FetchResult {
    type V = FetchView;

    closed spec fn view(&self) -> FetchView {
        if self.ok {
            match self.data {
                Some(days) => FetchView::Success(day_views(days@)),
                None => FetchView::Success(Seq::empty()),
            }
        } else {
            match self.error {
                Some(message) => FetchView::Failure(message@),
                None => FetchView::Failure(Seq::empty()),
            }
        }
    }
}

} // verus!
