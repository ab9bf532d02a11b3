//! Counting messages by the hour of day at which they were sent.

use crate::discord::{message_views, Message, MessageView};
use crate::text::decimal;
use chrono::{DateTime, Timelike};
use vstd::prelude::*;

verus! {

/// The hour of day, in its own offset, of the instant that `timestamp` names
/// as RFC 3339 text, or `None` where `timestamp` is no such text.
pub uninterp spec fn rfc3339_hour(timestamp: Seq<char>) -> Option<u32>;

/// `chrono::DateTime::parse_from_rfc3339`, and `chrono::Timelike::hour` of
/// what it parsed.
///
/// Not proved: that the result depends on the text alone, which
/// [`rfc3339_hour`] names, and that an hour is below 24, as chrono documents
/// it ("the hour number from 0 to 23").
#[verifier::external_body]
fn timestamp_hour(timestamp: &str) -> (hour: Option<u32>)
    ensures
        hour == rfc3339_hour(timestamp@),
        hour matches Some(h) ==> h < 24,
{
    match DateTime::parse_from_rfc3339(timestamp) {
        Ok(at) => Some(at.hour()),
        Err(_) => None,
    }
}

/// The test that an hour is hour `h`.
pub open spec fn is_hour(h: int) -> spec_fn(Option<u32>) -> bool {
    |x: Option<u32>| x matches Some(v) && v == h
}

/// The test that an hour is one of the day: below 24.
pub open spec fn is_hour_of_day() -> spec_fn(Option<u32>) -> bool {
    |x: Option<u32>| x matches Some(v) && v < 24
}

/// The test that there is an hour: that a timestamp could be read.
pub open spec fn is_some_hour() -> spec_fn(Option<u32>) -> bool {
    |x: Option<u32>| x is Some
}

/// For each hour of the day, how many of `hours` are that hour.
pub open spec fn hour_counts(hours: Seq<Option<u32>>) -> Seq<nat> {
    Seq::new(24, |h: int| hours.filter(is_hour(h)).len())
}

/// The sum of `counts`.
pub open spec fn total(counts: Seq<nat>) -> nat
    decreases counts.len(),
{
    if counts.len() == 0 {
        0
    } else {
        total(counts.drop_last()) + counts.last()
    }
}

/// For each message, in order, the hour of its timestamp.
pub open spec fn hours_of(messages: Seq<MessageView>) -> Seq<Option<u32>> {
    messages.map_values(|m: MessageView| rfc3339_hour(m.timestamp))
}

/// Raising one count by one raises the sum by one.
proof fn lemma_total_raise(counts: Seq<nat>, h: int)
    requires
        0 <= h < counts.len(),
    ensures
        total(counts.update(h, counts[h] + 1)) == total(counts) + 1,
    decreases counts.len(),
{
    let raised = counts.update(h, counts[h] + 1);
    if h == counts.len() - 1 {
        assert(raised.drop_last() =~= counts.drop_last());
    } else {
        lemma_total_raise(counts.drop_last(), h);
        assert(raised.drop_last() =~= counts.drop_last().update(h, counts[h] + 1));
    }
}

/// The sum of no counts but zeros is zero.
proof fn lemma_total_zeros(counts: Seq<nat>)
    requires
        forall|h: int| 0 <= h < counts.len() ==> counts[h] == 0,
    ensures
        total(counts) == 0,
    decreases counts.len(),
{
    if counts.len() > 0 {
        lemma_total_zeros(counts.drop_last());
    }
}

/// The counts of a day sum to the number of hours of the day among `hours`:
/// what is no hour of the day is in no count.
pub proof fn lemma_counts_sum(hours: Seq<Option<u32>>)
    ensures
        total(hour_counts(hours)) == hours.filter(is_hour_of_day()).len(),
        total(hour_counts(hours)) <= hours.len(),
    decreases hours.len(),
{
    broadcast use Seq::lemma_filter_len_push;

    hours.lemma_filter_len(is_hour_of_day());
    if hours.len() == 0 {
        assert forall|h: int| 0 <= h < 24 implies hour_counts(hours)[h] == 0 by {
            hours.lemma_filter_len(is_hour(h));
        }
        lemma_total_zeros(hour_counts(hours));
    } else {
        let before = hours.drop_last();
        let x = hours.last();
        assert(hours =~= before.push(x));
        lemma_counts_sum(before);
        if is_hour_of_day()(x) {
            let v = x->0 as int;
            assert(hour_counts(hours) =~= hour_counts(before).update(
                v,
                hour_counts(before)[v] + 1,
            ));
            lemma_total_raise(hour_counts(before), v);
        } else {
            assert(hour_counts(hours) =~= hour_counts(before));
        }
    }
}

/// Two tests that agree on every item of `s` keep the same items of it.
proof fn lemma_filter_agree<A>(s: Seq<A>, p: spec_fn(A) -> bool, q: spec_fn(A) -> bool)
    requires
        forall|i: int| 0 <= i < s.len() ==> p(s[i]) == q(s[i]),
    ensures
        s.filter(p) == s.filter(q),
    decreases s.len(),
{
    reveal(Seq::filter);
    if s.len() > 0 {
        lemma_filter_agree(s.drop_last(), p, q);
    }
}

/// A test keeps all of `s` exactly when every item of `s` passes it.
proof fn lemma_filter_keeps_all<A>(s: Seq<A>, p: spec_fn(A) -> bool)
    ensures
        s.filter(p).len() <= s.len(),
        s.filter(p).len() == s.len() <==> forall|i: int| 0 <= i < s.len() ==> p(s[i]),
    decreases s.len(),
{
    reveal(Seq::filter);
    if s.len() > 0 {
        let before = s.drop_last();
        lemma_filter_keeps_all(before, p);
        if s.filter(p).len() == s.len() {
            assert forall|i: int| 0 <= i < s.len() implies p(s[i]) by {
                if i < before.len() {
                    assert(before[i] == s[i]);
                }
            }
        }
        if forall|i: int| 0 <= i < s.len() ==> p(s[i]) {
            assert forall|i: int| 0 <= i < before.len() implies p(before[i]) by {
                assert(before[i] == s[i]);
            }
        }
    }
}

/// The sum of the first counts is at most the sum of all.
proof fn lemma_total_grows(counts: Seq<nat>, n: int)
    requires
        0 <= n <= counts.len(),
    ensures
        total(counts.take(n)) <= total(counts),
    decreases counts.len(),
{
    if n == counts.len() {
        assert(counts.take(n) =~= counts);
    } else {
        lemma_total_grows(counts.drop_last(), n);
        assert(counts.drop_last().take(n) =~= counts.take(n));
    }
}

/// How many of `messages` have a timestamp that is RFC 3339 text.
pub open spec fn parseable(messages: Seq<MessageView>) -> nat {
    hours_of(messages).filter(is_some_hour()).len()
}

/// The name of hour `hour` on a twelve-hour clock: "12am", "1am" and so on to
/// "11am", then "12pm", "1pm" and so on to "11pm".
pub open spec fn hour_name(hour: nat) -> Seq<char> {
    decimal(
        if hour % 12 == 0 {
            12
        } else {
            hour % 12
        },
    ) + (if hour < 12 {
        "am"@
    } else {
        "pm"@
    })
}

/// The name of hour `hour` on a twelve-hour clock.
fn hour_label(hour: usize) -> (label: &'static str)
    requires
        hour < 24,
    ensures
        label@ == hour_name(hour as nat),
{
    proof {
        reveal_with_fuel(decimal, 2);
        reveal_strlit("am");
        reveal_strlit("pm");
        reveal_strlit("12am");
        reveal_strlit("1am");
        reveal_strlit("2am");
        reveal_strlit("3am");
        reveal_strlit("4am");
        reveal_strlit("5am");
        reveal_strlit("6am");
        reveal_strlit("7am");
        reveal_strlit("8am");
        reveal_strlit("9am");
        reveal_strlit("10am");
        reveal_strlit("11am");
        reveal_strlit("12pm");
        reveal_strlit("1pm");
        reveal_strlit("2pm");
        reveal_strlit("3pm");
        reveal_strlit("4pm");
        reveal_strlit("5pm");
        reveal_strlit("6pm");
        reveal_strlit("7pm");
        reveal_strlit("8pm");
        reveal_strlit("9pm");
        reveal_strlit("10pm");
        reveal_strlit("11pm");
    }
    match hour {
        0 => "12am",
        1 => "1am",
        2 => "2am",
        3 => "3am",
        4 => "4am",
        5 => "5am",
        6 => "6am",
        7 => "7am",
        8 => "8am",
        9 => "9am",
        10 => "10am",
        11 => "11am",
        12 => "12pm",
        13 => "1pm",
        14 => "2pm",
        15 => "3pm",
        16 => "4pm",
        17 => "5pm",
        18 => "6pm",
        19 => "7pm",
        20 => "8pm",
        21 => "9pm",
        22 => "10pm",
        _ => "11pm",
    }
}

/// The messages of each hour of the day, counted.
#[derive(Clone, Copy, Debug, PartialEq, Eq)]
pub struct HourHistogram {
    counts: [u64; 24],
}

impl View for HourHistogram {
    type V = Seq<nat>;

    /// Twenty-four counts: the one at `h` is that of hour `h`.
    closed spec fn view(&self) -> Seq<nat> {
        Seq::new(24, |h: int| self.counts@[h] as nat)
    }
}

impl HourHistogram {
    /// The counts add up without overflow.
    #[verifier::type_invariant]
    spec fn fits(self) -> bool {
        total(self@) <= u64::MAX
    }

    /// How many messages were sent in hour `hour`; none outside the day.
    pub fn count(&self, hour: u32) -> (n: u64)
        ensures
            self@.len() == 24,
            n == (if hour < 24 {
                self@[hour as int]
            } else {
                0
            }),
    {
        if hour < 24 {
            self.counts[hour as usize]
        } else {
            0
        }
    }

    /// The count of each hour, from hour 0 on.
    pub fn counts(&self) -> (counts: [u64; 24])
        ensures
            self@.len() == 24,
            forall|h: int| 0 <= h < 24 ==> counts@[h] == self@[h],
    {
        self.counts
    }

    /// The histogram as the rows of a chart: for each hour from 0 on, its name
    /// on a twelve-hour clock and its count.
    pub fn rows(&self) -> (rows: Vec<(&'static str, u64)>)
        ensures
            self@.len() == 24,
            rows@.len() == 24,
            forall|h: int|
                0 <= h < 24 ==> (#[trigger] rows@[h]).0@ == hour_name(h as nat) && rows@[h].1
                    == self@[h],
    {
        let mut rows: Vec<(&'static str, u64)> = Vec::new();
        let mut hour: usize = 0;
        while hour < 24
            invariant
                hour <= 24,
                rows@.len() == hour,
                forall|h: int|
                    0 <= h < hour ==> (#[trigger] rows@[h]).0@ == hour_name(h as nat) && rows@[h].1
                        == self@[h],
            decreases 24 - hour,
        {
            rows.push((hour_label(hour), self.counts[hour]));
            hour = hour + 1;
        }
        rows
    }

    /// How many messages were counted.
    pub fn sum(&self) -> (sum: u64)
        ensures
            sum == total(self@),
    {
        proof {
            use_type_invariant(self);
        }
        let mut sum: u64 = 0;
        let mut h: usize = 0;
        while h < 24
            invariant
                h <= 24,
                self@.len() == 24,
                total(self@) <= u64::MAX,
                sum == total(self@.take(h as int)),
            decreases 24 - h,
        {
            proof {
                lemma_total_grows(self@, h + 1);
                assert(self@.take(h + 1).drop_last() =~= self@.take(h as int));
            }
            sum = sum + self.counts[h];
            h = h + 1;
        }
        assert(self@.take(24) =~= self@);
        sum
    }
}

/// Counts `hours` by hour of day. What is no hour of the day is not counted.
pub fn tally(hours: &Vec<Option<u32>>) -> (histogram: HourHistogram)
    ensures
        histogram@ == hour_counts(hours@),
        total(histogram@) == hours@.filter(is_hour_of_day()).len(),
{
    let mut counts: [u64; 24] = [0u64; 24];
    let mut i: usize = 0;
    proof {
        assert forall|h: int| 0 <= h < 24 implies counts@[h] == hours@.take(0).filter(
            is_hour(h),
        ).len() by {
            hours@.take(0).lemma_filter_len(is_hour(h));
        }
    }
    while i < hours.len()
        invariant
            i <= hours.len(),
            forall|h: int| 0 <= h < 24 ==> counts@[h] == hours@.take(i as int).filter(is_hour(h)).len(),
        decreases hours.len() - i,
    {
        let ghost before = hours@.take(i as int);
        let ghost x = hours@[i as int];
        proof {
            assert(hours@.take(i + 1) =~= before.push(x));
            assert forall|h: int| 0 <= h < 24 implies #[trigger] before.push(x).filter(
                is_hour(h),
            ).len() == before.filter(is_hour(h)).len() + (if is_hour(h)(x) {
                1int
            } else {
                0int
            }) && before.filter(is_hour(h)).len() <= i by {
                before.lemma_filter_len_push(is_hour(h), x);
                before.lemma_filter_len(is_hour(h));
            }
        }
        match hours[i] {
            Some(hour) => {
                if hour < 24 {
                    let at: usize = hour as usize;
                    let raised: u64 = counts[at] + 1;
                    counts[at] = raised;
                }
            },
            None => {},
        }
        i = i + 1;
    }
    proof {
        assert(hours@.take(hours@.len() as int) =~= hours@);
        lemma_counts_sum(hours@);
        assert(Seq::new(24, |h: int| counts@[h] as nat) =~= hour_counts(hours@));
    }
    HourHistogram { counts }
}

/// Counts `messages` by the hour of day of their timestamps. A message whose
/// timestamp is no RFC 3339 text is left out.
pub fn aggregate(messages: &Vec<Message>) -> (histogram: HourHistogram)
    ensures
        histogram@ == hour_counts(hours_of(message_views(messages@))),
        total(histogram@) == parseable(message_views(messages@)),
        total(histogram@) <= messages@.len(),
        total(histogram@) < messages@.len() <==> exists|i: int|
            0 <= i < messages@.len() && rfc3339_hour(#[trigger] messages@[i]@.timestamp) is None,
{
    let ghost all = hours_of(message_views(messages@));
    let mut hours: Vec<Option<u32>> = Vec::new();
    let mut i: usize = 0;
    while i < messages.len()
        invariant
            i <= messages.len(),
            all == hours_of(message_views(messages@)),
            hours@ == all.take(i as int),
            forall|j: int| 0 <= j < i ==> is_hour_of_day()(#[trigger] hours@[j]) == is_some_hour()(hours@[j]),
        decreases messages.len() - i,
    {
        let hour = timestamp_hour(messages[i].timestamp.as_str());
        hours.push(hour);
        i = i + 1;
    }
    proof {
        assert(all.take(messages@.len() as int) =~= all);
        lemma_filter_agree(all, is_hour_of_day(), is_some_hour());
        lemma_filter_keeps_all(all, is_some_hour());
        if exists|i: int|
            0 <= i < messages@.len() && rfc3339_hour(#[trigger] messages@[i]@.timestamp) is None {
            let i = choose|i: int|
                0 <= i < messages@.len() && rfc3339_hour(#[trigger] messages@[i]@.timestamp) is None;
            assert(!is_some_hour()(all[i]));
        }
        if all.filter(is_some_hour()).len() < all.len() {
            let i = choose|i: int| 0 <= i < all.len() && !is_some_hour()(all[i]);
            assert(rfc3339_hour(messages@[i]@.timestamp) is None);
        }
    }
    tally(&hours)
}

} // verus!
