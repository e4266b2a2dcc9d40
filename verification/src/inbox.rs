//! Results that the KWin script reports back, kept until the request that is
//! waiting for them picks them up.
use vstd::prelude::*;
use crate::text::str_eq;
use vstd::multiset::Multiset;

verus! {

/// A reported result: request id, status and payload.
pub type Report = (Seq<char>, Seq<char>, Seq<char>);

/// Results that may arrive before anyone waits for them.
#[derive(Debug)]
pub struct ResultInbox {
    results: Vec<(String, String, String)>,
}

pub open spec fn report_of(t: (String, String, String)) -> Report {
    (t.0@, t.1@, t.2@)
}

/// The position of the first report for `id`, scanning from `from`.
pub open spec fn first_report(reports: Seq<Report>, id: Seq<char>, from: int) -> Option<int>
    decreases reports.len() - from,
{
    if from < 0 || from >= reports.len() {
        None
    } else if reports[from].0 == id {
        Some(from)
    } else {
        first_report(reports, id, from + 1)
    }
}

/// The reports once the one at `i` is taken out: the last report moves into its place.
pub open spec fn take_out(reports: Seq<Report>, i: int) -> Seq<Report> {
    reports.update(i, reports.last()).drop_last()
}

pub open spec fn has_report(reports: Seq<Report>, id: Seq<char>) -> bool {
    exists|i: int| 0 <= i < reports.len() && #[trigger] reports[i].0 == id
}

impl View for ResultInbox {
    type V = Seq<Report>;

    closed spec fn view(&self) -> Seq<Report> {
        self.results@.map_values(|t: (String, String, String)| report_of(t))
    }
}

proof fn lemma_first_report_found(reports: Seq<Report>, id: Seq<char>, from: int)
    requires
        0 <= from,
    ensures
        first_report(reports, id, from) matches Some(i) ==> from <= i < reports.len() && reports[i].0 == id,
        first_report(reports, id, from) is None ==> forall|j: int|
            from <= j < reports.len() ==> #[trigger] reports[j].0 != id,
    decreases reports.len() - from,
{
    if from < reports.len() && reports[from].0 != id {
        lemma_first_report_found(reports, id, from + 1);
    }
}

impl ResultInbox {
    /// An empty inbox.
    pub fn new() -> (r: Self)
        ensures
            r@ == Seq::<Report>::empty(),
    {
        let r = ResultInbox { results: Vec::new() };
        assert(r@ =~= Seq::<Report>::empty());
        r
    }

    /// Keeps a report.
    pub fn push(&mut self, req_id: String, status: String, payload: String)
        ensures
            final(self)@ == old(self)@.push((req_id@, status@, payload@)),
    {
        self.results.push((req_id, status, payload));
        assert(self@ =~= old(self)@.push((req_id@, status@, payload@)));
    }

    /// Takes out the first report for `req_id`, if there is one, and gives back
    /// its status and payload. The last report moves into the freed place.
    pub fn take_match(&mut self, req_id: &str) -> (r: Option<(String, String)>)
        ensures
            match first_report(old(self)@, req_id@, 0) {
                Some(i) => r matches Some(v) && (v.0@, v.1@) == (old(self)@[i].1, old(self)@[i].2)
                    && final(self)@ == take_out(old(self)@, i),
                None => r is None && final(self)@ == old(self)@,
            },
    {
        let ghost reports = self@;
        let mut i: usize = 0;
        while i < self.results.len()
            invariant
                i <= self.results.len(),
                reports == self@,
                reports == old(self)@,
                self@.len() == self.results@.len(),
                first_report(reports, req_id@, 0) == first_report(reports, req_id@, i as int),
            decreases self.results.len() - i,
        {
            assert(reports[i as int] == report_of(self.results@[i as int]));
            if str_eq(self.results[i].0.as_str(), req_id) {
                assert(reports[i as int].0 == req_id@);
                assert(first_report(reports, req_id@, i as int) == Some(i as int));
                let ghost before = self.results@;
                let e = self.results.swap_remove(i);
                assert(e == before[i as int]);
                assert(report_of(e) == reports[i as int]);
                let (_, s, p) = e;
                assert(self@ =~= take_out(reports, i as int));
                return Some((s, p));
            }
            i += 1;
        }
        None
    }
}

/// What a waiting request does after looking in the inbox once.
#[derive(Debug)]
pub enum AwaitStep {
    /// The result arrived: status and payload.
    Found(String, String),
    /// No result, and the deadline has passed.
    TimedOut,
    /// No result yet: look again after a short sleep.
    Wait,
}

/// One round of waiting for the result of `req_id`: take it if it is there,
/// else give up once the deadline has passed, else keep waiting.
pub fn await_step(inbox: &mut ResultInbox, req_id: &str, deadline_passed: bool) -> (r: AwaitStep)
    ensures
        match first_report(old(inbox)@, req_id@, 0) {
            Some(i) => r matches AwaitStep::Found(s, p) && s@ == old(inbox)@[i].1 && p@
                == old(inbox)@[i].2 && final(inbox)@ == take_out(old(inbox)@, i),
            None => final(inbox)@ == old(inbox)@ && (if deadline_passed {
                r is TimedOut
            } else {
                r is Wait
            }),
        },
{
    match inbox.take_match(req_id) {
        Some((s, p)) => AwaitStep::Found(s, p),
        None => {
            if deadline_passed {
                AwaitStep::TimedOut
            } else {
                AwaitStep::Wait
            }
        },
    }
}

/// A report for an id that is not yet waiting in the inbox is found again, and
/// taking it leaves the inbox as it was before it arrived.
pub proof fn lemma_push_then_take(reports: Seq<Report>, id: Seq<char>, status: Seq<char>, payload: Seq<char>)
    requires
        !has_report(reports, id),
    ensures
        first_report(reports.push((id, status, payload)), id, 0) == Some(reports.len() as int),
        take_out(reports.push((id, status, payload)), reports.len() as int) == reports,
{
    let pushed = reports.push((id, status, payload));
    lemma_first_to_end(pushed, id, 0, reports.len() as int);
    assert(take_out(pushed, reports.len() as int) =~= reports);
}

proof fn lemma_first_to_end(s: Seq<Report>, id: Seq<char>, from: int, k: int)
    requires
        0 <= from <= k < s.len(),
        s[k].0 == id,
        forall|j: int| from <= j < k ==> #[trigger] s[j].0 != id,
    ensures
        first_report(s, id, from) == Some(k),
    decreases k - from,
{
    if from < k {
        lemma_first_to_end(s, id, from + 1, k);
    }
}

/// Taking a report out loses nothing else: the remaining reports are the old
/// ones, minus exactly the one taken.
pub proof fn lemma_take_keeps_others(reports: Seq<Report>, i: int)
    requires
        0 <= i < reports.len(),
    ensures
        take_out(reports, i).to_multiset() == reports.to_multiset().remove(reports[i]),
{
    broadcast use vstd::seq_lib::to_multiset_update, vstd::seq_lib::to_multiset_remove,
        vstd::multiset::group_multiset_axioms;

    let n = reports.len() as int;
    let last = reports.last();
    let u = reports.update(i, last);
    assert(u.drop_last() =~= u.remove(n - 1));
    assert(u[n - 1] == last);
    assert(u.to_multiset() == reports.to_multiset().insert(last).remove(reports[i]));
    assert(u.remove(n - 1).to_multiset() == u.to_multiset().remove(last));
    assert(take_out(reports, i).to_multiset() =~= reports.to_multiset().remove(reports[i]));
}

} // verus!
