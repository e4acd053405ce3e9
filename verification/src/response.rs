//! The response envelope: an ordered list of route, payload and status
//! triples received from a device, with whole-envelope status validation.

use vstd::prelude::*;
use crate::property::{NodeView, Property};

verus! {

/// Whether a per-entry status code is acceptable: its leading digits must
/// read 200 (2000 up to 2009 pass, 4041 does not).
pub open spec fn spec_status_ok(code: u32) -> bool {
    code / 10 == 200
}

/// The mathematical content of one response entry.
pub ghost struct ResponseView {
    pub from: Seq<char>,
    pub content: Option<NodeView>,
    pub status_code: u32,
}

/// One response entry: the route it answers for, its payload tree if any,
/// and its status code.
#[derive(Debug)]
pub struct Response {
    pub from: String,
    pub content: Option<Property>,
    pub status_code: u32,
}

impl View for Response {
    type V = ResponseView;

    open spec fn view(&self) -> ResponseView {
        ResponseView {
            from: self.from@,
            content: match self.content {
                Some(ref p) => Some(p@),
                None => None,
            },
            status_code: self.status_code,
        }
    }
}

/// The views of a sequence of response entries, elementwise.
pub open spec fn response_views(s: Seq<Response>) -> Seq<ResponseView> {
    Seq::new(s.len(), |i: int| s[i]@)
}

/// A validated response envelope: every entry's status code passed.
#[derive(Debug)]
pub struct DaikinResponse {
    pub responses: Vec<Response>,
}

impl View for DaikinResponse {
    type V = Seq<ResponseView>;

    open spec fn view(&self) -> Seq<ResponseView> {
        response_views(self.responses@)
    }
}

/// A rejected envelope: the entries whose status codes failed, in order.
/// One failing entry invalidates the whole envelope; there is no partial
/// acceptance.
#[derive(Debug)]
pub struct EnvelopeError {
    pub failing: Vec<Response>,
}

impl View for EnvelopeError {
    type V = Seq<ResponseView>;

    open spec fn view(&self) -> Seq<ResponseView> {
        response_views(self.failing@)
    }
}

impl DaikinResponse {
    /// Validate an envelope: accept it only if every entry's status code
    /// reads 200 on its leading digits, else reject the whole envelope
    /// and surface exactly the failing entries.
    pub fn from_entries(entries: Vec<Response>) -> (r: Result<DaikinResponse, EnvelopeError>)
        ensures
            r is Ok <==> (forall|i: int| 0 <= i < entries@.len() ==> spec_status_ok(
                (#[trigger] entries@[i]).status_code)),
            r matches Ok(d) ==> d@ == response_views(entries@),
            r matches Err(e) ==> e@ == response_views(entries@).filter(
                |rv: ResponseView| !spec_status_ok(rv.status_code)) && e@.len() >= 1,
    {
        let ghost orig = entries@;
        let ghost pred = |rv: ResponseView| !spec_status_ok(rv.status_code);
        let ghost posp = |rv: ResponseView| !pred(rv);
        let mut rest = entries;
        let mut good: Vec<Response> = Vec::new();
        let mut bad: Vec<Response> = Vec::new();
        proof {
            reveal(Seq::filter);
            assert(orig.take(0) =~= Seq::<Response>::empty());
            assert(response_views(orig.take(0)) =~= Seq::<ResponseView>::empty());
        }
        let ghost n = orig.len();
        let ghost mut i: int = 0;
        while rest.len() > 0
            invariant
                0 <= i,
                i + rest@.len() == n,
                n == orig.len(),
                rest@ =~= orig.skip(i),
                pred == (|rv: ResponseView| !spec_status_ok(rv.status_code)),
                posp == (|rv: ResponseView| !pred(rv)),
                response_views(good@) =~= response_views(orig.take(i)).filter(posp),
                response_views(bad@) =~= response_views(orig.take(i)).filter(pred),
                bad@.len() > 0 ==> exists|j: int| 0 <= j < i && !spec_status_ok(
                    (#[trigger] orig[j]).status_code),
            decreases rest@.len(),
        {
            let e = rest.remove(0);
            let ghost g0 = good@;
            let ghost b0 = bad@;
            proof {
                assert(e == orig[i]);
                assert(rest@ =~= orig.skip(i + 1));
            }
            if e.status_code / 10 == 200 {
                good.push(e);
            } else {
                bad.push(e);
            }
            proof {
                reveal_with_fuel(Seq::filter, 4);
                let prefix = response_views(orig.take(i));
                let prefix1 = response_views(orig.take(i + 1));
                assert(prefix1 =~= prefix + seq![e@]);
                Seq::filter_distributes_over_add(prefix, seq![e@], pred);
                Seq::filter_distributes_over_add(prefix, seq![e@], posp);
                assert(seq![e@].drop_last() =~= Seq::<ResponseView>::empty());
                if spec_status_ok(e.status_code) {
                    assert(seq![e@].filter(pred) =~= Seq::<ResponseView>::empty());
                    assert(seq![e@].filter(posp) =~= seq![e@]);
                    assert(response_views(good@) =~= response_views(g0).push(e@));
                    assert(response_views(good@) =~= prefix.filter(posp) + seq![e@]);
                    assert(response_views(good@) =~= prefix1.filter(posp));
                    assert(response_views(bad@) =~= prefix1.filter(pred));
                } else {
                    assert(seq![e@].filter(pred) =~= seq![e@]);
                    assert(seq![e@].filter(posp) =~= Seq::<ResponseView>::empty());
                    assert(response_views(bad@) =~= response_views(b0).push(e@));
                    assert(response_views(bad@) =~= prefix.filter(pred) + seq![e@]);
                    assert(response_views(bad@) =~= prefix1.filter(pred));
                    assert(response_views(good@) =~= prefix1.filter(posp));
                    assert(!spec_status_ok(orig[i].status_code));
                }
                i = i + 1;
            }
        }
        proof {
            assert(orig.take(i) =~= orig);
        }
        if bad.len() == 0 {
            proof {
                lemma_filter_of_passing_is_identity(response_views(orig), pred);
                assert(response_views(bad@).len() == bad@.len());
                assert forall|j: int| 0 <= j < orig.len() implies spec_status_ok(
                    (#[trigger] orig[j]).status_code) by {
                    if !spec_status_ok(orig[j].status_code) {
                        lemma_filter_keeps_failing(response_views(orig), pred, j);
                    }
                }
                assert(response_views(good@) =~= response_views(orig));
            }
            Ok(DaikinResponse { responses: good })
        } else {
            Err(EnvelopeError { failing: bad })
        }
    }
}

/// An element meeting the predicate keeps the filtered sequence nonempty.
proof fn lemma_filter_keeps_failing(s: Seq<ResponseView>, pred: spec_fn(ResponseView) -> bool,
    j: int)
    requires
        0 <= j < s.len(),
        pred(s[j]),
    ensures
        s.filter(pred).len() >= 1,
    decreases s.len(),
{
    reveal(Seq::filter);
    if j < s.len() - 1 {
        lemma_filter_keeps_failing(s.drop_last(), pred, j);
    }
}

/// If the rejecting predicate holds of no element, keeping the passing
/// elements keeps everything.
proof fn lemma_filter_of_passing_is_identity(s: Seq<ResponseView>,
    pred: spec_fn(ResponseView) -> bool)
    requires
        s.filter(pred).len() == 0,
    ensures
        s.filter(|rv: ResponseView| !pred(rv)) == s,
    decreases s.len(),
{
    reveal(Seq::filter);
    if s.len() == 0 {
        assert(s.filter(|rv: ResponseView| !pred(rv)) =~= s);
    } else {
        if pred(s.last()) {
            assert(s.filter(pred).len() >= 1);
        }
        lemma_filter_of_passing_is_identity(s.drop_last(), pred);
        assert(s.filter(|rv: ResponseView| !pred(rv)) =~= s.drop_last().filter(
            |rv: ResponseView| !pred(rv)).push(s.last()));
        assert(s.drop_last().push(s.last()) =~= s);
    }
}

} // verus!
