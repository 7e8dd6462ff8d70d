//! The decisions of the replication worker: which queued requests start an
//! upload, and when the worker stops.

use vstd::prelude::*;
use crate::string_set::StringSet;

verus! {

/// A message on the worker's queue.
#[derive(Debug, PartialEq, Eq)]
pub enum Request {
    /// Stop taking requests.
    Shutdown,
    /// Upload the store path of this name.
    Upload(String),
}

pub enum RequestView {
    Shutdown,
    Upload(Seq<char>),
}

impl View for Request {
    type V = RequestView;

    open spec fn view(&self) -> RequestView {
        match self {
            Request::Shutdown => RequestView::Shutdown,
            Request::Upload(p) => RequestView::Upload(p@),
        }
    }
}

/// What the worker does with a request.
#[derive(Debug, PartialEq, Eq)]
pub enum Action {
    /// Leave the loop.
    Stop,
    /// Nothing: the path was taken up before.
    Skip,
    /// Run the upload pipeline for the store path of this name.
    Upload(String),
}

pub enum ActionView {
    Stop,
    Skip,
    Upload(Seq<char>),
}

impl View for Action {
    type V = ActionView;

    open spec fn view(&self) -> ActionView {
        match self {
            Action::Stop => ActionView::Stop,
            Action::Skip => ActionView::Skip,
            Action::Upload(p) => ActionView::Upload(p@),
        }
    }
}

/// The worker's state: the store paths taken up so far, and whether it is
/// still running.
pub struct Worker {
    done: StringSet,
    running: bool,
}

pub struct WorkerModel {
    pub done: Set<Seq<char>>,
    pub running: bool,
}

impl View for Worker {
    type V = WorkerModel;

    closed spec fn view(&self) -> WorkerModel {
        WorkerModel { done: self.done@, running: self.running }
    }
}

/// A worker that has taken nothing up yet.
pub open spec fn fresh() -> WorkerModel {
    WorkerModel { done: Set::empty(), running: true }
}

/// One request: a stopped worker stops again; a shutdown stops it; an upload
/// of a path taken up before is skipped, any other is taken up.
pub open spec fn handle_spec(w: WorkerModel, req: RequestView) -> (WorkerModel, ActionView) {
    if !w.running {
        (w, ActionView::Stop)
    } else {
        match req {
            RequestView::Shutdown => (WorkerModel { running: false, ..w }, ActionView::Stop),
            RequestView::Upload(p) => if w.done.contains(p) {
                (w, ActionView::Skip)
            } else {
                (WorkerModel { done: w.done.insert(p), ..w }, ActionView::Upload(p))
            },
        }
    }
}

/// The requests handled in queue order: the final state and one action for
/// each request.
pub open spec fn run_spec(w: WorkerModel, reqs: Seq<RequestView>) -> (WorkerModel, Seq<ActionView>)
    decreases reqs.len(),
{
    if reqs.len() == 0 {
        (w, Seq::empty())
    } else {
        let (w1, acts) = run_spec(w, reqs.drop_last());
        let (w2, a) = handle_spec(w1, reqs.last());
        (w2, acts.push(a))
    }
}

impl Worker {
    /// A running worker that has taken nothing up.
    pub fn new() -> (r: Worker)
        ensures
            r@ == fresh(),
    {
        Worker { done: StringSet::new(), running: true }
    }

    /// Whether the worker still takes requests.
    pub fn is_running(&self) -> (r: bool)
        ensures
            r == self@.running,
    {
        self.running
    }

    /// Decides what to do with the next request of the queue.
    pub fn handle(&mut self, req: Request) -> (r: Action)
        ensures
            (final(self)@, r@) == handle_spec(old(self)@, req@),
    {
        if !self.running {
            return Action::Stop;
        }
        match req {
            Request::Shutdown => {
                self.running = false;
                Action::Stop
            },
            Request::Upload(p) => {
                if self.done.contains(&p) {
                    Action::Skip
                } else {
                    let q = p.clone();
                    self.done.insert(p);
                    Action::Upload(q)
                }
            },
        }
    }
}

/// One upload request for each path of a closure, in its order.
pub fn upload_requests(closure: Vec<String>) -> (r: Vec<Request>)
    ensures
        r@.len() == closure@.len(),
        forall|i: int| 0 <= i < r@.len() ==> (#[trigger] r@[i])@ == RequestView::Upload(closure@[i]@),
{
    let mut r: Vec<Request> = Vec::new();
    let mut i: usize = 0;
    while i < closure.len()
        invariant
            i <= closure@.len(),
            r@.len() == i,
            forall|j: int| 0 <= j < i ==> (#[trigger] r@[j])@ == RequestView::Upload(closure@[j]@),
        decreases closure.len() - i,
    {
        r.push(Request::Upload(closure[i].clone()));
        i = i + 1;
    }
    r
}

/// A worker never gets going again once it has stopped, and the set of
/// paths it has taken up only grows.
pub proof fn lemma_run_monotone(w: WorkerModel, reqs: Seq<RequestView>)
    ensures
        run_spec(w, reqs).1.len() == reqs.len(),
        w.done.subset_of(run_spec(w, reqs).0.done),
        run_spec(w, reqs).0.running ==> w.running,
    decreases reqs.len(),
{
    if reqs.len() > 0 {
        lemma_run_monotone(w, reqs.drop_last());
    }
}

/// Every path that the worker started an upload for is in its record
/// afterwards, and was not in it before.
pub proof fn lemma_uploads_recorded(w: WorkerModel, reqs: Seq<RequestView>, i: int, p: Seq<char>)
    requires
        0 <= i < reqs.len(),
        run_spec(w, reqs).1[i] == ActionView::Upload(p),
    ensures
        run_spec(w, reqs).0.done.contains(p),
        !w.done.contains(p),
    decreases reqs.len(),
{
    let (w1, acts) = run_spec(w, reqs.drop_last());
    lemma_run_monotone(w, reqs.drop_last());
    if i < reqs.len() - 1 {
        assert(acts[i] == run_spec(w, reqs).1[i]);
        lemma_uploads_recorded(w, reqs.drop_last(), i, p);
    } else {
        lemma_run_monotone(w, reqs.drop_last());
    }
}

/// At most once: whatever is queued, and however often a path occurs in
/// it, the worker starts at most one upload of each path.
pub proof fn lemma_at_most_once(w: WorkerModel, reqs: Seq<RequestView>, i: int, j: int, p: Seq<char>)
    requires
        0 <= i < j < reqs.len(),
        run_spec(w, reqs).1[i] == ActionView::Upload(p),
    ensures
        run_spec(w, reqs).1[j] != ActionView::Upload(p),
    decreases reqs.len(),
{
    let (w1, acts) = run_spec(w, reqs.drop_last());
    lemma_run_monotone(w, reqs.drop_last());
    assert(acts[i] == run_spec(w, reqs).1[i]);
    if j < reqs.len() - 1 {
        assert(acts[j] == run_spec(w, reqs).1[j]);
        lemma_at_most_once(w, reqs.drop_last(), i, j, p);
    } else {
        lemma_uploads_recorded(w, reqs.drop_last(), i, p);
    }
}

/// Handling a prefix of the queue gives a prefix of the actions.
pub proof fn lemma_run_prefix(w: WorkerModel, reqs: Seq<RequestView>, n: int)
    requires
        0 <= n <= reqs.len(),
    ensures
        run_spec(w, reqs.take(n)).1 == run_spec(w, reqs).1.take(n),
    decreases reqs.len(),
{
    lemma_run_monotone(w, reqs);
    if n == reqs.len() {
        assert(reqs.take(n) =~= reqs);
        assert(run_spec(w, reqs).1.take(n) =~= run_spec(w, reqs).1);
    } else {
        lemma_run_prefix(w, reqs.drop_last(), n);
        assert(reqs.drop_last().take(n) =~= reqs.take(n));
        lemma_run_monotone(w, reqs.drop_last());
        assert(run_spec(w, reqs.drop_last()).1.take(n) =~= run_spec(w, reqs).1.take(n));
    }
}

/// A path in the worker's record was there from the start or had its
/// upload started by one of the requests.
pub proof fn lemma_recorded_were_uploaded(w: WorkerModel, reqs: Seq<RequestView>, p: Seq<char>)
    requires
        run_spec(w, reqs).0.done.contains(p),
        !w.done.contains(p),
    ensures
        exists|i: int| 0 <= i < reqs.len() && run_spec(w, reqs).1[i] == ActionView::Upload(p),
    decreases reqs.len(),
{
    lemma_run_monotone(w, reqs);
    if reqs.len() > 0 {
        let (w1, acts) = run_spec(w, reqs.drop_last());
        lemma_run_monotone(w, reqs.drop_last());
        if w1.done.contains(p) {
            lemma_recorded_were_uploaded(w, reqs.drop_last(), p);
            let i = choose|i: int| 0 <= i < reqs.len() - 1 && acts[i] == ActionView::Upload(p);
            assert(run_spec(w, reqs).1[i] == acts[i]);
        } else {
            assert(run_spec(w, reqs).1[reqs.len() - 1] == ActionView::Upload(p));
        }
    }
}

/// Exactly once: an upload of a path that the worker has not taken up yet,
/// queued while it runs, has its upload started by that request or an
/// earlier one, and by no other request at all.
pub proof fn lemma_exactly_once(w: WorkerModel, reqs: Seq<RequestView>, k: int, p: Seq<char>)
    requires
        0 <= k < reqs.len(),
        reqs[k] == RequestView::Upload(p),
        run_spec(w, reqs.take(k)).0.running,
        !w.done.contains(p),
    ensures
        exists|i: int| 0 <= i <= k && run_spec(w, reqs).1[i] == ActionView::Upload(p),
        forall|i: int, j: int| 0 <= i < j < reqs.len() && run_spec(w, reqs).1[i] == ActionView::Upload(p)
            ==> run_spec(w, reqs).1[j] != ActionView::Upload(p),
{
    let pre = reqs.take(k + 1);
    assert(pre.drop_last() =~= reqs.take(k));
    assert(pre.last() == reqs[k]);
    lemma_recorded_were_uploaded(w, pre, p);
    lemma_run_prefix(w, reqs, k + 1);
    lemma_run_monotone(w, reqs);
    lemma_run_monotone(w, pre);
    let i = choose|i: int| 0 <= i < pre.len() && run_spec(w, pre).1[i] == ActionView::Upload(p);
    assert(run_spec(w, reqs).1[i] == ActionView::Upload(p));
    assert forall|i: int, j: int| 0 <= i < j < reqs.len() && run_spec(w, reqs).1[i] == ActionView::Upload(p)
        implies run_spec(w, reqs).1[j] != ActionView::Upload(p) by {
        lemma_at_most_once(w, reqs, i, j, p);
    }
}

/// The upload requests for a closure, one per path in its order.
pub open spec fn uploads_of(closure: Seq<Seq<char>>) -> Seq<RequestView> {
    closure.map_values(|p: Seq<char>| RequestView::Upload(p))
}

/// A running worker that is sent no shutdown keeps running.
pub proof fn lemma_running_without_shutdown(w: WorkerModel, reqs: Seq<RequestView>)
    requires
        w.running,
        forall|i: int| 0 <= i < reqs.len() ==> (#[trigger] reqs[i]) is Upload,
    ensures
        run_spec(w, reqs).0.running,
    decreases reqs.len(),
{
    if reqs.len() > 0 {
        assert forall|i: int| 0 <= i < reqs.drop_last().len() implies (#[trigger] reqs.drop_last()[i]) is Upload by {
            assert(reqs.drop_last()[i] == reqs[i]);
        }
        lemma_running_without_shutdown(w, reqs.drop_last());
        assert(reqs.last() == reqs[reqs.len() - 1]);
    }
}

/// Two enqueued closures that share a path: the worker starts the upload of
/// that path exactly once.
pub proof fn lemma_overlapping_closures(c1: Seq<Seq<char>>, c2: Seq<Seq<char>>, p: Seq<char>)
    requires
        c1.contains(p),
        c2.contains(p),
    ensures
        ({
            let reqs = uploads_of(c1) + uploads_of(c2);
            let acts = run_spec(fresh(), reqs).1;
            &&& exists|i: int| 0 <= i < reqs.len() && acts[i] == ActionView::Upload(p)
            &&& forall|i: int, j: int| 0 <= i < j < reqs.len() && acts[i] == ActionView::Upload(p)
                ==> acts[j] != ActionView::Upload(p)
        }),
{
    let reqs = uploads_of(c1) + uploads_of(c2);
    let k = choose|k: int| 0 <= k < c1.len() && c1[k] == p;
    assert(reqs[k] == RequestView::Upload(p));
    let pre = reqs.take(k);
    assert forall|i: int| 0 <= i < pre.len() implies (#[trigger] pre[i]) is Upload by {
        assert(pre[i] == reqs[i]);
        assert(reqs[i] == RequestView::Upload(c1[i]));
    }
    lemma_running_without_shutdown(fresh(), pre);
    lemma_exactly_once(fresh(), reqs, k, p);
}

/// The same path queued twice, as when two closures overlap: one upload,
/// then nothing.
pub proof fn lemma_same_path_twice(p: Seq<char>)
    ensures
        run_spec(fresh(), seq![RequestView::Upload(p), RequestView::Upload(p)]).1 == seq![
            ActionView::Upload(p),
            ActionView::Skip,
        ],
{
    reveal_with_fuel(run_spec, 3);
    let reqs = seq![RequestView::Upload(p), RequestView::Upload(p)];
    assert(reqs.drop_last() =~= seq![RequestView::Upload(p)]);
    assert(reqs.drop_last().drop_last() =~= Seq::<RequestView>::empty());
    assert(run_spec(fresh(), reqs).1 =~= seq![ActionView::Upload(p), ActionView::Skip]);
}

/// Shutdown comes after what was queued before it: with uploads of `a` and
/// `b` queued ahead of a shutdown, both are taken up (one upload if they are
/// the same path) before the worker stops.
pub proof fn lemma_shutdown_after_queued(a: Seq<char>, b: Seq<char>)
    ensures
        ({
            let (w, acts) = run_spec(
                fresh(),
                seq![RequestView::Upload(a), RequestView::Upload(b), RequestView::Shutdown],
            );
            &&& acts[0] == ActionView::Upload(a)
            &&& acts[1] == (if a == b {
                ActionView::Skip
            } else {
                ActionView::Upload(b)
            })
            &&& acts[2] == ActionView::Stop
            &&& acts.len() == 3
            &&& !w.running
            &&& w.done.contains(a) && w.done.contains(b)
        }),
{
    reveal_with_fuel(run_spec, 4);
    let reqs = seq![RequestView::Upload(a), RequestView::Upload(b), RequestView::Shutdown];
    assert(reqs.drop_last() =~= seq![RequestView::Upload(a), RequestView::Upload(b)]);
    assert(reqs.drop_last().drop_last() =~= seq![RequestView::Upload(a)]);
    assert(reqs.drop_last().drop_last().drop_last() =~= Seq::<RequestView>::empty());
    let r1 = run_spec(fresh(), reqs.drop_last().drop_last());
    assert(r1.1 =~= seq![ActionView::Upload(a)]);
    let r2 = run_spec(fresh(), reqs.drop_last());
    assert(r2.1 =~= seq![ActionView::Upload(a), if a == b { ActionView::Skip } else { ActionView::Upload(b) }]);
    assert(r2.0.done.contains(a) && r2.0.done.contains(b));
}

} // verus!
