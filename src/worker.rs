//! The worker's state: the queue of pending prompts in order of arrival, each
//! id at most once, and the active prompt that the UI is shown, which is the
//! head of the queue projected for the UI.
//!
//! A step of the worker applies one event (a batch of notices, one notice at
//! a time, or a prompt that the RPC service actioned) and then republishes
//! the active prompt.
use vstd::prelude::*;
use crate::model::{ActionedPrompt, Prompt, PromptId, PromptNotice, SnapMeta, UiInput, HomeUiInputData};
use crate::patterns::{first_shown, pattern_options, pattern_options_spec, views_of};

verus! {

/// Whether some prompt of the queue has the id.
pub open spec fn has_id(q: Seq<Prompt>, id: Seq<char>) -> bool {
    exists|i: int| 0 <= i < q.len() && (#[trigger] q[i]).id@ == id
}

/// No id appears twice in the queue.
pub open spec fn unique_ids(q: Seq<Prompt>) -> bool {
    forall|i: int, j: int| 0 <= i < j < q.len() ==> (#[trigger] q[i]).id@ != (#[trigger] q[j]).id@
}

/// Whether the id is one of `ids`.
pub open spec fn listed(ids: Seq<PromptId>, id: Seq<char>) -> bool {
    exists|k: int| 0 <= k < ids.len() && (#[trigger] ids[k])@ == id
}

/// The queue without the prompts whose ids are listed, the others kept in
/// order.
pub open spec fn without(q: Seq<Prompt>, ids: Seq<PromptId>) -> Seq<Prompt>
    decreases q.len(),
{
    if q.len() == 0 {
        q
    } else if listed(ids, q.last().id@) {
        without(q.drop_last(), ids)
    } else {
        without(q.drop_last(), ids).push(q.last())
    }
}

/// The queue with the prompt added at the end, unless its id is queued
/// already.
pub open spec fn push_unique(q: Seq<Prompt>, p: Prompt) -> Seq<Prompt> {
    if has_id(q, p.id@) {
        q
    } else {
        q.push(p)
    }
}

/// The queue that a list of prompts makes: each in order, the later ones of
/// an id already queued left out.
pub open spec fn queue_of(ps: Seq<Prompt>) -> Seq<Prompt>
    decreases ps.len(),
{
    if ps.len() == 0 {
        ps
    } else {
        push_unique(queue_of(ps.drop_last()), ps.last())
    }
}

/// The ids that an actioned prompt resolves.
pub open spec fn actioned_ids(ev: ActionedPrompt) -> Seq<PromptId> {
    match ev {
        ActionedPrompt::Actioned { id, others } => others@.push(id),
        ActionedPrompt::NotFound { id } => seq![id],
    }
}

/// The queue after a notice, given the details fetched for it, if any: a new
/// prompt is added when its details were fetched, a resolved one is removed.
pub open spec fn queue_after_notice(q: Seq<Prompt>, n: PromptNotice, fetched: Option<Prompt>) -> Seq<Prompt> {
    match n {
        PromptNotice::Update(id) => match fetched {
            Some(p) => if p.id@ == id@ {
                push_unique(q, p)
            } else {
                q
            },
            None => q,
        },
        PromptNotice::Resolved(id) => without(q, seq![id]),
    }
}

/// `u` is the prompt `p` projected for the UI, with the snap's metadata when
/// there is some and empty placeholders otherwise.
pub open spec fn is_ui_input_of(u: UiInput, p: Prompt, meta: Option<SnapMeta>, home: Seq<char>) -> bool {
    &&& u.id == p.id
    &&& match meta {
        Some(m) => u.meta == m,
        None => {
            &&& u.meta.name@.len() == 0
            &&& u.meta.updated_at@.len() == 0
            &&& u.meta.store_url@.len() == 0
            &&& u.meta.publisher@.len() == 0
        },
    }
    &&& u.data.requested_path == p.constraints.path
    &&& u.data.home_dir@ == home
    &&& u.data.requested_permissions@ == p.constraints.requested_permissions@
    &&& u.data.available_permissions@ == p.constraints.available_permissions@
    &&& u.data.suggested_permissions@ == p.constraints.requested_permissions@
    &&& views_of(u.data.pattern_options@) == pattern_options_spec(p.constraints.path@, home)
    &&& u.data.initial_pattern_option == first_shown(
        pattern_options_spec(p.constraints.path@, home),
    )
}

fn copy_strings(v: &Vec<String>) -> (r: Vec<String>)
    ensures
        r@ == v@,
{
    let mut r: Vec<String> = Vec::new();
    let mut i: usize = 0;
    while i < v.len()
        invariant
            i <= v@.len(),
            r@ == v@.subrange(0, i as int),
        decreases v@.len() - i,
    {
        r.push(v[i].clone());
        i = i + 1;
        assert(r@ =~= v@.subrange(0, i as int));
    }
    assert(v@.subrange(0, v@.len() as int) =~= v@);
    r
}

/// The prompt projected for the UI under the home directory, with the
/// snap's metadata when there is some.
pub fn to_ui_input(p: &Prompt, meta: Option<SnapMeta>, home_dir: &String) -> (r: UiInput)
    ensures
        is_ui_input_of(r, *p, meta, home_dir@),
{
    let meta = match meta {
        Some(m) => m,
        None => SnapMeta {
            name: String::new(),
            updated_at: String::new(),
            store_url: String::new(),
            publisher: String::new(),
        },
    };
    let (pattern_options, initial_pattern_option) = pattern_options(
        p.constraints.path.as_str(),
        home_dir.as_str(),
    );
    UiInput {
        id: PromptId(p.id.0.clone()),
        meta,
        data: HomeUiInputData {
            requested_path: p.constraints.path.clone(),
            home_dir: home_dir.clone(),
            requested_permissions: copy_strings(&p.constraints.requested_permissions),
            available_permissions: copy_strings(&p.constraints.available_permissions),
            suggested_permissions: copy_strings(&p.constraints.requested_permissions),
            initial_pattern_option,
            pattern_options,
        },
    }
}

proof fn lemma_without_from(q: Seq<Prompt>, ids: Seq<PromptId>)
    ensures
        without(q, ids).len() <= q.len(),
        forall|i: int|
            0 <= i < without(q, ids).len() ==> exists|j: int|
                0 <= j < q.len() && #[trigger] without(q, ids)[i] == q[j],
        forall|i: int|
            0 <= i < without(q, ids).len() ==> !listed(ids, (#[trigger] without(q, ids)[i]).id@),
    decreases q.len(),
{
    if q.len() > 0 {
        lemma_without_from(q.drop_last(), ids);
        let w = without(q.drop_last(), ids);
        assert forall|i: int| 0 <= i < w.len() implies exists|j: int|
            0 <= j < q.len() && #[trigger] w[i] == q[j] by {
            let j = choose|j: int| 0 <= j < q.drop_last().len() && w[i] == q.drop_last()[j];
            assert(w[i] == q[j]);
        }
        if !listed(ids, q.last().id@) {
            assert(without(q, ids) == w.push(q.last()));
            assert forall|i: int| 0 <= i < without(q, ids).len() implies exists|j: int|
                0 <= j < q.len() && #[trigger] without(q, ids)[i] == q[j] by {
                if i == w.len() {
                    assert(without(q, ids)[i] == q[q.len() - 1]);
                } else {
                    assert(without(q, ids)[i] == w[i]);
                }
            }
        }
    }
}

proof fn lemma_without_unique(q: Seq<Prompt>, ids: Seq<PromptId>)
    requires
        unique_ids(q),
    ensures
        unique_ids(without(q, ids)),
    decreases q.len(),
{
    if q.len() > 0 {
        let d = q.drop_last();
        assert(unique_ids(d)) by {
            assert forall|i: int, j: int| 0 <= i < j < d.len() implies (#[trigger] d[i]).id@
                != (#[trigger] d[j]).id@ by {
                assert(d[i] == q[i] && d[j] == q[j]);
            }
        }
        lemma_without_unique(d, ids);
        lemma_without_from(d, ids);
        let w = without(d, ids);
        if !listed(ids, q.last().id@) {
            let w2 = w.push(q.last());
            assert forall|i: int, j: int| 0 <= i < j < w2.len() implies (#[trigger] w2[i]).id@
                != (#[trigger] w2[j]).id@ by {
                if j == w.len() {
                    let k = choose|k: int| 0 <= k < d.len() && w[i] == d[k];
                    assert(w2[i] == q[k]);
                    assert(w2[j] == q[q.len() - 1]);
                } else {
                    assert(w2[i] == w[i] && w2[j] == w[j]);
                }
            }
        }
    }
}

proof fn lemma_without_keeps(q: Seq<Prompt>, ids: Seq<PromptId>)
    requires
        forall|i: int| 0 <= i < q.len() ==> !listed(ids, (#[trigger] q[i]).id@),
    ensures
        without(q, ids) == q,
    decreases q.len(),
{
    if q.len() > 0 {
        let d = q.drop_last();
        assert forall|i: int| 0 <= i < d.len() implies !listed(ids, (#[trigger] d[i]).id@) by {
            assert(d[i] == q[i]);
        }
        lemma_without_keeps(d, ids);
        assert(!listed(ids, q[q.len() - 1].id@));
        assert(d.push(q.last()) =~= q);
    }
}

/// Removing resolved prompts leaves the others alone: when none of the
/// queued prompts is listed, the queue is unchanged, and removing the same
/// ids twice removes no more than removing them once.
pub proof fn lemma_removal_idempotent(q: Seq<Prompt>, ids: Seq<PromptId>)
    ensures
        (forall|i: int| 0 <= i < q.len() ==> !listed(ids, (#[trigger] q[i]).id@)) ==> without(q, ids) == q,
        without(without(q, ids), ids) == without(q, ids),
{
    if forall|i: int| 0 <= i < q.len() ==> !listed(ids, (#[trigger] q[i]).id@) {
        lemma_without_keeps(q, ids);
    }
    lemma_without_from(q, ids);
    lemma_without_keeps(without(q, ids), ids);
}

/// After a successful reply to the prompt `id` that snapd says also
/// resolved `others`, neither `id` nor any of `others` is queued any more.
pub proof fn lemma_reply_completeness(q: Seq<Prompt>, id: PromptId, others: Vec<PromptId>)
    ensures
        !has_id(without(q, actioned_ids(ActionedPrompt::Actioned { id, others })), id@),
        forall|k: int|
            0 <= k < others@.len() ==> !has_id(
                without(q, actioned_ids(ActionedPrompt::Actioned { id, others })),
                (#[trigger] others@[k])@,
            ),
{
    let ids = actioned_ids(ActionedPrompt::Actioned { id, others });
    lemma_without_from(q, ids);
    assert(ids[others@.len() as int] == id);
    assert forall|k: int| 0 <= k < others@.len() implies listed(ids, (#[trigger] others@[k])@) by {
        assert(ids[k] == others@[k]);
    }
}

proof fn lemma_push_unique(q: Seq<Prompt>, p: Prompt)
    requires
        unique_ids(q),
    ensures
        unique_ids(push_unique(q, p)),
{
    if !has_id(q, p.id@) {
        let r = q.push(p);
        assert forall|i: int, j: int| 0 <= i < j < r.len() implies (#[trigger] r[i]).id@
            != (#[trigger] r[j]).id@ by {
            if j == q.len() {
                assert(r[i] == q[i]);
            } else {
                assert(r[i] == q[i] && r[j] == q[j]);
            }
        }
    }
}

proof fn lemma_queue_of_unique(ps: Seq<Prompt>)
    ensures
        unique_ids(queue_of(ps)),
    decreases ps.len(),
{
    if ps.len() > 0 {
        lemma_queue_of_unique(ps.drop_last());
        lemma_push_unique(queue_of(ps.drop_last()), ps.last());
    }
}

fn is_listed(ids: &Vec<PromptId>, id: &PromptId) -> (r: bool)
    ensures
        r == listed(ids@, id@),
{
    let mut k: usize = 0;
    while k < ids.len()
        invariant
            k <= ids@.len(),
            forall|j: int| 0 <= j < k ==> (#[trigger] ids@[j])@ != id@,
        decreases ids@.len() - k,
    {
        if ids[k].0 == id.0 {
            return true;
        }
        k = k + 1;
    }
    false
}

/// The pending prompts and the active prompt that the UI is shown.
pub struct Worker {
    pub queue: Vec<Prompt>,
    pub active: Option<UiInput>,
    pub home_dir: String,
}

impl Worker {
    /// Each id is queued at most once.
    pub open spec fn wf(&self) -> bool {
        unique_ids(self.queue@)
    }

    /// The active prompt is the head of the queue projected for the UI, or
    /// nothing when the queue is empty.
    pub open spec fn is_fresh(&self) -> bool {
        if self.queue@.len() == 0 {
            self.active is None
        } else {
            self.active matches Some(u) && exists|m: Option<SnapMeta>|
                is_ui_input_of(u, self.queue@[0], m, self.home_dir@)
        }
    }

    /// A worker whose queue holds the prompts pending at startup, in order,
    /// each id once; nothing is active until it republishes.
    pub fn new(home_dir: String, prompts: Vec<Prompt>) -> (r: Worker)
        ensures
            r.wf(),
            r.queue@ == queue_of(prompts@),
            r.active is None,
            r.home_dir == home_dir,
    {
        let ghost all = prompts@;
        let mut w = Worker { queue: Vec::new(), active: None, home_dir };
        let mut rest = prompts;
        let n = rest.len();
        let mut i: usize = 0;
        assert(all.subrange(0, 0) =~= Seq::<Prompt>::empty());
        while i < n
            invariant
                n == all.len(),
                i <= n,
                rest@ == all.subrange(i as int, n as int),
                w.queue@ == queue_of(all.subrange(0, i as int)),
                w.active is None,
                w.home_dir == home_dir,
            decreases n - i,
        {
            let p = rest.remove(0);
            assert(all.subrange(0, i + 1).drop_last() =~= all.subrange(0, i as int));
            w.push_if_absent(p);
            i = i + 1;
            assert(rest@ =~= all.subrange(i as int, n as int));
        }
        assert(all.subrange(0, n as int) =~= all);
        proof {
            lemma_queue_of_unique(all);
        }
        w
    }

    /// Whether a prompt of the id is queued.
    pub fn contains(&self, id: &PromptId) -> (r: bool)
        ensures
            r == has_id(self.queue@, id@),
    {
        let mut i: usize = 0;
        while i < self.queue.len()
            invariant
                i <= self.queue@.len(),
                forall|j: int| 0 <= j < i ==> (#[trigger] self.queue@[j]).id@ != id@,
            decreases self.queue@.len() - i,
        {
            if self.queue[i].id.0 == id.0 {
                return true;
            }
            i = i + 1;
        }
        false
    }

    fn push_if_absent(&mut self, p: Prompt)
        ensures
            final(self).queue@ == push_unique(old(self).queue@, p),
            final(self).active == old(self).active,
            final(self).home_dir == old(self).home_dir,
    {
        if !self.contains(&p.id) {
            self.queue.push(p);
        }
    }

    /// Removes the prompts whose ids are listed; the others keep their order.
    fn remove_listed(&mut self, ids: &Vec<PromptId>)
        ensures
            final(self).queue@ == without(old(self).queue@, ids@),
            final(self).active == old(self).active,
            final(self).home_dir == old(self).home_dir,
    {
        let mut rest: Vec<Prompt> = Vec::new();
        core::mem::swap(&mut rest, &mut self.queue);
        let ghost all = rest@;
        let n = rest.len();
        let mut i: usize = 0;
        assert(all.subrange(0, 0) =~= Seq::<Prompt>::empty());
        while i < n
            invariant
                n == all.len(),
                all == old(self).queue@,
                i <= n,
                rest@ == all.subrange(i as int, n as int),
                self.queue@ == without(all.subrange(0, i as int), ids@),
                self.active == old(self).active,
                self.home_dir == old(self).home_dir,
            decreases n - i,
        {
            let p = rest.remove(0);
            assert(all.subrange(0, i + 1).drop_last() =~= all.subrange(0, i as int));
            if !is_listed(ids, &p.id) {
                self.queue.push(p);
            }
            i = i + 1;
            assert(rest@ =~= all.subrange(i as int, n as int));
        }
        assert(all.subrange(0, n as int) =~= all);
    }

    /// The id whose details must be fetched before the notice can be
    /// applied: that of a new prompt which is not queued yet.
    pub fn needs_details(&self, n: &PromptNotice) -> (r: Option<PromptId>)
        ensures
            r is Some <==> (n matches PromptNotice::Update(id) && !has_id(self.queue@, id@)),
            r matches Some(id) ==> (n matches PromptNotice::Update(nid) && id@ == nid@),
    {
        match n {
            PromptNotice::Update(id) => {
                if self.contains(id) {
                    None
                } else {
                    Some(PromptId(id.0.clone()))
                }
            },
            PromptNotice::Resolved(_) => None,
        }
    }

    /// Applies one notice, given the details fetched for a new prompt, if
    /// they could be: a new prompt is queued at the end unless its id is
    /// queued already, and a resolved one is removed.
    pub fn apply_notice(&mut self, n: PromptNotice, fetched: Option<Prompt>)
        requires
            old(self).wf(),
        ensures
            final(self).wf(),
            final(self).queue@ == queue_after_notice(old(self).queue@, n, fetched),
            final(self).active == old(self).active,
            final(self).home_dir == old(self).home_dir,
    {
        proof {
            if fetched is Some {
                lemma_push_unique(self.queue@, fetched.unwrap());
            }
        }
        match n {
            PromptNotice::Update(id) => {
                match fetched {
                    Some(p) => {
                        if p.id.0 == id.0 {
                            self.push_if_absent(p);
                        }
                    },
                    None => {},
                }
            },
            PromptNotice::Resolved(id) => {
                let ghost gid = id;
                let mut ids: Vec<PromptId> = Vec::new();
                ids.push(id);
                assert(ids@ =~= seq![gid]);
                proof {
                    lemma_without_unique(self.queue@, ids@);
                }
                self.remove_listed(&ids);
            },
        }
    }

    /// Applies what the RPC service reports of a reply: every id that it
    /// resolved leaves the queue, the other prompts keep their order.
    pub fn apply_actioned(&mut self, ev: ActionedPrompt)
        requires
            old(self).wf(),
        ensures
            final(self).wf(),
            final(self).queue@ == without(old(self).queue@, actioned_ids(ev)),
            forall|id: Seq<char>| listed(actioned_ids(ev), id) ==> !has_id(final(self).queue@, id),
            final(self).active == old(self).active,
            final(self).home_dir == old(self).home_dir,
    {
        let ghost spec_ids = actioned_ids(ev);
        let ids = match ev {
            ActionedPrompt::Actioned { id, others } => {
                let mut all = others;
                all.push(id);
                all
            },
            ActionedPrompt::NotFound { id } => vec![id],
        };
        assert(ids@ =~= spec_ids);
        proof {
            lemma_without_unique(self.queue@, ids@);
            lemma_without_from(self.queue@, ids@);
        }
        self.remove_listed(&ids);
    }

    /// The snap of the prompt at the head of the queue, whose metadata the
    /// active prompt shows.
    pub fn head_snap(&self) -> (r: Option<String>)
        ensures
            r is None <==> self.queue@.len() == 0,
            r matches Some(s) ==> s == self.queue@[0].snap,
    {
        if self.queue.len() == 0 {
            None
        } else {
            Some(self.queue[0].snap.clone())
        }
    }

    /// Makes the head of the queue the active prompt, projected with the
    /// metadata of its snap, or clears it when the queue is empty.
    pub fn republish(&mut self, meta: Option<SnapMeta>)
        ensures
            final(self).queue == old(self).queue,
            final(self).home_dir == old(self).home_dir,
            final(self).is_fresh(),
            old(self).queue@.len() == 0 ==> final(self).active is None,
            old(self).queue@.len() > 0 ==> (final(self).active matches Some(u) && is_ui_input_of(
                u,
                old(self).queue@[0],
                meta,
                old(self).home_dir@,
            )),
    {
        if self.queue.len() == 0 {
            self.active = None;
        } else {
            let ghost m = meta;
            let u = to_ui_input(&self.queue[0], meta, &self.home_dir);
            self.active = Some(u);
            assert(is_ui_input_of(self.active.unwrap(), self.queue@[0], m, self.home_dir@));
        }
    }
}

} // verus!
