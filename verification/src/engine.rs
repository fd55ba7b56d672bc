//! The Engine Port: an interface over the container runtime, and a verified
//! in-memory adapter.
//!
//! [`ProvideEngine`] abstracts the runtime: pull an image (draining its
//! progress stream), create a container, start it, and list live containers
//! filtered by an id set.  The contracts speak of two abstract states: the
//! set of pulled images and the sequence of engine-side containers in
//! creation order.  [`MemEngine`] is the in-memory adapter, verified against
//! the port contract; an adapter over a real runtime belongs to the
//! surrounding application.

use vstd::prelude::*;
use vstd::seq_lib::*;
use vstd::string::StringExecFns;

use crate::model::{EngineContainerView, EngineContainerViewV};

verus! {

/// Mathematical image of one engine-side container.
pub ghost struct LiveContainerV {
    pub id: Seq<char>,
    pub name: Seq<char>,
    pub image: Seq<char>,
    pub created: int,
    pub running: bool,
}

/// One engine-side container of the in-memory adapter.
#[derive(Debug)]
pub struct LiveContainer {
    pub id: String,
    pub name: String,
    pub image: String,
    pub created: i64,
    pub running: bool,
}

impl View for LiveContainer {
    type V = LiveContainerV;

    open spec fn view(&self) -> LiveContainerV {
        LiveContainerV {
            id: self.id@,
            name: self.name@,
            image: self.image@,
            created: self.created as int,
            running: self.running,
        }
    }
}

/// The live sequence a vector of engine-side containers stands for.
pub open spec fn live_of(cs: Seq<LiveContainer>) -> Seq<LiveContainerV> {
    cs.map_values(|c: LiveContainer| c@)
}

/// The ids of a live sequence, in creation order.
pub open spec fn live_ids(l: Seq<LiveContainerV>) -> Seq<Seq<char>> {
    l.map_values(|c: LiveContainerV| c.id)
}

/// The character sequences a vector of strings stands for.
pub open spec fn id_views(ids: Seq<String>) -> Seq<Seq<char>> {
    ids.map_values(|s: String| s@)
}

/// No two of the character sequences are equal.
pub open spec fn all_distinct(ids: Seq<Seq<char>>) -> bool {
    forall|i: int, j: int| 0 <= i < j < ids.len() ==> ids[i] != ids[j]
}

/// Some engine-side container carries this id.
pub open spec fn has_live_id(l: Seq<LiveContainerV>, id: Seq<char>) -> bool {
    exists|i: int| 0 <= i < l.len() && l[i].id == id
}

/// How a successful engine-side creation relates the new live sequence to
/// the old: one container appended, carrying the given name and image, not
/// yet running, under an id no earlier container carries.
pub open spec fn created_live(
    l0: Seq<LiveContainerV>,
    l1: Seq<LiveContainerV>,
    id: Seq<char>,
    name: Seq<char>,
    image: Seq<char>,
) -> bool {
    &&& l1.len() == l0.len() + 1
    &&& forall|i: int| 0 <= i < l0.len() ==> l1[i] == l0[i]
    &&& l1.last().id == id
    &&& l1.last().name == name
    &&& l1.last().image == image
    &&& !l1.last().running
    &&& forall|i: int| 0 <= i < l0.len() ==> l0[i].id != id
}

/// The live sequence after the container carrying the id is marked running.
pub open spec fn mark_started(l: Seq<LiveContainerV>, id: Seq<char>) -> Seq<LiveContainerV> {
    l.map_values(
        |c: LiveContainerV|
            if c.id == id {
                LiveContainerV {
                    id: c.id,
                    name: c.name,
                    image: c.image,
                    created: c.created,
                    running: true,
                }
            } else {
                c
            },
    )
}

/// What the engine reports for a filtered list: the views of exactly those
/// live containers whose id is among the given ids, in creation order.  An
/// empty id sequence therefore yields an empty reply, never an unfiltered
/// dump.
pub open spec fn filtered_views(l: Seq<LiveContainerV>, ids: Seq<Seq<char>>) -> Seq<
    EngineContainerViewV,
>
    decreases l.len(),
{
    if l.len() == 0 {
        Seq::empty()
    } else {
        let rest = filtered_views(l.drop_last(), ids);
        if ids.contains(l.last().id) {
            rest.push(
                EngineContainerViewV {
                    id: l.last().id,
                    image: l.last().image,
                    created: l.last().created,
                },
            )
        } else {
            rest
        }
    }
}

/// The Engine Port.  An adapter's abstract state is the set of pulled images
/// and the sequence of engine-side containers; each operation either
/// transforms it as stated or fails with the runtime's fault message and
/// leaves it unchanged.
pub trait ProvideEngine: Sized {
    /// The pulled images.  An adapter outside the verifier's sight that
    /// leaves this default models an empty engine and has nothing proved
    /// about it.
    open spec fn images(&self) -> Set<Seq<char>> {
        Set::empty()
    }

    /// The engine-side containers, in creation order.
    open spec fn live(&self) -> Seq<LiveContainerV> {
        Seq::empty()
    }

    /// The adapter's well-formedness.
    open spec fn wf(&self) -> bool {
        true
    }

    /// Pull an image and drain its progress stream; the first failure of the
    /// stream surfaces as the fault message.
    fn pull_image(&mut self, image: &str) -> (r: Result<(), String>)
        requires
            old(self).wf(),
        ensures
            final(self).wf(),
            final(self).live() == old(self).live(),
            r is Ok ==> final(self).images() == old(self).images().insert(image@),
            r is Err ==> final(self).images() == old(self).images(),
    ;

    /// Create a container from a pulled image; success hands back the
    /// engine-assigned id, fresh among the live containers.
    fn create_container(&mut self, name: &str, image: &str) -> (r: Result<String, String>)
        requires
            old(self).wf(),
        ensures
            final(self).wf(),
            final(self).images() == old(self).images(),
            match r {
                Ok(id) => created_live(old(self).live(), final(self).live(), id@, name@, image@),
                Err(_) => final(self).live() == old(self).live(),
            },
    ;

    /// Start the container carrying the id; success is possible only for a
    /// container the engine knows.
    fn start_container(&mut self, id: &str) -> (r: Result<(), String>)
        requires
            old(self).wf(),
        ensures
            final(self).wf(),
            final(self).images() == old(self).images(),
            match r {
                Ok(_) => has_live_id(old(self).live(), id@) && final(self).live() == mark_started(
                    old(self).live(),
                    id@,
                ),
                Err(_) => final(self).live() == old(self).live(),
            },
    ;

    /// The views of exactly those live containers whose id stands in the
    /// filter, in creation order; an empty filter yields an empty reply.
    fn list_containers(&self, filter: &Vec<String>) -> (r: Result<Vec<EngineContainerView>, String>)
        requires
            self.wf(),
        ensures
            r matches Ok(v) ==> engine_views_of(v@) == filtered_views(
                self.live(),
                id_views(filter@),
            ),
    ;
}

/// Marking one container running, where its id occurs exactly once, is the
/// pointwise update that [`mark_started`] describes; every id and creation
/// time stays as it was.
proof fn lemma_mark_started(pre: Seq<LiveContainerV>, post: Seq<LiveContainerV>, i: int, id: Seq<char>)
    requires
        0 <= i < pre.len(),
        post.len() == pre.len(),
        pre[i].id == id,
        all_distinct(live_ids(pre)),
        forall|k: int| 0 <= k < pre.len() && k != i ==> post[k] == pre[k],
        post[i] == (LiveContainerV {
            id: pre[i].id,
            name: pre[i].name,
            image: pre[i].image,
            created: pre[i].created,
            running: true,
        }),
    ensures
        post == mark_started(pre, id),
        forall|k: int|
            0 <= k < pre.len() ==> post[k].id == pre[k].id && post[k].created == pre[k].created,
{
    assert forall|k: int| 0 <= k < pre.len() && k != i implies pre[k].id != id by {
        assert(live_ids(pre)[k] == pre[k].id);
        assert(live_ids(pre)[i] == pre[i].id);
        if k < i {
            assert(live_ids(pre)[k] != live_ids(pre)[i]);
        } else {
            assert(live_ids(pre)[i] != live_ids(pre)[k]);
        }
    }
    assert(post =~= mark_started(pre, id));
}

/// The view sequence a vector of engine replies stands for.
pub open spec fn engine_views_of(vs: Seq<EngineContainerView>) -> Seq<EngineContainerViewV> {
    vs.map_values(|v: EngineContainerView| v@)
}

/// The in-memory adapter of the Engine Port: a verified test double.  It
/// assigns identities from a caller-seeded pool, stamps creation times from
/// a monotone clock, and can be told to fail each operation, so that
/// workflows can be exercised without a live runtime.
pub struct MemEngine {
    containers: Vec<LiveContainer>,
    images: Vec<String>,
    id_pool: Vec<String>,
    clock: i64,
    fail_pull: Option<String>,
    fail_create: Option<String>,
    fail_start: Option<String>,
    fail_list: Option<String>,
}

impl MemEngine {
    /// Whether the next pull is set to fail.
    pub closed spec fn pull_faulted(&self) -> bool {
        self.fail_pull is Some
    }

    /// Whether the next creation is set to fail.
    pub closed spec fn create_faulted(&self) -> bool {
        self.fail_create is Some
    }

    /// Whether the next start is set to fail.
    pub closed spec fn start_faulted(&self) -> bool {
        self.fail_start is Some
    }

    /// Whether the next list is set to fail.
    pub closed spec fn list_faulted(&self) -> bool {
        self.fail_list is Some
    }

    /// How many identities are left to assign.
    pub closed spec fn pool_size(&self) -> nat {
        self.id_pool@.len()
    }

    /// An engine with no image and no container, assigning identities from
    /// the given pool; the pool entries must be pairwise distinct, as
    /// engine-assigned identities are.
    pub fn new(id_pool: Vec<String>) -> (r: MemEngine)
        requires
            all_distinct(id_views(id_pool@)),
        ensures
            r.wf(),
            r.live() == Seq::<LiveContainerV>::empty(),
            r.images() == Set::<Seq<char>>::empty(),
            !r.pull_faulted() && !r.create_faulted() && !r.start_faulted() && !r.list_faulted(),
            r.pool_size() == id_pool@.len(),
    {
        let r = MemEngine {
            containers: Vec::new(),
            images: Vec::new(),
            id_pool,
            clock: 0,
            fail_pull: None,
            fail_create: None,
            fail_start: None,
            fail_list: None,
        };
        proof {
            assert(r.images() =~= Set::<Seq<char>>::empty());
            assert(r.live() =~= Seq::<LiveContainerV>::empty());
        }
        r
    }

    /// Make the next pull fail with this runtime fault.
    pub fn set_fail_pull(&mut self, msg: String)
        requires
            old(self).wf(),
        ensures
            final(self).wf(),
            final(self).live() == old(self).live(),
            final(self).images() == old(self).images(),
            final(self).pull_faulted(),
    {
        self.fail_pull = Some(msg);
    }

    /// Make the next creation fail with this runtime fault.
    pub fn set_fail_create(&mut self, msg: String)
        requires
            old(self).wf(),
        ensures
            final(self).wf(),
            final(self).live() == old(self).live(),
            final(self).images() == old(self).images(),
            final(self).create_faulted(),
    {
        self.fail_create = Some(msg);
    }

    /// Make the next start fail with this runtime fault.
    pub fn set_fail_start(&mut self, msg: String)
        requires
            old(self).wf(),
        ensures
            final(self).wf(),
            final(self).live() == old(self).live(),
            final(self).images() == old(self).images(),
            final(self).start_faulted(),
    {
        self.fail_start = Some(msg);
    }

    /// Make the next list fail with this runtime fault.
    pub fn set_fail_list(&mut self, msg: String)
        requires
            old(self).wf(),
        ensures
            final(self).wf(),
            final(self).live() == old(self).live(),
            final(self).images() == old(self).images(),
            final(self).list_faulted(),
    {
        self.fail_list = Some(msg);
    }

    /// How many containers the engine holds.
    pub fn live_len(&self) -> (n: usize)
        ensures
            n == self.live().len(),
    {
        self.containers.len()
    }

    /// Whether the image has been pulled.
    pub fn has_image(&self, image: &str) -> (r: bool)
        ensures
            r == self.images().contains(image@),
    {
        let image_s = image.to_owned();
        let mut i: usize = 0;
        while i < self.images.len()
            invariant
                image_s@ == image@,
                0 <= i <= self.images@.len(),
                forall|k: int| 0 <= k < i ==> id_views(self.images@)[k] != image@,
            decreases self.images@.len() - i,
        {
            if self.images[i] == image_s {
                proof {
                    assert(id_views(self.images@)[i as int] == image@);
                    assert(id_views(self.images@).contains(image@));
                }
                return true;
            }
            i += 1;
        }
        proof {
            if id_views(self.images@).contains(image@) {
                let k = id_views(self.images@).lemma_contains_to_index(image@);
            }
        }
        false
    }
}

/// `true` exactly when some entry of the filter carries these characters.
fn contains_id(filter: &Vec<String>, id: &String) -> (r: bool)
    ensures
        r == id_views(filter@).contains(id@),
{
    let mut i: usize = 0;
    while i < filter.len()
        invariant
            0 <= i <= filter@.len(),
            forall|k: int| 0 <= k < i ==> id_views(filter@)[k] != id@,
        decreases filter@.len() - i,
    {
        if filter[i] == *id {
            proof {
                assert(id_views(filter@)[i as int] == id@);
                assert(id_views(filter@).contains(id@));
            }
            return true;
        }
        i += 1;
    }
    proof {
        if id_views(filter@).contains(id@) {
            let k = id_views(filter@).lemma_contains_to_index(id@);
        }
    }
    false
}

impl ProvideEngine for MemEngine {
    closed spec fn images(&self) -> Set<Seq<char>> {
        id_views(self.images@).to_set()
    }

    closed spec fn live(&self) -> Seq<LiveContainerV> {
        live_of(self.containers@)
    }

    closed spec fn wf(&self) -> bool {
        &&& all_distinct(live_ids(live_of(self.containers@)))
        &&& all_distinct(id_views(self.id_pool@))
        &&& forall|i: int, j: int|
            0 <= i < self.containers@.len() && 0 <= j < self.id_pool@.len() ==> live_of(
                self.containers@,
            )[i].id != id_views(self.id_pool@)[j]
        &&& forall|i: int|
            0 <= i < self.containers@.len() ==> live_of(self.containers@)[i].created
                <= self.clock as int
    }

    fn pull_image(&mut self, image: &str) -> (r: Result<(), String>)
        ensures
            final(self).pull_faulted() == old(self).pull_faulted(),
            final(self).create_faulted() == old(self).create_faulted(),
            final(self).start_faulted() == old(self).start_faulted(),
            final(self).list_faulted() == old(self).list_faulted(),
            final(self).pool_size() == old(self).pool_size(),
            !old(self).pull_faulted() ==> r is Ok,
    {
        if let Some(m) = &self.fail_pull {
            return Err(m.clone());
        }
        self.images.push(image.to_owned());
        proof {
            assert(id_views(self.images@) =~= id_views(old(self).images@).push(image@));
            id_views(old(self).images@).lemma_push_to_set_commute(image@);
        }
        Ok(())
    }

    fn create_container(&mut self, name: &str, image: &str) -> (r: Result<String, String>)
        ensures
            final(self).pull_faulted() == old(self).pull_faulted(),
            final(self).create_faulted() == old(self).create_faulted(),
            final(self).start_faulted() == old(self).start_faulted(),
            final(self).list_faulted() == old(self).list_faulted(),
            !old(self).create_faulted() && old(self).pool_size() > 0 ==> r is Ok,
            r is Ok ==> final(self).pool_size() == old(self).pool_size() - 1,
            r is Err ==> final(self).pool_size() == old(self).pool_size(),
    {
        if let Some(m) = &self.fail_create {
            return Err(m.clone());
        }
        let id = match self.id_pool.pop() {
            Some(id) => id,
            None => {
                return Err(String::from_str("no engine identity available"));
            },
        };
        let c = LiveContainer {
            id: id.clone(),
            name: name.to_owned(),
            image: image.to_owned(),
            created: self.clock,
            running: false,
        };
        let ghost cv = c@;
        self.containers.push(c);
        if self.clock < i64::MAX {
            self.clock = self.clock + 1;
        }
        proof {
            let pre = live_of(old(self).containers@);
            let post = live_of(self.containers@);
            assert(post =~= pre.push(cv));
            assert(id_views(old(self).id_pool@).last() == id@);
            assert(forall|i: int| 0 <= i < pre.len() ==> pre[i].id != id@);
            assert(created_live(pre, post, id@, name@, image@));
            assert forall|k: int, l: int|
                0 <= k < l < post.len() implies live_ids(post)[k] != live_ids(post)[l] by {
                assert(live_ids(post)[k] == post[k].id);
                assert(live_ids(post)[l] == post[l].id);
                if l < pre.len() {
                    assert(live_ids(pre)[k] == pre[k].id);
                    assert(live_ids(pre)[l] == pre[l].id);
                    assert(live_ids(pre)[k] != live_ids(pre)[l]);
                }
            }
            assert(all_distinct(live_ids(post)));
            assert(id_views(self.id_pool@) =~= id_views(old(self).id_pool@).drop_last());
            assert(forall|i: int, j: int|
                0 <= i < self.containers@.len() && 0 <= j < self.id_pool@.len() ==> live_of(
                    self.containers@,
                )[i].id != id_views(self.id_pool@)[j]) by {
                assert(forall|j: int|
                    0 <= j < self.id_pool@.len() ==> id_views(self.id_pool@)[j] == id_views(
                        old(self).id_pool@,
                    )[j]);
            }
            assert(forall|i: int|
                0 <= i < self.containers@.len() ==> live_of(self.containers@)[i].created
                    <= self.clock as int);
        }
        Ok(id)
    }

    fn start_container(&mut self, id: &str) -> (r: Result<(), String>)
        ensures
            final(self).pull_faulted() == old(self).pull_faulted(),
            final(self).create_faulted() == old(self).create_faulted(),
            final(self).start_faulted() == old(self).start_faulted(),
            final(self).list_faulted() == old(self).list_faulted(),
            final(self).pool_size() == old(self).pool_size(),
            !old(self).start_faulted() && has_live_id(old(self).live(), id@) ==> r is Ok,
    {
        if let Some(m) = &self.fail_start {
            return Err(m.clone());
        }
        let id_s = id.to_owned();
        let mut i: usize = 0;
        while i < self.containers.len()
            invariant
                *self == *old(self),
                self.wf(),
                id_s@ == id@,
                0 <= i <= self.containers@.len(),
                forall|k: int| 0 <= k < i ==> live_of(self.containers@)[k].id != id@,
            decreases self.containers@.len() - i,
        {
            if self.containers[i].id == id_s {
                proof {
                    assert(live_of(self.containers@)[i as int].id == id@);
                }
                let ghost pre_rows = self.containers@;
                let mut c = self.containers.remove(i);
                c.running = true;
                let ghost cv = c@;
                let ghost mid_rows = self.containers@;
                let ghost c_saved = c;
                self.containers.insert(i, c);
                proof {
                    pre_rows.remove_ensures(i as int);
                    mid_rows.insert_ensures(i as int, c_saved);
                    assert(forall|k: int|
                        0 <= k < pre_rows.len() && k != i ==> self.containers@[k] == pre_rows[k]);
                    assert(self.containers@[i as int] == c_saved);
                    let pre = live_of(pre_rows);
                    let post = live_of(self.containers@);
                    lemma_mark_started(pre, post, i as int, id@);
                    assert(has_live_id(pre, id@));
                    assert(all_distinct(live_ids(post))) by {
                        assert(forall|k: int|
                            0 <= k < post.len() ==> live_ids(post)[k] == live_ids(pre)[k]);
                    }
                    assert(forall|a: int, b: int|
                        0 <= a < self.containers@.len() && 0 <= b < self.id_pool@.len() ==> live_of(
                            self.containers@,
                        )[a].id != id_views(self.id_pool@)[b]);
                    assert(forall|a: int|
                        0 <= a < self.containers@.len() ==> live_of(self.containers@)[a].created
                            <= self.clock as int);
                }
                return Ok(());
            }
            i += 1;
        }
        Err(String::from_str("no such container"))
    }

    fn list_containers(&self, filter: &Vec<String>) -> (r: Result<Vec<EngineContainerView>, String>)
        ensures
            !self.list_faulted() ==> r is Ok,
    {
        if let Some(m) = &self.fail_list {
            return Err(m.clone());
        }
        let mut out: Vec<EngineContainerView> = Vec::new();
        let mut i: usize = 0;
        while i < self.containers.len()
            invariant
                0 <= i <= self.containers@.len(),
                engine_views_of(out@) == filtered_views(
                    live_of(self.containers@).take(i as int),
                    id_views(filter@),
                ),
            decreases self.containers@.len() - i,
        {
            let ghost live = live_of(self.containers@);
            let ghost ids = id_views(filter@);
            proof {
                assert(live.take(i + 1 as int).drop_last() =~= live.take(i as int));
                assert(live.take(i + 1 as int).last() == live[i as int]);
            }
            let c = &self.containers[i];
            if contains_id(filter, &c.id) {
                out.push(
                    EngineContainerView {
                        id: c.id.clone(),
                        image: c.image.clone(),
                        created: c.created,
                    },
                );
                proof {
                    assert(engine_views_of(out@) =~= filtered_views(
                        live.take(i + 1 as int),
                        ids,
                    ));
                }
            } else {
                proof {
                    assert(engine_views_of(out@) =~= filtered_views(
                        live.take(i + 1 as int),
                        ids,
                    ));
                }
            }
            i += 1;
        }
        proof {
            assert(live_of(self.containers@).take(self.containers@.len() as int) =~= live_of(
                self.containers@,
            ));
        }
        Ok(out)
    }
}

} // verus!
