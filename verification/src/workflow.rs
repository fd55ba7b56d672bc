//! The Provisioning Orchestrator: the create and list workflows.
//!
//! Both workflows sequence calls to the Engine Port and the Persistence Port
//! in a fixed order and abort on the first failure; no retries exist at this
//! layer.  The contracts here are stated against the port traits alone, so
//! they hold for every pair of adapters that honour the port contracts.
//!
//! The create workflow is the one place with defined partial-failure
//! semantics over two independently-failing systems: a failure after the
//! engine-side container exists but before its record is persisted leaves an
//! orphan — deliberately, as no rollback or compensation is defined.

use vstd::prelude::*;
use vstd::string::StringExecFns;

use crate::engine::{
    created_live, has_live_id, live_ids, id_views, mark_started, filtered_views, engine_views_of,
    LiveContainerV, ProvideEngine,
};
use crate::error::{Error, ProvideError, WorkflowStep};
use crate::model::{
    Container, ContainerEntityV, ContainerRequestBody, ContainerRequestBodyV, ContainerV,
    EngineContainerViewV, MultiContainersResponseBody, SingleContainerResponseBody,
    SingleContainerResponseBodyV,
};
use crate::store::{has_id, has_name, ids_of, views_of, ProvideData};

verus! {

/// The engine holds one container more than before: it carries the given
/// name and image under an id no earlier container carries, and it is not
/// running.  This is what a create that failed at the start step leaves
/// behind — an orphan, since no record of it is persisted.
pub open spec fn orphan_unstarted(
    l0: Seq<LiveContainerV>,
    l1: Seq<LiveContainerV>,
    name: Seq<char>,
    image: Seq<char>,
) -> bool {
    &&& l1.len() == l0.len() + 1
    &&& forall|i: int| 0 <= i < l0.len() ==> l1[i] == l0[i]
    &&& l1.last().name == name
    &&& l1.last().image == image
    &&& !l1.last().running
    &&& forall|i: int| 0 <= i < l0.len() ==> l0[i].id != l1.last().id
}

/// As [`orphan_unstarted`], but the container is running: what a create that
/// failed at the persist step leaves behind.
pub open spec fn orphan_started(
    l0: Seq<LiveContainerV>,
    l1: Seq<LiveContainerV>,
    name: Seq<char>,
    image: Seq<char>,
) -> bool {
    &&& l1.len() == l0.len() + 1
    &&& forall|i: int| 0 <= i < l0.len() ==> l1[i] == l0[i]
    &&& l1.last().name == name
    &&& l1.last().image == image
    &&& l1.last().running
    &&& forall|i: int| 0 <= i < l0.len() ==> l0[i].id != l1.last().id
}

/// Everything a successful create promises: the image is pulled; the engine
/// holds one new, running container with the requested name and image under
/// a fresh id; the name and that id were free among the records, and exactly
/// one record — carrying the engine-assigned id, the requested name and
/// image — was appended; the response carries that record.
pub open spec fn create_succeeded(
    images0: Set<Seq<char>>,
    images1: Set<Seq<char>>,
    live0: Seq<LiveContainerV>,
    live1: Seq<LiveContainerV>,
    recs0: Seq<ContainerEntityV>,
    recs1: Seq<ContainerEntityV>,
    req: ContainerRequestBodyV,
    resp: SingleContainerResponseBodyV,
) -> bool {
    &&& images1 == images0.insert(req.image)
    &&& resp.container is Some
    &&& {
        let c = resp.container->Some_0;
        &&& c.name == req.name
        &&& c.image == req.image
        &&& c.created_at == c.updated_at
        &&& orphan_started(live0, live1, req.name, req.image)
        &&& live1.last().id == c.id
        &&& !has_name(recs0, req.name)
        &&& !has_id(recs0, c.id)
        &&& recs1 == recs0.push(
            ContainerEntityV {
                id: c.id,
                name: c.name,
                image: c.image,
                created_at: c.created_at,
                updated_at: c.updated_at,
            },
        )
    }
}

/// The whole outcome the create workflow promises, relating the engine and
/// store states before and after the call to the request and the result.
/// An engine failure names the step it stopped at and pins what exists so
/// far; a store failure leaves the started orphan behind; the uniqueness
/// race on the name is decided at the store layer: the loser sees
/// `UniqueViolation`.
pub open spec fn create_post<E: ProvideEngine, P: ProvideData>(
    engine0: E,
    engine1: E,
    store0: P,
    store1: P,
    req: ContainerRequestBodyV,
    r: Result<SingleContainerResponseBody, Error>,
) -> bool {
    match r {
        Ok(resp) => create_succeeded(
            engine0.images(),
            engine1.images(),
            engine0.live(),
            engine1.live(),
            store0.records(),
            store1.records(),
            req,
            resp@,
        ),
        Err(e) => store1.records() == store0.records() && match e {
            Error::EngineError { step, msg: _ } => match step {
                WorkflowStep::PullingImage => engine1.images() == engine0.images()
                    && engine1.live() == engine0.live(),
                WorkflowStep::CreatingContainer => engine1.images() == engine0.images().insert(
                    req.image,
                ) && engine1.live() == engine0.live(),
                WorkflowStep::Starting => engine1.images() == engine0.images().insert(req.image)
                    && orphan_unstarted(engine0.live(), engine1.live(), req.name, req.image),
                _ => false,
            },
            Error::StoreError { step, source } => {
                &&& step == WorkflowStep::Persisting
                &&& engine1.images() == engine0.images().insert(req.image)
                &&& orphan_started(engine0.live(), engine1.live(), req.name, req.image)
                &&& (source matches ProvideError::UniqueViolation { .. } ==> has_name(
                    store0.records(),
                    req.name,
                ) || has_id(store0.records(), engine1.live().last().id))
                &&& (has_name(store0.records(), req.name)
                    ==> source matches ProvideError::UniqueViolation { .. })
            },
            Error::WorkflowAborted { .. } => false,
        },
    }
}

/// The create workflow: pull the image and drain its progress, create the
/// container, start it, then persist its record within one transaction, in
/// strictly this order, aborting on the first failure.
///
/// [`create_post`] pins the partial-failure semantics: nothing is created
/// anywhere when the pull fails; nothing is persisted and nothing started
/// when creation fails; a failure at the start or persist step leaves the
/// engine-side container as an orphan, deliberately not rolled back.
pub fn create_container<E: ProvideEngine, P: ProvideData>(
    engine: &mut E,
    store: &mut P,
    container_request: ContainerRequestBody,
) -> (r: Result<SingleContainerResponseBody, Error>)
    requires
        old(engine).wf(),
        old(store).wf(),
    ensures
        final(engine).wf(),
        final(store).wf(),
        create_post(
            *old(engine),
            *final(engine),
            *old(store),
            *final(store),
            container_request@,
            r,
        ),
{
    let ContainerRequestBody { name, image } = container_request;

    if let Err(m) = engine.pull_image(image.as_str()) {
        return Err(Error::EngineError { step: WorkflowStep::PullingImage, msg: m });
    }

    let id = match engine.create_container(name.as_str(), image.as_str()) {
        Ok(id) => id,
        Err(m) => {
            return Err(Error::EngineError { step: WorkflowStep::CreatingContainer, msg: m });
        },
    };
    let ghost live_created = engine.live();

    if let Err(m) = engine.start_container(id.as_str()) {
        return Err(Error::EngineError { step: WorkflowStep::Starting, msg: m });
    }
    proof {
        lemma_started_orphan(old(engine).live(), live_created, engine.live(), id@, name@, image@);
    }

    let entity = match store.create_container(id.as_str(), name.as_str(), image.as_str()) {
        Ok(e) => e,
        Err(pe) => {
            return Err(Error::StoreError { step: WorkflowStep::Persisting, source: pe });
        },
    };

    let container = Container::from(entity);
    Ok(SingleContainerResponseBody::from(container))
}

/// Starting the freshly created container turns the created-but-stopped
/// engine state into the started orphan shape, with the new container's id
/// unchanged.
proof fn lemma_started_orphan(
    l0: Seq<LiveContainerV>,
    l1: Seq<LiveContainerV>,
    l2: Seq<LiveContainerV>,
    id: Seq<char>,
    name: Seq<char>,
    image: Seq<char>,
)
    requires
        created_live(l0, l1, id, name, image),
        l2 == mark_started(l1, id),
    ensures
        orphan_started(l0, l2, name, image),
        l2.last().id == id,
{
    assert(l2.len() == l1.len());
    assert(forall|i: int| 0 <= i < l0.len() ==> l2[i] == l1[i]);
    assert(l2.last() == (LiveContainerV {
        id: l1.last().id,
        name: l1.last().name,
        image: l1.last().image,
        created: l1.last().created,
        running: true,
    }));
}

/// The merge rule of the list workflow applied to a sequence of engine
/// replies: identity and image from each reply, its creation time for both
/// timestamps, and the placeholder name.
pub open spec fn merged(vs: Seq<EngineContainerViewV>) -> Seq<ContainerV> {
    vs.map_values(
        |v: EngineContainerViewV|
            ContainerV {
                id: v.id,
                name: "NA"@,
                image: v.image,
                created_at: v.created,
                updated_at: v.created,
            },
    )
}

/// What the list workflow returns for a given engine and store state: the
/// merge of the live containers filtered by the persisted ids.  Records
/// whose id the engine did not echo back are silently omitted — a
/// deliberate policy, not a defect.
pub open spec fn list_result(live: Seq<LiveContainerV>, recs: Seq<ContainerEntityV>) -> Seq<
    ContainerV,
> {
    merged(filtered_views(live, ids_of(recs)))
}

/// The whole outcome the list workflow promises: on success the response
/// holds exactly the merge of the live containers filtered by the persisted
/// ids, with its count; every failure names the step it stopped at, and an
/// abort happens only when the merge outgrows the count field.
pub open spec fn list_post<E: ProvideEngine, P: ProvideData>(
    engine: E,
    store0: P,
    r: Result<MultiContainersResponseBody, Error>,
) -> bool {
    match r {
        Ok(resp) => {
            &&& resp@.containers == list_result(engine.live(), store0.records())
            &&& resp@.containers_count == resp@.containers.len()
        },
        Err(e) => match e {
            Error::StoreError { step, source: _ } => step == WorkflowStep::ListingRecords,
            Error::EngineError { step, msg: _ } => step == WorkflowStep::ListingContainers,
            Error::WorkflowAborted { step, msg: _ } => step == WorkflowStep::MergingResults
                && list_result(engine.live(), store0.records()).len() > i32::MAX,
        },
    }
}

/// The reconciling list workflow: collect the persisted records within one
/// transaction, query the engine for the live containers filtered by the
/// persisted ids, and merge the replies, in strictly this order, aborting on
/// the first failure.
///
/// A store failure is terminal before any engine query; an engine failure
/// returns no partial list.  An empty store queries the engine with an empty
/// filter, which by the port contract yields an empty reply, never an
/// unfiltered dump.
pub fn list_containers<E: ProvideEngine, P: ProvideData>(engine: &E, store: &mut P) -> (r: Result<
    MultiContainersResponseBody,
    Error,
>)
    requires
        engine.wf(),
        old(store).wf(),
    ensures
        final(store).wf(),
        final(store).records() == old(store).records(),
        list_post(*engine, *old(store), r),
{
    let entities = match store.get_all_containers() {
        Ok(v) => v,
        Err(pe) => {
            return Err(Error::StoreError { step: WorkflowStep::ListingRecords, source: pe });
        },
    };

    let mut ids: Vec<String> = Vec::new();
    let mut i: usize = 0;
    while i < entities.len()
        invariant
            0 <= i <= entities@.len(),
            id_views(ids@) == ids_of(views_of(entities@)).take(i as int),
            ids@.len() == i,
        decreases entities@.len() - i,
    {
        ids.push(entities[i].id.clone());
        proof {
            assert(id_views(ids@) =~= ids_of(views_of(entities@)).take(i + 1 as int));
        }
        i += 1;
    }
    proof {
        assert(ids_of(views_of(entities@)).take(entities@.len() as int) =~= ids_of(
            views_of(entities@),
        ));
    }

    let summaries = match engine.list_containers(&ids) {
        Ok(v) => v,
        Err(m) => {
            return Err(Error::EngineError { step: WorkflowStep::ListingContainers, msg: m });
        },
    };

    let mut containers: Vec<Container> = Vec::new();
    let mut j: usize = 0;
    while j < summaries.len()
        invariant
            0 <= j <= summaries@.len(),
            containers@.map_values(|c: Container| c@) == merged(
                engine_views_of(summaries@).take(j as int),
            ),
            containers@.len() == j,
        decreases summaries@.len() - j,
    {
        let ghost pre_containers = containers@;
        containers.push(Container::from_engine_view(&summaries[j]));
        proof {
            let vs = engine_views_of(summaries@);
            let m = (ContainerV {
                id: vs[j as int].id,
                name: "NA"@,
                image: vs[j as int].image,
                created_at: vs[j as int].created,
                updated_at: vs[j as int].created,
            });
            assert(vs[j as int] == summaries@[j as int]@);
            assert(containers@.last()@ == m);
            assert(vs.take(j + 1 as int) =~= vs.take(j as int).push(vs[j as int]));
            assert(merged(vs.take(j + 1 as int)) =~= merged(vs.take(j as int)).push(m));
            assert(containers@.map_values(|c: Container| c@) =~= pre_containers.map_values(
                |c: Container| c@,
            ).push(m));
        }
        j += 1;
    }
    proof {
        assert(engine_views_of(summaries@).take(summaries@.len() as int) =~= engine_views_of(
            summaries@,
        ));
    }

    if containers.len() > i32::MAX as usize {
        return Err(Error::WorkflowAborted {
            step: WorkflowStep::MergingResults,
            msg: String::from_str("too many containers for one response"),
        });
    }

    Ok(MultiContainersResponseBody::from_containers(containers))
}

/// Uniqueness law: for every name, a create succeeds at most once.  A
/// successful create leaves the requested name persisted, and against the
/// records it leaves behind no create of the same name can succeed again —
/// by the store contract its persist step is refused as a uniqueness
/// violation instead.
pub proof fn lemma_create_unique(
    images0: Set<Seq<char>>,
    images1: Set<Seq<char>>,
    live0: Seq<LiveContainerV>,
    live1: Seq<LiveContainerV>,
    recs0: Seq<ContainerEntityV>,
    recs1: Seq<ContainerEntityV>,
    req: ContainerRequestBodyV,
    resp: SingleContainerResponseBodyV,
)
    requires
        create_succeeded(images0, images1, live0, live1, recs0, recs1, req, resp),
    ensures
        has_name(recs1, req.name),
        forall|
            images2: Set<Seq<char>>,
            images3: Set<Seq<char>>,
            live2: Seq<LiveContainerV>,
            live3: Seq<LiveContainerV>,
            recs2: Seq<ContainerEntityV>,
            req2: ContainerRequestBodyV,
            resp2: SingleContainerResponseBodyV,
        |
            req2.name == req.name ==> !create_succeeded(
                images2,
                images3,
                live2,
                live3,
                recs1,
                recs2,
                req2,
                resp2,
            ),
{
    assert(recs1[recs1.len() - 1].name == req.name);
    assert(has_name(recs1, req.name));
    assert forall|
        images2: Set<Seq<char>>,
        images3: Set<Seq<char>>,
        live2: Seq<LiveContainerV>,
        live3: Seq<LiveContainerV>,
        recs2: Seq<ContainerEntityV>,
        req2: ContainerRequestBodyV,
        resp2: SingleContainerResponseBodyV,
    |
        req2.name == req.name implies !create_succeeded(
        images2,
        images3,
        live2,
        live3,
        recs1,
        recs2,
        req2,
        resp2,
    ) by {
        if create_succeeded(images2, images3, live2, live3, recs1, recs2, req2, resp2) {
            assert(!has_name(recs1, req2.name));
        }
    }
}

/// Round-trip law: after a successful create, the record carrying the
/// requested name — the one a find-by-name hands back — carries exactly the
/// engine-assigned id of the response and the requested image.
pub proof fn lemma_round_trip(
    images0: Set<Seq<char>>,
    images1: Set<Seq<char>>,
    live0: Seq<LiveContainerV>,
    live1: Seq<LiveContainerV>,
    recs0: Seq<ContainerEntityV>,
    recs1: Seq<ContainerEntityV>,
    req: ContainerRequestBodyV,
    resp: SingleContainerResponseBodyV,
    e: ContainerEntityV,
)
    requires
        create_succeeded(images0, images1, live0, live1, recs0, recs1, req, resp),
        recs1.contains(e),
        e.name == req.name,
    ensures
        e.id == resp.container->Some_0.id,
        e.image == req.image,
        has_name(recs1, req.name),
{
    assert(recs1[recs1.len() - 1].name == req.name);
    assert(has_name(recs1, req.name));
    let k = recs1.lemma_contains_to_index(e);
    if k < recs1.len() - 1 {
        assert(recs0[k] == e);
        assert(has_name(recs0, req.name));
        assert(false);
    }
}

/// The ids of a sequence of reconciled containers, in order.
pub open spec fn result_ids(cs: Seq<ContainerV>) -> Seq<Seq<char>> {
    cs.map_values(|c: ContainerV| c.id)
}

/// Some engine reply carries this id.
pub open spec fn has_view_id(vs: Seq<EngineContainerViewV>, y: Seq<char>) -> bool {
    exists|k: int| 0 <= k < vs.len() && vs[k].id == y
}

/// An id occurs among the filtered views exactly when it is both in the
/// filter and live.
proof fn lemma_filtered_contains(live: Seq<LiveContainerV>, ids: Seq<Seq<char>>, y: Seq<char>)
    ensures
        has_view_id(filtered_views(live, ids), y) <==> (ids.contains(y) && has_live_id(live, y)),
    decreases live.len(),
{
    if live.len() == 0 {
    } else {
        let rest = live.drop_last();
        let last = live.last();
        lemma_filtered_contains(rest, ids, y);
        let fv = filtered_views(live, ids);
        let fvr = filtered_views(rest, ids);
        assert(has_live_id(live, y) <==> (has_live_id(rest, y) || last.id == y)) by {
            if has_live_id(live, y) {
                let i = choose|i: int| 0 <= i < live.len() && live[i].id == y;
                if i < rest.len() {
                    assert(rest[i].id == y);
                } else {
                    assert(live[i] == last);
                }
            }
            if has_live_id(rest, y) {
                let i = choose|i: int| 0 <= i < rest.len() && rest[i].id == y;
                assert(live[i].id == y);
            }
            if last.id == y {
                assert(live[live.len() - 1].id == y);
            }
        }
        if ids.contains(last.id) {
            assert(has_view_id(fv, y) <==> (has_view_id(fvr, y) || last.id == y)) by {
                if has_view_id(fv, y) {
                    let k = choose|k: int| 0 <= k < fv.len() && fv[k].id == y;
                    if k < fvr.len() {
                        assert(fvr[k].id == y);
                    }
                }
                if has_view_id(fvr, y) {
                    let k = choose|k: int| 0 <= k < fvr.len() && fvr[k].id == y;
                    assert(fv[k].id == y);
                }
                if last.id == y {
                    assert(fv[fv.len() - 1].id == y);
                }
            }
        } else {
            assert(fv == fvr);
            if has_live_id(live, y) && ids.contains(y) && last.id == y {
                assert(false);
            }
        }
    }
}

/// List filtering law: for any persisted record set S and any engine state,
/// the ids of the list-workflow result are exactly the persisted ids
/// intersected with the live ids — never a superset, and records the engine
/// did not echo back are omitted.
pub proof fn lemma_list_filtering(live: Seq<LiveContainerV>, recs: Seq<ContainerEntityV>)
    ensures
        result_ids(list_result(live, recs)).to_set() == ids_of(recs).to_set().intersect(
            live_ids(live).to_set(),
        ),
{
    let fv = filtered_views(live, ids_of(recs));
    let out = result_ids(list_result(live, recs));
    assert forall|y: Seq<char>|
        out.to_set().contains(y) == ids_of(recs).to_set().intersect(
            live_ids(live).to_set(),
        ).contains(y) by {
        lemma_filtered_contains(live, ids_of(recs), y);
        assert(out.contains(y) <==> has_view_id(fv, y)) by {
            assert(out.len() == fv.len());
            assert(forall|k: int| 0 <= k < fv.len() ==> out[k] == fv[k].id);
            if out.contains(y) {
                let k = choose|k: int| 0 <= k < out.len() && out[k] == y;
                assert(fv[k].id == y);
            }
            if has_view_id(fv, y) {
                let k = choose|k: int| 0 <= k < fv.len() && fv[k].id == y;
                assert(out[k] == y);
            }
        }
        assert(live_ids(live).contains(y) <==> has_live_id(live, y)) by {
            assert(forall|k: int| 0 <= k < live.len() ==> live_ids(live)[k] == live[k].id);
            if live_ids(live).contains(y) {
                let k = choose|k: int| 0 <= k < live_ids(live).len() && live_ids(live)[k] == y;
                assert(live[k].id == y);
            }
            if has_live_id(live, y) {
                let k = choose|k: int| 0 <= k < live.len() && live[k].id == y;
                assert(live_ids(live)[k] == y);
            }
        }
    }
    assert(out.to_set() =~= ids_of(recs).to_set().intersect(live_ids(live).to_set()));
}

/// Empty-store law: with no persisted record the list result is empty for
/// every engine state — the empty filter yields an empty reply, never an
/// unfiltered dump.
pub proof fn lemma_empty_store_list(live: Seq<LiveContainerV>)
    ensures
        list_result(live, Seq::<ContainerEntityV>::empty()) == Seq::<ContainerV>::empty(),
    decreases live.len(),
{
    let ids = ids_of(Seq::<ContainerEntityV>::empty());
    assert(ids.len() == 0);
    if live.len() == 0 {
        assert(filtered_views(live, ids) =~= Seq::<EngineContainerViewV>::empty());
    } else {
        lemma_empty_store_list(live.drop_last());
        assert(!ids.contains(live.last().id));
        assert(filtered_views(live, ids) == filtered_views(live.drop_last(), ids));
    }
    assert(merged(filtered_views(live, ids)) =~= Seq::<ContainerV>::empty());
}

} // verus!
