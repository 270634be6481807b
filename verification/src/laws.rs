//! What holds of every composed task, proved from the definitions of the
//! combinators.
//!
//! A task is described by the outcomes it can have, so a statement about "the
//! run" of a part is made as a statement about all its outcomes on the given
//! input and shared resources.
use vstd::prelude::*;
use crate::error::LoadError;
use crate::error::LoadErrorView;
use crate::load::{ComponentKind, ComponentLoaderView, ComponentMux, JSONLoadView};
use crate::scene::SpriteRenderSceneLoader;
use crate::task::{Joined, Mapped, Sequenced, Serialized, Task};
use crate::shared::{EntityView, Handles, TextureDict, ContainerView};

verus! {

/// Where the first task of a sequence fails, the sequence ends exactly as the
/// first task did: with its error, and with the shared resources as the first
/// task left them.  The second task has taken no part.
pub proof fn sequence_stops_at_first_failure<I: Copy, S, O, P, A: Task<I, S, Output = O>, B: Task<I, S, Output = P>>(
    plan: Sequenced<A, B>,
    input: I,
    shared: S,
    outcome: (Result<P, LoadError>, S),
)
    requires
        forall|lead: (Result<O, LoadError>, S)| #[trigger]
            plan.first.yields(input, shared, lead) ==> lead.0 is Err,
        plan.yields(input, shared, outcome),
    ensures
        outcome.0 is Err,
        plan.first.yields(input, shared, (Err(outcome.0->Err_0), outcome.1)),
{
    let lead = choose|lead: (Result<O, LoadError>, S)| #[trigger]
        plan.first.yields(input, shared, lead) && match lead.0 {
            Ok(_) => plan.second.yields(input, lead.1, outcome),
            Err(e) => outcome == (Err::<P, LoadError>(e), lead.1),
        };
    assert(lead == (Err::<O, LoadError>(lead.0->Err_0), lead.1));
}

/// Where the first task of a sequence fails, the sequence may be run wherever
/// the first task may: nothing is asked of the second task.
pub proof fn sequence_asks_nothing_of_second_after_failure<I: Copy, S, O, P, A: Task<I, S, Output = O>, B: Task<I, S, Output = P>>(
    plan: Sequenced<A, B>,
    input: I,
    shared: S,
)
    requires
        forall|lead: (Result<O, LoadError>, S)| #[trigger]
            plan.first.yields(input, shared, lead) ==> lead.0 is Err,
    ensures
        plan.accepts(input, shared) == plan.first.accepts(input, shared),
{
}

/// Where the first task of a sequence succeeds, the sequence ends as the
/// second task does when run on the shared resources that the first task left.
pub proof fn sequence_runs_second_after_first<I: Copy, S, O, P, A: Task<I, S, Output = O>, B: Task<I, S, Output = P>>(
    plan: Sequenced<A, B>,
    input: I,
    shared: S,
    out: O,
    mid: S,
    outcome: (Result<P, LoadError>, S),
)
    requires
        forall|lead: (Result<O, LoadError>, S)| #[trigger]
            plan.first.yields(input, shared, lead) ==> lead == (Ok::<O, LoadError>(out), mid),
        plan.yields(input, shared, outcome),
    ensures
        plan.second.yields(input, mid, outcome),
{
}

/// Where the task under a `map` fails, the mapped task ends exactly as that
/// task did: the function has not been called.
pub proof fn map_stops_at_failure<I, S, O, P, T, F>(
    mapped: Mapped<T, F>,
    input: I,
    shared: S,
    outcome: (Result<P, LoadError>, S),
) where T: Task<I, S, Output = O>, F: FnOnce(O, S) -> (Result<P, LoadError>, S)
    requires
        forall|first: (Result<O, LoadError>, S)| #[trigger]
            mapped.task.yields(input, shared, first) ==> first.0 is Err,
        mapped.yields(input, shared, outcome),
    ensures
        outcome.0 is Err,
        mapped.task.yields(input, shared, (Err(outcome.0->Err_0), outcome.1)),
{
    let first = choose|first: (Result<O, LoadError>, S)| #[trigger]
        mapped.task.yields(input, shared, first) && match first.0 {
            Ok(out) => call_ensures(mapped.f, (out, first.1), outcome),
            Err(e) => outcome == (Err::<P, LoadError>(e), first.1),
        };
    assert(first == (Err::<O, LoadError>(first.0->Err_0), first.1));
}

/// Where the task under a `map` fails, the mapped task may be run wherever
/// that task may: nothing is asked of the function.
pub proof fn map_asks_nothing_of_function_after_failure<I, S, O, P, T, F>(
    mapped: Mapped<T, F>,
    input: I,
    shared: S,
) where T: Task<I, S, Output = O>, F: FnOnce(O, S) -> (Result<P, LoadError>, S)
    requires
        forall|first: (Result<O, LoadError>, S)| #[trigger]
            mapped.task.yields(input, shared, first) ==> first.0 is Err,
    ensures
        mapped.accepts(input, shared) == mapped.task.accepts(input, shared),
{
}

/// Where the task under a `map` succeeds, the function is called on its output
/// and on the shared resources that it left, and the mapped task ends as the
/// function does.
pub proof fn map_applies_function_to_output<I, S, O, P, T, F>(
    mapped: Mapped<T, F>,
    input: I,
    shared: S,
    out: O,
    mid: S,
    outcome: (Result<P, LoadError>, S),
) where T: Task<I, S, Output = O>, F: FnOnce(O, S) -> (Result<P, LoadError>, S)
    requires
        forall|first: (Result<O, LoadError>, S)| #[trigger]
            mapped.task.yields(input, shared, first) ==> first == (Ok::<O, LoadError>(out), mid),
        mapped.yields(input, shared, outcome),
    ensures
        call_ensures(mapped.f, (out, mid), outcome),
{
}

/// Where both tasks of a join succeed, the combine function is called on the
/// pair (output of the first, output of the second), in that order, and the
/// join ends with what it returns and with the shared resources as the second
/// task left them.
pub proof fn join_combines_in_order<I: Copy, S, O, P, R, A, B, C>(
    joined: Joined<A, B, C>,
    input: I,
    shared: S,
    left: O,
    mid: S,
    right: P,
    last: S,
    outcome: (Result<R, LoadError>, S),
) where A: Task<I, S, Output = O>, B: Task<I, S, Output = P>, C: FnOnce((O, P)) -> R
    requires
        forall|lead: (Result<O, LoadError>, S)| #[trigger]
            joined.first.yields(input, shared, lead) ==> lead == (Ok::<O, LoadError>(left), mid),
        forall|follow: (Result<P, LoadError>, S)| #[trigger]
            joined.second.yields(input, mid, follow) ==> follow == (
                Ok::<P, LoadError>(right),
                last,
            ),
        joined.yields(input, shared, outcome),
    ensures
        outcome.0 is Ok,
        outcome.1 == last,
        call_ensures(joined.combine, ((left, right),), outcome.0->Ok_0),
{
}

/// Where the first task of a join fails, the join ends exactly as the first
/// task did: neither the second task nor the combine function has run.
pub proof fn join_stops_at_first_failure<I: Copy, S, O, P, R, A, B, C>(
    joined: Joined<A, B, C>,
    input: I,
    shared: S,
    outcome: (Result<R, LoadError>, S),
) where A: Task<I, S, Output = O>, B: Task<I, S, Output = P>, C: FnOnce((O, P)) -> R
    requires
        forall|lead: (Result<O, LoadError>, S)| #[trigger]
            joined.first.yields(input, shared, lead) ==> lead.0 is Err,
        joined.yields(input, shared, outcome),
    ensures
        outcome.0 is Err,
        joined.first.yields(input, shared, (Err(outcome.0->Err_0), outcome.1)),
        joined.accepts(input, shared) == joined.first.accepts(input, shared),
{
    let lead = choose|lead: (Result<O, LoadError>, S)| #[trigger]
        joined.first.yields(input, shared, lead) && crate::task::join_after::<I, S, O, P, R, B, C>(
            lead,
            joined.second,
            joined.combine,
            input,
            outcome,
        );
    assert(lead == (Err::<O, LoadError>(lead.0->Err_0), lead.1));
}

/// Where the first task of a join succeeds and the second fails, the join ends
/// exactly as the second task did: the combine function has not run.
pub proof fn join_stops_at_second_failure<I: Copy, S, O, P, R, A, B, C>(
    joined: Joined<A, B, C>,
    input: I,
    shared: S,
    left: O,
    mid: S,
    outcome: (Result<R, LoadError>, S),
) where A: Task<I, S, Output = O>, B: Task<I, S, Output = P>, C: FnOnce((O, P)) -> R
    requires
        forall|lead: (Result<O, LoadError>, S)| #[trigger]
            joined.first.yields(input, shared, lead) ==> lead == (Ok::<O, LoadError>(left), mid),
        forall|follow: (Result<P, LoadError>, S)| #[trigger]
            joined.second.yields(input, mid, follow) ==> follow.0 is Err,
        joined.yields(input, shared, outcome),
    ensures
        outcome.0 is Err,
        joined.second.yields(input, mid, (Err(outcome.0->Err_0), outcome.1)),
{
    let lead = choose|lead: (Result<O, LoadError>, S)| #[trigger]
        joined.first.yields(input, shared, lead) && crate::task::join_after::<I, S, O, P, R, B, C>(
            lead,
            joined.second,
            joined.combine,
            input,
            outcome,
        );
    let follow = choose|follow: (Result<P, LoadError>, S)| #[trigger]
        joined.second.yields(input, mid, follow) && outcome.1 == follow.1 && match follow.0 {
            Ok(right) => outcome.0 is Ok && call_ensures(
                joined.combine,
                ((left, right),),
                outcome.0->Ok_0,
            ),
            Err(e) => outcome.0 == Err::<R, LoadError>(e),
        };
    assert(follow == (Err::<P, LoadError>(follow.0->Err_0), follow.1));
}

/// The step of a `serialize` is run on the very output of the preceding task,
/// and on the shared resources as that task left them, with all that it wrote:
/// the chain ends as the step does on the two.
pub proof fn serialize_hands_over_output_and_live_resources<I, S, O, P, A, B>(
    chain: Serialized<A, B>,
    input: I,
    shared: S,
    out: O,
    mid: S,
    outcome: (Result<P, LoadError>, S),
) where A: Task<I, S, Output = O>, B: Task<O, S, Output = P>
    requires
        forall|lead: (Result<O, LoadError>, S)| #[trigger]
            chain.first.yields(input, shared, lead) ==> lead == (Ok::<O, LoadError>(out), mid),
        chain.yields(input, shared, outcome),
    ensures
        chain.step.yields(out, mid, outcome),
{
}

/// Where the preceding task of a `serialize` fails, the chain ends exactly as
/// that task did: the step has not run.
pub proof fn serialize_stops_at_failure<I, S, O, P, A, B>(
    chain: Serialized<A, B>,
    input: I,
    shared: S,
    outcome: (Result<P, LoadError>, S),
) where A: Task<I, S, Output = O>, B: Task<O, S, Output = P>
    requires
        forall|lead: (Result<O, LoadError>, S)| #[trigger]
            chain.first.yields(input, shared, lead) ==> lead.0 is Err,
        chain.yields(input, shared, outcome),
    ensures
        outcome.0 is Err,
        chain.first.yields(input, shared, (Err(outcome.0->Err_0), outcome.1)),
{
    let lead = choose|lead: (Result<O, LoadError>, S)| #[trigger]
        chain.first.yields(input, shared, lead) && match lead.0 {
            Ok(out) => chain.step.yields(out, lead.1, outcome),
            Err(e) => outcome == (Err::<P, LoadError>(e), lead.1),
        };
    assert(lead == (Err::<O, LoadError>(lead.0->Err_0), lead.1));
}

/// A load of entities never takes back what is registered: whether it
/// succeeds or fails, the entities that the state container held before are
/// still its first entities, in the same order, and the texture dictionary is
/// as it was.
pub proof fn entity_load_keeps_what_is_registered<M: ComponentMux>(
    mux: M,
    entities: Seq<Seq<JSONLoadView>>,
    poisoned: bool,
    world: ContainerView,
)
    ensures
        ({
            let after = crate::load::load_entities(mux, entities, poisoned, world).1;
            &&& after.texture_dict == world.texture_dict
            &&& after.entities.len() >= world.entities.len()
            &&& after.entities.subrange(0, world.entities.len() as int) == world.entities
        }),
    decreases entities.len(),
{
    let after = crate::load::load_entities(mux, entities, poisoned, world).1;
    if entities.len() == 0 || poisoned {
        assert(after.entities.subrange(0, world.entities.len() as int) =~= world.entities);
    } else {
        match crate::load::build_entity(mux, entities[0], crate::shared::bare_entity(), world) {
            Err(e) => {
                assert(after.entities.subrange(0, world.entities.len() as int) =~= world.entities);
            },
            Ok(entity) => {
                let next = ContainerView { entities: world.entities.push(entity), ..world };
                entity_load_keeps_what_is_registered(mux, entities.drop_first(), poisoned, next);
                assert(after.entities.subrange(0, world.entities.len() as int)
                    =~= after.entities.subrange(0, next.entities.len() as int).subrange(
                    0,
                    world.entities.len() as int,
                ));
                assert(next.entities.subrange(0, world.entities.len() as int) =~= world.entities);
            },
        }
    }
}

/// A load of entities that succeeds has registered one entity for each
/// descriptor; one that fails has registered fewer.
pub proof fn entity_load_registers_each_or_fails<M: ComponentMux>(
    mux: M,
    entities: Seq<Seq<JSONLoadView>>,
    poisoned: bool,
    world: ContainerView,
)
    ensures
        ({
            let (result, after) = crate::load::load_entities(mux, entities, poisoned, world);
            match result {
                Ok(_) => after.entities.len() == world.entities.len() + entities.len(),
                Err(_) => after.entities.len() < world.entities.len() + entities.len(),
            }
        }),
    decreases entities.len(),
{
    if entities.len() == 0 || poisoned {
    } else {
        match crate::load::build_entity(mux, entities[0], crate::shared::bare_entity(), world) {
            Err(e) => {},
            Ok(entity) => {
                let next = ContainerView { entities: world.entities.push(entity), ..world };
                entity_load_registers_each_or_fails(mux, entities.drop_first(), poisoned, next);
            },
        }
    }
}

/// The first component that cannot be resolved or loaded fails the entity
/// with its error: where the components before number `at` load, and the
/// dispatch refuses component number `at`, building the entity fails with the
/// error of the dispatch.
pub proof fn first_refused_component_fails_the_entity<M: ComponentMux>(
    mux: M,
    components: Seq<JSONLoadView>,
    at: int,
    entity: EntityView,
    world: ContainerView,
    error: LoadErrorView,
)
    requires
        0 <= at < components.len(),
        crate::load::build_entity(mux, components.take(at), entity, world) is Ok,
        mux.loader_for(components[at]) == Err::<ComponentLoaderView, LoadErrorView>(error),
    ensures
        crate::load::build_entity(mux, components, entity, world) == Err::<EntityView, LoadErrorView>(
            error,
        ),
    decreases at,
{
    if at > 0 {
        let head = components.take(at);
        assert(head[0] == components[0]);
        let loader = mux.loader_for(components[0])->Ok_0;
        let next = crate::load::with_component(loader, entity, world)->Ok_0;
        assert(head.drop_first() =~= components.drop_first().take(at - 1));
        first_refused_component_fails_the_entity(
            mux,
            components.drop_first(),
            at - 1,
            next,
            world,
            error,
        );
    }
}

/// A load of entities commits entity by entity: where the entities before
/// number `at` load and leave the state container holding `mid`, and entity
/// number `at` cannot be built, the load fails with the error of that entity
/// and leaves the state container holding `mid`.  The entities before it stay
/// registered; it and those after it are not.
pub proof fn failed_entity_load_keeps_the_entities_before<M: ComponentMux>(
    mux: M,
    entities: Seq<Seq<JSONLoadView>>,
    at: int,
    world: ContainerView,
    mid: ContainerView,
    error: LoadErrorView,
)
    requires
        0 <= at < entities.len(),
        crate::load::load_entities(mux, entities.take(at), false, world) == (
            Ok::<(), LoadErrorView>(()),
            mid,
        ),
        crate::load::build_entity(mux, entities[at], crate::shared::bare_entity(), mid) == Err::<
            EntityView,
            LoadErrorView,
        >(error),
    ensures
        crate::load::load_entities(mux, entities, false, world) == (
            Err::<(), LoadErrorView>(error),
            mid,
        ),
    decreases at,
{
    if at > 0 {
        let head = entities.take(at);
        assert(head[0] == entities[0]);
        let entity = crate::load::build_entity(
            mux,
            entities[0],
            crate::shared::bare_entity(),
            world,
        )->Ok_0;
        let next = ContainerView { entities: world.entities.push(entity), ..world };
        assert(head.drop_first() =~= entities.drop_first().take(at - 1));
        failed_entity_load_keeps_the_entities_before(
            mux,
            entities.drop_first(),
            at - 1,
            next,
            mid,
            error,
        );
    } else {
        assert(entities.take(0).len() == 0);
    }
}

/// The sprite-render scene loader dispatches as the table does in which
/// `"texture"` names the texture constructor and `"transform"` the transform
/// constructor, and nothing else is registered.
pub proof fn scene_loader_dispatches_as_its_table(loader: SpriteRenderSceneLoader, json: JSONLoadView)
    ensures
        loader.loader_for(json) == crate::load::dispatch(
            Map::<Seq<char>, ComponentKind>::empty().insert(
                crate::load::TEXTURE_LOAD_ID@,
                ComponentKind::Texture,
            ).insert(crate::load::TRANSFORM_LOAD_ID@, ComponentKind::Transform),
            json,
        ),
{
    reveal_strlit("texture");
    reveal_strlit("transform");
    assert(crate::load::TEXTURE_LOAD_ID@.len() != crate::load::TRANSFORM_LOAD_ID@.len());
}

/// The scene stack is loaded with the texture dictionary in place: where the
/// dictionary task produces `dict` and leaves the shared resources `mid`
/// behind a sound handle, the scene-stack task of [`crate::scene::load_with`] runs
/// on shared resources whose state container answers for every name as
/// `dict` does, and the load ends as that run does.
pub proof fn load_shows_the_dictionary_to_the_scene_stack<C, O, A, B>(
    texture_dict: A,
    scene_stack: B,
    shared: Handles<C>,
    dict: TextureDict,
    mid: Handles<C>,
    outcome: (Result<O, LoadError>, Handles<C>),
) where A: Task<(), Handles<C>, Output = TextureDict>, B: Task<(), Handles<C>, Output = O>
    requires
        forall|read: (Result<TextureDict, LoadError>, Handles<C>)| #[trigger]
            texture_dict.yields((), shared, read) ==> read == (
                Ok::<TextureDict, LoadError>(dict),
                mid,
            ),
        !mid.state.poisoned,
        crate::scene::load_with_yields(texture_dict, scene_stack, shared, outcome),
    ensures
        exists|after: Handles<C>|
            {
                &&& crate::scene::installed(mid, dict, after)
                &&& #[trigger] scene_stack.yields((), after, outcome)
                &&& forall|name: Seq<char>| #[trigger]
                    crate::shared::texture_named(after.state.resource@, name) == crate::shared::filed(
                        dict@,
                        name,
                    )
            },
{
    let read = choose|read: (Result<TextureDict, LoadError>, Handles<C>)| #[trigger]
        texture_dict.yields((), shared, read) && crate::scene::load_with_after(read, scene_stack, outcome);
    let placed = choose|placed: (Result<(), LoadError>, Handles<C>)| #[trigger]
        crate::scene::dict_installed(dict, mid, placed) && match placed.0 {
            Err(e) => outcome == (Err::<O, LoadError>(e), placed.1),
            Ok(_) => scene_stack.yields((), placed.1, outcome),
        };
    assert(scene_stack.yields((), placed.1, outcome));
}

} // verus!
