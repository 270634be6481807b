//! The scene stack and its load.
use vstd::prelude::*;
use crate::error::{LoadError, LoadErrorView};
use crate::load::{EntityJSON, JSONLoad};
use crate::scene::{scene_factory, SpriteRenderScene, SpriteRenderSceneJSON, SpriteRenderSceneLoader};
use crate::task::Task;
use crate::shared::Handles;

verus! {

/// The scenes of a game, the one on top last.
#[derive(Debug)]
pub struct SceneStack<T> {
    pub scenes: Vec<T>,
}

impl<T> SceneStack<T> {
    /// A stack without scenes.
    pub fn new() -> (stack: SceneStack<T>)
        ensures
            stack.scenes@ == Seq::<T>::empty(),
    {
        SceneStack { scenes: Vec::new() }
    }

    /// Puts `scene` on top.
    pub fn push(&mut self, scene: T)
        ensures
            final(self).scenes@ == old(self).scenes@.push(scene),
    {
        self.scenes.push(scene);
    }

    /// How many scenes the stack holds.
    pub fn len(&self) -> (count: usize)
        ensures
            count == self.scenes@.len(),
    {
        self.scenes.len()
    }

    /// The scene on top, if the stack holds one.
    pub fn top(&self) -> (scene: Option<&T>)
        ensures
            match scene {
                Some(top) => self.scenes@.len() > 0 && *top == self.scenes@.last(),
                None => self.scenes@.len() == 0,
            },
    {
        if self.scenes.len() > 0 {
            Some(&self.scenes[self.scenes.len() - 1])
        } else {
            None
        }
    }
}

/// Where a load of the scenes `scenes` may be run: each known scene needs
/// its three tasks made, and the scene load made of them must be runnable on
/// what the scenes before it can leave.
pub open spec fn stack_accepts<C, R, A, D, E, FA, FD, FE>(
    scenes: Seq<JSONLoad>,
    renderers: FA,
    descriptors: FD,
    entities: FE,
    shared: Handles<C>,
) -> bool where
    FA: Fn() -> A,
    FD: Fn() -> D,
    FE: Fn() -> E,
    A: Task<(), Handles<C>, Output = R>,
    D: Task<String, Handles<C>, Output = SpriteRenderSceneJSON>,
    E: Task<Vec<String>, Handles<C>, Output = Vec<EntityJSON>>,

    decreases scenes.len(),
{
    scenes.len() == 0 || scenes[0]@.load_type_id != crate::scene::SPRITE_RENDER_SCENE_ID@ || {
        &&& call_requires(renderers, ())
        &&& call_requires(descriptors, ())
        &&& call_requires(entities, ())
        &&& forall|loader: SpriteRenderSceneLoader, renderer: A, descriptor: D, fetch: E|
            call_ensures(renderers, (), renderer) && call_ensures(descriptors, (), descriptor)
                && call_ensures(entities, (), fetch) && loader.path@ == crate::scene::scene_path(
                crate::scene::SPRITE_RENDER_SCENE_ID@,
            ) ==> {
                &&& #[trigger] crate::scene::scene_accepts(loader, renderer, descriptor, fetch, shared)
                &&& forall|scene: SpriteRenderScene<R>, next: Handles<C>| #[trigger]
                    crate::scene::scene_yields(
                        loader,
                        renderer,
                        descriptor,
                        fetch,
                        shared,
                        (Ok(scene), next),
                    ) ==> stack_accepts(scenes.drop_first(), renderers, descriptors, entities, next)
            }
    }
}

/// How a load of the scenes `scenes` ends that has the scenes `done` on the
/// stack already.  The scenes are loaded in order, each on the shared
/// resources as the one before left them, and put on the stack.  A scene of
/// an unknown kind, or a scene load that fails, ends the load with its error.
pub open spec fn stack_yields<C, R, A, D, E, FA, FD, FE>(
    scenes: Seq<JSONLoad>,
    done: Seq<SpriteRenderScene<R>>,
    renderers: FA,
    descriptors: FD,
    entities: FE,
    shared: Handles<C>,
    outcome: (Result<SceneStack<SpriteRenderScene<R>>, LoadError>, Handles<C>),
) -> bool where
    FA: Fn() -> A,
    FD: Fn() -> D,
    FE: Fn() -> E,
    A: Task<(), Handles<C>, Output = R>,
    D: Task<String, Handles<C>, Output = SpriteRenderSceneJSON>,
    E: Task<Vec<String>, Handles<C>, Output = Vec<EntityJSON>>,

    decreases scenes.len(),
{
    if scenes.len() == 0 {
        outcome.1 == shared && outcome.0 is Ok && outcome.0->Ok_0.scenes@ == done
    } else if scenes[0]@.load_type_id != crate::scene::SPRITE_RENDER_SCENE_ID@ {
        outcome.1 == shared && crate::error::with_error_view(outcome.0) == Err::<
            SceneStack<SpriteRenderScene<R>>,
            LoadErrorView,
        >(crate::scene::unknown_scene())
    } else {
        exists|
            loader: SpriteRenderSceneLoader,
            renderer: A,
            descriptor: D,
            fetch: E,
            first: (Result<SpriteRenderScene<R>, LoadError>, Handles<C>),
        |
            call_ensures(renderers, (), renderer) && call_ensures(descriptors, (), descriptor)
                && call_ensures(entities, (), fetch) && loader.path@ == crate::scene::scene_path(
                crate::scene::SPRITE_RENDER_SCENE_ID@,
            ) && #[trigger] crate::scene::scene_yields(
                loader,
                renderer,
                descriptor,
                fetch,
                shared,
                first,
            ) && match first.0 {
                Err(e) => outcome == (Err::<SceneStack<SpriteRenderScene<R>>, LoadError>(e), first.1),
                Ok(scene) => stack_yields(
                    scenes.drop_first(),
                    done.push(scene),
                    renderers,
                    descriptors,
                    entities,
                    first.1,
                    outcome,
                ),
            }
    }
}

/// Loads the scenes from number `from` on and puts them on `stack`.
fn load_scenes_from<C, R, A, D, E, FA, FD, FE>(
    scenes: &Vec<JSONLoad>,
    from: usize,
    stack: SceneStack<SpriteRenderScene<R>>,
    renderers: &FA,
    descriptors: &FD,
    entities: &FE,
    shared: Handles<C>,
) -> (outcome: (Result<SceneStack<SpriteRenderScene<R>>, LoadError>, Handles<C>)) where
    FA: Fn() -> A,
    FD: Fn() -> D,
    FE: Fn() -> E,
    A: Task<(), Handles<C>, Output = R>,
    D: Task<String, Handles<C>, Output = SpriteRenderSceneJSON>,
    E: Task<Vec<String>, Handles<C>, Output = Vec<EntityJSON>>,

    requires
        from <= scenes.len(),
        stack_accepts(scenes@.skip(from as int), *renderers, *descriptors, *entities, shared),
    ensures
        stack_yields(
            scenes@.skip(from as int),
            stack.scenes@,
            *renderers,
            *descriptors,
            *entities,
            shared,
            outcome,
        ),
    decreases scenes.len() - from,
{
    if from == scenes.len() {
        return (Ok(stack), shared);
    }
    let ghost rest = scenes@.skip(from as int);
    proof {
        assert(rest[0] == scenes@[from as int]);
        assert(rest.drop_first() =~= scenes@.skip(from + 1));
    }
    match scene_factory(scenes[from].duplicate()) {
        Err(e) => (Err(e), shared),
        Ok(loader) => {
            let renderer = renderers();
            let descriptor = descriptors();
            let fetch = entities();
            proof {
                assert(crate::scene::scene_accepts(loader, renderer, descriptor, fetch, shared));
            }
            let task = loader.load_scene(renderer, descriptor, fetch);
            let (first, next) = task.execute((), shared);
            proof {
                assert(crate::scene::scene_yields(loader, renderer, descriptor, fetch, shared, (first, next)));
            }
            match first {
                Err(e) => (Err(e), next),
                Ok(scene) => {
                    let mut stack = stack;
                    stack.push(scene);
                    load_scenes_from(scenes, from + 1, stack, renderers, descriptors, entities, next)
                },
            }
        },
    }
}

/// Loads a scene stack: given the descriptors of its scenes, bottom first,
/// it loads each scene and puts it on the stack.  For each scene the loader
/// has its three makers make the tasks that the scene load is composed of.
pub struct SceneStackLoader<FA, FD, FE> {
    pub renderers: FA,
    pub descriptors: FD,
    pub entities: FE,
}

impl<FA, FD, FE> SceneStackLoader<FA, FD, FE> {
    /// A loader of scene stacks.  For each scene, `renderers` makes the task
    /// that makes the sprite renderer, `descriptors` the task that reads a
    /// scene descriptor, and `entities` the task that fetches entity
    /// descriptors.
    pub fn new<C, R, A, D, E>(renderers: FA, descriptors: FD, entities: FE) -> (loader: SceneStackLoader<
        FA,
        FD,
        FE,
    >) where
        FA: Fn() -> A,
        FD: Fn() -> D,
        FE: Fn() -> E,
        A: Task<(), Handles<C>, Output = R>,
        D: Task<String, Handles<C>, Output = SpriteRenderSceneJSON>,
        E: Task<Vec<String>, Handles<C>, Output = Vec<EntityJSON>>,

        ensures
            loader.renderers == renderers,
            loader.descriptors == descriptors,
            loader.entities == entities,
            forall|scenes: Vec<JSONLoad>, shared: Handles<C>| #[trigger]
                loader.accepts(scenes, shared) == stack_accepts(
                    scenes@,
                    renderers,
                    descriptors,
                    entities,
                    shared,
                ),
            forall|
                scenes: Vec<JSONLoad>,
                shared: Handles<C>,
                outcome: (Result<SceneStack<SpriteRenderScene<R>>, LoadError>, Handles<C>),
            | #[trigger]
                loader.yields(scenes, shared, outcome) == stack_yields(
                    scenes@,
                    Seq::<SpriteRenderScene<R>>::empty(),
                    renderers,
                    descriptors,
                    entities,
                    shared,
                    outcome,
                ),
    {
        SceneStackLoader { renderers, descriptors, entities }
    }
}

impl<C, R, A, D, E, FA, FD, FE> Task<Vec<JSONLoad>, Handles<C>> for SceneStackLoader<FA, FD, FE> where
    FA: Fn() -> A,
    FD: Fn() -> D,
    FE: Fn() -> E,
    A: Task<(), Handles<C>, Output = R>,
    D: Task<String, Handles<C>, Output = SpriteRenderSceneJSON>,
    E: Task<Vec<String>, Handles<C>, Output = Vec<EntityJSON>>,
 {
    type Output = SceneStack<SpriteRenderScene<R>>;

    open spec fn accepts(&self, scenes: Vec<JSONLoad>, shared: Handles<C>) -> bool {
        stack_accepts(scenes@, self.renderers, self.descriptors, self.entities, shared)
    }

    open spec fn yields(
        &self,
        scenes: Vec<JSONLoad>,
        shared: Handles<C>,
        outcome: (Result<SceneStack<SpriteRenderScene<R>>, LoadError>, Handles<C>),
    ) -> bool {
        stack_yields(
            scenes@,
            Seq::<SpriteRenderScene<R>>::empty(),
            self.renderers,
            self.descriptors,
            self.entities,
            shared,
            outcome,
        )
    }

    fn execute(self, scenes: Vec<JSONLoad>, shared: Handles<C>) -> (outcome: (
        Result<SceneStack<SpriteRenderScene<R>>, LoadError>,
        Handles<C>,
    )) {
        assert(scenes@.skip(0) =~= scenes@);
        load_scenes_from(
            &scenes,
            0,
            SceneStack::new(),
            &self.renderers,
            &self.descriptors,
            &self.entities,
            shared,
        )
    }
}

} // verus!
