//! The sprite-render scene: its descriptor, its loader and the scene itself,
//! and the load of a scene stack after the texture dictionary.
use vstd::prelude::*;
use vstd::string::StringExecFns;
use crate::error::{ErrorKind, LoadError, LoadErrorView};
use crate::load::{
    ComponentLoader, ComponentLoaderView, ComponentMux, EntityJSON, JSONLoad, JSONLoadView,
    TextureLoader, TransformLoader,
};
use crate::task::{Compose, Step, Task};
use crate::shared::{ContainerView, Handles, TextureDict};

verus! {

/// The directory under which all descriptors lie.
pub const LOAD_PATH: &'static str = "assets/";

/// The directory, under [`LOAD_PATH`], of the scene descriptors.
pub const SCENES_DIR: &'static str = "scenes/";

/// The ending of a descriptor's file name.
pub const JSON_FILE: &'static str = ".json";

/// The kind identifier of the sprite-render scene.
pub const SPRITE_RENDER_SCENE_ID: &'static str = "sprite_render_scene";

/// Where the descriptor of the scene of kind `id` lies.
pub open spec fn scene_path(id: Seq<char>) -> Seq<char> {
    LOAD_PATH@ + SCENES_DIR@ + id + JSON_FILE@
}

/// The failure for a scene kind that names no scene.
pub open spec fn unknown_scene() -> LoadErrorView {
    LoadErrorView { kind: ErrorKind::Dispatch, cause: "Load ID did not match any scene ID"@ }
}

/// What a sprite-render scene descriptor holds: the paths of the entity
/// descriptors of the scene, in the order in which the entities are made.
#[derive(Debug, Clone)]
pub struct SpriteRenderSceneJSON {
    pub entity_paths: Vec<String>,
}

impl SpriteRenderSceneJSON {
    /// A descriptor that lists `entity_paths`.
    pub fn new(entity_paths: Vec<String>) -> (json: SpriteRenderSceneJSON)
        ensures
            json.entity_paths == entity_paths,
    {
        SpriteRenderSceneJSON { entity_paths }
    }
}

/// What a scene asks of the scene stack after an update.
#[allow(non_camel_case_types)]
#[derive(Clone, Copy, Debug, PartialEq, Eq, Structural)]
pub enum SceneTransition {
    /// The scene stays where it is.
    NONE,
}

/// A scene that draws the sprites of its entities with the renderer it holds.
#[derive(Debug)]
pub struct SpriteRenderScene<R> {
    pub sprite_renderer: R,
}

impl<R> SpriteRenderScene<R> {
    /// The scene that draws with `sprite_renderer`.
    pub fn new(sprite_renderer: R) -> (scene: SpriteRenderScene<R>)
        ensures
            scene.sprite_renderer == sprite_renderer,
    {
        SpriteRenderScene { sprite_renderer }
    }

    /// The name of the scene.
    pub fn get_name(&self) -> (name: String)
        ensures
            name@ == "Sprite Render Test Scene"@,
    {
        String::from_str("Sprite Render Test Scene")
    }

    /// One step of the simulation.  The scene changes nothing and asks for
    /// no transition.
    pub fn update(&mut self, ecs: &mut specs::World) -> (asked: Result<SceneTransition, LoadError>)
        ensures
            asked == Ok::<SceneTransition, LoadError>(SceneTransition::NONE),
            *final(self) == *old(self),
            *final(ecs) == *old(ecs),
    {
        Ok(SceneTransition::NONE)
    }

    /// Hands the scene the player's input.  The scene ignores it.
    pub fn interact<T>(&mut self, ecs: &mut specs::World, input: &T) -> (done: Result<(), LoadError>)
        ensures
            done == Ok::<(), LoadError>(()),
            *final(self) == *old(self),
            *final(ecs) == *old(ecs),
    {
        Ok(())
    }

    /// Whether the scene is over.  It never is.
    pub fn is_finished(&self, ecs: &mut specs::World) -> (finished: Result<bool, LoadError>)
        ensures
            finished == Ok::<bool, LoadError>(false),
            *final(ecs) == *old(ecs),
    {
        Ok(false)
    }
}

/// Loads a sprite-render scene from the descriptor at its path.
#[derive(Debug)]
pub struct SpriteRenderSceneLoader {
    pub path: String,
}

impl ComponentMux for SpriteRenderSceneLoader {
    /// A texture loader for the kind `"texture"`, a transform loader for the
    /// kind `"transform"`, a dispatch error for every other kind.
    open spec fn loader_for(&self, json: JSONLoadView) -> Result<ComponentLoaderView, LoadErrorView> {
        if json.load_type_id == crate::load::TEXTURE_LOAD_ID@ {
            crate::load::texture_loader_for(json)
        } else if json.load_type_id == crate::load::TRANSFORM_LOAD_ID@ {
            crate::load::transform_loader_for(json)
        } else {
            Err(crate::load::unknown_component())
        }
    }

    fn map_json_to_loader(&self, json: JSONLoad) -> (chosen: Result<ComponentLoader, LoadError>) {
        if json.load_type_id == crate::load::TEXTURE_LOAD_ID.to_owned() {
            match TextureLoader::from_json(json) {
                Ok(loader) => Ok(ComponentLoader::Texture(loader)),
                Err(e) => Err(e),
            }
        } else if json.load_type_id == crate::load::TRANSFORM_LOAD_ID.to_owned() {
            match TransformLoader::from_json(json) {
                Ok(loader) => Ok(ComponentLoader::Transform(loader)),
                Err(e) => Err(e),
            }
        } else {
            Err(LoadError::dispatch("Invalid json load ID"))
        }
    }
}

/// The loader for the scene that `json` describes.  Only the sprite-render
/// scene is known; every other kind is a dispatch error.
pub fn scene_factory(json: JSONLoad) -> (made: Result<SpriteRenderSceneLoader, LoadError>)
    ensures
        match made {
            Ok(loader) => json@.load_type_id == SPRITE_RENDER_SCENE_ID@ && loader.path@ == scene_path(
                SPRITE_RENDER_SCENE_ID@,
            ),
            Err(e) => json@.load_type_id != SPRITE_RENDER_SCENE_ID@ && e@ == unknown_scene(),
        },
{
    if json.load_type_id == SPRITE_RENDER_SCENE_ID.to_owned() {
        let mut path = String::from_str(LOAD_PATH);
        path.append(SCENES_DIR);
        path.append(SPRITE_RENDER_SCENE_ID);
        path.append(JSON_FILE);
        Ok(SpriteRenderSceneLoader::new(path))
    } else {
        Err(LoadError::dispatch("Load ID did not match any scene ID"))
    }
}

/// `after` is `shared` with `dict` installed as the texture dictionary of the
/// state container, and nothing else changed.
pub open spec fn installed<C>(shared: Handles<C>, dict: TextureDict, after: Handles<C>) -> bool {
    &&& after.context == shared.context
    &&& after.state.poisoned == shared.state.poisoned
    &&& after.state.resource@ == (ContainerView { texture_dict: Some(dict@), ..shared.state.resource@ })
}

/// `outcome` is how installing `dict` ends when run against `shared`: behind
/// a poisoned handle it fails with a lock error and changes nothing, else it
/// succeeds and the dictionary is installed.
pub open spec fn dict_installed<C>(
    dict: TextureDict,
    shared: Handles<C>,
    outcome: (Result<(), LoadError>, Handles<C>),
) -> bool {
    if shared.state.poisoned {
        &&& outcome.1 == shared
        &&& crate::error::with_error_view(outcome.0) == Err::<(), LoadErrorView>(
            crate::shared::lock_failure(),
        )
    } else {
        &&& outcome.0 == Ok::<(), LoadError>(())
        &&& installed(shared, dict, outcome.1)
    }
}

/// Installs `dict` as the texture dictionary of the state container: acquires
/// the handle, writes, and lets go.
pub fn install_texture_dict<C>(dict: TextureDict, shared: Handles<C>) -> (outcome: (
    Result<(), LoadError>,
    Handles<C>,
))
    ensures
        dict_installed(dict, shared, outcome),
{
    let mut shared = shared;
    let done = match shared.state.write() {
        Ok(world) => {
            world.insert_texture_dict(dict);
            Ok(())
        },
        Err(e) => Err(e),
    };
    (done, shared)
}

/// Where [`load_with`] may be run: where the dictionary task may, provided the
/// scene-stack task may run on the shared resources once the dictionary is
/// installed in them.
pub open spec fn load_with_accepts<C, O, A, B>(texture_dict: A, scene_stack: B, shared: Handles<C>) -> bool where
    A: Task<(), Handles<C>, Output = TextureDict>,
    B: Task<(), Handles<C>, Output = O>,
 {
    &&& texture_dict.accepts((), shared)
    &&& forall|dict: TextureDict, mid: Handles<C>, after: Handles<C>|
        #![trigger texture_dict.yields((), shared, (Ok(dict), mid)), installed(mid, dict, after)]
        texture_dict.yields((), shared, (Ok(dict), mid)) && !mid.state.poisoned && installed(
            mid,
            dict,
            after,
        ) ==> scene_stack.accepts((), after)
}

/// How [`load_with`] ends once the dictionary task has ended with `read`.
pub open spec fn load_with_after<C, O, B>(
    read: (Result<TextureDict, LoadError>, Handles<C>),
    scene_stack: B,
    outcome: (Result<O, LoadError>, Handles<C>),
) -> bool where B: Task<(), Handles<C>, Output = O> {
    match read.0 {
        Err(e) => outcome == (Err::<O, LoadError>(e), read.1),
        Ok(dict) => exists|placed: (Result<(), LoadError>, Handles<C>)| #[trigger]
            dict_installed(dict, read.1, placed) && match placed.0 {
                Err(e) => outcome == (Err::<O, LoadError>(e), placed.1),
                Ok(_) => scene_stack.yields((), placed.1, outcome),
            },
    }
}

/// How [`load_with`] ends: the dictionary task runs; the dictionary it produced is
/// installed in the state container; then the scene-stack task runs on the
/// shared resources that hold the dictionary, and its outcome is the outcome.
/// The first of the three that fails ends the load with its error.
pub open spec fn load_with_yields<C, O, A, B>(
    texture_dict: A,
    scene_stack: B,
    shared: Handles<C>,
    outcome: (Result<O, LoadError>, Handles<C>),
) -> bool where A: Task<(), Handles<C>, Output = TextureDict>, B: Task<(), Handles<C>, Output = O> {
    exists|read: (Result<TextureDict, LoadError>, Handles<C>)| #[trigger]
        texture_dict.yields((), shared, read) && load_with_after(read, scene_stack, outcome)
}

/// Loads the texture dictionary with `texture_dict`, installs it in the
/// state container, and only then loads the scene stack with `scene_stack`.
pub fn load_with<C, O, A, B>(texture_dict: A, scene_stack: B) -> (task: impl Task<
    (),
    Handles<C>,
    Output = O,
>) where A: Task<(), Handles<C>, Output = TextureDict>, B: Task<(), Handles<C>, Output = O>
    ensures
        forall|shared: Handles<C>|
            load_with_accepts(texture_dict, scene_stack, shared) ==> #[trigger] task.accepts((), shared),
        forall|shared: Handles<C>, outcome: (Result<O, LoadError>, Handles<C>)| #[trigger]
            task.yields((), shared, outcome) ==> load_with_yields(
                texture_dict,
                scene_stack,
                shared,
                outcome,
            ),
{
    texture_dict.map(install_texture_dict::<C>).sequence(scene_stack)
}

/// How a scene load ends once the entity descriptors were fetched with
/// `files`: the entities are loaded into the state container, and the scene
/// holds `sprite_renderer`.
pub open spec fn scene_after_fetch<C, R>(
    loader: SpriteRenderSceneLoader,
    sprite_renderer: R,
    files: (Result<Vec<EntityJSON>, LoadError>, Handles<C>),
    outcome: (Result<SpriteRenderScene<R>, LoadError>, Handles<C>),
) -> bool {
    match files.0 {
        Err(e) => outcome == (Err::<SpriteRenderScene<R>, LoadError>(e), files.1),
        Ok(described) => exists|done: (Result<(), LoadError>, Handles<C>)| #[trigger]
            crate::load::entities_loaded(loader, described, files.1, done)
                && outcome.1 == done.1 && match done.0 {
                Err(e) => outcome.0 == Err::<SpriteRenderScene<R>, LoadError>(e),
                Ok(_) => outcome.0 == Ok::<SpriteRenderScene<R>, LoadError>(
                    SpriteRenderScene { sprite_renderer },
                ),
            },
    }
}

/// How a scene load ends once the scene descriptor was read with `read`: the
/// entity descriptors that it lists are fetched, and the load goes on.
pub open spec fn scene_after_descriptor<C, R, E>(
    loader: SpriteRenderSceneLoader,
    sprite_renderer: R,
    read: (Result<SpriteRenderSceneJSON, LoadError>, Handles<C>),
    entities: E,
    outcome: (Result<SpriteRenderScene<R>, LoadError>, Handles<C>),
) -> bool where E: Task<Vec<String>, Handles<C>, Output = Vec<EntityJSON>> {
    match read.0 {
        Err(e) => outcome == (Err::<SpriteRenderScene<R>, LoadError>(e), read.1),
        Ok(json) => exists|files: (Result<Vec<EntityJSON>, LoadError>, Handles<C>)| #[trigger]
            entities.yields(json.entity_paths, read.1, files) && scene_after_fetch(
                loader,
                sprite_renderer,
                files,
                outcome,
            ),
    }
}

/// How a scene load ends once the renderer task has ended with `made`: the
/// scene descriptor at the path of `loader` is read, and the load goes on.
pub open spec fn scene_after_renderer<C, R, D, E>(
    loader: SpriteRenderSceneLoader,
    made: (Result<R, LoadError>, Handles<C>),
    descriptor: D,
    entities: E,
    outcome: (Result<SpriteRenderScene<R>, LoadError>, Handles<C>),
) -> bool where
    D: Task<String, Handles<C>, Output = SpriteRenderSceneJSON>,
    E: Task<Vec<String>, Handles<C>, Output = Vec<EntityJSON>>,
 {
    match made.0 {
        Err(e) => outcome == (Err::<SpriteRenderScene<R>, LoadError>(e), made.1),
        Ok(sprite_renderer) => exists|read: (Result<SpriteRenderSceneJSON, LoadError>, Handles<C>)| #[trigger]
            descriptor.yields(loader.path, made.1, read) && scene_after_descriptor(
                loader,
                sprite_renderer,
                read,
                entities,
                outcome,
            ),
    }
}

/// How a scene load ends.  Four things happen in this order, each on the
/// shared resources as the one before left them: the renderer task runs; the
/// descriptor task reads the scene descriptor at the path of `loader`; the
/// entities task fetches the entity descriptors that the scene descriptor
/// lists; the entities are loaded into the state container.  The first that
/// fails ends the load with its error; if none fails, the load ends with a
/// scene that holds the renderer.
pub open spec fn scene_yields<C, R, A, D, E>(
    loader: SpriteRenderSceneLoader,
    renderer: A,
    descriptor: D,
    entities: E,
    shared: Handles<C>,
    outcome: (Result<SpriteRenderScene<R>, LoadError>, Handles<C>),
) -> bool where
    A: Task<(), Handles<C>, Output = R>,
    D: Task<String, Handles<C>, Output = SpriteRenderSceneJSON>,
    E: Task<Vec<String>, Handles<C>, Output = Vec<EntityJSON>>,
 {
    exists|made: (Result<R, LoadError>, Handles<C>)| #[trigger]
        renderer.yields((), shared, made) && scene_after_renderer(
            loader,
            made,
            descriptor,
            entities,
            outcome,
        )
}

/// Where a scene load may be run: where the renderer task may, provided each
/// later task may run on what the tasks before it can leave.
pub open spec fn scene_accepts<C, R, A, D, E>(
    loader: SpriteRenderSceneLoader,
    renderer: A,
    descriptor: D,
    entities: E,
    shared: Handles<C>,
) -> bool where
    A: Task<(), Handles<C>, Output = R>,
    D: Task<String, Handles<C>, Output = SpriteRenderSceneJSON>,
    E: Task<Vec<String>, Handles<C>, Output = Vec<EntityJSON>>,
 {
    &&& renderer.accepts((), shared)
    &&& forall|sprite_renderer: R, mid: Handles<C>| #[trigger]
        renderer.yields((), shared, (Ok(sprite_renderer), mid)) ==> {
            &&& descriptor.accepts(loader.path, mid)
            &&& forall|json: SpriteRenderSceneJSON, then: Handles<C>| #[trigger]
                descriptor.yields(loader.path, mid, (Ok(json), then)) ==> entities.accepts(
                    json.entity_paths,
                    then,
                )
        }
}

impl SpriteRenderSceneLoader {
    /// A loader for the scene whose descriptor lies at `path`.
    pub fn new(path: String) -> (loader: SpriteRenderSceneLoader)
        ensures
            loader.path == path,
    {
        SpriteRenderSceneLoader { path }
    }

    /// The task that loads the scene.  `renderer` makes the sprite renderer,
    /// `descriptor` reads the scene descriptor at a path, `entities` fetches
    /// the entity descriptors at a list of paths.  The composed task joins
    /// the renderer with the descriptor read at the loader's path, then loads
    /// the listed entities into the state container, resolving components
    /// through the loader's own dispatch, then wraps the renderer in a scene.
    pub fn load_scene<C, R, A, D, E>(&self, renderer: A, descriptor: D, entities: E) -> (task: impl Task<
        (),
        Handles<C>,
        Output = SpriteRenderScene<R>,
    >) where
        A: Task<(), Handles<C>, Output = R>,
        D: Task<String, Handles<C>, Output = SpriteRenderSceneJSON>,
        E: Task<Vec<String>, Handles<C>, Output = Vec<EntityJSON>>,

        ensures
            forall|shared: Handles<C>|
                scene_accepts(*self, renderer, descriptor, entities, shared)
                    ==> #[trigger] task.accepts((), shared),
            forall|shared: Handles<C>, outcome: (Result<SpriteRenderScene<R>, LoadError>, Handles<C>)| #[trigger]
                task.yields((), shared, outcome) ==> scene_yields(
                    *self,
                    renderer,
                    descriptor,
                    entities,
                    shared,
                    outcome,
                ),
    {
        let describe = crate::task::with_input(self.path.clone(), descriptor);
        let pairing = |pair: (R, SpriteRenderSceneJSON)| -> (same: (R, SpriteRenderSceneJSON))
            ensures
                same == pair,
            {
                pair
            };
        let both = renderer.join(describe, pairing);
        let loading = crate::load::load_entity_vec(entities, SpriteRenderSceneLoader::new(self.path.clone()));
        let fill = move |pair: (R, SpriteRenderSceneJSON), shared: Handles<C>| -> (kept: (
            Result<R, LoadError>,
            Handles<C>,
        ))
            requires
                loading.accepts(pair.1.entity_paths, shared),
            ensures
                exists|done: (Result<(), LoadError>, Handles<C>)| #[trigger]
                    loading.yields(pair.1.entity_paths, shared, done) && kept.1 == done.1
                        && match done.0 {
                        Ok(_) => kept.0 == Ok::<R, LoadError>(pair.0),
                        Err(e) => kept.0 == Err::<R, LoadError>(e),
                    },
            {
                let (sprite_renderer, json) = pair;
                let (done, shared) = loading.execute(json.entity_paths, shared);
                match done {
                    Ok(_) => (Ok(sprite_renderer), shared),
                    Err(e) => (Err(e), shared),
                }
            };
        let chain = both.serialize(Step::new(fill));
        let wrap = |sprite_renderer: R, shared: Handles<C>| -> (made: (
            Result<SpriteRenderScene<R>, LoadError>,
            Handles<C>,
        ))
            ensures
                made == (
                    Ok::<SpriteRenderScene<R>, LoadError>(SpriteRenderScene { sprite_renderer }),
                    shared,
                ),
            {
                (Ok(SpriteRenderScene::new(sprite_renderer)), shared)
            };
        chain.map(wrap)
    }
}

} // verus!
