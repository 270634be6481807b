//! The load that a game starts with: which descriptors are read, and in what
//! order.
use vstd::prelude::*;
use vstd::string::StringExecFns;
use crate::error::LoadError;
use crate::load::{EntityJSON, JSONLoad};
use crate::scene::{SpriteRenderScene, SpriteRenderSceneJSON};
use crate::stack::{SceneStack, SceneStackLoader};
use crate::shared::{Handles, TextureDict};
use crate::task::{Compose, Task};

verus! {

/// The name of the texture dictionary descriptor.
pub const TEXTURE_DICT_LOAD_ID: &'static str = "texture_dict";

/// The name of the scene stack descriptor.
pub const SCENE_STACK_FILE_ID: &'static str = "scene_stack";

/// Where the texture dictionary descriptor lies.
pub open spec fn texture_dict_path() -> Seq<char> {
    crate::scene::LOAD_PATH@ + TEXTURE_DICT_LOAD_ID@ + crate::scene::JSON_FILE@
}

/// Where the scene stack descriptor lies.
pub open spec fn scene_stack_path() -> Seq<char> {
    crate::scene::LOAD_PATH@ + crate::scene::SCENES_DIR@ + SCENE_STACK_FILE_ID@
        + crate::scene::JSON_FILE@
}

/// The path of the texture dictionary descriptor.
pub fn texture_dict_file() -> (path: String)
    ensures
        path@ == texture_dict_path(),
{
    let mut path = String::from_str(crate::scene::LOAD_PATH);
    path.append(TEXTURE_DICT_LOAD_ID);
    path.append(crate::scene::JSON_FILE);
    path
}

/// The path of the scene stack descriptor.
pub fn scene_stack_file() -> (path: String)
    ensures
        path@ == scene_stack_path(),
{
    let mut path = String::from_str(crate::scene::LOAD_PATH);
    path.append(crate::scene::SCENES_DIR);
    path.append(SCENE_STACK_FILE_ID);
    path.append(crate::scene::JSON_FILE);
    path
}

/// Where the texture dictionary may be loaded: where `reader` may be run on
/// the path of the texture dictionary descriptor.
pub open spec fn dict_load_accepts<C, DR>(reader: DR, shared: Handles<C>) -> bool where
    DR: Task<String, Handles<C>, Output = TextureDict>,
 {
    forall|path: String| path@ == texture_dict_path() ==> #[trigger] reader.accepts(path, shared)
}

/// How the load of the texture dictionary ends: as `reader` does when run on
/// the path of the texture dictionary descriptor.
pub open spec fn dict_load_yields<C, DR>(
    reader: DR,
    shared: Handles<C>,
    outcome: (Result<TextureDict, LoadError>, Handles<C>),
) -> bool where DR: Task<String, Handles<C>, Output = TextureDict> {
    exists|path: String| path@ == texture_dict_path() && #[trigger] reader.yields(path, shared, outcome)
}

/// The task that loads the texture dictionary: `reader`, run on the path of
/// the texture dictionary descriptor.
pub fn load_texture_dict<C, DR>(reader: DR) -> (task: impl Task<(), Handles<C>, Output = TextureDict>) where
    DR: Task<String, Handles<C>, Output = TextureDict>,

    ensures
        forall|shared: Handles<C>|
            dict_load_accepts(reader, shared) ==> #[trigger] task.accepts((), shared),
        forall|shared: Handles<C>, outcome: (Result<TextureDict, LoadError>, Handles<C>)| #[trigger]
            task.yields((), shared, outcome) ==> dict_load_yields(reader, shared, outcome),
{
    crate::task::with_input(texture_dict_file(), reader)
}

/// Where the scene stack may be loaded: where `reader` may be run on the path
/// of the scene stack descriptor, provided the scenes it can list may be
/// loaded on the shared resources it leaves.
pub open spec fn stack_load_accepts<C, R, SR, A, D, E, FA, FD, FE>(
    reader: SR,
    renderers: FA,
    descriptors: FD,
    entities: FE,
    shared: Handles<C>,
) -> bool where
    SR: Task<String, Handles<C>, Output = Vec<JSONLoad>>,
    FA: Fn() -> A,
    FD: Fn() -> D,
    FE: Fn() -> E,
    A: Task<(), Handles<C>, Output = R>,
    D: Task<String, Handles<C>, Output = SpriteRenderSceneJSON>,
    E: Task<Vec<String>, Handles<C>, Output = Vec<EntityJSON>>,
 {
    forall|path: String|
        path@ == scene_stack_path() ==> {
            &&& #[trigger] reader.accepts(path, shared)
            &&& forall|scenes: Vec<JSONLoad>, mid: Handles<C>| #[trigger]
                reader.yields(path, shared, (Ok(scenes), mid)) ==> crate::stack::stack_accepts(
                    scenes@,
                    renderers,
                    descriptors,
                    entities,
                    mid,
                )
        }
}

/// How the load of the scene stack ends: `reader` is run on the path of the
/// scene stack descriptor; the scenes that it lists are loaded in order, each
/// by the loader that the scene factory makes for its kind, and put on the
/// stack.  The first failure ends the load with its error.
pub open spec fn stack_load_yields<C, R, SR, A, D, E, FA, FD, FE>(
    reader: SR,
    renderers: FA,
    descriptors: FD,
    entities: FE,
    shared: Handles<C>,
    outcome: (Result<SceneStack<SpriteRenderScene<R>>, LoadError>, Handles<C>),
) -> bool where
    SR: Task<String, Handles<C>, Output = Vec<JSONLoad>>,
    FA: Fn() -> A,
    FD: Fn() -> D,
    FE: Fn() -> E,
    A: Task<(), Handles<C>, Output = R>,
    D: Task<String, Handles<C>, Output = SpriteRenderSceneJSON>,
    E: Task<Vec<String>, Handles<C>, Output = Vec<EntityJSON>>,
 {
    exists|path: String, read: (Result<Vec<JSONLoad>, LoadError>, Handles<C>)|
        path@ == scene_stack_path() && #[trigger] reader.yields(path, shared, read)
            && match read.0 {
            Err(e) => outcome == (Err::<SceneStack<SpriteRenderScene<R>>, LoadError>(e), read.1),
            Ok(scenes) => crate::stack::stack_yields(
                scenes@,
                Seq::<SpriteRenderScene<R>>::empty(),
                renderers,
                descriptors,
                entities,
                read.1,
                outcome,
            ),
        }
}

/// The task that loads the scene stack: `reader`, run on the path of the
/// scene stack descriptor, then a [`SceneStackLoader`] on the scenes that the
/// descriptor lists.
pub fn load_scene_stack<C, R, SR, A, D, E, FA, FD, FE>(
    reader: SR,
    renderers: FA,
    descriptors: FD,
    entities: FE,
) -> (task: impl Task<(), Handles<C>, Output = SceneStack<SpriteRenderScene<R>>>) where
    SR: Task<String, Handles<C>, Output = Vec<JSONLoad>>,
    FA: Fn() -> A,
    FD: Fn() -> D,
    FE: Fn() -> E,
    A: Task<(), Handles<C>, Output = R>,
    D: Task<String, Handles<C>, Output = SpriteRenderSceneJSON>,
    E: Task<Vec<String>, Handles<C>, Output = Vec<EntityJSON>>,

    ensures
        forall|shared: Handles<C>|
            stack_load_accepts(reader, renderers, descriptors, entities, shared)
                ==> #[trigger] task.accepts((), shared),
        forall|
            shared: Handles<C>,
            outcome: (Result<SceneStack<SpriteRenderScene<R>>, LoadError>, Handles<C>),
        | #[trigger]
            task.yields((), shared, outcome) ==> stack_load_yields(
                reader,
                renderers,
                descriptors,
                entities,
                shared,
                outcome,
            ),
{
    let path = scene_stack_file();
    let ghost at = path;
    let listing = crate::task::with_input(path, reader);
    let task = listing.serialize(SceneStackLoader::new(renderers, descriptors, entities));
    proof {
        assert forall|shared: Handles<C>|
            stack_load_accepts(reader, renderers, descriptors, entities, shared) implies #[trigger]
            task.accepts((), shared) by {
            assert(reader.accepts(at, shared));
        }
    }
    task
}

/// Where [`load`] may be run: where the texture dictionary may be loaded,
/// provided the scene stack may be loaded on the shared resources once the
/// dictionary is installed in them.
pub open spec fn load_accepts<C, R, DR, SR, A, D, E, FA, FD, FE>(
    dictionary: DR,
    stack: SR,
    renderers: FA,
    descriptors: FD,
    entities: FE,
    shared: Handles<C>,
) -> bool where
    DR: Task<String, Handles<C>, Output = TextureDict>,
    SR: Task<String, Handles<C>, Output = Vec<JSONLoad>>,
    FA: Fn() -> A,
    FD: Fn() -> D,
    FE: Fn() -> E,
    A: Task<(), Handles<C>, Output = R>,
    D: Task<String, Handles<C>, Output = SpriteRenderSceneJSON>,
    E: Task<Vec<String>, Handles<C>, Output = Vec<EntityJSON>>,
 {
    &&& dict_load_accepts(dictionary, shared)
    &&& forall|dict: TextureDict, mid: Handles<C>, after: Handles<C>|
        #![trigger dict_load_yields(dictionary, shared, (Ok(dict), mid)), crate::scene::installed(mid, dict, after)]
        dict_load_yields(dictionary, shared, (Ok(dict), mid)) && !mid.state.poisoned
            && crate::scene::installed(mid, dict, after) ==> stack_load_accepts(
            stack,
            renderers,
            descriptors,
            entities,
            after,
        )
}

/// How [`load`] ends once the texture dictionary was loaded with `read`.
pub open spec fn load_after<C, R, SR, A, D, E, FA, FD, FE>(
    read: (Result<TextureDict, LoadError>, Handles<C>),
    stack: SR,
    renderers: FA,
    descriptors: FD,
    entities: FE,
    outcome: (Result<SceneStack<SpriteRenderScene<R>>, LoadError>, Handles<C>),
) -> bool where
    SR: Task<String, Handles<C>, Output = Vec<JSONLoad>>,
    FA: Fn() -> A,
    FD: Fn() -> D,
    FE: Fn() -> E,
    A: Task<(), Handles<C>, Output = R>,
    D: Task<String, Handles<C>, Output = SpriteRenderSceneJSON>,
    E: Task<Vec<String>, Handles<C>, Output = Vec<EntityJSON>>,
 {
    match read.0 {
        Err(e) => outcome == (Err::<SceneStack<SpriteRenderScene<R>>, LoadError>(e), read.1),
        Ok(dict) => exists|placed: (Result<(), LoadError>, Handles<C>)| #[trigger]
            crate::scene::dict_installed(dict, read.1, placed) && match placed.0 {
                Err(e) => outcome == (
                    Err::<SceneStack<SpriteRenderScene<R>>, LoadError>(e),
                    placed.1,
                ),
                Ok(_) => stack_load_yields(
                    stack,
                    renderers,
                    descriptors,
                    entities,
                    placed.1,
                    outcome,
                ),
            },
    }
}

/// How [`load`] ends.  The texture dictionary descriptor is read, at its
/// path; the dictionary is installed in the state container; the scene stack
/// descriptor is read, at its path; the scenes it lists are loaded in order.
/// Each step runs on the shared resources as the one before left them, and
/// the first that fails ends the load with its error.
pub open spec fn load_yields<C, R, DR, SR, A, D, E, FA, FD, FE>(
    dictionary: DR,
    stack: SR,
    renderers: FA,
    descriptors: FD,
    entities: FE,
    shared: Handles<C>,
    outcome: (Result<SceneStack<SpriteRenderScene<R>>, LoadError>, Handles<C>),
) -> bool where
    DR: Task<String, Handles<C>, Output = TextureDict>,
    SR: Task<String, Handles<C>, Output = Vec<JSONLoad>>,
    FA: Fn() -> A,
    FD: Fn() -> D,
    FE: Fn() -> E,
    A: Task<(), Handles<C>, Output = R>,
    D: Task<String, Handles<C>, Output = SpriteRenderSceneJSON>,
    E: Task<Vec<String>, Handles<C>, Output = Vec<EntityJSON>>,
 {
    exists|read: (Result<TextureDict, LoadError>, Handles<C>)| #[trigger]
        dict_load_yields(dictionary, shared, read) && load_after(
            read,
            stack,
            renderers,
            descriptors,
            entities,
            outcome,
        )
}

/// The load that a game starts with.  `dictionary` reads the texture
/// dictionary descriptor at the path it is given, `stack` the scene stack
/// descriptor; `renderers`, `descriptors` and `entities` make, for each
/// scene, the tasks that its load is composed of.  The composed task loads
/// the texture dictionary, installs it in the state container, and only then
/// loads the scene stack.
pub fn load<C, R, DR, SR, A, D, E, FA, FD, FE>(
    dictionary: DR,
    stack: SR,
    renderers: FA,
    descriptors: FD,
    entities: FE,
) -> (task: impl Task<(), Handles<C>, Output = SceneStack<SpriteRenderScene<R>>>) where
    DR: Task<String, Handles<C>, Output = TextureDict>,
    SR: Task<String, Handles<C>, Output = Vec<JSONLoad>>,
    FA: Fn() -> A,
    FD: Fn() -> D,
    FE: Fn() -> E,
    A: Task<(), Handles<C>, Output = R>,
    D: Task<String, Handles<C>, Output = SpriteRenderSceneJSON>,
    E: Task<Vec<String>, Handles<C>, Output = Vec<EntityJSON>>,

    ensures
        forall|shared: Handles<C>|
            load_accepts(dictionary, stack, renderers, descriptors, entities, shared)
                ==> #[trigger] task.accepts((), shared),
        forall|
            shared: Handles<C>,
            outcome: (Result<SceneStack<SpriteRenderScene<R>>, LoadError>, Handles<C>),
        | #[trigger]
            task.yields((), shared, outcome) ==> load_yields(
                dictionary,
                stack,
                renderers,
                descriptors,
                entities,
                shared,
                outcome,
            ),
{
    let texture_dict = load_texture_dict(dictionary);
    let scene_stack = load_scene_stack(stack, renderers, descriptors, entities);
    crate::scene::load_with(texture_dict, scene_stack)
}

} // verus!
