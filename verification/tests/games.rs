use scene_loading::error::{ErrorKind, LoadError};
use scene_loading::game::{
    load, load_scene_stack, load_texture_dict, scene_stack_file, texture_dict_file,
    SCENE_STACK_FILE_ID, TEXTURE_DICT_LOAD_ID,
};
use scene_loading::load::{EntityJSON, JSONLoad};
use scene_loading::scene::SpriteRenderSceneJSON;
use scene_loading::shared::{Handles, StateContainer, TextureDict, TextureHandle};
use scene_loading::task::{with_input, DrawTask, Step, Task};

/// The rendering context of these tests: the paths that were read, in order.
#[derive(Debug, Default, PartialEq)]
struct Disk {
    read: Vec<String>,
}

fn handles() -> Handles<Disk> {
    Handles::new(StateContainer::new(), Disk::default())
}

fn dictionary() -> Step<impl FnOnce(String, Handles<Disk>) -> (Result<TextureDict, LoadError>, Handles<Disk>)> {
    Step::new(|path: String, mut h: Handles<Disk>| {
        h.context.resource.read.push(path);
        let mut dict = TextureDict::new();
        dict.insert("hero".to_string(), TextureHandle { id: 8 });
        (Ok::<TextureDict, LoadError>(dict), h)
    })
}

fn stack_of(kinds: &'static [&'static str]) -> Step<impl FnOnce(String, Handles<Disk>) -> (Result<Vec<JSONLoad>, LoadError>, Handles<Disk>)> {
    Step::new(move |path: String, mut h: Handles<Disk>| {
        h.context.resource.read.push(path);
        (Ok::<Vec<JSONLoad>, LoadError>(kinds.iter().map(|kind| JSONLoad::new(kind, "")).collect()), h)
    })
}

fn renderer() -> Step<impl FnOnce((), Handles<Disk>) -> (Result<&'static str, LoadError>, Handles<Disk>)> {
    Step::new(|_: (), h: Handles<Disk>| (Ok::<&'static str, LoadError>("renderer"), h))
}

fn descriptor() -> Step<impl FnOnce(String, Handles<Disk>) -> (Result<SpriteRenderSceneJSON, LoadError>, Handles<Disk>)> {
    Step::new(|path: String, mut h: Handles<Disk>| {
        h.context.resource.read.push(path);
        (Ok(SpriteRenderSceneJSON::new(vec!["entity.json".to_string()])), h)
    })
}

fn entities() -> Step<impl FnOnce(Vec<String>, Handles<Disk>) -> (Result<Vec<EntityJSON>, LoadError>, Handles<Disk>)> {
    Step::new(|paths: Vec<String>, mut h: Handles<Disk>| {
        let mut described = Vec::new();
        for path in paths {
            h.context.resource.read.push(path);
            described.push(EntityJSON::new(vec![JSONLoad::new("texture", "hero")]));
        }
        (Ok(described), h)
    })
}

#[test]
fn the_descriptors_of_the_game_lie_at_fixed_paths() {
    assert_eq!(TEXTURE_DICT_LOAD_ID, "texture_dict");
    assert_eq!(SCENE_STACK_FILE_ID, "scene_stack");
    assert_eq!(texture_dict_file(), "assets/texture_dict.json");
    assert_eq!(scene_stack_file(), "assets/scenes/scene_stack.json");
}

#[test]
fn a_task_with_its_input_supplied_runs_on_that_input() {
    let task = with_input(20u32, Step::new(|x: u32, seen: Vec<u32>| {
        let mut seen = seen;
        seen.push(x);
        (Ok::<u32, LoadError>(x + 1), seen)
    }));
    let (result, seen) = task.execute((), Vec::new());
    assert_eq!(result.unwrap(), 21);
    assert_eq!(seen, vec![20]);
}

#[test]
fn the_texture_dictionary_is_read_at_its_path() {
    let (result, after) = load_texture_dict(dictionary()).resolve(handles());
    assert_eq!(result.unwrap().get("hero"), Some(TextureHandle { id: 8 }));
    assert_eq!(after.context.resource.read, vec!["assets/texture_dict.json"]);
}

#[test]
fn the_scene_stack_is_read_at_its_path_and_its_scenes_come_from_the_factory() {
    let mut world = StateContainer::new();
    let mut dict = TextureDict::new();
    dict.insert("hero".to_string(), TextureHandle { id: 8 });
    world.insert_texture_dict(dict);
    let shared = Handles::new(world, Disk::default());
    let task = load_scene_stack(stack_of(&["sprite_render_scene"]), renderer, descriptor, entities);
    let (result, after) = task.resolve(shared);
    assert_eq!(result.unwrap().len(), 1);
    assert_eq!(
        after.context.resource.read,
        vec!["assets/scenes/scene_stack.json", "assets/scenes/sprite_render_scene.json", "entity.json"]
    );
}

#[test]
fn the_game_reads_the_dictionary_then_the_stack_then_each_scene() {
    let task = load(dictionary(), stack_of(&["sprite_render_scene", "sprite_render_scene"]), renderer, descriptor, entities);
    let (result, after) = task.resolve(handles());
    let stack = result.unwrap();
    assert_eq!(stack.len(), 2);
    assert_eq!(stack.top().unwrap().sprite_renderer, "renderer");
    assert_eq!(
        after.context.resource.read,
        vec![
            "assets/texture_dict.json",
            "assets/scenes/scene_stack.json",
            "assets/scenes/sprite_render_scene.json",
            "entity.json",
            "assets/scenes/sprite_render_scene.json",
            "entity.json",
        ]
    );
    let world = &after.state.resource;
    assert_eq!(world.entity_count(), 2);
    assert_eq!(world.entity(0).unwrap().texture, Some(TextureHandle { id: 8 }));
    assert_eq!(world.texture("hero"), Some(TextureHandle { id: 8 }));
}

#[test]
fn the_game_does_not_read_the_stack_when_the_dictionary_fails() {
    let failing = Step::new(|path: String, mut h: Handles<Disk>| {
        h.context.resource.read.push(path);
        (Err::<TextureDict, LoadError>(LoadError::content("bad dictionary")), h)
    });
    let task = load(failing, stack_of(&["sprite_render_scene"]), renderer, descriptor, entities);
    let (result, after) = task.resolve(handles());
    let e = result.unwrap_err();
    assert_eq!(e.kind(), ErrorKind::Content);
    assert_eq!(e.message(), "bad dictionary");
    assert_eq!(after.context.resource.read, vec!["assets/texture_dict.json"]);
    assert!(!after.state.resource.has_texture_dict());
}

#[test]
fn the_game_ends_at_a_scene_of_an_unknown_kind() {
    let task = load(dictionary(), stack_of(&["sprite_render_scene", "menu_scene"]), renderer, descriptor, entities);
    let (result, after) = task.resolve(handles());
    let e = result.unwrap_err();
    assert_eq!(e.kind(), ErrorKind::Dispatch);
    assert_eq!(e.message(), "Load ID did not match any scene ID");
    assert_eq!(after.state.resource.entity_count(), 1);
    assert_eq!(after.context.resource.read.len(), 4);
}
