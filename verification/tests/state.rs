use scene_loading::error::ErrorKind;
use specs::WorldExt;
use scene_loading::shared::{Entity, Handles, Shared, TextureDict, TextureHandle, Transform, StateContainer};

#[test]
fn a_new_dictionary_files_nothing() {
    let dict = TextureDict::new();
    assert_eq!(dict.get("hero"), None);
    assert_eq!(dict.get(""), None);
}

#[test]
fn a_dictionary_finds_what_was_filed_by_name() {
    let mut dict = TextureDict::new();
    dict.insert("hero".to_string(), TextureHandle { id: 1 });
    dict.insert("tree".to_string(), TextureHandle { id: 2 });
    assert_eq!(dict.get("hero"), Some(TextureHandle { id: 1 }));
    assert_eq!(dict.get("tree"), Some(TextureHandle { id: 2 }));
    assert_eq!(dict.get("rock"), None);
    assert_eq!(dict.get("her"), None);
}

#[test]
fn a_later_entry_replaces_an_earlier_one_of_the_same_name() {
    let mut dict = TextureDict::new();
    dict.insert("hero".to_string(), TextureHandle { id: 1 });
    dict.insert("tree".to_string(), TextureHandle { id: 2 });
    dict.insert("hero".to_string(), TextureHandle { id: 3 });
    assert_eq!(dict.get("hero"), Some(TextureHandle { id: 3 }));
    assert_eq!(dict.get("tree"), Some(TextureHandle { id: 2 }));
}

#[test]
fn a_new_world_holds_nothing() {
    let world = StateContainer::new();
    assert_eq!(world.entity_count(), 0);
    assert!(world.entity(0).is_none());
    assert!(!world.has_texture_dict());
    assert_eq!(world.texture("hero"), None);
}

#[test]
fn a_world_answers_by_name_once_the_dictionary_is_installed() {
    let mut dict = TextureDict::new();
    dict.insert("hero".to_string(), TextureHandle { id: 4 });
    let mut world = StateContainer::new();
    world.insert_texture_dict(dict);
    assert!(world.has_texture_dict());
    assert_eq!(world.texture("hero"), Some(TextureHandle { id: 4 }));
    assert_eq!(world.texture("tree"), None);
}

#[test]
fn installing_a_dictionary_replaces_the_earlier_one() {
    let mut first = TextureDict::new();
    first.insert("hero".to_string(), TextureHandle { id: 1 });
    let mut second = TextureDict::new();
    second.insert("tree".to_string(), TextureHandle { id: 2 });
    let mut world = StateContainer::new();
    world.insert_texture_dict(first);
    world.insert_texture_dict(second);
    assert_eq!(world.texture("hero"), None);
    assert_eq!(world.texture("tree"), Some(TextureHandle { id: 2 }));
}

#[test]
fn a_world_keeps_entities_in_the_order_of_registration() {
    let mut world = StateContainer::new();
    let mut first = Entity::new();
    first.texture = Some(TextureHandle { id: 7 });
    let mut second = Entity::new();
    second.transform = Some(Transform { descriptor: "0 0 0".to_string() });
    world.register(first);
    world.register(second);
    assert_eq!(world.entity_count(), 2);
    let a = world.entity(0).unwrap();
    assert!(a.has_texture() && !a.has_transform());
    assert_eq!(a.texture, Some(TextureHandle { id: 7 }));
    let b = world.entity(1).unwrap();
    assert!(!b.has_texture() && b.has_transform());
    assert_eq!(b.transform.as_ref().unwrap().descriptor, "0 0 0");
    assert!(world.entity(2).is_none());
}

#[test]
fn a_new_entity_has_no_component() {
    let entity = Entity::new();
    assert!(!entity.has_texture());
    assert!(!entity.has_transform());
}

#[test]
fn a_sound_handle_grants_access_and_keeps_what_was_written() {
    let mut handle = Shared::new(3u32);
    assert!(!handle.is_poisoned());
    *handle.write().unwrap() = 5;
    assert_eq!(handle.resource, 5);
    assert!(!handle.is_poisoned());
}

#[test]
fn a_poisoned_handle_refuses_access_with_a_lock_error() {
    let mut handle = Shared::poisoned(3u32);
    assert!(handle.is_poisoned());
    let e = handle.write().unwrap_err();
    assert_eq!(e.kind(), ErrorKind::Lock);
    assert_eq!(e.message(), "shared resource is poisoned");
    assert_eq!(handle.resource, 3);
    assert!(handle.is_poisoned());
}

#[test]
fn new_handles_are_sound() {
    let handles = Handles::new(StateContainer::new(), 11u8);
    assert!(!handles.state.is_poisoned());
    assert!(!handles.context.is_poisoned());
    assert_eq!(handles.context.resource, 11);
    assert_eq!(handles.state.resource.entity_count(), 0);
}

#[test]
fn a_container_around_a_store_starts_without_dictionary_and_entities() {
    let mut store = specs::World::new();
    store.insert(7u32);
    let world = match StateContainer::from_ecs(store) {
        Ok(world) => world,
        Err(_) => panic!("a store without dictionary was refused"),
    };
    assert!(!world.has_texture_dict());
    assert_eq!(world.texture("hero"), None);
    assert_eq!(world.entity_count(), 0);
}

#[test]
fn a_store_that_holds_a_dictionary_is_refused_and_handed_back() {
    let mut dict = TextureDict::new();
    dict.insert("hero".to_string(), TextureHandle { id: 12 });
    let mut store = specs::World::new();
    store.insert(dict);
    store.insert(7u32);
    match StateContainer::from_ecs(store) {
        Ok(_) => panic!("a store with a dictionary was accepted"),
        Err(back) => {
            assert_eq!(*back.fetch::<u32>(), 7);
            assert_eq!(back.fetch::<TextureDict>().get("hero"), Some(TextureHandle { id: 12 }));
        }
    }
}

#[test]
fn a_store_whose_dictionary_is_held_by_a_leaked_guard_is_refused() {
    let mut store = specs::World::new();
    store.insert(TextureDict::new());
    std::mem::forget(store.fetch_mut::<TextureDict>());
    assert!(StateContainer::from_ecs(store).is_err());
}

#[test]
fn a_leaked_guard_on_another_resource_does_not_hinder_the_dictionary() {
    let mut store = specs::World::new();
    store.insert(7u32);
    std::mem::forget(store.fetch_mut::<u32>());
    let mut world = match StateContainer::from_ecs(store) {
        Ok(world) => world,
        Err(_) => panic!("a store without dictionary was refused"),
    };
    assert_eq!(world.texture("hero"), None);
    let mut dict = TextureDict::new();
    dict.insert("hero".to_string(), TextureHandle { id: 3 });
    world.insert_texture_dict(dict);
    assert_eq!(world.texture("hero"), Some(TextureHandle { id: 3 }));
}

#[test]
fn the_parts_of_a_container_are_its_store_and_its_entities() {
    let mut dict = TextureDict::new();
    dict.insert("hero".to_string(), TextureHandle { id: 12 });
    let mut store = specs::World::new();
    store.insert(7u32);
    let mut world = match StateContainer::from_ecs(store) {
        Ok(world) => world,
        Err(_) => panic!("a store without dictionary was refused"),
    };
    world.insert_texture_dict(dict);
    let mut entity = Entity::new();
    entity.texture = Some(TextureHandle { id: 12 });
    world.register(entity);
    let (store, entities) = world.into_parts();
    assert_eq!(entities.len(), 1);
    assert_eq!(entities[0].texture, Some(TextureHandle { id: 12 }));
    assert_eq!(*store.fetch::<u32>(), 7);
    assert_eq!(store.fetch::<TextureDict>().get("hero"), Some(TextureHandle { id: 12 }));
}

#[test]
fn what_is_read_from_the_store_is_what_was_installed_last() {
    let mut first = TextureDict::new();
    first.insert("hero".to_string(), TextureHandle { id: 1 });
    let mut second = TextureDict::new();
    second.insert("hero".to_string(), TextureHandle { id: 2 });
    let mut world = StateContainer::new();
    assert!(!world.has_texture_dict());
    world.insert_texture_dict(first);
    assert_eq!(world.texture("hero"), Some(TextureHandle { id: 1 }));
    world.insert_texture_dict(second);
    assert_eq!(world.texture("hero"), Some(TextureHandle { id: 2 }));
    assert!(world.has_texture_dict());
}
