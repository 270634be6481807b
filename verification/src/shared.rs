//! The shared resources of a load: the state container, the rendering context,
//! and the handles through which tasks reach them.
use specs::WorldExt;
use vstd::prelude::*;
use crate::error::{ErrorKind, LoadError, LoadErrorView};
use crate::table::NameTable;

verus! {

/// The entity-component store of the `specs` crate.
#[verifier::external_type_specification]
#[verifier::external_body]
pub struct ExEcs(specs::World);

/// The cause given when a handle cannot be acquired.
pub open spec fn lock_failure() -> LoadErrorView {
    LoadErrorView { kind: ErrorKind::Lock, cause: "shared resource is poisoned"@ }
}

/// A handle to a resource that tasks share.  Whoever owns the handle may ask
/// for exclusive access to the resource; a poisoned handle grants none.
#[derive(Debug)]
pub struct Shared<T> {
    pub resource: T,
    pub poisoned: bool,
}

impl<T> Shared<T> {
    /// A sound handle to `resource`.
    pub fn new(resource: T) -> (handle: Shared<T>)
        ensures
            handle == (Shared { resource, poisoned: false }),
    {
        Shared { resource, poisoned: false }
    }

    /// A poisoned handle to `resource`.
    pub fn poisoned(resource: T) -> (handle: Shared<T>)
        ensures
            handle == (Shared { resource, poisoned: true }),
    {
        Shared { resource, poisoned: true }
    }

    /// Whether the handle refuses access.
    pub fn is_poisoned(&self) -> (poisoned: bool)
        ensures
            poisoned == self.poisoned,
    {
        self.poisoned
    }

    /// Exclusive access to the resource, for as long as the borrow lasts.
    /// Fails, with a lock error, exactly when the handle is poisoned.
    pub fn write(&mut self) -> (access: Result<&mut T, LoadError>)
        ensures
            final(self).poisoned == old(self).poisoned,
            match access {
                Ok(resource) => {
                    &&& !old(self).poisoned
                    &&& *resource == old(self).resource
                    &&& final(self).resource == *final(resource)
                },
                Err(e) => {
                    &&& old(self).poisoned
                    &&& e@ == lock_failure()
                    &&& final(self).resource == old(self).resource
                },
            },
    {
        if self.poisoned {
            Err(LoadError::lock("shared resource is poisoned"))
        } else {
            Ok(&mut self.resource)
        }
    }
}

/// Names a texture that lives in the rendering context.
#[derive(Clone, Copy, Debug, PartialEq, Eq, Structural)]
pub struct TextureHandle {
    pub id: u64,
}

/// Where an entity stands, as its descriptor wrote it.
#[derive(Clone, Debug)]
pub struct Transform {
    pub descriptor: String,
}

/// One entity of the state container, with at most one component of each kind.
#[derive(Clone, Debug)]
pub struct Entity {
    pub texture: Option<TextureHandle>,
    pub transform: Option<Transform>,
}

/// The mathematical value of an [`Entity`].
pub struct EntityView {
    pub texture: Option<TextureHandle>,
    pub transform: Option<Seq<char>>,
}

impl View for Entity {
    type V = EntityView;

    open spec fn view(&self) -> EntityView {
        EntityView {
            texture: self.texture,
            transform: match self.transform {
                Some(t) => Some(t.descriptor@),
                None => None,
            },
        }
    }
}

/// The entity that has no component.
pub open spec fn bare_entity() -> EntityView {
    EntityView { texture: None, transform: None }
}

impl Entity {
    /// An entity without components.
    pub fn new() -> (entity: Entity)
        ensures
            entity@ == bare_entity(),
    {
        Entity { texture: None, transform: None }
    }

    /// Whether the entity has a texture component.
    pub fn has_texture(&self) -> (has: bool)
        ensures
            has == self@.texture.is_some(),
    {
        self.texture.is_some()
    }

    /// Whether the entity has a transform component.
    pub fn has_transform(&self) -> (has: bool)
        ensures
            has == self@.transform.is_some(),
    {
        self.transform.is_some()
    }
}

/// The textures of a load, by name.
#[derive(Clone, Debug)]
pub struct TextureDict {
    table: NameTable<u64>,
}

impl View for TextureDict {
    type V = Map<Seq<char>, u64>;

    /// For each name, the number of the texture filed under it.
    closed spec fn view(&self) -> Map<Seq<char>, u64> {
        self.table@
    }
}

/// The texture that `dict` files under `name`.
pub open spec fn filed(dict: Map<Seq<char>, u64>, name: Seq<char>) -> Option<TextureHandle> {
    if dict.contains_key(name) {
        Some(TextureHandle { id: dict[name] })
    } else {
        None
    }
}

impl TextureDict {
    /// A dictionary without textures.
    pub fn new() -> (dict: TextureDict)
        ensures
            dict@ == Map::<Seq<char>, u64>::empty(),
    {
        TextureDict { table: NameTable::new() }
    }

    /// Files `texture` under `name`, in place of what was filed under it.
    pub fn insert(&mut self, name: String, texture: TextureHandle)
        ensures
            final(self)@ == old(self)@.insert(name@, texture.id),
    {
        self.table.insert(name, texture.id);
    }

    /// The texture filed under `name`, if there is one.
    pub fn get(&self, name: &str) -> (found: Option<TextureHandle>)
        ensures
            found == filed(self@, name@),
    {
        match self.table.get(name) {
            Some(id) => Some(TextureHandle { id }),
            None => None,
        }
    }
}

/// The texture dictionary that an entity-component store holds as a resource:
/// for each name, the number of the texture filed under it.  Where the store
/// holds no dictionary, nothing is said of it.
pub uninterp spec fn held_textures(ecs: specs::World) -> Map<Seq<char>, u64>;

/// Whether an entity-component store holds a texture dictionary as a resource.
pub uninterp spec fn holds_textures(ecs: specs::World) -> bool;

/// Whether the texture dictionary that an entity-component store holds is
/// free to be read: no guard on it is outstanding, be it alive or leaked.
/// Where the store holds no dictionary, nothing is said.
pub uninterp spec fn textures_unborrowed(ecs: specs::World) -> bool;

/// `specs::WorldExt::new` makes a store that holds the resources of the
/// store itself and no other: in it there is no texture dictionary.
#[verifier::external_body]
fn ecs_new() -> (ecs: specs::World)
    ensures
        !holds_textures(ecs),
{
    specs::World::new()
}

/// `specs::World::insert` puts a resource into the store, in place of the
/// resource of the same type if the store held one: afterwards the store
/// holds `dict` as its texture dictionary.  The resource is put into a cell
/// of its own that is made for it, so no guard on it is outstanding.
#[verifier::external_body]
fn ecs_insert_textures(ecs: &mut specs::World, dict: TextureDict)
    ensures
        holds_textures(*final(ecs)),
        held_textures(*final(ecs)) == dict@,
        textures_unborrowed(*final(ecs)),
{
    ecs.insert(dict)
}

/// `specs::World::has_value` says whether the store holds a resource of the
/// type asked for, here a texture dictionary.  It borrows no resource.
#[verifier::external_body]
fn ecs_has_textures(ecs: &specs::World) -> (held: bool)
    ensures
        held == holds_textures(*ecs),
{
    ecs.has_value::<TextureDict>()
}

/// `specs::World::try_fetch` borrows the resource of the type asked for, if
/// the store holds one; what comes back is a copy of the texture dictionary
/// that the store holds.  The borrow fails where a guard that writes is
/// outstanding, so the call is made only on a store whose dictionary is free
/// to be read; the borrow ends with the call.
#[verifier::external_body]
fn ecs_fetch_textures(ecs: &specs::World) -> (found: Option<TextureDict>)
    requires
        holds_textures(*ecs) ==> textures_unborrowed(*ecs),
    ensures
        match found {
            Some(dict) => holds_textures(*ecs) && dict@ == held_textures(*ecs),
            None => !holds_textures(*ecs),
        },
{
    ecs.try_fetch::<TextureDict>().map(|dict| (*dict).clone())
}

/// The state container: an entity-component store, which holds the texture
/// dictionary once it is installed, and the entities of the simulation in the
/// order in which they were registered.
pub struct StateContainer {
    ecs: specs::World,
    entities: Vec<Entity>,
}

/// The mathematical value of a [`StateContainer`].
pub struct ContainerView {
    pub entities: Seq<EntityView>,
    pub texture_dict: Option<Map<Seq<char>, u64>>,
}

/// The state container that holds nothing.
pub open spec fn empty_container() -> ContainerView {
    ContainerView { entities: Seq::empty(), texture_dict: None }
}

/// The texture that `world` knows under `name`.
pub open spec fn texture_named(world: ContainerView, name: Seq<char>) -> Option<TextureHandle> {
    match world.texture_dict {
        Some(dict) => filed(dict, name),
        None => None,
    }
}

impl View for StateContainer {
    type V = ContainerView;

    closed spec fn view(&self) -> ContainerView {
        ContainerView {
            entities: self.entities@.map_values(|e: Entity| e@),
            texture_dict: if holds_textures(self.ecs) {
                Some(held_textures(self.ecs))
            } else {
                None
            },
        }
    }
}

impl StateContainer {
    /// The dictionary of the store, if it holds one, is free to be read.
    #[verifier::type_invariant]
    spec fn readable(&self) -> bool {
        holds_textures(self.ecs) ==> textures_unborrowed(self.ecs)
    }

    /// A state container that holds nothing.
    pub fn new() -> (world: StateContainer)
        ensures
            world@ == empty_container(),
    {
        let world = StateContainer { ecs: ecs_new(), entities: Vec::new() };
        assert(world@.entities =~= Seq::empty());
        world
    }

    /// A state container around the store `ecs`, with no entity registered
    /// and no texture dictionary installed.  A store that holds a texture
    /// dictionary already is refused and handed back.
    pub fn from_ecs(ecs: specs::World) -> (made: Result<StateContainer, specs::World>)
        ensures
            match made {
                Ok(world) => !holds_textures(ecs) && world@ == empty_container(),
                Err(refused) => holds_textures(ecs) && refused == ecs,
            },
    {
        if ecs_has_textures(&ecs) {
            Err(ecs)
        } else {
            let world = StateContainer { ecs, entities: Vec::new() };
            assert(world@.entities =~= Seq::empty());
            Ok(world)
        }
    }

    /// Installs `dict` as the texture dictionary, in place of any earlier one.
    pub fn insert_texture_dict(&mut self, dict: TextureDict)
        ensures
            final(self)@ == (ContainerView { texture_dict: Some(dict@), ..old(self)@ }),
    {
        // The store is written outside the container and put back, so that
        // the container holds a store in good order at every step.
        let mut ecs = ecs_new();
        core::mem::swap(&mut self.ecs, &mut ecs);
        ecs_insert_textures(&mut ecs, dict);
        core::mem::swap(&mut self.ecs, &mut ecs);
    }

    /// Whether a texture dictionary is installed.
    pub fn has_texture_dict(&self) -> (has: bool)
        ensures
            has == self@.texture_dict.is_some(),
    {
        ecs_has_textures(&self.ecs)
    }

    /// The texture that the installed dictionary files under `name`.
    pub fn texture(&self, name: &str) -> (found: Option<TextureHandle>)
        ensures
            found == texture_named(self@, name@),
    {
        proof {
            use_type_invariant(self);
        }
        match ecs_fetch_textures(&self.ecs) {
            Some(dict) => dict.get(name),
            None => None,
        }
    }

    /// Registers `entity` as the newest entity.
    pub fn register(&mut self, entity: Entity)
        ensures
            final(self)@ == (ContainerView {
                entities: old(self)@.entities.push(entity@),
                ..old(self)@
            }),
    {
        proof {
            use_type_invariant(&*self);
        }
        // As above: the list is taken out, extended, and put back.
        let mut entities: Vec<Entity> = Vec::new();
        core::mem::swap(&mut self.entities, &mut entities);
        entities.push(entity);
        core::mem::swap(&mut self.entities, &mut entities);
        assert(self@.entities =~= old(self)@.entities.push(entity@));
    }

    /// How many entities are registered.
    pub fn entity_count(&self) -> (count: usize)
        ensures
            count == self@.entities.len(),
    {
        self.entities.len()
    }

    /// The entity registered as number `index`, counting from 0.
    pub fn entity(&self, index: usize) -> (found: Option<&Entity>)
        ensures
            match found {
                Some(entity) => index < self@.entities.len() && entity@ == self@.entities[index as int],
                None => index >= self@.entities.len(),
            },
    {
        if index < self.entities.len() {
            Some(&self.entities[index])
        } else {
            None
        }
    }

    /// Gives up the state container for its parts: the entity-component
    /// store, which still holds the texture dictionary if one was installed,
    /// and the registered entities in order.
    pub fn into_parts(self) -> (parts: (specs::World, Vec<Entity>))
        ensures
            parts.1@.map_values(|e: Entity| e@) == self@.entities,
            holds_textures(parts.0) == self@.texture_dict.is_some(),
            holds_textures(parts.0) ==> self@.texture_dict == Some(held_textures(parts.0)),
    {
        (self.ecs, self.entities)
    }
}

/// The handle to the state container.
pub type SharedStateHandle = Shared<StateContainer>;

/// The handle to a rendering context of type `C`.
pub type SharedContextHandle<C> = Shared<C>;

/// The two handles that every draw task is run against.
pub struct Handles<C> {
    pub state: Shared<StateContainer>,
    pub context: Shared<C>,
}

impl<C> Handles<C> {
    /// Sound handles to `world` and `context`.
    pub fn new(world: StateContainer, context: C) -> (handles: Handles<C>)
        ensures
            handles == (Handles {
                state: Shared { resource: world, poisoned: false },
                context: Shared { resource: context, poisoned: false },
            }),
    {
        Handles { state: Shared::new(world), context: Shared::new(context) }
    }
}

} // verus!
