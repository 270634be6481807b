//! Descriptors, the dispatch from a descriptor's kind to a component loader,
//! and the loading of entities into the state container.
use vstd::prelude::*;
use crate::error::{ErrorKind, LoadError, LoadErrorView};
use crate::task::{Compose, Serialized, Task};
use crate::table::NameTable;
use crate::shared::{Entity, EntityView, Handles, Shared, Transform, StateContainer, ContainerView};

verus! {

/// The kind identifier of a texture component.
pub const TEXTURE_LOAD_ID: &'static str = "texture";

/// The kind identifier of a transform component.
pub const TRANSFORM_LOAD_ID: &'static str = "transform";

/// One described thing: the kind that says which loader is responsible for
/// it, and the value that loader is to read.
#[derive(Clone, Debug)]
pub struct JSONLoad {
    pub load_type_id: String,
    pub actual_value: String,
}

/// The mathematical value of a [`JSONLoad`].
pub struct JSONLoadView {
    pub load_type_id: Seq<char>,
    pub actual_value: Seq<char>,
}

impl View for JSONLoad {
    type V = JSONLoadView;

    open spec fn view(&self) -> JSONLoadView {
        JSONLoadView { load_type_id: self.load_type_id@, actual_value: self.actual_value@ }
    }
}

impl JSONLoad {
    /// A descriptor of kind `load_type_id` with the value `actual_value`.
    pub fn new(load_type_id: &str, actual_value: &str) -> (json: JSONLoad)
        ensures
            json@ == (JSONLoadView { load_type_id: load_type_id@, actual_value: actual_value@ }),
    {
        JSONLoad { load_type_id: load_type_id.to_owned(), actual_value: actual_value.to_owned() }
    }

    /// A second descriptor with the same kind and value.
    pub fn duplicate(&self) -> (json: JSONLoad)
        ensures
            json@ == self@,
    {
        JSONLoad { load_type_id: self.load_type_id.clone(), actual_value: self.actual_value.clone() }
    }
}

/// What an entity descriptor holds: the descriptors of the entity's
/// components, in the order in which they are loaded.
#[derive(Clone, Debug)]
pub struct EntityJSON {
    pub components: Vec<JSONLoad>,
}

impl View for EntityJSON {
    type V = Seq<JSONLoadView>;

    open spec fn view(&self) -> Seq<JSONLoadView> {
        self.components@.map_values(|json: JSONLoad| json@)
    }
}

impl EntityJSON {
    /// An entity descriptor that lists `components`.
    pub fn new(components: Vec<JSONLoad>) -> (entity: EntityJSON)
        ensures
            entity.components == components,
    {
        EntityJSON { components }
    }
}

/// The views of a list of entity descriptors.
pub open spec fn entity_views(entities: Seq<EntityJSON>) -> Seq<Seq<JSONLoadView>> {
    entities.map_values(|entity: EntityJSON| entity@)
}

/// The failure for a component descriptor that carries no value.
pub open spec fn missing_value() -> LoadErrorView {
    LoadErrorView { kind: ErrorKind::Content, cause: "component descriptor has no value"@ }
}

/// The failure for a texture component while no dictionary is installed.
pub open spec fn missing_dictionary() -> LoadErrorView {
    LoadErrorView { kind: ErrorKind::Content, cause: "no texture dictionary is installed"@ }
}

/// The failure for a texture component whose name the dictionary lacks.
pub open spec fn unknown_texture() -> LoadErrorView {
    LoadErrorView { kind: ErrorKind::Content, cause: "texture is not in the dictionary"@ }
}

/// Loads a texture component: the entity gets the texture that the installed
/// dictionary files under the loader's name.
#[derive(Clone, Debug)]
pub struct TextureLoader {
    pub name: String,
}

/// Loads a transform component: the entity gets the described transform.
#[derive(Clone, Debug)]
pub struct TransformLoader {
    pub descriptor: String,
}

/// A loader for one component of an entity.
#[derive(Clone, Debug)]
pub enum ComponentLoader {
    Texture(TextureLoader),
    Transform(TransformLoader),
}

/// The mathematical value of a [`ComponentLoader`].
pub enum ComponentLoaderView {
    Texture(Seq<char>),
    Transform(Seq<char>),
}

impl View for ComponentLoader {
    type V = ComponentLoaderView;

    open spec fn view(&self) -> ComponentLoaderView {
        match self {
            ComponentLoader::Texture(loader) => ComponentLoaderView::Texture(loader.name@),
            ComponentLoader::Transform(loader) => ComponentLoaderView::Transform(loader.descriptor@),
        }
    }
}

/// The texture loader that `json` describes: its value is the texture's name.
pub open spec fn texture_loader_for(json: JSONLoadView) -> Result<ComponentLoaderView, LoadErrorView> {
    if json.actual_value.len() == 0 {
        Err(missing_value())
    } else {
        Ok(ComponentLoaderView::Texture(json.actual_value))
    }
}

/// The transform loader that `json` describes: its value is the transform.
pub open spec fn transform_loader_for(json: JSONLoadView) -> Result<
    ComponentLoaderView,
    LoadErrorView,
> {
    if json.actual_value.len() == 0 {
        Err(missing_value())
    } else {
        Ok(ComponentLoaderView::Transform(json.actual_value))
    }
}

/// `entity` with the component that `loader` loads, given what `world` holds.
pub open spec fn with_component(loader: ComponentLoaderView, entity: EntityView, world: ContainerView) -> Result<
    EntityView,
    LoadErrorView,
> {
    match loader {
        ComponentLoaderView::Texture(name) => match world.texture_dict {
            None => Err(missing_dictionary()),
            Some(dict) => match crate::shared::filed(dict, name) {
                Some(texture) => Ok(EntityView { texture: Some(texture), ..entity }),
                None => Err(unknown_texture()),
            },
        },
        ComponentLoaderView::Transform(descriptor) => Ok(
            EntityView { transform: Some(descriptor), ..entity },
        ),
    }
}

impl TextureLoader {
    /// The loader that `json` describes.  Fails, with a content error, exactly
    /// when `json` has no value.
    pub fn from_json(json: JSONLoad) -> (made: Result<TextureLoader, LoadError>)
        ensures
            match made {
                Ok(loader) => texture_loader_for(json@) == Ok::<ComponentLoaderView, LoadErrorView>(
                    ComponentLoaderView::Texture(loader.name@),
                ),
                Err(e) => texture_loader_for(json@) == Err::<ComponentLoaderView, LoadErrorView>(e@),
            },
    {
        if json.actual_value.as_str().is_empty() {
            Err(LoadError::content("component descriptor has no value"))
        } else {
            Ok(TextureLoader { name: json.actual_value })
        }
    }
}

impl TransformLoader {
    /// The loader that `json` describes.  Fails, with a content error, exactly
    /// when `json` has no value.
    pub fn from_json(json: JSONLoad) -> (made: Result<TransformLoader, LoadError>)
        ensures
            match made {
                Ok(loader) => transform_loader_for(json@) == Ok::<ComponentLoaderView, LoadErrorView>(
                    ComponentLoaderView::Transform(loader.descriptor@),
                ),
                Err(e) => transform_loader_for(json@) == Err::<ComponentLoaderView, LoadErrorView>(e@),
            },
    {
        if json.actual_value.as_str().is_empty() {
            Err(LoadError::content("component descriptor has no value"))
        } else {
            Ok(TransformLoader { descriptor: json.actual_value })
        }
    }
}

impl ComponentLoader {
    /// Gives `entity` the component that the loader loads.  A texture is looked
    /// up by name in the dictionary that `world` holds; the load fails, with a
    /// content error, where no dictionary is installed or the name is not in it.
    /// On failure `entity` is left as it was.
    pub fn load_component(self, entity: &mut Entity, world: &StateContainer) -> (done: Result<(), LoadError>)
        ensures
            match done {
                Ok(()) => with_component(self@, old(entity)@, world@) == Ok::<EntityView, LoadErrorView>(
                    final(entity)@,
                ),
                Err(e) => with_component(self@, old(entity)@, world@) == Err::<EntityView, LoadErrorView>(
                    e@,
                ) && final(entity)@ == old(entity)@,
            },
    {
        match self {
            ComponentLoader::Texture(loader) => {
                if !world.has_texture_dict() {
                    Err(LoadError::content("no texture dictionary is installed"))
                } else {
                    match world.texture(loader.name.as_str()) {
                        Some(texture) => {
                            entity.texture = Some(texture);
                            Ok(())
                        },
                        None => Err(LoadError::content("texture is not in the dictionary")),
                    }
                }
            },
            ComponentLoader::Transform(loader) => {
                entity.transform = Some(Transform { descriptor: loader.descriptor });
                Ok(())
            },
        }
    }
}

/// The dispatch from a descriptor to the loader responsible for it.
pub trait ComponentMux {
    /// The loader for `json`, or the failure.
    spec fn loader_for(&self, json: JSONLoadView) -> Result<ComponentLoaderView, LoadErrorView>;

    /// Resolves `json` to its loader.
    fn map_json_to_loader(&self, json: JSONLoad) -> (chosen: Result<ComponentLoader, LoadError>)
        ensures
            match chosen {
                Ok(loader) => self.loader_for(json@) == Ok::<ComponentLoaderView, LoadErrorView>(
                    loader@,
                ),
                Err(e) => self.loader_for(json@) == Err::<ComponentLoaderView, LoadErrorView>(e@),
            },
    ;
}

/// The constructors that a dispatch table can name.
#[derive(Clone, Copy, Debug, PartialEq, Eq, Structural)]
pub enum ComponentKind {
    /// Makes a [`TextureLoader`].
    Texture,
    /// Makes a [`TransformLoader`].
    Transform,
}

/// The failure for a component kind that names no constructor.
pub open spec fn unknown_component() -> LoadErrorView {
    LoadErrorView { kind: ErrorKind::Dispatch, cause: "Invalid json load ID"@ }
}

/// The loader that the table `constructors` gives for `json`: the one that the
/// constructor registered for the kind of `json` makes of it; a dispatch error
/// where no constructor is registered for the kind.
pub open spec fn dispatch(constructors: Map<Seq<char>, ComponentKind>, json: JSONLoadView) -> Result<
    ComponentLoaderView,
    LoadErrorView,
> {
    if constructors.contains_key(json.load_type_id) {
        match constructors[json.load_type_id] {
            ComponentKind::Texture => texture_loader_for(json),
            ComponentKind::Transform => transform_loader_for(json),
        }
    } else {
        Err(unknown_component())
    }
}

/// A dispatch table: for each registered kind identifier, the constructor of
/// the loader responsible for descriptors of that kind.
#[derive(Clone, Debug)]
pub struct ComponentRegistry {
    constructors: NameTable<ComponentKind>,
}

impl View for ComponentRegistry {
    type V = Map<Seq<char>, ComponentKind>;

    closed spec fn view(&self) -> Map<Seq<char>, ComponentKind> {
        self.constructors@
    }
}

impl ComponentRegistry {
    /// A table in which no kind is registered.
    pub fn new() -> (registry: ComponentRegistry)
        ensures
            registry@ == Map::<Seq<char>, ComponentKind>::empty(),
    {
        ComponentRegistry { constructors: NameTable::new() }
    }

    /// Registers `kind` as the constructor for descriptors of kind
    /// `load_type_id`, in place of what was registered for it.
    pub fn register(&mut self, load_type_id: &str, kind: ComponentKind)
        ensures
            final(self)@ == old(self)@.insert(load_type_id@, kind),
    {
        self.constructors.insert(load_type_id.to_owned(), kind);
    }
}

impl ComponentMux for ComponentRegistry {
    open spec fn loader_for(&self, json: JSONLoadView) -> Result<ComponentLoaderView, LoadErrorView> {
        dispatch(self@, json)
    }

    fn map_json_to_loader(&self, json: JSONLoad) -> (chosen: Result<ComponentLoader, LoadError>) {
        match self.constructors.get(json.load_type_id.as_str()) {
            Some(ComponentKind::Texture) => match TextureLoader::from_json(json) {
                Ok(loader) => Ok(ComponentLoader::Texture(loader)),
                Err(e) => Err(e),
            },
            Some(ComponentKind::Transform) => match TransformLoader::from_json(json) {
                Ok(loader) => Ok(ComponentLoader::Transform(loader)),
                Err(e) => Err(e),
            },
            None => Err(LoadError::dispatch("Invalid json load ID")),
        }
    }
}

/// `entity` after the components described by `components` are loaded into it
/// one after the other, each resolved through `M`; the first failure ends it.
pub open spec fn build_entity<M: ComponentMux>(
    mux: M,
    components: Seq<JSONLoadView>,
    entity: EntityView,
    world: ContainerView,
) -> Result<EntityView, LoadErrorView>
    decreases components.len(),
{
    if components.len() == 0 {
        Ok(entity)
    } else {
        match mux.loader_for(components[0]) {
            Err(e) => Err(e),
            Ok(loader) => match with_component(loader, entity, world) {
                Err(e) => Err(e),
                Ok(next) => build_entity(mux, components.drop_first(), next, world),
            },
        }
    }
}

/// The result of loading `entities` in order into a state container that
/// holds `world`, behind a handle that is poisoned or not, and what the
/// container holds afterwards.  Each entity is built whole and then
/// registered.  The first failure ends the load: the entities registered
/// before it stay, the failing one and those after it are not registered.
pub open spec fn load_entities<M: ComponentMux>(
    mux: M,
    entities: Seq<Seq<JSONLoadView>>,
    poisoned: bool,
    world: ContainerView,
) -> (Result<(), LoadErrorView>, ContainerView)
    decreases entities.len(),
{
    if entities.len() == 0 {
        (Ok(()), world)
    } else if poisoned {
        (Err(crate::shared::lock_failure()), world)
    } else {
        match build_entity(mux, entities[0], crate::shared::bare_entity(), world) {
            Err(e) => (Err(e), world),
            Ok(entity) => load_entities(
                mux,
                entities.drop_first(),
                poisoned,
                ContainerView { entities: world.entities.push(entity), ..world },
            ),
        }
    }
}

/// Builds the entity that `components` describe, against what `world` holds.
fn create_entity<M: ComponentMux>(mux: &M, components: &Vec<JSONLoad>, world: &StateContainer) -> (made: Result<
    Entity,
    LoadError,
>)
    ensures
        match made {
            Ok(entity) => build_entity(
                *mux,
                components@.map_values(|json: JSONLoad| json@),
                crate::shared::bare_entity(),
                world@,
            ) == Ok::<EntityView, LoadErrorView>(entity@),
            Err(e) => build_entity(
                *mux,
                components@.map_values(|json: JSONLoad| json@),
                crate::shared::bare_entity(),
                world@,
            ) == Err::<EntityView, LoadErrorView>(e@),
        },
{
    let ghost all = components@.map_values(|json: JSONLoad| json@);
    let mut entity = Entity::new();
    let mut i: usize = 0;
    assert(all.skip(0) =~= all);
    while i < components.len()
        invariant
            i <= components.len(),
            all == components@.map_values(|json: JSONLoad| json@),
            build_entity(*mux, all, crate::shared::bare_entity(), world@) == build_entity(
                *mux,
                all.skip(i as int),
                entity@,
                world@,
            ),
        decreases components.len() - i,
    {
        proof {
            assert(all.skip(i as int)[0] == components@[i as int]@);
            assert(all.skip(i as int).drop_first() =~= all.skip(i + 1));
        }
        match mux.map_json_to_loader(components[i].duplicate()) {
            Err(e) => {
                return Err(e);
            },
            Ok(loader) => match loader.load_component(&mut entity, world) {
                Err(e) => {
                    return Err(e);
                },
                Ok(()) => {},
            },
        }
        i = i + 1;
    }
    proof {
        assert(all.skip(i as int).len() == 0);
    }
    Ok(entity)
}

/// Loads the described entities, in order, into the state container behind
/// `state`, resolving each component through `mux`.
///
/// For each entity the handle is acquired, the entity is built component by
/// component, and the finished entity is registered.  The first failure ends
/// the load and is returned: an unknown kind as `mux` reports it, a poisoned
/// handle as a lock error, a texture that cannot be found as a content error.
/// Entities registered before the failure stay registered.
pub fn create_entity_vec<M: ComponentMux>(
    entities: &Vec<EntityJSON>,
    mux: &M,
    state: &mut Shared<StateContainer>,
) -> (done: Result<(), LoadError>)
    ensures
        final(state).poisoned == old(state).poisoned,
        load_entities(*mux, entity_views(entities@), old(state).poisoned, old(state).resource@) == (
            crate::error::with_error_view(done),
            final(state).resource@,
        ),
{
    let ghost all = entity_views(entities@);
    let mut i: usize = 0;
    assert(all.skip(0) =~= all);
    while i < entities.len()
        invariant
            i <= entities.len(),
            all == entity_views(entities@),
            state.poisoned == old(state).poisoned,
            load_entities(*mux, all, old(state).poisoned, old(state).resource@) == load_entities(
                *mux,
                all.skip(i as int),
                state.poisoned,
                state.resource@,
            ),
        decreases entities.len() - i,
    {
        proof {
            assert(all.skip(i as int)[0] == entities@[i as int]@);
            assert(all.skip(i as int).drop_first() =~= all.skip(i + 1));
        }
        match state.write() {
            Err(e) => {
                return Err(e);
            },
            Ok(world) => match create_entity(mux, &entities[i].components, world) {
                Err(e) => {
                    return Err(e);
                },
                Ok(entity) => {
                    world.register(entity);
                },
            },
        }
        i = i + 1;
    }
    proof {
        assert(all.skip(i as int).len() == 0);
    }
    Ok(())
}

/// `outcome` is how loading `entities` through `mux` ends when run against
/// `shared`: the rendering context and the state of the handles are untouched,
/// and the state container and the result are as [`load_entities`] says.
pub open spec fn entities_loaded<C, M: ComponentMux>(
    mux: M,
    entities: Vec<EntityJSON>,
    shared: Handles<C>,
    outcome: (Result<(), LoadError>, Handles<C>),
) -> bool {
    &&& outcome.1.context == shared.context
    &&& outcome.1.state.poisoned == shared.state.poisoned
    &&& load_entities(
        mux,
        entity_views(entities@),
        shared.state.poisoned,
        shared.state.resource@,
    ) == (crate::error::with_error_view(outcome.0), outcome.1.state.resource@)
}

/// The task that loads described entities into the state container,
/// resolving each component through the dispatch it holds.
pub struct CreateEntities<M> {
    pub mux: M,
}

impl<C, M: ComponentMux> Task<Vec<EntityJSON>, Handles<C>> for CreateEntities<M> {
    type Output = ();

    open spec fn accepts(&self, entities: Vec<EntityJSON>, shared: Handles<C>) -> bool {
        true
    }

    open spec fn yields(
        &self,
        entities: Vec<EntityJSON>,
        shared: Handles<C>,
        outcome: (Result<(), LoadError>, Handles<C>),
    ) -> bool {
        entities_loaded(self.mux, entities, shared, outcome)
    }

    fn execute(self, entities: Vec<EntityJSON>, shared: Handles<C>) -> (outcome: (
        Result<(), LoadError>,
        Handles<C>,
    )) {
        let mut shared = shared;
        let done = create_entity_vec(&entities, &self.mux, &mut shared.state);
        (done, shared)
    }
}

/// The task that, given the identifiers of entity descriptors, has `reader`
/// fetch what they describe and then loads the entities into the state
/// container, resolving each component through `mux`.
pub fn load_entity_vec<C, M, E>(reader: E, mux: M) -> (task: Serialized<E, CreateEntities<M>>) where
    M: ComponentMux,
    E: Task<Vec<String>, Handles<C>, Output = Vec<EntityJSON>>,

    ensures
        task.first == reader,
        task.step.mux == mux,
        forall|paths: Vec<String>, shared: Handles<C>| #[trigger]
            task.accepts(paths, shared) == reader.accepts(paths, shared),
        forall|paths: Vec<String>, shared: Handles<C>, outcome: (Result<(), LoadError>, Handles<C>)| #[trigger]
            task.yields(paths, shared, outcome) == exists|read: (
                Result<Vec<EntityJSON>, LoadError>,
                Handles<C>,
            )| #[trigger]
                reader.yields(paths, shared, read) && match read.0 {
                    Ok(entities) => entities_loaded(mux, entities, read.1, outcome),
                    Err(e) => outcome == (Err::<(), LoadError>(e), read.1),
                },
{
    reader.serialize(CreateEntities { mux })
}

} // verus!
