//! The application service that frontends call: instance creation, lookup,
//! listing and removal over any repository.

use vstd::prelude::*;

use crate::error::InstanceError;
use crate::instance::model::{uuid_text, Instance, InstanceId};
use crate::instance::repository::InstanceRepository;
use crate::text::is_blank_text;

verus! {

/// A request to create an instance.
#[derive(Debug, Clone, PartialEq, Eq)]
pub struct CreateInstanceRequest {
    pub name: String,
    pub minecraft_version: String,
}

impl CreateInstanceRequest {
    /// A request for an instance with this name and Minecraft version.
    pub fn new(name: &str, minecraft_version: &str) -> (request: Self)
        ensures
            request.name@ == name@,
            request.minecraft_version@ == minecraft_version@,
    {
        Self { name: name.to_owned(), minecraft_version: minecraft_version.to_owned() }
    }
}

/// The outcome of creating an instance, given what the repository answered to
/// storing it: the instance itself, or the repository's error.
pub fn finish_create(instance: Instance, stored: Result<(), InstanceError>) -> (created: Result<
    Instance,
    InstanceError,
>)
    ensures
        match stored {
            Ok(()) => created == Ok::<Instance, InstanceError>(instance),
            Err(e) => created == Err::<Instance, InstanceError>(e),
        },
{
    match stored {
        Ok(()) => Ok(instance),
        Err(e) => Err(e),
    }
}

/// The outcome of looking an instance up, given what the repository answered:
/// the instance, `NotFound` with the id's text when there is none, or the
/// repository's error.
pub fn resolve_lookup(
    id: &InstanceId,
    found: Result<Option<Instance>, InstanceError>,
) -> (instance: Result<Instance, InstanceError>)
    ensures
        match found {
            Ok(Some(i)) => instance == Ok::<Instance, InstanceError>(i),
            Ok(None) => instance matches Err(InstanceError::NotFound(text)) && text@ == uuid_text(
                id@,
            ),
            Err(e) => instance == Err::<Instance, InstanceError>(e),
        },
{
    match found {
        Ok(Some(i)) => Ok(i),
        Ok(None) => Err(InstanceError::NotFound(id.to_string())),
        Err(e) => Err(e),
    }
}

/// `i` is a new instance for `request`: valid, with a fresh version 7 id, the
/// requested name and Minecraft version, and nothing else configured.
pub open spec fn new_instance_for(i: Instance, request: CreateInstanceRequest) -> bool {
    &&& i.wf()
    &&& (i@.id >> 76u128) & 0xfu128 == 7
    &&& (i@.id >> 62u128) & 0x3u128 == 2
    &&& i@.name == request.name@
    &&& i@.minecraft.version == request.minecraft_version@
    &&& i@.minecraft.loader is None
    &&& i@.java.executable is None
    &&& i@.java.jvm_args.len() == 0
    &&& i@.launch.environment.is_empty()
    &&& i@.launch.commands.before_launch.len() == 0
    &&& i@.launch.commands.after_exit.len() == 0
}

/// Instance management over a repository.
#[derive(Debug)]
pub struct InstanceService<R> {
    repository: R,
}

impl<R: InstanceRepository> InstanceService<R> {
    /// The repository this service manages, as a value for contracts.
    pub closed spec fn repo(&self) -> R {
        self.repository
    }

    /// A service over `repository`.
    pub fn new(repository: R) -> (service: Self)
        ensures
            service.repo() == repository,
    {
        Self { repository }
    }

    /// Creates and stores a new instance. A blank Minecraft version is reported
    /// before a blank name, and the repository is not asked then. A valid
    /// request builds the new instance and hands it to the repository, once:
    /// the result is that instance when the repository stored it, or the
    /// repository's error unchanged.
    pub fn create(&self, request: CreateInstanceRequest) -> (created: Result<Instance, InstanceError>)
        ensures
            is_blank_text(request.minecraft_version@) ==> created matches Err(
                InstanceError::EmptyMinecraftVersion,
            ),
            !is_blank_text(request.minecraft_version@) && is_blank_text(request.name@)
                ==> created matches Err(InstanceError::EmptyName),
            !is_blank_text(request.minecraft_version@) && !is_blank_text(request.name@) ==> exists|
                i: Instance,
                stored: Result<(), InstanceError>,
            |
                #![trigger call_ensures(R::create, (&self.repo(), &i), stored)]
                call_ensures(R::create, (&self.repo(), &i), stored) && new_instance_for(i, request)
                    && match stored {
                    Ok(()) => created == Ok::<Instance, InstanceError>(i),
                    Err(e) => created == Err::<Instance, InstanceError>(e),
                },
            created matches Ok(i) ==> new_instance_for(i, request),
    {
        let instance = Instance::new(request.name.as_str(), request.minecraft_version.as_str())?;
        let ghost handed = instance;
        let stored = self.repository.create(&instance);
        proof {
            assert(new_instance_for(handed, request));
            assert(call_ensures(R::create, (&self.repo(), &handed), stored));
        }
        finish_create(instance, stored)
    }

    /// The instance with this id, as the repository answers the lookup of
    /// that id: the instance it found, `NotFound` with the id's text when it
    /// found none, or its error.
    pub fn get(&self, id: &InstanceId) -> (instance: Result<Instance, InstanceError>)
        ensures
            instance matches Ok(i) ==> i@.id == id@,
            exists|found: Result<Option<Instance>, InstanceError>|
                #![trigger call_ensures(R::get, (&self.repo(), id), found)]
                call_ensures(R::get, (&self.repo(), id), found) && match found {
                    Ok(Some(i)) => instance == Ok::<Instance, InstanceError>(i),
                    Ok(None) => instance matches Err(InstanceError::NotFound(text)) && text@
                        == uuid_text(id@),
                    Err(e) => instance == Err::<Instance, InstanceError>(e),
                },
    {
        let found = self.repository.get(id);
        resolve_lookup(id, found)
    }

    /// All instances: the repository's answer to listing, unchanged.
    pub fn list(&self) -> (listed: Result<Vec<Instance>, InstanceError>)
        ensures
            call_ensures(R::list, (&self.repo(),), listed),
    {
        self.repository.list()
    }

    /// Removes the instance with this id: the repository's answer to deleting
    /// that id, unchanged.
    pub fn remove(&self, id: &InstanceId) -> (removed: Result<(), InstanceError>)
        ensures
            call_ensures(R::delete, (&self.repo(), id), removed),
    {
        self.repository.delete(id)
    }

    /// The repository.
    pub fn repository(&self) -> (repository: &R)
        ensures
            *repository == self.repo(),
    {
        &self.repository
    }
}

} // verus!
