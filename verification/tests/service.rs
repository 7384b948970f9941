use std::cell::RefCell;
use std::collections::BTreeMap;

use apodize_core::instance::service::{finish_create, resolve_lookup};
use apodize_core::instance::{
    CreateInstanceRequest, Instance, InstanceId, InstanceRepository, InstanceService,
};
use apodize_core::InstanceError;

#[derive(Debug, Default)]
struct MemoryRepository {
    instances: RefCell<BTreeMap<InstanceId, Instance>>,
}

impl InstanceRepository for MemoryRepository {
    fn create(&self, instance: &Instance) -> Result<(), InstanceError> {
        let mut instances = self.instances.borrow_mut();
        if instances.contains_key(instance.id()) {
            return Err(InstanceError::AlreadyExists(instance.id().to_string()));
        }
        instances.insert(instance.id().clone(), instance.clone());
        Ok(())
    }

    fn get(&self, id: &InstanceId) -> Result<Option<Instance>, InstanceError> {
        Ok(self.instances.borrow().get(id).cloned())
    }

    fn list(&self) -> Result<Vec<Instance>, InstanceError> {
        Ok(self.instances.borrow().values().cloned().collect())
    }

    fn delete(&self, id: &InstanceId) -> Result<(), InstanceError> {
        if self.instances.borrow_mut().remove(id).is_none() {
            return Err(InstanceError::NotFound(id.to_string()));
        }
        Ok(())
    }
}

#[test]
fn service_creates_and_loads_instance() {
    let service = InstanceService::new(MemoryRepository::default());
    let created = service
        .create(CreateInstanceRequest::new("Survival", "1.21.8"))
        .expect("create instance");

    let loaded = service.get(created.id()).expect("load instance");
    assert_eq!(loaded, created);
}

#[test]
fn service_rejects_empty_instance_name() {
    let service = InstanceService::new(MemoryRepository::default());
    let error = service
        .create(CreateInstanceRequest::new("   ", "1.21.8"))
        .expect_err("empty name must fail");

    assert!(matches!(error, InstanceError::EmptyName));
}

#[test]
fn service_rejects_empty_minecraft_version() {
    let service = InstanceService::new(MemoryRepository::default());
    let error = service
        .create(CreateInstanceRequest::new("Survival", "  "))
        .expect_err("empty version must fail");

    assert!(matches!(error, InstanceError::EmptyMinecraftVersion));
}

#[test]
fn service_reports_blank_version_before_blank_name() {
    let service = InstanceService::new(MemoryRepository::default());
    let error = service
        .create(CreateInstanceRequest::new("", "\t"))
        .expect_err("blank request must fail");
    assert!(matches!(error, InstanceError::EmptyMinecraftVersion));
    assert!(service.list().expect("list").is_empty());
}

#[test]
fn service_stores_what_it_creates() {
    let service = InstanceService::new(MemoryRepository::default());
    let created = service
        .create(CreateInstanceRequest::new("Creative", "1.20.1"))
        .expect("create instance");
    assert_eq!(created.name(), "Creative");
    assert_eq!(created.minecraft().version(), "1.20.1");
    assert!(created.minecraft().loader().is_none());
    assert!(created.java().executable().is_none());
    assert!(created.java().jvm_args().is_empty());
    assert!(created.launch().environment().is_empty());
    assert!(created.launch().commands().before_launch().is_empty());
    assert!(created.launch().commands().after_exit().is_empty());
    assert_eq!(service.list().expect("list"), vec![created.clone()]);
    assert_eq!(service.repository().instances.borrow().len(), 1);
}

#[test]
fn service_get_of_unknown_id_is_not_found() {
    let service = InstanceService::new(MemoryRepository::default());
    let id = InstanceId::parse("019c0000-0000-7000-8000-000000000001").expect("id");
    let error = service.get(&id).expect_err("unknown id");
    match error {
        InstanceError::NotFound(text) => assert_eq!(text, "019c0000-0000-7000-8000-000000000001"),
        other => panic!("unexpected error {other:?}"),
    }
}

#[test]
fn service_remove_deletes_and_second_remove_fails() {
    let service = InstanceService::new(MemoryRepository::default());
    let created = service
        .create(CreateInstanceRequest::new("Disposable", "1.21.8"))
        .expect("create instance");
    service.remove(created.id()).expect("remove");
    assert!(matches!(service.get(created.id()), Err(InstanceError::NotFound(_))));
    assert!(matches!(service.remove(created.id()), Err(InstanceError::NotFound(_))));
}

#[test]
fn finish_create_passes_the_repository_answer_on() {
    let instance = Instance::new("Survival", "1.21.8").expect("instance");
    assert_eq!(finish_create(instance.clone(), Ok(())).expect("stored"), instance);
    let refused = finish_create(instance.clone(), Err(InstanceError::AlreadyExists("x".into())));
    assert!(matches!(refused, Err(InstanceError::AlreadyExists(text)) if text == "x"));
}

#[test]
fn resolve_lookup_maps_each_answer() {
    let instance = Instance::new("Survival", "1.21.8").expect("instance");
    let id = *instance.id();
    assert_eq!(resolve_lookup(&id, Ok(Some(instance.clone()))).expect("found"), instance);
    match resolve_lookup(&id, Ok(None)) {
        Err(InstanceError::NotFound(text)) => assert_eq!(text, id.to_string()),
        other => panic!("unexpected {other:?}"),
    }
    assert!(matches!(
        resolve_lookup(&id, Err(InstanceError::EmptyName)),
        Err(InstanceError::EmptyName)
    ));
}
