use maa_bridge::agent::{agent_spawn_failed, AgentConfig};
use maa_bridge::controller::{ControllerConfig, ControllerRequest};
use maa_bridge::error::{BridgeError, HandleKind, Precondition, RequestKind};
use maa_bridge::native::{task_status_from_code, TaskStatus, MAA_INVALID_ID};
use maa_bridge::registry::Registry;
use maa_bridge::runtime::Release;
use maa_bridge::state::MaaState;
use maa_bridge::tasks::{require_inited, TaskerPlan};

const RESOURCE: u64 = 0x1000;
const CONTROLLER: u64 = 0x2000;
const TASKER: u64 = 0x3000;

fn adb_config() -> ControllerConfig {
    ControllerConfig::Adb {
        adb_path: "adb".to_string(),
        address: "127.0.0.1:5555".to_string(),
        screencap_methods: "18446744073709551615".to_string(),
        input_methods: "7".to_string(),
        config: "{}".to_string(),
    }
}

/// Brings instance `id` to a state with resource, controller and scheduler.
fn ready_instance(reg: &mut Registry, id: &str, base: u64) {
    reg.create_instance(id.to_string());
    let res = reg.install_resource(id, RESOURCE + base);
    assert_eq!(res.result, Ok(RESOURCE + base));
    let request = reg.prepare_controller(id, &adb_config(), None).unwrap();
    assert!(matches!(request, ControllerRequest::Adb { .. }));
    let conn = reg.install_controller(id, CONTROLLER + base, 11);
    assert_eq!(conn.result, Ok(11));
    let plan = reg.tasker_plan(id).unwrap();
    assert_eq!(plan, TaskerPlan::Create { resource: RESOURCE + base, controller: CONTROLLER + base });
    let out = reg.install_tasker(id, TASKER + base, RESOURCE + base, CONTROLLER + base);
    assert_eq!(out.result, Ok(TASKER + base));
    assert!(out.releases.is_empty());
}

#[test]
fn creating_existing_instance_keeps_its_handles() {
    let mut reg = Registry::new();
    assert!(reg.create_instance("x".to_string()));
    assert_eq!(reg.install_resource("x", RESOURCE).result, Ok(RESOURCE));
    assert!(!reg.create_instance("x".to_string()));
    assert_eq!(reg.resource_of("x"), Ok(Some(RESOURCE)));
    assert_eq!(reg.instance_ids(), vec!["x".to_string()]);
}

#[test]
fn destroying_unknown_instance_succeeds() {
    let mut reg = Registry::new();
    assert!(reg.destroy_instance("nope").is_none());
    reg.create_instance("a".to_string());
    assert!(reg.destroy_instance("nope").is_none());
    assert!(reg.contains("a"));
}

#[test]
fn scheduler_needs_resource_then_controller() {
    let mut reg = Registry::new();
    assert_eq!(reg.tasker_plan("x"), Err(BridgeError::InstanceNotFound));
    reg.create_instance("x".to_string());
    assert_eq!(
        reg.tasker_plan("x"),
        Err(BridgeError::PreconditionViolation(Precondition::ResourceNotLoaded))
    );
    reg.install_resource("x", RESOURCE);
    assert_eq!(
        reg.tasker_plan("x"),
        Err(BridgeError::PreconditionViolation(Precondition::ControllerNotConnected))
    );
}

#[test]
fn destroying_resource_destroys_scheduler_first() {
    let mut reg = Registry::new();
    ready_instance(&mut reg, "x", 0);
    let plan = reg.destroy_resource("x").unwrap();
    assert_eq!(plan, vec![Release::DestroyTasker(TASKER), Release::DestroyResource(RESOURCE)]);
    assert_eq!(reg.running_query("x"), Ok(None));
    assert_eq!(reg.resource_of("x"), Ok(None));
    assert_eq!(reg.controller_of("x"), Ok(CONTROLLER));
    assert_eq!(reg.destroy_resource("y"), Err(BridgeError::InstanceNotFound));
}

#[test]
fn replacing_controller_releases_scheduler_then_old_controller() {
    let mut reg = Registry::new();
    ready_instance(&mut reg, "x", 0);
    let out = reg.install_controller("x", 0x2222, 12);
    assert_eq!(out.result, Ok(12));
    assert_eq!(out.releases, vec![Release::DestroyTasker(TASKER), Release::DestroyController(CONTROLLER)]);
    assert_eq!(reg.controller_of("x"), Ok(0x2222));
    assert_eq!(
        reg.tasker_plan("x"),
        Ok(TaskerPlan::Create { resource: RESOURCE, controller: 0x2222 })
    );
}

#[test]
fn controller_install_failures_leave_instance_alone() {
    let mut reg = Registry::new();
    reg.create_instance("x".to_string());
    let out = reg.install_controller("x", 0, 5);
    assert_eq!(out.result, Err(BridgeError::HandleCreationFailed(HandleKind::Controller)));
    assert!(out.releases.is_empty());
    let out = reg.install_controller("x", CONTROLLER, MAA_INVALID_ID);
    assert_eq!(out.result, Err(BridgeError::RequestPostFailed(RequestKind::Connection)));
    assert_eq!(out.releases, vec![Release::DestroyController(CONTROLLER)]);
    let out = reg.install_controller("gone", CONTROLLER, 5);
    assert_eq!(out.result, Err(BridgeError::InstanceNotFound));
    assert_eq!(out.releases, vec![Release::DestroyController(CONTROLLER)]);
    assert_eq!(
        reg.controller_of("x"),
        Err(BridgeError::PreconditionViolation(Precondition::ControllerNotConnected))
    );
}

#[test]
fn second_resource_is_released_when_one_exists() {
    let mut reg = Registry::new();
    reg.create_instance("x".to_string());
    let out = reg.install_resource("x", 0);
    assert_eq!(out.result, Err(BridgeError::HandleCreationFailed(HandleKind::Resource)));
    assert_eq!(reg.install_resource("x", RESOURCE).result, Ok(RESOURCE));
    let out = reg.install_resource("x", 0x1111);
    assert_eq!(out.result, Ok(RESOURCE));
    assert_eq!(out.releases, vec![Release::DestroyResource(0x1111)]);
    let out = reg.install_resource("gone", 0x1111);
    assert_eq!(out.result, Err(BridgeError::InstanceNotFound));
    assert_eq!(out.releases, vec![Release::DestroyResource(0x1111)]);
}

#[test]
fn scheduler_install_checks_binding() {
    let mut reg = Registry::new();
    ready_instance(&mut reg, "x", 0);
    let out = reg.install_tasker("x", 0x3333, RESOURCE, CONTROLLER);
    assert_eq!(out.result, Ok(TASKER));
    assert_eq!(out.releases, vec![Release::DestroyTasker(0x3333)]);
    let out = reg.install_tasker("x", 0x3333, 0x9999, CONTROLLER);
    assert_eq!(out.result, Err(BridgeError::PreconditionViolation(Precondition::ResourceNotLoaded)));
    let out = reg.install_tasker("x", 0x3333, RESOURCE, 0x9999);
    assert_eq!(out.result, Err(BridgeError::PreconditionViolation(Precondition::ControllerNotConnected)));
    let out = reg.install_tasker("x", 0, RESOURCE, CONTROLLER);
    assert_eq!(out.result, Err(BridgeError::HandleCreationFailed(HandleKind::Tasker)));
    assert_eq!(reg.tasker_of("x"), Ok(TASKER));
}

#[test]
fn teardown_releases_everything_in_order() {
    let mut reg = Registry::new();
    ready_instance(&mut reg, "x", 0);
    let out = reg.record_agent("x", 0x4000, 77, true);
    assert_eq!(out.result, Ok(()));
    let plan = reg.destroy_instance("x").unwrap();
    assert_eq!(
        plan,
        vec![
            Release::DisconnectAgent(0x4000),
            Release::DestroyAgent(0x4000),
            Release::KillAgentProcess(77),
            Release::DestroyTasker(TASKER),
            Release::DestroyController(CONTROLLER),
            Release::DestroyResource(RESOURCE),
        ]
    );
    assert!(!reg.contains("x"));
    assert!(reg.instance_ids().is_empty());
}

#[test]
fn empty_instance_tears_down_to_nothing() {
    let mut reg = Registry::new();
    reg.create_instance("x".to_string());
    assert_eq!(reg.destroy_instance("x"), Some(vec![]));
}

#[test]
fn task_ids_accumulate_and_reset_on_stop() {
    let mut reg = Registry::new();
    ready_instance(&mut reg, "x", 0);
    assert_eq!(reg.record_task("x", 5), Ok(5));
    assert_eq!(reg.record_task("x", MAA_INVALID_ID), Err(BridgeError::RequestPostFailed(RequestKind::Task)));
    assert_eq!(reg.record_tasks("x", &vec![6, MAA_INVALID_ID, 7]), Ok(vec![6, 7]));
    assert_eq!(reg.state_probe("x").unwrap().task_ids, vec![5, 6, 7]);
    assert_eq!(reg.stop_tasks("x"), Ok(TASKER));
    assert!(reg.state_probe("x").unwrap().task_ids.is_empty());
    assert_eq!(reg.record_task("gone", 5), Err(BridgeError::InstanceNotFound));
    assert_eq!(reg.record_tasks("gone", &vec![1]), Err(BridgeError::InstanceNotFound));
}

#[test]
fn stop_without_scheduler_still_forgets_task_ids() {
    let mut reg = Registry::new();
    reg.create_instance("x".to_string());
    assert_eq!(reg.record_task("x", 9), Ok(9));
    assert_eq!(
        reg.stop_tasks("x"),
        Err(BridgeError::PreconditionViolation(Precondition::TaskerNotCreated))
    );
    assert!(reg.state_probe("x").unwrap().task_ids.is_empty());
    assert_eq!(reg.stop_tasks("gone"), Err(BridgeError::InstanceNotFound));
}

#[test]
fn every_status_code_maps_to_one_status() {
    assert_eq!(task_status_from_code(1000), TaskStatus::Pending);
    assert_eq!(task_status_from_code(2000), TaskStatus::Running);
    assert_eq!(task_status_from_code(3000), TaskStatus::Succeeded);
    assert_eq!(task_status_from_code(4000), TaskStatus::Failed);
    assert_eq!(task_status_from_code(0), TaskStatus::Failed);
    assert_eq!(task_status_from_code(-1), TaskStatus::Failed);
    assert_eq!(task_status_from_code(i32::MAX), TaskStatus::Failed);
    assert_eq!(task_status_from_code(i32::MIN), TaskStatus::Failed);
}

#[test]
fn operations_on_one_instance_leave_another_alone() {
    let mut reg = Registry::new();
    ready_instance(&mut reg, "a", 0);
    ready_instance(&mut reg, "b", 0x10);
    reg.record_task("b", 40);
    reg.record_task("a", 41);
    reg.stop_tasks("a").unwrap();
    reg.destroy_resource("a").unwrap();
    reg.install_controller("a", 0x5555, 3);
    reg.destroy_instance("a");
    let b = reg.state_probe("b").unwrap();
    assert_eq!(b.controller, Some(CONTROLLER + 0x10));
    assert_eq!(b.resource, Some(RESOURCE + 0x10));
    assert_eq!(b.tasker, Some(TASKER + 0x10));
    assert_eq!(b.task_ids, vec![40]);
}

#[test]
fn run_task_end_to_end() {
    let mut reg = Registry::new();
    reg.create_instance("x".to_string());
    let resource = match reg.resource_of("x").unwrap() {
        Some(r) => r,
        None => reg.install_resource("x", RESOURCE).result.unwrap(),
    };
    let bundles = maa_bridge::resource::accepted_request_ids(&vec![1]);
    assert_eq!(bundles, vec![1]);
    reg.prepare_controller("x", &adb_config(), None).unwrap();
    assert_eq!(reg.install_controller("x", CONTROLLER, 2).result, Ok(2));
    let tasker = match reg.tasker_plan("x").unwrap() {
        TaskerPlan::Ready(t) => t,
        TaskerPlan::Create { resource: r, controller: c } => {
            assert_eq!(r, resource);
            reg.install_tasker("x", TASKER, r, c).result.unwrap()
        }
    };
    require_inited(true).unwrap();
    let task_id = reg.record_task("x", 3).unwrap();
    assert!(task_id > 0);
    assert_eq!(reg.tasker_of("x"), Ok(tasker));
    let status = task_status_from_code(1000);
    assert!(status == TaskStatus::Pending || status == TaskStatus::Running);
}

#[test]
fn destroy_right_after_run_releases_all() {
    let mut reg = Registry::new();
    ready_instance(&mut reg, "x", 0);
    reg.record_task("x", 3).unwrap();
    let plan = reg.destroy_instance("x").unwrap();
    assert_eq!(
        plan,
        vec![
            Release::DestroyTasker(TASKER),
            Release::DestroyController(CONTROLLER),
            Release::DestroyResource(RESOURCE),
        ]
    );
    assert_eq!(reg.tasker_of("x"), Err(BridgeError::InstanceNotFound));
}

#[test]
fn agent_spawn_failure_keeps_handles_for_retry() {
    let mut reg = Registry::new();
    ready_instance(&mut reg, "x", 0);
    let config = AgentConfig {
        child_exec: "missing-agent".to_string(),
        child_args: None,
        identifier: None,
        timeout: None,
    };
    assert_eq!(maa_bridge::agent::agent_timeout(&config), -1);
    assert_eq!(reg.agent_resource("x"), Ok(RESOURCE));
    let out = agent_spawn_failed(0x4000, "not found".to_string());
    assert_eq!(out.result, Err(BridgeError::AgentSpawnFailed("not found".to_string())));
    assert_eq!(out.releases, vec![Release::DestroyAgent(0x4000)]);
    assert_eq!(reg.resource_of("x"), Ok(Some(RESOURCE)));
    assert_eq!(reg.controller_of("x"), Ok(CONTROLLER));
    assert_eq!(reg.tasker_plan("x"), Ok(TaskerPlan::Ready(TASKER)));
    assert_eq!(reg.record_tasks("x", &vec![8]), Ok(vec![8]));
}

#[test]
fn override_of_finished_task_reports_rejection() {
    let mut reg = Registry::new();
    ready_instance(&mut reg, "x", 0);
    reg.record_task("x", 3).unwrap();
    let tasker = reg.tasker_of("x").unwrap();
    assert_eq!(tasker, TASKER);
    let accepted_by_engine = false;
    let answer: Result<bool, BridgeError> = reg.tasker_of("x").map(|_| accepted_by_engine);
    assert_eq!(answer, Ok(false));
    reg.create_instance("y".to_string());
    assert_eq!(
        reg.tasker_of("y"),
        Err(BridgeError::PreconditionViolation(Precondition::TaskerNotCreated))
    );
}

#[test]
fn empty_device_search_clears_cache() {
    let mut state = MaaState::new();
    state.remember_adb_devices(vec![maa_bridge::discovery::AdbDevice {
        name: "emu".to_string(),
        adb_path: "adb".to_string(),
        address: "127.0.0.1:5555".to_string(),
        screencap_methods: u64::MAX,
        input_methods: 1,
        config: "{}".to_string(),
    }]);
    assert_eq!(state.cached_adb_devices.len(), 1);
    state.remember_adb_devices(Vec::new());
    assert!(state.cached_adb_devices.is_empty());
    state.remember_win32_windows(Vec::new());
    assert!(state.cached_win32_windows.is_empty());
}
