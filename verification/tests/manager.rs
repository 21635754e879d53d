use ice_core::config::ModuleConfig;
use ice_core::manager::Manager;
use ice_core::messages::{ConfigRef, ControlAction, LoadOutcome, ResultMessage, Step};

fn valid_config(mem: u32) -> ModuleConfig {
    let mut config = ModuleConfig::new();
    config.ok = 1;
    config.server_context_mem_size = mem;
    config
}

fn running() -> Manager<u32> {
    let mut manager = Manager::new();
    manager.start();
    manager
}

fn load(manager: &mut Manager<u32>, name: &str, ee: u32, config: ModuleConfig) -> ResultMessage {
    let action = ControlAction::LoadBitcode(name.to_string(), vec![0xde, 0xc0, 0x17, 0x0b]);
    match manager.begin(action) {
        Step::Compile { name, bytes } => {
            assert_eq!(bytes, vec![0xde, 0xc0, 0x17, 0x0b]);
            manager.finish_load(name, LoadOutcome::Initialized { ee, config })
        }
        Step::Reply(reply) => reply,
    }
}

fn list(manager: &Manager<u32>) -> Vec<String> {
    match manager.begin(ControlAction::GetModuleList) {
        Step::Reply(ResultMessage::ModuleList(names)) => names,
        other => panic!("unexpected step: {:?}", other),
    }
}

#[test]
fn new_manager_is_not_running_and_empty() {
    let manager: Manager<u32> = Manager::new();
    assert!(!manager.is_running());
    assert!(manager.names().is_empty());
}

#[test]
fn start_makes_the_manager_run() {
    let manager = running();
    assert!(manager.is_running());
    assert_eq!(list(&manager), Vec::<String>::new());
}

#[test]
fn new_config_is_zeroed_and_invalid() {
    let config = ModuleConfig::new();
    assert_eq!(config.ok, 0);
    assert_eq!(config.server_context_mem_size, 0);
    assert_eq!(config.context_init_hook, None);
    assert_eq!(config.context_destroy_hook, None);
    assert_eq!(config.before_request_hook, None);
    assert_eq!(config.request_hook, None);
    assert_eq!(config.response_hook, None);
    assert!(!config.is_valid());
}

#[test]
fn only_flag_one_marks_a_config_valid() {
    let mut config = ModuleConfig::new();
    config.ok = 1;
    assert!(config.is_valid());
    config.ok = 2;
    assert!(!config.is_valid());
    config.ok = -1;
    assert!(!config.is_valid());
}

#[test]
fn load_of_a_free_name_asks_to_compile() {
    let manager = running();
    let step = manager.begin(ControlAction::LoadBitcode("mod-a".to_string(), vec![1, 2, 3]));
    assert_eq!(step, Step::Compile { name: "mod-a".to_string(), bytes: vec![1, 2, 3] });
    assert!(manager.names().is_empty());
}

#[test]
fn loading_the_same_name_twice_conflicts() {
    let mut manager = running();
    assert_eq!(load(&mut manager, "mod-a", 1, valid_config(16)), ResultMessage::Success);
    assert_eq!(
        load(&mut manager, "mod-a", 2, valid_config(32)),
        ResultMessage::Failure("Module already exists".to_string())
    );
    assert_eq!(list(&manager), vec!["mod-a".to_string()]);
    let reference = match manager.begin(ControlAction::GetModuleConfig("mod-a".to_string())) {
        Step::Reply(ResultMessage::ModuleConfig(reference)) => reference,
        other => panic!("unexpected step: {:?}", other),
    };
    assert_eq!(manager.resolve(&reference).unwrap().server_context_mem_size, 16);
}

#[test]
fn conflict_is_found_before_anything_is_compiled() {
    let mut manager = running();
    assert_eq!(load(&mut manager, "mod-a", 1, valid_config(16)), ResultMessage::Success);
    let step = manager.begin(ControlAction::LoadBitcode("mod-a".to_string(), vec![9]));
    assert_eq!(
        step,
        Step::Reply(ResultMessage::Failure("Module already exists".to_string()))
    );
}

#[test]
fn finish_load_refuses_a_name_taken_meanwhile() {
    let mut manager = running();
    assert_eq!(load(&mut manager, "mod-a", 1, valid_config(16)), ResultMessage::Success);
    let reply = manager.finish_load(
        "mod-a".to_string(),
        LoadOutcome::Initialized { ee: 5, config: valid_config(64) },
    );
    assert_eq!(reply, ResultMessage::Failure("Module already exists".to_string()));
    assert_eq!(list(&manager), vec!["mod-a".to_string()]);
}

#[test]
fn compile_failure_leaves_the_registry_unchanged() {
    let mut manager = running();
    assert_eq!(load(&mut manager, "mod-a", 1, valid_config(16)), ResultMessage::Success);
    let reply = manager.finish_load("mod-b".to_string(), LoadOutcome::CompileFailed);
    assert_eq!(reply, ResultMessage::Failure("Unable to load bitcode".to_string()));
    assert_eq!(list(&manager), vec!["mod-a".to_string()]);
    assert_eq!(
        manager.begin(ControlAction::GetModuleConfig("mod-b".to_string())),
        Step::Reply(ResultMessage::Failure("Module not found".to_string()))
    );
}

#[test]
fn two_distinct_names_both_load_and_are_listed() {
    let mut manager = running();
    assert_eq!(load(&mut manager, "mod-a", 1, valid_config(16)), ResultMessage::Success);
    assert_eq!(load(&mut manager, "mod-b", 2, valid_config(32)), ResultMessage::Success);
    let names = list(&manager);
    assert_eq!(names.len(), 2);
    assert!(names.contains(&"mod-a".to_string()));
    assert!(names.contains(&"mod-b".to_string()));
}

#[test]
fn two_distinct_names_load_in_the_other_order_too() {
    let mut manager = running();
    assert_eq!(load(&mut manager, "mod-b", 2, valid_config(32)), ResultMessage::Success);
    assert_eq!(load(&mut manager, "mod-a", 1, valid_config(16)), ResultMessage::Success);
    assert_eq!(list(&manager), vec!["mod-b".to_string(), "mod-a".to_string()]);
}

#[test]
fn config_of_an_unregistered_name_is_not_found() {
    let manager = running();
    assert_eq!(
        manager.begin(ControlAction::GetModuleConfig("nowhere".to_string())),
        Step::Reply(ResultMessage::Failure("Module not found".to_string()))
    );
}

#[test]
fn loaded_module_hands_out_its_config() {
    let mut manager = running();
    let mut config = valid_config(128);
    config.response_hook = Some(0x4000);
    assert_eq!(load(&mut manager, "mod-a", 1, config), ResultMessage::Success);
    let step = manager.begin(ControlAction::GetModuleConfig("mod-a".to_string()));
    let reference = match step {
        Step::Reply(ResultMessage::ModuleConfig(reference)) => reference,
        other => panic!("unexpected step: {:?}", other),
    };
    let shared = manager.resolve(&reference).expect("the module is registered");
    assert_eq!(shared.server_context_mem_size, 128);
    assert!(shared.response_hook.is_some());
    assert_eq!(shared.response_hook, Some(0x4000));
    assert_eq!(shared.request_hook, None);
    assert_eq!(*shared, config);
}

#[test]
fn references_name_the_slot_of_their_module() {
    let mut manager = running();
    assert_eq!(load(&mut manager, "mod-a", 1, valid_config(16)), ResultMessage::Success);
    assert_eq!(load(&mut manager, "mod-b", 2, valid_config(32)), ResultMessage::Success);
    assert_eq!(
        manager.begin(ControlAction::GetModuleConfig("mod-a".to_string())),
        Step::Reply(ResultMessage::ModuleConfig(ConfigRef { slot: 0 }))
    );
    assert_eq!(
        manager.begin(ControlAction::GetModuleConfig("mod-b".to_string())),
        Step::Reply(ResultMessage::ModuleConfig(ConfigRef { slot: 1 }))
    );
}

#[test]
fn reference_that_was_never_handed_out_resolves_to_nothing() {
    let mut manager = running();
    assert!(manager.resolve(&ConfigRef { slot: 0 }).is_none());
    assert_eq!(load(&mut manager, "mod-a", 1, valid_config(16)), ResultMessage::Success);
    assert!(manager.resolve(&ConfigRef { slot: 0 }).is_some());
    assert!(manager.resolve(&ConfigRef { slot: 1 }).is_none());
    assert!(manager.resolve(&ConfigRef { slot: usize::MAX }).is_none());
}

#[test]
fn removed_module_leaves_a_dangling_reference() {
    let mut manager = running();
    assert_eq!(load(&mut manager, "mod-a", 7, valid_config(16)), ResultMessage::Success);
    assert_eq!(load(&mut manager, "mod-b", 8, valid_config(32)), ResultMessage::Success);
    let a = ConfigRef { slot: 0 };
    let b = ConfigRef { slot: 1 };
    let held = manager.resolve(&a).unwrap();
    assert_eq!(manager.remove(&"mod-a".to_string()), Some(7));
    assert!(manager.resolve(&a).is_none());
    assert_eq!(manager.resolve(&b).unwrap().server_context_mem_size, 32);
    assert_eq!(list(&manager), vec!["mod-b".to_string()]);
    assert_eq!(held.server_context_mem_size, 16);
    assert_eq!(
        manager.begin(ControlAction::GetModuleConfig("mod-a".to_string())),
        Step::Reply(ResultMessage::Failure("Module not found".to_string()))
    );
}

#[test]
fn removed_name_can_be_loaded_again_in_a_new_slot() {
    let mut manager = running();
    assert_eq!(load(&mut manager, "mod-a", 7, valid_config(16)), ResultMessage::Success);
    assert_eq!(manager.remove(&"mod-a".to_string()), Some(7));
    assert_eq!(load(&mut manager, "mod-a", 9, valid_config(48)), ResultMessage::Success);
    assert!(manager.resolve(&ConfigRef { slot: 0 }).is_none());
    assert_eq!(
        manager.begin(ControlAction::GetModuleConfig("mod-a".to_string())),
        Step::Reply(ResultMessage::ModuleConfig(ConfigRef { slot: 1 }))
    );
    assert_eq!(manager.resolve(&ConfigRef { slot: 1 }).unwrap().server_context_mem_size, 48);
}

#[test]
fn removing_an_unregistered_name_changes_nothing() {
    let mut manager = running();
    assert_eq!(load(&mut manager, "mod-a", 7, valid_config(16)), ResultMessage::Success);
    assert_eq!(manager.remove(&"mod-b".to_string()), None);
    assert_eq!(list(&manager), vec!["mod-a".to_string()]);
}

#[test]
fn empty_name_is_a_name_like_any_other() {
    let mut manager = running();
    assert_eq!(load(&mut manager, "", 1, valid_config(0)), ResultMessage::Success);
    assert_eq!(
        load(&mut manager, "", 2, valid_config(0)),
        ResultMessage::Failure("Module already exists".to_string())
    );
    assert_eq!(list(&manager), vec![String::new()]);
}

#[test]
fn handle_compiles_only_for_a_free_name() {
    let mut manager = running();
    let mut compiled = 0;
    let reply = manager.handle(
        ControlAction::LoadBitcode("mod-a".to_string(), vec![1, 2]),
        |name: &String, bytes: &Vec<u8>| {
            compiled += 1;
            assert_eq!(name, "mod-a");
            assert_eq!(bytes, &vec![1, 2]);
            LoadOutcome::Initialized { ee: 3, config: valid_config(128) }
        },
    );
    assert_eq!(reply, ResultMessage::Success);
    assert_eq!(compiled, 1);
    let reply = manager.handle(
        ControlAction::LoadBitcode("mod-a".to_string(), vec![1, 2]),
        |_: &String, _: &Vec<u8>| {
            compiled += 1;
            LoadOutcome::Initialized { ee: 4, config: valid_config(64) }
        },
    );
    assert_eq!(reply, ResultMessage::Failure("Module already exists".to_string()));
    assert_eq!(compiled, 1);
    assert_eq!(list(&manager), vec!["mod-a".to_string()]);
}

#[test]
fn handle_reports_a_compile_failure() {
    let mut manager = running();
    let reply = manager.handle(
        ControlAction::LoadBitcode("broken".to_string(), vec![]),
        |_: &String, _: &Vec<u8>| LoadOutcome::CompileFailed,
    );
    assert_eq!(reply, ResultMessage::Failure("Unable to load bitcode".to_string()));
    assert!(manager.names().is_empty());
}

#[test]
fn handle_answers_queries_without_compiling() {
    let mut manager = running();
    assert_eq!(load(&mut manager, "mod-a", 1, valid_config(128)), ResultMessage::Success);
    let never = |_: &String, _: &Vec<u8>| -> LoadOutcome<u32> {
        panic!("a query compiles nothing")
    };
    assert_eq!(
        manager.handle(ControlAction::GetModuleList, never),
        ResultMessage::ModuleList(vec!["mod-a".to_string()])
    );
    let never = |_: &String, _: &Vec<u8>| -> LoadOutcome<u32> {
        panic!("a query compiles nothing")
    };
    assert_eq!(
        manager.handle(ControlAction::GetModuleConfig("mod-a".to_string()), never),
        ResultMessage::ModuleConfig(ConfigRef { slot: 0 })
    );
    let never = |_: &String, _: &Vec<u8>| -> LoadOutcome<u32> {
        panic!("a query compiles nothing")
    };
    assert_eq!(
        manager.handle(ControlAction::GetModuleConfig("mod-z".to_string()), never),
        ResultMessage::Failure("Module not found".to_string())
    );
}
