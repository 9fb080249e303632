use schtask::create_task;
use schtask::host::{HandleKind, HostEvent, SchedulerHost, StoredTask, TaskDefinition};
use schtask::registry::{
    find_task_scheduler_guids, EntryReading, LookupError, TableReading,
};

const HR_FAIL: i32 = -2147467259; // 0x80004005

const ALL_KINDS: [HandleKind; 13] = [
    HandleKind::Runtime,
    HandleKind::Service,
    HandleKind::RootFolder,
    HandleKind::TaskDefinition,
    HandleKind::RegistrationInfo,
    HandleKind::Settings,
    HandleKind::TriggerCollection,
    HandleKind::Trigger,
    HandleKind::LogonTrigger,
    HandleKind::ActionCollection,
    HandleKind::Action,
    HandleKind::ExecAction,
    HandleKind::RegisteredTask,
];

fn class_table() -> TableReading {
    TableReading::Table {
        entries: vec![
            EntryReading::Readable {
                key: "{11111111-2222-3333-4444-555555555555}".to_string(),
                display: "Some Other Component".to_string(),
            },
            EntryReading::Readable {
                key: "{0F87369F-A4E5-4CFC-BD3E-73E6154572DD}".to_string(),
                display: "TaskScheduler class".to_string(),
            },
        ],
    }
}

fn interface_table() -> TableReading {
    TableReading::Table {
        entries: vec![EntryReading::Readable {
            key: "{2FABA4C7-4DA9-4013-9697-20CC3FD40F85}".to_string(),
            display: "ITaskService".to_string(),
        }],
    }
}

fn healthy_host() -> SchedulerHost {
    SchedulerHost {
        class_table: class_table(),
        interface_table: interface_table(),
        user_domain: Some("WORKGROUP".to_string()),
        user_name: Some("Operator".to_string()),
        tasks: Vec::new(),
        events: Vec::new(),
        register_returns_null: false,
        hr_init: 0,
        hr_security: 0,
        hr_create_instance: 0,
        hr_connect: 0,
        hr_get_folder: 0,
        hr_new_task: 0,
        hr_get_registration_info: 0,
        hr_put_author: 0,
        hr_get_settings: 0,
        hr_put_start_when_available: 0,
        hr_get_triggers: 0,
        hr_create_trigger: 0,
        hr_query_logon_trigger: 0,
        hr_put_trigger_id: 0,
        hr_put_start_boundary: 0,
        hr_put_end_boundary: 0,
        hr_put_user_id: 0,
        hr_get_actions: 0,
        hr_create_action: 0,
        hr_query_exec_action: 0,
        hr_put_path: 0,
        hr_put_arguments: 0,
        hr_register: 0,
    }
}

fn count(events: &[HostEvent], e: HostEvent) -> usize {
    events.iter().filter(|x| **x == e).count()
}

fn assert_release_discipline(events: &[HostEvent]) {
    for k in ALL_KINDS {
        let acquired = count(events, HostEvent::Acquired(k));
        let released = count(events, HostEvent::Released(k));
        assert_eq!(acquired, released, "unbalanced handle kind {:?}", k);
        assert!(acquired <= 1, "handle kind {:?} acquired more than once", k);
    }
}

fn force_stage_failure(host: &mut SchedulerHost, stage: usize) {
    match stage {
        0 => host.hr_init = HR_FAIL,
        1 => host.hr_security = HR_FAIL,
        2 => host.hr_create_instance = HR_FAIL,
        3 => host.hr_connect = HR_FAIL,
        4 => host.hr_get_folder = HR_FAIL,
        5 => host.hr_new_task = HR_FAIL,
        6 => host.hr_get_registration_info = HR_FAIL,
        7 => host.hr_put_author = HR_FAIL,
        8 => host.hr_get_settings = HR_FAIL,
        9 => host.hr_put_start_when_available = HR_FAIL,
        10 => host.hr_get_triggers = HR_FAIL,
        11 => host.hr_create_trigger = HR_FAIL,
        12 => host.hr_query_logon_trigger = HR_FAIL,
        13 => host.hr_put_trigger_id = HR_FAIL,
        14 => host.hr_put_start_boundary = HR_FAIL,
        15 => host.hr_put_end_boundary = HR_FAIL,
        16 => host.hr_put_user_id = HR_FAIL,
        17 => host.hr_get_actions = HR_FAIL,
        18 => host.hr_create_action = HR_FAIL,
        19 => host.hr_query_exec_action = HR_FAIL,
        20 => host.hr_put_path = HR_FAIL,
        21 => host.hr_put_arguments = HR_FAIL,
        _ => host.hr_register = HR_FAIL,
    }
}

fn stage_message_prefix(stage: usize) -> &'static str {
    match stage {
        0 => "Failed to initialize COM: ",
        1 => "Failed to initialize COM security: ",
        2 => "Failed to create an instance of ITaskService: ",
        3 => "ITaskService::Connect failed: ",
        4 => "Cannot get Root Folder pointer: ",
        5 => "Failed to create a task definition: ",
        6 => "Cannot get identification pointer: ",
        7 => "Cannot put identification info: ",
        8 => "Cannot get settings pointer: ",
        9 => "Cannot put setting info: ",
        10 => "Cannot get trigger collection: ",
        11 => "Cannot create the trigger: ",
        12 => "QueryInterface call failed for ILogonTrigger: ",
        13 => "Cannot put the trigger ID: ",
        14 => "Cannot put the start boundary: ",
        15 => "Cannot put the end boundary: ",
        16 => "Cannot add user ID to logon trigger: ",
        17 => "Cannot get Task collection pointer: ",
        18 => "Cannot create the action: ",
        19 => "QueryInterface call failed for IExecAction: ",
        20 => "Cannot set path of executable: ",
        21 => "Cannot set arguments: ",
        _ => "Error saving the Task: ",
    }
}

#[test]
fn healthy_host_returns_exact_success_text() {
    let mut host = healthy_host();
    let result = create_task(&mut host, "MyTask", "C:\\Windows\\System32\\notepad.exe", None);
    assert_eq!(result, "Task successfully created");
    assert_eq!(host.tasks.len(), 1);
    let stored = &host.tasks[0];
    assert_eq!(stored.name, "MyTask");
    assert_eq!(stored.definition.exec_path, "C:\\Windows\\System32\\notepad.exe");
    assert_eq!(stored.definition.arguments, None);
    assert_eq!(stored.definition.author, "Author Name");
    assert!(stored.definition.start_when_available);
    assert_eq!(stored.definition.trigger_id, "Trigger1");
    assert_eq!(stored.definition.start_boundary, "2024-03-19T00:00:00");
    assert_eq!(stored.definition.end_boundary, "2026-06-06T00:00:00");
    assert_eq!(stored.definition.user_id, "WORKGROUP\\Operator");
    assert_release_discipline(&host.events);
}

#[test]
fn registered_definition_carries_path_and_arguments() {
    let mut host = healthy_host();
    let result = create_task(
        &mut host,
        "MyTaskWithArgs",
        "C:\\Windows\\System32\\notepad.exe",
        Some("C:\\Windows\\System32\\drivers\\etc\\hosts"),
    );
    assert_eq!(result, "Task successfully created");
    assert_eq!(host.tasks.len(), 1);
    let stored = &host.tasks[0];
    assert_eq!(stored.name, "MyTaskWithArgs");
    assert_eq!(stored.definition.exec_path, "C:\\Windows\\System32\\notepad.exe");
    assert_eq!(
        stored.definition.arguments.as_deref(),
        Some("C:\\Windows\\System32\\drivers\\etc\\hosts")
    );
    assert_release_discipline(&host.events);
}

#[test]
fn second_invocation_with_same_name_succeeds_and_replaces() {
    let mut host = healthy_host();
    let first = create_task(&mut host, "MyTask", "C:\\Windows\\System32\\notepad.exe", None);
    assert_eq!(first, "Task successfully created");
    let first_run_events = host.events.len();
    assert_release_discipline(&host.events);
    let second = create_task(&mut host, "MyTask", "C:\\Windows\\System32\\notepad.exe", None);
    assert_eq!(second, "Task successfully created");
    assert_eq!(host.tasks.len(), 1);
    assert_eq!(host.tasks[0].name, "MyTask");
    assert_release_discipline(&host.events[first_run_events..]);
}

#[test]
fn missing_class_registration_stops_before_construction() {
    let mut host = healthy_host();
    host.class_table = TableReading::Table {
        entries: vec![EntryReading::Readable {
            key: "{11111111-2222-3333-4444-555555555555}".to_string(),
            display: "Nothing of interest".to_string(),
        }],
    };
    let result = create_task(&mut host, "MyTask", "C:\\Windows\\System32\\notepad.exe", None);
    assert_eq!(
        result,
        "Failed to find Task Scheduler GUIDs: TaskScheduler CLSID not found"
    );
    assert!(result.contains("TaskScheduler CLSID not found"));
    for e in &host.events {
        assert!(!matches!(
            e,
            HostEvent::Acquired(k) if *k != HandleKind::Runtime
        ));
    }
    assert_release_discipline(&host.events);
    assert!(host.tasks.is_empty());
}

#[test]
fn missing_interface_registration_names_interface_lookup() {
    let mut host = healthy_host();
    host.interface_table = TableReading::Table {
        entries: vec![EntryReading::Readable {
            key: "{11111111-2222-3333-4444-555555555555}".to_string(),
            display: "Unrelated interface".to_string(),
        }],
    };
    let result = create_task(&mut host, "MyTask", "C:\\Windows\\System32\\notepad.exe", None);
    assert_eq!(result, "Failed to find Task Scheduler GUIDs: ITaskService IID not found");
}

#[test]
fn resolver_reports_by_scan_outcome() {
    let ids = find_task_scheduler_guids(&class_table(), &interface_table()).unwrap();
    assert_eq!(ids.service_class_id.data1, 0x0F87369F);
    assert_eq!(ids.service_interface_id.data1, 0x2FABA4C7);

    let empty = TableReading::Table { entries: Vec::new() };
    match find_task_scheduler_guids(&empty, &interface_table()) {
        Err(LookupError::ClassNotFound) => {},
        other => panic!("expected the class lookup to fail, got {:?}", other),
    }
    match find_task_scheduler_guids(&class_table(), &empty) {
        Err(LookupError::InterfaceNotFound) => {},
        other => panic!("expected the interface lookup to fail, got {:?}", other),
    }
    let unopenable = TableReading::Unopenable { message: "access is denied".to_string() };
    match find_task_scheduler_guids(&unopenable, &interface_table()) {
        Err(e @ LookupError::Unreadable { .. }) => {
            assert_eq!(e.message(), "access is denied");
        },
        other => panic!("expected an unreadable-table failure, got {:?}", other),
    }
}

#[test]
fn malformed_matched_key_surfaces_format_error() {
    let mut host = healthy_host();
    host.class_table = TableReading::Table {
        entries: vec![EntryReading::Readable {
            key: "not-a-guid".to_string(),
            display: "TaskScheduler class".to_string(),
        }],
    };
    let result = create_task(&mut host, "MyTask", "C:\\Windows\\System32\\notepad.exe", None);
    assert_eq!(result, "Failed to find Task Scheduler GUIDs: Invalid GUID format");
}

#[test]
fn already_initialized_statuses_are_tolerated() {
    let mut host = healthy_host();
    host.hr_init = 1; // runtime already initialized
    host.hr_security = -2147417831; // security already configured
    let result = create_task(&mut host, "MyTask", "C:\\Windows\\System32\\notepad.exe", None);
    assert_eq!(result, "Task successfully created");
    assert_release_discipline(&host.events);
}

#[test]
fn each_stage_failure_names_the_stage_and_releases_acquired_handles() {
    for stage in 0..23 {
        let mut host = healthy_host();
        host.tasks.push(StoredTask {
            name: "MyTask".to_string(),
            definition: TaskDefinition {
                author: "Author Name".to_string(),
                start_when_available: true,
                trigger_id: "Trigger1".to_string(),
                start_boundary: "2024-03-19T00:00:00".to_string(),
                end_boundary: "2026-06-06T00:00:00".to_string(),
                user_id: ".\\SYSTEM".to_string(),
                exec_path: "old.exe".to_string(),
                arguments: None,
            },
        });
        force_stage_failure(&mut host, stage);
        let result = create_task(
            &mut host,
            "MyTask",
            "C:\\Windows\\System32\\notepad.exe",
            Some("arg"),
        );
        let prefix = stage_message_prefix(stage);
        assert!(
            result.starts_with(prefix),
            "stage {}: expected prefix {:?}, got {:?}",
            stage,
            prefix,
            result
        );
        assert!(
            result.ends_with("80004005"),
            "stage {}: expected hexadecimal status, got {:?}",
            stage,
            result
        );
        assert_release_discipline(&host.events);
        // the pre-existing task survives only failures before the
        // best-effort delete step
        if stage <= 4 {
            assert_eq!(host.tasks.len(), 1, "stage {}", stage);
            assert_eq!(host.tasks[0].definition.exec_path, "old.exe");
        } else {
            assert!(host.tasks.is_empty(), "stage {}", stage);
        }
    }
}

#[test]
fn failure_messages_are_exact() {
    let mut host = healthy_host();
    host.hr_init = HR_FAIL;
    let result = create_task(&mut host, "MyTask", "x.exe", None);
    assert_eq!(result, "Failed to initialize COM: 80004005");

    let mut host = healthy_host();
    host.hr_connect = 5;
    let result = create_task(&mut host, "MyTask", "x.exe", None);
    assert_eq!(result, "ITaskService::Connect failed: 5");

    let mut host = healthy_host();
    host.hr_register = HR_FAIL;
    let result = create_task(&mut host, "MyTask", "x.exe", None);
    assert_eq!(result, "Error saving the Task: 80004005");
}

#[test]
fn unreadable_child_aborts_the_scan_with_its_message() {
    let mut host = healthy_host();
    host.class_table = TableReading::Table {
        entries: vec![
            EntryReading::Unreadable { message: "key is locked".to_string() },
            EntryReading::Readable {
                key: "{0F87369F-A4E5-4CFC-BD3E-73E6154572DD}".to_string(),
                display: "TaskScheduler class".to_string(),
            },
        ],
    };
    let result = create_task(&mut host, "MyTask", "x.exe", None);
    assert_eq!(result, "Failed to find Task Scheduler GUIDs: key is locked");
}

#[test]
fn null_registered_task_handle_is_tolerated() {
    let mut host = healthy_host();
    host.register_returns_null = true;
    let result = create_task(&mut host, "MyTask", "C:\\Windows\\System32\\notepad.exe", None);
    assert_eq!(result, "Task successfully created");
    for e in &host.events {
        assert!(*e != HostEvent::Acquired(HandleKind::RegisteredTask));
        assert!(*e != HostEvent::Released(HandleKind::RegisteredTask));
    }
    assert_release_discipline(&host.events);
}

#[test]
fn ambient_identity_falls_back_to_dot_and_system() {
    let mut host = healthy_host();
    host.user_domain = None;
    host.user_name = None;
    let result = create_task(&mut host, "MyTask", "C:\\Windows\\System32\\notepad.exe", None);
    assert_eq!(result, "Task successfully created");
    assert_eq!(host.tasks[0].definition.user_id, ".\\SYSTEM");
}

#[test]
fn registration_replaces_only_the_same_name() {
    let mut host = healthy_host();
    let first = create_task(&mut host, "TaskA", "a.exe", None);
    assert_eq!(first, "Task successfully created");
    let second = create_task(&mut host, "TaskB", "b.exe", None);
    assert_eq!(second, "Task successfully created");
    assert_eq!(host.tasks.len(), 2);
    let third = create_task(&mut host, "TaskA", "a2.exe", None);
    assert_eq!(third, "Task successfully created");
    assert_eq!(host.tasks.len(), 2);
    let a = host.tasks.iter().find(|t| t.name == "TaskA").unwrap();
    assert_eq!(a.definition.exec_path, "a2.exe");
}
