//! The staged construction and registration of the logon-triggered task: a
//! strict linear sequence of native calls, each gated by the success of the
//! previous one, with a stage-specific release set on failure and an exact
//! failure text naming the stage and the status code.

use vstd::prelude::*;
use vstd::string::*;
use crate::hexfmt::{append_hex_min, hex_render_min};
use crate::host::{
    balanced, count_events, register_task_view, remove_task_view, store_view, HandleKind,
    HostEvent, SchedulerHost, StoredTaskView, TaskDefinition, TaskDefinitionView,
};
use crate::host::{lemma_count_events_concat, lemma_count_events_push, lemma_register_task_replaces, lemma_remove_task_idempotent};
use crate::registry::{
    find_task_scheduler_guids, lemma_scan_not_found, spec_find_task_scheduler_guids,
    spec_scan_table, EntryReading, LookupError, ScanOutcome, ServiceIdentifiers, TableReading,
};
use crate::text::{is_substring_at, spec_contains};

verus! {

/// The native calls of the operation, in protocol order; each one is a point
/// at which the operation can fail.
#[derive(Clone, Copy, Debug, PartialEq, Eq, Structural)]
pub enum Stage {
    InitRuntime,
    InitSecurity,
    ResolveIdentifiers,
    CreateInstance,
    Connect,
    GetFolder,
    NewTask,
    GetRegistrationInfo,
    PutAuthor,
    GetSettings,
    PutStartWhenAvailable,
    GetTriggers,
    CreateTrigger,
    QueryLogonTrigger,
    PutTriggerId,
    PutStartBoundary,
    PutEndBoundary,
    PutUserId,
    GetActions,
    CreateAction,
    QueryExecAction,
    PutPath,
    PutArguments,
    Register,
}

/// The runtime tolerates "already initialized" as success.
pub open spec fn runtime_init_ok(hr: int) -> bool {
    hr == 0 || hr == 1
}

/// Security setup tolerates "too late to initialize" as success.
pub open spec fn security_init_ok(hr: int) -> bool {
    hr == 0 || hr == -2147417831
}

/// The status the host plans for a given stage's call.
pub open spec fn stage_hr(h: SchedulerHost, st: Stage) -> int {
    match st {
        Stage::InitRuntime => h.hr_init as int,
        Stage::InitSecurity => h.hr_security as int,
        Stage::ResolveIdentifiers => 0int,
        Stage::CreateInstance => h.hr_create_instance as int,
        Stage::Connect => h.hr_connect as int,
        Stage::GetFolder => h.hr_get_folder as int,
        Stage::NewTask => h.hr_new_task as int,
        Stage::GetRegistrationInfo => h.hr_get_registration_info as int,
        Stage::PutAuthor => h.hr_put_author as int,
        Stage::GetSettings => h.hr_get_settings as int,
        Stage::PutStartWhenAvailable => h.hr_put_start_when_available as int,
        Stage::GetTriggers => h.hr_get_triggers as int,
        Stage::CreateTrigger => h.hr_create_trigger as int,
        Stage::QueryLogonTrigger => h.hr_query_logon_trigger as int,
        Stage::PutTriggerId => h.hr_put_trigger_id as int,
        Stage::PutStartBoundary => h.hr_put_start_boundary as int,
        Stage::PutEndBoundary => h.hr_put_end_boundary as int,
        Stage::PutUserId => h.hr_put_user_id as int,
        Stage::GetActions => h.hr_get_actions as int,
        Stage::CreateAction => h.hr_create_action as int,
        Stage::QueryExecAction => h.hr_query_exec_action as int,
        Stage::PutPath => h.hr_put_path as int,
        Stage::PutArguments => h.hr_put_arguments as int,
        Stage::Register => h.hr_register as int,
    }
}

/// The first stage whose call fails under the host's plan, in protocol order;
/// `None` when the whole operation succeeds.  The arguments stage exists only
/// when arguments were supplied.
pub open spec fn spec_first_failure(h: SchedulerHost, has_args: bool) -> Option<Stage> {
    if !runtime_init_ok(h.hr_init as int) {
        Some(Stage::InitRuntime)
    } else if !security_init_ok(h.hr_security as int) {
        Some(Stage::InitSecurity)
    } else if spec_find_task_scheduler_guids(h.class_table, h.interface_table) is Err {
        Some(Stage::ResolveIdentifiers)
    } else if h.hr_create_instance != 0 {
        Some(Stage::CreateInstance)
    } else if h.hr_connect != 0 {
        Some(Stage::Connect)
    } else if h.hr_get_folder != 0 {
        Some(Stage::GetFolder)
    } else if h.hr_new_task != 0 {
        Some(Stage::NewTask)
    } else if h.hr_get_registration_info != 0 {
        Some(Stage::GetRegistrationInfo)
    } else if h.hr_put_author != 0 {
        Some(Stage::PutAuthor)
    } else if h.hr_get_settings != 0 {
        Some(Stage::GetSettings)
    } else if h.hr_put_start_when_available != 0 {
        Some(Stage::PutStartWhenAvailable)
    } else if h.hr_get_triggers != 0 {
        Some(Stage::GetTriggers)
    } else if h.hr_create_trigger != 0 {
        Some(Stage::CreateTrigger)
    } else if h.hr_query_logon_trigger != 0 {
        Some(Stage::QueryLogonTrigger)
    } else if h.hr_put_trigger_id != 0 {
        Some(Stage::PutTriggerId)
    } else if h.hr_put_start_boundary != 0 {
        Some(Stage::PutStartBoundary)
    } else if h.hr_put_end_boundary != 0 {
        Some(Stage::PutEndBoundary)
    } else if h.hr_put_user_id != 0 {
        Some(Stage::PutUserId)
    } else if h.hr_get_actions != 0 {
        Some(Stage::GetActions)
    } else if h.hr_create_action != 0 {
        Some(Stage::CreateAction)
    } else if h.hr_query_exec_action != 0 {
        Some(Stage::QueryExecAction)
    } else if h.hr_put_path != 0 {
        Some(Stage::PutPath)
    } else if has_args && h.hr_put_arguments != 0 {
        Some(Stage::PutArguments)
    } else if h.hr_register != 0 {
        Some(Stage::Register)
    } else {
        None
    }
}

/// The two's-complement bit pattern of a signed status code, as the host
/// formats status codes in hexadecimal.
pub open spec fn hresult_bits(hr: int) -> nat {
    if hr >= 0 {
        hr as nat
    } else {
        (hr + 0x1_0000_0000) as nat
    }
}

/// The text naming a failed stage, before the status code is appended.
pub open spec fn stage_prefix(st: Stage) -> Seq<char> {
    match st {
        Stage::InitRuntime => "Failed to initialize COM: "@,
        Stage::InitSecurity => "Failed to initialize COM security: "@,
        Stage::ResolveIdentifiers => "Failed to find Task Scheduler GUIDs: "@,
        Stage::CreateInstance => "Failed to create an instance of ITaskService: "@,
        Stage::Connect => "ITaskService::Connect failed: "@,
        Stage::GetFolder => "Cannot get Root Folder pointer: "@,
        Stage::NewTask => "Failed to create a task definition: "@,
        Stage::GetRegistrationInfo => "Cannot get identification pointer: "@,
        Stage::PutAuthor => "Cannot put identification info: "@,
        Stage::GetSettings => "Cannot get settings pointer: "@,
        Stage::PutStartWhenAvailable => "Cannot put setting info: "@,
        Stage::GetTriggers => "Cannot get trigger collection: "@,
        Stage::CreateTrigger => "Cannot create the trigger: "@,
        Stage::QueryLogonTrigger => "QueryInterface call failed for ILogonTrigger: "@,
        Stage::PutTriggerId => "Cannot put the trigger ID: "@,
        Stage::PutStartBoundary => "Cannot put the start boundary: "@,
        Stage::PutEndBoundary => "Cannot put the end boundary: "@,
        Stage::PutUserId => "Cannot add user ID to logon trigger: "@,
        Stage::GetActions => "Cannot get Task collection pointer: "@,
        Stage::CreateAction => "Cannot create the action: "@,
        Stage::QueryExecAction => "QueryInterface call failed for IExecAction: "@,
        Stage::PutPath => "Cannot set path of executable: "@,
        Stage::PutArguments => "Cannot set arguments: "@,
        Stage::Register => "Error saving the Task: "@,
    }
}

/// The exact failure text for a stage under the host's plan: the stage's name
/// followed by the status code in hexadecimal, except for identifier
/// resolution, whose text carries the lookup error instead.
pub open spec fn spec_failure_message(h: SchedulerHost, st: Stage) -> Seq<char> {
    match st {
        Stage::ResolveIdentifiers => stage_prefix(st) + (match spec_find_task_scheduler_guids(
            h.class_table,
            h.interface_table,
        ) {
            Err(e) => e.spec_message(),
            Ok(_) => Seq::<char>::empty(),
        }),
        _ => stage_prefix(st) + hex_render_min(hresult_bits(stage_hr(h, st))),
    }
}

pub open spec fn acq(k: HandleKind) -> HostEvent {
    HostEvent::Acquired(k)
}

pub open spec fn rel(k: HandleKind) -> HostEvent {
    HostEvent::Released(k)
}

/// Events up to and including the release of the registration-info view.
pub open spec fn ev_through_reg_info() -> Seq<HostEvent> {
    seq![
        acq(HandleKind::Runtime),
        acq(HandleKind::Service),
        acq(HandleKind::RootFolder),
        acq(HandleKind::TaskDefinition),
        rel(HandleKind::Service),
        acq(HandleKind::RegistrationInfo),
        rel(HandleKind::RegistrationInfo),
    ]
}

/// Events up to and including the release of the settings view.
pub open spec fn ev_through_settings() -> Seq<HostEvent> {
    ev_through_reg_info() + seq![acq(HandleKind::Settings), rel(HandleKind::Settings)]
}

/// Events up to and including the release of the generic trigger handle.
pub open spec fn ev_through_trigger() -> Seq<HostEvent> {
    ev_through_settings() + seq![
        acq(HandleKind::TriggerCollection),
        acq(HandleKind::Trigger),
        rel(HandleKind::TriggerCollection),
        acq(HandleKind::LogonTrigger),
        rel(HandleKind::Trigger),
    ]
}

/// Events up to and including the release of the logon-trigger view.
pub open spec fn ev_through_logon_trigger() -> Seq<HostEvent> {
    ev_through_trigger() + seq![rel(HandleKind::LogonTrigger)]
}

/// Events up to and including the release of the generic action handle.
pub open spec fn ev_through_action() -> Seq<HostEvent> {
    ev_through_logon_trigger() + seq![
        acq(HandleKind::ActionCollection),
        acq(HandleKind::Action),
        rel(HandleKind::ActionCollection),
        acq(HandleKind::ExecAction),
        rel(HandleKind::Action),
    ]
}

/// Events up to and including the release of the executable-action view.
pub open spec fn ev_through_exec_action() -> Seq<HostEvent> {
    ev_through_action() + seq![rel(HandleKind::ExecAction)]
}

/// The unwind of the three handles that stay live through the middle stages,
/// most recently acquired first.
pub open spec fn ev_unwind_three() -> Seq<HostEvent> {
    seq![rel(HandleKind::TaskDefinition), rel(HandleKind::RootFolder), rel(HandleKind::Runtime)]
}

/// The exact acquire/release events the operation performs when the given
/// stage's call fails: every handle acquired by the stages before it is
/// released, most recently acquired first.
pub open spec fn spec_failure_events(st: Stage) -> Seq<HostEvent> {
    match st {
        Stage::InitRuntime => Seq::<HostEvent>::empty(),
        Stage::InitSecurity => seq![acq(HandleKind::Runtime), rel(HandleKind::Runtime)],
        Stage::ResolveIdentifiers => seq![acq(HandleKind::Runtime), rel(HandleKind::Runtime)],
        Stage::CreateInstance => seq![acq(HandleKind::Runtime), rel(HandleKind::Runtime)],
        Stage::Connect => seq![
            acq(HandleKind::Runtime),
            acq(HandleKind::Service),
            rel(HandleKind::Service),
            rel(HandleKind::Runtime),
        ],
        Stage::GetFolder => seq![
            acq(HandleKind::Runtime),
            acq(HandleKind::Service),
            rel(HandleKind::Service),
            rel(HandleKind::Runtime),
        ],
        Stage::NewTask => seq![
            acq(HandleKind::Runtime),
            acq(HandleKind::Service),
            acq(HandleKind::RootFolder),
            rel(HandleKind::Service),
            rel(HandleKind::RootFolder),
            rel(HandleKind::Runtime),
        ],
        Stage::GetRegistrationInfo => seq![
            acq(HandleKind::Runtime),
            acq(HandleKind::Service),
            acq(HandleKind::RootFolder),
            acq(HandleKind::TaskDefinition),
            rel(HandleKind::Service),
        ] + ev_unwind_three(),
        Stage::PutAuthor => ev_through_reg_info() + ev_unwind_three(),
        Stage::GetSettings => ev_through_reg_info() + ev_unwind_three(),
        Stage::PutStartWhenAvailable => ev_through_settings() + ev_unwind_three(),
        Stage::GetTriggers => ev_through_settings() + ev_unwind_three(),
        Stage::CreateTrigger => ev_through_settings() + seq![
            acq(HandleKind::TriggerCollection),
            rel(HandleKind::TriggerCollection),
        ] + ev_unwind_three(),
        Stage::QueryLogonTrigger => ev_through_settings() + seq![
            acq(HandleKind::TriggerCollection),
            acq(HandleKind::Trigger),
            rel(HandleKind::TriggerCollection),
            rel(HandleKind::Trigger),
        ] + ev_unwind_three(),
        Stage::PutTriggerId => ev_through_trigger() + seq![rel(HandleKind::LogonTrigger)]
            + ev_unwind_three(),
        Stage::PutStartBoundary => ev_through_trigger() + seq![rel(HandleKind::LogonTrigger)]
            + ev_unwind_three(),
        Stage::PutEndBoundary => ev_through_trigger() + seq![rel(HandleKind::LogonTrigger)]
            + ev_unwind_three(),
        Stage::PutUserId => ev_through_trigger() + seq![rel(HandleKind::LogonTrigger)]
            + ev_unwind_three(),
        Stage::GetActions => ev_through_logon_trigger() + ev_unwind_three(),
        Stage::CreateAction => ev_through_logon_trigger() + seq![
            acq(HandleKind::ActionCollection),
            rel(HandleKind::ActionCollection),
        ] + ev_unwind_three(),
        Stage::QueryExecAction => ev_through_logon_trigger() + seq![
            acq(HandleKind::ActionCollection),
            acq(HandleKind::Action),
            rel(HandleKind::ActionCollection),
            rel(HandleKind::Action),
        ] + ev_unwind_three(),
        Stage::PutPath => ev_through_action() + seq![rel(HandleKind::ExecAction)]
            + ev_unwind_three(),
        Stage::PutArguments => ev_through_action() + seq![rel(HandleKind::ExecAction)]
            + ev_unwind_three(),
        Stage::Register => ev_through_exec_action() + seq![
            rel(HandleKind::RootFolder),
            rel(HandleKind::TaskDefinition),
            rel(HandleKind::Runtime),
        ],
    }
}

/// The exact events of a fully successful operation; the registered-task
/// handle appears only when the host populates one.
pub open spec fn spec_success_events(register_returns_null: bool) -> Seq<HostEvent> {
    if register_returns_null {
        ev_through_exec_action() + seq![
            rel(HandleKind::RootFolder),
            rel(HandleKind::TaskDefinition),
            rel(HandleKind::Runtime),
        ]
    } else {
        ev_through_exec_action() + seq![
            acq(HandleKind::RegisteredTask),
            rel(HandleKind::RegisteredTask),
            rel(HandleKind::RootFolder),
            rel(HandleKind::TaskDefinition),
            rel(HandleKind::Runtime),
        ]
    }
}

/// Whether a failure at this stage comes after the best-effort deletion of a
/// pre-existing task of the same name.
pub open spec fn stage_reaches_delete(st: Stage) -> bool {
    match st {
        Stage::InitRuntime => false,
        Stage::InitSecurity => false,
        Stage::ResolveIdentifiers => false,
        Stage::CreateInstance => false,
        Stage::Connect => false,
        Stage::GetFolder => false,
        _ => true,
    }
}

/// The logon trigger's user identifier: `domain\name`, the domain defaulting
/// to "." and the name to "SYSTEM" when the environment does not supply them.
pub open spec fn spec_user_id(domain: Option<String>, name: Option<String>) -> Seq<char> {
    (match domain {
        Some(d) => d@,
        None => "."@,
    }) + "\\"@ + (match name {
        Some(n) => n@,
        None => "SYSTEM"@,
    })
}

/// The definition the operation builds: fixed policy values, the ambient user
/// identity, and the caller's executable path and arguments.
pub open spec fn spec_built_definition(
    h: SchedulerHost,
    path: Seq<char>,
    args: Option<Seq<char>>,
) -> TaskDefinitionView {
    TaskDefinitionView {
        author: "Author Name"@,
        start_when_available: true,
        trigger_id: "Trigger1"@,
        start_boundary: "2024-03-19T00:00:00"@,
        end_boundary: "2026-06-06T00:00:00"@,
        user_id: spec_user_id(h.user_domain, h.user_name),
        exec_path: path,
        arguments: args,
    }
}

pub open spec fn spec_arguments_view(a: Option<&str>) -> Option<Seq<char>> {
    match a {
        Some(s) => Some(s@),
        None => None,
    }
}

fn hresult_to_bits(hr: i32) -> (u: u32)
    ensures
        u as nat == hresult_bits(hr as int),
{
    if hr >= 0 {
        hr as u32
    } else {
        let w: i64 = hr as i64 + 0x1_0000_0000i64;
        w as u32
    }
}

/// The failure text for one stage: its naming prefix followed by the status
/// code in minimal lower-case hexadecimal.
fn fail_message(prefix: &str, hr: i32) -> (r: String)
    ensures
        r@ == prefix@ + hex_render_min(hresult_bits(hr as int)),
{
    let mut s = prefix.to_owned();
    let bits = hresult_to_bits(hr);
    append_hex_min(&mut s, bits);
    s
}

/// Release the task definition, the root folder, and the runtime context, the
/// unwind shared by every failure in the middle of the chain.
fn release_task_folder_runtime(host: &mut SchedulerHost)
    ensures
        final(host).events@ == old(host).events@ + ev_unwind_three(),
        *final(host) == (SchedulerHost { events: final(host).events, ..*old(host) }),
{
    host.record_released(HandleKind::TaskDefinition);
    host.record_released(HandleKind::RootFolder);
    host.record_released(HandleKind::Runtime);
    assert(final(host).events@ =~= old(host).events@ + ev_unwind_three());
}

fn build_user_id(domain: &Option<String>, name: &Option<String>) -> (r: String)
    ensures
        r@ == spec_user_id(*domain, *name),
{
    let d = match domain {
        Some(d) => d.clone(),
        None => ".".to_owned(),
    };
    let with_sep = d.concat("\\");
    match name {
        Some(n) => with_sep.concat(n.as_str()),
        None => with_sep.concat("SYSTEM"),
    }
}

impl SchedulerHost {
    /// Instantiate the scheduling service object from the resolved
    /// identifiers; a live service handle is acquired exactly on success.
    pub fn co_create_instance(&mut self, identifiers: &ServiceIdentifiers) -> (hr: i32)
        ensures
            hr == old(self).hr_create_instance,
            hr == 0 ==> final(self).events@ == old(self).events@.push(
                HostEvent::Acquired(HandleKind::Service),
            ),
            hr != 0 ==> final(self).events@ == old(self).events@,
            *final(self) == (SchedulerHost { events: final(self).events, ..*old(self) }),
    {
        let hr = self.hr_create_instance;
        if hr == 0 {
            self.record_acquired(HandleKind::Service);
        }
        hr
    }
}

/// Create (or replace) the logon-triggered scheduled task named `task_name`,
/// running `task_path` with the optional `arguments`, against the given host.
///
/// The contract pins down, for every plan the host can have: the first stage
/// to fail, the exact result text, the exact sequence of acquire and release
/// events, and the task store's final contents.
#[verifier::rlimit(100)]
#[verifier::spinoff_prover]
pub fn create_task(
    host: &mut SchedulerHost,
    task_name: &str,
    task_path: &str,
    arguments: Option<&str>,
) -> (r: String)
    ensures
        old(host).same_plan(*final(host)),
        match spec_first_failure(*old(host), arguments is Some) {
            None => {
                &&& r@ == "Task successfully created"@
                &&& final(host).events@ == old(host).events@ + spec_success_events(
                    old(host).register_returns_null,
                )
                &&& store_view(final(host).tasks@) == register_task_view(
                    store_view(old(host).tasks@),
                    task_name@,
                    spec_built_definition(*old(host), task_path@, spec_arguments_view(arguments)),
                )
            },
            Some(st) => {
                &&& r@ == spec_failure_message(*old(host), st)
                &&& final(host).events@ == old(host).events@ + spec_failure_events(st)
                &&& store_view(final(host).tasks@) == if stage_reaches_delete(st) {
                    remove_task_view(store_view(old(host).tasks@), task_name@)
                } else {
                    store_view(old(host).tasks@)
                }
            },
        },
{
    let ghost h0 = *old(host);
    let ghost has_args = arguments is Some;

    // Initialize the automation runtime; "already initialized" is success.
    let hr = host.hr_init;
    if hr != 0 && hr != 1 {
        assert(host.events@ =~= h0.events@ + spec_failure_events(Stage::InitRuntime));
        return fail_message("Failed to initialize COM: ", hr);
    }
    host.record_acquired(HandleKind::Runtime);

    // Initialize security; "too late to initialize" is success, and any other
    // failure still tears down the runtime context acquired above.
    let hr = host.hr_security;
    if hr != 0 && hr != -2147417831 {
        host.record_released(HandleKind::Runtime);
        assert(host.events@ =~= h0.events@ + spec_failure_events(Stage::InitSecurity));
        return fail_message("Failed to initialize COM security: ", hr);
    }

    // Resolve the class and interface identifiers from the registration
    // database.
    let resolved = find_task_scheduler_guids(&host.class_table, &host.interface_table);
    let identifiers = match resolved {
        Ok(ids) => ids,
        Err(e) => {
            host.record_released(HandleKind::Runtime);
            assert(host.events@ =~= h0.events@ + spec_failure_events(Stage::ResolveIdentifiers));
            let prefix = "Failed to find Task Scheduler GUIDs: ".to_owned();
            let msg = e.message();
            let out = prefix.concat(msg.as_str());
            assert(out@ == spec_failure_message(h0, Stage::ResolveIdentifiers));
            return out;
        },
    };

    // Instantiate the scheduling service object.
    let hr = host.co_create_instance(&identifiers);
    if hr != 0 {
        host.record_released(HandleKind::Runtime);
        assert(host.events@ =~= h0.events@ + spec_failure_events(Stage::CreateInstance));
        return fail_message("Failed to create an instance of ITaskService: ", hr);
    }

    // Connect with the current security context.
    let hr = host.hr_connect;
    if hr != 0 {
        host.record_released(HandleKind::Service);
        host.record_released(HandleKind::Runtime);
        assert(host.events@ =~= h0.events@ + spec_failure_events(Stage::Connect));
        return fail_message("ITaskService::Connect failed: ", hr);
    }

    // Open the root task folder.
    let hr = host.hr_get_folder;
    if hr != 0 {
        host.record_released(HandleKind::Service);
        host.record_released(HandleKind::Runtime);
        assert(host.events@ =~= h0.events@ + spec_failure_events(Stage::GetFolder));
        return fail_message("Cannot get Root Folder pointer: ", hr);
    }
    host.record_acquired(HandleKind::RootFolder);

    // Best-effort deletion of any existing task of the same name.
    host.delete_task(task_name);

    // Create the empty task definition; the service handle is released right
    // after the call, whatever its status.
    let hr = host.hr_new_task;
    if hr == 0 {
        host.record_acquired(HandleKind::TaskDefinition);
    }
    host.record_released(HandleKind::Service);
    if hr != 0 {
        host.record_released(HandleKind::RootFolder);
        host.record_released(HandleKind::Runtime);
        assert(host.events@ =~= h0.events@ + spec_failure_events(Stage::NewTask));
        return fail_message("Failed to create a task definition: ", hr);
    }

    // Registration info: set the author, then release the view.
    let hr = host.hr_get_registration_info;
    if hr != 0 {
        release_task_folder_runtime(host);
        assert(host.events@ =~= h0.events@ + spec_failure_events(Stage::GetRegistrationInfo));
        return fail_message("Cannot get identification pointer: ", hr);
    }
    host.record_acquired(HandleKind::RegistrationInfo);
    let hr = host.hr_put_author;
    host.record_released(HandleKind::RegistrationInfo);
    if hr != 0 {
        release_task_folder_runtime(host);
        assert(host.events@ =~= h0.events@ + spec_failure_events(Stage::PutAuthor));
        return fail_message("Cannot put identification info: ", hr);
    }

    // Settings: start when available, then release the view.
    let hr = host.hr_get_settings;
    if hr != 0 {
        release_task_folder_runtime(host);
        assert(host.events@ =~= h0.events@ + spec_failure_events(Stage::GetSettings));
        return fail_message("Cannot get settings pointer: ", hr);
    }
    host.record_acquired(HandleKind::Settings);
    let hr = host.hr_put_start_when_available;
    host.record_released(HandleKind::Settings);
    if hr != 0 {
        release_task_folder_runtime(host);
        assert(host.events@ =~= h0.events@ + spec_failure_events(Stage::PutStartWhenAvailable));
        return fail_message("Cannot put setting info: ", hr);
    }

    assert(host.events@ =~= h0.events@ + ev_through_settings());
    configure_and_commit(host, task_name, task_path, arguments, Ghost(h0))
}

/// The tail of the chain: the logon trigger, the executable action, and the
/// create-or-update registration, entered with the runtime, the root folder,
/// and the task definition live and every earlier stage succeeded.
#[verifier::rlimit(100)]
#[verifier::spinoff_prover]
fn configure_and_commit(
    host: &mut SchedulerHost,
    task_name: &str,
    task_path: &str,
    arguments: Option<&str>,
    Ghost(h0): Ghost<SchedulerHost>,
) -> (r: String)
    requires
        h0.same_plan(*old(host)),
        old(host).events@ == h0.events@ + ev_through_settings(),
        store_view(old(host).tasks@) == remove_task_view(store_view(h0.tasks@), task_name@),
        runtime_init_ok(h0.hr_init as int),
        security_init_ok(h0.hr_security as int),
        spec_find_task_scheduler_guids(h0.class_table, h0.interface_table) is Ok,
        h0.hr_create_instance == 0,
        h0.hr_connect == 0,
        h0.hr_get_folder == 0,
        h0.hr_new_task == 0,
        h0.hr_get_registration_info == 0,
        h0.hr_put_author == 0,
        h0.hr_get_settings == 0,
        h0.hr_put_start_when_available == 0,
    ensures
        h0.same_plan(*final(host)),
        match spec_first_failure(h0, arguments is Some) {
            None => {
                &&& r@ == "Task successfully created"@
                &&& final(host).events@ == h0.events@ + spec_success_events(
                    h0.register_returns_null,
                )
                &&& store_view(final(host).tasks@) == register_task_view(
                    store_view(h0.tasks@),
                    task_name@,
                    spec_built_definition(h0, task_path@, spec_arguments_view(arguments)),
                )
            },
            Some(st) => {
                &&& r@ == spec_failure_message(h0, st)
                &&& final(host).events@ == h0.events@ + spec_failure_events(st)
                &&& store_view(final(host).tasks@) == remove_task_view(
                    store_view(h0.tasks@),
                    task_name@,
                )
            },
        },
{
    // Trigger collection and the one logon trigger.
    let hr = host.hr_get_triggers;
    if hr != 0 {
        release_task_folder_runtime(host);
        assert(host.events@ =~= h0.events@ + spec_failure_events(Stage::GetTriggers));
        return fail_message("Cannot get trigger collection: ", hr);
    }
    host.record_acquired(HandleKind::TriggerCollection);
    let hr = host.hr_create_trigger;
    if hr == 0 {
        host.record_acquired(HandleKind::Trigger);
    }
    host.record_released(HandleKind::TriggerCollection);
    if hr != 0 {
        release_task_folder_runtime(host);
        assert(host.events@ =~= h0.events@ + spec_failure_events(Stage::CreateTrigger));
        return fail_message("Cannot create the trigger: ", hr);
    }
    let hr = host.hr_query_logon_trigger;
    if hr == 0 {
        host.record_acquired(HandleKind::LogonTrigger);
    }
    host.record_released(HandleKind::Trigger);
    if hr != 0 {
        release_task_folder_runtime(host);
        assert(host.events@ =~= h0.events@ + spec_failure_events(Stage::QueryLogonTrigger));
        return fail_message("QueryInterface call failed for ILogonTrigger: ", hr);
    }

    // The logon trigger's identifier, boundaries, and user identity.
    let hr = host.hr_put_trigger_id;
    if hr != 0 {
        host.record_released(HandleKind::LogonTrigger);
        release_task_folder_runtime(host);
        assert(host.events@ =~= h0.events@ + spec_failure_events(Stage::PutTriggerId));
        return fail_message("Cannot put the trigger ID: ", hr);
    }
    let hr = host.hr_put_start_boundary;
    if hr != 0 {
        host.record_released(HandleKind::LogonTrigger);
        release_task_folder_runtime(host);
        assert(host.events@ =~= h0.events@ + spec_failure_events(Stage::PutStartBoundary));
        return fail_message("Cannot put the start boundary: ", hr);
    }
    let hr = host.hr_put_end_boundary;
    if hr != 0 {
        host.record_released(HandleKind::LogonTrigger);
        release_task_folder_runtime(host);
        assert(host.events@ =~= h0.events@ + spec_failure_events(Stage::PutEndBoundary));
        return fail_message("Cannot put the end boundary: ", hr);
    }
    let user_id = build_user_id(&host.user_domain, &host.user_name);
    let hr = host.hr_put_user_id;
    host.record_released(HandleKind::LogonTrigger);
    if hr != 0 {
        release_task_folder_runtime(host);
        assert(host.events@ =~= h0.events@ + spec_failure_events(Stage::PutUserId));
        return fail_message("Cannot add user ID to logon trigger: ", hr);
    }

    // Action collection and the one executable action.
    let hr = host.hr_get_actions;
    if hr != 0 {
        release_task_folder_runtime(host);
        assert(host.events@ =~= h0.events@ + spec_failure_events(Stage::GetActions));
        return fail_message("Cannot get Task collection pointer: ", hr);
    }
    host.record_acquired(HandleKind::ActionCollection);
    let hr = host.hr_create_action;
    if hr == 0 {
        host.record_acquired(HandleKind::Action);
    }
    host.record_released(HandleKind::ActionCollection);
    if hr != 0 {
        release_task_folder_runtime(host);
        assert(host.events@ =~= h0.events@ + spec_failure_events(Stage::CreateAction));
        return fail_message("Cannot create the action: ", hr);
    }
    let hr = host.hr_query_exec_action;
    if hr == 0 {
        host.record_acquired(HandleKind::ExecAction);
    }
    host.record_released(HandleKind::Action);
    if hr != 0 {
        release_task_folder_runtime(host);
        assert(host.events@ =~= h0.events@ + spec_failure_events(Stage::QueryExecAction));
        return fail_message("QueryInterface call failed for IExecAction: ", hr);
    }

    // The executable path and the optional arguments.
    let hr = host.hr_put_path;
    if hr != 0 {
        host.record_released(HandleKind::ExecAction);
        release_task_folder_runtime(host);
        assert(host.events@ =~= h0.events@ + spec_failure_events(Stage::PutPath));
        return fail_message("Cannot set path of executable: ", hr);
    }
    if arguments.is_some() {
        let hr = host.hr_put_arguments;
        if hr != 0 {
            host.record_released(HandleKind::ExecAction);
            release_task_folder_runtime(host);
            assert(host.events@ =~= h0.events@ + spec_failure_events(Stage::PutArguments));
            return fail_message("Cannot set arguments: ", hr);
        }
    }
    host.record_released(HandleKind::ExecAction);

    // Commit: create-or-update registration of the built definition.
    let definition = TaskDefinition {
        author: "Author Name".to_owned(),
        start_when_available: true,
        trigger_id: "Trigger1".to_owned(),
        start_boundary: "2024-03-19T00:00:00".to_owned(),
        end_boundary: "2026-06-06T00:00:00".to_owned(),
        user_id,
        exec_path: task_path.to_owned(),
        arguments: match arguments {
            Some(a) => Some(a.to_owned()),
            None => None,
        },
    };
    assert(definition@ == spec_built_definition(h0, task_path@, spec_arguments_view(arguments)));
    let hr = host.register_task_definition(task_name, definition);
    if hr != 0 {
        host.record_released(HandleKind::RootFolder);
        host.record_released(HandleKind::TaskDefinition);
        host.record_released(HandleKind::Runtime);
        assert(host.events@ =~= h0.events@ + spec_failure_events(Stage::Register));
        return fail_message("Error saving the Task: ", hr);
    }
    if !host.register_returns_null {
        host.record_released(HandleKind::RegisteredTask);
    }
    host.record_released(HandleKind::RootFolder);
    host.record_released(HandleKind::TaskDefinition);
    host.record_released(HandleKind::Runtime);
    proof {
        lemma_remove_task_idempotent(store_view(h0.tasks@), task_name@);
    }
    assert(host.events@ =~= h0.events@ + spec_success_events(h0.register_returns_null));
    "Task successfully created".to_owned()
}



#[verifier::rlimit(100)]
#[verifier::spinoff_prover]
proof fn lemma_failure_balance_part1(st: Stage)
    requires
        st == Stage::InitRuntime || st == Stage::InitSecurity || st == Stage::ResolveIdentifiers || st == Stage::CreateInstance || st == Stage::Connect || st == Stage::GetFolder,
    ensures
        balanced(spec_failure_events(st)),
        forall|k: HandleKind|
            count_events(spec_failure_events(st), HostEvent::Acquired(k)) <= 1,
{
    broadcast use lemma_count_events_push;

    let ev = spec_failure_events(st);
    match st {
        Stage::InitRuntime => {
            assert(ev =~= Seq::<HostEvent>::empty());
            assert forall|k: HandleKind|
                count_events(ev, HostEvent::Acquired(k)) == count_events(
                    ev,
                    HostEvent::Released(k),
                ) && count_events(ev, HostEvent::Acquired(k)) <= 1 by {
                reveal_with_fuel(count_events, 2);
            }
        },
        Stage::InitSecurity => {
            assert(ev =~= Seq::<HostEvent>::empty()
                .push(acq(HandleKind::Runtime))
                .push(rel(HandleKind::Runtime)));
            assert forall|k: HandleKind|
                count_events(ev, HostEvent::Acquired(k)) == count_events(
                    ev,
                    HostEvent::Released(k),
                ) && count_events(ev, HostEvent::Acquired(k)) <= 1 by {
                reveal_with_fuel(count_events, 2);
            }
        },
        Stage::ResolveIdentifiers => {
            assert(ev =~= Seq::<HostEvent>::empty()
                .push(acq(HandleKind::Runtime))
                .push(rel(HandleKind::Runtime)));
            assert forall|k: HandleKind|
                count_events(ev, HostEvent::Acquired(k)) == count_events(
                    ev,
                    HostEvent::Released(k),
                ) && count_events(ev, HostEvent::Acquired(k)) <= 1 by {
                reveal_with_fuel(count_events, 2);
            }
        },
        Stage::CreateInstance => {
            assert(ev =~= Seq::<HostEvent>::empty()
                .push(acq(HandleKind::Runtime))
                .push(rel(HandleKind::Runtime)));
            assert forall|k: HandleKind|
                count_events(ev, HostEvent::Acquired(k)) == count_events(
                    ev,
                    HostEvent::Released(k),
                ) && count_events(ev, HostEvent::Acquired(k)) <= 1 by {
                reveal_with_fuel(count_events, 2);
            }
        },
        Stage::Connect => {
            assert(ev =~= Seq::<HostEvent>::empty()
                .push(acq(HandleKind::Runtime))
                .push(acq(HandleKind::Service))
                .push(rel(HandleKind::Service))
                .push(rel(HandleKind::Runtime)));
            assert forall|k: HandleKind|
                count_events(ev, HostEvent::Acquired(k)) == count_events(
                    ev,
                    HostEvent::Released(k),
                ) && count_events(ev, HostEvent::Acquired(k)) <= 1 by {
                reveal_with_fuel(count_events, 2);
            }
        },
        Stage::GetFolder => {
            assert(ev =~= Seq::<HostEvent>::empty()
                .push(acq(HandleKind::Runtime))
                .push(acq(HandleKind::Service))
                .push(rel(HandleKind::Service))
                .push(rel(HandleKind::Runtime)));
            assert forall|k: HandleKind|
                count_events(ev, HostEvent::Acquired(k)) == count_events(
                    ev,
                    HostEvent::Released(k),
                ) && count_events(ev, HostEvent::Acquired(k)) <= 1 by {
                reveal_with_fuel(count_events, 2);
            }
        },
        _ => {},
    }
}

#[verifier::rlimit(100)]
#[verifier::spinoff_prover]
proof fn lemma_failure_balance_part2(st: Stage)
    requires
        st == Stage::NewTask || st == Stage::GetRegistrationInfo || st == Stage::PutAuthor || st == Stage::GetSettings || st == Stage::PutStartWhenAvailable || st == Stage::GetTriggers,
    ensures
        balanced(spec_failure_events(st)),
        forall|k: HandleKind|
            count_events(spec_failure_events(st), HostEvent::Acquired(k)) <= 1,
{
    broadcast use lemma_count_events_push;

    let ev = spec_failure_events(st);
    match st {
        Stage::NewTask => {
            assert(ev =~= Seq::<HostEvent>::empty()
                .push(acq(HandleKind::Runtime))
                .push(acq(HandleKind::Service))
                .push(acq(HandleKind::RootFolder))
                .push(rel(HandleKind::Service))
                .push(rel(HandleKind::RootFolder))
                .push(rel(HandleKind::Runtime)));
            assert forall|k: HandleKind|
                count_events(ev, HostEvent::Acquired(k)) == count_events(
                    ev,
                    HostEvent::Released(k),
                ) && count_events(ev, HostEvent::Acquired(k)) <= 1 by {
                reveal_with_fuel(count_events, 2);
            }
        },
        Stage::GetRegistrationInfo => {
            assert(ev =~= Seq::<HostEvent>::empty()
                .push(acq(HandleKind::Runtime))
                .push(acq(HandleKind::Service))
                .push(acq(HandleKind::RootFolder))
                .push(acq(HandleKind::TaskDefinition))
                .push(rel(HandleKind::Service))
                .push(rel(HandleKind::TaskDefinition))
                .push(rel(HandleKind::RootFolder))
                .push(rel(HandleKind::Runtime)));
            assert forall|k: HandleKind|
                count_events(ev, HostEvent::Acquired(k)) == count_events(
                    ev,
                    HostEvent::Released(k),
                ) && count_events(ev, HostEvent::Acquired(k)) <= 1 by {
                reveal_with_fuel(count_events, 2);
            }
        },
        Stage::PutAuthor => {
            assert(ev =~= Seq::<HostEvent>::empty()
                .push(acq(HandleKind::Runtime))
                .push(acq(HandleKind::Service))
                .push(acq(HandleKind::RootFolder))
                .push(acq(HandleKind::TaskDefinition))
                .push(rel(HandleKind::Service))
                .push(acq(HandleKind::RegistrationInfo))
                .push(rel(HandleKind::RegistrationInfo))
                .push(rel(HandleKind::TaskDefinition))
                .push(rel(HandleKind::RootFolder))
                .push(rel(HandleKind::Runtime)));
            assert forall|k: HandleKind|
                count_events(ev, HostEvent::Acquired(k)) == count_events(
                    ev,
                    HostEvent::Released(k),
                ) && count_events(ev, HostEvent::Acquired(k)) <= 1 by {
                reveal_with_fuel(count_events, 2);
            }
        },
        Stage::GetSettings => {
            assert(ev =~= Seq::<HostEvent>::empty()
                .push(acq(HandleKind::Runtime))
                .push(acq(HandleKind::Service))
                .push(acq(HandleKind::RootFolder))
                .push(acq(HandleKind::TaskDefinition))
                .push(rel(HandleKind::Service))
                .push(acq(HandleKind::RegistrationInfo))
                .push(rel(HandleKind::RegistrationInfo))
                .push(rel(HandleKind::TaskDefinition))
                .push(rel(HandleKind::RootFolder))
                .push(rel(HandleKind::Runtime)));
            assert forall|k: HandleKind|
                count_events(ev, HostEvent::Acquired(k)) == count_events(
                    ev,
                    HostEvent::Released(k),
                ) && count_events(ev, HostEvent::Acquired(k)) <= 1 by {
                reveal_with_fuel(count_events, 2);
            }
        },
        Stage::PutStartWhenAvailable => {
            assert(ev =~= Seq::<HostEvent>::empty()
                .push(acq(HandleKind::Runtime))
                .push(acq(HandleKind::Service))
                .push(acq(HandleKind::RootFolder))
                .push(acq(HandleKind::TaskDefinition))
                .push(rel(HandleKind::Service))
                .push(acq(HandleKind::RegistrationInfo))
                .push(rel(HandleKind::RegistrationInfo))
                .push(acq(HandleKind::Settings))
                .push(rel(HandleKind::Settings))
                .push(rel(HandleKind::TaskDefinition))
                .push(rel(HandleKind::RootFolder))
                .push(rel(HandleKind::Runtime)));
            assert forall|k: HandleKind|
                count_events(ev, HostEvent::Acquired(k)) == count_events(
                    ev,
                    HostEvent::Released(k),
                ) && count_events(ev, HostEvent::Acquired(k)) <= 1 by {
                reveal_with_fuel(count_events, 2);
            }
        },
        Stage::GetTriggers => {
            assert(ev =~= Seq::<HostEvent>::empty()
                .push(acq(HandleKind::Runtime))
                .push(acq(HandleKind::Service))
                .push(acq(HandleKind::RootFolder))
                .push(acq(HandleKind::TaskDefinition))
                .push(rel(HandleKind::Service))
                .push(acq(HandleKind::RegistrationInfo))
                .push(rel(HandleKind::RegistrationInfo))
                .push(acq(HandleKind::Settings))
                .push(rel(HandleKind::Settings))
                .push(rel(HandleKind::TaskDefinition))
                .push(rel(HandleKind::RootFolder))
                .push(rel(HandleKind::Runtime)));
            assert forall|k: HandleKind|
                count_events(ev, HostEvent::Acquired(k)) == count_events(
                    ev,
                    HostEvent::Released(k),
                ) && count_events(ev, HostEvent::Acquired(k)) <= 1 by {
                reveal_with_fuel(count_events, 2);
            }
        },
        _ => {},
    }
}

#[verifier::rlimit(100)]
#[verifier::spinoff_prover]
proof fn lemma_failure_balance_part3(st: Stage)
    requires
        st == Stage::CreateTrigger || st == Stage::QueryLogonTrigger || st == Stage::PutTriggerId || st == Stage::PutStartBoundary || st == Stage::PutEndBoundary || st == Stage::PutUserId,
    ensures
        balanced(spec_failure_events(st)),
        forall|k: HandleKind|
            count_events(spec_failure_events(st), HostEvent::Acquired(k)) <= 1,
{
    broadcast use lemma_count_events_push;

    let ev = spec_failure_events(st);
    match st {
        Stage::CreateTrigger => {
            assert(ev =~= Seq::<HostEvent>::empty()
                .push(acq(HandleKind::Runtime))
                .push(acq(HandleKind::Service))
                .push(acq(HandleKind::RootFolder))
                .push(acq(HandleKind::TaskDefinition))
                .push(rel(HandleKind::Service))
                .push(acq(HandleKind::RegistrationInfo))
                .push(rel(HandleKind::RegistrationInfo))
                .push(acq(HandleKind::Settings))
                .push(rel(HandleKind::Settings))
                .push(acq(HandleKind::TriggerCollection))
                .push(rel(HandleKind::TriggerCollection))
                .push(rel(HandleKind::TaskDefinition))
                .push(rel(HandleKind::RootFolder))
                .push(rel(HandleKind::Runtime)));
            assert forall|k: HandleKind|
                count_events(ev, HostEvent::Acquired(k)) == count_events(
                    ev,
                    HostEvent::Released(k),
                ) && count_events(ev, HostEvent::Acquired(k)) <= 1 by {
                reveal_with_fuel(count_events, 2);
            }
        },
        Stage::QueryLogonTrigger => {
            assert(ev =~= Seq::<HostEvent>::empty()
                .push(acq(HandleKind::Runtime))
                .push(acq(HandleKind::Service))
                .push(acq(HandleKind::RootFolder))
                .push(acq(HandleKind::TaskDefinition))
                .push(rel(HandleKind::Service))
                .push(acq(HandleKind::RegistrationInfo))
                .push(rel(HandleKind::RegistrationInfo))
                .push(acq(HandleKind::Settings))
                .push(rel(HandleKind::Settings))
                .push(acq(HandleKind::TriggerCollection))
                .push(acq(HandleKind::Trigger))
                .push(rel(HandleKind::TriggerCollection))
                .push(rel(HandleKind::Trigger))
                .push(rel(HandleKind::TaskDefinition))
                .push(rel(HandleKind::RootFolder))
                .push(rel(HandleKind::Runtime)));
            assert forall|k: HandleKind|
                count_events(ev, HostEvent::Acquired(k)) == count_events(
                    ev,
                    HostEvent::Released(k),
                ) && count_events(ev, HostEvent::Acquired(k)) <= 1 by {
                reveal_with_fuel(count_events, 2);
            }
        },
        Stage::PutTriggerId => {
            assert(ev =~= Seq::<HostEvent>::empty()
                .push(acq(HandleKind::Runtime))
                .push(acq(HandleKind::Service))
                .push(acq(HandleKind::RootFolder))
                .push(acq(HandleKind::TaskDefinition))
                .push(rel(HandleKind::Service))
                .push(acq(HandleKind::RegistrationInfo))
                .push(rel(HandleKind::RegistrationInfo))
                .push(acq(HandleKind::Settings))
                .push(rel(HandleKind::Settings))
                .push(acq(HandleKind::TriggerCollection))
                .push(acq(HandleKind::Trigger))
                .push(rel(HandleKind::TriggerCollection))
                .push(acq(HandleKind::LogonTrigger))
                .push(rel(HandleKind::Trigger))
                .push(rel(HandleKind::LogonTrigger))
                .push(rel(HandleKind::TaskDefinition))
                .push(rel(HandleKind::RootFolder))
                .push(rel(HandleKind::Runtime)));
            assert forall|k: HandleKind|
                count_events(ev, HostEvent::Acquired(k)) == count_events(
                    ev,
                    HostEvent::Released(k),
                ) && count_events(ev, HostEvent::Acquired(k)) <= 1 by {
                reveal_with_fuel(count_events, 2);
            }
        },
        Stage::PutStartBoundary => {
            assert(ev =~= Seq::<HostEvent>::empty()
                .push(acq(HandleKind::Runtime))
                .push(acq(HandleKind::Service))
                .push(acq(HandleKind::RootFolder))
                .push(acq(HandleKind::TaskDefinition))
                .push(rel(HandleKind::Service))
                .push(acq(HandleKind::RegistrationInfo))
                .push(rel(HandleKind::RegistrationInfo))
                .push(acq(HandleKind::Settings))
                .push(rel(HandleKind::Settings))
                .push(acq(HandleKind::TriggerCollection))
                .push(acq(HandleKind::Trigger))
                .push(rel(HandleKind::TriggerCollection))
                .push(acq(HandleKind::LogonTrigger))
                .push(rel(HandleKind::Trigger))
                .push(rel(HandleKind::LogonTrigger))
                .push(rel(HandleKind::TaskDefinition))
                .push(rel(HandleKind::RootFolder))
                .push(rel(HandleKind::Runtime)));
            assert forall|k: HandleKind|
                count_events(ev, HostEvent::Acquired(k)) == count_events(
                    ev,
                    HostEvent::Released(k),
                ) && count_events(ev, HostEvent::Acquired(k)) <= 1 by {
                reveal_with_fuel(count_events, 2);
            }
        },
        Stage::PutEndBoundary => {
            assert(ev =~= Seq::<HostEvent>::empty()
                .push(acq(HandleKind::Runtime))
                .push(acq(HandleKind::Service))
                .push(acq(HandleKind::RootFolder))
                .push(acq(HandleKind::TaskDefinition))
                .push(rel(HandleKind::Service))
                .push(acq(HandleKind::RegistrationInfo))
                .push(rel(HandleKind::RegistrationInfo))
                .push(acq(HandleKind::Settings))
                .push(rel(HandleKind::Settings))
                .push(acq(HandleKind::TriggerCollection))
                .push(acq(HandleKind::Trigger))
                .push(rel(HandleKind::TriggerCollection))
                .push(acq(HandleKind::LogonTrigger))
                .push(rel(HandleKind::Trigger))
                .push(rel(HandleKind::LogonTrigger))
                .push(rel(HandleKind::TaskDefinition))
                .push(rel(HandleKind::RootFolder))
                .push(rel(HandleKind::Runtime)));
            assert forall|k: HandleKind|
                count_events(ev, HostEvent::Acquired(k)) == count_events(
                    ev,
                    HostEvent::Released(k),
                ) && count_events(ev, HostEvent::Acquired(k)) <= 1 by {
                reveal_with_fuel(count_events, 2);
            }
        },
        Stage::PutUserId => {
            assert(ev =~= Seq::<HostEvent>::empty()
                .push(acq(HandleKind::Runtime))
                .push(acq(HandleKind::Service))
                .push(acq(HandleKind::RootFolder))
                .push(acq(HandleKind::TaskDefinition))
                .push(rel(HandleKind::Service))
                .push(acq(HandleKind::RegistrationInfo))
                .push(rel(HandleKind::RegistrationInfo))
                .push(acq(HandleKind::Settings))
                .push(rel(HandleKind::Settings))
                .push(acq(HandleKind::TriggerCollection))
                .push(acq(HandleKind::Trigger))
                .push(rel(HandleKind::TriggerCollection))
                .push(acq(HandleKind::LogonTrigger))
                .push(rel(HandleKind::Trigger))
                .push(rel(HandleKind::LogonTrigger))
                .push(rel(HandleKind::TaskDefinition))
                .push(rel(HandleKind::RootFolder))
                .push(rel(HandleKind::Runtime)));
            assert forall|k: HandleKind|
                count_events(ev, HostEvent::Acquired(k)) == count_events(
                    ev,
                    HostEvent::Released(k),
                ) && count_events(ev, HostEvent::Acquired(k)) <= 1 by {
                reveal_with_fuel(count_events, 2);
            }
        },
        _ => {},
    }
}

#[verifier::rlimit(100)]
#[verifier::spinoff_prover]
proof fn lemma_failure_balance_part4(st: Stage)
    requires
        st == Stage::GetActions || st == Stage::CreateAction || st == Stage::QueryExecAction || st == Stage::PutPath || st == Stage::PutArguments || st == Stage::Register,
    ensures
        balanced(spec_failure_events(st)),
        forall|k: HandleKind|
            count_events(spec_failure_events(st), HostEvent::Acquired(k)) <= 1,
{
    broadcast use lemma_count_events_push;

    let ev = spec_failure_events(st);
    match st {
        Stage::GetActions => {
            assert(ev =~= Seq::<HostEvent>::empty()
                .push(acq(HandleKind::Runtime))
                .push(acq(HandleKind::Service))
                .push(acq(HandleKind::RootFolder))
                .push(acq(HandleKind::TaskDefinition))
                .push(rel(HandleKind::Service))
                .push(acq(HandleKind::RegistrationInfo))
                .push(rel(HandleKind::RegistrationInfo))
                .push(acq(HandleKind::Settings))
                .push(rel(HandleKind::Settings))
                .push(acq(HandleKind::TriggerCollection))
                .push(acq(HandleKind::Trigger))
                .push(rel(HandleKind::TriggerCollection))
                .push(acq(HandleKind::LogonTrigger))
                .push(rel(HandleKind::Trigger))
                .push(rel(HandleKind::LogonTrigger))
                .push(rel(HandleKind::TaskDefinition))
                .push(rel(HandleKind::RootFolder))
                .push(rel(HandleKind::Runtime)));
            assert forall|k: HandleKind|
                count_events(ev, HostEvent::Acquired(k)) == count_events(
                    ev,
                    HostEvent::Released(k),
                ) && count_events(ev, HostEvent::Acquired(k)) <= 1 by {
                reveal_with_fuel(count_events, 2);
            }
        },
        Stage::CreateAction => {
            assert(ev =~= Seq::<HostEvent>::empty()
                .push(acq(HandleKind::Runtime))
                .push(acq(HandleKind::Service))
                .push(acq(HandleKind::RootFolder))
                .push(acq(HandleKind::TaskDefinition))
                .push(rel(HandleKind::Service))
                .push(acq(HandleKind::RegistrationInfo))
                .push(rel(HandleKind::RegistrationInfo))
                .push(acq(HandleKind::Settings))
                .push(rel(HandleKind::Settings))
                .push(acq(HandleKind::TriggerCollection))
                .push(acq(HandleKind::Trigger))
                .push(rel(HandleKind::TriggerCollection))
                .push(acq(HandleKind::LogonTrigger))
                .push(rel(HandleKind::Trigger))
                .push(rel(HandleKind::LogonTrigger))
                .push(acq(HandleKind::ActionCollection))
                .push(rel(HandleKind::ActionCollection))
                .push(rel(HandleKind::TaskDefinition))
                .push(rel(HandleKind::RootFolder))
                .push(rel(HandleKind::Runtime)));
            assert forall|k: HandleKind|
                count_events(ev, HostEvent::Acquired(k)) == count_events(
                    ev,
                    HostEvent::Released(k),
                ) && count_events(ev, HostEvent::Acquired(k)) <= 1 by {
                reveal_with_fuel(count_events, 2);
            }
        },
        Stage::QueryExecAction => {
            assert(ev =~= Seq::<HostEvent>::empty()
                .push(acq(HandleKind::Runtime))
                .push(acq(HandleKind::Service))
                .push(acq(HandleKind::RootFolder))
                .push(acq(HandleKind::TaskDefinition))
                .push(rel(HandleKind::Service))
                .push(acq(HandleKind::RegistrationInfo))
                .push(rel(HandleKind::RegistrationInfo))
                .push(acq(HandleKind::Settings))
                .push(rel(HandleKind::Settings))
                .push(acq(HandleKind::TriggerCollection))
                .push(acq(HandleKind::Trigger))
                .push(rel(HandleKind::TriggerCollection))
                .push(acq(HandleKind::LogonTrigger))
                .push(rel(HandleKind::Trigger))
                .push(rel(HandleKind::LogonTrigger))
                .push(acq(HandleKind::ActionCollection))
                .push(acq(HandleKind::Action))
                .push(rel(HandleKind::ActionCollection))
                .push(rel(HandleKind::Action))
                .push(rel(HandleKind::TaskDefinition))
                .push(rel(HandleKind::RootFolder))
                .push(rel(HandleKind::Runtime)));
            assert forall|k: HandleKind|
                count_events(ev, HostEvent::Acquired(k)) == count_events(
                    ev,
                    HostEvent::Released(k),
                ) && count_events(ev, HostEvent::Acquired(k)) <= 1 by {
                reveal_with_fuel(count_events, 2);
            }
        },
        Stage::PutPath => {
            assert(ev =~= Seq::<HostEvent>::empty()
                .push(acq(HandleKind::Runtime))
                .push(acq(HandleKind::Service))
                .push(acq(HandleKind::RootFolder))
                .push(acq(HandleKind::TaskDefinition))
                .push(rel(HandleKind::Service))
                .push(acq(HandleKind::RegistrationInfo))
                .push(rel(HandleKind::RegistrationInfo))
                .push(acq(HandleKind::Settings))
                .push(rel(HandleKind::Settings))
                .push(acq(HandleKind::TriggerCollection))
                .push(acq(HandleKind::Trigger))
                .push(rel(HandleKind::TriggerCollection))
                .push(acq(HandleKind::LogonTrigger))
                .push(rel(HandleKind::Trigger))
                .push(rel(HandleKind::LogonTrigger))
                .push(acq(HandleKind::ActionCollection))
                .push(acq(HandleKind::Action))
                .push(rel(HandleKind::ActionCollection))
                .push(acq(HandleKind::ExecAction))
                .push(rel(HandleKind::Action))
                .push(rel(HandleKind::ExecAction))
                .push(rel(HandleKind::TaskDefinition))
                .push(rel(HandleKind::RootFolder))
                .push(rel(HandleKind::Runtime)));
            assert forall|k: HandleKind|
                count_events(ev, HostEvent::Acquired(k)) == count_events(
                    ev,
                    HostEvent::Released(k),
                ) && count_events(ev, HostEvent::Acquired(k)) <= 1 by {
                reveal_with_fuel(count_events, 2);
            }
        },
        Stage::PutArguments => {
            assert(ev =~= Seq::<HostEvent>::empty()
                .push(acq(HandleKind::Runtime))
                .push(acq(HandleKind::Service))
                .push(acq(HandleKind::RootFolder))
                .push(acq(HandleKind::TaskDefinition))
                .push(rel(HandleKind::Service))
                .push(acq(HandleKind::RegistrationInfo))
                .push(rel(HandleKind::RegistrationInfo))
                .push(acq(HandleKind::Settings))
                .push(rel(HandleKind::Settings))
                .push(acq(HandleKind::TriggerCollection))
                .push(acq(HandleKind::Trigger))
                .push(rel(HandleKind::TriggerCollection))
                .push(acq(HandleKind::LogonTrigger))
                .push(rel(HandleKind::Trigger))
                .push(rel(HandleKind::LogonTrigger))
                .push(acq(HandleKind::ActionCollection))
                .push(acq(HandleKind::Action))
                .push(rel(HandleKind::ActionCollection))
                .push(acq(HandleKind::ExecAction))
                .push(rel(HandleKind::Action))
                .push(rel(HandleKind::ExecAction))
                .push(rel(HandleKind::TaskDefinition))
                .push(rel(HandleKind::RootFolder))
                .push(rel(HandleKind::Runtime)));
            assert forall|k: HandleKind|
                count_events(ev, HostEvent::Acquired(k)) == count_events(
                    ev,
                    HostEvent::Released(k),
                ) && count_events(ev, HostEvent::Acquired(k)) <= 1 by {
                reveal_with_fuel(count_events, 2);
            }
        },
        Stage::Register => {
            assert(ev =~= Seq::<HostEvent>::empty()
                .push(acq(HandleKind::Runtime))
                .push(acq(HandleKind::Service))
                .push(acq(HandleKind::RootFolder))
                .push(acq(HandleKind::TaskDefinition))
                .push(rel(HandleKind::Service))
                .push(acq(HandleKind::RegistrationInfo))
                .push(rel(HandleKind::RegistrationInfo))
                .push(acq(HandleKind::Settings))
                .push(rel(HandleKind::Settings))
                .push(acq(HandleKind::TriggerCollection))
                .push(acq(HandleKind::Trigger))
                .push(rel(HandleKind::TriggerCollection))
                .push(acq(HandleKind::LogonTrigger))
                .push(rel(HandleKind::Trigger))
                .push(rel(HandleKind::LogonTrigger))
                .push(acq(HandleKind::ActionCollection))
                .push(acq(HandleKind::Action))
                .push(rel(HandleKind::ActionCollection))
                .push(acq(HandleKind::ExecAction))
                .push(rel(HandleKind::Action))
                .push(rel(HandleKind::ExecAction))
                .push(rel(HandleKind::RootFolder))
                .push(rel(HandleKind::TaskDefinition))
                .push(rel(HandleKind::Runtime)));
            assert forall|k: HandleKind|
                count_events(ev, HostEvent::Acquired(k)) == count_events(
                    ev,
                    HostEvent::Released(k),
                ) && count_events(ev, HostEvent::Acquired(k)) <= 1 by {
                reveal_with_fuel(count_events, 2);
            }
        },
        _ => {},
    }
}

/// Forcing any stage's call to fail releases precisely the handles the
/// earlier stages acquired: over that failure's events, every handle kind is
/// acquired at most once and is released exactly as often as it was acquired,
/// the runtime context included; `create_task`'s contract pins the result
/// text of the same failure to the stage's own name.
pub proof fn lemma_failure_releases_all_acquired(st: Stage)
    ensures
        balanced(spec_failure_events(st)),
        forall|k: HandleKind|
            count_events(spec_failure_events(st), HostEvent::Acquired(k)) <= 1,
{
    match st {
        Stage::InitRuntime => lemma_failure_balance_part1(st),
        Stage::InitSecurity => lemma_failure_balance_part1(st),
        Stage::ResolveIdentifiers => lemma_failure_balance_part1(st),
        Stage::CreateInstance => lemma_failure_balance_part1(st),
        Stage::Connect => lemma_failure_balance_part1(st),
        Stage::GetFolder => lemma_failure_balance_part1(st),
        Stage::NewTask => lemma_failure_balance_part2(st),
        Stage::GetRegistrationInfo => lemma_failure_balance_part2(st),
        Stage::PutAuthor => lemma_failure_balance_part2(st),
        Stage::GetSettings => lemma_failure_balance_part2(st),
        Stage::PutStartWhenAvailable => lemma_failure_balance_part2(st),
        Stage::GetTriggers => lemma_failure_balance_part2(st),
        Stage::CreateTrigger => lemma_failure_balance_part3(st),
        Stage::QueryLogonTrigger => lemma_failure_balance_part3(st),
        Stage::PutTriggerId => lemma_failure_balance_part3(st),
        Stage::PutStartBoundary => lemma_failure_balance_part3(st),
        Stage::PutEndBoundary => lemma_failure_balance_part3(st),
        Stage::PutUserId => lemma_failure_balance_part3(st),
        Stage::GetActions => lemma_failure_balance_part4(st),
        Stage::CreateAction => lemma_failure_balance_part4(st),
        Stage::QueryExecAction => lemma_failure_balance_part4(st),
        Stage::PutPath => lemma_failure_balance_part4(st),
        Stage::PutArguments => lemma_failure_balance_part4(st),
        Stage::Register => lemma_failure_balance_part4(st),
    }
}

/// A fully successful operation also releases every handle it acquired,
/// whether or not the host populated a registered-task handle.
#[verifier::rlimit(100)]
#[verifier::spinoff_prover]
pub proof fn lemma_success_releases_all_acquired(register_returns_null: bool)
    ensures
        balanced(spec_success_events(register_returns_null)),
        forall|k: HandleKind|
            count_events(spec_success_events(register_returns_null), HostEvent::Acquired(k)) <= 1,
{
    broadcast use lemma_count_events_push;

    let ev = spec_success_events(register_returns_null);
    if register_returns_null {
        assert(ev =~= Seq::<HostEvent>::empty()
                .push(acq(HandleKind::Runtime))
                .push(acq(HandleKind::Service))
                .push(acq(HandleKind::RootFolder))
                .push(acq(HandleKind::TaskDefinition))
                .push(rel(HandleKind::Service))
                .push(acq(HandleKind::RegistrationInfo))
                .push(rel(HandleKind::RegistrationInfo))
                .push(acq(HandleKind::Settings))
                .push(rel(HandleKind::Settings))
                .push(acq(HandleKind::TriggerCollection))
                .push(acq(HandleKind::Trigger))
                .push(rel(HandleKind::TriggerCollection))
                .push(acq(HandleKind::LogonTrigger))
                .push(rel(HandleKind::Trigger))
                .push(rel(HandleKind::LogonTrigger))
                .push(acq(HandleKind::ActionCollection))
                .push(acq(HandleKind::Action))
                .push(rel(HandleKind::ActionCollection))
                .push(acq(HandleKind::ExecAction))
                .push(rel(HandleKind::Action))
                .push(rel(HandleKind::ExecAction))
                .push(rel(HandleKind::RootFolder))
                .push(rel(HandleKind::TaskDefinition))
                .push(rel(HandleKind::Runtime)));
    } else {
        assert(ev =~= Seq::<HostEvent>::empty()
                .push(acq(HandleKind::Runtime))
                .push(acq(HandleKind::Service))
                .push(acq(HandleKind::RootFolder))
                .push(acq(HandleKind::TaskDefinition))
                .push(rel(HandleKind::Service))
                .push(acq(HandleKind::RegistrationInfo))
                .push(rel(HandleKind::RegistrationInfo))
                .push(acq(HandleKind::Settings))
                .push(rel(HandleKind::Settings))
                .push(acq(HandleKind::TriggerCollection))
                .push(acq(HandleKind::Trigger))
                .push(rel(HandleKind::TriggerCollection))
                .push(acq(HandleKind::LogonTrigger))
                .push(rel(HandleKind::Trigger))
                .push(rel(HandleKind::LogonTrigger))
                .push(acq(HandleKind::ActionCollection))
                .push(acq(HandleKind::Action))
                .push(rel(HandleKind::ActionCollection))
                .push(acq(HandleKind::ExecAction))
                .push(rel(HandleKind::Action))
                .push(rel(HandleKind::ExecAction))
                .push(acq(HandleKind::RegisteredTask))
                .push(rel(HandleKind::RegisteredTask))
                .push(rel(HandleKind::RootFolder))
                .push(rel(HandleKind::TaskDefinition))
                .push(rel(HandleKind::Runtime)));
    }
    assert forall|k: HandleKind|
        count_events(ev, HostEvent::Acquired(k)) == count_events(ev, HostEvent::Released(k))
            && count_events(ev, HostEvent::Acquired(k)) <= 1 by {
        reveal_with_fuel(count_events, 2);
    }
}

/// Running the operation twice in succession with the same task name: the
/// second run sees the same plan, so it succeeds exactly when the first one
/// did, builds the same definition, and registering that definition again
/// leaves the store exactly as the first registration left it.
pub proof fn lemma_operation_idempotent(
    h0: SchedulerHost,
    h1: SchedulerHost,
    has_args: bool,
    ts: Seq<StoredTaskView>,
    name: Seq<char>,
    d: TaskDefinitionView,
)
    requires
        h0.same_plan(h1),
        spec_first_failure(h0, has_args) is None,
    ensures
        spec_first_failure(h1, has_args) is None,
        forall|path: Seq<char>, args: Option<Seq<char>>|
            #[trigger] spec_built_definition(h1, path, args) == spec_built_definition(
                h0,
                path,
                args,
            ),
        register_task_view(register_task_view(ts, name, d), name, d) == register_task_view(
            ts,
            name,
            d,
        ),
{
    lemma_register_task_replaces(ts, name, d, d);
}

/// When the class-registration table is readable and no entry's display value
/// contains "TaskScheduler", the operation fails at identifier resolution,
/// its text carries "TaskScheduler CLSID not found", and no object-chain
/// handle beyond the runtime context is ever acquired.
pub proof fn lemma_missing_class_stops_before_construction(h: SchedulerHost, has_args: bool)
    requires
        runtime_init_ok(h.hr_init as int),
        security_init_ok(h.hr_security as int),
        (h.class_table matches TableReading::Table { entries } && (forall|i: int|
            0 <= i < entries@.len() ==> (#[trigger] entries@[i] matches EntryReading::Readable {
                key,
                display,
            } && !spec_contains(display@, "TaskScheduler"@)))),
    ensures
        spec_first_failure(h, has_args) == Some(Stage::ResolveIdentifiers),
        spec_contains(
            spec_failure_message(h, Stage::ResolveIdentifiers),
            "TaskScheduler CLSID not found"@,
        ),
        forall|k: HandleKind|
            k != HandleKind::Runtime ==> count_events(
                spec_failure_events(Stage::ResolveIdentifiers),
                HostEvent::Acquired(k),
            ) == 0,
{
    broadcast use lemma_count_events_push, lemma_count_events_concat;

    match h.class_table {
        TableReading::Table { entries } => {
            lemma_scan_not_found(entries@, "TaskScheduler"@);
        },
        TableReading::Unopenable { .. } => {},
    }
    assert(spec_scan_table(h.class_table, "TaskScheduler"@) == ScanOutcome::NotFound);
    assert(spec_find_task_scheduler_guids(h.class_table, h.interface_table) == Err::<
        ServiceIdentifiers,
        LookupError,
    >(LookupError::ClassNotFound));
    let msg = spec_failure_message(h, Stage::ResolveIdentifiers);
    let needle = "TaskScheduler CLSID not found"@;
    let prefix = stage_prefix(Stage::ResolveIdentifiers);
    assert(msg == prefix + needle);
    assert(is_substring_at(msg, needle, prefix.len() as int)) by {
        assert(msg.subrange(
            prefix.len() as int,
            prefix.len() as int + needle.len() as int,
        ) =~= needle);
    }
    let ev = spec_failure_events(Stage::ResolveIdentifiers);
    assert forall|k: HandleKind|
        k != HandleKind::Runtime implies count_events(ev, HostEvent::Acquired(k)) == 0 by {
        reveal_with_fuel(count_events, 30);
    }
}

} // verus!
