//! The host model: the scheduling service's object handles, the acquire and
//! release events the operation performs on them, the task store, and the
//! planned status of every native call.  An in-memory value of this model
//! stands for the host; a driver fills it from the real system.

use vstd::prelude::*;
use crate::registry::TableReading;

verus! {

/// The kinds of object handles the operation can hold, the process-wide
/// automation runtime included.
#[derive(Clone, Copy, Debug, PartialEq, Eq, Structural)]
pub enum HandleKind {
    Runtime,
    Service,
    RootFolder,
    TaskDefinition,
    RegistrationInfo,
    Settings,
    TriggerCollection,
    Trigger,
    LogonTrigger,
    ActionCollection,
    Action,
    ExecAction,
    RegisteredTask,
}

/// One observable step of the operation against the host.
#[derive(Clone, Copy, Debug, PartialEq, Eq, Structural)]
pub enum HostEvent {
    Acquired(HandleKind),
    Released(HandleKind),
}

/// How many times `e` occurs in `s`.
pub open spec fn count_events(s: Seq<HostEvent>, e: HostEvent) -> nat
    decreases s.len(),
{
    if s.len() == 0 {
        0
    } else {
        count_events(s.drop_last(), e) + if s.last() == e {
            1nat
        } else {
            0nat
        }
    }
}

/// Counting one more event at the end.
pub broadcast proof fn lemma_count_events_push(s: Seq<HostEvent>, e: HostEvent, x: HostEvent)
    ensures
        #[trigger] count_events(s.push(e), x) == count_events(s, x) + if e == x {
            1nat
        } else {
            0nat
        },
{
    assert(s.push(e).drop_last() =~= s);
    assert(s.push(e).last() == e);
}

/// Counts add up over concatenation.
pub broadcast proof fn lemma_count_events_concat(a: Seq<HostEvent>, b: Seq<HostEvent>, x: HostEvent)
    ensures
        #[trigger] count_events(a + b, x) == count_events(a, x) + count_events(b, x),
    decreases b.len(),
{
    if b.len() == 0 {
        assert(a + b =~= a);
    } else {
        lemma_count_events_concat(a, b.drop_last(), x);
        assert((a + b).drop_last() =~= a + b.drop_last());
        assert((a + b).last() == b.last());
        assert((a + b).len() > 0);
    }
}

/// Every handle kind is released exactly as often as it was acquired.
pub open spec fn balanced(s: Seq<HostEvent>) -> bool {
    forall|k: HandleKind|
        count_events(s, HostEvent::Acquired(k)) == count_events(s, HostEvent::Released(k))
}

/// A fully configured task definition as the store holds it.
#[derive(Debug)]
pub struct TaskDefinition {
    pub author: String,
    pub start_when_available: bool,
    pub trigger_id: String,
    pub start_boundary: String,
    pub end_boundary: String,
    pub user_id: String,
    pub exec_path: String,
    pub arguments: Option<String>,
}

/// The mathematical value of a task definition.
pub struct TaskDefinitionView {
    pub author: Seq<char>,
    pub start_when_available: bool,
    pub trigger_id: Seq<char>,
    pub start_boundary: Seq<char>,
    pub end_boundary: Seq<char>,
    pub user_id: Seq<char>,
    pub exec_path: Seq<char>,
    pub arguments: Option<Seq<char>>,
}

impl View for TaskDefinition {
    type V = TaskDefinitionView;

    open spec fn view(&self) -> TaskDefinitionView {
        TaskDefinitionView {
            author: self.author@,
            start_when_available: self.start_when_available,
            trigger_id: self.trigger_id@,
            start_boundary: self.start_boundary@,
            end_boundary: self.end_boundary@,
            user_id: self.user_id@,
            exec_path: self.exec_path@,
            arguments: match self.arguments {
                Some(ref a) => Some(a@),
                None => None,
            },
        }
    }
}

/// One entry of the host's task store.
#[derive(Debug)]
pub struct StoredTask {
    pub name: String,
    pub definition: TaskDefinition,
}

impl Clone for TaskDefinition {
    fn clone(&self) -> (res: Self)
        ensures
            res == *self,
    {
        TaskDefinition {
            author: self.author.clone(),
            start_when_available: self.start_when_available,
            trigger_id: self.trigger_id.clone(),
            start_boundary: self.start_boundary.clone(),
            end_boundary: self.end_boundary.clone(),
            user_id: self.user_id.clone(),
            exec_path: self.exec_path.clone(),
            arguments: match &self.arguments {
                Some(a) => Some(a.clone()),
                None => None,
            },
        }
    }
}

impl Clone for StoredTask {
    fn clone(&self) -> (res: Self)
        ensures
            res == *self,
    {
        StoredTask { name: self.name.clone(), definition: self.definition.clone() }
    }
}

pub struct StoredTaskView {
    pub name: Seq<char>,
    pub definition: TaskDefinitionView,
}

impl View for StoredTask {
    type V = StoredTaskView;

    open spec fn view(&self) -> StoredTaskView {
        StoredTaskView { name: self.name@, definition: self.definition@ }
    }
}

pub open spec fn store_view(tasks: Seq<StoredTask>) -> Seq<StoredTaskView> {
    tasks.map_values(|t: StoredTask| t@)
}

/// The store with every task of the given name removed.
pub open spec fn remove_task_view(ts: Seq<StoredTaskView>, name: Seq<char>) -> Seq<
    StoredTaskView,
>
    decreases ts.len(),
{
    if ts.len() == 0 {
        Seq::<StoredTaskView>::empty()
    } else {
        remove_task_view(ts.drop_last(), name) + if ts.last().name == name {
            Seq::<StoredTaskView>::empty()
        } else {
            seq![ts.last()]
        }
    }
}

/// The store after a create-or-update registration: any task of the same name
/// replaced by the new definition.
pub open spec fn register_task_view(
    ts: Seq<StoredTaskView>,
    name: Seq<char>,
    definition: TaskDefinitionView,
) -> Seq<StoredTaskView> {
    remove_task_view(ts, name).push(StoredTaskView { name, definition })
}

/// The host as one invocation of the operation sees it: the registration
/// database, the ambient user identity, the task store, the status every
/// native call will return, and the recorded acquire/release events.
pub struct SchedulerHost {
    pub class_table: TableReading,
    pub interface_table: TableReading,
    pub user_domain: Option<String>,
    pub user_name: Option<String>,
    pub tasks: Vec<StoredTask>,
    pub events: Vec<HostEvent>,
    pub register_returns_null: bool,
    pub hr_init: i32,
    pub hr_security: i32,
    pub hr_create_instance: i32,
    pub hr_connect: i32,
    pub hr_get_folder: i32,
    pub hr_new_task: i32,
    pub hr_get_registration_info: i32,
    pub hr_put_author: i32,
    pub hr_get_settings: i32,
    pub hr_put_start_when_available: i32,
    pub hr_get_triggers: i32,
    pub hr_create_trigger: i32,
    pub hr_query_logon_trigger: i32,
    pub hr_put_trigger_id: i32,
    pub hr_put_start_boundary: i32,
    pub hr_put_end_boundary: i32,
    pub hr_put_user_id: i32,
    pub hr_get_actions: i32,
    pub hr_create_action: i32,
    pub hr_query_exec_action: i32,
    pub hr_put_path: i32,
    pub hr_put_arguments: i32,
    pub hr_register: i32,
}

impl SchedulerHost {
    /// The planned part of the host: everything but the store and the events.
    pub open spec fn same_plan(self, other: SchedulerHost) -> bool {
        other == (SchedulerHost { tasks: other.tasks, events: other.events, ..self })
    }

    /// Record that a native call handed the operation a live handle.
    pub fn record_acquired(&mut self, k: HandleKind)
        ensures
            final(self).events@ == old(self).events@.push(HostEvent::Acquired(k)),
            *final(self) == (SchedulerHost { events: final(self).events, ..*old(self) }),
    {
        self.events.push(HostEvent::Acquired(k));
    }

    /// Record that the operation released a handle it held.
    pub fn record_released(&mut self, k: HandleKind)
        ensures
            final(self).events@ == old(self).events@.push(HostEvent::Released(k)),
            *final(self) == (SchedulerHost { events: final(self).events, ..*old(self) }),
    {
        self.events.push(HostEvent::Released(k));
    }

    /// Best-effort deletion of any stored task of the given name; its own
    /// failure is ignored by the operation, so the model keeps no status.
    pub fn delete_task(&mut self, name: &str)
        ensures
            store_view(final(self).tasks@) == remove_task_view(
                store_view(old(self).tasks@),
                name@,
            ),
            *final(self) == (SchedulerHost { tasks: final(self).tasks, ..*old(self) }),
    {
        let n = self.tasks.len();
        let mut kept: Vec<StoredTask> = Vec::new();
        let mut i: usize = 0;
        while i < n
            invariant
                i <= n,
                n == self.tasks@.len(),
                store_view(kept@) == remove_task_view(
                    store_view(self.tasks@.subrange(0, i as int)),
                    name@,
                ),
            decreases n - i,
        {
            let ghost prefix = self.tasks@.subrange(0, i as int);
            assert(self.tasks@.subrange(0, i + 1).drop_last() =~= prefix);
            assert(store_view(self.tasks@.subrange(0, i + 1)).drop_last() =~= store_view(
                prefix,
            ));
            let keep = !crate::text::str_eq(self.tasks[i].name.as_str(), name);
            if keep {
                let t = self.tasks[i].clone();
                kept.push(t);
            }
            assert(store_view(kept@) =~= remove_task_view(
                store_view(self.tasks@.subrange(0, i + 1)),
                name@,
            ));
            i = i + 1;
        }
        assert(self.tasks@.subrange(0, n as int) =~= self.tasks@);
        self.tasks = kept;
    }

    /// The host's create-or-update registration entry point: on success the
    /// definition replaces any stored task of the same name, and the returned
    /// registered-task handle (when the host populates one) is recorded as
    /// acquired.
    pub fn register_task_definition(&mut self, name: &str, definition: TaskDefinition) -> (hr:
        i32)
        ensures
            hr == old(self).hr_register,
            hr == 0 ==> store_view(final(self).tasks@) == register_task_view(
                store_view(old(self).tasks@),
                name@,
                definition@,
            ),
            hr == 0 && !old(self).register_returns_null ==> final(self).events@ == old(
                self,
            ).events@.push(HostEvent::Acquired(HandleKind::RegisteredTask)),
            hr == 0 && old(self).register_returns_null ==> final(self).events@ == old(
                self,
            ).events@,
            hr != 0 ==> final(self).tasks@ == old(self).tasks@ && final(self).events@ == old(
                self,
            ).events@,
            *final(self) == (SchedulerHost {
                tasks: final(self).tasks,
                events: final(self).events,
                ..*old(self)
            }),
    {
        let hr = self.hr_register;
        if hr == 0 {
            self.delete_task(name);
            let entry = StoredTask { name: name.to_owned(), definition };
            self.tasks.push(entry);
            assert(store_view(self.tasks@) =~= register_task_view(
                store_view(old(self).tasks@),
                name@,
                definition@,
            ));
            if !self.register_returns_null {
                self.record_acquired(HandleKind::RegisteredTask);
            }
        }
        hr
    }
}

/// Removing a name twice removes it once: deletion is idempotent.
pub proof fn lemma_remove_task_idempotent(ts: Seq<StoredTaskView>, name: Seq<char>)
    ensures
        remove_task_view(remove_task_view(ts, name), name) == remove_task_view(ts, name),
    decreases ts.len(),
{
    if ts.len() > 0 {
        lemma_remove_task_idempotent(ts.drop_last(), name);
        if ts.last().name == name {
            assert(remove_task_view(ts, name) =~= remove_task_view(ts.drop_last(), name));
        } else {
            let inner = remove_task_view(ts.drop_last(), name);
            assert(remove_task_view(ts, name) =~= inner.push(ts.last()));
            assert(inner.push(ts.last()).drop_last() =~= inner);
            assert(inner.push(ts.last()).last() == ts.last());
            assert(remove_task_view(inner.push(ts.last()), name) =~= remove_task_view(
                inner,
                name,
            ).push(ts.last()));
        }
    }
}

/// Registering under a name and then removing that name empties the entry;
/// registering twice under the same name keeps exactly the second definition.
pub proof fn lemma_register_task_replaces(
    ts: Seq<StoredTaskView>,
    name: Seq<char>,
    d1: TaskDefinitionView,
    d2: TaskDefinitionView,
)
    ensures
        register_task_view(
            remove_task_view(register_task_view(ts, name, d1), name),
            name,
            d2,
        ) == register_task_view(ts, name, d2),
        remove_task_view(register_task_view(ts, name, d1), name) == remove_task_view(ts, name),
{
    lemma_remove_task_idempotent(ts, name);
    let r = remove_task_view(ts, name);
    assert(register_task_view(ts, name, d1).drop_last() =~= r);
    assert(remove_task_view(register_task_view(ts, name, d1), name) =~= remove_task_view(
        r,
        name,
    ));
}

} // verus!
