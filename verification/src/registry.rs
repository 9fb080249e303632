//! Resolution of the scheduler's class and interface identifiers by linear
//! scan of a registration database handed in as plain data: two tables whose
//! entries each carry a key name and a human-readable display value.

use vstd::prelude::*;
use crate::guid::{parse_guid, spec_parse_guid, FormatError, Guid};
use crate::text::{spec_contains, str_contains};

verus! {

/// One enumerated child of a registration table: either its key name and
/// default display value, or the host's message when opening it failed.
#[derive(Debug)]
pub enum EntryReading {
    Readable { key: String, display: String },
    Unreadable { message: String },
}

/// One registration table as read from the host: its children in enumeration
/// order, or the host's message when the table itself could not be opened.
#[derive(Debug)]
pub enum TableReading {
    Table { entries: Vec<EntryReading> },
    Unopenable { message: String },
}

/// The identifiers the operation needs, resolved once per invocation.
#[derive(Clone, Copy, Debug, PartialEq, Eq)]
pub struct ServiceIdentifiers {
    pub service_class_id: Guid,
    pub service_interface_id: Guid,
}

/// Outcome of scanning one table for a display value containing a pattern.
#[derive(Debug)]
pub enum ScanOutcome {
    /// Key name of the first entry, in enumeration order, whose display value
    /// contains the pattern.
    Found { key: String },
    /// The table could not be opened.
    TableUnreadable { message: String },
    /// An enumerated child before any match could not be opened.
    ChildUnreadable { message: String },
    /// Every child was readable and none matched.
    NotFound,
}

/// Why identifier resolution failed.
#[derive(Debug)]
pub enum LookupError {
    /// A table or one of its children could not be read; carries the host's
    /// own message.
    Unreadable { message: String },
    ClassNotFound,
    InterfaceNotFound,
    /// A matched key name was not a well-formed textual identifier.
    Format { error: FormatError },
}

impl LookupError {
    pub open spec fn spec_message(self) -> Seq<char> {
        match self {
            LookupError::Unreadable { message } => message@,
            LookupError::ClassNotFound => "TaskScheduler CLSID not found"@,
            LookupError::InterfaceNotFound => "ITaskService IID not found"@,
            LookupError::Format { error } => error.spec_message(),
        }
    }

    /// The failure text of this lookup error.
    pub fn message(&self) -> (r: String)
        ensures
            r@ == self.spec_message(),
    {
        match self {
            LookupError::Unreadable { message } => message.clone(),
            LookupError::ClassNotFound => "TaskScheduler CLSID not found".to_owned(),
            LookupError::InterfaceNotFound => "ITaskService IID not found".to_owned(),
            LookupError::Format { error } => error.message(),
        }
    }
}

/// The scan of a sequence of children for the first display value containing
/// `pattern`: stops at the first match or at the first unreadable child.
pub open spec fn spec_scan(entries: Seq<EntryReading>, pattern: Seq<char>) -> ScanOutcome
    decreases entries.len(),
{
    if entries.len() == 0 {
        ScanOutcome::NotFound
    } else {
        match entries[0] {
            EntryReading::Unreadable { message } => ScanOutcome::ChildUnreadable { message },
            EntryReading::Readable { key, display } => {
                if spec_contains(display@, pattern) {
                    ScanOutcome::Found { key }
                } else {
                    spec_scan(entries.drop_first(), pattern)
                }
            },
        }
    }
}

pub open spec fn spec_scan_table(table: TableReading, pattern: Seq<char>) -> ScanOutcome {
    match table {
        TableReading::Unopenable { message } => ScanOutcome::TableUnreadable { message },
        TableReading::Table { entries } => spec_scan(entries@, pattern),
    }
}

fn scan_entries(entries: &Vec<EntryReading>, pattern: &str) -> (r: ScanOutcome)
    ensures
        r == spec_scan(entries@, pattern@),
{
    let n = entries.len();
    assert(entries@.skip(0) =~= entries@);
    let mut i: usize = 0;
    while i < n
        invariant
            i <= n,
            n == entries@.len(),
            spec_scan(entries@, pattern@) == spec_scan(entries@.skip(i as int), pattern@),
        decreases n - i,
    {
        assert(entries@.skip(i as int)[0] == entries@[i as int]);
        assert(entries@.skip(i as int).len() > 0);
        match &entries[i] {
            EntryReading::Unreadable { message } => {
                assert(entries@[i as int] matches EntryReading::Unreadable { message: m }
                    ==> spec_scan(entries@, pattern@) == (ScanOutcome::ChildUnreadable {
                    message: m,
                }));
                return ScanOutcome::ChildUnreadable { message: message.clone() };
            },
            EntryReading::Readable { key, display } => {
                if str_contains(display.as_str(), pattern) {
                    assert(entries@[i as int] matches EntryReading::Readable {
                        key: k,
                        display: d,
                    } ==> spec_contains(d@, pattern@) && spec_scan(entries@, pattern@)
                        == (ScanOutcome::Found { key: k }));
                    return ScanOutcome::Found { key: key.clone() };
                }
                assert(entries@.skip(i as int).drop_first() =~= entries@.skip(i + 1));
            },
        }
        i = i + 1;
    }
    assert(entries@.skip(n as int) =~= Seq::<EntryReading>::empty());
    ScanOutcome::NotFound
}

/// Scan one registration table for the first entry whose display value
/// contains `pattern`, in the host's enumeration order.
pub fn scan_table(table: &TableReading, pattern: &str) -> (r: ScanOutcome)
    ensures
        r == spec_scan_table(*table, pattern@),
{
    match table {
        TableReading::Unopenable { message } => ScanOutcome::TableUnreadable {
            message: message.clone(),
        },
        TableReading::Table { entries } => scan_entries(entries, pattern),
    }
}

/// The resolution of both identifiers, stated over the two tables as read.
///
/// The class table is scanned for a display value containing "TaskScheduler"
/// and the interface table for one containing "ITaskService"; the two matched
/// key names are then parsed, class first.
pub open spec fn spec_find_task_scheduler_guids(
    class_table: TableReading,
    interface_table: TableReading,
) -> Result<ServiceIdentifiers, LookupError> {
    match spec_scan_table(class_table, "TaskScheduler"@) {
        ScanOutcome::TableUnreadable { message } => Err(LookupError::Unreadable { message }),
        ScanOutcome::ChildUnreadable { message } => Err(LookupError::Unreadable { message }),
        ScanOutcome::NotFound => Err(LookupError::ClassNotFound),
        ScanOutcome::Found { key: class_key } => {
            match spec_scan_table(interface_table, "ITaskService"@) {
                ScanOutcome::TableUnreadable { message } => Err(
                    LookupError::Unreadable { message },
                ),
                ScanOutcome::ChildUnreadable { message } => Err(
                    LookupError::Unreadable { message },
                ),
                ScanOutcome::NotFound => Err(LookupError::InterfaceNotFound),
                ScanOutcome::Found { key: interface_key } => {
                    match spec_parse_guid(class_key@) {
                        Err(e) => Err(LookupError::Format { error: e }),
                        Ok(class_id) => match spec_parse_guid(interface_key@) {
                            Err(e) => Err(LookupError::Format { error: e }),
                            Ok(interface_id) => Ok(
                                ServiceIdentifiers {
                                    service_class_id: class_id,
                                    service_interface_id: interface_id,
                                },
                            ),
                        },
                    }
                },
            }
        },
    }
}

/// Resolve the scheduling service's class and interface identifiers from the
/// two registration tables.
pub fn find_task_scheduler_guids(
    class_table: &TableReading,
    interface_table: &TableReading,
) -> (r: Result<ServiceIdentifiers, LookupError>)
    ensures
        r == spec_find_task_scheduler_guids(*class_table, *interface_table),
{
    let class_key = match scan_table(class_table, "TaskScheduler") {
        ScanOutcome::TableUnreadable { message } => {
            return Err(LookupError::Unreadable { message });
        },
        ScanOutcome::ChildUnreadable { message } => {
            return Err(LookupError::Unreadable { message });
        },
        ScanOutcome::NotFound => {
            return Err(LookupError::ClassNotFound);
        },
        ScanOutcome::Found { key } => key,
    };
    let interface_key = match scan_table(interface_table, "ITaskService") {
        ScanOutcome::TableUnreadable { message } => {
            return Err(LookupError::Unreadable { message });
        },
        ScanOutcome::ChildUnreadable { message } => {
            return Err(LookupError::Unreadable { message });
        },
        ScanOutcome::NotFound => {
            return Err(LookupError::InterfaceNotFound);
        },
        ScanOutcome::Found { key } => key,
    };
    let class_id = match parse_guid(class_key.as_str()) {
        Err(e) => {
            return Err(LookupError::Format { error: e });
        },
        Ok(g) => g,
    };
    let interface_id = match parse_guid(interface_key.as_str()) {
        Err(e) => {
            return Err(LookupError::Format { error: e });
        },
        Ok(g) => g,
    };
    Ok(ServiceIdentifiers { service_class_id: class_id, service_interface_id: interface_id })
}

/// A table whose children are all readable and none of whose display values
/// contains the pattern scans to `NotFound`.
pub proof fn lemma_scan_not_found(entries: Seq<EntryReading>, pattern: Seq<char>)
    requires
        forall|i: int| 0 <= i < entries.len() ==> (#[trigger] entries[i] matches
            EntryReading::Readable { key, display } && !spec_contains(display@, pattern)),
    ensures
        spec_scan(entries, pattern) == ScanOutcome::NotFound,
    decreases entries.len(),
{
    if entries.len() > 0 {
        assert(entries[0] matches EntryReading::Readable { key, display } && !spec_contains(
            display@,
            pattern,
        ));
        assert(spec_scan(entries, pattern) == spec_scan(entries.drop_first(), pattern));
        lemma_scan_not_found(entries.drop_first(), pattern);
    }
}

/// Resolution names the identifier that was not found: a class table with no
/// matching display value fails as the class lookup, and a matched class with
/// no matching interface entry fails as the interface lookup.
pub proof fn lemma_resolution_names_missing_identifier(
    class_table: TableReading,
    interface_table: TableReading,
)
    ensures
        (class_table matches TableReading::Table { entries } && spec_scan(
            entries@,
            "TaskScheduler"@,
        ) == ScanOutcome::NotFound) ==> spec_find_task_scheduler_guids(
            class_table,
            interface_table,
        ) == Err::<ServiceIdentifiers, LookupError>(LookupError::ClassNotFound),
        (spec_scan_table(class_table, "TaskScheduler"@) matches ScanOutcome::Found { key }
            && interface_table matches TableReading::Table { entries } && spec_scan(
            entries@,
            "ITaskService"@,
        ) == ScanOutcome::NotFound) ==> spec_find_task_scheduler_guids(
            class_table,
            interface_table,
        ) == Err::<ServiceIdentifiers, LookupError>(LookupError::InterfaceNotFound),
{
}

} // verus!
