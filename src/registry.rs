//! The stores and workflows that a run can name, looked up by name.

use vstd::prelude::*;

use crate::text::same_text;

verus! {

/// The lowercase form of a text, as `str::to_lowercase` gives it.
pub uninterp spec fn lower_of(s: Seq<char>) -> Seq<char>;

/// Relies on `str::to_lowercase`: the lowercase mapping of each character,
/// which depends on the characters alone.
#[verifier::external_body]
fn lowercase(s: &str) -> (r: String)
    ensures
        r@ == lower_of(s@),
{
    s.to_lowercase()
}

/// The event stores that a run can target.
#[derive(Debug, Clone, Copy, PartialEq, Eq, Structural)]
pub enum StoreKind {
    Dummy,
    UmaDb,
    KurrentDb,
    AxonServer,
    EventsourcingDb,
}

/// The store of a name, matched exactly.
pub open spec fn store_of(name: Seq<char>) -> Option<StoreKind> {
    if name == "dummy"@ {
        Some(StoreKind::Dummy)
    } else if name == "umadb"@ {
        Some(StoreKind::UmaDb)
    } else if name == "kurrentdb"@ {
        Some(StoreKind::KurrentDb)
    } else if name == "axonserver"@ {
        Some(StoreKind::AxonServer)
    } else if name == "eventsourcingdb"@ {
        Some(StoreKind::EventsourcingDb)
    } else {
        None
    }
}

/// The name of a store.
pub open spec fn store_name_of(k: StoreKind) -> Seq<char> {
    match k {
        StoreKind::Dummy => "dummy"@,
        StoreKind::UmaDb => "umadb"@,
        StoreKind::KurrentDb => "kurrentdb"@,
        StoreKind::AxonServer => "axonserver"@,
        StoreKind::EventsourcingDb => "eventsourcingdb"@,
    }
}

impl StoreKind {
    /// The store of a name, matched exactly.
    pub fn named(name: &str) -> (r: Option<StoreKind>)
        ensures
            r == store_of(name@),
    {
        if same_text(name, "dummy") {
            Some(StoreKind::Dummy)
        } else if same_text(name, "umadb") {
            Some(StoreKind::UmaDb)
        } else if same_text(name, "kurrentdb") {
            Some(StoreKind::KurrentDb)
        } else if same_text(name, "axonserver") {
            Some(StoreKind::AxonServer)
        } else if same_text(name, "eventsourcingdb") {
            Some(StoreKind::EventsourcingDb)
        } else {
            None
        }
    }

    /// The name of the store.
    pub fn name(&self) -> (r: &'static str)
        ensures
            r@ == store_name_of(*self),
    {
        match self {
            StoreKind::Dummy => "dummy",
            StoreKind::UmaDb => "umadb",
            StoreKind::KurrentDb => "kurrentdb",
            StoreKind::AxonServer => "axonserver",
            StoreKind::EventsourcingDb => "eventsourcingdb",
        }
    }
}

/// Resolves a store name as given by a user: in lowercase, then matched.
/// Returns the lowercase name and the store it names, if any.
pub fn resolve_store(name: &str) -> (r: (String, Option<StoreKind>))
    ensures
        r.0@ == lower_of(name@),
        r.1 == store_of(lower_of(name@)),
{
    let lowered = lowercase(name);
    let kind = StoreKind::named(lowered.as_str());
    (lowered, kind)
}

/// The load patterns that a run can follow.
#[derive(Debug, Clone, Copy, PartialEq, Eq, Structural)]
pub enum WorkflowKind {
    ConcurrentWriters,
    ConcurrentReaders,
}

/// The workflow of a name, matched exactly.
pub open spec fn workflow_of(name: Seq<char>) -> Option<WorkflowKind> {
    if name == "concurrent_writers"@ {
        Some(WorkflowKind::ConcurrentWriters)
    } else if name == "concurrent_readers"@ {
        Some(WorkflowKind::ConcurrentReaders)
    } else {
        None
    }
}

/// The name of a workflow.
pub open spec fn workflow_name_of(k: WorkflowKind) -> Seq<char> {
    match k {
        WorkflowKind::ConcurrentWriters => "concurrent_writers"@,
        WorkflowKind::ConcurrentReaders => "concurrent_readers"@,
    }
}

impl WorkflowKind {
    /// The workflow of a name, matched exactly.
    pub fn named(name: &str) -> (r: Option<WorkflowKind>)
        ensures
            r == workflow_of(name@),
    {
        if same_text(name, "concurrent_writers") {
            Some(WorkflowKind::ConcurrentWriters)
        } else if same_text(name, "concurrent_readers") {
            Some(WorkflowKind::ConcurrentReaders)
        } else {
            None
        }
    }

    /// The name of the workflow.
    pub fn name(&self) -> (r: &'static str)
        ensures
            r@ == workflow_name_of(*self),
    {
        match self {
            WorkflowKind::ConcurrentWriters => "concurrent_writers",
            WorkflowKind::ConcurrentReaders => "concurrent_readers",
        }
    }
}

/// Resolves a workflow name as given by a user: in lowercase, then matched.
pub fn resolve_workflow(name: &str) -> (r: Option<WorkflowKind>)
    ensures
        r == workflow_of(lower_of(name@)),
{
    let lowered = lowercase(name);
    WorkflowKind::named(lowered.as_str())
}

} // verus!
