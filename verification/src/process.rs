//! The task record and its best-effort builder.
//!
//! A record is built field by field from independently read raw values:
//! every field but the identifier is optional during construction, and
//! finalization substitutes a documented default for each field whose
//! read failed. A failure on one field never discards the whole record.

use vstd::prelude::*;
use crate::discovery::{collect_ids, id_list_of, lemma_id_list_props};
use crate::errors::ScanError;
use crate::trim::{trim_str, trimmed};

verus! {

/// A task list is valid for the record of identifier `id`: it holds only
/// valid (non-negative) identifiers, never `id` itself, and no duplicates.
pub open spec fn tasks_ok(t: Seq<i32>, id: i32) -> bool {
    (forall|k: int| 0 <= k < t.len() ==> t[k] >= 0 && t[k] != id) && (forall|k1: int, k2: int|
        0 <= k1 < k2 < t.len() ==> t[k1] != t[k2])
}

/// One task record: the unit of output.
///
/// The identifier is always present and valid; the other fields are
/// best-effort and hold a documented sentinel when their read failed
/// (empty string for the name, -1 for the policy, 0 for the priority,
/// empty list for the child tasks).
#[derive(Debug)]
pub struct Process {
    pub name: String,
    pub id: i32,
    pub tasks: Vec<i32>,
    pub sched_policy: i32,
    pub rt_prio: i32,
}

/// Accumulator for a task record: each optional field is populated by an
/// independent fallible step and finalization substitutes defaults.
#[derive(Debug)]
pub struct ProcessBuilder {
    pub name: Option<String>,
    pub id: i32,
    pub tasks: Option<Vec<i32>>,
    pub sched_policy: Option<i32>,
    pub rt_prio: Option<i32>,
}

impl Process {
    /// Well-formedness of an emitted record: the identifier is valid and
    /// the task list is valid for it.
    pub open spec fn wf(self) -> bool {
        self.id >= 0 && tasks_ok(self.tasks@, self.id)
    }

    pub fn name(&self) -> (r: &str)
        ensures
            r@ == self.name@,
    {
        self.name.as_str()
    }

    pub fn id(&self) -> (r: i32)
        ensures
            r == self.id,
    {
        self.id
    }

    pub fn sched_policy(&self) -> (r: i32)
        ensures
            r == self.sched_policy,
    {
        self.sched_policy
    }

    pub fn rt_ptio(&self) -> (r: i32)
        ensures
            r == self.rt_prio,
    {
        self.rt_prio
    }

    /// A fresh builder with no field set and the placeholder identifier 0.
    pub fn builder() -> (r: ProcessBuilder)
        ensures
            r.id == 0,
            r.name is None,
            r.tasks is None,
            r.sched_policy is None,
            r.rt_prio is None,
            r.wf(),
    {
        ProcessBuilder { name: None, id: 0, tasks: None, sched_policy: None, rt_prio: None }
    }
}

impl ProcessBuilder {
    /// Well-formedness of an accumulator: the identifier is valid, and a
    /// task list, once set, is valid for it.
    pub open spec fn wf(self) -> bool {
        self.id >= 0 && (self.tasks matches Some(t) ==> tasks_ok(t@, self.id))
    }

    /// A fresh accumulator for a previously discovered identifier.
    pub fn new(id: i32) -> (r: Self)
        requires
            id >= 0,
        ensures
            r.id == id,
            r.name is None,
            r.tasks is None,
            r.sched_policy is None,
            r.rt_prio is None,
            r.wf(),
    {
        ProcessBuilder { name: None, id, tasks: None, sched_policy: None, rt_prio: None }
    }

    /// Sets the display name from the raw value read for this identifier,
    /// trimming surrounding whitespace. A failed read leaves the field
    /// unset: the failure is absorbed, never propagated.
    pub fn name(self, raw: Result<String, ScanError>) -> (r: Self)
        ensures
            r.id == self.id,
            r.tasks == self.tasks,
            r.sched_policy == self.sched_policy,
            r.rt_prio == self.rt_prio,
            raw matches Ok(s) ==> (r.name matches Some(nm) && nm@ == trimmed(s@)),
            raw is Err ==> r.name == self.name,
            self.wf() ==> r.wf(),
    {
        match raw {
            Ok(s) => {
                let nm = trim_str(s.as_str());
                ProcessBuilder {
                    name: Some(nm),
                    id: self.id,
                    tasks: self.tasks,
                    sched_policy: self.sched_policy,
                    rt_prio: self.rt_prio,
                }
            },
            Err(_) => self,
        }
    }

    /// Sets the scheduling-policy code from the raw query result. A
    /// failed query leaves the field unset: the failure is absorbed.
    pub fn sched_policy(self, raw: Result<i32, ScanError>) -> (r: Self)
        ensures
            r.id == self.id,
            r.name == self.name,
            r.tasks == self.tasks,
            r.rt_prio == self.rt_prio,
            raw matches Ok(v) ==> r.sched_policy == Some(v),
            raw is Err ==> r.sched_policy == self.sched_policy,
            self.wf() ==> r.wf(),
    {
        match raw {
            Ok(v) => ProcessBuilder {
                name: self.name,
                id: self.id,
                tasks: self.tasks,
                sched_policy: Some(v),
                rt_prio: self.rt_prio,
            },
            Err(_) => self,
        }
    }

    /// Sets the real-time priority from the raw query result. A failed
    /// query leaves the field unset: the failure is absorbed.
    pub fn rt_prio(self, raw: Result<i32, ScanError>) -> (r: Self)
        ensures
            r.id == self.id,
            r.name == self.name,
            r.tasks == self.tasks,
            r.sched_policy == self.sched_policy,
            raw matches Ok(v) ==> r.rt_prio == Some(v),
            raw is Err ==> r.rt_prio == self.rt_prio,
            self.wf() ==> r.wf(),
    {
        match raw {
            Ok(v) => ProcessBuilder {
                name: self.name,
                id: self.id,
                tasks: self.tasks,
                sched_policy: self.sched_policy,
                rt_prio: Some(v),
            },
            Err(_) => self,
        }
    }

    /// Sets the child-task list from the raw directory listing read for
    /// this identifier: entries that parse as valid identifiers are kept,
    /// the identifier itself and duplicates are excluded. A failed read
    /// leaves the field unset: the failure is absorbed.
    pub fn tasks(self, entries: Result<Vec<String>, ScanError>) -> (r: Self)
        ensures
            r.id == self.id,
            r.name == self.name,
            r.sched_policy == self.sched_policy,
            r.rt_prio == self.rt_prio,
            entries matches Ok(list) ==> (r.tasks matches Some(t) && t@ == id_list_of(
                list@,
                self.id,
            )),
            entries is Err ==> r.tasks == self.tasks,
            self.wf() ==> r.wf(),
    {
        match entries {
            Ok(list) => {
                let ids = collect_ids(&list, self.id);
                proof {
                    lemma_id_list_props(list@, self.id);
                }
                ProcessBuilder {
                    name: self.name,
                    id: self.id,
                    tasks: Some(ids),
                    sched_policy: self.sched_policy,
                    rt_prio: self.rt_prio,
                }
            },
            Err(_) => self,
        }
    }

    /// Finalizes the accumulator into a concrete record, substituting the
    /// documented default for every field whose read failed: empty name,
    /// policy -1, priority 0, empty task list. The identifier is always
    /// carried over, so finalization never fails.
    pub fn build(self) -> (p: Process)
        ensures
            p.id == self.id,
            self.name matches Some(nm) ==> p.name == nm,
            self.name is None ==> p.name@ == Seq::<char>::empty(),
            self.sched_policy matches Some(v) ==> p.sched_policy == v,
            self.sched_policy is None ==> p.sched_policy == -1,
            self.rt_prio matches Some(v) ==> p.rt_prio == v,
            self.rt_prio is None ==> p.rt_prio == 0,
            self.tasks matches Some(t) ==> p.tasks == t,
            self.tasks is None ==> p.tasks@ == Seq::<i32>::empty(),
            self.wf() ==> p.wf(),
    {
        let ProcessBuilder { name, id, tasks, sched_policy, rt_prio } = self;
        let name = match name {
            Some(n) => n,
            None => String::new(),
        };
        let sched_policy = match sched_policy {
            Some(v) => v,
            None => -1,
        };
        let rt_prio = match rt_prio {
            Some(v) => v,
            None => 0,
        };
        let tasks = match tasks {
            Some(t) => t,
            None => Vec::new(),
        };
        Process { name, id, tasks, sched_policy, rt_prio }
    }
}

/// Builds one best-effort task record for a discovered identifier from
/// the four independently read raw values. Each failed read is absorbed
/// into its documented default; no combination of per-field failures
/// prevents the record from being produced, and the record always carries
/// the given identifier.
pub fn assemble_task(
    id: i32,
    name_raw: Result<String, ScanError>,
    policy_raw: Result<i32, ScanError>,
    prio_raw: Result<i32, ScanError>,
    task_entries: Result<Vec<String>, ScanError>,
) -> (p: Process)
    requires
        id >= 0,
    ensures
        p.id == id,
        p.wf(),
        name_raw matches Ok(s) ==> p.name@ == trimmed(s@),
        name_raw is Err ==> p.name@ == Seq::<char>::empty(),
        policy_raw matches Ok(v) ==> p.sched_policy == v,
        policy_raw is Err ==> p.sched_policy == -1,
        prio_raw matches Ok(v) ==> p.rt_prio == v,
        prio_raw is Err ==> p.rt_prio == 0,
        task_entries matches Ok(list) ==> p.tasks@ == id_list_of(list@, id),
        task_entries is Err ==> p.tasks@ == Seq::<i32>::empty(),
{
    ProcessBuilder::new(id).name(name_raw).sched_policy(policy_raw).rt_prio(prio_raw).tasks(
        task_entries,
    ).build()
}

} // verus!
