//! Instances: product data directories, each a separate working environment.
use vstd::prelude::*;
use crate::account_types::copy_opt;

verus! {

/// One TRAE instance (a data directory of its own).
#[derive(Debug, Clone, PartialEq, Eq)]
pub struct TraeInstance {
    pub id: String,
    /// The user's name for the instance.
    pub name: String,
    /// Absolute path of the data directory.
    pub data_dir: String,
    /// Whether this is the default instance (the product's own data directory).
    pub is_default: bool,
    /// The bound account's id, if any.
    pub bound_account_id: Option<String>,
    /// The instance's machine code, if one was set.
    pub machine_id: Option<String>,
    /// The user's note.
    pub note: Option<String>,
    pub created_at: i64,
    pub updated_at: i64,
    /// When the instance was last launched (0: never).
    pub last_launched_at: i64,
}

/// The stored list of instances.
#[derive(Debug, Clone, PartialEq, Eq, Default)]
pub struct InstanceStore {
    pub instances: Vec<TraeInstance>,
}

/// The brief form of an instance shown in lists, with what is known at run time.
#[derive(Debug, Clone, PartialEq, Eq)]
pub struct InstanceBrief {
    pub id: String,
    pub name: String,
    pub data_dir: String,
    pub is_default: bool,
    pub bound_account_id: Option<String>,
    pub bound_account_email: Option<String>,
    pub bound_account_name: Option<String>,
    pub bound_account_avatar: Option<String>,
    pub bound_account_note: Option<String>,
    pub note: Option<String>,
    pub machine_id: Option<String>,
    pub created_at: i64,
    pub last_launched_at: i64,
    /// Bytes used by the data directory (0 where not yet measured).
    pub disk_usage: u64,
    pub is_running: bool,
    /// The process id read from `code.lock`, while running.
    pub pid: Option<u32>,
}

impl TraeInstance {
    /// A new instance with the given id, created and updated at `now`, never launched,
    /// unbound, without machine code or note.
    pub fn new(id: String, name: String, data_dir: String, is_default: bool, now: i64) -> (r:
        TraeInstance)
        ensures
            r.id == id,
            r.name == name,
            r.data_dir == data_dir,
            r.is_default == is_default,
            r.bound_account_id is None,
            r.machine_id is None,
            r.note is None,
            r.created_at == now,
            r.updated_at == now,
            r.last_launched_at == 0,
    {
        TraeInstance {
            id,
            name,
            data_dir,
            is_default,
            bound_account_id: None,
            machine_id: None,
            note: None,
            created_at: now,
            updated_at: now,
            last_launched_at: 0,
        }
    }

    /// A field-by-field copy.
    pub fn copy(&self) -> (r: TraeInstance)
        ensures
            r == *self,
    {
        TraeInstance {
            id: self.id.clone(),
            name: self.name.clone(),
            data_dir: self.data_dir.clone(),
            is_default: self.is_default,
            bound_account_id: copy_opt(&self.bound_account_id),
            machine_id: copy_opt(&self.machine_id),
            note: copy_opt(&self.note),
            created_at: self.created_at,
            updated_at: self.updated_at,
            last_launched_at: self.last_launched_at,
        }
    }
}

} // verus!
