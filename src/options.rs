use vstd::prelude::*;

verus! {

/// Which members of a replica set an operation may be sent to.
#[derive(Debug, Clone, Copy, PartialEq, Eq, Structural)]
pub enum SelectionCriteria {
    Primary,
    PrimaryPreferred,
    Secondary,
    SecondaryPreferred,
    Nearest,
}

/// The consistency level that reads ask for.
#[derive(Debug, Clone, Copy, PartialEq, Eq, Structural)]
pub enum ReadConcern {
    Local,
    Majority,
    Linearizable,
    Available,
    Snapshot,
}

/// The acknowledgement that writes ask for.
#[derive(Debug, Clone, Copy, PartialEq, Eq, Structural)]
pub struct WriteConcern {
    /// Number of members that must acknowledge; `None` asks for a majority.
    pub w: Option<u32>,
    /// Whether the write must reach the on-disk journal first.
    pub journal: Option<bool>,
}

/// How a client is configured.
#[derive(Debug)]
pub struct ClientOptions {
    /// The host list, as written in the connection string.
    pub hosts: String,
    /// The database that `default_database` hands out.
    pub default_database: Option<String>,
    pub selection_criteria: Option<SelectionCriteria>,
    pub read_concern: Option<ReadConcern>,
    pub write_concern: Option<WriteConcern>,
}

/// Options of a database handle; a field left `None` falls back to the client's.
#[derive(Debug, Clone, Copy, PartialEq, Eq, Structural)]
pub struct DatabaseOptions {
    pub selection_criteria: Option<SelectionCriteria>,
    pub read_concern: Option<ReadConcern>,
    pub write_concern: Option<WriteConcern>,
}

/// Options of a session.
#[derive(Debug, Clone, Copy, PartialEq, Eq, Structural)]
pub struct SessionOptions {
    pub causal_consistency: Option<bool>,
    pub snapshot: Option<bool>,
}

/// Options of a change stream.
#[derive(Debug, Clone, Copy, PartialEq, Eq, Structural)]
pub struct ChangeStreamOptions {
    pub batch_size: Option<u32>,
    pub full_document: Option<bool>,
}

/// What the cluster reports of one database.
#[derive(Debug)]
pub struct DatabaseSpecification {
    pub name: String,
    pub size_on_disk: u64,
    pub empty: bool,
}

/// A filter on database listings; each field that is `Some` must match.
#[derive(Debug)]
pub struct DatabaseFilter {
    pub name: Option<String>,
    pub empty: Option<bool>,
}

/// Whether database `d` passes filter `f`.
pub open spec fn passes(f: Option<DatabaseFilter>, d: DatabaseSpecification) -> bool {
    match f {
        None => true,
        Some(f) => (match f.name {
            None => true,
            Some(n) => n@ == d.name@,
        }) && (match f.empty {
            None => true,
            Some(e) => e == d.empty,
        }),
    }
}

/// The databases of `catalog` that pass `f`, in catalogue order.
pub open spec fn selected(catalog: Seq<DatabaseSpecification>, f: Option<DatabaseFilter>) -> Seq<
    DatabaseSpecification,
>
    decreases catalog.len(),
{
    if catalog.len() == 0 {
        Seq::empty()
    } else {
        let rest = selected(catalog.drop_last(), f);
        if passes(f, catalog.last()) {
            rest.push(catalog.last())
        } else {
            rest
        }
    }
}

/// The names of a sequence of database descriptions.
pub open spec fn names_of(dbs: Seq<DatabaseSpecification>) -> Seq<Seq<char>> {
    dbs.map_values(|d: DatabaseSpecification| d.name@)
}

impl DatabaseFilter {
    /// Whether database `d` passes this filter.
    pub fn passes(&self, d: &DatabaseSpecification) -> (r: bool)
        ensures
            r == passes(Some(*self), *d),
    {
        let name_ok = match &self.name {
            None => true,
            Some(n) => *n == d.name,
        };
        let empty_ok = match self.empty {
            None => true,
            Some(e) => e == d.empty,
        };
        name_ok && empty_ok
    }
}

impl DatabaseSpecification {
    /// A field-for-field copy.
    pub fn duplicate(&self) -> (r: DatabaseSpecification)
        ensures
            r == *self,
    {
        DatabaseSpecification { name: self.name.clone(), size_on_disk: self.size_on_disk, empty: self.empty }
    }
}

} // verus!
