//! The verified core of a binding between an embedded, ordered key-value
//! storage engine and a host runtime.
//!
//! The engine itself, and the marshalling of values to and from the host
//! runtime, are outside this library. What is here is what the binding decides
//! and computes: how a native object is held together with the handle it
//! borrows from, which raw operation a cursor request leads to, how a write
//! batch is laid out, what the merge operators yield, and which failure is
//! reported for which outcome of the engine.
pub mod batching;
pub mod bin;
pub mod error;
pub mod iteration;
pub mod live_file;
pub mod merger;
pub mod open_opts;
pub mod read_opts;
pub mod resource;
pub mod write_opts;

use vstd::prelude::*;
use crate::error::{Error, ErrorView};
pub use crate::iteration::{SeekNext, SeekNextBin, SeekPrev};

verus! {

/// The value of a property of the database.
#[derive(Debug, PartialEq, Eq)]
pub enum Prop {
    String(String),
    Int(u64),
}

/// The value of a property as plain values.
pub enum PropView {
    String(Seq<char>),
    Int(u64),
}

impl View for Prop {
    type V = PropView;

    open spec fn view(&self) -> PropView {
        match self {
            Prop::String(text) => PropView::String(text@),
            Prop::Int(number) => PropView::Int(*number),
        }
    }
}

/// The kinds of handle through which a keyspace is reached.
#[derive(Clone, Copy, Debug, PartialEq, Eq, Structural)]
pub enum SoyResourceKind {
    /// A database.
    Db,
    /// A column family of a database.
    DbCf,
    /// A snapshot of a database.
    Ss,
    /// A column family as a snapshot shows it.
    SsCf,
}

/// A handle through which a keyspace is reached, of any kind.
#[derive(Debug, PartialEq, Eq)]
pub enum SoyResource<Db, DbCf, Ss, SsCf> {
    Db(Db),
    DbCf(DbCf),
    Ss(Ss),
    SsCf(SsCf),
}

impl<Db, DbCf, Ss, SsCf> SoyResource<Db, DbCf, Ss, SsCf> {
    /// The kind of this handle.
    pub fn kind(&self) -> (kind: SoyResourceKind)
        ensures
            kind == match self {
                SoyResource::Db(_) => SoyResourceKind::Db,
                SoyResource::DbCf(_) => SoyResourceKind::DbCf,
                SoyResource::Ss(_) => SoyResourceKind::Ss,
                SoyResource::SsCf(_) => SoyResourceKind::SsCf,
            },
    {
        match self {
            SoyResource::Db(_) => SoyResourceKind::Db,
            SoyResource::DbCf(_) => SoyResourceKind::DbCf,
            SoyResource::Ss(_) => SoyResourceKind::Ss,
            SoyResource::SsCf(_) => SoyResourceKind::SsCf,
        }
    }
}

/// Settles the lookup of a column family by name: the handle that the engine
/// found, or the failure that names the column family where it found none.
pub fn get_cf_handle<H>(found: Option<H>, name: &str) -> (result: Result<H, Error>)
    ensures
        found matches Some(handle) ==> result == Ok::<H, Error>(handle),
        found is None ==> (result matches Err(e) && e@ == ErrorView::ColumnFamilyDoesNotExist(
            name@,
        )),
{
    match found {
        Some(handle) => Ok(handle),
        None => Err(Error::ColumnFamilyDoesNotExist(name.to_owned())),
    }
}

/// Decides whether a column family of this name may be created: only where
/// none of that name is open. `present` tells whether the engine found one.
pub fn db_create_new_cf(present: bool, name: &str) -> (result: Result<(), Error>)
    ensures
        !present ==> result is Ok,
        present ==> (result matches Err(e) && e@ == ErrorView::ColumnFamilyAlreadyExists(name@)),
{
    if present {
        Err(Error::ColumnFamilyAlreadyExists(name.to_owned()))
    } else {
        Ok(())
    }
}

/// Settles the outcome of a write: success, or the failure that carries the
/// engine's account of it.
pub fn ok_or_err(outcome: Result<(), String>) -> (result: Result<(), Error>)
    ensures
        outcome is Ok ==> result is Ok,
        outcome matches Err(detail) ==> result == Err::<(), Error>(Error::WriteError(detail)),
{
    match outcome {
        Ok(_) => Ok(()),
        Err(detail) => Err(Error::WriteError(detail)),
    }
}

/// How a database is to be opened, given what is known of its column families.
#[derive(Debug, PartialEq, Eq)]
pub enum OpenPlan {
    /// Open the database together with the column families of these names.
    WithColumnFamilies(Vec<String>),
    /// Open the database with its default keyspace alone.
    DefaultOnly,
}

/// Decides how the database at a path is to be opened. `listed` is what the
/// engine answered when asked for the column families at that path: their
/// names, or a failure where it could not tell (as for a path that holds no
/// database yet). With the names, all of them are opened; without, the default
/// keyspace alone.
pub fn path_open_db<E>(listed: Result<Vec<String>, E>) -> (plan: OpenPlan)
    ensures
        plan == match listed {
            Ok(names) => OpenPlan::WithColumnFamilies(names),
            Err(_) => OpenPlan::DefaultOnly,
        },
{
    match listed {
        Ok(names) => OpenPlan::WithColumnFamilies(names),
        Err(_) => OpenPlan::DefaultOnly,
    }
}

/// Settles the outcome of opening a database: the engine's handle, or the
/// failure that carries the engine's account of it.
pub fn db_opened<D>(outcome: Result<D, String>) -> (result: Result<D, Error>)
    ensures
        outcome matches Ok(db) ==> result == Ok::<D, Error>(db),
        outcome matches Err(detail) ==> result == Err::<D, Error>(Error::OpenError(detail)),
{
    match outcome {
        Ok(db) => Ok(db),
        Err(detail) => Err(Error::OpenError(detail)),
    }
}

/// Whether two strings name the same path, as the standard library compares
/// paths: component by component.
pub uninterp spec fn same_path(a: Seq<char>, b: Seq<char>) -> bool;

/// Compares two strings as paths with `std::path::Path`'s equality. The result
/// depends on the two strings alone, and a string names the same path as
/// itself.
#[verifier::external_body]
fn paths_equal(a: &str, b: &str) -> (same: bool)
    ensures
        same == same_path(a@, b@),
        a@ == b@ ==> same,
{
    std::path::Path::new(a) == std::path::Path::new(b)
}

/// Decides whether a checkpoint may be made, given whether its target names
/// the path of the database itself: it may not where it does.
pub fn checkpoint_allowed(target_is_source: bool) -> (result: Result<(), Error>)
    ensures
        result == if target_is_source {
            Err::<(), Error>(Error::CheckpointInvalidArgument)
        } else {
            Ok::<(), Error>(())
        },
{
    if target_is_source {
        Err(Error::CheckpointInvalidArgument)
    } else {
        Ok(())
    }
}

/// Decides whether a checkpoint of the database at `db_path` may be made at
/// `checkpoint_path`: not where the two name the same path.
pub fn db_checkpoint(db_path: &str, checkpoint_path: &str) -> (result: Result<(), Error>)
    ensures
        result == if same_path(db_path@, checkpoint_path@) {
            Err::<(), Error>(Error::CheckpointInvalidArgument)
        } else {
            Ok::<(), Error>(())
        },
        db_path@ == checkpoint_path@ ==> result is Err,
{
    checkpoint_allowed(paths_equal(db_path, checkpoint_path))
}

/// What the lookup of a property as an integer settles.
#[derive(Debug, PartialEq, Eq)]
pub enum PropStep {
    /// The lookup is over: this is the property, if the database has it.
    Done(Option<Prop>),
    /// The property is no integer: it is to be looked up as a string.
    AskString,
}

/// Settles the lookup of a property as an integer. `value` is the engine's
/// answer: the integer, nothing where the database has no such property, or a
/// failure where the property is no integer.
pub fn do_get_property<E>(value: Result<Option<u64>, E>) -> (step: PropStep)
    ensures
        step == match value {
            Ok(Some(number)) => PropStep::Done(Some(Prop::Int(number))),
            Ok(None) => PropStep::Done(None),
            Err(_) => PropStep::AskString,
        },
{
    match value {
        Ok(Some(number)) => PropStep::Done(Some(Prop::Int(number))),
        Ok(None) => PropStep::Done(None),
        Err(_) => PropStep::AskString,
    }
}

/// Settles the lookup of a property as a string. `value` is the engine's
/// answer: the string, or nothing where the database has no such property.
pub fn do_get_string_property(value: Option<String>) -> (prop: Option<Prop>)
    ensures
        prop == match value {
            Some(text) => Some(Prop::String(text)),
            None => None,
        },
{
    match value {
        Some(text) => Some(Prop::String(text)),
        None => None,
    }
}

} // verus!
