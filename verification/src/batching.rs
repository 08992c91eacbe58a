//! Write batches: lists of put and delete operations, on the default keyspace
//! or on a named column family, that the engine commits as one atomic write.
use vstd::prelude::*;
use crate::bin::Bin;
use crate::error::Error;

verus! {

/// Stores a value under a key of the default keyspace.
#[derive(Debug, PartialEq, Eq)]
pub struct PutOp(pub Bin, pub Bin);

impl PutOp {
    /// The key to store under.
    pub fn key(&self) -> (key: &[u8])
        ensures
            key@ == self.0@,
    {
        self.0.as_bytes()
    }

    /// The value to store.
    pub fn val(&self) -> (val: &[u8])
        ensures
            val@ == self.1@,
    {
        self.1.as_bytes()
    }
}

/// Stores a value under a key of a named column family.
#[derive(Debug, PartialEq, Eq)]
pub struct PutCfOp(pub String, pub Bin, pub Bin);

impl PutCfOp {
    /// The name of the column family.
    pub fn name(&self) -> (name: &str)
        ensures
            name@ == self.0@,
    {
        self.0.as_str()
    }

    /// The key to store under.
    pub fn key(&self) -> (key: &[u8])
        ensures
            key@ == self.1@,
    {
        self.1.as_bytes()
    }

    /// The value to store.
    pub fn val(&self) -> (val: &[u8])
        ensures
            val@ == self.2@,
    {
        self.2.as_bytes()
    }
}

/// Removes a key of the default keyspace.
#[derive(Debug, PartialEq, Eq)]
pub struct DeleteOp(pub Bin);

impl DeleteOp {
    /// The key to remove.
    pub fn key(&self) -> (key: &[u8])
        ensures
            key@ == self.0@,
    {
        self.0.as_bytes()
    }
}

/// Removes a key of a named column family.
#[derive(Debug, PartialEq, Eq)]
pub struct DeleteCfOp(pub String, pub Bin);

impl DeleteCfOp {
    /// The name of the column family.
    pub fn name(&self) -> (name: &str)
        ensures
            name@ == self.0@,
    {
        self.0.as_str()
    }

    /// The key to remove.
    pub fn key(&self) -> (key: &[u8])
        ensures
            key@ == self.1@,
    {
        self.1.as_bytes()
    }
}

/// An operation on the default keyspace.
#[derive(Debug, PartialEq, Eq)]
pub enum DbOp {
    Put(PutOp),
    Delete(DeleteOp),
}

/// An operation on a named column family.
#[derive(Debug, PartialEq, Eq)]
pub enum CfOp {
    Put(PutCfOp),
    Delete(DeleteCfOp),
}

/// An operation of a write batch.
#[derive(Debug, PartialEq, Eq)]
pub enum BatchOp {
    Db(DbOp),
    Cf(CfOp),
}

/// An operation of a write batch as plain values: what is done, in which
/// column family (none for the default keyspace), to which key and, for a put,
/// with which value.
pub enum BatchOpView {
    Put { cf: Option<Seq<char>>, key: Seq<u8>, value: Seq<u8> },
    Delete { cf: Option<Seq<char>>, key: Seq<u8> },
}

impl View for BatchOp {
    type V = BatchOpView;

    open spec fn view(&self) -> BatchOpView {
        match self {
            BatchOp::Db(DbOp::Put(p)) => BatchOpView::Put { cf: None, key: p.0@, value: p.1@ },
            BatchOp::Db(DbOp::Delete(d)) => BatchOpView::Delete { cf: None, key: d.0@ },
            BatchOp::Cf(CfOp::Put(p)) => BatchOpView::Put {
                cf: Some(p.0@),
                key: p.1@,
                value: p.2@,
            },
            BatchOp::Cf(CfOp::Delete(d)) => BatchOpView::Delete { cf: Some(d.0@), key: d.1@ },
        }
    }
}

/// One entry of the engine's write batch: the call that puts it there, with
/// its arguments.
#[derive(Clone, Copy, Debug, PartialEq, Eq)]
pub enum BatchEntry<'a> {
    Put { cf: Option<&'a str>, key: &'a [u8], value: &'a [u8] },
    Delete { cf: Option<&'a str>, key: &'a [u8] },
}

impl<'a> View for BatchEntry<'a> {
    type V = BatchOpView;

    open spec fn view(&self) -> BatchOpView {
        match self {
            BatchEntry::Put { cf, key, value } => BatchOpView::Put {
                cf: match cf {
                    Some(name) => Some(name@),
                    None => None,
                },
                key: key@,
                value: value@,
            },
            BatchEntry::Delete { cf, key } => BatchOpView::Delete {
                cf: match cf {
                    Some(name) => Some(name@),
                    None => None,
                },
                key: key@,
            },
        }
    }
}

impl BatchOp {
    /// The entry that this operation puts into the engine's write batch.
    pub fn entry(&self) -> (entry: BatchEntry<'_>)
        ensures
            entry@ == self@,
    {
        match self {
            BatchOp::Db(DbOp::Put(p)) => BatchEntry::Put { cf: None, key: p.key(), value: p.val() },
            BatchOp::Db(DbOp::Delete(d)) => BatchEntry::Delete { cf: None, key: d.key() },
            BatchOp::Cf(CfOp::Put(p)) => BatchEntry::Put {
                cf: Some(p.name()),
                key: p.key(),
                value: p.val(),
            },
            BatchOp::Cf(CfOp::Delete(d)) => BatchEntry::Delete { cf: Some(d.name()), key: d.key() },
        }
    }
}

/// What applying a list of operations comes to.
#[derive(Debug, PartialEq, Eq)]
pub enum BatchStep<'a> {
    /// Nothing is asked of the engine, and the database stays as it is. The
    /// number is the count to report.
    Settled(usize),
    /// The engine is to commit a write batch of these entries, in this order,
    /// as one atomic write.
    Commit(Vec<BatchEntry<'a>>),
}

/// Decides how `ops` are applied. An empty list is settled at once, with a
/// count of zero and no write. Any other list becomes one write batch with an
/// entry for each operation, in the order of the list, to be committed in a
/// single write, so that no reader sees only part of it applied.
pub fn db_batch<'a>(ops: &'a Vec<BatchOp>) -> (step: BatchStep<'a>)
    ensures
        ops@.len() == 0 ==> step == BatchStep::Settled(0),
        ops@.len() > 0 ==> (step matches BatchStep::Commit(entries) && entries@.len()
            == ops@.len() && forall|i: int|
            0 <= i < ops@.len() ==> (#[trigger] entries@[i])@ == ops@[i]@),
{
    if ops.len() == 0 {
        return BatchStep::Settled(0);
    }
    let mut entries: Vec<BatchEntry<'a>> = Vec::with_capacity(ops.len());
    let mut i: usize = 0;
    while i < ops.len()
        invariant
            i <= ops@.len(),
            entries@.len() == i,
            forall|j: int| 0 <= j < i ==> (#[trigger] entries@[j])@ == ops@[j]@,
        decreases ops@.len() - i,
    {
        entries.push(ops[i].entry());
        i += 1;
    }
    BatchStep::Commit(entries)
}

/// What the caller is told once the engine has answered the write of a batch:
/// the number of entries applied, or the engine's account of why none was.
pub fn db_batch_committed(entries: &Vec<BatchEntry<'_>>, outcome: Result<(), String>) -> (result:
    Result<usize, Error>)
    ensures
        outcome is Ok ==> result == Ok::<usize, Error>(entries@.len() as usize),
        outcome matches Err(detail) ==> result == Err::<usize, Error>(Error::WriteError(detail)),
{
    match outcome {
        Ok(_) => Ok(entries.len()),
        Err(detail) => Err(Error::WriteError(detail)),
    }
}

} // verus!
