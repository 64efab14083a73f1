use crate::error::ChromaClientError;
use vstd::prelude::*;

verus! {

/// A scalar value of a collection's metadata.
#[derive(Debug, Clone)]
pub enum MetadataValue {
    Str(String),
    Int(i64),
    /// A number that is no `i64` (a fraction, an exponent, a large unsigned
    /// value), kept as its JSON text.
    Number(String),
    Bool(bool),
}

/// A collection's metadata: keys with scalar values, in the order given.
pub type CollectionMetadata = Vec<(String, MetadataValue)>;

/// A snapshot of a collection as the server last described it.
///
/// Absent metadata (`None`) is not the same as empty metadata.
#[derive(Debug, Clone)]
pub struct Collection {
    pub name: String,
    pub id: String,
    pub metadata: Option<CollectionMetadata>,
}

impl Collection {
    /// A collection that the server has not assigned an identifier yet.
    pub fn new(name: String, metadata: Option<CollectionMetadata>) -> (r: Collection)
        ensures
            r.name == name,
            r.id@.len() == 0,
            r.metadata == metadata,
    {
        Collection { name, id: String::new(), metadata }
    }

    /// A collection with a known identifier.
    pub fn with_id(name: String, id: String, metadata: Option<CollectionMetadata>) -> (r:
        Collection)
        ensures
            r.name == name,
            r.id == id,
            r.metadata == metadata,
    {
        Collection { name, id, metadata }
    }

    /// Reading a collection's records is not supported yet: this always
    /// fails with `Unsupported`.
    pub fn get<T>(&self, params: GetParams) -> (r: Result<Vec<T>, ChromaClientError>)
        ensures
            r matches Err(ChromaClientError::Unsupported(m)) && m@ == "get"@,
    {
        Err(ChromaClientError::Unsupported(String::from_str("get")))
    }
}

/// The identifier of a record in a collection.
#[derive(Debug, Clone)]
pub struct ID(pub String);

/// The metadata of one record: key and value pairs, each pair at most once
/// (see `wf`).
#[derive(Debug, Clone)]
pub struct Metadata(pub Vec<(String, String)>);

impl Metadata {
    /// The pairs as text, in the order of insertion.
    pub open spec fn pairs(&self) -> Seq<(Seq<char>, Seq<char>)> {
        self.0@.map_values(|p: (String, String)| (p.0@, p.1@))
    }

    /// No pair occurs twice.
    pub open spec fn wf(&self) -> bool {
        forall|i: int, j: int|
            0 <= i < j < self.pairs().len() ==> self.pairs()[i] != self.pairs()[j]
    }

    /// No pairs.
    pub fn new() -> (r: Metadata)
        ensures
            r.wf(),
            r.pairs().len() == 0,
    {
        let r = Metadata(Vec::new());
        assert(r.pairs() =~= Seq::empty());
        r
    }

    /// Whether the pair `(key, value)` is held.
    pub fn contains(&self, key: &String, value: &String) -> (r: bool)
        ensures
            r == self.pairs().contains((key@, value@)),
    {
        let mut i: usize = 0;
        while i < self.0.len()
            invariant
                i <= self.0@.len(),
                forall|k: int| 0 <= k < i ==> self.pairs()[k] != (key@, value@),
            decreases self.0@.len() - i,
        {
            if self.0[i].0 == *key && self.0[i].1 == *value {
                assert(self.pairs()[i as int] == (key@, value@));
                return true;
            }
            i = i + 1;
        }
        false
    }

    /// Adds the pair `(key, value)` unless it is held already; tells whether
    /// it was added.
    pub fn insert(&mut self, key: String, value: String) -> (r: bool)
        requires
            old(self).wf(),
        ensures
            final(self).wf(),
            r == !old(self).pairs().contains((key@, value@)),
            r ==> final(self).pairs() == old(self).pairs().push((key@, value@)),
            !r ==> final(self).pairs() == old(self).pairs(),
    {
        if self.contains(&key, &value) {
            false
        } else {
            let ghost before = self.pairs();
            self.0.push((key, value));
            assert(self.pairs() =~= before.push((key@, value@)));
            true
        }
    }
}

/// The payload of one record.
#[derive(Debug, Clone)]
pub struct Document(pub Vec<u8>);

/// The optional fields that a read asks the server to return.
#[derive(Debug, Clone, Copy, PartialEq, Eq, Hash, Structural)]
pub enum Include {
    Embeddings,
    Metadatas,
    Documents,
    Distances,
}

/// A filter on record metadata: every field must hold the given value.
#[derive(Debug, Clone)]
pub struct Where {
    pub fields: Vec<(String, MetadataValue)>,
}

/// A filter on record documents.
#[derive(Debug, Clone)]
pub struct WhereDocument {
    pub operator: String,
    pub field: String,
    pub value: MetadataValue,
}

/// What a read of a collection's records selects and returns.
#[derive(Debug, Clone)]
pub struct GetParams {
    pub ids: Option<Vec<ID>>,
    pub where_: Option<Where>,
    pub limit: Option<i32>,
    pub offset: Option<i32>,
    pub where_document: Option<WhereDocument>,
    pub included: Vec<Include>,
}

impl Default for GetParams {
    /// No filter, no paging, and metadata and documents returned.
    fn default() -> (r: GetParams)
        ensures
            r.ids is None,
            r.where_ is None,
            r.limit is None,
            r.offset is None,
            r.where_document is None,
            r.included@ == seq![Include::Metadatas, Include::Documents],
    {
        GetParams {
            ids: None,
            where_: None,
            limit: None,
            offset: None,
            where_document: None,
            included: vec![Include::Metadatas, Include::Documents],
        }
    }
}

} // verus!
