//! The `default` chunk key encoding.
//!
//! The key of a chunk with grid indices (k, j, i, ...) is `c`, followed for
//! each dimension by the separator and the ASCII decimal digits of the index.
use vstd::prelude::*;
use vstd::string::*;

use crate::chunk_key_encoding::{
    create_separator_metadata, separator_from_metadata, separator_metadata,
    separator_of_configuration, ChunkKeyEncoding, ChunkKeyEncodingTraits, ChunkKeySeparator,
    outcome, PLUGIN_TYPE,
};
use crate::decimal::{decimal, is_digit, lemma_decimal, lemma_decimal_injective, push_decimal};
use crate::metadata::{MetadataModel, MetadataV3};
use crate::plugin::{PluginCreateError, PluginCreateErrorModel, PluginMetadataInvalidError};
use crate::store_key::StoreKey;

verus! {

/// The name of the `default` chunk key encoding.
pub const DEFAULT: &'static str = "default";

/// For each index in order, the separator `sep` and the decimal digits of the index.
pub open spec fn separated_indices(sep: char, indices: Seq<u64>) -> Seq<char>
    decreases indices.len(),
{
    if indices.len() == 0 {
        Seq::empty()
    } else {
        separated_indices(sep, indices.drop_last()) + seq![sep] + decimal(indices.last() as nat)
    }
}

/// The key of the chunk with grid indices `indices` under the `default`
/// encoding with separator `sep`.
pub open spec fn default_key(sep: char, indices: Seq<u64>) -> Seq<char> {
    seq!['c'] + separated_indices(sep, indices)
}

/// A `default` chunk key encoding.
#[derive(Debug, Clone, Copy, PartialEq, Eq, Structural)]
pub struct DefaultChunkKeyEncoding {
    /// The character between the indices of a key.
    pub separator: ChunkKeySeparator,
}

impl DefaultChunkKeyEncoding {
    /// The separator of this encoding.
    pub open spec fn spec_separator(&self) -> ChunkKeySeparator {
        self.separator
    }

    /// Creates a `default` chunk key encoding with separator `separator`.
    pub fn new(separator: ChunkKeySeparator) -> (r: Self)
        ensures
            r.spec_separator() == separator,
    {
        DefaultChunkKeyEncoding { separator }
    }

    /// Creates a `default` chunk key encoding with separator `.`.
    pub fn new_dot() -> (r: Self)
        ensures
            r.spec_separator() == ChunkKeySeparator::Dot,
    {
        DefaultChunkKeyEncoding { separator: ChunkKeySeparator::Dot }
    }

    /// Creates a `default` chunk key encoding with separator `/`.
    pub fn new_slash() -> (r: Self)
        ensures
            r.spec_separator() == ChunkKeySeparator::Slash,
    {
        DefaultChunkKeyEncoding { separator: ChunkKeySeparator::Slash }
    }

    /// The separator of this encoding.
    pub fn separator(&self) -> (r: ChunkKeySeparator)
        ensures
            r == self.spec_separator(),
    {
        self.separator
    }
}

impl Default for DefaultChunkKeyEncoding {
    /// Creates a `default` chunk key encoding with the default separator, `/`.
    fn default() -> (r: Self)
        ensures
            r.spec_separator() == ChunkKeySeparator::Slash,
    {
        DefaultChunkKeyEncoding { separator: ChunkKeySeparator::Slash }
    }
}

impl ChunkKeyEncodingTraits for DefaultChunkKeyEncoding {
    open spec fn spec_key(&self, chunk_grid_indices: Seq<u64>) -> Seq<char> {
        default_key(self.spec_separator().spec_char(), chunk_grid_indices)
    }

    open spec fn spec_metadata(&self) -> MetadataModel {
        separator_metadata(DEFAULT@, self.spec_separator())
    }

    fn create_metadata(&self) -> (r: MetadataV3) {
        create_separator_metadata(DEFAULT, self.separator)
    }

    fn to_chunk_key_encoding(&self) -> (r: ChunkKeyEncoding) {
        ChunkKeyEncoding::Default(*self)
    }

    fn encode(&self, chunk_grid_indices: &[u64]) -> (r: StoreKey) {
        proof {
            reveal_strlit("c");
        }
        let mut key = String::from_str("c");
        let sep = self.separator.as_str();
        let ghost g = chunk_grid_indices@;
        let mut i: usize = 0;
        while i < chunk_grid_indices.len()
            invariant
                i <= g.len(),
                g == chunk_grid_indices@,
                sep@ == seq![self.separator.spec_char()],
                key@ == default_key(self.separator.spec_char(), g.take(i as int)),
            decreases g.len() - i,
        {
            key.append(sep);
            push_decimal(&mut key, chunk_grid_indices[i]);
            proof {
                assert(g.take(i + 1).drop_last() =~= g.take(i as int));
                assert(key@ =~= default_key(self.separator.spec_char(), g.take(i + 1)));
            }
            i = i + 1;
        }
        assert(g.take(g.len() as int) =~= g);
        StoreKey::new_unchecked(key)
    }
}

/// The separated part of a key: the separator leads each index's digits, and
/// the digits hold no separator.
proof fn lemma_separated_shape(sep: char, indices: Seq<u64>)
    requires
        !is_digit(sep),
    ensures
        indices.len() == 0 <==> separated_indices(sep, indices).len() == 0,
        indices.len() > 0 ==> separated_indices(sep, indices)[0] == sep,
    decreases indices.len(),
{
    if indices.len() > 0 {
        lemma_separated_shape(sep, indices.drop_last());
        lemma_decimal(indices.last() as nat);
    }
}

/// Two separated index lists that are equal as strings come from equal index lists.
proof fn lemma_separated_injective(sep: char, a: Seq<u64>, b: Seq<u64>)
    requires
        !is_digit(sep),
        separated_indices(sep, a) == separated_indices(sep, b),
    ensures
        a == b,
    decreases a.len(),
{
    lemma_separated_shape(sep, a);
    lemma_separated_shape(sep, b);
    if a.len() == 0 || b.len() == 0 {
        assert(a =~= b);
    } else {
        let ra = separated_indices(sep, a.drop_last());
        let rb = separated_indices(sep, b.drop_last());
        let da = decimal(a.last() as nat);
        let db = decimal(b.last() as nat);
        let s = separated_indices(sep, a);
        lemma_decimal(a.last() as nat);
        lemma_decimal(b.last() as nat);
        assert(s == ra + seq![sep] + da);
        assert(s == rb + seq![sep] + db);
        // The last separator in `s` stands just before the last index's digits.
        if da.len() < db.len() {
            let k = s.len() - da.len() - 1;
            assert(s[k] == sep);
            assert(s[k] == db[db.len() - da.len() - 1]);
        } else if db.len() < da.len() {
            let k = s.len() - db.len() - 1;
            assert(s[k] == sep);
            assert(s[k] == da[da.len() - db.len() - 1]);
        }
        assert(da.len() == db.len());
        assert(da =~= s.subrange(s.len() - da.len(), s.len() as int));
        assert(db =~= s.subrange(s.len() - db.len(), s.len() as int));
        assert(ra =~= s.subrange(0, s.len() - da.len() - 1));
        assert(rb =~= s.subrange(0, s.len() - db.len() - 1));
        lemma_decimal_injective(a.last() as nat, b.last() as nat);
        lemma_separated_injective(sep, a.drop_last(), b.drop_last());
        assert(a =~= a.drop_last().push(a.last()));
        assert(b =~= b.drop_last().push(b.last()));
    }
}

/// For a fixed separator, distinct grid indices never share a `default` key,
/// and the key of a scalar chunk is `c` alone.
pub proof fn lemma_default_key_injective(sep: ChunkKeySeparator, a: Seq<u64>, b: Seq<u64>)
    ensures
        default_key(sep.spec_char(), a) == default_key(sep.spec_char(), b) <==> a == b,
        default_key(sep.spec_char(), Seq::empty()) == seq!['c'],
{
    let c = sep.spec_char();
    assert(separated_indices(c, Seq::<u64>::empty()) =~= Seq::<char>::empty());
    assert(seq!['c'] + Seq::<char>::empty() =~= seq!['c']);
    if default_key(c, a) == default_key(c, b) {
        assert(separated_indices(c, a) =~= default_key(c, a).drop_first());
        assert(separated_indices(c, b) =~= default_key(c, b).drop_first());
        lemma_separated_injective(c, a, b);
    }
}

/// What creating a `default` encoding from `metadata` gives: the encoding with
/// the separator that the configuration names (`/` where it has no fields),
/// or an invalid-metadata error holding the record.
pub open spec fn create_default_outcome(metadata: MetadataModel) -> Result<
    ChunkKeyEncoding,
    PluginCreateErrorModel,
> {
    match separator_of_configuration(metadata.configuration, ChunkKeySeparator::Slash) {
        Some(s) => Ok(ChunkKeyEncoding::Default(DefaultChunkKeyEncoding { separator: s })),
        None => Err(
            PluginCreateErrorModel::MetadataInvalid {
                identifier: DEFAULT@,
                plugin_type: PLUGIN_TYPE@,
                metadata,
            },
        ),
    }
}

/// Creates a `default` chunk key encoding from the configuration of `metadata`.
pub fn create_chunk_key_encoding_default(metadata: &MetadataV3) -> (r: Result<
    ChunkKeyEncoding,
    PluginCreateError,
>)
    ensures
        outcome(r) == create_default_outcome(metadata@),
{
    match separator_from_metadata(metadata, ChunkKeySeparator::Slash) {
        Some(separator) => Ok(ChunkKeyEncoding::Default(DefaultChunkKeyEncoding::new(separator))),
        None => Err(PluginMetadataInvalidError::new(DEFAULT, PLUGIN_TYPE, metadata.copy())),
    }
}

} // verus!
