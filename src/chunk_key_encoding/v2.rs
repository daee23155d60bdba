//! The `v2` chunk key encoding.
//!
//! The key of a chunk with grid indices (k, j, i, ...) is the ASCII decimal
//! digits of each index, joined by the separator; the key of a scalar chunk is `0`.
use vstd::prelude::*;
use vstd::string::*;

use crate::chunk_key_encoding::{
    create_separator_metadata, separator_from_metadata, separator_metadata,
    separator_of_configuration, ChunkKeyEncoding, ChunkKeyEncodingTraits, ChunkKeySeparator,
    outcome, PLUGIN_TYPE,
};
use crate::decimal::{decimal, lemma_decimal, push_decimal, to_decimal_string};
use crate::metadata::{MetadataModel, MetadataV3};
use crate::plugin::{PluginCreateError, PluginCreateErrorModel, PluginMetadataInvalidError};
use crate::store_key::StoreKey;

verus! {

/// The name of the `v2` chunk key encoding.
pub const V2: &'static str = "v2";

/// The decimal digits of each index, joined by `sep`.
pub open spec fn joined_indices(sep: char, indices: Seq<u64>) -> Seq<char>
    decreases indices.len(),
{
    if indices.len() == 0 {
        Seq::empty()
    } else if indices.len() == 1 {
        decimal(indices[0] as nat)
    } else {
        joined_indices(sep, indices.drop_last()) + seq![sep] + decimal(indices.last() as nat)
    }
}

/// The key of the chunk with grid indices `indices` under the `v2` encoding
/// with separator `sep`.
pub open spec fn v2_key(sep: char, indices: Seq<u64>) -> Seq<char> {
    if indices.len() == 0 {
        seq!['0']
    } else {
        joined_indices(sep, indices)
    }
}

/// A `v2` chunk key encoding.
#[derive(Debug, Clone, Copy, PartialEq, Eq, Structural)]
pub struct V2ChunkKeyEncoding {
    /// The character between the indices of a key.
    pub separator: ChunkKeySeparator,
}

impl V2ChunkKeyEncoding {
    /// The separator of this encoding.
    pub open spec fn spec_separator(&self) -> ChunkKeySeparator {
        self.separator
    }

    /// Creates a `v2` chunk key encoding with separator `separator`.
    pub fn new(separator: ChunkKeySeparator) -> (r: Self)
        ensures
            r.spec_separator() == separator,
    {
        V2ChunkKeyEncoding { separator }
    }

    /// Creates a `v2` chunk key encoding with separator `.`.
    pub fn new_dot() -> (r: Self)
        ensures
            r.spec_separator() == ChunkKeySeparator::Dot,
    {
        V2ChunkKeyEncoding { separator: ChunkKeySeparator::Dot }
    }

    /// Creates a `v2` chunk key encoding with separator `/`.
    pub fn new_slash() -> (r: Self)
        ensures
            r.spec_separator() == ChunkKeySeparator::Slash,
    {
        V2ChunkKeyEncoding { separator: ChunkKeySeparator::Slash }
    }

    /// The separator of this encoding.
    pub fn separator(&self) -> (r: ChunkKeySeparator)
        ensures
            r == self.spec_separator(),
    {
        self.separator
    }
}

impl Default for V2ChunkKeyEncoding {
    /// Creates a `v2` chunk key encoding with the default separator, `.`.
    fn default() -> (r: Self)
        ensures
            r.spec_separator() == ChunkKeySeparator::Dot,
    {
        V2ChunkKeyEncoding { separator: ChunkKeySeparator::Dot }
    }
}

impl ChunkKeyEncodingTraits for V2ChunkKeyEncoding {
    open spec fn spec_key(&self, chunk_grid_indices: Seq<u64>) -> Seq<char> {
        v2_key(self.spec_separator().spec_char(), chunk_grid_indices)
    }

    open spec fn spec_metadata(&self) -> MetadataModel {
        separator_metadata(V2@, self.spec_separator())
    }

    fn create_metadata(&self) -> (r: MetadataV3) {
        create_separator_metadata(V2, self.separator)
    }

    fn to_chunk_key_encoding(&self) -> (r: ChunkKeyEncoding) {
        ChunkKeyEncoding::V2(*self)
    }

    fn encode(&self, chunk_grid_indices: &[u64]) -> (r: StoreKey) {
        let ghost g = chunk_grid_indices@;
        if chunk_grid_indices.len() == 0 {
            proof {
                reveal_strlit("0");
            }
            return StoreKey::new_unchecked(String::from_str("0"));
        }
        let mut key = to_decimal_string(chunk_grid_indices[0]);
        assert(g.take(1) =~= seq![g[0]]);
        let sep = self.separator.as_str();
        let mut i: usize = 1;
        while i < chunk_grid_indices.len()
            invariant
                1 <= i <= g.len(),
                g == chunk_grid_indices@,
                sep@ == seq![self.separator.spec_char()],
                key@ == joined_indices(self.separator.spec_char(), g.take(i as int)),
            decreases g.len() - i,
        {
            key.append(sep);
            push_decimal(&mut key, chunk_grid_indices[i]);
            proof {
                assert(g.take(i + 1).drop_last() =~= g.take(i as int));
                assert(key@ =~= joined_indices(self.separator.spec_char(), g.take(i + 1)));
            }
            i = i + 1;
        }
        assert(g.take(g.len() as int) =~= g);
        proof {
            lemma_decimal(g[0] as nat);
            lemma_joined_starts_with_digit(self.separator.spec_char(), g);
        }
        StoreKey::new_unchecked(key)
    }
}

/// A joined index list starts with the first index's first digit.
proof fn lemma_joined_starts_with_digit(sep: char, indices: Seq<u64>)
    requires
        indices.len() > 0,
    ensures
        joined_indices(sep, indices).len() > 0,
        joined_indices(sep, indices)[0] == decimal(indices[0] as nat)[0],
    decreases indices.len(),
{
    lemma_decimal(indices[0] as nat);
    if indices.len() > 1 {
        lemma_joined_starts_with_digit(sep, indices.drop_last());
    }
}

/// What creating a `v2` encoding from `metadata` gives: the encoding with
/// the separator that the configuration names (`.` where it has no fields),
/// or an invalid-metadata error holding the record.
pub open spec fn create_v2_outcome(metadata: MetadataModel) -> Result<
    ChunkKeyEncoding,
    PluginCreateErrorModel,
> {
    match separator_of_configuration(metadata.configuration, ChunkKeySeparator::Dot) {
        Some(s) => Ok(ChunkKeyEncoding::V2(V2ChunkKeyEncoding { separator: s })),
        None => Err(
            PluginCreateErrorModel::MetadataInvalid {
                identifier: V2@,
                plugin_type: PLUGIN_TYPE@,
                metadata,
            },
        ),
    }
}

/// Creates a `v2` chunk key encoding from the configuration of `metadata`.
pub fn create_chunk_key_encoding_v2(metadata: &MetadataV3) -> (r: Result<
    ChunkKeyEncoding,
    PluginCreateError,
>)
    ensures
        outcome(r) == create_v2_outcome(metadata@),
{
    match separator_from_metadata(metadata, ChunkKeySeparator::Dot) {
        Some(separator) => Ok(ChunkKeyEncoding::V2(V2ChunkKeyEncoding::new(separator))),
        None => Err(PluginMetadataInvalidError::new(V2, PLUGIN_TYPE, metadata.copy())),
    }
}

} // verus!
