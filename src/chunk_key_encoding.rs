//! Chunk key encodings: maps from chunk grid indices to store keys, and the
//! registry that creates them from metadata records.
use vstd::prelude::*;
use vstd::string::*;

use crate::chunk_key_encoding::default::{
    create_chunk_key_encoding_default, create_default_outcome, default_key, DefaultChunkKeyEncoding,
    DEFAULT,
};
use crate::chunk_key_encoding::v2::{
    create_chunk_key_encoding_v2, create_v2_outcome, v2_key, V2ChunkKeyEncoding, V2,
};
use crate::metadata::{MetadataModel, MetadataV3};
use crate::plugin::{PluginCreateError, PluginCreateErrorModel, PluginUnsupportedError};
use crate::store_key::StoreKey;

pub mod default;
pub mod v2;

verus! {

/// The character between the indices of a chunk key.
#[derive(Debug, Clone, Copy, PartialEq, Eq, Structural)]
pub enum ChunkKeySeparator {
    /// `/`
    Slash,
    /// `.`
    Dot,
}

/// The name of the plugin family of chunk key encodings.
pub const PLUGIN_TYPE: &'static str = "chunk key encoding";

/// The key of the configuration field that holds the separator.
pub const SEPARATOR_FIELD: &'static str = "separator";

/// The separator that the string `s` names, if it names one.
pub open spec fn separator_from_chars(s: Seq<char>) -> Option<ChunkKeySeparator> {
    if s == seq!['/'] {
        Some(ChunkKeySeparator::Slash)
    } else if s == seq!['.'] {
        Some(ChunkKeySeparator::Dot)
    } else {
        None
    }
}

/// The separator that a configuration names: `default` where there are no
/// fields; the value of the one field `separator` where that is `/` or `.`;
/// none otherwise.
pub open spec fn separator_of_configuration(
    configuration: Option<Seq<(Seq<char>, Seq<char>)>>,
    default: ChunkKeySeparator,
) -> Option<ChunkKeySeparator> {
    match configuration {
        None => Some(default),
        Some(c) => if c.len() == 0 {
            Some(default)
        } else if c.len() == 1 && c[0].0 == SEPARATOR_FIELD@ {
            separator_from_chars(c[0].1)
        } else {
            None
        },
    }
}

/// The record named `name` whose configuration holds the one field
/// `separator` with value `separator`.
pub open spec fn separator_metadata(name: Seq<char>, separator: ChunkKeySeparator) -> MetadataModel {
    MetadataModel {
        name,
        configuration: Some(seq![(SEPARATOR_FIELD@, seq![separator.spec_char()])]),
    }
}

impl ChunkKeySeparator {
    /// The character of the separator.
    pub open spec fn spec_char(self) -> char {
        match self {
            ChunkKeySeparator::Slash => '/',
            ChunkKeySeparator::Dot => '.',
        }
    }

    /// The character of the separator.
    pub fn as_char(&self) -> (r: char)
        ensures
            r == self.spec_char(),
    {
        match self {
            ChunkKeySeparator::Slash => '/',
            ChunkKeySeparator::Dot => '.',
        }
    }

    /// The separator as a one-character string slice.
    pub fn as_str(&self) -> (r: &'static str)
        ensures
            r@ == seq![self.spec_char()],
    {
        proof {
            reveal_strlit("/");
            reveal_strlit(".");
        }
        match self {
            ChunkKeySeparator::Slash => "/",
            ChunkKeySeparator::Dot => ".",
        }
    }

    /// The separator as a one-character string.
    pub fn to_string(&self) -> (r: String)
        ensures
            r@ == seq![self.spec_char()],
    {
        String::from_str(self.as_str())
    }

    /// The separator that `s` names: `/` or `.`.
    pub fn from_str(s: &str) -> (r: Option<ChunkKeySeparator>)
        ensures
            r == separator_from_chars(s@),
    {
        let s = String::from_str(s);
        if s == ChunkKeySeparator::Slash.to_string() {
            Some(ChunkKeySeparator::Slash)
        } else if s == ChunkKeySeparator::Dot.to_string() {
            Some(ChunkKeySeparator::Dot)
        } else {
            None
        }
    }
}

/// The separator that the configuration of `metadata` names, with `default`
/// where it has no fields.
pub fn separator_from_metadata(metadata: &MetadataV3, default: ChunkKeySeparator) -> (r: Option<
    ChunkKeySeparator,
>)
    ensures
        r == separator_of_configuration(metadata@.configuration, default),
{
    match metadata.configuration() {
        None => Some(default),
        Some(c) => {
            if c.len() == 0 {
                Some(default)
            } else if c.len() == 1 {
                let key = &c[0].0;
                if *key == String::from_str(SEPARATOR_FIELD) {
                    ChunkKeySeparator::from_str(c[0].1.as_str())
                } else {
                    None
                }
            } else {
                None
            }
        },
    }
}

/// A record named `name` whose configuration holds the field `separator`.
pub fn create_separator_metadata(name: &str, separator: ChunkKeySeparator) -> (r: MetadataV3)
    ensures
        r@ == separator_metadata(name@, separator),
{
    let mut fields: Vec<(String, String)> = Vec::new();
    fields.push((String::from_str(SEPARATOR_FIELD), separator.to_string()));
    let r = MetadataV3::new_with_configuration(name, fields);
    assert(r@.configuration->0 =~= seq![(SEPARATOR_FIELD@, seq![separator.spec_char()])]);
    r
}

/// The operations of a chunk key encoding.
pub trait ChunkKeyEncodingTraits {
    /// The key of the chunk with grid indices `chunk_grid_indices`.
    spec fn spec_key(&self, chunk_grid_indices: Seq<u64>) -> Seq<char>;

    /// The metadata record of this encoding.
    spec fn spec_metadata(&self) -> MetadataModel;

    /// Creates the metadata record of this encoding.
    fn create_metadata(&self) -> (r: MetadataV3)
        ensures
            r@ == self.spec_metadata(),
    ;

    /// The same encoding as a [`ChunkKeyEncoding`].
    fn to_chunk_key_encoding(&self) -> (r: ChunkKeyEncoding)
        ensures
            r.metadata_of() == self.spec_metadata(),
            forall|g: Seq<u64>| #[trigger] r.key_of(g) == self.spec_key(g),
    ;

    /// Encodes chunk grid indices into a store key.
    fn encode(&self, chunk_grid_indices: &[u64]) -> (r: StoreKey)
        ensures
            r@ == self.spec_key(chunk_grid_indices@),
            r.wf(),
    ;
}

/// A chunk key encoding of one of the known schemes.
#[derive(Debug, Clone, Copy, PartialEq, Eq, Structural)]
pub enum ChunkKeyEncoding {
    /// The `default` scheme.
    Default(DefaultChunkKeyEncoding),
    /// The `v2` scheme.
    V2(V2ChunkKeyEncoding),
}

/// What a creation from metadata gave, with the error by its model.
pub open spec fn outcome(r: Result<ChunkKeyEncoding, PluginCreateError>) -> Result<
    ChunkKeyEncoding,
    PluginCreateErrorModel,
> {
    match r {
        Ok(e) => Ok(e),
        Err(x) => Err(x@),
    }
}

impl ChunkKeyEncoding {
    /// The key of the chunk with grid indices `chunk_grid_indices`.
    pub open spec fn key_of(&self, chunk_grid_indices: Seq<u64>) -> Seq<char> {
        match self {
            ChunkKeyEncoding::Default(e) => default_key(e.separator.spec_char(), chunk_grid_indices),
            ChunkKeyEncoding::V2(e) => v2_key(e.separator.spec_char(), chunk_grid_indices),
        }
    }

    /// The metadata record of this encoding.
    pub open spec fn metadata_of(&self) -> MetadataModel {
        match self {
            ChunkKeyEncoding::Default(e) => separator_metadata(DEFAULT@, e.separator),
            ChunkKeyEncoding::V2(e) => separator_metadata(V2@, e.separator),
        }
    }

    /// Creates a chunk key encoding that encodes as `chunk_key_encoding` does.
    pub fn new<T: ChunkKeyEncodingTraits>(chunk_key_encoding: T) -> (r: ChunkKeyEncoding)
        ensures
            r.metadata_of() == chunk_key_encoding.spec_metadata(),
            forall|g: Seq<u64>| #[trigger] r.key_of(g) == chunk_key_encoding.spec_key(g),
    {
        chunk_key_encoding.to_chunk_key_encoding()
    }

    /// Creates a chunk key encoding from `metadata`, with the plugins of the
    /// built-in registry.
    pub fn from_metadata(metadata: &MetadataV3) -> (r: Result<ChunkKeyEncoding, PluginCreateError>)
        ensures
            outcome(r) == resolve(builtin_plugins(), metadata@),
    {
        let registry = ChunkKeyEncodingRegistry::builtin();
        registry.from_metadata(metadata)
    }
}

impl ChunkKeyEncodingTraits for ChunkKeyEncoding {
    open spec fn spec_key(&self, chunk_grid_indices: Seq<u64>) -> Seq<char> {
        self.key_of(chunk_grid_indices)
    }

    open spec fn spec_metadata(&self) -> MetadataModel {
        self.metadata_of()
    }

    fn create_metadata(&self) -> (r: MetadataV3) {
        match self {
            ChunkKeyEncoding::Default(e) => e.create_metadata(),
            ChunkKeyEncoding::V2(e) => e.create_metadata(),
        }
    }

    fn to_chunk_key_encoding(&self) -> (r: ChunkKeyEncoding) {
        *self
    }

    fn encode(&self, chunk_grid_indices: &[u64]) -> (r: StoreKey) {
        match self {
            ChunkKeyEncoding::Default(e) => e.encode(chunk_grid_indices),
            ChunkKeyEncoding::V2(e) => e.encode(chunk_grid_indices),
        }
    }
}

impl From<DefaultChunkKeyEncoding> for ChunkKeyEncoding {
    fn from(chunk_key_encoding: DefaultChunkKeyEncoding) -> (r: ChunkKeyEncoding) {
        ChunkKeyEncoding::Default(chunk_key_encoding)
    }
}

impl vstd::std_specs::convert::FromSpecImpl<DefaultChunkKeyEncoding> for ChunkKeyEncoding {
    open spec fn obeys_from_spec() -> bool {
        true
    }

    open spec fn from_spec(v: DefaultChunkKeyEncoding) -> ChunkKeyEncoding {
        ChunkKeyEncoding::Default(v)
    }
}

impl From<V2ChunkKeyEncoding> for ChunkKeyEncoding {
    fn from(chunk_key_encoding: V2ChunkKeyEncoding) -> (r: ChunkKeyEncoding) {
        ChunkKeyEncoding::V2(chunk_key_encoding)
    }
}

impl vstd::std_specs::convert::FromSpecImpl<V2ChunkKeyEncoding> for ChunkKeyEncoding {
    open spec fn obeys_from_spec() -> bool {
        true
    }

    open spec fn from_spec(v: V2ChunkKeyEncoding) -> ChunkKeyEncoding {
        ChunkKeyEncoding::V2(v)
    }
}

/// How a plugin creates its encoding from a record.
#[derive(Debug, Clone, Copy, PartialEq, Eq, Structural)]
pub enum ChunkKeyEncodingConstructor {
    /// Reads a `default` encoding's configuration.
    Default,
    /// Reads a `v2` encoding's configuration.
    V2,
}

/// What creating an encoding with `constructor` from `metadata` gives.
pub open spec fn create_outcome(
    constructor: ChunkKeyEncodingConstructor,
    metadata: MetadataModel,
) -> Result<ChunkKeyEncoding, PluginCreateErrorModel> {
    match constructor {
        ChunkKeyEncodingConstructor::Default => create_default_outcome(metadata),
        ChunkKeyEncodingConstructor::V2 => create_v2_outcome(metadata),
    }
}

/// A plugin of the chunk key encoding family: an identifier, which the name
/// of a record must equal, and the way the encoding is created.
#[derive(Debug, Clone, Copy)]
pub struct ChunkKeyEncodingPlugin {
    identifier: &'static str,
    constructor: ChunkKeyEncodingConstructor,
}

impl View for ChunkKeyEncodingPlugin {
    type V = (Seq<char>, ChunkKeyEncodingConstructor);

    closed spec fn view(&self) -> (Seq<char>, ChunkKeyEncodingConstructor) {
        (self.identifier@, self.constructor)
    }
}

impl ChunkKeyEncodingPlugin {
    /// Creates a plugin that matches the name `identifier` and creates its
    /// encoding with `constructor`.
    pub fn new(identifier: &'static str, constructor: ChunkKeyEncodingConstructor) -> (r: Self)
        ensures
            r@ == (identifier@, constructor),
    {
        ChunkKeyEncodingPlugin { identifier, constructor }
    }

    /// The identifier of the plugin.
    pub fn identifier(&self) -> (r: &'static str)
        ensures
            r@ == self@.0,
    {
        self.identifier
    }

    /// Whether the plugin handles records named `name`.
    pub fn match_name(&self, name: &str) -> (r: bool)
        ensures
            r == (name@ == self@.0),
    {
        String::from_str(self.identifier) == String::from_str(name)
    }

    /// Creates the plugin's encoding from `metadata`.
    pub fn create(&self, metadata: &MetadataV3) -> (r: Result<ChunkKeyEncoding, PluginCreateError>)
        ensures
            outcome(r) == create_outcome(self@.1, metadata@),
    {
        match self.constructor {
            ChunkKeyEncodingConstructor::Default => create_chunk_key_encoding_default(metadata),
            ChunkKeyEncodingConstructor::V2 => create_chunk_key_encoding_v2(metadata),
        }
    }
}

/// What resolving `metadata` against the plugins `plugins` gives: the
/// creation by the first plugin whose identifier equals the record's name, or
/// an unsupported error naming the record if none does.
pub open spec fn resolve(
    plugins: Seq<(Seq<char>, ChunkKeyEncodingConstructor)>,
    metadata: MetadataModel,
) -> Result<ChunkKeyEncoding, PluginCreateErrorModel>
    decreases plugins.len(),
{
    if plugins.len() == 0 {
        Err(PluginCreateErrorModel::Unsupported { name: metadata.name, plugin_type: PLUGIN_TYPE@ })
    } else if plugins[0].0 == metadata.name {
        create_outcome(plugins[0].1, metadata)
    } else {
        resolve(plugins.drop_first(), metadata)
    }
}

/// The plugins of the built-in registry: `default`, then `v2`.
pub open spec fn builtin_plugins() -> Seq<(Seq<char>, ChunkKeyEncodingConstructor)> {
    seq![(DEFAULT@, ChunkKeyEncodingConstructor::Default), (V2@, ChunkKeyEncodingConstructor::V2)]
}

/// Resolving a record gives what the first plugin whose identifier equals
/// the record's name creates from it.
pub proof fn lemma_resolve_first_match(
    plugins: Seq<(Seq<char>, ChunkKeyEncodingConstructor)>,
    metadata: MetadataModel,
    i: int,
)
    requires
        0 <= i < plugins.len(),
        plugins[i].0 == metadata.name,
        forall|j: int| 0 <= j < i ==> plugins[j].0 != metadata.name,
    ensures
        resolve(plugins, metadata) == create_outcome(plugins[i].1, metadata),
    decreases i,
{
    if i > 0 {
        assert(plugins[0].0 != metadata.name);
        let rest = plugins.drop_first();
        assert forall|j: int| 0 <= j < i - 1 implies rest[j].0 != metadata.name by {
            assert(rest[j] == plugins[j + 1]);
        }
        lemma_resolve_first_match(rest, metadata, i - 1);
    }
}

/// Resolving a record whose name no plugin has fails with an unsupported
/// error that carries the name.
pub proof fn lemma_resolve_unsupported(
    plugins: Seq<(Seq<char>, ChunkKeyEncodingConstructor)>,
    metadata: MetadataModel,
)
    requires
        forall|j: int| 0 <= j < plugins.len() ==> plugins[j].0 != metadata.name,
    ensures
        resolve(plugins, metadata) == (Err::<ChunkKeyEncoding, PluginCreateErrorModel>(
            PluginCreateErrorModel::Unsupported { name: metadata.name, plugin_type: PLUGIN_TYPE@ },
        )),
    decreases plugins.len(),
{
    if plugins.len() > 0 {
        let rest = plugins.drop_first();
        assert forall|j: int| 0 <= j < rest.len() implies rest[j].0 != metadata.name by {
            assert(rest[j] == plugins[j + 1]);
        }
        lemma_resolve_unsupported(rest, metadata);
    }
}

/// The record of a separator reads back as that separator.
proof fn lemma_separator_metadata(name: Seq<char>, separator: ChunkKeySeparator, default: ChunkKeySeparator)
    ensures
        separator_of_configuration(separator_metadata(name, separator).configuration, default)
            == Some(separator),
{
    let c = separator_metadata(name, separator).configuration->0;
    assert(c.len() == 1);
    assert(c[0].0 == SEPARATOR_FIELD@);
    assert(c[0].1 == seq![separator.spec_char()]);
    assert(seq!['/'] != seq!['.']) by {
        assert(seq!['/'][0] != seq!['.'][0]);
    }
}

/// Resolving the metadata record of an encoding, with the built-in plugins
/// first and any plugins registered after them, gives back the same encoding,
/// which therefore gives the same key for every chunk.
pub proof fn lemma_metadata_round_trip(
    encoding: ChunkKeyEncoding,
    later: Seq<(Seq<char>, ChunkKeyEncodingConstructor)>,
)
    ensures
        resolve(builtin_plugins() + later, encoding.metadata_of()) == (Ok::<
            ChunkKeyEncoding,
            PluginCreateErrorModel,
        >(encoding)),
        resolve(builtin_plugins(), encoding.metadata_of()) == (Ok::<
            ChunkKeyEncoding,
            PluginCreateErrorModel,
        >(encoding)),
        forall|g: Seq<u64>|
            resolve(builtin_plugins(), encoding.metadata_of())->Ok_0.key_of(g)
                == #[trigger] encoding.key_of(g),
{
    reveal_strlit("default");
    reveal_strlit("v2");
    let md = encoding.metadata_of();
    let all = builtin_plugins() + later;
    assert(all[0] == builtin_plugins()[0]);
    assert(all[1] == builtin_plugins()[1]);
    match encoding {
        ChunkKeyEncoding::Default(e) => {
            lemma_separator_metadata(DEFAULT@, e.separator, ChunkKeySeparator::Slash);
            lemma_resolve_first_match(all, md, 0);
            lemma_resolve_first_match(builtin_plugins(), md, 0);
        },
        ChunkKeyEncoding::V2(e) => {
            lemma_separator_metadata(V2@, e.separator, ChunkKeySeparator::Dot);
            assert(DEFAULT@ != V2@) by {
                assert(DEFAULT@.len() != V2@.len());
            }
            lemma_resolve_first_match(all, md, 1);
            lemma_resolve_first_match(builtin_plugins(), md, 1);
        },
    }
}

/// A catalog of chunk key encoding plugins, searched in the order of
/// registration.
#[derive(Debug, Clone)]
pub struct ChunkKeyEncodingRegistry {
    plugins: Vec<ChunkKeyEncodingPlugin>,
}

impl View for ChunkKeyEncodingRegistry {
    type V = Seq<(Seq<char>, ChunkKeyEncodingConstructor)>;

    closed spec fn view(&self) -> Seq<(Seq<char>, ChunkKeyEncodingConstructor)> {
        self.plugins@.map_values(|p: ChunkKeyEncodingPlugin| p@)
    }
}

impl ChunkKeyEncodingRegistry {
    /// A registry without plugins.
    pub fn new() -> (r: Self)
        ensures
            r@ == Seq::<(Seq<char>, ChunkKeyEncodingConstructor)>::empty(),
    {
        let r = ChunkKeyEncodingRegistry { plugins: Vec::new() };
        assert(r@ =~= Seq::<(Seq<char>, ChunkKeyEncodingConstructor)>::empty());
        r
    }

    /// A registry with the encodings of this library: `default`, then `v2`.
    pub fn builtin() -> (r: Self)
        ensures
            r@ == builtin_plugins(),
    {
        let mut r = ChunkKeyEncodingRegistry::new();
        r.register(ChunkKeyEncodingPlugin::new(DEFAULT, ChunkKeyEncodingConstructor::Default));
        r.register(ChunkKeyEncodingPlugin::new(V2, ChunkKeyEncodingConstructor::V2));
        assert(r@ =~= builtin_plugins());
        r
    }

    /// Adds `plugin` after the plugins already registered.
    pub fn register(&mut self, plugin: ChunkKeyEncodingPlugin)
        ensures
            final(self)@ == old(self)@.push(plugin@),
    {
        self.plugins.push(plugin);
        assert(final(self)@ =~= old(self)@.push(plugin@));
    }

    /// The number of registered plugins.
    pub fn len(&self) -> (r: usize)
        ensures
            r == self@.len(),
    {
        self.plugins.len()
    }

    /// Creates a chunk key encoding from `metadata` with the first plugin
    /// whose identifier equals its name.
    pub fn from_metadata(&self, metadata: &MetadataV3) -> (r: Result<
        ChunkKeyEncoding,
        PluginCreateError,
    >)
        ensures
            outcome(r) == resolve(self@, metadata@),
    {
        let name = metadata.name();
        let mut i: usize = 0;
        assert(self@.skip(0) =~= self@);
        while i < self.plugins.len()
            invariant
                i <= self@.len(),
                self@.len() == self.plugins@.len(),
                name@ == metadata@.name,
                resolve(self@, metadata@) == resolve(self@.skip(i as int), metadata@),
            decreases self@.len() - i,
        {
            let plugin = &self.plugins[i];
            assert(self@.skip(i as int)[0] == plugin@);
            if plugin.match_name(name) {
                return plugin.create(metadata);
            }
            assert(self@.skip(i as int).drop_first() =~= self@.skip(i + 1));
            i = i + 1;
        }
        assert(self@.skip(i as int).len() == 0);
        Err(PluginUnsupportedError::new(String::from_str(name), String::from_str(PLUGIN_TYPE)))
    }
}

} // verus!
