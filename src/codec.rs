//! What codecs share: the decoded chunk's representation, errors, hints, and
//! the naming of codecs in the metadata they emit.
use vstd::prelude::*;
use vstd::string::*;

verus! {

/// The number of elements of an array of shape `shape`.
pub open spec fn shape_product(shape: Seq<u64>) -> int
    decreases shape.len(),
{
    if shape.len() == 0 {
        1
    } else {
        shape_product(shape.drop_last()) * shape.last()
    }
}

/// A shape with a zero dimension has no elements.
proof fn lemma_product_zero(shape: Seq<u64>, i: int)
    requires
        0 <= i < shape.len(),
        shape[i] == 0,
    ensures
        shape_product(shape) == 0,
    decreases shape.len(),
{
    if i < shape.len() - 1 {
        lemma_product_zero(shape.drop_last(), i);
    }
}

/// Without zero dimensions, a shape has at least as many elements as any of
/// its prefixes.
proof fn lemma_product_grows(shape: Seq<u64>, i: int)
    requires
        0 <= i <= shape.len(),
        forall|j: int| 0 <= j < shape.len() ==> #[trigger] shape[j] > 0,
    ensures
        shape_product(shape) >= shape_product(shape.take(i)),
        shape_product(shape.take(i)) >= 1,
    decreases shape.len(),
{
    if i == shape.len() {
        assert(shape.take(i) =~= shape);
        if shape.len() > 0 {
            lemma_product_grows(shape.drop_last(), i - 1);
            assert(shape.drop_last().take(i - 1) =~= shape.drop_last());
            let p = shape_product(shape.drop_last());
            assert(p * shape.last() >= 1) by (nonlinear_arith)
                requires
                    p >= 1,
                    shape.last() >= 1,
            ;
        }
    } else {
        lemma_product_grows(shape.drop_last(), i);
        assert(shape.drop_last().take(i) =~= shape.take(i));
        lemma_product_grows(shape.drop_last(), shape.len() - 1);
        assert(shape.drop_last().take(shape.len() - 1) =~= shape.drop_last());
        let p = shape_product(shape.drop_last());
        assert(p * shape.last() >= p) by (nonlinear_arith)
            requires
                p >= 1,
                shape.last() >= 1,
        ;
    }
}

/// The decoded side of a chunk: its shape.
#[derive(Debug, Clone)]
pub struct ChunkRepresentation {
    shape: Vec<u64>,
    num_elements: u64,
}

impl ChunkRepresentation {
    /// The shape of the chunk.
    pub closed spec fn spec_shape(&self) -> Seq<u64> {
        self.shape@
    }

    /// The number of elements of the chunk.
    pub closed spec fn spec_num_elements(&self) -> nat {
        self.num_elements as nat
    }

    /// The number of elements is the product of the shape.
    pub closed spec fn wf(&self) -> bool {
        self.num_elements == shape_product(self.shape@)
    }

    /// The representation of a chunk of shape `shape`, if its number of
    /// elements fits in a `u64`.
    pub fn new(shape: Vec<u64>) -> (r: Option<ChunkRepresentation>)
        ensures
            r is Some <==> shape_product(shape@) <= u64::MAX,
            match r {
                Some(c) => c.wf() && c.spec_shape() == shape@ && c.spec_num_elements()
                    == shape_product(shape@),
                None => true,
            },
    {
        let ghost s = shape@;
        let mut k: usize = 0;
        while k < shape.len()
            invariant
                k <= s.len(),
                s == shape@,
                forall|j: int| 0 <= j < k ==> #[trigger] s[j] > 0,
            decreases s.len() - k,
        {
            if shape[k] == 0 {
                proof {
                    lemma_product_zero(s, k as int);
                }
                return Some(ChunkRepresentation { shape, num_elements: 0 });
            }
            k = k + 1;
        }
        let mut acc: u64 = 1;
        let mut i: usize = 0;
        assert(s.take(0) =~= Seq::<u64>::empty());
        while i < shape.len()
            invariant
                i <= s.len(),
                s == shape@,
                forall|j: int| 0 <= j < s.len() ==> #[trigger] s[j] > 0,
                acc == shape_product(s.take(i as int)),
            decreases s.len() - i,
        {
            assert(s.take(i + 1).drop_last() =~= s.take(i as int));
            match acc.checked_mul(shape[i]) {
                Some(next) => {
                    acc = next;
                },
                None => {
                    proof {
                        lemma_product_grows(s, i + 1);
                    }
                    return None;
                },
            }
            i = i + 1;
        }
        assert(s.take(s.len() as int) =~= s);
        Some(ChunkRepresentation { shape, num_elements: acc })
    }

    /// The shape of the chunk.
    pub fn shape(&self) -> (r: &Vec<u64>)
        ensures
            r@ == self.spec_shape(),
    {
        &self.shape
    }

    /// The number of elements of the chunk.
    pub fn num_elements(&self) -> (r: u64)
        ensures
            r == self.spec_num_elements(),
    {
        self.num_elements
    }
}

/// An error of encoding or decoding a chunk.
#[derive(Debug, Clone, Copy, PartialEq, Eq, Structural)]
pub enum CodecError {
    /// The decoded value has another number of elements than the representation.
    UnexpectedElementCount { expected: u64, got: u64 },
    /// An element or the element count does not fit the format's length fields.
    ElementTooLong,
    /// The bytes are not a valid encoding for the representation.
    InvalidEncoding,
    /// A requested range of elements lies outside the chunk.
    InvalidSubset,
    /// The codec cannot do the requested operation.
    UnsupportedOperation,
}

/// The encoded size of a chunk.
#[derive(Debug, Clone, Copy, PartialEq, Eq, Structural)]
pub enum BytesRepresentation {
    /// Exactly this many bytes.
    FixedSize(u64),
    /// At most this many bytes.
    BoundedSize(u64),
    /// Known only after encoding.
    UnboundedSize,
}

/// How much parallelism a codec can use on one chunk: a hint for schedulers.
#[derive(Debug, Clone, Copy, PartialEq, Eq, Structural)]
pub struct RecommendedConcurrency {
    pub min: u64,
    pub max: u64,
}

/// Options for the metadata that codecs emit.
#[derive(Debug, Clone, Copy, PartialEq, Eq, Structural)]
pub struct CodecMetadataOptions {
    /// Whether identifiers are emitted under the names of the alias table.
    pub convert_aliased_extension_names: bool,
}

impl CodecMetadataOptions {
    /// Options that emit identifiers unchanged.
    pub fn new() -> (r: Self)
        ensures
            !r.convert_aliased_extension_names,
    {
        CodecMetadataOptions { convert_aliased_extension_names: false }
    }

    /// Sets whether identifiers are emitted under the names of the alias table.
    pub fn set_convert_aliased_extension_names(&mut self, convert: bool)
        ensures
            final(self).convert_aliased_extension_names == convert,
    {
        self.convert_aliased_extension_names = convert;
    }
}

/// The name that the alias entries give `identifier`: the latest entry for it.
pub open spec fn alias_of(entries: Seq<(Seq<char>, Seq<char>)>, identifier: Seq<char>) -> Option<
    Seq<char>,
>
    decreases entries.len(),
{
    if entries.len() == 0 {
        None
    } else if entries.last().0 == identifier {
        Some(entries.last().1)
    } else {
        alias_of(entries.drop_last(), identifier)
    }
}

/// The name under which `identifier` is emitted: its alias where `convert`
/// is set and it has one, else the identifier itself.
pub open spec fn emitted_name(
    entries: Seq<(Seq<char>, Seq<char>)>,
    identifier: Seq<char>,
    convert: bool,
) -> Seq<char> {
    if convert {
        match alias_of(entries, identifier) {
            Some(name) => name,
            None => identifier,
        }
    } else {
        identifier
    }
}

/// A table of preferred names for codec identifiers.
#[derive(Debug, Clone)]
pub struct CodecAliases {
    default_names: Vec<(String, String)>,
}

impl View for CodecAliases {
    type V = Seq<(Seq<char>, Seq<char>)>;

    closed spec fn view(&self) -> Seq<(Seq<char>, Seq<char>)> {
        self.default_names@.map_values(|e: (String, String)| (e.0@, e.1@))
    }
}

impl CodecAliases {
    /// A table without aliases.
    pub fn new() -> (r: Self)
        ensures
            r@ == Seq::<(Seq<char>, Seq<char>)>::empty(),
    {
        let r = CodecAliases { default_names: Vec::new() };
        assert(r@ =~= Seq::<(Seq<char>, Seq<char>)>::empty());
        r
    }

    /// Makes `name` the preferred name of `identifier`.
    pub fn set_default_name(&mut self, identifier: &str, name: &str)
        ensures
            final(self)@ == old(self)@.push((identifier@, name@)),
    {
        self.default_names.push((String::from_str(identifier), String::from_str(name)));
        assert(final(self)@ =~= old(self)@.push((identifier@, name@)));
    }

    /// The preferred name of `identifier`, if the table gives one.
    pub fn alias(&self, identifier: &str) -> (r: Option<String>)
        ensures
            match r {
                Some(n) => alias_of(self@, identifier@) == Some(n@),
                None => alias_of(self@, identifier@) is None,
            },
    {
        let id = String::from_str(identifier);
        let mut i: usize = self.default_names.len();
        assert(self@.take(i as int) =~= self@);
        while i > 0
            invariant
                i <= self@.len(),
                self@.len() == self.default_names@.len(),
                id@ == identifier@,
                alias_of(self@, identifier@) == alias_of(self@.take(i as int), identifier@),
            decreases i,
        {
            let entry = &self.default_names[i - 1];
            assert(self@.take(i as int).last() == (entry.0@, entry.1@));
            if entry.0 == id {
                return Some(entry.1.clone());
            }
            assert(self@.take(i as int).drop_last() =~= self@.take(i - 1));
            i = i - 1;
        }
        None
    }

    /// The name under which `identifier` is emitted with `options`.
    pub fn emitted_name(&self, identifier: &str, options: &CodecMetadataOptions) -> (r: String)
        ensures
            r@ == emitted_name(self@, identifier@, options.convert_aliased_extension_names),
    {
        if options.convert_aliased_extension_names {
            match self.alias(identifier) {
                Some(name) => name,
                None => String::from_str(identifier),
            }
        } else {
            String::from_str(identifier)
        }
    }
}

/// After `identifier` is given the alias `name`, metadata emitted with alias
/// conversion names it `name`, and metadata emitted without names it by the
/// identifier itself: one name in either case.
pub proof fn lemma_alias_naming(
    entries: Seq<(Seq<char>, Seq<char>)>,
    identifier: Seq<char>,
    name: Seq<char>,
)
    ensures
        emitted_name(entries.push((identifier, name)), identifier, true) == name,
        emitted_name(entries.push((identifier, name)), identifier, false) == identifier,
        emitted_name(entries, identifier, false) == identifier,
{
}

} // verus!
