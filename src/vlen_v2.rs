//! The `vlen-v2` format of variable-length elements: a little-endian `u32`
//! element count, then for each element a little-endian `u32` byte length
//! followed by its bytes.
use vstd::prelude::*;
use vstd::slice::{slice_subrange, slice_to_vec};
use vstd::string::*;

use crate::codec::{
    emitted_name, BytesRepresentation, ChunkRepresentation, CodecAliases, CodecError,
    CodecMetadataOptions, RecommendedConcurrency,
};
use crate::metadata::{MetadataModel, MetadataV3};
use crate::plugin::{
    PluginCreateError, PluginCreateErrorModel, PluginMetadataInvalidError, PluginUnsupportedError,
};

verus! {

/// The four little-endian bytes of `n`.
pub open spec fn le_bytes(n: u32) -> Seq<u8> {
    seq![n as u8, (n >> 8u32) as u8, (n >> 16u32) as u8, (n >> 24u32) as u8]
}

/// The `u32` whose little-endian bytes are `b0` to `b3`.
pub open spec fn le_value(b0: u8, b1: u8, b2: u8, b3: u8) -> u32 {
    (b0 as u32) | ((b1 as u32) << 8u32) | ((b2 as u32) << 16u32) | ((b3 as u32) << 24u32)
}

/// The `u32` stored little-endian in `b` at `pos`.
pub open spec fn le_at(b: Seq<u8>, pos: int) -> u32 {
    le_value(b[pos], b[pos + 1], b[pos + 2], b[pos + 3])
}

/// The elements as byte sequences.
pub open spec fn elements_view(v: Seq<Vec<u8>>) -> Seq<Seq<u8>> {
    v.map_values(|x: Vec<u8>| x@)
}

/// Whether the elements can be written: their count and each length fit in a `u32`.
pub open spec fn encodable(elements: Seq<Seq<u8>>) -> bool {
    elements.len() <= u32::MAX && forall|i: int|
        0 <= i < elements.len() ==> #[trigger] elements[i].len() <= u32::MAX
}

/// The length prefix and bytes of one element.
pub open spec fn element_bytes(element: Seq<u8>) -> Seq<u8> {
    le_bytes(element.len() as u32) + element
}

/// The length-prefixed elements, one after another.
pub open spec fn elements_bytes(elements: Seq<Seq<u8>>) -> Seq<u8>
    decreases elements.len(),
{
    if elements.len() == 0 {
        Seq::empty()
    } else {
        elements_bytes(elements.drop_last()) + element_bytes(elements.last())
    }
}

/// The encoding of `elements`: their count, then the length-prefixed elements.
pub open spec fn vlen_encoded(elements: Seq<Seq<u8>>) -> Seq<u8> {
    le_bytes(elements.len() as u32) + elements_bytes(elements)
}

/// The `count` length-prefixed elements that `b` holds from `pos` to its end,
/// if it holds exactly that.
pub open spec fn parse_elements(b: Seq<u8>, pos: int, count: nat) -> Option<Seq<Seq<u8>>>
    decreases count,
{
    if count == 0 {
        if pos == b.len() {
            Some(Seq::empty())
        } else {
            None
        }
    } else if pos < 0 || pos + 4 > b.len() {
        None
    } else {
        let end = pos + 4 + le_at(b, pos);
        if end > b.len() {
            None
        } else {
            match parse_elements(b, end, (count - 1) as nat) {
                Some(rest) => Some(seq![b.subrange(pos + 4, end)] + rest),
                None => None,
            }
        }
    }
}

/// The `count` elements that the encoding `b` holds, if it is a valid
/// encoding of exactly `count` elements.
pub open spec fn vlen_decoded(b: Seq<u8>, count: nat) -> Option<Seq<Seq<u8>>> {
    if b.len() < 4 || le_at(b, 0) != count {
        None
    } else {
        parse_elements(b, 4, count)
    }
}

/// `prefix` before what `rest` holds, if it holds anything.
pub open spec fn prepend(prefix: Seq<Seq<u8>>, rest: Option<Seq<Seq<u8>>>) -> Option<Seq<Seq<u8>>> {
    match rest {
        Some(r) => Some(prefix + r),
        None => None,
    }
}

proof fn lemma_le_round_trip(n: u32)
    ensures
        le_value(n as u8, (n >> 8u32) as u8, (n >> 16u32) as u8, (n >> 24u32) as u8) == n,
{
    assert(((n as u8) as u32) | ((((n >> 8u32) as u8) as u32) << 8u32) | ((((n >> 16u32) as u8)
        as u32) << 16u32) | ((((n >> 24u32) as u8) as u32) << 24u32) == n) by (bit_vector);
}

/// Splits off the first element of the length-prefixed elements.
proof fn lemma_elements_bytes_first(elements: Seq<Seq<u8>>)
    requires
        elements.len() > 0,
    ensures
        elements_bytes(elements) == element_bytes(elements[0]) + elements_bytes(
            elements.drop_first(),
        ),
    decreases elements.len(),
{
    if elements.len() == 1 {
        assert(elements.drop_last() =~= Seq::<Seq<u8>>::empty());
        assert(elements.drop_first() =~= Seq::<Seq<u8>>::empty());
        assert(elements_bytes(elements.drop_last()) == Seq::<u8>::empty());
        assert(elements_bytes(elements.drop_first()) == Seq::<u8>::empty());
        assert(elements_bytes(elements) =~= element_bytes(elements[0]));
    } else {
        let init = elements.drop_last();
        lemma_elements_bytes_first(init);
        assert(init.drop_first() =~= elements.drop_first().drop_last());
        assert(elements.drop_first().last() == elements.last());
        assert(elements_bytes(elements) =~= element_bytes(elements[0]) + elements_bytes(
            elements.drop_first(),
        ));
    }
}

/// Length-prefixed elements that stand at the end of `b` from `pos` parse back.
proof fn lemma_parse_elements(b: Seq<u8>, pos: int, elements: Seq<Seq<u8>>)
    requires
        0 <= pos <= b.len(),
        encodable(elements),
        b.subrange(pos, b.len() as int) == elements_bytes(elements),
    ensures
        parse_elements(b, pos, elements.len()) == Some(elements),
    decreases elements.len(),
{
    if elements.len() == 0 {
        assert(elements =~= Seq::<Seq<u8>>::empty());
        assert(elements_bytes(elements) == Seq::<u8>::empty());
        assert(b.subrange(pos, b.len() as int).len() == 0);
        assert(pos == b.len());
    } else {
        let first = elements[0];
        let rest = elements.drop_first();
        lemma_elements_bytes_first(elements);
        let n = first.len() as u32;
        lemma_le_round_trip(n);
        let t = b.subrange(pos, b.len() as int);
        assert(t == le_bytes(n) + first + elements_bytes(rest));
        let first_len = first.len() as int;
        assert(t.len() == 4 + first_len + elements_bytes(rest).len());
        assert(b[pos] == t[0]);
        assert(b[pos + 1] == t[1]);
        assert(b[pos + 2] == t[2]);
        assert(b[pos + 3] == t[3]);
        assert(le_at(b, pos) == n);
        let end = pos + 4 + first.len();
        assert(t.subrange(4, 4 + first_len) =~= first);
        assert(t.subrange(4 + first_len, t.len() as int) =~= elements_bytes(rest));
        assert(b.subrange(pos + 4, end) =~= t.subrange(4, 4 + first_len));
        assert(b.subrange(end, b.len() as int) =~= t.subrange(4 + first_len, t.len() as int));
        assert forall|i: int| 0 <= i < rest.len() implies #[trigger] rest[i].len() <= u32::MAX by {
            assert(rest[i] == elements[i + 1]);
        }
        lemma_parse_elements(b, end, rest);
        assert(parse_elements(b, end, rest.len()) == Some(rest));
        assert((elements.len() - 1) as nat == rest.len());
        assert(!(end > b.len()));
        assert(seq![first] + rest =~= elements);
    }
}

/// Decoding the encoding of writable elements gives them back.
pub proof fn lemma_vlen_round_trip(elements: Seq<Seq<u8>>)
    requires
        encodable(elements),
    ensures
        vlen_decoded(vlen_encoded(elements), elements.len()) == Some(elements),
{
    let b = vlen_encoded(elements);
    lemma_le_round_trip(elements.len() as u32);
    assert(b.subrange(4, b.len() as int) =~= elements_bytes(elements));
    lemma_parse_elements(b, 4, elements);
}

/// Appends the little-endian bytes of `n` to `out`.
fn push_le(out: &mut Vec<u8>, n: u32)
    ensures
        final(out)@ == old(out)@ + le_bytes(n),
{
    out.push(n as u8);
    out.push((n >> 8u32) as u8);
    out.push((n >> 16u32) as u8);
    out.push((n >> 24u32) as u8);
    assert(final(out)@ =~= old(out)@ + le_bytes(n));
}

/// The `u32` stored little-endian in `b` at `pos`.
fn read_le(b: &[u8], pos: usize) -> (r: u32)
    requires
        pos + 4 <= b@.len(),
    ensures
        r == le_at(b@, pos as int),
{
    (b[pos] as u32) | ((b[pos + 1] as u32) << 8u32) | ((b[pos + 2] as u32) << 16u32) | ((b[pos
        + 3] as u32) << 24u32)
}

/// Writes `elements` in the `vlen-v2` format.
pub fn encode_elements(elements: &Vec<Vec<u8>>) -> (r: Vec<u8>)
    requires
        encodable(elements_view(elements@)),
    ensures
        r@ == vlen_encoded(elements_view(elements@)),
{
    let ghost e = elements_view(elements@);
    let mut out: Vec<u8> = Vec::new();
    push_le(&mut out, elements.len() as u32);
    let mut i: usize = 0;
    while i < elements.len()
        invariant
            i <= elements@.len(),
            e == elements_view(elements@),
            encodable(e),
            out@ == le_bytes(e.len() as u32) + elements_bytes(e.take(i as int)),
        decreases elements@.len() - i,
    {
        let element = &elements[i];
        assert(e[i as int] == element@);
        assert(element@.len() <= u32::MAX);
        push_le(&mut out, element.len() as u32);
        let mut copy = slice_to_vec(element.as_slice());
        out.append(&mut copy);
        proof {
            assert(e.take(i + 1).drop_last() =~= e.take(i as int));
            assert(out@ =~= le_bytes(e.len() as u32) + elements_bytes(e.take(i + 1)));
        }
        i = i + 1;
    }
    assert(e.take(e.len() as int) =~= e);
    out
}

/// Reads exactly `count` elements from `bytes`, or none if `bytes` is not a
/// valid encoding of that many.
pub fn decode_elements(bytes: &[u8], count: u64) -> (r: Option<Vec<Vec<u8>>>)
    ensures
        match r {
            Some(v) => vlen_decoded(bytes@, count as nat) == Some(elements_view(v@)),
            None => vlen_decoded(bytes@, count as nat) is None,
        },
{
    let ghost b = bytes@;
    let len = bytes.len();
    if len < 4 {
        return None;
    }
    let stored = read_le(bytes, 0);
    if stored as u64 != count {
        return None;
    }
    let mut out: Vec<Vec<u8>> = Vec::new();
    let mut pos: usize = 4;
    let mut i: u64 = 0;
    assert(elements_view(out@) =~= Seq::<Seq<u8>>::empty());
    assert(prepend(Seq::empty(), parse_elements(b, 4, count as nat)) == parse_elements(
        b,
        4,
        count as nat,
    )) by {
        match parse_elements(b, 4, count as nat) {
            Some(r) => assert(Seq::<Seq<u8>>::empty() + r =~= r),
            None => {},
        }
    }
    while i < count
        invariant
            b == bytes@,
            len == b.len(),
            4 <= pos <= len,
            i <= count,
            vlen_decoded(b, count as nat) == prepend(
                elements_view(out@),
                parse_elements(b, pos as int, (count - i) as nat),
            ),
        decreases count - i,
    {
        if len - pos < 4 {
            return None;
        }
        let n = read_le(bytes, pos) as usize;
        if n > len - pos - 4 {
            return None;
        }
        let end = pos + 4 + n;
        let element = slice_to_vec(slice_subrange(bytes, pos + 4, end));
        let ghost old_out = elements_view(out@);
        out.push(element);
        proof {
            let rest = parse_elements(b, end as int, (count - i - 1) as nat);
            assert(elements_view(out@) =~= old_out.push(element@));
            match rest {
                Some(r) => {
                    assert(old_out + (seq![element@] + r) =~= old_out.push(element@) + r);
                },
                None => {},
            }
        }
        pos = end;
        i = i + 1;
    }
    if pos != len {
        return None;
    }
    assert(elements_view(out@) + Seq::<Seq<u8>>::empty() =~= elements_view(out@));
    Some(out)
}

/// Whether all elements fit the format's length fields.
fn check_encodable(elements: &Vec<Vec<u8>>) -> (r: bool)
    ensures
        r == encodable(elements_view(elements@)),
{
    let ghost e = elements_view(elements@);
    if elements.len() > u32::MAX as usize {
        return false;
    }
    let mut i: usize = 0;
    while i < elements.len()
        invariant
            i <= elements@.len(),
            e == elements_view(elements@),
            elements@.len() <= u32::MAX,
            forall|j: int| 0 <= j < i ==> #[trigger] e[j].len() <= u32::MAX,
        decreases elements@.len() - i,
    {
        assert(e[i as int] == elements[i as int]@);
        if elements[i].len() > u32::MAX as usize {
            return false;
        }
        i = i + 1;
    }
    true
}

/// What encoding `elements` for a chunk of `num_elements` elements gives.
pub open spec fn encode_outcome(elements: Seq<Seq<u8>>, num_elements: nat) -> Result<
    Seq<u8>,
    CodecError,
> {
    if elements.len() != num_elements {
        Err(
            CodecError::UnexpectedElementCount {
                expected: num_elements as u64,
                got: elements.len() as u64,
            },
        )
    } else if !encodable(elements) {
        Err(CodecError::ElementTooLong)
    } else {
        Ok(vlen_encoded(elements))
    }
}

/// What decoding `bytes` for a chunk of `num_elements` elements gives.
pub open spec fn decode_outcome(bytes: Seq<u8>, num_elements: nat) -> Result<
    Seq<Seq<u8>>,
    CodecError,
> {
    match vlen_decoded(bytes, num_elements) {
        Some(e) => Ok(e),
        None => Err(CodecError::InvalidEncoding),
    }
}

/// What decoding the `count` elements from `start` of the chunk `bytes` gives:
/// those elements of the full decoding, or an error.
pub open spec fn partial_decode_outcome(
    bytes: Seq<u8>,
    num_elements: nat,
    start: nat,
    count: nat,
) -> Result<Seq<Seq<u8>>, CodecError> {
    match decode_outcome(bytes, num_elements) {
        Ok(e) => if start + count <= e.len() {
            Ok(e.subrange(start as int, (start + count) as int))
        } else {
            Err(CodecError::InvalidSubset)
        },
        Err(x) => Err(x),
    }
}

/// The outcome of a codec call, with the elements by their bytes.
pub open spec fn elements_outcome(r: Result<Vec<Vec<u8>>, CodecError>) -> Result<
    Seq<Seq<u8>>,
    CodecError,
> {
    match r {
        Ok(v) => Ok(elements_view(v@)),
        Err(x) => Err(x),
    }
}

/// The outcome of an encoding, with the bytes by their values.
pub open spec fn bytes_outcome(r: Result<Vec<u8>, CodecError>) -> Result<Seq<u8>, CodecError> {
    match r {
        Ok(v) => Ok(v@),
        Err(x) => Err(x),
    }
}

/// The codec of variable-length elements in the `vlen-v2` format.
#[derive(Debug, Clone, Copy, PartialEq, Eq, Structural)]
pub struct VlenV2Codec {}

impl VlenV2Codec {
    /// Creates the codec.
    pub fn new() -> (r: Self) {
        VlenV2Codec {  }
    }

    /// Encodes the elements of a chunk.
    pub fn encode(
        &self,
        elements: &Vec<Vec<u8>>,
        decoded_representation: &ChunkRepresentation,
    ) -> (r: Result<Vec<u8>, CodecError>)
        ensures
            bytes_outcome(r) == encode_outcome(
                elements_view(elements@),
                decoded_representation.spec_num_elements(),
            ),
    {
        let expected = decoded_representation.num_elements();
        if elements.len() as u64 != expected {
            return Err(
                CodecError::UnexpectedElementCount { expected, got: elements.len() as u64 },
            );
        }
        if !check_encodable(elements) {
            return Err(CodecError::ElementTooLong);
        }
        Ok(encode_elements(elements))
    }

    /// Decodes the elements of a chunk.
    pub fn decode(&self, bytes: &[u8], decoded_representation: &ChunkRepresentation) -> (r: Result<
        Vec<Vec<u8>>,
        CodecError,
    >)
        ensures
            elements_outcome(r) == decode_outcome(
                bytes@,
                decoded_representation.spec_num_elements(),
            ),
    {
        match decode_elements(bytes, decoded_representation.num_elements()) {
            Some(v) => Ok(v),
            None => Err(CodecError::InvalidEncoding),
        }
    }

    /// Decodes `count` elements from `start` of a chunk, by decoding all of it.
    pub fn partial_decode(
        &self,
        bytes: &[u8],
        decoded_representation: &ChunkRepresentation,
        start: u64,
        count: u64,
    ) -> (r: Result<Vec<Vec<u8>>, CodecError>)
        ensures
            elements_outcome(r) == partial_decode_outcome(
                bytes@,
                decoded_representation.spec_num_elements(),
                start as nat,
                count as nat,
            ),
    {
        let all = self.decode(bytes, decoded_representation)?;
        let n = all.len() as u64;
        if start > n || count > n - start {
            return Err(CodecError::InvalidSubset);
        }
        let mut out: Vec<Vec<u8>> = Vec::new();
        let mut i: u64 = start;
        let end = start + count;
        while i < end
            invariant
                start <= i <= end,
                end <= all@.len(),
                elements_view(out@) == elements_view(all@).subrange(start as int, i as int),
            decreases end - i,
        {
            let element = slice_to_vec(all[i as usize].as_slice());
            let ghost old_out = elements_view(out@);
            out.push(element);
            assert(elements_view(all@)[i as int] == all@[i as int]@);
            assert(elements_view(out@) =~= old_out.push(element@));
            assert(elements_view(out@) =~= elements_view(all@).subrange(start as int, i + 1));
            i = i + 1;
        }
        Ok(out)
    }

    /// Whether a partial decoder decodes the whole chunk: it does.
    pub fn partial_decoder_decodes_all(&self) -> (r: bool)
        ensures
            r,
    {
        true
    }

    /// Whether a partial decoder should keep its input: it need not.
    pub fn partial_decoder_should_cache_input(&self) -> (r: bool)
        ensures
            !r,
    {
        false
    }

    /// The size of an encoded chunk: known only after encoding.
    pub fn encoded_representation(&self, decoded_representation: &ChunkRepresentation) -> (r:
        BytesRepresentation)
        ensures
            r == BytesRepresentation::UnboundedSize,
    {
        BytesRepresentation::UnboundedSize
    }

    /// The parallelism the codec can use on one chunk: none.
    pub fn recommended_concurrency(&self, decoded_representation: &ChunkRepresentation) -> (r:
        RecommendedConcurrency)
        ensures
            r == (RecommendedConcurrency { min: 1, max: 1 }),
    {
        RecommendedConcurrency { min: 1, max: 1 }
    }

    /// Partial encoding, which this format cannot do in place.
    pub fn partial_encode(
        &self,
        bytes: &[u8],
        decoded_representation: &ChunkRepresentation,
        start: u64,
        elements: &Vec<Vec<u8>>,
    ) -> (r: Result<Vec<u8>, CodecError>)
        ensures
            r == Err::<Vec<u8>, CodecError>(CodecError::UnsupportedOperation),
    {
        Err(CodecError::UnsupportedOperation)
    }
}

/// Decoding the encoding of a chunk gives back its elements, for every chunk
/// whose elements match its representation and fit the length fields.
pub proof fn lemma_codec_round_trip(elements: Seq<Seq<u8>>, num_elements: nat)
    requires
        elements.len() == num_elements,
        encodable(elements),
    ensures
        encode_outcome(elements, num_elements) is Ok,
        decode_outcome(encode_outcome(elements, num_elements)->Ok_0, num_elements) == (Ok::<
            Seq<Seq<u8>>,
            CodecError,
        >(elements)),
{
    lemma_vlen_round_trip(elements);
}

/// A partial decoding gives the same elements as slicing the full decoding.
pub proof fn lemma_partial_decode_slices(
    bytes: Seq<u8>,
    num_elements: nat,
    start: nat,
    count: nat,
)
    requires
        decode_outcome(bytes, num_elements) is Ok,
        start + count <= decode_outcome(bytes, num_elements)->Ok_0.len(),
    ensures
        partial_decode_outcome(bytes, num_elements, start, count) == (Ok::<
            Seq<Seq<u8>>,
            CodecError,
        >(decode_outcome(bytes, num_elements)->Ok_0.subrange(start as int, (start + count) as int))),
{
}

/// The name of the `vlen-array` codec.
pub const VLEN_ARRAY: &'static str = "vlen-array";

/// The name of the `vlen-bytes` codec.
pub const VLEN_BYTES: &'static str = "vlen-bytes";

/// The name of the `vlen-utf8` codec.
pub const VLEN_UTF8: &'static str = "vlen-utf8";

/// The name of the codec plugin family.
pub const CODEC_PLUGIN_TYPE: &'static str = "codec";

/// The public names under which the `vlen-v2` format is published.
#[derive(Debug, Clone, Copy, PartialEq, Eq, Structural)]
pub enum VlenV2Name {
    /// `vlen-array`
    VlenArray,
    /// `vlen-bytes`
    VlenBytes,
    /// `vlen-utf8`
    VlenUtf8,
}

impl VlenV2Name {
    /// The identifier of the name.
    pub open spec fn spec_identifier(self) -> Seq<char> {
        match self {
            VlenV2Name::VlenArray => VLEN_ARRAY@,
            VlenV2Name::VlenBytes => VLEN_BYTES@,
            VlenV2Name::VlenUtf8 => VLEN_UTF8@,
        }
    }
}

/// A `vlen-v2` codec published under one of its names: it reports that name
/// and does all its work through the shared implementation.
#[derive(Debug, Clone, Copy, PartialEq, Eq, Structural)]
pub struct VlenV2AliasCodec {
    /// The name the codec is published under.
    pub name: VlenV2Name,
    /// The shared implementation.
    pub inner: VlenV2Codec,
}

/// What creating a `vlen-v2` codec from `metadata` gives: the codec of the
/// first name equal to the record's name, if the record has no configuration
/// fields; else an invalid-metadata or unsupported error.
pub open spec fn create_vlen_outcome(metadata: MetadataModel) -> Result<
    VlenV2AliasCodec,
    PluginCreateErrorModel,
> {
    let name = if metadata.name == VLEN_ARRAY@ {
        Some(VlenV2Name::VlenArray)
    } else if metadata.name == VLEN_BYTES@ {
        Some(VlenV2Name::VlenBytes)
    } else if metadata.name == VLEN_UTF8@ {
        Some(VlenV2Name::VlenUtf8)
    } else {
        None
    };
    match name {
        None => Err(
            PluginCreateErrorModel::Unsupported {
                name: metadata.name,
                plugin_type: CODEC_PLUGIN_TYPE@,
            },
        ),
        Some(n) => {
            let empty = match metadata.configuration {
                Some(c) => c.len() == 0,
                None => true,
            };
            if empty {
                Ok(VlenV2AliasCodec { name: n, inner: VlenV2Codec {  } })
            } else {
                Err(
                    PluginCreateErrorModel::MetadataInvalid {
                        identifier: n.spec_identifier(),
                        plugin_type: CODEC_PLUGIN_TYPE@,
                        metadata,
                    },
                )
            }
        },
    }
}

/// The outcome of creating a codec, with the error by its model.
pub open spec fn codec_outcome(r: Result<VlenV2AliasCodec, PluginCreateError>) -> Result<
    VlenV2AliasCodec,
    PluginCreateErrorModel,
> {
    match r {
        Ok(c) => Ok(c),
        Err(x) => Err(x@),
    }
}

impl VlenV2AliasCodec {
    /// The name the codec is published under.
    pub open spec fn spec_name(&self) -> VlenV2Name {
        self.name
    }

    /// The metadata record that the codec emits with the aliases `aliases`
    /// and alias conversion `convert`.
    pub open spec fn spec_metadata(
        &self,
        aliases: Seq<(Seq<char>, Seq<char>)>,
        convert: bool,
    ) -> MetadataModel {
        MetadataModel {
            name: emitted_name(aliases, self.name.spec_identifier(), convert),
            configuration: None,
        }
    }

    /// Creates the codec published under `name`.
    pub fn new(name: VlenV2Name) -> (r: Self)
        ensures
            r.spec_name() == name,
    {
        VlenV2AliasCodec { name, inner: VlenV2Codec::new() }
    }

    /// The identifier of the codec.
    pub fn identifier(&self) -> (r: &'static str)
        ensures
            r@ == self.name.spec_identifier(),
    {
        match self.name {
            VlenV2Name::VlenArray => VLEN_ARRAY,
            VlenV2Name::VlenBytes => VLEN_BYTES,
            VlenV2Name::VlenUtf8 => VLEN_UTF8,
        }
    }

    /// The name the codec emits in metadata with `aliases` and `options`.
    pub fn default_name(&self, aliases: &CodecAliases, options: &CodecMetadataOptions) -> (r:
        String)
        ensures
            r@ == emitted_name(
                aliases@,
                self.name.spec_identifier(),
                options.convert_aliased_extension_names,
            ),
    {
        aliases.emitted_name(self.identifier(), options)
    }

    /// Creates the metadata record of the codec: its emitted name, and no
    /// configuration.
    pub fn create_metadata(&self, aliases: &CodecAliases, options: &CodecMetadataOptions) -> (r:
        MetadataV3)
        ensures
            r@ == self.spec_metadata(aliases@, options.convert_aliased_extension_names),
    {
        let name = self.default_name(aliases, options);
        MetadataV3::new(name.as_str())
    }

    /// Creates a codec from `metadata`.
    pub fn from_metadata(metadata: &MetadataV3) -> (r: Result<VlenV2AliasCodec, PluginCreateError>)
        ensures
            codec_outcome(r) == create_vlen_outcome(metadata@),
    {
        let name = String::from_str(metadata.name());
        let found = if name == String::from_str(VLEN_ARRAY) {
            Some(VlenV2Name::VlenArray)
        } else if name == String::from_str(VLEN_BYTES) {
            Some(VlenV2Name::VlenBytes)
        } else if name == String::from_str(VLEN_UTF8) {
            Some(VlenV2Name::VlenUtf8)
        } else {
            None
        };
        match found {
            None => Err(PluginUnsupportedError::new(name, String::from_str(CODEC_PLUGIN_TYPE))),
            Some(n) => {
                let codec = VlenV2AliasCodec::new(n);
                if metadata.configuration_is_none_or_empty() {
                    Ok(codec)
                } else {
                    Err(
                        PluginMetadataInvalidError::new(
                            codec.identifier(),
                            CODEC_PLUGIN_TYPE,
                            metadata.copy(),
                        ),
                    )
                }
            },
        }
    }

    /// Encodes the elements of a chunk.
    pub fn encode(
        &self,
        elements: &Vec<Vec<u8>>,
        decoded_representation: &ChunkRepresentation,
    ) -> (r: Result<Vec<u8>, CodecError>)
        ensures
            bytes_outcome(r) == encode_outcome(
                elements_view(elements@),
                decoded_representation.spec_num_elements(),
            ),
    {
        self.inner.encode(elements, decoded_representation)
    }

    /// Decodes the elements of a chunk.
    pub fn decode(&self, bytes: &[u8], decoded_representation: &ChunkRepresentation) -> (r: Result<
        Vec<Vec<u8>>,
        CodecError,
    >)
        ensures
            elements_outcome(r) == decode_outcome(
                bytes@,
                decoded_representation.spec_num_elements(),
            ),
    {
        self.inner.decode(bytes, decoded_representation)
    }

    /// Decodes `count` elements from `start` of a chunk.
    pub fn partial_decode(
        &self,
        bytes: &[u8],
        decoded_representation: &ChunkRepresentation,
        start: u64,
        count: u64,
    ) -> (r: Result<Vec<Vec<u8>>, CodecError>)
        ensures
            elements_outcome(r) == partial_decode_outcome(
                bytes@,
                decoded_representation.spec_num_elements(),
                start as nat,
                count as nat,
            ),
    {
        self.inner.partial_decode(bytes, decoded_representation, start, count)
    }

    /// Whether a partial decoder decodes the whole chunk.
    pub fn partial_decoder_decodes_all(&self) -> (r: bool)
        ensures
            r,
    {
        self.inner.partial_decoder_decodes_all()
    }

    /// Whether a partial decoder should keep its input.
    pub fn partial_decoder_should_cache_input(&self) -> (r: bool)
        ensures
            !r,
    {
        self.inner.partial_decoder_should_cache_input()
    }

    /// The size of an encoded chunk.
    pub fn encoded_representation(&self, decoded_representation: &ChunkRepresentation) -> (r:
        BytesRepresentation)
        ensures
            r == BytesRepresentation::UnboundedSize,
    {
        self.inner.encoded_representation(decoded_representation)
    }

    /// The parallelism the codec can use on one chunk.
    pub fn recommended_concurrency(&self, decoded_representation: &ChunkRepresentation) -> (r:
        RecommendedConcurrency)
        ensures
            r == (RecommendedConcurrency { min: 1, max: 1 }),
    {
        self.inner.recommended_concurrency(decoded_representation)
    }
}

/// A codec's metadata emitted without alias conversion creates the same codec.
pub proof fn lemma_codec_metadata_round_trip(
    codec: VlenV2AliasCodec,
    aliases: Seq<(Seq<char>, Seq<char>)>,
)
    ensures
        create_vlen_outcome(codec.spec_metadata(aliases, false)) == (Ok::<
            VlenV2AliasCodec,
            PluginCreateErrorModel,
        >(codec)),
{
    reveal_strlit("vlen-array");
    reveal_strlit("vlen-bytes");
    reveal_strlit("vlen-utf8");
    assert(VLEN_ARRAY@ != VLEN_BYTES@) by {
        assert(VLEN_ARRAY@[5] != VLEN_BYTES@[5]);
    }
    assert(VLEN_ARRAY@ != VLEN_UTF8@) by {
        assert(VLEN_ARRAY@.len() != VLEN_UTF8@.len());
    }
    assert(VLEN_BYTES@ != VLEN_UTF8@) by {
        assert(VLEN_BYTES@.len() != VLEN_UTF8@.len());
    }
}

} // verus!
