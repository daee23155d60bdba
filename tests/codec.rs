use zarrs::codec::{
    BytesRepresentation, ChunkRepresentation, CodecAliases, CodecError, CodecMetadataOptions,
    RecommendedConcurrency,
};
use zarrs::metadata::MetadataV3;
use zarrs::plugin::PluginCreateError;
use zarrs::vlen_v2::{VlenV2AliasCodec, VlenV2Codec, VlenV2Name};

fn representation(shape: Vec<u64>) -> ChunkRepresentation {
    ChunkRepresentation::new(shape).unwrap()
}

fn elements() -> Vec<Vec<u8>> {
    vec![b"ab".to_vec(), vec![], vec![0xff]]
}

const ENCODED: [u8; 19] = [3, 0, 0, 0, 2, 0, 0, 0, b'a', b'b', 0, 0, 0, 0, 1, 0, 0, 0, 0xff];

#[test]
fn chunk_representation_sizes() {
    assert_eq!(representation(vec![2, 3]).num_elements(), 6);
    assert_eq!(representation(vec![]).num_elements(), 1);
    assert_eq!(representation(vec![u64::MAX, 0]).num_elements(), 0);
    assert!(ChunkRepresentation::new(vec![u64::MAX, 2]).is_none());
    assert!(ChunkRepresentation::new(vec![u64::MAX, 2, 0]).is_some());
    assert_eq!(representation(vec![4, 5]).shape(), &vec![4, 5]);
}

#[test]
fn vlen_encode_exact_bytes() {
    let codec = VlenV2Codec::new();
    let bytes = codec.encode(&elements(), &representation(vec![3])).unwrap();
    assert_eq!(bytes, ENCODED.to_vec());
}

#[test]
fn vlen_round_trip() {
    let codec = VlenV2Codec::new();
    let rep = representation(vec![1, 3]);
    let bytes = codec.encode(&elements(), &rep).unwrap();
    assert_eq!(codec.decode(&bytes, &rep).unwrap(), elements());
    let empty: Vec<Vec<u8>> = vec![];
    let empty_rep = representation(vec![0]);
    let bytes = codec.encode(&empty, &empty_rep).unwrap();
    assert_eq!(bytes, vec![0, 0, 0, 0]);
    assert_eq!(codec.decode(&bytes, &empty_rep).unwrap(), empty);
}

#[test]
fn vlen_encode_wrong_count() {
    let codec = VlenV2Codec::new();
    let err = codec.encode(&elements(), &representation(vec![2])).unwrap_err();
    assert_eq!(err, CodecError::UnexpectedElementCount { expected: 2, got: 3 });
}

#[test]
fn vlen_decode_malformed() {
    let codec = VlenV2Codec::new();
    let rep = representation(vec![3]);
    assert_eq!(codec.decode(&ENCODED[..18], &rep).unwrap_err(), CodecError::InvalidEncoding);
    let mut trailing = ENCODED.to_vec();
    trailing.push(0);
    assert_eq!(codec.decode(&trailing, &rep).unwrap_err(), CodecError::InvalidEncoding);
    assert_eq!(
        codec.decode(&ENCODED, &representation(vec![2])).unwrap_err(),
        CodecError::InvalidEncoding
    );
    assert_eq!(codec.decode(&[3, 0, 0], &rep).unwrap_err(), CodecError::InvalidEncoding);
    let too_long = [1, 0, 0, 0, 9, 0, 0, 0, 1];
    assert_eq!(
        codec.decode(&too_long, &representation(vec![1])).unwrap_err(),
        CodecError::InvalidEncoding
    );
}

#[test]
fn vlen_partial_decode_matches_full_decode() {
    let codec = VlenV2Codec::new();
    let rep = representation(vec![3]);
    assert!(codec.partial_decoder_decodes_all());
    assert!(!codec.partial_decoder_should_cache_input());
    let full = codec.decode(&ENCODED, &rep).unwrap();
    for start in 0..=3u64 {
        for count in 0..=(3 - start) {
            let part = codec.partial_decode(&ENCODED, &rep, start, count).unwrap();
            assert_eq!(part, full[start as usize..(start + count) as usize].to_vec());
        }
    }
    assert_eq!(
        codec.partial_decode(&ENCODED, &rep, 2, 2).unwrap_err(),
        CodecError::InvalidSubset
    );
    assert_eq!(
        codec.partial_decode(&ENCODED[..5], &rep, 0, 1).unwrap_err(),
        CodecError::InvalidEncoding
    );
}

#[test]
fn vlen_hints_and_partial_encode() {
    let codec = VlenV2Codec::new();
    let rep = representation(vec![3]);
    assert_eq!(codec.encoded_representation(&rep), BytesRepresentation::UnboundedSize);
    assert_eq!(
        codec.recommended_concurrency(&rep),
        RecommendedConcurrency { min: 1, max: 1 }
    );
    assert_eq!(
        codec.partial_encode(&ENCODED, &rep, 0, &elements()).unwrap_err(),
        CodecError::UnsupportedOperation
    );
}

#[test]
fn alias_codec_delegates() {
    let codec = VlenV2AliasCodec::new(VlenV2Name::VlenUtf8);
    assert_eq!(codec.identifier(), "vlen-utf8");
    let rep = representation(vec![3]);
    let bytes = codec.encode(&elements(), &rep).unwrap();
    assert_eq!(bytes, ENCODED.to_vec());
    assert_eq!(codec.decode(&bytes, &rep).unwrap(), elements());
    assert_eq!(codec.partial_decode(&bytes, &rep, 1, 2).unwrap(), vec![vec![], vec![0xff]]);
    assert!(codec.partial_decoder_decodes_all());
    assert_eq!(VlenV2AliasCodec::new(VlenV2Name::VlenArray).identifier(), "vlen-array");
    assert_eq!(VlenV2AliasCodec::new(VlenV2Name::VlenBytes).identifier(), "vlen-bytes");
}

#[test]
fn alias_naming_follows_option() {
    let codec = VlenV2AliasCodec::new(VlenV2Name::VlenBytes);
    let mut aliases = CodecAliases::new();
    let mut options = CodecMetadataOptions::new();
    assert_eq!(codec.default_name(&aliases, &options), "vlen-bytes");
    aliases.set_default_name("vlen-bytes", "numcodecs.vlen-bytes");
    assert_eq!(codec.create_metadata(&aliases, &options).name(), "vlen-bytes");
    options.set_convert_aliased_extension_names(true);
    let metadata = codec.create_metadata(&aliases, &options);
    assert_eq!(metadata.name(), "numcodecs.vlen-bytes");
    assert!(metadata.configuration().is_none());
    aliases.set_default_name("vlen-bytes", "bytes-v2");
    assert_eq!(codec.default_name(&aliases, &options), "bytes-v2");
    assert_eq!(aliases.alias("vlen-utf8"), None);
    assert_eq!(
        VlenV2AliasCodec::new(VlenV2Name::VlenUtf8).default_name(&aliases, &options),
        "vlen-utf8"
    );
}

#[test]
fn codec_from_metadata() {
    let aliases = CodecAliases::new();
    let options = CodecMetadataOptions::new();
    for name in [VlenV2Name::VlenArray, VlenV2Name::VlenBytes, VlenV2Name::VlenUtf8] {
        let codec = VlenV2AliasCodec::new(name);
        let metadata = codec.create_metadata(&aliases, &options);
        assert_eq!(VlenV2AliasCodec::from_metadata(&metadata).unwrap(), codec);
    }
    let err = VlenV2AliasCodec::from_metadata(&MetadataV3::new("bz2")).unwrap_err();
    assert!(matches!(err, PluginCreateError::Unsupported(_)));
    assert_eq!(err.name(), "bz2");
    assert_eq!(err.plugin_type(), "codec");
    let configured = MetadataV3::new_with_configuration(
        "vlen-utf8",
        vec![("level".to_string(), "5".to_string())],
    );
    let err = VlenV2AliasCodec::from_metadata(&configured).unwrap_err();
    assert!(matches!(err, PluginCreateError::MetadataInvalid(_)));
    assert_eq!(err.name(), "vlen-utf8");
}
