use zarrs::chunk_key_encoding::default::DefaultChunkKeyEncoding;
use zarrs::chunk_key_encoding::v2::V2ChunkKeyEncoding;
use zarrs::chunk_key_encoding::{
    ChunkKeyEncoding, ChunkKeyEncodingConstructor, ChunkKeyEncodingPlugin,
    ChunkKeyEncodingRegistry, ChunkKeyEncodingTraits, ChunkKeySeparator,
};
use zarrs::metadata::MetadataV3;
use zarrs::plugin::PluginCreateError;
use zarrs::store_key::{data_key, NodePath, StoreKey};

fn separator_metadata(name: &str, separator: &str) -> MetadataV3 {
    MetadataV3::new_with_configuration(
        name,
        vec![("separator".to_string(), separator.to_string())],
    )
}

#[test]
fn slash_nd() {
    let chunk_key_encoding: ChunkKeyEncoding = DefaultChunkKeyEncoding::new_slash().into();
    let key = data_key(&NodePath::root(), &chunk_key_encoding.encode(&[1, 23, 45]));
    assert_eq!(key, StoreKey::new("c/1/23/45").unwrap());
}

#[test]
fn dot_nd() {
    let chunk_key_encoding: ChunkKeyEncoding = DefaultChunkKeyEncoding::new_dot().into();
    let key = data_key(&NodePath::root(), &chunk_key_encoding.encode(&[1, 23, 45]));
    assert_eq!(key, StoreKey::new("c.1.23.45").unwrap());
}

#[test]
fn slash_scalar() {
    let chunk_key_encoding: ChunkKeyEncoding = DefaultChunkKeyEncoding::new_slash().into();
    let key = data_key(&NodePath::root(), &chunk_key_encoding.encode(&[]));
    assert_eq!(key, StoreKey::new("c").unwrap());
}

#[test]
fn dot_scalar() {
    let chunk_key_encoding: ChunkKeyEncoding = DefaultChunkKeyEncoding::new_dot().into();
    let key = data_key(&NodePath::root(), &chunk_key_encoding.encode(&[]));
    assert_eq!(key, StoreKey::new("c").unwrap());
}

#[test]
fn default_distinct_indices_give_distinct_keys() {
    let e = DefaultChunkKeyEncoding::new_dot();
    assert_eq!(e.encode(&[1, 23]).as_str(), "c.1.23");
    assert_eq!(e.encode(&[12, 3]).as_str(), "c.12.3");
    assert_ne!(e.encode(&[1, 23]), e.encode(&[12, 3]));
    assert_ne!(e.encode(&[1, 2]), e.encode(&[1, 2, 0]));
    assert_ne!(e.encode(&[]), e.encode(&[0]));
    let s = DefaultChunkKeyEncoding::new_slash();
    assert_ne!(s.encode(&[10, 0]), s.encode(&[1, 0, 0]));
}

#[test]
fn default_largest_index() {
    let e = DefaultChunkKeyEncoding::default();
    assert_eq!(e.separator(), ChunkKeySeparator::Slash);
    assert_eq!(
        e.encode(&[u64::MAX, 0]).as_str(),
        "c/18446744073709551615/0"
    );
}

#[test]
fn v2_keys() {
    let dot = V2ChunkKeyEncoding::new_dot();
    assert_eq!(dot.encode(&[1, 23, 45]).as_str(), "1.23.45");
    assert_eq!(dot.encode(&[]).as_str(), "0");
    assert_eq!(dot.encode(&[7]).as_str(), "7");
    let slash = V2ChunkKeyEncoding::new_slash();
    assert_eq!(slash.encode(&[1, 23, 45]).as_str(), "1/23/45");
    assert_eq!(V2ChunkKeyEncoding::default().separator(), ChunkKeySeparator::Dot);
}

#[test]
fn metadata_round_trip_for_each_encoding() {
    let encodings: Vec<ChunkKeyEncoding> = vec![
        DefaultChunkKeyEncoding::new_slash().into(),
        DefaultChunkKeyEncoding::new_dot().into(),
        V2ChunkKeyEncoding::new_slash().into(),
        V2ChunkKeyEncoding::new_dot().into(),
    ];
    for encoding in encodings {
        let metadata = encoding.create_metadata();
        let resolved = ChunkKeyEncoding::from_metadata(&metadata).unwrap();
        assert_eq!(resolved, encoding);
        for indices in [&[][..], &[0][..], &[3, 14, 159][..]] {
            assert_eq!(resolved.encode(indices), encoding.encode(indices));
        }
    }
}

#[test]
fn created_metadata_fields() {
    let metadata = DefaultChunkKeyEncoding::new_dot().create_metadata();
    assert_eq!(metadata.name(), "default");
    let configuration = metadata.configuration().unwrap();
    assert_eq!(configuration.len(), 1);
    assert_eq!(configuration[0].0, "separator");
    assert_eq!(configuration[0].1, ".");
    let metadata = V2ChunkKeyEncoding::new_slash().create_metadata();
    assert_eq!(metadata.name(), "v2");
    assert_eq!(metadata.configuration().unwrap()[0].1, "/");
}

#[test]
fn from_metadata_reads_separator() {
    let e = ChunkKeyEncoding::from_metadata(&separator_metadata("default", ".")).unwrap();
    assert_eq!(e, ChunkKeyEncoding::Default(DefaultChunkKeyEncoding::new_dot()));
    let e = ChunkKeyEncoding::from_metadata(&separator_metadata("v2", "/")).unwrap();
    assert_eq!(e, ChunkKeyEncoding::V2(V2ChunkKeyEncoding::new_slash()));
}

#[test]
fn from_metadata_default_separators() {
    let e = ChunkKeyEncoding::from_metadata(&MetadataV3::new("default")).unwrap();
    assert_eq!(e.encode(&[4, 2]).as_str(), "c/4/2");
    let e = ChunkKeyEncoding::from_metadata(&MetadataV3::new_with_configuration("v2", vec![]))
        .unwrap();
    assert_eq!(e.encode(&[4, 2]).as_str(), "4.2");
}

#[test]
fn from_metadata_unsupported_name() {
    let err = ChunkKeyEncoding::from_metadata(&MetadataV3::new("hexagonal")).unwrap_err();
    assert!(matches!(err, PluginCreateError::Unsupported(_)));
    assert_eq!(err.name(), "hexagonal");
    assert_eq!(err.plugin_type(), "chunk key encoding");
}

#[test]
fn from_metadata_invalid_separator() {
    let err = ChunkKeyEncoding::from_metadata(&separator_metadata("default", "-")).unwrap_err();
    assert!(matches!(err, PluginCreateError::MetadataInvalid(_)));
    assert_eq!(err.name(), "default");
    assert_eq!(err.plugin_type(), "chunk key encoding");
    let err = ChunkKeyEncoding::from_metadata(&separator_metadata("v2", "//")).unwrap_err();
    assert!(matches!(err, PluginCreateError::MetadataInvalid(_)));
    assert_eq!(err.name(), "v2");
}

#[test]
fn from_metadata_unknown_field() {
    let metadata = MetadataV3::new_with_configuration(
        "default",
        vec![
            ("separator".to_string(), "/".to_string()),
            ("prefix".to_string(), "x".to_string()),
        ],
    );
    let err = ChunkKeyEncoding::from_metadata(&metadata).unwrap_err();
    assert!(matches!(err, PluginCreateError::MetadataInvalid(_)));
    let metadata =
        MetadataV3::new_with_configuration("default", vec![("sep".to_string(), "/".to_string())]);
    assert!(ChunkKeyEncoding::from_metadata(&metadata).is_err());
}

#[test]
fn registry_first_match_wins() {
    let mut registry = ChunkKeyEncodingRegistry::builtin();
    registry.register(ChunkKeyEncodingPlugin::new(
        "default",
        ChunkKeyEncodingConstructor::V2,
    ));
    assert_eq!(registry.len(), 3);
    let e = registry.from_metadata(&MetadataV3::new("default")).unwrap();
    assert_eq!(e, ChunkKeyEncoding::Default(DefaultChunkKeyEncoding::new_slash()));

    let mut custom = ChunkKeyEncodingRegistry::new();
    custom.register(ChunkKeyEncodingPlugin::new(
        "default",
        ChunkKeyEncodingConstructor::V2,
    ));
    custom.register(ChunkKeyEncodingPlugin::new(
        "default",
        ChunkKeyEncodingConstructor::Default,
    ));
    let e = custom.from_metadata(&MetadataV3::new("default")).unwrap();
    assert_eq!(e, ChunkKeyEncoding::V2(V2ChunkKeyEncoding::new_dot()));
}

#[test]
fn empty_registry_supports_nothing() {
    let registry = ChunkKeyEncodingRegistry::new();
    assert_eq!(registry.len(), 0);
    let err = registry.from_metadata(&MetadataV3::new("default")).unwrap_err();
    assert!(matches!(err, PluginCreateError::Unsupported(_)));
    assert_eq!(err.name(), "default");
}

#[test]
fn plugin_matching() {
    let plugin = ChunkKeyEncodingPlugin::new("v2", ChunkKeyEncodingConstructor::V2);
    assert_eq!(plugin.identifier(), "v2");
    assert!(plugin.match_name("v2"));
    assert!(!plugin.match_name("V2"));
    let e = plugin.create(&MetadataV3::new("anything")).unwrap();
    assert_eq!(e, ChunkKeyEncoding::V2(V2ChunkKeyEncoding::new_dot()));
}

#[test]
fn new_from_concrete_encoding() {
    let e = ChunkKeyEncoding::new(V2ChunkKeyEncoding::new_slash());
    assert_eq!(e.encode(&[5, 6]).as_str(), "5/6");
    let e = ChunkKeyEncoding::new(DefaultChunkKeyEncoding::new(ChunkKeySeparator::Dot));
    assert_eq!(e.encode(&[5, 6]).as_str(), "c.5.6");
}

#[test]
fn separator_strings() {
    assert_eq!(ChunkKeySeparator::from_str("/"), Some(ChunkKeySeparator::Slash));
    assert_eq!(ChunkKeySeparator::from_str("."), Some(ChunkKeySeparator::Dot));
    assert_eq!(ChunkKeySeparator::from_str(""), None);
    assert_eq!(ChunkKeySeparator::from_str("./"), None);
    assert_eq!(ChunkKeySeparator::Dot.as_char(), '.');
    assert_eq!(ChunkKeySeparator::Slash.to_string(), "/");
}
