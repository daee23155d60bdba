//! Errors of creating a transform from its metadata record.
use vstd::prelude::*;

use crate::metadata::{MetadataModel, MetadataV3};

verus! {

/// No registered plugin of the family matches the record's name.
#[derive(Debug)]
pub struct PluginUnsupportedError {
    name: String,
    plugin_type: String,
}

/// A plugin matched the record's name but rejected its configuration.
#[derive(Debug)]
pub struct PluginMetadataInvalidError {
    identifier: String,
    plugin_type: String,
    metadata: MetadataV3,
}

/// An error of creating a transform from its metadata record.
#[derive(Debug)]
pub enum PluginCreateError {
    /// No plugin matches the name.
    Unsupported(PluginUnsupportedError),
    /// The matching plugin rejected the configuration.
    MetadataInvalid(PluginMetadataInvalidError),
}

/// What a [`PluginCreateError`] holds.
pub enum PluginCreateErrorModel {
    Unsupported { name: Seq<char>, plugin_type: Seq<char> },
    MetadataInvalid { identifier: Seq<char>, plugin_type: Seq<char>, metadata: MetadataModel },
}

impl View for PluginCreateError {
    type V = PluginCreateErrorModel;

    closed spec fn view(&self) -> PluginCreateErrorModel {
        match self {
            PluginCreateError::Unsupported(e) => PluginCreateErrorModel::Unsupported {
                name: e.name@,
                plugin_type: e.plugin_type@,
            },
            PluginCreateError::MetadataInvalid(e) => PluginCreateErrorModel::MetadataInvalid {
                identifier: e.identifier@,
                plugin_type: e.plugin_type@,
                metadata: e.metadata@,
            },
        }
    }
}

impl PluginUnsupportedError {
    /// The error for the name `name` in the plugin family `plugin_type`.
    pub fn new(name: String, plugin_type: String) -> (r: PluginCreateError)
        ensures
            r@ == (PluginCreateErrorModel::Unsupported { name: name@, plugin_type: plugin_type@ }),
    {
        PluginCreateError::Unsupported(PluginUnsupportedError { name, plugin_type })
    }
}

impl PluginMetadataInvalidError {
    /// The error of the plugin `identifier` in the family `plugin_type`, which
    /// rejected `metadata`.
    pub fn new(identifier: &str, plugin_type: &str, metadata: MetadataV3) -> (r: PluginCreateError)
        ensures
            r@ == (PluginCreateErrorModel::MetadataInvalid {
                identifier: identifier@,
                plugin_type: plugin_type@,
                metadata: metadata@,
            }),
    {
        PluginCreateError::MetadataInvalid(
            PluginMetadataInvalidError {
                identifier: String::from_str(identifier),
                plugin_type: String::from_str(plugin_type),
                metadata,
            },
        )
    }
}

impl PluginCreateError {
    /// The name of the record, or the identifier of the plugin that rejected it.
    pub fn name(&self) -> (r: &str)
        ensures
            r@ == match self@ {
                PluginCreateErrorModel::Unsupported { name, .. } => name,
                PluginCreateErrorModel::MetadataInvalid { identifier, .. } => identifier,
            },
    {
        match self {
            PluginCreateError::Unsupported(e) => e.name.as_str(),
            PluginCreateError::MetadataInvalid(e) => e.identifier.as_str(),
        }
    }

    /// The plugin family, such as `chunk key encoding` or `codec`.
    pub fn plugin_type(&self) -> (r: &str)
        ensures
            r@ == match self@ {
                PluginCreateErrorModel::Unsupported { plugin_type, .. } => plugin_type,
                PluginCreateErrorModel::MetadataInvalid { plugin_type, .. } => plugin_type,
            },
    {
        match self {
            PluginCreateError::Unsupported(e) => e.plugin_type.as_str(),
            PluginCreateError::MetadataInvalid(e) => e.plugin_type.as_str(),
        }
    }
}

} // verus!
