//! The operations that read and update the configuration record.
use vstd::prelude::*;

use crate::config::{PartialToolsetConfig, SerializableToolsetConfig};

verus! {

/// The operation that reads the configuration record.
#[derive(Clone, Copy, Debug)]
pub struct ToolsetReadConfig;

impl ToolsetReadConfig {
    pub fn name() -> (r: &'static str)
        ensures
            r@ == "toolset/readConfig"@,
    {
        "toolset/readConfig"
    }
}

/// The operation that replaces the configuration record.
#[derive(Clone, Debug)]
pub struct ToolsetUpdateConfig(pub PartialToolsetConfig);

impl ToolsetUpdateConfig {
    pub fn name() -> (r: &'static str)
        ensures
            r@ == "toolset/updateConfig"@,
    {
        "toolset/updateConfig"
    }
}

/// The operation that reads the configuration record under its older name.
#[derive(Clone, Copy, Debug)]
pub struct GetToolsetConfig;

impl GetToolsetConfig {
    pub fn name() -> (r: &'static str)
        ensures
            r@ == "get_toolset_config"@,
    {
        "get_toolset_config"
    }
}

/// The operation that stores a record tagged as partial or full.
#[derive(Clone, Debug)]
pub struct SetToolsetConfig {
    pub config: SerializableToolsetConfig,
}

impl SetToolsetConfig {
    pub fn name() -> (r: &'static str)
        ensures
            r@ == "set_toolset_config"@,
    {
        "set_toolset_config"
    }
}

} // verus!
