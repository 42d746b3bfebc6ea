//! Instance bootstrap: the requested API version and the feature
//! switches (debugging, window extensions, descriptor indexing) the
//! instance is created with.

use vstd::prelude::*;

verus! {

/// The API versions an instance can be created for.
#[derive(Clone, Copy, PartialEq, Eq, Structural, Debug)]
pub enum ApiVersion {
    /// Version 1.0.
    Type1_0,
    /// Version 1.1.
    Type1_1,
    /// Version 1.2.
    Type1_2,
    /// Version 1.3.
    Type1_3,
}

impl ApiVersion {
    /// The packed version number the API encodes this version as.
    pub fn as_u32(&self) -> (r: u32)
        ensures
            *self == ApiVersion::Type1_0 ==> r == 4194304,
            *self == ApiVersion::Type1_1 ==> r == 4198400,
            *self == ApiVersion::Type1_2 ==> r == 4202496,
            *self == ApiVersion::Type1_3 ==> r == 4206592,
    {
        match self {
            ApiVersion::Type1_0 => 4194304,
            ApiVersion::Type1_1 => 4198400,
            ApiVersion::Type1_2 => 4202496,
            ApiVersion::Type1_3 => 4206592,
        }
    }
}

/// The created instance, as the decisions it was created from.
pub struct VulkanInstance {
    /// The packed API version requested.
    pub api_version: u32,
    /// Whether debugging extensions and validation were enabled.
    pub debugging: bool,
    /// Whether the window-system extensions were enabled.
    pub window_extensions: bool,
    /// Whether descriptor indexing was enabled.
    pub descriptor_indexing: bool,
}

/// Accumulates the instance creation switches.
pub struct VulkanInstanceBuilder {
    /// The packed API version requested so far; zero until set.
    pub api_version: u32,
    /// Whether debugging extensions and validation were requested.
    pub debugging: bool,
    /// Whether the window-system extensions were requested.
    pub window_extensions: bool,
    /// Whether descriptor indexing was requested.
    pub descriptor_indexing: bool,
}

impl VulkanInstanceBuilder {
    /// A builder with nothing requested.
    pub fn new() -> (r: Self)
        ensures
            r.api_version == 0,
            !r.debugging,
            !r.window_extensions,
            !r.descriptor_indexing,
    {
        Self { api_version: 0, debugging: false, window_extensions: false, descriptor_indexing: false }
    }

    /// Request an API version.
    pub fn set_version(self, version: ApiVersion) -> (r: Self)
        ensures
            version == ApiVersion::Type1_0 ==> r.api_version == 4194304,
            version == ApiVersion::Type1_1 ==> r.api_version == 4198400,
            version == ApiVersion::Type1_2 ==> r.api_version == 4202496,
            version == ApiVersion::Type1_3 ==> r.api_version == 4206592,
            r.debugging == self.debugging,
            r.window_extensions == self.window_extensions,
            r.descriptor_indexing == self.descriptor_indexing,
    {
        let api_version = version.as_u32();
        Self { api_version, ..self }
    }

    /// Request the window-system extensions that presentation needs.
    pub fn enable_window_extensions(self) -> (r: Self)
        ensures
            r.window_extensions,
            r.api_version == self.api_version,
            r.debugging == self.debugging,
            r.descriptor_indexing == self.descriptor_indexing,
    {
        Self { window_extensions: true, ..self }
    }

    /// Request the debug utilities extension and the validation layer.
    pub fn enable_debugging(self) -> (r: Self)
        ensures
            r.debugging,
            r.api_version == self.api_version,
            r.window_extensions == self.window_extensions,
            r.descriptor_indexing == self.descriptor_indexing,
    {
        Self { debugging: true, ..self }
    }

    /// Request descriptor indexing.
    pub fn enable_descriptor_indexing(self) -> (r: Self)
        ensures
            r.descriptor_indexing,
            r.api_version == self.api_version,
            r.debugging == self.debugging,
            r.window_extensions == self.window_extensions,
    {
        Self { descriptor_indexing: true, ..self }
    }

    /// Create the instance with everything requested so far.
    pub fn build(self) -> (r: VulkanInstance)
        ensures
            r.api_version == self.api_version,
            r.debugging == self.debugging,
            r.window_extensions == self.window_extensions,
            r.descriptor_indexing == self.descriptor_indexing,
    {
        VulkanInstance {
            api_version: self.api_version,
            debugging: self.debugging,
            window_extensions: self.window_extensions,
            descriptor_indexing: self.descriptor_indexing,
        }
    }
}

impl VulkanInstance {
    /// A builder with nothing requested.
    pub fn builder() -> (r: VulkanInstanceBuilder)
        ensures
            r.api_version == 0,
            !r.debugging,
            !r.window_extensions,
            !r.descriptor_indexing,
    {
        VulkanInstanceBuilder::new()
    }
}

} // verus!
