pub mod api;
pub mod bridge;
pub mod build_options;
pub mod containers;
pub mod mapping;
pub mod transform_options;
pub mod wrapper;

pub use crate::api::build_call::{build_callback, build_direct, BuildInvocationData};
pub use crate::api::future::FutureState;
pub use crate::api::transform_call::{
    transform_callback, transform_direct, transform_direct_unmanaged, TransformCall,
    TransformInvocationData,
};
pub use crate::build_options::{BuildOptions, BuildOptionsBuilder};
pub use crate::containers::{
    BuildResult, EncodingError, Message, OutputFile, SliceContainer, StrContainer, TransformResult,
};
pub use crate::mapping::{Defines, Loaders};
pub use crate::transform_options::{TransformOptions, TransformOptionsBuilder};
pub use crate::wrapper::{
    Charset, Engine, EngineName, EntryPoint, Format, JSXMode, LegalComments, Loader, Platform,
    SourceMap, SourcesContent, Target, TreeShaking,
};
