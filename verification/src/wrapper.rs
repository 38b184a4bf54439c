use vstd::prelude::*;

verus! {

// Each enumeration crosses the boundary as one byte: the position of the
// variant in its declaration, counted from zero. The foreign side reads the
// same numbers, so the order of the variants is part of the interface.

/// Character set of the output.
#[derive(Clone, Copy, Debug, PartialEq, Eq, Structural)]
pub enum Charset {
    Default,
    ASCII,
    UTF8,
}

impl Charset {
    /// The byte that stands for this variant on the far side.
    pub open spec fn abi_code(self) -> u8 {
        match self {
            Charset::Default => 0u8,
            Charset::ASCII => 1u8,
            Charset::UTF8 => 2u8,
        }
    }

    /// The byte under which this variant crosses the boundary.
    pub fn code(self) -> (c: u8)
        ensures
            c == self.abi_code(),
            c < 3,
    {
        match self {
            Charset::Default => 0u8,
            Charset::ASCII => 1u8,
            Charset::UTF8 => 2u8,
        }
    }
}

/// A JavaScript engine that the output may have to run on.
#[derive(Clone, Copy, Debug, PartialEq, Eq, Structural)]
pub enum EngineName {
    Chrome,
    Edge,
    Firefox,
    IOS,
    Node,
    Safari,
}

impl EngineName {
    /// The byte that stands for this variant on the far side.
    pub open spec fn abi_code(self) -> u8 {
        match self {
            EngineName::Chrome => 0u8,
            EngineName::Edge => 1u8,
            EngineName::Firefox => 2u8,
            EngineName::IOS => 3u8,
            EngineName::Node => 4u8,
            EngineName::Safari => 5u8,
        }
    }

    /// The byte under which this variant crosses the boundary.
    pub fn code(self) -> (c: u8)
        ensures
            c == self.abi_code(),
            c < 6,
    {
        match self {
            EngineName::Chrome => 0u8,
            EngineName::Edge => 1u8,
            EngineName::Firefox => 2u8,
            EngineName::IOS => 3u8,
            EngineName::Node => 4u8,
            EngineName::Safari => 5u8,
        }
    }
}

/// Module format of the output.
#[derive(Clone, Copy, Debug, PartialEq, Eq, Structural)]
pub enum Format {
    Default,
    IIFE,
    CommonJS,
    ESModule,
}

impl Format {
    /// The byte that stands for this variant on the far side.
    pub open spec fn abi_code(self) -> u8 {
        match self {
            Format::Default => 0u8,
            Format::IIFE => 1u8,
            Format::CommonJS => 2u8,
            Format::ESModule => 3u8,
        }
    }

    /// The byte under which this variant crosses the boundary.
    pub fn code(self) -> (c: u8)
        ensures
            c == self.abi_code(),
            c < 4,
    {
        match self {
            Format::Default => 0u8,
            Format::IIFE => 1u8,
            Format::CommonJS => 2u8,
            Format::ESModule => 3u8,
        }
    }
}

/// What is done with JSX syntax.
#[derive(Clone, Copy, Debug, PartialEq, Eq, Structural)]
pub enum JSXMode {
    Transform,
    Preserve,
}

impl JSXMode {
    /// The byte that stands for this variant on the far side.
    pub open spec fn abi_code(self) -> u8 {
        match self {
            JSXMode::Transform => 0u8,
            JSXMode::Preserve => 1u8,
        }
    }

    /// The byte under which this variant crosses the boundary.
    pub fn code(self) -> (c: u8)
        ensures
            c == self.abi_code(),
            c < 2,
    {
        match self {
            JSXMode::Transform => 0u8,
            JSXMode::Preserve => 1u8,
        }
    }
}

/// Where legal comments end up.
#[derive(Clone, Copy, Debug, PartialEq, Eq, Structural)]
pub enum LegalComments {
    Default,
    /// No legal comment is kept.
    Off,
    Inline,
    EndOfFile,
    Linked,
    External,
}

impl LegalComments {
    /// The byte that stands for this variant on the far side.
    pub open spec fn abi_code(self) -> u8 {
        match self {
            LegalComments::Default => 0u8,
            LegalComments::Off => 1u8,
            LegalComments::Inline => 2u8,
            LegalComments::EndOfFile => 3u8,
            LegalComments::Linked => 4u8,
            LegalComments::External => 5u8,
        }
    }

    /// The byte under which this variant crosses the boundary.
    pub fn code(self) -> (c: u8)
        ensures
            c == self.abi_code(),
            c < 6,
    {
        match self {
            LegalComments::Default => 0u8,
            LegalComments::Off => 1u8,
            LegalComments::Inline => 2u8,
            LegalComments::EndOfFile => 3u8,
            LegalComments::Linked => 4u8,
            LegalComments::External => 5u8,
        }
    }
}

/// How the content of a file is interpreted.
#[derive(Clone, Copy, Debug, PartialEq, Eq, Structural)]
pub enum Loader {
    /// No loader is named.
    Unset,
    JS,
    JSX,
    TS,
    TSX,
    JSON,
    Text,
    Base64,
    DataURL,
    File,
    Binary,
    CSS,
    Default,
}

impl Loader {
    /// The byte that stands for this variant on the far side.
    pub open spec fn abi_code(self) -> u8 {
        match self {
            Loader::Unset => 0u8,
            Loader::JS => 1u8,
            Loader::JSX => 2u8,
            Loader::TS => 3u8,
            Loader::TSX => 4u8,
            Loader::JSON => 5u8,
            Loader::Text => 6u8,
            Loader::Base64 => 7u8,
            Loader::DataURL => 8u8,
            Loader::File => 9u8,
            Loader::Binary => 10u8,
            Loader::CSS => 11u8,
            Loader::Default => 12u8,
        }
    }

    /// The byte under which this variant crosses the boundary.
    pub fn code(self) -> (c: u8)
        ensures
            c == self.abi_code(),
            c < 13,
    {
        match self {
            Loader::Unset => 0u8,
            Loader::JS => 1u8,
            Loader::JSX => 2u8,
            Loader::TS => 3u8,
            Loader::TSX => 4u8,
            Loader::JSON => 5u8,
            Loader::Text => 6u8,
            Loader::Base64 => 7u8,
            Loader::DataURL => 8u8,
            Loader::File => 9u8,
            Loader::Binary => 10u8,
            Loader::CSS => 11u8,
            Loader::Default => 12u8,
        }
    }
}

/// The platform that the output is meant for.
#[derive(Clone, Copy, Debug, PartialEq, Eq, Structural)]
pub enum Platform {
    Browser,
    Node,
}

impl Platform {
    /// The byte that stands for this variant on the far side.
    pub open spec fn abi_code(self) -> u8 {
        match self {
            Platform::Browser => 0u8,
            Platform::Node => 1u8,
        }
    }

    /// The byte under which this variant crosses the boundary.
    pub fn code(self) -> (c: u8)
        ensures
            c == self.abi_code(),
            c < 2,
    {
        match self {
            Platform::Browser => 0u8,
            Platform::Node => 1u8,
        }
    }
}

/// Whether a source map is made, and where it goes.
#[derive(Clone, Copy, Debug, PartialEq, Eq, Structural)]
pub enum SourceMap {
    /// No source map is made.
    Off,
    Inline,
    Linked,
    External,
}

impl SourceMap {
    /// The byte that stands for this variant on the far side.
    pub open spec fn abi_code(self) -> u8 {
        match self {
            SourceMap::Off => 0u8,
            SourceMap::Inline => 1u8,
            SourceMap::Linked => 2u8,
            SourceMap::External => 3u8,
        }
    }

    /// The byte under which this variant crosses the boundary.
    pub fn code(self) -> (c: u8)
        ensures
            c == self.abi_code(),
            c < 4,
    {
        match self {
            SourceMap::Off => 0u8,
            SourceMap::Inline => 1u8,
            SourceMap::Linked => 2u8,
            SourceMap::External => 3u8,
        }
    }
}

/// Whether a source map carries the sources themselves.
#[derive(Clone, Copy, Debug, PartialEq, Eq, Structural)]
pub enum SourcesContent {
    Include,
    Exclude,
}

impl SourcesContent {
    /// The byte that stands for this variant on the far side.
    pub open spec fn abi_code(self) -> u8 {
        match self {
            SourcesContent::Include => 0u8,
            SourcesContent::Exclude => 1u8,
        }
    }

    /// The byte under which this variant crosses the boundary.
    pub fn code(self) -> (c: u8)
        ensures
            c == self.abi_code(),
            c < 2,
    {
        match self {
            SourcesContent::Include => 0u8,
            SourcesContent::Exclude => 1u8,
        }
    }
}

/// Language version of the output.
#[derive(Clone, Copy, Debug, PartialEq, Eq, Structural)]
pub enum Target {
    ESNext,
    ES5,
    ES2015,
    ES2016,
    ES2017,
    ES2018,
    ES2019,
    ES2020,
}

impl Target {
    /// The byte that stands for this variant on the far side.
    pub open spec fn abi_code(self) -> u8 {
        match self {
            Target::ESNext => 0u8,
            Target::ES5 => 1u8,
            Target::ES2015 => 2u8,
            Target::ES2016 => 3u8,
            Target::ES2017 => 4u8,
            Target::ES2018 => 5u8,
            Target::ES2019 => 6u8,
            Target::ES2020 => 7u8,
        }
    }

    /// The byte under which this variant crosses the boundary.
    pub fn code(self) -> (c: u8)
        ensures
            c == self.abi_code(),
            c < 8,
    {
        match self {
            Target::ESNext => 0u8,
            Target::ES5 => 1u8,
            Target::ES2015 => 2u8,
            Target::ES2016 => 3u8,
            Target::ES2017 => 4u8,
            Target::ES2018 => 5u8,
            Target::ES2019 => 6u8,
            Target::ES2020 => 7u8,
        }
    }
}

/// How unused code is found.
#[derive(Clone, Copy, Debug, PartialEq, Eq, Structural)]
pub enum TreeShaking {
    Default,
    IgnoreAnnotations,
}

impl TreeShaking {
    /// The byte that stands for this variant on the far side.
    pub open spec fn abi_code(self) -> u8 {
        match self {
            TreeShaking::Default => 0u8,
            TreeShaking::IgnoreAnnotations => 1u8,
        }
    }

    /// The byte under which this variant crosses the boundary.
    pub fn code(self) -> (c: u8)
        ensures
            c == self.abi_code(),
            c < 2,
    {
        match self {
            TreeShaking::Default => 0u8,
            TreeShaking::IgnoreAnnotations => 1u8,
        }
    }
}

/// An engine with the version that the output must run on.
#[derive(Clone, Debug)]
pub struct Engine {
    pub name: EngineName,
    pub version: String,
}

/// An entry point with the path that its output is written to.
#[derive(Clone, Debug)]
pub struct EntryPoint {
    pub input_path: String,
    pub output_path: String,
}

/// Maps every element of `src` through `mapper`, in order.
pub fn transform<I, O, T: Fn(I) -> O>(src: Vec<I>, mapper: T) -> (out: Vec<O>)
    requires
        forall|i: int| 0 <= i < src@.len() ==> call_requires(mapper, (#[trigger] src@[i],)),
    ensures
        out@.len() == src@.len(),
        forall|i: int|
            0 <= i < src@.len() ==> call_ensures(mapper, (src@[i],), #[trigger] out@[i]),
{
    let mut out: Vec<O> = Vec::new();
    for item in it: src.into_iter()
        invariant
            it.seq() == src@,
            out@.len() == it.index(),
            forall|i: int| 0 <= i < src@.len() ==> call_requires(mapper, (#[trigger] src@[i],)),
            forall|i: int|
                0 <= i < it.index() ==> call_ensures(mapper, (src@[i],), #[trigger] out@[i]),
    {
        out.push(mapper(item));
    }
    out
}

} // verus!
