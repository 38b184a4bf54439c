use std::sync::Arc;

use vstd::prelude::*;
use vstd::utf8::encode_utf8;

use crate::bridge::{
    engines_encode,
    engines_owned,
    entries_encode,
    entries_owned,
    FfiapiEngine,
    FfiapiGoStringGoSlice,
    FfiapiMapStringStringEntry,
    FfiapiTransformOptions,
    get_allocation_pointer,
    GoString,
    pointer_for,
    texts_encode,
    texts_owned,
};
use crate::mapping::Defines;
use crate::wrapper::{
    Charset,
    Engine,
    Format,
    JSXMode,
    LegalComments,
    Loader,
    SourceMap,
    SourcesContent,
    Target,
    TreeShaking,
    transform,
};

verus! {

/// What a transform is to do, gathered field by field before the call.
#[derive(Clone, Debug)]
pub struct TransformOptionsBuilder {
    pub source_map: SourceMap,
    pub source_root: String,
    pub sources_content: SourcesContent,
    pub target: Target,
    pub format: Format,
    pub global_name: String,
    pub engines: Vec<Engine>,
    pub minify_whitespace: bool,
    pub minify_identifiers: bool,
    pub minify_syntax: bool,
    pub charset: Charset,
    pub tree_shaking: TreeShaking,
    pub legal_comments: LegalComments,
    pub jsx_mode: JSXMode,
    pub jsx_factory: String,
    pub jsx_fragment: String,
    pub tsconfig_raw: String,
    pub footer: String,
    pub banner: String,
    pub define: Defines,
    pub pure: Vec<String>,
    pub keep_names: bool,
    pub source_file: String,
    pub loader: Loader,
}

/// The configuration of a transform, ready for the call and no longer changed.
pub struct TransformOptions {
    /// What the foreign call is handed: numbers, flags, and addresses with
    /// lengths that refer to the fields below. It stands first, so that it is
    /// let go of before the texts and collections that it refers to.
    pub ffiapi: FfiapiTransformOptions,
    pub source_root: String,
    pub global_name: String,
    pub engines: Vec<FfiapiEngine>,
    pub jsx_factory: String,
    pub jsx_fragment: String,
    pub tsconfig_raw: String,
    pub footer: String,
    pub banner: String,
    pub define: Vec<FfiapiMapStringStringEntry>,
    pub pure: Vec<GoString>,
    pub source_file: String,
}

impl TransformOptionsBuilder {
    /// Nothing is set: every flag is off, every text and collection is empty.
    pub open spec fn is_default(&self) -> bool {
        &&& self.source_map == SourceMap::Off
        &&& self.source_root@.len() == 0
        &&& self.sources_content == SourcesContent::Include
        &&& self.target == Target::ESNext
        &&& self.format == Format::Default
        &&& self.global_name@.len() == 0
        &&& self.engines@.len() == 0
        &&& !self.minify_whitespace
        &&& !self.minify_identifiers
        &&& !self.minify_syntax
        &&& self.charset == Charset::Default
        &&& self.tree_shaking == TreeShaking::Default
        &&& self.legal_comments == LegalComments::Default
        &&& self.jsx_mode == JSXMode::Transform
        &&& self.jsx_factory@.len() == 0
        &&& self.jsx_fragment@.len() == 0
        &&& self.tsconfig_raw@.len() == 0
        &&& self.footer@.len() == 0
        &&& self.banner@.len() == 0
        &&& self.define@.len() == 0
        &&& self.pure@.len() == 0
        &&& !self.keep_names
        &&& self.source_file@.len() == 0
        &&& self.loader == Loader::Unset
    }

    pub fn new() -> (made: TransformOptionsBuilder)
        ensures
            made.is_default(),
    {
        TransformOptionsBuilder {
            source_map: SourceMap::Off,
            source_root: String::new(),
            sources_content: SourcesContent::Include,
            target: Target::ESNext,
            format: Format::Default,
            global_name: String::new(),
            engines: Vec::new(),
            minify_whitespace: false,
            minify_identifiers: false,
            minify_syntax: false,
            charset: Charset::Default,
            tree_shaking: TreeShaking::Default,
            legal_comments: LegalComments::Default,
            jsx_mode: JSXMode::Transform,
            jsx_factory: String::new(),
            jsx_fragment: String::new(),
            tsconfig_raw: String::new(),
            footer: String::new(),
            banner: String::new(),
            define: Defines::new(),
            pure: Vec::new(),
            keep_names: false,
            source_file: String::new(),
            loader: Loader::Unset,
        }
    }

    /// Turns the builder into the configuration that a call takes. The texts and
    /// collections move into the result, each element encoded for the far side,
    /// and the result is shared from then on. Beside them stands what the call
    /// is handed: the flags, the bytes of the choices, and for every text and
    /// collection its address and length.
    pub fn build(self) -> (res: Arc<TransformOptions>)
        ensures
            res.wf(),
            res.holds(self),
    {
        let engines = transform(self.engines, FfiapiEngine::from_engine);
        let define = transform(
            self.define.into_entries(),
            FfiapiMapStringStringEntry::from_map_entry,
        );
        let pure = transform(self.pure, GoString::from_string);
        let ffiapi = FfiapiTransformOptions {
            source_map: self.source_map.code(),
            source_root: GoString::from_bytes_unmanaged(self.source_root.as_str().as_bytes()),
            sources_content: self.sources_content.code(),
            target: self.target.code(),
            format: self.format.code(),
            global_name: GoString::from_bytes_unmanaged(self.global_name.as_str().as_bytes()),
            engines: get_allocation_pointer(engines.as_slice()),
            engines_len: engines.len(),
            minify_whitespace: self.minify_whitespace,
            minify_identifiers: self.minify_identifiers,
            minify_syntax: self.minify_syntax,
            charset: self.charset.code(),
            tree_shaking: self.tree_shaking.code(),
            legal_comments: self.legal_comments.code(),
            jsx_mode: self.jsx_mode.code(),
            jsx_factory: GoString::from_bytes_unmanaged(self.jsx_factory.as_str().as_bytes()),
            jsx_fragment: GoString::from_bytes_unmanaged(self.jsx_fragment.as_str().as_bytes()),
            tsconfig_raw: GoString::from_bytes_unmanaged(self.tsconfig_raw.as_str().as_bytes()),
            footer: GoString::from_bytes_unmanaged(self.footer.as_str().as_bytes()),
            banner: GoString::from_bytes_unmanaged(self.banner.as_str().as_bytes()),
            define: get_allocation_pointer(define.as_slice()),
            define_len: define.len(),
            pure: FfiapiGoStringGoSlice::from_vec_unamanged(&pure),
            keep_names: self.keep_names,
            source_file: GoString::from_bytes_unmanaged(self.source_file.as_str().as_bytes()),
            loader: self.loader.code(),
        };
        Arc::new(TransformOptions {
            ffiapi,
            source_root: self.source_root,
            global_name: self.global_name,
            engines,
            jsx_factory: self.jsx_factory,
            jsx_fragment: self.jsx_fragment,
            tsconfig_raw: self.tsconfig_raw,
            footer: self.footer,
            banner: self.banner,
            define,
            pure,
            source_file: self.source_file,
        })
    }
}

impl TransformOptions {
    /// The addresses and lengths handed out are those of the fields they refer
    /// to, and every kept element owns the text it points into.
    pub open spec fn wf(&self) -> bool {
        &&& self.ffiapi.source_root.refers_to(encode_utf8(self.source_root@))
        &&& self.ffiapi.global_name.refers_to(encode_utf8(self.global_name@))
        &&& self.ffiapi.engines == pointer_for(self.engines@.len())
        &&& self.ffiapi.engines_len == self.engines@.len()
        &&& engines_owned(self.engines@)
        &&& self.ffiapi.jsx_factory.refers_to(encode_utf8(self.jsx_factory@))
        &&& self.ffiapi.jsx_fragment.refers_to(encode_utf8(self.jsx_fragment@))
        &&& self.ffiapi.tsconfig_raw.refers_to(encode_utf8(self.tsconfig_raw@))
        &&& self.ffiapi.footer.refers_to(encode_utf8(self.footer@))
        &&& self.ffiapi.banner.refers_to(encode_utf8(self.banner@))
        &&& self.ffiapi.define == pointer_for(self.define@.len())
        &&& self.ffiapi.define_len == self.define@.len()
        &&& entries_owned(self.define@)
        &&& self.ffiapi.pure.describes(self.pure@.len())
        &&& texts_owned(self.pure@)
        &&& self.ffiapi.source_file.refers_to(encode_utf8(self.source_file@))
    }

    /// This configuration is the one that `builder` describes: it keeps the
    /// builder's texts and collections, each element encoded in its place, and
    /// hands out the builder's flags and the bytes of its choices.
    pub open spec fn holds(&self, builder: TransformOptionsBuilder) -> bool {
        &&& self.ffiapi.source_map == builder.source_map.abi_code()
        &&& self.source_root@ == builder.source_root@
        &&& self.ffiapi.sources_content == builder.sources_content.abi_code()
        &&& self.ffiapi.target == builder.target.abi_code()
        &&& self.ffiapi.format == builder.format.abi_code()
        &&& self.global_name@ == builder.global_name@
        &&& engines_encode(self.engines@, builder.engines@)
        &&& self.ffiapi.minify_whitespace == builder.minify_whitespace
        &&& self.ffiapi.minify_identifiers == builder.minify_identifiers
        &&& self.ffiapi.minify_syntax == builder.minify_syntax
        &&& self.ffiapi.charset == builder.charset.abi_code()
        &&& self.ffiapi.tree_shaking == builder.tree_shaking.abi_code()
        &&& self.ffiapi.legal_comments == builder.legal_comments.abi_code()
        &&& self.ffiapi.jsx_mode == builder.jsx_mode.abi_code()
        &&& self.jsx_factory@ == builder.jsx_factory@
        &&& self.jsx_fragment@ == builder.jsx_fragment@
        &&& self.tsconfig_raw@ == builder.tsconfig_raw@
        &&& self.footer@ == builder.footer@
        &&& self.banner@ == builder.banner@
        &&& entries_encode(self.define@, builder.define@)
        &&& texts_encode(self.pure@, builder.pure@)
        &&& self.ffiapi.keep_names == builder.keep_names
        &&& self.source_file@ == builder.source_file@
        &&& self.ffiapi.loader == builder.loader.abi_code()
    }
}

/// A field of length zero is never handed out under a storage address: in a
/// well-formed configuration the fallback address stands exactly where a text
/// or a collection is empty.
pub proof fn lemma_fallback_iff_empty(options: TransformOptions)
    requires
        options.wf(),
    ensures
        options.ffiapi.fallback_iff_empty(),
{
}

/// The configuration of a builder on which nothing was set hands out the
/// fallback address everywhere, with length zero.
pub proof fn lemma_default_points_only_at_fallback(
    options: TransformOptions,
    builder: TransformOptionsBuilder,
)
    requires
        options.wf(),
        options.holds(builder),
        builder.is_default(),
    ensures
        options.ffiapi.points_only_at_fallback(),
{
    assert(encode_utf8(Seq::<char>::empty()) =~= Seq::<u8>::empty());
}

} // verus!
