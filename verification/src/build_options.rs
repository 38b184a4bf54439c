use std::sync::Arc;

use vstd::prelude::*;
use vstd::utf8::encode_utf8;

use crate::bridge::{
    engines_encode,
    engines_owned,
    entries_encode,
    entries_owned,
    entry_points_encode,
    entry_points_owned,
    FfiapiBuildOptions,
    FfiapiEngine,
    FfiapiEntryPoint,
    FfiapiGoStringGoSlice,
    FfiapiLoader,
    FfiapiMapStringStringEntry,
    get_allocation_pointer,
    GoString,
    loaders_encode,
    loaders_owned,
    pointer_for,
    texts_encode,
    texts_owned,
};
use crate::mapping::{Defines, Loaders};
use crate::wrapper::{
    Charset,
    Engine,
    EntryPoint,
    Format,
    JSXMode,
    LegalComments,
    Platform,
    SourceMap,
    SourcesContent,
    Target,
    TreeShaking,
    transform,
};

verus! {

/// What a build is to do, gathered field by field before the call.
#[derive(Clone, Debug)]
pub struct BuildOptionsBuilder {
    pub source_map: SourceMap,
    pub source_root: String,
    pub sources_content: SourcesContent,
    pub target: Target,
    pub engines: Vec<Engine>,
    pub minify_whitespace: bool,
    pub minify_identifiers: bool,
    pub minify_syntax: bool,
    pub charset: Charset,
    pub tree_shaking: TreeShaking,
    pub legal_comments: LegalComments,
    pub jsx_mode: JSXMode,
    pub jsx_factory: String,
    pub jsx_fragment: String,
    pub define: Defines,
    pub pure: Vec<String>,
    pub keep_names: bool,
    pub global_name: String,
    pub bundle: bool,
    pub preserve_symlinks: bool,
    pub splitting: bool,
    pub outfile: String,
    pub metafile: bool,
    pub outdir: String,
    pub outbase: String,
    pub abs_working_dir: String,
    pub platform: Platform,
    pub format: Format,
    pub external: Vec<String>,
    pub main_fields: Vec<String>,
    pub conditions: Vec<String>,
    pub loader: Loaders,
    pub resolve_extensions: Vec<String>,
    pub tsconfig: String,
    pub out_extensions: Defines,
    pub public_path: String,
    pub inject: Vec<String>,
    pub banner: Defines,
    pub footer: Defines,
    pub node_paths: Vec<String>,
    pub entry_names: String,
    pub chunk_names: String,
    pub asset_names: String,
    pub entry_points: Vec<String>,
    pub entry_points_advanced: Vec<EntryPoint>,
    pub write: bool,
    pub allow_overwrite: bool,
    pub incremental: bool,
}

/// The configuration of a build, ready for the call and no longer changed.
pub struct BuildOptions {
    /// What the foreign call is handed: numbers, flags, and addresses with
    /// lengths that refer to the fields below. It stands first, so that it is
    /// let go of before the texts and collections that it refers to.
    pub ffiapi: FfiapiBuildOptions,
    pub source_root: String,
    pub engines: Vec<FfiapiEngine>,
    pub jsx_factory: String,
    pub jsx_fragment: String,
    pub define: Vec<FfiapiMapStringStringEntry>,
    pub pure: Vec<GoString>,
    pub global_name: String,
    pub outfile: String,
    pub outdir: String,
    pub outbase: String,
    pub abs_working_dir: String,
    pub external: Vec<GoString>,
    pub main_fields: Vec<GoString>,
    pub conditions: Vec<GoString>,
    pub loader: Vec<FfiapiLoader>,
    pub resolve_extensions: Vec<GoString>,
    pub tsconfig: String,
    pub out_extensions: Vec<FfiapiMapStringStringEntry>,
    pub public_path: String,
    pub inject: Vec<GoString>,
    pub banner: Vec<FfiapiMapStringStringEntry>,
    pub footer: Vec<FfiapiMapStringStringEntry>,
    pub node_paths: Vec<GoString>,
    pub entry_names: String,
    pub chunk_names: String,
    pub asset_names: String,
    pub entry_points: Vec<GoString>,
    pub entry_points_advanced: Vec<FfiapiEntryPoint>,
}

impl BuildOptionsBuilder {
    /// Nothing is set: every flag is off, every text and collection is empty.
    pub open spec fn is_default(&self) -> bool {
        &&& self.source_map == SourceMap::Off
        &&& self.source_root@.len() == 0
        &&& self.sources_content == SourcesContent::Include
        &&& self.target == Target::ESNext
        &&& self.engines@.len() == 0
        &&& !self.minify_whitespace
        &&& !self.minify_identifiers
        &&& !self.minify_syntax
        &&& self.charset == Charset::Default
        &&& self.tree_shaking == TreeShaking::Default
        &&& self.legal_comments == LegalComments::Default
        &&& self.jsx_mode == JSXMode::Transform
        &&& self.jsx_factory@.len() == 0
        &&& self.jsx_fragment@.len() == 0
        &&& self.define@.len() == 0
        &&& self.pure@.len() == 0
        &&& !self.keep_names
        &&& self.global_name@.len() == 0
        &&& !self.bundle
        &&& !self.preserve_symlinks
        &&& !self.splitting
        &&& self.outfile@.len() == 0
        &&& !self.metafile
        &&& self.outdir@.len() == 0
        &&& self.outbase@.len() == 0
        &&& self.abs_working_dir@.len() == 0
        &&& self.platform == Platform::Browser
        &&& self.format == Format::Default
        &&& self.external@.len() == 0
        &&& self.main_fields@.len() == 0
        &&& self.conditions@.len() == 0
        &&& self.loader@.len() == 0
        &&& self.resolve_extensions@.len() == 0
        &&& self.tsconfig@.len() == 0
        &&& self.out_extensions@.len() == 0
        &&& self.public_path@.len() == 0
        &&& self.inject@.len() == 0
        &&& self.banner@.len() == 0
        &&& self.footer@.len() == 0
        &&& self.node_paths@.len() == 0
        &&& self.entry_names@.len() == 0
        &&& self.chunk_names@.len() == 0
        &&& self.asset_names@.len() == 0
        &&& self.entry_points@.len() == 0
        &&& self.entry_points_advanced@.len() == 0
        &&& !self.write
        &&& !self.allow_overwrite
        &&& !self.incremental
    }

    pub fn new() -> (made: BuildOptionsBuilder)
        ensures
            made.is_default(),
    {
        BuildOptionsBuilder {
            source_map: SourceMap::Off,
            source_root: String::new(),
            sources_content: SourcesContent::Include,
            target: Target::ESNext,
            engines: Vec::new(),
            minify_whitespace: false,
            minify_identifiers: false,
            minify_syntax: false,
            charset: Charset::Default,
            tree_shaking: TreeShaking::Default,
            legal_comments: LegalComments::Default,
            jsx_mode: JSXMode::Transform,
            jsx_factory: String::new(),
            jsx_fragment: String::new(),
            define: Defines::new(),
            pure: Vec::new(),
            keep_names: false,
            global_name: String::new(),
            bundle: false,
            preserve_symlinks: false,
            splitting: false,
            outfile: String::new(),
            metafile: false,
            outdir: String::new(),
            outbase: String::new(),
            abs_working_dir: String::new(),
            platform: Platform::Browser,
            format: Format::Default,
            external: Vec::new(),
            main_fields: Vec::new(),
            conditions: Vec::new(),
            loader: Loaders::new(),
            resolve_extensions: Vec::new(),
            tsconfig: String::new(),
            out_extensions: Defines::new(),
            public_path: String::new(),
            inject: Vec::new(),
            banner: Defines::new(),
            footer: Defines::new(),
            node_paths: Vec::new(),
            entry_names: String::new(),
            chunk_names: String::new(),
            asset_names: String::new(),
            entry_points: Vec::new(),
            entry_points_advanced: Vec::new(),
            write: false,
            allow_overwrite: false,
            incremental: false,
        }
    }

    /// Turns the builder into the configuration that a call takes. The texts and
    /// collections move into the result, each element encoded for the far side,
    /// and the result is shared from then on. Beside them stands what the call
    /// is handed: the flags, the bytes of the choices, and for every text and
    /// collection its address and length.
    pub fn build(self) -> (res: Arc<BuildOptions>)
        ensures
            res.wf(),
            res.holds(self),
    {
        let engines = transform(self.engines, FfiapiEngine::from_engine);
        let define = transform(
            self.define.into_entries(),
            FfiapiMapStringStringEntry::from_map_entry,
        );
        let pure = transform(self.pure, GoString::from_string);
        let external = transform(self.external, GoString::from_string);
        let main_fields = transform(self.main_fields, GoString::from_string);
        let conditions = transform(self.conditions, GoString::from_string);
        let loader = transform(self.loader.into_entries(), FfiapiLoader::from_map_entry);
        let resolve_extensions = transform(self.resolve_extensions, GoString::from_string);
        let out_extensions = transform(
            self.out_extensions.into_entries(),
            FfiapiMapStringStringEntry::from_map_entry,
        );
        let inject = transform(self.inject, GoString::from_string);
        let banner = transform(
            self.banner.into_entries(),
            FfiapiMapStringStringEntry::from_map_entry,
        );
        let footer = transform(
            self.footer.into_entries(),
            FfiapiMapStringStringEntry::from_map_entry,
        );
        let node_paths = transform(self.node_paths, GoString::from_string);
        let entry_points = transform(self.entry_points, GoString::from_string);
        let entry_points_advanced = transform(
            self.entry_points_advanced,
            FfiapiEntryPoint::from_entry_point,
        );
        let ffiapi = FfiapiBuildOptions {
            source_map: self.source_map.code(),
            source_root: GoString::from_bytes_unmanaged(self.source_root.as_str().as_bytes()),
            sources_content: self.sources_content.code(),
            target: self.target.code(),
            engines: get_allocation_pointer(engines.as_slice()),
            engines_len: engines.len(),
            minify_whitespace: self.minify_whitespace,
            minify_identifiers: self.minify_identifiers,
            minify_syntax: self.minify_syntax,
            charset: self.charset.code(),
            tree_shaking: self.tree_shaking.code(),
            legal_comments: self.legal_comments.code(),
            jsx_mode: self.jsx_mode.code(),
            jsx_factory: GoString::from_bytes_unmanaged(self.jsx_factory.as_str().as_bytes()),
            jsx_fragment: GoString::from_bytes_unmanaged(self.jsx_fragment.as_str().as_bytes()),
            define: get_allocation_pointer(define.as_slice()),
            define_len: define.len(),
            pure: FfiapiGoStringGoSlice::from_vec_unamanged(&pure),
            keep_names: self.keep_names,
            global_name: GoString::from_bytes_unmanaged(self.global_name.as_str().as_bytes()),
            bundle: self.bundle,
            preserve_symlinks: self.preserve_symlinks,
            splitting: self.splitting,
            outfile: GoString::from_bytes_unmanaged(self.outfile.as_str().as_bytes()),
            metafile: self.metafile,
            outdir: GoString::from_bytes_unmanaged(self.outdir.as_str().as_bytes()),
            outbase: GoString::from_bytes_unmanaged(self.outbase.as_str().as_bytes()),
            abs_working_dir: GoString::from_bytes_unmanaged(self.abs_working_dir.as_str().as_bytes()),
            platform: self.platform.code(),
            format: self.format.code(),
            external: FfiapiGoStringGoSlice::from_vec_unamanged(&external),
            main_fields: FfiapiGoStringGoSlice::from_vec_unamanged(&main_fields),
            conditions: FfiapiGoStringGoSlice::from_vec_unamanged(&conditions),
            loader: get_allocation_pointer(loader.as_slice()),
            loader_len: loader.len(),
            resolve_extensions: FfiapiGoStringGoSlice::from_vec_unamanged(&resolve_extensions),
            tsconfig: GoString::from_bytes_unmanaged(self.tsconfig.as_str().as_bytes()),
            out_extensions: get_allocation_pointer(out_extensions.as_slice()),
            out_extensions_len: out_extensions.len(),
            public_path: GoString::from_bytes_unmanaged(self.public_path.as_str().as_bytes()),
            inject: FfiapiGoStringGoSlice::from_vec_unamanged(&inject),
            banner: get_allocation_pointer(banner.as_slice()),
            banner_len: banner.len(),
            footer: get_allocation_pointer(footer.as_slice()),
            footer_len: footer.len(),
            node_paths: FfiapiGoStringGoSlice::from_vec_unamanged(&node_paths),
            entry_names: GoString::from_bytes_unmanaged(self.entry_names.as_str().as_bytes()),
            chunk_names: GoString::from_bytes_unmanaged(self.chunk_names.as_str().as_bytes()),
            asset_names: GoString::from_bytes_unmanaged(self.asset_names.as_str().as_bytes()),
            entry_points: FfiapiGoStringGoSlice::from_vec_unamanged(&entry_points),
            entry_points_advanced: get_allocation_pointer(entry_points_advanced.as_slice()),
            entry_points_advanced_len: entry_points_advanced.len(),
            write: self.write,
            allow_overwrite: self.allow_overwrite,
            incremental: self.incremental,
        };
        Arc::new(BuildOptions {
            ffiapi,
            source_root: self.source_root,
            engines,
            jsx_factory: self.jsx_factory,
            jsx_fragment: self.jsx_fragment,
            define,
            pure,
            global_name: self.global_name,
            outfile: self.outfile,
            outdir: self.outdir,
            outbase: self.outbase,
            abs_working_dir: self.abs_working_dir,
            external,
            main_fields,
            conditions,
            loader,
            resolve_extensions,
            tsconfig: self.tsconfig,
            out_extensions,
            public_path: self.public_path,
            inject,
            banner,
            footer,
            node_paths,
            entry_names: self.entry_names,
            chunk_names: self.chunk_names,
            asset_names: self.asset_names,
            entry_points,
            entry_points_advanced,
        })
    }
}

impl BuildOptions {
    /// The addresses and lengths handed out are those of the fields they refer
    /// to, and every kept element owns the text it points into.
    pub open spec fn wf(&self) -> bool {
        &&& self.ffiapi.source_root.refers_to(encode_utf8(self.source_root@))
        &&& self.ffiapi.engines == pointer_for(self.engines@.len())
        &&& self.ffiapi.engines_len == self.engines@.len()
        &&& engines_owned(self.engines@)
        &&& self.ffiapi.jsx_factory.refers_to(encode_utf8(self.jsx_factory@))
        &&& self.ffiapi.jsx_fragment.refers_to(encode_utf8(self.jsx_fragment@))
        &&& self.ffiapi.define == pointer_for(self.define@.len())
        &&& self.ffiapi.define_len == self.define@.len()
        &&& entries_owned(self.define@)
        &&& self.ffiapi.pure.describes(self.pure@.len())
        &&& texts_owned(self.pure@)
        &&& self.ffiapi.global_name.refers_to(encode_utf8(self.global_name@))
        &&& self.ffiapi.outfile.refers_to(encode_utf8(self.outfile@))
        &&& self.ffiapi.outdir.refers_to(encode_utf8(self.outdir@))
        &&& self.ffiapi.outbase.refers_to(encode_utf8(self.outbase@))
        &&& self.ffiapi.abs_working_dir.refers_to(encode_utf8(self.abs_working_dir@))
        &&& self.ffiapi.external.describes(self.external@.len())
        &&& texts_owned(self.external@)
        &&& self.ffiapi.main_fields.describes(self.main_fields@.len())
        &&& texts_owned(self.main_fields@)
        &&& self.ffiapi.conditions.describes(self.conditions@.len())
        &&& texts_owned(self.conditions@)
        &&& self.ffiapi.loader == pointer_for(self.loader@.len())
        &&& self.ffiapi.loader_len == self.loader@.len()
        &&& loaders_owned(self.loader@)
        &&& self.ffiapi.resolve_extensions.describes(self.resolve_extensions@.len())
        &&& texts_owned(self.resolve_extensions@)
        &&& self.ffiapi.tsconfig.refers_to(encode_utf8(self.tsconfig@))
        &&& self.ffiapi.out_extensions == pointer_for(self.out_extensions@.len())
        &&& self.ffiapi.out_extensions_len == self.out_extensions@.len()
        &&& entries_owned(self.out_extensions@)
        &&& self.ffiapi.public_path.refers_to(encode_utf8(self.public_path@))
        &&& self.ffiapi.inject.describes(self.inject@.len())
        &&& texts_owned(self.inject@)
        &&& self.ffiapi.banner == pointer_for(self.banner@.len())
        &&& self.ffiapi.banner_len == self.banner@.len()
        &&& entries_owned(self.banner@)
        &&& self.ffiapi.footer == pointer_for(self.footer@.len())
        &&& self.ffiapi.footer_len == self.footer@.len()
        &&& entries_owned(self.footer@)
        &&& self.ffiapi.node_paths.describes(self.node_paths@.len())
        &&& texts_owned(self.node_paths@)
        &&& self.ffiapi.entry_names.refers_to(encode_utf8(self.entry_names@))
        &&& self.ffiapi.chunk_names.refers_to(encode_utf8(self.chunk_names@))
        &&& self.ffiapi.asset_names.refers_to(encode_utf8(self.asset_names@))
        &&& self.ffiapi.entry_points.describes(self.entry_points@.len())
        &&& texts_owned(self.entry_points@)
        &&& self.ffiapi.entry_points_advanced == pointer_for(self.entry_points_advanced@.len())
        &&& self.ffiapi.entry_points_advanced_len == self.entry_points_advanced@.len()
        &&& entry_points_owned(self.entry_points_advanced@)
    }

    /// This configuration is the one that `builder` describes: it keeps the
    /// builder's texts and collections, each element encoded in its place, and
    /// hands out the builder's flags and the bytes of its choices.
    pub open spec fn holds(&self, builder: BuildOptionsBuilder) -> bool {
        &&& self.ffiapi.source_map == builder.source_map.abi_code()
        &&& self.source_root@ == builder.source_root@
        &&& self.ffiapi.sources_content == builder.sources_content.abi_code()
        &&& self.ffiapi.target == builder.target.abi_code()
        &&& engines_encode(self.engines@, builder.engines@)
        &&& self.ffiapi.minify_whitespace == builder.minify_whitespace
        &&& self.ffiapi.minify_identifiers == builder.minify_identifiers
        &&& self.ffiapi.minify_syntax == builder.minify_syntax
        &&& self.ffiapi.charset == builder.charset.abi_code()
        &&& self.ffiapi.tree_shaking == builder.tree_shaking.abi_code()
        &&& self.ffiapi.legal_comments == builder.legal_comments.abi_code()
        &&& self.ffiapi.jsx_mode == builder.jsx_mode.abi_code()
        &&& self.jsx_factory@ == builder.jsx_factory@
        &&& self.jsx_fragment@ == builder.jsx_fragment@
        &&& entries_encode(self.define@, builder.define@)
        &&& texts_encode(self.pure@, builder.pure@)
        &&& self.ffiapi.keep_names == builder.keep_names
        &&& self.global_name@ == builder.global_name@
        &&& self.ffiapi.bundle == builder.bundle
        &&& self.ffiapi.preserve_symlinks == builder.preserve_symlinks
        &&& self.ffiapi.splitting == builder.splitting
        &&& self.outfile@ == builder.outfile@
        &&& self.ffiapi.metafile == builder.metafile
        &&& self.outdir@ == builder.outdir@
        &&& self.outbase@ == builder.outbase@
        &&& self.abs_working_dir@ == builder.abs_working_dir@
        &&& self.ffiapi.platform == builder.platform.abi_code()
        &&& self.ffiapi.format == builder.format.abi_code()
        &&& texts_encode(self.external@, builder.external@)
        &&& texts_encode(self.main_fields@, builder.main_fields@)
        &&& texts_encode(self.conditions@, builder.conditions@)
        &&& loaders_encode(self.loader@, builder.loader@)
        &&& texts_encode(self.resolve_extensions@, builder.resolve_extensions@)
        &&& self.tsconfig@ == builder.tsconfig@
        &&& entries_encode(self.out_extensions@, builder.out_extensions@)
        &&& self.public_path@ == builder.public_path@
        &&& texts_encode(self.inject@, builder.inject@)
        &&& entries_encode(self.banner@, builder.banner@)
        &&& entries_encode(self.footer@, builder.footer@)
        &&& texts_encode(self.node_paths@, builder.node_paths@)
        &&& self.entry_names@ == builder.entry_names@
        &&& self.chunk_names@ == builder.chunk_names@
        &&& self.asset_names@ == builder.asset_names@
        &&& texts_encode(self.entry_points@, builder.entry_points@)
        &&& entry_points_encode(self.entry_points_advanced@, builder.entry_points_advanced@)
        &&& self.ffiapi.write == builder.write
        &&& self.ffiapi.allow_overwrite == builder.allow_overwrite
        &&& self.ffiapi.incremental == builder.incremental
    }
}

/// A field of length zero is never handed out under a storage address: in a
/// well-formed configuration the fallback address stands exactly where a text
/// or a collection is empty.
pub proof fn lemma_fallback_iff_empty(options: BuildOptions)
    requires
        options.wf(),
    ensures
        options.ffiapi.fallback_iff_empty(),
{
}

/// The configuration of a builder on which nothing was set hands out the
/// fallback address everywhere, with length zero.
pub proof fn lemma_default_points_only_at_fallback(
    options: BuildOptions,
    builder: BuildOptionsBuilder,
)
    requires
        options.wf(),
        options.holds(builder),
        builder.is_default(),
    ensures
        options.ffiapi.points_only_at_fallback(),
{
    assert(encode_utf8(Seq::<char>::empty()) =~= Seq::<u8>::empty());
}

} // verus!
