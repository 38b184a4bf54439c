use vstd::prelude::*;
use vstd::utf8::encode_utf8;

use crate::wrapper::{Engine, EntryPoint, Loader};

verus! {

/// Number of zeroed bytes in the buffer that stands in for empty allocations.
pub const FALLBACK_LEN: usize = 1024;

/// Which address a value hands across the call boundary.
///
/// The native allocator gives every empty allocation a non-null placeholder
/// address that the foreign runtime must never see, so an empty value carries
/// the address of one shared, immutable, zero-filled buffer instead.
#[derive(Clone, Copy, Debug, PartialEq, Eq, Structural)]
pub enum AllocationPointer {
    /// The shared zero-filled buffer of `FALLBACK_LEN` bytes.
    Fallback,
    /// The first element of the value's own backing storage.
    Storage,
}

/// The address to hand out for a backing storage of `len` elements.
pub open spec fn pointer_for(len: nat) -> AllocationPointer {
    if len == 0 {
        AllocationPointer::Fallback
    } else {
        AllocationPointer::Storage
    }
}

/// Picks the address under which `data` crosses the boundary: its own storage
/// when it holds anything, the fallback buffer when it is empty.
pub fn get_allocation_pointer<T>(data: &[T]) -> (p: AllocationPointer)
    ensures
        p == pointer_for(data@.len()),
{
    if data.len() == 0 {
        AllocationPointer::Fallback
    } else {
        AllocationPointer::Storage
    }
}

/// A text value as the foreign runtime takes it: an address and a length in
/// bytes. A value made by `from_string` also keeps the text it points into.
pub struct GoString {
    pub p: AllocationPointer,
    pub n: usize,
    /// The text this value owns and points into, if it owns any.
    pub managed: Option<String>,
}

impl GoString {
    /// This value's address and length are those of a text made of `bytes`.
    pub open spec fn describes(&self, bytes: Seq<u8>) -> bool {
        &&& self.n == bytes.len()
        &&& self.p == pointer_for(bytes.len())
    }

    /// This value owns nothing and describes the text `bytes`, which lives elsewhere.
    pub open spec fn refers_to(&self, bytes: Seq<u8>) -> bool {
        self.managed is None && self.describes(bytes)
    }

    /// This value owns a text and points into it.
    pub open spec fn owned(&self) -> bool {
        self.managed matches Some(kept) && self.describes(encode_utf8(kept@))
    }

    /// This value owns the text `text` and points into it.
    pub open spec fn owns(&self, text: Seq<char>) -> bool {
        &&& self.managed matches Some(kept)
        &&& kept@ == text
        &&& self.describes(encode_utf8(text))
    }

    /// What a reader on the far side gets by following the address for `n`
    /// bytes, with `storage` being the bytes of the backing storage.
    pub open spec fn read_spec(&self, storage: Seq<u8>) -> Seq<u8> {
        match self.p {
            AllocationPointer::Fallback => Seq::new(self.n as nat, |i: int| 0u8),
            AllocationPointer::Storage => storage.subrange(0, self.n as int),
        }
    }

    /// The bytes reachable through this value lie inside the memory it points to.
    pub open spec fn in_bounds(&self, storage: Seq<u8>) -> bool {
        match self.p {
            AllocationPointer::Fallback => self.n <= FALLBACK_LEN,
            AllocationPointer::Storage => self.n <= storage.len(),
        }
    }

    /// Takes the text over: the result owns it and points into it.
    pub fn from_string(mut str: String) -> (res: GoString)
        ensures
            res.owns(str@),
    {
        shrink_to_fit(&mut str);
        let bytes = str.as_str().as_bytes();
        let ptr = get_allocation_pointer(bytes);
        let len = bytes.len();
        GoString { p: ptr, n: len, managed: Some(str) }
    }

    /// Describes a text that lives elsewhere. The text must outlive the result.
    pub fn from_bytes_unmanaged(str: &[u8]) -> (res: GoString)
        ensures
            res.refers_to(str@),
    {
        let ptr = get_allocation_pointer(str);
        let len = str.len();
        GoString { p: ptr, n: len, managed: None }
    }

    /// Reads the text back the way the far side does: `n` bytes from the
    /// fallback buffer or from `storage`, the memory behind a storage address.
    /// `None` when the length reaches past that memory.
    pub fn read(&self, storage: &[u8]) -> (out: Option<Vec<u8>>)
        ensures
            out is Some <==> self.in_bounds(storage@),
            out matches Some(bytes) ==> bytes@ == self.read_spec(storage@),
    {
        match self.p {
            AllocationPointer::Fallback => {
                if self.n > FALLBACK_LEN {
                    return None;
                }
                let mut bytes: Vec<u8> = Vec::new();
                let mut i: usize = 0;
                while i < self.n
                    invariant
                        i <= self.n,
                        bytes@ == Seq::new(i as nat, |j: int| 0u8),
                    decreases self.n - i,
                {
                    bytes.push(0u8);
                    i += 1;
                }
                Some(bytes)
            },
            AllocationPointer::Storage => {
                if self.n > storage.len() {
                    return None;
                }
                let mut bytes: Vec<u8> = Vec::new();
                let mut i: usize = 0;
                while i < self.n
                    invariant
                        i <= self.n <= storage@.len(),
                        bytes@ == storage@.subrange(0, i as int),
                    decreases self.n - i,
                {
                    bytes.push(storage[i]);
                    i += 1;
                }
                Some(bytes)
            },
        }
    }
}

/// `String::shrink_to_fit`: gives spare capacity back to the allocator and
/// leaves the text as it was.
#[verifier::external_body]
fn shrink_to_fit(text: &mut String)
    ensures
        final(text)@ == old(text)@,
{
    text.shrink_to_fit();
}

/// `Vec::capacity`: the number of elements the vector has room for, which is
/// never less than the number it holds.
#[verifier::external_body]
fn capacity_of<T>(vec: &Vec<T>) -> (cap: usize)
    ensures
        cap >= vec@.len(),
{
    vec.capacity()
}

/// A sequence as the foreign runtime takes it: an address, the number of
/// elements, and the number of elements there is room for.
#[derive(Clone, Copy, Debug, PartialEq, Eq, Structural)]
pub struct FfiapiGoStringGoSlice {
    pub data: AllocationPointer,
    pub len: usize,
    pub cap: usize,
}

impl FfiapiGoStringGoSlice {
    /// This value's address and length are those of a sequence of `len` elements.
    pub open spec fn describes(&self, len: nat) -> bool {
        &&& self.data == pointer_for(len)
        &&& self.len == len
        &&& self.cap >= len
    }

    /// Describes a vector that lives elsewhere. The vector must outlive the result.
    pub fn from_vec_unamanged<T>(vec: &Vec<T>) -> (res: FfiapiGoStringGoSlice)
        ensures
            res.describes(vec@.len()),
    {
        let ptr = get_allocation_pointer(vec.as_slice());
        let len = vec.len();
        let cap = capacity_of(vec);
        FfiapiGoStringGoSlice { data: ptr, len, cap }
    }
}

/// One entry of a mapping from text to text.
pub struct FfiapiMapStringStringEntry {
    pub name: GoString,
    pub value: GoString,
}

impl FfiapiMapStringStringEntry {
    /// This entry owns the texts `name` and `value`.
    pub open spec fn encodes(&self, name: Seq<char>, value: Seq<char>) -> bool {
        self.name.owns(name) && self.value.owns(value)
    }

    pub fn from_map_entry(entry: (String, String)) -> (res: FfiapiMapStringStringEntry)
        ensures
            res.encodes(entry.0@, entry.1@),
    {
        let (name, value) = entry;
        FfiapiMapStringStringEntry {
            name: GoString::from_string(name),
            value: GoString::from_string(value),
        }
    }
}

/// An engine by the byte of its name, with its version.
pub struct FfiapiEngine {
    pub name: u8,
    pub version: GoString,
}

impl FfiapiEngine {
    /// This value stands for `engine` and owns its version text.
    pub open spec fn encodes(&self, engine: Engine) -> bool {
        self.name == engine.name.abi_code() && self.version.owns(engine.version@)
    }

    pub fn from_engine(engine: Engine) -> (res: FfiapiEngine)
        ensures
            res.encodes(engine),
    {
        FfiapiEngine { name: engine.name.code(), version: GoString::from_string(engine.version) }
    }
}

/// A file extension with the byte of the loader for it.
pub struct FfiapiLoader {
    pub name: GoString,
    pub loader: u8,
}

impl FfiapiLoader {
    /// This value owns the extension `name` and names the loader `loader`.
    pub open spec fn encodes(&self, name: Seq<char>, loader: Loader) -> bool {
        self.name.owns(name) && self.loader == loader.abi_code()
    }

    pub fn from_map_entry(entry: (String, Loader)) -> (res: FfiapiLoader)
        ensures
            res.encodes(entry.0@, entry.1),
    {
        let (name, loader) = entry;
        FfiapiLoader { name: GoString::from_string(name), loader: loader.code() }
    }
}

/// An entry point with the path of its output.
pub struct FfiapiEntryPoint {
    pub input_path: GoString,
    pub output_path: GoString,
}

impl FfiapiEntryPoint {
    /// This value owns the two paths of `entry_point`.
    pub open spec fn encodes(&self, entry_point: EntryPoint) -> bool {
        self.input_path.owns(entry_point.input_path@) && self.output_path.owns(
            entry_point.output_path@,
        )
    }

    pub fn from_entry_point(entry_point: EntryPoint) -> (res: FfiapiEntryPoint)
        ensures
            res.encodes(entry_point),
    {
        FfiapiEntryPoint {
            input_path: GoString::from_string(entry_point.input_path),
            output_path: GoString::from_string(entry_point.output_path),
        }
    }
}

/// `encoded` holds the engines of `engines`, one for one and in order.
pub open spec fn engines_encode(encoded: Seq<FfiapiEngine>, engines: Seq<Engine>) -> bool {
    &&& encoded.len() == engines.len()
    &&& forall|i: int| 0 <= i < encoded.len() ==> (#[trigger] encoded[i]).encodes(engines[i])
}

/// `encoded` holds the entries of `entries`, one for one and in order.
pub open spec fn entries_encode(
    encoded: Seq<FfiapiMapStringStringEntry>,
    entries: Seq<(Seq<char>, Seq<char>)>,
) -> bool {
    &&& encoded.len() == entries.len()
    &&& forall|i: int|
        0 <= i < encoded.len() ==> (#[trigger] encoded[i]).encodes(entries[i].0, entries[i].1)
}

/// `encoded` holds the entries of `entries`, one for one and in order.
pub open spec fn loaders_encode(
    encoded: Seq<FfiapiLoader>,
    entries: Seq<(Seq<char>, Loader)>,
) -> bool {
    &&& encoded.len() == entries.len()
    &&& forall|i: int|
        0 <= i < encoded.len() ==> (#[trigger] encoded[i]).encodes(entries[i].0, entries[i].1)
}

/// `encoded` holds the texts of `texts`, one for one and in order.
pub open spec fn texts_encode(encoded: Seq<GoString>, texts: Seq<String>) -> bool {
    &&& encoded.len() == texts.len()
    &&& forall|i: int| 0 <= i < encoded.len() ==> (#[trigger] encoded[i]).owns(texts[i]@)
}

/// `encoded` holds the entry points of `entry_points`, one for one and in order.
pub open spec fn entry_points_encode(
    encoded: Seq<FfiapiEntryPoint>,
    entry_points: Seq<EntryPoint>,
) -> bool {
    &&& encoded.len() == entry_points.len()
    &&& forall|i: int|
        0 <= i < encoded.len() ==> (#[trigger] encoded[i]).encodes(entry_points[i])
}

/// Every engine of `encoded` owns its version text.
pub open spec fn engines_owned(encoded: Seq<FfiapiEngine>) -> bool {
    forall|i: int| 0 <= i < encoded.len() ==> (#[trigger] encoded[i]).version.owned()
}

/// Every entry of `encoded` owns its two texts.
pub open spec fn entries_owned(encoded: Seq<FfiapiMapStringStringEntry>) -> bool {
    forall|i: int|
        0 <= i < encoded.len() ==> (#[trigger] encoded[i]).name.owned() && encoded[i].value.owned()
}

/// Every entry of `encoded` owns its extension text.
pub open spec fn loaders_owned(encoded: Seq<FfiapiLoader>) -> bool {
    forall|i: int| 0 <= i < encoded.len() ==> (#[trigger] encoded[i]).name.owned()
}

/// Every element of `encoded` owns its text.
pub open spec fn texts_owned(encoded: Seq<GoString>) -> bool {
    forall|i: int| 0 <= i < encoded.len() ==> (#[trigger] encoded[i]).owned()
}

/// Every entry point of `encoded` owns its two paths.
pub open spec fn entry_points_owned(encoded: Seq<FfiapiEntryPoint>) -> bool {
    forall|i: int|
        0 <= i < encoded.len() ==> (#[trigger] encoded[i]).input_path.owned()
            && encoded[i].output_path.owned()
}

/// The configuration of a build as the foreign call takes it.
pub struct FfiapiBuildOptions {
    pub source_map: u8,
    pub source_root: GoString,
    pub sources_content: u8,
    pub target: u8,
    pub engines: AllocationPointer,
    pub engines_len: usize,
    pub minify_whitespace: bool,
    pub minify_identifiers: bool,
    pub minify_syntax: bool,
    pub charset: u8,
    pub tree_shaking: u8,
    pub legal_comments: u8,
    pub jsx_mode: u8,
    pub jsx_factory: GoString,
    pub jsx_fragment: GoString,
    pub define: AllocationPointer,
    pub define_len: usize,
    pub pure: FfiapiGoStringGoSlice,
    pub keep_names: bool,
    pub global_name: GoString,
    pub bundle: bool,
    pub preserve_symlinks: bool,
    pub splitting: bool,
    pub outfile: GoString,
    pub metafile: bool,
    pub outdir: GoString,
    pub outbase: GoString,
    pub abs_working_dir: GoString,
    pub platform: u8,
    pub format: u8,
    pub external: FfiapiGoStringGoSlice,
    pub main_fields: FfiapiGoStringGoSlice,
    pub conditions: FfiapiGoStringGoSlice,
    pub loader: AllocationPointer,
    pub loader_len: usize,
    pub resolve_extensions: FfiapiGoStringGoSlice,
    pub tsconfig: GoString,
    pub out_extensions: AllocationPointer,
    pub out_extensions_len: usize,
    pub public_path: GoString,
    pub inject: FfiapiGoStringGoSlice,
    pub banner: AllocationPointer,
    pub banner_len: usize,
    pub footer: AllocationPointer,
    pub footer_len: usize,
    pub node_paths: FfiapiGoStringGoSlice,
    pub entry_names: GoString,
    pub chunk_names: GoString,
    pub asset_names: GoString,
    pub entry_points: FfiapiGoStringGoSlice,
    pub entry_points_advanced: AllocationPointer,
    pub entry_points_advanced_len: usize,
    pub write: bool,
    pub allow_overwrite: bool,
    pub incremental: bool,
}

impl FfiapiBuildOptions {
    /// No field of length zero is handed out under a storage address, and no
    /// field that holds something under the fallback address.
    pub open spec fn fallback_iff_empty(&self) -> bool {
        &&& self.source_root.p == AllocationPointer::Fallback <==> self.source_root.n == 0
        &&& self.engines == AllocationPointer::Fallback <==> self.engines_len == 0
        &&& self.jsx_factory.p == AllocationPointer::Fallback <==> self.jsx_factory.n == 0
        &&& self.jsx_fragment.p == AllocationPointer::Fallback <==> self.jsx_fragment.n == 0
        &&& self.define == AllocationPointer::Fallback <==> self.define_len == 0
        &&& self.pure.data == AllocationPointer::Fallback <==> self.pure.len == 0
        &&& self.global_name.p == AllocationPointer::Fallback <==> self.global_name.n == 0
        &&& self.outfile.p == AllocationPointer::Fallback <==> self.outfile.n == 0
        &&& self.outdir.p == AllocationPointer::Fallback <==> self.outdir.n == 0
        &&& self.outbase.p == AllocationPointer::Fallback <==> self.outbase.n == 0
        &&& self.abs_working_dir.p == AllocationPointer::Fallback <==> self.abs_working_dir.n == 0
        &&& self.external.data == AllocationPointer::Fallback <==> self.external.len == 0
        &&& self.main_fields.data == AllocationPointer::Fallback <==> self.main_fields.len == 0
        &&& self.conditions.data == AllocationPointer::Fallback <==> self.conditions.len == 0
        &&& self.loader == AllocationPointer::Fallback <==> self.loader_len == 0
        &&& self.resolve_extensions.data == AllocationPointer::Fallback <==> self.resolve_extensions.len == 0
        &&& self.tsconfig.p == AllocationPointer::Fallback <==> self.tsconfig.n == 0
        &&& self.out_extensions == AllocationPointer::Fallback <==> self.out_extensions_len == 0
        &&& self.public_path.p == AllocationPointer::Fallback <==> self.public_path.n == 0
        &&& self.inject.data == AllocationPointer::Fallback <==> self.inject.len == 0
        &&& self.banner == AllocationPointer::Fallback <==> self.banner_len == 0
        &&& self.footer == AllocationPointer::Fallback <==> self.footer_len == 0
        &&& self.node_paths.data == AllocationPointer::Fallback <==> self.node_paths.len == 0
        &&& self.entry_names.p == AllocationPointer::Fallback <==> self.entry_names.n == 0
        &&& self.chunk_names.p == AllocationPointer::Fallback <==> self.chunk_names.n == 0
        &&& self.asset_names.p == AllocationPointer::Fallback <==> self.asset_names.n == 0
        &&& self.entry_points.data == AllocationPointer::Fallback <==> self.entry_points.len == 0
        &&& self.entry_points_advanced == AllocationPointer::Fallback <==> self.entry_points_advanced_len == 0
    }

    /// Every address handed out is the fallback address and every length is zero.
    pub open spec fn points_only_at_fallback(&self) -> bool {
        &&& self.source_root.p == AllocationPointer::Fallback && self.source_root.n == 0
        &&& self.engines == AllocationPointer::Fallback && self.engines_len == 0
        &&& self.jsx_factory.p == AllocationPointer::Fallback && self.jsx_factory.n == 0
        &&& self.jsx_fragment.p == AllocationPointer::Fallback && self.jsx_fragment.n == 0
        &&& self.define == AllocationPointer::Fallback && self.define_len == 0
        &&& self.pure.data == AllocationPointer::Fallback && self.pure.len == 0
        &&& self.global_name.p == AllocationPointer::Fallback && self.global_name.n == 0
        &&& self.outfile.p == AllocationPointer::Fallback && self.outfile.n == 0
        &&& self.outdir.p == AllocationPointer::Fallback && self.outdir.n == 0
        &&& self.outbase.p == AllocationPointer::Fallback && self.outbase.n == 0
        &&& self.abs_working_dir.p == AllocationPointer::Fallback && self.abs_working_dir.n == 0
        &&& self.external.data == AllocationPointer::Fallback && self.external.len == 0
        &&& self.main_fields.data == AllocationPointer::Fallback && self.main_fields.len == 0
        &&& self.conditions.data == AllocationPointer::Fallback && self.conditions.len == 0
        &&& self.loader == AllocationPointer::Fallback && self.loader_len == 0
        &&& self.resolve_extensions.data == AllocationPointer::Fallback && self.resolve_extensions.len == 0
        &&& self.tsconfig.p == AllocationPointer::Fallback && self.tsconfig.n == 0
        &&& self.out_extensions == AllocationPointer::Fallback && self.out_extensions_len == 0
        &&& self.public_path.p == AllocationPointer::Fallback && self.public_path.n == 0
        &&& self.inject.data == AllocationPointer::Fallback && self.inject.len == 0
        &&& self.banner == AllocationPointer::Fallback && self.banner_len == 0
        &&& self.footer == AllocationPointer::Fallback && self.footer_len == 0
        &&& self.node_paths.data == AllocationPointer::Fallback && self.node_paths.len == 0
        &&& self.entry_names.p == AllocationPointer::Fallback && self.entry_names.n == 0
        &&& self.chunk_names.p == AllocationPointer::Fallback && self.chunk_names.n == 0
        &&& self.asset_names.p == AllocationPointer::Fallback && self.asset_names.n == 0
        &&& self.entry_points.data == AllocationPointer::Fallback && self.entry_points.len == 0
        &&& self.entry_points_advanced == AllocationPointer::Fallback && self.entry_points_advanced_len == 0
    }
}

/// The configuration of a transform as the foreign call takes it.
pub struct FfiapiTransformOptions {
    pub source_map: u8,
    pub source_root: GoString,
    pub sources_content: u8,
    pub target: u8,
    pub format: u8,
    pub global_name: GoString,
    pub engines: AllocationPointer,
    pub engines_len: usize,
    pub minify_whitespace: bool,
    pub minify_identifiers: bool,
    pub minify_syntax: bool,
    pub charset: u8,
    pub tree_shaking: u8,
    pub legal_comments: u8,
    pub jsx_mode: u8,
    pub jsx_factory: GoString,
    pub jsx_fragment: GoString,
    pub tsconfig_raw: GoString,
    pub footer: GoString,
    pub banner: GoString,
    pub define: AllocationPointer,
    pub define_len: usize,
    pub pure: FfiapiGoStringGoSlice,
    pub keep_names: bool,
    pub source_file: GoString,
    pub loader: u8,
}

impl FfiapiTransformOptions {
    /// No field of length zero is handed out under a storage address, and no
    /// field that holds something under the fallback address.
    pub open spec fn fallback_iff_empty(&self) -> bool {
        &&& self.source_root.p == AllocationPointer::Fallback <==> self.source_root.n == 0
        &&& self.global_name.p == AllocationPointer::Fallback <==> self.global_name.n == 0
        &&& self.engines == AllocationPointer::Fallback <==> self.engines_len == 0
        &&& self.jsx_factory.p == AllocationPointer::Fallback <==> self.jsx_factory.n == 0
        &&& self.jsx_fragment.p == AllocationPointer::Fallback <==> self.jsx_fragment.n == 0
        &&& self.tsconfig_raw.p == AllocationPointer::Fallback <==> self.tsconfig_raw.n == 0
        &&& self.footer.p == AllocationPointer::Fallback <==> self.footer.n == 0
        &&& self.banner.p == AllocationPointer::Fallback <==> self.banner.n == 0
        &&& self.define == AllocationPointer::Fallback <==> self.define_len == 0
        &&& self.pure.data == AllocationPointer::Fallback <==> self.pure.len == 0
        &&& self.source_file.p == AllocationPointer::Fallback <==> self.source_file.n == 0
    }

    /// Every address handed out is the fallback address and every length is zero.
    pub open spec fn points_only_at_fallback(&self) -> bool {
        &&& self.source_root.p == AllocationPointer::Fallback && self.source_root.n == 0
        &&& self.global_name.p == AllocationPointer::Fallback && self.global_name.n == 0
        &&& self.engines == AllocationPointer::Fallback && self.engines_len == 0
        &&& self.jsx_factory.p == AllocationPointer::Fallback && self.jsx_factory.n == 0
        &&& self.jsx_fragment.p == AllocationPointer::Fallback && self.jsx_fragment.n == 0
        &&& self.tsconfig_raw.p == AllocationPointer::Fallback && self.tsconfig_raw.n == 0
        &&& self.footer.p == AllocationPointer::Fallback && self.footer.n == 0
        &&& self.banner.p == AllocationPointer::Fallback && self.banner.n == 0
        &&& self.define == AllocationPointer::Fallback && self.define_len == 0
        &&& self.pure.data == AllocationPointer::Fallback && self.pure.len == 0
        &&& self.source_file.p == AllocationPointer::Fallback && self.source_file.n == 0
    }
}

/// Round trip: a text read back through a value that describes it is that
/// text, byte for byte, whatever its length; an empty text is read from the
/// fallback buffer and comes back empty.
pub proof fn lemma_read_gives_text_back(value: GoString, text: Seq<u8>)
    requires
        value.describes(text),
    ensures
        value.in_bounds(text),
        value.read_spec(text) == text,
        text.len() == 0 <==> value.p == AllocationPointer::Fallback,
{
    assert(value.read_spec(text) =~= text);
}

} // verus!
