//! The shell thumbnail providers: one per registered file extension, each
//! knowing its class identifier, the extension it serves, and the registry
//! keys that bind the two together. The set of providers is closed and built
//! once, as an explicit registry, not as ambient global state.

use vstd::prelude::*;

use crate::registry::Guid;
use crate::registry::RegistryData;
use crate::registry::RegistryKey;
use crate::registry::RegistryValue;
use crate::registry::is_clsid_registration;
use crate::registry::register_clsid;
use crate::registry::spec_guid_chars;
use crate::session::RendererBackend;
use crate::text::string_push;
use crate::text::string_push_chars;
use crate::text::string_push_str;

verus! {

/// The interface identifier of the shell's thumbnail provider interface,
/// under whose `ShellEx` subkey a provider class is attached.
pub const THUMBNAIL_PROVIDER_IID: u128 = 0xe357fccd_a995_4576_b01f_234630154e96;

/// The path of the `ShellEx` key that attaches a provider class to a file
/// extension: `<extension>\ShellEx\{<interface>}`.
pub open spec fn spec_shellex_path(extension: Seq<char>, clsid: Guid) -> Seq<char> {
    extension + "\\ShellEx\\{"@ + spec_guid_chars(THUMBNAIL_PROVIDER_IID as u128) + "}"@
}

/// The braced textual form of a class identifier, `{<identifier>}`: the
/// value stored under the `ShellEx` key.
pub open spec fn spec_braced_guid(clsid: Guid) -> Seq<char> {
    "{"@ + spec_guid_chars(clsid.data) + "}"@
}

/// The complete registration of one provider: its class registration
/// followed by the `ShellEx` key for its extension, holding the braced
/// class identifier as its unnamed value.
pub open spec fn is_provider_registration(
    keys: Seq<RegistryKey>,
    clsid: Guid,
    extension: Seq<char>,
    module_location: Seq<char>,
    disable_process_isolation: bool,
) -> bool {
    &&& keys.len() == 3
    &&& is_clsid_registration(keys.subrange(0, 2), clsid, module_location, disable_process_isolation)
    &&& keys[2].path@ == spec_shellex_path(extension, clsid)
    &&& keys[2].values@.len() == 1
    &&& keys[2].values@[0].0@ == ""@
    &&& keys[2].values@[0].1 matches RegistryData::Str(s) && s@ == spec_braced_guid(clsid)
}

/// A shell thumbnail provider class. Instantiating the provider's COM
/// object for the host is the shell glue's business, outside the library.
pub trait Provider {
    /// The class identifier this provider registers under.
    spec fn spec_clsid(&self) -> Guid;

    /// The file extension this provider serves.
    spec fn spec_extension(&self) -> Seq<char>;

    /// Whether the class asks the shell not to isolate it in a separate
    /// process.
    spec fn spec_disable_process_isolation(&self) -> bool;

    /// The class identifier.
    fn clsid(&self) -> (g: Guid)
        ensures
            g == self.spec_clsid(),
    ;

    /// Every registry key that registers this provider for its extension,
    /// given where the hosting module lives.
    fn register(&self, module_location: &str) -> (r: Vec<RegistryKey>)
        ensures
            is_provider_registration(
                r@,
                self.spec_clsid(),
                self.spec_extension(),
                module_location@,
                self.spec_disable_process_isolation(),
            ),
    ;
}

/// Appends the `ShellEx` key for an extension to a class registration.
fn push_shellex_key(keys: &mut Vec<RegistryKey>, clsid: &Guid, extension: &str)
    ensures
        final(keys)@.len() == old(keys)@.len() + 1,
        forall|i: int| 0 <= i < old(keys)@.len() ==> final(keys)@[i] == old(keys)@[i],
        ({
            let k = final(keys)@[old(keys)@.len() as int];
            &&& k.path@ == spec_shellex_path(extension@, *clsid)
            &&& k.values@.len() == 1
            &&& k.values@[0].0@ == ""@
            &&& k.values@[0].1 matches RegistryData::Str(s) && s@ == spec_braced_guid(*clsid)
        }),
{
    let iid = Guid { data: THUMBNAIL_PROVIDER_IID };
    let iid_chars = iid.to_string();

    let mut path = String::new();
    string_push_str(&mut path, extension);
    string_push_str(&mut path, "\\ShellEx\\{");
    string_push_str(&mut path, iid_chars.as_str());
    string_push(&mut path, '}');
    proof {
        assert("}"@ =~= Seq::<char>::empty().push('}')) by {
            reveal_strlit("}");
        }
        assert(path@ =~= spec_shellex_path(extension@, *clsid));
    }

    let clsid_chars = clsid.to_string();
    let mut braced = String::new();
    string_push(&mut braced, '{');
    string_push_str(&mut braced, clsid_chars.as_str());
    string_push(&mut braced, '}');
    proof {
        assert("{"@ =~= Seq::<char>::empty().push('{')) by {
            reveal_strlit("{");
        }
        assert("}"@ =~= Seq::<char>::empty().push('}')) by {
            reveal_strlit("}");
        }
        assert(braced@ =~= spec_braced_guid(*clsid));
    }

    let mut values: Vec<RegistryValue> = Vec::new();
    values.push(RegistryValue("".to_owned(), RegistryData::Str(braced)));
    keys.push(RegistryKey { path, values });
}

/// A provider that serves thumbnails from an in-memory byte stream the
/// shell hands it, for one file extension.
#[derive(Debug)]
pub struct ThumbnailProvider {
    pub clsid: Guid,
    pub file_extension: &'static str,
}

impl ThumbnailProvider {
    pub fn new(clsid: Guid, file_extension: &'static str) -> (p: Self)
        ensures
            p.clsid == clsid,
            p.file_extension@ == file_extension@,
    {
        ThumbnailProvider { clsid, file_extension }
    }
}

impl Provider for ThumbnailProvider {
    open spec fn spec_clsid(&self) -> Guid {
        self.clsid
    }

    open spec fn spec_extension(&self) -> Seq<char> {
        self.file_extension@
    }

    /// Stream providers run isolated, as the shell prefers.
    open spec fn spec_disable_process_isolation(&self) -> bool {
        false
    }

    fn clsid(&self) -> (g: Guid) {
        self.clsid
    }

    fn register(&self, module_location: &str) -> (r: Vec<RegistryKey>) {
        let mut keys = register_clsid(&self.clsid, module_location, false);
        let ghost before = keys@;
        push_shellex_key(&mut keys, &self.clsid, self.file_extension);
        proof {
            assert(keys@.subrange(0, 2) =~= before);
        }
        keys
    }
}

/// A provider that serves thumbnails from a file path the shell hands it,
/// for one file extension, on a chosen rendering backend.
#[derive(Debug)]
pub struct ThumbnailFileProvider {
    pub clsid: Guid,
    pub file_extension: &'static str,
    pub backend: RendererBackend,
}

impl ThumbnailFileProvider {
    pub fn new(clsid: Guid, file_extension: &'static str, backend: RendererBackend) -> (p: Self)
        ensures
            p.clsid == clsid,
            p.file_extension@ == file_extension@,
            p.backend == backend,
    {
        ThumbnailFileProvider { clsid, file_extension, backend }
    }
}

impl Provider for ThumbnailFileProvider {
    open spec fn spec_clsid(&self) -> Guid {
        self.clsid
    }

    open spec fn spec_extension(&self) -> Seq<char> {
        self.file_extension@
    }

    /// File providers read the file themselves and must not be isolated.
    open spec fn spec_disable_process_isolation(&self) -> bool {
        true
    }

    fn clsid(&self) -> (g: Guid) {
        self.clsid
    }

    fn register(&self, module_location: &str) -> (r: Vec<RegistryKey>) {
        let mut keys = register_clsid(&self.clsid, module_location, true);
        let ghost before = keys@;
        push_shellex_key(&mut keys, &self.clsid, self.file_extension);
        proof {
            assert(keys@.subrange(0, 2) =~= before);
        }
        keys
    }
}

/// One provider of the fixed catalog. The set of import paths and served
/// extensions is closed and known at compile time, so the catalog is a
/// closed tagged union, not open-ended polymorphism.
#[derive(Debug)]
pub enum ProviderEntry {
    Stream(ThumbnailProvider),
    File(ThumbnailFileProvider),
}

impl ProviderEntry {
    /// The class identifier of the entry's provider.
    pub open spec fn spec_clsid(&self) -> Guid {
        match self {
            ProviderEntry::Stream(p) => p.clsid,
            ProviderEntry::File(p) => p.clsid,
        }
    }

    pub fn clsid(&self) -> (g: Guid)
        ensures
            g == self.spec_clsid(),
    {
        match self {
            ProviderEntry::Stream(p) => p.clsid,
            ProviderEntry::File(p) => p.clsid,
        }
    }
}

/// An entry is a stream provider with this class identifier and extension.
pub open spec fn is_stream_provider(e: ProviderEntry, clsid: u128, extension: Seq<char>) -> bool {
    e matches ProviderEntry::Stream(p) && p.clsid.data == clsid && p.file_extension@ == extension
}

/// An entry is a file provider with this class identifier and extension.
pub open spec fn is_file_provider(e: ProviderEntry, clsid: u128, extension: Seq<char>) -> bool {
    e matches ProviderEntry::File(p) && p.clsid.data == clsid && p.file_extension@ == extension
}

/// The fixed provider catalog: a stream provider for each generic-importer
/// extension and a file provider for each structured-scene extension, each
/// under its own class identifier. Built once at startup and passed by
/// reference, never held as ambient global state.
pub fn default_providers() -> (r: Vec<ProviderEntry>)
    ensures
        r@.len() == 10,
        is_stream_provider(r@[0], 0x650a0a50_3a8c_49ca_ba26_13b31965b8ef, ".obj"@),
        is_stream_provider(r@[1], 0xbf2644df_ae9c_4524_8bfd_2d531b837e97, ".fbx"@),
        is_stream_provider(r@[2], 0xb9bcfb2d_6dc4_43a0_b161_64ca282a20ff, ".stl"@),
        is_stream_provider(r@[3], 0x7cacb561_20c5_4b90_bd1c_5aba58b978ca, ".dae"@),
        is_stream_provider(r@[4], 0xb0225f87_babe_4d50_92a9_37c3c668a3e4, ".ply"@),
        is_stream_provider(r@[5], 0x145e37f5_99a1_40f4_b74a_6534524f29ba, ".x3d"@),
        is_stream_provider(r@[6], 0x1ba6aa5e_ac9a_4d3a_bcd5_678e0669fb27, ".x3db"@),
        is_stream_provider(r@[7], 0x93c86d4a_6432_43e2_9082_64bdb6cbfa43, ".3ds"@),
        is_file_provider(r@[8], 0xd13b767b_a97f_4753_a4a3_7c7c15f6b25c, ".gltf"@),
        is_file_provider(r@[9], 0x99ff43f0_d914_4a7a_8325_a8013995c41d, ".glb"@),
{
    let mut r: Vec<ProviderEntry> = Vec::new();
    r.push(
        ProviderEntry::Stream(
            ThumbnailProvider::new(Guid::from_u128(0x650a0a50_3a8c_49ca_ba26_13b31965b8ef), ".obj"),
        ),
    );
    r.push(
        ProviderEntry::Stream(
            ThumbnailProvider::new(Guid::from_u128(0xbf2644df_ae9c_4524_8bfd_2d531b837e97), ".fbx"),
        ),
    );
    r.push(
        ProviderEntry::Stream(
            ThumbnailProvider::new(Guid::from_u128(0xb9bcfb2d_6dc4_43a0_b161_64ca282a20ff), ".stl"),
        ),
    );
    r.push(
        ProviderEntry::Stream(
            ThumbnailProvider::new(Guid::from_u128(0x7cacb561_20c5_4b90_bd1c_5aba58b978ca), ".dae"),
        ),
    );
    r.push(
        ProviderEntry::Stream(
            ThumbnailProvider::new(Guid::from_u128(0xb0225f87_babe_4d50_92a9_37c3c668a3e4), ".ply"),
        ),
    );
    r.push(
        ProviderEntry::Stream(
            ThumbnailProvider::new(Guid::from_u128(0x145e37f5_99a1_40f4_b74a_6534524f29ba), ".x3d"),
        ),
    );
    r.push(
        ProviderEntry::Stream(
            ThumbnailProvider::new(
                Guid::from_u128(0x1ba6aa5e_ac9a_4d3a_bcd5_678e0669fb27),
                ".x3db",
            ),
        ),
    );
    r.push(
        ProviderEntry::Stream(
            ThumbnailProvider::new(Guid::from_u128(0x93c86d4a_6432_43e2_9082_64bdb6cbfa43), ".3ds"),
        ),
    );
    r.push(
        ProviderEntry::File(
            ThumbnailFileProvider::new(
                Guid::from_u128(0xd13b767b_a97f_4753_a4a3_7c7c15f6b25c),
                ".gltf",
                RendererBackend::Vulkan,
            ),
        ),
    );
    r.push(
        ProviderEntry::File(
            ThumbnailFileProvider::new(
                Guid::from_u128(0x99ff43f0_d914_4a7a_8325_a8013995c41d),
                ".glb",
                RendererBackend::Vulkan,
            ),
        ),
    );
    r
}

/// The provider a class-object request selects: the first catalog entry
/// registered under the requested class identifier, or none when no entry
/// carries it.
pub fn find_provider(providers: &Vec<ProviderEntry>, clsid: &Guid) -> (r: Option<usize>)
    ensures
        match r {
            Some(i) => {
                &&& i < providers@.len()
                &&& providers@[i as int].spec_clsid() == *clsid
                &&& forall|j: int| 0 <= j < i ==> providers@[j].spec_clsid() != *clsid
            },
            None => forall|j: int|
                0 <= j < providers@.len() ==> providers@[j].spec_clsid() != *clsid,
        },
{
    let mut i: usize = 0;
    while i < providers.len()
        invariant
            i <= providers@.len(),
            forall|j: int| 0 <= j < i ==> providers@[j].spec_clsid() != *clsid,
        decreases providers@.len() - i,
    {
        let g = providers[i].clsid();
        if g.data == clsid.data {
            return Some(i);
        }
        i = i + 1;
    }
    None
}

} // verus!
