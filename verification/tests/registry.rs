use space_thumbnails::providers::Provider;
use space_thumbnails::providers::ProviderEntry;
use space_thumbnails::providers::ThumbnailFileProvider;
use space_thumbnails::providers::ThumbnailProvider;
use space_thumbnails::providers::default_providers;
use space_thumbnails::providers::find_provider;
use space_thumbnails::registry::Guid;
use space_thumbnails::registry::RegistryData;
use space_thumbnails::registry::register_clsid;
use space_thumbnails::session::RendererBackend;

#[test]
fn guid_formats_as_grouped_uppercase_hex() {
    let g = Guid::from_u128(0x650a0a50_3a8c_49ca_ba26_13b31965b8ef);
    assert_eq!(g.to_string(), "650A0A50-3A8C-49CA-BA26-13B31965B8EF");
    let zero = Guid::from_u128(0);
    assert_eq!(zero.to_string(), "00000000-0000-0000-0000-000000000000");
    let ones = Guid::from_u128(u128::MAX);
    assert_eq!(ones.to_string(), "FFFFFFFF-FFFF-FFFF-FFFF-FFFFFFFFFFFF");
}

#[test]
fn register_clsid_builds_class_and_server_keys() {
    let g = Guid::from_u128(0x650a0a50_3a8c_49ca_ba26_13b31965b8ef);
    let keys = register_clsid(&g, "C:\\space\\thumbs.dll", false);
    assert_eq!(keys.len(), 2);

    assert_eq!(keys[0].path, "CLSID\\{650A0A50-3A8C-49CA-BA26-13B31965B8EF}");
    assert_eq!(keys[0].values.len(), 2);
    assert_eq!(keys[0].values[0].0, "");
    assert_eq!(
        keys[0].values[0].1,
        RegistryData::Str("Model Thumbnail Handler".to_owned())
    );
    assert_eq!(keys[0].values[1].0, "DisableProcessIsolation");
    assert_eq!(keys[0].values[1].1, RegistryData::U32(0));

    assert_eq!(
        keys[1].path,
        "CLSID\\{650A0A50-3A8C-49CA-BA26-13B31965B8EF}\\InProcServer32"
    );
    assert_eq!(keys[1].values.len(), 2);
    assert_eq!(keys[1].values[0].0, "");
    assert_eq!(keys[1].values[0].1, RegistryData::Str("C:\\space\\thumbs.dll".to_owned()));
    assert_eq!(keys[1].values[1].0, "ThreadingModel");
    assert_eq!(keys[1].values[1].1, RegistryData::Str("Both".to_owned()));
}

#[test]
fn register_clsid_can_disable_process_isolation() {
    let g = Guid::from_u128(0xd13b767b_a97f_4753_a4a3_7c7c15f6b25c);
    let keys = register_clsid(&g, "", true);
    assert_eq!(keys[0].values[1].1, RegistryData::U32(1));
}

#[test]
fn stream_provider_registers_shellex_key() {
    let p = ThumbnailProvider::new(
        Guid::from_u128(0x650a0a50_3a8c_49ca_ba26_13b31965b8ef),
        ".obj",
    );
    let keys = p.register("C:\\space\\thumbs.dll");
    assert_eq!(keys.len(), 3);
    assert_eq!(
        keys[2].path,
        ".obj\\ShellEx\\{E357FCCD-A995-4576-B01F-234630154E96}"
    );
    assert_eq!(keys[2].values.len(), 1);
    assert_eq!(keys[2].values[0].0, "");
    assert_eq!(
        keys[2].values[0].1,
        RegistryData::Str("{650A0A50-3A8C-49CA-BA26-13B31965B8EF}".to_owned())
    );
    // stream providers keep shell process isolation on
    assert_eq!(keys[0].values[1].1, RegistryData::U32(0));
}

#[test]
fn file_provider_disables_process_isolation() {
    let p = ThumbnailFileProvider::new(
        Guid::from_u128(0xd13b767b_a97f_4753_a4a3_7c7c15f6b25c),
        ".gltf",
        RendererBackend::Vulkan,
    );
    let keys = p.register("C:\\space\\thumbs.dll");
    assert_eq!(keys.len(), 3);
    assert_eq!(keys[0].values[1].1, RegistryData::U32(1));
    assert_eq!(
        keys[2].path,
        ".gltf\\ShellEx\\{E357FCCD-A995-4576-B01F-234630154E96}"
    );
}

#[test]
fn catalog_holds_the_ten_registered_extensions() {
    let providers = default_providers();
    assert_eq!(providers.len(), 10);
    let extensions: Vec<&str> = providers
        .iter()
        .map(|p| match p {
            ProviderEntry::Stream(s) => s.file_extension,
            ProviderEntry::File(f) => f.file_extension,
        })
        .collect();
    assert_eq!(
        extensions,
        vec![".obj", ".fbx", ".stl", ".dae", ".ply", ".x3d", ".x3db", ".3ds", ".gltf", ".glb"]
    );
}

#[test]
fn find_provider_selects_by_class_identifier() {
    let providers = default_providers();
    let wanted = Guid::from_u128(0xb0225f87_babe_4d50_92a9_37c3c668a3e4);
    assert_eq!(find_provider(&providers, &wanted), Some(4));
    assert_eq!(providers[4].clsid(), wanted);

    let unknown = Guid::from_u128(0xdeadbeef);
    assert_eq!(find_provider(&providers, &unknown), None);
}
