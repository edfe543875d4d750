use space_thumbnails::import::ImportPath;
use space_thumbnails::import::route_import;

#[test]
fn structured_extensions_route_to_the_structured_importer() {
    assert_eq!(route_import(b"model.gltf"), ImportPath::Structured { binary: false });
    assert_eq!(route_import(b"model.glb"), ImportPath::Structured { binary: true });
    assert_eq!(route_import(b"C:\\scenes\\car.glb"), ImportPath::Structured { binary: true });
    assert_eq!(route_import(b"/home/a/b/model.gltf"), ImportPath::Structured { binary: false });
}

#[test]
fn every_other_extension_routes_to_the_generic_importer() {
    assert_eq!(route_import(b"model.obj"), ImportPath::Generic);
    assert_eq!(route_import(b"model.stl"), ImportPath::Generic);
    assert_eq!(route_import(b"inmemory.fbx"), ImportPath::Generic);
    assert_eq!(route_import(b"model.gltf2"), ImportPath::Generic);
    assert_eq!(route_import(b"model.GLB"), ImportPath::Generic);
}

#[test]
fn names_without_an_extension_route_to_the_generic_importer() {
    assert_eq!(route_import(b"model"), ImportPath::Generic);
    assert_eq!(route_import(b""), ImportPath::Generic);
    assert_eq!(route_import(b".gitignore"), ImportPath::Generic);
    assert_eq!(route_import(b"dir.v2/model"), ImportPath::Generic);
    assert_eq!(route_import(b"trailing."), ImportPath::Generic);
    assert_eq!(route_import(b"dir/.glb"), ImportPath::Generic);
}

#[test]
fn only_the_final_dot_counts() {
    assert_eq!(route_import(b"a.obj.gltf"), ImportPath::Structured { binary: false });
    assert_eq!(route_import(b"a.gltf.obj"), ImportPath::Generic);
}
