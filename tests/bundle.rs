use rune_host::bundle::{copy_framework_from, framework_dir_name};
use rune_host::context::RuntimeContext;
use rune_host::surface::SurfaceConfig;

#[test]
fn framework_directory_name() {
    assert_eq!(framework_dir_name("SDL2"), "SDL2.framework");
}

#[test]
fn framework_copy_plan() {
    let dest = vec![String::from("Demo.app"), String::from("Contents"), String::from("Frameworks")];
    let src = vec![String::from("/"), String::from("Library"), String::from("Frameworks")];
    let plan = copy_framework_from(dest, "Ogg", src);
    assert_eq!(plan.source, vec!["/", "Library", "Frameworks", "Ogg.framework"]);
    assert_eq!(plan.destination, vec!["Demo.app", "Contents", "Frameworks", "Ogg.framework"]);
}

#[test]
fn random_identities_differ() {
    let config = SurfaceConfig { width: 1, height: 1, format: 0, present_mode: 0, alpha_mode: 0 };
    let a = RuntimeContext::with_random_identity(config);
    let b = RuntimeContext::with_random_identity(config);
    assert_ne!(a.id, b.id);
    assert_eq!((a.id >> 76) & 0xf, 4);
    assert_eq!(a.generation, 0);
}
