use video_texture::binding::{BindingError, BindingRegistry};
use video_texture::source::{
    create_source, CrossOriginPolicy, ExternalFrameHandle, SourceOptions, SourceSetup,
};
use video_texture::texture::TextureIdentity;

fn playing_source() -> ExternalFrameHandle {
    let options = SourceOptions {
        muted: true,
        looped: true,
        cross_origin: CrossOriginPolicy::Anonymous,
    };
    let mut setup = SourceSetup::begin(options);
    while setup.next_command().is_some() {
        setup.report(true);
    }
    create_source(String::from("https://media.example/clip.mp4"), &setup).unwrap()
}

#[test]
fn new_binding_has_no_target() {
    let registry = BindingRegistry::new(playing_source());
    assert_eq!(registry.get().target(), None);
    assert!(!registry.is_ready());
    assert_eq!(registry.get().source().uri(), "https://media.example/clip.mp4");
}

#[test]
fn startup_leaves_one_binding_with_a_target() {
    let mut registry = BindingRegistry::new(playing_source());
    assert_eq!(registry.set_target(TextureIdentity { raw: 11 }), Ok(()));
    assert!(registry.is_ready());
    assert_eq!(registry.get().target(), Some(TextureIdentity { raw: 11 }));
    assert_eq!(registry.get(), registry.get());
}

#[test]
fn identity_zero_is_a_target_like_any_other() {
    let mut registry = BindingRegistry::new(playing_source());
    assert_eq!(registry.set_target(TextureIdentity { raw: 0 }), Ok(()));
    assert_eq!(registry.get().target(), Some(TextureIdentity { raw: 0 }));
    assert!(registry.is_ready());
}

#[test]
fn second_write_is_refused_and_changes_nothing() {
    let mut registry = BindingRegistry::new(playing_source());
    assert_eq!(registry.set_target(TextureIdentity { raw: 11 }), Ok(()));
    assert_eq!(
        registry.set_target(TextureIdentity { raw: 12 }),
        Err(BindingError::TargetAlreadySet)
    );
    assert_eq!(registry.get().target(), Some(TextureIdentity { raw: 11 }));
    assert!(registry.is_ready());
}

#[test]
fn repeating_the_same_identity_is_refused_too() {
    let mut registry = BindingRegistry::new(playing_source());
    assert_eq!(registry.set_target(TextureIdentity { raw: 5 }), Ok(()));
    assert_eq!(
        registry.set_target(TextureIdentity { raw: 5 }),
        Err(BindingError::TargetAlreadySet)
    );
    assert_eq!(registry.get().target(), Some(TextureIdentity { raw: 5 }));
}

#[test]
fn setting_the_target_keeps_the_source() {
    let mut registry = BindingRegistry::new(playing_source());
    registry.set_target(TextureIdentity { raw: 1 }).unwrap();
    let source = registry.get().source();
    assert_eq!(source.uri(), "https://media.example/clip.mp4");
    assert!(source.options().muted);
    assert!(source.options().looped);
    assert_eq!(source.options().cross_origin, CrossOriginPolicy::Anonymous);
}
